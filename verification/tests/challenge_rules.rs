use dialogue_engine::{
    challenge_outcome, evaluate_passive_checks, handle_challenge, roll_dice, roll_outcome,
    DialogueOption, PassiveCheck, Player,
};

fn challenge(skill: Option<&str>, number: Option<i32>) -> DialogueOption {
    DialogueOption {
        challenge_attribute: skill.map(|s| s.to_string()),
        challenge_number: number,
        ..Default::default()
    }
}

fn player_with_gizmo(value: i32) -> Player {
    let mut player = Player::default();
    player.und = 2;
    player.gizmo_mod = value - 2;
    player
}

#[test]
fn double_six_wins_whatever_the_target() {
    assert!(roll_outcome(6, 6, 0, 999));
    assert!(roll_outcome(6, 6, -1000, i32::MAX));
    assert!(roll_outcome(6, 6, i64::MIN, i32::MAX));
}

#[test]
fn double_one_loses_whatever_the_target() {
    assert!(!roll_outcome(1, 1, 0, 0));
    assert!(!roll_outcome(1, 1, 1000, i32::MIN));
    assert!(!roll_outcome(1, 1, i64::MAX, i32::MIN));
}

#[test]
fn every_other_roll_wins_when_the_sum_reaches_the_target() {
    for d1 in 1..=6 {
        for d2 in 1..=6 {
            if (d1, d2) == (6, 6) || (d1, d2) == (1, 1) {
                continue;
            }
            for skill in -3..=9i64 {
                for target in -2..=25 {
                    assert_eq!(
                        roll_outcome(d1, d2, skill, target),
                        (d1 + d2) as i64 + skill >= target as i64,
                        "{d1} {d2} {skill} {target}"
                    );
                }
            }
        }
    }
    assert!(roll_outcome(3, 4, 5, 12));
    assert!(!roll_outcome(3, 4, 5, 13));
}

#[test]
fn roll_outcome_at_the_ends_of_the_integer_range() {
    assert!(roll_outcome(2, 3, i64::MAX, i32::MAX));
    assert!(!roll_outcome(2, 3, i64::MIN, i32::MIN));
    assert!(roll_outcome(i32::MAX, i32::MAX, 0, i32::MAX));
}

#[test]
fn challenge_reads_the_named_skill() {
    let player = player_with_gizmo(5);
    let option = challenge(Some("gizmo"), Some(12));
    assert!(challenge_outcome(&player, &option, 3, 4));
    assert!(!challenge_outcome(&player, &option, 3, 3));
    assert!(challenge_outcome(&player, &option, 6, 6));
    assert!(!challenge_outcome(&player, &option, 1, 1));
}

#[test]
fn challenge_on_an_unknown_skill_counts_zero() {
    let player = player_with_gizmo(5);
    let option = challenge(Some("oldtime_religion"), Some(8));
    assert!(challenge_outcome(&player, &option, 4, 4));
    assert!(!challenge_outcome(&player, &option, 3, 4));
}

#[test]
fn option_without_a_full_challenge_is_lost() {
    let player = player_with_gizmo(50);
    for option in [
        challenge(None, Some(0)),
        challenge(Some("gizmo"), None),
        challenge(None, None),
    ] {
        assert!(!challenge_outcome(&player, &option, 6, 6));
        assert!(!challenge_outcome(&player, &option, 3, 4));
        for _ in 0..50 {
            assert!(!handle_challenge(&player, &option));
        }
    }
}

#[test]
fn dice_show_one_to_six_and_not_one_face_only() {
    let mut seen = [false; 7];
    for _ in 0..2000 {
        let (die1, die2) = roll_dice();
        assert!((1..=6).contains(&die1));
        assert!((1..=6).contains(&die2));
        seen[die1 as usize] = true;
        seen[die2 as usize] = true;
    }
    assert_eq!(seen, [false, true, true, true, true, true, true]);
}

#[test]
fn handled_challenge_is_decided_by_the_dice() {
    // With a skill of 0, target 2 is lost only on two ones and target 13 is won only on two sixes.
    let player = player_with_gizmo(0);
    let easy = challenge(Some("gizmo"), Some(2));
    let hard = challenge(Some("gizmo"), Some(13));
    let mut easy_wins = 0;
    let mut hard_wins = 0;
    for _ in 0..2000 {
        if handle_challenge(&player, &easy) {
            easy_wins += 1;
        }
        if handle_challenge(&player, &hard) {
            hard_wins += 1;
        }
    }
    assert!(easy_wins > 1800 && easy_wins < 2000, "{easy_wins}");
    assert!(hard_wins > 0 && hard_wins < 200, "{hard_wins}");
}

fn check(skill: &str, target: i32, success: Option<&str>, failure: Option<&str>) -> PassiveCheck {
    PassiveCheck {
        skill: skill.to_string(),
        target,
        success_text: success.map(|s| s.to_string()),
        failure_text: failure.map(|s| s.to_string()),
        speaker: Some("Gizmo".to_string()),
    }
}

#[test]
fn passive_check_adds_six_to_the_skill() {
    let player = player_with_gizmo(4);
    assert!(check("gizmo", 10, None, None).passes(&player));
    assert!(!check("gizmo", 11, None, None).passes(&player));
    assert!(check("gizmo", i32::MIN, None, None).passes(&player));
    assert!(!check("gizmo", i32::MAX, None, None).passes(&player));
    // An unknown skill counts zero.
    assert!(check("gunsmoke", 6, None, None).passes(&player));
    assert!(!check("gunsmoke", 7, None, None).passes(&player));
    for skill in -5..=5 {
        for target in -2..=14 {
            let p = player_with_gizmo(skill);
            assert_eq!(check("gizmo", target, None, None).passes(&p), 6 + skill >= target);
        }
    }
}

#[test]
fn passive_check_gives_the_same_result_twice() {
    let player = player_with_gizmo(4);
    let c = check("gizmo", 10, Some("yes"), Some("no"));
    let first = c.passes(&player);
    let second = c.passes(&player);
    assert_eq!(first, second);
    assert_eq!(c.line(&player).unwrap().text, c.line(&player).unwrap().text);
}

#[test]
fn passive_line_follows_the_outcome() {
    let player = player_with_gizmo(4);
    let pass = check("gizmo", 10, Some("yes"), Some("no")).line(&player).unwrap();
    assert_eq!((pass.speaker.as_str(), pass.text.as_str()), ("Gizmo", "yes"));
    let fail = check("gizmo", 11, Some("yes"), Some("no")).line(&player).unwrap();
    assert_eq!((fail.speaker.as_str(), fail.text.as_str()), ("Gizmo", "no"));
    assert!(check("gizmo", 10, None, Some("no")).line(&player).is_none());
    assert!(check("gizmo", 11, Some("yes"), None).line(&player).is_none());
    let mut anonymous = check("gizmo", 10, Some("yes"), None);
    anonymous.speaker = None;
    assert_eq!(anonymous.line(&player).unwrap().speaker, "Narrator");
}

#[test]
fn passive_lines_keep_the_order_of_the_checks() {
    let player = player_with_gizmo(4);
    let checks = vec![
        check("gizmo", 10, Some("first"), None),
        check("gizmo", 11, Some("skipped"), None),
        check("gizmo", 12, None, Some("third")),
        check("gizmo", 0, Some("fourth"), Some("not this")),
    ];
    let texts: Vec<String> = evaluate_passive_checks(&player, &checks)
        .into_iter()
        .map(|line| line.text)
        .collect();
    assert_eq!(texts, vec!["first", "third", "fourth"]);
    assert!(evaluate_passive_checks(&player, &vec![]).is_empty());
}
