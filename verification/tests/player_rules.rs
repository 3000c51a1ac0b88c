use dialogue_engine::player::{CREATION_POINTS, XP_PER_SKILL_POINT};
use dialogue_engine::{Attribute, DialogueApp, GameState, Player, Skill};

const SKILLS: [(Skill, &str, Attribute); 16] = [
    (Skill::Checkmate, "checkmate", Attribute::Tech),
    (Skill::Rocketry, "rocketry", Attribute::Tech),
    (Skill::Pathology, "pathology", Attribute::Tech),
    (Skill::CivicEngineering, "civic engineering", Attribute::Tech),
    (Skill::Apparatchik, "apparatchik", Attribute::Bureaucracy),
    (Skill::Quota, "quota", Attribute::Bureaucracy),
    (Skill::Robot, "robot", Attribute::Bureaucracy),
    (Skill::Dossier, "dossier", Attribute::Bureaucracy),
    (Skill::Delusion, "delusion", Attribute::Arts),
    (Skill::Arts2, "arts2", Attribute::Arts),
    (Skill::Arts3, "arts3", Attribute::Arts),
    (Skill::Arts4, "arts4", Attribute::Arts),
    (Skill::HighProof, "high proof", Attribute::Underworld),
    (Skill::Prohibition, "prohibition", Attribute::Underworld),
    (Skill::Gizmo, "gizmo", Attribute::Underworld),
    (Skill::OldtimeReligion, "oldtime religion", Attribute::Underworld),
];

fn player(tech: i32, arts: i32, bur: i32, und: i32) -> Player {
    let mut player = Player::default();
    player.tech = tech;
    player.arts = arts;
    player.bur = bur;
    player.und = und;
    player
}

#[test]
fn default_player_has_ones_and_nothing_else() {
    let p = Player::default();
    assert_eq!((p.tech, p.arts, p.bur, p.und), (1, 1, 1, 1));
    assert_eq!(p.total_points(), 4);
    assert_eq!(p.remaining_points(), 8);
    assert!(!p.is_valid());
    assert!(p.items.is_empty());
    assert_eq!((p.xp, p.skill_points), (0, 0));
    assert!(p.flags.is_empty());
    assert!(p.dialogues_entered.is_empty());
    for (skill, _, _) in SKILLS {
        assert_eq!(p.modifier(skill), 0);
        assert_eq!(p.skill(skill), 1);
    }
}

#[test]
fn is_valid_on_every_tuple_in_and_around_the_range() {
    let mut valid = 0;
    for t in -1..=8 {
        for a in -1..=8 {
            for b in -1..=8 {
                for u in -1..=8 {
                    let in_range = [t, a, b, u].iter().all(|x| (1..=6).contains(x));
                    let expected = in_range && t + a + b + u == 12;
                    assert_eq!(player(t, a, b, u).is_valid(), expected, "{t} {a} {b} {u}");
                    if expected {
                        valid += 1;
                    }
                }
            }
        }
    }
    assert_eq!(valid, 125);
}

#[test]
fn is_valid_rejects_each_kind_of_violation() {
    assert!(player(3, 3, 3, 3).is_valid());
    assert!(player(6, 4, 1, 1).is_valid());
    assert!(!player(7, 3, 1, 1).is_valid());
    assert!(!player(0, 4, 4, 4).is_valid());
    assert!(!player(3, 3, 3, 2).is_valid());
    assert!(!player(3, 3, 3, 4).is_valid());
    assert!(!player(i32::MAX, i32::MAX, i32::MAX, i32::MAX).is_valid());
    assert!(!player(i32::MIN, i32::MIN, 6, 6).is_valid());
}

#[test]
fn points_are_counted_without_overflow() {
    let p = player(i32::MAX, i32::MAX, i32::MAX, i32::MAX);
    assert_eq!(p.total_points(), 4 * i32::MAX as i64);
    assert_eq!(p.remaining_points(), 12 - 4 * i32::MAX as i64);
    assert_eq!(player(2, 3, 1, 1).remaining_points(), 5);
    assert_eq!(CREATION_POINTS, 12);
}

#[test]
fn skill_is_base_plus_modifier_for_all_sixteen() {
    let mut p = player(2, 3, 4, 5);
    p.checkmate_mod = 1;
    p.rocketry_mod = -2;
    p.pathology_mod = 3;
    p.civic_engineering_mod = -4;
    p.apparatchik_mod = 5;
    p.quota_mod = -6;
    p.robot_mod = 7;
    p.dossier_mod = -8;
    p.delusion_mod = 9;
    p.arts2_mod = -10;
    p.arts3_mod = 11;
    p.arts4_mod = -12;
    p.high_proof_mod = 13;
    p.prohibition_mod = -14;
    p.gizmo_mod = 15;
    p.oldtime_religion_mod = -16;
    let expected: [i64; 16] = [3, 0, 5, -2, 9, -2, 11, -4, 12, -7, 14, -9, 18, -9, 20, -11];
    let getters: [fn(&Player) -> i64; 16] = [
        Player::checkmate,
        Player::rocketry,
        Player::pathology,
        Player::civic_engineering,
        Player::apparatchik,
        Player::quota,
        Player::robot,
        Player::dossier,
        Player::delusion,
        Player::arts2,
        Player::arts3,
        Player::arts4,
        Player::high_proof,
        Player::prohibition,
        Player::gizmo,
        Player::oldtime_religion,
    ];
    for (i, (skill, name, attribute)) in SKILLS.iter().enumerate() {
        assert_eq!(skill.base(), *attribute);
        assert_eq!(skill.name(), *name);
        assert_eq!(Skill::from_name(name), Some(*skill));
        assert_eq!(
            p.skill(*skill),
            p.base(*attribute) as i64 + p.modifier(*skill) as i64
        );
        assert_eq!(p.skill(*skill), expected[i]);
        assert_eq!(getters[i](&p), expected[i]);
        assert_eq!(p.skill_by_name(name), expected[i]);
    }
}

#[test]
fn skill_at_the_ends_of_the_integer_range() {
    let mut p = player(i32::MAX, i32::MIN, 1, 1);
    p.checkmate_mod = i32::MAX;
    p.delusion_mod = i32::MIN;
    assert_eq!(p.checkmate(), 2 * i32::MAX as i64);
    assert_eq!(p.delusion(), 2 * i32::MIN as i64);
}

#[test]
fn unknown_skill_names_score_zero() {
    let p = player(3, 3, 3, 3);
    for name in ["gunsmoke", "transcendence", "oldtime_religion", "", "Checkmate", "gizmo "] {
        assert_eq!(Skill::from_name(name), None, "{name}");
        assert_eq!(p.skill_by_name(name), 0, "{name}");
    }
    assert_eq!(p.skill_by_name("oldtime religion"), 3);
}

#[test]
fn skill_table_lists_the_screen_order() {
    let mut p = player(1, 2, 3, 4);
    p.quota_mod = 10;
    let table = p.skill_table();
    let skills: Vec<Skill> = table.iter().map(|row| row.0).collect();
    assert_eq!(
        skills,
        vec![
            Skill::Checkmate,
            Skill::Rocketry,
            Skill::Pathology,
            Skill::CivicEngineering,
            Skill::Delusion,
            Skill::Arts2,
            Skill::Arts3,
            Skill::Arts4,
            Skill::Quota,
            Skill::Apparatchik,
            Skill::Robot,
            Skill::Dossier,
            Skill::HighProof,
            Skill::Prohibition,
            Skill::Gizmo,
            Skill::OldtimeReligion,
        ]
    );
    let values: Vec<i64> = table.iter().map(|row| row.1).collect();
    assert_eq!(values, vec![1, 1, 1, 1, 2, 2, 2, 2, 13, 3, 3, 3, 4, 4, 4, 4]);
}

#[test]
fn xp_ninety_five_plus_ten() {
    let mut p = Player::default();
    p.xp = 95;
    assert!(p.xp_fits(10));
    p.add_xp(10);
    assert_eq!((p.xp, p.skill_points), (5, 1));
}

#[test]
fn xp_two_hundred_and_fifty_from_zero() {
    let mut p = Player::default();
    p.add_xp(250);
    assert_eq!((p.xp, p.skill_points), (50, 2));
}

#[test]
fn xp_below_and_at_the_threshold() {
    let mut p = Player::default();
    p.add_xp(99);
    assert_eq!((p.xp, p.skill_points), (99, 0));
    p.add_xp(1);
    assert_eq!((p.xp, p.skill_points), (0, 1));
    p.add_xp(0);
    assert_eq!((p.xp, p.skill_points), (0, 1));
    p.add_xp(-30);
    assert_eq!((p.xp, p.skill_points), (-30, 1));
    p.add_xp(130);
    assert_eq!((p.xp, p.skill_points), (0, 2));
    assert_eq!(XP_PER_SKILL_POINT, 100);
}

#[test]
fn xp_fits_tells_when_an_award_cannot_be_taken() {
    let mut p = Player::default();
    p.xp = i32::MAX;
    assert!(!p.xp_fits(1));
    assert!(p.xp_fits(0));
    assert!(p.xp_fits(-1));
    p.xp = i32::MIN;
    assert!(!p.xp_fits(-1));
    p.xp = 0;
    p.skill_points = i32::MAX;
    assert!(p.xp_fits(99));
    assert!(!p.xp_fits(100));
    p.skill_points = i32::MAX - 2;
    assert!(p.xp_fits(299));
    assert!(!p.xp_fits(300));
}

#[test]
fn raising_a_skill_spends_a_point() {
    let mut p = player(3, 3, 3, 3);
    assert!(!p.raise_skill(Skill::Gizmo));
    assert_eq!(p.gizmo(), 3);
    p.skill_points = 2;
    for (skill, _, _) in SKILLS {
        let mut q = player(3, 3, 3, 3);
        q.skill_points = 1;
        assert!(q.raise_skill(skill));
        assert_eq!(q.skill_points, 0);
        for (other, _, _) in SKILLS {
            assert_eq!(q.skill(other), if other == skill { 4 } else { 3 });
        }
        assert!(!q.raise_skill(skill));
    }
    assert!(p.raise_skill(Skill::Gizmo));
    assert!(p.raise_skill(Skill::Gizmo));
    assert!(!p.raise_skill(Skill::Gizmo));
    assert_eq!((p.gizmo(), p.gizmo_mod, p.skill_points), (5, 2, 0));
}

#[test]
fn skills_are_raised_only_on_the_skill_screen() {
    let mut app = DialogueApp::default();
    app.player.skill_points = 1;
    assert!(!app.increase_skill(Skill::Robot));
    assert!(app.start_game());
    assert!(!app.increase_skill(Skill::Robot));
    app.manage_skills();
    assert!(app.increase_skill(Skill::Robot));
    assert!(!app.increase_skill(Skill::Robot));
    assert_eq!(app.player.robot(), 4);
    assert_eq!(app.get_player_skill("robot"), 4);
    assert_eq!(app.get_player_skill("robotics"), 0);
    assert_eq!(app.player.skill_points, 0);
}

#[test]
fn character_creation_gates_the_start() {
    let mut app = DialogueApp::default();
    assert_eq!(app.state, GameState::CharacterCreation);
    assert_eq!(app.remaining_creation_points(), 0);
    assert!(app.set_attribute(Attribute::Tech, 6));
    assert_eq!(app.remaining_creation_points(), -3);
    assert!(!app.start_game());
    assert_eq!(app.state, GameState::CharacterCreation);
    assert!(!app.set_attribute(Attribute::Arts, 0));
    assert!(!app.set_attribute(Attribute::Arts, 7));
    assert_eq!(app.player.arts, 3);
    assert!(app.set_attribute(Attribute::Arts, 1));
    assert!(app.set_attribute(Attribute::Bureaucracy, 1));
    assert_eq!(app.remaining_creation_points(), 1);
    assert!(!app.start_game());
    assert!(app.set_attribute(Attribute::Underworld, 4));
    assert!(app.start_game());
    assert_eq!(app.state, GameState::InGame);
    // The attributes are frozen from here on.
    assert!(!app.set_attribute(Attribute::Tech, 1));
    assert_eq!((app.player.tech, app.player.arts, app.player.bur, app.player.und), (6, 1, 1, 4));
    assert!(!app.start_game());
}
