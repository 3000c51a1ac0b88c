use dialogue_engine::audit::{audit, check_dialogue, check_option, check_target};
use dialogue_engine::{create_locations, Dialogue, DialogueOption, Location, PassiveCheck, Table};

fn world_with(node: Dialogue) -> Table<Location> {
    let mut hall = Location::new("The Hall".to_string());
    hall.add_dialogue("Start".to_string(), node);
    hall.add_dialogue("Talk".to_string(), Dialogue::default());
    let mut yard = Location::new("The Yard".to_string());
    yard.add_dialogue("Bench".to_string(), Dialogue::default());
    let mut world = Table::new();
    world.insert("Hall".to_string(), hall);
    world.insert("Yard".to_string(), yard);
    world
}

fn option(success: Option<&str>, failure: Option<&str>, skill: Option<&str>) -> DialogueOption {
    DialogueOption {
        success_dialogue: success.map(|s| s.to_string()),
        failure_dialogue: failure.map(|s| s.to_string()),
        challenge_attribute: skill.map(|s| s.to_string()),
        challenge_number: skill.map(|_| 8),
        ..Default::default()
    }
}

#[test]
fn targets_resolve_to_locations_and_sibling_nodes_only() {
    let world = world_with(Dialogue::default());
    assert!(check_target(&world, "Hall", &None));
    assert!(check_target(&world, "Hall", &Some("Talk".to_string())));
    assert!(check_target(&world, "Hall", &Some("Yard".to_string())));
    assert!(check_target(&world, "Yard", &Some("Hall".to_string())));
    assert!(!check_target(&world, "Hall", &Some("Bench".to_string())));
    assert!(!check_target(&world, "Yard", &Some("Talk".to_string())));
    assert!(!check_target(&world, "Hall", &Some(String::new())));
    assert!(!check_target(&world, "Attic", &Some("Talk".to_string())));
    assert!(check_target(&world, "Attic", &Some("Hall".to_string())));
}

#[test]
fn option_is_sound_when_targets_and_skill_are() {
    let world = world_with(Dialogue::default());
    assert!(check_option(&world, "Hall", &option(Some("Talk"), None, None)));
    assert!(check_option(&world, "Hall", &option(Some("Yard"), Some("Start"), Some("gizmo"))));
    assert!(check_option(&world, "Hall", &option(None, None, Some("oldtime religion"))));
    assert!(!check_option(&world, "Hall", &option(Some("Tall"), None, None)));
    assert!(!check_option(&world, "Hall", &option(Some("Talk"), Some("Tall"), None)));
    assert!(!check_option(&world, "Hall", &option(Some("Talk"), None, Some("oldtime_religion"))));
    // The default option leads to "Start", which the yard lacks.
    assert!(check_option(&world, "Hall", &DialogueOption::default()));
    assert!(!check_option(&world, "Yard", &DialogueOption::default()));
}

#[test]
fn node_is_sound_when_options_and_passive_checks_are() {
    let check = |skill: &str| PassiveCheck {
        skill: skill.to_string(),
        target: 10,
        success_text: None,
        failure_text: None,
        speaker: None,
    };
    let mut node = Dialogue::default();
    node.options = vec![option(Some("Talk"), None, None), option(Some("Yard"), None, Some("robot"))];
    node.passive_check = vec![check("dossier"), check("arts4")];
    let world = world_with(Dialogue::default());
    assert!(check_dialogue(&world, "Hall", &node));
    assert!(!check_dialogue(&world, "Yard", &node));
    node.passive_check.push(check("gunsmoke"));
    assert!(!check_dialogue(&world, "Hall", &node));
    node.passive_check.pop();
    node.options.push(option(Some("Bench"), None, None));
    assert!(!check_dialogue(&world, "Hall", &node));
    node.options.clear();
    node.passive_check.clear();
    assert!(check_dialogue(&world, "Hall", &node));
    assert!(check_dialogue(&world, "Attic", &node));
}

#[test]
fn audit_lists_exactly_the_unsound_nodes() {
    let mut node = Dialogue::default();
    node.options = vec![option(Some("Tall"), None, None)];
    let world = world_with(node);
    // The hall's "Talk" is the default node, which leads to "Start"; so is the
    // yard's "Bench", and the yard has no "Start".
    let mut found = audit(&world);
    found.sort();
    assert_eq!(
        found,
        vec![
            ("Hall".to_string(), "Start".to_string()),
            ("Yard".to_string(), "Bench".to_string()),
        ]
    );
    assert!(audit(&world_with(Dialogue::default()))
        .iter()
        .all(|(location, _)| location == "Yard"));
    assert!(audit(&Table::new()).is_empty());
}

#[test]
fn audit_of_the_game() {
    let mut found = audit(&create_locations());
    found.sort();
    let expected: Vec<(String, String)> = [
        "BrokenClock",
        "ClockSexual",
        "Mailbox106",
        "Mailbox400LetterListen",
        "Mailbox400LetterPenQuestions",
        "MailboxFirstRow",
        "MailboxSecondRow",
        "MailboxThirdRow",
    ]
    .iter()
    .map(|id| ("Vestibule".to_string(), id.to_string()))
    .collect();
    assert_eq!(found, expected);
}
