use dialogue_engine::text::str_eq;
use dialogue_engine::{
    create_locations, Dialogue, DialogueApp, DialogueOption, GameState, Location, Skill, Table,
    Transition,
};

const LOCATIONS: [(&str, &str, &[&str], usize); 9] = [
    ("Outdoors", "Outdoors", &["Vestibule"], 0),
    ("Vestibule", "The Vestibule", &["FirstFloor"], 42),
    (
        "FirstFloor",
        "The First Floor",
        &["Vestibule", "SecondFloor", "ThirdFloor", "FourthFloor"],
        3,
    ),
    (
        "SecondFloor",
        "The Second Floor",
        &["FirstFloor", "ThirdFloor", "FourthFloor"],
        0,
    ),
    (
        "ThirdFloor",
        "The Third Floor",
        &["FirstFloor", "SecondFloor", "FourthFloor"],
        0,
    ),
    (
        "FourthFloor",
        "The Fourth Floor",
        &[
            "FirstFloor",
            "SecondFloor",
            "ThirdFloor",
            "RooftopGarden",
            "AdministratorRoom",
        ],
        0,
    ),
    ("AdministratorRoom", "Administrator's Room", &["FourthFloor"], 0),
    ("RooftopGarden", "Rooftop Garden", &["FourthFloor"], 0),
    ("Garden", "The Garden", &["FirstFloor"], 2),
];

#[test]
fn default_option_continues_to_start() {
    let option = DialogueOption::default();
    assert_eq!(option.description, "Continue");
    assert_eq!(option.success_dialogue, Some("Start".to_string()));
    assert!(option.challenge_attribute.is_none());
    assert!(option.challenge_number.is_none());
    assert!(option.failure_dialogue.is_none());
    assert!(option.item_to_pickup.is_none());
    assert!(option.visible_when.is_none());
    assert!(option.flags.is_none());
}

#[test]
fn default_dialogue_is_the_hidden_error_node() {
    let dialogue = Dialogue::default();
    assert_eq!(dialogue.speaker, "Error");
    assert_eq!(dialogue.intro, "No dialogue available.");
    assert_eq!(dialogue.options.len(), 1);
    assert_eq!(dialogue.options[0].description, "Continue");
    assert!(dialogue.passive_check.is_empty());
    assert_eq!(dialogue.xp_reward, None);
    assert!(dialogue.is_hidden);
    assert_eq!(dialogue.time, Some(1));
}

#[test]
fn new_location_is_empty_and_grows() {
    let mut location = Location::new("Hall".to_string());
    assert_eq!(location.name, "Hall");
    assert_eq!(location.dialogues.len(), 0);
    assert!(location.exits.is_empty());
    location.add_dialogue("Start".to_string(), Dialogue::default());
    location.add_exit("Yard".to_string());
    location.add_exit("Roof".to_string());
    assert!(location.dialogues.contains_key("Start"));
    assert_eq!(location.exits, vec!["Yard".to_string(), "Roof".to_string()]);
    let mut other = Dialogue::default();
    other.speaker = "Clock".to_string();
    location.add_dialogue("Start".to_string(), other);
    assert_eq!(location.dialogues.len(), 1);
    assert_eq!(location.dialogues.get("Start").unwrap().speaker, "Clock");
    let copy = location.clone();
    assert_eq!(copy.name, "Hall");
    assert_eq!(copy.dialogues.get("Start").unwrap().speaker, "Clock");
    assert_eq!(copy.exits.len(), 2);
}

#[test]
fn table_keeps_one_value_for_each_key() {
    let mut table: Table<i32> = Table::new();
    assert_eq!(table.len(), 0);
    assert!(!table.contains_key(""));
    assert!(table.get("a").is_none());
    table.insert("a".to_string(), 1);
    table.insert("b".to_string(), 2);
    table.insert(String::new(), 3);
    table.insert("a".to_string(), 4);
    assert_eq!(table.len(), 3);
    assert_eq!(table.get("a"), Some(&4));
    assert_eq!(table.get("b"), Some(&2));
    assert_eq!(table.get(""), Some(&3));
    assert!(table.get("A").is_none());
    assert!(table.get("ab").is_none());
    *table.get_mut("b").unwrap() += 10;
    assert_eq!(table.get("b"), Some(&12));
    assert_eq!(table.get("a"), Some(&4));
    assert!(table.get_mut("c").is_none());
    let mut keys = table.keys().clone();
    keys.sort();
    assert_eq!(keys, vec!["".to_string(), "a".to_string(), "b".to_string()]);
    let copy = table.clone();
    table.insert("b".to_string(), 0);
    assert_eq!(copy.get("b"), Some(&12));
    assert_eq!(copy.len(), 3);
}

#[test]
fn strings_are_compared_by_their_characters() {
    assert!(str_eq("", ""));
    assert!(str_eq("Start", "Start"));
    assert!(!str_eq("Start", "start"));
    assert!(!str_eq("Start", "Star"));
    assert!(!str_eq("Star", "Start"));
    assert!(!str_eq("", "a"));
    assert!(str_eq("caf\u{e9} \u{1f600}", "caf\u{e9} \u{1f600}"));
    assert!(!str_eq("caf\u{e9}", "cafe"));
    assert!(!str_eq("\u{e9}", "\u{c3}"));
}

#[test]
fn the_game_has_its_nine_locations() {
    let world = create_locations();
    assert_eq!(world.len(), 9);
    for (id, name, exits, nodes) in LOCATIONS {
        let location = world.get(id).unwrap_or_else(|| panic!("{id} is missing"));
        assert_eq!(location.name, name);
        let exits: Vec<String> = exits.iter().map(|e| e.to_string()).collect();
        assert_eq!(location.exits, exits);
        assert_eq!(location.dialogues.len(), nodes, "{id}");
    }
    assert!(world.get("Cellar").is_none());
}

#[test]
fn building_the_game_twice_gives_the_same_game() {
    let a = create_locations();
    let b = create_locations();
    for (id, _, _, _) in LOCATIONS {
        let (x, y) = (a.get(id).unwrap(), b.get(id).unwrap());
        assert_eq!(x.name, y.name);
        assert_eq!(x.exits, y.exits);
        assert_eq!(x.dialogues.len(), y.dialogues.len());
    }
    let (x, y) = (
        a.get("Vestibule").unwrap().dialogues.get("ClockInterior").unwrap(),
        b.get("Vestibule").unwrap().dialogues.get("ClockInterior").unwrap(),
    );
    assert_eq!(format!("{:?}", x), format!("{:?}", y));
}

#[test]
fn the_entrances_exist() {
    let world = create_locations();
    for id in ["Vestibule", "FirstFloor", "Garden"] {
        let start = world.get(id).unwrap().dialogues.get("Start").unwrap();
        assert!(!start.is_hidden);
        assert!(!start.options.is_empty());
    }
    let vestibule = world.get("Vestibule").unwrap();
    for id in [
        "InspectClock",
        "ClockSexual",
        "ClockPerversion",
        "ClockPlaneFail",
        "VestibuleMailboxes",
        "Mailbox106Part2",
        "Mailbox400",
        "LetterReligious",
        "",
    ] {
        assert!(vestibule.dialogues.contains_key(id), "{id}");
    }
    assert!(!vestibule.dialogues.contains_key("ButlerResponse"));
    let first_floor = world.get("FirstFloor").unwrap();
    assert!(first_floor.dialogues.contains_key("ButlerResponse"));
    assert!(first_floor.dialogues.contains_key("FailedDoor"));
    assert!(world.get("Garden").unwrap().dialogues.contains_key("OldWomanResponse"));
}

#[test]
fn the_last_node_written_under_an_id_stays() {
    let world = create_locations();
    let blank = world.get("Vestibule").unwrap().dialogues.get("").unwrap();
    assert_eq!(blank.options.len(), 1);
    assert_eq!(blank.options[0].success_dialogue, Some("Start".to_string()));
    assert!(blank.is_hidden);
}

#[test]
fn nodes_carry_their_mechanics() {
    let world = create_locations();
    let vestibule = world.get("Vestibule").unwrap();
    let clock = vestibule.dialogues.get("InspectClock").unwrap();
    assert_eq!(clock.speaker, "Grandfather Clock");
    assert_eq!(clock.options.len(), 3);
    assert_eq!(clock.options[0].challenge_attribute, Some("delusion".to_string()));
    assert_eq!(clock.options[0].challenge_number, Some(12));
    assert_eq!(clock.options[0].success_dialogue, Some("HungryClock".to_string()));
    assert_eq!(clock.options[0].failure_dialogue, Some("MockingClock".to_string()));
    assert_eq!(clock.passive_check.len(), 2);
    assert_eq!(clock.passive_check[0].skill, "robot");
    assert_eq!(clock.passive_check[0].target, 10);
    assert_eq!(clock.passive_check[1].speaker, Some("Gizmo".to_string()));
    assert_eq!(clock.time, Some(1));
    assert!(clock.is_hidden);
    assert_eq!(vestibule.dialogues.get("ClockPlane").unwrap().xp_reward, Some(5));
    assert_eq!(vestibule.dialogues.get("ClockMissingGear").unwrap().xp_reward, Some(10));
    let plane = vestibule.dialogues.get("ClockPlane").unwrap();
    assert_eq!(
        plane.options[0].item_to_pickup,
        Some("Sukhoi SU-25 Grach model".to_string())
    );
    let letter = vestibule.dialogues.get("Mailbox400").unwrap();
    assert_eq!(
        letter.options[1].item_to_pickup,
        Some("Administrator's letter".to_string())
    );
    let questions = vestibule.dialogues.get("Mailbox400LetterPenQuestions").unwrap();
    let skill = questions.options[0].challenge_attribute.clone().unwrap();
    assert_eq!(skill, "oldtime_religion");
    assert_eq!(Skill::from_name(&skill), None);
    let explanation = vestibule.dialogues.get("ClockExplanation").unwrap();
    assert!(explanation.intro.starts_with("Simple. Communism is built upon love"));
    assert!(explanation.intro.ends_with("is unacceptable."));
}

#[test]
fn a_new_game_starts_in_the_vestibule() {
    let app = DialogueApp::default();
    assert_eq!(app.current_text, "Welcome!");
    assert_eq!(app.state, GameState::CharacterCreation);
    assert_eq!(app.current_location_id, "Vestibule");
    assert_eq!(app.current_dialogue_id, Some("Start".to_string()));
    assert_eq!(app.previous_dialogue_id, None);
    assert_eq!(
        (app.player.tech, app.player.arts, app.player.bur, app.player.und),
        (3, 3, 3, 3)
    );
    assert!(app.player.is_valid());
    assert!(app.player.items.is_empty());
    assert_eq!(app.locations.len(), 9);
    assert!(app.current_dialogue().is_some());
    assert_eq!(app.current_location_name(), Some(&"The Vestibule".to_string()));
    assert!(app.current_visible_options().is_empty());
}

#[test]
fn a_walk_through_the_house() {
    let mut app = DialogueApp::default();
    assert!(app.start_game());
    assert_eq!(app.current_visible_options(), vec![0, 1, 2]);
    assert_eq!(app.visit_current_dialogue(), None);
    // "Go to the first floor."
    assert!(matches!(
        app.resolve_target(&Some("FirstFloor".to_string())),
        Transition::Location(_)
    ));
    assert!(matches!(
        app.select_option(2).unwrap().transition,
        Transition::Location(_)
    ));
    assert_eq!(app.current_location_id, "FirstFloor");
    assert_eq!(app.current_dialogue_id, None);
    assert!(app.enter_dialogue("Start"));
    assert_eq!(
        app.current_intro_text(),
        Some(&"You are now on the first floor. A butler greets you.".to_string())
    );
    // "Talk to the butler." and back.
    app.select_option(0);
    assert_eq!(app.current_dialogue_id, Some("ButlerResponse".to_string()));
    app.select_option(0);
    assert_eq!(app.current_dialogue_id, Some("Start".to_string()));
    // The stuck door: the garden if the challenge is won, a node of this floor if not.
    let mut won = app_at_first_floor();
    won.apply_choice(1, true);
    assert_eq!(won.current_location_id, "Garden");
    assert_eq!(won.current_dialogue_id, None);
    let mut lost = app_at_first_floor();
    lost.apply_choice(1, false);
    assert_eq!(lost.current_location_id, "FirstFloor");
    assert_eq!(lost.current_dialogue_id, Some("FailedDoor".to_string()));
    // "Go back to the vestibule."
    app.select_option(2);
    assert_eq!(app.current_location_id, "Vestibule");
    assert_eq!(app.current_dialogue_id, None);
}

fn app_at_first_floor() -> DialogueApp {
    let mut app = DialogueApp::default();
    app.start_game();
    app.select_option(2);
    app.enter_dialogue("Start");
    app
}

#[test]
fn the_plane_is_picked_up_once() {
    let mut app = DialogueApp::default();
    app.start_game();
    assert!(app.enter_dialogue("ClockPlane"));
    assert_eq!(app.visit_current_dialogue(), Some(5));
    assert_eq!(app.current_visible_options(), vec![0, 1]);
    app.select_option(0);
    assert_eq!(app.player.items, vec!["Sukhoi SU-25 Grach model".to_string()]);
    assert_eq!(app.current_dialogue_id, Some("ClockInterior".to_string()));
    assert!(app.enter_dialogue("ClockPlane"));
    assert_eq!(app.visit_current_dialogue(), None);
    assert_eq!(app.player.xp, 5);
    assert_eq!(app.current_visible_options(), vec![0]);
    assert_eq!(
        app.current_dialogue().unwrap().options[0].description,
        "It's only a model (Return)"
    );
    app.select_option(0);
    assert_eq!(app.player.items.len(), 1);
}

#[test]
fn a_dangling_target_of_the_game_stays_put() {
    let mut app = DialogueApp::default();
    app.start_game();
    assert!(app.enter_dialogue("BrokenClock"));
    // "ClockFutile" was never written.
    assert!(matches!(
        app.resolve_target(&Some("ClockFutile".to_string())),
        Transition::DeadEnd(_)
    ));
    match app.select_option(1).unwrap().transition {
        Transition::DeadEnd(id) => assert_eq!(id, "ClockFutile"),
        other => panic!("expected a dead end, got {:?}", other),
    }
    assert_eq!(app.current_dialogue_id, Some("BrokenClock".to_string()));
    assert_eq!(app.current_location_id, "Vestibule");
}
