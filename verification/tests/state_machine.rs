// A small world of two locations that the tests of the state machine walk.

use dialogue_engine::{
    Dialogue, DialogueApp, DialogueOption, GameState, Location, PassiveCheck, Player, Selection,
    Table, Transition,
};

fn outcome_of(selection: Option<Selection>) -> Option<bool> {
    selection.expect("the option can be selected").outcome
}

fn option_to(description: &str, target: &str) -> DialogueOption {
    DialogueOption {
        description: description.to_string(),
        success_dialogue: Some(target.to_string()),
        ..Default::default()
    }
}

fn node(options: Vec<DialogueOption>) -> Dialogue {
    Dialogue {
        speaker: "Guard".to_string(),
        intro: "Halt.".to_string(),
        options,
        passive_check: vec![],
        xp_reward: None,
        is_hidden: false,
        time: None,
    }
}

fn small_world() -> Table<Location> {
    let mut hall = Location::new("The Hall".to_string());
    hall.add_dialogue(
        "Start".to_string(),
        node(vec![
            option_to("Talk", "Talk"),
            option_to("Leave", "Yard"),
            DialogueOption {
                description: "Take the key".to_string(),
                success_dialogue: Some("Start".to_string()),
                item_to_pickup: Some("Key".to_string()),
                ..Default::default()
            },
            DialogueOption {
                description: "Greet the guard".to_string(),
                success_dialogue: Some("Start".to_string()),
                flags: Some(vec!["metGuard".to_string(), "polite".to_string()]),
                ..Default::default()
            },
            DialogueOption {
                description: "Ask the guard a favour".to_string(),
                success_dialogue: Some("Talk".to_string()),
                visible_when: Some("metGuard".to_string()),
                ..Default::default()
            },
            option_to("Stare into the void", "Nowhere"),
            DialogueOption {
                description: "Pick the lock".to_string(),
                challenge_attribute: Some("gizmo".to_string()),
                challenge_number: Some(-1000),
                success_dialogue: Some("Yard".to_string()),
                failure_dialogue: Some("Talk".to_string()),
                ..Default::default()
            },
            DialogueOption {
                description: "Force the door".to_string(),
                challenge_attribute: Some("gizmo".to_string()),
                challenge_number: Some(1000),
                success_dialogue: Some("Yard".to_string()),
                failure_dialogue: Some("Talk".to_string()),
                ..Default::default()
            },
            DialogueOption {
                description: "Shrug".to_string(),
                success_dialogue: None,
                ..Default::default()
            },
        ]),
    );
    let mut talk = node(vec![option_to("Back", "Start")]);
    talk.xp_reward = Some(5);
    hall.add_dialogue("Talk".to_string(), talk);
    hall.add_exit("Yard".to_string());

    let mut yard = Location::new("The Yard".to_string());
    let mut yard_start = node(vec![option_to("Back inside", "Hall"), option_to("Rest", "Talk")]);
    yard_start.xp_reward = Some(250);
    yard.add_dialogue("Start".to_string(), yard_start);
    yard.add_exit("Hall".to_string());

    let mut world = Table::new();
    world.insert("Hall".to_string(), hall);
    world.insert("Yard".to_string(), yard);
    world
}

fn game() -> DialogueApp {
    let mut player = Player::default();
    player.tech = 3;
    player.arts = 3;
    player.bur = 3;
    player.und = 3;
    DialogueApp {
        current_text: String::new(),
        player,
        locations: small_world(),
        current_location_id: "Hall".to_string(),
        current_dialogue_id: Some("Start".to_string()),
        state: GameState::InGame,
        previous_dialogue_id: None,
    }
}

fn descriptions(app: &DialogueApp) -> Vec<String> {
    let dialogue = app.current_dialogue().expect("a node is shown");
    app.current_visible_options()
        .iter()
        .map(|i| dialogue.options[*i].description.clone())
        .collect()
}

#[test]
fn intra_location_target_keeps_location() {
    let mut app = game();
    let selection = app.select_option(0).unwrap();
    assert_eq!(selection.outcome, None);
    match selection.transition {
        Transition::Dialogue(id) => assert_eq!(id, "Talk"),
        other => panic!("expected a node, got {:?}", other),
    }
    assert_eq!(app.current_location_id, "Hall");
    assert_eq!(app.current_dialogue_id, Some("Talk".to_string()));
}

#[test]
fn location_target_changes_location_and_clears_dialogue() {
    let mut app = game();
    let selection = app.select_option(1).unwrap();
    assert_eq!(selection.outcome, None);
    match selection.transition {
        Transition::Location(id) => assert_eq!(id, "Yard"),
        other => panic!("expected a location, got {:?}", other),
    }
    assert_eq!(app.current_location_id, "Yard");
    assert_eq!(app.current_dialogue_id, None);
    assert!(app.current_dialogue().is_none());
    assert!(app.enter_dialogue("Start"));
    assert_eq!(app.current_dialogue_id, Some("Start".to_string()));
    assert_eq!(app.current_location_name(), Some(&"The Yard".to_string()));
    assert_eq!(app.current_exits(), Some(&vec!["Hall".to_string()]));
}

#[test]
fn location_id_wins_over_a_node_of_the_same_id() {
    let mut app = game();
    app.locations
        .get_mut("Hall")
        .unwrap()
        .add_dialogue("Yard".to_string(), node(vec![]));
    assert!(matches!(
        app.resolve_target(&Some("Yard".to_string())),
        Transition::Location(_)
    ));
    app.select_option(1);
    assert_eq!(app.current_location_id, "Yard");
    assert_eq!(app.current_dialogue_id, None);
}

#[test]
fn node_of_another_location_is_a_dead_end() {
    let mut app = game();
    app.select_option(1);
    app.enter_dialogue("Start");
    // "Talk" is a node of the hall, not of the yard.
    assert!(matches!(
        app.resolve_target(&Some("Talk".to_string())),
        Transition::DeadEnd(_)
    ));
    match app.select_option(1).unwrap().transition {
        Transition::DeadEnd(id) => assert_eq!(id, "Talk"),
        other => panic!("expected a dead end, got {:?}", other),
    }
    assert_eq!(app.current_location_id, "Yard");
    assert_eq!(app.current_dialogue_id, Some("Start".to_string()));
}

#[test]
fn dead_target_stays_put() {
    let mut app = game();
    assert!(matches!(
        app.resolve_target(&Some("Nowhere".to_string())),
        Transition::DeadEnd(_)
    ));
    assert!(matches!(
        app.select_option(5).unwrap().transition,
        Transition::DeadEnd(_)
    ));
    assert_eq!(app.current_location_id, "Hall");
    assert_eq!(app.current_dialogue_id, Some("Start".to_string()));
}

#[test]
fn missing_target_stays_put() {
    let mut app = game();
    assert!(matches!(app.resolve_target(&None), Transition::Stay));
    assert!(matches!(
        app.select_option(8).unwrap().transition,
        Transition::Stay
    ));
    assert_eq!(app.current_location_id, "Hall");
    assert_eq!(app.current_dialogue_id, Some("Start".to_string()));
}

#[test]
fn empty_id_is_an_id_like_any_other() {
    let mut app = game();
    assert!(matches!(
        app.resolve_target(&Some(String::new())),
        Transition::DeadEnd(_)
    ));
    app.locations
        .get_mut("Hall")
        .unwrap()
        .add_dialogue(String::new(), node(vec![]));
    match app.resolve_target(&Some(String::new())) {
        Transition::Dialogue(id) => assert_eq!(id, ""),
        other => panic!("expected a node, got {:?}", other),
    }
}

#[test]
fn item_pickup_appends_once_and_removes_the_option() {
    let mut app = game();
    assert_eq!(descriptions(&app).len(), 8);
    assert!(descriptions(&app).contains(&"Take the key".to_string()));
    app.select_option(2);
    assert_eq!(app.player.items, vec!["Key".to_string()]);
    assert_eq!(app.inventory_contents(), &vec!["Key".to_string()]);
    assert_eq!(app.current_dialogue_id, Some("Start".to_string()));
    let shown = descriptions(&app);
    assert_eq!(shown.len(), 7);
    assert!(!shown.contains(&"Take the key".to_string()));
    assert_eq!(
        shown,
        vec![
            "Talk",
            "Leave",
            "Greet the guard",
            "Stare into the void",
            "Pick the lock",
            "Force the door",
            "Shrug"
        ]
    );
    // What stands at the position now is another option: nothing is picked up again.
    app.select_option(2);
    assert_eq!(app.player.items, vec!["Key".to_string()]);
    // The other node and the other location are untouched.
    assert_eq!(
        app.get_current_dialogue_from_id(&"Talk".to_string())
            .unwrap()
            .options
            .len(),
        1
    );
    assert_eq!(
        app.locations
            .get("Yard")
            .unwrap()
            .dialogues
            .get("Start")
            .unwrap()
            .options
            .len(),
        2
    );
}

#[test]
fn hidden_option_appears_as_soon_as_its_flag_is_set() {
    let mut app = game();
    assert!(!descriptions(&app).contains(&"Ask the guard a favour".to_string()));
    assert_eq!(app.current_visible_options(), vec![0, 1, 2, 3, 5, 6, 7, 8]);
    assert!(!app.is_selectable(4));
    // Selecting it while it is hidden does nothing.
    assert!(app.select_option(4).is_none());
    assert_eq!(app.current_dialogue_id, Some("Start".to_string()));
    app.select_option(3);
    assert!(app.player.flags.contains("metGuard"));
    assert!(app.player.flags.contains("polite"));
    assert_eq!(app.player.flags.len(), 2);
    assert_eq!(app.current_visible_options(), vec![0, 1, 2, 3, 4, 5, 6, 7, 8]);
    assert!(descriptions(&app).contains(&"Ask the guard a favour".to_string()));
    assert!(app.is_selectable(4));
    app.select_option(4);
    assert_eq!(app.current_dialogue_id, Some("Talk".to_string()));
}

#[test]
fn flag_set_by_hand_shows_the_option_too() {
    let mut app = game();
    app.player.flags.insert("metGuard".to_string());
    assert!(descriptions(&app).contains(&"Ask the guard a favour".to_string()));
}

#[test]
fn first_visit_grants_xp_once() {
    let mut app = game();
    assert_eq!(app.pending_reward(), None);
    assert_eq!(app.visit_current_dialogue(), None);
    assert!(app.player.dialogues_entered.contains("Start"));
    app.select_option(0);
    assert_eq!(app.pending_reward(), Some(5));
    assert_eq!(app.visit_current_dialogue(), Some(5));
    assert_eq!(app.player.xp, 5);
    assert!(app.player.dialogues_entered.contains("Talk"));
    // Shown again in the next frame, and visited again later.
    assert_eq!(app.pending_reward(), None);
    assert_eq!(app.visit_current_dialogue(), None);
    assert_eq!(app.player.xp, 5);
    app.select_option(0);
    app.visit_current_dialogue();
    app.select_option(0);
    assert_eq!(app.current_dialogue_id, Some("Talk".to_string()));
    assert_eq!(app.visit_current_dialogue(), None);
    assert_eq!(app.player.xp, 5);
    assert_eq!(app.player.skill_points, 0);
}

#[test]
fn visits_are_recorded_by_node_id_across_locations() {
    let mut app = game();
    app.visit_current_dialogue();
    app.select_option(1);
    app.enter_dialogue("Start");
    // The yard's "Start" carries a reward, but the id "Start" was entered in the hall.
    assert_eq!(app.pending_reward(), None);
    assert_eq!(app.visit_current_dialogue(), None);
    assert_eq!(app.player.xp, 0);
}

#[test]
fn reward_across_two_thresholds() {
    let mut app = game();
    app.select_option(1);
    app.enter_dialogue("Start");
    assert_eq!(app.visit_current_dialogue(), Some(250));
    assert_eq!(app.player.xp, 50);
    assert_eq!(app.player.skill_points, 2);
}

#[test]
fn won_challenge_leads_to_the_success_target() {
    let mut app = game();
    assert!(matches!(
        app.apply_choice(6, true),
        Some(Transition::Location(_))
    ));
    assert_eq!(app.current_location_id, "Yard");
    assert_eq!(app.current_dialogue_id, None);
}

#[test]
fn lost_challenge_leads_to_the_failure_target() {
    let mut app = game();
    assert!(matches!(
        app.apply_choice(6, false),
        Some(Transition::Dialogue(_))
    ));
    assert_eq!(app.current_location_id, "Hall");
    assert_eq!(app.current_dialogue_id, Some("Talk".to_string()));
}

#[test]
fn outcome_is_ignored_without_a_challenge() {
    let mut app = game();
    app.apply_choice(0, false);
    assert_eq!(app.current_dialogue_id, Some("Talk".to_string()));
}

#[test]
fn rolled_challenges_follow_the_dice() {
    // Target -1000 is lost only on two ones; target 1000 is won only on two sixes.
    let mut easy_wins = 0;
    let mut hard_wins = 0;
    for _ in 0..400 {
        let mut app = game();
        let outcome = outcome_of(app.select_option(6)).expect("the option has a challenge");
        if outcome {
            easy_wins += 1;
            assert_eq!(app.current_location_id, "Yard");
            assert_eq!(app.current_dialogue_id, None);
        } else {
            assert_eq!(app.current_dialogue_id, Some("Talk".to_string()));
        }
        let mut app = game();
        let outcome = outcome_of(app.select_option(7)).expect("the option has a challenge");
        if outcome {
            hard_wins += 1;
            assert_eq!(app.current_location_id, "Yard");
        } else {
            assert_eq!(app.current_location_id, "Hall");
            assert_eq!(app.current_dialogue_id, Some("Talk".to_string()));
        }
    }
    assert!(easy_wins > 300);
    assert!(hard_wins < 100);
}

#[test]
fn nothing_is_selectable_outside_the_game() {
    for state in [
        GameState::CharacterCreation,
        GameState::InventoryView,
        GameState::SkillManagement,
    ] {
        let mut app = game();
        app.state = state;
        assert!(!app.is_selectable(0));
        assert!(app.current_visible_options().is_empty());
        assert!(app.select_option(2).is_none());
        assert!(app.apply_choice(2, true).is_none());
        assert!(app.player.items.is_empty());
        assert_eq!(app.current_dialogue_id, Some("Start".to_string()));
        assert_eq!(app.visit_current_dialogue(), None);
        assert!(!app.player.dialogues_entered.contains("Start"));
        assert!(!app.enter_dialogue("Talk"));
    }
}

#[test]
fn out_of_range_option_does_nothing() {
    let mut app = game();
    assert!(!app.is_selectable(9));
    assert!(app.select_option(9).is_none());
    assert!(app.select_option(usize::MAX).is_none());
    assert_eq!(app.current_dialogue_id, Some("Start".to_string()));
}

#[test]
fn missing_location_is_survived() {
    let mut app = game();
    app.current_location_id = "Attic".to_string();
    assert!(app.current_dialogue().is_none());
    assert!(app.current_location_name().is_none());
    assert!(app.current_exits().is_none());
    assert!(app.current_visible_options().is_empty());
    assert!(app.select_option(0).is_none());
    assert_eq!(app.visit_current_dialogue(), None);
    assert!(app
        .get_current_dialogue_from_id_mut(&"Start".to_string())
        .is_none());
    assert_eq!(app.current_location_id, "Attic");
}

#[test]
fn node_can_be_changed_in_place() {
    let mut app = game();
    {
        let talk = app
            .get_current_dialogue_from_id_mut(&"Talk".to_string())
            .unwrap();
        talk.intro = "Move along.".to_string();
    }
    app.select_option(0);
    assert_eq!(app.current_intro_text(), Some(&"Move along.".to_string()));
    assert_eq!(app.current_speaker(), Some(&"Guard".to_string()));
    assert!(app
        .get_current_dialogue_from_id_mut(&"Attic".to_string())
        .is_none());
}

#[test]
fn screens_open_and_close() {
    let mut app = game();
    app.select_option(0);
    app.view_inventory();
    assert_eq!(app.state, GameState::InventoryView);
    assert_eq!(app.previous_dialogue_id, Some("Talk".to_string()));
    // Opening another screen from here is not possible.
    app.manage_skills();
    assert_eq!(app.state, GameState::InventoryView);
    app.current_dialogue_id = None;
    app.return_to_game();
    assert_eq!(app.state, GameState::InGame);
    assert_eq!(app.current_dialogue_id, Some("Talk".to_string()));
    app.manage_skills();
    assert_eq!(app.state, GameState::SkillManagement);
    app.current_dialogue_id = None;
    app.return_to_game();
    assert_eq!(app.state, GameState::InGame);
    assert_eq!(app.current_dialogue_id, None);
    app.return_to_game();
    assert_eq!(app.state, GameState::InGame);
}

#[test]
fn passive_lines_of_the_shown_node() {
    let mut app = game();
    assert!(app.current_passive_lines().is_empty());
    app.get_current_dialogue_from_id_mut(&"Start".to_string())
        .unwrap()
        .passive_check = vec![
        PassiveCheck {
            skill: "gizmo".to_string(),
            target: 9,
            success_text: Some("It ticks.".to_string()),
            failure_text: None,
            speaker: Some("Gizmo".to_string()),
        },
        PassiveCheck {
            skill: "gizmo".to_string(),
            target: 10,
            success_text: Some("It tocks.".to_string()),
            failure_text: Some("It is silent.".to_string()),
            speaker: None,
        },
    ];
    for _ in 0..2 {
        let lines = app.current_passive_lines();
        assert_eq!(lines.len(), 2);
        assert_eq!(lines[0].speaker, "Gizmo");
        assert_eq!(lines[0].text, "It ticks.");
        assert_eq!(lines[1].speaker, "Narrator");
        assert_eq!(lines[1].text, "It is silent.");
    }
    app.current_dialogue_id = None;
    assert!(app.current_passive_lines().is_empty());
}
