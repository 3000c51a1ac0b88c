//! The nodes of the conversation with the grandfather clock.

use vstd::prelude::*;
use crate::dialogues::{
    Dialogue,
    DialogueOption,
    DialogueOptionView,
    DialogueView,
    PassiveCheck,
    PassiveCheckView,
    default_dialogue,
    default_option,
    dialogue_views,
    lemma_dialogue_views_insert,
};
use crate::table::Table;

verus! {

/// The node "InspectClock".
pub open spec fn inspect_clock() -> DialogueView {
    DialogueView {
        speaker: "Grandfather Clock"@,
        intro: "A round, pale face crossed by dark lines stares down at you. It has seen much, and forgotten more."@,
        options: seq![
            DialogueOptionView {
                description: "What stories could you tell me, old man? (Delusion 12)"@,
                challenge_attribute: Some("delusion"@),
                challenge_number: Some(12),
                success_dialogue: Some("HungryClock"@),
                failure_dialogue: Some("MockingClock"@),
                ..default_option()
            },
            DialogueOptionView {
                description: "Check the time."@,
                success_dialogue: Some("BrokenClock"@),
                ..default_option()
            },
            DialogueOptionView {
                description: "Goodbye, fair clock. (End conversation)."@,
                success_dialogue: Some("Start"@),
                ..default_option()
            },
        ],
        passive_check: seq![
            PassiveCheckView {
                skill: "robot"@,
                target: 10,
                success_text: Some("You know its kind. The unrelenting metronome to which you dance."@),
                failure_text: None,
                speaker: Some("Robot"@)
            },
            PassiveCheckView {
                skill: "gizmo"@,
                target: 12,
                success_text: Some("It's in bad shape, boss. The varnish is falling off, the face needs a solid wipe down, 
                    and I don't see a notice of last maintenance *anywhere*."@),
                failure_text: None,
                speaker: Some("Gizmo"@)
            },
        ],
        ..default_dialogue()
    }
}

/// The node "HungryClock".
pub open spec fn hungry_clock() -> DialogueView {
    DialogueView {
        speaker: "Grandfather Clock"@,
        intro: ""@,
        options: seq![
            DialogueOptionView {
                description: ""@,
                success_dialogue: Some(""@),
                ..default_option()
            },
        ],
        ..default_dialogue()
    }
}

/// The node "BrokenClock".
pub open spec fn broken_clock() -> DialogueView {
    DialogueView {
        speaker: "Grandfather Clock"@,
        intro: r"Its two hands, the shorter ending in a stylized sun and the longer in a crescent moon, are stuck at 5 hours and 37 minutes"@,
        options: seq![
            DialogueOptionView {
                description: "What a waste. Surely I could fix it up?"@,
                success_dialogue: Some("ClockRecommends"@),
                ..default_option()
            },
            DialogueOptionView {
                description: "Five-thirty-seven in the morning or night?"@,
                success_dialogue: Some("ClockFutile"@),
                ..default_option()
            },
            DialogueOptionView {
                description: "Stand proud, fallen soldier of the Republic! (Salute the clock)"@,
                success_dialogue: Some("ClockSalute"@),
                ..default_option()
            },
            DialogueOptionView {
                description: "Goodbye, mysterious clock."@,
                success_dialogue: Some("Start"@),
                ..default_option()
            },
        ],
        ..default_dialogue()
    }
}

/// The node "ClockInterior".
pub open spec fn clock_interior() -> DialogueView {
    DialogueView {
        speaker: "Grandfather Clock"@,
        intro: "The oak casing is stiff, the hinges squeaky from disuse. It takes a solid heave with both hands to pull it out, 
            and the cover nearly comes off in your grasp. Inside, you see a forest of gears, exposed to the eye and glimmering 
            under a thin coat of dust. On the bottom, resting against the casing, lies a tin model airplane."@,
        options: seq![
            DialogueOptionView {
                description: "What kind of plane is it? (Rocketry 6)"@,
                challenge_attribute: Some("rocketry"@),
                challenge_number: Some(6),
                success_dialogue: Some("ClockPlane"@),
                failure_dialogue: Some("ClockPlaneFail"@),
                ..default_option()
            },
            DialogueOptionView {
                description: "Let's fix you up, soldier. (Gizmo 12)"@,
                challenge_attribute: Some("gizmo"@),
                challenge_number: Some(12),
                success_dialogue: Some("ClockMissingGear"@),
                failure_dialogue: Some("ClockFixImpossible"@),
                ..default_option()
            },
            DialogueOptionView {
                description: "Close the casing."@,
                success_dialogue: Some("InspectClock"@),
                ..default_option()
            },
        ],
        ..default_dialogue()
    }
}

/// The node "MockingClock".
pub open spec fn mocking_clock() -> DialogueView {
    DialogueView {
        speaker: "Grandfather Clock"@,
        intro: r"It seems to talk to you. It says 'Why are you talking to a clock, you absolute dolt? You twat. Has my non-sentient existence come to the point that madmen come in off the street and try to engage me in conversation?'"@,
        options: seq![
            DialogueOptionView {
                description: "Okay, that's just, like, your opinion, man. (End conversation)"@,
                success_dialogue: Some("Start"@),
                ..default_option()
            },
            DialogueOptionView {
                description: "Tell me your secrets!"@,
                success_dialogue: Some("ClockDecline"@),
                ..default_option()
            },
        ],
        ..default_dialogue()
    }
}

/// The node "ClockDecline".
pub open spec fn clock_decline() -> DialogueView {
    DialogueView {
        speaker: "Grandfather Clock"@,
        intro: "No."@,
        options: seq![
            DialogueOptionView {
                description: "Well, alright then."@,
                success_dialogue: Some("Start"@),
                ..default_option()
            },
            DialogueOptionView {
                description: "Fuck you, and your little cuckoo too."@,
                success_dialogue: Some("Start"@),
                ..default_option()
            },
        ],
        ..default_dialogue()
    }
}

/// The node "ClockRecommends".
pub open spec fn clock_recommends() -> DialogueView {
    DialogueView {
        speaker: "Grandfather Clock"@,
        intro: r"You'd have to get into this thing's guts. Are you mentally and *spiritually* prepared to mess around with this poor, fallen soldier's insides? On the off chance you can restore life to the dead?"@,
        options: seq![
            DialogueOptionView {
                description: "On second thought, let's not do that."@,
                success_dialogue: Some("BrokenClock"@),
                ..default_option()
            },
            DialogueOptionView {
                description: "Come on, why did you have to phrase it that way?"@,
                success_dialogue: Some("ClockPhrasing"@),
                ..default_option()
            },
            DialogueOptionView {
                description: "Let's do this."@,
                success_dialogue: Some("ClockInterior"@),
                ..default_option()
            },
        ],
        ..default_dialogue()
    }
}

/// The node "ClockPhrasing".
pub open spec fn clock_phrasing() -> DialogueView {
    DialogueView {
        speaker: "Grandfather Clock"@,
        intro: "Like what?"@,
        options: seq![
            DialogueOptionView {
                description: "Like I'm doing something creepy here! It's just a broken clock."@,
                success_dialogue: Some("JustABrokenClock"@),
                ..default_option()
            },
            DialogueOptionView {
                description: "Like this is some *religious* thing. That's not what I'm about."@,
                success_dialogue: Some("ReligiousClock"@),
                ..default_option()
            },
            DialogueOptionView {
                description: "Like... you know."@,
                success_dialogue: Some("ClockSuggestive"@),
                ..default_option()
            },
            DialogueOptionView {
                description: "You know what, never mind."@,
                success_dialogue: Some("BrokenClock"@),
                ..default_option()
            },
            DialogueOptionView {
                description: "Fine, I'll get *into its guts*. What's in there?"@,
                success_dialogue: Some("ClockInterior"@),
                ..default_option()
            },
        ],
        ..default_dialogue()
    }
}

/// The node "JustABrokenClock".
pub open spec fn just_a_broken_clock() -> DialogueView {
    DialogueView {
        speaker: "Grandfather Clock"@,
        intro: "*Just* a broken clock? Shows what you know. This right here is a veteran of public administration, an honored servant of the people, languishing under the failures of the regime. How dare you ignore his deeds and his suffering."@,
        options: seq![
            DialogueOptionView {
                description: "Well, Grandfather Clockovitch here can languish a little longer."@,
                success_dialogue: Some("BrokenClock"@),
                ..default_option()
            },
            DialogueOptionView {
                description: "Fine, I'll look inside. As long as there's no more creepy phrasing."@,
                success_dialogue: Some("ClockInterior"@),
                ..default_option()
            },
        ],
        ..default_dialogue()
    }
}

/// The node "ReligiousClock".
pub open spec fn religious_clock() -> DialogueView {
    DialogueView {
        speaker: "Grandfather Clock"@,
        intro: "Religious? What are you talking about? Grandfather Clockovitch is a "@,
        options: seq![
            DialogueOptionView {
                description: ""@,
                success_dialogue: Some("Start"@),
                ..default_option()
            },
        ],
        ..default_dialogue()
    }
}

/// The node "ClockSuggestive".
pub open spec fn clock_suggestive() -> DialogueView {
    DialogueView {
        speaker: "Grandfather Clock"@,
        intro: "I'm very, *very* sure I don't."@,
        options: seq![
            DialogueOptionView {
                description: "Like it's something... sexual."@,
                success_dialogue: Some("ClockSexual"@),
                ..default_option()
            },
            DialogueOptionView {
                description: "Fine, I'll leave off. What was that about a sun and moon again?"@,
                success_dialogue: Some("BrokenClock"@),
                ..default_option()
            },
        ],
        ..default_dialogue()
    }
}

/// The node "ClockSexual".
pub open spec fn clock_sexual() -> DialogueView {
    DialogueView {
        speaker: "Grandfather Clock"@,
        intro: r"Wow. Just wow. Just what about sticking your hands *wrist deep* in your comrade's bloody, pulsating wound seems *sexual* to you?"@,
        options: seq![
            DialogueOptionView {
                description: r"It's not you, it's everyone. Come up with a theoretical justification for your objectively weird thoughts. "@,
                challenge_attribute: Some("pathology"@),
                challenge_number: Some(8),
                success_dialogue: Some("ClockPerversion"@),
                failure_dialogue: Some("ClockTrauma"@),
                ..default_option()
            },
            DialogueOptionView {
                description: "There it is again! You're putting this weird *emphasis* on things."@,
                success_dialogue: Some("ClockEmphasis"@),
                ..default_option()
            },
            DialogueOptionView {
                description: "Actually, you know what? This isn't a sexual thing, it's a religious thing."@,
                success_dialogue: Some("ClockSexualReligion"@),
                ..default_option()
            },
        ],
        ..default_dialogue()
    }
}

/// `nodes` with these nodes put in, each under its id, in the order in
/// which they are listed: a later node takes the place of an earlier one
/// of the same id.
pub open spec fn with_nodes(nodes: Map<Seq<char>, DialogueView>) -> Map<Seq<char>, DialogueView> {
    nodes.insert("InspectClock"@, inspect_clock()).insert("HungryClock"@, hungry_clock()).insert("BrokenClock"@, broken_clock()).insert("ClockInterior"@, clock_interior()).insert("MockingClock"@, mocking_clock()).insert("ClockDecline"@, clock_decline()).insert("ClockRecommends"@, clock_recommends()).insert("ClockPhrasing"@, clock_phrasing()).insert("JustABrokenClock"@, just_a_broken_clock()).insert("ReligiousClock"@, religious_clock()).insert("ClockSuggestive"@, clock_suggestive()).insert("ClockSexual"@, clock_sexual())
}

/// The ids of these nodes.
pub open spec fn ids() -> Set<Seq<char>> {
    Set::empty().insert("InspectClock"@).insert("HungryClock"@).insert("BrokenClock"@).insert("ClockInterior"@).insert("MockingClock"@).insert("ClockDecline"@).insert("ClockRecommends"@).insert("ClockPhrasing"@).insert("JustABrokenClock"@).insert("ReligiousClock"@).insert("ClockSuggestive"@).insert("ClockSexual"@)
}

/// Putting these nodes into a map adds their ids to its keys.
pub proof fn lemma_ids(nodes: Map<Seq<char>, DialogueView>)
    ensures
        with_nodes(nodes).dom() == nodes.dom().union(ids()),
{
    assert(with_nodes(nodes).dom() =~= nodes.dom().union(ids()));
}

/// Puts these nodes into `dialogues`.
pub fn add_nodes(dialogues: &mut Table<Dialogue>)
    ensures
        dialogue_views(final(dialogues)@) == with_nodes(dialogue_views(old(dialogues)@)),
{
    let node = Dialogue {
        speaker: "Grandfather Clock".to_string(),
        intro: "A round, pale face crossed by dark lines stares down at you. It has seen much, and forgotten more.".to_string(),
        options: vec![
            DialogueOption {
                description: "What stories could you tell me, old man? (Delusion 12)".to_string(),
                challenge_attribute: Some("delusion".to_string()),
                challenge_number: Some(12),
                success_dialogue: Some("HungryClock".to_string()),
                failure_dialogue: Some("MockingClock".to_string()),
                ..Default::default()
            },
            DialogueOption {
                description: "Check the time.".to_string(),
                success_dialogue: Some("BrokenClock".to_string()),
                ..Default::default()
            },
            DialogueOption {
                description: "Goodbye, fair clock. (End conversation).".to_string(),
                success_dialogue: Some("Start".to_string()),
                ..Default::default()
            },
        ],
        passive_check: vec![
            PassiveCheck {
                skill: "robot".to_string(),
                target: 10,
                success_text: Some("You know its kind. The unrelenting metronome to which you dance.".to_string()),
                failure_text: None,
                speaker: Some("Robot".to_string())
            },
            PassiveCheck {
                skill: "gizmo".to_string(),
                target: 12,
                success_text: Some("It's in bad shape, boss. The varnish is falling off, the face needs a solid wipe down, 
                    and I don't see a notice of last maintenance *anywhere*.".to_string()),
                failure_text: None,
                speaker: Some("Gizmo".to_string())
            },
        ],
        ..Default::default()
    };
    proof {
        assert(node@.options =~= inspect_clock().options);
        assert(node@.passive_check =~= inspect_clock().passive_check);
        lemma_dialogue_views_insert(dialogues@, "InspectClock"@, node);
    }
    dialogues.insert("InspectClock".to_string(), node);

    let node = Dialogue {
        speaker: "Grandfather Clock".to_string(),
        intro: "".to_string(),
        options: vec![
            DialogueOption {
                description: "".to_string(),
                success_dialogue: Some("".to_string()),
                ..Default::default()
            },
        ],
        ..Default::default()
    };
    proof {
        assert(node@.options =~= hungry_clock().options);
        assert(node@.passive_check =~= hungry_clock().passive_check);
        lemma_dialogue_views_insert(dialogues@, "HungryClock"@, node);
    }
    dialogues.insert("HungryClock".to_string(), node);

    let node = Dialogue {
        speaker: "Grandfather Clock".to_string(),
        intro: r"Its two hands, the shorter ending in a stylized sun and the longer in a crescent moon, are stuck at 5 hours and 37 minutes".to_string(),
        options: vec![
            DialogueOption {
                description: "What a waste. Surely I could fix it up?".to_string(),
                success_dialogue: Some("ClockRecommends".to_string()),
                ..Default::default()
            },
            DialogueOption {
                description: "Five-thirty-seven in the morning or night?".to_string(),
                success_dialogue: Some("ClockFutile".to_string()),
                ..Default::default()
            },
            DialogueOption {
                description: "Stand proud, fallen soldier of the Republic! (Salute the clock)".to_string(),
                success_dialogue: Some("ClockSalute".to_string()),
                ..Default::default()
            },
            DialogueOption {
                description: "Goodbye, mysterious clock.".to_string(),
                success_dialogue: Some("Start".to_string()),
                ..Default::default()
            },
        ],
        ..Default::default()
    };
    proof {
        assert(node@.options =~= broken_clock().options);
        assert(node@.passive_check =~= broken_clock().passive_check);
        lemma_dialogue_views_insert(dialogues@, "BrokenClock"@, node);
    }
    dialogues.insert("BrokenClock".to_string(), node);

    let node = Dialogue {
        speaker: "Grandfather Clock".to_string(),
        intro: "The oak casing is stiff, the hinges squeaky from disuse. It takes a solid heave with both hands to pull it out, 
            and the cover nearly comes off in your grasp. Inside, you see a forest of gears, exposed to the eye and glimmering 
            under a thin coat of dust. On the bottom, resting against the casing, lies a tin model airplane.".to_string(),
        options: vec![
            DialogueOption {
                description: "What kind of plane is it? (Rocketry 6)".to_string(),
                challenge_attribute: Some("rocketry".to_string()),
                challenge_number: Some(6),
                success_dialogue: Some("ClockPlane".to_string()),
                failure_dialogue: Some("ClockPlaneFail".to_string()),
                ..Default::default()
            },
            DialogueOption {
                description: "Let's fix you up, soldier. (Gizmo 12)".to_string(),
                challenge_attribute: Some("gizmo".to_string()),
                challenge_number: Some(12),
                success_dialogue: Some("ClockMissingGear".to_string()),
                failure_dialogue: Some("ClockFixImpossible".to_string()),
                ..Default::default()
            },
            DialogueOption {
                description: "Close the casing.".to_string(),
                success_dialogue: Some("InspectClock".to_string()),
                ..Default::default()
            },
        ],
        ..Default::default()
    };
    proof {
        assert(node@.options =~= clock_interior().options);
        assert(node@.passive_check =~= clock_interior().passive_check);
        lemma_dialogue_views_insert(dialogues@, "ClockInterior"@, node);
    }
    dialogues.insert("ClockInterior".to_string(), node);

    let node = Dialogue {
        speaker: "Grandfather Clock".to_string(),
        intro: r"It seems to talk to you. It says 'Why are you talking to a clock, you absolute dolt? You twat. Has my non-sentient existence come to the point that madmen come in off the street and try to engage me in conversation?'".to_string(),
        options: vec![
            DialogueOption {
                description: "Okay, that's just, like, your opinion, man. (End conversation)".to_string(),
                success_dialogue: Some("Start".to_string()),
                ..Default::default()
            },
            DialogueOption {
                description: "Tell me your secrets!".to_string(),
                success_dialogue: Some("ClockDecline".to_string()),
                ..Default::default()
            },
        ],
        ..Default::default()
    };
    proof {
        assert(node@.options =~= mocking_clock().options);
        assert(node@.passive_check =~= mocking_clock().passive_check);
        lemma_dialogue_views_insert(dialogues@, "MockingClock"@, node);
    }
    dialogues.insert("MockingClock".to_string(), node);

    let node = Dialogue {
        speaker: "Grandfather Clock".to_string(),
        intro: "No.".to_string(),
        options: vec![
            DialogueOption {
                description: "Well, alright then.".to_string(),
                success_dialogue: Some("Start".to_string()),
                ..Default::default()
            },
            DialogueOption {
                description: "Fuck you, and your little cuckoo too.".to_string(),
                success_dialogue: Some("Start".to_string()),
                ..Default::default()
            },
        ],
        ..Default::default()
    };
    proof {
        assert(node@.options =~= clock_decline().options);
        assert(node@.passive_check =~= clock_decline().passive_check);
        lemma_dialogue_views_insert(dialogues@, "ClockDecline"@, node);
    }
    dialogues.insert("ClockDecline".to_string(), node);

    let node = Dialogue {
        speaker: "Grandfather Clock".to_string(),
        intro: r"You'd have to get into this thing's guts. Are you mentally and *spiritually* prepared to mess around with this poor, fallen soldier's insides? On the off chance you can restore life to the dead?".to_string(),
        options: vec![
            DialogueOption {
                description: "On second thought, let's not do that.".to_string(),
                success_dialogue: Some("BrokenClock".to_string()),
                ..Default::default()
            },
            DialogueOption {
                description: "Come on, why did you have to phrase it that way?".to_string(),
                success_dialogue: Some("ClockPhrasing".to_string()),
                ..Default::default()
            },
            DialogueOption {
                description: "Let's do this.".to_string(),
                success_dialogue: Some("ClockInterior".to_string()),
                ..Default::default()
            },
        ],
        ..Default::default()
    };
    proof {
        assert(node@.options =~= clock_recommends().options);
        assert(node@.passive_check =~= clock_recommends().passive_check);
        lemma_dialogue_views_insert(dialogues@, "ClockRecommends"@, node);
    }
    dialogues.insert("ClockRecommends".to_string(), node);

    let node = Dialogue {
        speaker: "Grandfather Clock".to_string(),
        intro: "Like what?".to_string(),
        options: vec![
            DialogueOption {
                description: "Like I'm doing something creepy here! It's just a broken clock.".to_string(),
                success_dialogue: Some("JustABrokenClock".to_string()),
                ..Default::default()
            },
            DialogueOption {
                description: "Like this is some *religious* thing. That's not what I'm about.".to_string(),
                success_dialogue: Some("ReligiousClock".to_string()),
                ..Default::default()
            },
            DialogueOption {
                description: "Like... you know.".to_string(),
                success_dialogue: Some("ClockSuggestive".to_string()),
                ..Default::default()
            },
            DialogueOption {
                description: "You know what, never mind.".to_string(),
                success_dialogue: Some("BrokenClock".to_string()),
                ..Default::default()
            },
            DialogueOption {
                description: "Fine, I'll get *into its guts*. What's in there?".to_string(),
                success_dialogue: Some("ClockInterior".to_string()),
                ..Default::default()
            },
        ],
        ..Default::default()
    };
    proof {
        assert(node@.options =~= clock_phrasing().options);
        assert(node@.passive_check =~= clock_phrasing().passive_check);
        lemma_dialogue_views_insert(dialogues@, "ClockPhrasing"@, node);
    }
    dialogues.insert("ClockPhrasing".to_string(), node);

    let node = Dialogue {
        speaker: "Grandfather Clock".to_string(),
        intro: "*Just* a broken clock? Shows what you know. This right here is a veteran of public administration, an honored servant of the people, languishing under the failures of the regime. How dare you ignore his deeds and his suffering.".to_string(),
        options: vec![
            DialogueOption {
                description: "Well, Grandfather Clockovitch here can languish a little longer.".to_string(),
                success_dialogue: Some("BrokenClock".to_string()),
                ..Default::default()
            },
            DialogueOption {
                description: "Fine, I'll look inside. As long as there's no more creepy phrasing.".to_string(),
                success_dialogue: Some("ClockInterior".to_string()),
                ..Default::default()
            },
        ],
        ..Default::default()
    };
    proof {
        assert(node@.options =~= just_a_broken_clock().options);
        assert(node@.passive_check =~= just_a_broken_clock().passive_check);
        lemma_dialogue_views_insert(dialogues@, "JustABrokenClock"@, node);
    }
    dialogues.insert("JustABrokenClock".to_string(), node);

    let node = Dialogue {
        speaker: "Grandfather Clock".to_string(),
        intro: "Religious? What are you talking about? Grandfather Clockovitch is a ".to_string(),
        options: vec![
            DialogueOption {
                description: "".to_string(),
                success_dialogue: Some("Start".to_string()),
                ..Default::default()
            },
        ],
        ..Default::default()
    };
    proof {
        assert(node@.options =~= religious_clock().options);
        assert(node@.passive_check =~= religious_clock().passive_check);
        lemma_dialogue_views_insert(dialogues@, "ReligiousClock"@, node);
    }
    dialogues.insert("ReligiousClock".to_string(), node);

    let node = Dialogue {
        speaker: "Grandfather Clock".to_string(),
        intro: "I'm very, *very* sure I don't.".to_string(),
        options: vec![
            DialogueOption {
                description: "Like it's something... sexual.".to_string(),
                success_dialogue: Some("ClockSexual".to_string()),
                ..Default::default()
            },
            DialogueOption {
                description: "Fine, I'll leave off. What was that about a sun and moon again?".to_string(),
                success_dialogue: Some("BrokenClock".to_string()),
                ..Default::default()
            },
        ],
        ..Default::default()
    };
    proof {
        assert(node@.options =~= clock_suggestive().options);
        assert(node@.passive_check =~= clock_suggestive().passive_check);
        lemma_dialogue_views_insert(dialogues@, "ClockSuggestive"@, node);
    }
    dialogues.insert("ClockSuggestive".to_string(), node);

    let node = Dialogue {
        speaker: "Grandfather Clock".to_string(),
        intro: r"Wow. Just wow. Just what about sticking your hands *wrist deep* in your comrade's bloody, pulsating wound seems *sexual* to you?".to_string(),
        options: vec![
            DialogueOption {
                description: r"It's not you, it's everyone. Come up with a theoretical justification for your objectively weird thoughts. ".to_string(),
                challenge_attribute: Some("pathology".to_string()),
                challenge_number: Some(8),
                success_dialogue: Some("ClockPerversion".to_string()),
                failure_dialogue: Some("ClockTrauma".to_string()),
                ..Default::default()
            },
            DialogueOption {
                description: "There it is again! You're putting this weird *emphasis* on things.".to_string(),
                success_dialogue: Some("ClockEmphasis".to_string()),
                ..Default::default()
            },
            DialogueOption {
                description: "Actually, you know what? This isn't a sexual thing, it's a religious thing.".to_string(),
                success_dialogue: Some("ClockSexualReligion".to_string()),
                ..Default::default()
            },
        ],
        ..Default::default()
    };
    proof {
        assert(node@.options =~= clock_sexual().options);
        assert(node@.passive_check =~= clock_sexual().passive_check);
        lemma_dialogue_views_insert(dialogues@, "ClockSexual"@, node);
    }
    dialogues.insert("ClockSexual".to_string(), node);
}

} // verus!
