//! The nodes of where that conversation leads, and the inside of the clock.

use vstd::prelude::*;
use crate::dialogues::{
    Dialogue,
    DialogueOption,
    DialogueOptionView,
    DialogueView,
    default_dialogue,
    default_option,
    dialogue_views,
    lemma_dialogue_views_insert,
};
use crate::table::Table;

verus! {

/// The node "ClockPerversion".
pub open spec fn clock_perversion() -> DialogueView {
    DialogueView {
        speaker: "Grandfather Clock"@,
        intro: r"It's an extremely common and not at all shameful perversion, characteristic of the Republic's struggles against the insidious American *Central Intelligence Agency*."@,
        options: seq![
            DialogueOptionView {
                description: "Let's go with that."@,
                success_dialogue: Some("ClockCIA"@),
                ..default_option()
            },
            DialogueOptionView {
                description: "No, you can't possibly be serious. How can that possibly make sense?"@,
                success_dialogue: Some("ClockExplanation"@),
                ..default_option()
            },
        ],
        ..default_dialogue()
    }
}

/// The node "ClockTrauma".
pub open spec fn clock_trauma() -> DialogueView {
    DialogueView {
        speaker: "Grandfather Clock"@,
        intro: "It's a trauma response."@,
        options: seq![
            DialogueOptionView {
                description: "What, seriously?"@,
                success_dialogue: Some("ClockNotTrauma"@),
                ..default_option()
            },
            DialogueOptionView {
                description: "Did I have to do... that... during The War? Do I have repressed memories I need to process?"@,
                success_dialogue: Some("ClockRepression"@),
                ..default_option()
            },
        ],
        ..default_dialogue()
    }
}

/// The node "ClockNotTrauma".
pub open spec fn clock_not_trauma() -> DialogueView {
    DialogueView {
        speaker: "Grandfather Clock"@,
        intro: r"Look, all I now is that whenever something like this happens to you, there's exactly one phrase bouncing around this empty skull, and it's 'trauma response'. Trauma response this, trauma response that. It gets you out of anything."@,
        options: seq![
            DialogueOptionView {
                description: ""@,
                success_dialogue: Some(""@),
                ..default_option()
            },
        ],
        ..default_dialogue()
    }
}

/// The node "ClockRepression".
pub open spec fn clock_repression() -> DialogueView {
    DialogueView {
        speaker: "Grandfather Clock"@,
        intro: r"Something here is definitely repressed, but it's not memories. You're no amnesiac, as much as you might like to be, at times."@,
        options: seq![
            DialogueOptionView {
                description: ""@,
                success_dialogue: Some(""@),
                ..default_option()
            },
        ],
        ..default_dialogue()
    }
}

/// The node "ClockCIA".
pub open spec fn clock_cia() -> DialogueView {
    DialogueView {
        speaker: "Grandfather Clock"@,
        intro: ""@,
        options: seq![
            DialogueOptionView {
                description: ""@,
                success_dialogue: Some(""@),
                ..default_option()
            },
        ],
        ..default_dialogue()
    }
}

/// The node "ClockExplanation".
pub open spec fn clock_explanation() -> DialogueView {
    DialogueView {
        speaker: "Grandfather Clock"@,
        intro: r"Simple. Communism is built upon love for your comrade. \
            Not bourgeous romantic love, or feudal familial love, or reactionary \
            love of country, but the superior and pure love of the worker standing \
            by your side. The CIA's modus operandi is to undermine the foundation \
            of communism by turning comrades against one another. This objective, \
            to our great misfortune, has been largely successful. Everywhere now, \
            you can see signs of bourgeois romantic love displacing \
            true communist camaraderie, and bringing with it a perverse focus on \
            sex. But this train of thought, by re-associating the apparently \
            sexual elements with the suffering of one's comrades, reinforces the \
            revolutionary spirit and wards off capitalist infiltration. The only \
            reason you recoil from this image, instead of embracing it, is \
            because you yet possess a remnant of the bourgeois ego, nurtured by CIA \
            propaganda, to which laying down all and destroying all boundaries \
            for the sake of your comrades is unacceptable."@,
        options: seq![
            DialogueOptionView {
                description: "You know, somehow that fails to make me okay with all of this."@,
                success_dialogue: Some(""@),
                ..default_option()
            },
            DialogueOptionView {
                description: ""@,
                success_dialogue: Some(""@),
                ..default_option()
            },
            DialogueOptionView {
                description: "If this is what communism has come to, shave my mustache and call me Milton Friedman. (Leave in disgust)"@,
                success_dialogue: Some("Start"@),
                ..default_option()
            },
        ],
        ..default_dialogue()
    }
}

/// The node "ClockMissingGear".
pub open spec fn clock_missing_gear() -> DialogueView {
    DialogueView {
        speaker: ""@,
        intro: ""@,
        options: seq![
            DialogueOptionView {
                description: ""@,
                success_dialogue: Some("Start"@),
                ..default_option()
            },
        ],
        xp_reward: Some(10),
        ..default_dialogue()
    }
}

/// The node "ClockFixImpossible".
pub open spec fn clock_fix_impossible() -> DialogueView {
    DialogueView {
        speaker: ""@,
        intro: ""@,
        options: seq![
            DialogueOptionView {
                description: ""@,
                success_dialogue: Some("Start"@),
                ..default_option()
            },
        ],
        ..default_dialogue()
    }
}

/// The node "ClockPlane".
pub open spec fn clock_plane() -> DialogueView {
    DialogueView {
        speaker: "SU-25 Grach"@,
        intro: "This is the Sukhoi SU-25 Grach, a single-seat twin-engine close air support jet, most notable for its extensive counter-insurgency missions in Afghanistan."@,
        options: seq![
            DialogueOptionView {
                description: "Pick it up"@,
                success_dialogue: Some("ClockInterior"@),
                item_to_pickup: Some("Sukhoi SU-25 Grach model"@),
                ..default_option()
            },
            DialogueOptionView {
                description: "It's only a model (Return)"@,
                success_dialogue: Some("ClockInterior"@),
                ..default_option()
            },
        ],
        xp_reward: Some(5),
        ..default_dialogue()
    }
}

/// The node "ClockPlaneFail".
pub open spec fn clock_plane_fail() -> DialogueView {
    DialogueView {
        speaker: "Toy Plane"@,
        intro: "It's just a toy plane. Looks cool though."@,
        options: seq![
            DialogueOptionView {
                description: "Pick it up"@,
                success_dialogue: Some("ClockInterior"@),
                item_to_pickup: Some("Toy Plane"@),
                ..default_option()
            },
            DialogueOptionView {
                description: "(Return)"@,
                success_dialogue: Some("ClockInterior"@),
                ..default_option()
            },
        ],
        ..default_dialogue()
    }
}

/// `nodes` with these nodes put in, each under its id, in the order in
/// which they are listed: a later node takes the place of an earlier one
/// of the same id.
pub open spec fn with_nodes(nodes: Map<Seq<char>, DialogueView>) -> Map<Seq<char>, DialogueView> {
    nodes.insert("ClockPerversion"@, clock_perversion()).insert("ClockTrauma"@, clock_trauma()).insert("ClockNotTrauma"@, clock_not_trauma()).insert("ClockRepression"@, clock_repression()).insert("ClockCIA"@, clock_cia()).insert("ClockExplanation"@, clock_explanation()).insert("ClockMissingGear"@, clock_missing_gear()).insert("ClockFixImpossible"@, clock_fix_impossible()).insert("ClockPlane"@, clock_plane()).insert("ClockPlaneFail"@, clock_plane_fail())
}

/// The ids of these nodes.
pub open spec fn ids() -> Set<Seq<char>> {
    Set::empty().insert("ClockPerversion"@).insert("ClockTrauma"@).insert("ClockNotTrauma"@).insert("ClockRepression"@).insert("ClockCIA"@).insert("ClockExplanation"@).insert("ClockMissingGear"@).insert("ClockFixImpossible"@).insert("ClockPlane"@).insert("ClockPlaneFail"@)
}

/// Putting these nodes into a map adds their ids to its keys.
pub proof fn lemma_ids(nodes: Map<Seq<char>, DialogueView>)
    ensures
        with_nodes(nodes).dom() == nodes.dom().union(ids()),
{
    assert(with_nodes(nodes).dom() =~= nodes.dom().union(ids()));
}

/// Puts these nodes into `dialogues`.
pub fn add_nodes(dialogues: &mut Table<Dialogue>)
    ensures
        dialogue_views(final(dialogues)@) == with_nodes(dialogue_views(old(dialogues)@)),
{
    let node = Dialogue {
        speaker: "Grandfather Clock".to_string(),
        intro: r"It's an extremely common and not at all shameful perversion, characteristic of the Republic's struggles against the insidious American *Central Intelligence Agency*.".to_string(),
        options: vec![
            DialogueOption {
                description: "Let's go with that.".to_string(),
                success_dialogue: Some("ClockCIA".to_string()),
                ..Default::default()
            },
            DialogueOption {
                description: "No, you can't possibly be serious. How can that possibly make sense?".to_string(),
                success_dialogue: Some("ClockExplanation".to_string()),
                ..Default::default()
            },
        ],
        ..Default::default()
    };
    proof {
        assert(node@.options =~= clock_perversion().options);
        assert(node@.passive_check =~= clock_perversion().passive_check);
        lemma_dialogue_views_insert(dialogues@, "ClockPerversion"@, node);
    }
    dialogues.insert("ClockPerversion".to_string(), node);

    let node = Dialogue {
        speaker: "Grandfather Clock".to_string(),
        intro: "It's a trauma response.".to_string(),
        options: vec![
            DialogueOption {
                description: "What, seriously?".to_string(),
                success_dialogue: Some("ClockNotTrauma".to_string()),
                ..Default::default()
            },
            DialogueOption {
                description: "Did I have to do... that... during The War? Do I have repressed memories I need to process?".to_string(),
                success_dialogue: Some("ClockRepression".to_string()),
                ..Default::default()
            },
        ],
        ..Default::default()
    };
    proof {
        assert(node@.options =~= clock_trauma().options);
        assert(node@.passive_check =~= clock_trauma().passive_check);
        lemma_dialogue_views_insert(dialogues@, "ClockTrauma"@, node);
    }
    dialogues.insert("ClockTrauma".to_string(), node);

    let node = Dialogue {
        speaker: "Grandfather Clock".to_string(),
        intro: r"Look, all I now is that whenever something like this happens to you, there's exactly one phrase bouncing around this empty skull, and it's 'trauma response'. Trauma response this, trauma response that. It gets you out of anything.".to_string(),
        options: vec![
            DialogueOption {
                description: "".to_string(),
                success_dialogue: Some("".to_string()),
                ..Default::default()
            },
        ],
        ..Default::default()
    };
    proof {
        assert(node@.options =~= clock_not_trauma().options);
        assert(node@.passive_check =~= clock_not_trauma().passive_check);
        lemma_dialogue_views_insert(dialogues@, "ClockNotTrauma"@, node);
    }
    dialogues.insert("ClockNotTrauma".to_string(), node);

    let node = Dialogue {
        speaker: "Grandfather Clock".to_string(),
        intro: r"Something here is definitely repressed, but it's not memories. You're no amnesiac, as much as you might like to be, at times.".to_string(),
        options: vec![
            DialogueOption {
                description: "".to_string(),
                success_dialogue: Some("".to_string()),
                ..Default::default()
            },
        ],
        ..Default::default()
    };
    proof {
        assert(node@.options =~= clock_repression().options);
        assert(node@.passive_check =~= clock_repression().passive_check);
        lemma_dialogue_views_insert(dialogues@, "ClockRepression"@, node);
    }
    dialogues.insert("ClockRepression".to_string(), node);

    let node = Dialogue {
        speaker: "Grandfather Clock".to_string(),
        intro: "".to_string(),
        options: vec![
            DialogueOption {
                description: "".to_string(),
                success_dialogue: Some("".to_string()),
                ..Default::default()
            },
        ],
        ..Default::default()
    };
    proof {
        assert(node@.options =~= clock_cia().options);
        assert(node@.passive_check =~= clock_cia().passive_check);
        lemma_dialogue_views_insert(dialogues@, "ClockCIA"@, node);
    }
    dialogues.insert("ClockCIA".to_string(), node);

    let node = Dialogue {
        speaker: "Grandfather Clock".to_string(),
        intro: r"Simple. Communism is built upon love for your comrade. \
            Not bourgeous romantic love, or feudal familial love, or reactionary \
            love of country, but the superior and pure love of the worker standing \
            by your side. The CIA's modus operandi is to undermine the foundation \
            of communism by turning comrades against one another. This objective, \
            to our great misfortune, has been largely successful. Everywhere now, \
            you can see signs of bourgeois romantic love displacing \
            true communist camaraderie, and bringing with it a perverse focus on \
            sex. But this train of thought, by re-associating the apparently \
            sexual elements with the suffering of one's comrades, reinforces the \
            revolutionary spirit and wards off capitalist infiltration. The only \
            reason you recoil from this image, instead of embracing it, is \
            because you yet possess a remnant of the bourgeois ego, nurtured by CIA \
            propaganda, to which laying down all and destroying all boundaries \
            for the sake of your comrades is unacceptable.".to_string(),
        options: vec![
            DialogueOption {
                description: "You know, somehow that fails to make me okay with all of this.".to_string(),
                success_dialogue: Some("".to_string()),
                ..Default::default()
            },
            DialogueOption {
                description: "".to_string(),
                success_dialogue: Some("".to_string()),
                ..Default::default()
            },
            DialogueOption {
                description: "If this is what communism has come to, shave my mustache and call me Milton Friedman. (Leave in disgust)".to_string(),
                success_dialogue: Some("Start".to_string()),
                ..Default::default()
            },
        ],
        ..Default::default()
    };
    proof {
        assert(node@.options =~= clock_explanation().options);
        assert(node@.passive_check =~= clock_explanation().passive_check);
        lemma_dialogue_views_insert(dialogues@, "ClockExplanation"@, node);
    }
    dialogues.insert("ClockExplanation".to_string(), node);

    let node = Dialogue {
        speaker: "".to_string(),
        intro: "".to_string(),
        options: vec![
            DialogueOption {
                description: "".to_string(),
                success_dialogue: Some("Start".to_string()),
                ..Default::default()
            },
        ],
        xp_reward: Some(10),
        ..Default::default()
    };
    proof {
        assert(node@.options =~= clock_missing_gear().options);
        assert(node@.passive_check =~= clock_missing_gear().passive_check);
        lemma_dialogue_views_insert(dialogues@, "ClockMissingGear"@, node);
    }
    dialogues.insert("ClockMissingGear".to_string(), node);

    let node = Dialogue {
        speaker: "".to_string(),
        intro: "".to_string(),
        options: vec![
            DialogueOption {
                description: "".to_string(),
                success_dialogue: Some("Start".to_string()),
                ..Default::default()
            },
        ],
        ..Default::default()
    };
    proof {
        assert(node@.options =~= clock_fix_impossible().options);
        assert(node@.passive_check =~= clock_fix_impossible().passive_check);
        lemma_dialogue_views_insert(dialogues@, "ClockFixImpossible"@, node);
    }
    dialogues.insert("ClockFixImpossible".to_string(), node);

    let node = Dialogue {
        speaker: "SU-25 Grach".to_string(),
        intro: "This is the Sukhoi SU-25 Grach, a single-seat twin-engine close air support jet, most notable for its extensive counter-insurgency missions in Afghanistan.".to_string(),
        options: vec![
            DialogueOption {
                description: "Pick it up".to_string(),
                success_dialogue: Some("ClockInterior".to_string()),
                item_to_pickup: Some("Sukhoi SU-25 Grach model".to_string()),
                ..Default::default()
            },
            DialogueOption {
                description: "It's only a model (Return)".to_string(),
                success_dialogue: Some("ClockInterior".to_string()),
                ..Default::default()
            },
        ],
        xp_reward: Some(5),
        ..Default::default()
    };
    proof {
        assert(node@.options =~= clock_plane().options);
        assert(node@.passive_check =~= clock_plane().passive_check);
        lemma_dialogue_views_insert(dialogues@, "ClockPlane"@, node);
    }
    dialogues.insert("ClockPlane".to_string(), node);

    let node = Dialogue {
        speaker: "Toy Plane".to_string(),
        intro: "It's just a toy plane. Looks cool though.".to_string(),
        options: vec![
            DialogueOption {
                description: "Pick it up".to_string(),
                success_dialogue: Some("ClockInterior".to_string()),
                item_to_pickup: Some("Toy Plane".to_string()),
                ..Default::default()
            },
            DialogueOption {
                description: "(Return)".to_string(),
                success_dialogue: Some("ClockInterior".to_string()),
                ..Default::default()
            },
        ],
        ..Default::default()
    };
    proof {
        assert(node@.options =~= clock_plane_fail().options);
        assert(node@.passive_check =~= clock_plane_fail().passive_check);
        lemma_dialogue_views_insert(dialogues@, "ClockPlaneFail"@, node);
    }
    dialogues.insert("ClockPlaneFail".to_string(), node);
}

} // verus!
