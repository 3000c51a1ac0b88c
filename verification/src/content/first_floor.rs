//! The nodes of the first floor.

use vstd::prelude::*;
use crate::dialogues::{
    Dialogue,
    DialogueOption,
    DialogueOptionView,
    DialogueView,
    dialogue_views,
    lemma_dialogue_views_insert,
};
use crate::table::Table;

verus! {

/// The node "Start".
pub open spec fn start() -> DialogueView {
    DialogueView {
        speaker: ""@,
        intro: "You are now on the first floor. A butler greets you."@,
        options: seq![
            DialogueOptionView {
                description: "Talk to the butler."@,
                challenge_attribute: None,
                challenge_number: None,
                success_dialogue: Some("ButlerResponse"@),
                failure_dialogue: None,
                item_to_pickup: None,
                visible_when: None,
                flags: None,
            },
            DialogueOptionView {
                description: "Try to open the stuck door (Dossier challenge)."@,
                challenge_attribute: Some("dossier"@),
                challenge_number: Some(12),
                success_dialogue: Some("Garden"@),
                failure_dialogue: Some("FailedDoor"@),
                item_to_pickup: None,
                visible_when: None,
                flags: None,
            },
            DialogueOptionView {
                description: "Go back to the vestibule."@,
                challenge_attribute: None,
                challenge_number: None,
                success_dialogue: Some("Vestibule"@),
                failure_dialogue: None,
                item_to_pickup: None,
                visible_when: None,
                flags: None,
            },
        ],
        passive_check: seq![],
        xp_reward: None,
        is_hidden: false,
        time: Some(1),
    }
}

/// The node "ButlerResponse".
pub open spec fn butler_response() -> DialogueView {
    DialogueView {
        speaker: ""@,
        intro: "The butler nods respectfully. 'The garden is beyond the stuck door,' he mentions."@,
        options: seq![
            DialogueOptionView {
                description: "Exit conversation."@,
                challenge_attribute: None,
                challenge_number: None,
                success_dialogue: Some("Start"@),
                failure_dialogue: None,
                item_to_pickup: None,
                visible_when: None,
                flags: None,
            },
        ],
        passive_check: seq![],
        xp_reward: None,
        is_hidden: false,
        time: Some(1),
    }
}

/// The node "FailedDoor".
pub open spec fn failed_door() -> DialogueView {
    DialogueView {
        speaker: ""@,
        intro: "The door remains stuck, refusing to budge."@,
        options: seq![
            DialogueOptionView {
                description: "Go back to the first floor."@,
                challenge_attribute: None,
                challenge_number: None,
                success_dialogue: Some("Start"@),
                failure_dialogue: None,
                item_to_pickup: None,
                visible_when: None,
                flags: None,
            },
        ],
        passive_check: seq![],
        xp_reward: None,
        is_hidden: false,
        time: Some(1),
    }
}

/// `nodes` with these nodes put in, each under its id, in the order in
/// which they are listed: a later node takes the place of an earlier one
/// of the same id.
pub open spec fn with_nodes(nodes: Map<Seq<char>, DialogueView>) -> Map<Seq<char>, DialogueView> {
    nodes.insert("Start"@, start()).insert("ButlerResponse"@, butler_response()).insert("FailedDoor"@, failed_door())
}

/// The ids of these nodes.
pub open spec fn ids() -> Set<Seq<char>> {
    Set::empty().insert("Start"@).insert("ButlerResponse"@).insert("FailedDoor"@)
}

/// Putting these nodes into a map adds their ids to its keys.
pub proof fn lemma_ids(nodes: Map<Seq<char>, DialogueView>)
    ensures
        with_nodes(nodes).dom() == nodes.dom().union(ids()),
{
    assert(with_nodes(nodes).dom() =~= nodes.dom().union(ids()));
}

/// Puts these nodes into `dialogues`.
pub fn add_nodes(dialogues: &mut Table<Dialogue>)
    ensures
        dialogue_views(final(dialogues)@) == with_nodes(dialogue_views(old(dialogues)@)),
{
    let node = Dialogue {
        speaker: "".to_string(),
        intro: "You are now on the first floor. A butler greets you.".to_string(),
        options: vec![
            DialogueOption {
                description: "Talk to the butler.".to_string(),
                challenge_attribute: None,
                challenge_number: None,
                success_dialogue: Some("ButlerResponse".to_string()),
                failure_dialogue: None,
                item_to_pickup: None,
                visible_when: None,
                flags: None,
            },
            DialogueOption {
                description: "Try to open the stuck door (Dossier challenge).".to_string(),
                challenge_attribute: Some("dossier".to_string()),
                challenge_number: Some(12),
                success_dialogue: Some("Garden".to_string()),
                failure_dialogue: Some("FailedDoor".to_string()),
                item_to_pickup: None,
                visible_when: None,
                flags: None,
            },
            DialogueOption {
                description: "Go back to the vestibule.".to_string(),
                challenge_attribute: None,
                challenge_number: None,
                success_dialogue: Some("Vestibule".to_string()),
                failure_dialogue: None,
                item_to_pickup: None,
                visible_when: None,
                flags: None,
            },
        ],
        passive_check: vec![],
        xp_reward: None,
        is_hidden: false,
        time: Some(1),
    };
    proof {
        assert(node@.options =~= start().options);
        assert(node@.passive_check =~= start().passive_check);
        lemma_dialogue_views_insert(dialogues@, "Start"@, node);
    }
    dialogues.insert("Start".to_string(), node);

    let node = Dialogue {
        speaker: "".to_string(),
        intro: "The butler nods respectfully. 'The garden is beyond the stuck door,' he mentions.".to_string(),
        options: vec![
            DialogueOption {
                description: "Exit conversation.".to_string(),
                challenge_attribute: None,
                challenge_number: None,
                success_dialogue: Some("Start".to_string()),
                failure_dialogue: None,
                item_to_pickup: None,
                visible_when: None,
                flags: None,
            },
        ],
        passive_check: vec![],
        xp_reward: None,
        is_hidden: false,
        time: Some(1),
    };
    proof {
        assert(node@.options =~= butler_response().options);
        assert(node@.passive_check =~= butler_response().passive_check);
        lemma_dialogue_views_insert(dialogues@, "ButlerResponse"@, node);
    }
    dialogues.insert("ButlerResponse".to_string(), node);

    let node = Dialogue {
        speaker: "".to_string(),
        intro: "The door remains stuck, refusing to budge.".to_string(),
        options: vec![
            DialogueOption {
                description: "Go back to the first floor.".to_string(),
                challenge_attribute: None,
                challenge_number: None,
                success_dialogue: Some("Start".to_string()),
                failure_dialogue: None,
                item_to_pickup: None,
                visible_when: None,
                flags: None,
            },
        ],
        passive_check: vec![],
        xp_reward: None,
        is_hidden: false,
        time: Some(1),
    };
    proof {
        assert(node@.options =~= failed_door().options);
        assert(node@.passive_check =~= failed_door().passive_check);
        lemma_dialogue_views_insert(dialogues@, "FailedDoor"@, node);
    }
    dialogues.insert("FailedDoor".to_string(), node);
}

} // verus!
