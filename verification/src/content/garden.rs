//! The nodes of the garden.

use vstd::prelude::*;
use crate::dialogues::{
    Dialogue,
    DialogueOption,
    DialogueOptionView,
    DialogueView,
    dialogue_views,
    lemma_dialogue_views_insert,
};
use crate::table::Table;

verus! {

/// The node "Start".
pub open spec fn start() -> DialogueView {
    DialogueView {
        speaker: ""@,
        intro: "You are now in the garden. An old woman sits on a bench."@,
        options: seq![
            DialogueOptionView {
                description: "Talk to the old woman."@,
                challenge_attribute: None,
                challenge_number: None,
                success_dialogue: Some("OldWomanResponse"@),
                failure_dialogue: None,
                item_to_pickup: None,
                visible_when: None,
                flags: None,
            },
            DialogueOptionView {
                description: "Go back to the first floor."@,
                challenge_attribute: None,
                challenge_number: None,
                success_dialogue: Some("FirstFloor"@),
                failure_dialogue: None,
                item_to_pickup: None,
                visible_when: None,
                flags: None,
            },
        ],
        passive_check: seq![],
        xp_reward: None,
        is_hidden: false,
        time: Some(1)
    }
}

/// The node "OldWomanResponse".
pub open spec fn old_woman_response() -> DialogueView {
    DialogueView {
        speaker: ""@,
        intro: "The old woman smiles softly and speaks in a quiet voice."@,
        options: seq![
            DialogueOptionView {
                description: "Exit conversation."@,
                challenge_attribute: None,
                challenge_number: None,
                success_dialogue: Some("Start"@),
                failure_dialogue: None,
                item_to_pickup: None,
                visible_when: None,
                flags: None,
            },
        ],
        passive_check: seq![],
        xp_reward: None,
        is_hidden: false,
        time: Some(1),
    }
}

/// `nodes` with these nodes put in, each under its id, in the order in
/// which they are listed: a later node takes the place of an earlier one
/// of the same id.
pub open spec fn with_nodes(nodes: Map<Seq<char>, DialogueView>) -> Map<Seq<char>, DialogueView> {
    nodes.insert("Start"@, start()).insert("OldWomanResponse"@, old_woman_response())
}

/// The ids of these nodes.
pub open spec fn ids() -> Set<Seq<char>> {
    Set::empty().insert("Start"@).insert("OldWomanResponse"@)
}

/// Putting these nodes into a map adds their ids to its keys.
pub proof fn lemma_ids(nodes: Map<Seq<char>, DialogueView>)
    ensures
        with_nodes(nodes).dom() == nodes.dom().union(ids()),
{
    assert(with_nodes(nodes).dom() =~= nodes.dom().union(ids()));
}

/// Puts these nodes into `dialogues`.
pub fn add_nodes(dialogues: &mut Table<Dialogue>)
    ensures
        dialogue_views(final(dialogues)@) == with_nodes(dialogue_views(old(dialogues)@)),
{
    let node = Dialogue {
        speaker: "".to_string(),
        intro: "You are now in the garden. An old woman sits on a bench.".to_string(),
        options: vec![
            DialogueOption {
                description: "Talk to the old woman.".to_string(),
                challenge_attribute: None,
                challenge_number: None,
                success_dialogue: Some("OldWomanResponse".to_string()),
                failure_dialogue: None,
                item_to_pickup: None,
                visible_when: None,
                flags: None,
            },
            DialogueOption {
                description: "Go back to the first floor.".to_string(),
                challenge_attribute: None,
                challenge_number: None,
                success_dialogue: Some("FirstFloor".to_string()),
                failure_dialogue: None,
                item_to_pickup: None,
                visible_when: None,
                flags: None,
            },
        ],
        passive_check: vec![],
        xp_reward: None,
        is_hidden: false,
        time: Some(1)
    };
    proof {
        assert(node@.options =~= start().options);
        assert(node@.passive_check =~= start().passive_check);
        lemma_dialogue_views_insert(dialogues@, "Start"@, node);
    }
    dialogues.insert("Start".to_string(), node);

    let node = Dialogue {
        speaker: "".to_string(),
        intro: "The old woman smiles softly and speaks in a quiet voice.".to_string(),
        options: vec![
            DialogueOption {
                description: "Exit conversation.".to_string(),
                challenge_attribute: None,
                challenge_number: None,
                success_dialogue: Some("Start".to_string()),
                failure_dialogue: None,
                item_to_pickup: None,
                visible_when: None,
                flags: None,
            },
        ],
        passive_check: vec![],
        xp_reward: None,
        is_hidden: false,
        time: Some(1),
    };
    proof {
        assert(node@.options =~= old_woman_response().options);
        assert(node@.passive_check =~= old_woman_response().passive_check);
        lemma_dialogue_views_insert(dialogues@, "OldWomanResponse"@, node);
    }
    dialogues.insert("OldWomanResponse".to_string(), node);
}

} // verus!
