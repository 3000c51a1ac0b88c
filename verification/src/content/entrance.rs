//! The nodes of the entrance of the vestibule.

use vstd::prelude::*;
use crate::dialogues::{
    Dialogue,
    DialogueOption,
    DialogueOptionView,
    DialogueView,
    default_dialogue,
    default_option,
    dialogue_views,
    lemma_dialogue_views_insert,
};
use crate::table::Table;

verus! {

/// The node "Start".
pub open spec fn start() -> DialogueView {
    DialogueView {
        speaker: ""@,
        intro: "The front door swings shut, cutting off the bitter wind like a scythe. You stand in the harsh light of a public apartment vestibule. A grid of mailboxes wait, closed, and a grandfather clock stands stout against the wall, like an elderly servant whose crooked back can't quite stand up to attention."@,
        options: seq![
            DialogueOptionView {
                description: "Inspect the grandfather clock."@,
                success_dialogue: Some("InspectClock"@),
                ..default_option()
            },
            DialogueOptionView {
                description: "Look in the mailboxes."@,
                success_dialogue: Some("VestibuleMailboxes"@),
                ..default_option()
            },
            DialogueOptionView {
                description: "Go to the first floor."@,
                success_dialogue: Some("FirstFloor"@),
                ..default_option()
            },
        ],
        is_hidden: false,
        ..default_dialogue()
    }
}

/// `nodes` with these nodes put in, each under its id, in the order in
/// which they are listed: a later node takes the place of an earlier one
/// of the same id.
pub open spec fn with_nodes(nodes: Map<Seq<char>, DialogueView>) -> Map<Seq<char>, DialogueView> {
    nodes.insert("Start"@, start())
}

/// The ids of these nodes.
pub open spec fn ids() -> Set<Seq<char>> {
    Set::empty().insert("Start"@)
}

/// Putting these nodes into a map adds their ids to its keys.
pub proof fn lemma_ids(nodes: Map<Seq<char>, DialogueView>)
    ensures
        with_nodes(nodes).dom() == nodes.dom().union(ids()),
{
    assert(with_nodes(nodes).dom() =~= nodes.dom().union(ids()));
}

/// Puts these nodes into `dialogues`.
pub fn add_nodes(dialogues: &mut Table<Dialogue>)
    ensures
        dialogue_views(final(dialogues)@) == with_nodes(dialogue_views(old(dialogues)@)),
{
    let node = Dialogue {
        speaker: "".to_string(),
        intro: "The front door swings shut, cutting off the bitter wind like a scythe. You stand in the harsh light of a public apartment vestibule. A grid of mailboxes wait, closed, and a grandfather clock stands stout against the wall, like an elderly servant whose crooked back can't quite stand up to attention.".to_string(),
        options: vec![
            DialogueOption {
                description: "Inspect the grandfather clock.".to_string(),
                success_dialogue: Some("InspectClock".to_string()),
                ..Default::default()
            },
            DialogueOption {
                description: "Look in the mailboxes.".to_string(),
                success_dialogue: Some("VestibuleMailboxes".to_string()),
                ..Default::default()
            },
            DialogueOption {
                description: "Go to the first floor.".to_string(),
                success_dialogue: Some("FirstFloor".to_string()),
                ..Default::default()
            },
        ],
        is_hidden: false,
        ..Default::default()
    };
    proof {
        assert(node@.options =~= start().options);
        assert(node@.passive_check =~= start().passive_check);
        lemma_dialogue_views_insert(dialogues@, "Start"@, node);
    }
    dialogues.insert("Start".to_string(), node);
}

} // verus!
