//! The nodes of the rows of mailboxes.

use vstd::prelude::*;
use crate::dialogues::{
    Dialogue,
    DialogueOption,
    DialogueOptionView,
    DialogueView,
    PassiveCheck,
    PassiveCheckView,
    default_dialogue,
    default_option,
    dialogue_views,
    lemma_dialogue_views_insert,
};
use crate::table::Table;

verus! {

/// The node "VestibuleMailboxes".
pub open spec fn vestibule_mailboxes() -> DialogueView {
    DialogueView {
        speaker: "Mailboxes"@,
        intro: "Four rows of square, wooden mailboxes sit above a dusty bar mounted to the wall."@,
        options: seq![
            DialogueOptionView {
                description: "Examine the mailboxes"@,
                success_dialogue: Some("MailboxExamination"@),
                ..default_option()
            },
            DialogueOptionView {
                description: "Look at the first row"@,
                success_dialogue: Some("MailboxFirstRow"@),
                ..default_option()
            },
            DialogueOptionView {
                description: "Look at the second row"@,
                success_dialogue: Some("MailboxSecondRow"@),
                ..default_option()
            },
            DialogueOptionView {
                description: "Look at the third row"@,
                success_dialogue: Some("MailboxThirdRow"@),
                ..default_option()
            },
            DialogueOptionView {
                description: "Look at the fourth row"@,
                success_dialogue: Some("MailboxFourthRow"@),
                ..default_option()
            },
            DialogueOptionView {
                description: "Exit"@,
                success_dialogue: Some("Start"@),
                ..default_option()
            },
        ],
        passive_check: seq![
            PassiveCheckView {
                skill: "dossier"@,
                target: 8,
                success_text: Some("The first mailbox in the fourth row, number 400, just reads 'Administrator.' This one's yours."@),
                failure_text: None,
                speaker: Some("Dossier"@)
            },
        ],
        ..default_dialogue()
    }
}

/// The node "MailboxFirstRow".
pub open spec fn mailbox_first_row() -> DialogueView {
    DialogueView {
        speaker: "Mailboxes"@,
        intro: ""@,
        options: seq![
            DialogueOptionView {
                description: "Open 106: Kutuzov"@,
                success_dialogue: Some("Mailbox106"@),
                ..default_option()
            },
            DialogueOptionView {
                description: "Open 108: "@,
                success_dialogue: Some("Mailbox108"@),
                ..default_option()
            },
            DialogueOptionView {
                description: "Return"@,
                success_dialogue: Some("VestibuleMailboxes"@),
                ..default_option()
            },
        ],
        ..default_dialogue()
    }
}

/// The node "MailboxSecondRow".
pub open spec fn mailbox_second_row() -> DialogueView {
    DialogueView {
        speaker: "Mailboxes"@,
        intro: ""@,
        options: seq![
            DialogueOptionView {
                description: "Open 201: "@,
                success_dialogue: Some("Mailbox201"@),
                ..default_option()
            },
            DialogueOptionView {
                description: "Open 205: "@,
                success_dialogue: Some("Mailbox205"@),
                ..default_option()
            },
            DialogueOptionView {
                description: "Open 206: "@,
                success_dialogue: Some("Mailbox206"@),
                ..default_option()
            },
            DialogueOptionView {
                description: "Open 208: "@,
                success_dialogue: Some("Mailbox208"@),
                ..default_option()
            },
            DialogueOptionView {
                description: "Return"@,
                success_dialogue: Some("VestibuleMailboxes"@),
                ..default_option()
            },
        ],
        ..default_dialogue()
    }
}

/// The node "MailboxThirdRow".
pub open spec fn mailbox_third_row() -> DialogueView {
    DialogueView {
        speaker: "Mailboxes"@,
        intro: ""@,
        options: seq![
            DialogueOptionView {
                description: "Open 301: "@,
                success_dialogue: Some("Mailbox301"@),
                ..default_option()
            },
            DialogueOptionView {
                description: "Open 303: "@,
                success_dialogue: Some("Mailbox303"@),
                ..default_option()
            },
            DialogueOptionView {
                description: "Open 304: "@,
                success_dialogue: Some("Mailbox304"@),
                ..default_option()
            },
            DialogueOptionView {
                description: "Open 305: "@,
                success_dialogue: Some("Mailbox305"@),
                ..default_option()
            },
            DialogueOptionView {
                description: "Open 307: "@,
                success_dialogue: Some("Mailbox307"@),
                ..default_option()
            },
            DialogueOptionView {
                description: "Return"@,
                success_dialogue: Some("VestibuleMailboxes"@),
                ..default_option()
            },
        ],
        ..default_dialogue()
    }
}

/// The node "MailboxFourthRow".
pub open spec fn mailbox_fourth_row() -> DialogueView {
    DialogueView {
        speaker: "Mailboxes"@,
        intro: "The lone nameplate reads: Administrator. It's clean, free of dust, and undamaged."@,
        options: seq![
            DialogueOptionView {
                description: "Open 400: Administrator"@,
                success_dialogue: Some("Mailbox400"@),
                ..default_option()
            },
            DialogueOptionView {
                description: "Return"@,
                success_dialogue: Some("VestibuleMailboxes"@),
                ..default_option()
            },
        ],
        ..default_dialogue()
    }
}

/// The node "MailboxExamination".
pub open spec fn mailbox_examination() -> DialogueView {
    DialogueView {
        speaker: "Mailboxes"@,
        intro: "Most have no nameplate at all. Maybe a dozen or so apartments are actually assigned. Most of those are empty too."@,
        options: seq![
            DialogueOptionView {
                description: ""@,
                success_dialogue: Some(""@),
                ..default_option()
            },
        ],
        passive_check: seq![
            PassiveCheckView {
                skill: "robot"@,
                target: 0,
                success_text: Some("Good. The people here are dutiful. They collect their mail on time."@),
                failure_text: None,
                speaker: Some("Robot"@)
            },
            PassiveCheckView {
                skill: "delusion"@,
                target: 10,
                success_text: Some("Unlikely. These mailboxes are sad. Lonely. Touch-starved."@),
                failure_text: None,
                speaker: Some("Delusion"@)
            },
        ],
        ..default_dialogue()
    }
}

/// The node "Mailbox106".
pub open spec fn mailbox_106() -> DialogueView {
    DialogueView {
        speaker: "Mailboxes"@,
        intro: "This mailbox's cover is hanging off its hinge. The nameplate, Kutuzov, is slightly bent."@,
        options: seq![
            DialogueOptionView {
                description: ""@,
                success_dialogue: Some("Mailbox106Part2"@),
                ..default_option()
            },
        ],
        passive_check: seq![
            PassiveCheckView {
                skill: "gunsmoke"@,
                target: 10,
                success_text: Some("Psh, what a pussy. A real man could knock the cover clean off. Establish dominance. Punch his mailbox *harder*."@),
                failure_text: Some("Oh yeah, this Kutuzov fellow is a four-star badass. It takes a real man to punch his own mailbox."@),
                speaker: Some("Gunsmoke"@),
            },
            PassiveCheckView {
                skill: "pathology"@,
                target: 10,
                success_text: Some("This 'Kutuzov' suffers from a condition in which he gives human qualities to inanimate objects. I'm sure you can't relate"@),
                failure_text: Some("It takes a real man to punch *someone else's* mailbox. Punching your own is just pathetic."@),
                speaker: Some("Pathology"@),
            },
            PassiveCheckView {
                skill: "transcendence"@,
                target: 10,
                success_text: Some("This is *not* the New Soviet Man. Or Woman."@),
                failure_text: Some("Why are we assuming Kutuzov is a man? Women can annihilate state property too."@),
                speaker: Some("Transcendence"@),
            },
        ],
        ..default_dialogue()
    }
}

/// The node "Mailbox106Part2".
pub open spec fn mailbox_106_part_2() -> DialogueView {
    DialogueView {
        speaker: "Mailboxes"@,
        intro: "Ahem. As I was saying, the box is stuffed with official notices and bills. One of them sticks out: an empty, ripped-open court notice."@,
        options: seq![
            DialogueOptionView {
                description: "Punch it *harder*."@,
                success_dialogue: Some(""@),
                ..default_option()
            },
            DialogueOptionView {
                description: "I'm not doing that."@,
                success_dialogue: Some("MailboxFirstRow"@),
                ..default_option()
            },
        ],
        passive_check: seq![
            PassiveCheckView {
                skill: "dossier"@,
                target: 10,
                success_text: Some("These envelopes carry three kinds of notices: Fines, Summons, and Divorces. Take your bets."@),
                failure_text: None,
                speaker: Some("Dossier"@),
            },
        ],
        ..default_dialogue()
    }
}

/// `nodes` with these nodes put in, each under its id, in the order in
/// which they are listed: a later node takes the place of an earlier one
/// of the same id.
pub open spec fn with_nodes(nodes: Map<Seq<char>, DialogueView>) -> Map<Seq<char>, DialogueView> {
    nodes.insert("VestibuleMailboxes"@, vestibule_mailboxes()).insert("MailboxFirstRow"@, mailbox_first_row()).insert("MailboxSecondRow"@, mailbox_second_row()).insert("MailboxThirdRow"@, mailbox_third_row()).insert("MailboxFourthRow"@, mailbox_fourth_row()).insert("MailboxExamination"@, mailbox_examination()).insert("Mailbox106"@, mailbox_106()).insert("Mailbox106Part2"@, mailbox_106_part_2())
}

/// The ids of these nodes.
pub open spec fn ids() -> Set<Seq<char>> {
    Set::empty().insert("VestibuleMailboxes"@).insert("MailboxFirstRow"@).insert("MailboxSecondRow"@).insert("MailboxThirdRow"@).insert("MailboxFourthRow"@).insert("MailboxExamination"@).insert("Mailbox106"@).insert("Mailbox106Part2"@)
}

/// Putting these nodes into a map adds their ids to its keys.
pub proof fn lemma_ids(nodes: Map<Seq<char>, DialogueView>)
    ensures
        with_nodes(nodes).dom() == nodes.dom().union(ids()),
{
    assert(with_nodes(nodes).dom() =~= nodes.dom().union(ids()));
}

/// Puts these nodes into `dialogues`.
pub fn add_nodes(dialogues: &mut Table<Dialogue>)
    ensures
        dialogue_views(final(dialogues)@) == with_nodes(dialogue_views(old(dialogues)@)),
{
    let node = Dialogue {
        speaker: "Mailboxes".to_string(),
        intro: "Four rows of square, wooden mailboxes sit above a dusty bar mounted to the wall.".to_string(),
        options: vec![
            DialogueOption {
                description: "Examine the mailboxes".to_string(),
                success_dialogue: Some("MailboxExamination".to_string()),
                ..Default::default()
            },
            DialogueOption {
                description: "Look at the first row".to_string(),
                success_dialogue: Some("MailboxFirstRow".to_string()),
                ..Default::default()
            },
            DialogueOption {
                description: "Look at the second row".to_string(),
                success_dialogue: Some("MailboxSecondRow".to_string()),
                ..Default::default()
            },
            DialogueOption {
                description: "Look at the third row".to_string(),
                success_dialogue: Some("MailboxThirdRow".to_string()),
                ..Default::default()
            },
            DialogueOption {
                description: "Look at the fourth row".to_string(),
                success_dialogue: Some("MailboxFourthRow".to_string()),
                ..Default::default()
            },
            DialogueOption {
                description: "Exit".to_string(),
                success_dialogue: Some("Start".to_string()),
                ..Default::default()
            },
        ],
        passive_check: vec![
            PassiveCheck {
                skill: "dossier".to_string(),
                target: 8,
                success_text: Some("The first mailbox in the fourth row, number 400, just reads 'Administrator.' This one's yours.".to_string()),
                failure_text: None,
                speaker: Some("Dossier".to_string())
            },
        ],
        ..Default::default()
    };
    proof {
        assert(node@.options =~= vestibule_mailboxes().options);
        assert(node@.passive_check =~= vestibule_mailboxes().passive_check);
        lemma_dialogue_views_insert(dialogues@, "VestibuleMailboxes"@, node);
    }
    dialogues.insert("VestibuleMailboxes".to_string(), node);

    let node = Dialogue {
        speaker: "Mailboxes".to_string(),
        intro: "".to_string(),
        options: vec![
            DialogueOption {
                description: "Open 106: Kutuzov".to_string(),
                success_dialogue: Some("Mailbox106".to_string()),
                ..Default::default()
            },
            DialogueOption {
                description: "Open 108: ".to_string(),
                success_dialogue: Some("Mailbox108".to_string()),
                ..Default::default()
            },
            DialogueOption {
                description: "Return".to_string(),
                success_dialogue: Some("VestibuleMailboxes".to_string()),
                ..Default::default()
            },
        ],
        ..Default::default()
    };
    proof {
        assert(node@.options =~= mailbox_first_row().options);
        assert(node@.passive_check =~= mailbox_first_row().passive_check);
        lemma_dialogue_views_insert(dialogues@, "MailboxFirstRow"@, node);
    }
    dialogues.insert("MailboxFirstRow".to_string(), node);

    let node = Dialogue {
        speaker: "Mailboxes".to_string(),
        intro: "".to_string(),
        options: vec![
            DialogueOption {
                description: "Open 201: ".to_string(),
                success_dialogue: Some("Mailbox201".to_string()),
                ..Default::default()
            },
            DialogueOption {
                description: "Open 205: ".to_string(),
                success_dialogue: Some("Mailbox205".to_string()),
                ..Default::default()
            },
            DialogueOption {
                description: "Open 206: ".to_string(),
                success_dialogue: Some("Mailbox206".to_string()),
                ..Default::default()
            },
            DialogueOption {
                description: "Open 208: ".to_string(),
                success_dialogue: Some("Mailbox208".to_string()),
                ..Default::default()
            },
            DialogueOption {
                description: "Return".to_string(),
                success_dialogue: Some("VestibuleMailboxes".to_string()),
                ..Default::default()
            },
        ],
        ..Default::default()
    };
    proof {
        assert(node@.options =~= mailbox_second_row().options);
        assert(node@.passive_check =~= mailbox_second_row().passive_check);
        lemma_dialogue_views_insert(dialogues@, "MailboxSecondRow"@, node);
    }
    dialogues.insert("MailboxSecondRow".to_string(), node);

    let node = Dialogue {
        speaker: "Mailboxes".to_string(),
        intro: "".to_string(),
        options: vec![
            DialogueOption {
                description: "Open 301: ".to_string(),
                success_dialogue: Some("Mailbox301".to_string()),
                ..Default::default()
            },
            DialogueOption {
                description: "Open 303: ".to_string(),
                success_dialogue: Some("Mailbox303".to_string()),
                ..Default::default()
            },
            DialogueOption {
                description: "Open 304: ".to_string(),
                success_dialogue: Some("Mailbox304".to_string()),
                ..Default::default()
            },
            DialogueOption {
                description: "Open 305: ".to_string(),
                success_dialogue: Some("Mailbox305".to_string()),
                ..Default::default()
            },
            DialogueOption {
                description: "Open 307: ".to_string(),
                success_dialogue: Some("Mailbox307".to_string()),
                ..Default::default()
            },
            DialogueOption {
                description: "Return".to_string(),
                success_dialogue: Some("VestibuleMailboxes".to_string()),
                ..Default::default()
            },
        ],
        ..Default::default()
    };
    proof {
        assert(node@.options =~= mailbox_third_row().options);
        assert(node@.passive_check =~= mailbox_third_row().passive_check);
        lemma_dialogue_views_insert(dialogues@, "MailboxThirdRow"@, node);
    }
    dialogues.insert("MailboxThirdRow".to_string(), node);

    let node = Dialogue {
        speaker: "Mailboxes".to_string(),
        intro: "The lone nameplate reads: Administrator. It's clean, free of dust, and undamaged.".to_string(),
        options: vec![
            DialogueOption {
                description: "Open 400: Administrator".to_string(),
                success_dialogue: Some("Mailbox400".to_string()),
                ..Default::default()
            },
            DialogueOption {
                description: "Return".to_string(),
                success_dialogue: Some("VestibuleMailboxes".to_string()),
                ..Default::default()
            },
        ],
        ..Default::default()
    };
    proof {
        assert(node@.options =~= mailbox_fourth_row().options);
        assert(node@.passive_check =~= mailbox_fourth_row().passive_check);
        lemma_dialogue_views_insert(dialogues@, "MailboxFourthRow"@, node);
    }
    dialogues.insert("MailboxFourthRow".to_string(), node);

    let node = Dialogue {
        speaker: "Mailboxes".to_string(),
        intro: "Most have no nameplate at all. Maybe a dozen or so apartments are actually assigned. Most of those are empty too.".to_string(),
        options: vec![
            DialogueOption {
                description: "".to_string(),
                success_dialogue: Some("".to_string()),
                ..Default::default()
            },
        ],
        passive_check: vec![
            PassiveCheck {
                skill: "robot".to_string(),
                target: 0,
                success_text: Some("Good. The people here are dutiful. They collect their mail on time.".to_string()),
                failure_text: None,
                speaker: Some("Robot".to_string())
            },
            PassiveCheck {
                skill: "delusion".to_string(),
                target: 10,
                success_text: Some("Unlikely. These mailboxes are sad. Lonely. Touch-starved.".to_string()),
                failure_text: None,
                speaker: Some("Delusion".to_string())
            },
        ],
        ..Default::default()
    };
    proof {
        assert(node@.options =~= mailbox_examination().options);
        assert(node@.passive_check =~= mailbox_examination().passive_check);
        lemma_dialogue_views_insert(dialogues@, "MailboxExamination"@, node);
    }
    dialogues.insert("MailboxExamination".to_string(), node);

    let node = Dialogue {
        speaker: "Mailboxes".to_string(),
        intro: "This mailbox's cover is hanging off its hinge. The nameplate, Kutuzov, is slightly bent.".to_string(),
        options: vec![
            DialogueOption {
                description: "".to_string(),
                success_dialogue: Some("Mailbox106Part2".to_string()),
                ..Default::default()
            },
        ],
        passive_check: vec![
            PassiveCheck {
                skill: "gunsmoke".to_string(),
                target: 10,
                success_text: Some("Psh, what a pussy. A real man could knock the cover clean off. Establish dominance. Punch his mailbox *harder*.".to_string()),
                failure_text: Some("Oh yeah, this Kutuzov fellow is a four-star badass. It takes a real man to punch his own mailbox.".to_string()),
                speaker: Some("Gunsmoke".to_string()),
            },
            PassiveCheck {
                skill: "pathology".to_string(),
                target: 10,
                success_text: Some("This 'Kutuzov' suffers from a condition in which he gives human qualities to inanimate objects. I'm sure you can't relate".to_string()),
                failure_text: Some("It takes a real man to punch *someone else's* mailbox. Punching your own is just pathetic.".to_string()),
                speaker: Some("Pathology".to_string()),
            },
            PassiveCheck {
                skill: "transcendence".to_string(),
                target: 10,
                success_text: Some("This is *not* the New Soviet Man. Or Woman.".to_string()),
                failure_text: Some("Why are we assuming Kutuzov is a man? Women can annihilate state property too.".to_string()),
                speaker: Some("Transcendence".to_string()),
            },
        ],
        ..Default::default()
    };
    proof {
        assert(node@.options =~= mailbox_106().options);
        assert(node@.passive_check =~= mailbox_106().passive_check);
        lemma_dialogue_views_insert(dialogues@, "Mailbox106"@, node);
    }
    dialogues.insert("Mailbox106".to_string(), node);

    let node = Dialogue {
        speaker: "Mailboxes".to_string(),
        intro: "Ahem. As I was saying, the box is stuffed with official notices and bills. One of them sticks out: an empty, ripped-open court notice.".to_string(),
        options: vec![
            DialogueOption {
                description: "Punch it *harder*.".to_string(),
                success_dialogue: Some("".to_string()),
                ..Default::default()
            },
            DialogueOption {
                description: "I'm not doing that.".to_string(),
                success_dialogue: Some("MailboxFirstRow".to_string()),
                ..Default::default()
            },
        ],
        passive_check: vec![
            PassiveCheck {
                skill: "dossier".to_string(),
                target: 10,
                success_text: Some("These envelopes carry three kinds of notices: Fines, Summons, and Divorces. Take your bets.".to_string()),
                failure_text: None,
                speaker: Some("Dossier".to_string()),
            },
        ],
        ..Default::default()
    };
    proof {
        assert(node@.options =~= mailbox_106_part_2().options);
        assert(node@.passive_check =~= mailbox_106_part_2().passive_check);
        lemma_dialogue_views_insert(dialogues@, "Mailbox106Part2"@, node);
    }
    dialogues.insert("Mailbox106Part2".to_string(), node);
}

} // verus!
