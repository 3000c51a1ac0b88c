//! The nodes of the administrator's mailbox and the letter in it.

use vstd::prelude::*;
use crate::dialogues::{
    Dialogue,
    DialogueOption,
    DialogueOptionView,
    DialogueView,
    PassiveCheck,
    PassiveCheckView,
    default_dialogue,
    default_option,
    dialogue_views,
    lemma_dialogue_views_insert,
};
use crate::table::Table;

verus! {

/// The node "Mailbox400".
pub open spec fn mailbox_400() -> DialogueView {
    DialogueView {
        speaker: "Mailboxes"@,
        intro: "There's just one envelope, crisp and clean, lying on the bottom. The writing on the front reads 'Apologies'."@,
        options: seq![
            DialogueOptionView {
                description: "Whose writing?. (Dossier 10)"@,
                challenge_attribute: Some("dossier"@),
                challenge_number: Some(10),
                success_dialogue: Some("Mailbox400LetterSuccess"@),
                failure_dialogue: Some("Mailbox400LetterFailure"@),
                ..default_option()
            },
            DialogueOptionView {
                description: "Take the letter"@,
                success_dialogue: Some("MailboxFourthRow"@),
                item_to_pickup: Some("Administrator's letter"@),
                ..default_option()
            },
        ],
        ..default_dialogue()
    }
}

/// The node "Mailbox400LetterSuccess".
pub open spec fn mailbox_400_letter_success() -> DialogueView {
    DialogueView {
        speaker: "Crisp Letter"@,
        intro: "Neat, disciplined, orderly handwriting. Professional. From a hand that kills."@,
        options: seq![
            DialogueOptionView {
                description: "The plot thickens!"@,
                success_dialogue: Some("Mailbox400LetterPen"@),
                ..default_option()
            },
            DialogueOptionView {
                description: "Cut the drama. What else can I tell?"@,
                success_dialogue: Some("Mailbox400LetterPen"@),
                ..default_option()
            },
        ],
        ..default_dialogue()
    }
}

/// The node "Mailbox400LetterFailure".
pub open spec fn mailbox_400_letter_failure() -> DialogueView {
    DialogueView {
        speaker: "Crisp Letter"@,
        intro: "This is really nice handwriting. Precise. It just screams 'competence'. Whoever wrote this was clearly..."@,
        options: seq![
            DialogueOptionView {
                description: "A politician."@,
                success_dialogue: Some("Mailbox400LetterPen"@),
                ..default_option()
            },
            DialogueOptionView {
                description: "A scientist."@,
                success_dialogue: Some("Mailbox400LetterPen"@),
                ..default_option()
            },
            DialogueOptionView {
                description: "A bureaucrat."@,
                success_dialogue: Some("Mailbox400LetterPen"@),
                ..default_option()
            },
            DialogueOptionView {
                description: "An artist."@,
                success_dialogue: Some("Mailbox400LetterPen"@),
                ..default_option()
            },
            DialogueOptionView {
                description: "How should I know?"@,
                success_dialogue: Some("Mailbox400LetterPen"@),
                ..default_option()
            },
        ],
        ..default_dialogue()
    }
}

/// The node "Mailbox400LetterPen".
pub open spec fn mailbox_400_letter_pen() -> DialogueView {
    DialogueView {
        speaker: "Crisp Letter"@,
        intro: "The pen almost runs out of ink just as he finishes: the dark, confident line sputters out. It left a curling imprint on the paper, a ghostly line where no ink filled in."@,
        options: seq![
            DialogueOptionView {
                description: "Continue"@,
                success_dialogue: Some("Mailbox400LetterPenQuestions"@),
                ..default_option()
            },
        ],
        passive_check: seq![
            PassiveCheckView {
                skill: "checkmate"@,
                target: 10,
                success_text: Some("He was in a rush, but wanted to hide it. Someone with a hand this meticulous would have switched to a new cartridge otherwise."@),
                failure_text: Some("It means he was using his pen a lot. Makes sense for someone with really nice handwriting to use a pen a lot."@),
                speaker: Some("Checkmate"@)
            },
        ] ,
        ..default_dialogue()
    }
}

/// The node "Mailbox400LetterPenQuestions".
pub open spec fn mailbox_400_letter_pen_questions() -> DialogueView {
    DialogueView {
        speaker: "Crisp Letter"@,
        intro: "The letter waits in the mailbox."@,
        options: seq![
            DialogueOptionView {
                description: "Anything else? At all? (Oldtime Religion 8)"@,
                challenge_attribute: Some("oldtime_religion"@),
                challenge_number: Some(8),
                success_dialogue: Some("Mailbox400LetterAnythingSuccess"@),
                failure_dialogue: Some("Mailbox400LetterAnythingFailure"@),
                ..default_option()
            },
            DialogueOptionView {
                description: "Shake the envelope."@,
                success_dialogue: Some("Mailbox400LetterListen"@),
                ..default_option()
            },
            DialogueOptionView {
                description: "Sniff the envelope."@,
                success_dialogue: Some("Mailbox400LetterSmell"@),
                ..default_option()
            },
            DialogueOptionView {
                description: "Taste the envelope."@,
                success_dialogue: Some("Mailbox400LetterTaste"@),
                ..default_option()
            },
            DialogueOptionView {
                description: "Enough of this."@,
                success_dialogue: Some("Mailbox400"@),
                ..default_option()
            },
        ],
        ..default_dialogue()
    }
}

/// The node "Mailbox400LetterAnythingSuccess".
pub open spec fn mailbox_400_letter_anything_success() -> DialogueView {
    DialogueView {
        speaker: "Oldtime Religion"@,
        intro: "He was religious."@,
        options: seq![
            DialogueOptionView {
                description: "Egads! The opiate of the masses? In *my* socialist republic?"@,
                success_dialogue: Some("LetterReligious"@),
                ..default_option()
            },
            DialogueOptionView {
                description: "Seriously? How could I possibly know that?"@,
                success_dialogue: Some("LetterReligious"@),
                ..default_option()
            },
        ],
        ..default_dialogue()
    }
}

/// The node "Mailbox400LetterListen".
pub open spec fn mailbox_400_letter_listen() -> DialogueView {
    DialogueView {
        speaker: "Crisp Letter"@,
        intro: "The envelope is thin, without overt bulging. But the dull jangle of metal sounds inside. A key, probably."@,
        options: seq![
            DialogueOptionView {
                description: "But I already have a key."@,
                success_dialogue: Some("LetterKeyAlready"@),
                ..default_option()
            },
        ],
        ..default_dialogue()
    }
}

/// The node "Mailbox400LetterSmell".
pub open spec fn mailbox_400_letter_smell() -> DialogueView {
    DialogueView {
        speaker: "Crisp Letter"@,
        intro: "It smells like stale sweat and candle smoke. It probably sat on someone's desk for a long time. He might have been saving it."@,
        options: seq![
            DialogueOptionView {
                description: "Return"@,
                success_dialogue: Some("Mailbox400LetterPenQuestions"@),
                ..default_option()
            },
        ],
        ..default_dialogue()
    }
}

/// The node "Mailbox400LetterTaste".
pub open spec fn mailbox_400_letter_taste() -> DialogueView {
    DialogueView {
        speaker: "Crisp Letter"@,
        intro: "It tastes like paper. I don't know what you expected."@,
        options: seq![
            DialogueOptionView {
                description: "Return"@,
                success_dialogue: Some("Mailbox400LetterPenQuestions"@),
                ..default_option()
            },
        ],
        ..default_dialogue()
    }
}

/// The node "LetterReligious".
pub open spec fn letter_religious() -> DialogueView {
    DialogueView {
        speaker: "Oldtime Religion"@,
        intro: "It's more likely than you think. You can see it in how the 'g' curls: a decadent, calligraphic flourish that comes out of the handwriting methods taught before the Revolution. Some reactionary groups, especially those aligned with the Orthodox church, pick it up from copying church documents."@,
        options: seq![
            DialogueOptionView {
                description: "Case closed!"@,
                success_dialogue: Some(""@),
                ..default_option()
            },
            DialogueOptionView {
                description: "But, to be clear, calligraphy doesn't actually imply anything about the writer's beliefs regarding God, the church, or anything else, right?"@,
                success_dialogue: Some(""@),
                ..default_option()
            },
        ],
        ..default_dialogue()
    }
}

/// A node under the empty id.
pub open spec fn blank_first() -> DialogueView {
    DialogueView {
        speaker: ""@,
        intro: ""@,
        options: seq![
            DialogueOptionView {
                description: ""@,
                success_dialogue: Some(""@),
                ..default_option()
            },
        ],
        ..default_dialogue()
    }
}

/// A node under the empty id.
pub open spec fn blank_second() -> DialogueView {
    DialogueView {
        speaker: ""@,
        intro: ""@,
        options: seq![
            DialogueOptionView {
                description: ""@,
                success_dialogue: Some(""@),
                ..default_option()
            },
        ],
        ..default_dialogue()
    }
}

/// A node under the empty id.
pub open spec fn blank_last() -> DialogueView {
    DialogueView {
        speaker: ""@,
        intro: ""@,
        options: seq![
            DialogueOptionView {
                description: ""@,
                challenge_attribute: None,
                challenge_number: None,
                success_dialogue: Some("Start"@),
                failure_dialogue: None,
                item_to_pickup: None,
                visible_when: None,
                flags: None,
            },
        ],
        passive_check: seq![],
        xp_reward: None,
        is_hidden: true,
        time: Some(1),
    }
}

/// `nodes` with these nodes put in, each under its id, in the order in
/// which they are listed: a later node takes the place of an earlier one
/// of the same id.
pub open spec fn with_nodes(nodes: Map<Seq<char>, DialogueView>) -> Map<Seq<char>, DialogueView> {
    nodes.insert("Mailbox400"@, mailbox_400()).insert("Mailbox400LetterSuccess"@, mailbox_400_letter_success()).insert("Mailbox400LetterFailure"@, mailbox_400_letter_failure()).insert("Mailbox400LetterPen"@, mailbox_400_letter_pen()).insert("Mailbox400LetterPenQuestions"@, mailbox_400_letter_pen_questions()).insert("Mailbox400LetterAnythingSuccess"@, mailbox_400_letter_anything_success()).insert("Mailbox400LetterListen"@, mailbox_400_letter_listen()).insert("Mailbox400LetterSmell"@, mailbox_400_letter_smell()).insert("Mailbox400LetterTaste"@, mailbox_400_letter_taste()).insert("LetterReligious"@, letter_religious()).insert(""@, blank_first()).insert(""@, blank_second()).insert(""@, blank_last())
}

/// The ids of these nodes.
pub open spec fn ids() -> Set<Seq<char>> {
    Set::empty().insert("Mailbox400"@).insert("Mailbox400LetterSuccess"@).insert("Mailbox400LetterFailure"@).insert("Mailbox400LetterPen"@).insert("Mailbox400LetterPenQuestions"@).insert("Mailbox400LetterAnythingSuccess"@).insert("Mailbox400LetterListen"@).insert("Mailbox400LetterSmell"@).insert("Mailbox400LetterTaste"@).insert("LetterReligious"@).insert(""@)
}

/// Putting these nodes into a map adds their ids to its keys.
pub proof fn lemma_ids(nodes: Map<Seq<char>, DialogueView>)
    ensures
        with_nodes(nodes).dom() == nodes.dom().union(ids()),
{
    assert(with_nodes(nodes).dom() =~= nodes.dom().union(ids()));
}

/// Puts these nodes into `dialogues`.
pub fn add_nodes(dialogues: &mut Table<Dialogue>)
    ensures
        dialogue_views(final(dialogues)@) == with_nodes(dialogue_views(old(dialogues)@)),
{
    let node = Dialogue {
        speaker: "Mailboxes".to_string(),
        intro: "There's just one envelope, crisp and clean, lying on the bottom. The writing on the front reads 'Apologies'.".to_string(),
        options: vec![
            DialogueOption {
                description: "Whose writing?. (Dossier 10)".to_string(),
                challenge_attribute: Some("dossier".to_string()),
                challenge_number: Some(10),
                success_dialogue: Some("Mailbox400LetterSuccess".to_string()),
                failure_dialogue: Some("Mailbox400LetterFailure".to_string()),
                ..Default::default()
            },
            DialogueOption {
                description: "Take the letter".to_string(),
                success_dialogue: Some("MailboxFourthRow".to_string()),
                item_to_pickup: Some("Administrator's letter".to_string()),
                ..Default::default()
            },
        ],
        ..Default::default()
    };
    proof {
        assert(node@.options =~= mailbox_400().options);
        assert(node@.passive_check =~= mailbox_400().passive_check);
        lemma_dialogue_views_insert(dialogues@, "Mailbox400"@, node);
    }
    dialogues.insert("Mailbox400".to_string(), node);

    let node = Dialogue {
        speaker: "Crisp Letter".to_string(),
        intro: "Neat, disciplined, orderly handwriting. Professional. From a hand that kills.".to_string(),
        options: vec![
            DialogueOption {
                description: "The plot thickens!".to_string(),
                success_dialogue: Some("Mailbox400LetterPen".to_string()),
                ..Default::default()
            },
            DialogueOption {
                description: "Cut the drama. What else can I tell?".to_string(),
                success_dialogue: Some("Mailbox400LetterPen".to_string()),
                ..Default::default()
            },
        ],
        ..Default::default()
    };
    proof {
        assert(node@.options =~= mailbox_400_letter_success().options);
        assert(node@.passive_check =~= mailbox_400_letter_success().passive_check);
        lemma_dialogue_views_insert(dialogues@, "Mailbox400LetterSuccess"@, node);
    }
    dialogues.insert("Mailbox400LetterSuccess".to_string(), node);

    let node = Dialogue {
        speaker: "Crisp Letter".to_string(),
        intro: "This is really nice handwriting. Precise. It just screams 'competence'. Whoever wrote this was clearly...".to_string(),
        options: vec![
            DialogueOption {
                description: "A politician.".to_string(),
                success_dialogue: Some("Mailbox400LetterPen".to_string()),
                ..Default::default()
            },
            DialogueOption {
                description: "A scientist.".to_string(),
                success_dialogue: Some("Mailbox400LetterPen".to_string()),
                ..Default::default()
            },
            DialogueOption {
                description: "A bureaucrat.".to_string(),
                success_dialogue: Some("Mailbox400LetterPen".to_string()),
                ..Default::default()
            },
            DialogueOption {
                description: "An artist.".to_string(),
                success_dialogue: Some("Mailbox400LetterPen".to_string()),
                ..Default::default()
            },
            DialogueOption {
                description: "How should I know?".to_string(),
                success_dialogue: Some("Mailbox400LetterPen".to_string()),
                ..Default::default()
            },
        ],
        ..Default::default()
    };
    proof {
        assert(node@.options =~= mailbox_400_letter_failure().options);
        assert(node@.passive_check =~= mailbox_400_letter_failure().passive_check);
        lemma_dialogue_views_insert(dialogues@, "Mailbox400LetterFailure"@, node);
    }
    dialogues.insert("Mailbox400LetterFailure".to_string(), node);

    let node = Dialogue {
        speaker: "Crisp Letter".to_string(),
        intro: "The pen almost runs out of ink just as he finishes: the dark, confident line sputters out. It left a curling imprint on the paper, a ghostly line where no ink filled in.".to_string(),
        options: vec![
            DialogueOption {
                description: "Continue".to_string(),
                success_dialogue: Some("Mailbox400LetterPenQuestions".to_string()),
                ..Default::default()
            },
        ],
        passive_check: vec![
            PassiveCheck {
                skill: "checkmate".to_string(),
                target: 10,
                success_text: Some("He was in a rush, but wanted to hide it. Someone with a hand this meticulous would have switched to a new cartridge otherwise.".to_string()),
                failure_text: Some("It means he was using his pen a lot. Makes sense for someone with really nice handwriting to use a pen a lot.".to_string()),
                speaker: Some("Checkmate".to_string())
            },
        ] ,
        ..Default::default()
    };
    proof {
        assert(node@.options =~= mailbox_400_letter_pen().options);
        assert(node@.passive_check =~= mailbox_400_letter_pen().passive_check);
        lemma_dialogue_views_insert(dialogues@, "Mailbox400LetterPen"@, node);
    }
    dialogues.insert("Mailbox400LetterPen".to_string(), node);

    let node = Dialogue {
        speaker: "Crisp Letter".to_string(),
        intro: "The letter waits in the mailbox.".to_string(),
        options: vec![
            DialogueOption {
                description: "Anything else? At all? (Oldtime Religion 8)".to_string(),
                challenge_attribute: Some("oldtime_religion".to_string()),
                challenge_number: Some(8),
                success_dialogue: Some("Mailbox400LetterAnythingSuccess".to_string()),
                failure_dialogue: Some("Mailbox400LetterAnythingFailure".to_string()),
                ..Default::default()
            },
            DialogueOption {
                description: "Shake the envelope.".to_string(),
                success_dialogue: Some("Mailbox400LetterListen".to_string()),
                ..Default::default()
            },
            DialogueOption {
                description: "Sniff the envelope.".to_string(),
                success_dialogue: Some("Mailbox400LetterSmell".to_string()),
                ..Default::default()
            },
            DialogueOption {
                description: "Taste the envelope.".to_string(),
                success_dialogue: Some("Mailbox400LetterTaste".to_string()),
                ..Default::default()
            },
            DialogueOption {
                description: "Enough of this.".to_string(),
                success_dialogue: Some("Mailbox400".to_string()),
                ..Default::default()
            },
        ],
        ..Default::default()
    };
    proof {
        assert(node@.options =~= mailbox_400_letter_pen_questions().options);
        assert(node@.passive_check =~= mailbox_400_letter_pen_questions().passive_check);
        lemma_dialogue_views_insert(dialogues@, "Mailbox400LetterPenQuestions"@, node);
    }
    dialogues.insert("Mailbox400LetterPenQuestions".to_string(), node);

    let node = Dialogue {
        speaker: "Oldtime Religion".to_string(),
        intro: "He was religious.".to_string(),
        options: vec![
            DialogueOption {
                description: "Egads! The opiate of the masses? In *my* socialist republic?".to_string(),
                success_dialogue: Some("LetterReligious".to_string()),
                ..Default::default()
            },
            DialogueOption {
                description: "Seriously? How could I possibly know that?".to_string(),
                success_dialogue: Some("LetterReligious".to_string()),
                ..Default::default()
            },
        ],
        ..Default::default()
    };
    proof {
        assert(node@.options =~= mailbox_400_letter_anything_success().options);
        assert(node@.passive_check =~= mailbox_400_letter_anything_success().passive_check);
        lemma_dialogue_views_insert(dialogues@, "Mailbox400LetterAnythingSuccess"@, node);
    }
    dialogues.insert("Mailbox400LetterAnythingSuccess".to_string(), node);

    let node = Dialogue {
        speaker: "Crisp Letter".to_string(),
        intro: "The envelope is thin, without overt bulging. But the dull jangle of metal sounds inside. A key, probably.".to_string(),
        options: vec![
            DialogueOption {
                description: "But I already have a key.".to_string(),
                success_dialogue: Some("LetterKeyAlready".to_string()),
                ..Default::default()
            },
        ],
        ..Default::default()
    };
    proof {
        assert(node@.options =~= mailbox_400_letter_listen().options);
        assert(node@.passive_check =~= mailbox_400_letter_listen().passive_check);
        lemma_dialogue_views_insert(dialogues@, "Mailbox400LetterListen"@, node);
    }
    dialogues.insert("Mailbox400LetterListen".to_string(), node);

    let node = Dialogue {
        speaker: "Crisp Letter".to_string(),
        intro: "It smells like stale sweat and candle smoke. It probably sat on someone's desk for a long time. He might have been saving it.".to_string(),
        options: vec![
            DialogueOption {
                description: "Return".to_string(),
                success_dialogue: Some("Mailbox400LetterPenQuestions".to_string()),
                ..Default::default()
            },
        ],
        ..Default::default()
    };
    proof {
        assert(node@.options =~= mailbox_400_letter_smell().options);
        assert(node@.passive_check =~= mailbox_400_letter_smell().passive_check);
        lemma_dialogue_views_insert(dialogues@, "Mailbox400LetterSmell"@, node);
    }
    dialogues.insert("Mailbox400LetterSmell".to_string(), node);

    let node = Dialogue {
        speaker: "Crisp Letter".to_string(),
        intro: "It tastes like paper. I don't know what you expected.".to_string(),
        options: vec![
            DialogueOption {
                description: "Return".to_string(),
                success_dialogue: Some("Mailbox400LetterPenQuestions".to_string()),
                ..Default::default()
            },
        ],
        ..Default::default()
    };
    proof {
        assert(node@.options =~= mailbox_400_letter_taste().options);
        assert(node@.passive_check =~= mailbox_400_letter_taste().passive_check);
        lemma_dialogue_views_insert(dialogues@, "Mailbox400LetterTaste"@, node);
    }
    dialogues.insert("Mailbox400LetterTaste".to_string(), node);

    let node = Dialogue {
        speaker: "Oldtime Religion".to_string(),
        intro: "It's more likely than you think. You can see it in how the 'g' curls: a decadent, calligraphic flourish that comes out of the handwriting methods taught before the Revolution. Some reactionary groups, especially those aligned with the Orthodox church, pick it up from copying church documents.".to_string(),
        options: vec![
            DialogueOption {
                description: "Case closed!".to_string(),
                success_dialogue: Some("".to_string()),
                ..Default::default()
            },
            DialogueOption {
                description: "But, to be clear, calligraphy doesn't actually imply anything about the writer's beliefs regarding God, the church, or anything else, right?".to_string(),
                success_dialogue: Some("".to_string()),
                ..Default::default()
            },
        ],
        ..Default::default()
    };
    proof {
        assert(node@.options =~= letter_religious().options);
        assert(node@.passive_check =~= letter_religious().passive_check);
        lemma_dialogue_views_insert(dialogues@, "LetterReligious"@, node);
    }
    dialogues.insert("LetterReligious".to_string(), node);

    let node = Dialogue {
        speaker: "".to_string(),
        intro: "".to_string(),
        options: vec![
            DialogueOption {
                description: "".to_string(),
                success_dialogue: Some("".to_string()),
                ..Default::default()
            },
        ],
        ..Default::default()
    };
    proof {
        assert(node@.options =~= blank_first().options);
        assert(node@.passive_check =~= blank_first().passive_check);
        lemma_dialogue_views_insert(dialogues@, ""@, node);
    }
    dialogues.insert("".to_string(), node);

    let node = Dialogue {
        speaker: "".to_string(),
        intro: "".to_string(),
        options: vec![
            DialogueOption {
                description: "".to_string(),
                success_dialogue: Some("".to_string()),
                ..Default::default()
            },
        ],
        ..Default::default()
    };
    proof {
        assert(node@.options =~= blank_second().options);
        assert(node@.passive_check =~= blank_second().passive_check);
        lemma_dialogue_views_insert(dialogues@, ""@, node);
    }
    dialogues.insert("".to_string(), node);

    let node = Dialogue {
        speaker: "".to_string(),
        intro: "".to_string(),
        options: vec![
            DialogueOption {
                description: "".to_string(),
                challenge_attribute: None,
                challenge_number: None,
                success_dialogue: Some("Start".to_string()),
                failure_dialogue: None,
                item_to_pickup: None,
                visible_when: None,
                flags: None,
            },
        ],
        passive_check: vec![],
        xp_reward: None,
        is_hidden: true,
        time: Some(1),
    };
    proof {
        assert(node@.options =~= blank_last().options);
        assert(node@.passive_check =~= blank_last().passive_check);
        lemma_dialogue_views_insert(dialogues@, ""@, node);
    }
    dialogues.insert("".to_string(), node);
}

} // verus!
