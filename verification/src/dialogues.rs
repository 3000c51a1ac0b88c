//! The content model: locations, the dialogue nodes they hold, the options
//! of a node and its passive checks, each with its mathematical view.

use vstd::prelude::*;
use crate::table::Table;

verus! {

/// The characters of an optional string.
pub open spec fn opt_text(text: Option<String>) -> Option<Seq<char>> {
    match text {
        Some(s) => Some(s@),
        None => None,
    }
}

/// The characters of each string of a list.
pub open spec fn texts(list: Seq<String>) -> Seq<Seq<char>> {
    list.map_values(|s: String| s@)
}

/// The characters of each string of an optional list.
pub open spec fn opt_texts(list: Option<Vec<String>>) -> Option<Seq<Seq<char>>> {
    match list {
        Some(v) => Some(texts(v@)),
        None => None,
    }
}

/// A skill check that is evaluated whenever its node is shown.
#[derive(Clone, Debug)]
pub struct PassiveCheck {
    /// The name of the skill that is checked.
    pub skill: String,
    /// The number that the check is held against.
    pub target: i32,
    /// What is shown when the check passes.
    pub success_text: Option<String>,
    /// What is shown when the check fails.
    pub failure_text: Option<String>,
    /// Who says it, on success and on failure alike.
    pub speaker: Option<String>,
}

/// A passive check as plain values.
pub ghost struct PassiveCheckView {
    pub skill: Seq<char>,
    pub target: i32,
    pub success_text: Option<Seq<char>>,
    pub failure_text: Option<Seq<char>>,
    pub speaker: Option<Seq<char>>,
}

impl View for PassiveCheck {
    type V = PassiveCheckView;

    open spec fn view(&self) -> PassiveCheckView {
        PassiveCheckView {
            skill: self.skill@,
            target: self.target,
            success_text: opt_text(self.success_text),
            failure_text: opt_text(self.failure_text),
            speaker: opt_text(self.speaker),
        }
    }
}

/// One action that the player can select in a dialogue node.
#[derive(Clone, Debug)]
pub struct DialogueOption {
    /// The text of the button.
    pub description: String,
    /// The name of the skill that a challenge tests.
    pub challenge_attribute: Option<String>,
    /// The number that a challenge must reach; `None` where there is no
    /// challenge.
    pub challenge_number: Option<i32>,
    /// Where the option leads without a challenge, or when it is won.
    pub success_dialogue: Option<String>,
    /// Where the option leads when its challenge is lost.
    pub failure_dialogue: Option<String>,
    /// An item that selecting the option puts into the inventory.
    pub item_to_pickup: Option<String>,
    /// The flag without which the option is not offered.
    pub visible_when: Option<String>,
    /// The flags that selecting the option sets.
    pub flags: Option<Vec<String>>,
}

/// An option as plain values.
pub ghost struct DialogueOptionView {
    pub description: Seq<char>,
    pub challenge_attribute: Option<Seq<char>>,
    pub challenge_number: Option<i32>,
    pub success_dialogue: Option<Seq<char>>,
    pub failure_dialogue: Option<Seq<char>>,
    pub item_to_pickup: Option<Seq<char>>,
    pub visible_when: Option<Seq<char>>,
    pub flags: Option<Seq<Seq<char>>>,
}

impl View for DialogueOption {
    type V = DialogueOptionView;

    open spec fn view(&self) -> DialogueOptionView {
        DialogueOptionView {
            description: self.description@,
            challenge_attribute: opt_text(self.challenge_attribute),
            challenge_number: self.challenge_number,
            success_dialogue: opt_text(self.success_dialogue),
            failure_dialogue: opt_text(self.failure_dialogue),
            item_to_pickup: opt_text(self.item_to_pickup),
            visible_when: opt_text(self.visible_when),
            flags: opt_texts(self.flags),
        }
    }
}

/// The view of the option that `DialogueOption::default` returns: a plain
/// "Continue" that leads to the node "Start".
pub open spec fn default_option() -> DialogueOptionView {
    DialogueOptionView {
        description: "Continue"@,
        challenge_attribute: None,
        challenge_number: None,
        success_dialogue: Some("Start"@),
        failure_dialogue: None,
        item_to_pickup: None,
        visible_when: None,
        flags: None,
    }
}

impl Default for DialogueOption {
    fn default() -> (option: Self)
        ensures
            option@ == default_option(),
    {
        DialogueOption {
            description: "Continue".to_string(),
            challenge_attribute: None,
            challenge_number: None,
            success_dialogue: Some("Start".to_string()),
            failure_dialogue: None,
            item_to_pickup: None,
            visible_when: None,
            flags: None,
        }
    }
}

/// The view of each option of a list.
pub open spec fn option_views(options: Seq<DialogueOption>) -> Seq<DialogueOptionView> {
    options.map_values(|o: DialogueOption| o@)
}

/// The view of each passive check of a list.
pub open spec fn check_views(checks: Seq<PassiveCheck>) -> Seq<PassiveCheckView> {
    checks.map_values(|c: PassiveCheck| c@)
}

/// One node of a location's dialogue graph.
#[derive(Clone, Debug)]
pub struct Dialogue {
    /// Who speaks.
    pub speaker: String,
    /// The text of the node.
    pub intro: String,
    /// The actions that the node offers, in the order in which they are shown.
    pub options: Vec<DialogueOption>,
    /// The checks that are evaluated whenever the node is shown.
    pub passive_check: Vec<PassiveCheck>,
    /// The experience that the first visit grants.
    pub xp_reward: Option<i32>,
    /// Carried with the node; the traversal does not read it.
    pub is_hidden: bool,
    /// Carried with the node; the traversal does not read it.
    pub time: Option<i32>,
}

/// A dialogue node as plain values.
pub ghost struct DialogueView {
    pub speaker: Seq<char>,
    pub intro: Seq<char>,
    pub options: Seq<DialogueOptionView>,
    pub passive_check: Seq<PassiveCheckView>,
    pub xp_reward: Option<i32>,
    pub is_hidden: bool,
    pub time: Option<i32>,
}

impl View for Dialogue {
    type V = DialogueView;

    open spec fn view(&self) -> DialogueView {
        DialogueView {
            speaker: self.speaker@,
            intro: self.intro@,
            options: option_views(self.options@),
            passive_check: check_views(self.passive_check@),
            xp_reward: self.xp_reward,
            is_hidden: self.is_hidden,
            time: self.time,
        }
    }
}

/// The view of the node that `Dialogue::default` returns: a hidden node
/// that says that there is nothing to say, with the default option.
pub open spec fn default_dialogue() -> DialogueView {
    DialogueView {
        speaker: "Error"@,
        intro: "No dialogue available."@,
        options: seq![default_option()],
        passive_check: Seq::empty(),
        xp_reward: None,
        is_hidden: true,
        time: Some(1i32),
    }
}

impl Default for Dialogue {
    fn default() -> (dialogue: Self)
        ensures
            dialogue@ == default_dialogue(),
    {
        let dialogue = Dialogue {
            speaker: "Error".to_string(),
            intro: "No dialogue available.".to_string(),
            options: vec![DialogueOption::default()],
            passive_check: vec![],
            xp_reward: None,
            is_hidden: true,
            time: Some(1),
        };
        assert(dialogue@.options =~= seq![default_option()]);
        assert(dialogue@.passive_check =~= Seq::empty());
        dialogue
    }
}

/// The view of each node of a map of nodes.
pub open spec fn dialogue_views(dialogues: Map<Seq<char>, Dialogue>) -> Map<
    Seq<char>,
    DialogueView,
> {
    dialogues.map_values(|d: Dialogue| d@)
}

/// A place of the game: its own dialogue graph, and the places that can be
/// reached from it.
#[derive(Clone, Debug)]
pub struct Location {
    /// The name that is shown.
    pub name: String,
    /// The nodes of the place, each under its id.
    pub dialogues: Table<Dialogue>,
    /// The ids of the neighbouring places.
    pub exits: Vec<String>,
}

/// A location as plain values.
pub ghost struct LocationView {
    pub name: Seq<char>,
    pub dialogues: Map<Seq<char>, DialogueView>,
    pub exits: Seq<Seq<char>>,
}

impl View for Location {
    type V = LocationView;

    open spec fn view(&self) -> LocationView {
        LocationView {
            name: self.name@,
            dialogues: dialogue_views(self.dialogues@),
            exits: texts(self.exits@),
        }
    }
}

/// The view of each location of a map of locations.
pub open spec fn location_views(locations: Map<Seq<char>, Location>) -> Map<
    Seq<char>,
    LocationView,
> {
    locations.map_values(|l: Location| l@)
}

/// Putting a node into a map of nodes puts its view into the map's view.
pub proof fn lemma_dialogue_views_insert(
    dialogues: Map<Seq<char>, Dialogue>,
    id: Seq<char>,
    dialogue: Dialogue,
)
    ensures
        dialogue_views(dialogues.insert(id, dialogue))
            == dialogue_views(dialogues).insert(id, dialogue@),
{
    assert(dialogue_views(dialogues.insert(id, dialogue))
        =~= dialogue_views(dialogues).insert(id, dialogue@));
}

/// Putting a location into a map of locations puts its view into the map's
/// view.
pub proof fn lemma_location_views_insert(
    locations: Map<Seq<char>, Location>,
    id: Seq<char>,
    location: Location,
)
    ensures
        location_views(locations.insert(id, location)) == location_views(locations).insert(
            id,
            location@,
        ),
{
    assert(location_views(locations.insert(id, location)) =~= location_views(locations).insert(
        id,
        location@,
    ));
}

impl Location {
    /// A location without nodes and without exits.
    pub fn new(name: String) -> (location: Self)
        ensures
            location@ == (LocationView {
                name: name@,
                dialogues: Map::empty(),
                exits: Seq::empty(),
            }),
    {
        let location = Location { name, dialogues: Table::new(), exits: vec![] };
        assert(location@.dialogues =~= Map::empty());
        assert(location@.exits =~= Seq::empty());
        location
    }

    /// Puts `dialogue` under `id`, in place of any node that was there.
    pub fn add_dialogue(&mut self, id: String, dialogue: Dialogue)
        ensures
            final(self)@ == (LocationView {
                dialogues: old(self)@.dialogues.insert(id@, dialogue@),
                ..old(self)@
            }),
    {
        self.dialogues.insert(id, dialogue);
        assert(final(self)@.dialogues =~= old(self)@.dialogues.insert(id@, dialogue@));
    }

    /// Appends `exit` to the exits.
    pub fn add_exit(&mut self, exit: String)
        ensures
            final(self)@ == (LocationView { exits: old(self)@.exits.push(exit@), ..old(self)@ }),
    {
        self.exits.push(exit);
        assert(final(self)@.exits =~= old(self)@.exits.push(exit@));
    }
}

} // verus!
