//! The session: where the player stands in the graph of locations and
//! dialogue nodes, and what an event of the screen does to it.

use vstd::prelude::*;
use vstd::hash_set::StringHashSet;
use crate::challenge::{challenge_result, handle_challenge, is_die};
use crate::content::create_locations;
use crate::dialogues::{
    Dialogue,
    DialogueOption,
    Location,
    dialogue_views,
    lemma_dialogue_views_insert,
    lemma_location_views_insert,
    location_views,
    opt_text,
    opt_texts,
    option_views,
    texts,
};
use crate::model::{
    AppView,
    Destination,
    GameState,
    chosen_target,
    destination_from,
    flag_set,
    granted_flags,
    new_game,
    node,
    option_visible,
    positions,
    starting_player,
    visible_upto,
};
use crate::passive::{PassiveLine, evaluate_passive_checks, line_views, passive_lines};
use crate::player::{Player, PlayerView, skill_rows};
use crate::skills::{Attribute, Skill};
use crate::table::Table;

verus! {

/// A running game.
pub struct DialogueApp {
    pub current_text: String,
    pub player: Player,
    /// Every location of the game, under its id.
    pub locations: Table<Location>,
    /// The id of the location in which the player stands.
    pub current_location_id: String,
    /// The id of the node that is shown, or `None` outside any dialogue.
    pub current_dialogue_id: Option<String>,
    pub state: GameState,
    /// The node that was shown when the inventory or the skills were opened.
    pub previous_dialogue_id: Option<String>,
}

impl View for DialogueApp {
    type V = AppView;

    open spec fn view(&self) -> AppView {
        AppView {
            current_text: self.current_text@,
            player: self.player@,
            locations: location_views(self.locations@),
            current_location_id: self.current_location_id@,
            current_dialogue_id: opt_text(self.current_dialogue_id),
            state: self.state,
            previous_dialogue_id: opt_text(self.previous_dialogue_id),
        }
    }
}

/// Where a target id leads, as the game hands it out.
#[derive(Clone, Debug)]
pub enum Transition {
    /// To the location of this id, outside any dialogue.
    Location(String),
    /// To the node of this id in the current location.
    Dialogue(String),
    /// Nowhere: this target names neither a location nor a node of the
    /// current location. The player stays.
    DeadEnd(String),
    /// Nowhere: there is no target. The player stays.
    Stay,
}

impl View for Transition {
    type V = Destination;

    open spec fn view(&self) -> Destination {
        match self {
            Transition::Location(id) => Destination::Location(id@),
            Transition::Dialogue(id) => Destination::Dialogue(id@),
            Transition::DeadEnd(id) => Destination::DeadEnd(id@),
            Transition::Stay => Destination::Nowhere,
        }
    }
}

/// What came of selecting an option.
#[derive(Clone, Debug)]
pub struct Selection {
    /// How the option's challenge ended, if it has one.
    pub outcome: Option<bool>,
    /// Where the option led.
    pub transition: Transition,
}

/// The node `dialogue_id` of the location `location_id`, if both exist.
pub fn find_dialogue<'a>(
    locations: &'a Table<Location>,
    location_id: &str,
    dialogue_id: &str,
) -> (dialogue: Option<&'a Dialogue>)
    ensures
        match dialogue {
            Some(d) => node(location_views(locations@), location_id@, dialogue_id@) == Some(d@),
            None => node(location_views(locations@), location_id@, dialogue_id@) is None,
        },
{
    match locations.get(location_id) {
        Some(location) => location.dialogues.get(dialogue_id),
        None => None,
    }
}

/// Where `target` leads from the location `location_id`.
pub fn resolve(locations: &Table<Location>, location_id: &str, target: &Option<String>) -> (transition:
    Transition)
    ensures
        transition@ == destination_from(location_views(locations@), location_id@, opt_text(*target)),
{
    match target {
        Some(id) => if locations.contains_key(id.as_str()) {
            Transition::Location(id.clone())
        } else if find_dialogue(locations, location_id, id.as_str()).is_some() {
            Transition::Dialogue(id.clone())
        } else {
            Transition::DeadEnd(id.clone())
        },
        None => Transition::Stay,
    }
}

/// Adds the flags of `granted` to `held`.
pub fn grant_flags(held: &mut StringHashSet, granted: &Option<Vec<String>>)
    ensures
        final(held)@ == old(held)@.union(flag_set(opt_texts(*granted))),
{
    match granted {
        Some(list) => {
            let mut i: usize = 0;
            assert(held@ =~= old(held)@.union(flag_set(Some(texts(list@).take(0)))));
            while i < list.len()
                invariant
                    i <= list@.len(),
                    held@ == old(held)@.union(flag_set(Some(texts(list@).take(i as int)))),
                decreases list@.len() - i,
            {
                held.insert(list[i].clone());
                proof {
                    let before = texts(list@).take(i as int);
                    let after = texts(list@).take(i as int + 1);
                    let flag = list@[i as int]@;
                    assert forall|f: Seq<char>|
                        after.contains(f) <==> (before.contains(f) || f == flag) by {
                        if after.contains(f) {
                            let j = choose|j: int| 0 <= j < after.len() && after[j] == f;
                            if j < i {
                                assert(before[j] == f);
                            }
                        }
                        if before.contains(f) {
                            let j = choose|j: int| 0 <= j < before.len() && before[j] == f;
                            assert(after[j] == f);
                        }
                        if f == flag {
                            assert(after[i as int] == f);
                        }
                    }
                    assert(held@ =~= old(held)@.union(flag_set(Some(after))));
                }
                i += 1;
            }
            assert(texts(list@).take(i as int) =~= texts(list@));
        },
        None => {
            assert(held@ =~= old(held)@.union(flag_set(None)));
        },
    }
}

impl DialogueOption {
    /// Whether the option is offered to a player who holds `flags`.
    pub fn visible_to(&self, flags: &StringHashSet) -> (visible: bool)
        ensures
            visible == option_visible(self@, flags@),
    {
        match &self.visible_when {
            Some(flag) => flags.contains(flag.as_str()),
            None => true,
        }
    }

    /// The id that the option leads to, where `won` says how its challenge
    /// ended, if it has one.
    pub fn target(&self, won: bool) -> (target: &Option<String>)
        ensures
            opt_text(*target) == chosen_target(self@, won),
    {
        if self.challenge_number.is_some() && !won {
            &self.failure_dialogue
        } else {
            &self.success_dialogue
        }
    }
}

impl DialogueApp {
    /// The node `dialogue_id` of the current location, if both exist.
    pub fn get_current_dialogue_from_id(&self, dialogue_id: &String) -> (dialogue: Option<
        &Dialogue,
    >)
        ensures
            match dialogue {
                Some(d) => self@.dialogue(dialogue_id@) == Some(d@),
                None => self@.dialogue(dialogue_id@) is None,
            },
    {
        find_dialogue(&self.locations, self.current_location_id.as_str(), dialogue_id.as_str())
    }

    /// A mutable reference to the node `dialogue_id` of the current
    /// location, if both exist. What is written through it is what the
    /// location then holds under that id.
    pub fn get_current_dialogue_from_id_mut(&mut self, dialogue_id: &String) -> (dialogue: Option<
        &mut Dialogue,
    >)
        ensures
            dialogue matches Some(d) ==> old(self)@.dialogue(dialogue_id@) == Some(d@),
            dialogue matches Some(d) ==> final(self)@ == old(self)@.with_dialogue(
                dialogue_id@,
                final(d)@,
            ),
            dialogue is None ==> old(self)@.dialogue(dialogue_id@) is None,
            dialogue is None ==> final(self)@ == old(self)@,
    {
        proof {
            let locations = self.locations@;
            let location_id = self.current_location_id@;
            assert forall|location: Location| #[trigger]
                location_views(locations.insert(location_id, location)) == location_views(
                    locations,
                ).insert(location_id, location@) by {
                lemma_location_views_insert(locations, location_id, location);
            }
            assert forall|location: Location|
                locations.contains_key(location_id) && location.name == locations[location_id].name
                    && location.exits == locations[location_id].exits && location.dialogues@
                    == locations[location_id].dialogues@ implies #[trigger] location_views(
                locations.insert(location_id, location),
            ) == location_views(locations) by {
                assert(location_views(locations.insert(location_id, location)) =~= location_views(
                    locations,
                ));
            }
        }
        match self.locations.get_mut(self.current_location_id.as_str()) {
            Some(location) => {
                proof {
                    let dialogues = location.dialogues@;
                    assert forall|dialogue: Dialogue| #[trigger]
                        dialogue_views(dialogues.insert(dialogue_id@, dialogue)) == dialogue_views(
                            dialogues,
                        ).insert(dialogue_id@, dialogue@) by {
                        lemma_dialogue_views_insert(dialogues, dialogue_id@, dialogue);
                    }
                }
                location.dialogues.get_mut(dialogue_id.as_str())
            },
            None => None,
        }
    }

    /// Where `target` leads from the current location.
    pub fn resolve_target(&self, target: &Option<String>) -> (transition: Transition)
        ensures
            transition@ == self@.destination(opt_text(*target)),
    {
        resolve(&self.locations, self.current_location_id.as_str(), target)
    }

    /// Whether option `index` of the node that is shown can be selected.
    pub fn is_selectable(&self, index: usize) -> (selectable: bool)
        ensures
            selectable == self@.selectable(index as int),
    {
        if self.state != GameState::InGame {
            return false;
        }
        match &self.current_dialogue_id {
            Some(id) => match self.get_current_dialogue_from_id(id) {
                Some(dialogue) => index < dialogue.options.len()
                    && dialogue.options[index].visible_to(&self.player.flags),
                None => false,
            },
            None => false,
        }
    }

    /// Selects option `index` of the node that is shown, where `won` says
    /// how its challenge ended, if it has one, and returns where the option
    /// led; `None` where the option cannot be selected. See
    /// `AppView::after_select`.
    pub fn apply_choice(&mut self, index: usize, won: bool) -> (taken: Option<Transition>)
        ensures
            final(self)@ == old(self)@.after_select(index as int, won),
            match taken {
                Some(transition) => old(self)@.selectable(index as int) && transition@
                    == old(self)@.destination(
                    chosen_target(old(self)@.option_at(index as int), won),
                ),
                None => !old(self)@.selectable(index as int),
            },
    {
        if !self.is_selectable(index) {
            return None;
        }
        let id = match &self.current_dialogue_id {
            Some(id) => id.clone(),
            None => {
                return None;
            },
        };
        let dialogue = match find_dialogue(
            &self.locations,
            self.current_location_id.as_str(),
            id.as_str(),
        ) {
            Some(dialogue) => dialogue,
            None => {
                return None;
            },
        };
        let option = &dialogue.options[index];
        let ghost chosen = option@;
        assert(chosen == old(self)@.option_at(index as int));
        let transition = resolve(
            &self.locations,
            self.current_location_id.as_str(),
            option.target(won),
        );
        let item = option.item_to_pickup.clone();
        grant_flags(&mut self.player.flags, &option.flags);
        let ghost picked = AppView {
            player: PlayerView {
                items: match chosen.item_to_pickup {
                    Some(item) => old(self)@.player.items.push(item),
                    None => old(self)@.player.items,
                },
                flags: old(self)@.player.flags.union(granted_flags(chosen)),
                ..old(self)@.player
            },
            locations: if chosen.item_to_pickup is Some {
                old(self)@.without_option(index as int)
            } else {
                old(self)@.locations
            },
            ..old(self)@
        };
        assert(self@.player.modifiers =~= old(self)@.player.modifiers);
        match item {
            Some(item) => {
                self.player.items.push(item);
                assert(self@.player.items =~= old(self)@.player.items.push(item@));
                assert(self@.player.modifiers =~= old(self)@.player.modifiers);
                assert forall|list: Seq<DialogueOption>| index < list.len() implies #[trigger]
                    option_views(list.remove(index as int)) == option_views(list).remove(
                    index as int,
                ) by {
                    assert(option_views(list.remove(index as int)) =~= option_views(list).remove(
                        index as int,
                    ));
                }
                match self.get_current_dialogue_from_id_mut(&id) {
                    Some(dialogue) => {
                        dialogue.options.remove(index);
                    },
                    None => {},
                }
                assert(self@.locations == picked.locations);
            },
            None => {},
        }
        assert(self@.player == picked.player);
        assert(self@ == picked);
        match &transition {
            Transition::Location(location_id) => {
                self.current_location_id = location_id.clone();
                self.current_dialogue_id = None;
            },
            Transition::Dialogue(dialogue_id) => {
                self.current_dialogue_id = Some(dialogue_id.clone());
            },
            Transition::DeadEnd(_) => {},
            Transition::Stay => {},
        }
        assert(self@.player.modifiers =~= picked.player.modifiers);
        assert(self@ == picked.moved_to(transition@));
        Some(transition)
    }

    /// Selects option `index` of the node that is shown. If the option has
    /// a challenge, the dice are rolled for it first. Returns how the
    /// challenge ended and where the option led; `None` where the option
    /// cannot be selected.
    pub fn select_option(&mut self, index: usize) -> (selection: Option<Selection>)
        ensures
            final(self)@ == old(self)@.after_select(
                index as int,
                selection matches Some(s) && s.outcome == Some(true),
            ),
            selection is Some <==> old(self)@.selectable(index as int),
            selection matches Some(s) ==> {
                let option = old(self)@.option_at(index as int);
                &&& s.outcome is Some <==> option.challenge_number is Some
                &&& s.transition@ == old(self)@.destination(
                    chosen_target(option, s.outcome == Some(true)),
                )
                &&& s.outcome matches Some(won) ==> exists|die1: int, die2: int|
                    is_die(die1) && is_die(die2) && won == #[trigger] challenge_result(
                        old(self)@.player,
                        option,
                        die1,
                        die2,
                    )
            },
    {
        if !self.is_selectable(index) {
            return None;
        }
        let outcome = match &self.current_dialogue_id {
            Some(id) => match self.get_current_dialogue_from_id(id) {
                Some(dialogue) => {
                    let option = &dialogue.options[index];
                    if option.challenge_number.is_some() {
                        Some(handle_challenge(&self.player, option))
                    } else {
                        None
                    }
                },
                None => None,
            },
            None => None,
        };
        let won = match outcome {
            Some(won) => won,
            None => false,
        };
        match self.apply_choice(index, won) {
            Some(transition) => Some(Selection { outcome, transition }),
            None => None,
        }
    }

    /// The value of the player's skill that content names `skill`, and 0
    /// where the name is that of no skill.
    pub fn get_player_skill(&self, skill: &str) -> (value: i64)
        ensures
            value == self@.player.skill_by_name(skill@),
    {
        self.player.skill_by_name(skill)
    }

    /// The experience that showing the current node would grant now.
    pub fn pending_reward(&self) -> (reward: Option<i32>)
        ensures
            reward == self@.pending_reward(),
    {
        if self.state != GameState::InGame {
            return None;
        }
        match &self.current_dialogue_id {
            Some(id) => match self.get_current_dialogue_from_id(id) {
                Some(dialogue) => if self.player.dialogues_entered.contains(id.as_str()) {
                    None
                } else {
                    dialogue.xp_reward
                },
                None => None,
            },
            None => None,
        }
    }

    /// Records that the current node is shown. On the first visit of a
    /// node its reward is added to the player's experience and its id is
    /// recorded; on any later visit nothing changes. Returns the experience
    /// that was granted.
    pub fn visit_current_dialogue(&mut self) -> (granted: Option<i32>)
        requires
            old(self)@.pending_reward() matches Some(amount) ==> old(self)@.player.award_fits(
                amount as int,
            ),
        ensures
            final(self)@ == old(self)@.after_visit(),
            granted == old(self)@.pending_reward(),
    {
        if self.state != GameState::InGame {
            return None;
        }
        let id = match &self.current_dialogue_id {
            Some(id) => id.clone(),
            None => {
                return None;
            },
        };
        let reward = match self.get_current_dialogue_from_id(&id) {
            Some(dialogue) => dialogue.xp_reward,
            None => {
                return None;
            },
        };
        if self.player.dialogues_entered.contains(id.as_str()) {
            return None;
        }
        match reward {
            Some(amount) => {
                self.player.add_xp(amount);
            },
            None => {},
        }
        self.player.dialogues_entered.insert(id);
        proof {
            let want = old(self)@.after_visit();
            assert(self@.player.modifiers =~= want.player.modifiers);
            assert(self@.player.dialogues_entered =~= want.player.dialogues_entered);
            assert(self@.player == want.player);
        }
        reward
    }

    /// "Start Game": begins the game if the character is finished, and
    /// says whether it did.
    pub fn start_game(&mut self) -> (started: bool)
        ensures
            final(self)@ == old(self)@.after_start(),
            started == (old(self)@.state == GameState::CharacterCreation
                && old(self)@.player.valid_allocation()),
    {
        if self.state == GameState::CharacterCreation && self.player.is_valid() {
            self.state = GameState::InGame;
            true
        } else {
            false
        }
    }

    /// Sets `attribute` to `value` during character creation, and says
    /// whether it did. A value outside 1 to 6 is not taken.
    pub fn set_attribute(&mut self, attribute: Attribute, value: i32) -> (set: bool)
        ensures
            final(self)@ == old(self)@.after_allocate(attribute, value as int),
            set == (old(self)@.state == GameState::CharacterCreation && 1 <= value <= 6),
    {
        if self.state == GameState::CharacterCreation && 1 <= value && value <= 6 {
            match attribute {
                Attribute::Tech => {
                    self.player.tech = value;
                },
                Attribute::Arts => {
                    self.player.arts = value;
                },
                Attribute::Bureaucracy => {
                    self.player.bur = value;
                },
                Attribute::Underworld => {
                    self.player.und = value;
                },
            }
            assert(self@.player.modifiers =~= old(self)@.player.modifiers);
            true
        } else {
            false
        }
    }

    /// "View Inventory": opens the inventory from the game.
    pub fn view_inventory(&mut self)
        ensures
            final(self)@ == old(self)@.after_open(GameState::InventoryView),
    {
        if self.state == GameState::InGame {
            self.previous_dialogue_id = self.current_dialogue_id.clone();
            self.state = GameState::InventoryView;
        }
    }

    /// "Manage Skills": opens the skills from the game.
    pub fn manage_skills(&mut self)
        ensures
            final(self)@ == old(self)@.after_open(GameState::SkillManagement),
    {
        if self.state == GameState::InGame {
            self.previous_dialogue_id = self.current_dialogue_id.clone();
            self.state = GameState::SkillManagement;
        }
    }

    /// "Return to Game": leaves the inventory or the skills.
    pub fn return_to_game(&mut self)
        ensures
            final(self)@ == old(self)@.after_return(),
    {
        match self.state {
            GameState::InventoryView => {
                self.current_dialogue_id = self.previous_dialogue_id.clone();
                self.state = GameState::InGame;
            },
            GameState::SkillManagement => {
                self.state = GameState::InGame;
            },
            _ => {},
        }
    }

    /// "Increase": puts one skill point into `skill` while the skills are
    /// open and a point is left, and says whether it did.
    pub fn increase_skill(&mut self, skill: Skill) -> (raised: bool)
        requires
            old(self)@.can_raise() ==> old(self)@.player.modifiers[skill] < i32::MAX,
        ensures
            final(self)@ == old(self)@.after_raise(skill),
            raised == old(self)@.can_raise(),
    {
        if self.state == GameState::SkillManagement && self.player.skill_points > 0 {
            self.player.raise_skill(skill)
        } else {
            false
        }
    }

    /// Opens the node `id` of the current location, and says whether it
    /// did: the game must be on and the node must exist. This is how a
    /// location is entered after a move has left the player outside any
    /// dialogue.
    pub fn enter_dialogue(&mut self, id: &str) -> (entered: bool)
        ensures
            final(self)@ == old(self)@.after_enter(id@),
            entered == (old(self)@.state == GameState::InGame && old(self)@.dialogue(id@) is Some),
    {
        if self.state == GameState::InGame && find_dialogue(
            &self.locations,
            self.current_location_id.as_str(),
            id,
        ).is_some() {
            self.current_dialogue_id = Some(id.to_string());
            true
        } else {
            false
        }
    }

    /// The node that is shown, if there is one.
    pub fn current_dialogue(&self) -> (dialogue: Option<&Dialogue>)
        ensures
            match dialogue {
                Some(d) => self@.current_dialogue() == Some(d@),
                None => self@.current_dialogue() is None,
            },
    {
        match &self.current_dialogue_id {
            Some(id) => self.get_current_dialogue_from_id(id),
            None => None,
        }
    }

    /// Who speaks in the node that is shown.
    pub fn current_speaker(&self) -> (speaker: Option<&String>)
        ensures
            match speaker {
                Some(s) => self@.current_dialogue() matches Some(d) && s@ == d.speaker,
                None => self@.current_dialogue() is None,
            },
    {
        match self.current_dialogue() {
            Some(dialogue) => Some(&dialogue.speaker),
            None => None,
        }
    }

    /// The text of the node that is shown.
    pub fn current_intro_text(&self) -> (intro: Option<&String>)
        ensures
            match intro {
                Some(s) => self@.current_dialogue() matches Some(d) && s@ == d.intro,
                None => self@.current_dialogue() is None,
            },
    {
        match self.current_dialogue() {
            Some(dialogue) => Some(&dialogue.intro),
            None => None,
        }
    }

    /// The positions of the options that the screen offers, in rising
    /// order.
    pub fn current_visible_options(&self) -> (offered: Vec<usize>)
        ensures
            positions(offered@) == self@.visible_options(),
    {
        let mut offered: Vec<usize> = Vec::new();
        if self.state != GameState::InGame {
            assert(positions(offered@) =~= Seq::empty());
            return offered;
        }
        match self.current_dialogue() {
            Some(dialogue) => {
                let mut i: usize = 0;
                assert(positions(offered@) =~= Seq::empty());
                while i < dialogue.options.len()
                    invariant
                        i <= dialogue.options@.len(),
                        positions(offered@) == visible_upto(
                            dialogue@.options,
                            self.player.flags@,
                            i as int,
                        ),
                    decreases dialogue.options@.len() - i,
                {
                    let ghost before = offered@;
                    if dialogue.options[i].visible_to(&self.player.flags) {
                        offered.push(i);
                        assert(positions(offered@) =~= positions(before).push(i as int));
                    }
                    i += 1;
                }
            },
            None => {
                assert(positions(offered@) =~= Seq::empty());
            },
        }
        offered
    }

    /// The lines that the passive checks of the node that is shown say to
    /// the player, in the order of the checks.
    pub fn current_passive_lines(&self) -> (lines: Vec<PassiveLine>)
        ensures
            line_views(lines@) == match self@.current_dialogue() {
                Some(d) => passive_lines(self@.player, d.passive_check),
                None => Seq::empty(),
            },
    {
        match self.current_dialogue() {
            Some(dialogue) => evaluate_passive_checks(&self.player, &dialogue.passive_check),
            None => {
                let lines: Vec<PassiveLine> = Vec::new();
                assert(line_views(lines@) =~= Seq::empty());
                lines
            },
        }
    }

    /// The name of the current location, if the location exists.
    pub fn current_location_name(&self) -> (name: Option<&String>)
        ensures
            match name {
                Some(s) => self@.locations.contains_key(self@.current_location_id) && s@
                    == self@.locations[self@.current_location_id].name,
                None => !self@.locations.contains_key(self@.current_location_id),
            },
    {
        match self.locations.get(self.current_location_id.as_str()) {
            Some(location) => Some(&location.name),
            None => None,
        }
    }

    /// The exits of the current location, if the location exists.
    pub fn current_exits(&self) -> (exits: Option<&Vec<String>>)
        ensures
            match exits {
                Some(list) => self@.locations.contains_key(self@.current_location_id) && texts(
                    list@,
                ) == self@.locations[self@.current_location_id].exits,
                None => !self@.locations.contains_key(self@.current_location_id),
            },
    {
        match self.locations.get(self.current_location_id.as_str()) {
            Some(location) => Some(&location.exits),
            None => None,
        }
    }

    /// What the player has picked up, in the order of acquisition.
    pub fn inventory_contents(&self) -> (items: &Vec<String>)
        ensures
            texts(items@) == self@.player.items,
    {
        &self.player.items
    }

    /// The sixteen skills with their values, in the order in which the
    /// skill screen lists them.
    pub fn skill_table(&self) -> (table: Vec<(Skill, i64)>)
        ensures
            table@.len() == 16,
            forall|i: int|
                0 <= i < 16 ==> (#[trigger] table@[i]).0 == skill_rows()[i] && table@[i].1
                    == self@.player.skill(skill_rows()[i]),
    {
        self.player.skill_table()
    }

    /// The points that character creation has left to hand out.
    pub fn remaining_creation_points(&self) -> (left: i64)
        ensures
            left == 12 - self@.player.total_points(),
    {
        self.player.remaining_points()
    }
}

impl Default for DialogueApp {
    /// A new game.
    fn default() -> (app: Self)
        ensures
            app@ == new_game(),
    {
        let app = DialogueApp {
            current_text: "Welcome!".to_string(),
            player: Player {
                tech: 3,
                arts: 3,
                bur: 3,
                und: 3,
                checkmate_mod: 0,
                rocketry_mod: 0,
                pathology_mod: 0,
                civic_engineering_mod: 0,
                apparatchik_mod: 0,
                quota_mod: 0,
                robot_mod: 0,
                dossier_mod: 0,
                delusion_mod: 0,
                arts2_mod: 0,
                arts3_mod: 0,
                arts4_mod: 0,
                high_proof_mod: 0,
                prohibition_mod: 0,
                gizmo_mod: 0,
                oldtime_religion_mod: 0,
                items: vec![],
                xp: 0,
                skill_points: 0,
                dialogues_entered: StringHashSet::new(),
                flags: StringHashSet::new(),
            },
            locations: create_locations(),
            current_location_id: "Vestibule".to_string(),
            current_dialogue_id: Some("Start".to_string()),
            state: GameState::CharacterCreation,
            previous_dialogue_id: None,
        };
        proof {
            assert(app@.player.modifiers =~= starting_player().modifiers);
            assert(app@.player.items =~= starting_player().items);
        }
        app
    }
}

} // verus!
