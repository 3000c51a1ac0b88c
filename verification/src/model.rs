//! The game as a mathematical value, and each transition of the session as
//! a function from the value before to the value after.

use vstd::prelude::*;
use crate::content::{game_world, lemma_game_outline, lemma_location_ids_differ};
use crate::dialogues::{DialogueOptionView, DialogueView, LocationView};
use crate::player::{PlayerView, default_player};
use crate::skills::{Attribute, Skill};

verus! {

/// The screens of the game.
#[derive(Clone, Copy, Debug, PartialEq, Eq, Structural)]
pub enum GameState {
    CharacterCreation,
    InGame,
    InventoryView,
    SkillManagement,
}

/// A running game as plain values.
pub ghost struct AppView {
    pub current_text: Seq<char>,
    pub player: PlayerView,
    pub locations: Map<Seq<char>, LocationView>,
    pub current_location_id: Seq<char>,
    pub current_dialogue_id: Option<Seq<char>>,
    pub state: GameState,
    pub previous_dialogue_id: Option<Seq<char>>,
}

/// Whether an option is offered to a player who holds `flags`: it needs no
/// flag, or the flag that it needs is among them.
pub open spec fn option_visible(option: DialogueOptionView, flags: Set<Seq<char>>) -> bool {
    match option.visible_when {
        Some(flag) => flags.contains(flag),
        None => true,
    }
}

/// The positions below `n` of the options that are offered to a player
/// who holds `flags`, in rising order.
pub open spec fn visible_upto(options: Seq<DialogueOptionView>, flags: Set<Seq<char>>, n: int) -> Seq<
    int,
>
    decreases n,
{
    if n <= 0 {
        Seq::empty()
    } else {
        let before = visible_upto(options, flags, n - 1);
        if option_visible(options[n - 1], flags) {
            before.push(n - 1)
        } else {
            before
        }
    }
}

/// The positions of a list as integers.
pub open spec fn positions(list: Seq<usize>) -> Seq<int> {
    list.map_values(|i: usize| i as int)
}

/// The set of the flags of an optional list.
pub open spec fn flag_set(flags: Option<Seq<Seq<char>>>) -> Set<Seq<char>> {
    match flags {
        Some(flags) => Set::new(|flag: Seq<char>| flags.contains(flag)),
        None => Set::empty(),
    }
}

/// The flags that selecting `option` sets.
pub open spec fn granted_flags(option: DialogueOptionView) -> Set<Seq<char>> {
    flag_set(option.flags)
}

/// The id that `option` leads to: without a challenge its success target;
/// with one, the success target if the challenge was won and the failure
/// target if it was lost.
pub open spec fn chosen_target(option: DialogueOptionView, won: bool) -> Option<Seq<char>> {
    if option.challenge_number is Some && !won {
        option.failure_dialogue
    } else {
        option.success_dialogue
    }
}

/// Where a target id leads.
pub ghost enum Destination {
    /// To another location, outside any dialogue.
    Location(Seq<char>),
    /// To a node of the current location.
    Dialogue(Seq<char>),
    /// Nowhere, because the target names neither a location nor a node of
    /// the current location: a dead link of the content.
    DeadEnd(Seq<char>),
    /// Nowhere, because there is no target.
    Nowhere,
}

/// The node `id` of the location `location_id`, if both exist.
pub open spec fn node(
    locations: Map<Seq<char>, LocationView>,
    location_id: Seq<char>,
    id: Seq<char>,
) -> Option<DialogueView> {
    if locations.contains_key(location_id) && locations[location_id].dialogues.contains_key(id) {
        Some(locations[location_id].dialogues[id])
    } else {
        None
    }
}

/// Where `target` leads from the location `location_id`. The ids of
/// locations are looked at first, then those of the nodes of that location;
/// a target that names neither is a dead end.
pub open spec fn destination_from(
    locations: Map<Seq<char>, LocationView>,
    location_id: Seq<char>,
    target: Option<Seq<char>>,
) -> Destination {
    match target {
        Some(id) => if locations.contains_key(id) {
            Destination::Location(id)
        } else if node(locations, location_id, id) is Some {
            Destination::Dialogue(id)
        } else {
            Destination::DeadEnd(id)
        },
        None => Destination::Nowhere,
    }
}

impl AppView {
    /// The node `id` of the current location, if both exist.
    pub open spec fn dialogue(self, id: Seq<char>) -> Option<DialogueView> {
        node(self.locations, self.current_location_id, id)
    }

    /// The node that is shown, if there is one.
    pub open spec fn current_dialogue(self) -> Option<DialogueView> {
        match self.current_dialogue_id {
            Some(id) => self.dialogue(id),
            None => None,
        }
    }

    /// Where `target` leads from the current location.
    pub open spec fn destination(self, target: Option<Seq<char>>) -> Destination {
        destination_from(self.locations, self.current_location_id, target)
    }

    /// The game with the player moved to `destination`.
    pub open spec fn moved_to(self, destination: Destination) -> AppView {
        match destination {
            Destination::Location(id) => AppView {
                current_location_id: id,
                current_dialogue_id: None,
                ..self
            },
            Destination::Dialogue(id) => AppView { current_dialogue_id: Some(id), ..self },
            Destination::DeadEnd(_) => self,
            Destination::Nowhere => self,
        }
    }

    /// Whether option `index` of the node that is shown can be selected:
    /// the game is on, the option exists and it is offered.
    pub open spec fn selectable(self, index: int) -> bool {
        &&& self.state == GameState::InGame
        &&& self.current_dialogue() matches Some(dialogue)
        &&& 0 <= index < dialogue.options.len()
        &&& option_visible(dialogue.options[index], self.player.flags)
    }

    /// The option `index` of the node that is shown.
    pub open spec fn option_at(self, index: int) -> DialogueOptionView {
        self.current_dialogue()->0.options[index]
    }

    /// The game with `dialogue` under `id` in the current location.
    pub open spec fn with_dialogue(self, id: Seq<char>, dialogue: DialogueView) -> AppView {
        let location = self.locations[self.current_location_id];
        AppView {
            locations: self.locations.insert(
                self.current_location_id,
                LocationView { dialogues: location.dialogues.insert(id, dialogue), ..location },
            ),
            ..self
        }
    }

    /// The locations once option `index` has left the node that is shown.
    pub open spec fn without_option(self, index: int) -> Map<Seq<char>, LocationView> {
        let location = self.locations[self.current_location_id];
        let id = self.current_dialogue_id->0;
        let dialogue = location.dialogues[id];
        self.locations.insert(
            self.current_location_id,
            LocationView {
                dialogues: location.dialogues.insert(
                    id,
                    DialogueView { options: dialogue.options.remove(index), ..dialogue },
                ),
                ..location
            },
        )
    }

    /// The game after option `index` of the node that is shown was
    /// selected, where `won` says how its challenge ended, if it has one.
    /// An item goes to the end of the inventory and its option leaves the
    /// node; the option's flags are set, however the challenge ended; and
    /// the player moves where the option's target leads. Nothing changes
    /// where the option cannot be selected.
    pub open spec fn after_select(self, index: int, won: bool) -> AppView {
        if self.selectable(index) {
            let option = self.option_at(index);
            let picked = AppView {
                player: PlayerView {
                    items: match option.item_to_pickup {
                        Some(item) => self.player.items.push(item),
                        None => self.player.items,
                    },
                    flags: self.player.flags.union(granted_flags(option)),
                    ..self.player
                },
                locations: if option.item_to_pickup is Some {
                    self.without_option(index)
                } else {
                    self.locations
                },
                ..self
            };
            picked.moved_to(self.destination(chosen_target(option, won)))
        } else {
            self
        }
    }

    /// The experience that showing the current node grants now: its reward,
    /// if the game is on and the node was never shown before.
    pub open spec fn pending_reward(self) -> Option<i32> {
        if self.first_visit() {
            self.current_dialogue()->0.xp_reward
        } else {
            None
        }
    }

    /// Whether the game is on and shows a node that was never shown before.
    /// Visits are recorded by the node's id alone: nodes of two locations
    /// that share an id count as one node here.
    pub open spec fn first_visit(self) -> bool {
        &&& self.state == GameState::InGame
        &&& self.current_dialogue() is Some
        &&& !self.player.dialogues_entered.contains(self.current_dialogue_id->0)
    }

    /// The game after the current node was shown: on the first visit its
    /// reward is granted and its id recorded; later nothing changes.
    pub open spec fn after_visit(self) -> AppView {
        if self.first_visit() {
            let rewarded = match self.current_dialogue()->0.xp_reward {
                Some(amount) => self.player.after_award(amount as int),
                None => self.player,
            };
            AppView {
                player: PlayerView {
                    dialogues_entered: rewarded.dialogues_entered.insert(
                        self.current_dialogue_id->0,
                    ),
                    ..rewarded
                },
                ..self
            }
        } else {
            self
        }
    }

    /// The positions of the options that the screen offers: those of the
    /// node that is shown which the player's flags make visible, while the
    /// game is on.
    pub open spec fn visible_options(self) -> Seq<int> {
        if self.state == GameState::InGame && self.current_dialogue() is Some {
            let options = self.current_dialogue()->0.options;
            visible_upto(options, self.player.flags, options.len() as int)
        } else {
            Seq::empty()
        }
    }

    /// The game after "Start Game" was pressed: it begins if the character
    /// is finished, and only from character creation.
    pub open spec fn after_start(self) -> AppView {
        if self.state == GameState::CharacterCreation && self.player.valid_allocation() {
            AppView { state: GameState::InGame, ..self }
        } else {
            self
        }
    }

    /// The game after `value` was set for `attribute`: during character
    /// creation a value from 1 to 6 is taken; otherwise nothing changes.
    pub open spec fn after_allocate(self, attribute: Attribute, value: int) -> AppView {
        if self.state == GameState::CharacterCreation && 1 <= value <= 6 {
            AppView {
                player: match attribute {
                    Attribute::Tech => PlayerView { tech: value, ..self.player },
                    Attribute::Arts => PlayerView { arts: value, ..self.player },
                    Attribute::Bureaucracy => PlayerView { bur: value, ..self.player },
                    Attribute::Underworld => PlayerView { und: value, ..self.player },
                },
                ..self
            }
        } else {
            self
        }
    }

    /// The game after the inventory or the skills were opened from the
    /// game: the node that was shown is remembered.
    pub open spec fn after_open(self, screen: GameState) -> AppView {
        if self.state == GameState::InGame {
            AppView { previous_dialogue_id: self.current_dialogue_id, state: screen, ..self }
        } else {
            self
        }
    }

    /// The game after "Return to Game" was pressed. Leaving the inventory
    /// puts back the node that was remembered.
    pub open spec fn after_return(self) -> AppView {
        match self.state {
            GameState::InventoryView => AppView {
                current_dialogue_id: self.previous_dialogue_id,
                state: GameState::InGame,
                ..self
            },
            GameState::SkillManagement => AppView { state: GameState::InGame, ..self },
            _ => self,
        }
    }

    /// Whether "Increase" is enabled: the skills are open and there is a
    /// skill point to spend.
    pub open spec fn can_raise(self) -> bool {
        self.state == GameState::SkillManagement && self.player.skill_points > 0
    }

    /// The game after "Increase" was pressed for `skill`.
    pub open spec fn after_raise(self, skill: Skill) -> AppView {
        if self.can_raise() {
            AppView { player: self.player.after_raise(skill), ..self }
        } else {
            self
        }
    }

    /// The game after the node `id` of the current location was opened: it
    /// is shown if the game is on and the node exists.
    pub open spec fn after_enter(self, id: Seq<char>) -> AppView {
        if self.state == GameState::InGame && self.dialogue(id) is Some {
            AppView { current_dialogue_id: Some(id), ..self }
        } else {
            self
        }
    }
}

/// The view of the player with whom a new game starts: every attribute at
/// 3, which is a finished character, and nothing else yet.
pub open spec fn starting_player() -> PlayerView {
    PlayerView { tech: 3, arts: 3, bur: 3, und: 3, ..default_player() }
}

/// The game as it is when it has just been made: character creation is
/// open, the player is the starting one, and the player stands before the
/// node "Start" of the vestibule.
pub open spec fn new_game() -> AppView {
    AppView {
        current_text: "Welcome!"@,
        player: starting_player(),
        locations: game_world(),
        current_location_id: "Vestibule"@,
        current_dialogue_id: Some("Start"@),
        state: GameState::CharacterCreation,
        previous_dialogue_id: None,
    }
}

/// A new game shows a node: the vestibule has its node "Start".
pub proof fn lemma_new_game_has_start()
    ensures
        new_game().locations.contains_key(new_game().current_location_id),
        new_game().current_dialogue() is Some,
{
    lemma_game_outline();
    lemma_location_ids_differ();
    let world = game_world();
    assert(crate::content::location_ids().contains("Vestibule"@));
    assert(crate::content::outline_of(world["Vestibule"@]) == crate::content::outline(
        "Vestibule"@,
    ));
    assert(crate::content::entrance::ids().contains("Start"@));
    assert(crate::content::vestibule_ids().contains("Start"@));
}

} // verus!
