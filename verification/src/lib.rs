//! A dialogue game's rules: a graph of locations and dialogue nodes, the
//! player who walks it, and the dice that decide its challenges.

pub mod audit;
pub mod challenge;
pub mod content;
pub mod dialogues;
pub mod game;
pub mod laws;
pub mod model;
pub mod passive;
pub mod player;
pub mod skills;
pub mod table;
pub mod text;

pub use challenge::{challenge_outcome, handle_challenge, roll_dice, roll_outcome};
pub use content::create_locations;
pub use dialogues::{Dialogue, DialogueOption, Location, PassiveCheck};
pub use game::{DialogueApp, Selection, Transition};
pub use model::GameState;
pub use passive::{evaluate_passive_checks, PassiveLine};
pub use player::Player;
pub use skills::{Attribute, Skill};
pub use table::Table;
