//! Challenges: a roll of two dice plus a skill, held against a target.

use vstd::prelude::*;
use rand::Rng;
use crate::dialogues::{DialogueOption, DialogueOptionView};
use crate::player::{Player, PlayerView};

verus! {

/// The lowest face of a die.
pub const DIE_MIN: i32 = 1;

/// The highest face of a die.
pub const DIE_MAX: i32 = 6;

/// Whether a roll of `die1` and `die2` wins a challenge of `target` with a
/// skill of `skill`. Two sixes win and two ones lose, whatever the target;
/// any other roll wins exactly when dice and skill together reach it.
pub open spec fn roll_succeeds(die1: int, die2: int, skill: int, target: int) -> bool {
    if die1 == 6 && die2 == 6 {
        true
    } else if die1 == 1 && die2 == 1 {
        false
    } else {
        die1 + die2 + skill >= target
    }
}

/// Whether `player` wins the challenge of `option` with a roll of `die1`
/// and `die2`. An option that lacks the skill's name or the target has no
/// challenge to win.
pub open spec fn challenge_result(
    player: PlayerView,
    option: DialogueOptionView,
    die1: int,
    die2: int,
) -> bool {
    match (option.challenge_attribute, option.challenge_number) {
        (Some(name), Some(target)) => roll_succeeds(
            die1,
            die2,
            player.skill_by_name(name),
            target as int,
        ),
        _ => false,
    }
}

/// Whether `die` is a face of a six-sided die.
pub open spec fn is_die(die: int) -> bool {
    1 <= die <= 6
}

/// Whether a roll of `die1` and `die2` wins a challenge of `target` with a
/// skill of `skill`.
pub fn roll_outcome(die1: i32, die2: i32, skill: i64, target: i32) -> (success: bool)
    ensures
        success == roll_succeeds(die1 as int, die2 as int, skill as int, target as int),
{
    if die1 == DIE_MAX && die2 == DIE_MAX {
        true
    } else if die1 == DIE_MIN && die2 == DIE_MIN {
        false
    } else {
        die1 as i128 + die2 as i128 + skill as i128 >= target as i128
    }
}

/// Whether `player` wins the challenge of `option` with a roll of `die1`
/// and `die2`.
pub fn challenge_outcome(player: &Player, option: &DialogueOption, die1: i32, die2: i32) -> (success:
    bool)
    ensures
        success == challenge_result(player@, option@, die1 as int, die2 as int),
{
    match &option.challenge_attribute {
        Some(name) => match option.challenge_number {
            Some(target) => roll_outcome(die1, die2, player.skill_by_name(name.as_str()), target),
            None => false,
        },
        None => false,
    }
}

/// `rand::rngs::ThreadRng`, the handle to a thread's random number
/// generator. Nothing of what it holds is known here.
#[verifier::external_type_specification]
#[verifier::external_body]
pub struct ExThreadRng(rand::rngs::ThreadRng);

/// `rand::thread_rng` hands out the handle to the calling thread's
/// generator. Nothing is claimed of the handle; it is believed, not proved,
/// that the call returns.
pub assume_specification[ rand::thread_rng ]() -> (rng: rand::rngs::ThreadRng);

/// A random integer from `low` to `high`, both included: the call
/// `rand::Rng::gen_range(low..=high)` on `rng`. Believed of it, not proved:
/// the call returns, and what it returns lies in the range. The range must
/// not be empty, or `gen_range` panics.
#[verifier::external_body]
fn random_in(rng: &mut rand::rngs::ThreadRng, low: i32, high: i32) -> (n: i32)
    requires
        low <= high,
    ensures
        low <= n <= high,
{
    rng.gen_range(low..=high)
}

/// Rolls two six-sided dice.
pub fn roll_dice() -> (dice: (i32, i32))
    ensures
        is_die(dice.0 as int),
        is_die(dice.1 as int),
{
    let mut rng = rand::thread_rng();
    let die1 = random_in(&mut rng, DIE_MIN, DIE_MAX);
    let die2 = random_in(&mut rng, DIE_MIN, DIE_MAX);
    (die1, die2)
}

/// Rolls the dice for the challenge of `option` and says whether `player`
/// wins it. An option without a full challenge is lost without a roll.
pub fn handle_challenge(player: &Player, option: &DialogueOption) -> (success: bool)
    ensures
        exists|die1: int, die2: int|
            is_die(die1) && is_die(die2) && success == #[trigger] challenge_result(
                player@,
                option@,
                die1,
                die2,
            ),
{
    if option.challenge_attribute.is_some() && option.challenge_number.is_some() {
        let (die1, die2) = roll_dice();
        let success = challenge_outcome(player, option, die1, die2);
        assert(success == challenge_result(player@, option@, die1 as int, die2 as int));
        success
    } else {
        assert(!challenge_result(player@, option@, 1, 1));
        false
    }
}

} // verus!
