//! What holds of the rules of the game, for every player, every content and
//! every state: each statement is a theorem about the model that the
//! contracts of the library speak of.

use vstd::prelude::*;
use crate::audit::{dialogue_sound, option_sound, target_resolves};
use crate::challenge::roll_succeeds;
use crate::dialogues::{DialogueOptionView, PassiveCheckView};
use crate::model::{
    AppView,
    GameState,
    chosen_target,
    granted_flags,
    option_visible,
    visible_upto,
};
use crate::passive::{passive_line, passive_success};
use crate::player::{PlayerView, levels_gained, xp_carried};
use crate::skills::{Skill, lemma_skill_found_by_name};

verus! {

/// A character is finished exactly when each attribute lies from 1 to 6
/// and the four sum to twelve.
pub proof fn law_valid_allocation(player: PlayerView)
    ensures
        player.valid_allocation() <==> (1 <= player.tech <= 6 && 1 <= player.arts <= 6 && 1
            <= player.bur <= 6 && 1 <= player.und <= 6 && player.tech + player.arts + player.bur
            + player.und == 12),
{
}

/// Looked up under its name, each of the sixteen skills has the value of
/// its base attribute plus its modifier, whatever the modifier is.
pub proof fn law_skill_value(player: PlayerView, skill: Skill)
    ensures
        player.skill_by_name(skill.name_text()) == player.base(skill.attribute())
            + player.modifiers[skill],
{
    lemma_skill_found_by_name(skill);
}

/// Two sixes win whatever the target, two ones lose whatever the target,
/// and any other roll wins exactly when dice and skill reach the target.
pub proof fn law_challenge(die1: int, die2: int, skill: int, target: int)
    ensures
        die1 == 6 && die2 == 6 ==> roll_succeeds(die1, die2, skill, target),
        die1 == 1 && die2 == 1 ==> !roll_succeeds(die1, die2, skill, target),
        !(die1 == 6 && die2 == 6) && !(die1 == 1 && die2 == 1) ==> (roll_succeeds(
            die1,
            die2,
            skill,
            target,
        ) <==> die1 + die2 + skill >= target),
{
}

/// A passive check reads nothing of the player but the value of its skill:
/// two players with that value pass or fail it alike and are shown the same
/// line.
pub proof fn law_passive_check(a: PlayerView, b: PlayerView, check: PassiveCheckView)
    requires
        a.skill_by_name(check.skill) == b.skill_by_name(check.skill),
    ensures
        passive_success(a, check) == (6 + a.skill_by_name(check.skill) >= check.target),
        passive_success(a, check) == passive_success(b, check),
        passive_line(a, check) == passive_line(b, check),
{
}

/// An award loses no experience: what is carried plus a hundred for each
/// skill point gained is the old experience plus the award. Where that
/// total is not negative, less than a hundred is carried.
pub proof fn law_award(player: PlayerView, amount: int)
    ensures
        player.after_award(amount).xp + 100 * (player.after_award(amount).skill_points
            - player.skill_points) == player.xp + amount,
        player.after_award(amount).skill_points >= player.skill_points,
        player.xp + amount >= 0 ==> 0 <= player.after_award(amount).xp < 100,
{
    let total = player.xp + amount;
    assert(xp_carried(total) + 100 * levels_gained(total) == total);
}

/// The first visit of a node grants its reward and records the node; from
/// then on a visit changes nothing, so the reward is granted once.
pub proof fn law_first_visit(app: AppView)
    ensures
        app.first_visit() ==> app.after_visit().player.dialogues_entered.contains(
            app.current_dialogue_id->0,
        ),
        app.pending_reward() matches Some(amount) ==> app.after_visit().player.xp
            == app.player.after_award(amount as int).xp && app.after_visit().player.skill_points
            == app.player.after_award(amount as int).skill_points,
        !app.after_visit().first_visit(),
        app.after_visit().pending_reward() is None,
        app.after_visit().after_visit() == app.after_visit(),
{
}

/// Selecting an option that holds an item puts the item at the end of the
/// inventory and takes the option out of its node: the node then holds the
/// other options, in their order.
pub proof fn law_pickup(app: AppView, index: int, won: bool, item: Seq<char>)
    requires
        app.selectable(index),
        app.option_at(index).item_to_pickup == Some(item),
    ensures
        app.after_select(index, won).player.items == app.player.items.push(item),
        app.after_select(index, won).locations.contains_key(app.current_location_id),
        app.after_select(index, won).locations[app.current_location_id].dialogues.contains_key(
            app.current_dialogue_id->0,
        ),
        app.after_select(
            index,
            won,
        ).locations[app.current_location_id].dialogues[app.current_dialogue_id->0].options
            == app.current_dialogue()->0.options.remove(index),
{
}

/// Selecting an option without an item leaves inventory and content as
/// they were.
pub proof fn law_no_pickup(app: AppView, index: int, won: bool)
    requires
        app.selectable(index),
        app.option_at(index).item_to_pickup is None,
    ensures
        app.after_select(index, won).player.items == app.player.items,
        app.after_select(index, won).locations == app.locations,
{
}

/// A target that is the id of a location moves the player there and
/// leaves no node shown, also where a node of the current location has the
/// same id.
pub proof fn law_location_target(app: AppView, index: int, won: bool, target: Seq<char>)
    requires
        app.selectable(index),
        chosen_target(app.option_at(index), won) == Some(target),
        app.locations.contains_key(target),
    ensures
        app.after_select(index, won).current_location_id == target,
        app.after_select(index, won).current_dialogue_id is None,
{
}

/// A target that is the id of a node of the current location, and of no
/// location, shows that node and leaves the player where they stand.
pub proof fn law_dialogue_target(app: AppView, index: int, won: bool, target: Seq<char>)
    requires
        app.selectable(index),
        chosen_target(app.option_at(index), won) == Some(target),
        !app.locations.contains_key(target),
        app.dialogue(target) is Some,
    ensures
        app.after_select(index, won).current_location_id == app.current_location_id,
        app.after_select(index, won).current_dialogue_id == Some(target),
{
}

/// An option without a target, or with one that names neither a location
/// nor a node of the current location, leaves the player where they are.
pub proof fn law_dead_target(app: AppView, index: int, won: bool)
    requires
        app.selectable(index),
        chosen_target(app.option_at(index), won) matches Some(target) ==> !app.locations.contains_key(
            target,
        ) && app.dialogue(target) is None,
    ensures
        app.destination(chosen_target(app.option_at(index), won)) is DeadEnd
            || app.destination(chosen_target(app.option_at(index), won)) is Nowhere,
        app.after_select(index, won).current_location_id == app.current_location_id,
        app.after_select(index, won).current_dialogue_id == app.current_dialogue_id,
{
}

/// An option that needs a flag is offered exactly to the players who hold
/// it, so it is offered as soon as the flag is set; an option that needs
/// none is offered to all.
pub proof fn law_visibility(option: DialogueOptionView, flags: Set<Seq<char>>, flag: Seq<char>)
    ensures
        option.visible_when == Some(flag) ==> (option_visible(option, flags) <==> flags.contains(
            flag,
        )),
        option.visible_when == Some(flag) ==> option_visible(option, flags.insert(flag)),
        option.visible_when is None ==> option_visible(option, flags),
{
}

/// Flags only add to what is offered: an option offered under some flags
/// is offered under any more.
pub proof fn law_visibility_grows(
    option: DialogueOptionView,
    fewer: Set<Seq<char>>,
    more: Set<Seq<char>>,
)
    requires
        fewer.subset_of(more),
        option_visible(option, fewer),
    ensures
        option_visible(option, more),
{
}

/// The positions that are offered are exactly those of the offered
/// options, and they come in rising order.
pub proof fn law_visible_positions(
    options: Seq<DialogueOptionView>,
    flags: Set<Seq<char>>,
    n: int,
)
    requires
        0 <= n <= options.len(),
    ensures
        forall|i: int|
            visible_upto(options, flags, n).contains(i) <==> (0 <= i < n && option_visible(
                #[trigger] options[i],
                flags,
            )),
        forall|a: int, b: int|
            0 <= a < b < visible_upto(options, flags, n).len() ==> visible_upto(options, flags, n)[a]
                < visible_upto(options, flags, n)[b],
        forall|a: int|
            0 <= a < visible_upto(options, flags, n).len() ==> 0 <= #[trigger] visible_upto(
                options,
                flags,
                n,
            )[a] < n,
    decreases n,
{
    if n > 0 {
        law_visible_positions(options, flags, n - 1);
        let before = visible_upto(options, flags, n - 1);
        let now = visible_upto(options, flags, n);
        assert forall|i: int|
            now.contains(i) <==> (0 <= i < n && option_visible(#[trigger] options[i], flags)) by {
            if now.contains(i) {
                let p = choose|p: int| 0 <= p < now.len() && now[p] == i;
                if p < before.len() {
                    assert(before[p] == i);
                    assert(before.contains(i));
                }
            }
            if 0 <= i < n && option_visible(options[i], flags) {
                if i < n - 1 {
                    assert(before.contains(i));
                    let p = choose|p: int| 0 <= p < before.len() && before[p] == i;
                    assert(now[p] == i);
                } else {
                    assert(now[now.len() - 1] == i);
                }
            }
        }
    }
}

/// What the screen offers is what can be selected: a position is among
/// the offered ones exactly when the option there is selectable.
pub proof fn law_offered_is_selectable(app: AppView, index: int)
    ensures
        app.visible_options().contains(index) <==> app.selectable(index),
{
    if app.state == GameState::InGame && app.current_dialogue() is Some {
        let options = app.current_dialogue()->0.options;
        law_visible_positions(options, app.player.flags, options.len() as int);
        if app.selectable(index) {
            assert(option_visible(options[index], app.player.flags));
        }
    }
}

/// A visit is never forgotten: the record of the visited nodes only grows,
/// and a selection leaves it as it was.
pub proof fn law_visits_grow(app: AppView, index: int, won: bool)
    ensures
        app.player.dialogues_entered.subset_of(app.after_visit().player.dialogues_entered),
        app.after_select(index, won).player.dialogues_entered == app.player.dialogues_entered,
{
}

/// From a sound node no selection ends in a dead end.
pub proof fn law_sound_node_has_no_dead_end(app: AppView, index: int, won: bool)
    requires
        app.selectable(index),
        dialogue_sound(app.locations, app.current_location_id, app.current_dialogue()->0),
    ensures
        !(app.destination(chosen_target(app.option_at(index), won)) is DeadEnd),
{
    let option = app.current_dialogue()->0.options[index];
    assert(option_sound(app.locations, app.current_location_id, option));
}

/// A selection makes no node unsound: a node that was sound before is
/// sound afterwards, in the location where it was.
pub proof fn law_selection_keeps_nodes_sound(
    app: AppView,
    index: int,
    won: bool,
    location_id: Seq<char>,
    id: Seq<char>,
)
    requires
        app.locations.contains_key(location_id),
        app.locations[location_id].dialogues.contains_key(id),
        dialogue_sound(app.locations, location_id, app.locations[location_id].dialogues[id]),
    ensures
        app.after_select(index, won).locations.contains_key(location_id),
        app.after_select(index, won).locations[location_id].dialogues.contains_key(id),
        dialogue_sound(
            app.after_select(index, won).locations,
            location_id,
            app.after_select(index, won).locations[location_id].dialogues[id],
        ),
{
    let after = app.after_select(index, won).locations;
    let before_node = app.locations[location_id].dialogues[id];
    let after_node = after[location_id].dialogues[id];
    law_places_stay(app, index, won);
    assert(after.contains_key(location_id));
    assert(after[location_id].dialogues.dom() == app.locations[location_id].dialogues.dom());
    // Every id names after the selection what it named before.
    assert forall|from: Seq<char>, target: Option<Seq<char>>|
        app.locations.contains_key(from) && target_resolves(
            app.locations,
            from,
            target,
        ) implies #[trigger] target_resolves(after, from, target) by {
        if target is Some {
            let t = target->0;
            if !app.locations.contains_key(t) {
                assert(app.locations[from].dialogues.contains_key(t));
                assert(after[from].dialogues.dom() == app.locations[from].dialogues.dom());
                assert(after[from].dialogues.contains_key(t));
            }
        }
    }
    // The options of the node afterwards are among those before.
    assert forall|i: int| 0 <= i < after_node.options.len() implies option_sound(
        after,
        location_id,
        #[trigger] after_node.options[i],
    ) by {
        let j = if after_node.options.len() == before_node.options.len() || i < index {
            i
        } else {
            i + 1
        };
        assert(after_node.options[i] == before_node.options[j]);
        assert(option_sound(app.locations, location_id, before_node.options[j]));
    }
    assert(after_node.passive_check == before_node.passive_check);
}

/// Flags are never cleared, whatever is selected: selecting an option sets
/// its flags, however its challenge ended, and keeps every flag held.
pub proof fn law_flags_grow(app: AppView, index: int, won: bool)
    ensures
        app.player.flags.subset_of(app.after_select(index, won).player.flags),
        app.selectable(index) ==> app.after_select(index, won).player.flags
            == app.player.flags.union(granted_flags(app.option_at(index))),
        app.after_visit().player.flags == app.player.flags,
{
}

/// The inventory only grows at its end: what was held stays, in its order.
pub proof fn law_inventory_appends(app: AppView, index: int, won: bool)
    ensures
        app.player.items.is_prefix_of(app.after_select(index, won).player.items),
        app.after_visit().player.items == app.player.items,
{
    let after = app.after_select(index, won).player.items;
    assert(app.player.items =~= after.subrange(0, app.player.items.len() as int));
}

/// Selecting an option never adds or removes a location or a node, and a
/// player who stands in a location of the game still does so afterwards.
pub proof fn law_places_stay(app: AppView, index: int, won: bool)
    ensures
        app.after_select(index, won).locations.dom() == app.locations.dom(),
        forall|id: Seq<char>| #[trigger]
            app.locations.contains_key(id) ==> app.after_select(
                index,
                won,
            ).locations[id].dialogues.dom() == app.locations[id].dialogues.dom(),
        app.locations.contains_key(app.current_location_id) ==> app.after_select(
            index,
            won,
        ).locations.contains_key(app.after_select(index, won).current_location_id),
        app.after_visit().locations == app.locations,
        app.after_visit().current_location_id == app.current_location_id,
{
    let after = app.after_select(index, won);
    assert(after.locations.dom() =~= app.locations.dom());
    assert forall|id: Seq<char>| #[trigger] app.locations.contains_key(id) implies after.locations[id].dialogues.dom()
        == app.locations[id].dialogues.dom() by {
        assert(after.locations[id].dialogues.dom() =~= app.locations[id].dialogues.dom());
    }
}

/// Once the game is on, the base attributes are frozen: no selection, no
/// visit, no skill point and no change of screen alters them, and setting
/// an attribute is refused.
pub proof fn law_attributes_frozen(
    app: AppView,
    index: int,
    won: bool,
    skill: Skill,
    attribute: crate::skills::Attribute,
    value: int,
)
    requires
        app.state != GameState::CharacterCreation,
    ensures
        same_attributes(app.after_select(index, won).player, app.player),
        same_attributes(app.after_visit().player, app.player),
        same_attributes(app.after_raise(skill).player, app.player),
        same_attributes(app.after_return().player, app.player),
        app.after_allocate(attribute, value) == app,
        app.after_start() == app,
{
}

/// Whether two players have the same base attributes.
pub open spec fn same_attributes(a: PlayerView, b: PlayerView) -> bool {
    a.tech == b.tech && a.arts == b.arts && a.bur == b.bur && a.und == b.und
}

/// The game begins only with a finished character, so a game that is on
/// after "Start Game" has one.
pub proof fn law_start_needs_valid_character(app: AppView)
    requires
        app.state == GameState::CharacterCreation,
    ensures
        app.after_start().state == GameState::InGame <==> app.player.valid_allocation(),
        app.after_start().player == app.player,
{
}

/// A skill point raises exactly the chosen skill by one and is spent;
/// without a point to spend nothing changes.
pub proof fn law_raise(player: PlayerView, skill: Skill, other: Skill)
    requires
        other != skill,
    ensures
        player.after_raise(skill).skill(skill) == player.skill(skill) + 1,
        player.after_raise(skill).skill(other) == player.skill(other),
        player.after_raise(skill).skill_points == player.skill_points - 1,
{
}

} // verus!
