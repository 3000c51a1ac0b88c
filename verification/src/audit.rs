//! Checks of the content: targets that lead nowhere and names that are
//! those of no skill. The game survives both, the first as a dead end and
//! the second as a skill of 0; an author wants to know of them.

use vstd::prelude::*;
use crate::dialogues::{
    Dialogue,
    DialogueOption,
    DialogueOptionView,
    DialogueView,
    Location,
    LocationView,
    location_views,
    opt_text,
};
use crate::game::{Transition, resolve};
use crate::model::destination_from;
use crate::skills::{Skill, skill_named};
use crate::table::{Table, has_key};

verus! {

/// Whether `target` is no dead link: there is none, or it names a location
/// or a node of the location `location_id`.
pub open spec fn target_resolves(
    world: Map<Seq<char>, LocationView>,
    location_id: Seq<char>,
    target: Option<Seq<char>>,
) -> bool {
    !(destination_from(world, location_id, target) is DeadEnd)
}

/// Whether an option of a node of the location `location_id` is sound:
/// both its targets resolve, and the skill of its challenge is one of the
/// sixteen.
pub open spec fn option_sound(
    world: Map<Seq<char>, LocationView>,
    location_id: Seq<char>,
    option: DialogueOptionView,
) -> bool {
    &&& target_resolves(world, location_id, option.success_dialogue)
    &&& target_resolves(world, location_id, option.failure_dialogue)
    &&& option.challenge_attribute matches Some(name) ==> skill_named(name) is Some
}

/// Whether a node of the location `location_id` is sound: each of its
/// options is, and each of its passive checks names one of the sixteen
/// skills.
pub open spec fn dialogue_sound(
    world: Map<Seq<char>, LocationView>,
    location_id: Seq<char>,
    dialogue: DialogueView,
) -> bool {
    &&& forall|i: int|
        0 <= i < dialogue.options.len() ==> option_sound(
            world,
            location_id,
            #[trigger] dialogue.options[i],
        )
    &&& forall|i: int|
        0 <= i < dialogue.passive_check.len() ==> skill_named(
            (#[trigger] dialogue.passive_check[i]).skill,
        ) is Some
}

/// Whether the node `id` of the location `location_id` exists and is not
/// sound.
pub open spec fn is_fault(
    world: Map<Seq<char>, LocationView>,
    location_id: Seq<char>,
    id: Seq<char>,
) -> bool {
    &&& world.contains_key(location_id)
    &&& world[location_id].dialogues.contains_key(id)
    &&& !dialogue_sound(world, location_id, world[location_id].dialogues[id])
}

/// Whether `found` lists the node `id` of the location `location_id`.
pub open spec fn lists(found: Seq<(String, String)>, location_id: Seq<char>, id: Seq<char>) -> bool {
    exists|i: int| 0 <= i < found.len() && (#[trigger] found[i]).0@ == location_id && found[i].1@ == id
}

/// Whether `target` is no dead link from the location `location_id`.
pub fn check_target(locations: &Table<Location>, location_id: &str, target: &Option<String>) -> (sound:
    bool)
    ensures
        sound == target_resolves(location_views(locations@), location_id@, opt_text(*target)),
{
    match resolve(locations, location_id, target) {
        Transition::DeadEnd(_) => false,
        _ => true,
    }
}

/// Whether `option`, of a node of the location `location_id`, is sound.
pub fn check_option(locations: &Table<Location>, location_id: &str, option: &DialogueOption) -> (sound:
    bool)
    ensures
        sound == option_sound(location_views(locations@), location_id@, option@),
{
    let skill_known = match &option.challenge_attribute {
        Some(name) => Skill::from_name(name.as_str()).is_some(),
        None => true,
    };
    skill_known && check_target(locations, location_id, &option.success_dialogue) && check_target(
        locations,
        location_id,
        &option.failure_dialogue,
    )
}

/// Whether `dialogue`, a node of the location `location_id`, is sound.
pub fn check_dialogue(locations: &Table<Location>, location_id: &str, dialogue: &Dialogue) -> (sound:
    bool)
    ensures
        sound == dialogue_sound(location_views(locations@), location_id@, dialogue@),
{
    let ghost world = location_views(locations@);
    let mut i: usize = 0;
    while i < dialogue.options.len()
        invariant
            i <= dialogue.options@.len(),
            world == location_views(locations@),
            forall|j: int|
                0 <= j < i ==> option_sound(world, location_id@, #[trigger] dialogue@.options[j]),
        decreases dialogue.options@.len() - i,
    {
        if !check_option(locations, location_id, &dialogue.options[i]) {
            assert(!option_sound(world, location_id@, dialogue@.options[i as int]));
            return false;
        }
        i += 1;
    }
    let mut k: usize = 0;
    while k < dialogue.passive_check.len()
        invariant
            k <= dialogue.passive_check@.len(),
            forall|j: int|
                0 <= j < k ==> skill_named((#[trigger] dialogue@.passive_check[j]).skill) is Some,
        decreases dialogue.passive_check@.len() - k,
    {
        if Skill::from_name(dialogue.passive_check[k].skill.as_str()).is_none() {
            assert(skill_named(dialogue@.passive_check[k as int].skill) is None);
            return false;
        }
        k += 1;
    }
    true
}

/// The nodes that are not sound, each as the id of its location and its
/// own id: every such node is listed, and nothing else is.
pub fn audit(locations: &Table<Location>) -> (found: Vec<(String, String)>)
    ensures
        forall|i: int|
            0 <= i < found@.len() ==> is_fault(
                location_views(locations@),
                (#[trigger] found@[i]).0@,
                found@[i].1@,
            ),
        forall|location_id: Seq<char>, id: Seq<char>|
            is_fault(location_views(locations@), location_id, id) ==> #[trigger] lists(
                found@,
                location_id,
                id,
            ),
{
    let ghost world = location_views(locations@);
    let mut found: Vec<(String, String)> = Vec::new();
    let location_ids = locations.keys();
    let mut a: usize = 0;
    while a < location_ids.len()
        invariant
            a <= location_ids@.len(),
            world == location_views(locations@),
            forall|key: Seq<char>| has_key(location_ids@, key) <==> locations@.contains_key(key),
            forall|i: int|
                0 <= i < found@.len() ==> is_fault(world, (#[trigger] found@[i]).0@, found@[i].1@),
            forall|p: int, id: Seq<char>|
                0 <= p < a && is_fault(world, location_ids@[p]@, id) ==> #[trigger] lists(
                    found@,
                    location_ids@[p]@,
                    id,
                ),
        decreases location_ids@.len() - a,
    {
        let location_id = &location_ids[a];
        assert(has_key(location_ids@, location_id@));
        match locations.get(location_id.as_str()) {
            Some(location) => {
                assert(world[location_id@] == location@);
                let ids = location.dialogues.keys();
                let mut b: usize = 0;
                while b < ids.len()
                    invariant
                        b <= ids@.len(),
                        a < location_ids@.len(),
                        location_id == location_ids@[a as int],
                        world == location_views(locations@),
                        world.contains_key(location_id@),
                        world[location_id@] == location@,
                        forall|key: Seq<char>|
                            has_key(ids@, key) <==> location.dialogues@.contains_key(key),
                        forall|i: int|
                            0 <= i < found@.len() ==> is_fault(
                                world,
                                (#[trigger] found@[i]).0@,
                                found@[i].1@,
                            ),
                        forall|p: int, id: Seq<char>|
                            0 <= p < a && is_fault(world, location_ids@[p]@, id) ==> #[trigger] lists(
                                found@,
                                location_ids@[p]@,
                                id,
                            ),
                        forall|q: int|
                            0 <= q < b && is_fault(world, location_id@, ids@[q]@) ==> lists(
                                found@,
                                location_id@,
                                #[trigger] ids@[q]@,
                            ),
                    decreases ids@.len() - b,
                {
                    let id = &ids[b];
                    assert(has_key(ids@, id@));
                    let ghost before = found@;
                    match location.dialogues.get(id.as_str()) {
                        Some(dialogue) => {
                            assert(world[location_id@].dialogues[id@] == dialogue@);
                            if !check_dialogue(locations, location_id.as_str(), dialogue) {
                                found.push((location_id.clone(), id.clone()));
                                assert(found@[found@.len() - 1].0@ == location_id@
                                    && found@[found@.len() - 1].1@ == id@);
                                assert(lists(found@, location_id@, id@));
                            }
                        },
                        None => {},
                    }
                    proof {
                        assert forall|l: Seq<char>, n: Seq<char>|
                            lists(before, l, n) implies #[trigger] lists(found@, l, n) by {
                            let i = choose|i: int|
                                0 <= i < before.len() && (#[trigger] before[i]).0@ == l
                                    && before[i].1@ == n;
                            assert(found@[i] == before[i]);
                        }
                    }
                    b += 1;
                }
                proof {
                    assert forall|id: Seq<char>| is_fault(world, location_id@, id) implies lists(
                        found@,
                        location_id@,
                        id,
                    ) by {
                        assert(location.dialogues@.contains_key(id));
                        assert(has_key(ids@, id));
                        let q = choose|q: int| 0 <= q < ids@.len() && #[trigger] ids@[q]@ == id;
                        assert(is_fault(world, location_id@, ids@[q]@));
                    }
                }
            },
            None => {},
        }
        a += 1;
    }
    proof {
        assert forall|location_id: Seq<char>, id: Seq<char>|
            is_fault(world, location_id, id) implies #[trigger] lists(found@, location_id, id) by {
            assert(locations@.contains_key(location_id));
            assert(has_key(location_ids@, location_id));
            let p = choose|p: int|
                0 <= p < location_ids@.len() && #[trigger] location_ids@[p]@ == location_id;
            assert(is_fault(world, location_ids@[p]@, id));
        }
    }
    found
}

} // verus!
