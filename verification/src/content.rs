//! The game's content: the locations of the apartment house and the
//! dialogue nodes of each, as the value that the game is and as the code
//! that builds it.

use vstd::prelude::*;
use crate::dialogues::{
    Dialogue,
    DialogueView,
    Location,
    LocationView,
    dialogue_views,
    lemma_location_views_insert,
    location_views,
    texts,
};
use crate::table::Table;

pub mod clock_case;
pub mod clock_face;
pub mod entrance;
pub mod first_floor;
pub mod garden;
pub mod letter;
pub mod mailbox_rows;

verus! {

/// The nodes of the vestibule.
pub open spec fn vestibule_nodes() -> Map<Seq<char>, DialogueView> {
    letter::with_nodes(
        mailbox_rows::with_nodes(
            clock_case::with_nodes(clock_face::with_nodes(entrance::with_nodes(Map::empty()))),
        ),
    )
}

/// The nodes of the first floor.
pub open spec fn first_floor_nodes() -> Map<Seq<char>, DialogueView> {
    first_floor::with_nodes(Map::empty())
}

/// The nodes of the garden.
pub open spec fn garden_nodes() -> Map<Seq<char>, DialogueView> {
    garden::with_nodes(Map::empty())
}

/// The game: nine locations, each under its id. Only the vestibule, the
/// first floor and the garden have nodes.
pub open spec fn game_world() -> Map<Seq<char>, LocationView> {
    Map::empty().insert(
        "Outdoors"@,
        LocationView { name: "Outdoors"@, dialogues: Map::empty(), exits: seq!["Vestibule"@] },
    ).insert(
        "Vestibule"@,
        LocationView {
            name: "The Vestibule"@,
            dialogues: vestibule_nodes(),
            exits: seq!["FirstFloor"@],
        },
    ).insert(
        "FirstFloor"@,
        LocationView {
            name: "The First Floor"@,
            dialogues: first_floor_nodes(),
            exits: seq!["Vestibule"@, "SecondFloor"@, "ThirdFloor"@, "FourthFloor"@],
        },
    ).insert(
        "SecondFloor"@,
        LocationView {
            name: "The Second Floor"@,
            dialogues: Map::empty(),
            exits: seq!["FirstFloor"@, "ThirdFloor"@, "FourthFloor"@],
        },
    ).insert(
        "ThirdFloor"@,
        LocationView {
            name: "The Third Floor"@,
            dialogues: Map::empty(),
            exits: seq!["FirstFloor"@, "SecondFloor"@, "FourthFloor"@],
        },
    ).insert(
        "FourthFloor"@,
        LocationView {
            name: "The Fourth Floor"@,
            dialogues: Map::empty(),
            exits: seq![
                "FirstFloor"@,
                "SecondFloor"@,
                "ThirdFloor"@,
                "RooftopGarden"@,
                "AdministratorRoom"@,
            ],
        },
    ).insert(
        "AdministratorRoom"@,
        LocationView {
            name: "Administrator's Room"@,
            dialogues: Map::empty(),
            exits: seq!["FourthFloor"@],
        },
    ).insert(
        "RooftopGarden"@,
        LocationView { name: "Rooftop Garden"@, dialogues: Map::empty(), exits: seq!["FourthFloor"@] },
    ).insert(
        "Garden"@,
        LocationView { name: "The Garden"@, dialogues: garden_nodes(), exits: seq!["FirstFloor"@] },
    )
}

/// The ids of the nodes of the vestibule.
pub open spec fn vestibule_ids() -> Set<Seq<char>> {
    entrance::ids().union(clock_face::ids()).union(clock_case::ids()).union(
        mailbox_rows::ids(),
    ).union(letter::ids())
}

/// The ids of the locations.
pub open spec fn location_ids() -> Set<Seq<char>> {
    Set::empty().insert("Outdoors"@).insert("Vestibule"@).insert("FirstFloor"@).insert(
        "SecondFloor"@,
    ).insert("ThirdFloor"@).insert("FourthFloor"@).insert("AdministratorRoom"@).insert(
        "RooftopGarden"@,
    ).insert("Garden"@)
}

/// The outline of a location: its name, its exits and the ids of its nodes.
pub ghost struct Outline {
    pub name: Seq<char>,
    pub exits: Seq<Seq<char>>,
    pub nodes: Set<Seq<char>>,
}

/// The outline of a location's view.
pub open spec fn outline_of(location: LocationView) -> Outline {
    Outline { name: location.name, exits: location.exits, nodes: location.dialogues.dom() }
}

/// The outline that the game gives the location `id`.
pub open spec fn outline(id: Seq<char>) -> Outline {
    if id == "Outdoors"@ {
        Outline { name: "Outdoors"@, exits: seq!["Vestibule"@], nodes: Set::empty() }
    } else if id == "Vestibule"@ {
        Outline { name: "The Vestibule"@, exits: seq!["FirstFloor"@], nodes: vestibule_ids() }
    } else if id == "FirstFloor"@ {
        Outline {
            name: "The First Floor"@,
            exits: seq!["Vestibule"@, "SecondFloor"@, "ThirdFloor"@, "FourthFloor"@],
            nodes: first_floor::ids(),
        }
    } else if id == "SecondFloor"@ {
        Outline {
            name: "The Second Floor"@,
            exits: seq!["FirstFloor"@, "ThirdFloor"@, "FourthFloor"@],
            nodes: Set::empty(),
        }
    } else if id == "ThirdFloor"@ {
        Outline {
            name: "The Third Floor"@,
            exits: seq!["FirstFloor"@, "SecondFloor"@, "FourthFloor"@],
            nodes: Set::empty(),
        }
    } else if id == "FourthFloor"@ {
        Outline {
            name: "The Fourth Floor"@,
            exits: seq![
                "FirstFloor"@,
                "SecondFloor"@,
                "ThirdFloor"@,
                "RooftopGarden"@,
                "AdministratorRoom"@,
            ],
            nodes: Set::empty(),
        }
    } else if id == "AdministratorRoom"@ {
        Outline { name: "Administrator's Room"@, exits: seq!["FourthFloor"@], nodes: Set::empty() }
    } else if id == "RooftopGarden"@ {
        Outline { name: "Rooftop Garden"@, exits: seq!["FourthFloor"@], nodes: Set::empty() }
    } else {
        Outline { name: "The Garden"@, exits: seq!["FirstFloor"@], nodes: garden::ids() }
    }
}

/// Whether `world` has the game's outline: the nine locations, each with
/// the name, the exits and the node ids that the game gives it.
pub open spec fn has_game_outline(world: Map<Seq<char>, LocationView>) -> bool {
    &&& world.dom() == location_ids()
    &&& forall|id: Seq<char>|
        location_ids().contains(id) ==> outline_of(#[trigger] world[id]) == outline(id)
}

/// What tells the nine location ids apart: their lengths, and the first
/// letter where two are of one length.
pub proof fn lemma_location_ids_differ()
    ensures
        "Outdoors"@.len() == 8,
        "Vestibule"@.len() == 9,
        "FirstFloor"@.len() == 10 && "FirstFloor"@[0] == 'F',
        "SecondFloor"@.len() == 11 && "SecondFloor"@[0] == 'S',
        "ThirdFloor"@.len() == 10 && "ThirdFloor"@[0] == 'T',
        "FourthFloor"@.len() == 11 && "FourthFloor"@[0] == 'F',
        "AdministratorRoom"@.len() == 17,
        "RooftopGarden"@.len() == 13,
        "Garden"@.len() == 6,
{
    reveal_strlit("Outdoors");
    reveal_strlit("Vestibule");
    reveal_strlit("FirstFloor");
    reveal_strlit("SecondFloor");
    reveal_strlit("ThirdFloor");
    reveal_strlit("FourthFloor");
    reveal_strlit("AdministratorRoom");
    reveal_strlit("RooftopGarden");
    reveal_strlit("Garden");
}

/// The game has its outline: nine locations under nine different ids,
/// each with its name, its exits and the ids of its nodes.
pub proof fn lemma_game_outline()
    ensures
        has_game_outline(game_world()),
{
    lemma_location_ids_differ();
    entrance::lemma_ids(Map::empty());
    clock_face::lemma_ids(entrance::with_nodes(Map::empty()));
    clock_case::lemma_ids(clock_face::with_nodes(entrance::with_nodes(Map::empty())));
    mailbox_rows::lemma_ids(
        clock_case::with_nodes(clock_face::with_nodes(entrance::with_nodes(Map::empty()))),
    );
    letter::lemma_ids(
        mailbox_rows::with_nodes(
            clock_case::with_nodes(clock_face::with_nodes(entrance::with_nodes(Map::empty()))),
        ),
    );
    first_floor::lemma_ids(Map::empty());
    garden::lemma_ids(Map::empty());
    assert(vestibule_nodes().dom() =~= vestibule_ids());
    assert(first_floor_nodes().dom() =~= first_floor::ids());
    assert(garden_nodes().dom() =~= garden::ids());
    assert(Map::<Seq<char>, DialogueView>::empty().dom() =~= Set::empty());
    assert(game_world().dom() =~= location_ids());
}

/// A location with the given name, nodes and exits.
fn place(name: &str, dialogues: Table<Dialogue>, exits: Vec<String>) -> (location: Location)
    ensures
        location@ == (LocationView {
            name: name@,
            dialogues: dialogue_views(dialogues@),
            exits: texts(exits@),
        }),
{
    Location { name: name.to_string(), dialogues, exits }
}

/// Builds the game.
pub fn create_locations() -> (locations: Table<Location>)
    ensures
        location_views(locations@) == game_world(),
{
    let mut vestibule_dialogues: Table<Dialogue> = Table::new();
    assert(dialogue_views(vestibule_dialogues@) =~= Map::empty());
    entrance::add_nodes(&mut vestibule_dialogues);
    clock_face::add_nodes(&mut vestibule_dialogues);
    clock_case::add_nodes(&mut vestibule_dialogues);
    mailbox_rows::add_nodes(&mut vestibule_dialogues);
    letter::add_nodes(&mut vestibule_dialogues);

    let mut first_floor_dialogues: Table<Dialogue> = Table::new();
    assert(dialogue_views(first_floor_dialogues@) =~= Map::empty());
    first_floor::add_nodes(&mut first_floor_dialogues);

    let mut garden_dialogues: Table<Dialogue> = Table::new();
    assert(dialogue_views(garden_dialogues@) =~= Map::empty());
    garden::add_nodes(&mut garden_dialogues);

    let outdoors_dialogues: Table<Dialogue> = Table::new();
    let second_floor_dialogues: Table<Dialogue> = Table::new();
    let third_floor_dialogues: Table<Dialogue> = Table::new();
    let fourth_floor_dialogues: Table<Dialogue> = Table::new();
    let rooftop_garden_dialogues: Table<Dialogue> = Table::new();
    let admin_room_dialogues: Table<Dialogue> = Table::new();
    assert(dialogue_views(outdoors_dialogues@) =~= Map::empty());
    assert(dialogue_views(second_floor_dialogues@) =~= Map::empty());
    assert(dialogue_views(third_floor_dialogues@) =~= Map::empty());
    assert(dialogue_views(fourth_floor_dialogues@) =~= Map::empty());
    assert(dialogue_views(rooftop_garden_dialogues@) =~= Map::empty());
    assert(dialogue_views(admin_room_dialogues@) =~= Map::empty());

    let mut locations: Table<Location> = Table::new();
    assert(location_views(locations@) =~= Map::empty());

    let exits = vec!["Vestibule".to_string()];
    assert(texts(exits@) =~= seq!["Vestibule"@]);
    let location = place("Outdoors", outdoors_dialogues, exits);
    proof {
        lemma_location_views_insert(locations@, "Outdoors"@, location);
    }
    locations.insert("Outdoors".to_string(), location);

    let exits = vec!["FirstFloor".to_string()];
    assert(texts(exits@) =~= seq!["FirstFloor"@]);
    let location = place("The Vestibule", vestibule_dialogues, exits);
    proof {
        lemma_location_views_insert(locations@, "Vestibule"@, location);
    }
    locations.insert("Vestibule".to_string(), location);

    let exits = vec![
        "Vestibule".to_string(),
        "SecondFloor".to_string(),
        "ThirdFloor".to_string(),
        "FourthFloor".to_string(),
    ];
    assert(texts(exits@) =~= seq![
        "Vestibule"@,
        "SecondFloor"@,
        "ThirdFloor"@,
        "FourthFloor"@,
    ]);
    let location = place("The First Floor", first_floor_dialogues, exits);
    proof {
        lemma_location_views_insert(locations@, "FirstFloor"@, location);
    }
    locations.insert("FirstFloor".to_string(), location);

    let exits = vec!["FirstFloor".to_string(), "ThirdFloor".to_string(), "FourthFloor".to_string()];
    assert(texts(exits@) =~= seq!["FirstFloor"@, "ThirdFloor"@, "FourthFloor"@]);
    let location = place("The Second Floor", second_floor_dialogues, exits);
    proof {
        lemma_location_views_insert(locations@, "SecondFloor"@, location);
    }
    locations.insert("SecondFloor".to_string(), location);

    let exits = vec!["FirstFloor".to_string(), "SecondFloor".to_string(), "FourthFloor".to_string()];
    assert(texts(exits@) =~= seq!["FirstFloor"@, "SecondFloor"@, "FourthFloor"@]);
    let location = place("The Third Floor", third_floor_dialogues, exits);
    proof {
        lemma_location_views_insert(locations@, "ThirdFloor"@, location);
    }
    locations.insert("ThirdFloor".to_string(), location);

    let exits = vec![
        "FirstFloor".to_string(),
        "SecondFloor".to_string(),
        "ThirdFloor".to_string(),
        "RooftopGarden".to_string(),
        "AdministratorRoom".to_string(),
    ];
    assert(texts(exits@) =~= seq![
        "FirstFloor"@,
        "SecondFloor"@,
        "ThirdFloor"@,
        "RooftopGarden"@,
        "AdministratorRoom"@,
    ]);
    let location = place("The Fourth Floor", fourth_floor_dialogues, exits);
    proof {
        lemma_location_views_insert(locations@, "FourthFloor"@, location);
    }
    locations.insert("FourthFloor".to_string(), location);

    let exits = vec!["FourthFloor".to_string()];
    assert(texts(exits@) =~= seq!["FourthFloor"@]);
    let location = place("Administrator's Room", admin_room_dialogues, exits);
    proof {
        lemma_location_views_insert(locations@, "AdministratorRoom"@, location);
    }
    locations.insert("AdministratorRoom".to_string(), location);

    let exits = vec!["FourthFloor".to_string()];
    assert(texts(exits@) =~= seq!["FourthFloor"@]);
    let location = place("Rooftop Garden", rooftop_garden_dialogues, exits);
    proof {
        lemma_location_views_insert(locations@, "RooftopGarden"@, location);
    }
    locations.insert("RooftopGarden".to_string(), location);

    let exits = vec!["FirstFloor".to_string()];
    assert(texts(exits@) =~= seq!["FirstFloor"@]);
    let location = place("The Garden", garden_dialogues, exits);
    proof {
        lemma_location_views_insert(locations@, "Garden"@, location);
    }
    locations.insert("Garden".to_string(), location);

    locations
}

} // verus!
