//! The four base attributes and the sixteen skills that derive from them.

use vstd::prelude::*;
use crate::text::str_eq;

verus! {

/// A base attribute of the player.
#[derive(Clone, Copy, Debug, PartialEq, Eq, Structural)]
pub enum Attribute {
    Tech,
    Arts,
    Bureaucracy,
    Underworld,
}

/// A skill: a base attribute with a modifier of its own.
#[derive(Clone, Copy, Debug, PartialEq, Eq, Structural)]
pub enum Skill {
    Checkmate,
    Rocketry,
    Pathology,
    CivicEngineering,
    Apparatchik,
    Quota,
    Robot,
    Dossier,
    Delusion,
    Arts2,
    Arts3,
    Arts4,
    HighProof,
    Prohibition,
    Gizmo,
    OldtimeReligion,
}

/// The skill that content names `name`, if there is one.
pub open spec fn skill_named(name: Seq<char>) -> Option<Skill> {
    if name == "checkmate"@ {
        Some(Skill::Checkmate)
    } else if name == "rocketry"@ {
        Some(Skill::Rocketry)
    } else if name == "pathology"@ {
        Some(Skill::Pathology)
    } else if name == "civic engineering"@ {
        Some(Skill::CivicEngineering)
    } else if name == "apparatchik"@ {
        Some(Skill::Apparatchik)
    } else if name == "quota"@ {
        Some(Skill::Quota)
    } else if name == "robot"@ {
        Some(Skill::Robot)
    } else if name == "dossier"@ {
        Some(Skill::Dossier)
    } else if name == "delusion"@ {
        Some(Skill::Delusion)
    } else if name == "arts2"@ {
        Some(Skill::Arts2)
    } else if name == "arts3"@ {
        Some(Skill::Arts3)
    } else if name == "arts4"@ {
        Some(Skill::Arts4)
    } else if name == "high proof"@ {
        Some(Skill::HighProof)
    } else if name == "prohibition"@ {
        Some(Skill::Prohibition)
    } else if name == "gizmo"@ {
        Some(Skill::Gizmo)
    } else if name == "oldtime religion"@ {
        Some(Skill::OldtimeReligion)
    } else {
        None
    }
}

impl Skill {
    /// The attribute that the skill derives from.
    pub open spec fn attribute(self) -> Attribute {
        match self {
            Skill::Checkmate | Skill::Rocketry | Skill::Pathology | Skill::CivicEngineering => {
                Attribute::Tech
            },
            Skill::Apparatchik | Skill::Quota | Skill::Robot | Skill::Dossier => {
                Attribute::Bureaucracy
            },
            Skill::Delusion | Skill::Arts2 | Skill::Arts3 | Skill::Arts4 => Attribute::Arts,
            Skill::HighProof | Skill::Prohibition | Skill::Gizmo | Skill::OldtimeReligion => {
                Attribute::Underworld
            },
        }
    }

    /// The name under which content refers to the skill.
    pub open spec fn name_text(self) -> Seq<char> {
        match self {
            Skill::Checkmate => "checkmate"@,
            Skill::Rocketry => "rocketry"@,
            Skill::Pathology => "pathology"@,
            Skill::CivicEngineering => "civic engineering"@,
            Skill::Apparatchik => "apparatchik"@,
            Skill::Quota => "quota"@,
            Skill::Robot => "robot"@,
            Skill::Dossier => "dossier"@,
            Skill::Delusion => "delusion"@,
            Skill::Arts2 => "arts2"@,
            Skill::Arts3 => "arts3"@,
            Skill::Arts4 => "arts4"@,
            Skill::HighProof => "high proof"@,
            Skill::Prohibition => "prohibition"@,
            Skill::Gizmo => "gizmo"@,
            Skill::OldtimeReligion => "oldtime religion"@,
        }
    }

    /// The attribute that the skill derives from.
    pub fn base(self) -> (attribute: Attribute)
        ensures
            attribute == self.attribute(),
    {
        match self {
            Skill::Checkmate | Skill::Rocketry | Skill::Pathology | Skill::CivicEngineering => {
                Attribute::Tech
            },
            Skill::Apparatchik | Skill::Quota | Skill::Robot | Skill::Dossier => {
                Attribute::Bureaucracy
            },
            Skill::Delusion | Skill::Arts2 | Skill::Arts3 | Skill::Arts4 => Attribute::Arts,
            Skill::HighProof | Skill::Prohibition | Skill::Gizmo | Skill::OldtimeReligion => {
                Attribute::Underworld
            },
        }
    }

    /// The name under which content refers to the skill.
    pub fn name(self) -> (name: &'static str)
        ensures
            name@ == self.name_text(),
    {
        match self {
            Skill::Checkmate => "checkmate",
            Skill::Rocketry => "rocketry",
            Skill::Pathology => "pathology",
            Skill::CivicEngineering => "civic engineering",
            Skill::Apparatchik => "apparatchik",
            Skill::Quota => "quota",
            Skill::Robot => "robot",
            Skill::Dossier => "dossier",
            Skill::Delusion => "delusion",
            Skill::Arts2 => "arts2",
            Skill::Arts3 => "arts3",
            Skill::Arts4 => "arts4",
            Skill::HighProof => "high proof",
            Skill::Prohibition => "prohibition",
            Skill::Gizmo => "gizmo",
            Skill::OldtimeReligion => "oldtime religion",
        }
    }

    /// The skill that content names `name`; `None` for any other string.
    pub fn from_name(name: &str) -> (skill: Option<Skill>)
        ensures
            skill == skill_named(name@),
    {
        if str_eq(name, "checkmate") {
            Some(Skill::Checkmate)
        } else if str_eq(name, "rocketry") {
            Some(Skill::Rocketry)
        } else if str_eq(name, "pathology") {
            Some(Skill::Pathology)
        } else if str_eq(name, "civic engineering") {
            Some(Skill::CivicEngineering)
        } else if str_eq(name, "apparatchik") {
            Some(Skill::Apparatchik)
        } else if str_eq(name, "quota") {
            Some(Skill::Quota)
        } else if str_eq(name, "robot") {
            Some(Skill::Robot)
        } else if str_eq(name, "dossier") {
            Some(Skill::Dossier)
        } else if str_eq(name, "delusion") {
            Some(Skill::Delusion)
        } else if str_eq(name, "arts2") {
            Some(Skill::Arts2)
        } else if str_eq(name, "arts3") {
            Some(Skill::Arts3)
        } else if str_eq(name, "arts4") {
            Some(Skill::Arts4)
        } else if str_eq(name, "high proof") {
            Some(Skill::HighProof)
        } else if str_eq(name, "prohibition") {
            Some(Skill::Prohibition)
        } else if str_eq(name, "gizmo") {
            Some(Skill::Gizmo)
        } else if str_eq(name, "oldtime religion") {
            Some(Skill::OldtimeReligion)
        } else {
            None
        }
    }
}

/// Every skill is found under its own name, so a lookup by name reaches
/// each of the sixteen.
pub proof fn lemma_skill_found_by_name(skill: Skill)
    ensures
        skill_named(skill.name_text()) == Some(skill),
{
    reveal_strlit("checkmate");
    reveal_strlit("rocketry");
    reveal_strlit("pathology");
    reveal_strlit("civic engineering");
    reveal_strlit("apparatchik");
    reveal_strlit("quota");
    reveal_strlit("robot");
    reveal_strlit("dossier");
    reveal_strlit("delusion");
    reveal_strlit("arts2");
    reveal_strlit("arts3");
    reveal_strlit("arts4");
    reveal_strlit("high proof");
    reveal_strlit("prohibition");
    reveal_strlit("gizmo");
    reveal_strlit("oldtime religion");
    assert("checkmate"@.len() == 9 && "checkmate"@[0] == 'c');
    assert("pathology"@.len() == 9 && "pathology"@[0] == 'p');
    assert("rocketry"@.len() == 8 && "rocketry"@[0] == 'r');
    assert("delusion"@.len() == 8 && "delusion"@[0] == 'd');
    assert("civic engineering"@.len() == 17);
    assert("apparatchik"@.len() == 11 && "apparatchik"@[0] == 'a');
    assert("prohibition"@.len() == 11 && "prohibition"@[0] == 'p');
    assert("quota"@.len() == 5 && "quota"@[0] == 'q');
    assert("robot"@.len() == 5 && "robot"@[0] == 'r');
    assert("gizmo"@.len() == 5 && "gizmo"@[0] == 'g');
    assert("arts2"@.len() == 5 && "arts2"@[0] == 'a' && "arts2"@[4] == '2');
    assert("arts3"@.len() == 5 && "arts3"@[0] == 'a' && "arts3"@[4] == '3');
    assert("arts4"@.len() == 5 && "arts4"@[0] == 'a' && "arts4"@[4] == '4');
    assert("dossier"@.len() == 7);
    assert("high proof"@.len() == 10);
    assert("oldtime religion"@.len() == 16);
}

} // verus!
