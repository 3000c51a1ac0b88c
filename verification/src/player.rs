//! The player: base attributes, skill modifiers, inventory, experience and
//! the flags and visits that the story has recorded.

use vstd::prelude::*;
use vstd::hash_set::StringHashSet;
use crate::dialogues::texts;
use crate::skills::{Attribute, Skill, skill_named};

verus! {

/// The points that character creation hands out over the four attributes.
pub const CREATION_POINTS: i32 = 12;

/// The experience that converts into one skill point.
pub const XP_PER_SKILL_POINT: i32 = 100;

/// The run-state of the player.
pub struct Player {
    pub tech: i32,
    pub arts: i32,
    /// Bureaucracy.
    pub bur: i32,
    /// Underworld.
    pub und: i32,
    pub checkmate_mod: i32,
    pub rocketry_mod: i32,
    pub pathology_mod: i32,
    pub civic_engineering_mod: i32,
    pub apparatchik_mod: i32,
    pub quota_mod: i32,
    pub robot_mod: i32,
    pub dossier_mod: i32,
    pub delusion_mod: i32,
    pub arts2_mod: i32,
    pub arts3_mod: i32,
    pub arts4_mod: i32,
    pub high_proof_mod: i32,
    pub prohibition_mod: i32,
    pub gizmo_mod: i32,
    pub oldtime_religion_mod: i32,
    /// What was picked up, in the order of acquisition.
    pub items: Vec<String>,
    pub xp: i32,
    pub skill_points: i32,
    /// The ids of the nodes that were visited.
    pub dialogues_entered: StringHashSet,
    /// The narrative flags that were set.
    pub flags: StringHashSet,
}

/// The player as plain values.
pub ghost struct PlayerView {
    pub tech: int,
    pub arts: int,
    pub bur: int,
    pub und: int,
    /// The modifier of each of the sixteen skills.
    pub modifiers: Map<Skill, int>,
    pub items: Seq<Seq<char>>,
    pub xp: int,
    pub skill_points: int,
    pub dialogues_entered: Set<Seq<char>>,
    pub flags: Set<Seq<char>>,
}

impl PlayerView {
    /// The value of a base attribute.
    pub open spec fn base(self, attribute: Attribute) -> int {
        match attribute {
            Attribute::Tech => self.tech,
            Attribute::Arts => self.arts,
            Attribute::Bureaucracy => self.bur,
            Attribute::Underworld => self.und,
        }
    }

    /// The value of a skill: its base attribute plus its modifier.
    pub open spec fn skill(self, skill: Skill) -> int {
        self.base(skill.attribute()) + self.modifiers[skill]
    }

    /// The value of the skill that content names `name`, and 0 where the
    /// name is that of no skill.
    pub open spec fn skill_by_name(self, name: Seq<char>) -> int {
        match skill_named(name) {
            Some(skill) => self.skill(skill),
            None => 0,
        }
    }

    /// The sum of the four base attributes.
    pub open spec fn total_points(self) -> int {
        self.tech + self.arts + self.bur + self.und
    }

    /// Whether the attributes are a finished character: each from 1 to 6,
    /// twelve in all.
    pub open spec fn valid_allocation(self) -> bool {
        &&& 1 <= self.tech <= 6
        &&& 1 <= self.arts <= 6
        &&& 1 <= self.bur <= 6
        &&& 1 <= self.und <= 6
        &&& self.total_points() == 12
    }

    /// The player after one skill point went into `skill`.
    pub open spec fn after_raise(self, skill: Skill) -> PlayerView {
        PlayerView {
            modifiers: self.modifiers.insert(skill, self.modifiers[skill] + 1),
            skill_points: self.skill_points - 1,
            ..self
        }
    }

    /// The player after an award of `amount` experience.
    pub open spec fn after_award(self, amount: int) -> PlayerView {
        PlayerView {
            xp: xp_carried(self.xp + amount),
            skill_points: self.skill_points + levels_gained(self.xp + amount),
            ..self
        }
    }

    /// Whether an award of `amount` keeps experience and skill points
    /// within the range of their machine integers.
    pub open spec fn award_fits(self, amount: int) -> bool {
        &&& i32::MIN <= self.xp + amount <= i32::MAX
        &&& self.skill_points + levels_gained(self.xp + amount) <= i32::MAX
    }
}

/// The skill points that an experience total of `total` converts into: one
/// for every full hundred.
pub open spec fn levels_gained(total: int) -> int {
    if total >= 100 {
        total / 100
    } else {
        0
    }
}

/// The experience that is left of a total of `total` once every full
/// hundred is converted.
pub open spec fn xp_carried(total: int) -> int {
    if total >= 100 {
        total % 100
    } else {
        total
    }
}

/// The skills in the order in which the skill screen lists them.
pub open spec fn skill_rows() -> Seq<Skill> {
    seq![
        Skill::Checkmate,
        Skill::Rocketry,
        Skill::Pathology,
        Skill::CivicEngineering,
        Skill::Delusion,
        Skill::Arts2,
        Skill::Arts3,
        Skill::Arts4,
        Skill::Quota,
        Skill::Apparatchik,
        Skill::Robot,
        Skill::Dossier,
        Skill::HighProof,
        Skill::Prohibition,
        Skill::Gizmo,
        Skill::OldtimeReligion,
    ]
}

impl View for Player {
    type V = PlayerView;

    open spec fn view(&self) -> PlayerView {
        PlayerView {
            tech: self.tech as int,
            arts: self.arts as int,
            bur: self.bur as int,
            und: self.und as int,
            modifiers: Map::new(|skill: Skill| true, |skill: Skill| self.modifier_of(skill) as int),
            items: texts(self.items@),
            xp: self.xp as int,
            skill_points: self.skill_points as int,
            dialogues_entered: self.dialogues_entered@,
            flags: self.flags@,
        }
    }
}

impl Player {
    /// The field that holds the modifier of `skill`.
    pub open spec fn modifier_of(&self, skill: Skill) -> i32 {
        match skill {
            Skill::Checkmate => self.checkmate_mod,
            Skill::Rocketry => self.rocketry_mod,
            Skill::Pathology => self.pathology_mod,
            Skill::CivicEngineering => self.civic_engineering_mod,
            Skill::Apparatchik => self.apparatchik_mod,
            Skill::Quota => self.quota_mod,
            Skill::Robot => self.robot_mod,
            Skill::Dossier => self.dossier_mod,
            Skill::Delusion => self.delusion_mod,
            Skill::Arts2 => self.arts2_mod,
            Skill::Arts3 => self.arts3_mod,
            Skill::Arts4 => self.arts4_mod,
            Skill::HighProof => self.high_proof_mod,
            Skill::Prohibition => self.prohibition_mod,
            Skill::Gizmo => self.gizmo_mod,
            Skill::OldtimeReligion => self.oldtime_religion_mod,
        }
    }

    /// The value of a base attribute.
    pub fn base(&self, attribute: Attribute) -> (value: i32)
        ensures
            value == self@.base(attribute),
    {
        match attribute {
            Attribute::Tech => self.tech,
            Attribute::Arts => self.arts,
            Attribute::Bureaucracy => self.bur,
            Attribute::Underworld => self.und,
        }
    }

    /// The modifier of a skill.
    pub fn modifier(&self, skill: Skill) -> (value: i32)
        ensures
            value == self@.modifiers[skill],
    {
        match skill {
            Skill::Checkmate => self.checkmate_mod,
            Skill::Rocketry => self.rocketry_mod,
            Skill::Pathology => self.pathology_mod,
            Skill::CivicEngineering => self.civic_engineering_mod,
            Skill::Apparatchik => self.apparatchik_mod,
            Skill::Quota => self.quota_mod,
            Skill::Robot => self.robot_mod,
            Skill::Dossier => self.dossier_mod,
            Skill::Delusion => self.delusion_mod,
            Skill::Arts2 => self.arts2_mod,
            Skill::Arts3 => self.arts3_mod,
            Skill::Arts4 => self.arts4_mod,
            Skill::HighProof => self.high_proof_mod,
            Skill::Prohibition => self.prohibition_mod,
            Skill::Gizmo => self.gizmo_mod,
            Skill::OldtimeReligion => self.oldtime_religion_mod,
        }
    }

    /// The value of a skill: its base attribute plus its modifier. The sum
    /// of two `i32` always fits the `i64` that is returned.
    pub fn skill(&self, skill: Skill) -> (value: i64)
        ensures
            value == self@.skill(skill),
            value == self@.base(skill.attribute()) + self@.modifiers[skill],
    {
        self.base(skill.base()) as i64 + self.modifier(skill) as i64
    }

    /// The skill checkmate: tech plus its modifier.
    pub fn checkmate(&self) -> (value: i64)
        ensures
            value == self.tech + self.checkmate_mod,
            value == self@.skill(Skill::Checkmate),
    {
        self.tech as i64 + self.checkmate_mod as i64
    }

    /// The skill rocketry: tech plus its modifier.
    pub fn rocketry(&self) -> (value: i64)
        ensures
            value == self.tech + self.rocketry_mod,
            value == self@.skill(Skill::Rocketry),
    {
        self.tech as i64 + self.rocketry_mod as i64
    }

    /// The skill pathology: tech plus its modifier.
    pub fn pathology(&self) -> (value: i64)
        ensures
            value == self.tech + self.pathology_mod,
            value == self@.skill(Skill::Pathology),
    {
        self.tech as i64 + self.pathology_mod as i64
    }

    /// The skill civic engineering: tech plus its modifier.
    pub fn civic_engineering(&self) -> (value: i64)
        ensures
            value == self.tech + self.civic_engineering_mod,
            value == self@.skill(Skill::CivicEngineering),
    {
        self.tech as i64 + self.civic_engineering_mod as i64
    }

    /// The skill apparatchik: bureaucracy plus its modifier.
    pub fn apparatchik(&self) -> (value: i64)
        ensures
            value == self.bur + self.apparatchik_mod,
            value == self@.skill(Skill::Apparatchik),
    {
        self.bur as i64 + self.apparatchik_mod as i64
    }

    /// The skill quota: bureaucracy plus its modifier.
    pub fn quota(&self) -> (value: i64)
        ensures
            value == self.bur + self.quota_mod,
            value == self@.skill(Skill::Quota),
    {
        self.bur as i64 + self.quota_mod as i64
    }

    /// The skill robot: bureaucracy plus its modifier.
    pub fn robot(&self) -> (value: i64)
        ensures
            value == self.bur + self.robot_mod,
            value == self@.skill(Skill::Robot),
    {
        self.bur as i64 + self.robot_mod as i64
    }

    /// The skill dossier: bureaucracy plus its modifier.
    pub fn dossier(&self) -> (value: i64)
        ensures
            value == self.bur + self.dossier_mod,
            value == self@.skill(Skill::Dossier),
    {
        self.bur as i64 + self.dossier_mod as i64
    }

    /// The skill delusion: arts plus its modifier.
    pub fn delusion(&self) -> (value: i64)
        ensures
            value == self.arts + self.delusion_mod,
            value == self@.skill(Skill::Delusion),
    {
        self.arts as i64 + self.delusion_mod as i64
    }

    /// The skill arts2: arts plus its modifier.
    pub fn arts2(&self) -> (value: i64)
        ensures
            value == self.arts + self.arts2_mod,
            value == self@.skill(Skill::Arts2),
    {
        self.arts as i64 + self.arts2_mod as i64
    }

    /// The skill arts3: arts plus its modifier.
    pub fn arts3(&self) -> (value: i64)
        ensures
            value == self.arts + self.arts3_mod,
            value == self@.skill(Skill::Arts3),
    {
        self.arts as i64 + self.arts3_mod as i64
    }

    /// The skill arts4: arts plus its modifier.
    pub fn arts4(&self) -> (value: i64)
        ensures
            value == self.arts + self.arts4_mod,
            value == self@.skill(Skill::Arts4),
    {
        self.arts as i64 + self.arts4_mod as i64
    }

    /// The skill high proof: underworld plus its modifier.
    pub fn high_proof(&self) -> (value: i64)
        ensures
            value == self.und + self.high_proof_mod,
            value == self@.skill(Skill::HighProof),
    {
        self.und as i64 + self.high_proof_mod as i64
    }

    /// The skill prohibition: underworld plus its modifier.
    pub fn prohibition(&self) -> (value: i64)
        ensures
            value == self.und + self.prohibition_mod,
            value == self@.skill(Skill::Prohibition),
    {
        self.und as i64 + self.prohibition_mod as i64
    }

    /// The skill gizmo: underworld plus its modifier.
    pub fn gizmo(&self) -> (value: i64)
        ensures
            value == self.und + self.gizmo_mod,
            value == self@.skill(Skill::Gizmo),
    {
        self.und as i64 + self.gizmo_mod as i64
    }

    /// The skill oldtime religion: underworld plus its modifier.
    pub fn oldtime_religion(&self) -> (value: i64)
        ensures
            value == self.und + self.oldtime_religion_mod,
            value == self@.skill(Skill::OldtimeReligion),
    {
        self.und as i64 + self.oldtime_religion_mod as i64
    }

    /// The sixteen skills with their values, in the order of
    /// `skill_rows`.
    pub fn skill_table(&self) -> (table: Vec<(Skill, i64)>)
        ensures
            table@.len() == 16,
            forall|i: int|
                0 <= i < 16 ==> (#[trigger] table@[i]).0 == skill_rows()[i] && table@[i].1
                    == self@.skill(skill_rows()[i]),
    {
        let mut table: Vec<(Skill, i64)> = Vec::new();
        table.push((Skill::Checkmate, self.skill(Skill::Checkmate)));
        table.push((Skill::Rocketry, self.skill(Skill::Rocketry)));
        table.push((Skill::Pathology, self.skill(Skill::Pathology)));
        table.push((Skill::CivicEngineering, self.skill(Skill::CivicEngineering)));
        table.push((Skill::Delusion, self.skill(Skill::Delusion)));
        table.push((Skill::Arts2, self.skill(Skill::Arts2)));
        table.push((Skill::Arts3, self.skill(Skill::Arts3)));
        table.push((Skill::Arts4, self.skill(Skill::Arts4)));
        table.push((Skill::Quota, self.skill(Skill::Quota)));
        table.push((Skill::Apparatchik, self.skill(Skill::Apparatchik)));
        table.push((Skill::Robot, self.skill(Skill::Robot)));
        table.push((Skill::Dossier, self.skill(Skill::Dossier)));
        table.push((Skill::HighProof, self.skill(Skill::HighProof)));
        table.push((Skill::Prohibition, self.skill(Skill::Prohibition)));
        table.push((Skill::Gizmo, self.skill(Skill::Gizmo)));
        table.push((Skill::OldtimeReligion, self.skill(Skill::OldtimeReligion)));
        table
    }

    /// The value of the skill that content names `name`, and 0 where the
    /// name is that of no skill.
    pub fn skill_by_name(&self, name: &str) -> (value: i64)
        ensures
            value == self@.skill_by_name(name@),
    {
        match Skill::from_name(name) {
            Some(skill) => self.skill(skill),
            None => 0,
        }
    }

    /// The sum of the four base attributes.
    pub fn total_points(&self) -> (total: i64)
        ensures
            total == self@.total_points(),
    {
        self.tech as i64 + self.arts as i64 + self.bur as i64 + self.und as i64
    }

    /// The points that character creation has left to hand out.
    pub fn remaining_points(&self) -> (left: i64)
        ensures
            left == 12 - self@.total_points(),
    {
        CREATION_POINTS as i64 - self.total_points()
    }

    /// Whether the attributes are a finished character: each from 1 to 6,
    /// twelve in all.
    pub fn is_valid(&self) -> (valid: bool)
        ensures
            valid == self@.valid_allocation(),
    {
        self.tech >= 1 && self.arts >= 1 && self.bur >= 1 && self.und >= 1 && self.tech <= 6
            && self.arts <= 6 && self.bur <= 6 && self.und <= 6 && self.total_points()
            == CREATION_POINTS as i64
    }

    /// Whether `add_xp` can take `amount`: the new experience and the new
    /// skill points fit their machine integers.
    pub fn xp_fits(&self, amount: i32) -> (fits: bool)
        ensures
            fits == self@.award_fits(amount as int),
    {
        let total: i64 = self.xp as i64 + amount as i64;
        if total < i32::MIN as i64 || total > i32::MAX as i64 {
            return false;
        }
        let gained: i64 = if total >= 100 {
            total / 100
        } else {
            0
        };
        self.skill_points as i64 + gained <= i32::MAX as i64
    }

    /// Adds `amount` experience. Every full hundred of the new total
    /// becomes one skill point, and what is left over stays as experience.
    pub fn add_xp(&mut self, amount: i32)
        requires
            old(self)@.award_fits(amount as int),
        ensures
            final(self)@ == old(self)@.after_award(amount as int),
    {
        let ghost total: int = self.xp + amount;
        self.xp = self.xp + amount;
        assert(self@.modifiers =~= old(self)@.modifiers);
        while self.xp >= XP_PER_SKILL_POINT
            invariant
                self@ == (PlayerView {
                    xp: self.xp as int,
                    skill_points: self.skill_points as int,
                    ..old(self)@
                }),
                total == old(self).xp + amount,
                old(self)@.award_fits(amount as int),
                self.skill_points >= old(self).skill_points,
                self.xp + 100 * (self.skill_points - old(self).skill_points) == total,
                self.skill_points > old(self).skill_points ==> self.xp >= 0,
            decreases self.xp,
        {
            self.xp = self.xp - XP_PER_SKILL_POINT;
            self.skill_points = self.skill_points + 1;
            assert(self@.modifiers =~= old(self)@.modifiers);
        }
        assert(self@.modifiers =~= old(self)@.modifiers);
    }

    /// Puts one skill point into `skill`, if there is one to spend, and
    /// says whether it did.
    pub fn raise_skill(&mut self, skill: Skill) -> (raised: bool)
        requires
            old(self)@.skill_points > 0 ==> old(self)@.modifiers[skill] < i32::MAX,
        ensures
            raised == (old(self)@.skill_points > 0),
            final(self)@ == if raised {
                old(self)@.after_raise(skill)
            } else {
                old(self)@
            },
    {
        if self.skill_points <= 0 {
            return false;
        }
        self.skill_points = self.skill_points - 1;
        match skill {
            Skill::Checkmate => {
                self.checkmate_mod = self.checkmate_mod + 1;
                proof {
                    lemma_one_modifier_raised(*old(self), *self, skill);
                }
            },
            Skill::Rocketry => {
                self.rocketry_mod = self.rocketry_mod + 1;
                proof {
                    lemma_one_modifier_raised(*old(self), *self, skill);
                }
            },
            Skill::Pathology => {
                self.pathology_mod = self.pathology_mod + 1;
                proof {
                    lemma_one_modifier_raised(*old(self), *self, skill);
                }
            },
            Skill::CivicEngineering => {
                self.civic_engineering_mod = self.civic_engineering_mod + 1;
                proof {
                    lemma_one_modifier_raised(*old(self), *self, skill);
                }
            },
            Skill::Apparatchik => {
                self.apparatchik_mod = self.apparatchik_mod + 1;
                proof {
                    lemma_one_modifier_raised(*old(self), *self, skill);
                }
            },
            Skill::Quota => {
                self.quota_mod = self.quota_mod + 1;
                proof {
                    lemma_one_modifier_raised(*old(self), *self, skill);
                }
            },
            Skill::Robot => {
                self.robot_mod = self.robot_mod + 1;
                proof {
                    lemma_one_modifier_raised(*old(self), *self, skill);
                }
            },
            Skill::Dossier => {
                self.dossier_mod = self.dossier_mod + 1;
                proof {
                    lemma_one_modifier_raised(*old(self), *self, skill);
                }
            },
            Skill::Delusion => {
                self.delusion_mod = self.delusion_mod + 1;
                proof {
                    lemma_one_modifier_raised(*old(self), *self, skill);
                }
            },
            Skill::Arts2 => {
                self.arts2_mod = self.arts2_mod + 1;
                proof {
                    lemma_one_modifier_raised(*old(self), *self, skill);
                }
            },
            Skill::Arts3 => {
                self.arts3_mod = self.arts3_mod + 1;
                proof {
                    lemma_one_modifier_raised(*old(self), *self, skill);
                }
            },
            Skill::Arts4 => {
                self.arts4_mod = self.arts4_mod + 1;
                proof {
                    lemma_one_modifier_raised(*old(self), *self, skill);
                }
            },
            Skill::HighProof => {
                self.high_proof_mod = self.high_proof_mod + 1;
                proof {
                    lemma_one_modifier_raised(*old(self), *self, skill);
                }
            },
            Skill::Prohibition => {
                self.prohibition_mod = self.prohibition_mod + 1;
                proof {
                    lemma_one_modifier_raised(*old(self), *self, skill);
                }
            },
            Skill::Gizmo => {
                self.gizmo_mod = self.gizmo_mod + 1;
                proof {
                    lemma_one_modifier_raised(*old(self), *self, skill);
                }
            },
            Skill::OldtimeReligion => {
                self.oldtime_religion_mod = self.oldtime_religion_mod + 1;
                proof {
                    lemma_one_modifier_raised(*old(self), *self, skill);
                }
            },
        }
        true
    }
}

/// Where one skill's modifier is one higher and the others are as they
/// were, the modifiers are the old ones with that one raised.
proof fn lemma_one_modifier_raised(before: Player, after: Player, skill: Skill)
    requires
        after.modifier_of(skill) == before.modifier_of(skill) + 1,
        forall|other: Skill| other != skill ==> after.modifier_of(other) == before.modifier_of(other),
    ensures
        after@.modifiers == before@.modifiers.insert(skill, before@.modifiers[skill] + 1),
{
    assert(after@.modifiers =~= before@.modifiers.insert(skill, before@.modifiers[skill] + 1));
}

/// The view of the player that `Player::default` returns: every attribute
/// at 1, no modifier, nothing owned, nothing recorded.
pub open spec fn default_player() -> PlayerView {
    PlayerView {
        tech: 1,
        arts: 1,
        bur: 1,
        und: 1,
        modifiers: Map::new(|skill: Skill| true, |skill: Skill| 0int),
        items: Seq::empty(),
        xp: 0,
        skill_points: 0,
        dialogues_entered: Set::empty(),
        flags: Set::empty(),
    }
}

impl Default for Player {
    fn default() -> (player: Self)
        ensures
            player@ == default_player(),
    {
        let player = Player {
            tech: 1,
            arts: 1,
            bur: 1,
            und: 1,
            checkmate_mod: 0,
            rocketry_mod: 0,
            pathology_mod: 0,
            civic_engineering_mod: 0,
            apparatchik_mod: 0,
            quota_mod: 0,
            robot_mod: 0,
            dossier_mod: 0,
            delusion_mod: 0,
            arts2_mod: 0,
            arts3_mod: 0,
            arts4_mod: 0,
            high_proof_mod: 0,
            prohibition_mod: 0,
            gizmo_mod: 0,
            oldtime_religion_mod: 0,
            items: vec![],
            xp: 0,
            skill_points: 0,
            dialogues_entered: StringHashSet::new(),
            flags: StringHashSet::new(),
        };
        assert(player@.modifiers =~= default_player().modifiers);
        assert(player@.items =~= Seq::empty());
        player
    }
}

} // verus!
