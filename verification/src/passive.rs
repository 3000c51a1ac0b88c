//! Passive checks: skill checks without dice, evaluated whenever a node is
//! shown, that decide which line of flavour text appears.

use vstd::prelude::*;
use crate::dialogues::{PassiveCheck, PassiveCheckView, check_views};
use crate::player::{Player, PlayerView};

verus! {

/// What a passive check adds to the skill in place of a roll.
pub const PASSIVE_BONUS: i32 = 6;

/// Whether `player` passes `check`: six plus the skill reach the target.
pub open spec fn passive_success(player: PlayerView, check: PassiveCheckView) -> bool {
    6 + player.skill_by_name(check.skill) >= check.target
}

/// A line of flavour text and the one who says it.
#[derive(Clone, Debug)]
pub struct PassiveLine {
    pub speaker: String,
    pub text: String,
}

/// A line as plain values.
pub ghost struct PassiveLineView {
    pub speaker: Seq<char>,
    pub text: Seq<char>,
}

impl View for PassiveLine {
    type V = PassiveLineView;

    open spec fn view(&self) -> PassiveLineView {
        PassiveLineView { speaker: self.speaker@, text: self.text@ }
    }
}

/// The one who says the lines of `check`: its speaker, or the narrator
/// where it names none.
pub open spec fn passive_speaker(check: PassiveCheckView) -> Seq<char> {
    match check.speaker {
        Some(speaker) => speaker,
        None => "Narrator"@,
    }
}

/// The line that `check` shows to `player`: its success text when the
/// check passes, its failure text when it fails, and nothing where the text
/// for that outcome is missing.
pub open spec fn passive_line(player: PlayerView, check: PassiveCheckView) -> Option<
    PassiveLineView,
> {
    let text = if passive_success(player, check) {
        check.success_text
    } else {
        check.failure_text
    };
    match text {
        Some(text) => Some(PassiveLineView { speaker: passive_speaker(check), text }),
        None => None,
    }
}

/// The lines that `checks` show to `player`, in the order of the checks.
pub open spec fn passive_lines(player: PlayerView, checks: Seq<PassiveCheckView>) -> Seq<
    PassiveLineView,
>
    decreases checks.len(),
{
    if checks.len() == 0 {
        Seq::empty()
    } else {
        let before = passive_lines(player, checks.drop_last());
        match passive_line(player, checks.last()) {
            Some(line) => before.push(line),
            None => before,
        }
    }
}

/// The view of each line of a list.
pub open spec fn line_views(lines: Seq<PassiveLine>) -> Seq<PassiveLineView> {
    lines.map_values(|l: PassiveLine| l@)
}

impl PassiveCheck {
    /// Whether `player` passes the check.
    pub fn passes(&self, player: &Player) -> (success: bool)
        ensures
            success == passive_success(player@, self@),
    {
        player.skill_by_name(self.skill.as_str()) as i128 + PASSIVE_BONUS as i128
            >= self.target as i128
    }

    /// The line that the check shows to `player`, if it shows one.
    pub fn line(&self, player: &Player) -> (line: Option<PassiveLine>)
        ensures
            match line {
                Some(l) => passive_line(player@, self@) == Some(l@),
                None => passive_line(player@, self@) is None,
            },
    {
        let text = if self.passes(player) {
            &self.success_text
        } else {
            &self.failure_text
        };
        match text {
            Some(text) => {
                let speaker = match &self.speaker {
                    Some(speaker) => speaker.clone(),
                    None => "Narrator".to_string(),
                };
                Some(PassiveLine { speaker, text: text.clone() })
            },
            None => None,
        }
    }
}

/// The lines that `checks` show to `player`, in the order of the checks.
pub fn evaluate_passive_checks(player: &Player, checks: &Vec<PassiveCheck>) -> (lines: Vec<
    PassiveLine,
>)
    ensures
        line_views(lines@) == passive_lines(player@, check_views(checks@)),
{
    let mut lines: Vec<PassiveLine> = Vec::new();
    let mut i: usize = 0;
    assert(check_views(checks@).take(0) =~= Seq::empty());
    while i < checks.len()
        invariant
            i <= checks@.len(),
            line_views(lines@) =~= passive_lines(player@, check_views(checks@).take(i as int)),
        decreases checks@.len() - i,
    {
        let ghost seen = check_views(checks@).take(i as int);
        let ghost grown = check_views(checks@).take(i as int + 1);
        assert(grown.drop_last() =~= seen);
        assert(grown.last() == checks@[i as int]@);
        let ghost before = lines@;
        match checks[i].line(player) {
            Some(line) => {
                lines.push(line);
                assert(line_views(lines@) =~= line_views(before).push(line@));
            },
            None => {},
        }
        i += 1;
    }
    assert(check_views(checks@).take(i as int) =~= check_views(checks@));
    lines
}

} // verus!
