//! What accompanies an event in a scoring request: how the performance is
//! measured, the gender, and the details of a placement.

use vstd::prelude::*;
use vstd::string::StringExecFns;

use crate::scoring_logic::placement_score::RoundType;

verus! {

/// How the performance of an event is measured.
#[derive(Debug, Clone, Copy, PartialEq, Eq, Structural)]
pub enum PerformanceType {
    /// A time, in seconds.
    Time,
    /// A distance or a height, in metres.
    Distance,
}

/// The gender of the competitor. Each gender has its own coefficients.
#[derive(Debug, Clone, Copy, PartialEq, Eq, Structural)]
pub enum Gender {
    Men,
    Women,
}

impl Gender {
    /// The key of the gender in the coefficient data.
    pub open spec fn canonical_string(self) -> Seq<char> {
        match self {
            Gender::Men => "men"@,
            Gender::Women => "women"@,
        }
    }

    /// The key of the gender in the coefficient data, as an owned string.
    pub fn to_string(&self) -> (name: String)
        ensures
            name@ == self.canonical_string(),
    {
        match self {
            Gender::Men => String::from_str("men"),
            Gender::Women => String::from_str("women"),
        }
    }
}

/// The category of a competition, from `F` (other competitions) up to `OW`
/// (World Championships and Olympic Games).
#[derive(Debug, Clone, Copy, PartialEq, Eq, Hash, Structural)]
pub enum CompetitionCategory {
    /// Other competitions.
    F,
    /// International matches.
    E,
    /// Continental Tour Challenger series.
    D,
    /// Continental Tour Bronze meetings.
    C,
    /// Continental Tour Silver meetings.
    B,
    /// Major games and Gold meetings.
    A,
    /// Area senior outdoor championships.
    GL,
    /// Minor championships.
    GW,
    /// Diamond League finals.
    DF,
    /// World Championships and Olympic Games.
    OW,
}

/// The number of competition categories.
pub const CATEGORY_COUNT: usize = 10;

impl Default for CompetitionCategory {
    fn default() -> (category: Self)
        ensures
            category == CompetitionCategory::F,
    {
        CompetitionCategory::F
    }
}

impl CompetitionCategory {
    /// The short code of the category.
    pub open spec fn canonical_string(self) -> Seq<char> {
        match self {
            CompetitionCategory::F => "F"@,
            CompetitionCategory::E => "E"@,
            CompetitionCategory::D => "D"@,
            CompetitionCategory::C => "C"@,
            CompetitionCategory::B => "B"@,
            CompetitionCategory::A => "A"@,
            CompetitionCategory::GL => "GL"@,
            CompetitionCategory::GW => "GW"@,
            CompetitionCategory::DF => "DF"@,
            CompetitionCategory::OW => "OW"@,
        }
    }

    /// The position of the category, counted from the lowest.
    pub open spec fn ordinal(self) -> nat {
        match self {
            CompetitionCategory::F => 0,
            CompetitionCategory::E => 1,
            CompetitionCategory::D => 2,
            CompetitionCategory::C => 3,
            CompetitionCategory::B => 4,
            CompetitionCategory::A => 5,
            CompetitionCategory::GL => 6,
            CompetitionCategory::GW => 7,
            CompetitionCategory::DF => 8,
            CompetitionCategory::OW => 9,
        }
    }

    /// The category that carries the code `s`, if there is one.
    pub open spec fn named(s: Seq<char>) -> Option<CompetitionCategory> {
        if exists|c: CompetitionCategory| c.canonical_string() == s {
            Some(choose|c: CompetitionCategory| c.canonical_string() == s)
        } else {
            None
        }
    }

    /// The position of the category, counted from the lowest.
    pub fn index(&self) -> (i: usize)
        ensures
            i == self.ordinal(),
            i < CATEGORY_COUNT,
    {
        match self {
            CompetitionCategory::F => 0,
            CompetitionCategory::E => 1,
            CompetitionCategory::D => 2,
            CompetitionCategory::C => 3,
            CompetitionCategory::B => 4,
            CompetitionCategory::A => 5,
            CompetitionCategory::GL => 6,
            CompetitionCategory::GW => 7,
            CompetitionCategory::DF => 8,
            CompetitionCategory::OW => 9,
        }
    }

    /// Every category, from the lowest to the highest.
    pub fn all_variants() -> (categories: Vec<CompetitionCategory>)
        ensures
            categories@.len() == CATEGORY_COUNT,
            forall|c: CompetitionCategory| #[trigger] categories@[c.ordinal() as int] == c,
    {
        vec![
            CompetitionCategory::F,
            CompetitionCategory::E,
            CompetitionCategory::D,
            CompetitionCategory::C,
            CompetitionCategory::B,
            CompetitionCategory::A,
            CompetitionCategory::GL,
            CompetitionCategory::GW,
            CompetitionCategory::DF,
            CompetitionCategory::OW,
        ]
    }

    /// The short code of the category, as an owned string.
    pub fn to_string(&self) -> (code: String)
        ensures
            code@ == self.canonical_string(),
    {
        match self {
            CompetitionCategory::F => String::from_str("F"),
            CompetitionCategory::E => String::from_str("E"),
            CompetitionCategory::D => String::from_str("D"),
            CompetitionCategory::C => String::from_str("C"),
            CompetitionCategory::B => String::from_str("B"),
            CompetitionCategory::A => String::from_str("A"),
            CompetitionCategory::GL => String::from_str("GL"),
            CompetitionCategory::GW => String::from_str("GW"),
            CompetitionCategory::DF => String::from_str("DF"),
            CompetitionCategory::OW => String::from_str("OW"),
        }
    }

    /// Reads a category back from its code. Any other text gives `None`.
    pub fn from_string(s: &str) -> (category: Option<CompetitionCategory>)
        ensures
            category == CompetitionCategory::named(s@),
    {
        let wanted = String::from_str(s);
        let categories = CompetitionCategory::all_variants();
        let mut i: usize = 0;
        while i < categories.len()
            invariant
                i <= categories@.len() == CATEGORY_COUNT,
                wanted@ == s@,
                forall|c: CompetitionCategory| #[trigger] categories@[c.ordinal() as int] == c,
                forall|c: CompetitionCategory| c.ordinal() < i ==> c.canonical_string() != s@,
            decreases categories.len() - i,
        {
            let candidate = categories[i];
            if candidate.to_string() == wanted {
                proof {
                    lemma_category_code_injective(
                        candidate,
                        choose|c: CompetitionCategory| c.canonical_string() == s@,
                    );
                }
                return Some(candidate);
            }
            assert forall|c: CompetitionCategory| c.ordinal() < i + 1 implies c.canonical_string()
                != s@ by {
                if c.ordinal() == i {
                    assert(categories@[c.ordinal() as int] == c);
                }
            }
            i += 1;
        }
        assert forall|c: CompetitionCategory| c.canonical_string() != s@ by {
            assert(categories@[c.ordinal() as int] == c);
        }
        None
    }
}

/// Where and how a competitor placed.
#[derive(Debug, Clone, Copy, PartialEq, Eq, Structural)]
pub struct PlacementInfo {
    pub competition_category: CompetitionCategory,
    /// The place reached, counted from 1.
    pub place: i32,
    pub round: RoundType,
    /// The number of competitors in the final; it decides how a semifinal is scored.
    pub size_of_final: i32,
    /// Whether the competitor went on to the final; read for semifinals only.
    pub qualified_to_final: bool,
}

/// Two categories with the same code are the same category.
pub proof fn lemma_category_code_injective(a: CompetitionCategory, b: CompetitionCategory)
    requires
        a.canonical_string() == b.canonical_string(),
    ensures
        a == b,
{
    reveal_strlit("F");
    reveal_strlit("E");
    reveal_strlit("D");
    reveal_strlit("C");
    reveal_strlit("B");
    reveal_strlit("A");
    reveal_strlit("GL");
    reveal_strlit("GW");
    reveal_strlit("DF");
    reveal_strlit("OW");
    let s = a.canonical_string();
    let t = b.canonical_string();
    assert(s.len() == t.len() && s[0] == t[0] && s[1] == t[1]);
}

/// Reading back the code of a category gives that category.
pub proof fn lemma_category_round_trip(c: CompetitionCategory)
    ensures
        CompetitionCategory::named(c.canonical_string()) == Some(c),
{
    let found = choose|x: CompetitionCategory| x.canonical_string() == c.canonical_string();
    lemma_category_code_injective(found, c);
}

} // verus!
