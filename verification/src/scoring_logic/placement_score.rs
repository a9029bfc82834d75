//! Placement scores: bonus points for the place reached in a competition.
//!
//! The points are held in sixteen tables, one for each group of events and
//! round that awards them. A table maps a competition category and a place
//! to the points for that place.

use std::collections::HashMap;
use vstd::prelude::*;
use vstd::string::StringExecFns;

use crate::models::performance::{CompetitionCategory, CATEGORY_COUNT};
use crate::models::Event;

verus! {

broadcast use vstd::std_specs::hash::group_hash_axioms;

/// The groups of events that share placement-score tables.
#[derive(Debug, Clone, Copy, PartialEq, Eq, Hash, Structural)]
pub enum PlacementScoreEventGroup {
    /// Standard track and field events.
    TrackAndField,
    /// 5000m and 3000m steeplechase.
    Distance5000m3000mSC,
    /// 10,000m.
    Distance10000m,
    /// 10 km road race.
    Road10km,
    CombinedEvent,
    RoadMarathon,
    HalfMarathon,
    RoadRunning,
    RaceWalking20Km,
    RaceWalking35Km,
    RaceWalking35KmSimilar,
    CrossCountry,
}

/// The round of a competition in which a place was reached.
#[derive(Debug, Clone, Copy, PartialEq, Eq, Hash, Structural)]
pub enum RoundType {
    Final,
    SemiFinal,
    Other,
}

/// The sixteen tables of placement scores.
#[derive(Debug, Clone, Copy, PartialEq, Eq, Hash, Structural)]
pub enum PlacementTableKind {
    TrackFieldFinal,
    /// Track and field semifinals, where the final has at most 9 competitors.
    TrackFieldSemiMax9,
    /// Track and field semifinals, where the final has 10 competitors or more.
    TrackFieldSemi10Plus,
    Distance5000m3000mSCFinal,
    Distance5000m3000mSCSemiMax9,
    Distance5000m3000mSCSemi10Plus,
    Distance10000mFinal,
    Road10kmFinal,
    CombinedEvents,
    RoadMarathon,
    HalfMarathonSimilarEvent,
    RoadRunningEventGroup,
    RaceWalking20km,
    RaceWalking35km,
    RaceWalking30km50km,
    CrossCountryFinals,
}

/// The number of placement-score tables.
pub const TABLE_COUNT: usize = 16;

/// The largest final that is still scored from the tables for small finals.
pub const SMALL_FINAL_MAX: i32 = 9;

impl PlacementTableKind {
    /// The position of the table among the sixteen.
    pub open spec fn ordinal(self) -> nat {
        match self {
            PlacementTableKind::TrackFieldFinal => 0,
            PlacementTableKind::TrackFieldSemiMax9 => 1,
            PlacementTableKind::TrackFieldSemi10Plus => 2,
            PlacementTableKind::Distance5000m3000mSCFinal => 3,
            PlacementTableKind::Distance5000m3000mSCSemiMax9 => 4,
            PlacementTableKind::Distance5000m3000mSCSemi10Plus => 5,
            PlacementTableKind::Distance10000mFinal => 6,
            PlacementTableKind::Road10kmFinal => 7,
            PlacementTableKind::CombinedEvents => 8,
            PlacementTableKind::RoadMarathon => 9,
            PlacementTableKind::HalfMarathonSimilarEvent => 10,
            PlacementTableKind::RoadRunningEventGroup => 11,
            PlacementTableKind::RaceWalking20km => 12,
            PlacementTableKind::RaceWalking35km => 13,
            PlacementTableKind::RaceWalking30km50km => 14,
            PlacementTableKind::CrossCountryFinals => 15,
        }
    }

    /// The table that scores a final of the group.
    pub open spec fn for_final(group: PlacementScoreEventGroup) -> PlacementTableKind {
        match group {
            PlacementScoreEventGroup::TrackAndField => PlacementTableKind::TrackFieldFinal,
            PlacementScoreEventGroup::Distance5000m3000mSC => {
                PlacementTableKind::Distance5000m3000mSCFinal
            },
            PlacementScoreEventGroup::Distance10000m => PlacementTableKind::Distance10000mFinal,
            PlacementScoreEventGroup::Road10km => PlacementTableKind::Road10kmFinal,
            PlacementScoreEventGroup::CombinedEvent => PlacementTableKind::CombinedEvents,
            PlacementScoreEventGroup::RoadMarathon => PlacementTableKind::RoadMarathon,
            PlacementScoreEventGroup::HalfMarathon => PlacementTableKind::HalfMarathonSimilarEvent,
            PlacementScoreEventGroup::RoadRunning => PlacementTableKind::RoadRunningEventGroup,
            PlacementScoreEventGroup::RaceWalking20Km => PlacementTableKind::RaceWalking20km,
            PlacementScoreEventGroup::RaceWalking35Km => PlacementTableKind::RaceWalking35km,
            PlacementScoreEventGroup::RaceWalking35KmSimilar => {
                PlacementTableKind::RaceWalking30km50km
            },
            PlacementScoreEventGroup::CrossCountry => PlacementTableKind::CrossCountryFinals,
        }
    }

    /// The table that scores a semifinal of the group, if the group has one:
    /// only track and field and the 5000m and 3000m steeplechase do, and
    /// each has one table for small finals and one for large.
    pub open spec fn for_semifinal(
        group: PlacementScoreEventGroup,
        size_of_final: i32,
    ) -> Option<PlacementTableKind> {
        match group {
            PlacementScoreEventGroup::TrackAndField => Some(
                if size_of_final <= SMALL_FINAL_MAX {
                    PlacementTableKind::TrackFieldSemiMax9
                } else {
                    PlacementTableKind::TrackFieldSemi10Plus
                },
            ),
            PlacementScoreEventGroup::Distance5000m3000mSC => Some(
                if size_of_final <= SMALL_FINAL_MAX {
                    PlacementTableKind::Distance5000m3000mSCSemiMax9
                } else {
                    PlacementTableKind::Distance5000m3000mSCSemi10Plus
                },
            ),
            _ => None,
        }
    }

    /// The table that scores a round of the group, if there is one. No table
    /// scores a round that is neither a final nor a semifinal.
    pub open spec fn for_round(
        group: PlacementScoreEventGroup,
        round_type: RoundType,
        size_of_final: i32,
    ) -> Option<PlacementTableKind> {
        match round_type {
            RoundType::Final => Some(PlacementTableKind::for_final(group)),
            RoundType::SemiFinal => PlacementTableKind::for_semifinal(group, size_of_final),
            RoundType::Other => None,
        }
    }

    /// The position of the table among the sixteen.
    pub fn index(&self) -> (i: usize)
        ensures
            i == self.ordinal(),
            i < TABLE_COUNT,
    {
        match self {
            PlacementTableKind::TrackFieldFinal => 0,
            PlacementTableKind::TrackFieldSemiMax9 => 1,
            PlacementTableKind::TrackFieldSemi10Plus => 2,
            PlacementTableKind::Distance5000m3000mSCFinal => 3,
            PlacementTableKind::Distance5000m3000mSCSemiMax9 => 4,
            PlacementTableKind::Distance5000m3000mSCSemi10Plus => 5,
            PlacementTableKind::Distance10000mFinal => 6,
            PlacementTableKind::Road10kmFinal => 7,
            PlacementTableKind::CombinedEvents => 8,
            PlacementTableKind::RoadMarathon => 9,
            PlacementTableKind::HalfMarathonSimilarEvent => 10,
            PlacementTableKind::RoadRunningEventGroup => 11,
            PlacementTableKind::RaceWalking20km => 12,
            PlacementTableKind::RaceWalking35km => 13,
            PlacementTableKind::RaceWalking30km50km => 14,
            PlacementTableKind::CrossCountryFinals => 15,
        }
    }

    /// Chooses the table that scores a round of the group, if there is one.
    pub fn select(
        group: PlacementScoreEventGroup,
        round_type: RoundType,
        size_of_final: i32,
    ) -> (kind: Option<PlacementTableKind>)
        ensures
            kind == PlacementTableKind::for_round(group, round_type, size_of_final),
    {
        match (group, round_type) {
            (PlacementScoreEventGroup::TrackAndField, RoundType::Final) => Some(
                PlacementTableKind::TrackFieldFinal,
            ),
            (PlacementScoreEventGroup::TrackAndField, RoundType::SemiFinal) => {
                if size_of_final <= SMALL_FINAL_MAX {
                    Some(PlacementTableKind::TrackFieldSemiMax9)
                } else {
                    Some(PlacementTableKind::TrackFieldSemi10Plus)
                }
            },
            (PlacementScoreEventGroup::Distance5000m3000mSC, RoundType::Final) => Some(
                PlacementTableKind::Distance5000m3000mSCFinal,
            ),
            (PlacementScoreEventGroup::Distance5000m3000mSC, RoundType::SemiFinal) => {
                if size_of_final <= SMALL_FINAL_MAX {
                    Some(PlacementTableKind::Distance5000m3000mSCSemiMax9)
                } else {
                    Some(PlacementTableKind::Distance5000m3000mSCSemi10Plus)
                }
            },
            (PlacementScoreEventGroup::Distance10000m, RoundType::Final) => Some(
                PlacementTableKind::Distance10000mFinal,
            ),
            (PlacementScoreEventGroup::Road10km, RoundType::Final) => Some(
                PlacementTableKind::Road10kmFinal,
            ),
            (PlacementScoreEventGroup::CombinedEvent, RoundType::Final) => Some(
                PlacementTableKind::CombinedEvents,
            ),
            (PlacementScoreEventGroup::RoadMarathon, RoundType::Final) => Some(
                PlacementTableKind::RoadMarathon,
            ),
            (PlacementScoreEventGroup::HalfMarathon, RoundType::Final) => Some(
                PlacementTableKind::HalfMarathonSimilarEvent,
            ),
            (PlacementScoreEventGroup::RoadRunning, RoundType::Final) => Some(
                PlacementTableKind::RoadRunningEventGroup,
            ),
            (PlacementScoreEventGroup::RaceWalking20Km, RoundType::Final) => Some(
                PlacementTableKind::RaceWalking20km,
            ),
            (PlacementScoreEventGroup::RaceWalking35Km, RoundType::Final) => Some(
                PlacementTableKind::RaceWalking35km,
            ),
            (PlacementScoreEventGroup::RaceWalking35KmSimilar, RoundType::Final) => Some(
                PlacementTableKind::RaceWalking30km50km,
            ),
            (PlacementScoreEventGroup::CrossCountry, RoundType::Final) => Some(
                PlacementTableKind::CrossCountryFinals,
            ),
            (_, RoundType::SemiFinal) => None,
            (_, RoundType::Other) => None,
        }
    }
}

/// One table of placement scores: the points for each competition category
/// and place that the table lists.
pub struct PlacementTable {
    /// The points by place, one map for each category in the order of
    /// `CompetitionCategory::ordinal`.
    rows: Vec<HashMap<i32, i32>>,
}

impl View for PlacementTable {
    type V = Map<(CompetitionCategory, i32), i32>;

    closed spec fn view(&self) -> Map<(CompetitionCategory, i32), i32> {
        Map::new(
            |key: (CompetitionCategory, i32)|
                self.rows[key.0.ordinal() as int]@.contains_key(key.1),
            |key: (CompetitionCategory, i32)| self.rows[key.0.ordinal() as int]@[key.1],
        )
    }
}

impl PlacementTable {
    #[verifier::type_invariant]
    spec fn well_formed(self) -> bool {
        self.rows@.len() == CATEGORY_COUNT
    }

    /// The points that the table lists for a place in a competition of the
    /// category, if it lists any.
    pub open spec fn points(self, category: CompetitionCategory, place: i32) -> Option<i32> {
        if self@.contains_key((category, place)) {
            Some(self@[(category, place)])
        } else {
            None
        }
    }

    /// A table that lists nothing.
    pub fn new() -> (table: PlacementTable)
        ensures
            table@ == Map::<(CompetitionCategory, i32), i32>::empty(),
    {
        let mut rows: Vec<HashMap<i32, i32>> = Vec::new();
        let mut i: usize = 0;
        while i < CATEGORY_COUNT
            invariant
                i <= CATEGORY_COUNT,
                rows@.len() == i,
                forall|j: int| 0 <= j < i ==> (#[trigger] rows@[j])@ == Map::<i32, i32>::empty(),
            decreases CATEGORY_COUNT - i,
        {
            rows.push(HashMap::new());
            i += 1;
        }
        let table = PlacementTable { rows };
        assert(table@ =~= Map::<(CompetitionCategory, i32), i32>::empty());
        table
    }

    /// Lists `points` for the place in competitions of the category, in place
    /// of what the table listed for it before.
    pub fn insert(&mut self, category: CompetitionCategory, place: i32, points: i32)
        ensures
            final(self)@ == old(self)@.insert((category, place), points),
    {
        proof {
            use_type_invariant(&*self);
        }
        let row: usize = category.index();
        self.rows[row].insert(place, points);
        assert(self@ =~= old(self)@.insert((category, place), points));
    }

    /// Looks up the points for a place in a competition of the category.
    pub fn get(&self, category: CompetitionCategory, place: i32) -> (points: Option<i32>)
        ensures
            points == self.points(category, place),
    {
        proof {
            use_type_invariant(self);
        }
        match self.rows[category.index()].get(&place) {
            Some(points) => Some(*points),
            None => None,
        }
    }
}

/// What a placement score is asked for.
#[derive(Debug, Clone, Copy, PartialEq, Eq, Structural)]
pub struct PlacementScoreCalcInput {
    pub event: Event,
    pub competition_category: CompetitionCategory,
    pub round_type: RoundType,
    /// The place reached, counted from 1.
    pub place: i32,
    /// Whether the competitor went on to the final; read for semifinals only.
    pub qualified_to_final: bool,
    /// The number of competitors in the final; it decides how a semifinal is scored.
    pub size_of_final: i32,
}

impl PlacementScoreCalcInput {
    /// The place under which the points are looked up. Everyone who goes on
    /// from a semifinal to the final is scored alike, as the first place of
    /// the semifinal table; every other place stands for itself.
    pub open spec fn effective_place(self) -> i32 {
        if self.round_type == RoundType::SemiFinal && self.qualified_to_final {
            1
        } else {
            self.place
        }
    }

    /// The same request for another place.
    pub open spec fn with_place(self, place: i32) -> PlacementScoreCalcInput {
        PlacementScoreCalcInput { place, ..self }
    }

    /// The table that scores the request, if there is one.
    pub open spec fn table(self) -> Option<PlacementTableKind> {
        PlacementTableKind::for_round(
            self.event.placement_group(),
            self.round_type,
            self.size_of_final,
        )
    }
}

/// The sixteen tables of placement scores.
pub struct PlacementCalculator {
    /// The tables in the order of `PlacementTableKind::ordinal`.
    tables: Vec<PlacementTable>,
}

impl PlacementCalculator {
    #[verifier::type_invariant]
    spec fn well_formed(self) -> bool {
        self.tables@.len() == TABLE_COUNT
    }

    /// What one of the tables lists.
    pub closed spec fn table(self, kind: PlacementTableKind) -> Map<
        (CompetitionCategory, i32),
        i32,
    > {
        self.tables@[kind.ordinal() as int]@
    }

    /// The points that one of the tables lists for a place in a competition
    /// of the category, if it lists any.
    pub open spec fn points(
        self,
        kind: PlacementTableKind,
        category: CompetitionCategory,
        place: i32,
    ) -> Option<i32> {
        if self.table(kind).contains_key((category, place)) {
            Some(self.table(kind)[(category, place)])
        } else {
            None
        }
    }

    /// The placement score of a request: the points that the table for the
    /// event's group and the round lists for the category and the effective
    /// place. There is none where no table scores the round, or where the
    /// table lists nothing for the category and place.
    pub open spec fn placement_score(self, input: PlacementScoreCalcInput) -> Option<i32> {
        match input.table() {
            Some(kind) => self.points(kind, input.competition_category, input.effective_place()),
            None => None,
        }
    }

    /// A calculator whose tables list nothing.
    pub fn new() -> (calculator: PlacementCalculator)
        ensures
            forall|kind: PlacementTableKind| #[trigger]
                calculator.table(kind) == Map::<(CompetitionCategory, i32), i32>::empty(),
    {
        let mut tables: Vec<PlacementTable> = Vec::new();
        let mut i: usize = 0;
        while i < TABLE_COUNT
            invariant
                i <= TABLE_COUNT,
                tables@.len() == i,
                forall|j: int| 0 <= j < i ==> (#[trigger] tables@[j])@ == Map::<
                    (CompetitionCategory, i32),
                    i32,
                >::empty(),
            decreases TABLE_COUNT - i,
        {
            tables.push(PlacementTable::new());
            i += 1;
        }
        PlacementCalculator { tables }
    }

    /// Lists `points` in one of the tables for the place in competitions of
    /// the category, in place of what that table listed for it before. The
    /// other tables stay as they are.
    pub fn insert(
        &mut self,
        kind: PlacementTableKind,
        category: CompetitionCategory,
        place: i32,
        points: i32,
    )
        ensures
            final(self).table(kind) == old(self).table(kind).insert((category, place), points),
            forall|other: PlacementTableKind|
                other != kind ==> #[trigger] final(self).table(other) == old(self).table(other),
    {
        proof {
            use_type_invariant(&*self);
        }
        let i: usize = kind.index();
        self.tables[i].insert(category, place, points);
    }

    /// The placement score of a request, as `placement_score` defines it.
    pub fn calculate_placement_score(&self, input: PlacementScoreCalcInput) -> (score: Option<i32>)
        ensures
            score == self.placement_score(input),
    {
        proof {
            use_type_invariant(self);
        }
        // Everyone who goes on to the final is scored as the first of the semifinal.
        let place: i32 = if input.qualified_to_final && input.round_type == RoundType::SemiFinal {
            1
        } else {
            input.place
        };
        let group = input.event.to_placement_score_event_group();
        match PlacementTableKind::select(group, input.round_type, input.size_of_final) {
            Some(kind) => self.tables[kind.index()].get(input.competition_category, place),
            None => None,
        }
    }
}

/// Why a calculator could not be put in place.
#[derive(Debug, Clone, Copy, PartialEq, Eq, Structural)]
pub enum InitError {
    /// A calculator is in place already; it stays.
    AlreadyInitialized,
}

impl InitError {
    /// The text of the error.
    pub open spec fn message_text(self) -> Seq<char> {
        "Calculator already initialized"@
    }

    /// The text of the error, for display.
    pub fn message(&self) -> (text: String)
        ensures
            text@ == self.message_text(),
    {
        String::from_str("Calculator already initialized")
    }
}

/// Puts the calculator in place, once: while the slot is empty it takes the
/// calculator; a slot that holds one keeps it, and the call fails.
pub fn init_placement_score_calculator(
    slot: &mut Option<PlacementCalculator>,
    calculator: PlacementCalculator,
) -> (result: Result<(), InitError>)
    ensures
        *old(slot) is None ==> result is Ok && *final(slot) == Some(calculator),
        *old(slot) is Some ==> result == Err::<(), InitError>(InitError::AlreadyInitialized)
            && *final(slot) == *old(slot),
{
    if slot.is_some() {
        return Err(InitError::AlreadyInitialized);
    }
    *slot = Some(calculator);
    Ok(())
}

/// The placement score of a request from the calculator in the slot. An
/// empty slot gives no score, as a table without the entry does.
pub fn calculate_placement_score(
    slot: &Option<PlacementCalculator>,
    input: PlacementScoreCalcInput,
) -> (score: Option<i32>)
    ensures
        score == match *slot {
            Some(calculator) => calculator.placement_score(input),
            None => None,
        },
{
    match slot {
        Some(calculator) => calculator.calculate_placement_score(input),
        None => None,
    }
}

/// Whoever goes on from a semifinal to the final has the score that the
/// semifinal table lists for the first place, whatever place was reached.
pub proof fn lemma_qualified_semifinalist_scores_as_first(
    calculator: PlacementCalculator,
    input: PlacementScoreCalcInput,
)
    requires
        input.round_type == RoundType::SemiFinal,
        input.qualified_to_final,
    ensures
        calculator.placement_score(input) == match PlacementTableKind::for_semifinal(
            input.event.placement_group(),
            input.size_of_final,
        ) {
            Some(kind) => calculator.points(kind, input.competition_category, 1),
            None => None,
        },
        forall|place: i32|
            calculator.placement_score(input) == calculator.placement_score(
                #[trigger] input.with_place(place),
            ),
{
}

/// Outside a semifinal, and for whoever does not go on to the final, the
/// score is the one listed for the place itself.
pub proof fn lemma_place_scores_as_itself(
    calculator: PlacementCalculator,
    input: PlacementScoreCalcInput,
)
    requires
        input.round_type != RoundType::SemiFinal || !input.qualified_to_final,
    ensures
        calculator.placement_score(input) == match input.table() {
            Some(kind) => calculator.points(kind, input.competition_category, input.place),
            None => None,
        },
{
}

/// Only finals, and the semifinals of track and field and of the 5000m and
/// 3000m steeplechase, have a placement score.
pub proof fn lemma_no_table_no_score(
    calculator: PlacementCalculator,
    input: PlacementScoreCalcInput,
)
    requires
        input.round_type == RoundType::Other || (input.round_type == RoundType::SemiFinal
            && input.event.placement_group() != PlacementScoreEventGroup::TrackAndField
            && input.event.placement_group() != PlacementScoreEventGroup::Distance5000m3000mSC),
    ensures
        calculator.placement_score(input) is None,
{
}

/// Every table scores the rounds of one group only: its finals, or its
/// semifinals before a small final, or its semifinals before a large one.
pub proof fn lemma_tables_are_not_shared(
    kind: PlacementTableKind,
    group: PlacementScoreEventGroup,
    round_type: RoundType,
    size_of_final: i32,
    other_group: PlacementScoreEventGroup,
    other_round_type: RoundType,
    other_size_of_final: i32,
)
    requires
        PlacementTableKind::for_round(group, round_type, size_of_final) == Some(kind),
        PlacementTableKind::for_round(other_group, other_round_type, other_size_of_final) == Some(
            kind,
        ),
    ensures
        group == other_group,
        round_type == other_round_type,
        round_type == RoundType::SemiFinal ==> (size_of_final <= SMALL_FINAL_MAX
            <==> other_size_of_final <= SMALL_FINAL_MAX),
{
}

} // verus!
