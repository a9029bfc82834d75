//! The decisions of a score: which adjustments apply to an event, and what
//! a placement contributes.
//!
//! A score is the result score of the performance, adjusted for wind where
//! the event is wind-affected and for a downhill course where it is run on
//! the road, plus the placement score where a placement is given. The
//! arithmetic of the result score and of the two adjustments is the
//! caller's; `plan_world_athletics_score` tells it what to add.

use vstd::prelude::*;

use crate::models::{Event, PlacementInfo, TrackAndFieldEvent};
use crate::scoring_logic::placement_score::PlacementScoreCalcInput;

verus! {

/// Whether the event is affected by wind: 100m, 200m, 100m hurdles, 110m
/// hurdles, long jump and triple jump are.
pub open spec fn wind_affected(event: Event) -> bool {
    event matches Event::TrackAndField(e) && (e == TrackAndFieldEvent::M100 || e
        == TrackAndFieldEvent::M200 || e == TrackAndFieldEvent::M100H || e
        == TrackAndFieldEvent::M110H || e == TrackAndFieldEvent::LJ || e == TrackAndFieldEvent::TJ)
}

/// The request for the placement score of a placement in an event.
pub open spec fn placement_request(event: Event, info: PlacementInfo) -> PlacementScoreCalcInput {
    PlacementScoreCalcInput {
        event,
        competition_category: info.competition_category,
        round_type: info.round,
        place: info.place,
        qualified_to_final: info.qualified_to_final,
        size_of_final: info.size_of_final,
    }
}

/// The points that a placement adds to a score: the placement score, or
/// nothing where there is none.
pub open spec fn bonus_of(placement_score: Option<i32>) -> i32 {
    match placement_score {
        Some(points) => points,
        None => 0,
    }
}

/// Whether the event is a road running event.
pub fn is_road_running_event(event: &Event) -> (road: bool)
    ensures
        road == (*event is RoadRunning),
{
    matches!(event, Event::RoadRunning(_))
}

/// Whether the event is affected by wind, so that the wind adjustment applies.
pub fn is_wind_affected_event(event: &Event) -> (affected: bool)
    ensures
        affected == wind_affected(*event),
{
    matches!(
        event,
        Event::TrackAndField(TrackAndFieldEvent::M100)
            | Event::TrackAndField(TrackAndFieldEvent::M200)
            | Event::TrackAndField(TrackAndFieldEvent::M100H)
            | Event::TrackAndField(TrackAndFieldEvent::M110H)
            | Event::TrackAndField(TrackAndFieldEvent::LJ)
            | Event::TrackAndField(TrackAndFieldEvent::TJ)
    )
}

/// What goes into the score of a performance in an event.
#[derive(Debug, PartialEq, Eq)]
pub struct ScorePlan {
    /// The canonical name of the event, under which its coefficients are found.
    pub event_id: String,
    /// Whether the wind adjustment is added.
    pub wind_adjusted: bool,
    /// Whether the downhill adjustment is added.
    pub downhill_adjusted: bool,
    /// The request for the placement score, where a placement was given.
    pub placement_request: Option<PlacementScoreCalcInput>,
}

/// Plans the score of a performance in the event: the name under which the
/// result score is resolved, the adjustments that apply, and the request for
/// the placement score where a placement is given.
pub fn plan_world_athletics_score(
    event: Event,
    placement_info: Option<PlacementInfo>,
) -> (plan: ScorePlan)
    ensures
        plan.event_id@ == event.canonical_string(),
        plan.wind_adjusted == wind_affected(event),
        plan.downhill_adjusted == (event is RoadRunning),
        plan.placement_request == match placement_info {
            Some(info) => Some(placement_request(event, info)),
            None => None,
        },
{
    let placement_request = match placement_info {
        Some(info) => Some(
            PlacementScoreCalcInput {
                event,
                competition_category: info.competition_category,
                round_type: info.round,
                place: info.place,
                qualified_to_final: info.qualified_to_final,
                size_of_final: info.size_of_final,
            },
        ),
        None => None,
    };
    ScorePlan {
        event_id: event.to_string(),
        wind_adjusted: is_wind_affected_event(&event),
        downhill_adjusted: is_road_running_event(&event),
        placement_request,
    }
}

/// The points that a placement adds to a score: the placement score, or
/// nothing where there is none.
pub fn placement_bonus(placement_score: Option<i32>) -> (bonus: i32)
    ensures
        bonus == bonus_of(placement_score),
{
    match placement_score {
        Some(points) => points,
        None => 0,
    }
}

/// No event takes both adjustments: the wind-affected events are run or
/// jumped in the stadium, the downhill adjustment is for the road.
pub proof fn lemma_adjustments_exclude_each_other(event: Event)
    ensures
        !(wind_affected(event) && event is RoadRunning),
{
}

} // verus!
