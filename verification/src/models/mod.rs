//! The data model: events, genders, competition categories and placement details.

pub mod event;
pub mod performance;
pub mod time;

pub use event::{
    CombinedEvent, CrossCountryEvent, Event, RaceWalkingEvent, RoadRunningEvent,
    TrackAndFieldEvent, EVENT_COUNT,
};
pub use performance::{CompetitionCategory, Gender, PerformanceType, PlacementInfo};
