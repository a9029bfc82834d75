//! The events that can be scored, and their canonical names.

use vstd::prelude::*;
use vstd::string::StringExecFns;

use crate::models::performance::PerformanceType;
use crate::scoring_logic::placement_score::PlacementScoreEventGroup;

verus! {

/// Track and field events, outdoor and short track.
#[derive(Debug, Clone, Copy, PartialEq, Eq, Structural)]
pub enum TrackAndFieldEvent {
    // Sprints, middle and long distances.
    M50,
    M55,
    M60,
    M100,
    M200,
    M300,
    M400,
    M500,
    M600,
    M800,
    M1000,
    M1500,
    M2000,
    M3000,
    M5000,
    M10000,
    // Hurdles.
    M50H,
    M55H,
    M60H,
    M100H,
    M110H,
    M400H,
    // Steeplechase.
    M2000mSC,
    M3000mSC,
    // Relays.
    M4x100m,
    M4x200m,
    M4x400m,
    M4x400mix,
    // Field events.
    LJ,
    TJ,
    HJ,
    PV,
    SP,
    DT,
    HT,
    JT,
    // Short track.
    M200mSh,
    M300mSh,
    M400mSh,
    M500mSh,
    M600mSh,
    M800mSh,
    M1000mSh,
    M1500mSh,
    M2000mSh,
    M3000mSh,
    M5000mSh,
    MileSh,
    M2MilesSh,
    M4x200mSh,
    M4x400mSh,
    M4x400mixSh,
}

/// Combined events.
#[derive(Debug, Clone, Copy, PartialEq, Eq, Structural)]
pub enum CombinedEvent {
    /// Decathlon.
    Dec,
    /// Heptathlon.
    Hept,
    /// Heptathlon, short track.
    HeptSh,
    /// Pentathlon, short track.
    PentSh,
}

/// Road running events.
#[derive(Debug, Clone, Copy, PartialEq, Eq, Structural)]
pub enum RoadRunningEvent {
    Road5km,
    Road10km,
    Road15km,
    Road20km,
    Road25km,
    Road30km,
    RoadHM,
    RoadMarathon,
    Road10Miles,
    RoadMile,
}

/// Race walking events, on the road and on the track.
#[derive(Debug, Clone, Copy, PartialEq, Eq, Structural)]
pub enum RaceWalkingEvent {
    // On the road.
    Road5kmW,
    Road10kmW,
    Road15kmW,
    Road20kmW,
    Road30kmW,
    Road35kmW,
    Road50kmW,
    // On the track.
    M3000mW,
    M5000mW,
    M15000mW,
    M20000mW,
    M30000mW,
    M35000mW,
    M50000mW,
}

/// Cross country events.
#[derive(Debug, Clone, Copy, PartialEq, Eq, Structural)]
pub enum CrossCountryEvent {
    GenericXC,
}

/// An event, by the family it belongs to.
#[derive(Debug, Clone, Copy, PartialEq, Eq, Structural)]
pub enum Event {
    TrackAndField(TrackAndFieldEvent),
    CombinedEvents(CombinedEvent),
    RoadRunning(RoadRunningEvent),
    RaceWalking(RaceWalkingEvent),
    CrossCountry(CrossCountryEvent),
}

impl Default for TrackAndFieldEvent {
    fn default() -> (event: Self)
        ensures
            event == TrackAndFieldEvent::M100,
    {
        TrackAndFieldEvent::M100
    }
}

impl Default for CombinedEvent {
    fn default() -> (event: Self)
        ensures
            event == CombinedEvent::Dec,
    {
        CombinedEvent::Dec
    }
}

impl Default for RoadRunningEvent {
    fn default() -> (event: Self)
        ensures
            event == RoadRunningEvent::RoadMarathon,
    {
        RoadRunningEvent::RoadMarathon
    }
}

impl Default for RaceWalkingEvent {
    fn default() -> (event: Self)
        ensures
            event == RaceWalkingEvent::Road35kmW,
    {
        RaceWalkingEvent::Road35kmW
    }
}

impl Default for CrossCountryEvent {
    fn default() -> (event: Self)
        ensures
            event == CrossCountryEvent::GenericXC,
    {
        CrossCountryEvent::GenericXC
    }
}

impl Default for Event {
    fn default() -> (event: Self)
        ensures
            event == Event::TrackAndField(TrackAndFieldEvent::M100),
    {
        Event::TrackAndField(TrackAndFieldEvent::M100)
    }
}

/// The number of events.
pub const EVENT_COUNT: usize = 81;

impl Event {
    /// The canonical name of the event: the key under which reference data
    /// lists it, and the text that `from_string` reads back.
    pub open spec fn canonical_string(self) -> Seq<char> {
        match self {
            Event::TrackAndField(e) => match e {
                TrackAndFieldEvent::M50 => "50m"@,
                TrackAndFieldEvent::M55 => "55m"@,
                TrackAndFieldEvent::M60 => "60m"@,
                TrackAndFieldEvent::M100 => "100m"@,
                TrackAndFieldEvent::M200 => "200m"@,
                TrackAndFieldEvent::M300 => "300m"@,
                TrackAndFieldEvent::M400 => "400m"@,
                TrackAndFieldEvent::M500 => "500m"@,
                TrackAndFieldEvent::M600 => "600m"@,
                TrackAndFieldEvent::M800 => "800m"@,
                TrackAndFieldEvent::M1000 => "1000m"@,
                TrackAndFieldEvent::M1500 => "1500m"@,
                TrackAndFieldEvent::M2000 => "2000m"@,
                TrackAndFieldEvent::M3000 => "3000m"@,
                TrackAndFieldEvent::M5000 => "5000m"@,
                TrackAndFieldEvent::M10000 => "10000m"@,
                TrackAndFieldEvent::M50H => "50m Hurdle"@,
                TrackAndFieldEvent::M55H => "55m Hurdle"@,
                TrackAndFieldEvent::M60H => "60m Hurdle"@,
                TrackAndFieldEvent::M100H => "100m Hurdle"@,
                TrackAndFieldEvent::M110H => "110m Hurdle"@,
                TrackAndFieldEvent::M400H => "400m Hurdle"@,
                TrackAndFieldEvent::M2000mSC => "2000m SC"@,
                TrackAndFieldEvent::M3000mSC => "3000m SC"@,
                TrackAndFieldEvent::M4x100m => "4x100m"@,
                TrackAndFieldEvent::M4x200m => "4x200m"@,
                TrackAndFieldEvent::M4x400m => "4x400m"@,
                TrackAndFieldEvent::M4x400mix => "4x400mix"@,
                TrackAndFieldEvent::LJ => "Long Jump"@,
                TrackAndFieldEvent::TJ => "Triple Jump"@,
                TrackAndFieldEvent::HJ => "High Jump"@,
                TrackAndFieldEvent::PV => "Pole Vault"@,
                TrackAndFieldEvent::SP => "Shot Put"@,
                TrackAndFieldEvent::DT => "Discus Throw"@,
                TrackAndFieldEvent::HT => "Hammer Throw"@,
                TrackAndFieldEvent::JT => "Javelin Throw"@,
                TrackAndFieldEvent::M200mSh => "200m short track"@,
                TrackAndFieldEvent::M300mSh => "300m short track"@,
                TrackAndFieldEvent::M400mSh => "400m short track"@,
                TrackAndFieldEvent::M500mSh => "500m short track"@,
                TrackAndFieldEvent::M600mSh => "600m short track"@,
                TrackAndFieldEvent::M800mSh => "800m short track"@,
                TrackAndFieldEvent::M1000mSh => "1000m short track"@,
                TrackAndFieldEvent::M1500mSh => "1500m short track"@,
                TrackAndFieldEvent::M2000mSh => "2000m short track"@,
                TrackAndFieldEvent::M3000mSh => "3000m short track"@,
                TrackAndFieldEvent::M5000mSh => "5000m short track"@,
                TrackAndFieldEvent::MileSh => "Mile short track"@,
                TrackAndFieldEvent::M2MilesSh => "2 Miles short track"@,
                TrackAndFieldEvent::M4x200mSh => "4x200m short track"@,
                TrackAndFieldEvent::M4x400mSh => "4x400m short track"@,
                TrackAndFieldEvent::M4x400mixSh => "4x400mix short track"@,
            },
            Event::CombinedEvents(e) => match e {
                CombinedEvent::Dec => "Dec."@,
                CombinedEvent::Hept => "Hept."@,
                CombinedEvent::HeptSh => "Hept. short track"@,
                CombinedEvent::PentSh => "Pent. short track"@,
            },
            Event::RoadRunning(e) => match e {
                RoadRunningEvent::Road5km => "Road 5 km"@,
                RoadRunningEvent::Road10km => "Road 10 km"@,
                RoadRunningEvent::Road15km => "Road 15 km"@,
                RoadRunningEvent::Road20km => "Road 20 km"@,
                RoadRunningEvent::Road25km => "Road 25 km"@,
                RoadRunningEvent::Road30km => "Road 30 km"@,
                RoadRunningEvent::RoadHM => "Road HM"@,
                RoadRunningEvent::RoadMarathon => "Road Marathon"@,
                RoadRunningEvent::Road10Miles => "Road 10 Miles"@,
                RoadRunningEvent::RoadMile => "Road Mile"@,
            },
            Event::RaceWalking(e) => match e {
                RaceWalkingEvent::Road5kmW => "Road 5km Walk"@,
                RaceWalkingEvent::Road10kmW => "Road 10km Walk"@,
                RaceWalkingEvent::Road15kmW => "Road 15km Walk"@,
                RaceWalkingEvent::Road20kmW => "Road 20km Walk"@,
                RaceWalkingEvent::Road30kmW => "Road 30km Walk"@,
                RaceWalkingEvent::Road35kmW => "Road 35km Walk"@,
                RaceWalkingEvent::Road50kmW => "Road 50km Walk"@,
                RaceWalkingEvent::M3000mW => "3000m Walk"@,
                RaceWalkingEvent::M5000mW => "5000m Walk"@,
                RaceWalkingEvent::M15000mW => "15,000m Walk"@,
                RaceWalkingEvent::M20000mW => "20,000m Walk"@,
                RaceWalkingEvent::M30000mW => "30,000m Walk"@,
                RaceWalkingEvent::M35000mW => "35,000m Walk"@,
                RaceWalkingEvent::M50000mW => "50,000m Walk"@,
            },
            Event::CrossCountry(e) => match e {
                CrossCountryEvent::GenericXC => "GenericXC"@,
            },
        }
    }

    /// The position of the event in the list of all events: families in the
    /// order of their declaration, and so the events of each family.
    pub open spec fn ordinal(self) -> nat {
        match self {
            Event::TrackAndField(e) => match e {
                TrackAndFieldEvent::M50 => 0,
                TrackAndFieldEvent::M55 => 1,
                TrackAndFieldEvent::M60 => 2,
                TrackAndFieldEvent::M100 => 3,
                TrackAndFieldEvent::M200 => 4,
                TrackAndFieldEvent::M300 => 5,
                TrackAndFieldEvent::M400 => 6,
                TrackAndFieldEvent::M500 => 7,
                TrackAndFieldEvent::M600 => 8,
                TrackAndFieldEvent::M800 => 9,
                TrackAndFieldEvent::M1000 => 10,
                TrackAndFieldEvent::M1500 => 11,
                TrackAndFieldEvent::M2000 => 12,
                TrackAndFieldEvent::M3000 => 13,
                TrackAndFieldEvent::M5000 => 14,
                TrackAndFieldEvent::M10000 => 15,
                TrackAndFieldEvent::M50H => 16,
                TrackAndFieldEvent::M55H => 17,
                TrackAndFieldEvent::M60H => 18,
                TrackAndFieldEvent::M100H => 19,
                TrackAndFieldEvent::M110H => 20,
                TrackAndFieldEvent::M400H => 21,
                TrackAndFieldEvent::M2000mSC => 22,
                TrackAndFieldEvent::M3000mSC => 23,
                TrackAndFieldEvent::M4x100m => 24,
                TrackAndFieldEvent::M4x200m => 25,
                TrackAndFieldEvent::M4x400m => 26,
                TrackAndFieldEvent::M4x400mix => 27,
                TrackAndFieldEvent::LJ => 28,
                TrackAndFieldEvent::TJ => 29,
                TrackAndFieldEvent::HJ => 30,
                TrackAndFieldEvent::PV => 31,
                TrackAndFieldEvent::SP => 32,
                TrackAndFieldEvent::DT => 33,
                TrackAndFieldEvent::HT => 34,
                TrackAndFieldEvent::JT => 35,
                TrackAndFieldEvent::M200mSh => 36,
                TrackAndFieldEvent::M300mSh => 37,
                TrackAndFieldEvent::M400mSh => 38,
                TrackAndFieldEvent::M500mSh => 39,
                TrackAndFieldEvent::M600mSh => 40,
                TrackAndFieldEvent::M800mSh => 41,
                TrackAndFieldEvent::M1000mSh => 42,
                TrackAndFieldEvent::M1500mSh => 43,
                TrackAndFieldEvent::M2000mSh => 44,
                TrackAndFieldEvent::M3000mSh => 45,
                TrackAndFieldEvent::M5000mSh => 46,
                TrackAndFieldEvent::MileSh => 47,
                TrackAndFieldEvent::M2MilesSh => 48,
                TrackAndFieldEvent::M4x200mSh => 49,
                TrackAndFieldEvent::M4x400mSh => 50,
                TrackAndFieldEvent::M4x400mixSh => 51,
            },
            Event::CombinedEvents(e) => match e {
                CombinedEvent::Dec => 52,
                CombinedEvent::Hept => 53,
                CombinedEvent::HeptSh => 54,
                CombinedEvent::PentSh => 55,
            },
            Event::RoadRunning(e) => match e {
                RoadRunningEvent::Road5km => 56,
                RoadRunningEvent::Road10km => 57,
                RoadRunningEvent::Road15km => 58,
                RoadRunningEvent::Road20km => 59,
                RoadRunningEvent::Road25km => 60,
                RoadRunningEvent::Road30km => 61,
                RoadRunningEvent::RoadHM => 62,
                RoadRunningEvent::RoadMarathon => 63,
                RoadRunningEvent::Road10Miles => 64,
                RoadRunningEvent::RoadMile => 65,
            },
            Event::RaceWalking(e) => match e {
                RaceWalkingEvent::Road5kmW => 66,
                RaceWalkingEvent::Road10kmW => 67,
                RaceWalkingEvent::Road15kmW => 68,
                RaceWalkingEvent::Road20kmW => 69,
                RaceWalkingEvent::Road30kmW => 70,
                RaceWalkingEvent::Road35kmW => 71,
                RaceWalkingEvent::Road50kmW => 72,
                RaceWalkingEvent::M3000mW => 73,
                RaceWalkingEvent::M5000mW => 74,
                RaceWalkingEvent::M15000mW => 75,
                RaceWalkingEvent::M20000mW => 76,
                RaceWalkingEvent::M30000mW => 77,
                RaceWalkingEvent::M35000mW => 78,
                RaceWalkingEvent::M50000mW => 79,
            },
            Event::CrossCountry(e) => match e {
                CrossCountryEvent::GenericXC => 80,
            },
        }
    }

    /// Whether the event is a field event, measured by a distance or a height.
    pub open spec fn is_field_event(self) -> bool {
        self matches Event::TrackAndField(e) && (e == TrackAndFieldEvent::LJ || e
            == TrackAndFieldEvent::TJ || e == TrackAndFieldEvent::HJ || e == TrackAndFieldEvent::PV
            || e == TrackAndFieldEvent::SP || e == TrackAndFieldEvent::DT || e
            == TrackAndFieldEvent::HT || e == TrackAndFieldEvent::JT)
    }

    /// The group whose placement-score tables apply to the event.
    pub open spec fn placement_group(self) -> PlacementScoreEventGroup {
        match self {
            Event::TrackAndField(TrackAndFieldEvent::M5000)
            | Event::TrackAndField(TrackAndFieldEvent::M3000mSC) => {
                PlacementScoreEventGroup::Distance5000m3000mSC
            },
            Event::TrackAndField(TrackAndFieldEvent::M10000) => {
                PlacementScoreEventGroup::Distance10000m
            },
            Event::TrackAndField(_) => PlacementScoreEventGroup::TrackAndField,
            Event::CombinedEvents(_) => PlacementScoreEventGroup::CombinedEvent,
            Event::RoadRunning(RoadRunningEvent::Road10km) => PlacementScoreEventGroup::Road10km,
            Event::RoadRunning(RoadRunningEvent::RoadMarathon) => {
                PlacementScoreEventGroup::RoadMarathon
            },
            Event::RoadRunning(RoadRunningEvent::RoadHM)
            | Event::RoadRunning(RoadRunningEvent::Road30km)
            | Event::RoadRunning(RoadRunningEvent::Road25km) => {
                PlacementScoreEventGroup::HalfMarathon
            },
            Event::RoadRunning(_) => PlacementScoreEventGroup::RoadRunning,
            Event::RaceWalking(RaceWalkingEvent::M20000mW)
            | Event::RaceWalking(RaceWalkingEvent::Road20kmW)
            | Event::RaceWalking(RaceWalkingEvent::Road5kmW)
            | Event::RaceWalking(RaceWalkingEvent::Road10kmW)
            | Event::RaceWalking(RaceWalkingEvent::Road15kmW)
            | Event::RaceWalking(RaceWalkingEvent::M3000mW)
            | Event::RaceWalking(RaceWalkingEvent::M5000mW)
            | Event::RaceWalking(RaceWalkingEvent::M15000mW) => {
                PlacementScoreEventGroup::RaceWalking20Km
            },
            Event::RaceWalking(RaceWalkingEvent::M35000mW)
            | Event::RaceWalking(RaceWalkingEvent::Road35kmW) => {
                PlacementScoreEventGroup::RaceWalking35Km
            },
            Event::RaceWalking(_) => PlacementScoreEventGroup::RaceWalking35KmSimilar,
            Event::CrossCountry(_) => PlacementScoreEventGroup::CrossCountry,
        }
    }

    /// The event that carries the canonical name `s`, if there is one.
    pub open spec fn named(s: Seq<char>) -> Option<Event> {
        if exists|e: Event| e.canonical_string() == s {
            Some(choose|e: Event| e.canonical_string() == s)
        } else {
            None
        }
    }

    /// The canonical name of the event.
    fn name(&self) -> (name: &'static str)
        ensures
            name@ == self.canonical_string(),
    {
        match self {
            Event::TrackAndField(e) => match e {
                TrackAndFieldEvent::M50 => "50m",
                TrackAndFieldEvent::M55 => "55m",
                TrackAndFieldEvent::M60 => "60m",
                TrackAndFieldEvent::M100 => "100m",
                TrackAndFieldEvent::M200 => "200m",
                TrackAndFieldEvent::M300 => "300m",
                TrackAndFieldEvent::M400 => "400m",
                TrackAndFieldEvent::M500 => "500m",
                TrackAndFieldEvent::M600 => "600m",
                TrackAndFieldEvent::M800 => "800m",
                TrackAndFieldEvent::M1000 => "1000m",
                TrackAndFieldEvent::M1500 => "1500m",
                TrackAndFieldEvent::M2000 => "2000m",
                TrackAndFieldEvent::M3000 => "3000m",
                TrackAndFieldEvent::M5000 => "5000m",
                TrackAndFieldEvent::M10000 => "10000m",
                TrackAndFieldEvent::M50H => "50m Hurdle",
                TrackAndFieldEvent::M55H => "55m Hurdle",
                TrackAndFieldEvent::M60H => "60m Hurdle",
                TrackAndFieldEvent::M100H => "100m Hurdle",
                TrackAndFieldEvent::M110H => "110m Hurdle",
                TrackAndFieldEvent::M400H => "400m Hurdle",
                TrackAndFieldEvent::M2000mSC => "2000m SC",
                TrackAndFieldEvent::M3000mSC => "3000m SC",
                TrackAndFieldEvent::M4x100m => "4x100m",
                TrackAndFieldEvent::M4x200m => "4x200m",
                TrackAndFieldEvent::M4x400m => "4x400m",
                TrackAndFieldEvent::M4x400mix => "4x400mix",
                TrackAndFieldEvent::LJ => "Long Jump",
                TrackAndFieldEvent::TJ => "Triple Jump",
                TrackAndFieldEvent::HJ => "High Jump",
                TrackAndFieldEvent::PV => "Pole Vault",
                TrackAndFieldEvent::SP => "Shot Put",
                TrackAndFieldEvent::DT => "Discus Throw",
                TrackAndFieldEvent::HT => "Hammer Throw",
                TrackAndFieldEvent::JT => "Javelin Throw",
                TrackAndFieldEvent::M200mSh => "200m short track",
                TrackAndFieldEvent::M300mSh => "300m short track",
                TrackAndFieldEvent::M400mSh => "400m short track",
                TrackAndFieldEvent::M500mSh => "500m short track",
                TrackAndFieldEvent::M600mSh => "600m short track",
                TrackAndFieldEvent::M800mSh => "800m short track",
                TrackAndFieldEvent::M1000mSh => "1000m short track",
                TrackAndFieldEvent::M1500mSh => "1500m short track",
                TrackAndFieldEvent::M2000mSh => "2000m short track",
                TrackAndFieldEvent::M3000mSh => "3000m short track",
                TrackAndFieldEvent::M5000mSh => "5000m short track",
                TrackAndFieldEvent::MileSh => "Mile short track",
                TrackAndFieldEvent::M2MilesSh => "2 Miles short track",
                TrackAndFieldEvent::M4x200mSh => "4x200m short track",
                TrackAndFieldEvent::M4x400mSh => "4x400m short track",
                TrackAndFieldEvent::M4x400mixSh => "4x400mix short track",
            },
            Event::CombinedEvents(e) => match e {
                CombinedEvent::Dec => "Dec.",
                CombinedEvent::Hept => "Hept.",
                CombinedEvent::HeptSh => "Hept. short track",
                CombinedEvent::PentSh => "Pent. short track",
            },
            Event::RoadRunning(e) => match e {
                RoadRunningEvent::Road5km => "Road 5 km",
                RoadRunningEvent::Road10km => "Road 10 km",
                RoadRunningEvent::Road15km => "Road 15 km",
                RoadRunningEvent::Road20km => "Road 20 km",
                RoadRunningEvent::Road25km => "Road 25 km",
                RoadRunningEvent::Road30km => "Road 30 km",
                RoadRunningEvent::RoadHM => "Road HM",
                RoadRunningEvent::RoadMarathon => "Road Marathon",
                RoadRunningEvent::Road10Miles => "Road 10 Miles",
                RoadRunningEvent::RoadMile => "Road Mile",
            },
            Event::RaceWalking(e) => match e {
                RaceWalkingEvent::Road5kmW => "Road 5km Walk",
                RaceWalkingEvent::Road10kmW => "Road 10km Walk",
                RaceWalkingEvent::Road15kmW => "Road 15km Walk",
                RaceWalkingEvent::Road20kmW => "Road 20km Walk",
                RaceWalkingEvent::Road30kmW => "Road 30km Walk",
                RaceWalkingEvent::Road35kmW => "Road 35km Walk",
                RaceWalkingEvent::Road50kmW => "Road 50km Walk",
                RaceWalkingEvent::M3000mW => "3000m Walk",
                RaceWalkingEvent::M5000mW => "5000m Walk",
                RaceWalkingEvent::M15000mW => "15,000m Walk",
                RaceWalkingEvent::M20000mW => "20,000m Walk",
                RaceWalkingEvent::M30000mW => "30,000m Walk",
                RaceWalkingEvent::M35000mW => "35,000m Walk",
                RaceWalkingEvent::M50000mW => "50,000m Walk",
            },
            Event::CrossCountry(e) => match e {
                CrossCountryEvent::GenericXC => "GenericXC",
            },
        }
    }

    /// Every event, family by family, in the order of declaration.
    pub fn all_variants() -> (events: Vec<Event>)
        ensures
            events@.len() == EVENT_COUNT,
            forall|e: Event| #[trigger] events@[e.ordinal() as int] == e,
    {
        let events = vec![
            Event::TrackAndField(TrackAndFieldEvent::M50),
            Event::TrackAndField(TrackAndFieldEvent::M55),
            Event::TrackAndField(TrackAndFieldEvent::M60),
            Event::TrackAndField(TrackAndFieldEvent::M100),
            Event::TrackAndField(TrackAndFieldEvent::M200),
            Event::TrackAndField(TrackAndFieldEvent::M300),
            Event::TrackAndField(TrackAndFieldEvent::M400),
            Event::TrackAndField(TrackAndFieldEvent::M500),
            Event::TrackAndField(TrackAndFieldEvent::M600),
            Event::TrackAndField(TrackAndFieldEvent::M800),
            Event::TrackAndField(TrackAndFieldEvent::M1000),
            Event::TrackAndField(TrackAndFieldEvent::M1500),
            Event::TrackAndField(TrackAndFieldEvent::M2000),
            Event::TrackAndField(TrackAndFieldEvent::M3000),
            Event::TrackAndField(TrackAndFieldEvent::M5000),
            Event::TrackAndField(TrackAndFieldEvent::M10000),
            Event::TrackAndField(TrackAndFieldEvent::M50H),
            Event::TrackAndField(TrackAndFieldEvent::M55H),
            Event::TrackAndField(TrackAndFieldEvent::M60H),
            Event::TrackAndField(TrackAndFieldEvent::M100H),
            Event::TrackAndField(TrackAndFieldEvent::M110H),
            Event::TrackAndField(TrackAndFieldEvent::M400H),
            Event::TrackAndField(TrackAndFieldEvent::M2000mSC),
            Event::TrackAndField(TrackAndFieldEvent::M3000mSC),
            Event::TrackAndField(TrackAndFieldEvent::M4x100m),
            Event::TrackAndField(TrackAndFieldEvent::M4x200m),
            Event::TrackAndField(TrackAndFieldEvent::M4x400m),
            Event::TrackAndField(TrackAndFieldEvent::M4x400mix),
            Event::TrackAndField(TrackAndFieldEvent::LJ),
            Event::TrackAndField(TrackAndFieldEvent::TJ),
            Event::TrackAndField(TrackAndFieldEvent::HJ),
            Event::TrackAndField(TrackAndFieldEvent::PV),
            Event::TrackAndField(TrackAndFieldEvent::SP),
            Event::TrackAndField(TrackAndFieldEvent::DT),
            Event::TrackAndField(TrackAndFieldEvent::HT),
            Event::TrackAndField(TrackAndFieldEvent::JT),
            Event::TrackAndField(TrackAndFieldEvent::M200mSh),
            Event::TrackAndField(TrackAndFieldEvent::M300mSh),
            Event::TrackAndField(TrackAndFieldEvent::M400mSh),
            Event::TrackAndField(TrackAndFieldEvent::M500mSh),
            Event::TrackAndField(TrackAndFieldEvent::M600mSh),
            Event::TrackAndField(TrackAndFieldEvent::M800mSh),
            Event::TrackAndField(TrackAndFieldEvent::M1000mSh),
            Event::TrackAndField(TrackAndFieldEvent::M1500mSh),
            Event::TrackAndField(TrackAndFieldEvent::M2000mSh),
            Event::TrackAndField(TrackAndFieldEvent::M3000mSh),
            Event::TrackAndField(TrackAndFieldEvent::M5000mSh),
            Event::TrackAndField(TrackAndFieldEvent::MileSh),
            Event::TrackAndField(TrackAndFieldEvent::M2MilesSh),
            Event::TrackAndField(TrackAndFieldEvent::M4x200mSh),
            Event::TrackAndField(TrackAndFieldEvent::M4x400mSh),
            Event::TrackAndField(TrackAndFieldEvent::M4x400mixSh),
            Event::CombinedEvents(CombinedEvent::Dec),
            Event::CombinedEvents(CombinedEvent::Hept),
            Event::CombinedEvents(CombinedEvent::HeptSh),
            Event::CombinedEvents(CombinedEvent::PentSh),
            Event::RoadRunning(RoadRunningEvent::Road5km),
            Event::RoadRunning(RoadRunningEvent::Road10km),
            Event::RoadRunning(RoadRunningEvent::Road15km),
            Event::RoadRunning(RoadRunningEvent::Road20km),
            Event::RoadRunning(RoadRunningEvent::Road25km),
            Event::RoadRunning(RoadRunningEvent::Road30km),
            Event::RoadRunning(RoadRunningEvent::RoadHM),
            Event::RoadRunning(RoadRunningEvent::RoadMarathon),
            Event::RoadRunning(RoadRunningEvent::Road10Miles),
            Event::RoadRunning(RoadRunningEvent::RoadMile),
            Event::RaceWalking(RaceWalkingEvent::Road5kmW),
            Event::RaceWalking(RaceWalkingEvent::Road10kmW),
            Event::RaceWalking(RaceWalkingEvent::Road15kmW),
            Event::RaceWalking(RaceWalkingEvent::Road20kmW),
            Event::RaceWalking(RaceWalkingEvent::Road30kmW),
            Event::RaceWalking(RaceWalkingEvent::Road35kmW),
            Event::RaceWalking(RaceWalkingEvent::Road50kmW),
            Event::RaceWalking(RaceWalkingEvent::M3000mW),
            Event::RaceWalking(RaceWalkingEvent::M5000mW),
            Event::RaceWalking(RaceWalkingEvent::M15000mW),
            Event::RaceWalking(RaceWalkingEvent::M20000mW),
            Event::RaceWalking(RaceWalkingEvent::M30000mW),
            Event::RaceWalking(RaceWalkingEvent::M35000mW),
            Event::RaceWalking(RaceWalkingEvent::M50000mW),
            Event::CrossCountry(CrossCountryEvent::GenericXC),
        ];
        events
    }

    /// The canonical name of the event as an owned string.
    pub fn to_string(&self) -> (name: String)
        ensures
            name@ == self.canonical_string(),
    {
        String::from_str(self.name())
    }

    /// Reads an event back from its canonical name. Any other text gives `None`.
    pub fn from_string(s: &str) -> (event: Option<Event>)
        ensures
            event == Event::named(s@),
    {
        let wanted = String::from_str(s);
        let events = Event::all_variants();
        let mut i: usize = 0;
        while i < events.len()
            invariant
                i <= events@.len() == EVENT_COUNT,
                wanted@ == s@,
                forall|e: Event| #[trigger] events@[e.ordinal() as int] == e,
                forall|e: Event| e.ordinal() < i ==> e.canonical_string() != s@,
            decreases events.len() - i,
        {
            let candidate = events[i];
            if candidate.to_string() == wanted {
                proof {
                    lemma_canonical_string_injective(
                        candidate,
                        choose|e: Event| e.canonical_string() == s@,
                    );
                }
                return Some(candidate);
            }
            assert forall|e: Event| e.ordinal() < i + 1 implies e.canonical_string() != s@ by {
                if e.ordinal() == i {
                    assert(events@[e.ordinal() as int] == e);
                }
            }
            i += 1;
        }
        assert forall|e: Event| e.canonical_string() != s@ by {
            assert(events@[e.ordinal() as int] == e);
        }
        None
    }

    /// Whether the event is measured by a time or by a distance.
    pub fn performance_type(&self) -> (kind: PerformanceType)
        ensures
            kind == if self.is_field_event() {
                PerformanceType::Distance
            } else {
                PerformanceType::Time
            },
    {
        match self {
            Event::TrackAndField(TrackAndFieldEvent::LJ)
            | Event::TrackAndField(TrackAndFieldEvent::TJ)
            | Event::TrackAndField(TrackAndFieldEvent::HJ)
            | Event::TrackAndField(TrackAndFieldEvent::PV)
            | Event::TrackAndField(TrackAndFieldEvent::SP)
            | Event::TrackAndField(TrackAndFieldEvent::DT)
            | Event::TrackAndField(TrackAndFieldEvent::HT)
            | Event::TrackAndField(TrackAndFieldEvent::JT) => PerformanceType::Distance,
            _ => PerformanceType::Time,
        }
    }

    /// The group whose placement-score tables apply to the event.
    pub fn to_placement_score_event_group(&self) -> (group: PlacementScoreEventGroup)
        ensures
            group == self.placement_group(),
    {
        match self {
            Event::TrackAndField(TrackAndFieldEvent::M5000)
            | Event::TrackAndField(TrackAndFieldEvent::M3000mSC) => {
                PlacementScoreEventGroup::Distance5000m3000mSC
            },
            Event::TrackAndField(TrackAndFieldEvent::M10000) => {
                PlacementScoreEventGroup::Distance10000m
            },
            Event::RoadRunning(RoadRunningEvent::Road10km) => PlacementScoreEventGroup::Road10km,
            Event::RoadRunning(RoadRunningEvent::RoadMarathon) => {
                PlacementScoreEventGroup::RoadMarathon
            },
            Event::RoadRunning(RoadRunningEvent::RoadHM)
            | Event::RoadRunning(RoadRunningEvent::Road30km)
            | Event::RoadRunning(RoadRunningEvent::Road25km) => {
                PlacementScoreEventGroup::HalfMarathon
            },
            Event::RaceWalking(RaceWalkingEvent::M20000mW)
            | Event::RaceWalking(RaceWalkingEvent::Road20kmW)
            | Event::RaceWalking(RaceWalkingEvent::Road5kmW)
            | Event::RaceWalking(RaceWalkingEvent::Road10kmW)
            | Event::RaceWalking(RaceWalkingEvent::Road15kmW)
            | Event::RaceWalking(RaceWalkingEvent::M3000mW)
            | Event::RaceWalking(RaceWalkingEvent::M5000mW)
            | Event::RaceWalking(RaceWalkingEvent::M15000mW) => {
                PlacementScoreEventGroup::RaceWalking20Km
            },
            Event::RaceWalking(RaceWalkingEvent::M35000mW)
            | Event::RaceWalking(RaceWalkingEvent::Road35kmW) => {
                PlacementScoreEventGroup::RaceWalking35Km
            },
            Event::RaceWalking(_) => PlacementScoreEventGroup::RaceWalking35KmSimilar,
            Event::TrackAndField(_) => PlacementScoreEventGroup::TrackAndField,
            Event::CombinedEvents(_) => PlacementScoreEventGroup::CombinedEvent,
            Event::RoadRunning(_) => PlacementScoreEventGroup::RoadRunning,
            Event::CrossCountry(_) => PlacementScoreEventGroup::CrossCountry,
        }
    }
}

/// Two events with the same canonical name are the same event.
pub proof fn lemma_canonical_string_injective(a: Event, b: Event)
    requires
        a.canonical_string() == b.canonical_string(),
    ensures
        a == b,
{
    reveal_strlit("50m");
    reveal_strlit("55m");
    reveal_strlit("60m");
    reveal_strlit("100m");
    reveal_strlit("200m");
    reveal_strlit("300m");
    reveal_strlit("400m");
    reveal_strlit("500m");
    reveal_strlit("600m");
    reveal_strlit("800m");
    reveal_strlit("1000m");
    reveal_strlit("1500m");
    reveal_strlit("2000m");
    reveal_strlit("3000m");
    reveal_strlit("5000m");
    reveal_strlit("10000m");
    reveal_strlit("50m Hurdle");
    reveal_strlit("55m Hurdle");
    reveal_strlit("60m Hurdle");
    reveal_strlit("100m Hurdle");
    reveal_strlit("110m Hurdle");
    reveal_strlit("400m Hurdle");
    reveal_strlit("2000m SC");
    reveal_strlit("3000m SC");
    reveal_strlit("4x100m");
    reveal_strlit("4x200m");
    reveal_strlit("4x400m");
    reveal_strlit("4x400mix");
    reveal_strlit("Long Jump");
    reveal_strlit("Triple Jump");
    reveal_strlit("High Jump");
    reveal_strlit("Pole Vault");
    reveal_strlit("Shot Put");
    reveal_strlit("Discus Throw");
    reveal_strlit("Hammer Throw");
    reveal_strlit("Javelin Throw");
    reveal_strlit("200m short track");
    reveal_strlit("300m short track");
    reveal_strlit("400m short track");
    reveal_strlit("500m short track");
    reveal_strlit("600m short track");
    reveal_strlit("800m short track");
    reveal_strlit("1000m short track");
    reveal_strlit("1500m short track");
    reveal_strlit("2000m short track");
    reveal_strlit("3000m short track");
    reveal_strlit("5000m short track");
    reveal_strlit("Mile short track");
    reveal_strlit("2 Miles short track");
    reveal_strlit("4x200m short track");
    reveal_strlit("4x400m short track");
    reveal_strlit("4x400mix short track");
    reveal_strlit("Dec.");
    reveal_strlit("Hept.");
    reveal_strlit("Hept. short track");
    reveal_strlit("Pent. short track");
    reveal_strlit("Road 5 km");
    reveal_strlit("Road 10 km");
    reveal_strlit("Road 15 km");
    reveal_strlit("Road 20 km");
    reveal_strlit("Road 25 km");
    reveal_strlit("Road 30 km");
    reveal_strlit("Road HM");
    reveal_strlit("Road Marathon");
    reveal_strlit("Road 10 Miles");
    reveal_strlit("Road Mile");
    reveal_strlit("Road 5km Walk");
    reveal_strlit("Road 10km Walk");
    reveal_strlit("Road 15km Walk");
    reveal_strlit("Road 20km Walk");
    reveal_strlit("Road 30km Walk");
    reveal_strlit("Road 35km Walk");
    reveal_strlit("Road 50km Walk");
    reveal_strlit("3000m Walk");
    reveal_strlit("5000m Walk");
    reveal_strlit("15,000m Walk");
    reveal_strlit("20,000m Walk");
    reveal_strlit("30,000m Walk");
    reveal_strlit("35,000m Walk");
    reveal_strlit("50,000m Walk");
    reveal_strlit("GenericXC");
    // Among the canonical names, the length and the characters at these
    // positions tell any two apart.
    let s = a.canonical_string();
    let t = b.canonical_string();
    assert(s.len() == t.len() && s[0] == t[0] && s[1] == t[1] && s[2] == t[2] && s[5] == t[5]
        && s[6] == t[6]);
}

/// Reading back the canonical name of an event gives that event.
pub proof fn lemma_named_round_trip(e: Event)
    ensures
        Event::named(e.canonical_string()) == Some(e),
{
    let found = choose|x: Event| x.canonical_string() == e.canonical_string();
    lemma_canonical_string_injective(found, e);
}

/// An event is found under a name exactly when the name is its canonical name.
pub proof fn lemma_named_is_inverse(s: Seq<char>, e: Event)
    ensures
        Event::named(s) == Some(e) <==> e.canonical_string() == s,
{
    if e.canonical_string() == s {
        lemma_named_round_trip(e);
    }
}

} // verus!
