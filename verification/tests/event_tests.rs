use world_athletics_points_calulator::models::{
    CombinedEvent, CrossCountryEvent, Event, RaceWalkingEvent, RoadRunningEvent,
    TrackAndFieldEvent, EVENT_COUNT,
};
use world_athletics_points_calulator::scoring_logic::placement_score::PlacementScoreEventGroup;

#[test]
fn every_event_reads_back_from_its_name() {
    let events = Event::all_variants();
    assert_eq!(events.len(), EVENT_COUNT);
    for event in events {
        let name = event.to_string();
        assert_eq!(Event::from_string(&name), Some(event), "{}", name);
    }
}

#[test]
fn no_two_events_share_a_name() {
    let events = Event::all_variants();
    for (i, a) in events.iter().enumerate() {
        for b in events.iter().skip(i + 1) {
            assert_ne!(a, b);
            assert_ne!(a.to_string(), b.to_string());
        }
    }
}

#[test]
fn all_variants_lists_the_families_in_order() {
    let events = Event::all_variants();
    assert_eq!(events.len(), 81);
    assert_eq!(events[0], Event::TrackAndField(TrackAndFieldEvent::M50));
    assert_eq!(events[3], Event::TrackAndField(TrackAndFieldEvent::M100));
    assert_eq!(events[51], Event::TrackAndField(TrackAndFieldEvent::M4x400mixSh));
    assert_eq!(events[52], Event::CombinedEvents(CombinedEvent::Dec));
    assert_eq!(events[55], Event::CombinedEvents(CombinedEvent::PentSh));
    assert_eq!(events[56], Event::RoadRunning(RoadRunningEvent::Road5km));
    assert_eq!(events[65], Event::RoadRunning(RoadRunningEvent::RoadMile));
    assert_eq!(events[66], Event::RaceWalking(RaceWalkingEvent::Road5kmW));
    assert_eq!(events[79], Event::RaceWalking(RaceWalkingEvent::M50000mW));
    assert_eq!(events[80], Event::CrossCountry(CrossCountryEvent::GenericXC));
    let families: Vec<usize> = events
        .iter()
        .map(|event| match event {
            Event::TrackAndField(_) => 0,
            Event::CombinedEvents(_) => 1,
            Event::RoadRunning(_) => 2,
            Event::RaceWalking(_) => 3,
            Event::CrossCountry(_) => 4,
        })
        .collect();
    let mut sorted = families.clone();
    sorted.sort();
    assert_eq!(families, sorted);
}

#[test]
fn canonical_names_are_the_keys_of_the_reference_data() {
    assert_eq!(Event::TrackAndField(TrackAndFieldEvent::M100).to_string(), "100m");
    assert_eq!(Event::TrackAndField(TrackAndFieldEvent::M100H).to_string(), "100m Hurdle");
    assert_eq!(Event::TrackAndField(TrackAndFieldEvent::M110H).to_string(), "110m Hurdle");
    assert_eq!(Event::TrackAndField(TrackAndFieldEvent::M3000mSC).to_string(), "3000m SC");
    assert_eq!(Event::TrackAndField(TrackAndFieldEvent::M4x400mix).to_string(), "4x400mix");
    assert_eq!(Event::TrackAndField(TrackAndFieldEvent::LJ).to_string(), "Long Jump");
    assert_eq!(Event::TrackAndField(TrackAndFieldEvent::DT).to_string(), "Discus Throw");
    assert_eq!(Event::TrackAndField(TrackAndFieldEvent::M200mSh).to_string(), "200m short track");
    assert_eq!(Event::TrackAndField(TrackAndFieldEvent::MileSh).to_string(), "Mile short track");
    assert_eq!(
        Event::TrackAndField(TrackAndFieldEvent::M2MilesSh).to_string(),
        "2 Miles short track"
    );
    assert_eq!(Event::CombinedEvents(CombinedEvent::Dec).to_string(), "Dec.");
    assert_eq!(Event::CombinedEvents(CombinedEvent::Hept).to_string(), "Hept.");
    assert_eq!(Event::CombinedEvents(CombinedEvent::HeptSh).to_string(), "Hept. short track");
    assert_eq!(Event::CombinedEvents(CombinedEvent::PentSh).to_string(), "Pent. short track");
    assert_eq!(Event::RoadRunning(RoadRunningEvent::Road5km).to_string(), "Road 5 km");
    assert_eq!(Event::RoadRunning(RoadRunningEvent::RoadHM).to_string(), "Road HM");
    assert_eq!(Event::RoadRunning(RoadRunningEvent::RoadMarathon).to_string(), "Road Marathon");
    assert_eq!(Event::RoadRunning(RoadRunningEvent::Road10Miles).to_string(), "Road 10 Miles");
    assert_eq!(Event::RaceWalking(RaceWalkingEvent::Road5kmW).to_string(), "Road 5km Walk");
    assert_eq!(Event::RaceWalking(RaceWalkingEvent::Road35kmW).to_string(), "Road 35km Walk");
    assert_eq!(Event::RaceWalking(RaceWalkingEvent::M3000mW).to_string(), "3000m Walk");
    assert_eq!(Event::RaceWalking(RaceWalkingEvent::M15000mW).to_string(), "15,000m Walk");
    assert_eq!(Event::RaceWalking(RaceWalkingEvent::M50000mW).to_string(), "50,000m Walk");
    assert_eq!(Event::CrossCountry(CrossCountryEvent::GenericXC).to_string(), "GenericXC");
}

#[test]
fn from_string_reads_names_only() {
    assert_eq!(
        Event::from_string("Road Marathon"),
        Some(Event::RoadRunning(RoadRunningEvent::RoadMarathon))
    );
    assert_eq!(
        Event::from_string("Hept. short track"),
        Some(Event::CombinedEvents(CombinedEvent::HeptSh))
    );
    assert_eq!(Event::from_string(""), None);
    assert_eq!(Event::from_string("100"), None);
    assert_eq!(Event::from_string("100M"), None);
    assert_eq!(Event::from_string(" 100m"), None);
    assert_eq!(Event::from_string("100m "), None);
    assert_eq!(Event::from_string("10000m Walk"), None);
    assert_eq!(Event::from_string("M100"), None);
    assert_eq!(Event::from_string("Marathon"), None);
}

#[test]
fn defaults_are_the_usual_events() {
    assert_eq!(Event::default(), Event::TrackAndField(TrackAndFieldEvent::M100));
    assert_eq!(TrackAndFieldEvent::default(), TrackAndFieldEvent::M100);
    assert_eq!(CombinedEvent::default(), CombinedEvent::Dec);
    assert_eq!(RoadRunningEvent::default(), RoadRunningEvent::RoadMarathon);
    assert_eq!(RaceWalkingEvent::default(), RaceWalkingEvent::Road35kmW);
    assert_eq!(CrossCountryEvent::default(), CrossCountryEvent::GenericXC);
}

fn expected_group(event: &Event) -> PlacementScoreEventGroup {
    match event.to_string().as_str() {
        "5000m" | "3000m SC" => PlacementScoreEventGroup::Distance5000m3000mSC,
        "10000m" => PlacementScoreEventGroup::Distance10000m,
        "Road 10 km" => PlacementScoreEventGroup::Road10km,
        "Road Marathon" => PlacementScoreEventGroup::RoadMarathon,
        "Road HM" | "Road 30 km" | "Road 25 km" => PlacementScoreEventGroup::HalfMarathon,
        "20,000m Walk" | "Road 20km Walk" | "Road 5km Walk" | "Road 10km Walk"
        | "Road 15km Walk" | "3000m Walk" | "5000m Walk" | "15,000m Walk" => {
            PlacementScoreEventGroup::RaceWalking20Km
        }
        "35,000m Walk" | "Road 35km Walk" => PlacementScoreEventGroup::RaceWalking35Km,
        _ => match event {
            Event::RaceWalking(_) => PlacementScoreEventGroup::RaceWalking35KmSimilar,
            Event::TrackAndField(_) => PlacementScoreEventGroup::TrackAndField,
            Event::CombinedEvents(_) => PlacementScoreEventGroup::CombinedEvent,
            Event::RoadRunning(_) => PlacementScoreEventGroup::RoadRunning,
            Event::CrossCountry(_) => PlacementScoreEventGroup::CrossCountry,
        },
    }
}

#[test]
fn every_event_falls_into_its_placement_group() {
    for event in Event::all_variants() {
        assert_eq!(event.to_placement_score_event_group(), expected_group(&event), "{:?}", event);
    }
}

#[test]
fn placement_groups_of_chosen_events() {
    let group = |event: Event| event.to_placement_score_event_group();
    assert_eq!(
        group(Event::TrackAndField(TrackAndFieldEvent::M5000)),
        PlacementScoreEventGroup::Distance5000m3000mSC
    );
    assert_eq!(
        group(Event::TrackAndField(TrackAndFieldEvent::M5000mSh)),
        PlacementScoreEventGroup::TrackAndField
    );
    assert_eq!(
        group(Event::TrackAndField(TrackAndFieldEvent::M2000mSC)),
        PlacementScoreEventGroup::TrackAndField
    );
    assert_eq!(
        group(Event::RoadRunning(RoadRunningEvent::Road20km)),
        PlacementScoreEventGroup::RoadRunning
    );
    assert_eq!(
        group(Event::RoadRunning(RoadRunningEvent::Road25km)),
        PlacementScoreEventGroup::HalfMarathon
    );
    assert_eq!(
        group(Event::RaceWalking(RaceWalkingEvent::Road30kmW)),
        PlacementScoreEventGroup::RaceWalking35KmSimilar
    );
    assert_eq!(
        group(Event::RaceWalking(RaceWalkingEvent::M50000mW)),
        PlacementScoreEventGroup::RaceWalking35KmSimilar
    );
    assert_eq!(
        group(Event::RaceWalking(RaceWalkingEvent::M35000mW)),
        PlacementScoreEventGroup::RaceWalking35Km
    );
    assert_eq!(
        group(Event::CombinedEvents(CombinedEvent::PentSh)),
        PlacementScoreEventGroup::CombinedEvent
    );
    assert_eq!(
        group(Event::CrossCountry(CrossCountryEvent::GenericXC)),
        PlacementScoreEventGroup::CrossCountry
    );
}
