use efinmet::correlate::{associated, candidate, candidates, correlate, in_region, survivors};
use efinmet::model::{AirportWeather, FlightPlan, TrafficRecord};

fn airport(icao: &str, latitude: f64, longitude: f64, report: &str) -> AirportWeather {
    AirportWeather {
        icao: icao.to_string(),
        latitude: latitude.to_bits(),
        longitude: longitude.to_bits(),
        report: report.to_string(),
    }
}

fn plan(departure: &str, arrival: &str) -> FlightPlan {
    FlightPlan {
        aircraft_short: "A320".to_string(),
        departure: departure.to_string(),
        arrival: arrival.to_string(),
        alternate: String::new(),
        flight_rules: "I".to_string(),
        remarks: String::new(),
        route: "DCT".to_string(),
    }
}

fn flight(latitude: f64, longitude: f64, flight_plan: Option<FlightPlan>) -> TrafficRecord {
    TrafficRecord {
        callsign: "FIN123".to_string(),
        id: 1234567,
        name: "Pilot".to_string(),
        latitude: latitude.to_bits(),
        longitude: longitude.to_bits(),
        altitude: 35000,
        ground_speed: 450,
        heading: 180,
        flight_plan,
    }
}

fn helsinki_and_turku() -> Vec<AirportWeather> {
    vec![
        airport("EFHK", 60.3, 24.9, "EFHK ..."),
        airport("EFTU", 60.5, 22.2, "EFTU ..."),
    ]
}

#[test]
fn departure_equal_to_identifier_is_associated() {
    let helsinki = airport("EFHK", 60.3, 24.9, "EFHK ...");
    assert!(associated(&helsinki, &flight(60.3, 24.9, Some(plan("EFHK", "LOWW")))));
}

#[test]
fn departure_shorter_than_identifier_is_not_associated() {
    let helsinki = airport("EFHK", 60.3, 24.9, "EFHK ...");
    assert!(!associated(&helsinki, &flight(60.3, 24.9, Some(plan("EF", "LOWW")))));
}

#[test]
fn arrival_counts_as_well_as_departure() {
    let helsinki = airport("EFHK", 60.3, 24.9, "EFHK ...");
    assert!(associated(&helsinki, &flight(48.1, 16.5, Some(plan("LOWW", "EFHK")))));
    assert!(!associated(&helsinki, &flight(48.1, 16.5, Some(plan("LOWW", "ESSA")))));
}

#[test]
fn identifier_may_be_a_proper_prefix_of_the_plan_end() {
    let country = airport("EF", 60.0, 25.0, "EF ...");
    assert!(associated(&country, &flight(60.0, 25.0, Some(plan("EFHK", "LOWW")))));
}

#[test]
fn association_is_case_sensitive() {
    let helsinki = airport("EFHK", 60.3, 24.9, "EFHK ...");
    assert!(!associated(&helsinki, &flight(60.3, 24.9, Some(plan("efhk", "loww")))));
}

#[test]
fn flight_without_plan_is_associated_with_nothing() {
    let helsinki = airport("EFHK", 60.3, 24.9, "EFHK ...");
    assert!(!associated(&helsinki, &flight(60.3, 24.9, None)));
}

#[test]
fn region_is_told_by_either_end_of_the_plan() {
    assert!(in_region(&flight(0.0, 0.0, Some(plan("EFHK", "LOWW")))));
    assert!(in_region(&flight(0.0, 0.0, Some(plan("LOWW", "EFTU")))));
    assert!(!in_region(&flight(0.0, 0.0, Some(plan("LOWW", "ESSA")))));
    assert!(!in_region(&flight(0.0, 0.0, Some(plan("E", "F")))));
    assert!(!in_region(&flight(0.0, 0.0, Some(plan("", "")))));
    assert!(!in_region(&flight(0.0, 0.0, None)));
}

#[test]
fn candidate_is_the_first_associated_airport() {
    let airports = vec![
        airport("ESSA", 59.6, 17.9, "ESSA ..."),
        airport("EFTU", 60.5, 22.2, "EFTU ..."),
        airport("EFHK", 60.3, 24.9, "EFHK ..."),
    ];
    assert_eq!(candidate(&airports, &flight(0.0, 0.0, Some(plan("EFHK", "EFTU")))), Some(1));
    assert_eq!(candidate(&airports, &flight(0.0, 0.0, Some(plan("EFHK", "LOWW")))), Some(2));
    assert_eq!(candidate(&airports, &flight(0.0, 0.0, Some(plan("EFHK", "ESSA")))), Some(0));
}

#[test]
fn flight_outside_the_region_has_no_candidate() {
    let airports = vec![airport("ESSA", 59.6, 17.9, "ESSA ...")];
    assert_eq!(candidate(&airports, &flight(0.0, 0.0, Some(plan("ESSA", "LOWW")))), None);
}

#[test]
fn flight_to_an_unknown_airport_has_no_candidate() {
    assert_eq!(
        candidate(&helsinki_and_turku(), &flight(0.0, 0.0, Some(plan("EFRO", "LOWW")))),
        None
    );
    assert_eq!(candidate(&Vec::new(), &flight(0.0, 0.0, Some(plan("EFHK", "LOWW")))), None);
}

#[test]
fn candidates_follow_the_order_of_the_flights() {
    let traffic = vec![
        flight(60.5, 22.2, Some(plan("EFTU", "ESSA"))),
        flight(60.3, 24.9, None),
        flight(60.3, 24.9, Some(plan("LOWW", "EFHK"))),
        flight(60.3, 24.9, Some(plan("LOWW", "ESSA"))),
    ];
    assert_eq!(
        candidates(&helsinki_and_turku(), &traffic),
        vec![Some(1), None, Some(0), None]
    );
}

#[test]
fn survivors_need_a_candidate_and_a_verdict() {
    let traffic = vec![
        flight(60.5, 22.2, Some(plan("EFTU", "ESSA"))),
        flight(60.3, 24.9, None),
        flight(48.1, 16.5, Some(plan("LOWW", "EFHK"))),
        flight(60.3, 24.9, Some(plan("EFHK", "ESSA"))),
    ];
    assert_eq!(
        survivors(&helsinki_and_turku(), &traffic, &vec![true, true, false]),
        vec![true, false, false, false]
    );
}

#[test]
fn one_flight_at_helsinki_selects_helsinki_only() {
    let traffic = vec![flight(60.3, 24.9, Some(plan("EFHK", "LOWW")))];
    assert_eq!(
        correlate(&helsinki_and_turku(), &traffic, &vec![true]),
        vec!["EFHK ...".to_string()]
    );
}

#[test]
fn flight_far_from_its_candidate_selects_nothing() {
    let traffic = vec![flight(48.1, 16.5, Some(plan("EFHK", "LOWW")))];
    assert_eq!(correlate(&helsinki_and_turku(), &traffic, &vec![false]), Vec::<String>::new());
}

#[test]
fn flight_without_plan_never_matters() {
    let with = vec![
        flight(60.3, 24.9, None),
        flight(60.5, 22.2, Some(plan("EFTU", "ESSA"))),
    ];
    let moved = vec![
        flight(-33.9, 151.2, None),
        flight(60.5, 22.2, Some(plan("EFTU", "ESSA"))),
    ];
    let expected = vec!["EFTU ...".to_string()];
    assert_eq!(correlate(&helsinki_and_turku(), &with, &vec![true, true]), expected);
    assert_eq!(correlate(&helsinki_and_turku(), &with, &vec![false, true]), expected);
    assert_eq!(correlate(&helsinki_and_turku(), &moved, &vec![true, true]), expected);
    let alone = vec![flight(60.3, 24.9, None)];
    assert_eq!(correlate(&helsinki_and_turku(), &alone, &vec![true]), Vec::<String>::new());
}

#[test]
fn survivor_makes_every_associated_airport_relevant() {
    let airports = vec![
        airport("EFHK", 60.3, 24.9, "EFHK ..."),
        airport("EFTU", 60.5, 22.2, "EFTU ..."),
        airport("EFRO", 66.6, 25.8, "EFRO ..."),
    ];
    let traffic = vec![flight(60.4, 23.5, Some(plan("EFTU", "EFHK")))];
    assert_eq!(
        correlate(&airports, &traffic, &vec![true]),
        vec!["EFHK ...".to_string(), "EFTU ...".to_string()]
    );
}

#[test]
fn reports_keep_the_order_of_the_airports() {
    let airports = vec![
        airport("EFTU", 60.5, 22.2, "EFTU ..."),
        airport("EFHK", 60.3, 24.9, "EFHK ..."),
    ];
    let traffic = vec![
        flight(60.3, 24.9, Some(plan("EFHK", "LOWW"))),
        flight(60.5, 22.2, Some(plan("ESSA", "EFTU"))),
    ];
    assert_eq!(
        correlate(&airports, &traffic, &vec![true, true]),
        vec!["EFTU ...".to_string(), "EFHK ...".to_string()]
    );
}

#[test]
fn missing_verdict_counts_as_far_away() {
    let traffic = vec![flight(60.3, 24.9, Some(plan("EFHK", "LOWW")))];
    assert_eq!(correlate(&helsinki_and_turku(), &traffic, &Vec::new()), Vec::<String>::new());
}

#[test]
fn nothing_in_gives_nothing_out() {
    assert_eq!(correlate(&Vec::new(), &Vec::new(), &Vec::new()), Vec::<String>::new());
    assert_eq!(correlate(&helsinki_and_turku(), &Vec::new(), &Vec::new()), Vec::<String>::new());
}

#[test]
fn correlating_twice_gives_the_same_reports() {
    let airports = helsinki_and_turku();
    let traffic = vec![
        flight(60.3, 24.9, Some(plan("EFHK", "LOWW"))),
        flight(60.5, 22.2, Some(plan("ESSA", "EFTU"))),
    ];
    let near = vec![true, false];
    let first = correlate(&airports, &traffic, &near);
    let second = correlate(&airports, &traffic, &near);
    assert_eq!(first, second);
    assert_eq!(first, vec!["EFHK ...".to_string()]);
}
