use efinmet::error::{
    describe, fault_text, feed_name, status_outcome, Feed, FetchError, ParseFault,
};
use efinmet::model::TrafficRecord;
use efinmet::traffic::traffic_outcome;

#[test]
fn refusal_by_the_service_gives_its_status() {
    assert_eq!(
        describe(Feed::Weather, &FetchError::Http(404)),
        "Failed to fetch METAR data: Failed to fetch METAR data: 404"
    );
    assert_eq!(
        describe(Feed::Traffic, &FetchError::Http(503)),
        "Failed to fetch VATSIM data: Failed to fetch VATSIM data: 503"
    );
    assert_eq!(
        describe(Feed::Traffic, &FetchError::Http(0)),
        "Failed to fetch VATSIM data: Failed to fetch VATSIM data: 0"
    );
    assert_eq!(
        describe(Feed::Traffic, &FetchError::Http(65535)),
        "Failed to fetch VATSIM data: Failed to fetch VATSIM data: 65535"
    );
}

#[test]
fn network_failure_gives_its_cause() {
    assert_eq!(
        describe(
            Feed::Weather,
            &FetchError::Network("Failed to read response body: reset".to_string())
        ),
        "Failed to fetch METAR data: Failed to read response body: reset"
    );
}

#[test]
fn fault_of_the_body_is_put_in_words() {
    assert_eq!(
        describe(Feed::Weather, &FetchError::Parse(ParseFault::MissingPrefix)),
        "Failed to fetch METAR data: Failed to parse METAR data: a key lacks the report marker"
    );
    assert_eq!(
        describe(Feed::Traffic, &FetchError::Parse(ParseFault::Schema)),
        "Failed to fetch VATSIM data: Failed to parse VATSIM data: the body is not of the schema"
    );
}

#[test]
fn feeds_and_faults_have_their_words() {
    assert_eq!(feed_name(Feed::Weather), "METAR");
    assert_eq!(feed_name(Feed::Traffic), "VATSIM");
    assert_eq!(fault_text(ParseFault::Syntax), "the body is not JSON");
    assert_eq!(fault_text(ParseFault::NotAnObject), "the document is not an object");
    assert_eq!(fault_text(ParseFault::EntryNotAnObject), "an entry is not an object");
    assert_eq!(fault_text(ParseFault::MissingField), "an entry lacks a member");
    assert_eq!(fault_text(ParseFault::FieldNotText), "a member of an entry is not a text");
    assert_eq!(fault_text(ParseFault::EmptyIdentifier), "a key names no airport");
    assert_eq!(fault_text(ParseFault::NotANumber), "a coordinate is not a number");
}

#[test]
fn flights_that_were_read_are_taken_as_they_are() {
    let flight = TrafficRecord {
        callsign: "FIN123".to_string(),
        id: 1234567,
        name: "Pilot".to_string(),
        latitude: (60.3f64).to_bits(),
        longitude: (24.9f64).to_bits(),
        altitude: 35000,
        ground_speed: 450,
        heading: 180,
        flight_plan: None,
    };
    assert_eq!(traffic_outcome(Some(vec![flight.clone()])), Ok(vec![flight]));
    assert_eq!(
        traffic_outcome(None),
        Err(FetchError::Parse(ParseFault::Schema))
    );
}

#[test]
fn only_the_two_hundreds_tell_success() {
    assert_eq!(status_outcome(200), Ok(()));
    assert_eq!(status_outcome(204), Ok(()));
    assert_eq!(status_outcome(299), Ok(()));
    assert_eq!(status_outcome(199), Err(FetchError::Http(199)));
    assert_eq!(status_outcome(300), Err(FetchError::Http(300)));
    assert_eq!(status_outcome(404), Err(FetchError::Http(404)));
    assert_eq!(status_outcome(500), Err(FetchError::Http(500)));
}
