use entur_display::fetch::{response_body, FetchError, Snapshot};
use entur_display::query::{client, make_query, request_body, Config, API_URL};
use entur_display::trip::{Data, Leg, Line, TopLevelData, Trip, TripPattern};

fn response(code: &str) -> TopLevelData {
    let trip = |c: &str| Trip {
        trip_patterns: vec![TripPattern {
            legs: vec![Leg {
                expected_start_time: "2024-05-01T10:00:00Z".to_string(),
                line: Some(Line { public_code: c.to_string() }),
            }],
        }],
    };
    TopLevelData { data: Data { trip1: trip(code), trip2: trip(code) } }
}

fn codes(d: &TopLevelData) -> (String, String) {
    (
        d.data.trip1.trip_patterns[0].legs[0].line.as_ref().unwrap().public_code.clone(),
        d.data.trip2.trip_patterns[0].legs[0].line.as_ref().unwrap().public_code.clone(),
    )
}

#[test]
fn body_is_stripped_of_trailing_padding() {
    let mut buffer = vec![0u8; 16];
    buffer[..4].copy_from_slice(b"{}\0x");
    assert_eq!(response_body(200, &buffer), Ok(b"{}\0x".to_vec()));
    assert_eq!(response_body(204, &[0, 0]), Ok(vec![]));
    assert_eq!(response_body(200, b"abc"), Ok(b"abc".to_vec()));
}

#[test]
fn body_of_a_failed_status_is_refused() {
    assert_eq!(response_body(404, b"{}"), Err(FetchError::Status(404)));
    assert_eq!(response_body(500, b"{}"), Err(FetchError::Status(500)));
    assert_eq!(response_body(199, b"{}"), Err(FetchError::Status(199)));
}

#[test]
fn failed_fetch_keeps_the_snapshot() {
    let mut snapshot = Snapshot::new(response("21"));
    let before = format!("{:?}", snapshot);
    assert!(!snapshot.record_fetch(Err(FetchError::Transport)));
    assert!(!snapshot.record_fetch(Err(FetchError::Decode)));
    assert_eq!(format!("{:?}", snapshot), before);
    assert_eq!(codes(&snapshot.read()), ("21".to_string(), "21".to_string()));
}

#[test]
fn successful_fetch_replaces_the_whole_snapshot() {
    let mut snapshot = Snapshot::new(response("21"));
    let old = snapshot.read();
    assert!(snapshot.record_fetch(Ok(response("32"))));
    let new = snapshot.read();
    assert_eq!(codes(&new), ("32".to_string(), "32".to_string()));
    assert_eq!(codes(&old), ("21".to_string(), "21".to_string()));
}

#[test]
fn query_names_both_places() {
    let q = make_query("NSR:StopPlace:1", "NSR:StopPlace:2");
    assert!(q.starts_with("\n\t\t\ttrip(\n\t\t\t\tfrom: {\n\t\t\t\t\tplace: \"NSR:StopPlace:1\""));
    assert!(q.contains("place: \"NSR:StopPlace:2\""));
    assert!(q.contains("numTripPatterns: 4"));
    assert!(q.contains("transportMode: bus"));
}

#[test]
fn client_asks_for_both_trips() {
    let config = Config {
        wifi_ssid: "net",
        wifi_psk: "SECRET-REDACTED",
        from_place1: "A",
        to_place1: "B",
        from_place2: "C",
        to_place2: "D",
    };
    let r = client(&config);
    assert_eq!(r.url, API_URL);
    assert_eq!(r.headers, vec![("content-type", "application/json"), ("ET-Client-Name", "eilefsen-entur_display")]);
    let expected = format!("{{\n\t\t\ttrip1: {}, trip2: {}\n\t\t}}", make_query("A", "B"), make_query("C", "D"));
    assert_eq!(r.query, expected);
}

#[test]
fn request_body_is_a_json_object() {
    assert_eq!(request_body("a \"b\"\n"), "{\"query\":\"a \\\"b\\\"\\n\"}");
    assert_eq!(request_body(""), "{\"query\":\"\"}");
}
