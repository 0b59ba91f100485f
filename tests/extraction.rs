use entur_display::departure::{Departure, LegError};
use entur_display::instant::{Duration, Timestamp};
use entur_display::trip::{Data, Leg, Line, TopLevelData, Trip, TripPattern};

fn leg(start: &str, line: Option<&str>) -> Leg {
    Leg {
        expected_start_time: start.to_string(),
        line: line.map(|c| Line { public_code: c.to_string() }),
    }
}

fn trip(patterns: Vec<Vec<Leg>>) -> Trip {
    Trip { trip_patterns: patterns.into_iter().map(|legs| TripPattern { legs }).collect() }
}

fn response(trip1: Trip, trip2: Trip) -> TopLevelData {
    TopLevelData { data: Data { trip1, trip2 } }
}

fn at(text: &str) -> Timestamp {
    Timestamp::parse(text).unwrap()
}

#[test]
fn parse_reads_offset_timestamps() {
    let t = at("2024-01-01T12:00:00+01:00");
    assert_eq!(t, Timestamp { unix_seconds: 1_704_106_800, nanosecond: 0 });
    let f = at("2024-01-01T11:00:00.25Z");
    assert_eq!(f, Timestamp { unix_seconds: 1_704_106_800, nanosecond: 250_000_000 });
    assert_eq!(Timestamp::parse("not a time"), None);
    assert_eq!(Timestamp::parse(""), None);
}

#[test]
fn since_gives_signed_nanoseconds() {
    let a = Timestamp { unix_seconds: 100, nanosecond: 250_000_000 };
    let b = Timestamp { unix_seconds: 98, nanosecond: 750_000_000 };
    assert_eq!(a.since(&b), Duration { nanos: 1_500_000_000 });
    assert_eq!(b.since(&a), Duration { nanos: -1_500_000_000 });
    let d = Duration { nanos: -1_500_000_000 };
    assert_eq!(d.whole_seconds(), -1);
    assert_eq!(Duration { nanos: -61_000_000_000 }.whole_minutes(), -1);
}

#[test]
fn extraction_keeps_trip_then_pattern_then_leg_order() {
    let now = at("2024-05-01T10:00:00+02:00");
    let data = response(
        trip(vec![vec![leg("2024-05-01T10:05:00+02:00", Some("A"))], vec![leg(
            "2024-05-01T10:01:00+02:00",
            Some("B"),
        )]]),
        trip(vec![vec![leg("2024-05-01T09:59:00+02:00", Some("C"))]]),
    );
    let ds = Departure::from_top_level_data(data, now);
    let lines: Vec<&str> = ds.iter().map(|d| d.line_number.as_str()).collect();
    assert_eq!(lines, vec!["A", "B", "C"]);
    assert_eq!(ds[0].leaving_in, Duration { nanos: 300_000_000_000 });
    assert_eq!(ds[1].leaving_in, Duration { nanos: 60_000_000_000 });
    assert_eq!(ds[2].leaving_in, Duration { nanos: -60_000_000_000 });
    assert_eq!(ds[0].start_time, at("2024-05-01T08:05:00Z"));
}

#[test]
fn extraction_drops_legs_without_a_line() {
    let now = at("2024-05-01T10:00:00+02:00");
    let data = response(
        trip(vec![vec![
            leg("2024-05-01T10:02:00+02:00", None),
            leg("2024-05-01T10:04:00+02:00", Some("21")),
        ]]),
        trip(vec![]),
    );
    let ds = Departure::from_top_level_data(data, now);
    assert_eq!(ds.len(), 1);
    assert_eq!(ds[0].line_number, "21");
}

#[test]
fn extraction_drops_legs_with_unreadable_times_and_empty_queries() {
    let now = at("2024-05-01T10:00:00+02:00");
    let data = response(
        trip(vec![vec![leg("soon", Some("7"))], vec![]]),
        trip(vec![vec![leg("2024-05-01T10:00:30+02:00", Some("8"))]]),
    );
    let ds = Departure::from_top_level_data(data, now);
    assert_eq!(ds.len(), 1);
    assert_eq!(ds[0].line_number, "8");
    let empty = Departure::from_top_level_data(response(trip(vec![]), trip(vec![])), now);
    assert!(empty.is_empty());
}

#[test]
fn extraction_twice_gives_the_same_departures() {
    let data = || {
        response(
            trip(vec![vec![leg("2024-05-01T10:02:05+02:00", Some("21"))]]),
            trip(vec![vec![leg("2024-05-01T10:07:00+02:00", Some("32"))]]),
        )
    };
    let now = at("2024-05-01T10:00:00+02:00");
    let first = Departure::from_top_level_data(data(), now);
    let again = Departure::from_top_level_data(data(), now);
    assert_eq!(first.len(), again.len());
    for (a, b) in first.iter().zip(again.iter()) {
        assert_eq!(a.line_number, b.line_number);
        assert_eq!(a.start_time, b.start_time);
        assert_eq!(a.leaving_in, b.leaving_in);
    }
    let later = Departure::from_top_level_data(data(), at("2024-05-01T10:00:10+02:00"));
    for (a, b) in first.iter().zip(later.iter()) {
        assert_eq!(a.start_time, b.start_time);
        assert_eq!(a.leaving_in.nanos - b.leaving_in.nanos, 10_000_000_000);
    }
}

#[test]
fn defaults_match_the_empty_shapes() {
    let d = Departure::default();
    assert_eq!(d.leaving_in, Duration { nanos: 0 });
    assert_eq!(d.line_number, "");
    assert!(d.start_time.nanosecond < 1_000_000_000);
    assert_eq!(Line::default().public_code, "0");
    let t = Trip::default();
    assert_eq!(t.trip_patterns.len(), 1);
    assert_eq!(t.trip_patterns[0].legs.len(), 1);
    assert!(t.trip_patterns[0].legs[0].line.is_none());
    let r = TopLevelData::default();
    let ds = Departure::from_top_level_data(r, at("2024-05-01T10:00:00Z"));
    assert!(ds.is_empty());
    assert_eq!(LegError::NoLine, LegError::NoLine);
}
