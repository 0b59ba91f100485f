use entur_display::countdown::countdown_text;
use entur_display::departure::Departure;
use entur_display::instant::{Duration, Timestamp};

fn departure_in(nanos: i128) -> Departure {
    Departure {
        start_time: Timestamp { unix_seconds: 0, nanosecond: 0 },
        leaving_in: Duration { nanos },
        line_number: "21".to_string(),
    }
}

fn shown(nanos: i128) -> String {
    let (m, s) = departure_in(nanos).format_time();
    countdown_text(m, s)
}

const SECOND: i128 = 1_000_000_000;

#[test]
fn format_time_splits_minutes_and_seconds() {
    assert_eq!(departure_in(185 * SECOND).format_time(), (3, 5));
    assert_eq!(departure_in(59 * SECOND).format_time(), (0, 59));
    assert_eq!(departure_in(125 * SECOND + SECOND / 2).format_time(), (2, 5));
    assert_eq!(departure_in(600 * SECOND).format_time(), (10, 0));
}

#[test]
fn format_time_clamps_seconds_when_past_due() {
    assert_eq!(departure_in(-30 * SECOND).format_time(), (0, 0));
    assert_eq!(departure_in(-90 * SECOND).format_time(), (-1, 0));
    assert_eq!(departure_in(-SECOND / 2).format_time(), (0, 0));
}

#[test]
fn countdown_text_is_right_aligned() {
    assert_eq!(shown(185 * SECOND), " 3:05");
    assert_eq!(shown(185 * SECOND).trim(), "3:05");
    assert_eq!(shown(59 * SECOND), " 0:59");
    assert_eq!(shown(125 * SECOND), " 2:05");
    assert_eq!(shown(-30 * SECOND), " 0:00");
    assert_eq!(shown(-90 * SECOND), "-1:00");
    assert_eq!(shown(754 * SECOND), "12:34");
    assert_eq!(shown(6000 * SECOND), "100:00");
    assert_eq!(countdown_text(-12, 7), "-12:07");
}
