use entur_display::departure::Departure;
use entur_display::instant::Timestamp;
use entur_display::render::{
    display_departure_lines, display_departure_times, draw_time_counter, Color, DrawCommand,
    Renderer, TimeCounter, ROW_HEIGHT, Y_OFFSET,
};
use entur_display::trip::{Data, Leg, Line, TopLevelData, Trip, TripPattern};

fn at(text: &str) -> Timestamp {
    Timestamp::parse(text).unwrap()
}

fn one_leg(start: &str, code: &str) -> Trip {
    Trip {
        trip_patterns: vec![TripPattern {
            legs: vec![Leg {
                expected_start_time: start.to_string(),
                line: Some(Line { public_code: code.to_string() }),
            }],
        }],
    }
}

fn label_fill(y: i64) -> DrawCommand {
    DrawCommand::Fill { x: 12, y, width: 50, height: 36, color: Color::Red }
}

fn label_text(text: &str, y: i64) -> DrawCommand {
    DrawCommand::Text { text: text.to_string(), x: 14, y, background: None }
}

fn time_text(text: &str, y: i64) -> DrawCommand {
    DrawCommand::Text { text: text.to_string(), x: 72, y, background: Some(Color::Black) }
}

#[test]
fn end_to_end_countdown_ticks_down_without_a_new_fetch() {
    let data = TopLevelData {
        data: Data { trip1: one_leg("2024-05-01T10:02:05+02:00", "21"), trip2: Trip { trip_patterns: vec![] } },
    };
    let mut renderer = Renderer::new();
    let first = Departure::from_top_level_data(data.duplicate(), at("2024-05-01T10:00:00+02:00"));
    let drawn = renderer.frame(&first);
    assert_eq!(drawn, vec![label_fill(44), label_text("21", 64), time_text(" 2:05", 64)]);
    let later = Departure::from_top_level_data(data, at("2024-05-01T10:01:00+02:00"));
    let drawn = renderer.frame(&later);
    assert_eq!(drawn, vec![time_text(" 1:05", 64)]);
}

#[test]
fn changed_rows_are_redrawn_and_unused_rows_blacked_out() {
    let now = at("2024-05-01T10:00:00Z");
    let two = TopLevelData {
        data: Data {
            trip1: one_leg("2024-05-01T10:01:00Z", "21"),
            trip2: one_leg("2024-05-01T10:02:00Z", "32"),
        },
    };
    let one = TopLevelData {
        data: Data { trip1: one_leg("2024-05-01T10:01:00Z", "5"), trip2: Trip { trip_patterns: vec![] } },
    };
    let mut renderer = Renderer::new();
    let drawn = renderer.frame(&Departure::from_top_level_data(two, now));
    assert_eq!(drawn.len(), 6);
    let drawn = renderer.frame(&Departure::from_top_level_data(one, now));
    assert_eq!(
        drawn,
        vec![
            DrawCommand::Fill { x: 12, y: 84, width: 180, height: 36, color: Color::Black },
            label_fill(44),
            label_text("5", 64),
            time_text(" 1:00", 64),
        ]
    );
}

#[test]
fn rows_are_laid_out_top_to_bottom() {
    let now = at("2024-05-01T10:00:00Z");
    let ds = Departure::from_top_level_data(
        TopLevelData {
            data: Data {
                trip1: one_leg("2024-05-01T10:00:59Z", "1"),
                trip2: one_leg("2024-05-01T10:03:05Z", "2"),
            },
        },
        now,
    );
    assert_eq!(
        display_departure_lines(&ds, Y_OFFSET, ROW_HEIGHT),
        vec![label_fill(44), label_text("1", 64), label_fill(84), label_text("2", 104)]
    );
    assert_eq!(
        display_departure_times(&ds, Y_OFFSET, ROW_HEIGHT),
        vec![time_text(" 0:59", 64), time_text(" 3:05", 104)]
    );
    assert_eq!(draw_time_counter(&ds[1], 3, 0, 10), time_text(" 3:05", 35));
    let counter = TimeCounter::new(4, 40);
    assert_eq!(counter.draw(&ds[0], 1), time_text(" 0:59", 64));
}
