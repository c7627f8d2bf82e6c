//! Tests of the glyph table, the big-digit layout, clipping, duration
//! formatting, and the per-mode frame computations.

use tlock::chronometer::{record_lap, Chronometer, Lapse};
use tlock::countdown::Countdown;
use tlock::duration::{Duration, Instant};
use tlock::events::Key;
use tlock::modes::chrono::ChronoState;
use tlock::modes::countdown::CountdownState;
use tlock::modes::{chrono, clock, countdown};
use tlock::rendering::{draw_text, draw_time, draw_time_symbol, draw_time_width, Cell};
use tlock::symbols::symbol_to_render_data;
use tlock::color::{Color, ComputableColor};
use tlock::config::Config;
use tlock::utils::{dec_str, format_duration, pad2_str};

fn at(nanos: u128) -> Instant {
    Instant::from_nanos(nanos)
}

fn secs(s: u64) -> u128 {
    s as u128 * 1_000_000_000
}

#[test]
fn glyph_width_scenario() {
    // four digits at 7 columns, one colon at 5, minus the trailing
    // compensation of 2
    assert_eq!(draw_time_width("12:30"), 31);
}

#[test]
fn glyph_width_edges() {
    assert_eq!(draw_time_width(""), 0);
    assert_eq!(draw_time_width("1"), 6);
    assert_eq!(draw_time_width(":"), 4);
    assert_eq!(draw_time_width("12"), 12);
}

#[test]
fn glyph_table_entries() {
    let one = symbol_to_render_data('1');
    assert_eq!(one[0], [false, false, false, false, true, true]);
    assert_eq!(one[4], [false, false, false, false, true, true]);
    let colon = symbol_to_render_data(':');
    assert_eq!(colon[0], [false; 6]);
    assert_eq!(colon[1], [false, false, true, true, false, false]);
    let space = symbol_to_render_data(' ');
    assert_eq!(space, [[false; 6]; 5]);
    // anything unsupported maps to the fallback glyph
    let err = symbol_to_render_data('Z');
    assert_eq!(err, symbol_to_render_data('?'));
    assert_eq!(err[0], [true, true, false, false, true, true]);
}

#[test]
fn screen_clipping_scenario() {
    // a glyph fully outside an 80x24 terminal writes nothing at all
    assert_eq!(draw_time_symbol('8', -10, 5, 80, 24).len(), 0);
    assert_eq!(draw_time_symbol('8', 100, 5, 80, 24).len(), 0);
    assert_eq!(draw_time_symbol('8', 5, -10, 80, 24).len(), 0);
    assert_eq!(draw_time_symbol('8', 5, 24, 80, 24).len(), 0);
}

#[test]
fn glyph_partial_clipping() {
    // the '1' glyph is on only in its two rightmost columns; placed at
    // x = -2 those land on screen columns 2 and 3
    let cells = draw_time_symbol('1', -2, 0, 80, 24);
    assert_eq!(cells.len(), 10);
    for row in 0..5u16 {
        assert!(cells.contains(&Cell { x: 2, y: row }));
        assert!(cells.contains(&Cell { x: 3, y: row }));
    }
}

#[test]
fn glyph_on_screen_cells() {
    let cells = draw_time_symbol('8', 0, 0, 80, 24);
    // the '8' glyph has 26 on cells
    assert_eq!(cells.len(), 26);
    assert!(cells.contains(&Cell { x: 0, y: 0 }));
    assert!(cells.contains(&Cell { x: 5, y: 4 }));
    // row 1 is on only at its edges
    assert!(!cells.contains(&Cell { x: 2, y: 1 }));
}

#[test]
fn draw_time_centers_digits() {
    let cells = draw_time("8", 80, 24);
    // start column: 80/2 - 6/2 - 1 = 36, top row: 24/2 - 2 - 1 = 9
    assert_eq!(cells.len(), 26);
    assert!(cells.contains(&Cell { x: 36, y: 9 }));
    assert!(cells.contains(&Cell { x: 41, y: 13 }));
}

#[test]
fn draw_time_full_clock_line() {
    let cells = draw_time("12:30", 80, 24);
    // 10 + 22 + 4 + 22 + 24 on cells, all on screen
    assert_eq!(cells.len(), 82);
    // '1' is drawn at column 24; its first on column is 24 + 4
    assert!(cells.contains(&Cell { x: 28, y: 9 }));
    // the colon is nudged one column left of its cursor position
    assert!(cells.contains(&Cell { x: 39, y: 10 }));
}

#[test]
fn draw_time_everything_offscreen() {
    let cells = draw_time("12:30", 0, 0);
    assert_eq!(cells.len(), 0);
}

#[test]
fn text_clipping_left_edge() {
    let op = draw_text("hello", -2, 3, 80);
    assert_eq!(op.x, 0);
    assert_eq!(op.y, 3);
    assert_eq!(op.text, "llo");
}

#[test]
fn text_clipping_right_edge() {
    let op = draw_text("hello", 2, 0, 3);
    assert_eq!(op.x, 2);
    assert_eq!(op.text, "hel");
}

#[test]
fn text_clipping_degenerate() {
    let op = draw_text("hi", -10, 0, 80);
    assert_eq!(op.x, 0);
    assert_eq!(op.text, "");
    let op2 = draw_text("hello", 10, 2, 80);
    assert_eq!(op2.x, 10);
    assert_eq!(op2.text, "hello");
}

#[test]
fn format_duration_values() {
    assert_eq!(format_duration(Duration::from_secs(0)), "00:00:00");
    assert_eq!(format_duration(Duration::from_secs(3661)), "01:01:01");
    assert_eq!(format_duration(Duration::from_secs(86399)), "23:59:59");
    // the hour field grows past two digits
    assert_eq!(format_duration(Duration::from_secs(360000)), "100:00:00");
    // sub-second parts truncate
    assert_eq!(format_duration(Duration::from_nanos(1_999_999_999)), "00:00:01");
}

#[test]
fn countdown_state_keys() {
    let mut s = CountdownState::new(Countdown::new(Duration::from_secs(10), at(0)));
    assert!(!s.quit);
    s.handle_key(Key::Other, at(1));
    assert!(!s.quit);
    s.handle_key(Key::Space, at(secs(2)));
    assert!(s.countdown.is_paused());
    s.handle_key(Key::CharR, at(secs(3)));
    assert!(s.countdown.is_paused());
    assert_eq!(s.countdown.time_left(at(secs(3))).nanos, secs(10));
    s.handle_key(Key::CtrlC, at(secs(4)));
    assert!(s.quit);
}

#[test]
fn countdown_frame_running_paused_finished() {
    let t0 = at(0);
    let mut c = Countdown::new(Duration::from_secs(5), t0);
    // running, not finished: big digits only
    let ops = countdown::render_frame(&c, 80, 24, at(secs(1)));
    assert!(ops.texts.is_empty());
    assert!(!ops.cells.is_empty());

    // paused: a [PAUSE] line above the digits
    c.toggle_pause(at(secs(1)));
    let ops = countdown::render_frame(&c, 80, 24, at(secs(1)));
    assert_eq!(ops.texts.len(), 1);
    assert_eq!(ops.texts[0].x, 37);
    assert_eq!(ops.texts[0].y, 9);
    assert_eq!(ops.texts[0].text, "[PAUSE]");

    // finished: a [FINISHED] line
    let f = Countdown::new(Duration::from_secs(0), t0);
    let ops = countdown::render_frame(&f, 80, 24, at(secs(2)));
    assert_eq!(ops.texts.len(), 1);
    assert_eq!(ops.texts[0].x, 35);
    assert_eq!(ops.texts[0].text, "[FINISHED]");
}

#[test]
fn chrono_state_keys() {
    let mut s = ChronoState::new(at(0));
    s.handle_key(Key::CharL, at(secs(10)));
    s.handle_key(Key::CharL, at(secs(25)));
    assert_eq!(s.lapses.len(), 2);
    assert_eq!(s.lapses[1].delta.nanos, secs(15));

    s.handle_key(Key::Down, at(secs(26)));
    assert_eq!(s.scroll_offset, 1);
    s.handle_key(Key::PageDown, at(secs(26)));
    assert_eq!(s.scroll_offset, 2);
    s.handle_key(Key::Down, at(secs(26)));
    assert_eq!(s.scroll_offset, 2);
    s.handle_key(Key::Up, at(secs(26)));
    assert_eq!(s.scroll_offset, 1);
    s.handle_key(Key::PageUp, at(secs(26)));
    assert_eq!(s.scroll_offset, 0);

    s.handle_key(Key::Space, at(secs(30)));
    assert!(s.chronometer.is_paused());

    s.handle_key(Key::CharR, at(secs(31)));
    assert_eq!(s.lapses.len(), 0);
    assert!(s.chronometer.is_paused());
    assert_eq!(s.chronometer.elapsed(at(secs(31))).nanos, 0);

    s.handle_key(Key::CtrlC, at(secs(32)));
    assert!(s.quit);
}

#[test]
fn chrono_frame_shows_lap_lines() {
    let mut c = Chronometer::new();
    c.start(at(0));
    let mut laps: Vec<Lapse> = Vec::new();
    record_lap(&mut laps, Duration::from_secs(10));
    record_lap(&mut laps, Duration::from_secs(25));

    let mut offset: usize = 0;
    let ops = chrono::render_frame(&c, &laps, &mut offset, 80, 24, at(secs(30)));
    assert_eq!(offset, 0);
    assert_eq!(ops.texts.len(), 2);
    // latest lap first, numbered from the end of the list
    assert_eq!(ops.texts[0].text, "#02  --  +00:00:15  --  00:00:25");
    assert_eq!(ops.texts[0].x, 24);
    assert_eq!(ops.texts[0].y, 16);
    assert_eq!(ops.texts[1].text, "#01  --  +00:00:10  --  00:00:10");
    assert_eq!(ops.texts[1].y, 17);
}

#[test]
fn chrono_frame_clamps_offset_and_marks_pause() {
    let mut c = Chronometer::new();
    c.start(at(0));
    c.toggle_pause(at(secs(5)));
    let mut laps: Vec<Lapse> = Vec::new();
    for i in 1..=3u64 {
        record_lap(&mut laps, Duration::from_secs(10 * i));
    }
    // an offset far past the list is clamped to zero: three laps fit
    let mut offset: usize = 99;
    let ops = chrono::render_frame(&c, &laps, &mut offset, 80, 24, at(secs(30)));
    assert_eq!(offset, 0);
    // three lap lines plus the pause marker
    assert_eq!(ops.texts.len(), 4);
    let pause = &ops.texts[3];
    assert_eq!(pause.text, "[PAUSE]");
    assert_eq!(pause.x, 36);
    assert_eq!(pause.y, 14);
}

#[test]
fn clock_frame_places_date_under_time() {
    let ops = clock::render_frame("12:30", "2024-01-15", 80, 24);
    assert!(!ops.cells.is_empty());
    assert_eq!(ops.texts.len(), 1);
    assert_eq!(ops.texts[0].x, 35);
    assert_eq!(ops.texts[0].y, 15);
    assert_eq!(ops.texts[0].text, "2024-01-15");
}

#[test]
fn decimal_helpers() {
    assert_eq!(dec_str(0), "0");
    assert_eq!(dec_str(12345), "12345");
    assert_eq!(pad2_str(7), "07");
    assert_eq!(pad2_str(42), "42");
    assert_eq!(pad2_str(0), "00");
}

#[test]
fn frame_interval_from_fps() {
    let config = Config {
        be_polite: false,
        fps: 60,
        color: ComputableColor::from(Color::Ansi(1)),
        time_format: String::new(),
        date_format: String::new(),
    };
    assert_eq!(config.frame_interval_ms(), 16);
}
