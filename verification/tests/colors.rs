//! Tests of the color engine: hex parsing, indexed color loading, the
//! cyclic scheme, and gradient generation.

use tlock::color::{
    load_ansi_color, load_hex_color, load_term_color, parse_hex_color, Color, ColorError,
    ComputableColor,
};
use tlock::gradient::{extend_gradient_loop, generate_gradient, lerp};

#[test]
fn hex_color_six_digits() {
    assert_eq!(parse_hex_color("ff8000"), Ok((0xff, 0x80, 0x00)));
    assert_eq!(parse_hex_color("AABBCC"), Ok((0xaa, 0xbb, 0xcc)));
    assert_eq!(parse_hex_color("000000"), Ok((0, 0, 0)));
    assert_eq!(parse_hex_color("FFFFFF"), Ok((255, 255, 255)));
}

#[test]
fn hex_color_shorthand_expands_by_duplication() {
    assert_eq!(parse_hex_color("abc"), Ok((0xaa, 0xbb, 0xcc)));
    assert_eq!(parse_hex_color("f80"), Ok((0xff, 0x88, 0x00)));
}

#[test]
fn hex_color_rejects_bad_input() {
    assert_eq!(parse_hex_color(""), Err(ColorError::BadLength));
    assert_eq!(parse_hex_color("ab"), Err(ColorError::BadLength));
    assert_eq!(parse_hex_color("abcd"), Err(ColorError::BadLength));
    assert_eq!(parse_hex_color("abcdefa"), Err(ColorError::BadLength));
    assert_eq!(parse_hex_color("ggg"), Err(ColorError::BadDigit));
    assert_eq!(parse_hex_color("12g45f"), Err(ColorError::BadDigit));
}

#[test]
fn term_color_index_range() {
    assert_eq!(load_term_color(0), Ok(Color::Term(0)));
    assert_eq!(load_term_color(15), Ok(Color::Term(15)));
    assert_eq!(load_term_color(16), Err(ColorError::BadIndex));
    assert_eq!(load_term_color(255), Err(ColorError::BadIndex));
}

#[test]
fn hex_and_ansi_loaders() {
    assert_eq!(load_hex_color("abc"), Ok(Color::Rgb(0xaa, 0xbb, 0xcc)));
    assert_eq!(load_hex_color("zzz"), Err(ColorError::BadDigit));
    assert_eq!(load_ansi_color(200), Color::Ansi(200));
}

#[test]
fn single_color_scheme() {
    let mut c = ComputableColor::from(Color::Ansi(7));
    assert_eq!(c.get_keys_count(), 1);
    assert_eq!(c.get_value(), Color::Ansi(7));
    c.update();
    assert_eq!(c.get_value(), Color::Ansi(7));
}

#[test]
fn cyclic_advance_returns_after_k_updates() {
    let values = vec![Color::Ansi(1), Color::Ansi(2), Color::Ansi(3)];
    let mut c = ComputableColor { values, current: 0 };
    let original = c.get_value();
    let k = c.get_keys_count();
    let mut seen = Vec::new();
    for _ in 0..k {
        seen.push(c.get_value());
        c.update();
    }
    // after exactly k updates the value is back to the original
    assert_eq!(c.get_value(), original);
    assert_eq!(seen, vec![Color::Ansi(1), Color::Ansi(2), Color::Ansi(3)]);
}

#[test]
fn lerp_exact_values() {
    assert_eq!(lerp(0, 100, 5, 10), 50);
    assert_eq!(lerp(0, 100, 10, 10), 100);
    assert_eq!(lerp(100, 0, 5, 10), 50);
    assert_eq!(lerp(10, 10, 3, 7), 10);
    // rounding is toward the floor of a + (b - a) * i / n
    assert_eq!(lerp(0, 1, 1, 2), 0);
    assert_eq!(lerp(1, 0, 1, 2), 0);
}

#[test]
fn gradient_single_key_yields_static_color() {
    let g = generate_gradient(vec![(1, 2, 3)], 40);
    assert_eq!(g.get_keys_count(), 1);
    assert_eq!(g.get_value(), Color::Rgb(1, 2, 3));
}

#[test]
fn gradient_zero_steps_yields_static_color() {
    let g = generate_gradient(vec![(9, 9, 9), (0, 0, 0)], 0);
    assert_eq!(g.get_keys_count(), 1);
    assert_eq!(g.get_value(), Color::Rgb(9, 9, 9));
}

#[test]
fn gradient_fewer_steps_than_segments_yields_static_color() {
    let g = generate_gradient(vec![(1, 1, 1), (2, 2, 2), (3, 3, 3)], 1);
    assert_eq!(g.get_keys_count(), 1);
    assert_eq!(g.get_value(), Color::Rgb(1, 1, 1));
}

#[test]
fn gradient_two_keys_interpolates_monotonically() {
    let mut g = generate_gradient(vec![(0, 0, 0), (100, 200, 50)], 10);
    assert_eq!(g.get_keys_count(), 10);
    let mut prev: Option<(u8, u8, u8)> = None;
    for i in 0..10 {
        let v = g.get_value();
        match v {
            Color::Rgb(r, gg, b) => {
                assert_eq!((r, gg, b), (10 * (i + 1), 20 * (i + 1), 5 * (i + 1)));
                if let Some((pr, pg, pb)) = prev {
                    assert!(pr <= r && pg <= gg && pb <= b);
                }
                prev = Some((r, gg, b));
            },
            _ => panic!("gradient entries are RGB"),
        }
        g.update();
    }
    // the last entry lands exactly on the second key
    assert_eq!(prev, Some((100, 200, 50)));
    // and the scheme has cycled back to its first entry
    assert_eq!(g.get_value(), Color::Rgb(10, 20, 5));
}

#[test]
fn gradient_descending_channels() {
    let g = generate_gradient(vec![(10, 10, 10), (0, 0, 0)], 5);
    assert_eq!(g.get_keys_count(), 5);
    let mut c = g;
    for i in 0..5u8 {
        assert_eq!(c.get_value(), Color::Rgb(10 - 2 * (i + 1), 10 - 2 * (i + 1), 10 - 2 * (i + 1)));
        c.update();
    }
}

#[test]
fn gradient_loop_extension_is_a_palindrome() {
    let mut keys = vec![(1, 0, 0), (2, 0, 0), (3, 0, 0)];
    extend_gradient_loop(&mut keys);
    assert_eq!(keys, vec![(1, 0, 0), (2, 0, 0), (3, 0, 0), (2, 0, 0), (1, 0, 0)]);

    let mut single = vec![(5, 5, 5)];
    extend_gradient_loop(&mut single);
    assert_eq!(single, vec![(5, 5, 5)]);
}
