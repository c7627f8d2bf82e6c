//! Colors and the cyclic color scheme the renderer reads one value from
//! per frame.
//!
//! A `Color` is a plain discriminated value: a terminal palette index
//! (0..=15), a 24-bit RGB triple, or an ANSI index (0..=255). The terminal
//! layer maps it to the device's own color type at the edge of the system.

use vstd::prelude::*;

verus! {

/// A single immutable color value.
#[derive(Clone, Copy, PartialEq, Eq, Structural, Debug)]
pub enum Color {
    /// Terminal palette index, valid range 0..=15.
    Term(u8),
    /// 24-bit red/green/blue triple.
    Rgb(u8, u8, u8),
    /// 256-value ANSI index.
    Ansi(u8),
}

/// Why a color specification was rejected.
#[derive(Clone, Copy, PartialEq, Eq, Structural, Debug)]
pub enum ColorError {
    /// A hex triple is neither three nor six digits long.
    BadLength,
    /// A character of a hex triple is not a hexadecimal digit.
    BadDigit,
    /// A terminal palette index outside 0..=15.
    BadIndex,
}

/// A non-empty ordered sequence of colors with a current position;
/// `update` advances the position cyclically, one step per frame. A single
/// static color is the length-1 degenerate case.
pub struct ComputableColor {
    pub values: Vec<Color>,
    pub current: usize,
}

/// The position one `update` step later.
pub open spec fn spec_next_index(cur: int, len: int) -> int {
    (cur + 1) % len
}

/// The position `n` update steps later.
pub open spec fn spec_index_after(cur: int, len: int, n: nat) -> int
    decreases n,
{
    if n == 0 {
        cur
    } else {
        spec_next_index(spec_index_after(cur, len, (n - 1) as nat), len)
    }
}

impl ComputableColor {
    /// The sequence is non-empty and the position points into it.
    pub open spec fn wf(self) -> bool {
        &&& self.values@.len() > 0
        &&& self.current < self.values@.len()
    }

    /// A single static color: the length-1 scheme.
    pub fn from(color: Color) -> (r: ComputableColor)
        ensures
            r.values@ =~= seq![color],
            r.current == 0,
            r.wf(),
    {
        ComputableColor { values: vec![color], current: 0 }
    }

    /// Advance one step, wrapping around at the end of the sequence.
    pub fn update(&mut self)
        requires
            old(self).wf(),
        ensures
            final(self).values@ == old(self).values@,
            final(self).current == spec_next_index(
                old(self).current as int,
                old(self).values@.len() as int,
            ),
            final(self).wf(),
    {
        let len = self.values.len();
        self.current = (self.current + 1) % len;
    }

    /// The color at the current position; a pure read.
    pub fn get_value(&self) -> (r: Color)
        requires
            self.wf(),
        ensures
            r == self.values@[self.current as int],
    {
        self.values[self.current]
    }

    /// How many colors the scheme cycles through.
    pub fn get_keys_count(&self) -> (r: usize)
        ensures
            r == self.values@.len(),
    {
        self.values.len()
    }
}

/// After `n` steps the position is the start shifted by `n`, modulo the
/// length.
pub proof fn lemma_index_after_is_modular(cur: int, len: int, n: nat)
    requires
        0 <= cur < len,
    ensures
        spec_index_after(cur, len, n) == (cur + n) % len,
    decreases n,
{
    if n == 0 {
        vstd::arithmetic::div_mod::lemma_small_mod(cur as nat, len as nat);
    } else {
        lemma_index_after_is_modular(cur, len, (n - 1) as nat);
        vstd::arithmetic::div_mod::lemma_add_mod_noop(cur + n - 1, 1, len);
        if len == 1 {
            vstd::arithmetic::div_mod::lemma_mod_self_0(len);
        } else {
            vstd::arithmetic::div_mod::lemma_small_mod(1nat, len as nat);
        }
        vstd::arithmetic::div_mod::lemma_mod_twice(cur + n - 1, len);
    }
}

/// Cyclic color advance: for a scheme of length `k`, exactly `k` update
/// steps return the position — and with it the current value — to where it
/// started.
pub proof fn lemma_update_cycle(cur: int, len: int)
    requires
        0 <= cur < len,
    ensures
        spec_index_after(cur, len, len as nat) == cur,
{
    lemma_index_after_is_modular(cur, len, len as nat);
    vstd::arithmetic::div_mod::lemma_mod_multiples_vanish(1, cur, len);
    vstd::arithmetic::div_mod::lemma_small_mod(cur as nat, len as nat);
}

pub open spec fn is_hex_digit(c: char) -> bool {
    ||| '0' as u32 <= c as u32 && c as u32 <= '9' as u32
    ||| 'a' as u32 <= c as u32 && c as u32 <= 'f' as u32
    ||| 'A' as u32 <= c as u32 && c as u32 <= 'F' as u32
}

pub open spec fn hex_digit_value(c: char) -> int {
    if '0' as u32 <= c as u32 && c as u32 <= '9' as u32 {
        c as u32 - '0' as u32
    } else if 'a' as u32 <= c as u32 && c as u32 <= 'f' as u32 {
        c as u32 - 'a' as u32 + 10
    } else {
        c as u32 - 'A' as u32 + 10
    }
}

/// Three-digit shorthand expands each hex digit by duplication
/// ("abc" becomes "aabbcc"); anything else stands as written.
pub open spec fn expanded_hex(s: Seq<char>) -> Seq<char> {
    if s.len() == 3 {
        seq![s[0], s[0], s[1], s[1], s[2], s[2]]
    } else {
        s
    }
}

/// Exactly six hex digits after shorthand expansion.
pub open spec fn valid_hex_color(s: Seq<char>) -> bool {
    &&& expanded_hex(s).len() == 6
    &&& forall|i: int| 0 <= i < 6 ==> is_hex_digit(#[trigger] expanded_hex(s)[i])
}

/// Channel `k` (0 red, 1 green, 2 blue) of a valid hex triple.
pub open spec fn hex_channel(s: Seq<char>, k: int) -> int {
    16 * hex_digit_value(expanded_hex(s)[2 * k]) + hex_digit_value(expanded_hex(s)[2 * k + 1])
}

/// The numeric value of one hex digit, or `None` for any other character.
fn hex_digit_of(c: char) -> (r: Option<u8>)
    ensures
        r is Some <==> is_hex_digit(c),
        r matches Some(v) ==> v == hex_digit_value(c) && v <= 15,
{
    let u = c as u32;
    if '0' as u32 <= u && u <= '9' as u32 {
        Some((u - '0' as u32) as u8)
    } else if 'a' as u32 <= u && u <= 'f' as u32 {
        Some((u - 'a' as u32 + 10) as u8)
    } else if 'A' as u32 <= u && u <= 'F' as u32 {
        Some((u - 'A' as u32 + 10) as u8)
    } else {
        None
    }
}

/// Parse a hex color triple, accepting the three-digit shorthand. Rejects
/// a length other than three or six with `BadLength`, then any character
/// that is not a hex digit with `BadDigit`.
pub fn parse_hex_color(value: &str) -> (r: Result<(u8, u8, u8), ColorError>)
    ensures
        !(value@.len() == 3 || value@.len() == 6) ==> r == Err::<(u8, u8, u8), ColorError>(
            ColorError::BadLength,
        ),
        (value@.len() == 3 || value@.len() == 6) && !valid_hex_color(value@) ==> r == Err::<
            (u8, u8, u8),
            ColorError,
        >(ColorError::BadDigit),
        valid_hex_color(value@) ==> (r matches Ok(t) && t.0 == hex_channel(value@, 0) && t.1
            == hex_channel(value@, 1) && t.2 == hex_channel(value@, 2)),
{
    let len = value.unicode_len();
    if len != 3 && len != 6 {
        return Err(ColorError::BadLength);
    }
    let (c0, c1, c2, c3, c4, c5) = if len == 3 {
        let a = value.get_char(0);
        let b = value.get_char(1);
        let c = value.get_char(2);
        (a, a, b, b, c, c)
    } else {
        (
            value.get_char(0),
            value.get_char(1),
            value.get_char(2),
            value.get_char(3),
            value.get_char(4),
            value.get_char(5),
        )
    };
    let d0 = match hex_digit_of(c0) {
        Some(d) => d,
        None => { return Err(ColorError::BadDigit) },
    };
    let d1 = match hex_digit_of(c1) {
        Some(d) => d,
        None => { return Err(ColorError::BadDigit) },
    };
    let d2 = match hex_digit_of(c2) {
        Some(d) => d,
        None => { return Err(ColorError::BadDigit) },
    };
    let d3 = match hex_digit_of(c3) {
        Some(d) => d,
        None => { return Err(ColorError::BadDigit) },
    };
    let d4 = match hex_digit_of(c4) {
        Some(d) => d,
        None => { return Err(ColorError::BadDigit) },
    };
    let d5 = match hex_digit_of(c5) {
        Some(d) => d,
        None => { return Err(ColorError::BadDigit) },
    };
    Ok((16 * d0 + d1, 16 * d2 + d3, 16 * d4 + d5))
}

/// A color from a terminal palette index; only 0..=15 name a palette
/// entry.
pub fn load_term_color(value: u8) -> (r: Result<Color, ColorError>)
    ensures
        value <= 15 ==> r == Ok::<Color, ColorError>(Color::Term(value)),
        value > 15 ==> r == Err::<Color, ColorError>(ColorError::BadIndex),
{
    if value <= 15 {
        Ok(Color::Term(value))
    } else {
        Err(ColorError::BadIndex)
    }
}

/// A color from a hex triple, via `parse_hex_color`.
pub fn load_hex_color(value: &str) -> (r: Result<Color, ColorError>)
    ensures
        !(value@.len() == 3 || value@.len() == 6) ==> r == Err::<Color, ColorError>(
            ColorError::BadLength,
        ),
        (value@.len() == 3 || value@.len() == 6) && !valid_hex_color(value@) ==> r == Err::<
            Color,
            ColorError,
        >(ColorError::BadDigit),
        valid_hex_color(value@) ==> (r matches Ok(c) && c matches Color::Rgb(rr, gg, bb) && rr
            == hex_channel(value@, 0) && gg == hex_channel(value@, 1) && bb == hex_channel(
            value@,
            2,
        )),
{
    match parse_hex_color(value) {
        Ok(rgb) => Ok(Color::Rgb(rgb.0, rgb.1, rgb.2)),
        Err(e) => Err(e),
    }
}

/// A color from a raw ANSI index; every index is valid.
pub fn load_ansi_color(value: u8) -> (r: Color)
    ensures
        r == Color::Ansi(value),
{
    Color::Ansi(value)
}

} // verus!
