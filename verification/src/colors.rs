//! The standard color palette of the widget set.
//!
//! A color holds four fixed-point channels — red, green, blue, alpha — each
//! an integer number of millionths: `1_000_000` is full intensity.  Keeping
//! channels integral lets every color computation in this crate be exact.

use vstd::arithmetic::div_mod::{lemma_div_is_ordered, lemma_div_pos_is_pos};
use vstd::prelude::*;
use vstd::string::StringSliceAdditionalSpecFns;

verus! {

/// Full intensity of a color channel.
pub const COLOR_ONE: u32 = 1_000_000;

/// An sRGB color with alpha, each channel in `0 ..= COLOR_ONE`.
#[derive(Clone, Copy, Debug, PartialEq, Eq, Structural)]
pub struct Color {
    pub red: u32,
    pub green: u32,
    pub blue: u32,
    pub alpha: u32,
}

impl Color {
    /// All channels within full intensity.
    pub open spec fn wf(self) -> bool {
        self.red <= COLOR_ONE && self.green <= COLOR_ONE && self.blue <= COLOR_ONE && self.alpha
            <= COLOR_ONE
    }

    /// A color from its four channels.
    pub fn rgba(red: u32, green: u32, blue: u32, alpha: u32) -> (c: Color)
        ensures
            c == (Color { red, green, blue, alpha }),
    {
        Color { red, green, blue, alpha }
    }

    /// The same color with another alpha channel.
    pub fn with_alpha(self, alpha: u32) -> (c: Color)
        ensures
            c == (Color { alpha, ..self }),
    {
        Color { alpha, ..self }
    }

    /// The channels as a property value, in the order red, green, blue,
    /// alpha — the channel layout animated background colors use.
    pub fn channels(&self) -> (r: Vec<u32>)
        ensures
            r@ == seq![self.red, self.green, self.blue, self.alpha],
    {
        let mut r: Vec<u32> = Vec::new();
        r.push(self.red);
        r.push(self.green);
        r.push(self.blue);
        r.push(self.alpha);
        proof {
            assert(r@ =~= seq![self.red, self.green, self.blue, self.alpha]);
        }
        r
    }
}

/// The ASCII byte `#`.
pub const BYTE_HASH: u8 = 35;

/// The ASCII byte `0`.
pub const BYTE_0: u8 = 48;

/// The ASCII byte `9`.
pub const BYTE_9: u8 = 57;

/// The ASCII byte `a`.
pub const BYTE_LOWER_A: u8 = 97;

/// The ASCII byte `f`.
pub const BYTE_LOWER_F: u8 = 102;

/// The ASCII byte `A`.
pub const BYTE_UPPER_A: u8 = 65;

/// The ASCII byte `F`.
pub const BYTE_UPPER_F: u8 = 70;

/// An ASCII hexadecimal digit.
pub open spec fn is_hex_digit(b: u8) -> bool {
    (BYTE_0 <= b && b <= BYTE_9) || (BYTE_LOWER_A <= b && b <= BYTE_LOWER_F) || (BYTE_UPPER_A <= b && b <= BYTE_UPPER_F)
}

/// The value of a hexadecimal digit.
pub open spec fn hex_digit_value(b: u8) -> int {
    if BYTE_0 <= b && b <= BYTE_9 {
        b - BYTE_0
    } else if BYTE_LOWER_A <= b && b <= BYTE_LOWER_F {
        b - BYTE_LOWER_A + 10
    } else {
        b - BYTE_UPPER_A + 10
    }
}

/// The digits of a hex color literal: everything after an optional
/// leading `#`.
pub open spec fn hex_body(bs: Seq<u8>) -> Seq<u8> {
    if bs.len() > 0 && bs[0] == BYTE_HASH {
        bs.drop_first()
    } else {
        bs
    }
}

/// A valid hex color literal: three, four, six or eight hexadecimal
/// digits after an optional leading `#` — `rgb`, `rgba`, `rrggbb` or
/// `rrggbbaa`.
pub open spec fn hex_valid(bs: Seq<u8>) -> bool {
    let body = hex_body(bs);
    &&& (body.len() == 3 || body.len() == 4 || body.len() == 6 || body.len() == 8)
    &&& forall|i: int| 0 <= i < body.len() ==> is_hex_digit(#[trigger] body[i])
}

/// The eight-bit channel a single digit of the short forms stands for:
/// the digit doubled, `f` meaning `ff`.
pub open spec fn hex_short_byte(d: u8) -> int {
    17 * hex_digit_value(d)
}

/// The eight-bit channel a digit pair stands for.
pub open spec fn hex_pair_byte(hi: u8, lo: u8) -> int {
    16 * hex_digit_value(hi) + hex_digit_value(lo)
}

/// An eight-bit channel scaled to fixed point: `v / 255` in millionths,
/// rounded down, so that `0` maps to `0` and `255` to full intensity
/// exactly.
pub open spec fn micro_of_byte(v: int) -> int {
    v * 1_000_000 / 255
}

/// The color a valid hex body denotes; the short forms carry no alpha
/// digits and mean full alpha.
pub open spec fn hex_body_color(body: Seq<u8>) -> Color {
    if body.len() == 3 {
        Color {
            red: micro_of_byte(hex_short_byte(body[0])) as u32,
            green: micro_of_byte(hex_short_byte(body[1])) as u32,
            blue: micro_of_byte(hex_short_byte(body[2])) as u32,
            alpha: COLOR_ONE,
        }
    } else if body.len() == 4 {
        Color {
            red: micro_of_byte(hex_short_byte(body[0])) as u32,
            green: micro_of_byte(hex_short_byte(body[1])) as u32,
            blue: micro_of_byte(hex_short_byte(body[2])) as u32,
            alpha: micro_of_byte(hex_short_byte(body[3])) as u32,
        }
    } else if body.len() == 6 {
        Color {
            red: micro_of_byte(hex_pair_byte(body[0], body[1])) as u32,
            green: micro_of_byte(hex_pair_byte(body[2], body[3])) as u32,
            blue: micro_of_byte(hex_pair_byte(body[4], body[5])) as u32,
            alpha: COLOR_ONE,
        }
    } else {
        Color {
            red: micro_of_byte(hex_pair_byte(body[0], body[1])) as u32,
            green: micro_of_byte(hex_pair_byte(body[2], body[3])) as u32,
            blue: micro_of_byte(hex_pair_byte(body[4], body[5])) as u32,
            alpha: micro_of_byte(hex_pair_byte(body[6], body[7])) as u32,
        }
    }
}

/// The color a valid hex literal denotes.
pub open spec fn hex_color_spec(bs: Seq<u8>) -> Color {
    hex_body_color(hex_body(bs))
}

fn hex_digit(b: u8) -> (r: Option<u8>)
    ensures
        match r {
            Option::Some(v) => is_hex_digit(b) && v as int == hex_digit_value(b) && v < 16,
            Option::None => !is_hex_digit(b),
        },
{
    if b >= BYTE_0 && b <= BYTE_9 {
        Option::Some(b - BYTE_0)
    } else if b >= BYTE_LOWER_A && b <= BYTE_LOWER_F {
        Option::Some(b - BYTE_LOWER_A + 10)
    } else if b >= BYTE_UPPER_A && b <= BYTE_UPPER_F {
        Option::Some(b - BYTE_UPPER_A + 10)
    } else {
        Option::None
    }
}

fn micro_channel(v: u8) -> (r: u32)
    ensures
        r as int == micro_of_byte(v as int),
        r <= COLOR_ONE,
{
    proof {
        lemma_div_pos_is_pos(v as int * 1_000_000, 255);
        lemma_div_is_ordered(v as int * 1_000_000, 255_000_000, 255);
        assert(255_000_000int / 255 == 1_000_000int);
    }
    (v as u32) * 1_000_000 / 255
}

/// Parse a hex color literal — `rgb`, `rgba`, `rrggbb` or `rrggbbaa`
/// digits after an optional leading `#` — into a color; any other string
/// yields nothing.
pub fn parse_hex_color(s: &str) -> (r: Option<Color>)
    ensures
        r is Some <==> hex_valid(s.spec_bytes()),
        match r {
            Option::Some(c) => c == hex_color_spec(s.spec_bytes()) && c.wf(),
            Option::None => true,
        },
{
    let bs = s.as_bytes();
    let n = bs.len();
    let start: usize = if n > 0 && bs[0] == BYTE_HASH {
        1
    } else {
        0
    };
    let ghost body = hex_body(s.spec_bytes());
    proof {
        assert(body.len() == n - start);
        assert(forall|j: int| 0 <= j < body.len() ==> #[trigger] body[j] == bs@[start + j]);
    }
    let m = n - start;
    if !(m == 3 || m == 4 || m == 6 || m == 8) {
        return Option::None;
    }
    let mut vals: Vec<u8> = Vec::new();
    let mut i: usize = start;
    while i < n
        invariant
            start <= i <= n,
            n == bs@.len(),
            bs@ == s.spec_bytes(),
            body == hex_body(bs@),
            body.len() == n - start,
            forall|j: int| 0 <= j < body.len() ==> #[trigger] body[j] == bs@[start + j],
            vals@.len() == i - start,
            forall|j: int|
                0 <= j < vals@.len() ==> (#[trigger] vals@[j]) < 16 && is_hex_digit(body[j])
                    && vals@[j] as int == hex_digit_value(body[j]),
        decreases n - i,
    {
        match hex_digit(bs[i]) {
            Option::Some(v) => {
                vals.push(v);
            },
            Option::None => {
                proof {
                    assert(body[i - start] == bs@[start + (i - start)]);
                    assert(!is_hex_digit(hex_body(s.spec_bytes())[i - start]));
                }
                return Option::None;
            },
        }
        i = i + 1;
    }
    proof {
        assert forall|j: int| 0 <= j < body.len() implies is_hex_digit(#[trigger] body[j])
            && hex_digit_value(body[j]) == vals@[j] as int by {
            assert(vals@[j] < 16);
        }
        assert(hex_valid(s.spec_bytes()));
    }
    let c = if m == 3 {
        Color {
            red: micro_channel(17 * vals[0]),
            green: micro_channel(17 * vals[1]),
            blue: micro_channel(17 * vals[2]),
            alpha: COLOR_ONE,
        }
    } else if m == 4 {
        Color {
            red: micro_channel(17 * vals[0]),
            green: micro_channel(17 * vals[1]),
            blue: micro_channel(17 * vals[2]),
            alpha: micro_channel(17 * vals[3]),
        }
    } else if m == 6 {
        Color {
            red: micro_channel(16 * vals[0] + vals[1]),
            green: micro_channel(16 * vals[2] + vals[3]),
            blue: micro_channel(16 * vals[4] + vals[5]),
            alpha: COLOR_ONE,
        }
    } else {
        Color {
            red: micro_channel(16 * vals[0] + vals[1]),
            green: micro_channel(16 * vals[2] + vals[3]),
            blue: micro_channel(16 * vals[4] + vals[5]),
            alpha: micro_channel(16 * vals[6] + vals[7]),
        }
    };
    proof {
        assert(c == hex_color_spec(s.spec_bytes()));
    }
    Option::Some(c)
}

/// Window and panel background.
pub fn background() -> (c: Color)
    ensures
        c == (Color { red: 118_000, green: 118_000, blue: 133_000, alpha: COLOR_ONE }),
{
    Color { red: 118_000, green: 118_000, blue: 133_000, alpha: COLOR_ONE }
}

/// Default text color.
pub fn foreground() -> (c: Color)
    ensures
        c == (Color { red: 925_000, green: 925_000, blue: 925_000, alpha: COLOR_ONE }),
{
    Color { red: 925_000, green: 925_000, blue: 925_000, alpha: COLOR_ONE }
}

/// Darkest gray of the ramp.
pub fn gray_050() -> (c: Color)
    ensures
        c == (Color { red: 106_000, green: 106_000, blue: 110_000, alpha: COLOR_ONE }),
{
    Color { red: 106_000, green: 106_000, blue: 110_000, alpha: COLOR_ONE }
}

/// Dark gray, one step up the ramp.
pub fn gray_100() -> (c: Color)
    ensures
        c == (Color { red: 118_000, green: 118_000, blue: 122_000, alpha: COLOR_ONE }),
{
    Color { red: 118_000, green: 118_000, blue: 122_000, alpha: COLOR_ONE }
}

/// Gray used for subtle borders between panels.
pub fn gray_150() -> (c: Color)
    ensures
        c == (Color { red: 137_000, green: 137_000, blue: 149_000, alpha: COLOR_ONE }),
{
    Color { red: 137_000, green: 137_000, blue: 149_000, alpha: COLOR_ONE }
}

/// Mid gray for raised surfaces.
pub fn gray_200() -> (c: Color)
    ensures
        c == (Color { red: 169_000, green: 173_000, blue: 184_000, alpha: COLOR_ONE }),
{
    Color { red: 169_000, green: 173_000, blue: 184_000, alpha: COLOR_ONE }
}

/// Lighter mid gray.
pub fn gray_250() -> (c: Color)
    ensures
        c == (Color { red: 220_000, green: 220_000, blue: 220_000, alpha: COLOR_ONE }),
{
    Color { red: 220_000, green: 220_000, blue: 220_000, alpha: COLOR_ONE }
}

/// Lightest gray of the ramp.
pub fn gray_300() -> (c: Color)
    ensures
        c == (Color { red: 271_000, green: 271_000, blue: 271_000, alpha: COLOR_ONE }),
{
    Color { red: 271_000, green: 271_000, blue: 271_000, alpha: COLOR_ONE }
}

/// Accent color for focused and selected widgets.
pub fn accent() -> (c: Color)
    ensures
        c == (Color { red: 55_000, green: 647_000, blue: 914_000, alpha: COLOR_ONE }),
{
    Color { red: 55_000, green: 647_000, blue: 914_000, alpha: COLOR_ONE }
}

/// Primary action color.
pub fn primary() -> (c: Color)
    ensures
        c == (Color { red: 341_000, green: 435_000, blue: 525_000, alpha: COLOR_ONE }),
{
    Color { red: 341_000, green: 435_000, blue: 525_000, alpha: COLOR_ONE }
}

/// Accented variant of the primary action color.
pub fn primary_acc() -> (c: Color)
    ensures
        c == (Color { red: 475_000, green: 604_000, blue: 733_000, alpha: COLOR_ONE }),
{
    Color { red: 475_000, green: 604_000, blue: 733_000, alpha: COLOR_ONE }
}

/// Color for destructive actions.
pub fn destructive() -> (c: Color)
    ensures
        c == (Color { red: 525_000, green: 341_000, blue: 404_000, alpha: COLOR_ONE }),
{
    Color { red: 525_000, green: 341_000, blue: 404_000, alpha: COLOR_ONE }
}

/// Accented variant of the destructive action color.
pub fn destructive_acc() -> (c: Color)
    ensures
        c == (Color { red: 733_000, green: 475_000, blue: 612_000, alpha: COLOR_ONE }),
{
    Color { red: 733_000, green: 475_000, blue: 612_000, alpha: COLOR_ONE }
}

} // verus!
