//! The bar's own vocabulary: which monitor edge it sits on, the orientation
//! that edge implies, its colors, and the immutable per-bar configuration.

use vstd::prelude::*;
use vstd::string::StrSliceExecFns;
use vstd::string::StringExecFns;

verus! {

/// The monitor edge a bar is docked to.
#[derive(Debug, Clone, Copy, PartialEq, Eq, Structural)]
pub enum Position {
    Left,
    Right,
    Top,
    Bottom,
}

/// The direction a bar extends in: a bar on a left or right edge is a
/// vertical strip, one on a top or bottom edge a horizontal strip.
#[derive(Debug, Clone, Copy, PartialEq, Eq, Structural)]
pub enum Orientation {
    Horizontal,
    Vertical,
}

impl Position {
    /// The orientation of a bar docked to this edge.
    pub fn orientation(&self) -> (o: Orientation)
        ensures
            o == self.spec_orientation(),
    {
        if matches!(self, Position::Left | Position::Right) {
            Orientation::Vertical
        } else {
            Orientation::Horizontal
        }
    }

    pub open spec fn spec_orientation(self) -> Orientation {
        match self {
            Position::Left | Position::Right => Orientation::Vertical,
            Position::Top | Position::Bottom => Orientation::Horizontal,
        }
    }
}

/// An opaque 8-bit-per-channel RGB color.
#[derive(Debug, Clone, Copy, PartialEq, Eq, Structural)]
pub struct Color {
    pub r: u8,
    pub g: u8,
    pub b: u8,
}

/// The immutable configuration of one bar, fixed at construction.
#[derive(Debug, Clone, PartialEq)]
pub struct Config {
    pub monitor: usize,
    pub title: String,
    pub position: Position,
    pub size: u16,
    pub background: Color,
    pub text: Color,
    pub text_secondary: Color,
}

/// The window-system protocols a bar can be run under.
#[derive(Debug, Clone, PartialEq, Eq, Structural)]
pub enum Protocol {
    X11,
}

/// Whether `c` is a hexadecimal digit, in either case.
pub open spec fn is_hex_digit(c: char) -> bool {
    ||| '0' as u32 <= c as u32 <= '9' as u32
    ||| 'a' as u32 <= c as u32 <= 'f' as u32
    ||| 'A' as u32 <= c as u32 <= 'F' as u32
}

/// The value of the hexadecimal digit `c`.
pub open spec fn hex_digit_val(c: char) -> nat
    recommends
        is_hex_digit(c),
{
    if '0' as u32 <= c as u32 <= '9' as u32 {
        (c as u32 - '0' as u32) as nat
    } else if 'a' as u32 <= c as u32 <= 'f' as u32 {
        (c as u32 - 'a' as u32 + 10) as nat
    } else {
        (c as u32 - 'A' as u32 + 10) as nat
    }
}

/// A well-formed color code: a `#` followed by at least six hexadecimal
/// digits. Characters past the seventh are ignored.
pub open spec fn color_code_valid(s: Seq<char>) -> bool {
    &&& s.len() >= 7
    &&& s[0] == '#'
    &&& forall|i: int| 1 <= i < 7 ==> is_hex_digit(#[trigger] s[i])
}

/// The color a well-formed code denotes: two digits per channel, red then
/// green then blue.
pub open spec fn color_of_code(s: Seq<char>) -> Color
    recommends
        color_code_valid(s),
{
    Color {
        r: (hex_digit_val(s[1]) * 16 + hex_digit_val(s[2])) as u8,
        g: (hex_digit_val(s[3]) * 16 + hex_digit_val(s[4])) as u8,
        b: (hex_digit_val(s[5]) * 16 + hex_digit_val(s[6])) as u8,
    }
}

/// The value of `c` as a hexadecimal digit, or `None` when it is no digit.
fn hex_digit(c: char) -> (r: Option<u8>)
    ensures
        r is Some <==> is_hex_digit(c),
        is_hex_digit(c) ==> r == Some(hex_digit_val(c) as u8),
{
    let u = c as u32;
    if 48 <= u && u <= 57 {
        Some((u - 48) as u8)
    } else if 97 <= u && u <= 102 {
        Some((u - 97 + 10) as u8)
    } else if 65 <= u && u <= 70 {
        Some((u - 65 + 10) as u8)
    } else {
        None
    }
}

/// Parse a color code of the form `#RRGGBB` (either case of digit accepted,
/// trailing characters ignored). Returns `Some` exactly on well-formed
/// codes, and then the denoted color.
pub fn parse_color(s: &str) -> (r: Option<Color>)
    ensures
        r is Some <==> color_code_valid(s@),
        color_code_valid(s@) ==> r == Some(color_of_code(s@)),
{
    if s.unicode_len() < 7 {
        return None;
    }
    if s.get_char(0) != '#' {
        return None;
    }
    let d1 = hex_digit(s.get_char(1));
    let d2 = hex_digit(s.get_char(2));
    let d3 = hex_digit(s.get_char(3));
    let d4 = hex_digit(s.get_char(4));
    let d5 = hex_digit(s.get_char(5));
    let d6 = hex_digit(s.get_char(6));
    match (d1, d2, d3, d4, d5, d6) {
        (Some(h1), Some(h2), Some(h3), Some(h4), Some(h5), Some(h6)) => Some(
            Color { r: h1 * 16 + h2, g: h3 * 16 + h4, b: h5 * 16 + h6 },
        ),
        _ => None,
    }
}

/// The upper-case hexadecimal digit character for a value below sixteen.
pub open spec fn hex_digit_char(d: nat) -> char {
    if d == 0 {
        '0'
    } else if d == 1 {
        '1'
    } else if d == 2 {
        '2'
    } else if d == 3 {
        '3'
    } else if d == 4 {
        '4'
    } else if d == 5 {
        '5'
    } else if d == 6 {
        '6'
    } else if d == 7 {
        '7'
    } else if d == 8 {
        '8'
    } else if d == 9 {
        '9'
    } else if d == 10 {
        'A'
    } else if d == 11 {
        'B'
    } else if d == 12 {
        'C'
    } else if d == 13 {
        'D'
    } else if d == 14 {
        'E'
    } else {
        'F'
    }
}

/// The two upper-case hexadecimal digits of a byte.
pub open spec fn byte_hex(b: u8) -> Seq<char> {
    seq![hex_digit_char(b as nat / 16), hex_digit_char(b as nat % 16)]
}

/// The canonical code of a color: `#` and six upper-case hexadecimal
/// digits.
pub open spec fn color_code(c: Color) -> Seq<char> {
    seq!['#'] + byte_hex(c.r) + byte_hex(c.g) + byte_hex(c.b)
}

fn hex_digit_str(d: u8) -> (r: &'static str)
    requires
        d < 16,
    ensures
        r@ == seq![hex_digit_char(d as nat)],
{
    let r: &'static str = match d {
        0 => "0",
        1 => "1",
        2 => "2",
        3 => "3",
        4 => "4",
        5 => "5",
        6 => "6",
        7 => "7",
        8 => "8",
        9 => "9",
        10 => "A",
        11 => "B",
        12 => "C",
        13 => "D",
        14 => "E",
        _ => "F",
    };
    proof {
        reveal_strlit("0");
        reveal_strlit("1");
        reveal_strlit("2");
        reveal_strlit("3");
        reveal_strlit("4");
        reveal_strlit("5");
        reveal_strlit("6");
        reveal_strlit("7");
        reveal_strlit("8");
        reveal_strlit("9");
        reveal_strlit("A");
        reveal_strlit("B");
        reveal_strlit("C");
        reveal_strlit("D");
        reveal_strlit("E");
        reveal_strlit("F");
        assert(r@ =~= seq![hex_digit_char(d as nat)]);
    }
    r
}

/// Format a color as its canonical `#RRGGBB` code.
pub fn color_hex(c: &Color) -> (r: String)
    ensures
        r@ == color_code(*c),
{
    let mut r = String::from_str("#");
    r.append(hex_digit_str(c.r / 16));
    r.append(hex_digit_str(c.r % 16));
    r.append(hex_digit_str(c.g / 16));
    r.append(hex_digit_str(c.g % 16));
    r.append(hex_digit_str(c.b / 16));
    r.append(hex_digit_str(c.b % 16));
    proof {
        reveal_strlit("#");
        assert(r@ =~= color_code(*c));
    }
    r
}

/// Formatting a color and parsing the result gives the color back: the
/// canonical code is well-formed and denotes the color it was built from.
pub proof fn lemma_color_code_round_trip(c: Color)
    ensures
        color_code_valid(color_code(c)),
        color_of_code(color_code(c)) == c,
{
    let s = color_code(c);
    assert forall|i: int| 1 <= i < 7 implies is_hex_digit(#[trigger] s[i]) by {
        lemma_hex_digit_char_inverts(c.r as nat / 16);
        lemma_hex_digit_char_inverts(c.r as nat % 16);
        lemma_hex_digit_char_inverts(c.g as nat / 16);
        lemma_hex_digit_char_inverts(c.g as nat % 16);
        lemma_hex_digit_char_inverts(c.b as nat / 16);
        lemma_hex_digit_char_inverts(c.b as nat % 16);
    }
    lemma_hex_digit_char_inverts(c.r as nat / 16);
    lemma_hex_digit_char_inverts(c.r as nat % 16);
    lemma_hex_digit_char_inverts(c.g as nat / 16);
    lemma_hex_digit_char_inverts(c.g as nat % 16);
    lemma_hex_digit_char_inverts(c.b as nat / 16);
    lemma_hex_digit_char_inverts(c.b as nat % 16);
    assert(color_of_code(s).r == c.r);
    assert(color_of_code(s).g == c.g);
    assert(color_of_code(s).b == c.b);
}

/// A digit character produced by `hex_digit_char` is a hexadecimal digit and
/// reads back as the value it was built from.
proof fn lemma_hex_digit_char_inverts(d: nat)
    requires
        d < 16,
    ensures
        is_hex_digit(hex_digit_char(d)),
        hex_digit_val(hex_digit_char(d)) == d,
{
}

} // verus!
