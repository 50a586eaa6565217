//! Colors and their CSS textual encoding.
//!
//! A color is an RGB triple plus an alpha channel. Alpha is held in
//! thousandths (0 stands for fully transparent, 1000 for fully opaque), so
//! the whole color is made of plain integers and its textual encoding can be
//! specified character by character. Every draw call that needs a fill or
//! stroke color serialises the color as a CSS-style `rgba(r,g,b,a)` string.

use vstd::prelude::*;

verus! {

/// The number of alpha steps that stand for a fully opaque color.
pub const ALPHA_OPAQUE: u16 = 1000;

/// An RGB color with an alpha channel in thousandths.
#[derive(Clone, Copy, Debug, PartialEq, Eq, Structural)]
pub struct Color {
    pub r: u8,
    pub g: u8,
    pub b: u8,
    /// Opacity in thousandths: 0 is fully transparent, 1000 fully opaque.
    pub alpha_millis: u16,
}

impl Color {
    /// A color is well formed when its alpha channel lies in [0, 1].
    pub open spec fn wf(self) -> bool {
        self.alpha_millis <= ALPHA_OPAQUE
    }

    /// A fully transparent color: draw calls skip it entirely.
    pub open spec fn is_transparent(self) -> bool {
        self.alpha_millis == 0
    }

    /// Builds a color from its channels.
    pub fn new(r: u8, g: u8, b: u8, alpha_millis: u16) -> (c: Color)
        requires
            alpha_millis <= ALPHA_OPAQUE,
        ensures
            c == (Color { r, g, b, alpha_millis }),
            c.wf(),
    {
        Color { r, g, b, alpha_millis }
    }
}

/// The decimal digit character for a single digit value.
pub open spec fn digit_char(d: nat) -> char {
    if d == 0 {
        '0'
    } else if d == 1 {
        '1'
    } else if d == 2 {
        '2'
    } else if d == 3 {
        '3'
    } else if d == 4 {
        '4'
    } else if d == 5 {
        '5'
    } else if d == 6 {
        '6'
    } else if d == 7 {
        '7'
    } else if d == 8 {
        '8'
    } else {
        '9'
    }
}

/// The decimal representation of a natural number, most significant digit
/// first, without leading zeros (a lone zero for 0).
pub open spec fn dec_chars(n: nat) -> Seq<char>
    decreases n,
{
    if n < 10 {
        seq![digit_char(n)]
    } else {
        dec_chars(n / 10) + seq![digit_char(n % 10)]
    }
}

/// The textual form of an alpha value given in thousandths, as the shortest
/// plain decimal in [0, 1]: `0`, `1`, or `0.` followed by the fractional
/// digits with trailing zeros trimmed (`0.5`, `0.25`, `0.125`, `0.05`).
pub open spec fn alpha_chars(m: nat) -> Seq<char>
    recommends
        m <= ALPHA_OPAQUE,
{
    if m == 0 {
        "0"@
    } else if m == ALPHA_OPAQUE {
        "1"@
    } else if m % 100 == 0 {
        "0."@ + seq![digit_char(m / 100)]
    } else if m % 10 == 0 {
        "0."@ + seq![digit_char(m / 100), digit_char((m / 10) % 10)]
    } else {
        "0."@ + seq![digit_char(m / 100), digit_char((m / 10) % 10), digit_char(m % 10)]
    }
}

/// The CSS `rgba(r,g,b,a)` encoding of a color, closing parenthesis included.
pub open spec fn rgba_chars(c: Color) -> Seq<char> {
    "rgba("@ + dec_chars(c.r as nat) + ","@ + dec_chars(c.g as nat) + ","@ + dec_chars(
        c.b as nat,
    ) + ","@ + alpha_chars(c.alpha_millis as nat) + ")"@
}

/// The one-character string for a decimal digit.
fn digit_str(d: u32) -> (s: &'static str)
    requires
        d < 10,
    ensures
        s@ == seq![digit_char(d as nat)],
{
    if d == 0 {
        proof {
            reveal_strlit("0");
            assert("0"@ =~= seq![digit_char(d as nat)]);
        }
        "0"
    } else if d == 1 {
        proof {
            reveal_strlit("1");
            assert("1"@ =~= seq![digit_char(d as nat)]);
        }
        "1"
    } else if d == 2 {
        proof {
            reveal_strlit("2");
            assert("2"@ =~= seq![digit_char(d as nat)]);
        }
        "2"
    } else if d == 3 {
        proof {
            reveal_strlit("3");
            assert("3"@ =~= seq![digit_char(d as nat)]);
        }
        "3"
    } else if d == 4 {
        proof {
            reveal_strlit("4");
            assert("4"@ =~= seq![digit_char(d as nat)]);
        }
        "4"
    } else if d == 5 {
        proof {
            reveal_strlit("5");
            assert("5"@ =~= seq![digit_char(d as nat)]);
        }
        "5"
    } else if d == 6 {
        proof {
            reveal_strlit("6");
            assert("6"@ =~= seq![digit_char(d as nat)]);
        }
        "6"
    } else if d == 7 {
        proof {
            reveal_strlit("7");
            assert("7"@ =~= seq![digit_char(d as nat)]);
        }
        "7"
    } else if d == 8 {
        proof {
            reveal_strlit("8");
            assert("8"@ =~= seq![digit_char(d as nat)]);
        }
        "8"
    } else {
        proof {
            reveal_strlit("9");
            assert("9"@ =~= seq![digit_char(d as nat)]);
        }
        "9"
    }
}

/// Renders a number in decimal, most significant digit first.
pub fn dec_string(n: u32) -> (s: String)
    ensures
        s@ == dec_chars(n as nat),
    decreases n,
{
    if n < 10 {
        String::from_str(digit_str(n))
    } else {
        let mut s = dec_string(n / 10);
        s.append(digit_str(n % 10));
        s
    }
}

/// Renders an alpha value given in thousandths as its shortest decimal form.
pub fn alpha_string(m: u16) -> (s: String)
    requires
        m <= ALPHA_OPAQUE,
    ensures
        s@ == alpha_chars(m as nat),
{
    if m == 0 {
        String::from_str("0")
    } else if m == ALPHA_OPAQUE {
        String::from_str("1")
    } else if m % 100 == 0 {
        let mut s = String::from_str("0.");
        s.append(digit_str((m / 100) as u32));
        s
    } else if m % 10 == 0 {
        let mut s = String::from_str("0.");
        s.append(digit_str((m / 100) as u32));
        s.append(digit_str(((m / 10) % 10) as u32));
        proof {
            assert(s@ =~= "0."@ + seq![
                digit_char((m / 100) as nat),
                digit_char(((m / 10) % 10) as nat),
            ]);
        }
        s
    } else {
        let mut s = String::from_str("0.");
        s.append(digit_str((m / 100) as u32));
        s.append(digit_str(((m / 10) % 10) as u32));
        s.append(digit_str((m % 10) as u32));
        proof {
            assert(s@ =~= "0."@ + seq![
                digit_char((m / 100) as nat),
                digit_char(((m / 10) % 10) as nat),
                digit_char((m % 10) as nat),
            ]);
        }
        s
    }
}

/// Serialises a color as the CSS string `rgba(r,g,b,a)`.
pub fn rgba_string(c: &Color) -> (s: String)
    requires
        c.wf(),
    ensures
        s@ == rgba_chars(*c),
{
    let mut s = String::from_str("rgba(");
    s.append(dec_string(c.r as u32).as_str());
    s.append(",");
    s.append(dec_string(c.g as u32).as_str());
    s.append(",");
    s.append(dec_string(c.b as u32).as_str());
    s.append(",");
    s.append(alpha_string(c.alpha_millis).as_str());
    s.append(")");
    s
}

} // verus!
