//! Line and text styles.
//!
//! A style is a color plus a stroke width (for lines) or a font description,
//! a rotation and a horizontal anchor (for text). The font/text metrics
//! subsystem supplies the font keyword, pixel size and family name; the
//! library only composes them into the context's font specification string.

use vstd::prelude::*;
use crate::color::Color;
use crate::color::dec_chars;
use crate::color::dec_string;

verus! {

/// The font style keyword of a text style.
#[derive(Clone, Copy, Debug, PartialEq, Eq, Structural)]
pub enum FontStyleKind {
    Normal,
    Oblique,
    Italic,
    Bold,
}

/// A text rotation, restricted to quarter turns.
#[derive(Clone, Copy, Debug, PartialEq, Eq, Structural)]
pub enum TextRotation {
    Rotate0,
    Rotate90,
    Rotate180,
    Rotate270,
}

/// The horizontal anchor of a text position.
#[derive(Clone, Copy, Debug, PartialEq, Eq, Structural)]
pub enum HorizontalAnchor {
    Left,
    Center,
    Right,
}

/// The CSS keyword of a font style.
pub open spec fn keyword_chars(k: FontStyleKind) -> Seq<char> {
    match k {
        FontStyleKind::Normal => "normal"@,
        FontStyleKind::Oblique => "oblique"@,
        FontStyleKind::Italic => "italic"@,
        FontStyleKind::Bold => "bold"@,
    }
}

/// The rotation angle in degrees.
pub open spec fn rotation_degrees(t: TextRotation) -> nat {
    match t {
        TextRotation::Rotate0 => 0,
        TextRotation::Rotate90 => 90,
        TextRotation::Rotate180 => 180,
        TextRotation::Rotate270 => 270,
    }
}

/// The context's text-alignment keyword for a horizontal anchor:
/// left, center and right anchors map to start, center and end.
pub open spec fn align_chars(a: HorizontalAnchor) -> Seq<char> {
    match a {
        HorizontalAnchor::Left => "start"@,
        HorizontalAnchor::Center => "center"@,
        HorizontalAnchor::Right => "end"@,
    }
}

/// The CSS keyword of a font style.
pub fn font_keyword(k: FontStyleKind) -> (s: &'static str)
    ensures
        s@ == keyword_chars(k),
{
    match k {
        FontStyleKind::Normal => "normal",
        FontStyleKind::Oblique => "oblique",
        FontStyleKind::Italic => "italic",
        FontStyleKind::Bold => "bold",
    }
}

/// The rotation angle in degrees.
pub fn degrees(t: TextRotation) -> (d: u32)
    ensures
        d as nat == rotation_degrees(t),
{
    match t {
        TextRotation::Rotate0 => 0,
        TextRotation::Rotate90 => 90,
        TextRotation::Rotate180 => 180,
        TextRotation::Rotate270 => 270,
    }
}

/// The context's text-alignment keyword for a horizontal anchor.
pub fn align_keyword(a: HorizontalAnchor) -> (s: &'static str)
    ensures
        s@ == align_chars(a),
{
    match a {
        HorizontalAnchor::Left => "start",
        HorizontalAnchor::Center => "center",
        HorizontalAnchor::Right => "end",
    }
}

/// The style of a line: a color and a stroke width in pixels.
#[derive(Clone, Copy, Debug, PartialEq, Eq, Structural)]
pub struct LineStyle {
    pub color: Color,
    pub stroke_width: u32,
}

impl LineStyle {
    pub open spec fn wf(self) -> bool {
        self.color.wf()
    }
}

/// The style of a text draw: color, font, rotation and horizontal anchor.
#[derive(Clone, Debug, PartialEq, Eq)]
pub struct TextStyle {
    pub color: Color,
    pub font_style: FontStyleKind,
    /// Font size in pixels.
    pub size: u32,
    /// Font family name, e.g. `sans-serif`.
    pub family: String,
    pub rotation: TextRotation,
    pub anchor: HorizontalAnchor,
}

impl TextStyle {
    pub open spec fn wf(self) -> bool {
        self.color.wf()
    }
}

/// The context's font specification string: keyword, pixel size and family,
/// as in `bold 20px sans-serif`.
pub open spec fn font_chars(s: TextStyle) -> Seq<char> {
    keyword_chars(s.font_style) + " "@ + dec_chars(s.size as nat) + "px "@ + s.family@
}

/// Composes the font specification string of a text style.
pub fn font_string(s: &TextStyle) -> (r: String)
    ensures
        r@ == font_chars(*s),
{
    let mut r = String::from_str(font_keyword(s.font_style));
    r.append(" ");
    r.append(dec_string(s.size).as_str());
    r.append("px ");
    r.append(s.family.as_str());
    r
}

} // verus!
