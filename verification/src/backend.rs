//! The drawing backend: translation of drawing primitives into context
//! operations.
//!
//! Each draw call returns the exact command sequence that realises it; the
//! sequence is given in full by a `..._plan` specification function, so a
//! caller knows precisely which operations reach the context. A draw call
//! with a fully transparent color is an intentional skip: its plan is empty
//! and nothing reaches the context.

use vstd::prelude::*;
use crate::color::Color;
use crate::color::rgba_chars;
use crate::color::rgba_string;
use crate::commands::CanvasCmd;
use crate::commands::CmdModel;
use crate::commands::cmd_views;
use crate::style::LineStyle;
use crate::style::TextStyle;
use crate::style::TextRotation;
use crate::style::align_chars;
use crate::style::align_keyword;
use crate::style::degrees;
use crate::style::font_chars;
use crate::style::font_string;
use crate::style::rotation_degrees;

verus! {

/// The operations a pixel draw issues: set the fill color, then paint a 1x1
/// rectangle at the pixel's coordinate; nothing for a transparent color.
pub open spec fn pixel_plan(point: (i32, i32), color: Color) -> Seq<CmdModel> {
    if color.is_transparent() {
        Seq::<CmdModel>::empty()
    } else {
        seq![
            CmdModel::SetFillStyle(rgba_chars(color)),
            (CmdModel::FillRect { x: point.0, y: point.1, w: 1, h: 1 }),
        ]
    }
}

/// The operations a line draw issues: set the stroke color and width, then
/// one path from the first point to the second, stroked once; nothing for a
/// transparent color.
pub open spec fn line_plan(from: (i32, i32), to: (i32, i32), style: LineStyle) -> Seq<CmdModel> {
    if style.color.is_transparent() {
        Seq::<CmdModel>::empty()
    } else {
        seq![
            CmdModel::SetStrokeStyle(rgba_chars(style.color)),
            CmdModel::SetLineWidth(style.stroke_width),
            CmdModel::BeginPath,
            (CmdModel::MoveTo { x: from.0, y: from.1 }),
            (CmdModel::LineTo { x: to.0, y: to.1 }),
            CmdModel::Stroke,
        ]
    }
}

/// The style and fill operations of a text draw: alignment, fill color and
/// font, then the text filled once at the given coordinate.
pub open spec fn text_body_plan(text: Seq<char>, style: TextStyle, x: i32, y: i32) -> Seq<
    CmdModel,
> {
    seq![
        CmdModel::SetTextAlign(align_chars(style.anchor)),
        CmdModel::SetFillStyle(rgba_chars(style.color)),
        CmdModel::SetFont(font_chars(style)),
        (CmdModel::FillText { text, x, y }),
    ]
}

/// The operations a text draw issues. Without rotation the text is filled
/// directly at its position. With a quarter-turn rotation the context state
/// is saved, the origin translated to the text position and rotated by the
/// angle, the text filled at the local origin, and the saved state restored.
/// Nothing for a transparent color.
pub open spec fn text_plan(text: Seq<char>, style: TextStyle, pos: (i32, i32)) -> Seq<CmdModel> {
    if style.color.is_transparent() {
        Seq::<CmdModel>::empty()
    } else if style.rotation is Rotate0 {
        text_body_plan(text, style, pos.0, pos.1)
    } else {
        seq![
            CmdModel::Save,
            (CmdModel::Translate { x: pos.0, y: pos.1 }),
            CmdModel::RotateDeg(rotation_degrees(style.rotation) as u32),
        ] + text_body_plan(text, style, 0, 0) + seq![CmdModel::Restore]
    }
}

/// A drawing backend over an off-screen surface. It holds the surface's
/// configured size, fixed when the backend is bound to the surface; drawing
/// is immediate and leaves the backend unchanged.
#[derive(Clone, Copy, Debug, PartialEq, Eq, Structural)]
pub struct CanvasBackend {
    pub width: u32,
    pub height: u32,
}

impl CanvasBackend {
    /// The surface's configured width and height in pixels.
    pub open spec fn size_spec(self) -> (u32, u32) {
        (self.width, self.height)
    }

    /// Binds a backend to a surface of the given size. The host reports
    /// whether the surface produced a 2D rendering context; without one, no
    /// backend is handed out — never a partially initialised one.
    pub fn init_backend(width: u32, height: u32, context_available: bool) -> (r: Option<
        CanvasBackend,
    >)
        ensures
            r is Some <==> context_available,
            r matches Some(b) ==> b == (CanvasBackend { width, height }),
    {
        if context_available {
            Some(CanvasBackend { width, height })
        } else {
            None
        }
    }

    /// Creates a new drawing backend over an off-screen surface of the given
    /// size, or nothing when the surface produced no 2D rendering context.
    pub fn new(width: u32, height: u32, context_available: bool) -> (r: Option<CanvasBackend>)
        ensures
            r is Some <==> context_available,
            r matches Some(b) ==> b == (CanvasBackend { width, height }),
    {
        Self::init_backend(width, height, context_available)
    }

    /// Returns the surface's configured width and height in pixels.
    pub fn get_size(&self) -> (s: (u32, u32))
        ensures
            s == self.size_spec(),
    {
        (self.width, self.height)
    }

    /// Nothing to prepare: every draw is applied immediately.
    pub fn ensure_prepared(&mut self) -> (cmds: Vec<CanvasCmd>)
        ensures
            *final(self) == *old(self),
            cmds@.len() == 0,
    {
        Vec::new()
    }

    /// Nothing to flush: every draw is applied immediately.
    pub fn present(&mut self) -> (cmds: Vec<CanvasCmd>)
        ensures
            *final(self) == *old(self),
            cmds@.len() == 0,
    {
        Vec::new()
    }

    /// Draws one pixel: exactly the operations of [`pixel_plan`].
    pub fn draw_pixel(&mut self, point: (i32, i32), color: &Color) -> (cmds: Vec<CanvasCmd>)
        requires
            color.wf(),
        ensures
            *final(self) == *old(self),
            cmd_views(cmds@) == pixel_plan(point, *color),
    {
        let mut cmds: Vec<CanvasCmd> = Vec::new();
        if color.alpha_millis != 0 {
            cmds.push(CanvasCmd::SetFillStyle(rgba_string(color)));
            cmds.push(CanvasCmd::FillRect { x: point.0, y: point.1, w: 1, h: 1 });
        }
        proof {
            assert(cmd_views(cmds@) =~= pixel_plan(point, *color));
        }
        cmds
    }

    /// Draws a straight line segment: exactly the operations of
    /// [`line_plan`].
    pub fn draw_line(&mut self, from: (i32, i32), to: (i32, i32), style: &LineStyle) -> (cmds: Vec<
        CanvasCmd,
    >)
        requires
            style.wf(),
        ensures
            *final(self) == *old(self),
            cmd_views(cmds@) == line_plan(from, to, *style),
    {
        let mut cmds: Vec<CanvasCmd> = Vec::new();
        if style.color.alpha_millis != 0 {
            cmds.push(CanvasCmd::SetStrokeStyle(rgba_string(&style.color)));
            cmds.push(CanvasCmd::SetLineWidth(style.stroke_width));
            cmds.push(CanvasCmd::BeginPath);
            cmds.push(CanvasCmd::MoveTo { x: from.0, y: from.1 });
            cmds.push(CanvasCmd::LineTo { x: to.0, y: to.1 });
            cmds.push(CanvasCmd::Stroke);
        }
        proof {
            assert(cmd_views(cmds@) =~= line_plan(from, to, *style));
        }
        cmds
    }

    /// Draws a text run: exactly the operations of [`text_plan`].
    pub fn draw_text(&mut self, text: &str, style: &TextStyle, pos: (i32, i32)) -> (cmds: Vec<
        CanvasCmd,
    >)
        requires
            style.wf(),
        ensures
            *final(self) == *old(self),
            cmd_views(cmds@) == text_plan(text@, *style, pos),
    {
        let mut cmds: Vec<CanvasCmd> = Vec::new();
        if style.color.alpha_millis != 0 {
            let rotated = !(style.rotation == TextRotation::Rotate0);
            let mut x = pos.0;
            let mut y = pos.1;
            if rotated {
                cmds.push(CanvasCmd::Save);
                cmds.push(CanvasCmd::Translate { x, y });
                cmds.push(CanvasCmd::RotateDeg(degrees(style.rotation)));
                x = 0;
                y = 0;
            }
            cmds.push(CanvasCmd::SetTextAlign(String::from_str(align_keyword(style.anchor))));
            cmds.push(CanvasCmd::SetFillStyle(rgba_string(&style.color)));
            cmds.push(CanvasCmd::SetFont(font_string(style)));
            cmds.push(CanvasCmd::FillText { text: String::from_str(text), x, y });
            if rotated {
                cmds.push(CanvasCmd::Restore);
            }
        }
        proof {
            assert(cmd_views(cmds@) =~= text_plan(text@, *style, pos));
        }
        cmds
    }
}

} // verus!
