//! Operations on the 2D rendering context.
//!
//! Every draw call is translated into a sequence of [`CanvasCmd`] values,
//! each standing for exactly one call on the host context. A host adapter
//! replays the sequence in order; the library itself never touches the
//! context, which keeps the translation pure and fully specified.

use vstd::prelude::*;

verus! {

/// One operation on the 2D rendering context. Coordinates are pixel
/// coordinates; styles carry their CSS textual form; rotation carries its
/// angle in degrees (the adapter converts to radians when replaying).
#[derive(Clone, Debug, PartialEq, Eq)]
pub enum CanvasCmd {
    SetFillStyle(String),
    SetStrokeStyle(String),
    SetLineWidth(u32),
    FillRect { x: i32, y: i32, w: u32, h: u32 },
    BeginPath,
    MoveTo { x: i32, y: i32 },
    LineTo { x: i32, y: i32 },
    Stroke,
    Save,
    Translate { x: i32, y: i32 },
    RotateDeg(u32),
    SetTextAlign(String),
    SetFont(String),
    FillText { text: String, x: i32, y: i32 },
    Restore,
}

/// The mathematical model of a context operation: the same shape as
/// [`CanvasCmd`], with strings abstracted to character sequences.
pub enum CmdModel {
    SetFillStyle(Seq<char>),
    SetStrokeStyle(Seq<char>),
    SetLineWidth(u32),
    FillRect { x: i32, y: i32, w: u32, h: u32 },
    BeginPath,
    MoveTo { x: i32, y: i32 },
    LineTo { x: i32, y: i32 },
    Stroke,
    Save,
    Translate { x: i32, y: i32 },
    RotateDeg(u32),
    SetTextAlign(Seq<char>),
    SetFont(Seq<char>),
    FillText { text: Seq<char>, x: i32, y: i32 },
    Restore,
}

impl View for CanvasCmd {
    type V = CmdModel;

    open spec fn view(&self) -> CmdModel {
        match self {
            CanvasCmd::SetFillStyle(s) => CmdModel::SetFillStyle(s@),
            CanvasCmd::SetStrokeStyle(s) => CmdModel::SetStrokeStyle(s@),
            CanvasCmd::SetLineWidth(w) => CmdModel::SetLineWidth(*w),
            CanvasCmd::FillRect { x, y, w, h } => (CmdModel::FillRect {
                x: *x,
                y: *y,
                w: *w,
                h: *h,
            }),
            CanvasCmd::BeginPath => CmdModel::BeginPath,
            CanvasCmd::MoveTo { x, y } => (CmdModel::MoveTo { x: *x, y: *y }),
            CanvasCmd::LineTo { x, y } => (CmdModel::LineTo { x: *x, y: *y }),
            CanvasCmd::Stroke => CmdModel::Stroke,
            CanvasCmd::Save => CmdModel::Save,
            CanvasCmd::Translate { x, y } => (CmdModel::Translate { x: *x, y: *y }),
            CanvasCmd::RotateDeg(d) => CmdModel::RotateDeg(*d),
            CanvasCmd::SetTextAlign(s) => CmdModel::SetTextAlign(s@),
            CanvasCmd::SetFont(s) => CmdModel::SetFont(s@),
            CanvasCmd::FillText { text, x, y } => (CmdModel::FillText {
                text: text@,
                x: *x,
                y: *y,
            }),
            CanvasCmd::Restore => CmdModel::Restore,
        }
    }
}

/// The model of a command sequence: each command replaced by its model.
pub open spec fn cmd_views(s: Seq<CanvasCmd>) -> Seq<CmdModel> {
    s.map_values(|c: CanvasCmd| c@)
}

/// The kind of a context operation, with the operands abstracted away.
#[derive(Clone, Copy, Debug, PartialEq, Eq, Structural)]
pub enum CmdKind {
    SetFillStyle,
    SetStrokeStyle,
    SetLineWidth,
    FillRect,
    BeginPath,
    MoveTo,
    LineTo,
    Stroke,
    Save,
    Translate,
    RotateDeg,
    SetTextAlign,
    SetFont,
    FillText,
    Restore,
}

/// The kind of a command.
pub open spec fn cmd_kind(m: CmdModel) -> CmdKind {
    match m {
        CmdModel::SetFillStyle(..) => CmdKind::SetFillStyle,
        CmdModel::SetStrokeStyle(..) => CmdKind::SetStrokeStyle,
        CmdModel::SetLineWidth(..) => CmdKind::SetLineWidth,
        CmdModel::FillRect { .. } => CmdKind::FillRect,
        CmdModel::BeginPath => CmdKind::BeginPath,
        CmdModel::MoveTo { .. } => CmdKind::MoveTo,
        CmdModel::LineTo { .. } => CmdKind::LineTo,
        CmdModel::Stroke => CmdKind::Stroke,
        CmdModel::Save => CmdKind::Save,
        CmdModel::Translate { .. } => CmdKind::Translate,
        CmdModel::RotateDeg(..) => CmdKind::RotateDeg,
        CmdModel::SetTextAlign(..) => CmdKind::SetTextAlign,
        CmdModel::SetFont(..) => CmdKind::SetFont,
        CmdModel::FillText { .. } => CmdKind::FillText,
        CmdModel::Restore => CmdKind::Restore,
    }
}

/// How many commands of a given kind a sequence holds.
pub open spec fn count_kind(s: Seq<CmdModel>, k: CmdKind) -> nat
    decreases s.len(),
{
    if s.len() == 0 {
        0
    } else {
        count_kind(s.drop_last(), k) + (if cmd_kind(s.last()) == k {
            1nat
        } else {
            0nat
        })
    }
}

/// Appending one command raises the count of its kind by one and leaves
/// every other count unchanged.
pub proof fn lemma_count_kind_push(s: Seq<CmdModel>, m: CmdModel, k: CmdKind)
    ensures
        count_kind(s.push(m), k) == count_kind(s, k) + (if cmd_kind(m) == k {
            1nat
        } else {
            0nat
        }),
{
    assert(s.push(m).drop_last() =~= s);
    assert(s.push(m).last() == m);
}

} // verus!
