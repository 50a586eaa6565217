//! Laws of the backend: properties that hold of every draw call.
//!
//! Each proof function states one law over the draw plans of
//! [`crate::backend`]; together they pin down how often a draw reaches the
//! context and how a rotated text draw brackets its fill between a saved and
//! a restored transform state.

use vstd::prelude::*;
use crate::backend::CanvasBackend;
use crate::backend::line_plan;
use crate::backend::pixel_plan;
use crate::backend::text_body_plan;
use crate::backend::text_plan;
use crate::color::Color;
use crate::color::rgba_chars;
use crate::commands::CmdKind;
use crate::commands::CmdModel;
use crate::commands::count_kind;
use crate::commands::lemma_count_kind_push;
use crate::style::HorizontalAnchor;
use crate::style::LineStyle;
use crate::style::TextStyle;
use crate::style::align_chars;
use crate::style::font_chars;
use crate::style::rotation_degrees;

verus! {

/// Law: a pixel draw paints exactly once. For any positive alpha its plan
/// holds exactly one fill-rect operation; for alpha zero the plan is empty
/// and nothing reaches the context.
pub proof fn lemma_pixel_paints_once(point: (i32, i32), color: Color)
    requires
        color.wf(),
    ensures
        !color.is_transparent() ==> count_kind(pixel_plan(point, color), CmdKind::FillRect) == 1,
        color.is_transparent() ==> pixel_plan(point, color).len() == 0,
{
    if !color.is_transparent() {
        let e = Seq::<CmdModel>::empty();
        let c0 = CmdModel::SetFillStyle(rgba_chars(color));
        let c1 = (CmdModel::FillRect { x: point.0, y: point.1, w: 1, h: 1 });
        assert(pixel_plan(point, color) =~= e.push(c0).push(c1));
        lemma_count_kind_push(e.push(c0), c1, CmdKind::FillRect);
        lemma_count_kind_push(e, c0, CmdKind::FillRect);
    }
}

/// Law: a line draw strokes exactly once. For any positive alpha its plan
/// holds exactly one stroke operation; for alpha zero the plan is empty and
/// nothing reaches the context.
pub proof fn lemma_line_strokes_once(from: (i32, i32), to: (i32, i32), style: LineStyle)
    requires
        style.wf(),
    ensures
        !style.color.is_transparent() ==> count_kind(line_plan(from, to, style), CmdKind::Stroke)
            == 1,
        style.color.is_transparent() ==> line_plan(from, to, style).len() == 0,
{
    if !style.color.is_transparent() {
        let e = Seq::<CmdModel>::empty();
        let c0 = CmdModel::SetStrokeStyle(rgba_chars(style.color));
        let c1 = CmdModel::SetLineWidth(style.stroke_width);
        let c2 = CmdModel::BeginPath;
        let c3 = (CmdModel::MoveTo { x: from.0, y: from.1 });
        let c4 = (CmdModel::LineTo { x: to.0, y: to.1 });
        let c5 = CmdModel::Stroke;
        assert(line_plan(from, to, style) =~= e.push(c0).push(c1).push(c2).push(c3).push(c4).push(
            c5,
        ));
        lemma_count_kind_push(e.push(c0).push(c1).push(c2).push(c3).push(c4), c5, CmdKind::Stroke);
        lemma_count_kind_push(e.push(c0).push(c1).push(c2).push(c3), c4, CmdKind::Stroke);
        lemma_count_kind_push(e.push(c0).push(c1).push(c2), c3, CmdKind::Stroke);
        lemma_count_kind_push(e.push(c0).push(c1), c2, CmdKind::Stroke);
        lemma_count_kind_push(e.push(c0), c1, CmdKind::Stroke);
        lemma_count_kind_push(e, c0, CmdKind::Stroke);
    }
}

/// The sequence of a text plan as an explicit push chain, for counting.
proof fn lemma_text_plan_shape(text: Seq<char>, style: TextStyle, pos: (i32, i32))
    requires
        !style.color.is_transparent(),
    ensures
        style.rotation is Rotate0 ==> text_plan(text, style, pos) =~= Seq::<
            CmdModel,
        >::empty().push(CmdModel::SetTextAlign(align_chars(style.anchor))).push(
            CmdModel::SetFillStyle(rgba_chars(style.color)),
        ).push(CmdModel::SetFont(font_chars(style))).push(
            (CmdModel::FillText { text, x: pos.0, y: pos.1 }),
        ),
        !(style.rotation is Rotate0) ==> text_plan(text, style, pos) =~= Seq::<
            CmdModel,
        >::empty().push(CmdModel::Save).push((CmdModel::Translate { x: pos.0, y: pos.1 })).push(
            CmdModel::RotateDeg(rotation_degrees(style.rotation) as u32),
        ).push(CmdModel::SetTextAlign(align_chars(style.anchor))).push(
            CmdModel::SetFillStyle(rgba_chars(style.color)),
        ).push(CmdModel::SetFont(font_chars(style))).push((CmdModel::FillText { text, x: 0, y: 0 }),
        ).push(CmdModel::Restore),
{
}

/// Law: a text draw fills its text exactly once. For any positive alpha its
/// plan holds exactly one fill-text operation, with or without rotation; for
/// alpha zero the plan is empty and nothing reaches the context.
pub proof fn lemma_text_fills_once(text: Seq<char>, style: TextStyle, pos: (i32, i32))
    requires
        style.wf(),
    ensures
        !style.color.is_transparent() ==> count_kind(
            text_plan(text, style, pos),
            CmdKind::FillText,
        ) == 1,
        style.color.is_transparent() ==> text_plan(text, style, pos).len() == 0,
{
    if !style.color.is_transparent() {
        lemma_text_plan_shape(text, style, pos);
        let e = Seq::<CmdModel>::empty();
        let a0 = CmdModel::SetTextAlign(align_chars(style.anchor));
        let a1 = CmdModel::SetFillStyle(rgba_chars(style.color));
        let a2 = CmdModel::SetFont(font_chars(style));
        if style.rotation is Rotate0 {
            let a3 = (CmdModel::FillText { text, x: pos.0, y: pos.1 });
            lemma_count_kind_push(e.push(a0).push(a1).push(a2), a3, CmdKind::FillText);
            lemma_count_kind_push(e.push(a0).push(a1), a2, CmdKind::FillText);
            lemma_count_kind_push(e.push(a0), a1, CmdKind::FillText);
            lemma_count_kind_push(e, a0, CmdKind::FillText);
        } else {
            let r0 = CmdModel::Save;
            let r1 = (CmdModel::Translate { x: pos.0, y: pos.1 });
            let r2 = CmdModel::RotateDeg(rotation_degrees(style.rotation) as u32);
            let r6 = (CmdModel::FillText { text, x: 0, y: 0 });
            let r7 = CmdModel::Restore;
            let s3 = e.push(r0).push(r1).push(r2);
            lemma_count_kind_push(s3.push(a0).push(a1).push(a2).push(r6), r7, CmdKind::FillText);
            lemma_count_kind_push(s3.push(a0).push(a1).push(a2), r6, CmdKind::FillText);
            lemma_count_kind_push(s3.push(a0).push(a1), a2, CmdKind::FillText);
            lemma_count_kind_push(s3.push(a0), a1, CmdKind::FillText);
            lemma_count_kind_push(s3, a0, CmdKind::FillText);
            lemma_count_kind_push(e.push(r0).push(r1), r2, CmdKind::FillText);
            lemma_count_kind_push(e.push(r0), r1, CmdKind::FillText);
            lemma_count_kind_push(e, r0, CmdKind::FillText);
        }
    }
}

/// Law: a rotated text draw brackets its fill in a save/translate/rotate
/// prologue and a restore epilogue, and fills at the local origin; an
/// unrotated draw skips the transform sequence entirely and fills at the
/// given position.
pub proof fn lemma_text_rotation_bracketing(text: Seq<char>, style: TextStyle, pos: (i32, i32))
    requires
        style.wf(),
        !style.color.is_transparent(),
    ensures
        !(style.rotation is Rotate0) ==> ({
            let plan = text_plan(text, style, pos);
            plan.len() == 8 && plan[0] == CmdModel::Save && plan[1] == (CmdModel::Translate {
                x: pos.0,
                y: pos.1,
            }) && plan[2] == CmdModel::RotateDeg(rotation_degrees(style.rotation) as u32)
                && plan.subrange(3, 7) == text_body_plan(text, style, 0, 0) && plan[6]
                == (CmdModel::FillText { text, x: 0, y: 0 }) && plan[7] == CmdModel::Restore
        }),
        style.rotation is Rotate0 ==> ({
            let plan = text_plan(text, style, pos);
            plan.len() == 4 && plan == text_body_plan(text, style, pos.0, pos.1) && plan[3]
                == (CmdModel::FillText { text, x: pos.0, y: pos.1 }) && count_kind(
                plan,
                CmdKind::Save,
            ) == 0 && count_kind(plan, CmdKind::Translate) == 0 && count_kind(
                plan,
                CmdKind::RotateDeg,
            ) == 0 && count_kind(plan, CmdKind::Restore) == 0
        }),
{
    lemma_text_plan_shape(text, style, pos);
    let plan = text_plan(text, style, pos);
    let e = Seq::<CmdModel>::empty();
    let a0 = CmdModel::SetTextAlign(align_chars(style.anchor));
    let a1 = CmdModel::SetFillStyle(rgba_chars(style.color));
    let a2 = CmdModel::SetFont(font_chars(style));
    if style.rotation is Rotate0 {
        let a3 = (CmdModel::FillText { text, x: pos.0, y: pos.1 });
        assert(plan == text_body_plan(text, style, pos.0, pos.1));
        lemma_count_kind_push(e.push(a0).push(a1).push(a2), a3, CmdKind::Save);
        lemma_count_kind_push(e.push(a0).push(a1), a2, CmdKind::Save);
        lemma_count_kind_push(e.push(a0), a1, CmdKind::Save);
        lemma_count_kind_push(e, a0, CmdKind::Save);
        lemma_count_kind_push(e.push(a0).push(a1).push(a2), a3, CmdKind::Translate);
        lemma_count_kind_push(e.push(a0).push(a1), a2, CmdKind::Translate);
        lemma_count_kind_push(e.push(a0), a1, CmdKind::Translate);
        lemma_count_kind_push(e, a0, CmdKind::Translate);
        lemma_count_kind_push(e.push(a0).push(a1).push(a2), a3, CmdKind::RotateDeg);
        lemma_count_kind_push(e.push(a0).push(a1), a2, CmdKind::RotateDeg);
        lemma_count_kind_push(e.push(a0), a1, CmdKind::RotateDeg);
        lemma_count_kind_push(e, a0, CmdKind::RotateDeg);
        lemma_count_kind_push(e.push(a0).push(a1).push(a2), a3, CmdKind::Restore);
        lemma_count_kind_push(e.push(a0).push(a1), a2, CmdKind::Restore);
        lemma_count_kind_push(e.push(a0), a1, CmdKind::Restore);
        lemma_count_kind_push(e, a0, CmdKind::Restore);
    } else {
        assert(plan.subrange(3, 7) =~= text_body_plan(text, style, 0, 0));
    }
}

/// Law: the reported size is unaffected by drawing. Every draw call leaves
/// the backend unchanged (each draw function's contract says so), and the
/// reported size is a function of the backend alone, so the size reported
/// after any sequence of draws equals the size reported before it.
pub proof fn lemma_size_unaffected_by_draws(before: CanvasBackend, after: CanvasBackend)
    requires
        after == before,
    ensures
        after.size_spec() == before.size_spec(),
{
}

/// Law: horizontal anchors map deterministically to text alignment — left to
/// start, center to center, right to end.
pub proof fn lemma_anchor_alignment()
    ensures
        align_chars(HorizontalAnchor::Left) == "start"@,
        align_chars(HorizontalAnchor::Center) == "center"@,
        align_chars(HorizontalAnchor::Right) == "end"@,
{
}

} // verus!
