use canvas_backend::backend::CanvasBackend;
use canvas_backend::color::Color;
use canvas_backend::commands::CanvasCmd;
use canvas_backend::style::align_keyword;
use canvas_backend::style::degrees;
use canvas_backend::style::font_keyword;
use canvas_backend::style::FontStyleKind;
use canvas_backend::style::HorizontalAnchor;
use canvas_backend::style::LineStyle;
use canvas_backend::style::TextRotation;
use canvas_backend::style::TextStyle;

fn backend_100x100() -> CanvasBackend {
    CanvasBackend::new(100, 100, true).expect("surface with a 2D context")
}

fn text_style(alpha_millis: u16, rotation: TextRotation, anchor: HorizontalAnchor) -> TextStyle {
    TextStyle {
        color: Color::new(0, 0, 0, alpha_millis),
        font_style: FontStyleKind::Bold,
        size: 20,
        family: String::from("sans-serif"),
        rotation,
        anchor,
    }
}

#[test]
fn construction_without_context_yields_nothing() {
    assert!(CanvasBackend::new(100, 100, false).is_none());
    assert!(CanvasBackend::init_backend(640, 480, false).is_none());
    let b = CanvasBackend::new(640, 480, true).unwrap();
    assert_eq!(b.get_size(), (640, 480));
}

#[test]
fn size_reports_configured_dimensions() {
    let mut b = backend_100x100();
    assert_eq!(b.get_size(), (100, 100));
    let color = Color::new(9, 9, 9, 1000);
    b.draw_pixel((50, 50), &color);
    b.draw_line((0, 0), (10, 10), &LineStyle { color, stroke_width: 2 });
    b.draw_text("abc", &text_style(1000, TextRotation::Rotate90, HorizontalAnchor::Left), (5, 5));
    assert_eq!(b.get_size(), (100, 100));
}

#[test]
fn prepare_and_present_are_no_ops() {
    let mut b = backend_100x100();
    assert!(b.ensure_prepared().is_empty());
    assert!(b.present().is_empty());
}

#[test]
fn pixel_with_half_alpha_fills_once() {
    let mut b = backend_100x100();
    let cmds = b.draw_pixel((50, 50), &Color::new(0, 0, 0, 500));
    assert_eq!(cmds.len(), 2);
    match &cmds[0] {
        CanvasCmd::SetFillStyle(s) => {
            assert!(!s.is_empty());
            assert!(s.contains("0.5"));
            assert_eq!(s, "rgba(0,0,0,0.5)");
        }
        other => panic!("expected a fill style, got {:?}", other),
    }
    assert_eq!(cmds[1], CanvasCmd::FillRect { x: 50, y: 50, w: 1, h: 1 });
}

#[test]
fn pixel_with_zero_alpha_is_skipped() {
    let mut b = backend_100x100();
    let cmds = b.draw_pixel((50, 50), &Color::new(0, 0, 0, 0));
    assert!(cmds.is_empty());
}

#[test]
fn every_positive_alpha_paints_exactly_once() {
    let mut b = backend_100x100();
    for alpha in [1u16, 250, 500, 750, 999, 1000] {
        let cmds = b.draw_pixel((50, 50), &Color::new(0, 0, 0, alpha));
        let fills = cmds
            .iter()
            .filter(|c| matches!(c, CanvasCmd::FillRect { .. }))
            .count();
        assert_eq!(fills, 1);
    }
}

#[test]
fn line_strokes_once_with_width_and_color() {
    let mut b = backend_100x100();
    let style = LineStyle { color: Color::new(0, 0, 0, 1000), stroke_width: 2 };
    let cmds = b.draw_line((0, 0), (10, 10), &style);
    let expected = vec![
        CanvasCmd::SetStrokeStyle(String::from("rgba(0,0,0,1)")),
        CanvasCmd::SetLineWidth(2),
        CanvasCmd::BeginPath,
        CanvasCmd::MoveTo { x: 0, y: 0 },
        CanvasCmd::LineTo { x: 10, y: 10 },
        CanvasCmd::Stroke,
    ];
    assert_eq!(cmds, expected);
}

#[test]
fn line_with_zero_alpha_is_skipped() {
    let mut b = backend_100x100();
    let style = LineStyle { color: Color::new(0, 0, 0, 0), stroke_width: 2 };
    assert!(b.draw_line((0, 0), (10, 10), &style).is_empty());
}

#[test]
fn unrotated_text_draws_in_place() {
    let mut b = backend_100x100();
    let style = text_style(1000, TextRotation::Rotate0, HorizontalAnchor::Left);
    let cmds = b.draw_text("hello", &style, (30, 40));
    let expected = vec![
        CanvasCmd::SetTextAlign(String::from("start")),
        CanvasCmd::SetFillStyle(String::from("rgba(0,0,0,1)")),
        CanvasCmd::SetFont(String::from("bold 20px sans-serif")),
        CanvasCmd::FillText { text: String::from("hello"), x: 30, y: 40 },
    ];
    assert_eq!(cmds, expected);
}

#[test]
fn rotated_text_brackets_the_fill_in_a_transform() {
    let mut b = backend_100x100();
    let style = text_style(1000, TextRotation::Rotate90, HorizontalAnchor::Center);
    let cmds = b.draw_text("up", &style, (30, 40));
    let expected = vec![
        CanvasCmd::Save,
        CanvasCmd::Translate { x: 30, y: 40 },
        CanvasCmd::RotateDeg(90),
        CanvasCmd::SetTextAlign(String::from("center")),
        CanvasCmd::SetFillStyle(String::from("rgba(0,0,0,1)")),
        CanvasCmd::SetFont(String::from("bold 20px sans-serif")),
        CanvasCmd::FillText { text: String::from("up"), x: 0, y: 0 },
        CanvasCmd::Restore,
    ];
    assert_eq!(cmds, expected);
}

#[test]
fn each_rotation_uses_its_true_angle() {
    assert_eq!(degrees(TextRotation::Rotate0), 0);
    assert_eq!(degrees(TextRotation::Rotate90), 90);
    assert_eq!(degrees(TextRotation::Rotate180), 180);
    assert_eq!(degrees(TextRotation::Rotate270), 270);
    let mut b = backend_100x100();
    for (rotation, angle) in [
        (TextRotation::Rotate90, 90u32),
        (TextRotation::Rotate180, 180),
        (TextRotation::Rotate270, 270),
    ] {
        let style = text_style(1000, rotation, HorizontalAnchor::Left);
        let cmds = b.draw_text("t", &style, (1, 2));
        assert_eq!(cmds.len(), 8);
        assert_eq!(cmds[0], CanvasCmd::Save);
        assert_eq!(cmds[2], CanvasCmd::RotateDeg(angle));
        assert_eq!(cmds[7], CanvasCmd::Restore);
    }
}

#[test]
fn text_with_zero_alpha_is_skipped() {
    let mut b = backend_100x100();
    let style = text_style(0, TextRotation::Rotate90, HorizontalAnchor::Right);
    assert!(b.draw_text("gone", &style, (30, 40)).is_empty());
}

#[test]
fn anchors_map_to_alignment_keywords() {
    assert_eq!(align_keyword(HorizontalAnchor::Left), "start");
    assert_eq!(align_keyword(HorizontalAnchor::Center), "center");
    assert_eq!(align_keyword(HorizontalAnchor::Right), "end");
    let mut b = backend_100x100();
    for (anchor, keyword) in [
        (HorizontalAnchor::Left, "start"),
        (HorizontalAnchor::Center, "center"),
        (HorizontalAnchor::Right, "end"),
    ] {
        let style = text_style(1000, TextRotation::Rotate0, anchor);
        let cmds = b.draw_text("x", &style, (0, 0));
        assert_eq!(cmds[0], CanvasCmd::SetTextAlign(String::from(keyword)));
    }
}

#[test]
fn font_specification_is_composed() {
    assert_eq!(font_keyword(FontStyleKind::Normal), "normal");
    assert_eq!(font_keyword(FontStyleKind::Oblique), "oblique");
    assert_eq!(font_keyword(FontStyleKind::Italic), "italic");
    assert_eq!(font_keyword(FontStyleKind::Bold), "bold");
    let mut b = backend_100x100();
    let style = TextStyle {
        color: Color::new(1, 2, 3, 1000),
        font_style: FontStyleKind::Italic,
        size: 14,
        family: String::from("serif"),
        rotation: TextRotation::Rotate0,
        anchor: HorizontalAnchor::Left,
    };
    let cmds = b.draw_text("q", &style, (0, 0));
    assert_eq!(cmds[2], CanvasCmd::SetFont(String::from("italic 14px serif")));
}
