use editing_area::command::{decode_color, Command, CommandType, PathVerb};
use editing_area::geom::{Point, Rect, UNIT};
use editing_area::scene::{EditingArea, Paint, RenderOp, WHITE};
use editing_area::selection::{MaybeSelection, NoSelection, Selection};

fn pt(x: i64, y: i64) -> Point {
    Point::new(x, y)
}

fn units(x: i32, y: i32) -> Point {
    Point::from_units(x, y)
}

fn stroke_only(command_type: CommandType, start: Point) -> Command {
    Command { command_type, start, color: 0xFF0000FF, width: 2 * UNIT, fill_color: None }
}

#[test]
fn color_decode_red() {
    let (r, g, b, a) = decode_color(0xFF0000FF);
    assert_eq!((r, g, b, a), (255, 0, 0, 255));
    assert_eq!(r as f32 / 255.0, 1.0);
    assert_eq!(g as f32 / 255.0, 0.0);
    assert_eq!(b as f32 / 255.0, 0.0);
    assert_eq!(a as f32 / 255.0, 1.0);
}

#[test]
fn color_decode_channel_order() {
    assert_eq!(decode_color(0x12345678), (0x12, 0x34, 0x56, 0x78));
    assert_eq!(decode_color(0x00FF00FF), (0, 255, 0, 255));
    assert_eq!(decode_color(0x0000FFFF), (0, 0, 255, 255));
    assert_eq!(decode_color(0x00000000), (0, 0, 0, 0));
}

#[test]
fn rectangle_path_keeps_extent_signs() {
    let cmd = stroke_only(CommandType::Rectangle { end: pt(4, 2) }, pt(10, 10));
    let path = cmd.build_path();
    assert_eq!(
        path,
        vec![PathVerb::Rect { rect: Rect { x: 10, y: 10, width: -6, height: -8 } }],
    );
}

#[test]
fn line_path_is_one_segment() {
    let cmd = stroke_only(CommandType::Line { end: pt(400, 400) }, pt(100, 100));
    let path = cmd.build_path();
    assert_eq!(
        path,
        vec![PathVerb::MoveTo { p: pt(100, 100) }, PathVerb::LineTo { p: pt(400, 400) }],
    );
}

#[test]
fn freehand_path_connects_points_in_order() {
    let points = vec![units(200, 200), units(250, 250), units(300, 200)];
    let cmd = stroke_only(CommandType::Freehand { points }, units(150, 150));
    let path = cmd.build_path();
    assert_eq!(
        path,
        vec![
            PathVerb::MoveTo { p: units(150, 150) },
            PathVerb::LineTo { p: units(200, 200) },
            PathVerb::LineTo { p: units(250, 250) },
            PathVerb::LineTo { p: units(300, 200) },
        ],
    );
}

#[test]
fn text_path_passes_strings_through() {
    let cmd = stroke_only(
        CommandType::Text { font: String::from("Sans 16"), text: String::from("Hello") },
        units(50, 300),
    );
    let path = cmd.build_path();
    assert_eq!(
        path,
        vec![PathVerb::Layout { font: String::from("Sans 16"), text: String::from("Hello") }],
    );
}

#[test]
fn arrow_head_at_right_angles() {
    // A horizontal arrow 100 units long: the head base sits 15 units short
    // of the tip, the head points 15 units to either side.
    let cmd = stroke_only(CommandType::Arrow { end: units(100, 0) }, units(0, 0));
    let path = cmd.build_path();
    assert_eq!(
        path,
        vec![
            PathVerb::MoveTo { p: units(0, 0) },
            PathVerb::LineTo { p: units(100, 0) },
            PathVerb::MoveTo { p: units(85, 15) },
            PathVerb::LineTo { p: units(100, 0) },
            PathVerb::LineTo { p: units(85, -15) },
            PathVerb::MoveTo { p: units(100, 0) },
        ],
    );
}

#[test]
fn arrow_head_vertical() {
    let cmd = stroke_only(CommandType::Arrow { end: units(0, 100) }, units(0, 0));
    let path = cmd.build_path();
    assert_eq!(
        path,
        vec![
            PathVerb::MoveTo { p: units(0, 0) },
            PathVerb::LineTo { p: units(0, 100) },
            PathVerb::MoveTo { p: units(-15, 85) },
            PathVerb::LineTo { p: units(0, 100) },
            PathVerb::LineTo { p: units(15, 85) },
            PathVerb::MoveTo { p: units(0, 100) },
        ],
    );
}

#[test]
fn arrow_of_zero_length_emits_shaft_only() {
    let cmd = stroke_only(CommandType::Arrow { end: units(7, 7) }, units(7, 7));
    let path = cmd.build_path();
    assert_eq!(
        path,
        vec![PathVerb::MoveTo { p: units(7, 7) }, PathVerb::LineTo { p: units(7, 7) }],
    );
}

#[test]
fn circle_path_is_four_cubic_segments() {
    // Bounding box (0,0)-(100,100) units: center (50,50), both radii 50,
    // control offset 50 * 0.5522847 = 27.614 units (27614 ticks).
    let cmd = stroke_only(CommandType::Circle { end: units(100, 100) }, units(0, 0));
    let path = cmd.build_path();
    let c = 27614;
    let mid = 50 * UNIT;
    let far = 100 * UNIT;
    assert_eq!(
        path,
        vec![
            PathVerb::MoveTo { p: pt(far, mid) },
            PathVerb::CubicTo { c1: pt(far, mid - c), c2: pt(mid + c, 0), p: pt(mid, 0) },
            PathVerb::CubicTo { c1: pt(mid - c, 0), c2: pt(0, mid - c), p: pt(0, mid) },
            PathVerb::CubicTo { c1: pt(0, mid + c), c2: pt(mid - c, far), p: pt(mid, far) },
            PathVerb::CubicTo { c1: pt(mid + c, far), c2: pt(far, mid + c), p: pt(far, mid) },
            PathVerb::Close,
        ],
    );
}

#[test]
fn circle_bounding_box_ignores_corner_order() {
    let a = stroke_only(CommandType::Circle { end: units(0, 0) }, units(100, 100));
    let b = stroke_only(CommandType::Circle { end: units(100, 100) }, units(0, 0));
    assert_eq!(a.build_path(), b.build_path());
}

#[test]
fn command_ops_fill_before_stroke() {
    let cmd = Command {
        command_type: CommandType::Rectangle { end: units(200, 200) },
        start: units(50, 50),
        color: 0xFF0000FF,
        width: 20 * UNIT,
        fill_color: Some(0xFFFF00FF),
    };
    let path = cmd.build_path();
    let ops = cmd.draw_ops();
    assert_eq!(
        ops,
        vec![
            RenderOp::Save,
            RenderOp::FillPath { path: path.clone(), color: Paint::Packed { color: 0xFFFF00FF } },
            RenderOp::StrokePath {
                path,
                width: 20 * UNIT,
                color: Paint::Packed { color: 0xFF0000FF },
            },
            RenderOp::Restore,
        ],
    );
}

#[test]
fn command_ops_text_translates_to_anchor() {
    let cmd = stroke_only(
        CommandType::Text { font: String::from("Sans 16"), text: String::from("Hi") },
        units(50, 300),
    );
    let path = cmd.build_path();
    let ops = cmd.draw_ops();
    assert_eq!(
        ops,
        vec![
            RenderOp::Save,
            RenderOp::Translate { p: units(50, 300) },
            RenderOp::StrokePath {
                path,
                width: 2 * UNIT,
                color: Paint::Packed { color: 0xFF0000FF },
            },
            RenderOp::Restore,
        ],
    );
}

#[test]
fn rounded_rect_rounds_corner_and_extents() {
    // left 0.4 units, top -10.5 units, width 10.1, height 21.5
    let s = Selection::new(pt(400, -10_500), pt(10_500, 11_000));
    let r = s.rounded_rect();
    assert_eq!(r, Rect { x: 0, y: -11_000, width: 10_000, height: 22_000 });
}

#[test]
fn border_rect_is_half_unit_out() {
    let s = Selection::new(units(0, 0), units(10, 10));
    let r = s.border_rect();
    assert_eq!(
        r,
        Rect { x: -UNIT / 2, y: -UNIT / 2, width: 10 * UNIT + UNIT, height: 10 * UNIT + UNIT },
    );
}

#[test]
fn overlay_active_selection_masks_and_strokes() {
    let s = Selection::new(units(0, 0), pt(10_400, 9_600));
    let (w, h) = (800 * UNIT, 600 * UNIT);
    let ops = s.draw_ops(w, h);
    assert_eq!(
        ops,
        vec![
            RenderOp::PushMask,
            RenderOp::AppendColor {
                color: Paint::Packed { color: WHITE },
                rect: Rect { x: 0, y: 0, width: 10_000, height: 10_000 },
            },
            RenderOp::Pop,
            RenderOp::AppendColor {
                color: Paint::DimBlack,
                rect: Rect { x: 0, y: 0, width: w, height: h },
            },
            RenderOp::Pop,
            RenderOp::StrokePath {
                path: vec![
                    PathVerb::Rect {
                        rect: Rect { x: -500, y: -500, width: 11_000, height: 11_000 },
                    },
                ],
                width: UNIT,
                color: Paint::Packed { color: WHITE },
            },
        ],
    );
}

#[test]
fn overlay_degenerate_selection_dims_everything() {
    let dim = vec![
        RenderOp::AppendColor {
            color: Paint::DimBlack,
            rect: Rect { x: 0, y: 0, width: 800, height: 600 },
        },
    ];
    let zero_width = Selection::new(pt(5, 5), pt(5, 9));
    assert_eq!(zero_width.draw_ops(800, 600), dim);
    let zero_height = Selection::new(pt(5, 5), pt(9, 5));
    assert_eq!(zero_height.draw_ops(800, 600), dim);
    assert_eq!(NoSelection::new().draw_ops(800, 600), dim);
    let none = MaybeSelection::NoSelection(NoSelection::new());
    assert_eq!(none.draw_ops(800, 600), dim);
}

#[test]
fn replay_draws_commands_in_list_order() {
    let a = stroke_only(CommandType::Line { end: units(10, 10) }, units(0, 0));
    let b = Command {
        command_type: CommandType::Circle { end: units(30, 30) },
        start: units(20, 20),
        color: 0x00FF00FF,
        width: UNIT,
        fill_color: Some(0x0000FFFF),
    };
    let mut area = EditingArea::new();
    area.undo_stack.push(a.clone());
    area.undo_stack.push(b.clone());
    let (w, h) = (800 * UNIT, 600 * UNIT);
    let ops = area.snapshot(w, h);

    let mut expected = a.draw_ops();
    expected.extend(b.draw_ops());
    expected.extend(area.selection.draw_ops(w, h));
    assert_eq!(ops, expected);
}

#[test]
fn permuting_commands_permutes_only_their_blocks() {
    let a = stroke_only(CommandType::Line { end: units(10, 10) }, units(0, 0));
    let b = stroke_only(CommandType::Arrow { end: units(100, 0) }, units(40, 40));

    let mut forward = EditingArea::new();
    forward.undo_stack.push(a.clone());
    forward.undo_stack.push(b.clone());
    let mut backward = EditingArea::new();
    backward.undo_stack.push(b.clone());
    backward.undo_stack.push(a.clone());

    let ops_forward = forward.snapshot(800, 600);
    let ops_backward = backward.snapshot(800, 600);

    // Same blocks, different order: each command's own geometry is intact.
    let block_a = a.draw_ops();
    let block_b = b.draw_ops();
    let overlay = NoSelection::new().draw_ops(800, 600);
    let mut expected_forward = block_a.clone();
    expected_forward.extend(block_b.clone());
    expected_forward.extend(overlay.clone());
    let mut expected_backward = block_b;
    expected_backward.extend(block_a);
    expected_backward.extend(overlay);
    assert_eq!(ops_forward, expected_forward);
    assert_eq!(ops_backward, expected_backward);
    assert_ne!(ops_forward, ops_backward);
}

#[test]
fn snapshot_of_empty_scene_is_the_overlay_alone() {
    let area = EditingArea::new();
    let ops = area.snapshot(800, 600);
    assert_eq!(ops, NoSelection::new().draw_ops(800, 600));
}

#[test]
fn drag_lifecycle() {
    let mut area = EditingArea::new();
    assert!(!area.active_drag);
    area.drag_begin(100, 200);
    assert!(area.active_drag);
    assert_eq!(
        area.selection,
        MaybeSelection::Selection(Selection::new(pt(100, 200), pt(100, 200))),
    );
    // updates carry offsets from the drag start
    area.drag_update(30, -40);
    assert_eq!(
        area.selection,
        MaybeSelection::Selection(Selection::new(pt(100, 200), pt(130, 160))),
    );
    area.drag_update(50, 60);
    assert_eq!(
        area.selection,
        MaybeSelection::Selection(Selection::new(pt(100, 200), pt(150, 260))),
    );
    area.drag_end();
    assert!(!area.active_drag);
    assert_eq!(
        area.selection,
        MaybeSelection::Selection(Selection::new(pt(100, 200), pt(150, 260))),
    );
}

#[test]
fn drag_update_without_selection_starts_fresh() {
    let mut area = EditingArea::new();
    area.drag_update(12, 34);
    assert_eq!(
        area.selection,
        MaybeSelection::Selection(Selection::new(pt(12, 34), pt(12, 34))),
    );
}
