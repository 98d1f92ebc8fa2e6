use vstd::prelude::*;

use crate::geom::{div_floor, isqrt, sqrt_floor, Point, Rect, UNIT};

verus! {

/// Distance from the arrow's tip to the base of its head, in coordinate
/// ticks (15 drawing units).
pub const HEAD_LENGTH: i64 = 15 * UNIT;

/// Numerator and denominator of the control-point factor for approximating a
/// quarter ellipse with one cubic Bezier segment: (4/3)(sqrt(2) - 1).
pub const KAPPA_NUM: i64 = 5_522_847;

pub const KAPPA_DEN: i64 = 10_000_000;

/// The shape a command draws; a closed set of variants.
#[derive(Clone, Debug, PartialEq)]
pub enum CommandType {
    Rectangle { end: Point },
    Circle { end: Point },
    Line { end: Point },
    Arrow { end: Point },
    Text { font: String, text: String },
    Freehand { points: Vec<Point> },
}

/// An immutable drawing instruction: a shape anchored at `start`, stroked
/// `width` thick with `color`, optionally filled with `fill_color` first.
/// Colors are packed `0xRRGGBBAA`.
#[derive(Clone, Debug, PartialEq)]
pub struct Command {
    pub command_type: CommandType,
    pub start: Point,
    pub color: u32,
    pub width: i64,
    pub fill_color: Option<u32>,
}

/// Mathematical image of `CommandType`: strings and point lists as sequences.
#[verifier::ext_equal]
pub enum CommandTypeView {
    Rectangle { end: Point },
    Circle { end: Point },
    Line { end: Point },
    Arrow { end: Point },
    Text { font: Seq<char>, text: Seq<char> },
    Freehand { points: Seq<Point> },
}

/// Mathematical image of `Command`.
#[verifier::ext_equal]
pub struct CommandView {
    pub command_type: CommandTypeView,
    pub start: Point,
    pub color: u32,
    pub width: i64,
    pub fill_color: Option<u32>,
}

impl DeepView for Point {
    type V = Point;

    open spec fn deep_view(&self) -> Point {
        *self
    }
}

impl DeepView for CommandType {
    type V = CommandTypeView;

    open spec fn deep_view(&self) -> CommandTypeView {
        match self {
            CommandType::Rectangle { end } => CommandTypeView::Rectangle { end: *end },
            CommandType::Circle { end } => CommandTypeView::Circle { end: *end },
            CommandType::Line { end } => CommandTypeView::Line { end: *end },
            CommandType::Arrow { end } => CommandTypeView::Arrow { end: *end },
            CommandType::Text { font, text } => CommandTypeView::Text {
                font: font.deep_view(),
                text: text.deep_view(),
            },
            CommandType::Freehand { points } => CommandTypeView::Freehand {
                points: points.deep_view(),
            },
        }
    }
}

impl DeepView for Command {
    type V = CommandView;

    open spec fn deep_view(&self) -> CommandView {
        CommandView {
            command_type: self.command_type.deep_view(),
            start: self.start,
            color: self.color,
            width: self.width,
            fill_color: self.fill_color,
        }
    }
}

/// One vector-path primitive, the unit a path sink consumes. `Layout` stands
/// for the outline of `text` shaped under the `font` description by the text
/// shaper; the library passes both strings through uninterpreted.
#[derive(Clone, Debug, PartialEq)]
pub enum PathVerb {
    MoveTo { p: Point },
    LineTo { p: Point },
    CubicTo { c1: Point, c2: Point, p: Point },
    Rect { rect: Rect },
    Layout { font: String, text: String },
    Close,
}

/// Mathematical image of `PathVerb`.
#[verifier::ext_equal]
pub enum PathVerbView {
    MoveTo { p: Point },
    LineTo { p: Point },
    CubicTo { c1: Point, c2: Point, p: Point },
    Rect { rect: Rect },
    Layout { font: Seq<char>, text: Seq<char> },
    Close,
}

impl DeepView for PathVerb {
    type V = PathVerbView;

    open spec fn deep_view(&self) -> PathVerbView {
        match self {
            PathVerb::MoveTo { p } => PathVerbView::MoveTo { p: *p },
            PathVerb::LineTo { p } => PathVerbView::LineTo { p: *p },
            PathVerb::CubicTo { c1, c2, p } => PathVerbView::CubicTo {
                c1: *c1,
                c2: *c2,
                p: *p,
            },
            PathVerb::Rect { rect } => PathVerbView::Rect { rect: *rect },
            PathVerb::Layout { font, text } => PathVerbView::Layout {
                font: font.deep_view(),
                text: text.deep_view(),
            },
            PathVerb::Close => PathVerbView::Close,
        }
    }
}

/// The red channel of a packed `0xRRGGBBAA` color.
pub open spec fn red_of(c: u32) -> u32 {
    (c >> 24) & 0xFF
}

pub open spec fn green_of(c: u32) -> u32 {
    (c >> 16) & 0xFF
}

pub open spec fn blue_of(c: u32) -> u32 {
    (c >> 8) & 0xFF
}

pub open spec fn alpha_of(c: u32) -> u32 {
    c & 0xFF
}

/// Splits a packed `0xRRGGBBAA` color into its four channel bytes, most
/// significant first; each decodes to [0, 1] via division by 255.
pub fn decode_color(c: u32) -> (r: (u32, u32, u32, u32))
    ensures
        r.0 == red_of(c),
        r.1 == green_of(c),
        r.2 == blue_of(c),
        r.3 == alpha_of(c),
        r.0 <= 255 && r.1 <= 255 && r.2 <= 255 && r.3 <= 255,
{
    proof {
        assert((c >> 24) & 0xFF <= 255 && (c >> 16) & 0xFF <= 255 && (c >> 8) & 0xFF <= 255
            && c & 0xFF <= 255) by (bit_vector);
    }
    ((c >> 24) & 0xFF, (c >> 16) & 0xFF, (c >> 8) & 0xFF, c & 0xFF)
}

/// One rectangle primitive spanning `start` to `end`; the extents keep
/// their sign, the sink canonicalizes negative ones.
pub open spec fn rectangle_verbs(start: Point, end: Point) -> Seq<PathVerbView> {
    seq![
        PathVerbView::Rect {
            rect: Rect {
                x: start.x,
                y: start.y,
                width: (end.x - start.x) as i64,
                height: (end.y - start.y) as i64,
            },
        },
    ]
}

/// A single segment from `start` to `end`.
pub open spec fn line_verbs(start: Point, end: Point) -> Seq<PathVerbView> {
    seq![PathVerbView::MoveTo { p: start }, PathVerbView::LineTo { p: end }]
}

/// The shaft from `start` to `end` followed by an open chevron head: two
/// segments meeting at the tip, each `HEAD_LENGTH` along the shaft away from
/// it and `HEAD_LENGTH` to either side (the head opens at a right angle).
/// A zero-length arrow has no direction, so only the shaft is emitted.
pub open spec fn arrow_verbs(start: Point, end: Point) -> Seq<PathVerbView> {
    if start == end {
        seq![PathVerbView::MoveTo { p: start }, PathVerbView::LineTo { p: end }]
    } else {
        let dx = end.x - start.x;
        let dy = end.y - start.y;
        let len = sqrt_floor(dx * dx + dy * dy);
        let bx = end.x - dx * HEAD_LENGTH / len;
        let by = end.y - dy * HEAD_LENGTH / len;
        let ox = (0 - dy) * HEAD_LENGTH / len;
        let oy = dx * HEAD_LENGTH / len;
        seq![
            PathVerbView::MoveTo { p: start },
            PathVerbView::LineTo { p: end },
            PathVerbView::MoveTo { p: Point { x: (bx + ox) as i64, y: (by + oy) as i64 } },
            PathVerbView::LineTo { p: end },
            PathVerbView::LineTo { p: Point { x: (bx - ox) as i64, y: (by - oy) as i64 } },
            PathVerbView::MoveTo { p: end },
        ]
    }
}

/// `start`, then one segment to each listed point in order; no smoothing.
pub open spec fn freehand_verbs(start: Point, points: Seq<Point>) -> Seq<PathVerbView> {
    seq![PathVerbView::MoveTo { p: start }] + points.map_values(
        |p: Point| PathVerbView::LineTo { p },
    )
}

/// The shaped outline of `text` under `font`, anchored at the origin.
pub open spec fn text_verbs(font: Seq<char>, text: Seq<char>) -> Seq<PathVerbView> {
    seq![PathVerbView::Layout { font, text }]
}

/// An ellipse inscribed in the bounding box of `start` and `end`,
/// approximated by exactly four cubic Bezier segments, one per quadrant,
/// with control offsets `radius * KAPPA_NUM / KAPPA_DEN`. The path starts at
/// the rightmost point, proceeds counter-clockwise through top, left and
/// bottom, and closes.
pub open spec fn circle_verbs(start: Point, end: Point) -> Seq<PathVerbView> {
    let left = if start.x <= end.x { start.x } else { end.x };
    let right = if start.x <= end.x { end.x } else { start.x };
    let top = if start.y <= end.y { start.y } else { end.y };
    let bottom = if start.y <= end.y { end.y } else { start.y };
    let cx = (left + right) / 2;
    let cy = (top + bottom) / 2;
    let rx = (right - left) / 2;
    let ry = (bottom - top) / 2;
    let cdx = rx * KAPPA_NUM / KAPPA_DEN as int;
    let cdy = ry * KAPPA_NUM / KAPPA_DEN as int;
    seq![
        PathVerbView::MoveTo { p: Point { x: right, y: cy as i64 } },
        PathVerbView::CubicTo {
            c1: Point { x: right, y: (cy - cdy) as i64 },
            c2: Point { x: (cx + cdx) as i64, y: top },
            p: Point { x: cx as i64, y: top },
        },
        PathVerbView::CubicTo {
            c1: Point { x: (cx - cdx) as i64, y: top },
            c2: Point { x: left, y: (cy - cdy) as i64 },
            p: Point { x: left, y: cy as i64 },
        },
        PathVerbView::CubicTo {
            c1: Point { x: left, y: (cy + cdy) as i64 },
            c2: Point { x: (cx - cdx) as i64, y: bottom },
            p: Point { x: cx as i64, y: bottom },
        },
        PathVerbView::CubicTo {
            c1: Point { x: (cx + cdx) as i64, y: bottom },
            c2: Point { x: right, y: (cy + cdy) as i64 },
            p: Point { x: right, y: cy as i64 },
        },
        PathVerbView::Close,
    ]
}

/// The full path a command expands to, by kind.
pub open spec fn command_verbs(c: CommandView) -> Seq<PathVerbView> {
    match c.command_type {
        CommandTypeView::Rectangle { end } => rectangle_verbs(c.start, end),
        CommandTypeView::Circle { end } => circle_verbs(c.start, end),
        CommandTypeView::Line { end } => line_verbs(c.start, end),
        CommandTypeView::Arrow { end } => arrow_verbs(c.start, end),
        CommandTypeView::Text { font, text } => text_verbs(font, text),
        CommandTypeView::Freehand { points } => freehand_verbs(c.start, points),
    }
}

impl Command {
    /// Every coordinate the command's geometry computes with is in range.
    pub open spec fn wf(self) -> bool {
        self.start.in_range() && match self.command_type {
            CommandType::Rectangle { end } => end.in_range(),
            CommandType::Circle { end } => end.in_range(),
            CommandType::Line { end } => end.in_range(),
            CommandType::Arrow { end } => end.in_range(),
            CommandType::Text { .. } => true,
            CommandType::Freehand { .. } => true,
        }
    }

    /// Runtime test of [`Command::wf`], for callers outside the library.
    pub fn is_well_formed(&self) -> (r: bool)
        ensures
            r == self.wf(),
    {
        self.start.is_in_range() && match &self.command_type {
            CommandType::Rectangle { end } => end.is_in_range(),
            CommandType::Circle { end } => end.is_in_range(),
            CommandType::Line { end } => end.is_in_range(),
            CommandType::Arrow { end } => end.is_in_range(),
            CommandType::Text { .. } => true,
            CommandType::Freehand { .. } => true,
        }
    }

    fn path_rectangle(&self, out: &mut Vec<PathVerb>, end: Point)
        requires
            self.start.in_range(),
            end.in_range(),
        ensures
            final(out).deep_view() == old(out).deep_view() + rectangle_verbs(self.start, end),
    {
        let width = end.x - self.start.x;
        let height = end.y - self.start.y;
        let rect = Rect { x: self.start.x, y: self.start.y, width, height };
        out.push(PathVerb::Rect { rect });
        proof {
            assert(out.deep_view() =~= old(out).deep_view() + rectangle_verbs(self.start, end));
        }
    }

    fn path_line(&self, out: &mut Vec<PathVerb>, end: Point)
        ensures
            final(out).deep_view() == old(out).deep_view() + line_verbs(self.start, end),
    {
        out.push(PathVerb::MoveTo { p: self.start });
        out.push(PathVerb::LineTo { p: end });
        proof {
            assert(out.deep_view() =~= old(out).deep_view() + line_verbs(self.start, end));
        }
    }

    fn path_arrow(&self, out: &mut Vec<PathVerb>, end: Point)
        requires
            self.start.in_range(),
            end.in_range(),
        ensures
            final(out).deep_view() == old(out).deep_view() + arrow_verbs(self.start, end),
    {
        let start = self.start;
        out.push(PathVerb::MoveTo { p: start });
        out.push(PathVerb::LineTo { p: end });
        if start.x == end.x && start.y == end.y {
            proof {
                assert(out.deep_view() =~= old(out).deep_view() + arrow_verbs(start, end));
            }
            return;
        }
        let dx = end.x - start.x;
        let dy = end.y - start.y;
        proof {
            assert(0 <= dx * dx <= 4_000_000_000_000_000_000int) by (nonlinear_arith)
                requires -2_000_000_000 <= dx <= 2_000_000_000;
            assert(0 <= dy * dy <= 4_000_000_000_000_000_000int) by (nonlinear_arith)
                requires -2_000_000_000 <= dy <= 2_000_000_000;
        }
        let sq = dx * dx + dy * dy;
        let len64 = isqrt(sq as u64);
        proof {
            assert(len64 as int * (len64 as int) <= sq);
            if len64 == 0 {
                assert(dx * dx + dy * dy >= 1) by (nonlinear_arith)
                    requires dx != 0 || dy != 0;
                assert(false);
            }
            assert(len64 as int <= 3_000_000_000int) by (nonlinear_arith)
                requires
                    len64 as int * (len64 as int) <= 8_000_000_000_000_000_000int,
                    0 <= len64 as int,
            ;
        }
        let len = len64 as i64;
        let base_dx = div_floor(dx * HEAD_LENGTH, len);
        let base_dy = div_floor(dy * HEAD_LENGTH, len);
        let off_x = div_floor(-dy * HEAD_LENGTH, len);
        let off_y = div_floor(dx * HEAD_LENGTH, len);
        let base = Point { x: end.x - base_dx, y: end.y - base_dy };
        let head_left = Point { x: base.x + off_x, y: base.y + off_y };
        let head_right = Point { x: base.x - off_x, y: base.y - off_y };
        out.push(PathVerb::MoveTo { p: head_left });
        out.push(PathVerb::LineTo { p: end });
        out.push(PathVerb::LineTo { p: head_right });
        out.push(PathVerb::MoveTo { p: end });
        proof {
            assert(out.deep_view() =~= old(out).deep_view() + arrow_verbs(start, end));
        }
    }

    fn path_freehand(&self, out: &mut Vec<PathVerb>, points: &Vec<Point>)
        ensures
            final(out).deep_view() == old(out).deep_view() + freehand_verbs(
                self.start,
                points.deep_view(),
            ),
    {
        out.push(PathVerb::MoveTo { p: self.start });
        let ghost base = out.deep_view();
        for i in 0..points.len()
            invariant
                out.deep_view() == base + points.deep_view().take(i as int).map_values(
                    |p: Point| PathVerbView::LineTo { p },
                ),
                points.deep_view().len() == points.len(),
                base == old(out).deep_view() + seq![PathVerbView::MoveTo { p: self.start }],
        {
            let ghost pre = out.deep_view();
            out.push(PathVerb::LineTo { p: points[i] });
            proof {
                let f = |p: Point| PathVerbView::LineTo { p };
                assert(out.deep_view() =~= pre.push(
                    PathVerbView::LineTo { p: points@[i as int] },
                ));
                assert(points.deep_view().take(i + 1).map_values(f) =~= points.deep_view().take(
                    i as int,
                ).map_values(f).push(f(points@[i as int])));
                assert(out.deep_view() =~= base + points.deep_view().take(i + 1).map_values(f));
            }
        }
        proof {
            assert(points.deep_view().take(points.len() as int) =~= points.deep_view());
            assert(out.deep_view() =~= old(out).deep_view() + freehand_verbs(
                self.start,
                points.deep_view(),
            ));
        }
    }

    fn path_text(&self, out: &mut Vec<PathVerb>, font: &String, text: &String)
        ensures
            final(out).deep_view() == old(out).deep_view() + text_verbs(font@, text@),
    {
        out.push(PathVerb::Layout { font: font.clone(), text: text.clone() });
        proof {
            assert(out.deep_view() =~= old(out).deep_view() + text_verbs(font@, text@));
        }
    }

    fn path_circle(&self, out: &mut Vec<PathVerb>, end: Point)
        requires
            self.start.in_range(),
            end.in_range(),
        ensures
            final(out).deep_view() == old(out).deep_view() + circle_verbs(self.start, end),
    {
        let start = self.start;
        let left = if start.x <= end.x { start.x } else { end.x };
        let right = if start.x <= end.x { end.x } else { start.x };
        let top = if start.y <= end.y { start.y } else { end.y };
        let bottom = if start.y <= end.y { end.y } else { start.y };
        let cx = div_floor(left + right, 2);
        let cy = div_floor(top + bottom, 2);
        let rx = div_floor(right - left, 2);
        let ry = div_floor(bottom - top, 2);
        let cdx = div_floor(rx * KAPPA_NUM, KAPPA_DEN);
        let cdy = div_floor(ry * KAPPA_NUM, KAPPA_DEN);
        out.push(PathVerb::MoveTo { p: Point { x: right, y: cy } });
        out.push(PathVerb::CubicTo {
            c1: Point { x: right, y: cy - cdy },
            c2: Point { x: cx + cdx, y: top },
            p: Point { x: cx, y: top },
        });
        out.push(PathVerb::CubicTo {
            c1: Point { x: cx - cdx, y: top },
            c2: Point { x: left, y: cy - cdy },
            p: Point { x: left, y: cy },
        });
        out.push(PathVerb::CubicTo {
            c1: Point { x: left, y: cy + cdy },
            c2: Point { x: cx - cdx, y: bottom },
            p: Point { x: cx, y: bottom },
        });
        out.push(PathVerb::CubicTo {
            c1: Point { x: cx + cdx, y: bottom },
            c2: Point { x: right, y: cy + cdy },
            p: Point { x: right, y: cy },
        });
        out.push(PathVerb::Close);
        proof {
            assert(out.deep_view() =~= old(out).deep_view() + circle_verbs(start, end));
        }
    }

    /// Expands the command into the path it draws, as the ordered sequence
    /// of primitives a path sink would receive.
    pub fn build_path(&self) -> (r: Vec<PathVerb>)
        requires
            self.wf(),
        ensures
            r.deep_view() == command_verbs(self.deep_view()),
    {
        let mut out: Vec<PathVerb> = Vec::new();
        match &self.command_type {
            CommandType::Rectangle { end } => self.path_rectangle(&mut out, *end),
            CommandType::Line { end } => self.path_line(&mut out, *end),
            CommandType::Arrow { end } => self.path_arrow(&mut out, *end),
            CommandType::Freehand { points } => self.path_freehand(&mut out, points),
            CommandType::Text { font, text } => self.path_text(&mut out, font, text),
            CommandType::Circle { end } => self.path_circle(&mut out, *end),
        }
        proof {
            assert(out.deep_view() =~= command_verbs(self.deep_view()));
        }
        out
    }
}

} // verus!
