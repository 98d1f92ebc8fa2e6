use vstd::prelude::*;

use crate::command::{command_verbs, Command, CommandType, CommandView, PathVerb, PathVerbView};
use crate::geom::{coord_in_range, round_to_unit, round_unit, Point, Rect, UNIT};
use crate::selection::{MaybeSelection, NoSelection, Selection};

verus! {

/// Packed white, `0xRRGGBBAA`: every channel decodes to 1.
pub const WHITE: u32 = 0xFFFF_FFFF;

/// A color a render surface paints with: a packed `0xRRGGBBAA` value, or
/// black at half opacity, which no packed byte encodes exactly.
#[derive(Clone, Copy, Debug, PartialEq, Eq, Structural)]
pub enum Paint {
    Packed { color: u32 },
    DimBlack,
}

/// One instruction to the render surface, in the order the surface must
/// execute them. `FillPath` uses the nonzero/winding fill rule; `PushMask`
/// opens an inverted-alpha mask group that two `Pop`s end (the first pop
/// finishes the mask, the second stops using it).
#[derive(Clone, Debug, PartialEq)]
pub enum RenderOp {
    Save,
    Restore,
    Translate { p: Point },
    PushMask,
    Pop,
    FillPath { path: Vec<PathVerb>, color: Paint },
    StrokePath { path: Vec<PathVerb>, width: i64, color: Paint },
    AppendColor { color: Paint, rect: Rect },
}

/// Mathematical image of `RenderOp`.
#[verifier::ext_equal]
pub enum RenderOpView {
    Save,
    Restore,
    Translate { p: Point },
    PushMask,
    Pop,
    FillPath { path: Seq<PathVerbView>, color: Paint },
    StrokePath { path: Seq<PathVerbView>, width: i64, color: Paint },
    AppendColor { color: Paint, rect: Rect },
}

impl DeepView for RenderOp {
    type V = RenderOpView;

    open spec fn deep_view(&self) -> RenderOpView {
        match self {
            RenderOp::Save => RenderOpView::Save,
            RenderOp::Restore => RenderOpView::Restore,
            RenderOp::Translate { p } => RenderOpView::Translate { p: *p },
            RenderOp::PushMask => RenderOpView::PushMask,
            RenderOp::Pop => RenderOpView::Pop,
            RenderOp::FillPath { path, color } => RenderOpView::FillPath {
                path: path.deep_view(),
                color: *color,
            },
            RenderOp::StrokePath { path, width, color } => RenderOpView::StrokePath {
                path: path.deep_view(),
                width: *width,
                color: *color,
            },
            RenderOp::AppendColor { color, rect } => RenderOpView::AppendColor {
                color: *color,
                rect: *rect,
            },
        }
    }
}

/// The surface instructions one command expands to: save the surface state,
/// anchor text at its start point, fill the path first if a fill color is
/// present, always stroke it, restore.
pub open spec fn command_ops(c: CommandView) -> Seq<RenderOpView> {
    seq![RenderOpView::Save] + (match c.command_type {
        crate::command::CommandTypeView::Text { .. } => seq![
            RenderOpView::Translate { p: c.start },
        ],
        _ => Seq::<RenderOpView>::empty(),
    }) + (match c.fill_color {
        Some(f) => seq![
            RenderOpView::FillPath {
                path: command_verbs(c),
                color: Paint::Packed { color: f },
            },
        ],
        None => Seq::<RenderOpView>::empty(),
    }) + seq![
        RenderOpView::StrokePath {
            path: command_verbs(c),
            width: c.width,
            color: Paint::Packed { color: c.color },
        },
        RenderOpView::Restore,
    ]
}

impl Command {
    /// Expands the command into the render-surface instructions that draw it.
    pub fn draw_ops(&self) -> (r: Vec<RenderOp>)
        requires
            self.wf(),
        ensures
            r.deep_view() == command_ops(self.deep_view()),
    {
        let mut out: Vec<RenderOp> = Vec::new();
        out.push(RenderOp::Save);
        if let CommandType::Text { .. } = &self.command_type {
            out.push(RenderOp::Translate { p: self.start });
        }
        if let Some(f) = self.fill_color {
            let path = self.build_path();
            out.push(RenderOp::FillPath { path, color: Paint::Packed { color: f } });
        }
        let path = self.build_path();
        out.push(RenderOp::StrokePath {
            path,
            width: self.width,
            color: Paint::Packed { color: self.color },
        });
        out.push(RenderOp::Restore);
        proof {
            assert(out.deep_view() =~= command_ops(self.deep_view()));
        }
        out
    }
}

/// One semi-transparent black rectangle over the whole `w` by `h` surface:
/// nothing is selected, everything is dimmed.
pub open spec fn dim_ops(w: i64, h: i64) -> Seq<RenderOpView> {
    seq![
        RenderOpView::AppendColor {
            color: Paint::DimBlack,
            rect: Rect { x: 0, y: 0, width: w, height: h },
        },
    ]
}

impl Selection {
    /// The selection's rounded rectangle: top-left corner and extents each
    /// rounded to the nearest whole drawing unit, independently.
    pub open spec fn rounded_rect_spec(self) -> Rect {
        Rect {
            x: round_unit(self.left_spec() as int) as i64,
            y: round_unit(self.top_spec() as int) as i64,
            width: round_unit(self.width_spec()) as i64,
            height: round_unit(self.height_spec()) as i64,
        }
    }

    /// The rounded rectangle grown by half a unit on every side, so that a
    /// one-unit-wide stroke along it is pixel-aligned instead of straddling
    /// the boundary.
    pub open spec fn border_rect_spec(self) -> Rect {
        let rounded = self.rounded_rect_spec();
        Rect {
            x: (rounded.x - UNIT / 2) as i64,
            y: (rounded.y - UNIT / 2) as i64,
            width: (rounded.width + UNIT) as i64,
            height: (rounded.height + UNIT) as i64,
        }
    }

    /// Converts the selection to its rounded whole-unit rectangle.
    pub fn rounded_rect(&self) -> (r: Rect)
        requires
            self.in_range(),
        ensures
            r == self.rounded_rect_spec(),
    {
        let top_left = self.top_left();
        Rect {
            x: round_to_unit(top_left.x),
            y: round_to_unit(top_left.y),
            width: round_to_unit(self.width()),
            height: round_to_unit(self.height()),
        }
    }

    /// Converts the selection to the rectangle a one-unit border is stroked
    /// along.
    pub fn border_rect(&self) -> (r: Rect)
        requires
            self.in_range(),
        ensures
            r == self.border_rect_spec(),
    {
        let rounded = self.rounded_rect();
        Rect {
            x: rounded.x - UNIT / 2,
            y: rounded.y - UNIT / 2,
            width: rounded.width + UNIT,
            height: rounded.height + UNIT,
        }
    }

    /// The overlay for this selection on a `w` by `h` surface. A selection
    /// without positive extent dims the whole surface; an active one dims
    /// everything but its rounded rectangle (cut out through an
    /// inverted-alpha mask) and strokes a one-unit white border around it.
    pub open spec fn overlay_ops_spec(self, w: i64, h: i64) -> Seq<RenderOpView> {
        if self.width_spec() <= 0 || self.height_spec() <= 0 {
            dim_ops(w, h)
        } else {
            seq![
                RenderOpView::PushMask,
                RenderOpView::AppendColor {
                    color: Paint::Packed { color: WHITE },
                    rect: self.rounded_rect_spec(),
                },
                RenderOpView::Pop,
                RenderOpView::AppendColor {
                    color: Paint::DimBlack,
                    rect: Rect { x: 0, y: 0, width: w, height: h },
                },
                RenderOpView::Pop,
                RenderOpView::StrokePath {
                    path: seq![PathVerbView::Rect { rect: self.border_rect_spec() }],
                    width: UNIT,
                    color: Paint::Packed { color: WHITE },
                },
            ]
        }
    }

    /// Draws the selection overlay onto a `width` by `height` surface.
    pub fn draw_ops(&self, width: i64, height: i64) -> (r: Vec<RenderOp>)
        requires
            self.in_range(),
        ensures
            r.deep_view() == self.overlay_ops_spec(width, height),
    {
        let mut out: Vec<RenderOp> = Vec::new();
        let w = self.width();
        let h = self.height();
        if w <= 0 || h <= 0 {
            out.push(RenderOp::AppendColor {
                color: Paint::DimBlack,
                rect: Rect { x: 0, y: 0, width, height },
            });
            proof {
                assert(out.deep_view() =~= self.overlay_ops_spec(width, height));
            }
            return out;
        }
        out.push(RenderOp::PushMask);
        out.push(RenderOp::AppendColor {
            color: Paint::Packed { color: WHITE },
            rect: self.rounded_rect(),
        });
        out.push(RenderOp::Pop);
        out.push(RenderOp::AppendColor {
            color: Paint::DimBlack,
            rect: Rect { x: 0, y: 0, width, height },
        });
        out.push(RenderOp::Pop);
        let mut border_path: Vec<PathVerb> = Vec::new();
        border_path.push(PathVerb::Rect { rect: self.border_rect() });
        out.push(RenderOp::StrokePath {
            path: border_path,
            width: UNIT,
            color: Paint::Packed { color: WHITE },
        });
        proof {
            assert(out.deep_view() =~~= self.overlay_ops_spec(width, height));
        }
        out
    }
}

impl NoSelection {
    /// Draws the bare dimming overlay: one semi-transparent black rectangle
    /// over the whole surface.
    pub fn draw_ops(&self, width: i64, height: i64) -> (r: Vec<RenderOp>)
        ensures
            r.deep_view() == dim_ops(width, height),
    {
        let mut out: Vec<RenderOp> = Vec::new();
        out.push(RenderOp::AppendColor {
            color: Paint::DimBlack,
            rect: Rect { x: 0, y: 0, width, height },
        });
        proof {
            assert(out.deep_view() =~= dim_ops(width, height));
        }
        out
    }
}

/// The overlay for the current selection state.
pub open spec fn maybe_selection_ops(sel: MaybeSelection, w: i64, h: i64) -> Seq<RenderOpView> {
    match sel {
        MaybeSelection::Selection(s) => s.overlay_ops_spec(w, h),
        MaybeSelection::NoSelection(_) => dim_ops(w, h),
    }
}

impl MaybeSelection {
    /// The selection state is in range whenever an active selection is.
    pub open spec fn in_range(self) -> bool {
        match self {
            MaybeSelection::Selection(s) => s.in_range(),
            MaybeSelection::NoSelection(_) => true,
        }
    }

    /// Runtime test of [`MaybeSelection::in_range`], for callers outside the
    /// library.
    pub fn is_in_range(&self) -> (r: bool)
        ensures
            r == self.in_range(),
    {
        match self {
            MaybeSelection::Selection(s) => s.is_in_range(),
            MaybeSelection::NoSelection(_) => true,
        }
    }

    /// Draws the overlay of the current selection state.
    pub fn draw_ops(&self, width: i64, height: i64) -> (r: Vec<RenderOp>)
        requires
            self.in_range(),
        ensures
            r.deep_view() == maybe_selection_ops(*self, width, height),
    {
        match self {
            MaybeSelection::Selection(s) => s.draw_ops(width, height),
            MaybeSelection::NoSelection(n) => n.draw_ops(width, height),
        }
    }
}

/// The instructions for an ordered command list: each command's block of
/// instructions, in list order. Later entries render on top.
pub open spec fn commands_ops(cs: Seq<CommandView>) -> Seq<RenderOpView>
    decreases cs.len(),
{
    if cs.len() == 0 {
        Seq::empty()
    } else {
        command_ops(cs.first()) + commands_ops(cs.drop_first())
    }
}

/// Everything one scene draws: the commands in list order, then the
/// selection overlay on top of them.
pub open spec fn scene_ops(
    cs: Seq<CommandView>,
    sel: MaybeSelection,
    w: i64,
    h: i64,
) -> Seq<RenderOpView> {
    commands_ops(cs) + maybe_selection_ops(sel, w, h)
}

/// Replay is blockwise: the instructions of two lists drawn back to back are
/// the instructions of the first followed by those of the second. Together
/// with the definition of `commands_ops` this pins replay to list order,
/// each command's block depending on that command alone.
pub proof fn lemma_commands_ops_concat(a: Seq<CommandView>, b: Seq<CommandView>)
    ensures
        commands_ops(a + b) == commands_ops(a) + commands_ops(b),
    decreases a.len(),
{
    if a.len() == 0 {
        assert(a + b =~= b);
        assert(commands_ops(a) + commands_ops(b) =~= commands_ops(b));
    } else {
        assert((a + b).first() == a.first());
        assert((a + b).drop_first() =~= a.drop_first() + b);
        lemma_commands_ops_concat(a.drop_first(), b);
        assert(command_ops(a.first()) + (commands_ops(a.drop_first()) + commands_ops(b)) =~= (
        command_ops(a.first()) + commands_ops(a.drop_first())) + commands_ops(b));
    }
}

/// The instructions of a one-command list are that command's block.
pub proof fn lemma_commands_ops_singleton(c: CommandView)
    ensures
        commands_ops(seq![c]) == command_ops(c),
{
    assert(seq![c].drop_first() =~= Seq::<CommandView>::empty());
    assert(commands_ops(Seq::<CommandView>::empty()) == Seq::<RenderOpView>::empty());
    assert(command_ops(c) + Seq::<RenderOpView>::empty() =~= command_ops(c));
}

/// Exchanging two neighbouring commands exchanges exactly their instruction
/// blocks: everything either scene draws is the same four block groups, with
/// only the order of the two exchanged blocks (the apparent z-order)
/// differing; no command's own block changes.
pub proof fn lemma_replay_swap_changes_only_order(
    p: Seq<CommandView>,
    a: CommandView,
    b: CommandView,
    q: Seq<CommandView>,
    sel: MaybeSelection,
    w: i64,
    h: i64,
)
    ensures
        scene_ops(p + seq![a, b] + q, sel, w, h) == commands_ops(p) + command_ops(a)
            + command_ops(b) + commands_ops(q) + maybe_selection_ops(sel, w, h),
        scene_ops(p + seq![b, a] + q, sel, w, h) == commands_ops(p) + command_ops(b)
            + command_ops(a) + commands_ops(q) + maybe_selection_ops(sel, w, h),
{
    lemma_commands_ops_concat(p + seq![a, b], q);
    lemma_commands_ops_concat(p, seq![a, b]);
    lemma_commands_ops_concat(p + seq![b, a], q);
    lemma_commands_ops_concat(p, seq![b, a]);
    lemma_commands_ops_pair(a, b);
    lemma_commands_ops_pair(b, a);
    assert(commands_ops(p + seq![a, b] + q) + maybe_selection_ops(sel, w, h) =~= commands_ops(p)
        + command_ops(a) + command_ops(b) + commands_ops(q) + maybe_selection_ops(sel, w, h));
    assert(commands_ops(p + seq![b, a] + q) + maybe_selection_ops(sel, w, h) =~= commands_ops(p)
        + command_ops(b) + command_ops(a) + commands_ops(q) + maybe_selection_ops(sel, w, h));
}

/// The instructions of a two-command list are the two blocks in order.
pub proof fn lemma_commands_ops_pair(a: CommandView, b: CommandView)
    ensures
        commands_ops(seq![a, b]) == command_ops(a) + command_ops(b),
{
    assert(seq![a, b].drop_first() =~= seq![b]);
    lemma_commands_ops_singleton(b);
}

/// The state behind an editing surface: the ordered command list (append-only
/// from this library's point of view), the current selection state, and
/// whether a drag is in progress. A host widget owns one value of this,
/// forwards pointer-drag events to it, and asks it for the scene to render.
pub struct EditingArea {
    pub undo_stack: Vec<Command>,
    pub selection: MaybeSelection,
    pub active_drag: bool,
}

impl EditingArea {
    /// Every command's and the selection's coordinates are in range.
    pub open spec fn wf(self) -> bool {
        (forall|i: int|
            0 <= i < self.undo_stack@.len() ==> (#[trigger] self.undo_stack@[i]).wf())
            && self.selection.in_range()
    }

    /// Runtime test of [`EditingArea::wf`], for callers outside the library.
    pub fn is_well_formed(&self) -> (r: bool)
        ensures
            r == self.wf(),
    {
        let mut i: usize = 0;
        while i < self.undo_stack.len()
            invariant
                0 <= i <= self.undo_stack@.len(),
                forall|j: int| 0 <= j < i ==> (#[trigger] self.undo_stack@[j]).wf(),
            decreases self.undo_stack@.len() - i,
        {
            if !self.undo_stack[i].is_well_formed() {
                return false;
            }
            i = i + 1;
        }
        self.selection.is_in_range()
    }

    /// A fresh editing area: no commands, nothing selected, no drag running.
    pub fn new() -> (r: EditingArea)
        ensures
            r.undo_stack@.len() == 0,
            r.selection == MaybeSelection::NoSelection(NoSelection),
            !r.active_drag,
    {
        EditingArea {
            undo_stack: Vec::new(),
            selection: MaybeSelection::NoSelection(NoSelection),
            active_drag: false,
        }
    }

    /// A drag begins at `(x, y)`: the selection becomes a fresh zero-area
    /// rectangle with both corners there, and the drag is marked active.
    pub fn drag_begin(&mut self, x: i64, y: i64)
        ensures
            final(self).selection == MaybeSelection::Selection(
                Selection { start: Point { x, y }, end: Point { x, y } },
            ),
            final(self).active_drag,
            final(self).undo_stack == old(self).undo_stack,
    {
        self.active_drag = true;
        self.selection = MaybeSelection::Selection(
            Selection { start: Point { x, y }, end: Point { x, y } },
        );
    }

    /// A drag update with the gesture's offsets from the drag start: the end
    /// corner moves to the start corner plus the offset. Without an active
    /// selection the update starts a fresh zero-area one at `(x, y)`.
    pub fn drag_update(&mut self, x: i64, y: i64)
        requires
            old(self).selection.in_range(),
            coord_in_range(x),
            coord_in_range(y),
        ensures
            final(self).selection == match old(self).selection {
                MaybeSelection::Selection(s) => MaybeSelection::Selection(
                    Selection {
                        start: s.start,
                        end: Point { x: (s.start.x + x) as i64, y: (s.start.y + y) as i64 },
                    },
                ),
                MaybeSelection::NoSelection(_) => MaybeSelection::Selection(
                    Selection { start: Point { x, y }, end: Point { x, y } },
                ),
            },
            final(self).active_drag == old(self).active_drag,
            final(self).undo_stack == old(self).undo_stack,
    {
        let sel = match &self.selection {
            MaybeSelection::Selection(s) => {
                let start = s.start();
                Selection { start, end: Point { x: start.x + x, y: start.y + y } }
            },
            MaybeSelection::NoSelection(_) => {
                Selection { start: Point { x, y }, end: Point { x, y } }
            },
        };
        self.selection = MaybeSelection::Selection(sel);
    }

    /// The drag ends; the selection keeps its last value.
    pub fn drag_end(&mut self)
        ensures
            !final(self).active_drag,
            final(self).selection == old(self).selection,
            final(self).undo_stack == old(self).undo_stack,
    {
        self.active_drag = false;
    }

    /// Renders the scene: every command in list order, later entries on top,
    /// then the selection overlay over everything.
    pub fn snapshot(&self, width: i64, height: i64) -> (r: Vec<RenderOp>)
        requires
            self.wf(),
        ensures
            r.deep_view() == scene_ops(
                self.undo_stack.deep_view(),
                self.selection,
                width,
                height,
            ),
    {
        let mut out: Vec<RenderOp> = Vec::new();
        let ghost dv = self.undo_stack.deep_view();
        for i in 0..self.undo_stack.len()
            invariant
                out.deep_view() == commands_ops(dv.take(i as int)),
                dv == self.undo_stack.deep_view(),
                dv.len() == self.undo_stack.len(),
                self.wf(),
        {
            let ghost pre = out.deep_view();
            let mut ops = self.undo_stack[i].draw_ops();
            proof {
                assert(ops.deep_view() == command_ops(dv[i as int]));
            }
            out.append(&mut ops);
            proof {
                assert(out.deep_view() =~= pre + command_ops(dv[i as int]));
                assert(dv.take(i + 1) =~= dv.take(i as int) + seq![dv[i as int]]);
                lemma_commands_ops_concat(dv.take(i as int), seq![dv[i as int]]);
                lemma_commands_ops_singleton(dv[i as int]);
                assert(out.deep_view() =~= commands_ops(dv.take(i + 1)));
            }
        }
        let ghost pre = out.deep_view();
        let mut overlay = self.selection.draw_ops(width, height);
        out.append(&mut overlay);
        proof {
            assert(dv.take(dv.len() as int) =~= dv);
            assert(out.deep_view() =~= pre + maybe_selection_ops(self.selection, width, height));
            assert(out.deep_view() =~= scene_ops(dv, self.selection, width, height));
        }
        out
    }
}

} // verus!
