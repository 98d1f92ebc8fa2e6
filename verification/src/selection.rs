use vstd::prelude::*;

use crate::geom::{coord_in_range, div_floor, Point, COORD_MAX, UNIT};

verus! {

/// A two-corner axis-aligned rectangle. The pair is unordered: either corner
/// may be numerically before the other, and every derived quantity is
/// computed from min/max of the raw corners on each call.
#[derive(Clone, Copy, Debug)]
pub struct Selection {
    pub start: Point,
    pub end: Point,
}

/// One of the eight control points used to reshape a selection:
/// four corners and four edge midpoints.
#[derive(Clone, Copy, Debug, PartialEq, Eq, Structural)]
pub enum DragHandle {
    TopLeft,
    TopRight,
    BottomLeft,
    BottomRight,
    Top,
    Bottom,
    Left,
    Right,
}

impl Selection {
    /// Both corners are within the library's coordinate range.
    pub open spec fn in_range(self) -> bool {
        self.start.in_range() && self.end.in_range()
    }

    /// The selection with the two corners exchanged.
    pub open spec fn swapped(self) -> Selection {
        Selection { start: self.end, end: self.start }
    }

    /// The selection with the corners' x coordinates exchanged.
    pub open spec fn mirrored_x(self) -> Selection {
        Selection {
            start: Point { x: self.end.x, y: self.start.y },
            end: Point { x: self.start.x, y: self.end.y },
        }
    }

    /// The selection with the corners' y coordinates exchanged.
    pub open spec fn mirrored_y(self) -> Selection {
        Selection {
            start: Point { x: self.start.x, y: self.end.y },
            end: Point { x: self.end.x, y: self.start.y },
        }
    }

    /// The same rectangle with `start` rewritten to the top-left corner and
    /// `end` to the bottom-right corner.
    pub open spec fn normalized(self) -> Selection {
        Selection {
            start: Point { x: self.left_spec(), y: self.top_spec() },
            end: Point { x: self.right_spec(), y: self.bottom_spec() },
        }
    }

    /// The same rectangle with `start` rewritten to the top-right corner and
    /// `end` to the bottom-left corner.
    pub open spec fn normalized_mirrored_x(self) -> Selection {
        Selection {
            start: Point { x: self.right_spec(), y: self.top_spec() },
            end: Point { x: self.left_spec(), y: self.bottom_spec() },
        }
    }

    pub open spec fn left_spec(self) -> i64 {
        if self.start.x <= self.end.x { self.start.x } else { self.end.x }
    }

    pub open spec fn right_spec(self) -> i64 {
        if self.start.x <= self.end.x { self.end.x } else { self.start.x }
    }

    pub open spec fn top_spec(self) -> i64 {
        if self.start.y <= self.end.y { self.start.y } else { self.end.y }
    }

    pub open spec fn bottom_spec(self) -> i64 {
        if self.start.y <= self.end.y { self.end.y } else { self.start.y }
    }

    pub open spec fn top_left_spec(self) -> Point {
        Point { x: self.left_spec(), y: self.top_spec() }
    }

    pub open spec fn top_right_spec(self) -> Point {
        Point { x: self.right_spec(), y: self.top_spec() }
    }

    pub open spec fn bottom_left_spec(self) -> Point {
        Point { x: self.left_spec(), y: self.bottom_spec() }
    }

    pub open spec fn bottom_right_spec(self) -> Point {
        Point { x: self.right_spec(), y: self.bottom_spec() }
    }

    /// Absolute horizontal extent.
    pub open spec fn width_spec(self) -> int {
        self.right_spec() - self.left_spec()
    }

    /// Absolute vertical extent.
    pub open spec fn height_spec(self) -> int {
        self.bottom_spec() - self.top_spec()
    }

    /// Midpoint of the two corners, each axis rounded toward minus infinity.
    pub open spec fn center_x_spec(self) -> int {
        (self.start.x + self.end.x) / 2
    }

    pub open spec fn center_y_spec(self) -> int {
        (self.start.y + self.end.y) / 2
    }

    pub fn new(start: Point, end: Point) -> (r: Selection)
        ensures
            r == (Selection { start, end }),
    {
        Selection { start, end }
    }

    /// A selection anchored at `start` whose `end` lies `width` to the right
    /// and `height` below.
    pub fn new_from_size(start: Point, width: i64, height: i64) -> (r: Selection)
        requires
            start.in_range(),
            coord_in_range(width),
            coord_in_range(height),
        ensures
            r.start == start,
            r.end.x == start.x + width,
            r.end.y == start.y + height,
    {
        let end = Point { x: start.x + width, y: start.y + height };
        Selection { start, end }
    }

    /// Runtime test of [`Selection::in_range`], for callers outside the
    /// library that must establish it before calling functions that require
    /// it.
    pub fn is_in_range(&self) -> (r: bool)
        ensures
            r == self.in_range(),
    {
        self.start.is_in_range() && self.end.is_in_range()
    }

    pub fn start(&self) -> (r: Point)
        ensures
            r == self.start,
    {
        self.start
    }

    pub fn end(&self) -> (r: Point)
        ensures
            r == self.end,
    {
        self.end
    }

    pub fn set_start(&mut self, start: Point)
        ensures
            *final(self) == (Selection { start, end: old(self).end }),
    {
        self.start = start;
    }

    pub fn set_end(&mut self, end: Point)
        ensures
            *final(self) == (Selection { start: old(self).start, end }),
    {
        self.end = end;
    }

    /// Returns the top-left corner of the selection.
    pub fn top_left(&self) -> (r: Point)
        ensures
            r == self.top_left_spec(),
    {
        let top = if self.start.y <= self.end.y { self.start.y } else { self.end.y };
        let left = if self.start.x <= self.end.x { self.start.x } else { self.end.x };
        Point { x: left, y: top }
    }

    /// Returns the top-right corner of the selection.
    pub fn top_right(&self) -> (r: Point)
        ensures
            r == self.top_right_spec(),
    {
        let top = if self.start.y <= self.end.y { self.start.y } else { self.end.y };
        let right = if self.start.x <= self.end.x { self.end.x } else { self.start.x };
        Point { x: right, y: top }
    }

    /// Returns the bottom-left corner of the selection.
    pub fn bottom_left(&self) -> (r: Point)
        ensures
            r == self.bottom_left_spec(),
    {
        let bottom = if self.start.y <= self.end.y { self.end.y } else { self.start.y };
        let left = if self.start.x <= self.end.x { self.start.x } else { self.end.x };
        Point { x: left, y: bottom }
    }

    /// Returns the bottom-right corner of the selection.
    pub fn bottom_right(&self) -> (r: Point)
        ensures
            r == self.bottom_right_spec(),
    {
        let bottom = if self.start.y <= self.end.y { self.end.y } else { self.start.y };
        let right = if self.start.x <= self.end.x { self.end.x } else { self.start.x };
        Point { x: right, y: bottom }
    }

    /// Returns the width of the selection.
    pub fn width(&self) -> (r: i64)
        requires
            self.in_range(),
        ensures
            r == self.width_spec(),
            0 <= r <= 2 * COORD_MAX,
    {
        if self.start.x <= self.end.x {
            self.end.x - self.start.x
        } else {
            self.start.x - self.end.x
        }
    }

    /// Returns the height of the selection.
    pub fn height(&self) -> (r: i64)
        requires
            self.in_range(),
        ensures
            r == self.height_spec(),
            0 <= r <= 2 * COORD_MAX,
    {
        if self.start.y <= self.end.y {
            self.end.y - self.start.y
        } else {
            self.start.y - self.end.y
        }
    }

    /// Returns the size of the selection as a tuple (width, height).
    pub fn size(&self) -> (r: (i64, i64))
        requires
            self.in_range(),
        ensures
            r.0 == self.width_spec(),
            r.1 == self.height_spec(),
    {
        (self.width(), self.height())
    }

    /// Returns the center of the selection.
    pub fn center(&self) -> (r: Point)
        requires
            self.in_range(),
        ensures
            r.x == self.center_x_spec(),
            r.y == self.center_y_spec(),
    {
        let center_x = div_floor(self.start.x + self.end.x, 2);
        let center_y = div_floor(self.start.y + self.end.y, 2);
        Point { x: center_x, y: center_y }
    }

    /// Alias for [`Self::center`] for the British.
    pub fn centre(&self) -> (r: Point)
        requires
            self.in_range(),
        ensures
            r.x == self.center_x_spec(),
            r.y == self.center_y_spec(),
    {
        self.center()
    }

    /// Returns the y coordinate of the top edge of the selection.
    pub fn top(&self) -> (r: i64)
        ensures
            r == self.top_spec(),
    {
        if self.start.y <= self.end.y { self.start.y } else { self.end.y }
    }

    /// Returns the y coordinate of the bottom edge of the selection.
    pub fn bottom(&self) -> (r: i64)
        ensures
            r == self.bottom_spec(),
    {
        if self.start.y <= self.end.y { self.end.y } else { self.start.y }
    }

    /// Returns the x coordinate of the left edge of the selection.
    pub fn left(&self) -> (r: i64)
        ensures
            r == self.left_spec(),
    {
        if self.start.x <= self.end.x { self.start.x } else { self.end.x }
    }

    /// Returns the x coordinate of the right edge of the selection.
    pub fn right(&self) -> (r: i64)
        ensures
            r == self.right_spec(),
    {
        if self.start.x <= self.end.x { self.end.x } else { self.start.x }
    }

    fn mirror_x(&mut self)
        ensures
            *final(self) == old(self).mirrored_x(),
    {
        let sx = self.start.x;
        self.start.x = self.end.x;
        self.end.x = sx;
    }

    fn mirror_y(&mut self)
        ensures
            *final(self) == old(self).mirrored_y(),
    {
        let sy = self.start.y;
        self.start.y = self.end.y;
        self.end.y = sy;
    }

    /// Mirrors the selection along the x-axis if `x` is true, and along the
    /// y-axis if `y` is true.
    fn conditional_mirror(&mut self, x: bool, y: bool)
        ensures
            *final(self) == if x && y {
                old(self).mirrored_x().mirrored_y()
            } else if x {
                old(self).mirrored_x()
            } else if y {
                old(self).mirrored_y()
            } else {
                *old(self)
            },
    {
        if x {
            self.mirror_x();
        }
        if y {
            self.mirror_y();
        }
    }

    /// Rewrites the corners so that `start` is the top-left one and `end`
    /// the bottom-right one; the rectangle itself is unchanged.
    fn normalize(&mut self)
        ensures
            *final(self) == old(self).normalized(),
    {
        let x_needed = self.start.x > self.end.x;
        let y_needed = self.start.y > self.end.y;
        self.conditional_mirror(x_needed, y_needed);
    }

    /// Rewrites the corners so that `start` is the top-right one and `end`
    /// the bottom-left one; the rectangle itself is unchanged.
    fn normalize_mirrored_x(&mut self)
        ensures
            *final(self) == old(self).normalized_mirrored_x(),
    {
        let x_needed = self.start.x < self.end.x;
        let y_needed = self.start.y > self.end.y;
        self.conditional_mirror(x_needed, y_needed);
    }

    /// Translates the selection by the given delta, keeping the same size:
    /// the width and height are preserved exactly and the center shifts by
    /// exactly `(dx, dy)`.
    pub fn move_relative(&mut self, dx: i64, dy: i64)
        requires
            old(self).in_range(),
            coord_in_range(dx),
            coord_in_range(dy),
        ensures
            final(self).start.x == old(self).start.x + dx,
            final(self).start.y == old(self).start.y + dy,
            final(self).end.x == old(self).end.x + dx,
            final(self).end.y == old(self).end.y + dy,
            final(self).width_spec() == old(self).width_spec(),
            final(self).height_spec() == old(self).height_spec(),
            final(self).center_x_spec() == old(self).center_x_spec() + dx,
            final(self).center_y_spec() == old(self).center_y_spec() + dy,
    {
        proof {
            vstd::arithmetic::div_mod::lemma_hoist_over_denominator(
                old(self).start.x + old(self).end.x, dx as int, 2nat);
            vstd::arithmetic::div_mod::lemma_hoist_over_denominator(
                old(self).start.y + old(self).end.y, dy as int, 2nat);
        }
        self.start.x = self.start.x + dx;
        self.start.y = self.start.y + dy;
        self.end.x = self.end.x + dx;
        self.end.y = self.end.y + dy;
    }

    /// Checks if the selection contains the given point, testing against the
    /// raw corners without normalizing first. This matches the rest of the
    /// API only when `start` is component-wise at most `end`; with reversed
    /// corners it answers `false` for every point, which callers must keep
    /// in mind (the looseness is kept deliberately).
    pub fn contains(&self, point: Point) -> (r: bool)
        ensures
            r == (self.start.x <= point.x <= self.end.x
                && self.start.y <= point.y <= self.end.y),
    {
        point.x >= self.start.x && point.x <= self.end.x && point.y >= self.start.y
            && point.y <= self.end.y
    }

    /// The selection after `reshape(handle, x, y)`: the corners are first
    /// rewritten into the convention that pins the dragged side to one stored
    /// field, then that field (corner handles: both coordinates; edge
    /// handles: the one coordinate) is overwritten.
    pub open spec fn reshaped(self, handle: DragHandle, x: i64, y: i64) -> Selection {
        let n = self.normalized();
        let m = self.normalized_mirrored_x();
        match handle {
            DragHandle::TopLeft => Selection { start: Point { x, y }, end: n.end },
            DragHandle::TopRight => Selection { start: Point { x, y }, end: m.end },
            DragHandle::BottomLeft => Selection { start: m.start, end: Point { x, y } },
            DragHandle::BottomRight => Selection { start: n.start, end: Point { x, y } },
            DragHandle::Top => Selection { start: Point { x: n.start.x, y }, end: n.end },
            DragHandle::Bottom => Selection { start: n.start, end: Point { x: n.end.x, y } },
            DragHandle::Left => Selection { start: Point { x, y: n.start.y }, end: n.end },
            DragHandle::Right => Selection { start: n.start, end: Point { x, y: n.end.y } },
        }
    }

    /// The selection after `reshape_relative(handle, dx, dy)`: as
    /// `reshaped`, except that the pinned field is shifted by the delta
    /// instead of overwritten.
    pub open spec fn reshaped_relative(self, handle: DragHandle, dx: i64, dy: i64) -> Selection {
        let n = self.normalized();
        let m = self.normalized_mirrored_x();
        match handle {
            DragHandle::TopLeft => self.reshaped(
                handle, (n.start.x + dx) as i64, (n.start.y + dy) as i64),
            DragHandle::TopRight => self.reshaped(
                handle, (m.start.x + dx) as i64, (m.start.y + dy) as i64),
            DragHandle::BottomLeft => self.reshaped(
                handle, (m.end.x + dx) as i64, (m.end.y + dy) as i64),
            DragHandle::BottomRight => self.reshaped(
                handle, (n.end.x + dx) as i64, (n.end.y + dy) as i64),
            DragHandle::Top => self.reshaped(handle, 0, (n.start.y + dy) as i64),
            DragHandle::Bottom => self.reshaped(handle, 0, (n.end.y + dy) as i64),
            DragHandle::Left => self.reshaped(handle, (n.start.x + dx) as i64, 0),
            DragHandle::Right => self.reshaped(handle, (n.end.x + dx) as i64, 0),
        }
    }

    /// Moves the selection's top-left corner to the given coordinates.
    fn move_top_left(&mut self, x: i64, y: i64)
        ensures
            *final(self) == old(self).reshaped(DragHandle::TopLeft, x, y),
    {
        self.normalize();
        self.start.x = x;
        self.start.y = y;
    }

    /// Translates the selection's top-left corner by the given delta.
    fn move_top_left_relative(&mut self, dx: i64, dy: i64)
        requires
            old(self).in_range(),
            coord_in_range(dx),
            coord_in_range(dy),
        ensures
            *final(self) == old(self).reshaped_relative(DragHandle::TopLeft, dx, dy),
    {
        self.normalize();
        self.start.x = self.start.x + dx;
        self.start.y = self.start.y + dy;
    }

    /// Moves the selection's top-right corner to the given coordinates.
    fn move_top_right(&mut self, x: i64, y: i64)
        ensures
            *final(self) == old(self).reshaped(DragHandle::TopRight, x, y),
    {
        self.normalize_mirrored_x();
        self.start.x = x;
        self.start.y = y;
    }

    /// Translates the selection's top-right corner by the given delta.
    fn move_top_right_relative(&mut self, dx: i64, dy: i64)
        requires
            old(self).in_range(),
            coord_in_range(dx),
            coord_in_range(dy),
        ensures
            *final(self) == old(self).reshaped_relative(DragHandle::TopRight, dx, dy),
    {
        self.normalize_mirrored_x();
        self.start.x = self.start.x + dx;
        self.start.y = self.start.y + dy;
    }

    /// Moves the selection's bottom-right corner to the given coordinates.
    fn move_bottom_right(&mut self, x: i64, y: i64)
        ensures
            *final(self) == old(self).reshaped(DragHandle::BottomRight, x, y),
    {
        self.normalize();
        self.end.x = x;
        self.end.y = y;
    }

    /// Translates the selection's bottom-right corner by the given delta.
    fn move_bottom_right_relative(&mut self, dx: i64, dy: i64)
        requires
            old(self).in_range(),
            coord_in_range(dx),
            coord_in_range(dy),
        ensures
            *final(self) == old(self).reshaped_relative(DragHandle::BottomRight, dx, dy),
    {
        self.normalize();
        self.end.x = self.end.x + dx;
        self.end.y = self.end.y + dy;
    }

    /// Moves the selection's bottom-left corner to the given coordinates.
    fn move_bottom_left(&mut self, x: i64, y: i64)
        ensures
            *final(self) == old(self).reshaped(DragHandle::BottomLeft, x, y),
    {
        self.normalize_mirrored_x();
        self.end.x = x;
        self.end.y = y;
    }

    /// Translates the selection's bottom-left corner by the given delta.
    fn move_bottom_left_relative(&mut self, dx: i64, dy: i64)
        requires
            old(self).in_range(),
            coord_in_range(dx),
            coord_in_range(dy),
        ensures
            *final(self) == old(self).reshaped_relative(DragHandle::BottomLeft, dx, dy),
    {
        self.normalize_mirrored_x();
        self.end.x = self.end.x + dx;
        self.end.y = self.end.y + dy;
    }

    /// Moves the selection's top edge to the given y coordinate.
    fn move_top(&mut self, y: i64)
        ensures
            *final(self) == old(self).reshaped(DragHandle::Top, 0, y),
    {
        self.normalize();
        self.start.y = y;
    }

    /// Translates the selection's top edge by the given y delta.
    fn move_top_relative(&mut self, dy: i64)
        requires
            old(self).in_range(),
            coord_in_range(dy),
        ensures
            *final(self) == old(self).reshaped_relative(DragHandle::Top, 0, dy),
    {
        self.normalize();
        self.start.y = self.start.y + dy;
    }

    /// Moves the selection's bottom edge to the given y coordinate.
    fn move_bottom(&mut self, y: i64)
        ensures
            *final(self) == old(self).reshaped(DragHandle::Bottom, 0, y),
    {
        self.normalize();
        self.end.y = y;
    }

    /// Translates the selection's bottom edge by the given y delta.
    fn move_bottom_relative(&mut self, dy: i64)
        requires
            old(self).in_range(),
            coord_in_range(dy),
        ensures
            *final(self) == old(self).reshaped_relative(DragHandle::Bottom, 0, dy),
    {
        self.normalize();
        self.end.y = self.end.y + dy;
    }

    /// Moves the selection's left edge to the given x coordinate.
    fn move_left(&mut self, x: i64)
        ensures
            *final(self) == old(self).reshaped(DragHandle::Left, x, 0),
    {
        self.normalize();
        self.start.x = x;
    }

    /// Translates the selection's left edge by the given x delta.
    fn move_left_relative(&mut self, dx: i64)
        requires
            old(self).in_range(),
            coord_in_range(dx),
        ensures
            *final(self) == old(self).reshaped_relative(DragHandle::Left, dx, 0),
    {
        self.normalize();
        self.start.x = self.start.x + dx;
    }

    /// Moves the selection's right edge to the given x coordinate.
    fn move_right(&mut self, x: i64)
        ensures
            *final(self) == old(self).reshaped(DragHandle::Right, x, 0),
    {
        self.normalize();
        self.end.x = x;
    }

    /// Translates the selection's right edge by the given x delta.
    fn move_right_relative(&mut self, dx: i64)
        requires
            old(self).in_range(),
            coord_in_range(dx),
        ensures
            *final(self) == old(self).reshaped_relative(DragHandle::Right, dx, 0),
    {
        self.normalize();
        self.end.x = self.end.x + dx;
    }

    /// Reshapes the selection based on the given drag handle and absolute
    /// coordinates; edge handles read only the coordinate along their axis.
    pub fn reshape(&mut self, handle: DragHandle, x: i64, y: i64)
        ensures
            *final(self) == old(self).reshaped(handle, x, y),
    {
        match handle {
            DragHandle::TopLeft => self.move_top_left(x, y),
            DragHandle::TopRight => self.move_top_right(x, y),
            DragHandle::BottomLeft => self.move_bottom_left(x, y),
            DragHandle::BottomRight => self.move_bottom_right(x, y),
            DragHandle::Top => self.move_top(y),
            DragHandle::Bottom => self.move_bottom(y),
            DragHandle::Left => self.move_left(x),
            DragHandle::Right => self.move_right(x),
        }
    }

    /// Reshapes the selection based on the given drag handle and deltas;
    /// edge handles read only the delta along their axis.
    pub fn reshape_relative(&mut self, handle: DragHandle, dx: i64, dy: i64)
        requires
            old(self).in_range(),
            coord_in_range(dx),
            coord_in_range(dy),
        ensures
            *final(self) == old(self).reshaped_relative(handle, dx, dy),
    {
        match handle {
            DragHandle::TopLeft => self.move_top_left_relative(dx, dy),
            DragHandle::TopRight => self.move_top_right_relative(dx, dy),
            DragHandle::BottomLeft => self.move_bottom_left_relative(dx, dy),
            DragHandle::BottomRight => self.move_bottom_right_relative(dx, dy),
            DragHandle::Top => self.move_top_relative(dy),
            DragHandle::Bottom => self.move_bottom_relative(dy),
            DragHandle::Left => self.move_left_relative(dx),
            DragHandle::Right => self.move_right_relative(dx),
        }
    }
}

impl PartialEq for Selection {
    /// Two selections are equal when they describe the same rectangle: the
    /// normalized top-left and bottom-right corners match. The raw corner
    /// convention is not part of identity.
    fn eq(&self, other: &Self) -> (r: bool) {
        let left_top_left = self.top_left();
        let left_bottom_right = self.bottom_right();
        let right_top_left = other.top_left();
        let right_bottom_right = other.bottom_right();
        left_top_left.x == right_top_left.x && left_top_left.y == right_top_left.y
            && left_bottom_right.x == right_bottom_right.x
            && left_bottom_right.y == right_bottom_right.y
    }
}

impl vstd::std_specs::cmp::PartialEqSpecImpl for Selection {
    open spec fn obeys_eq_spec() -> bool {
        true
    }

    open spec fn eq_spec(&self, other: &Self) -> bool {
        self.top_left_spec() == other.top_left_spec()
            && self.bottom_right_spec() == other.bottom_right_spec()
    }
}

impl Default for Selection {
    /// The default selection spans one whole drawing unit, not zero: an
    /// empty selection state is represented only by `NoSelection`.
    fn default() -> (r: Selection)
        ensures
            r == (Selection { start: Point { x: 0, y: 0 }, end: Point { x: UNIT, y: UNIT } }),
            r.width_spec() == UNIT,
            r.height_spec() == UNIT,
    {
        Selection { start: Point { x: 0, y: 0 }, end: Point { x: UNIT, y: UNIT } }
    }
}

/// Unit marker meaning "nothing is actively selected".
#[derive(Clone, Copy, Debug, PartialEq, Eq, Structural)]
pub struct NoSelection;

impl NoSelection {
    pub fn new() -> (r: Self)
        ensures
            r == NoSelection,
    {
        NoSelection
    }
}

impl Default for NoSelection {
    fn default() -> (r: Self)
        ensures
            r == NoSelection,
    {
        NoSelection
    }
}

/// The current selection state: either an active selection or none.
#[derive(Clone, Copy, Debug, PartialEq)]
pub enum MaybeSelection {
    Selection(Selection),
    NoSelection(NoSelection),
}

impl Default for MaybeSelection {
    fn default() -> (r: Self)
        ensures
            r == MaybeSelection::NoSelection(NoSelection),
    {
        MaybeSelection::NoSelection(NoSelection::new())
    }
}

/// Width, height and center never depend on the corner convention: swapping
/// the corners or mirroring either axis leaves all three unchanged.
pub proof fn lemma_extents_convention_independent(s: Selection)
    ensures
        s.swapped().width_spec() == s.width_spec(),
        s.swapped().height_spec() == s.height_spec(),
        s.swapped().center_x_spec() == s.center_x_spec(),
        s.swapped().center_y_spec() == s.center_y_spec(),
        s.mirrored_x().width_spec() == s.width_spec(),
        s.mirrored_x().height_spec() == s.height_spec(),
        s.mirrored_x().center_x_spec() == s.center_x_spec(),
        s.mirrored_x().center_y_spec() == s.center_y_spec(),
        s.mirrored_y().width_spec() == s.width_spec(),
        s.mirrored_y().height_spec() == s.height_spec(),
        s.mirrored_y().center_x_spec() == s.center_x_spec(),
        s.mirrored_y().center_y_spec() == s.center_y_spec(),
{
}

/// Normalization is idempotent: normalizing an already normalized selection
/// changes nothing.
pub proof fn lemma_normalize_idempotent(s: Selection)
    ensures
        s.normalized().normalized() == s.normalized(),
{
}

/// Dragging the bottom-right handle to `(x, y)` puts the bottom-right corner
/// there, whatever the prior corner convention, as long as the target does
/// not cross the fixed top-left corner (crossing it mirrors the rectangle,
/// and the dragged point becomes another corner).
pub proof fn lemma_reshape_bottom_right(s: Selection, x: i64, y: i64)
    requires
        x >= s.left_spec(),
        y >= s.top_spec(),
    ensures
        s.reshaped(DragHandle::BottomRight, x, y).bottom_right_spec() == (Point { x, y }),
{
}

} // verus!
