//! The document model consumed by the tools: page format, snap-grid
//! computation, and the auto-expanding document height.

use crate::geometry::Vec2;
use crate::num::{
    div_floor, round_to_multiple_spec, COORD_LIMIT, GRID_LIMIT, SNAP_INPUT_LIMIT,
    STROKE_POS_LIMIT,
};
use crate::store::StrokeStore;
use crate::widget_flags::WidgetFlags;
use vstd::prelude::*;

verus! {

/// The page format: the size of one page, in milli-units.
#[derive(Clone, Copy, Debug, PartialEq, Eq, Structural)]
pub struct Format {
    pub width: i64,
    pub height: i64,
}

impl Format {
    /// Page sides are positive and within the input coordinate range.
    pub open spec fn wf(self) -> bool {
        0 < self.width <= COORD_LIMIT && 0 < self.height <= COORD_LIMIT
    }
}

/// The document: its page format, the snap grid, and the current height the
/// document has been expanded to.
#[derive(Clone, Copy, Debug, PartialEq, Eq, Structural)]
pub struct Document {
    /// The page format.
    pub format: Format,
    /// Whether positions handed to `snap_position` snap to the grid.
    pub snap_positions: bool,
    /// The snap-grid step, in milli-units.
    pub grid_size: i64,
    /// Whether the document grows automatically to fit its content.
    pub autoexpand: bool,
    /// The height the document is currently expanded to, in milli-units.
    pub height: i64,
}

impl Document {
    /// The format is valid, the grid step in range, and the height within
    /// the range reachable by expansion.
    pub open spec fn wf(self) -> bool {
        &&& self.format.wf()
        &&& 0 < self.grid_size <= GRID_LIMIT
        &&& 0 <= self.height <= STROKE_POS_LIMIT + COORD_LIMIT
    }

    /// Where a position snaps to: the nearest grid point when snapping is
    /// enabled, the position itself otherwise.
    pub open spec fn snap_spec(self, v: int) -> int {
        if self.snap_positions {
            round_to_multiple_spec(v, self.grid_size as int)
        } else {
            v
        }
    }

    /// Snap a position to the document grid (component-wise).
    pub fn snap_position(&self, pos: Vec2) -> (r: Vec2)
        requires
            self.wf(),
            pos.in_range(SNAP_INPUT_LIMIT),
        ensures
            r.x == self.snap_spec(pos.x as int),
            r.y == self.snap_spec(pos.y as int),
            pos.x - self.grid_size <= r.x <= pos.x + self.grid_size,
            pos.y - self.grid_size <= r.y <= pos.y + self.grid_size,
    {
        if self.snap_positions {
            Vec2 {
                x: crate::num::round_to_multiple(pos.x, self.grid_size),
                y: crate::num::round_to_multiple(pos.y, self.grid_size),
            }
        } else {
            pos
        }
    }

    /// The next page boundary below height `y`: the bottom edge of the page
    /// containing `y`.
    pub open spec fn page_end_spec(self, y: int) -> int {
        (y / self.format.height as int + 1) * self.format.height
    }

    /// The next page boundary below height `y`.
    pub fn page_end(&self, y: i64) -> (r: i64)
        requires
            self.wf(),
            -STROKE_POS_LIMIT - COORD_LIMIT <= y <= STROKE_POS_LIMIT + COORD_LIMIT,
        ensures
            r == self.page_end_spec(y as int),
            y < r <= y + self.format.height,
    {
        let q = div_floor(y, self.format.height);
        proof {
            assert(((q + 1) * self.format.height == self.format.height * q + self.format.height)
                && (self.format.height * (q + 1) == self.format.height * q + self.format.height))
                by (nonlinear_arith);
        }
        (q + 1) * self.format.height
    }

    /// The x-range of the page column containing `x`.
    pub open spec fn page_limit_x_spec(self, x: int) -> (int, int) {
        let lo = (x / self.format.width as int) * self.format.width;
        (lo, lo + self.format.width)
    }

    /// The x-range of the page column containing `x`.
    pub fn page_limit_x(&self, x: i64) -> (r: (i64, i64))
        requires
            self.wf(),
            -COORD_LIMIT <= x <= COORD_LIMIT,
        ensures
            r.0 == self.page_limit_x_spec(x as int).0,
            r.1 == self.page_limit_x_spec(x as int).1,
            x - self.format.width < r.0 <= x < r.1,
            r.1 == r.0 + self.format.width,
    {
        let q = div_floor(x, self.format.width);
        proof {
            assert(((q + 1) * self.format.width == self.format.width * q + self.format.width) && (
            self.format.width * (q + 1) == self.format.width * q + self.format.width) && (q
                * self.format.width == self.format.width * q)) by (nonlinear_arith);
        }
        let lo = q * self.format.width;
        (lo, lo + self.format.width)
    }

    /// The height the document needs to fit all strokes: whole pages up to
    /// and including the page of the lowest stroke.
    pub open spec fn needed_height_spec(self, strokes: Seq<crate::store::Stroke>) -> int {
        self.page_end_spec(StrokeStore::max_y_spec(strokes))
    }

    /// The document after resizing to fit the given strokes.
    pub open spec fn resized_spec(self, strokes: Seq<crate::store::Stroke>) -> Document {
        if self.autoexpand {
            Document { height: self.needed_height_spec(strokes) as i64, ..self }
        } else {
            self
        }
    }

    /// The document after growing (never shrinking) to fit the given strokes.
    pub open spec fn expanded_spec(self, strokes: Seq<crate::store::Stroke>) -> Document {
        if self.autoexpand && self.needed_height_spec(strokes) > self.height {
            Document { height: self.needed_height_spec(strokes) as i64, ..self }
        } else {
            self
        }
    }

    /// Resize the document to fit its content: with auto-expansion enabled
    /// the height becomes exactly the whole pages its strokes need.
    pub fn resize_autoexpand(&mut self, store: &StrokeStore) -> (r: WidgetFlags)
        requires
            old(self).wf(),
            store.wf(),
        ensures
            *final(self) == old(self).resized_spec(store.strokes@),
            final(self).wf(),
            r == (WidgetFlags {
                resize: final(self).height != old(self).height,
                ..WidgetFlags::empty_spec()
            }),
    {
        let old_height = self.height;
        if self.autoexpand {
            let max_y = store.max_stroke_y();
            self.height = self.page_end(max_y);
        }
        WidgetFlags { resize: self.height != old_height, ..WidgetFlags::empty() }
    }

    /// Grow the document to fit its content: like `resize_autoexpand`, but
    /// the document never shrinks.
    pub fn expand_autoexpand(&mut self, store: &StrokeStore) -> (r: WidgetFlags)
        requires
            old(self).wf(),
            store.wf(),
        ensures
            *final(self) == old(self).expanded_spec(store.strokes@),
            final(self).wf(),
            r == (WidgetFlags {
                resize: final(self).height != old(self).height,
                ..WidgetFlags::empty_spec()
            }),
    {
        let old_height = self.height;
        if self.autoexpand {
            let max_y = store.max_stroke_y();
            let needed = self.page_end(max_y);
            if needed > self.height {
                self.height = needed;
            }
        }
        WidgetFlags { resize: self.height != old_height, ..WidgetFlags::empty() }
    }
}

} // verus!
