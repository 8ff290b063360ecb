//! The camera: the transform between document and surface (device)
//! coordinates, the view offset, and the zoom level.
//!
//! The zoom factor is carried in thousandths, so a zoom of `1000` maps one
//! document unit onto one surface unit. The forward transform of a document
//! point `p` is `p * zoom / 1000 - offset`, with floor division.

use crate::geometry::{Aabb, Vec2};
use crate::num::{
    clamp_spec, div_floor_bounded, CAMERA_SIZE_LIMIT, COORD_LIMIT, MILLI, OFFSET_LIMIT,
    SURFACE_LIMIT,
};
use crate::widget_flags::WidgetFlags;
use vstd::prelude::*;

verus! {

/// The smallest zoom factor, in thousandths.
pub const ZOOM_MIN: i64 = 200;

/// The largest zoom factor, in thousandths.
pub const ZOOM_MAX: i64 = 6000;

/// How strongly a vertical drag changes the zoom: the zoom is scaled by
/// `1 - dy * 4 / 1_000_000` for a drag of `dy` milli-units.
pub const DRAG_ZOOM_NUMER: i64 = 4;

/// The denominator of the drag-zoom scale factor.
pub const DRAG_ZOOM_DENOM: i64 = 1_000_000;

/// The camera state: view offset, zoom, viewport size, and whether a
/// debounced zoom-quality upgrade is pending.
#[derive(Clone, Copy, Debug, PartialEq, Eq, Structural)]
pub struct Camera {
    /// The surface-space translation of the view, in milli-units.
    pub offset: Vec2,
    /// The total zoom factor, in thousandths.
    pub zoom: i64,
    /// The viewport size on the surface, in milli-units.
    pub size: Vec2,
    /// A zoom-quality upgrade was scheduled and has not yet run.
    pub zoom_task_pending: bool,
}

impl Camera {
    /// The zoom is in range, the offset clamped, and the size non-negative.
    pub open spec fn wf(self) -> bool {
        &&& ZOOM_MIN <= self.zoom <= ZOOM_MAX
        &&& self.offset.in_range(OFFSET_LIMIT)
        &&& 0 <= self.size.x <= CAMERA_SIZE_LIMIT
        &&& 0 <= self.size.y <= CAMERA_SIZE_LIMIT
    }

    /// The forward transform of one coordinate: document to surface.
    pub open spec fn transform_x_spec(self, v: int) -> int {
        (v * self.zoom) / (MILLI as int) - self.offset.x
    }

    /// The forward transform of one coordinate: document to surface.
    pub open spec fn transform_y_spec(self, v: int) -> int {
        (v * self.zoom) / (MILLI as int) - self.offset.y
    }

    /// The inverse transform of one coordinate: surface to document.
    pub open spec fn inverse_x_spec(self, v: int) -> int {
        ((v + self.offset.x) * MILLI) / (self.zoom as int)
    }

    /// The inverse transform of one coordinate: surface to document.
    pub open spec fn inverse_y_spec(self, v: int) -> int {
        ((v + self.offset.y) * MILLI) / (self.zoom as int)
    }

    /// The total zoom factor, in thousandths.
    pub fn total_zoom(&self) -> (r: i64)
        ensures
            r == self.zoom,
    {
        self.zoom
    }

    /// The current view offset.
    pub fn offset(&self) -> (r: Vec2)
        ensures
            r == self.offset,
    {
        self.offset
    }

    /// Map a document point to surface coordinates.
    pub fn transform_point(&self, p: Vec2) -> (r: Vec2)
        requires
            self.wf(),
            p.in_range(COORD_LIMIT),
        ensures
            r.x == self.transform_x_spec(p.x as int),
            r.y == self.transform_y_spec(p.y as int),
            r.in_range(SURFACE_LIMIT),
    {
        proof {
            assert(-6_000_000_000_000_000 <= p.x * self.zoom <= 6_000_000_000_000_000)
                by (nonlinear_arith)
                requires
                    -COORD_LIMIT <= p.x <= COORD_LIMIT && 0 < self.zoom <= ZOOM_MAX && COORD_LIMIT
                        == 1_000_000_000_000 && ZOOM_MAX == 6000,
            ;
            assert(-6_000_000_000_000_000 <= p.y * self.zoom <= 6_000_000_000_000_000)
                by (nonlinear_arith)
                requires
                    -COORD_LIMIT <= p.y <= COORD_LIMIT && 0 < self.zoom <= ZOOM_MAX && COORD_LIMIT
                        == 1_000_000_000_000 && ZOOM_MAX == 6000,
            ;
        }
        let sx = div_floor_bounded(p.x * self.zoom, MILLI, 6_000_000_000_000);
        let sy = div_floor_bounded(p.y * self.zoom, MILLI, 6_000_000_000_000);
        Vec2 { x: sx - self.offset.x, y: sy - self.offset.y }
    }

    /// Map a surface point back to document coordinates.
    pub fn transform_point_inverse(&self, p: Vec2) -> (r: Vec2)
        requires
            self.wf(),
            p.in_range(SURFACE_LIMIT),
        ensures
            r.x == self.inverse_x_spec(p.x as int),
            r.y == self.inverse_y_spec(p.y as int),
            r.in_range(150_000_000_000_000),
    {
        proof {
            assert(-(150_000_000_000_000 * self.zoom) <= (p.x + self.offset.x) * MILLI <= (
            150_000_000_000_000 * self.zoom)) by (nonlinear_arith)
                requires
                    -30_000_000_000_000 <= p.x + self.offset.x <= 30_000_000_000_000 && MILLI
                        == 1000 && self.zoom >= 200,
            ;
            assert(-(150_000_000_000_000 * self.zoom) <= (p.y + self.offset.y) * MILLI <= (
            150_000_000_000_000 * self.zoom)) by (nonlinear_arith)
                requires
                    -30_000_000_000_000 <= p.y + self.offset.y <= 30_000_000_000_000 && MILLI
                        == 1000 && self.zoom >= 200,
            ;
        }
        let dx = div_floor_bounded((p.x + self.offset.x) * MILLI, self.zoom, 150_000_000_000_000);
        let dy = div_floor_bounded((p.y + self.offset.y) * MILLI, self.zoom, 150_000_000_000_000);
        Vec2 { x: dx, y: dy }
    }

    /// The viewport: the rectangle of the document currently on screen.
    pub fn viewport(&self) -> (r: Aabb)
        requires
            self.wf(),
        ensures
            r.wf(),
            r.mins.x == self.inverse_x_spec(0),
            r.mins.y == self.inverse_y_spec(0),
            r.maxs.x == self.inverse_x_spec(self.size.x as int),
            r.maxs.y == self.inverse_y_spec(self.size.y as int),
    {
        let mins = self.transform_point_inverse(Vec2 { x: 0, y: 0 });
        let maxs = self.transform_point_inverse(self.size);
        proof {
            vstd::arithmetic::div_mod::lemma_div_is_ordered(
                (0 + self.offset.x) * MILLI,
                (self.size.x + self.offset.x) * MILLI,
                self.zoom as int,
            );
            vstd::arithmetic::div_mod::lemma_div_is_ordered(
                (0 + self.offset.y) * MILLI,
                (self.size.y + self.offset.y) * MILLI,
                self.zoom as int,
            );
            assert((0 + self.offset.x) * MILLI <= (self.size.x + self.offset.x) * MILLI)
                by (nonlinear_arith)
                requires
                    self.size.x >= 0 && MILLI == 1000,
            ;
            assert((0 + self.offset.y) * MILLI <= (self.size.y + self.offset.y) * MILLI)
                by (nonlinear_arith)
                requires
                    self.size.y >= 0 && MILLI == 1000,
            ;
        }
        Aabb { mins, maxs }
    }

    /// The camera after its offset was set to `offset`, clamped into the
    /// accepted offset range.
    pub open spec fn set_offset_spec(self, offset: Vec2) -> Camera {
        Camera {
            offset: Vec2 {
                x: clamp_spec(offset.x as int, -OFFSET_LIMIT as int, OFFSET_LIMIT as int) as i64,
                y: clamp_spec(offset.y as int, -OFFSET_LIMIT as int, OFFSET_LIMIT as int) as i64,
            },
            ..self
        }
    }

    /// Set the view offset, clamped into the accepted offset range.
    pub fn set_offset(&mut self, offset: Vec2) -> (r: WidgetFlags)
        ensures
            *final(self) == old(self).set_offset_spec(offset),
            final(self).offset.in_range(OFFSET_LIMIT),
            r == (WidgetFlags { redraw: true, update_view: true, ..WidgetFlags::empty_spec() }),
    {
        self.offset = offset.clamped(OFFSET_LIMIT);
        WidgetFlags { redraw: true, update_view: true, ..WidgetFlags::empty() }
    }

    /// The camera after the zoom was set (clamped into range) and a
    /// zoom-quality upgrade was scheduled.
    pub open spec fn zoom_w_timeout_spec(self, new_zoom: i64) -> Camera {
        Camera {
            zoom: clamp_spec(new_zoom as int, ZOOM_MIN as int, ZOOM_MAX as int) as i64,
            zoom_task_pending: true,
            ..self
        }
    }

    /// Set the zoom level, clamped into `[ZOOM_MIN, ZOOM_MAX]`, and schedule
    /// a debounced zoom-quality upgrade.
    pub fn zoom_w_timeout(&mut self, new_zoom: i64) -> (r: WidgetFlags)
        ensures
            *final(self) == old(self).zoom_w_timeout_spec(new_zoom),
            r == (WidgetFlags { redraw: true, zoomed: true, ..WidgetFlags::empty_spec() }),
    {
        self.zoom = crate::num::clamp_i64(new_zoom, ZOOM_MIN, ZOOM_MAX);
        self.zoom_task_pending = true;
        WidgetFlags { redraw: true, zoomed: true, ..WidgetFlags::empty() }
    }

    /// How far the surface image of `pos` sticks out of the viewport on the
    /// horizontal axis (negative: off the left edge; zero: inside).
    pub open spec fn nudge_excess_x(self, pos: Vec2) -> int {
        let s = self.transform_x_spec(pos.x as int);
        if s < 0 {
            s
        } else if s > self.size.x {
            s - self.size.x
        } else {
            0
        }
    }

    /// How far the surface image of `pos` sticks out of the viewport on the
    /// vertical axis.
    pub open spec fn nudge_excess_y(self, pos: Vec2) -> int {
        let s = self.transform_y_spec(pos.y as int);
        if s < 0 {
            s
        } else if s > self.size.y {
            s - self.size.y
        } else {
            0
        }
    }

    /// The camera after nudging the view toward the document point `pos`.
    pub open spec fn nudged_spec(self, pos: Vec2) -> Camera {
        Camera {
            offset: Vec2 {
                x: clamp_spec(
                    self.offset.x + self.nudge_excess_x(pos),
                    -OFFSET_LIMIT as int,
                    OFFSET_LIMIT as int,
                ) as i64,
                y: clamp_spec(
                    self.offset.y + self.nudge_excess_y(pos),
                    -OFFSET_LIMIT as int,
                    OFFSET_LIMIT as int,
                ) as i64,
            },
            ..self
        }
    }

    /// The flags a nudge reports: a redraw when the view actually moved.
    pub open spec fn nudge_flags_spec(self, pos: Vec2) -> WidgetFlags {
        if self.nudge_excess_x(pos) == 0 && self.nudge_excess_y(pos) == 0 {
            WidgetFlags::empty_spec()
        } else {
            WidgetFlags { redraw: true, update_view: true, ..WidgetFlags::empty_spec() }
        }
    }

    /// Nudge the view so that the document point `pos` comes (back) into the
    /// viewport: the offset moves by exactly the excess of the point over the
    /// viewport edges, clamped into the offset range.
    pub fn nudge_w_pos(&mut self, pos: Vec2) -> (r: WidgetFlags)
        requires
            old(self).wf(),
            pos.in_range(COORD_LIMIT),
        ensures
            *final(self) == old(self).nudged_spec(pos),
            final(self).wf(),
            r == old(self).nudge_flags_spec(pos),
    {
        let s = self.transform_point(pos);
        let ex: i64 = if s.x < 0 {
            s.x
        } else if s.x > self.size.x {
            s.x - self.size.x
        } else {
            0
        };
        let ey: i64 = if s.y < 0 {
            s.y
        } else if s.y > self.size.y {
            s.y - self.size.y
        } else {
            0
        };
        if ex == 0 && ey == 0 {
            WidgetFlags::empty()
        } else {
            self.offset = Vec2 { x: self.offset.x + ex, y: self.offset.y + ey }.clamped(
                OFFSET_LIMIT,
            );
            WidgetFlags { redraw: true, update_view: true, ..WidgetFlags::empty() }
        }
    }
}

} // verus!
