//! The measuring-ruler overlay tool and its holder: a draggable, rotatable
//! ruler positioned over the canvas. Placement (a normalized position and a
//! whole-degree angle) is plain integer data; only the rendering of the tick
//! marks lives elsewhere.

use crate::camera::Camera;
use crate::geometry::{Aabb, Vec2};
use crate::num::{clamp_spec, div_floor, isqrt, MILLI};
use crate::widget_flags::WidgetFlags;
use vstd::arithmetic::div_mod::lemma_fundamental_div_mod;
use vstd::prelude::*;

verus! {

/// The ruler's width across its long axis, in milli-units.
pub const RULER_WIDTH: i64 = 100_000;

/// The ruler's line width, in milli-units.
pub const RULER_LINE_WIDTH: i64 = 1500;

/// One full half-turn, in millidegrees: angles are kept below this.
pub const HALF_TURN_MDEG: i64 = 180_000;

/// Largest angle magnitude accepted as an input, in millidegrees.
pub const ANGLE_INPUT_LIMIT: i64 = 1_000_000_000;

/// An angle normalized for the ruler: rounded to the nearest whole degree
/// and folded into `[0, 180)` degrees, in millidegrees.
pub open spec fn normalized_angle_spec(a: int) -> int {
    crate::num::round_to_multiple_spec(a, MILLI as int) % (HALF_TURN_MDEG as int)
}

/// A tool overlay that can be dragged across the viewport. Its position is
/// normalized: `(0, 0)` is the viewport's top-left corner and
/// `(MILLI, MILLI)` its bottom-right one.
pub trait Draggable {
    /// The tool's normalized position.
    spec fn offset_spec(&self) -> Vec2;

    /// The tool's normalized position.
    fn offset(&self) -> (r: Vec2)
        ensures
            r == self.offset_spec(),
    ;

    /// Move the tool to `offset`, clamped into the viewport.
    fn drag(&mut self, offset: Vec2) -> (r: WidgetFlags)
        ensures
            final(self).offset_spec().x == clamp_spec(offset.x as int, 0, MILLI as int),
            final(self).offset_spec().y == clamp_spec(offset.y as int, 0, MILLI as int),
            r == (WidgetFlags { redraw: true, ..WidgetFlags::empty_spec() }),
    ;
}

/// A tool overlay that can be rotated. Angles are carried in millidegrees.
pub trait Rotatable {
    /// The tool's angle, in millidegrees, within `[0, HALF_TURN_MDEG)`.
    spec fn angle_spec(&self) -> i64;

    /// The tool's angle, in millidegrees.
    fn angle(&self) -> (r: i64)
        ensures
            r == self.angle_spec(),
    ;

    /// Rotate the tool to `angle`: the angle is rounded to the nearest whole
    /// degree and folded into half a turn.
    fn set_angle(&mut self, angle: i64) -> (r: WidgetFlags)
        requires
            -ANGLE_INPUT_LIMIT <= angle <= ANGLE_INPUT_LIMIT,
        ensures
            final(self).angle_spec() == normalized_angle_spec(angle as int),
            r == (WidgetFlags { redraw: true, ..WidgetFlags::empty_spec() }),
    ;
}

/// The measuring ruler: its normalized position and its angle.
#[derive(Clone, Copy, Debug, PartialEq, Eq, Structural)]
pub struct Ruler {
    /// The normalized position of the ruler's origin in the viewport, in
    /// thousandths.
    pub offset: Vec2,
    /// The ruler's angle in millidegrees, a whole-degree multiple within
    /// `[0, HALF_TURN_MDEG)`.
    pub angle: i64,
}

impl Ruler {
    /// The position is normalized and the angle a whole-degree multiple
    /// within half a turn.
    pub open spec fn wf(self) -> bool {
        &&& 0 <= self.offset.x <= MILLI
        &&& 0 <= self.offset.y <= MILLI
        &&& 0 <= self.angle < HALF_TURN_MDEG
        &&& self.angle % MILLI == 0
    }

    /// The surface region the ruler's marks span before placement: as long as
    /// the viewport's diagonal on both sides, half the ruler width high.
    pub fn bounds(camera: &Camera) -> (r: Aabb)
        requires
            camera.wf(),
        ensures
            r.wf(),
            r.maxs.x * r.maxs.x <= camera.size.x * camera.size.x + camera.size.y * camera.size.y
                < (r.maxs.x + 1) * (r.maxs.x + 1),
            r.mins.x == -r.maxs.x,
            r.mins.y == -RULER_WIDTH / 2,
            r.maxs.y == RULER_WIDTH / 2,
    {
        let sx = camera.size.x as u64;
        let sy = camera.size.y as u64;
        proof {
            assert(sx * sx + sy * sy <= 2_000_000_000_000_000_000) by (nonlinear_arith)
                requires
                    0 <= sx <= 1_000_000_000 && 0 <= sy <= 1_000_000_000,
            ;
        }
        let diagonal = isqrt(sx * sx + sy * sy);
        proof {
            assert(diagonal <= 1_500_000_000) by (nonlinear_arith)
                requires
                    diagonal * diagonal <= 2_000_000_000_000_000_000,
            ;
        }
        let d = diagonal as i64;
        Aabb {
            mins: Vec2 { x: -d, y: -(RULER_WIDTH / 2) },
            maxs: Vec2 { x: d, y: RULER_WIDTH / 2 },
        }
    }

    /// The angle shown on the ruler's label: the angle in whole degrees,
    /// folded so that it never exceeds a quarter turn.
    pub open spec fn angle_label_spec(self) -> int {
        let deg = self.angle as int / MILLI as int;
        if deg > 90 {
            180 - deg
        } else {
            deg
        }
    }

    /// The whole-degree angle shown on the ruler's label, in `[0, 90]`.
    pub fn angle_label_degrees(&self) -> (r: u64)
        requires
            self.wf(),
        ensures
            r == self.angle_label_spec(),
            r <= 90,
    {
        let deg = (self.angle as u64) / 1000;
        if deg > 90 {
            180 - deg
        } else {
            deg
        }
    }
}

impl Default for Ruler {
    /// A ruler resting in the middle of the viewport, unrotated.
    fn default() -> (r: Ruler)
        ensures
            r.offset == (Vec2 { x: 500, y: 500 }),
            r.angle == 0,
            r.wf(),
    {
        Ruler { offset: Vec2 { x: MILLI / 2, y: MILLI / 2 }, angle: 0 }
    }
}

impl Draggable for Ruler {
    open spec fn offset_spec(&self) -> Vec2 {
        self.offset
    }

    fn offset(&self) -> (r: Vec2) {
        self.offset
    }

    fn drag(&mut self, offset: Vec2) -> (r: WidgetFlags) {
        self.offset = Vec2 {
            x: crate::num::clamp_i64(offset.x, 0, MILLI),
            y: crate::num::clamp_i64(offset.y, 0, MILLI),
        };
        WidgetFlags { redraw: true, ..WidgetFlags::empty() }
    }
}

impl Rotatable for Ruler {
    open spec fn angle_spec(&self) -> i64 {
        self.angle
    }

    fn angle(&self) -> (r: i64) {
        self.angle
    }

    fn set_angle(&mut self, angle: i64) -> (r: WidgetFlags) {
        let rounded = crate::num::round_to_multiple(angle, MILLI);
        let q = div_floor(rounded, HALF_TURN_MDEG);
        proof {
            lemma_fundamental_div_mod(rounded as int, HALF_TURN_MDEG as int);
            assert(HALF_TURN_MDEG * q == q * HALF_TURN_MDEG) by (nonlinear_arith);
        }
        self.angle = rounded - q * HALF_TURN_MDEG;
        WidgetFlags { redraw: true, ..WidgetFlags::empty() }
    }
}

/// The tool overlays the canvas offers; each is placed by dragging and
/// rotating.
#[derive(Clone, Copy, Debug, PartialEq, Eq, Structural)]
pub enum Tool {
    Ruler(Ruler),
}

impl Tool {
    /// The payload of every variant is well-formed.
    pub open spec fn wf(self) -> bool {
        match self {
            Tool::Ruler(ruler) => ruler.wf(),
        }
    }
}

impl Default for Tool {
    /// The default overlay: a ruler at rest.
    fn default() -> (r: Tool)
        ensures
            r == Tool::Ruler(Ruler { offset: Vec2 { x: 500, y: 500 }, angle: 0 }),
            r.wf(),
    {
        Tool::Ruler(Ruler::default())
    }
}

impl Draggable for Tool {
    open spec fn offset_spec(&self) -> Vec2 {
        match *self {
            Tool::Ruler(ruler) => ruler.offset,
        }
    }

    fn offset(&self) -> (r: Vec2) {
        match self {
            Tool::Ruler(ruler) => ruler.offset(),
        }
    }

    fn drag(&mut self, offset: Vec2) -> (r: WidgetFlags) {
        match self {
            Tool::Ruler(ruler) => ruler.drag(offset),
        }
    }
}

impl Rotatable for Tool {
    open spec fn angle_spec(&self) -> i64 {
        match *self {
            Tool::Ruler(ruler) => ruler.angle,
        }
    }

    fn angle(&self) -> (r: i64) {
        match self {
            Tool::Ruler(ruler) => ruler.angle(),
        }
    }

    fn set_angle(&mut self, angle: i64) -> (r: WidgetFlags) {
        match self {
            Tool::Ruler(ruler) => ruler.set_angle(angle),
        }
    }
}

/// The holder of the currently selected tool overlay.
#[derive(Clone, Copy, Debug, PartialEq, Eq, Structural)]
pub struct ToolHolder {
    pub current_tool: Tool,
}

impl Default for ToolHolder {
    /// A holder with the default overlay selected.
    fn default() -> (r: ToolHolder)
        ensures
            r.current_tool == Tool::Ruler(
                Ruler { offset: Vec2 { x: 500, y: 500 }, angle: 0 },
            ),
    {
        ToolHolder { current_tool: Tool::default() }
    }
}

impl Draggable for ToolHolder {
    open spec fn offset_spec(&self) -> Vec2 {
        self.current_tool.offset_spec()
    }

    fn offset(&self) -> (r: Vec2) {
        self.current_tool.offset()
    }

    fn drag(&mut self, offset: Vec2) -> (r: WidgetFlags) {
        match &mut self.current_tool {
            Tool::Ruler(ruler) => ruler.drag(offset),
        }
    }
}

impl Rotatable for ToolHolder {
    open spec fn angle_spec(&self) -> i64 {
        self.current_tool.angle_spec()
    }

    fn angle(&self) -> (r: i64) {
        self.current_tool.angle()
    }

    fn set_angle(&mut self, angle: i64) -> (r: WidgetFlags) {
        match &mut self.current_tool {
            Tool::Ruler(ruler) => ruler.set_angle(angle),
        }
    }
}

} // verus!
