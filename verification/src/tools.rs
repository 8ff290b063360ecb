//! The tool pen: a two-state machine (idle / gesture in progress) that
//! dispatches pointer events to the currently configured tool variant —
//! vertical-space insertion, camera pan, drag zoom, or the laser pointer —
//! and aggregates the side effects the caller must act on.

use crate::camera::{Camera, ZOOM_MAX, ZOOM_MIN};
use crate::config::ToolStyle;
use crate::document::Document;
use crate::engine::EngineView;
use crate::events::{Element, EventPropagation, EventResult, PenEvent, PenProgress};
use crate::geometry::{Aabb, Vec2};
use crate::laser::LaserStore;
use crate::num::{COORD_LIMIT, GRID_LIMIT, SURFACE_LIMIT};
use crate::penpath::{PenPathBuilder, Segment};
use crate::store::{keys_between_upto, keys_wf, StrokeKey, StrokeStore};
use crate::widget_flags::WidgetFlags;
use vstd::prelude::*;

verus! {

/// Pointer movements closer to the gesture start than this snap the content
/// back to its starting position, in milli-units.
pub const SNAP_START_POS_DIST: i64 = 10_000;

/// Offsets at most this large are ignored as jitter, in milli-units.
pub const Y_OFFSET_THRESHOLD: i64 = 100;

/// The absolute value.
pub open spec fn abs_spec(v: int) -> int {
    if v < 0 {
        -v
    } else {
        v
    }
}

/// The width of the laser strokes' outer band on the surface, in milli-units.
pub const LASER_OUTER_STROKE_WIDTH: i64 = 6000;

/// The width of the laser strokes' inner band on the surface, in milli-units.
pub const LASER_INNER_STROKE_WIDTH: i64 = 1000;

/// Half the side of the camera-pan cursor glyph with its stroke, in surface
/// milli-units.
pub const OFFSET_CAMERA_CURSOR_HALF: i64 = 9000;

/// The zoom cursor's radius plus half its stroke width, in surface
/// milli-units.
pub const ZOOM_CURSOR_MARGIN: i64 = 5000;

/// A length on the surface converted to document milli-units at zoom `zoom`.
pub open spec fn surface_len_on_doc_spec(len: i64, zoom: i64) -> int {
    (len * crate::num::MILLI) / zoom as int
}

/// Convert a surface length to document milli-units at the camera's zoom.
pub fn surface_len_on_doc(len: i64, zoom: i64) -> (r: i64)
    requires
        0 <= len <= 10_000,
        ZOOM_MIN <= zoom <= ZOOM_MAX,
    ensures
        r == surface_len_on_doc_spec(len, zoom),
        0 <= r <= 50_000,
{
    let r = crate::num::div_floor(len * crate::num::MILLI, zoom);
    proof {
        vstd::arithmetic::div_mod::lemma_div_pos_is_pos(len * crate::num::MILLI, zoom as int);
        assert(r <= 50_000) by (nonlinear_arith)
            requires
                zoom >= 200 && zoom * r <= len * crate::num::MILLI && len * crate::num::MILLI
                    <= 10_000_000,
        ;
    }
    r
}

/// The vertical-space tool: pushes the content below the start line down or
/// up while the gesture runs.
#[derive(Clone, Debug)]
pub struct VerticalSpaceTool {
    /// The height at which the gesture started.
    pub start_pos_y: i64,
    /// The current height of the insertion line.
    pub pos_y: i64,
    /// The x-range the decoration is limited to, when page limits are on.
    pub limit_x: Option<(i64, i64)>,
    /// The entities below the start line, captured once at gesture start.
    pub strokes_below: Vec<StrokeKey>,
}

impl VerticalSpaceTool {
    /// The recorded heights are within range of one snapped gesture, and any
    /// page limits are an ordered in-range interval.
    pub open spec fn wf(self) -> bool {
        &&& -COORD_LIMIT <= self.start_pos_y <= COORD_LIMIT
        &&& -COORD_LIMIT - GRID_LIMIT <= self.pos_y <= COORD_LIMIT + GRID_LIMIT
        &&& match self.limit_x {
            Some(l) => -COORD_LIMIT - COORD_LIMIT <= l.0 < l.1 <= COORD_LIMIT + COORD_LIMIT,
            None => true,
        }
    }
}

impl Default for VerticalSpaceTool {
    /// A tool with no gesture data.
    fn default() -> (r: VerticalSpaceTool)
        ensures
            r.start_pos_y == 0,
            r.pos_y == 0,
            r.limit_x is None,
            r.strokes_below@ == Seq::<StrokeKey>::empty(),
            r.wf(),
    {
        VerticalSpaceTool { start_pos_y: 0, pos_y: 0, limit_x: None, strokes_below: Vec::new() }
    }
}

/// The camera-pan tool: remembers where the drag started.
#[derive(Clone, Copy, Debug, PartialEq, Eq, Structural)]
pub struct OffsetCameraTool {
    /// The document position the drag started at.
    pub start: Vec2,
}

impl OffsetCameraTool {
    /// The start position is an in-range input coordinate.
    pub open spec fn wf(self) -> bool {
        self.start.in_range(COORD_LIMIT)
    }
}

impl Default for OffsetCameraTool {
    /// A tool with no gesture data.
    fn default() -> (r: OffsetCameraTool)
        ensures
            r.start == (Vec2 { x: 0, y: 0 }),
    {
        OffsetCameraTool { start: Vec2 { x: 0, y: 0 } }
    }
}

/// The drag-zoom tool: remembers the drag start and the latest pointer
/// position, both in surface coordinates.
#[derive(Clone, Copy, Debug, PartialEq, Eq, Structural)]
pub struct ZoomTool {
    /// Where the drag started, in surface coordinates.
    pub start_surface_coord: Vec2,
    /// The latest pointer position, in surface coordinates.
    pub current_surface_coord: Vec2,
}

impl ZoomTool {
    /// Both recorded positions are in-range surface coordinates.
    pub open spec fn wf(self) -> bool {
        self.start_surface_coord.in_range(SURFACE_LIMIT) && self.current_surface_coord.in_range(
            SURFACE_LIMIT,
        )
    }
}

impl Default for ZoomTool {
    /// A tool with no gesture data.
    fn default() -> (r: ZoomTool)
        ensures
            r.start_surface_coord == (Vec2 { x: 0, y: 0 }),
            r.current_surface_coord == (Vec2 { x: 0, y: 0 }),
    {
        ZoomTool {
            start_surface_coord: Vec2 { x: 0, y: 0 },
            current_surface_coord: Vec2 { x: 0, y: 0 },
        }
    }
}

impl VerticalSpaceTool {
    /// The redraw region of the vertical-space decoration.
    pub fn bounds_on_doc(&self, engine_view: &EngineView) -> (r: Option<Aabb>)
        requires
            engine_view.wf(),
            self.wf(),
        ensures
            r == Some(vspace_bounds_spec(*self, engine_view.camera)),
    {
        let vp = engine_view.camera.viewport();
        Some(
            Aabb::new_positive(
                Vec2 { x: vp.mins.x, y: self.start_pos_y },
                Vec2 { x: vp.maxs.x, y: self.pos_y },
            ),
        )
    }

    /// The rectangle the decoration is painted into: like the redraw region,
    /// but cut down to the page limits captured at gesture start.
    pub fn decoration_rect_on_doc(&self, engine_view: &EngineView) -> (r: Aabb)
        requires
            engine_view.wf(),
            self.wf(),
        ensures
            r == vspace_decoration_rect_spec(*self, engine_view.camera),
    {
        let vp = engine_view.camera.viewport();
        let (x, x_end) = match self.limit_x {
            Some(l) => (
                if vp.mins.x >= l.0 {
                    vp.mins.x
                } else {
                    l.0
                },
                l.1,
            ),
            None => (vp.mins.x, vp.maxs.x),
        };
        Aabb::new_positive(
            Vec2 { x, y: self.start_pos_y },
            Vec2 { x: x_end, y: self.pos_y },
        )
    }
}

/// The rectangle the vertical-space decoration is painted into: between the
/// gesture's start line and the current insertion line; horizontally the
/// visible part of the page when page limits were captured, the whole
/// viewport otherwise.
pub open spec fn vspace_decoration_rect_spec(tool: VerticalSpaceTool, camera: Camera) -> Aabb {
    let vpminx = camera.inverse_x_spec(0);
    let x = match tool.limit_x {
        Some(l) => if vpminx >= l.0 {
            vpminx
        } else {
            l.0 as int
        },
        None => vpminx,
    };
    let x_end = match tool.limit_x {
        Some(l) => l.1 as int,
        None => camera.inverse_x_spec(camera.size.x as int),
    };
    Aabb::new_positive_spec(
        Vec2 { x: x as i64, y: tool.start_pos_y },
        Vec2 { x: x_end as i64, y: tool.pos_y },
    )
}

impl OffsetCameraTool {
    /// The redraw region of the camera-pan cursor glyph.
    pub fn bounds_on_doc(&self, engine_view: &EngineView) -> (r: Option<Aabb>)
        requires
            engine_view.wf(),
            self.wf(),
        ensures
            r == Some(offsetcamera_bounds_spec(*self, engine_view.camera)),
    {
        let h = surface_len_on_doc(OFFSET_CAMERA_CURSOR_HALF, engine_view.camera.total_zoom());
        Some(
            Aabb {
                mins: Vec2 { x: self.start.x - h, y: self.start.y - h },
                maxs: Vec2 { x: self.start.x + h, y: self.start.y + h },
            },
        )
    }
}

impl ZoomTool {
    /// The redraw region of the zoom cursors.
    pub fn bounds_on_doc(&self, engine_view: &EngineView) -> (r: Option<Aabb>)
        requires
            engine_view.wf(),
            self.wf(),
        ensures
            r == Some(zoom_bounds_spec(*self, engine_view.camera)),
    {
        let a = engine_view.camera.transform_point_inverse(self.start_surface_coord);
        let b = engine_view.camera.transform_point_inverse(self.current_surface_coord);
        let m = surface_len_on_doc(ZOOM_CURSOR_MARGIN, engine_view.camera.total_zoom());
        Some(Aabb::new_positive(a, b).extend_by(m))
    }
}

/// The laser tool: owns a path builder only while a gesture is in progress.
#[derive(Clone, Debug)]
pub struct LaserTool {
    /// The builder consuming the gesture's pointer samples.
    pub path_builder: Option<PenPathBuilder>,
}

impl Default for LaserTool {
    /// A tool with no gesture in progress.
    fn default() -> (r: LaserTool)
        ensures
            r.path_builder is None,
    {
        LaserTool { path_builder: None }
    }
}

impl LaserTool {
    /// The redraw region of the fading laser strokes: the tight box around
    /// every sample, grown by the outer stroke width; nothing once the
    /// strokes have fully faded.
    pub fn bounds_on_doc(&self, engine_view: &EngineView, now: u64) -> (r: Option<Aabb>)
        requires
            engine_view.wf(),
        ensures
            laser_bounds_post(engine_view.store.laser_store, engine_view.camera, now, r),
    {
        if engine_view.store.laser_store.is_faded(now) {
            return None;
        }
        let n = engine_view.store.laser_store.stroke_paths.len();
        if n == 0 {
            return None;
        }
        let ghost paths = engine_view.store.laser_store.paths_view();
        assert(engine_view.store.laser_store.stroke_paths@[0].wf());
        let mut acc = engine_view.store.laser_store.stroke_paths[0].bounds();
        proof {
            assert(engine_view.store.laser_store.stroke_paths@[0]@ == paths[0]);
        }
        let mut i: usize = 1;
        while i < n
            invariant
                engine_view.wf(),
                paths == engine_view.store.laser_store.paths_view(),
                n == engine_view.store.laser_store.stroke_paths@.len(),
                1 <= i <= n,
                acc.wf(),
                forall|i0: int, j: int|
                    0 <= i0 < i && 0 <= j < paths[i0].len() ==> acc.mins.x <= (
                    #[trigger] paths[i0][j]).pos.x <= acc.maxs.x && acc.mins.y <= paths[i0][j].pos.y
                        <= acc.maxs.y,
                exists|i0: int, j: int|
                    0 <= i0 < i && 0 <= j < paths[i0].len() && (#[trigger] paths[i0][j]).pos.x
                        == acc.mins.x,
                exists|i0: int, j: int|
                    0 <= i0 < i && 0 <= j < paths[i0].len() && (#[trigger] paths[i0][j]).pos.y
                        == acc.mins.y,
                exists|i0: int, j: int|
                    0 <= i0 < i && 0 <= j < paths[i0].len() && (#[trigger] paths[i0][j]).pos.x
                        == acc.maxs.x,
                exists|i0: int, j: int|
                    0 <= i0 < i && 0 <= j < paths[i0].len() && (#[trigger] paths[i0][j]).pos.y
                        == acc.maxs.y,
            decreases n - i,
        {
            assert(engine_view.store.laser_store.stroke_paths@[i as int].wf());
            let pb = engine_view.store.laser_store.stroke_paths[i].bounds();
            let merged = acc.merged(pb);
            proof {
                let pv = engine_view.store.laser_store.stroke_paths@[i as int]@;
                assert(pv == paths[i as int]);
                assert forall|i0: int, j: int|
                    0 <= i0 < i + 1 && 0 <= j < paths[i0].len() implies merged.mins.x <= (
                #[trigger] paths[i0][j]).pos.x <= merged.maxs.x && merged.mins.y
                    <= paths[i0][j].pos.y <= merged.maxs.y by {
                    if i0 < i {
                        assert(acc.mins.x <= paths[i0][j].pos.x <= acc.maxs.x && acc.mins.y
                            <= paths[i0][j].pos.y <= acc.maxs.y);
                    } else {
                        assert(pb.mins.x <= pv[j].pos.x <= pb.maxs.x && pb.mins.y <= pv[j].pos.y
                            <= pb.maxs.y);
                    }
                }
                if acc.mins.x <= pb.mins.x {
                    let (wi, wj): (int, int) = choose|wi: int, wj: int|
                        0 <= wi < i && 0 <= wj < paths[wi].len() && (#[trigger] paths[wi][wj]).pos.x
                            == acc.mins.x;
                    assert(0 <= wi < i + 1 && 0 <= wj < paths[wi].len() && paths[wi][wj].pos.x
                        == merged.mins.x);
                } else {
                    let wj = choose|wj: int| 0 <= wj < pv.len() && (#[trigger] pv[wj]).pos.x
                        == pb.mins.x;
                    assert(paths[i as int][wj].pos.x == merged.mins.x);
                }
                if acc.mins.y <= pb.mins.y {
                    let (wi, wj): (int, int) = choose|wi: int, wj: int|
                        0 <= wi < i && 0 <= wj < paths[wi].len() && (#[trigger] paths[wi][wj]).pos.y
                            == acc.mins.y;
                    assert(0 <= wi < i + 1 && 0 <= wj < paths[wi].len() && paths[wi][wj].pos.y
                        == merged.mins.y);
                } else {
                    let wj = choose|wj: int| 0 <= wj < pv.len() && (#[trigger] pv[wj]).pos.y
                        == pb.mins.y;
                    assert(paths[i as int][wj].pos.y == merged.mins.y);
                }
                if acc.maxs.x >= pb.maxs.x {
                    let (wi, wj): (int, int) = choose|wi: int, wj: int|
                        0 <= wi < i && 0 <= wj < paths[wi].len() && (#[trigger] paths[wi][wj]).pos.x
                            == acc.maxs.x;
                    assert(0 <= wi < i + 1 && 0 <= wj < paths[wi].len() && paths[wi][wj].pos.x
                        == merged.maxs.x);
                } else {
                    let wj = choose|wj: int| 0 <= wj < pv.len() && (#[trigger] pv[wj]).pos.x
                        == pb.maxs.x;
                    assert(paths[i as int][wj].pos.x == merged.maxs.x);
                }
                if acc.maxs.y >= pb.maxs.y {
                    let (wi, wj): (int, int) = choose|wi: int, wj: int|
                        0 <= wi < i && 0 <= wj < paths[wi].len() && (#[trigger] paths[wi][wj]).pos.y
                            == acc.maxs.y;
                    assert(0 <= wi < i + 1 && 0 <= wj < paths[wi].len() && paths[wi][wj].pos.y
                        == merged.maxs.y);
                } else {
                    let wj = choose|wj: int| 0 <= wj < pv.len() && (#[trigger] pv[wj]).pos.y
                        == pb.maxs.y;
                    assert(paths[i as int][wj].pos.y == merged.maxs.y);
                }
            }
            acc = merged;
            i = i + 1;
        }
        let m = surface_len_on_doc(LASER_OUTER_STROKE_WIDTH, engine_view.camera.total_zoom());
        proof {
            let (ai, aj): (int, int) = choose|ai: int, aj: int|
                0 <= ai < n && 0 <= aj < paths[ai].len() && (#[trigger] paths[ai][aj]).pos.x
                    == acc.mins.x;
            assert(engine_view.store.laser_store.stroke_paths@[ai].wf());
            assert(paths[ai][aj].wf());
            let (bi, bj): (int, int) = choose|bi: int, bj: int|
                0 <= bi < n && 0 <= bj < paths[bi].len() && (#[trigger] paths[bi][bj]).pos.y
                    == acc.mins.y;
            assert(engine_view.store.laser_store.stroke_paths@[bi].wf());
            assert(paths[bi][bj].wf());
            let (ci, cj): (int, int) = choose|ci: int, cj: int|
                0 <= ci < n && 0 <= cj < paths[ci].len() && (#[trigger] paths[ci][cj]).pos.x
                    == acc.maxs.x;
            assert(engine_view.store.laser_store.stroke_paths@[ci].wf());
            assert(paths[ci][cj].wf());
            let (di, dj): (int, int) = choose|di: int, dj: int|
                0 <= di < n && 0 <= dj < paths[di].len() && (#[trigger] paths[di][dj]).pos.y
                    == acc.maxs.y;
            assert(engine_view.store.laser_store.stroke_paths@[di].wf());
            assert(paths[di][dj].wf());
            assert(acc.mins.in_range(COORD_LIMIT) && acc.maxs.in_range(COORD_LIMIT));
        }
        let b = acc.extend_by(m);
        Some(b)
    }
}

/// Whether a gesture is in progress. Which tool the gesture belongs to is not
/// tracked here: the style is re-read from the configuration on every event.
#[derive(Clone, Copy, Debug, PartialEq, Eq, Structural)]
pub enum ToolsState {
    Idle,
    Active,
}

impl Default for ToolsState {
    /// No gesture in progress.
    fn default() -> (r: ToolsState)
        ensures
            r == ToolsState::Idle,
    {
        ToolsState::Idle
    }
}

/// The tool pen: the four tool variants and the gesture state.
#[derive(Clone, Debug)]
pub struct Tools {
    pub verticalspace_tool: VerticalSpaceTool,
    pub offsetcamera_tool: OffsetCameraTool,
    pub zoom_tool: ZoomTool,
    pub laser_tool: LaserTool,
    /// Whether a gesture is in progress.
    pub state: ToolsState,
}

impl Default for Tools {
    /// An idle tool pen with no gesture data.
    fn default() -> (r: Tools)
        ensures
            r.spec_state() == ToolsState::Idle,
            r.verticalspace_tool.start_pos_y == 0,
            r.verticalspace_tool.pos_y == 0,
            r.verticalspace_tool.limit_x is None,
            r.verticalspace_tool.strokes_below@ == Seq::<StrokeKey>::empty(),
            r.offsetcamera_tool.start == (Vec2 { x: 0, y: 0 }),
            r.zoom_tool.start_surface_coord == (Vec2 { x: 0, y: 0 }),
            r.zoom_tool.current_surface_coord == (Vec2 { x: 0, y: 0 }),
            r.laser_tool.path_builder is None,
            r.wf(),
    {
        Tools {
            verticalspace_tool: VerticalSpaceTool::default(),
            offsetcamera_tool: OffsetCameraTool::default(),
            zoom_tool: ZoomTool::default(),
            laser_tool: LaserTool::default(),
            state: ToolsState::Idle,
        }
    }
}

/// The state after one event: from idle, only a pressed pointer starts a
/// gesture; an active gesture ends only on pointer-up or cancel.
pub open spec fn next_state(state: ToolsState, event: PenEvent) -> ToolsState {
    match (state, event) {
        (ToolsState::Idle, PenEvent::Down { .. }) => ToolsState::Active,
        (ToolsState::Idle, _) => ToolsState::Idle,
        (ToolsState::Active, PenEvent::Up { .. }) => ToolsState::Idle,
        (ToolsState::Active, PenEvent::Cancel) => ToolsState::Idle,
        (ToolsState::Active, _) => ToolsState::Active,
    }
}

/// What the handler reports for one event in one state.
pub open spec fn event_result_spec(state: ToolsState, event: PenEvent) -> EventResult {
    match (state, event) {
        (ToolsState::Idle, PenEvent::Down { .. }) => EventResult {
            handled: true,
            propagate: EventPropagation::Stop,
            progress: PenProgress::InProgress,
        },
        (ToolsState::Idle, _) => EventResult {
            handled: false,
            propagate: EventPropagation::Proceed,
            progress: PenProgress::Idle,
        },
        (ToolsState::Active, PenEvent::Down { .. }) => EventResult {
            handled: true,
            propagate: EventPropagation::Stop,
            progress: PenProgress::InProgress,
        },
        (ToolsState::Active, PenEvent::Up { .. }) => EventResult {
            handled: true,
            propagate: EventPropagation::Stop,
            progress: PenProgress::Finished,
        },
        (ToolsState::Active, PenEvent::Cancel) => EventResult {
            handled: true,
            propagate: EventPropagation::Stop,
            progress: PenProgress::Finished,
        },
        (ToolsState::Active, _) => EventResult {
            handled: false,
            propagate: EventPropagation::Proceed,
            progress: PenProgress::InProgress,
        },
    }
}

/// What starting a gesture at `element` does, depending on the configured
/// style: the matching tool variant is initialized, the laser store gains a
/// stroke for the laser style, the document auto-expands, and the pen goes
/// active.
pub open spec fn gesture_start_rel(
    pre: Tools,
    post: Tools,
    vpre: EngineView,
    vpost: EngineView,
    element: Element,
    now: u64,
    flags: WidgetFlags,
) -> bool {
    let style = vpre.pens_config.tools_config.style;
    let cfg = vpre.pens_config.tools_config.verticalspace_tool_config;
    &&& post.spec_state() == ToolsState::Active
    &&& vpost.pens_config == vpre.pens_config
    &&& vpost.camera == vpre.camera
    &&& vpost.animation == vpre.animation
    &&& vpost.store.strokes@ == vpre.store.strokes@
    &&& vpost.store.history@ == vpre.store.history@
    &&& vpost.store.rerender_requested == vpre.store.rerender_requested
    &&& vpost.document == vpre.document.resized_spec(vpre.store.strokes@)
    &&& flags == (WidgetFlags {
        resize: vpost.document.height != vpre.document.height,
        ..WidgetFlags::empty_spec()
    })
    &&& match style {
        ToolStyle::VerticalSpace => {
            let y_max = vpre.document.page_end_spec(element.pos.y as int);
            let lim = vpre.document.page_limit_x_spec(element.pos.x as int);
            &&& post.verticalspace_tool.start_pos_y == element.pos.y
            &&& post.verticalspace_tool.pos_y == element.pos.y
            &&& post.verticalspace_tool.limit_x == (if cfg.limit_movement_vertical_borders {
                Some((lim.0 as i64, lim.1 as i64))
            } else {
                None::<(i64, i64)>
            })
            &&& post.verticalspace_tool.strokes_below@ == keys_between_upto(
                vpre.store.strokes@,
                vpre.store.strokes@.len() as int,
                element.pos.y as int,
                y_max,
                (lim.0 as i64, lim.1 as i64),
                cfg.limit_movement_vertical_borders,
                cfg.limit_movement_horizontal_borders,
            )
            &&& post.offsetcamera_tool == pre.offsetcamera_tool
            &&& post.zoom_tool == pre.zoom_tool
            &&& post.laser_tool == pre.laser_tool
            &&& vpost.store.laser_store == vpre.store.laser_store
        },
        ToolStyle::OffsetCamera => {
            &&& post.offsetcamera_tool.start == element.pos
            &&& post.verticalspace_tool == pre.verticalspace_tool
            &&& post.zoom_tool == pre.zoom_tool
            &&& post.laser_tool == pre.laser_tool
            &&& vpost.store.laser_store == vpre.store.laser_store
        },
        ToolStyle::Zoom => {
            let sx = vpre.camera.transform_x_spec(element.pos.x as int);
            let sy = vpre.camera.transform_y_spec(element.pos.y as int);
            &&& post.zoom_tool.start_surface_coord == (Vec2 { x: sx as i64, y: sy as i64 })
            &&& post.zoom_tool.current_surface_coord == (Vec2 { x: sx as i64, y: sy as i64 })
            &&& post.verticalspace_tool == pre.verticalspace_tool
            &&& post.offsetcamera_tool == pre.offsetcamera_tool
            &&& post.laser_tool == pre.laser_tool
            &&& vpost.store.laser_store == vpre.store.laser_store
        },
        ToolStyle::Laser => {
            &&& LaserStore::new_stroke_post(
                vpre.store.laser_store,
                vpost.store.laser_store,
                element,
                now,
            )
            &&& post.laser_tool.path_builder == Some(
                PenPathBuilder {
                    kind: vpre.pens_config.brush_config.builder_type,
                    last: element,
                },
            )
            &&& post.verticalspace_tool == pre.verticalspace_tool
            &&& post.offsetcamera_tool == pre.offsetcamera_tool
            &&& post.zoom_tool == pre.zoom_tool
        },
    }
}

impl Tools {
    /// The gesture state.
    pub open spec fn spec_state(self) -> ToolsState {
        self.state
    }

    /// The gesture state.
    pub fn state(&self) -> (r: ToolsState)
        ensures
            r == self.spec_state(),
    {
        self.state
    }

    /// All per-tool gesture data is within its range.
    pub open spec fn wf(self) -> bool {
        &&& self.verticalspace_tool.wf()
        &&& self.offsetcamera_tool.wf()
        &&& self.zoom_tool.wf()
    }

    /// The captured entity keys refer into `store` and are distinct.
    pub open spec fn keys_valid(self, store: StrokeStore) -> bool {
        keys_wf(self.verticalspace_tool.strokes_below@, store.strokes@.len() as int)
    }

    /// Initialize the gesture matching the configured style, request the
    /// document to auto-expand, and go active.
    fn gesture_start(&mut self, element: Element, now: u64, engine_view: &mut EngineView) -> (flags:
        WidgetFlags)
        requires
            old(self).wf(),
            old(engine_view).wf(),
            old(self).keys_valid(old(engine_view).store),
            element.wf(),
        ensures
            gesture_start_rel(
                *old(self),
                *final(self),
                *old(engine_view),
                *final(engine_view),
                element,
                now,
                flags,
            ),
            final(self).wf(),
            final(engine_view).wf(),
            final(self).keys_valid(final(engine_view).store),
    {
        match engine_view.pens_config.tools_config.style {
            ToolStyle::VerticalSpace => {
                self.verticalspace_tool.start_pos_y = element.pos.y;
                self.verticalspace_tool.pos_y = element.pos.y;

                let cfg = engine_view.pens_config.tools_config.verticalspace_tool_config;
                let y_max = engine_view.document.page_end(element.pos.y);
                let limit_x = engine_view.document.page_limit_x(element.pos.x);

                self.verticalspace_tool.limit_x = if cfg.limit_movement_vertical_borders {
                    Some(limit_x)
                } else {
                    None
                };

                self.verticalspace_tool.strokes_below = engine_view.store.keys_between(
                    element.pos.y,
                    y_max,
                    limit_x,
                    cfg.limit_movement_vertical_borders,
                    cfg.limit_movement_horizontal_borders,
                );
            },
            ToolStyle::OffsetCamera => {
                self.offsetcamera_tool.start = element.pos;
            },
            ToolStyle::Zoom => {
                let surface = engine_view.camera.transform_point(element.pos);
                self.zoom_tool.start_surface_coord = surface;
                self.zoom_tool.current_surface_coord = surface;
            },
            ToolStyle::Laser => {
                engine_view.store.laser_store.new_stroke(element, now);
                self.laser_tool.path_builder = Some(
                    PenPathBuilder::start(
                        engine_view.pens_config.brush_config.builder_type,
                        element,
                    ),
                );
            },
        }
        let flags = engine_view.document.resize_autoexpand(&engine_view.store);
        self.state = ToolsState::Active;
        flags
    }

    /// Apply one more pointer sample to the running gesture.
    fn gesture_continue(
        &mut self,
        element: Element,
        now: u64,
        engine_view: &mut EngineView,
    ) -> (flags: WidgetFlags)
        requires
            old(self).spec_state() == ToolsState::Active,
            old(self).wf(),
            old(engine_view).wf(),
            old(self).keys_valid(old(engine_view).store),
            element.wf(),
        ensures
            gesture_continue_rel(
                *old(self),
                *final(self),
                *old(engine_view),
                *final(engine_view),
                element,
                now,
                flags,
            ),
            final(self).wf(),
            final(engine_view).wf(),
            final(self).keys_valid(final(engine_view).store),
    {
        let mut flags = WidgetFlags::empty();
        match engine_view.pens_config.tools_config.style {
            ToolStyle::VerticalSpace => {
                let d = element.pos.y - self.verticalspace_tool.start_pos_y;
                let ad: i64 = if d < 0 {
                    -d
                } else {
                    d
                };
                let y_offset: i64 = if ad < SNAP_START_POS_DIST {
                    self.verticalspace_tool.start_pos_y - self.verticalspace_tool.pos_y
                } else {
                    let snapped = engine_view.document.snap_position(
                        Vec2 {
                            x: element.pos.x,
                            y: element.pos.y - self.verticalspace_tool.pos_y,
                        },
                    );
                    snapped.y
                };
                let ady: i64 = if y_offset < 0 {
                    -y_offset
                } else {
                    y_offset
                };
                if ady > Y_OFFSET_THRESHOLD {
                    let off = Vec2 { x: 0, y: y_offset };
                    engine_view.store.translate_strokes(
                        &self.verticalspace_tool.strokes_below,
                        off,
                    );
                    engine_view.store.translate_strokes_images(
                        &self.verticalspace_tool.strokes_below,
                        off,
                    );
                    self.verticalspace_tool.pos_y = self.verticalspace_tool.pos_y + y_offset;
                    flags.store_modified = true;
                }
                flags.merge(engine_view.camera.nudge_w_pos(element.pos));
                flags.merge(engine_view.document.expand_autoexpand(&engine_view.store));
                engine_view.store.regenerate_rendering_in_viewport_threaded();
            },
            ToolStyle::OffsetCamera => {
                let s_new = engine_view.camera.transform_point(element.pos);
                let s_start = engine_view.camera.transform_point(self.offsetcamera_tool.start);
                let cur = engine_view.camera.offset();
                let target = Vec2 {
                    x: cur.x - (s_new.x - s_start.x),
                    y: cur.y - (s_new.y - s_start.y),
                };
                flags.merge(engine_view.camera.set_offset(target));
                flags.merge(engine_view.document.resize_autoexpand(&engine_view.store));
            },
            ToolStyle::Zoom => {
                let total_zoom_old = engine_view.camera.total_zoom();
                let camera_offset = engine_view.camera.offset();
                let new_surface = engine_view.camera.transform_point(element.pos);
                let dy = new_surface.y - self.zoom_tool.current_surface_coord.y;

                // Drag down zooms out, drag up zooms in.
                let scale = crate::camera::DRAG_ZOOM_DENOM - dy * crate::camera::DRAG_ZOOM_NUMER;
                proof {
                    assert(-970_000_000_000_000_000 <= total_zoom_old * scale
                        <= 970_000_000_000_000_000) by (nonlinear_arith)
                        requires
                            0 < total_zoom_old <= 6000 && -161_000_000_000_000 <= scale
                                <= 161_000_000_000_000,
                    ;
                }
                let new_zoom = crate::num::div_floor(
                    total_zoom_old * scale,
                    crate::camera::DRAG_ZOOM_DENOM,
                );
                proof {
                    assert(total_zoom_old * scale as int / (crate::camera::DRAG_ZOOM_DENOM as int)
                        == zoom_drag_spec(total_zoom_old as int, dy as int));
                }
                if ZOOM_MIN <= new_zoom && new_zoom <= ZOOM_MAX {
                    flags.merge(engine_view.camera.zoom_w_timeout(new_zoom));

                    // Re-anchor the camera so the drag's start surface point
                    // keeps its position on screen across the zoom change.
                    let start = self.zoom_tool.start_surface_coord;
                    proof {
                        assert((900_000_000_000_000 as int) * total_zoom_old
                            >= 180_000_000_000_000_000 && -(900_000_000_000_000 * total_zoom_old)
                            <= (camera_offset.x + start.x) * new_zoom <= (900_000_000_000_000
                            * total_zoom_old) && -(900_000_000_000_000 * total_zoom_old) <= (
                        camera_offset.y + start.y) * new_zoom <= (900_000_000_000_000
                            * total_zoom_old)) by (nonlinear_arith)
                            requires
                                total_zoom_old >= 200 && -30_000_000_000_000 <= camera_offset.x
                                    + start.x <= 30_000_000_000_000 && -30_000_000_000_000
                                    <= camera_offset.y + start.y <= 30_000_000_000_000 && 0
                                    < new_zoom <= 6000,
                        ;
                    }
                    let qx = crate::num::div_floor_bounded(
                        (camera_offset.x + start.x) * new_zoom,
                        total_zoom_old,
                        900_000_000_000_000,
                    );
                    let qy = crate::num::div_floor_bounded(
                        (camera_offset.y + start.y) * new_zoom,
                        total_zoom_old,
                        900_000_000_000_000,
                    );
                    let anchored = Vec2 { x: qx - start.x, y: qy - start.y };
                    flags.merge(engine_view.camera.set_offset(anchored));
                    flags.merge(engine_view.document.expand_autoexpand(&engine_view.store));
                }
                self.zoom_tool.current_surface_coord = new_surface;
            },
            ToolStyle::Laser => {
                let taken = self.laser_tool.path_builder.take();
                match taken {
                    Some(mut builder) => {
                        let progress = builder.handle_event(PenEvent::Down { element });
                        self.laser_tool.path_builder = Some(builder);
                        engine_view.store.laser_store.update(progress, now);
                    },
                    None => {
                        self.laser_tool.path_builder = None;
                    },
                }
            },
        }
        flags
    }

    /// Finalize the running gesture on pointer-up and return to idle.
    fn gesture_finish(&mut self, element: Element, now: u64, engine_view: &mut EngineView) -> (flags:
        WidgetFlags)
        requires
            old(self).spec_state() == ToolsState::Active,
            old(self).wf(),
            old(engine_view).wf(),
            old(self).keys_valid(old(engine_view).store),
            element.wf(),
        ensures
            gesture_finish_rel(
                *old(self),
                *final(self),
                *old(engine_view),
                *final(engine_view),
                element,
                now,
                flags,
            ),
            final(self).wf(),
            final(engine_view).wf(),
            final(self).keys_valid(final(engine_view).store),
    {
        let mut flags = WidgetFlags::empty();
        let style = engine_view.pens_config.tools_config.style;
        match style {
            ToolStyle::VerticalSpace => {
                engine_view.store.update_geometry_for_strokes(
                    &self.verticalspace_tool.strokes_below,
                );
                flags.merge(engine_view.store.record(now));
                flags.store_modified = true;
            },
            ToolStyle::Laser => {
                let taken = self.laser_tool.path_builder.take();
                match taken {
                    Some(mut builder) => {
                        let progress = builder.handle_event(PenEvent::Up { element });
                        self.laser_tool.path_builder = Some(builder);
                        engine_view.store.laser_store.update(progress, now);
                        engine_view.animation.claim_frame();
                    },
                    None => {
                        self.laser_tool.path_builder = None;
                    },
                }
            },
            ToolStyle::OffsetCamera | ToolStyle::Zoom => {},
        }
        flags.merge(engine_view.document.resize_autoexpand(&engine_view.store));
        engine_view.store.regenerate_rendering_in_viewport_threaded();
        self.reset(style);
        flags
    }

    /// Abort the running gesture and return to idle.
    fn gesture_cancel(&mut self, now: u64, engine_view: &mut EngineView) -> (flags: WidgetFlags)
        requires
            old(self).spec_state() == ToolsState::Active,
            old(self).wf(),
            old(engine_view).wf(),
            old(self).keys_valid(old(engine_view).store),
        ensures
            gesture_cancel_rel(
                *old(self),
                *final(self),
                *old(engine_view),
                *final(engine_view),
                now,
                flags,
            ),
            final(self).wf(),
            final(engine_view).wf(),
            final(self).keys_valid(final(engine_view).store),
    {
        let mut flags = WidgetFlags::empty();
        let style = engine_view.pens_config.tools_config.style;
        match style {
            ToolStyle::Laser => {
                engine_view.animation.claim_frame();
            },
            _ => {},
        }
        flags.merge(engine_view.document.resize_autoexpand(&engine_view.store));
        engine_view.store.regenerate_rendering_in_viewport_threaded();
        self.reset(style);
        flags
    }

    /// Handle one pointer event: from idle, a pressed pointer starts a
    /// gesture of the configured style; while a gesture runs, further pressed
    /// samples continue it, pointer-up finishes it, and cancel aborts it. All
    /// other events pass through unhandled.
    pub fn handle_event(&mut self, event: PenEvent, now: u64, engine_view: &mut EngineView) -> (r:
        (EventResult, WidgetFlags))
        requires
            old(self).wf(),
            old(engine_view).wf(),
            old(self).keys_valid(old(engine_view).store),
            event.wf(),
        ensures
            final(self).spec_state() == next_state(old(self).spec_state(), event),
            r.0 == event_result_spec(old(self).spec_state(), event),
            final(self).wf(),
            final(engine_view).wf(),
            final(self).keys_valid(final(engine_view).store),
            old(self).spec_state() == ToolsState::Idle ==> (match event {
                PenEvent::Down { element } => gesture_start_rel(
                    *old(self),
                    *final(self),
                    *old(engine_view),
                    *final(engine_view),
                    element,
                    now,
                    r.1,
                ),
                _ => *final(self) == *old(self) && *final(engine_view) == *old(engine_view) && r.1
                    == WidgetFlags::empty_spec(),
            }),
            old(self).spec_state() == ToolsState::Active ==> (match event {
                PenEvent::Down { element } => gesture_continue_rel(
                    *old(self),
                    *final(self),
                    *old(engine_view),
                    *final(engine_view),
                    element,
                    now,
                    r.1,
                ),
                PenEvent::Up { element } => gesture_finish_rel(
                    *old(self),
                    *final(self),
                    *old(engine_view),
                    *final(engine_view),
                    element,
                    now,
                    r.1,
                ),
                PenEvent::Cancel => gesture_cancel_rel(
                    *old(self),
                    *final(self),
                    *old(engine_view),
                    *final(engine_view),
                    now,
                    r.1,
                ),
                _ => *final(self) == *old(self) && *final(engine_view) == *old(engine_view) && r.1
                    == WidgetFlags::empty_spec(),
            }),
    {
        match (self.state, event) {
            (ToolsState::Idle, PenEvent::Down { element }) => {
                let flags = self.gesture_start(element, now, engine_view);
                (
                    EventResult {
                        handled: true,
                        propagate: EventPropagation::Stop,
                        progress: PenProgress::InProgress,
                    },
                    flags,
                )
            },
            (ToolsState::Idle, _) => (
                EventResult {
                    handled: false,
                    propagate: EventPropagation::Proceed,
                    progress: PenProgress::Idle,
                },
                WidgetFlags::empty(),
            ),
            (ToolsState::Active, PenEvent::Down { element }) => {
                let flags = self.gesture_continue(element, now, engine_view);
                (
                    EventResult {
                        handled: true,
                        propagate: EventPropagation::Stop,
                        progress: PenProgress::InProgress,
                    },
                    flags,
                )
            },
            (ToolsState::Active, PenEvent::Up { element }) => {
                let flags = self.gesture_finish(element, now, engine_view);
                (
                    EventResult {
                        handled: true,
                        propagate: EventPropagation::Stop,
                        progress: PenProgress::Finished,
                    },
                    flags,
                )
            },
            (ToolsState::Active, PenEvent::Cancel) => {
                let flags = self.gesture_cancel(now, engine_view);
                (
                    EventResult {
                        handled: true,
                        propagate: EventPropagation::Stop,
                        progress: PenProgress::Finished,
                    },
                    flags,
                )
            },
            (ToolsState::Active, _) => (
                EventResult {
                    handled: false,
                    propagate: EventPropagation::Proceed,
                    progress: PenProgress::InProgress,
                },
                WidgetFlags::empty(),
            ),
        }
    }

    /// The redraw region of the current tool decoration: the laser region
    /// whenever the laser style is configured (its strokes outlive the
    /// gesture); otherwise the active tool's region, and nothing while idle.
    pub fn bounds_on_doc(&self, engine_view: &EngineView, now: u64) -> (r: Option<Aabb>)
        requires
            self.wf(),
            engine_view.wf(),
        ensures
            ({
                let style = engine_view.pens_config.tools_config.style;
                if style is Laser {
                    laser_bounds_post(engine_view.store.laser_store, engine_view.camera, now, r)
                } else if self.spec_state() is Active {
                    match style {
                        ToolStyle::VerticalSpace => r == Some(
                            vspace_bounds_spec(self.verticalspace_tool, engine_view.camera),
                        ),
                        ToolStyle::OffsetCamera => r == Some(
                            offsetcamera_bounds_spec(self.offsetcamera_tool, engine_view.camera),
                        ),
                        ToolStyle::Zoom => r == Some(
                            zoom_bounds_spec(self.zoom_tool, engine_view.camera),
                        ),
                        ToolStyle::Laser => true,
                    }
                } else {
                    r is None
                }
            }),
    {
        match engine_view.pens_config.tools_config.style {
            ToolStyle::Laser => self.laser_tool.bounds_on_doc(engine_view, now),
            _ => match self.state {
                ToolsState::Active => match engine_view.pens_config.tools_config.style {
                    ToolStyle::VerticalSpace => self.verticalspace_tool.bounds_on_doc(engine_view),
                    ToolStyle::OffsetCamera => self.offsetcamera_tool.bounds_on_doc(engine_view),
                    ToolStyle::Zoom => self.zoom_tool.bounds_on_doc(engine_view),
                    ToolStyle::Laser => self.laser_tool.bounds_on_doc(engine_view, now),
                },
                ToolsState::Idle => None,
            },
        }
    }

    /// Keep the fade-out animating: claim one more frame whenever the laser
    /// strokes have not yet fully faded. Once they have, the request stops
    /// and the animation scheduler goes idle naturally.
    pub fn handle_animation_frame(&mut self, now: u64, engine_view: &mut EngineView)
        ensures
            *final(self) == *old(self),
            final(engine_view).document == old(engine_view).document,
            final(engine_view).store == old(engine_view).store,
            final(engine_view).camera == old(engine_view).camera,
            final(engine_view).pens_config == old(engine_view).pens_config,
            final(engine_view).animation.frame_requested == (old(
                engine_view,
            ).animation.frame_requested || !old(engine_view).store.laser_store.spec_is_faded(now)),
    {
        if !engine_view.store.laser_store.is_faded(now) {
            engine_view.animation.claim_frame();
        }
    }

    /// Zero the transient data of the currently configured tool variant and
    /// return to idle.
    fn reset(&mut self, style: ToolStyle)
        ensures
            reset_rel(*old(self), *final(self), style),
    {
        match style {
            ToolStyle::VerticalSpace => {
                self.verticalspace_tool.start_pos_y = 0;
                self.verticalspace_tool.pos_y = 0;
            },
            ToolStyle::OffsetCamera => {
                self.offsetcamera_tool.start = Vec2 { x: 0, y: 0 };
            },
            ToolStyle::Zoom => {
                self.zoom_tool.start_surface_coord = Vec2 { x: 0, y: 0 };
                self.zoom_tool.current_surface_coord = Vec2 { x: 0, y: 0 };
            },
            ToolStyle::Laser => {
                self.laser_tool.path_builder = None;
            },
        }
        self.state = ToolsState::Idle;
    }
}

/// The vertical offset one pointer sample asks for: a pointer within snap
/// distance of the gesture start snaps the content back to where it started;
/// otherwise the offset is the grid-snapped distance to the insertion line.
pub open spec fn vspace_y_offset_spec(tool: VerticalSpaceTool, doc: Document, e: Element) -> int {
    if abs_spec(e.pos.y - tool.start_pos_y) < SNAP_START_POS_DIST {
        tool.start_pos_y - tool.pos_y
    } else {
        doc.snap_spec(e.pos.y - tool.pos_y)
    }
}

/// The zoom a vertical drag of `dy` milli-units asks for: drag down zooms
/// out, drag up zooms in.
pub open spec fn zoom_drag_spec(zoom: int, dy: int) -> int {
    (zoom * (crate::camera::DRAG_ZOOM_DENOM - dy * crate::camera::DRAG_ZOOM_NUMER))
        / (crate::camera::DRAG_ZOOM_DENOM as int)
}

/// The camera offset that keeps the drag's start surface point visually
/// fixed across a zoom change.
pub open spec fn zoom_offset_spec(offset: int, start: int, new_zoom: int, old_zoom: int) -> int {
    ((offset + start) * new_zoom) / old_zoom - start
}

/// What continuing a gesture at `element` does, depending on the configured
/// style: vertical-space translates the captured entities, camera-pan moves
/// the view, zoom re-scales and re-anchors the camera, and the laser feeds
/// the sample through the path builder into the laser store.
pub open spec fn gesture_continue_rel(
    pre: Tools,
    post: Tools,
    vpre: EngineView,
    vpost: EngineView,
    element: Element,
    now: u64,
    flags: WidgetFlags,
) -> bool {
    let style = vpre.pens_config.tools_config.style;
    &&& post.spec_state() == ToolsState::Active
    &&& vpost.pens_config == vpre.pens_config
    &&& vpost.animation == vpre.animation
    &&& match style {
        ToolStyle::VerticalSpace => {
            let yoff = vspace_y_offset_spec(pre.verticalspace_tool, vpre.document, element);
            let applied = abs_spec(yoff) > Y_OFFSET_THRESHOLD;
            let keys = pre.verticalspace_tool.strokes_below@;
            let off = Vec2 { x: 0, y: yoff as i64 };
            let strokes_mid = if applied {
                crate::store::translate_images_spec(
                    crate::store::translate_spec(vpre.store.strokes@, keys, off),
                    keys,
                    off,
                )
            } else {
                vpre.store.strokes@
            };
            &&& vpost.store.strokes@ == strokes_mid
            &&& vpost.store.laser_store == vpre.store.laser_store
            &&& vpost.store.history@ == vpre.store.history@
            &&& vpost.store.rerender_requested
            &&& post.verticalspace_tool.pos_y == (if applied {
                pre.verticalspace_tool.pos_y + yoff
            } else {
                pre.verticalspace_tool.pos_y as int
            })
            &&& post.verticalspace_tool.start_pos_y == pre.verticalspace_tool.start_pos_y
            &&& post.verticalspace_tool.limit_x == pre.verticalspace_tool.limit_x
            &&& post.verticalspace_tool.strokes_below@ == keys
            &&& post.offsetcamera_tool == pre.offsetcamera_tool
            &&& post.zoom_tool == pre.zoom_tool
            &&& post.laser_tool == pre.laser_tool
            &&& vpost.camera == vpre.camera.nudged_spec(element.pos)
            &&& vpost.document == vpre.document.expanded_spec(strokes_mid)
            &&& flags == (WidgetFlags {
                redraw: vpre.camera.nudge_flags_spec(element.pos).redraw,
                resize: vpost.document.height != vpre.document.height,
                store_modified: applied,
                refresh_ui: false,
                update_view: vpre.camera.nudge_flags_spec(element.pos).update_view,
                zoomed: false,
            })
        },
        ToolStyle::OffsetCamera => {
            let dx = vpre.camera.transform_x_spec(element.pos.x as int)
                - vpre.camera.transform_x_spec(pre.offsetcamera_tool.start.x as int);
            let dy = vpre.camera.transform_y_spec(element.pos.y as int)
                - vpre.camera.transform_y_spec(pre.offsetcamera_tool.start.y as int);
            &&& vpost.camera == vpre.camera.set_offset_spec(
                Vec2 {
                    x: (vpre.camera.offset.x - dx) as i64,
                    y: (vpre.camera.offset.y - dy) as i64,
                },
            )
            &&& vpost.document == vpre.document.resized_spec(vpre.store.strokes@)
            &&& vpost.store == vpre.store
            &&& post.verticalspace_tool == pre.verticalspace_tool
            &&& post.offsetcamera_tool == pre.offsetcamera_tool
            &&& post.zoom_tool == pre.zoom_tool
            &&& post.laser_tool == pre.laser_tool
            &&& flags == (WidgetFlags {
                redraw: true,
                resize: vpost.document.height != vpre.document.height,
                store_modified: false,
                refresh_ui: false,
                update_view: true,
                zoomed: false,
            })
        },
        ToolStyle::Zoom => {
            let sx = vpre.camera.transform_x_spec(element.pos.x as int);
            let sy = vpre.camera.transform_y_spec(element.pos.y as int);
            let dy = sy - pre.zoom_tool.current_surface_coord.y;
            let new_zoom = zoom_drag_spec(vpre.camera.zoom as int, dy);
            &&& post.zoom_tool.current_surface_coord == (Vec2 { x: sx as i64, y: sy as i64 })
            &&& post.zoom_tool.start_surface_coord == pre.zoom_tool.start_surface_coord
            &&& post.verticalspace_tool == pre.verticalspace_tool
            &&& post.offsetcamera_tool == pre.offsetcamera_tool
            &&& post.laser_tool == pre.laser_tool
            &&& vpost.store == vpre.store
            &&& (if ZOOM_MIN <= new_zoom <= ZOOM_MAX {
                let anchored = Vec2 {
                    x: zoom_offset_spec(
                        vpre.camera.offset.x as int,
                        pre.zoom_tool.start_surface_coord.x as int,
                        new_zoom,
                        vpre.camera.zoom as int,
                    ) as i64,
                    y: zoom_offset_spec(
                        vpre.camera.offset.y as int,
                        pre.zoom_tool.start_surface_coord.y as int,
                        new_zoom,
                        vpre.camera.zoom as int,
                    ) as i64,
                };
                &&& vpost.camera == vpre.camera.zoom_w_timeout_spec(
                    new_zoom as i64,
                ).set_offset_spec(anchored)
                &&& vpost.document == vpre.document.expanded_spec(vpre.store.strokes@)
                &&& flags == (WidgetFlags {
                    redraw: true,
                    resize: vpost.document.height != vpre.document.height,
                    store_modified: false,
                    refresh_ui: false,
                    update_view: true,
                    zoomed: true,
                })
            } else {
                &&& vpost.camera == vpre.camera
                &&& vpost.document == vpre.document
                &&& flags == WidgetFlags::empty_spec()
            })
        },
        ToolStyle::Laser => {
            &&& match pre.laser_tool.path_builder {
                Some(b) => {
                    &&& post.laser_tool.path_builder == Some(
                        PenPathBuilder { kind: b.kind, last: element },
                    )
                    &&& LaserStore::update_post(
                        vpre.store.laser_store,
                        vpost.store.laser_store,
                        seq![Segment { end: element }],
                        now,
                    )
                },
                None => {
                    &&& post.laser_tool == pre.laser_tool
                    &&& vpost.store.laser_store == vpre.store.laser_store
                },
            }
            &&& vpost.store.strokes@ == vpre.store.strokes@
            &&& vpost.store.history@ == vpre.store.history@
            &&& vpost.store.rerender_requested == vpre.store.rerender_requested
            &&& vpost.camera == vpre.camera
            &&& vpost.document == vpre.document
            &&& post.verticalspace_tool == pre.verticalspace_tool
            &&& post.offsetcamera_tool == pre.offsetcamera_tool
            &&& post.zoom_tool == pre.zoom_tool
            &&& flags == WidgetFlags::empty_spec()
        },
    }
}

/// What ending a gesture with a pointer-up at `element` does: vertical-space
/// recomputes the geometry of the captured entities and records a
/// persistence checkpoint; the laser flushes the builder's final segments and
/// claims one more animation frame; in every case the document auto-expands,
/// a viewport re-render is dispatched, and the matching tool variant resets.
pub open spec fn gesture_finish_rel(
    pre: Tools,
    post: Tools,
    vpre: EngineView,
    vpost: EngineView,
    element: Element,
    now: u64,
    flags: WidgetFlags,
) -> bool {
    let style = vpre.pens_config.tools_config.style;
    &&& reset_rel(pre, post, style)
    &&& vpost.pens_config == vpre.pens_config
    &&& vpost.camera == vpre.camera
    &&& vpost.store.rerender_requested
    &&& match style {
        ToolStyle::VerticalSpace => {
            let keys = pre.verticalspace_tool.strokes_below@;
            let strokes_mid = crate::store::fresh_geometry_spec(vpre.store.strokes@, keys);
            &&& vpost.store.strokes@ == strokes_mid
            &&& vpost.store.history@ == vpre.store.history@.push(now)
            &&& vpost.store.laser_store == vpre.store.laser_store
            &&& vpost.animation == vpre.animation
            &&& vpost.document == vpre.document.resized_spec(strokes_mid)
            &&& flags == (WidgetFlags {
                redraw: false,
                resize: vpost.document.height != vpre.document.height,
                store_modified: true,
                refresh_ui: true,
                update_view: false,
                zoomed: false,
            })
        },
        ToolStyle::Laser => {
            &&& vpost.store.strokes@ == vpre.store.strokes@
            &&& vpost.store.history@ == vpre.store.history@
            &&& match pre.laser_tool.path_builder {
                Some(_) => {
                    &&& LaserStore::update_post(
                        vpre.store.laser_store,
                        vpost.store.laser_store,
                        seq![Segment { end: element }],
                        now,
                    )
                    &&& vpost.animation.frame_requested
                },
                None => {
                    &&& vpost.store.laser_store == vpre.store.laser_store
                    &&& vpost.animation == vpre.animation
                },
            }
            &&& vpost.document == vpre.document.resized_spec(vpre.store.strokes@)
            &&& flags == (WidgetFlags {
                resize: vpost.document.height != vpre.document.height,
                ..WidgetFlags::empty_spec()
            })
        },
        ToolStyle::OffsetCamera | ToolStyle::Zoom => {
            &&& vpost.store.strokes@ == vpre.store.strokes@
            &&& vpost.store.history@ == vpre.store.history@
            &&& vpost.store.laser_store == vpre.store.laser_store
            &&& vpost.animation == vpre.animation
            &&& vpost.document == vpre.document.resized_spec(vpre.store.strokes@)
            &&& flags == (WidgetFlags {
                resize: vpost.document.height != vpre.document.height,
                ..WidgetFlags::empty_spec()
            })
        },
    }
}

/// What cancelling a gesture does: nothing is flushed or recorded; the laser
/// style claims one more animation frame (so the fade-out keeps animating);
/// the document auto-expands, a re-render is dispatched, and the matching
/// tool variant resets.
pub open spec fn gesture_cancel_rel(
    pre: Tools,
    post: Tools,
    vpre: EngineView,
    vpost: EngineView,
    now: u64,
    flags: WidgetFlags,
) -> bool {
    let style = vpre.pens_config.tools_config.style;
    &&& reset_rel(pre, post, style)
    &&& vpost.pens_config == vpre.pens_config
    &&& vpost.camera == vpre.camera
    &&& vpost.store.strokes@ == vpre.store.strokes@
    &&& vpost.store.history@ == vpre.store.history@
    &&& vpost.store.laser_store == vpre.store.laser_store
    &&& vpost.store.rerender_requested
    &&& vpost.animation == (if style is Laser {
        crate::engine::Animation { frame_requested: true }
    } else {
        vpre.animation
    })
    &&& vpost.document == vpre.document.resized_spec(vpre.store.strokes@)
    &&& flags == (WidgetFlags {
        resize: vpost.document.height != vpre.document.height,
        ..WidgetFlags::empty_spec()
    })
}

/// The redraw region of the vertical-space decoration: the strip between the
/// viewport's left and right edges, from the gesture's start line down (or
/// up) to the current insertion line.
pub open spec fn vspace_bounds_spec(tool: VerticalSpaceTool, camera: Camera) -> Aabb {
    Aabb::new_positive_spec(
        Vec2 { x: camera.inverse_x_spec(0) as i64, y: tool.start_pos_y },
        Vec2 { x: camera.inverse_x_spec(camera.size.x as int) as i64, y: tool.pos_y },
    )
}

/// The redraw region of the camera-pan cursor glyph around the drag start.
pub open spec fn offsetcamera_bounds_spec(tool: OffsetCameraTool, camera: Camera) -> Aabb {
    let h = surface_len_on_doc_spec(OFFSET_CAMERA_CURSOR_HALF, camera.zoom);
    Aabb {
        mins: Vec2 { x: (tool.start.x - h) as i64, y: (tool.start.y - h) as i64 },
        maxs: Vec2 { x: (tool.start.x + h) as i64, y: (tool.start.y + h) as i64 },
    }
}

/// The redraw region of the zoom cursors: the box between the drag's start
/// and current points (mapped back onto the document), grown by the cursor
/// radius.
pub open spec fn zoom_bounds_spec(tool: ZoomTool, camera: Camera) -> Aabb {
    let a = Vec2 {
        x: camera.inverse_x_spec(tool.start_surface_coord.x as int) as i64,
        y: camera.inverse_y_spec(tool.start_surface_coord.y as int) as i64,
    };
    let b = Vec2 {
        x: camera.inverse_x_spec(tool.current_surface_coord.x as int) as i64,
        y: camera.inverse_y_spec(tool.current_surface_coord.y as int) as i64,
    };
    Aabb::new_positive_spec(a, b).extend_by_spec(
        surface_len_on_doc_spec(ZOOM_CURSOR_MARGIN, camera.zoom) as i64,
    )
}

/// What the laser redraw region is: nothing once the strokes have fully
/// faded or when none exist; otherwise a well-formed box that contains every
/// sample of every stroke with a margin of exactly the outer stroke width
/// (in document units at the current zoom) on each side, and is tight: each
/// of its four edges is attained by some sample plus that margin.
pub open spec fn laser_bounds_post(
    store: LaserStore,
    camera: Camera,
    now: u64,
    r: Option<Aabb>,
) -> bool {
    let paths = store.paths_view();
    let m = surface_len_on_doc_spec(LASER_OUTER_STROKE_WIDTH, camera.zoom);
    &&& (r is Some <==> !store.spec_is_faded(now) && paths.len() > 0)
    &&& match r {
        Some(b) => {
            &&& b.wf()
            &&& forall|i: int, j: int|
                0 <= i < paths.len() && 0 <= j < paths[i].len() ==> b.mins.x + m <= (
                #[trigger] paths[i][j]).pos.x <= b.maxs.x - m && b.mins.y + m <= paths[i][j].pos.y
                    <= b.maxs.y - m
            &&& exists|i: int, j: int|
                0 <= i < paths.len() && 0 <= j < paths[i].len() && (#[trigger] paths[i][j]).pos.x
                    == b.mins.x + m
            &&& exists|i: int, j: int|
                0 <= i < paths.len() && 0 <= j < paths[i].len() && (#[trigger] paths[i][j]).pos.y
                    == b.mins.y + m
            &&& exists|i: int, j: int|
                0 <= i < paths.len() && 0 <= j < paths[i].len() && (#[trigger] paths[i][j]).pos.x
                    == b.maxs.x - m
            &&& exists|i: int, j: int|
                0 <= i < paths.len() && 0 <= j < paths[i].len() && (#[trigger] paths[i][j]).pos.y
                    == b.maxs.y - m
        },
        None => true,
    }
}

/// From idle, only a pressed pointer starts a gesture; from an active
/// gesture, only pointer-up and cancel return to idle; every other event
/// leaves the state unchanged.
pub proof fn lemma_state_transitions(event: PenEvent)
    ensures
        next_state(ToolsState::Idle, event) == ToolsState::Active <==> event is Down,
        next_state(ToolsState::Active, event) == ToolsState::Idle <==> (event is Up || event
            is Cancel),
{
}

/// A zoom drag whose requested zoom leaves the accepted range changes
/// nothing about the camera — the zoom level in particular stays — while the
/// tracked pointer position still advances to the new sample.
pub proof fn lemma_zoom_out_of_range_keeps_camera(
    pre: Tools,
    post: Tools,
    vpre: EngineView,
    vpost: EngineView,
    element: Element,
    now: u64,
    flags: WidgetFlags,
)
    requires
        vpre.pens_config.tools_config.style is Zoom,
        gesture_continue_rel(pre, post, vpre, vpost, element, now, flags),
        !(ZOOM_MIN <= zoom_drag_spec(
            vpre.camera.zoom as int,
            vpre.camera.transform_y_spec(element.pos.y as int)
                - pre.zoom_tool.current_surface_coord.y,
        ) <= ZOOM_MAX),
    ensures
        vpost.camera == vpre.camera,
        vpost.camera.zoom == vpre.camera.zoom,
        post.zoom_tool.current_surface_coord == (Vec2 {
            x: vpre.camera.transform_x_spec(element.pos.x as int) as i64,
            y: vpre.camera.transform_y_spec(element.pos.y as int) as i64,
        }),
{
}

/// A vertical-space drag whose offset magnitude is within the jitter
/// threshold translates no entity and does not mark the store as modified.
pub proof fn lemma_vspace_deadband(
    pre: Tools,
    post: Tools,
    vpre: EngineView,
    vpost: EngineView,
    element: Element,
    now: u64,
    flags: WidgetFlags,
)
    requires
        vpre.pens_config.tools_config.style is VerticalSpace,
        gesture_continue_rel(pre, post, vpre, vpost, element, now, flags),
        abs_spec(vspace_y_offset_spec(pre.verticalspace_tool, vpre.document, element))
            <= Y_OFFSET_THRESHOLD,
    ensures
        vpost.store.strokes@ == vpre.store.strokes@,
        !flags.store_modified,
        post.verticalspace_tool.pos_y == pre.verticalspace_tool.pos_y,
{
}

/// What `reset` leaves behind: the variant of the configured style has its
/// transient fields zeroed (the captured entity keys and page limits of the
/// vertical-space tool are kept, as a later gesture overwrites them), the
/// other variants keep their data, and the pen is idle.
pub open spec fn reset_rel(pre: Tools, post: Tools, style: ToolStyle) -> bool {
    &&& post.spec_state() == ToolsState::Idle
    &&& match style {
        ToolStyle::VerticalSpace => {
            &&& post.verticalspace_tool.start_pos_y == 0
            &&& post.verticalspace_tool.pos_y == 0
            &&& post.verticalspace_tool.limit_x == pre.verticalspace_tool.limit_x
            &&& post.verticalspace_tool.strokes_below == pre.verticalspace_tool.strokes_below
            &&& post.offsetcamera_tool == pre.offsetcamera_tool
            &&& post.zoom_tool == pre.zoom_tool
            &&& post.laser_tool == pre.laser_tool
        },
        ToolStyle::OffsetCamera => {
            &&& post.offsetcamera_tool.start == (Vec2 { x: 0, y: 0 })
            &&& post.verticalspace_tool == pre.verticalspace_tool
            &&& post.zoom_tool == pre.zoom_tool
            &&& post.laser_tool == pre.laser_tool
        },
        ToolStyle::Zoom => {
            &&& post.zoom_tool == (ZoomTool {
                start_surface_coord: Vec2 { x: 0, y: 0 },
                current_surface_coord: Vec2 { x: 0, y: 0 },
            })
            &&& post.verticalspace_tool == pre.verticalspace_tool
            &&& post.offsetcamera_tool == pre.offsetcamera_tool
            &&& post.laser_tool == pre.laser_tool
        },
        ToolStyle::Laser => {
            &&& post.laser_tool.path_builder is None
            &&& post.verticalspace_tool == pre.verticalspace_tool
            &&& post.offsetcamera_tool == pre.offsetcamera_tool
            &&& post.zoom_tool == pre.zoom_tool
        },
    }
}

} // verus!

