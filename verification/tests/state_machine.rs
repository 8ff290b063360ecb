//! The tool pen's state machine and the per-style gesture behavior.

use pen_tools::camera::Camera;
use pen_tools::config::{
    BrushConfig, PensConfig, ToolStyle, ToolsConfig, VerticalSpaceToolConfig,
};
use pen_tools::document::{Document, Format};
use pen_tools::engine::{Animation, EngineView};
use pen_tools::events::{Element, PenEvent, PenProgress};
use pen_tools::geometry::Vec2;
use pen_tools::penpath::PenPathBuilderType;
use pen_tools::store::{Stroke, StrokeKey, StrokeStore};
use pen_tools::tools::{Tools, ToolsState};

fn view(style: ToolStyle) -> EngineView {
    EngineView {
        document: Document {
            format: Format { width: 800_000, height: 1_000_000 },
            snap_positions: false,
            grid_size: 10_000,
            autoexpand: false,
            height: 1_000_000,
        },
        store: StrokeStore::new(),
        camera: Camera {
            offset: Vec2 { x: 0, y: 0 },
            zoom: 1000,
            size: Vec2 { x: 800_000, y: 600_000 },
            zoom_task_pending: false,
        },
        animation: Animation { frame_requested: false },
        pens_config: PensConfig {
            tools_config: ToolsConfig {
                style,
                verticalspace_tool_config: VerticalSpaceToolConfig {
                    limit_movement_horizontal_borders: false,
                    limit_movement_vertical_borders: false,
                },
            },
            brush_config: BrushConfig { builder_type: PenPathBuilderType::Simple },
        },
    }
}

fn stroke_at(x: i64, y: i64) -> Stroke {
    Stroke { pos: Vec2 { x, y }, image_pos: Vec2 { x, y }, geometry_dirty: false }
}

fn el(x: i64, y: i64) -> Element {
    Element { pos: Vec2 { x, y } }
}

fn down(x: i64, y: i64) -> PenEvent {
    PenEvent::Down { element: el(x, y) }
}

fn up(x: i64, y: i64) -> PenEvent {
    PenEvent::Up { element: el(x, y) }
}

#[test]
fn only_down_activates_and_only_up_or_cancel_deactivate() {
    let mut tools = Tools::default();
    let mut v = view(ToolStyle::OffsetCamera);

    let (r, _) = tools.handle_event(PenEvent::Proximity { element: el(0, 0) }, 0, &mut v);
    assert!(!r.handled);
    assert_eq!(tools.state(), ToolsState::Idle);

    let (r, _) = tools.handle_event(PenEvent::KeyPressed, 1, &mut v);
    assert!(!r.handled);
    assert_eq!(tools.state(), ToolsState::Idle);

    let (r, _) = tools.handle_event(PenEvent::Text, 2, &mut v);
    assert!(!r.handled);
    assert_eq!(tools.state(), ToolsState::Idle);

    let (r, _) = tools.handle_event(PenEvent::Cancel, 3, &mut v);
    assert!(!r.handled);
    assert_eq!(tools.state(), ToolsState::Idle);

    let (r, _) = tools.handle_event(down(1000, 1000), 4, &mut v);
    assert!(r.handled);
    assert_eq!(r.progress, PenProgress::InProgress);
    assert_eq!(tools.state(), ToolsState::Active);

    let (r, _) = tools.handle_event(PenEvent::Proximity { element: el(0, 0) }, 5, &mut v);
    assert!(!r.handled);
    assert_eq!(tools.state(), ToolsState::Active);

    let (r, _) = tools.handle_event(PenEvent::KeyPressed, 6, &mut v);
    assert!(!r.handled);
    assert_eq!(tools.state(), ToolsState::Active);

    let (r, _) = tools.handle_event(PenEvent::Text, 7, &mut v);
    assert!(!r.handled);
    assert_eq!(tools.state(), ToolsState::Active);

    let (r, _) = tools.handle_event(up(1000, 1000), 8, &mut v);
    assert!(r.handled);
    assert_eq!(r.progress, PenProgress::Finished);
    assert_eq!(tools.state(), ToolsState::Idle);

    let (r, _) = tools.handle_event(down(1000, 1000), 9, &mut v);
    assert!(r.handled);
    assert_eq!(tools.state(), ToolsState::Active);

    let (r, _) = tools.handle_event(PenEvent::Cancel, 10, &mut v);
    assert!(r.handled);
    assert_eq!(r.progress, PenProgress::Finished);
    assert_eq!(tools.state(), ToolsState::Idle);
}

#[test]
fn vertical_space_gesture_captures_translates_and_records() {
    let mut tools = Tools::default();
    let mut v = view(ToolStyle::VerticalSpace);
    v.store.strokes.push(stroke_at(10_000, 50_000));
    v.store.strokes.push(stroke_at(20_000, 150_000));
    v.store.strokes.push(stroke_at(30_000, 200_000));

    // pointer down at 100 units: the strokes at 150 and 200 units, down to
    // the next page boundary, are captured
    tools.handle_event(down(0, 100_000), 0, &mut v);
    assert_eq!(
        tools.verticalspace_tool.strokes_below,
        vec![StrokeKey { idx: 1 }, StrokeKey { idx: 2 }]
    );

    // drag to 130 units with grid snapping disabled: +30 units for every
    // captured stroke (and its cached image)
    let (_, flags) = tools.handle_event(down(0, 130_000), 1, &mut v);
    assert!(flags.store_modified);
    assert_eq!(v.store.strokes[0].pos.y, 50_000);
    assert_eq!(v.store.strokes[1].pos.y, 180_000);
    assert_eq!(v.store.strokes[2].pos.y, 230_000);
    assert_eq!(v.store.strokes[1].image_pos.y, 180_000);
    assert!(v.store.strokes[1].geometry_dirty);

    // pointer up: geometry is recomputed and a checkpoint recorded
    let (_, flags) = tools.handle_event(up(0, 130_000), 2, &mut v);
    assert!(flags.store_modified);
    assert!(flags.refresh_ui);
    assert_eq!(v.store.history, vec![2]);
    assert!(!v.store.strokes[1].geometry_dirty);
    assert_eq!(tools.state(), ToolsState::Idle);
}

#[test]
fn vertical_space_deadband_produces_no_translation() {
    let mut tools = Tools::default();
    let mut v = view(ToolStyle::VerticalSpace);
    v.store.strokes.push(stroke_at(0, 150_000));

    tools.handle_event(down(0, 100_000), 0, &mut v);
    tools.handle_event(down(0, 130_000), 1, &mut v);
    assert_eq!(v.store.strokes[0].pos.y, 180_000);

    // a drag of 0.05 units is within the jitter deadband: nothing moves and
    // the store is not marked modified
    let (_, flags) = tools.handle_event(down(0, 130_050), 2, &mut v);
    assert!(!flags.store_modified);
    assert_eq!(v.store.strokes[0].pos.y, 180_000);
    assert_eq!(tools.verticalspace_tool.pos_y, 130_000);
}

#[test]
fn vertical_space_snaps_back_near_the_start() {
    let mut tools = Tools::default();
    let mut v = view(ToolStyle::VerticalSpace);
    v.store.strokes.push(stroke_at(0, 150_000));

    tools.handle_event(down(0, 100_000), 0, &mut v);
    tools.handle_event(down(0, 130_000), 1, &mut v);
    assert_eq!(v.store.strokes[0].pos.y, 180_000);

    // back within snap distance of the start: the content snaps back exactly
    tools.handle_event(down(0, 100_500), 2, &mut v);
    assert_eq!(v.store.strokes[0].pos.y, 150_000);
    assert_eq!(tools.verticalspace_tool.pos_y, 100_000);
}

#[test]
fn vertical_space_page_limits_restrict_the_capture() {
    let mut v = view(ToolStyle::VerticalSpace);
    v.pens_config.tools_config.verticalspace_tool_config.limit_movement_horizontal_borders = true;
    v.pens_config.tools_config.verticalspace_tool_config.limit_movement_vertical_borders = true;
    v.store.strokes.push(stroke_at(100_000, 300_000));
    v.store.strokes.push(stroke_at(900_000, 300_000));
    v.store.strokes.push(stroke_at(100_000, 1_200_000));

    let mut tools = Tools::default();
    tools.handle_event(down(50_000, 250_000), 0, &mut v);
    // only the stroke on the same page, above the next boundary, is captured
    assert_eq!(tools.verticalspace_tool.strokes_below, vec![StrokeKey { idx: 0 }]);
    assert_eq!(tools.verticalspace_tool.limit_x, Some((0, 800_000)));
}

#[test]
fn offset_camera_drag_moves_the_view() {
    let mut tools = Tools::default();
    let mut v = view(ToolStyle::OffsetCamera);

    tools.handle_event(down(10_000, 10_000), 0, &mut v);
    assert_eq!(tools.offsetcamera_tool.start, Vec2 { x: 10_000, y: 10_000 });

    // dragging toward the origin moves the view the opposite way
    let (_, flags) = tools.handle_event(down(0, 0), 1, &mut v);
    assert_eq!(v.camera.offset, Vec2 { x: 10_000, y: 10_000 });
    assert!(flags.redraw);
    assert!(flags.update_view);
}

#[test]
fn zoom_drag_up_zooms_in_and_keeps_the_anchor() {
    let mut tools = Tools::default();
    let mut v = view(ToolStyle::Zoom);

    tools.handle_event(down(0, 0), 0, &mut v);
    assert_eq!(tools.zoom_tool.start_surface_coord, Vec2 { x: 0, y: 0 });

    // 25 units upward: the zoom grows by the drag factor
    let (_, flags) = tools.handle_event(down(0, -25_000), 1, &mut v);
    assert_eq!(v.camera.zoom, 1100);
    assert!(v.camera.zoom_task_pending);
    assert!(flags.zoomed);
    // the anchor at the origin keeps the offset unchanged
    assert_eq!(v.camera.offset, Vec2 { x: 0, y: 0 });
    assert_eq!(tools.zoom_tool.current_surface_coord, Vec2 { x: 0, y: -25_000 });
}

#[test]
fn zoom_outside_the_range_changes_nothing_but_the_tracking() {
    let mut tools = Tools::default();
    let mut v = view(ToolStyle::Zoom);
    v.camera.zoom = 6000;

    tools.handle_event(down(0, 0), 0, &mut v);
    // upward drag would push the zoom past its maximum: the camera is left
    // alone, only the tracked pointer position advances
    let (_, flags) = tools.handle_event(down(0, -1000), 1, &mut v);
    assert_eq!(v.camera.zoom, 6000);
    assert!(!v.camera.zoom_task_pending);
    assert_eq!(v.camera.offset, Vec2 { x: 0, y: 0 });
    assert!(!flags.zoomed);
    assert_eq!(tools.zoom_tool.current_surface_coord, Vec2 { x: 0, y: -6000 });
}

#[test]
fn laser_gesture_builds_a_fading_path() {
    let mut tools = Tools::default();
    let mut v = view(ToolStyle::Laser);

    tools.handle_event(down(10_000, 20_000), 0, &mut v);
    assert_eq!(v.store.laser_store.stroke_paths.len(), 1);
    assert_eq!(v.store.laser_store.stroke_paths[0].segments.len(), 0);
    assert!(tools.laser_tool.path_builder.is_some());

    tools.handle_event(down(11_000, 21_000), 250, &mut v);
    assert_eq!(v.store.laser_store.stroke_paths[0].segments.len(), 1);
    assert_eq!(v.store.laser_store.stroke_update_time, 250);

    tools.handle_event(up(12_000, 22_000), 400, &mut v);
    assert_eq!(v.store.laser_store.stroke_paths[0].segments.len(), 2);
    assert!(v.animation.frame_requested);
    assert!(tools.laser_tool.path_builder.is_none());
    assert_eq!(tools.state(), ToolsState::Idle);
}

#[test]
fn cancel_claims_a_frame_for_the_laser_only() {
    let mut tools = Tools::default();
    let mut v = view(ToolStyle::Laser);
    tools.handle_event(down(0, 0), 0, &mut v);
    tools.handle_event(PenEvent::Cancel, 10, &mut v);
    assert!(v.animation.frame_requested);
    assert!(tools.laser_tool.path_builder.is_none());

    let mut tools = Tools::default();
    let mut v = view(ToolStyle::Zoom);
    tools.handle_event(down(0, 0), 0, &mut v);
    tools.handle_event(PenEvent::Cancel, 10, &mut v);
    assert!(!v.animation.frame_requested);
}

#[test]
fn animation_frames_are_claimed_until_the_fade_ends() {
    let mut tools = Tools::default();
    let mut v = view(ToolStyle::Laser);
    tools.handle_event(down(0, 0), 0, &mut v);
    tools.handle_event(up(1000, 1000), 100, &mut v);

    v.animation.frame_requested = false;
    tools.handle_animation_frame(800, &mut v);
    assert!(v.animation.frame_requested);

    v.animation.frame_requested = false;
    tools.handle_animation_frame(1600, &mut v);
    assert!(!v.animation.frame_requested);
}

#[test]
fn translation_clamps_at_the_stored_position_range() {
    let mut store = StrokeStore::new();
    store.strokes.push(stroke_at(0, 3_000_000_000_000));
    let keys = vec![StrokeKey { idx: 0 }];
    store.translate_strokes(&keys, Vec2 { x: 0, y: 2_000_000_000_000 });
    assert_eq!(store.strokes[0].pos.y, 4_000_000_000_000);
    assert!(store.strokes[0].geometry_dirty);
}

#[test]
fn zoom_range_boundary_is_inclusive() {
    let mut tools = Tools::default();
    let mut v = view(ToolStyle::Zoom);
    v.camera.zoom = 6000;

    tools.handle_event(down(0, 0), 0, &mut v);
    // a purely horizontal drag asks for exactly the current zoom, which is
    // the maximum: still accepted
    let (_, flags) = tools.handle_event(down(5_000, 0), 1, &mut v);
    assert_eq!(v.camera.zoom, 6000);
    assert!(v.camera.zoom_task_pending);
    assert!(flags.zoomed);
}

#[test]
fn capture_on_an_empty_store_is_empty() {
    let store = StrokeStore::new();
    let keys = store.keys_between(0, 1_000_000, (0, 800_000), true, true);
    assert!(keys.is_empty());
}

#[test]
fn document_autoexpands_to_whole_pages() {
    let mut v = view(ToolStyle::VerticalSpace);
    v.document.autoexpand = true;
    v.store.strokes.push(stroke_at(0, 1_200_000));

    let mut tools = Tools::default();
    let (_, flags) = tools.handle_event(down(0, 100_000), 0, &mut v);
    assert_eq!(v.document.height, 2_000_000);
    assert!(flags.resize);
}
