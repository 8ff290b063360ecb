//! The camera transform, the document grid, the bounds queries, and the
//! measuring ruler.

use pen_tools::camera::Camera;
use pen_tools::config::{
    BrushConfig, PensConfig, ToolStyle, ToolsConfig, VerticalSpaceToolConfig,
};
use pen_tools::document::{Document, Format};
use pen_tools::engine::{Animation, EngineView};
use pen_tools::events::{Element, PenEvent};
use pen_tools::geometry::Vec2;
use pen_tools::penpath::PenPathBuilderType;
use pen_tools::store::StrokeStore;
use pen_tools::toolholder::{Draggable, Rotatable, Ruler, Tool, ToolHolder};
use pen_tools::tools::Tools;

fn view(style: ToolStyle) -> EngineView {
    EngineView {
        document: Document {
            format: Format { width: 800_000, height: 1_000_000 },
            snap_positions: false,
            grid_size: 10_000,
            autoexpand: false,
            height: 1_000_000,
        },
        store: StrokeStore::new(),
        camera: Camera {
            offset: Vec2 { x: 0, y: 0 },
            zoom: 1000,
            size: Vec2 { x: 800_000, y: 600_000 },
            zoom_task_pending: false,
        },
        animation: Animation { frame_requested: false },
        pens_config: PensConfig {
            tools_config: ToolsConfig {
                style,
                verticalspace_tool_config: VerticalSpaceToolConfig {
                    limit_movement_horizontal_borders: false,
                    limit_movement_vertical_borders: false,
                },
            },
            brush_config: BrushConfig { builder_type: PenPathBuilderType::Simple },
        },
    }
}

fn down(x: i64, y: i64) -> PenEvent {
    PenEvent::Down { element: Element { pos: Vec2 { x, y } } }
}

#[test]
fn camera_transform_and_inverse_roundtrip() {
    let camera = Camera {
        offset: Vec2 { x: 1000, y: 2000 },
        zoom: 2000,
        size: Vec2 { x: 800_000, y: 600_000 },
        zoom_task_pending: false,
    };
    let surface = camera.transform_point(Vec2 { x: 10_000, y: 5_000 });
    assert_eq!(surface, Vec2 { x: 19_000, y: 8_000 });
    let back = camera.transform_point_inverse(surface);
    assert_eq!(back, Vec2 { x: 10_000, y: 5_000 });
}

#[test]
fn camera_viewport_covers_the_screen() {
    let camera = Camera {
        offset: Vec2 { x: 10_000, y: 20_000 },
        zoom: 2000,
        size: Vec2 { x: 800_000, y: 600_000 },
        zoom_task_pending: false,
    };
    let vp = camera.viewport();
    assert_eq!(vp.mins, Vec2 { x: 5_000, y: 10_000 });
    assert_eq!(vp.maxs, Vec2 { x: 405_000, y: 310_000 });
}

#[test]
fn camera_nudges_toward_an_offscreen_point() {
    let mut camera = Camera {
        offset: Vec2 { x: 0, y: 0 },
        zoom: 1000,
        size: Vec2 { x: 800_000, y: 600_000 },
        zoom_task_pending: false,
    };
    let flags = camera.nudge_w_pos(Vec2 { x: 900_000, y: -50_000 });
    assert_eq!(camera.offset, Vec2 { x: 100_000, y: -50_000 });
    assert!(flags.redraw);

    // a point already on screen does not move the view
    let flags = camera.nudge_w_pos(Vec2 { x: 400_000, y: 300_000 });
    assert_eq!(camera.offset, Vec2 { x: 100_000, y: -50_000 });
    assert!(!flags.redraw);
}

#[test]
fn document_snaps_to_the_grid_when_enabled() {
    let mut doc = Document {
        format: Format { width: 800_000, height: 1_000_000 },
        snap_positions: true,
        grid_size: 10_000,
        autoexpand: false,
        height: 1_000_000,
    };
    let snapped = doc.snap_position(Vec2 { x: 14_999, y: 15_000 });
    assert_eq!(snapped, Vec2 { x: 10_000, y: 20_000 });

    doc.snap_positions = false;
    let snapped = doc.snap_position(Vec2 { x: 14_999, y: 15_000 });
    assert_eq!(snapped, Vec2 { x: 14_999, y: 15_000 });
}

#[test]
fn document_page_arithmetic() {
    let doc = Document {
        format: Format { width: 800_000, height: 1_000_000 },
        snap_positions: false,
        grid_size: 10_000,
        autoexpand: false,
        height: 1_000_000,
    };
    assert_eq!(doc.page_end(250_000), 1_000_000);
    assert_eq!(doc.page_end(1_000_000), 2_000_000);
    assert_eq!(doc.page_end(-1), 0);
    assert_eq!(doc.page_limit_x(850_000), (800_000, 1_600_000));
    assert_eq!(doc.page_limit_x(-100), (-800_000, 0));
}

#[test]
fn tool_bounds_cover_the_vertical_space_strip() {
    let mut tools = Tools::default();
    let mut v = view(ToolStyle::VerticalSpace);
    tools.handle_event(down(0, 100_000), 0, &mut v);
    tools.handle_event(down(0, 130_000), 1, &mut v);

    let b = tools.bounds_on_doc(&v, 1).unwrap();
    assert_eq!(b.mins, Vec2 { x: 0, y: 100_000 });
    assert_eq!(b.maxs, Vec2 { x: 800_000, y: 130_000 });
}

#[test]
fn decoration_rect_is_cut_to_the_page_limits() {
    let mut tools = Tools::default();
    let mut v = view(ToolStyle::VerticalSpace);
    v.pens_config.tools_config.verticalspace_tool_config.limit_movement_vertical_borders = true;
    v.camera.offset = Vec2 { x: -100_000, y: 0 };

    tools.handle_event(down(50_000, 250_000), 0, &mut v);
    tools.handle_event(down(50_000, 280_000), 1, &mut v);

    // the redraw region spans the whole viewport, which starts left of the
    // page; the painted rectangle stops at the page's edge
    let b = tools.bounds_on_doc(&v, 1).unwrap();
    assert_eq!(b.mins.x, -100_000);
    let r = tools.verticalspace_tool.decoration_rect_on_doc(&v);
    assert_eq!(r.mins, Vec2 { x: 0, y: 250_000 });
    assert_eq!(r.maxs, Vec2 { x: 800_000, y: 280_000 });
}

#[test]
fn tool_bounds_are_empty_while_idle() {
    let tools = Tools::default();
    let v = view(ToolStyle::OffsetCamera);
    assert!(tools.bounds_on_doc(&v, 0).is_none());
}

#[test]
fn laser_bounds_wrap_the_strokes_and_vanish_after_the_fade() {
    let mut tools = Tools::default();
    let mut v = view(ToolStyle::Laser);
    tools.handle_event(down(0, 0), 0, &mut v);
    tools.handle_event(down(10_000, 5_000), 100, &mut v);

    // the box wraps both samples with the outer stroke width as margin
    let b = tools.bounds_on_doc(&v, 200).unwrap();
    assert_eq!(b.mins, Vec2 { x: -6_000, y: -6_000 });
    assert_eq!(b.maxs, Vec2 { x: 16_000, y: 11_000 });

    // once fully faded there is nothing left to redraw
    assert!(tools.bounds_on_doc(&v, 1700).is_none());
}

#[test]
fn ruler_defaults_to_the_viewport_center() {
    let ruler = Ruler::default();
    assert_eq!(ruler.offset, Vec2 { x: 500, y: 500 });
    assert_eq!(ruler.angle, 0);
}

#[test]
fn ruler_drag_clamps_into_the_viewport() {
    let mut ruler = Ruler::default();
    let flags = ruler.drag(Vec2 { x: 1200, y: -50 });
    assert_eq!(ruler.offset, Vec2 { x: 1000, y: 0 });
    assert!(flags.redraw);
}

#[test]
fn ruler_angle_is_rounded_and_folded() {
    let mut ruler = Ruler::default();
    ruler.set_angle(190_400);
    assert_eq!(ruler.angle, 10_000);
    assert_eq!(ruler.angle_label_degrees(), 10);

    ruler.set_angle(-30_000);
    assert_eq!(ruler.angle, 150_000);
    assert_eq!(ruler.angle_label_degrees(), 30);

    ruler.set_angle(135_499);
    assert_eq!(ruler.angle, 135_000);
    assert_eq!(ruler.angle_label_degrees(), 45);
}

#[test]
fn ruler_bounds_span_the_viewport_diagonal() {
    let camera = Camera {
        offset: Vec2 { x: 0, y: 0 },
        zoom: 1000,
        size: Vec2 { x: 600_000, y: 800_000 },
        zoom_task_pending: false,
    };
    let b = Ruler::bounds(&camera);
    assert_eq!(b.maxs.x, 1_000_000);
    assert_eq!(b.mins.x, -1_000_000);
    assert_eq!(b.mins.y, -50_000);
    assert_eq!(b.maxs.y, 50_000);
}

#[test]
fn tool_holder_dispatches_to_the_ruler() {
    let mut holder = ToolHolder::default();
    assert_eq!(holder.offset(), Vec2 { x: 500, y: 500 });

    holder.drag(Vec2 { x: 250, y: 750 });
    assert_eq!(holder.offset(), Vec2 { x: 250, y: 750 });

    holder.set_angle(45_000);
    assert_eq!(holder.angle(), 45_000);

    let Tool::Ruler(ruler) = holder.current_tool;
    assert_eq!(ruler.offset, Vec2 { x: 250, y: 750 });
}
