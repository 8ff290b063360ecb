//! The laser store's fade model: the fade threshold, epoch clearing, timer
//! refreshes, and the opacity ramp.

use pen_tools::events::Element;
use pen_tools::geometry::Vec2;
use pen_tools::laser::LaserStore;
use pen_tools::penpath::{BuilderProgress, PenPathBuilder, PenPathBuilderType, Segment};

fn el(x: i64, y: i64) -> Element {
    Element { pos: Vec2 { x, y } }
}

#[test]
fn fade_threshold_is_sharp() {
    let mut store = LaserStore::default();
    store.new_stroke(el(0, 0), 0);
    assert!(!store.is_faded(0));
    assert!(!store.is_faded(1499));
    assert!(store.is_faded(1500));
    assert!(store.is_faded(2100));
}

#[test]
fn clock_before_last_update_counts_as_unfaded() {
    let mut store = LaserStore::default();
    store.new_stroke(el(0, 0), 5000);
    assert!(!store.is_faded(4000));
    assert!(!store.is_faded(6499));
    assert!(store.is_faded(6500));
}

#[test]
fn new_stroke_on_unfaded_store_keeps_prior_paths() {
    let mut store = LaserStore::default();
    store.new_stroke(el(1, 2), 0);
    store.new_stroke(el(3, 4), 100);
    assert_eq!(store.stroke_paths.len(), 2);
    assert_eq!(store.stroke_paths[0].start, el(1, 2));
    assert_eq!(store.stroke_paths[1].start, el(3, 4));
    assert_eq!(store.stroke_update_time, 100);
}

#[test]
fn new_stroke_after_full_fade_clears_the_epoch() {
    let mut store = LaserStore::default();
    store.new_stroke(el(1, 2), 0);
    store.new_stroke(el(3, 4), 100);
    assert!(store.is_faded(1700));
    store.new_stroke(el(5, 6), 1700);
    assert_eq!(store.stroke_paths.len(), 1);
    assert_eq!(store.stroke_paths[0].start, el(5, 6));
}

#[test]
fn update_in_progress_refreshes_timer_without_content_change() {
    let mut store = LaserStore::default();
    store.new_stroke(el(1, 2), 0);
    store.update(BuilderProgress::InProgress, 800);
    assert_eq!(store.stroke_paths.len(), 1);
    assert_eq!(store.stroke_paths[0].segments.len(), 0);
    assert_eq!(store.stroke_update_time, 800);
    assert!(!store.is_faded(2200));
    assert!(store.is_faded(2300));
}

#[test]
fn update_on_empty_store_only_refreshes_timer() {
    let mut store = LaserStore::default();
    let mut segs: Vec<Segment> = Vec::new();
    segs.push(Segment { end: el(7, 8) });
    store.update(BuilderProgress::EmitContinue(segs), 300);
    assert_eq!(store.stroke_paths.len(), 0);
    assert_eq!(store.stroke_update_time, 300);
}

#[test]
fn laser_point_accumulation_and_fade_out() {
    let mut store = LaserStore::default();
    store.new_stroke(el(10_000, 20_000), 0);
    assert_eq!(store.stroke_paths.len(), 1);
    assert_eq!(store.stroke_paths[0].segments.len(), 0);

    let mut segs: Vec<Segment> = Vec::new();
    segs.push(Segment { end: el(11_000, 21_000) });
    segs.push(Segment { end: el(12_000, 22_000) });
    store.update(BuilderProgress::EmitContinue(segs), 500);

    assert_eq!(store.stroke_paths.len(), 1);
    assert_eq!(store.stroke_paths[0].segments.len(), 2);
    assert_eq!(store.stroke_update_time, 500);
    assert!(!store.is_faded(500));

    assert!(store.is_faded(2100));
    assert_eq!(store.fade_opacity(2100), 0);
}

#[test]
fn finished_segments_extend_the_last_path_only() {
    let mut store = LaserStore::default();
    store.new_stroke(el(0, 0), 0);
    store.new_stroke(el(100, 100), 10);
    let mut segs: Vec<Segment> = Vec::new();
    segs.push(Segment { end: el(200, 200) });
    store.update(BuilderProgress::Finished(segs), 20);
    assert_eq!(store.stroke_paths[0].segments.len(), 0);
    assert_eq!(store.stroke_paths[1].segments.len(), 1);
    assert_eq!(store.stroke_paths[1].segments[0].end, el(200, 200));
}

#[test]
fn fade_opacity_ramp() {
    let mut store = LaserStore::default();
    store.new_stroke(el(0, 0), 0);
    assert_eq!(store.fade_opacity(0), 255);
    assert_eq!(store.fade_opacity(750), 128);
    assert_eq!(store.fade_opacity(1499), 0);
    assert_eq!(store.fade_opacity(1500), 0);
    assert_eq!(store.fade_opacity(10_000), 0);
}

#[test]
fn builder_emits_one_line_segment_per_pressed_sample() {
    let mut builder = PenPathBuilder::start(PenPathBuilderType::Curved, el(0, 0));
    assert_eq!(builder.last, el(0, 0));

    let progress = builder.handle_event(pen_tools::events::PenEvent::Proximity {
        element: el(1, 1),
    });
    assert!(matches!(progress, BuilderProgress::InProgress));
    assert_eq!(builder.last, el(0, 0));

    let progress = builder.handle_event(pen_tools::events::PenEvent::Down { element: el(2, 2) });
    match progress {
        BuilderProgress::EmitContinue(segs) => {
            assert_eq!(segs.len(), 1);
            assert_eq!(segs[0].end, el(2, 2));
        },
        _ => panic!("a pressed sample must emit a segment"),
    }

    let progress = builder.handle_event(pen_tools::events::PenEvent::Up { element: el(3, 3) });
    match progress {
        BuilderProgress::Finished(segs) => {
            assert_eq!(segs.len(), 1);
            assert_eq!(segs[0].end, el(3, 3));
        },
        _ => panic!("lifting the pointer must finish the path"),
    }
}
