use diorama::annotation::{
    annotation_for_drag, limited_text, reset_arrow_control, restyled, AnnotationStyle, BentShape,
    DragPlan, PreviewQueue,
};
use diorama::effect::{AnnotationId, AnnotationKind};
use diorama::keys::PencilDragMode;
use diorama::pencil::{pencil_drag_shape, pencil_geometry, PencilGeometry, PencilShape};
use diorama::region::{
    boundary_overlay, region_resize_cursor, resize_region, selection_overlay, CropOverlay, Edges,
    SelectionDrag,
};
use diorama::scale::{
    dimensions_from_percent, resampling_at, resampling_index, scale_unit, scaled_dimensions, scaled_width_for_height,
    GameAssetAa, Resampling, ScaleMethod, ScaleUnit,
};
use diorama::tool::Tool;
use diorama::window::{AnnotationDrag, HitKind};
use diorama::zoom::{fit_on_load, usable_panel_size};
use diorama::window::ZoomMode;

const NONE: Edges = Edges { left: false, right: false, top: false, bottom: false };

fn edges_at(rect: (f32, f32, f32, f32), x: f32, y: f32) -> Edges {
    let (left, top, width, height) = rect;
    let near = |position: f32, edge: f32| (position - edge).abs() <= 12.0;
    let beside = y >= top - 12.0 && y <= top + height + 12.0;
    let above = x >= left - 12.0 && x <= left + width + 12.0;
    Edges {
        left: beside && near(x, left),
        right: beside && near(x, left + width),
        top: above && near(y, top),
        bottom: above && near(y, top + height),
    }
}

#[test]
fn region_handles_use_directional_resize_cursors() {
    let rect = (20.0, 30.0, 100.0, 80.0);

    assert_eq!(region_resize_cursor(edges_at(rect, 20.0, 30.0)), "nwse-resize");
    assert_eq!(region_resize_cursor(edges_at(rect, 120.0, 30.0)), "nesw-resize");
    assert_eq!(region_resize_cursor(edges_at(rect, 70.0, 30.0)), "ns-resize");
    assert_eq!(region_resize_cursor(edges_at(rect, 20.0, 70.0)), "ew-resize");
    assert_eq!(region_resize_cursor(edges_at(rect, 20.0, 10.0)), "default");
}

#[test]
fn corner_drag_resizes_both_region_boundaries() {
    let crop = CropOverlay {
        x: 10,
        y: 20,
        width: 50,
        height: 60,
        image_width: 100,
        image_height: 100,
    };

    let resized = resize_region(crop, 20, 30, Edges { left: true, top: true, ..NONE });

    assert_eq!((resized.x, resized.y), (20, 30));
    assert_eq!((resized.width, resized.height), (40, 50));
}

#[test]
fn resized_regions_keep_a_pixel_and_stay_inside() {
    let crop = CropOverlay {
        x: 10,
        y: 20,
        width: 50,
        height: 60,
        image_width: 100,
        image_height: 100,
    };

    let narrow = resize_region(crop, 90, 0, Edges { left: true, ..NONE });
    assert_eq!((narrow.x, narrow.width), (59, 1));
    let wide = resize_region(crop, 400, 0, Edges { right: true, ..NONE });
    assert_eq!((wide.x, wide.width), (10, 90));
}

#[test]
fn keyboard_region_marking_builds_an_inclusive_rectangle() {
    let crop = selection_overlay(SelectionDrag {
        start: (7, 5),
        current: (2, 1),
        image_dimensions: (10, 8),
    })
    .unwrap();

    assert_eq!((crop.x, crop.y, crop.width, crop.height), (2, 1, 6, 5));
}

#[test]
fn regions_need_pixels_of_the_image() {
    let outside = SelectionDrag { start: (7, 5), current: (10, 1), image_dimensions: (10, 8) };

    assert!(selection_overlay(outside).is_none());
}

#[test]
fn region_selection_uses_grid_boundaries_in_both_drag_directions() {
    let forward = boundary_overlay((12, 9), (52, 39), (100, 80));
    let reverse = boundary_overlay((52, 39), (12, 9), (100, 80));

    assert_eq!(forward, reverse);
    assert_eq!((forward.x, forward.y, forward.width, forward.height), (12, 9, 40, 30));
}

#[test]
fn scale_dimensions_support_locked_height_and_percentage_input() {
    assert_eq!(scaled_width_for_height(800, 600, 300), 400);
    assert_eq!(scaled_dimensions(8, 6, 2), (2, 2));
    assert_eq!(dimensions_from_percent(800, 600, millionths(50.0)), (400, 300));
    assert_eq!(dimensions_from_percent(1, 1, millionths(1.0)), (1, 1));
}

fn millionths(percent: f64) -> u64 {
    (percent * 1_000_000.0).round() as u64
}

#[test]
fn percentages_are_rounded() {
    assert_eq!(dimensions_from_percent(8, 6, millionths(25.0)), (2, 2));
    assert_eq!(dimensions_from_percent(8, 6, millionths(100.0)), (8, 6));
    assert_eq!(dimensions_from_percent(8, 6, 0), (1, 1));
    assert_eq!(dimensions_from_percent(u32::MAX, 1, millionths(200.0)), (u32::MAX, 2));
}

#[test]
fn scaled_sides_never_vanish() {
    assert_eq!(scaled_dimensions(1000, 1, 10), (10, 1));
    assert_eq!(scaled_dimensions(8, 6, 0), (1, 1));
    assert_eq!(scaled_dimensions(3, 2, 4), (4, 3));
    assert_eq!(scaled_dimensions(8, 6, 8), (8, 6));
}

#[test]
fn scaling_rows_are_found_again() {
    for method in [
        ScaleMethod::Nearest,
        ScaleMethod::Linear,
        ScaleMethod::Bicubic,
        ScaleMethod::SeamCarving,
    ] {
        assert_eq!(ScaleMethod::at(method.index()), method);
    }
    assert_eq!(ScaleMethod::at(99), ScaleMethod::Bicubic);
    assert_eq!(ScaleMethod::SeamCarving.limit(80), 80);
    assert_eq!(scale_unit(0), ScaleUnit::Pixels);
    assert_eq!(scale_unit(1), ScaleUnit::Percent);
    let game_asset = Resampling::GameAsset(GameAssetAa::default());
    assert_eq!(resampling_at(resampling_index(game_asset)), game_asset);
    assert_eq!(resampling_at(resampling_index(Resampling::Nearest)), Resampling::Nearest);
}

#[test]
fn navigation_reapplies_the_selected_fit_mode() {
    assert_eq!(fit_on_load(false, ZoomMode::Fit), Some(false));
    assert_eq!(fit_on_load(false, ZoomMode::Fill), Some(true));
    assert_eq!(fit_on_load(false, ZoomMode::Manual), None);
    assert_eq!(fit_on_load(true, ZoomMode::Manual), Some(false));
}

#[test]
fn compare_layout_rejects_placeholder_allocations() {
    assert!(!usable_panel_size((1, 600)));
    assert!(!usable_panel_size((800, 1)));
    assert!(usable_panel_size((800, 600)));
}

#[derive(Debug, Clone, Copy, PartialEq)]
struct BrushPoint {
    x: f32,
    y: f32,
    pressure: f32,
}

#[test]
fn pencil_drag_modes_create_editable_geometry() {
    let start = BrushPoint { x: 10.5, y: 20.5, pressure: 0.5 };
    let end = BrushPoint { x: 30.5, y: 40.5, pressure: 1.0 };
    assert!(matches!(
        pencil_geometry(PencilDragMode::Freehand, &[start, end]),
        Some(PencilGeometry::Freehand(points)) if points == [start, end]
    ));
    assert!(matches!(
        pencil_geometry(PencilDragMode::Line, &[start, end]),
        Some(PencilGeometry::Line { start: first, end: last }) if first == start && last == end
    ));
    assert!(matches!(
        pencil_geometry(PencilDragMode::Rectangle, &[start, start, end]),
        Some(PencilGeometry::Rectangle { .. })
    ));
    assert!(matches!(
        pencil_geometry(PencilDragMode::Circle, &[start, end]),
        Some(PencilGeometry::Ellipse { center, edge }) if center == start && edge == end
    ));
    assert!(pencil_geometry::<BrushPoint>(PencilDragMode::Freehand, &[]).is_none());
    assert!(pencil_geometry(PencilDragMode::Circle, &[start]).is_none());
}

#[test]
fn shapes_do_not_fall_back_to_passed_pixels() {
    assert_eq!(
        pencil_drag_shape(PencilDragMode::Circle, 1, 2, 3),
        PencilShape::Circle { center: 1, edge: 3 }
    );
    assert_eq!(
        pencil_drag_shape(PencilDragMode::Line, 1, 2, 3),
        PencilShape::Line { start: 2, end: 3 }
    );
    assert_eq!(
        pencil_drag_shape(PencilDragMode::Rectangle, 1, 2, 3),
        PencilShape::Rectangle { start: 1, end: 3 }
    );
    assert_eq!(pencil_drag_shape(PencilDragMode::Freehand, 1, 2, 3), PencilShape::Smoothed);
}

#[test]
fn preview_queue_coalesces_motion_events_and_keeps_the_latest_state() {
    let mut queue = PreviewQueue::default();

    assert!(queue.push(1, None));
    assert!(!queue.push(2, None));
    assert!(!queue.push(1, None));
    assert_eq!(queue.take(), Some(1));
    assert!(!queue.push(1, Some(&1)));
    assert!(queue.push(3, Some(&1)));
}

#[derive(Debug, Clone, Copy, PartialEq)]
struct Point {
    x: f32,
    y: f32,
}

#[test]
fn double_clicking_an_arrow_control_resets_it_to_the_midpoint() {
    let (start, end) = (Point { x: 2.0, y: 4.0 }, Point { x: 10.0, y: 8.0 });
    let midpoint = Point { x: (start.x + end.x) / 2.0, y: (start.y + end.y) / 2.0 };
    let mut shape = BentShape::Arrow { start, end, control: Point { x: 20.0, y: 20.0 } };

    assert!(reset_arrow_control(&mut shape, HitKind::ControlHandle, midpoint));
    let BentShape::Arrow { control, .. } = shape else { unreachable!() };
    assert_eq!(control, Point { x: 6.0, y: 6.0 });
}

#[test]
fn other_parts_do_not_straighten_an_arrow() {
    let mut shape = BentShape::Arrow { start: 0, end: 4, control: 9 };

    assert!(!reset_arrow_control(&mut shape, HitKind::Body, 2));
    assert_eq!(shape, BentShape::Arrow { start: 0, end: 4, control: 9 });
    let mut other: BentShape<i32> = BentShape::Other;
    assert!(!reset_arrow_control(&mut other, HitKind::ControlHandle, 2));
}

#[test]
fn highlights_keep_their_own_width() {
    let style = AnnotationStyle { color: [1, 2, 3, 4], size: 9 };

    let highlight = restyled(AnnotationKind::Highlight, style, None, Some(20), 7, 1);
    assert_eq!((highlight.color, highlight.size), ([1, 2, 3, 4], 7));
    let arrow = restyled(AnnotationKind::Arrow, style, Some([5, 6, 7, 8]), Some(20), 7, 1);
    assert_eq!((arrow.color, arrow.size), ([5, 6, 7, 8], 20));
}

#[test]
fn texts_are_limited_by_characters() {
    let long: String = "ü".repeat(300);

    assert_eq!(limited_text(&long).chars().count(), 256);
    assert_eq!(limited_text("short"), "short");
}

#[test]
fn drags_are_planned_by_what_they_hold() {
    let create = |tool| AnnotationDrag::Create { tool, id: AnnotationId(1) };

    assert_eq!(annotation_for_drag(create(Tool::Arrow), false), Some(DragPlan::Arrow));
    assert_eq!(annotation_for_drag(create(Tool::Select), false), None);
    let change = AnnotationDrag::Change {
        id: AnnotationId(1),
        kind: AnnotationKind::Measurement,
        part: HitKind::Body,
    };
    assert_eq!(annotation_for_drag(change, false), Some(DragPlan::Move { whole_pixels: true }));
}
