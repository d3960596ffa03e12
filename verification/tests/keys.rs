use diorama::keys::{
    arrow_step, fullscreen_preview_key, image_navigation_direction, is_activation,
    pencil_drag_mode, pencil_zoom_key, Key, Modifiers, PencilDragMode, PencilZoomKey, PreviewKey,
};
use diorama::pencil::{pencil_drag_path, pencil_drag_should_preview, pencil_line_start, StrokePath};
use diorama::active_tool::pencil_can_activate;

fn shift() -> Modifiers {
    Modifiers { shift: true, ..Modifiers::empty() }
}

fn control() -> Modifiers {
    Modifiers { control: true, ..Modifiers::empty() }
}

fn alt() -> Modifiers {
    Modifiers { alt: true, ..Modifiers::empty() }
}

#[test]
fn unmodified_horizontal_arrows_navigate_images() {
    assert_eq!(image_navigation_direction(Key::Left, Modifiers::empty(), false), Some(false));
    let lock = Modifiers { lock: true, ..Modifiers::empty() };
    assert_eq!(image_navigation_direction(Key::Right, lock, false), Some(true));
    assert_eq!(image_navigation_direction(Key::Left, shift(), false), None);
    assert_eq!(image_navigation_direction(Key::Right, Modifiers::empty(), true), None);
    assert_eq!(image_navigation_direction(Key::Up, Modifiers::empty(), false), None);
}

#[test]
fn pencil_mode_claims_zoom_keys_without_treating_control_as_a_line_modifier() {
    assert_eq!(pencil_zoom_key(Key::Plus, shift(), true), Some(PencilZoomKey::In));
    assert_eq!(pencil_zoom_key(Key::Equal, control(), true), Some(PencilZoomKey::In));
    assert_eq!(
        pencil_zoom_key(Key::KeypadSubtract, Modifiers::empty(), true),
        Some(PencilZoomKey::Out)
    );
    assert_eq!(pencil_zoom_key(Key::Minus, alt(), true), None);
    assert_eq!(pencil_zoom_key(Key::Plus, Modifiers::empty(), false), None);
}

#[test]
fn pencil_requires_an_editable_image() {
    assert!(!pencil_can_activate(false));
    assert!(pencil_can_activate(true));
}

#[derive(Debug, Clone, Copy, PartialEq)]
struct BrushPoint {
    x: f32,
    y: f32,
    pressure: f32,
}

#[test]
fn pencil_drag_modifiers_select_shapes_and_reuse_only_line_anchors() {
    let origin = BrushPoint { x: 2.5, y: 3.5, pressure: 1.0 };
    let anchor = BrushPoint { x: 8.5, y: 9.5, pressure: 1.0 };

    assert_eq!(pencil_drag_mode(control()), PencilDragMode::Line);
    assert_eq!(pencil_drag_mode(shift()), PencilDragMode::Rectangle);
    assert_eq!(pencil_drag_mode(alt()), PencilDragMode::Circle);
    assert_eq!(
        pencil_drag_mode(Modifiers { control: true, shift: true, alt: true, ..Modifiers::empty() }),
        PencilDragMode::Circle
    );
    assert_eq!(pencil_line_start(PencilDragMode::Line, Some(anchor), origin), anchor);
    assert_eq!(pencil_line_start(PencilDragMode::Rectangle, Some(anchor), origin), origin);
    assert_eq!(pencil_drag_path(PencilDragMode::Freehand), StrokePath::Smooth);
    assert_eq!(pencil_drag_path(PencilDragMode::Line), StrokePath::Linear);
    assert_eq!(pencil_drag_path(PencilDragMode::Rectangle), StrokePath::Linear);
    assert_eq!(pencil_drag_path(PencilDragMode::Circle), StrokePath::Circle);
}

#[test]
fn freehand_preview_waits_until_the_pointer_enters_another_source_pixel() {
    assert!(!pencil_drag_should_preview(PencilDragMode::Freehand, 1));
    assert!(pencil_drag_should_preview(PencilDragMode::Freehand, 2));
    assert!(pencil_drag_should_preview(PencilDragMode::Line, 1));
    assert!(pencil_drag_should_preview(PencilDragMode::Rectangle, 1));
    assert!(pencil_drag_should_preview(PencilDragMode::Circle, 1));
}

#[test]
fn shift_moves_ten_pixels() {
    assert_eq!(arrow_step(Key::Left, Modifiers::empty()), Some((-1, 0)));
    assert_eq!(arrow_step(Key::Down, shift()), Some((0, 10)));
    assert_eq!(arrow_step(Key::Up, shift()), Some((0, -10)));
    assert_eq!(arrow_step(Key::Space, Modifiers::empty()), None);
    assert!(is_activation(Key::KeypadEnter));
    assert!(!is_activation(Key::Escape));
}

#[test]
fn every_key_is_claimed_while_the_picture_fills_the_screen() {
    let key = |key, showing, dialog, text| {
        fullscreen_preview_key(key, Modifiers::empty(), showing, dialog, text)
    };
    assert_eq!(key(Key::Space, false, false, false), PreviewKey::Show);
    assert_eq!(key(Key::Space, false, true, false), PreviewKey::Pass);
    assert_eq!(key(Key::Space, false, false, true), PreviewKey::Pass);
    assert_eq!(key(Key::Return, false, false, false), PreviewKey::Pass);
    assert_eq!(key(Key::Escape, true, false, false), PreviewKey::Leave);
    assert_eq!(key(Key::Right, true, false, false), PreviewKey::Swallow);
    assert_eq!(
        fullscreen_preview_key(Key::Space, shift(), false, false, false),
        PreviewKey::Pass
    );
}
