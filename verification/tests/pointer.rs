use diorama::annotation::Hit;
use diorama::effect::{AnnotationId, AnnotationKind, CanvasSide, Effect, ZoomAlignment, ZoomTarget};
use diorama::opening::OpeningSettings;
use diorama::pencil::sampled_notice;
use diorama::pointer::{AnnotationHover, HoverLook};
use diorama::scale::ScaleMethod;
use diorama::tool::Tool;
use diorama::window::{Content, HitKind, ViewerWindow, ZoomFilter, ZoomMode};

fn editable() -> ViewerWindow {
    let settings = OpeningSettings {
        zoom_mode: ZoomMode::Fit,
        zoom_filter: ZoomFilter::Hard,
        scale_method: ScaleMethod::Nearest,
    };
    let mut window = ViewerWindow::new(settings, None);
    window.observe(Content {
        texture: Some((8, 8)),
        rendered: Some((8, 8)),
        has_document: true,
        ..window.session.content
    });
    window.take_effects();
    window
}

const RED: [u8; 4] = [255, 0, 0, 255];

#[test]
fn only_the_picker_claims_its_clicks() {
    let mut window = editable();
    assert!(!window.picker_clicked(Some(RED)));
    assert!(window.effects.is_empty());
    window.set_tool(Tool::PickColor);
    window.take_effects();
    assert!(!window.picker_clicked(None));
    assert!(window.effects.is_empty());
    assert!(window.picker_clicked(Some(RED)));
    assert!(window.effects.contains(&Effect::CopyColor(RED)));
}

#[test]
fn the_pencil_samples_on_both_sides() {
    let mut window = editable();
    assert!(!window.sampler_clicked(CanvasSide::Primary, Some(RED)));
    window.set_tool(Tool::Pencil);
    window.take_effects();
    assert!(window.sampler_clicked(CanvasSide::Primary, None));
    assert!(!window.sampler_clicked(CanvasSide::Comparison, None));
    assert!(window.effects.is_empty());
    assert!(window.sampler_clicked(CanvasSide::Comparison, Some(RED)));
    let effects = window.take_effects();
    assert!(effects.contains(&Effect::SetDrawingColor(RED)));
    assert!(!effects.contains(&Effect::ReportSample(RED)));
    assert!(window.sampler_clicked(CanvasSide::Primary, Some(RED)));
    assert_eq!(window.take_effects().last(), Some(&Effect::ReportSample(RED)));
    assert_eq!(sampled_notice([255, 0, 128, 255]), "Sampled #FF0080FF · rgba(255, 0, 128, 255)");
}

#[test]
fn hovering_shows_what_can_be_taken_hold_of() {
    let mut window = editable();
    assert_eq!(window.annotation_hover(true, None), None);
    window.set_tool(Tool::Measure);
    let look = HoverLook { handles: false, hot: false, hidden: true };
    assert_eq!(
        window.annotation_hover(true, None),
        Some(AnnotationHover { measuring: true, look: Some(look) })
    );
    assert_eq!(
        window.annotation_hover(false, None),
        Some(AnnotationHover { measuring: true, look: None })
    );
    window.set_tool(Tool::Arrow);
    window.observe(Content {
        selected_kind: Some(AnnotationKind::Arrow),
        ..window.session.content
    });
    window.select_annotation(Some(AnnotationId(3)), Some(AnnotationKind::Arrow));
    let hit = Hit { id: AnnotationId(3), kind: AnnotationKind::Arrow, part: HitKind::Handle };
    let look = HoverLook { handles: true, hot: true, hidden: false };
    assert_eq!(
        window.annotation_hover(true, Some(hit)),
        Some(AnnotationHover { measuring: false, look: Some(look) })
    );
    let body = Hit { part: HitKind::Body, ..hit };
    let look = HoverLook { hot: false, ..look };
    assert_eq!(window.annotation_hover(true, Some(body)).and_then(|hover| hover.look), Some(look));
}

#[test]
fn the_wheel_zooms_with_control_only() {
    let mut window = editable();
    assert!(!window.wheel_turned(false));
    assert!(window.effects.is_empty());
    assert!(window.wheel_turned(true));
    let zoomed = |window: &mut ViewerWindow| {
        window.take_effects().into_iter().find_map(|effect| match effect {
            Effect::Zoom { target, alignment, .. } => Some((target, alignment)),
            _ => None,
        })
    };
    let aligned = Some((ZoomTarget::Gesture, Some(ZoomAlignment::Nearest)));
    assert_eq!(zoomed(&mut window), aligned);
    window.gesture_zoomed(false);
    assert_eq!(zoomed(&mut window), Some((ZoomTarget::Gesture, None)));
    window.gesture_zoomed(true);
    assert_eq!(zoomed(&mut window), aligned);
}
