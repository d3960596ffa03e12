use diorama::actions::Action;
use diorama::effect::{AnnotationId, AnnotationKind, Draft, Effect, Notice, Operation};
use diorama::file_state::FileLocation;
use diorama::keys::{Key, Modifiers};
use diorama::opening::OpeningSettings;
use diorama::region::{CropOverlay, Edges};
use diorama::scale::{ScaleMethod, ScaleUnit};
use diorama::scaling::{scale_summary, ScaleOutcome};
use diorama::tool::Tool;
use diorama::window::{Content, ScalePreviewView, ViewerWindow, ZoomFilter, ZoomMode};

fn at(path: &str) -> FileLocation {
    FileLocation {
        origin: String::new(),
        names: path.split('/').filter(|name| !name.is_empty()).map(String::from).collect(),
    }
}

fn empty() -> ViewerWindow {
    let settings = OpeningSettings {
        zoom_mode: ZoomMode::Fit,
        zoom_filter: ZoomFilter::Soft,
        scale_method: ScaleMethod::Nearest,
    };
    ViewerWindow::new(settings, None)
}

fn editable(width: u32, height: u32) -> ViewerWindow {
    let mut window = empty();
    window.observe(Content {
        texture: Some((width, height)),
        rendered: Some((width, height)),
        has_document: true,
        ..window.session.content
    });
    window.take_effects();
    window
}

fn select(window: &mut ViewerWindow, id: u64, kind: AnnotationKind) {
    window.observe(Content { selected_kind: Some(kind), ..window.session.content });
    window.select_annotation(Some(AnnotationId(id)), Some(kind));
}

#[test]
fn tools_clear_the_selection_and_the_picker_returns_on_escape() {
    let mut window = editable(16, 16);
    window.set_tool(Tool::Arrow);
    select(&mut window, 1, AnnotationKind::Arrow);
    window.set_tool(Tool::Idle);
    assert_eq!(window.session.tools.tool, Tool::Select);
    assert_eq!(window.session.annotations.selected, None);

    window.set_tool(Tool::Arrow);
    select(&mut window, 1, AnnotationKind::Arrow);
    window.set_tool(Tool::PickColor);
    assert_eq!(window.session.tools.return_tool, Some(Tool::Arrow));
    assert_eq!(window.session.annotations.selected, Some(AnnotationId(1)));
    window.select_annotation(None, None);
    window.activate(Action::CancelTool);
    assert_eq!(window.session.tools.tool, Tool::Arrow);
}

#[test]
fn escape_cannot_put_the_selection_away() {
    let mut window = editable(8, 8);
    window.set_tool(Tool::Select);
    window.activate(Action::CancelTool);
    assert_eq!(window.session.tools.tool, Tool::Select);
    window.set_tool(Tool::Pencil);
    window.activate(Action::CancelTool);
    assert_eq!(window.session.tools.tool, Tool::Select);
    assert!(window.effects.contains(&Effect::Notify(Notice::ToolCancelled)));
    window.toggle_tool(Tool::Select);
    assert_eq!(window.session.tools.tool, Tool::Select);
}

#[test]
fn tools_need_an_editable_image() {
    let mut window = empty();
    window.take_effects();
    window.set_tool(Tool::Pencil);
    assert_eq!(window.session.tools.tool, Tool::Idle);
    assert_eq!(window.take_effects(), [Effect::Notify(Notice::OpenEditableFirst)]);
    window.tool_requested("no such tool");
    assert!(window.effects.is_empty());
    let mut window = editable(8, 8);
    window.tool_requested("highlight");
    assert_eq!(window.session.tools.tool, Tool::Highlight);
}

#[test]
fn keyboard_places_highlights_arrows_and_dots() {
    let mut window = editable(100, 80);
    let place = |window: &mut ViewerWindow, tool, cursor| {
        window.set_tool(tool);
        window.session.aim.cursor = Some(cursor);
        window.take_effects();
        window.activate_keyboard_tool(AnnotationId(7));
        window
            .take_effects()
            .into_iter()
            .find_map(|effect| match effect {
                Effect::Prepare { draft, .. } => Some(draft),
                _ => None,
            })
            .expect("a prepared annotation")
    };
    let Draft::Highlight { width, height, .. } = place(&mut window, Tool::Highlight, (50, 40)) else {
        panic!("a highlight")
    };
    assert_eq!((width, height), (128, 80));
    window.select_annotation(None, None);
    let Draft::Arrow { start_x, control_x, end_x, .. } = place(&mut window, Tool::Arrow, (50, 40)) else {
        panic!("an arrow")
    };
    assert_eq!(end_x - start_x, 160);
    assert_eq!((start_x, control_x), (21, 101));
    window.select_annotation(None, None);
    assert_eq!(
        place(&mut window, Tool::Pencil, (12, 14)),
        Draft::Dot { x: 25, y: 29 }
    );
}

#[test]
fn keyboard_selects_a_region_between_two_points() {
    let mut window = editable(8, 6);
    window.set_tool(Tool::Select);
    assert_eq!(window.session.aim.cursor, None);
    assert!(window.move_keyboard_tool_cursor(0, 0));
    let start = window.session.aim.cursor;
    window.activate_keyboard_tool(AnnotationId(1));
    assert_eq!(window.session.aim.anchor, start);
    assert!(window.move_keyboard_tool_cursor(2, 1));
    window.activate_keyboard_tool(AnnotationId(1));

    let region = window.session.region.selection.expect("a selected region");
    assert_eq!((region.width, region.height), (3, 2));
    assert!(window.effects.contains(&Effect::EnableSelectionActions(true)));
    assert!(window.action_enabled(Action::SelectionCrop));
}

#[test]
fn aims_stay_on_the_image() {
    let mut window = editable(8, 6);
    window.set_tool(Tool::Arrow);
    assert!(window.move_keyboard_tool_cursor(i32::MAX, i32::MIN));
    assert_eq!(window.session.aim.cursor, Some((7, 0)));
    assert!(window.move_keyboard_tool_cursor(-3, 4));
    assert_eq!(window.session.aim.cursor, Some((4, 4)));
}

#[test]
fn nudges_merge_until_another_change() {
    let mut window = editable(32, 32);
    window.set_tool(Tool::Highlight);
    select(&mut window, 3, AnnotationKind::Highlight);
    let mut nudge = |window: &mut ViewerWindow| {
        window.take_effects();
        assert!(window.canvas_key_pressed(Key::Right, Modifiers::empty(), AnnotationId(9)));
        let amend = window
            .take_effects()
            .into_iter()
            .find_map(|effect| match effect {
                Effect::Nudge { amend, .. } => Some(amend),
                _ => None,
            })
            .expect("a nudge");
        window.finish_nudge(AnnotationId(3), amend);
        amend
    };
    assert!(!nudge(&mut window));
    assert!(nudge(&mut window));
    window.update_selected_annotation_style(Some([0, 0, 255, 255]), false);
    assert!(!nudge(&mut window));
}

#[test]
fn delete_removes_the_selected_annotation() {
    let mut window = editable(32, 32);
    window.set_tool(Tool::Text);
    select(&mut window, 3, AnnotationKind::Text);
    assert!(window.window_key_pressed(Key::Delete, Modifiers::empty(), false));
    let deletion = Operation::DeleteAnnotation(AnnotationId(3));
    assert!(window.effects.contains(&Effect::Apply(deletion)));
    assert_eq!(window.session.annotations.selected, None);
    assert!(!window.window_key_pressed(Key::Delete, Modifiers::empty(), true));
}

#[test]
fn delete_asks_about_the_file_only_where_the_action_does() {
    let mut window = empty();
    window.take_effects();
    assert!(window.window_key_pressed(Key::Delete, Modifiers::empty(), false));
    assert!(window.effects.is_empty());
    window.files.current = Some(at("/images/a.png"));
    assert!(window.window_key_pressed(Key::KeypadDelete, Modifiers::empty(), false));
    assert!(window.effects.is_empty());
    window.observe(Content { texture: Some((8, 6)), ..window.session.content });
    assert!(window.window_key_pressed(Key::Delete, Modifiers::empty(), false));
    assert_eq!(window.effects, [Effect::ConfirmDeletion { unsaved: false }]);
}

#[test]
fn deformed_images_become_one_change() {
    let mut window = editable(8, 6);
    window.set_tool(Tool::Pencil);
    window.session.annotations.nudged = Some(AnnotationId(1));
    window.take_effects();
    window.commit_mesh(3, vec![AnnotationId(1), AnnotationId(5)]);
    assert_eq!(window.session.tools.tool, Tool::Select);
    assert_eq!(window.flattened_annotations, [AnnotationId(1), AnnotationId(5)]);
    assert_eq!(window.session.annotations.nudged, None);
    let applied = window.take_effects().into_iter().filter(|effect| matches!(effect, Effect::Apply(_)));
    let edit = Effect::Apply(Operation::SelectionEdit { generation: 3 });
    assert_eq!(applied.collect::<Vec<_>>(), [edit]);

    let mut window = empty();
    window.commit_mesh(3, Vec::new());
    assert_eq!(window.effects.last(), Some(&Effect::Notify(Notice::OpenEditableFirst)));
}

#[test]
fn copies_keep_the_selected_region() {
    let mut window = editable(2, 2);
    window.set_tool(Tool::Select);
    let selection = CropOverlay {
        x: 0,
        y: 0,
        width: 1,
        height: 1,
        image_width: 2,
        image_height: 2,
    };
    window.set_region_selection(Some(selection));
    window.activate(Action::CopyImage);
    assert_eq!(window.effects.last(), Some(&Effect::CopyRegion(selection)));
    assert_eq!(window.session.region.selection, Some(selection));
    assert_eq!(window.session.tools.tool, Tool::Select);
    window.clear_region_selection();
    window.activate(Action::CopyImage);
    assert_eq!(window.effects.last(), Some(&Effect::CopyImage { width: 2, height: 2 }));
}

#[test]
fn regions_are_marked_resized_and_cropped() {
    let none = Edges { left: false, right: false, top: false, bottom: false };
    let mut window = editable(10, 8);
    window.set_tool(Tool::Select);
    assert!(window.region_pressed(none, Some((2, 1))));
    window.region_moved(Some((8, 6)));
    window.region_released(Some((8, 6)));
    let region = window.session.region.selection.expect("a selected region");
    assert_eq!((region.x, region.y, region.width, region.height), (2, 1, 6, 5));
    let left = Edges { left: true, ..none };
    assert!(window.region_pressed(left, Some((2, 3))));
    window.region_moved(Some((4, 3)));
    window.region_drag_cancelled();
    assert!(window.region_pressed(left, Some((2, 3))));
    window.region_moved(Some((4, 3)));
    window.region_released(Some((4, 3)));
    let region = window.session.region.selection.expect("a selected region");
    assert_eq!((region.x, region.width), (4, 4));
    window.activate(Action::SelectionCrop);
    let crop = Operation::Crop { x: 4, y: 1, width: 4, height: 5 };
    assert!(window.effects.contains(&Effect::Apply(crop)));
}

#[test]
fn scaling_waits_for_pixels_and_opens_with_them() {
    let mut window = empty();
    window.observe(Content { texture: Some((8, 6)), ..window.session.content });
    assert!(!window.action_enabled(Action::ScalePreview));
    window.observe(Content {
        rendered: Some((8, 6)),
        has_document: true,
        ..window.session.content
    });
    window.finish_editable_decode(true);
    assert_eq!(window.session.tools.tool, Tool::Select);
    window.activate(Action::ScalePreview);
    assert_eq!(window.session.tools.tool, Tool::Scale);
    assert_eq!(window.session.scaling.target, (8, 6));
    assert!(window.effects.contains(&Effect::ShowScaleControls(true)));
}

#[test]
fn scaling_keeps_sides_units_and_methods_in_step() {
    let mut window = editable(8, 6);
    window.set_tool(Tool::Scale);
    assert_eq!(scale_summary((8, 6), (8, 6), true), "8 × 6 → 8 × 6 (100%)");
    window.set_scale_side(true, 4);
    assert_eq!(window.session.scaling.target, (4, 3));
    assert!(window.session.scaling.running);
    window.set_scale_unit(ScaleUnit::Percent);
    window.set_scale_size((2, 2));
    assert_eq!(window.session.scaling.target, (2, 2));
    assert_eq!(scale_summary((8, 6), (2, 2), true), "8 × 6 → 2 × 2 (25%)");
    let generation = window.session.generations.scale_preview;
    window.scale_preview_finished(generation, ScaleOutcome::Ready { size: (2, 2) });
    assert_eq!(window.session.scaling.preview, Some((2, 2)));
    assert!(!window.session.scaling.running);
    window.set_scale_method(ScaleMethod::SeamCarving);
    assert_eq!(window.session.scaling.limits, (8, 6));
    window.set_scale_original_visible(true);
    assert!(window.session.scaling.showing_original);
    window.set_scale_original_visible(false);
    window.take_effects();
    window.set_tool(Tool::Idle);
    assert!(window.effects.contains(&Effect::RestoreScaleSource));
}

#[test]
fn superseded_scale_previews_are_ignored() {
    let mut window = editable(8, 6);
    window.set_tool(Tool::Scale);
    window.set_scale_side(true, 4);
    let first = window.session.generations.scale_preview;
    window.set_scale_side(true, 2);
    window.scale_preview_finished(first, ScaleOutcome::Ready { size: (4, 3) });
    assert_ne!(window.session.scaling.preview, Some((4, 3)));
}

#[test]
fn scales_are_confirmed_with_a_warning() {
    let mut window = editable(8, 6);
    window.set_tool(Tool::Scale);
    window.set_scale_side(true, 16);
    assert!(window.canvas_key_pressed(Key::Return, Modifiers::empty(), AnnotationId(1)));
    assert!(window.effects.contains(&Effect::Notify(Notice::ScalingUp)));
    let scale = Operation::Scale { width: 16, height: 12, method: ScaleMethod::Nearest };
    assert!(window.effects.contains(&Effect::Apply(scale)));
    assert_eq!(window.session.tools.tool, Tool::Select);
}

#[test]
fn fits_of_a_scaled_picture_leave_the_zoom_mode() {
    let mut window = editable(8, 6);
    window.session.zooming.mode = ZoomMode::Manual;
    window.set_tool(Tool::Scale);
    window.activate(Action::Fit);
    assert_eq!(window.session.scaling.view, ScalePreviewView::Fit);
    assert_eq!(window.session.zooming.mode, ZoomMode::Manual);
    window.activate(Action::ScaleActualSize);
    assert_eq!(window.session.scaling.view, ScalePreviewView::ActualSize);
    window.activate(Action::CancelScale);
    assert_eq!(window.session.tools.tool, Tool::Select);
    window.activate(Action::Fill);
    assert_eq!(window.session.zooming.mode, ZoomMode::Fill);
}

#[test]
fn fits_wait_for_a_real_viewport() {
    let mut window = editable(1600, 1200);
    window.fit(false);
    window.viewport_measured((1, 1));
    assert_eq!(window.session.zooming.pending_fit, Some(false));
    assert!(window.session.zooming.tick_scheduled);
    assert!(!window.fit_tick((1, 600)));
    assert!(window.fit_tick((800, 600)));
    assert_eq!(window.session.zooming.pending_fit, None);
    assert!(!window.session.zooming.tick_scheduled);
}

#[test]
fn picked_colours_forget_the_line_and_return() {
    let mut window = editable(8, 8);
    window.set_tool(Tool::Pencil);
    window.session.pencil.line_anchor = Some((5, 7));
    window.set_tool(Tool::PickColor);
    window.copy_color_to_clipboard([12, 34, 56, 255]);
    assert_eq!(window.session.pencil.line_anchor, None);
    assert_eq!(window.session.tools.tool, Tool::Pencil);
    assert!(window.effects.contains(&Effect::CopyColor([12, 34, 56, 255])));
}

#[test]
fn arrow_keys_navigate_only_without_a_tool() {
    let mut window = empty();
    window.files.current = Some(at("/images/a.png"));
    assert!(window.navigation_key_pressed(Key::Right, Modifiers::empty()));
    let mut window = editable(8, 8);
    window.set_tool(Tool::Select);
    assert!(!window.navigation_key_pressed(Key::Right, Modifiers::empty()));
    assert!(window.canvas_key_pressed(Key::Right, Modifiers::empty(), AnnotationId(1)));
    let control = Modifiers { control: true, ..Modifiers::empty() };
    assert!(!window.canvas_key_pressed(Key::Right, control, AnnotationId(1)));
    window.set_tool(Tool::Pencil);
    assert!(window.zoom_key_pressed(Key::Plus, control));
    window.canvas_key_released(Key::ControlLeft);
}

#[test]
fn actions_follow_the_state_of_the_image() {
    let window = empty();
    assert!(window.action_enabled(Action::Open));
    assert!(window.action_enabled(Action::Preferences));
    assert!(!window.action_enabled(Action::CopyImage));
    assert!(!window.action_enabled(Action::Select));
    assert!(!window.action_enabled(Action::Properties));
    let mut window = editable(8, 6);
    assert!(window.action_enabled(Action::CopyImage));
    assert!(window.action_enabled(Action::Select));
    assert!(window.action_enabled(Action::Properties));
    assert!(!window.action_enabled(Action::Save));
    window.observe(Content { dirty: true, ..window.session.content });
    assert!(window.action_enabled(Action::Save));
}

#[test]
fn actions_ask_for_what_they_need() {
    let mut window = editable(8, 6);
    for (action, effect) in [
        (Action::Open, Effect::ChooseFile),
        (Action::Close, Effect::CloseWindow),
        (Action::Fullscreen, Effect::ToggleFullscreen),
        (Action::SaveAs, Effect::RequestSave { force_dialog: true }),
        (Action::Undo, Effect::StepHistory { redo: false }),
        (Action::Properties, Effect::ShowProperties),
        (Action::Preferences, Effect::ShowPreferences),
        (Action::Shortcuts, Effect::ShowShortcuts),
        (Action::About, Effect::ShowAbout),
        (Action::Compare, Effect::ChooseComparison),
        (Action::Lens, Effect::ToggleLensButton),
        (Action::CropContent, Effect::DetectContent),
        (Action::Palette, Effect::ChoosePalette),
        (Action::OpenWith, Effect::Notify(Notice::OpenImageFirst)),
        (Action::DeleteFile, Effect::Notify(Notice::NoImage)),
    ] {
        window.take_effects();
        window.activate(action);
        assert_eq!(window.effects, [effect], "{action:?}");
    }
    window.take_effects();
    window.activate(Action::FlipVertical);
    assert_eq!(window.effects[0], Effect::Apply(Operation::FlipVertical));
    window.activate(Action::ToggleFilter);
    assert_eq!(window.session.zooming.filter, ZoomFilter::Hard);
}
