use diorama::actions::Action;
use diorama::directory::FileFacts;
use diorama::effect::{AnnotationId, CanvasSide, Effect, Notice};
use diorama::file_state::{FileLocation, MonitorEvent};
use diorama::keys::{Key, Modifiers};
use diorama::load::{EditableOutcome, PreviewOutcome};
use diorama::opening::OpeningSettings;
use diorama::region::Edges;
use diorama::scale::{ScaleMethod, ScaleUnit};
use diorama::tool::Tool;
use diorama::window::{Content, ViewerWindow, ZoomFilter, ZoomMode};

fn at(path: &str) -> FileLocation {
    FileLocation {
        origin: String::new(),
        names: path.split('/').filter(|name| !name.is_empty()).map(String::from).collect(),
    }
}

fn is_at(place: &Option<FileLocation>, path: &str) -> bool {
    place.as_ref().is_some_and(|place| place.equal(&at(path)))
}

fn opened(file: Option<FileLocation>) -> ViewerWindow {
    let settings = OpeningSettings {
        zoom_mode: ZoomMode::Fit,
        zoom_filter: ZoomFilter::Soft,
        scale_method: ScaleMethod::Bicubic,
    };
    ViewerWindow::new(settings, file)
}

fn editing(file: &str) -> ViewerWindow {
    let mut window = opened(Some(at(file)));
    let generation = window.session.generations.load;
    window.preview_loaded(generation, PreviewOutcome::Loaded { size: (40, 30), animated: false });
    window.editable_loaded(generation, EditableOutcome::Decoded { size: (40, 30) });
    window.take_effects();
    window
}

fn assert_well_formed(window: &ViewerWindow) {
    let session = &window.session;
    if let Some(crop) = session.region.selection {
        assert!(crop.width >= 1 && crop.height >= 1);
        assert!(crop.x + crop.width <= crop.image_width);
        assert!(crop.y + crop.height <= crop.image_height);
    }
    assert!(session.animation.frames == 0 || session.animation.index < session.animation.frames);
    if let Some((width, height)) = session.scaling.source {
        let (most_wide, most_high) = session.scaling.limits;
        assert_eq!(most_wide, session.scaling.method.limit(width));
        assert_eq!(most_high, session.scaling.method.limit(height));
        assert!((1..=most_wide).contains(&session.scaling.target.0));
        assert!((1..=most_high).contains(&session.scaling.target.1));
    }
}

#[test]
fn events_keep_the_window_well_formed() {
    let mut window = editing("/images/first.png");
    assert_well_formed(&window);
    assert_eq!(window.session.tools.tool, Tool::Select);

    let nowhere = Edges { left: false, right: false, top: false, bottom: false };
    assert!(window.region_pressed(nowhere, Some((4, 5))));
    window.region_moved(Some((20, 30)));
    assert_well_formed(&window);
    window.region_released(Some((40, 30)));
    assert_well_formed(&window);
    let corner = Edges { right: true, bottom: true, ..nowhere };
    assert!(window.region_pressed(corner, Some((40, 30))));
    window.region_moved(Some((0, 0)));
    assert_well_formed(&window);
    let resized = window.session.region.selection.expect("a region");
    assert_eq!((resized.width, resized.height), (1, 1));
    window.region_drag_cancelled();
    assert_well_formed(&window);

    window.activate(Action::Scale);
    window.set_scale_unit(ScaleUnit::Percent);
    window.set_scale_side(true, 1_000_000);
    assert_well_formed(&window);
    assert_eq!(window.session.scaling.target.0, 80);
    window.set_scale_method(ScaleMethod::SeamCarving);
    assert_well_formed(&window);
    assert_eq!(window.session.scaling.limits, (40, 30));
    window.canvas_key_pressed(Key::Return, Modifiers::empty(), AnnotationId(0));
    assert_well_formed(&window);

    let generation = window.session.generations.load;
    window.animation_decoded(generation, 3);
    for _ in 0..7 {
        window.frame_elapsed();
        assert_well_formed(&window);
    }
    assert_eq!(window.session.animation.index, 1);
    window.load_from_new_scope(at("/images/second.png"));
    assert_well_formed(&window);
}

#[test]
fn a_renamed_comparison_is_loaded_from_its_new_place() {
    let mut window = editing("/images/first.png");
    window.load_comparison(at("/other/first.png"));
    let generations = window.session.generations;
    window.comparison_loaded(generations.load, generations.comparison, true);
    assert!(is_at(&window.files.comparison, "/other/first.png"));
    window.take_effects();

    let old = at("/other/first.png");
    let new = at("/other/renamed.png");
    window.comparison_file_changed(&old, Some(&new), MonitorEvent::Renamed);
    let generation = window.session.generations.comparison;
    assert_eq!(window.take_effects(), [Effect::ScheduleComparisonRefresh { generation }]);
    window.comparison_file_changed(&new, None, MonitorEvent::Changed);
    assert!(window.effects.is_empty());
    window.comparison_refresh_due(generation, true, true);
    assert!(is_at(&window.files.requested_comparison, "/other/renamed.png"));
    assert!(window.effects.iter().any(|effect| {
        matches!(effect, Effect::StartComparisonLoad { .. })
    }));
}

#[test]
fn a_vanished_image_makes_room_for_the_next_one() {
    let mut window = editing("/images/first.png");
    window.files.comparison = Some(at("/other/first.png"));
    let gone = at("/images/first.png");
    window.queue_directory_change(&gone, None, MonitorEvent::Deleted);
    window.directory_changes_due(window.session.generations.directory);
    window.take_effects();
    window.files_inspected(FileFacts {
        current_regular: false,
        current_modified: None,
        renamed_regular: false,
        renamed_modified: None,
    });
    assert_eq!(window.take_effects(), [Effect::FindReplacement { explicit: false }]);
    window.replacement_found(Some(at("/images/second.png")));
    assert!(is_at(&window.files.current, "/images/second.png"));
    assert!(is_at(&window.files.pending_comparison, "/other/first.png"));
    assert_eq!(window.effects.last(), Some(&Effect::Notify(Notice::PreviousGone)));
}

#[test]
fn a_sampled_colour_leaves_no_mark() {
    let mut window = editing("/images/first.png");
    window.set_tool(Tool::Pencil);
    let control = Modifiers { control: true, ..Modifiers::empty() };
    window.pencil_pressed(CanvasSide::Primary, false, Some((3, 4)), control, false, 0);
    assert!(window.session.pencil.drag.is_some());
    assert!(window.sampler_clicked(CanvasSide::Primary, Some([1, 2, 3, 255])));
    assert!(window.session.pencil.drag.is_none());
    assert_eq!(window.session.pencil.line_anchor, None);
    assert!(window.effects.contains(&Effect::ClearPencilOverlay(CanvasSide::Primary)));
}

#[test]
fn a_deletion_is_of_the_file_that_was_asked_about() {
    let mut window = editing("/images/first.png");
    window.confirm_delete_current_file();
    assert_eq!(window.take_effects(), [Effect::ConfirmDeletion { unsaved: false }]);
    window.files.current = Some(at("/images/second.png"));
    window.delete_current_file();
    assert!(is_at(&window.files.deleting, "/images/first.png"));
    assert!(window.session.flags.deletion_running);
    let load = window.session.generations.load;
    window.take_effects();
    window.deletion_finished(load, true, Some(at("/images/third.png")));
    assert!(is_at(&window.files.current, "/images/second.png"));
    assert_eq!(window.take_effects(), [Effect::MonitorDirectory]);
    assert!(!window.session.flags.deletion_running);
}

#[test]
fn unsaved_edits_survive_a_vanished_file() {
    let mut window = editing("/images/first.png");
    window.observe(Content { dirty: true, ..window.session.content });
    let gone = at("/images/first.png");
    window.queue_directory_change(&gone, None, MonitorEvent::Deleted);
    window.directory_changes_due(window.session.generations.directory);
    window.take_effects();
    window.files_inspected(FileFacts {
        current_regular: false,
        current_modified: None,
        renamed_regular: false,
        renamed_modified: None,
    });
    assert!(window.session.content.dirty);
    assert!(window.session.flags.external_conflict);
    assert_eq!(window.effects.last(), Some(&Effect::Notify(Notice::SourceGoneUnsaved)));
}
