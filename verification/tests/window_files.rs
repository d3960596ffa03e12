use diorama::actions::Action;
use diorama::compare::{LayoutStep, PanelLayout};
use diorama::description::MetadataPresence;
use diorama::directory::FileFacts;
use diorama::effect::{Effect, Notice, Operation, SequencePurpose};
use diorama::file_state::{files_equal, FileLocation, MonitorEvent, Timestamp};
use diorama::fullscreen_preview::{ActionState, FullscreenPreview};
use diorama::load::{EditableOutcome, PreviewOutcome};
use diorama::navigation::{deletion_step, DeletionStep, Match, Neighbor};
use diorama::opening::OpeningSettings;
use diorama::scale::ScaleMethod;
use diorama::tool::Tool;
use diorama::window::{Content, PendingDiscard, ViewerWindow, ZoomFilter, ZoomMode};

const SETTINGS: OpeningSettings = OpeningSettings {
    zoom_mode: ZoomMode::Fill,
    zoom_filter: ZoomFilter::Soft,
    scale_method: ScaleMethod::Bicubic,
};

fn at(path: &str) -> FileLocation {
    FileLocation {
        origin: String::new(),
        names: path.split('/').filter(|name| !name.is_empty()).map(String::from).collect(),
    }
}

fn current(window: &ViewerWindow) -> String {
    window.files.current.as_ref().map(|file| file.path()).unwrap_or_default()
}

/// A window whose image is loaded and can be edited.
fn loaded(path: &str) -> ViewerWindow {
    let mut window = ViewerWindow::new(SETTINGS, Some(at(path)));
    let generation = window.session.generations.load;
    window.preview_loaded(generation, PreviewOutcome::Loaded { size: (8, 6), animated: false });
    window.editable_loaded(generation, EditableOutcome::Decoded { size: (8, 6) });
    window.take_effects();
    window
}

fn edited(path: &str) -> ViewerWindow {
    let mut window = loaded(path);
    window.observe(Content { dirty: true, ..window.session.content });
    window
}

#[test]
fn several_opened_files_are_navigated() {
    let files = ["third.png", "first.png", "second.png"].map(at).into_iter().collect();
    let window = ViewerWindow::new_with_files(SETTINGS, &files, Some(3));

    assert!(window.session.flags.explicit_navigation);
    assert!(window.session.flags.has_sequence);
    assert!(files_equal(&window.files.current, &Some(at("third.png"))));
    let single = vec![at("first.png")];
    let window = ViewerWindow::new_with_files(SETTINGS, &single, Some(1));
    assert!(!window.session.flags.explicit_navigation);
    let mut window = ViewerWindow::new_with_files(SETTINGS, &Vec::new(), None);
    assert!(window.files.current.is_none());
    window.present();
    assert_eq!(window.effects.last(), Some(&Effect::PresentWindow));
}

#[test]
fn loads_show_the_picture_and_then_make_it_editable() {
    let mut window = ViewerWindow::new(SETTINGS, Some(at("/images/a.png")));
    let generation = window.session.generations.load;
    assert_eq!(window.effects.last(), Some(&Effect::StartLoad { generation }));
    window.take_effects();
    window.preview_loaded(generation, PreviewOutcome::Loaded { size: (8, 6), animated: true });
    assert!(window.effects.contains(&Effect::ShowPreview));
    assert!(window.effects.contains(&Effect::StartAnimation { generation }));
    assert_eq!(window.session.zooming.pending_fit, Some(false));
    window.editable_loaded(generation, EditableOutcome::Decoded { size: (8, 6) });
    assert!(window.editable());
    assert_eq!(window.session.tools.tool, Tool::Select);
    assert!(!window.session.flags.decode_pending);
    let now = Timestamp { seconds: 100, nanos: 0 };
    assert_eq!(window.title().as_deref(), Some("a.png"));
    assert_eq!(window.subtitle(50, now).as_deref(), Some("/images · 8 × 6 · 50%"));
}

#[test]
fn late_loads_change_nothing() {
    let mut window = loaded("/images/a.png");
    let late = window.session.generations.load;
    window.load_with_fit(at("/images/b.png"), false);
    window.take_effects();
    window.preview_loaded(late, PreviewOutcome::Loaded { size: (1, 1), animated: false });
    window.editable_loaded(late, EditableOutcome::Decoded { size: (1, 1) });
    assert!(window.effects.is_empty());
    assert_eq!(window.session.content.texture, None);
    assert_eq!(window.session.zooming.fit_on_load, Some(true));
}

#[test]
fn loads_renew_the_header() {
    let mut window = edited("/images/a.png");
    window.load_with_fit(at("/images/b.png"), true);
    assert_eq!(window.title(), Some("a.png •".to_owned()));
    window.discard_confirmed();
    assert_eq!(window.title(), Some("b.png".to_owned()));
    let generation = window.session.generations.load;
    assert_eq!(
        window.effects[window.effects.len() - 5..],
        [
            Effect::UpdateTitle,
            Effect::ShowLoading,
            Effect::ShowViewOnly(false),
            Effect::UpdateActionStates,
            Effect::StartLoad { generation },
        ]
    );
}

#[test]
fn changes_renew_title_and_subtitle() {
    let mut window = edited("/images/a.png");
    window.apply(Operation::FlipVertical);
    let generation = window.session.generations.render;
    assert_eq!(
        window.take_effects(),
        [
            Effect::Apply(Operation::FlipVertical),
            Effect::UpdateActionStates,
            Effect::UpdateTitle,
            Effect::UpdateSubtitle,
            Effect::StartRender(generation),
        ]
    );
}

#[test]
fn named_files_are_replaced_among_themselves() {
    let files = ["/i/a.png", "/i/b.png"].map(at).into_iter().collect();
    let mut window = ViewerWindow::new_with_files(SETTINGS, &files, Some(2));
    window.deleted_removed(None);
    assert!(!window.effects.contains(&Effect::CloseWindow));
    window.confirm_delete_current_file();
    window.delete_current_file();
    window.take_effects();
    let generation = window.session.generations.load;
    window.deletion_finished(generation, true, Some(at("/i/c.png")));
    assert_eq!(window.take_effects(), [Effect::RestoreOriginal, Effect::RemoveDeleted]);
    assert!(window.session.flags.deletion_running);
    window.deleted_removed(Some(at("/i/b.png")));
    assert!(!window.session.flags.deletion_running);
    assert_eq!(window.effects[0], Effect::Notify(Notice::ImageDeleted));
    assert_eq!(current(&window), "/i/b.png");
}

#[test]
fn folders_are_listed_where_no_next_image_is_known() {
    assert!(matches!(deletion_step(false, None), DeletionStep::ListFolder));
    assert!(matches!(deletion_step(true, None), DeletionStep::Delete(None)));
    let DeletionStep::Delete(Some(next)) = deletion_step(false, Some(at("/i/b.png"))) else {
        panic!("an image to show")
    };
    assert!(next.equal(&at("/i/b.png")));
}

#[test]
fn failed_loads_are_reported() {
    let mut window = ViewerWindow::new(SETTINGS, Some(at("/images/a.png")));
    let generation = window.session.generations.load;
    window.preview_loaded(generation, PreviewOutcome::Failed);
    assert!(window.effects.contains(&Effect::ShowLoadError));
    let mut window = ViewerWindow::new(SETTINGS, Some(at("/images/a.png")));
    window.preview_loaded(generation, PreviewOutcome::Loaded { size: (8, 6), animated: false });
    window.editable_loaded(generation, EditableOutcome::Unreadable);
    assert!(window.effects.contains(&Effect::Notify(Notice::UnreadableForEditing)));
    assert!(window.effects.contains(&Effect::ShowViewOnly(true)));
    window.editable_loaded(generation, EditableOutcome::WorkerFailed);
    assert!(window.effects.contains(&Effect::Notify(Notice::EditingWorkerFailed)));
    window.editable_loaded(generation, EditableOutcome::Unavailable);
    assert!(!window.editable());
}

#[test]
fn unsaved_edits_are_asked_about() {
    let mut window = edited("/images/a.png");
    window.load_with_fit(at("/images/b.png"), true);
    let asked = PendingDiscard::Load { fit: true };
    assert_eq!(window.effects.last(), Some(&Effect::ConfirmDiscard(asked)));
    assert_eq!(current(&window), "/images/a.png");
    assert!(window.unsaved());
    window.discard_confirmed();
    assert_eq!(current(&window), "/images/b.png");
    assert!(!window.unsaved());

    let mut window = edited("/images/a.png");
    assert!(!window.close_requested());
    window.discard_confirmed();
    assert_eq!(window.effects.last(), Some(&Effect::CloseWindow));
    assert!(window.close_requested());

    let mut window = edited("/images/a.png");
    window.load_from_new_scope(at("/other/c.png"));
    window.discard_confirmed();
    assert_eq!(current(&window), "/other/c.png");
}

#[test]
fn navigation_lists_the_folder_first() {
    let mut window = loaded("/images/a.png");
    window.activate(Action::Next);
    let generation = window.session.generations.directory;
    let purpose = SequencePurpose::Navigate { forward: true };
    assert_eq!(window.effects.last(), Some(&Effect::BuildSequence { generation, purpose }));
    window.sequence_listed(generation + 1, true, true);
    assert!(!window.session.flags.has_sequence);
    window.sequence_listed(generation, true, true);
    assert_eq!(window.effects.last(), Some(&Effect::FindNeighbor { forward: true }));
    window.neighbor_found(true, Neighbor::Found(at("/images/b.png")));
    assert_eq!(current(&window), "/images/b.png");
    assert_eq!(window.session.zooming.fit_on_load, Some(true));
}

#[test]
fn vanished_neighbours_are_passed_over() {
    let files = ["/i/a.png", "/i/b.png", "/i/c.png"].map(at).into_iter().collect();
    let mut window = ViewerWindow::new_with_files(SETTINGS, &files, Some(3));
    window.take_effects();
    window.neighbor_found(true, Neighbor::Gone(at("/i/b.png")));
    assert!(files_equal(&window.files.vanished, &Some(at("/i/b.png"))));
    assert_eq!(current(&window), "/i/a.png");
    assert_eq!(
        window.take_effects(),
        [
            Effect::RemoveNeighbor,
            Effect::PrefetchNeighbors,
            Effect::Notify(Notice::RemovedFromOpened),
            Effect::FindNeighbor { forward: true },
        ]
    );
    let mut window = loaded("/i/a.png");
    window.neighbor_found(true, Neighbor::Gone(at("/i/b.png")));
    assert!(window.files.vanished.is_none());
    assert_eq!(window.effects.last(), Some(&Effect::Notify(Notice::FolderRefreshed)));
    window.take_effects();
    window.neighbor_found(true, Neighbor::Nowhere);
    assert!(window.effects.is_empty());
}

#[test]
fn folders_are_watched_once_listed() {
    let mut window = loaded("/images/a.png");
    let generation = window.session.generations.directory;
    window.sequence_refreshed(generation, at("/images/b.png"), true, true);
    assert!(window.effects.is_empty());
    window.sequence_refreshed(generation, at("/images/a.png"), true, true);
    assert_eq!(
        window.take_effects(),
        [Effect::PrefetchNeighbors, Effect::UpdateActionStates, Effect::MonitorDirectory]
    );
    assert!(window.session.flags.has_sequence);
}

fn compared() -> ViewerWindow {
    let mut window = loaded("/left/a.png");
    window.load_comparison(at("/right/a.png"));
    let (load, comparison) =
        (window.session.generations.load, window.session.generations.comparison);
    window.comparison_loaded(load, comparison, true);
    window.take_effects();
    window
}

#[test]
fn comparisons_follow_the_navigation() {
    let mut window = compared();
    window.neighbor_found(true, Neighbor::Found(at("/left/b.png")));
    let generation = window.session.generations.navigation;
    assert_eq!(window.effects.last(), Some(&Effect::FindMatch { generation }));
    window.match_found(generation + 1, Match::Nothing);
    assert_eq!(current(&window), "/left/a.png");
    window.match_found(generation, Match::Found(at("/right/b.png")));
    assert_eq!(current(&window), "/left/b.png");
    assert!(files_equal(&window.files.pending_comparison, &Some(at("/right/b.png"))));
    assert!(window.files.comparison.is_none());

    let mut window = compared();
    window.neighbor_found(true, Neighbor::Found(at("/left/b.png")));
    window.match_found(window.session.generations.navigation, Match::WorkerFailed);
    assert!(files_equal(&window.files.pending_comparison, &Some(at("/right/a.png"))));
}

#[test]
fn comparisons_put_shapes_away_and_end() {
    let mut window = loaded("/left/a.png");
    for _ in 0..2 {
        assert!(window.action_enabled(Action::Highlight));
        window.set_tool(Tool::Highlight);
        window.load_comparison(at("/right/a.png"));
        let (load, comparison) =
            (window.session.generations.load, window.session.generations.comparison);
        window.comparison_loaded(load, comparison, true);
        assert_eq!(window.session.tools.tool, Tool::Select);
        assert!(window.session.comparison.locked);
        assert!(!window.action_enabled(Action::Highlight));
        window.exit_compare();
        assert!(!window.session.comparison.active);
    }
}

#[test]
fn panels_are_laid_out_in_halves() {
    let mut window = compared();
    let layout = |position, primary, comparison| PanelLayout {
        size: (1000, 600),
        horizontal: true,
        comparison_texture: true,
        position,
        primary,
        comparison,
    };
    assert_eq!(window.layout_compare_panels(layout(0, (1, 1), (1, 1))), LayoutStep::Again);
    assert_eq!(
        window.layout_compare_panels(layout(500, (500, 600), (500, 600))),
        LayoutStep::Done
    );
}

#[test]
fn reports_are_looked_into_once() {
    let mut window = loaded("/images/a.png");
    window.queue_directory_change(&at("/images/a.png"), None, MonitorEvent::Changed);
    window.queue_directory_change(&at("/images/b.png"), None, MonitorEvent::Created);
    let generation = window.session.generations.directory;
    assert_eq!(window.take_effects(), [Effect::ScheduleDirectoryRefresh { generation }]);
    window.directory_changes_due(generation + 1);
    assert!(window.effects.is_empty());
    window.directory_changes_due(generation);
    assert_eq!(window.take_effects(), [Effect::InspectFiles]);
    assert!(!window.files.pending_changes.current_changed);
}

fn inspected(window: &mut ViewerWindow, facts: FileFacts) {
    let generation = window.session.generations.directory;
    window.directory_changes_due(generation);
    window.take_effects();
    window.files_inspected(facts);
}

const NOTHING_THERE: FileFacts = FileFacts {
    current_regular: false,
    current_modified: None,
    renamed_regular: false,
    renamed_modified: None,
};

#[test]
fn renamed_files_are_followed() {
    let mut window = edited("/images/a.png");
    let target = at("/images/b.png");
    window.queue_directory_change(&at("/images/a.png"), Some(&target), MonitorEvent::Renamed);
    let modified = Some(Timestamp { seconds: 5, nanos: 0 });
    let facts =
        FileFacts { renamed_regular: true, renamed_modified: modified, ..NOTHING_THERE };
    inspected(&mut window, facts);
    assert_eq!(current(&window), "/images/b.png");
    assert_eq!(window.session.source_modified, modified);
    assert!(window.unsaved());
    assert!(window.effects.contains(&Effect::Notify(Notice::LocationUpdated)));
    let titled = [Effect::UpdateTitle, Effect::UpdateSubtitle];
    assert!(window.effects.windows(2).any(|pair| pair == titled));
}

#[test]
fn vanished_files_make_room_for_others() {
    let mut window = loaded("/images/a.png");
    window.queue_directory_change(&at("/images/a.png"), None, MonitorEvent::Deleted);
    inspected(&mut window, NOTHING_THERE);
    assert_eq!(window.effects.last(), Some(&Effect::FindReplacement { explicit: false }));
    window.replacement_found(None);
    assert!(window.session.flags.external_conflict);
    assert_eq!(window.effects.last(), Some(&Effect::Notify(Notice::CurrentGone)));
    window.replacement_found(Some(at("/images/b.png")));
    assert_eq!(current(&window), "/images/b.png");
    assert_eq!(window.effects.last(), Some(&Effect::Notify(Notice::PreviousGone)));

    let mut window = edited("/images/a.png");
    window.queue_directory_change(&at("/images/a.png"), None, MonitorEvent::Deleted);
    inspected(&mut window, NOTHING_THERE);
    assert_eq!(window.effects.last(), Some(&Effect::Notify(Notice::SourceGoneUnsaved)));
    assert!(window.unsaved());
}

#[test]
fn changed_files_are_reloaded_unless_edited() {
    let changed = FileFacts {
        current_regular: true,
        current_modified: Some(Timestamp { seconds: 9, nanos: 0 }),
        ..NOTHING_THERE
    };
    let mut window = loaded("/images/a.png");
    window.queue_directory_change(&at("/images/a.png"), None, MonitorEvent::Changed);
    inspected(&mut window, changed);
    let generation = window.session.generations.external_reload;
    let load = window.session.generations.load;
    assert_eq!(window.effects.last(), Some(&Effect::StartReload { generation, load }));
    window.take_effects();
    window.reload_finished(generation + 1, load, at("/images/a.png"), true);
    assert!(window.effects.is_empty());
    window.reload_finished(generation, load, at("/images/a.png"), false);
    assert_eq!(window.effects.last(), Some(&Effect::Notify(Notice::ReloadFailed)));
    window.reload_finished(generation, load, at("/images/a.png"), true);
    assert_eq!(window.effects.last(), Some(&Effect::Notify(Notice::Reloaded)));

    let mut window = edited("/images/a.png");
    window.queue_directory_change(&at("/images/a.png"), None, MonitorEvent::Changed);
    inspected(&mut window, changed);
    assert!(window.effects.contains(&Effect::Notify(Notice::SourceChangedUnsaved)));
    assert!(window.session.flags.external_conflict);
    assert!(window.unsaved());
}

#[test]
fn deletions_show_the_next_image_or_close() {
    let mut window = edited("/images/a.png");
    window.confirm_delete_current_file();
    assert_eq!(window.effects.last(), Some(&Effect::ConfirmDeletion { unsaved: true }));
    window.delete_current_file();
    let generation = window.session.generations.load;
    assert_eq!(
        window.effects.last(),
        Some(&Effect::DeleteFile { generation, explicit: false })
    );
    window.confirm_delete_current_file();
    assert_eq!(window.effects.last(), Some(&Effect::Notify(Notice::DeletionRunning)));
    window.deletion_finished(generation, true, Some(at("/images/b.png")));
    assert_eq!(current(&window), "/images/b.png");
    assert!(window.effects.contains(&Effect::Notify(Notice::ImageDeleted)));

    let mut window = loaded("/images/a.png");
    window.confirm_delete_current_file();
    window.delete_current_file();
    window.deletion_finished(window.session.generations.load, true, None);
    assert_eq!(window.effects.last(), Some(&Effect::CloseWindow));

    let mut window = edited("/images/a.png");
    window.confirm_delete_current_file();
    window.delete_current_file();
    window.deletion_finished(window.session.generations.load, false, None);
    assert!(window.effects.contains(&Effect::Notify(Notice::DeletionFailed)));
    assert!(window.unsaved());
    window.start_export();
    window.confirm_delete_current_file();
    assert_eq!(window.effects.last(), Some(&Effect::Notify(Notice::WaitForExport)));
}

#[test]
fn animations_go_round() {
    let mut window = loaded("/images/a.gif");
    let generation = window.session.generations.load;
    window.animation_decoded(generation + 1, 3);
    assert_eq!(window.session.animation.frames, 0);
    window.animation_decoded(generation, 3);
    window.activate(Action::PreviousFrame);
    assert_eq!(window.session.animation.index, 2);
    assert!(window.session.animation.paused);
    window.activate(Action::NextFrame);
    assert_eq!(window.session.animation.index, 0);
    window.activate(Action::PlayPause);
    assert!(!window.session.animation.paused);
    assert!(window.frame_elapsed());
    assert_eq!(window.session.animation.index, 1);
}

#[test]
fn properties_describe_the_image() {
    let window = loaded("/images/a.png");
    let metadata = Some(MetadataPresence { exif: false, xmp: false, icc: true });
    let properties = window.image_properties(None, Some("image/png"), metadata).unwrap();
    assert_eq!(properties.dimensions, "8 × 6");
    assert_eq!(properties.location, "/images/a.png");
    assert_eq!(properties.format, "image/png");
    assert_eq!(properties.metadata, "EXIF: No · XMP: No · ICC profile: Yes");
    let mut window = ViewerWindow::new(SETTINGS, None);
    assert!(window.image_properties(None, None, None).is_none());
    window.observe(Content { texture: Some((3, 2)), ..window.session.content });
    let properties = window.image_properties(None, None, None).unwrap();
    assert_eq!(properties.location, "Unavailable");
    assert_eq!(properties.format, "Unknown");
    assert_eq!(properties.dimensions, "3 × 2");
}

#[test]
fn dialogs_open_near_the_file() {
    let window = loaded("/images/a.png");
    let paths = |folders: Vec<FileLocation>| {
        folders.iter().map(|folder| folder.path()).collect::<Vec<_>>()
    };
    assert_eq!(
        paths(window.initial_folders(Some(at("/last")), at("/home"))),
        ["/images", "/last", "/home"]
    );
    let window = ViewerWindow::new(SETTINGS, None);
    assert_eq!(paths(window.initial_folders(None, at("/home"))), ["/home"]);
}

#[test]
fn previews_block_actions_and_give_them_back() {
    let mut window = loaded("/images/a.png");
    window.prepare_preview();
    let actions: Vec<ActionState> = Action::all()
        .into_iter()
        .map(|action| ActionState { action, enabled: window.action_enabled(action) })
        .collect();
    let before = actions.clone();
    let (preview, during) = FullscreenPreview::show(actions, false, (800, 600));
    assert_eq!(preview.window_size, (800, 600));
    for state in during {
        let allowed = matches!(state.action, Action::CancelTool | Action::Close);
        assert_eq!(state.enabled, allowed, "{:?}", state.action);
    }
    let (after, fullscreen) = preview.leave();
    assert_eq!(after, before);
    assert!(!fullscreen);
}
