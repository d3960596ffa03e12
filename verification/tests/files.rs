use diorama::file_state::{
    export_context_matches, files_equal, first_existing_folder, merge_directory_change,
    source_revision_changed, FileLocation, MonitorEvent, PendingDirectoryChanges, Timestamp,
};
use diorama::presentation::folder_path;

fn at(path: &str) -> FileLocation {
    FileLocation {
        origin: String::new(),
        names: path.split('/').filter(|name| !name.is_empty()).map(String::from).collect(),
    }
}

fn seconds(seconds: i64) -> Timestamp {
    Timestamp { seconds, nanos: 0 }
}

#[test]
fn folder_path_uses_the_file_parent() {
    let file = at("/images/comparison/frame.png");

    assert_eq!(folder_path(&file), "/images/comparison");
}

#[test]
fn initial_folder_selection_skips_a_deleted_folder() {
    let deleted = tempfile::tempdir().expect("temporary deleted folder");
    let deleted_path = deleted.path().to_path_buf();
    drop(deleted);
    let fallback = tempfile::tempdir().expect("temporary fallback folder");

    let candidate = |path: &std::path::Path| {
        (at(path.to_str().expect("a readable path")), path.is_dir())
    };
    let selected =
        first_existing_folder(&vec![candidate(&deleted_path), candidate(fallback.path())])
            .expect("existing fallback");

    assert_eq!(selected.path().as_str(), fallback.path().to_str().expect("a readable path"));
}

#[test]
fn missing_or_replaced_source_counts_as_an_external_change() {
    let original = seconds(100);
    let replacement = seconds(200);

    assert!(!source_revision_changed(Some(original), Some(original), true));
    assert!(source_revision_changed(Some(original), None, true));
    assert!(source_revision_changed(Some(original), Some(replacement), true));
    assert!(source_revision_changed(None, None, false));
}

#[test]
fn directory_events_distinguish_updates_replacements_and_moves() {
    let current = at("/images/current.png");
    let temporary = at("/images/.current.png.tmp");
    let renamed = at("/images/renamed.png");

    let mut changed = PendingDirectoryChanges::default();
    merge_directory_change(&mut changed, &current, &current, None, MonitorEvent::ChangesDoneHint);
    assert!(changed.current_changed);
    assert!(!changed.current_removed);

    let mut replaced = PendingDirectoryChanges::default();
    merge_directory_change(
        &mut replaced,
        &current,
        &temporary,
        Some(&current),
        MonitorEvent::Renamed,
    );
    assert!(replaced.current_changed);
    assert!(!replaced.current_removed);

    let mut moved = PendingDirectoryChanges::default();
    merge_directory_change(
        &mut moved,
        &current,
        &current,
        Some(&renamed),
        MonitorEvent::Renamed,
    );
    assert!(moved.current_removed);
    assert!(moved
        .current_renamed_to
        .as_ref()
        .is_some_and(|target| target.equal(&renamed)));
}

#[test]
fn deleting_the_containing_folder_marks_the_current_file_removed() {
    let current = at("/images/current.png");
    let folder = at("/images");
    let mut pending = PendingDirectoryChanges::default();

    merge_directory_change(&mut pending, &current, &folder, None, MonitorEvent::Deleted);

    assert!(pending.current_removed);
}

#[test]
fn export_completion_only_matches_its_originating_file_generation() {
    let original = Some(at("/images/original.png"));
    let replacement = Some(at("/images/replacement.png"));

    assert!(export_context_matches(7, 7, &original, &original));
    assert!(!export_context_matches(8, 7, &original, &original));
    assert!(!export_context_matches(7, 7, &replacement, &original));
}

#[test]
fn reports_add_up_and_never_take_back() {
    let current = at("/images/current.png");
    let other = at("/images/other.png");
    let mut pending = PendingDirectoryChanges::default();

    merge_directory_change(&mut pending, &current, &other, None, MonitorEvent::Created);
    assert!(pending.refresh_navigation);
    assert!(!pending.current_changed);
    merge_directory_change(&mut pending, &current, &current, None, MonitorEvent::Deleted);
    assert!(pending.current_removed);
    assert!(pending.refresh_navigation);
}

#[test]
fn places_know_their_folders_and_addresses() {
    let file = at("/images/frame.png");
    let elsewhere = FileLocation {
        origin: "smb://server".to_owned(),
        names: vec!["share".to_owned(), "frame.png".to_owned()],
    };

    assert_eq!(file.uri(), "file:///images/frame.png");
    assert_eq!(file.path(), "/images/frame.png");
    assert_eq!(elsewhere.uri(), "smb://server/share/frame.png");
    assert!(!elsewhere.is_local());
    assert_eq!(at("/my images/50% ä;#1?.png").uri(), "file:///my%20images/50%25%20%C3%A4%3B%231%3F.png");
    assert_eq!(at("/a+b&c=(d)'e'@~!$*,:_-.png").uri(), "file:///a+b&c=(d)'e'@~!$*,:_-.png");
    let parted = FileLocation { names: vec!["a;b c".to_owned()], ..elsewhere.clone() };
    assert_eq!(parted.uri(), "smb://server/a;b%20c");
    assert_eq!(at("/").uri(), "file:///");
    assert_eq!(at("/").path(), "/");
    assert!(at("/").parent().is_none());
    let parent = file.parent().expect("a folder");
    assert!(parent.child("frame.png").equal(&file));
    assert!(files_equal(&Some(parent), &Some(at("/images"))));
    assert!(!files_equal(&None, &Some(at("/images"))));
    assert_eq!(folder_path(&elsewhere), "smb://server/share");
    assert_eq!(folder_path(&at("/")), "file:///");
}
