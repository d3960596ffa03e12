use diorama::actions::{Action, ZoomPreset};
use diorama::menu::{main_menu, MenuEntry, MenuItem};
use diorama::preferences::{
    filter_for, lens_diameter_at, lens_size_index, open_with_was_cancelled, Background, LaunchError,
};
use diorama::window::ZoomFilter;

fn edit_menu() -> Vec<MenuEntry> {
    main_menu()
        .into_iter()
        .find_map(|item| match item {
            MenuItem::Submenu { label: "Edit", entries } => Some(entries),
            _ => None,
        })
        .expect("Edit submenu")
}

fn entries() -> Vec<(String, String)> {
    main_menu()
        .into_iter()
        .filter_map(|item| match item {
            MenuItem::Entry(entry) => Some((entry.label.to_owned(), entry.detailed_action())),
            MenuItem::Submenu { .. } => None,
        })
        .collect()
}

#[test]
fn edit_menu_contains_tools_and_transforms_directly() {
    let edit_menu = edit_menu();
    assert_eq!(
        edit_menu.iter().map(|entry| entry.label).collect::<Vec<_>>(),
        [
            "Pencil",
            "Highlight",
            "Arrow",
            "Measure",
            "Text",
            "Select Region",
            "Rotate Counterclockwise",
            "Rotate Clockwise",
            "Flip Horizontally",
            "Flip Vertically",
            "Scale",
        ]
    );
    for (index, action) in [
        (0, "win.pencil"),
        (1, "win.highlight"),
        (2, "win.arrow"),
        (3, "win.measure"),
        (4, "win.text"),
        (5, "win.select"),
        (6, "win.rotate-counterclockwise"),
        (7, "win.rotate-clockwise"),
        (8, "win.flip-horizontal"),
        (9, "win.flip-vertical"),
        (10, "win.scale-preview"),
    ] {
        assert_eq!(edit_menu[index].detailed_action(), action);
    }
}

#[test]
fn main_menu_separates_image_properties_from_preferences() {
    let entries = entries();
    assert!(entries.contains(&("Image Properties".to_owned(), "win.properties".to_owned())));
    assert!(entries.contains(&("Preferences".to_owned(), "win.preferences".to_owned())));
}

#[test]
fn main_menu_delegates_open_with_to_a_window_action() {
    assert!(entries().contains(&("Open With…".to_owned(), "win.open-with".to_owned())));
}

#[test]
fn cancelling_the_system_app_chooser_is_not_an_error() {
    for error in [
        LaunchError::DialogCancelled,
        LaunchError::DialogDismissed,
        LaunchError::OperationCancelled,
    ] {
        assert!(open_with_was_cancelled(error));
    }
    assert!(!open_with_was_cancelled(LaunchError::DialogFailed));
}

#[test]
fn action_names_are_all_different() {
    let mut names: Vec<&str> = Action::all().into_iter().map(|action| action.name()).collect();
    let count = names.len();
    names.sort_unstable();
    names.dedup();

    assert_eq!(names.len(), count);
    assert!(names.contains(&"zoom-900"));
    assert_eq!(ZoomPreset::ThreeQuarters.percent(), 75);
    assert_eq!(Action::ZoomTo(ZoomPreset::Quarter).name(), "zoom-25");
}

#[test]
fn preference_rows_are_found_again() {
    for background in [
        Background::Checkerboard,
        Background::Auto,
        Background::White,
        Background::Gray,
        Background::Black,
    ] {
        assert_eq!(Background::at(background.index()), background);
    }
    assert_eq!(Background::at(17), Background::Checkerboard);
    for row in 0..3 {
        assert_eq!(lens_size_index(lens_diameter_at(row)), row);
    }
    assert_eq!(lens_size_index(229), 0);
    assert_eq!(lens_size_index(230), 1);
    assert_eq!(lens_size_index(340), 2);
    assert_eq!(filter_for(true), ZoomFilter::Hard);
}
