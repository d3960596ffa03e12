//! The main menu.

use crate::actions::Action;
use vstd::prelude::*;

verus! {

/// A line of a menu that calls an action.
#[derive(Debug, Clone, Copy)]
pub struct MenuEntry {
    pub label: &'static str,
    pub action: Action,
}

/// A line of a menu, as a value.
pub ghost struct MenuEntryView {
    pub label: Seq<char>,
    pub action: Action,
}

impl View for MenuEntry {
    type V = MenuEntryView;

    open spec fn view(&self) -> MenuEntryView {
        MenuEntryView { label: self.label@, action: self.action }
    }
}

impl MenuEntry {
    fn new(label: &'static str, action: Action) -> (entry: MenuEntry)
        ensures
            entry@ == (MenuEntryView { label: label@, action }),
    {
        MenuEntry { label, action }
    }

    /// The action as a menu names it, with the group that it belongs to.
    pub fn detailed_action(&self) -> (name: String)
        ensures
            name@ == "win."@ + self.action.spec_name(),
    {
        let mut name = String::from_str("win.");
        name.append(self.action.name());
        name
    }
}

/// Some lines of a menu, as values.
pub open spec fn entry_views(entries: Seq<MenuEntry>) -> Seq<MenuEntryView> {
    entries.map_values(|entry: MenuEntry| entry@)
}

/// A line of the main menu.
#[derive(Debug)]
pub enum MenuItem {
    Entry(MenuEntry),
    Submenu { label: &'static str, entries: Vec<MenuEntry> },
}

/// A line of the main menu, as a value.
pub ghost enum MenuItemView {
    Entry(MenuEntryView),
    Submenu { label: Seq<char>, entries: Seq<MenuEntryView> },
}

impl View for MenuItem {
    type V = MenuItemView;

    open spec fn view(&self) -> MenuItemView {
        match self {
            MenuItem::Entry(entry) => MenuItemView::Entry(entry@),
            MenuItem::Submenu { label, entries } => MenuItemView::Submenu {
                label: label@,
                entries: entry_views(entries@),
            },
        }
    }
}

/// The lines of the main menu, as values.
pub open spec fn item_views(items: Seq<MenuItem>) -> Seq<MenuItemView> {
    items.map_values(|item: MenuItem| item@)
}

/// The tools and transforms of the Edit menu.
pub open spec fn spec_edit_menu() -> Seq<MenuEntryView> {
    seq![
        MenuEntryView { label: "Pencil"@, action: Action::Pencil },
        MenuEntryView { label: "Highlight"@, action: Action::Highlight },
        MenuEntryView { label: "Arrow"@, action: Action::Arrow },
        MenuEntryView { label: "Measure"@, action: Action::Measure },
        MenuEntryView { label: "Text"@, action: Action::Text },
        MenuEntryView { label: "Select Region"@, action: Action::Select },
        MenuEntryView { label: "Rotate Counterclockwise"@, action: Action::RotateCounterclockwise },
        MenuEntryView { label: "Rotate Clockwise"@, action: Action::RotateClockwise },
        MenuEntryView { label: "Flip Horizontally"@, action: Action::FlipHorizontal },
        MenuEntryView { label: "Flip Vertically"@, action: Action::FlipVertical },
        MenuEntryView { label: "Scale"@, action: Action::ScalePreview },
    ]
}

/// The lines of the main menu.
pub open spec fn spec_main_menu() -> Seq<MenuItemView> {
    seq![
        MenuItemView::Entry(MenuEntryView { label: "Open…"@, action: Action::Open }),
        MenuItemView::Entry(MenuEntryView { label: "Open With…"@, action: Action::OpenWith }),
        MenuItemView::Entry(MenuEntryView { label: "Copy Image or Selection"@, action: Action::CopyImage }),
        MenuItemView::Entry(MenuEntryView { label: "Save"@, action: Action::Save }),
        MenuItemView::Entry(MenuEntryView { label: "Save As…"@, action: Action::SaveAs }),
        MenuItemView::Entry(MenuEntryView { label: "Compare Images…"@, action: Action::Compare }),
        MenuItemView::Submenu { label: "Edit"@, entries: spec_edit_menu() },
        MenuItemView::Entry(MenuEntryView { label: "Magnifying Lens"@, action: Action::Lens }),
        MenuItemView::Entry(MenuEntryView { label: "Image Properties"@, action: Action::Properties }),
        MenuItemView::Entry(MenuEntryView { label: "Preferences"@, action: Action::Preferences }),
        MenuItemView::Entry(MenuEntryView { label: "Keyboard Shortcuts"@, action: Action::Shortcuts }),
        MenuItemView::Entry(MenuEntryView { label: "About Diorama"@, action: Action::About }),
    ]
}

fn edit_menu() -> (entries: Vec<MenuEntry>)
    ensures
        entry_views(entries@) == spec_edit_menu(),
{
    let entries = vec![
        MenuEntry::new("Pencil", Action::Pencil),
        MenuEntry::new("Highlight", Action::Highlight),
        MenuEntry::new("Arrow", Action::Arrow),
        MenuEntry::new("Measure", Action::Measure),
        MenuEntry::new("Text", Action::Text),
        MenuEntry::new("Select Region", Action::Select),
        MenuEntry::new("Rotate Counterclockwise", Action::RotateCounterclockwise),
        MenuEntry::new("Rotate Clockwise", Action::RotateClockwise),
        MenuEntry::new("Flip Horizontally", Action::FlipHorizontal),
        MenuEntry::new("Flip Vertically", Action::FlipVertical),
        MenuEntry::new("Scale", Action::ScalePreview),
    ];
    assert(entry_views(entries@) =~= spec_edit_menu());
    entries
}

/// The main menu.
pub fn main_menu() -> (items: Vec<MenuItem>)
    ensures
        item_views(items@) == spec_main_menu(),
{
    let items = vec![
        MenuItem::Entry(MenuEntry::new("Open…", Action::Open)),
        MenuItem::Entry(MenuEntry::new("Open With…", Action::OpenWith)),
        MenuItem::Entry(MenuEntry::new("Copy Image or Selection", Action::CopyImage)),
        MenuItem::Entry(MenuEntry::new("Save", Action::Save)),
        MenuItem::Entry(MenuEntry::new("Save As…", Action::SaveAs)),
        MenuItem::Entry(MenuEntry::new("Compare Images…", Action::Compare)),
        MenuItem::Submenu { label: "Edit", entries: edit_menu() },
        MenuItem::Entry(MenuEntry::new("Magnifying Lens", Action::Lens)),
        MenuItem::Entry(MenuEntry::new("Image Properties", Action::Properties)),
        MenuItem::Entry(MenuEntry::new("Preferences", Action::Preferences)),
        MenuItem::Entry(MenuEntry::new("Keyboard Shortcuts", Action::Shortcuts)),
        MenuItem::Entry(MenuEntry::new("About Diorama", Action::About)),
    ];
    assert(item_views(items@) =~= spec_main_menu());
    items
}

/// The Edit menu holds its tools and transforms directly, and the main menu
/// holds no other menu.
pub proof fn only_edit_is_a_submenu(index: int)
    requires
        0 <= index < spec_main_menu().len(),
    ensures
        match spec_main_menu()[index] {
            MenuItemView::Submenu { label, entries } => label == "Edit"@ && entries
                == spec_edit_menu(),
            MenuItemView::Entry(_) => true,
        },
{
}

} // verus!
