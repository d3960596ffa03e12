use diorama::tool::{palette_visible, pencil_drag_available, resting_tool, Tool};

#[test]
fn names_round_trip() {
    for tool in [
        Tool::Idle,
        Tool::Pencil,
        Tool::Highlight,
        Tool::Arrow,
        Tool::Measure,
        Tool::Text,
        Tool::PickColor,
        Tool::Select,
        Tool::Scale,
    ] {
        assert_eq!(Tool::from_name(tool.name()), Some(tool));
    }
}

#[test]
fn palette_visibility_covers_submode_and_modal_tools() {
    assert!(palette_visible(Tool::Pencil, None));
    assert!(palette_visible(Tool::Highlight, None));
    assert!(palette_visible(Tool::PickColor, Some(Tool::Arrow)));
    assert!(!palette_visible(Tool::PickColor, None));
    assert!(!palette_visible(Tool::Select, None));
    assert!(!palette_visible(Tool::Scale, None));
    assert!(!palette_visible(Tool::Idle, None));
}

#[test]
fn pencil_defers_to_existing_vector_annotations() {
    assert!(pencil_drag_available(false));
    assert!(!pencil_drag_available(true));
}

#[test]
fn select_is_the_resting_tool_for_editable_images() {
    assert_eq!(resting_tool(Tool::Idle, true), Tool::Select);
    assert_eq!(resting_tool(Tool::Idle, false), Tool::Idle);
    assert_eq!(resting_tool(Tool::Pencil, true), Tool::Pencil);
}
