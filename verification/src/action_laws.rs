//! What each action of the window leads to, and when it is on offer.

use crate::actions::Action;
use crate::active_tool::spec_size_control;
use crate::asking::{asks_for, asks_just, keeps_asking, stages_only_add, tools_do_not_edit};
use crate::effect::{
    AnnotationId, Announcement, CanvasSide, Cursor, EditorPlace, Effect, Notice, SizeControl,
};
use crate::tool::{spec_palette_visible, spec_resting_tool, Tool};
use crate::tool_laws::changing_tools_ends_what_was_begun;
use crate::window::{TextEditor, WindowView};
use vstd::prelude::*;

verus! {

/// The tool that an action takes up, or puts away where it is active.
pub open spec fn tool_of(action: Action) -> Option<Tool> {
    match action {
        Action::Measure => Some(Tool::Measure),
        Action::Highlight => Some(Tool::Highlight),
        Action::Arrow => Some(Tool::Arrow),
        Action::Text => Some(Tool::Text),
        Action::Pencil => Some(Tool::Pencil),
        Action::PickColor => Some(Tool::PickColor),
        Action::Select => Some(Tool::Select),
        Action::ScalePreview => Some(Tool::Scale),
        _ => None,
    }
}

/// The action of a tool takes it up where another one is active, and puts it away
/// for the one that selects where it is active itself. While two images are
/// compared, no shapes are placed.
pub proof fn tool_actions_take_their_tool_up(window: WindowView, action: Action, tool: Tool)
    requires
        window.session.content.has_document,
        window.session.content.rendered is Some,
        tool_of(action) == Some(tool),
    ensures
        ({
            let after = window.activate(action);
            let shape = tool == Tool::Measure || tool == Tool::Highlight || tool == Tool::Arrow
                || tool == Tool::Text;
            &&& window.session.tools.tool != tool && !(shape && window.session.comparison.active)
                ==> after.session.tools.tool == tool
            &&& window.session.tools.tool != tool && shape && window.session.comparison.active
                ==> after == window
            &&& window.session.tools.tool == tool ==> after.session.tools.tool == Tool::Select
        }),
        window.activate(Action::Scale).session.tools.tool == Tool::Scale,
        window.activate(Action::Tool) == window,
{
    reveal(WindowView::tool_action);
    reveal(WindowView::toggle_tool);
    changing_tools_ends_what_was_begun(window, tool);
    changing_tools_ends_what_was_begun(window, Tool::Select);
    changing_tools_ends_what_was_begun(window, Tool::Scale);
}

/// Scaling is given up for the tool that selects; without it, nothing is given up.
pub proof fn scaling_is_given_up(window: WindowView)
    requires
        window.session.content.has_document,
        window.session.content.rendered is Some,
    ensures
        window.session.tools.tool == Tool::Scale ==> window.activate(
            Action::CancelScale,
        ).session.tools.tool == Tool::Select,
        window.session.tools.tool != Tool::Scale ==> window.activate(Action::CancelScale)
            == window,
{
    reveal(WindowView::tool_action);
    reveal(WindowView::cancel_scale);
    changing_tools_ends_what_was_begun(window, Tool::Select);
}

/// A tool that is taken up shows as such: on its button, in the name of the canvas,
/// in what the size control stands for, and with the palette where it draws.
pub proof fn tools_show_as_such(window: WindowView, tool: Tool)
    ensures
        ({
            let after = window.change_tool(tool);
            let end = after.effects.len();
            &&& keeps_asking(window, after)
            &&& after.effects[end - 1] == Effect::SetCanvasLabel(tool)
            &&& after.effects[end - 2] == Effect::SetToolState(tool)
            &&& after.effects[end - 3] == Effect::ShowPalette(
                spec_palette_visible(tool, after.session.tools.return_tool),
            )
            &&& after.effects[end - 4] == Effect::SetSizeControl(spec_size_control(tool))
            &&& end >= window.effects.len() + 4
        }),
{
    tools_do_not_edit(window, tool);
    changing_tools_ends_what_was_begun(window, tool);
    reveal(WindowView::change_tool);
    stages_only_add(window, tool);
}

/// The size control stands for the size of texts, the width of highlights, of
/// strokes or of measurements, by the tool that is active.
pub proof fn size_controls_belong_to_their_tools(tool: Tool)
    ensures
        spec_size_control(Tool::Text) == SizeControl::TextSize,
        spec_size_control(Tool::Highlight) == SizeControl::HighlightWidth,
        spec_size_control(Tool::Arrow) == SizeControl::StrokeWidth,
        spec_size_control(Tool::Pencil) == SizeControl::StrokeWidth,
        spec_size_control(Tool::Measure) == SizeControl::MeasurementWidth,
        tool == Tool::Idle || tool == Tool::Select || tool == Tool::Scale || tool
            == Tool::PickColor ==> spec_size_control(tool) == SizeControl::Width,
{
}

/// The palette is shown for every tool that draws, and for the colour picker where
/// it returns to one; no other tool has it.
pub proof fn drawing_tools_have_the_palette(tool: Tool, other: Tool)
    ensures
        tool == Tool::Pencil || tool == Tool::Highlight || tool == Tool::Arrow || tool
            == Tool::Measure || tool == Tool::Text ==> spec_palette_visible(tool, None),
        tool == Tool::Idle || tool == Tool::Select || tool == Tool::Scale
            ==> !spec_palette_visible(tool, Some(other)),
        spec_palette_visible(Tool::PickColor, Some(other)),
        !spec_palette_visible(Tool::PickColor, None),
        spec_resting_tool(Tool::Idle, true) == Tool::Select,
        spec_resting_tool(Tool::Idle, false) == Tool::Idle,
        tool != Tool::Idle ==> spec_resting_tool(tool, true) == tool,
{
}

/// Whether the pointer has been given a shape over the picture since.
pub open spec fn points_with(before: WindowView, after: WindowView, cursor: Cursor) -> bool {
    asks_for(before, after, Effect::SetCursor { side: CanvasSide::Primary, cursor })
}

/// A tool that is taken up shapes the pointer: it is hidden where something is
/// measured, crosses where something is placed, marked or picked, and is the common
/// one without a tool. A tool that is aimed by keyboard has the focus and says how.
pub proof fn tools_shape_the_pointer(window: WindowView, tool: Tool)
    requires
        window.session.tools.tool == tool,
        window.session.content.rendered is Some,
        !window.session.comparison.active,
    ensures
        ({
            let after = window.enter_tool(tool);
            let lens = window.session.comparison.lens_active;
            let aimed = tool == Tool::Measure || tool == Tool::Highlight || tool == Tool::Arrow
                || tool == Tool::Text || tool == Tool::PickColor || tool == Tool::Select || tool
                == Tool::Pencil;
            &&& tool == Tool::Measure ==> points_with(window, after, Cursor::Hidden)
            &&& tool == Tool::Idle ==> points_with(window, after, Cursor::Default)
            &&& !lens && (tool == Tool::Highlight || tool == Tool::Arrow || tool == Tool::Text
                || tool == Tool::PickColor || tool == Tool::Select) ==> points_with(
                window,
                after,
                Cursor::Crosshair,
            )
            &&& lens && (tool == Tool::Highlight || tool == Tool::Arrow || tool == Tool::Text
                || tool == Tool::Select) ==> points_with(window, after, Cursor::Default)
            &&& lens && tool == Tool::PickColor ==> points_with(window, after, Cursor::Hidden)
            &&& tool == Tool::Select ==> asks_for(window, after, Effect::ShowRegionControls(true))
            &&& aimed ==> after.effects.last() == Effect::Announce(Announcement::KeyboardHelp)
                && asks_for(window, after, Effect::FocusCanvas)
            &&& tool != Tool::Scale ==> after.session.aim.cursor is None
                && after.session.aim.anchor is None
        }),
{
    reveal(WindowView::enter_tool);
    let after = window.enter_tool(tool);
    let place = window.effects.len() as int;
    if tool != Tool::Scale && tool != Tool::Pencil {
        if tool == Tool::Select {
            assert(after.effects[place] == Effect::ShowRegionControls(true));
            assert(after.effects[place + 1] is SetCursor);
        } else {
            assert(after.effects[place] is SetCursor);
        }
    }
    if tool != Tool::Scale && tool != Tool::Idle {
        assert(after.effects[after.effects.len() - 2] == Effect::FocusCanvas);
    }
}

/// A tool that is put away leaves nothing of itself: the region is no longer
/// selected, the stroke is given up, the aim is gone.
pub proof fn tools_leave_nothing(window: WindowView, tool: Tool)
    ensures
        ({
            let after = window.leave_tool(tool);
            &&& tool == Tool::Select ==> {
                &&& after.session.region.selection is None
                &&& after.session.region.drag is None
                &&& asks_for(window, after, Effect::ShowRegionControls(false))
                &&& asks_for(window, after, Effect::ShowCropOverlay(None))
                &&& points_with(window, after, Cursor::Default)
                &&& asks_for(window, after, Effect::EnableSelectionActions(false))
            }
            &&& tool == Tool::Pencil ==> {
                &&& after.session.pencil.drag is None
                &&& after.session.pencil.line_anchor is None
                &&& asks_for(window, after, Effect::ForgetPencilPoints)
            }
            &&& tool == Tool::Pencil || tool == Tool::Measure || tool == Tool::Select || tool
                == Tool::PickColor ==> {
                &&& after.session.aim.cursor is None
                &&& after.session.aim.anchor is None
            }
            &&& tool == Tool::Measure ==> asks_for(
                window,
                after,
                Effect::ShowMeasurementCursor(None),
            )
        }),
{
    reveal(WindowView::leave_tool);
    let after = window.leave_tool(tool);
    let place = window.effects.len() as int;
    if tool == Tool::Select {
        assert(after.effects[place] == Effect::ShowRegionControls(false));
        assert(after.effects[place + 1] == Effect::ShowCropOverlay(None));
        assert(after.effects[place + 2] == Effect::EnableSelectionActions(false));
        assert(after.effects[place + 3] is SetCursor);
    } else if tool == Tool::Pencil {
        assert(after.effects[place] == Effect::ForgetPencilPoints);
    } else if tool == Tool::Measure {
        assert(after.effects[place + 1] == Effect::ShowMeasurementCursor(None));
    }
}

/// The colour picker crosses over the picture and leaves the common pointer; it is
/// hidden by a lens, and over both pictures of a comparison.
pub proof fn pickers_shape_the_pointer(window: WindowView, active: bool)
    ensures
        ({
            let after = window.set_color_picker_active(active);
            let hidden = window.session.comparison.lens_active
                || window.session.comparison.active;
            let cursor = if hidden {
                Cursor::Hidden
            } else if active {
                Cursor::Crosshair
            } else {
                Cursor::Default
            };
            &&& after.effects[window.effects.len() as int] == Effect::SetCursor {
                side: CanvasSide::Primary,
                cursor,
            }
            &&& window.session.comparison.active ==> after.effects[window.effects.len() as int + 1]
                == Effect::SetCursor { side: CanvasSide::Comparison, cursor: Cursor::Hidden }
            &&& asks_for(window, after, Effect::ShowMarker(None))
            &&& after.session.aim.cursor is None
        }),
{
    let after = window.set_color_picker_active(active);
    let place = window.effects.len() as int;
    if window.session.comparison.active {
        assert(after.effects[place + 2] == Effect::ShowMarker(None));
    } else {
        assert(after.effects[place + 1] == Effect::ShowMarker(None));
    }
}

/// The colour picker remembers the tool that draws it was called from, and no other;
/// any other tool is called from none.
pub proof fn pickers_remember_what_called_them(window: WindowView, tool: Tool)
    ensures
        ({
            let caller = window.session.tools.tool;
            let drew = caller == Tool::Pencil || caller == Tool::Highlight || caller == Tool::Arrow
                || caller == Tool::Measure || caller == Tool::Text;
            let after = window.change_tool(tool).session.tools;
            &&& after.tool == tool
            &&& tool == Tool::PickColor && drew ==> after.return_tool == Some(caller)
            &&& tool != Tool::PickColor || !drew ==> after.return_tool is None
        }),
{
    changing_tools_ends_what_was_begun(window, tool);
}

/// A text that is typed is kept in mind with its annotation. One that is there already
/// is taken off the picture while it is typed anew; a new one takes nothing off.
pub proof fn typed_texts_are_taken_off_the_picture(
    window: WindowView,
    id: AnnotationId,
    place: EditorPlace,
)
    requires
        window.session.annotations.editor is None,
    ensures
        ({
            let after = window.open_text_editor(id, place);
            let existing = place == EditorPlace::Existing;
            &&& after.session.annotations.editor == Some(TextEditor { id, editing: existing })
            &&& existing ==> asks_just(
                window,
                after,
                seq![
                    Effect::CancelRender,
                    Effect::ShowWithout(id),
                    Effect::OpenTextEditor { id, place },
                ],
            ) && after.session.generations.render != window.session.generations.render
            &&& !existing ==> asks_just(window, after, seq![Effect::OpenTextEditor { id, place }])
                && after.session.generations == window.session.generations
        }),
{
    let after = window.open_text_editor(id, place);
    if place == EditorPlace::Existing {
        assert(after.effects =~= window.effects + seq![
            Effect::CancelRender,
            Effect::ShowWithout(id),
            Effect::OpenTextEditor { id, place },
        ]);
    } else {
        assert(after.effects =~= window.effects + seq![Effect::OpenTextEditor { id, place }]);
    }
}

/// Escape ends one thing at a time: the region, then the text, the drag, the
/// selected annotation, and only then the tool, which is told.
pub proof fn escape_ends_one_thing_at_a_time(window: WindowView)
    ensures
        ({
            let session = window.session;
            let after = window.activate(Action::CancelTool);
            let region = session.tools.tool == Tool::Select && (session.region.drag is Some
                || session.region.selection is Some);
            let text = session.annotations.editor is Some;
            let drag = session.annotations.drag is Some;
            let selected = session.annotations.selected is Some;
            &&& region ==> {
                &&& after.session.region.selection is None
                &&& after.session.region.drag is None
                &&& after.session.tools == session.tools
                &&& after.session.annotations == session.annotations
            }
            &&& !region && text ==> {
                &&& after.session.annotations.editor is None
                &&& after.session.annotations.drag == session.annotations.drag
                &&& after.session.annotations.selected == session.annotations.selected
                &&& after.session.tools == session.tools
                &&& asks_for(window, after, Effect::RemoveTextEditor { commit_preview: false })
            }
            &&& !region && !text && drag ==> {
                &&& after.session.annotations.drag is None
                &&& after.session.annotations.selected == session.annotations.selected
                &&& after.session.tools == session.tools
                &&& asks_for(window, after, Effect::DiscardAnnotationPreview)
            }
            &&& !region && !text && !drag && selected ==> {
                &&& after.session.annotations.selected is None
                &&& after.session.tools == session.tools
            }
            &&& !region && !text && !drag && !selected && (session.tools.tool == Tool::Idle
                || session.tools.tool == Tool::Select) ==> after == window
        }),
{
    reveal(WindowView::tool_action);
    reveal(WindowView::cancel_tool);
    let after = window.activate(Action::CancelTool);
    let session = window.session;
    let region = session.tools.tool == Tool::Select && (session.region.drag is Some
        || session.region.selection is Some);
    if !region && session.annotations.editor is Some {
        assert(after.effects[window.effects.len() as int] == Effect::RemoveTextEditor {
            commit_preview: false,
        });
    } else if !region && session.annotations.drag is Some {
        assert(after.effects[window.effects.len() as int] == Effect::DiscardAnnotationPreview);
    }
}

/// With nothing else to end, Escape leaves the active tool for the one that selects
/// and says so; from a colour picker it leads back to the tool that called it.
pub proof fn escape_leaves_the_tool(window: WindowView)
    requires
        window.session.content.has_document,
        window.session.content.rendered is Some,
        !window.session.comparison.active,
        window.session.annotations.editor is None,
        window.session.annotations.drag is None,
        window.session.annotations.selected is None,
        window.session.tools.tool != Tool::Idle,
        window.session.tools.tool != Tool::Select,
    ensures
        ({
            let tools = window.session.tools;
            let after = window.activate(Action::CancelTool);
            let called = tools.tool == Tool::PickColor && tools.return_tool is Some;
            &&& !called ==> {
                &&& after.session.tools.tool == Tool::Select
                &&& after.effects.last() == Effect::Notify(Notice::ToolCancelled)
            }
            &&& called && tools.return_tool->0.spec_is_annotation() ==> after.session.tools.tool
                == tools.return_tool->0
        }),
{
    reveal(WindowView::tool_action);
    reveal(WindowView::cancel_tool);
    changing_tools_ends_what_was_begun(window, Tool::Select);
    if window.session.tools.return_tool is Some {
        changing_tools_ends_what_was_begun(window, window.session.tools.return_tool->0);
    }
}

/// The actions that ask for something outside the image ask for just that.
pub proof fn outward_actions_ask_for_their_own(window: WindowView)
    ensures
        asks_just(window, window.activate(Action::Open), seq![Effect::ChooseFile]),
        asks_just(window, window.activate(Action::Fullscreen), seq![Effect::ToggleFullscreen]),
        asks_just(window, window.activate(Action::Preferences), seq![Effect::ShowPreferences]),
        asks_just(window, window.activate(Action::Shortcuts), seq![Effect::ShowShortcuts]),
        asks_just(window, window.activate(Action::About), seq![Effect::ShowAbout]),
        window.session.content.texture is Some ==> asks_just(
            window,
            window.activate(Action::Properties),
            seq![Effect::ShowProperties],
        ),
        window.session.content.texture is None ==> window.activate(Action::Properties) == window,
        window.files.current is Some ==> asks_just(
            window,
            window.activate(Action::OpenWith),
            seq![Effect::OpenWith],
        ),
        window.files.current is None ==> asks_just(
            window,
            window.activate(Action::OpenWith),
            seq![Effect::Notify(Notice::OpenImageFirst)],
        ),
{
    reveal(WindowView::file_action);
    reveal(WindowView::viewing_action);
    assert(window.activate(Action::Open).effects =~= window.effects + seq![Effect::ChooseFile]);
    assert(window.activate(Action::Fullscreen).effects =~= window.effects + seq![
        Effect::ToggleFullscreen,
    ]);
    assert(window.activate(Action::Preferences).effects =~= window.effects + seq![
        Effect::ShowPreferences,
    ]);
    assert(window.activate(Action::Shortcuts).effects =~= window.effects + seq![
        Effect::ShowShortcuts,
    ]);
    assert(window.activate(Action::About).effects =~= window.effects + seq![Effect::ShowAbout]);
    if window.session.content.texture is Some {
        assert(window.activate(Action::Properties).effects =~= window.effects + seq![
            Effect::ShowProperties,
        ]);
    }
    if window.files.current is Some {
        assert(window.activate(Action::OpenWith).effects =~= window.effects + seq![
            Effect::OpenWith,
        ]);
    } else {
        assert(window.activate(Action::OpenWith).effects =~= window.effects + seq![
            Effect::Notify(Notice::OpenImageFirst),
        ]);
    }
}

/// What can be viewed offers what views it; what can be edited, what edits it; and
/// what needs something more is offered where that is there.
pub proof fn actions_are_offered_where_they_apply(window: WindowView, action: Action)
    ensures
        ({
            let content = window.session.content;
            let image = content.texture is Some;
            let editable = content.has_document && content.rendered is Some;
            &&& action is ZoomIn || action is ZoomOut || action is ActualSize || action is ZoomTo
                || action is Fit || action is Fill || action is ToggleFilter || action is Compare
                || action is Lens || action is CopyImage || action is Properties
                ==> window.action_enabled(action) == image
            &&& action is RotateClockwise || action is RotateCounterclockwise
                || action is FlipHorizontal || action is FlipVertical || action is ScalePreview
                || action is Scale || action is CropContent || action is Palette
                || action is Pencil || action is PickColor || action is Select || action is Tool
                || action is SaveAs ==> window.action_enabled(action) == editable
            &&& action is Measure || action is Highlight || action is Arrow || action is Text
                ==> window.action_enabled(action) == (editable
                && !window.session.comparison.active)
            &&& action is SelectionZoom || action is SelectionCrop || action is SelectionCopy
                ==> window.action_enabled(action) == (editable
                && window.session.region.selection is Some)
            &&& action is Next || action is Previous ==> window.action_enabled(action) == (image
                && content.has_neighbors)
            &&& action is OpenWith || action is DeleteFile ==> window.action_enabled(action) == (
            image && window.files.current is Some)
            &&& window.action_enabled(Action::Undo) == (content.has_document && content.can_undo)
            &&& window.action_enabled(Action::Redo) == (content.has_document && content.can_redo)
            &&& window.action_enabled(Action::Save) == (content.has_document && content.dirty)
            &&& action is PlayPause || action is NextFrame || action is PreviousFrame
                ==> window.action_enabled(action) == (window.session.animation.frames > 1)
            &&& action is Open || action is Close || action is Fullscreen || action is CancelTool
                || action is CancelExport || action is Preferences || action is Shortcuts
                || action is About ==> window.action_enabled(action)
        }),
{
}

} // verus!
