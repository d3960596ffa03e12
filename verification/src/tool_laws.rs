//! What holds of every change of tool.

use crate::effect::{Effect, Notice};
use crate::tool::{spec_palette_visible, Tool};
use crate::window::{Session, WindowView};
use vstd::prelude::*;

verus! {

/// Whether two states agree on all that no single tool works on.
pub open spec fn same_but_tool_work(left: Session, right: Session) -> bool {
    &&& left.content == right.content
    &&& left.tools == right.tools
    &&& left.annotations == right.annotations
    &&& left.comparison == right.comparison
    &&& left.animation == right.animation
    &&& left.flags == right.flags
    &&& left.source_modified == right.source_modified
    &&& left.pending_discard == right.pending_discard
}

/// Whether two states differ at most in their scaling controls, their zoom and
/// the numbers of their background work.
pub open spec fn same_but_scaling(left: Session, right: Session) -> bool {
    &&& same_but_tool_work(left, right)
    &&& left.aim == right.aim
    &&& left.region == right.region
    &&& left.pencil == right.pencil
}

proof fn displays_keep_the_rest(window: WindowView, size: (u32, u32))
    ensures
        same_but_scaling(window.display_scale_preview(size).session, window.session),
        window.display_scale_preview(size).files == window.files,
{
    reveal(WindowView::display_scale_preview);
}

pub(crate) proof fn previews_keep_the_rest(window: WindowView, target: (u32, u32))
    ensures
        same_but_scaling(window.schedule_scale_preview(target).session, window.session),
        window.schedule_scale_preview(target).files == window.files,
{
    reveal(WindowView::schedule_scale_preview);
    assert forall|next: WindowView, size: (u32, u32)|
        {
            &&& same_but_scaling(
                #[trigger] next.display_scale_preview(size).session,
                next.session,
            )
            &&& next.display_scale_preview(size).files == next.files
        } by {
        displays_keep_the_rest(next, size);
    }
}

pub(crate) proof fn scaling_keeps_the_rest(window: WindowView, active: bool)
    ensures
        same_but_scaling(window.set_scale_preview_active(active).session, window.session),
        window.set_scale_preview_active(active).files == window.files,
{
    reveal(WindowView::open_scaling);
    reveal(WindowView::close_scaling);
    assert forall|next: WindowView, target: (u32, u32)|
        {
            &&& same_but_scaling(
                #[trigger] next.schedule_scale_preview(target).session,
                next.session,
            )
            &&& next.schedule_scale_preview(target).files == next.files
        } by {
        previews_keep_the_rest(next, target);
    }
}

proof fn leaving_keeps_the_rest(window: WindowView, tool: Tool)
    ensures
        same_but_tool_work(window.leave_tool(tool).session, window.session),
        window.leave_tool(tool).files == window.files,
        tool == Tool::Select ==> window.leave_tool(tool).session.region.selection is None
            && window.leave_tool(tool).session.region.drag is None,
        tool != Tool::Select ==> window.leave_tool(tool).session.region == window.session.region,
{
    reveal(WindowView::leave_tool);
    scaling_keeps_the_rest(window, false);
}

proof fn entering_keeps_the_rest(window: WindowView, tool: Tool)
    ensures
        same_but_tool_work(window.enter_tool(tool).session, window.session),
        window.enter_tool(tool).files == window.files,
        window.enter_tool(tool).session.region == window.session.region,
{
    reveal(WindowView::enter_tool);
    scaling_keeps_the_rest(window, true);
}

proof fn ending_keeps_the_rest(window: WindowView)
    ensures
        ({
            let ended = window.end_nudging().cancel_annotation_drag().close_text_editor();
            &&& ended.session.annotations.drag is None
            &&& ended.session.annotations.editor is None
            &&& ended.session.annotations.nudged is None
            &&& ended.session.annotations.selected == window.session.annotations.selected
            &&& ended.session.content == window.session.content
            &&& ended.session.tools == window.session.tools
            &&& ended.session.comparison == window.session.comparison
            &&& ended.session.animation == window.session.animation
            &&& ended.session.flags == window.session.flags
            &&& ended.session.source_modified == window.session.source_modified
            &&& ended.session.pending_discard == window.session.pending_discard
            &&& ended.session.region == window.session.region
            &&& ended.files == window.files
        }),
{
    let calm = window.end_nudging();
    let free = calm.cancel_annotation_drag();
    assert(free.session.annotations.drag is None);
    assert(free.session.annotations.editor == window.session.annotations.editor);
}

/// A change of tool ends everything that was begun: a drag, a text, a run of
/// nudges. The selected annotation stays selected just where the palette is
/// shown, a region stays selected unless its tool is left, and neither the
/// image nor the comparison is touched.
pub proof fn changing_tools_ends_what_was_begun(window: WindowView, tool: Tool)
    ensures
        ({
            let after = window.change_tool(tool);
            let tools = window.tools_for(tool);
            &&& after.session.tools == tools
            &&& after.session.annotations.drag is None
            &&& after.session.annotations.editor is None
            &&& after.session.annotations.nudged is None
            &&& after.session.annotations.selected == if spec_palette_visible(
                tool,
                tools.return_tool,
            ) {
                window.session.annotations.selected
            } else {
                None
            }
            &&& window.session.tools.tool == Tool::Select ==> after.session.region.selection is None
                && after.session.region.drag is None
            &&& window.session.tools.tool != Tool::Select ==> after.session.region
                == window.session.region
            &&& after.session.comparison == window.session.comparison
            &&& after.session.content.rendered == window.session.content.rendered
            &&& after.session.content.has_document == window.session.content.has_document
            &&& after.session.content.texture == window.session.content.texture
            &&& after.session.content.has_neighbors == window.session.content.has_neighbors
            &&& after.session.animation == window.session.animation
            &&& after.session.flags == window.session.flags
            &&& after.session.source_modified == window.session.source_modified
            &&& after.session.pending_discard == window.session.pending_discard
            &&& after.files == window.files
        }),
{
    reveal(WindowView::change_tool);
    let tools = window.tools_for(tool);
    let ended = window.end_nudging().cancel_annotation_drag().close_text_editor();
    ending_keeps_the_rest(window);
    leaving_keeps_the_rest(ended, window.session.tools.tool);
    let left = ended.leave_tool(window.session.tools.tool);
    let ready = left.with_tools(tools);
    let settled = if WindowView::keeps_selection(tools) {
        ready
    } else {
        ready.select_annotation(None, None)
    };
    let pressed = settled.emit(Effect::ShowToolButtons(tool));
    entering_keeps_the_rest(pressed, tool);
}

/// A request that is refused, or asks for what is active, changes nothing; at
/// most the user is told that an editable image is needed.
pub proof fn refused_tools_change_nothing(window: WindowView, tool: Tool)
    requires
        !window.tool_changes(tool),
    ensures
        window.set_tool(tool).session == window.session,
        window.set_tool(tool).files == window.files,
        window.set_tool(tool) == window || window.set_tool(tool) == window.emit(
            Effect::Notify(Notice::OpenEditableFirst),
        ),
{
}

/// Without pixels to work on, no tool can be taken up.
pub proof fn tools_need_pixels(window: WindowView, tool: Tool)
    requires
        window.session.content.rendered is None,
    ensures
        ({
            let after = window.set_tool(tool).session.tools.tool;
            after == Tool::Idle || after == window.session.tools.tool
        }),
{
    changing_tools_ends_what_was_begun(window, window.requested_tool(tool));
}

/// Where pixels can be edited, the resting tool is the selection: putting a
/// tool away leads to it, and no request leads to no tool at all.
pub proof fn selection_is_the_resting_tool(window: WindowView, tool: Tool)
    requires
        window.session.editable(),
    ensures
        window.set_tool(Tool::Idle).session.tools.tool == Tool::Select,
        window.session.tools.tool != Tool::Idle ==> window.set_tool(tool).session.tools.tool
            != Tool::Idle,
        window.session.tools.tool == Tool::Select ==> window.toggle_tool(Tool::Select) == window,
{
    reveal(WindowView::toggle_tool);
    changing_tools_ends_what_was_begun(window, Tool::Select);
    changing_tools_ends_what_was_begun(window, window.requested_tool(tool));
}

/// Escape cannot put the selection away: with nothing marked, held, typed or
/// selected it does nothing.
pub proof fn escape_keeps_the_selection_tool(window: WindowView)
    requires
        window.session.tools.tool == Tool::Select || window.session.tools.tool == Tool::Idle,
        window.session.region.selection is None,
        window.session.region.drag is None,
        window.session.annotations.selected is None,
        window.session.annotations.drag is None,
        window.session.annotations.editor is None,
    ensures
        window.cancel_tool() == window,
{
    reveal(WindowView::cancel_tool);
}

/// While two images are compared, no tool that places shapes is taken up.
pub proof fn comparisons_refuse_shapes(window: WindowView, tool: Tool)
    requires
        window.session.comparison.active,
        !window.session.tools.tool.spec_is_vector_annotation(),
    ensures
        !window.set_tool(tool).session.tools.tool.spec_is_vector_annotation(),
{
    changing_tools_ends_what_was_begun(window, window.requested_tool(tool));
}

/// A colour picker that was called from a drawing tool keeps the selected
/// annotation, and Escape leads back to that tool.
pub proof fn colour_picker_returns(window: WindowView)
    requires
        window.session.editable(),
        window.session.tools.tool.spec_is_annotation(),
        !window.session.comparison.active,
    ensures
        ({
            let picking = window.set_tool(Tool::PickColor);
            &&& picking.session.tools.tool == Tool::PickColor
            &&& picking.session.tools.return_tool == Some(window.session.tools.tool)
            &&& picking.session.annotations.selected == window.session.annotations.selected
            &&& picking.session.annotations.selected is None
                ==> picking.cancel_tool().session.tools.tool == window.session.tools.tool
        }),
{
    reveal(WindowView::cancel_tool);
    changing_tools_ends_what_was_begun(window, Tool::PickColor);
    let picking = window.set_tool(Tool::PickColor);
    changing_tools_ends_what_was_begun(picking, window.session.tools.tool);
}

/// A colour that is picked on behalf of a drawing tool leads back to it.
pub proof fn picking_returns(window: WindowView, tool: Tool, color: [u8; 4])
    requires
        window.session.editable(),
        window.session.tools.tool == Tool::PickColor,
        window.session.tools.return_tool == Some(tool),
        tool.spec_is_annotation(),
        !window.session.comparison.active,
    ensures
        window.copy_color_to_clipboard(color).session.tools.tool == tool,
{
    let copied = window.apply_picked_color(color).emit(Effect::CopyColor(color));
    changing_tools_ends_what_was_begun(copied, tool);
}

} // verus!
