//! What a window has come to ask for since an earlier moment.

use crate::effect::{Effect, Operation};
use crate::tool::Tool;
use crate::window::WindowView;
use vstd::prelude::*;

verus! {

/// Whether nothing that was asked for has been taken back or put in another
/// order.
pub open spec fn keeps_asking(before: WindowView, after: WindowView) -> bool {
    &&& before.effects.len() <= after.effects.len()
    &&& forall|index: int|
        0 <= index < before.effects.len() ==> #[trigger] after.effects[index]
            == before.effects[index]
}

/// Whether something has been asked for since.
pub open spec fn asks_for(before: WindowView, after: WindowView, effect: Effect) -> bool {
    exists|index: int|
        before.effects.len() <= index < after.effects.len() && #[trigger] after.effects[index]
            == effect
}

/// Whether just these things have been asked for since, in this order.
pub open spec fn asks_just(before: WindowView, after: WindowView, effects: Seq<Effect>) -> bool {
    after.effects == before.effects + effects
}

/// Whether no change of the document has been asked for since.
pub open spec fn edits_nothing(before: WindowView, after: WindowView) -> bool {
    &&& keeps_asking(before, after)
    &&& forall|index: int|
        before.effects.len() <= index < after.effects.len()
            ==> !(#[trigger] after.effects[index] is Apply)
}

/// Whether one change of the document has been asked for since, at a place of
/// the queue, and no other one.
pub open spec fn edits_at(
    before: WindowView,
    after: WindowView,
    place: int,
    operation: Operation,
) -> bool {
    &&& keeps_asking(before, after)
    &&& before.effects.len() <= place < after.effects.len()
    &&& after.effects[place] == Effect::Apply(operation)
    &&& forall|index: int|
        before.effects.len() <= index < after.effects.len() && index != place
            ==> !(#[trigger] after.effects[index] is Apply)
}

/// Whether just this change of the document has been asked for since.
pub open spec fn edits_just(before: WindowView, after: WindowView, operation: Operation) -> bool {
    exists|place: int| #[trigger] edits_at(before, after, place, operation)
}

/// What edits nothing twice edits nothing.
pub(crate) proof fn calm_follows_calm(before: WindowView, between: WindowView, after: WindowView)
    requires
        edits_nothing(before, between),
        edits_nothing(between, after),
    ensures
        edits_nothing(before, after),
{
    assert forall|index: int|
        before.effects.len() <= index < after.effects.len() implies !(
    #[trigger] after.effects[index] is Apply) by {
        if index < between.effects.len() {
            assert(after.effects[index] == between.effects[index]);
        }
    }
    assert forall|index: int| 0 <= index < before.effects.len() implies #[trigger] after.effects[index]
        == before.effects[index] by {
        assert(after.effects[index] == between.effects[index]);
    }
}

/// A change after something that edits nothing is the only one.
pub(crate) proof fn edit_follows_calm(
    before: WindowView,
    between: WindowView,
    after: WindowView,
    operation: Operation,
)
    requires
        edits_nothing(before, between),
        edits_just(between, after, operation),
    ensures
        edits_just(before, after, operation),
{
    let place = choose|place: int| #[trigger] edits_at(between, after, place, operation);
    assert forall|index: int|
        before.effects.len() <= index < after.effects.len() && index != place implies !(
    #[trigger] after.effects[index] is Apply) by {
        if index < between.effects.len() {
            assert(after.effects[index] == between.effects[index]);
        }
    }
    assert forall|index: int| 0 <= index < before.effects.len() implies #[trigger] after.effects[index]
        == before.effects[index] by {
        assert(after.effects[index] == between.effects[index]);
    }
    assert(edits_at(before, after, place, operation));
}

pub(crate) proof fn displays_are_calm(window: WindowView, size: (u32, u32))
    ensures
        edits_nothing(window, window.display_scale_preview(size)),
{
    reveal(WindowView::display_scale_preview);
}

pub(crate) proof fn previews_are_calm(window: WindowView, target: (u32, u32))
    ensures
        edits_nothing(window, window.schedule_scale_preview(target)),
{
    reveal(WindowView::schedule_scale_preview);
    if window.session.scaling.source is Some && target == window.session.scaling.source->0 {
        let before = window.with_scale_generation(
            crate::window::next_generation(window.session.generations.scale_preview),
        ).emit_if(window.session.scaling.running, Effect::CancelScalePreview).with_scaling(
            crate::window::Scaling { running: false, ..window.session.scaling },
        ).emit(Effect::ShowScaleSpinner(false));
        assert(edits_nothing(window, before));
        displays_are_calm(before, target);
        calm_follows_calm(window, before, before.display_scale_preview(target));
    }
}

pub(crate) proof fn refreshes_are_calm(window: WindowView)
    ensures
        edits_nothing(window, window.refresh_scale_controls()),
{
    let told = window.emit(Effect::ShowScaleTarget);
    previews_are_calm(told, window.session.scaling.target);
    calm_follows_calm(
        window,
        told,
        told.schedule_scale_preview(window.session.scaling.target),
    );
}

proof fn opening_scaling_is_calm(window: WindowView, size: (u32, u32))
    ensures
        edits_nothing(window, window.open_scaling(size)),
{
    reveal(WindowView::open_scaling);
    let told = window.with_scaling(
        crate::window::Scaling {
            source: Some(size),
            preview: None,
            view: crate::window::ScalePreviewView::Footprint,
            showing_original: false,
            committing: false,
            pending_activation: false,
            ..window.session.scaling
        }.configured(size, size),
    ).emit(Effect::KeepScaleSource).emit(Effect::ShowScaleLimits);
    let refreshed = told.refresh_scale_controls();
    refreshes_are_calm(told);
    assert(edits_nothing(window, told));
    calm_follows_calm(window, told, refreshed);
    let opened = refreshed.emit(Effect::ShowScaleControls(true)).emit(
        Effect::ShowZoomControls(false),
    );
    assert(edits_nothing(refreshed, opened));
    calm_follows_calm(window, refreshed, opened);
}

pub(crate) proof fn scaling_tool_is_calm(window: WindowView, active: bool)
    ensures
        edits_nothing(window, window.set_scale_preview_active(active)),
{
    if !active {
        reveal(WindowView::close_scaling);
    } else if window.session.content.rendered is Some {
        opening_scaling_is_calm(window, window.session.content.rendered->0);
    }
}

pub(crate) proof fn originals_are_calm(window: WindowView, visible: bool)
    ensures
        edits_nothing(window, window.set_scale_original_visible(visible)),
{
    let set = window.with_scaling(
        crate::window::Scaling { showing_original: visible, ..window.session.scaling },
    );
    previews_are_calm(set, window.session.scaling.target);
}

proof fn leaving_tools_is_calm(window: WindowView, tool: Tool)
    ensures
        edits_nothing(window, window.leave_tool(tool)),
{
    reveal(WindowView::leave_tool);
    scaling_tool_is_calm(window, false);
}

proof fn entering_tools_is_calm(window: WindowView, tool: Tool)
    ensures
        edits_nothing(window, window.enter_tool(tool)),
{
    reveal(WindowView::enter_tool);
    scaling_tool_is_calm(window, true);
}

/// A change of tool changes nothing of the document.
pub proof fn tools_do_not_edit(window: WindowView, tool: Tool)
    ensures
        edits_nothing(window, window.change_tool(tool)),
        edits_nothing(window, window.set_tool(tool)),
        edits_nothing(window, window.toggle_tool(tool)),
{
    reveal(WindowView::toggle_tool);
    changing_tools_is_calm(window, tool);
    changing_tools_is_calm(window, window.requested_tool(tool));
    changing_tools_is_calm(window, window.requested_tool(Tool::Idle));
}

/// Up to where its tool is taken up, a change of tool only adds to what was asked
/// for.
pub(crate) proof fn stages_only_add(window: WindowView, tool: Tool)
    ensures
        ({
            let tools = window.tools_for(tool);
            let ready = window.end_nudging().cancel_annotation_drag().close_text_editor().leave_tool(
                window.session.tools.tool,
            ).with_tools(tools);
            let settled = if WindowView::keeps_selection(tools) {
                ready
            } else {
                ready.select_annotation(None, None)
            };
            let entered = settled.emit(Effect::ShowToolButtons(tool)).enter_tool(tool);
            keeps_asking(window, entered)
        }),
{
    let tools = window.tools_for(tool);
    let ended = window.end_nudging().cancel_annotation_drag().close_text_editor();
    assert(edits_nothing(window, ended));
    let left = ended.leave_tool(window.session.tools.tool);
    leaving_tools_is_calm(ended, window.session.tools.tool);
    calm_follows_calm(window, ended, left);
    let ready = left.with_tools(tools);
    let settled = if WindowView::keeps_selection(tools) {
        ready
    } else {
        ready.select_annotation(None, None)
    };
    let pressed = settled.emit(Effect::ShowToolButtons(tool));
    assert(edits_nothing(left, pressed));
    calm_follows_calm(window, left, pressed);
    entering_tools_is_calm(pressed, tool);
    calm_follows_calm(window, pressed, pressed.enter_tool(tool));
}

proof fn changing_tools_is_calm(window: WindowView, tool: Tool)
    ensures
        edits_nothing(window, window.change_tool(tool)),
{
    reveal(WindowView::change_tool);
    let tools = window.tools_for(tool);
    let ended = window.end_nudging().cancel_annotation_drag().close_text_editor();
    assert(edits_nothing(window, ended));
    let left = ended.leave_tool(window.session.tools.tool);
    leaving_tools_is_calm(ended, window.session.tools.tool);
    calm_follows_calm(window, ended, left);
    let ready = left.with_tools(tools);
    let settled = if WindowView::keeps_selection(tools) {
        ready
    } else {
        ready.select_annotation(None, None)
    };
    let pressed = settled.emit(Effect::ShowToolButtons(tool));
    assert(edits_nothing(left, pressed));
    calm_follows_calm(window, left, pressed);
    let entered = pressed.enter_tool(tool);
    entering_tools_is_calm(pressed, tool);
    calm_follows_calm(window, pressed, entered);
    assert(edits_nothing(entered, window.change_tool(tool)));
    calm_follows_calm(window, entered, window.change_tool(tool));
}

} // verus!
