//! What holds of a window whatever happens to it.

use crate::actions::Action;
use crate::compare::leaving_forgets_the_comparison;
use crate::effect::{Effect, Notice};
use crate::file_state::LocationView;
use crate::opening::{opened, OpeningSettings};
use crate::scale::{ScaleMethod, ScaleUnit};
use crate::scaling::{
    displays_keep_the_choice, methods_bring_their_limits, previews_keep_the_choice,
    same_choice, sides_keep_to_the_limits, sizes_keep_to_the_limits, ScaleOutcome,
};
use crate::tool::Tool;
use crate::tool_laws::{
    changing_tools_ends_what_was_begun, previews_keep_the_rest, same_but_scaling,
};
use crate::window::{
    next_generation, Animation, Content, Generations, ScalePreviewView, Scaling, Session,
    WindowView,
};
use vstd::prelude::*;

verus! {

impl Session {
    /// The selected region lies inside its image, the shown frame is one of the
    /// frames, and the size to scale to keeps to its limits.
    pub open spec fn well_formed(self) -> bool {
        &&& self.region.well_formed()
        &&& self.animation.well_formed()
        &&& self.scaling.well_formed()
    }
}

proof fn opening_scaling_keeps_to_the_limits(window: WindowView, size: (u32, u32))
    ensures
        window.open_scaling(size).session.scaling.well_formed(),
{
    reveal(WindowView::open_scaling);
    let chosen = Scaling {
        source: Some(size),
        preview: None,
        view: ScalePreviewView::Footprint,
        showing_original: false,
        committing: false,
        pending_activation: false,
        ..window.session.scaling
    }.configured(size, size);
    let before = window.with_scaling(chosen).emit(Effect::KeepScaleSource).emit(
        Effect::ShowScaleLimits,
    );
    assert(chosen.well_formed());
    previews_keep_the_choice(before, size);
}

pub(crate) proof fn scaling_tool_keeps_to_the_limits(window: WindowView, active: bool)
    requires
        window.session.scaling.well_formed(),
    ensures
        window.set_scale_preview_active(active).session.scaling.well_formed(),
{
    if !active {
        reveal(WindowView::close_scaling);
    } else if window.session.content.rendered is Some {
        opening_scaling_keeps_to_the_limits(window, window.session.content.rendered->0);
    }
}

proof fn leaving_keeps_to_the_limits(window: WindowView, tool: Tool)
    requires
        window.session.scaling.well_formed(),
    ensures
        window.leave_tool(tool).session.scaling.well_formed(),
{
    reveal(WindowView::leave_tool);
    scaling_tool_keeps_to_the_limits(window, false);
}

proof fn entering_keeps_to_the_limits(window: WindowView, tool: Tool)
    requires
        window.session.scaling.well_formed(),
    ensures
        window.enter_tool(tool).session.scaling.well_formed(),
{
    reveal(WindowView::enter_tool);
    scaling_tool_keeps_to_the_limits(window, true);
}

/// Whatever tool is taken up, the window stays well-formed.
pub proof fn changing_tools_keeps_well_formed(window: WindowView, tool: Tool)
    requires
        window.session.well_formed(),
    ensures
        window.change_tool(tool).session.well_formed(),
        window.set_tool(tool).session.well_formed(),
        window.toggle_tool(tool).session.well_formed(),
{
    reveal(WindowView::toggle_tool);
    changed_tools_keep_well_formed(window, tool);
    changed_tools_keep_well_formed(window, window.requested_tool(tool));
    changed_tools_keep_well_formed(window, window.requested_tool(Tool::Idle));
}

proof fn changed_tools_keep_well_formed(window: WindowView, tool: Tool)
    requires
        window.session.well_formed(),
    ensures
        window.change_tool(tool).session.well_formed(),
{
    changing_tools_ends_what_was_begun(window, tool);
    reveal(WindowView::change_tool);
    let tools = window.tools_for(tool);
    let ended = window.end_nudging().cancel_annotation_drag().close_text_editor();
    let left = ended.leave_tool(window.session.tools.tool);
    leaving_keeps_to_the_limits(ended, window.session.tools.tool);
    let ready = left.with_tools(tools);
    let settled = if WindowView::keeps_selection(tools) {
        ready
    } else {
        ready.select_annotation(None, None)
    };
    entering_keeps_to_the_limits(settled.emit(Effect::ShowToolButtons(tool)), tool);
}

/// Whatever is chosen in the scaling controls, the size to scale to keeps to its
/// limits.
pub proof fn choices_keep_to_the_limits(
    window: WindowView,
    width_changed: bool,
    locked: bool,
    length: u32,
    size: (u32, u32),
    unit: ScaleUnit,
    method: ScaleMethod,
)
    requires
        window.session.scaling.well_formed(),
    ensures
        window.set_scale_side(width_changed, length).session.scaling.well_formed(),
        window.set_scale_size(size).session.scaling.well_formed(),
        window.set_scale_lock(locked).session.scaling.well_formed(),
        window.set_scale_unit(unit).session.scaling.well_formed(),
        window.set_scale_method(method).session.scaling.well_formed(),
{
    sides_keep_to_the_limits(window, width_changed, length);
    sizes_keep_to_the_limits(window, size);
    methods_bring_their_limits(window, method);
    let set = window.with_scaling(Scaling { locked, ..window.session.scaling });
    sides_keep_to_the_limits(set, true, 0);
    previews_keep_the_choice(set, set.session.scaling.target);
    let other = window.with_scaling(Scaling { unit, ..window.session.scaling });
    previews_keep_the_choice(other, other.session.scaling.target);
}

/// Whatever the scaling tool shows, the size to scale to keeps to its limits.
pub proof fn displays_keep_to_the_limits(
    window: WindowView,
    active: bool,
    visible: bool,
    view: ScalePreviewView,
    generation: u64,
    outcome: ScaleOutcome,
)
    requires
        window.session.scaling.well_formed(),
    ensures
        window.set_scale_preview_active(active).session.scaling.well_formed(),
        window.scale_preview_finished(generation, outcome).session.scaling.well_formed(),
        window.set_scale_original_visible(visible).session.scaling.well_formed(),
        window.set_scale_view(view).session.scaling.well_formed(),
{
    scaling_tool_keeps_to_the_limits(window, active);
    finished_previews_keep_to_the_limits(window, generation, outcome);
    originals_keep_to_the_limits(window, visible);
}

proof fn finished_previews_keep_to_the_limits(
    window: WindowView,
    generation: u64,
    outcome: ScaleOutcome,
)
    requires
        window.session.scaling.well_formed(),
    ensures
        window.scale_preview_finished(generation, outcome).session.scaling.well_formed(),
{
    let ended = window.with_scaling(Scaling { running: false, ..window.session.scaling }).emit(
        Effect::ShowScaleSpinner(false),
    );
    if outcome is Ready {
        displays_keep_the_choice(ended, outcome->size);
    }
}

proof fn originals_keep_to_the_limits(window: WindowView, visible: bool)
    requires
        window.session.scaling.well_formed(),
    ensures
        window.set_scale_original_visible(visible).session.scaling.well_formed(),
{
    let shown = window.with_scaling(
        Scaling { showing_original: visible, ..window.session.scaling },
    );
    previews_keep_the_choice(shown, window.session.scaling.target);
}

/// A file that is loaded leaves the window well-formed.
pub proof fn loading_keeps_well_formed(window: WindowView, file: LocationView, fit: bool)
    requires
        window.session.well_formed(),
    ensures
        window.load_with_fit(file, fit).session.well_formed(),
{
    reveal(WindowView::load_with_fit);
    reveal(WindowView::start_load);
    let begun = window.begin_load(fit);
    if !window.session.unsaved() {
        dropping_keeps_well_formed(begun);
    }
}

proof fn dropping_keeps_well_formed(window: WindowView)
    requires
        window.session.well_formed(),
    ensures
        window.drop_image().session.well_formed(),
{
    reveal(WindowView::drop_image);
    let empty = WindowView {
        session: Session {
            content: Content {
                has_document: false,
                rendered: None,
                dirty: false,
                can_undo: false,
                can_redo: false,
                ..window.session.content
            },
            animation: Animation { frames: 0, ..window.session.animation },
            generations: Generations {
                render: next_generation(window.session.generations.render),
                ..window.session.generations
            },
            ..window.session
        },
        ..window
    }.emit(Effect::DropImage).emit(Effect::ShowAnimationControls(false));
    changing_tools_keeps_well_formed(empty, Tool::Idle);
    let idle = empty.set_tool(Tool::Idle);
    let deselected = idle.select_annotation(None, None);
    leaving_keeps_the_scaling(deselected);
    leaving_forgets_the_comparison(deselected, true);
    assert(window.drop_image() == deselected.exit_compare());
}

pub(crate) proof fn leaving_keeps_the_scaling(window: WindowView)
    ensures
        window.exit_compare().session.scaling == window.session.scaling,
{
    reveal(WindowView::exit_compare);
}

pub(crate) proof fn confirming_keeps_well_formed(window: WindowView)
    requires
        window.session.well_formed(),
    ensures
        window.confirm_scale_preview().session.well_formed(),
{
    reveal(WindowView::confirm_scale_preview);
    let scaling = window.session.scaling;
    if scaling.source is Some {
        let source = scaling.source->0;
        let grows = scaling.target.0 > source.0 || scaling.target.1 > source.1;
        let told = window.emit_if(grows, Effect::Notify(Notice::ScalingUp));
        originals_keep_to_the_limits(told, false);
        hiding_the_original_keeps_the_rest(told);
        let shown = told.set_scale_original_visible(false);
        let committing = shown.with_scaling(
            Scaling { committing: true, ..shown.session.scaling },
        );
        changing_tools_keeps_well_formed(committing, Tool::Idle);
    }
}

proof fn hiding_the_original_keeps_the_rest(window: WindowView)
    ensures
        same_but_scaling(window.set_scale_original_visible(false).session, window.session),
{
    let shown = window.with_scaling(
        Scaling { showing_original: false, ..window.session.scaling },
    );
    previews_keep_the_rest(shown, window.session.scaling.target);
}

proof fn escape_keeps_well_formed(window: WindowView)
    requires
        window.session.well_formed(),
    ensures
        window.cancel_tool().session.well_formed(),
{
    reveal(WindowView::cancel_tool);
    changing_tools_keeps_well_formed(window, Tool::Idle);
    if window.session.tools.return_tool is Some {
        changing_tools_keeps_well_formed(window, window.session.tools.return_tool->0);
    }
}

pub(crate) proof fn navigating_keeps_well_formed(window: WindowView, forward: bool)
    requires
        window.session.well_formed(),
    ensures
        window.navigate(forward).session.well_formed(),
{
    reveal(WindowView::navigate);
}

/// The tool that an action takes up or puts away.
pub open spec fn toggled_tool(action: Action) -> Tool {
    match action {
        Action::Measure => Tool::Measure,
        Action::Highlight => Tool::Highlight,
        Action::Arrow => Tool::Arrow,
        Action::Text => Tool::Text,
        Action::Scale | Action::ScalePreview => Tool::Scale,
        Action::Pencil => Tool::Pencil,
        Action::PickColor => Tool::PickColor,
        Action::Select => Tool::Select,
        _ => Tool::Idle,
    }
}

pub(crate) proof fn steps_keep_the_rest(window: WindowView, zoom_in: bool)
    ensures
        ({
            let after = window.step_zoom(zoom_in).session;
            &&& after.region == window.session.region
            &&& after.animation == window.session.animation
            &&& after.scaling == window.session.scaling
        }),
{
    reveal(WindowView::step_zoom);
}

proof fn fits_keep_the_rest(window: WindowView)
    ensures
        ({
            let after = window.fit_requested().session;
            &&& after.region == window.session.region
            &&& after.animation == window.session.animation
            &&& same_choice(after.scaling, window.session.scaling)
        }),
        ({
            let after = window.scale_fit().session;
            &&& after.region == window.session.region
            &&& after.animation == window.session.animation
            &&& same_choice(after.scaling, window.session.scaling)
        }),
{
    reveal(WindowView::fit_requested);
    reveal(WindowView::scale_fit);
}

proof fn filters_keep_the_rest(window: WindowView)
    ensures
        ({
            let after = window.toggle_filter().session;
            &&& after.region == window.session.region
            &&& after.animation == window.session.animation
            &&& after.scaling == window.session.scaling
        }),
        ({
            let after = window.scale_actual_size().session;
            &&& after.region == window.session.region
            &&& after.animation == window.session.animation
            &&& same_choice(after.scaling, window.session.scaling)
        }),
{
    reveal(WindowView::toggle_filter);
    reveal(WindowView::scale_actual_size);
}

proof fn zooming_keeps_the_rest(window: WindowView, action: Action)
    ensures
        ({
            let after = window.zooming_action(action).session;
            &&& after.region == window.session.region
            &&& after.animation == window.session.animation
            &&& same_choice(after.scaling, window.session.scaling)
        }),
{
    reveal(WindowView::zooming_action);
    steps_keep_the_rest(window, true);
    steps_keep_the_rest(window, false);
    fits_keep_the_rest(window);
    filters_keep_the_rest(window);
}

proof fn viewing_keeps_well_formed(window: WindowView, action: Action)
    requires
        window.session.well_formed(),
    ensures
        window.viewing_action(action).session.well_formed(),
{
    reveal(WindowView::viewing_action);
}

proof fn editing_keeps_well_formed(window: WindowView, action: Action)
    requires
        window.session.well_formed(),
    ensures
        window.editing_action(action).session.well_formed(),
{
    reveal(WindowView::editing_action);
    confirming_keeps_well_formed(window);
}

proof fn taking_tools_up_keeps_well_formed(window: WindowView, action: Action)
    requires
        window.session.well_formed(),
    ensures
        window.tool_action(action).session.well_formed(),
{
    reveal(WindowView::tool_action);
    reveal(WindowView::cancel_scale);
    changing_tools_keeps_well_formed(window, toggled_tool(action));
    escape_keeps_well_formed(window);
}

proof fn handling_files_keeps_well_formed(window: WindowView, action: Action)
    requires
        window.session.well_formed(),
    ensures
        window.file_action(action).session.well_formed(),
{
    reveal(WindowView::file_action);
    navigating_keeps_well_formed(window, action == Action::Next);
}

/// Every action keeps the window well-formed.
pub proof fn actions_keep_well_formed(window: WindowView, action: Action)
    requires
        window.session.well_formed(),
    ensures
        window.activate(action).session.well_formed(),
{
    zooming_keeps_the_rest(window, action);
    viewing_keeps_well_formed(window, action);
    editing_keeps_well_formed(window, action);
    taking_tools_up_keeps_well_formed(window, action);
    handling_files_keeps_well_formed(window, action);
}

/// A window begins well-formed, and is so with its first file on the way.
pub proof fn windows_begin_well_formed(
    settings: OpeningSettings,
    explicit: bool,
    has_neighbors: bool,
    file: Option<LocationView>,
)
    ensures
        opened(settings, explicit, has_neighbors, file).session.well_formed(),
{
    let empty = opened(settings, explicit, has_neighbors, None);
    assert(empty.session.well_formed());
    if file is Some {
        loading_keeps_well_formed(empty, file->0, true);
    }
}

} // verus!
