//! What the scaling tool shows of a size that is chosen, and what it does with it.

use crate::actions::Action;
use crate::asking::{
    asks_for, asks_just, edit_follows_calm, calm_follows_calm, edits_just, edits_nothing,
    keeps_asking, originals_are_calm, previews_are_calm, refreshes_are_calm, scaling_tool_is_calm,
    tools_do_not_edit,
};
use crate::drawing_laws::edits_are_applied_and_rendered;
use crate::effect::{Effect, Notice, Operation};
use crate::scale::{
    length_at_percent, proportional, rounded_ratio, spec_resampling_at,
    spec_resampling_index, GameAssetAa, Resampling, ScaleMethod, ScaleUnit,
};
use crate::scaling::{
    percentage, previews_keep_the_choice, same_choice, spec_slider_limit,
    within_limit, ScaleOutcome,
};
use crate::tool::Tool;
use crate::tool_laws::{changing_tools_ends_what_was_begun, previews_keep_the_rest};
use crate::window::{ScalePreviewView, Scaling, WindowView};
use vstd::prelude::*;

verus! {

/// Whether the picture that was there before scaling has not been put back since.
pub open spec fn restores_nothing(before: WindowView, after: WindowView) -> bool {
    &&& keeps_asking(before, after)
    &&& forall|index: int|
        before.effects.len() <= index < after.effects.len() ==> #[trigger] after.effects[index]
            != Effect::RestoreScaleSource
}

proof fn nothing_is_restored_twice(before: WindowView, between: WindowView, after: WindowView)
    requires
        restores_nothing(before, between),
        restores_nothing(between, after),
    ensures
        restores_nothing(before, after),
{
    assert forall|index: int| 0 <= index < between.effects.len() implies #[trigger] after.effects[index]
        == between.effects[index] by {}
    assert forall|index: int|
        before.effects.len() <= index < after.effects.len() implies #[trigger] after.effects[index]
        != Effect::RestoreScaleSource by {
        if index < between.effects.len() {
            assert(after.effects[index] == between.effects[index]);
        }
    }
    assert forall|index: int| 0 <= index < before.effects.len() implies #[trigger] after.effects[index]
        == before.effects[index] by {
        assert(after.effects[index] == between.effects[index]);
    }
}

proof fn displays_restore_nothing(window: WindowView, size: (u32, u32))
    ensures
        restores_nothing(window, window.display_scale_preview(size)),
{
    reveal(WindowView::display_scale_preview);
}

proof fn previews_restore_nothing(window: WindowView, target: (u32, u32))
    ensures
        restores_nothing(window, window.schedule_scale_preview(target)),
{
    reveal(WindowView::schedule_scale_preview);
    if window.session.scaling.source is Some && target == window.session.scaling.source->0 {
        let before = window.with_scale_generation(
            crate::window::next_generation(window.session.generations.scale_preview),
        ).emit_if(window.session.scaling.running, Effect::CancelScalePreview).with_scaling(
            Scaling { running: false, ..window.session.scaling },
        ).emit(Effect::ShowScaleSpinner(false));
        assert(restores_nothing(window, before));
        displays_restore_nothing(before, target);
        nothing_is_restored_twice(window, before, before.display_scale_preview(target));
    }
}

/// Leaving the scaling tool puts the picture back that was there before, unless the
/// new size is being taken over.
pub proof fn given_up_sizes_are_put_back(window: WindowView)
    requires
        window.session.scaling.source is Some,
    ensures
        ({
            let after = window.set_scale_preview_active(false);
            &&& !window.session.scaling.committing ==> asks_for(
                window,
                after,
                Effect::RestoreScaleSource,
            )
            &&& window.session.scaling.committing ==> restores_nothing(window, after)
            &&& window.session.scaling.running ==> asks_for(
                window,
                after,
                Effect::CancelScalePreview,
            )
            &&& asks_for(window, after, Effect::ShowScaleControls(false))
            &&& asks_for(window, after, Effect::ShowZoomControls(true))
            &&& asks_for(window, after, Effect::ShowScaleSpinner(false))
            &&& after.session.scaling.source is None
            &&& !after.session.scaling.running
            &&& !after.session.scaling.committing
            &&& after.session.zooming.pending_fit is None
            &&& after.session.generations.scale_preview
                != window.session.generations.scale_preview
            &&& edits_nothing(window, after)
        }),
{
    reveal(WindowView::close_scaling);
    scaling_tool_is_calm(window, false);
    let after = window.set_scale_preview_active(false);
    let place = window.effects.len() as int;
    let skipped: int = if window.session.scaling.running {
        1
    } else {
        0
    };
    if window.session.scaling.running {
        assert(after.effects[place] == Effect::CancelScalePreview);
    }
    assert(after.effects[place + skipped] == Effect::ShowScaleSpinner(false));
    assert(after.effects[place + skipped + 1] == Effect::ShowScaleControls(false));
    assert(after.effects[place + skipped + 2] == Effect::ShowZoomControls(true));
    if !window.session.scaling.committing {
        assert(after.effects[place + skipped + 3] == Effect::RestoreScaleSource);
    }
}

/// The scaling tool begins with the pixels as they are, shows its controls in place
/// of those of the zoom and keeps the picture. Without pixels it waits for them
/// while they are being decoded, and is refused otherwise.
pub proof fn scaling_begins_with_the_image(window: WindowView, size: (u32, u32))
    ensures
        window.session.content.rendered == Some(size) && 1 <= size.0 && 1 <= size.1 ==> {
            let after = window.set_scale_preview_active(true);
            &&& after.session.scaling.source == Some(size)
            &&& after.session.scaling.target == size
            &&& after.session.scaling.method == window.session.scaling.method
            &&& after.effects[window.effects.len() as int] == Effect::KeepScaleSource
            &&& after.effects[after.effects.len() - 2] == Effect::ShowScaleControls(true)
            &&& after.effects.last() == Effect::ShowZoomControls(false)
            &&& edits_nothing(window, after)
        },
        window.session.content.rendered is None && window.session.flags.decode_pending ==> {
            let after = window.set_scale_preview_active(true);
            &&& after.session.scaling.pending_activation
            &&& asks_just(window, after, seq![Effect::Notify(Notice::PreparingScale)])
        },
        window.session.content.rendered is None && !window.session.flags.decode_pending ==> {
            let after = window.set_scale_preview_active(true);
            &&& after.session == window.session
            &&& asks_just(
                window,
                after,
                seq![Effect::ReleaseScaleButton, Effect::Notify(Notice::OpenEditableFirst)],
            )
        },
{
    reveal(WindowView::open_scaling);
    scaling_tool_is_calm(window, true);
    let after = window.set_scale_preview_active(true);
    if window.session.content.rendered is Some {
        let size = window.session.content.rendered->0;
        let chosen = Scaling {
            source: Some(size),
            preview: None,
            view: ScalePreviewView::Footprint,
            showing_original: false,
            committing: false,
            pending_activation: false,
            ..window.session.scaling
        }.configured(size, size);
        let kept = window.with_scaling(chosen).emit(Effect::KeepScaleSource).emit(
            Effect::ShowScaleLimits,
        );
        previews_keep_the_choice(kept.emit(Effect::ShowScaleTarget), chosen.target);
        refreshes_are_calm(kept);
        let refreshed = kept.refresh_scale_controls();
        assert(refreshed.effects[window.effects.len() as int] == kept.effects[window.effects.len() as int]);
    } else if window.session.flags.decode_pending {
        assert(after.effects =~= window.effects + seq![Effect::Notify(Notice::PreparingScale)]);
    } else {
        assert(after.effects =~= window.effects + seq![
            Effect::ReleaseScaleButton,
            Effect::Notify(Notice::OpenEditableFirst),
        ]);
    }
}

/// A preview is computed of the size that is asked for, with the method that is
/// chosen and under a number of its own; one that was being computed is given up.
/// The size of the source needs no computation.
pub proof fn previews_are_of_the_chosen_size(window: WindowView, target: (u32, u32))
    requires
        window.session.scaling.source is Some,
    ensures
        ({
            let after = window.schedule_scale_preview(target);
            let generation = after.session.generations.scale_preview;
            &&& generation != window.session.generations.scale_preview
            &&& window.session.scaling.running ==> after.effects[window.effects.len() as int]
                == Effect::CancelScalePreview
            &&& Some(target) != window.session.scaling.source ==> {
                &&& after.session.scaling.running
                &&& after.effects.last() == Effect::StartScalePreview {
                    generation,
                    width: target.0,
                    height: target.1,
                    method: window.session.scaling.method,
                }
                &&& asks_for(window, after, Effect::ShowScaleSpinner(true))
                &&& asks_for(window, after, Effect::EnableScaleOriginal(false))
            }
            &&& Some(target) == window.session.scaling.source ==> {
                &&& !after.session.scaling.running
                &&& after.session.scaling.preview == Some(target)
                &&& asks_for(window, after, Effect::EnableScaleOriginal(true))
                &&& !window.session.scaling.showing_original ==> asks_for(
                    window,
                    after,
                    Effect::ShowScalePicture { original: false },
                )
            }
        }),
{
    reveal(WindowView::schedule_scale_preview);
    reveal(WindowView::display_scale_preview);
    let after = window.schedule_scale_preview(target);
    let place = window.effects.len() as int;
    let skipped: int = if window.session.scaling.running {
        1
    } else {
        0
    };
    if Some(target) == window.session.scaling.source {
        assert(after.effects[place + skipped + 2] == Effect::EnableScaleOriginal(true));
        if !window.session.scaling.showing_original {
            assert(after.effects[place + skipped + 3] == Effect::ShowScalePicture {
                original: false,
            });
        }
    } else {
        assert(after.effects[place + skipped] == Effect::ShowScaleSpinner(true));
        assert(after.effects[place + skipped + 1] == Effect::EnableScaleOriginal(false));
    }
}

/// The preview that was asked for last is shown when it is ready, in the size that
/// it has, as it is looked at; while the original is held up, it waits. One that
/// fails is told of.
pub proof fn previews_are_shown(window: WindowView, size: (u32, u32))
    ensures
        ({
            let generation = window.session.generations.scale_preview;
            let ready = window.scale_preview_finished(generation, ScaleOutcome::Ready { size });
            let failed = window.scale_preview_finished(generation, ScaleOutcome::Failed);
            let broken = window.scale_preview_finished(generation, ScaleOutcome::WorkerFailed);
            let scaling = window.session.scaling;
            &&& ready.session.scaling.preview == Some(size)
            &&& !ready.session.scaling.running
            &&& ready.session.scaling.target == scaling.target
            &&& asks_for(window, ready, Effect::EnableScaleOriginal(true))
            &&& asks_for(window, ready, Effect::ShowScaleSpinner(false))
            &&& !scaling.showing_original ==> {
                &&& asks_for(window, ready, Effect::ShowScalePicture { original: false })
                &&& scaling.view == ScalePreviewView::Footprint && scaling.source is Some
                    ==> asks_for(
                    window,
                    ready,
                    Effect::ZoomScaleFootprint {
                        source_width: (scaling.source->0).0,
                        target_width: size.0,
                    },
                )
                &&& scaling.view == ScalePreviewView::ActualSize ==> asks_for(
                    window,
                    ready,
                    Effect::ZoomScaleActual,
                )
                &&& scaling.view == ScalePreviewView::Fit ==> ready.effects.last()
                    == Effect::MeasureViewport && ready.session.zooming.pending_fit == Some(false)
            }
            &&& scaling.showing_original ==> ready.effects.last() == Effect::EnableScaleOriginal(
                true,
            )
            &&& asks_just(
                window,
                failed,
                seq![Effect::ShowScaleSpinner(false), Effect::Notify(Notice::Failure)],
            )
            &&& asks_just(
                window,
                broken,
                seq![Effect::ShowScaleSpinner(false), Effect::Notify(Notice::ScaleWorkerFailed)],
            )
            &&& !failed.session.scaling.running && !broken.session.scaling.running
        }),
{
    reveal(WindowView::display_scale_preview);
    let generation = window.session.generations.scale_preview;
    let ready = window.scale_preview_finished(generation, ScaleOutcome::Ready { size });
    let place = window.effects.len() as int;
    assert(ready.effects[place] == Effect::ShowScaleSpinner(false));
    assert(ready.effects[place + 2] == Effect::EnableScaleOriginal(true));
    if !window.session.scaling.showing_original {
        assert(ready.effects[place + 3] == Effect::ShowScalePicture { original: false });
        match window.session.scaling.view {
            ScalePreviewView::Footprint => {
                if window.session.scaling.source is Some {
                    assert(ready.effects[place + 4] == Effect::ZoomScaleFootprint {
                        source_width: (window.session.scaling.source->0).0,
                        target_width: size.0,
                    });
                }
            },
            ScalePreviewView::ActualSize => {
                assert(ready.effects[place + 4] == Effect::ZoomScaleActual);
            },
            ScalePreviewView::Fit => {},
        }
    }
    let failed = window.scale_preview_finished(generation, ScaleOutcome::Failed);
    assert(failed.effects =~= window.effects + seq![
        Effect::ShowScaleSpinner(false),
        Effect::Notify(Notice::Failure),
    ]);
    let broken = window.scale_preview_finished(generation, ScaleOutcome::WorkerFailed);
    assert(broken.effects =~= window.effects + seq![
        Effect::ShowScaleSpinner(false),
        Effect::Notify(Notice::ScaleWorkerFailed),
    ]);
}

/// While a button is held the original is shown in place of the preview, as large
/// as that; when it is let go the preview is back. A preview of another size than
/// the chosen one is computed anew.
pub proof fn originals_are_held_up(window: WindowView, source: (u32, u32))
    requires
        window.session.tools.tool == Tool::Scale,
        window.session.scaling.source == Some(source),
    ensures
        ({
            let scaling = window.session.scaling;
            let held = window.set_scale_original_visible(true);
            let freed = window.set_scale_original_visible(false);
            &&& held.session.scaling.showing_original
            &&& scaling.showing_original ==> held == window
            &&& !scaling.showing_original ==> freed == window && asks_just(
                window,
                held,
                seq![
                    Effect::ShowScalePicture { original: true },
                    Effect::ZoomScaleOriginal {
                        source_width: source.0,
                        target_width: scaling.target.0,
                        fit: scaling.view == ScalePreviewView::Fit,
                    },
                    Effect::UpdateSubtitle,
                    Effect::UpdateMinimap,
                ],
            )
            &&& scaling.showing_original && scaling.preview == Some(scaling.target) ==> {
                &&& !freed.session.scaling.showing_original
                &&& freed.effects[window.effects.len() as int] == Effect::ShowScalePicture {
                    original: false,
                }
                &&& scaling.view == ScalePreviewView::Fit ==> freed.effects.last()
                    == Effect::MeasureViewport
                &&& scaling.view != ScalePreviewView::Fit ==> asks_for(
                    window,
                    freed,
                    Effect::RestoreScaleZoom,
                )
            }
            &&& scaling.showing_original && scaling.preview != Some(scaling.target) && scaling.target
                != source ==> freed.effects.last() == Effect::StartScalePreview {
                generation: freed.session.generations.scale_preview,
                width: scaling.target.0,
                height: scaling.target.1,
                method: scaling.method,
            }
        }),
{
    let scaling = window.session.scaling;
    let held = window.set_scale_original_visible(true);
    let freed = window.set_scale_original_visible(false);
    if !scaling.showing_original {
        assert(held.effects =~= window.effects + seq![
            Effect::ShowScalePicture { original: true },
            Effect::ZoomScaleOriginal {
                source_width: source.0,
                target_width: scaling.target.0,
                fit: scaling.view == ScalePreviewView::Fit,
            },
            Effect::UpdateSubtitle,
            Effect::UpdateMinimap,
        ]);
    } else if scaling.preview == Some(scaling.target) {
        if scaling.view != ScalePreviewView::Fit {
            assert(freed.effects[window.effects.len() as int + 1] == Effect::RestoreScaleZoom);
        }
    } else {
        let set = window.with_scaling(Scaling { showing_original: false, ..scaling });
        previews_are_of_the_chosen_size(set, scaling.target);
        previews_keep_the_choice(set, scaling.target);
    }
}

proof fn hiding_restores_nothing(window: WindowView)
    ensures
        restores_nothing(window, window.set_scale_original_visible(false)),
        window.set_scale_original_visible(false).session.content == window.session.content,
        window.set_scale_original_visible(false).session.tools == window.session.tools,
        window.set_scale_original_visible(false).session.comparison
            == window.session.comparison,
{
    let set = window.with_scaling(
        Scaling { showing_original: false, ..window.session.scaling },
    );
    previews_restore_nothing(set, window.session.scaling.target);
    previews_keep_the_rest(set, window.session.scaling.target);
}

proof fn committed_leaving_restores_nothing(window: WindowView, tool: Tool)
    requires
        window.session.scaling.committing,
    ensures
        restores_nothing(window, window.leave_tool(tool)),
{
    reveal(WindowView::leave_tool);
    if tool == Tool::Scale {
        reveal(WindowView::close_scaling);
    }
}

proof fn entering_restores_nothing(window: WindowView, tool: Tool)
    requires
        tool != Tool::Scale,
    ensures
        restores_nothing(window, window.enter_tool(tool)),
{
    reveal(WindowView::enter_tool);
}

/// A size that is taken over is not put back when the tool is left for it.
proof fn committed_tools_restore_nothing(window: WindowView, tool: Tool)
    requires
        window.session.scaling.committing,
        tool != Tool::Scale,
    ensures
        restores_nothing(window, window.change_tool(tool)),
{
    reveal(WindowView::change_tool);
    let ended = window.end_nudging().cancel_annotation_drag().close_text_editor();
    assert(restores_nothing(window, ended));
    assert(ended.session.scaling == window.session.scaling);
    let left = ended.leave_tool(window.session.tools.tool);
    committed_leaving_restores_nothing(ended, window.session.tools.tool);
    nothing_is_restored_twice(window, ended, left);
    let ready = left.with_tools(window.tools_for(tool));
    let settled = if WindowView::keeps_selection(window.tools_for(tool)) {
        ready
    } else {
        ready.select_annotation(None, None)
    };
    let pressed = settled.emit(Effect::ShowToolButtons(tool));
    assert(restores_nothing(left, pressed));
    nothing_is_restored_twice(window, left, pressed);
    let entered = pressed.enter_tool(tool);
    entering_restores_nothing(pressed, tool);
    nothing_is_restored_twice(window, pressed, entered);
    assert(restores_nothing(entered, window.change_tool(tool)));
    nothing_is_restored_twice(window, entered, window.change_tool(tool));
}

proof fn edits_restore_nothing(window: WindowView, operation: Operation)
    ensures
        restores_nothing(window, window.apply(operation)),
{
}

/// What comes before a confirmed size is applied.
proof fn confirming_leaves_the_tool(window: WindowView, grows: bool)
    ensures
        ({
            let told = window.emit_if(grows, Effect::Notify(Notice::ScalingUp));
            let shown = told.set_scale_original_visible(false);
            let idle = shown.with_scaling(
                Scaling { committing: true, ..shown.session.scaling },
            ).set_tool(Tool::Idle);
            &&& edits_nothing(window, idle)
            &&& restores_nothing(window, idle)
            &&& idle.session.content.has_document == window.session.content.has_document
            &&& window.session.content.has_document ==> idle.session.tools.tool != Tool::Scale
            &&& grows ==> asks_for(window, idle, Effect::Notify(Notice::ScalingUp))
        }),
{
    let told = window.emit_if(grows, Effect::Notify(Notice::ScalingUp));
    let shown = told.set_scale_original_visible(false);
    let committing = shown.with_scaling(Scaling { committing: true, ..shown.session.scaling });
    let idle = committing.set_tool(Tool::Idle);
    let tool = committing.requested_tool(Tool::Idle);
    assert(edits_nothing(window, committing) && restores_nothing(window, committing)
        && committing.session.content == window.session.content && (grows
        ==> window.effects.len() < committing.effects.len()
        && committing.effects[window.effects.len() as int] == Effect::Notify(Notice::ScalingUp)))
        by {
        originals_are_calm(told, false);
        hiding_restores_nothing(told);
        calm_follows_calm(window, told, shown);
        nothing_is_restored_twice(window, told, shown);
        if grows {
            assert(told.effects[window.effects.len() as int] == Effect::Notify(Notice::ScalingUp));
        }
    }
    assert(edits_nothing(window, idle)) by {
        tools_do_not_edit(committing, Tool::Idle);
        calm_follows_calm(window, committing, idle);
    }
    assert(restores_nothing(committing, idle)) by {
        committed_tools_restore_nothing(committing, tool);
    }
    nothing_is_restored_twice(window, committing, idle);
    changing_tools_ends_what_was_begun(committing, tool);
    if grows {
        assert(idle.effects[window.effects.len() as int]
            == committing.effects[window.effects.len() as int]);
    }
}

/// To confirm a size is to scale the image, once, to just the size that is chosen
/// and with just the method that is chosen; nothing else is changed, and the
/// picture from before is not put back. The scaling tool is left for it.
pub proof fn confirmed_sizes_are_taken_over(window: WindowView, source: (u32, u32))
    requires
        window.session.content.has_document,
        window.session.scaling.source == Some(source),
        window.session.scaling.method != ScaleMethod::SeamCarving || (
        window.session.scaling.target.0 <= source.0 && window.session.scaling.target.1 <= source.1),
    ensures
        ({
            let scaling = window.session.scaling;
            let after = window.confirm_scale_preview();
            &&& edits_just(
                window,
                after,
                Operation::Scale {
                    width: scaling.target.0,
                    height: scaling.target.1,
                    method: scaling.method,
                },
            )
            &&& restores_nothing(window, after)
            &&& after.session.tools.tool != Tool::Scale
            &&& scaling.target.0 > source.0 || scaling.target.1 > source.1 ==> asks_for(
                window,
                after,
                Effect::Notify(Notice::ScalingUp),
            )
            &&& window.activate(Action::ConfirmScale) == after
        }),
{
    let scaling = window.session.scaling;
    let grows = scaling.target.0 > source.0 || scaling.target.1 > source.1;
    let told = window.emit_if(grows, Effect::Notify(Notice::ScalingUp));
    let shown = told.set_scale_original_visible(false);
    let idle = shown.with_scaling(
        Scaling { committing: true, ..shown.session.scaling },
    ).set_tool(Tool::Idle);
    let operation = Operation::Scale {
        width: scaling.target.0,
        height: scaling.target.1,
        method: scaling.method,
    };
    let after = window.confirm_scale_preview();
    assert(after == idle.apply(operation)) by {
        reveal(WindowView::confirm_scale_preview);
    }
    assert(window.activate(Action::ConfirmScale) == after) by {
        reveal(WindowView::editing_action);
    }
    confirming_leaves_the_tool(window, grows);
    edits_are_applied_and_rendered(idle, operation);
    edit_follows_calm(window, idle, after, operation);
    edits_restore_nothing(idle, operation);
    nothing_is_restored_twice(window, idle, after);
    if grows {
        let place = choose|place: int|
            window.effects.len() <= place < idle.effects.len() && #[trigger] idle.effects[place]
                == Effect::Notify(Notice::ScalingUp);
        assert(after.effects[place] == idle.effects[place]);
    }
}

/// What is confirmed is what was previewed: the size and the method of the preview
/// that was started for the chosen size.
pub proof fn confirmed_sizes_are_those_of_the_preview(window: WindowView, source: (u32, u32))
    requires
        window.session.content.has_document,
        window.session.scaling.source == Some(source),
        window.session.scaling.target != source,
        window.session.scaling.method != ScaleMethod::SeamCarving || (
        window.session.scaling.target.0 <= source.0 && window.session.scaling.target.1 <= source.1),
    ensures
        ({
            let previewed = window.refresh_scale_controls();
            let confirmed = previewed.confirm_scale_preview();
            previewed.effects.last() matches Effect::StartScalePreview {
                width,
                height,
                method,
                generation,
            } && {
                &&& edits_just(
                    previewed,
                    confirmed,
                    Operation::Scale { width, height, method },
                )
                &&& generation == previewed.session.generations.scale_preview
                &&& (width, height) == window.session.scaling.target
                &&& method == window.session.scaling.method
            }
        }),
{
    let told = window.emit(Effect::ShowScaleTarget);
    let target = window.session.scaling.target;
    previews_are_of_the_chosen_size(told, target);
    previews_keep_the_choice(told, target);
    previews_keep_the_rest(told, target);
    confirmed_sizes_are_taken_over(window.refresh_scale_controls(), source);
}

/// Seams are not carved into an image: a size that is larger than the source is
/// refused with that method, told of, and nothing is changed. Without a source
/// there is nothing to confirm.
pub proof fn grown_seams_are_refused(window: WindowView)
    ensures
        window.session.scaling.source is None ==> window.confirm_scale_preview() == window,
        window.session.scaling.method == ScaleMethod::SeamCarving && (
        window.session.scaling.source matches Some(source) && (window.session.scaling.target.0
            > source.0 || window.session.scaling.target.1 > source.1)) ==> {
            let after = window.confirm_scale_preview();
            &&& after.session == window.session
            &&& asks_just(window, after, seq![Effect::Notify(Notice::SeamCarvingShrinksOnly)])
        },
{
    reveal(WindowView::confirm_scale_preview);
    if window.session.scaling.source is Some {
        let source = window.session.scaling.source->0;
        if window.session.scaling.method == ScaleMethod::SeamCarving && (
        window.session.scaling.target.0 > source.0 || window.session.scaling.target.1 > source.1) {
            assert(window.confirm_scale_preview().effects =~= window.effects + seq![
                Effect::Notify(Notice::SeamCarvingShrinksOnly),
            ]);
        }
    }
}

/// A size that the controls allow is chosen as it is given, and previewed so.
pub proof fn allowed_sizes_are_chosen(window: WindowView, size: (u32, u32))
    requires
        window.session.scaling.source is Some,
        1 <= size.0 <= window.session.scaling.limits.0,
        1 <= size.1 <= window.session.scaling.limits.1,
    ensures
        ({
            let after = window.set_scale_size(size);
            &&& after.session.scaling.target == size
            &&& after.session.scaling.method == window.session.scaling.method
            &&& Some(size) != window.session.scaling.source ==> after.effects.last()
                == Effect::StartScalePreview {
                generation: after.session.generations.scale_preview,
                width: size.0,
                height: size.1,
                method: window.session.scaling.method,
            }
            &&& after.effects[window.effects.len() as int] == Effect::ShowScaleTarget
            &&& edits_nothing(window, after)
        }),
{
    let chosen = window.with_scaling(Scaling { target: size, ..window.session.scaling });
    assert(window.set_scale_size(size) == chosen.refresh_scale_controls());
    previewing_the_choice(chosen);
    refreshes_are_calm(chosen);
}

proof fn previewing_the_choice(window: WindowView)
    requires
        window.session.scaling.source is Some,
    ensures
        ({
            let after = window.refresh_scale_controls();
            &&& same_choice(after.session.scaling, window.session.scaling)
            &&& after.effects[window.effects.len() as int] == Effect::ShowScaleTarget
            &&& Some(window.session.scaling.target) != window.session.scaling.source
                ==> after.effects.last() == Effect::StartScalePreview {
                generation: after.session.generations.scale_preview,
                width: window.session.scaling.target.0,
                height: window.session.scaling.target.1,
                method: window.session.scaling.method,
            }
        }),
{
    let told = window.emit(Effect::ShowScaleTarget);
    previews_are_of_the_chosen_size(told, window.session.scaling.target);
    previews_keep_the_choice(told, window.session.scaling.target);
    previews_are_calm(told, window.session.scaling.target);
    assert(told.effects[window.effects.len() as int] == Effect::ShowScaleTarget);
}

/// A side that is set is set to the given length where the controls allow it, and
/// to the nearest that they allow where not. The other side stays where the
/// proportions are free.
pub proof fn sides_are_set(window: WindowView, width_changed: bool, length: u32)
    requires
        window.session.scaling.source is Some,
        1 <= window.session.scaling.limits.0,
        1 <= window.session.scaling.limits.1,
    ensures
        ({
            let before = window.session.scaling;
            let after = window.set_scale_side(width_changed, length);
            let set = if width_changed {
                after.session.scaling.target.0
            } else {
                after.session.scaling.target.1
            };
            let other = if width_changed {
                after.session.scaling.target.1
            } else {
                after.session.scaling.target.0
            };
            let other_before = if width_changed {
                before.target.1
            } else {
                before.target.0
            };
            let limit = if width_changed {
                before.limits.0
            } else {
                before.limits.1
            };
            &&& 1 <= length <= limit ==> set == length
            &&& length > limit ==> set == limit
            &&& length == 0 ==> set == 1
            &&& !before.locked ==> other == other_before
            &&& after.session.scaling.method == before.method
            &&& Some(after.session.scaling.target) != before.source ==> after.effects.last()
                == Effect::StartScalePreview {
                generation: after.session.generations.scale_preview,
                width: after.session.scaling.target.0,
                height: after.session.scaling.target.1,
                method: before.method,
            }
        }),
{
    let scaling = window.session.scaling;
    let chosen = Scaling {
        target: if width_changed {
            (within_limit(length, scaling.limits.0), scaling.target.1)
        } else {
            (scaling.target.0, within_limit(length, scaling.limits.1))
        },
        ..scaling
    };
    let followed = window.with_scaling(chosen.with_proportions(width_changed));
    assert(window.set_scale_side(width_changed, length) == followed.refresh_scale_controls());
    previewing_the_choice(followed);
}

/// With the proportions kept, setting the height sets the width that goes with it,
/// as far as the limits allow.
pub proof fn locked_widths_follow_the_height(window: WindowView, source: (u32, u32), length: u32)
    requires
        window.session.scaling.locked,
        window.session.scaling.source == Some(source),
        1 <= length <= window.session.scaling.limits.1,
        1 <= proportional(source.0, source.1, length) <= window.session.scaling.limits.0,
    ensures
        ({
            let after = window.set_scale_side(false, length).session.scaling;
            &&& after.target.1 == length
            &&& after.target.0 == proportional(source.0, source.1, length)
        }),
{
    let scaling = window.session.scaling;
    let chosen = Scaling { target: (scaling.target.0, length), ..scaling };
    let followed = window.with_scaling(chosen.with_proportions(false));
    previewing_the_choice(followed);
}

/// Locking the proportions brings the height to the width; freeing them keeps the
/// size. Neither the unit nor the lock changes anything of a size that keeps its
/// proportions.
pub proof fn locks_and_units_keep_the_size(window: WindowView, source: (u32, u32), unit: ScaleUnit)
    requires
        window.session.scaling.source == Some(source),
    ensures
        ({
            let target = window.session.scaling.target;
            let locked = window.set_scale_lock(true).session.scaling;
            let freed = window.set_scale_lock(false).session.scaling;
            let counted = window.set_scale_unit(unit).session.scaling;
            &&& locked.locked && !freed.locked
            &&& freed.target == target
            &&& locked.target.0 == target.0
            &&& locked.target.1 == within_limit(
                proportional(source.1, source.0, target.0) as u32,
                window.session.scaling.limits.1,
            )
            &&& counted.unit == unit
            &&& counted.target == target
            &&& counted.locked == window.session.scaling.locked
        }),
{
    let scaling = window.session.scaling;
    let locked = Scaling { locked: true, ..scaling }.with_proportions(true);
    refreshing_keeps_the_controls(window.with_scaling(locked));
    refreshing_keeps_the_controls(window.with_scaling(Scaling { locked: false, ..scaling }));
    refreshing_keeps_the_controls(window.with_scaling(Scaling { unit, ..scaling }));
}

proof fn refreshing_keeps_the_controls(window: WindowView)
    ensures
        ({
            let before = window.session.scaling;
            let after = window.refresh_scale_controls().session.scaling;
            &&& after.target == before.target
            &&& after.locked == before.locked
            &&& after.unit == before.unit
        }),
{
    reveal(WindowView::schedule_scale_preview);
    reveal(WindowView::display_scale_preview);
}

/// Another method is chosen as such and previewed with; the size stays where the
/// method allows it and the proportions are free.
pub proof fn methods_are_chosen(window: WindowView, method: ScaleMethod, source: (u32, u32))
    requires
        window.session.scaling.source == Some(source),
    ensures
        ({
            let before = window.session.scaling;
            let after = window.set_scale_method(method);
            &&& after.session.scaling.method == method
            &&& after.session.scaling.limits.0 == method.spec_limit(source.0)
            &&& after.session.scaling.limits.1 == method.spec_limit(source.1)
            &&& after.effects[window.effects.len() as int] == Effect::ShowScaleLimits
            &&& !before.locked && 1 <= before.target.0 <= method.spec_limit(source.0) && 1
                <= before.target.1 <= method.spec_limit(source.1) ==> after.session.scaling.target
                == before.target
            &&& after.session.scaling.target != source ==> after.effects.last()
                == Effect::StartScalePreview {
                generation: after.session.generations.scale_preview,
                width: after.session.scaling.target.0,
                height: after.session.scaling.target.1,
                method,
            }
        }),
{
    let scaling = Scaling { method, ..window.session.scaling };
    let configured = scaling.configured(source, scaling.target);
    let told = window.with_scaling(configured).emit(Effect::ShowScaleLimits);
    let followed = told.with_scaling(configured.with_proportions(true));
    previewing_the_choice(followed);
    refreshes_are_calm(followed);
    assert(followed.effects[window.effects.len() as int] == Effect::ShowScaleLimits);
}

/// Seams are carved out of an image and never into it; the other methods double a
/// length at most, as far as lengths go.
pub proof fn methods_bound_the_size(method: ScaleMethod, length: u32)
    ensures
        ScaleMethod::SeamCarving.spec_limit(length) == length,
        method != ScaleMethod::SeamCarving && 2 * length <= u32::MAX ==> method.spec_limit(length)
            == 2 * length,
        method != ScaleMethod::SeamCarving && 2 * length > u32::MAX ==> method.spec_limit(length)
            == u32::MAX,
        length <= method.spec_limit(length) <= 2 * length,
{
}

/// The slider ends where the sizes do: at the largest width, or at the percentage
/// that leads to the largest size.
pub proof fn sliders_end_at_the_limit(scaling: Scaling, source: (u32, u32))
    requires
        scaling.source == Some(source),
        scaling.limits.0 == scaling.method.spec_limit(source.0),
        1 <= source.0 <= 0x7fff_ffff,
    ensures
        scaling.unit == ScaleUnit::Pixels ==> spec_slider_limit(scaling) == scaling.limits.0,
        scaling.unit == ScaleUnit::Percent ==> length_at_percent(
            source.0,
            (spec_slider_limit(scaling) * 1_000_000) as u64,
        ) == scaling.limits.0,
{
    let width = source.0 as int;
    assert((width * 100_000_000 + 50_000_000) / 100_000_000 == width) by (nonlinear_arith);
    assert((width * 200_000_000 + 50_000_000) / 100_000_000 == 2 * width) by (nonlinear_arith);
}

/// A length at a percentage is right to half a pixel, and never vanishes.
pub proof fn percentages_are_right_to_half_a_pixel(length: u32, millionths: u64)
    requires
        1 <= length,
        10_000 <= millionths,
        1 <= rounded_ratio(length as nat, millionths as nat, 100_000_000) <= u32::MAX,
    ensures
        -100_000_000 <= 2 * (length_at_percent(length, millionths) * 100_000_000 - length
            * millionths) <= 100_000_000,
        1 <= length_at_percent(length, millionths),
{
    let exact = length * millionths;
    let scaled = length_at_percent(length, millionths) as int;
    assert(scaled == (exact + 50_000_000) / 100_000_000);
}

/// The percentage that is told of a length is the nearest whole one.
pub proof fn told_percentages_are_the_nearest(length: u32, whole: u32)
    requires
        1 <= whole,
    ensures
        -whole <= 2 * (percentage(length, whole) * whole - 100 * length) <= whole,
        length == whole ==> percentage(length, whole) == 100,
{
    let numerator = 100 * length as int;
    let divisor = whole as int;
    let quotient = numerator / divisor;
    let rest = numerator % divisor;
    assert(numerator == quotient * divisor + rest && 0 <= rest < divisor) by (nonlinear_arith)
        requires
            divisor >= 1,
            quotient == numerator / divisor,
            rest == numerator % divisor,
    ;
    let told = percentage(length, whole) as int;
    assert((quotient + 1) * divisor == quotient * divisor + divisor) by (nonlinear_arith);
    assert(told == quotient || told == quotient + 1);
    if length == whole {
        assert(quotient == 100) by (nonlinear_arith)
            requires
                divisor >= 1,
                numerator == 100 * divisor,
                quotient == numerator / divisor,
        ;
        assert(rest == 0) by (nonlinear_arith)
            requires
                numerator == quotient * divisor + rest,
                numerator == 100 * divisor,
                quotient == 100,
        ;
    }
}

/// The lists of filters and of methods are in their order, each entry at a place of
/// its own; any other place is that of the bicubic one.
pub proof fn places_lead_to_their_entries(index: u32, aa: GameAssetAa)
    ensures
        spec_resampling_index(Resampling::Nearest) == 0,
        spec_resampling_index(Resampling::Bicubic) == 1,
        spec_resampling_index(Resampling::GameAsset(aa)) == 2,
        spec_resampling_index(Resampling::Lanczos) == 3,
        index < 4 ==> spec_resampling_index(spec_resampling_at(index)) == index,
        index >= 4 ==> spec_resampling_at(index) == Resampling::Bicubic,
        spec_resampling_at(2) matches Resampling::GameAsset(smoothing) && smoothing.percent == 50,
        ScaleMethod::Nearest.spec_index() == 0,
        ScaleMethod::Linear.spec_index() == 1,
        ScaleMethod::Bicubic.spec_index() == 2,
        ScaleMethod::SeamCarving.spec_index() == 3,
        index < 4 ==> ScaleMethod::spec_at(index).spec_index() == index,
        index >= 4 ==> ScaleMethod::spec_at(index) == ScaleMethod::Bicubic,
{
}

} // verus!
