//! What loading an image asks for, and what is shown once it is loaded.

use crate::asking::{asks_for, asks_just, keeps_asking, tools_do_not_edit};
use crate::compare::leaving_forgets_the_comparison;
use crate::effect::{Effect, Notice, SequencePurpose};
use crate::file_state::{no_changes, LocationView};
use crate::load::{EditableOutcome, PreviewOutcome};
use crate::load_laws::loading_starts_afresh;
use crate::tool::Tool;
use crate::tool_laws::changing_tools_ends_what_was_begun;
use crate::window::{
    next_generation, Animation, Content, FilesView, Flags, Generations, Session, WindowView,
    ZoomMode,
};
use vstd::prelude::*;

verus! {

/// Whether two states agree on the numbers of the loads and on the way in which the
/// zoom follows the window.
pub open spec fn same_loads(left: Session, right: Session) -> bool {
    &&& left.generations.load == right.generations.load
    &&& left.generations.navigation == right.generations.navigation
    &&& left.generations.directory == right.generations.directory
    &&& left.generations.external_reload == right.generations.external_reload
    &&& left.generations.comparison == right.generations.comparison
    &&& left.generations.export == right.generations.export
    &&& left.zooming.mode == right.zooming.mode
    &&& left.zooming.filter == right.zooming.filter
    &&& left.zooming.fit_on_load == right.zooming.fit_on_load
}

proof fn displays_keep_the_loads(window: WindowView, size: (u32, u32))
    ensures
        same_loads(window.display_scale_preview(size).session, window.session),
{
    reveal(WindowView::display_scale_preview);
}

proof fn previews_keep_the_loads(window: WindowView, target: (u32, u32))
    ensures
        same_loads(window.schedule_scale_preview(target).session, window.session),
{
    reveal(WindowView::schedule_scale_preview);
    assert forall|next: WindowView, size: (u32, u32)|
        same_loads(#[trigger] next.display_scale_preview(size).session, next.session) by {
        displays_keep_the_loads(next, size);
    }
}

proof fn scaling_keeps_the_loads(window: WindowView, active: bool)
    ensures
        same_loads(window.set_scale_preview_active(active).session, window.session),
{
    reveal(WindowView::open_scaling);
    reveal(WindowView::close_scaling);
    assert forall|next: WindowView, target: (u32, u32)|
        same_loads(#[trigger] next.schedule_scale_preview(target).session, next.session) by {
        previews_keep_the_loads(next, target);
    }
}

proof fn leaving_keeps_the_loads(window: WindowView, tool: Tool)
    ensures
        same_loads(window.leave_tool(tool).session, window.session),
{
    reveal(WindowView::leave_tool);
    scaling_keeps_the_loads(window, false);
}

proof fn entering_keeps_the_loads(window: WindowView, tool: Tool)
    ensures
        same_loads(window.enter_tool(tool).session, window.session),
{
    reveal(WindowView::enter_tool);
    scaling_keeps_the_loads(window, true);
}

/// A change of tool leaves the loads and the mode of the zoom alone.
pub proof fn tools_keep_the_loads(window: WindowView, tool: Tool)
    ensures
        same_loads(window.change_tool(tool).session, window.session),
{
    reveal(WindowView::change_tool);
    let tools = window.tools_for(tool);
    let ended = window.end_nudging().cancel_annotation_drag().close_text_editor();
    assert(same_loads(ended.session, window.session));
    leaving_keeps_the_loads(ended, window.session.tools.tool);
    let left = ended.leave_tool(window.session.tools.tool);
    let ready = left.with_tools(tools);
    let settled = if WindowView::keeps_selection(tools) {
        ready
    } else {
        ready.select_annotation(None, None)
    };
    let pressed = settled.emit(Effect::ShowToolButtons(tool));
    entering_keeps_the_loads(pressed, tool);
}

/// What dropping an image asks for.
proof fn images_are_dropped(window: WindowView)
    ensures
        ({
            let after = window.drop_image();
            &&& keeps_asking(window, after)
            &&& window.effects.len() < after.effects.len()
            &&& after.effects[window.effects.len() as int] == Effect::DropImage
            &&& after.effects[window.effects.len() as int + 1] == Effect::ShowAnimationControls(
                false,
            )
            &&& window.effects.len() + 1 < after.effects.len()
            &&& asks_for(window, after, Effect::CloseComparison)
            &&& after.session.generations.load == window.session.generations.load
            &&& after.session.generations.comparison != window.session.generations.comparison
            &&& after.session.generations.navigation == window.session.generations.navigation
            &&& after.session.generations.directory == window.session.generations.directory
            &&& after.session.generations.external_reload
                == window.session.generations.external_reload
            &&& after.session.zooming.fit_on_load == window.session.zooming.fit_on_load
        }),
{
    reveal(WindowView::drop_image);
    let empty = WindowView {
        session: Session {
            content: Content {
                has_document: false,
                rendered: None,
                dirty: false,
                can_undo: false,
                can_redo: false,
                ..window.session.content
            },
            animation: Animation { frames: 0, ..window.session.animation },
            generations: Generations {
                render: next_generation(window.session.generations.render),
                ..window.session.generations
            },
            ..window.session
        },
        ..window
    }.emit(Effect::DropImage).emit(Effect::ShowAnimationControls(false));
    let idle = empty.set_tool(Tool::Idle);
    tools_do_not_edit(empty, Tool::Idle);
    tools_keep_the_loads(empty, empty.requested_tool(Tool::Idle));
    let deselected = idle.select_annotation(None, None);
    let after = window.drop_image();
    assert(after == deselected.exit_compare());
    assert(empty.effects[window.effects.len() as int] == Effect::DropImage);
    assert(keeps_asking(window, empty));
    assert(keeps_asking(idle, deselected));
    assert(idle.effects[window.effects.len() as int] == empty.effects[window.effects.len() as int]);
    assert(idle.effects[window.effects.len() as int + 1] == empty.effects[window.effects.len() as int
        + 1]);
    comparisons_are_closed(deselected);
}

proof fn comparisons_are_closed(window: WindowView)
    ensures
        ({
            let after = window.exit_compare();
            &&& keeps_asking(window, after)
            &&& asks_for(window, after, Effect::CancelComparisonLoad)
            &&& asks_for(window, after, Effect::CloseComparison)
            &&& asks_for(window, after, Effect::UpdateActionStates)
            &&& after.session.generations.comparison != window.session.generations.comparison
            &&& after.session.generations.load == window.session.generations.load
            &&& after.session.generations.navigation == window.session.generations.navigation
            &&& after.session.generations.directory == window.session.generations.directory
            &&& after.session.generations.external_reload
                == window.session.generations.external_reload
            &&& after.session.zooming == window.session.zooming
        }),
{
    reveal(WindowView::exit_compare);
    let after = window.exit_compare();
    let place = window.effects.len() as int;
    assert(after.effects[place] == Effect::CancelComparisonLoad);
    assert(after.effects[place + 1] == Effect::CloseComparison);
    assert(after.effects[after.effects.len() - 2] == Effect::UpdateActionStates);
}

/// A load starts under a number of its own, after everything of the image before is
/// dropped: its comparison, the list of its folder, the watch on it. The new folder
/// is watched and remembered, the time of the file is read, and the canvas is
/// cleared for it. What was on the way to the window before is out of date.
pub proof fn loads_are_started(window: WindowView, file: LocationView, fit: bool)
    requires
        !(window.session.content.has_document && window.session.content.dirty),
    ensures
        ({
            let after = window.load_with_fit(file, fit);
            let generation = after.session.generations.load;
            &&& generation != window.session.generations.load
            &&& after.session.generations.navigation != window.session.generations.navigation
            &&& after.session.generations.external_reload
                != window.session.generations.external_reload
            &&& after.session.generations.directory != window.session.generations.directory
            &&& after.session.generations.comparison != window.session.generations.comparison
            &&& keeps_asking(window, after)
            &&& after.effects.last() == Effect::StartLoad { generation }
            &&& asks_for(window, after, Effect::ReadSourceTime { generation })
            &&& asks_for(window, after, Effect::DropImage)
            &&& asks_for(window, after, Effect::StopDirectoryMonitor)
            &&& asks_for(window, after, Effect::MonitorDirectory)
            &&& asks_for(window, after, Effect::RememberFolder)
            &&& asks_for(window, after, Effect::ClearCanvas)
            &&& asks_for(window, after, Effect::ShowLoading)
            &&& asks_for(window, after, Effect::ShowAnimationControls(false))
            &&& !after.session.flags.subtitle_ready
            &&& !after.session.flags.directory_scheduled
            &&& !after.session.scaling.pending_activation
            &&& after.session.source_modified is None
            &&& after.files.pending_changes == no_changes()
            &&& !window.session.flags.explicit_navigation ==> asks_for(
                window,
                after,
                Effect::DropSequence,
            )
        }),
{
    reveal(WindowView::load_with_fit);
    let begun = window.begin_load(fit);
    let dropped = begun.drop_image();
    let folder = dropped.drop_directory();
    let after = folder.start_load(file);
    images_are_dropped(begun);
    loading_starts_afresh(window, file, fit);
    assert(keeps_asking(window, begun));
    assert(begun.session.generations.load == window.session.generations.load);
    assert(after == window.load_with_fit(file, fit));
    let first = dropped.effects.len() as int;
    assert(keeps_asking(dropped, folder));
    starting_asks_for_the_file(folder, file);
    assert(dropped.session.flags.explicit_navigation == window.session.flags.explicit_navigation)
        by {
        dropping_keeps_the_scope(begun);
    }
    if window.session.flags.explicit_navigation {
        assert(folder.effects[first] == Effect::StopDirectoryMonitor);
        assert(after.effects[first] == folder.effects[first]);
    } else {
        assert(folder.effects[first] == Effect::DropSequence);
        assert(folder.effects[first + 1] == Effect::StopDirectoryMonitor);
        assert(after.effects[first] == folder.effects[first]);
        assert(after.effects[first + 1] == folder.effects[first + 1]);
    }
    assert(!after.session.flags.subtitle_ready && !after.session.flags.directory_scheduled
        && !after.session.scaling.pending_activation && after.session.source_modified is None
        && after.files.pending_changes == no_changes()) by {
        reveal(WindowView::start_load);
    }
    let place = begun.effects.len() as int;
    assert(dropped.effects[place + 1] == Effect::ShowAnimationControls(false));
    assert(folder.effects[place + 1] == dropped.effects[place + 1]);
    assert(after.effects[place + 1] == folder.effects[place + 1]);
    assert(dropped.effects[place] == Effect::DropImage);
    assert(folder.effects[place] == dropped.effects[place]);
    assert(after.effects[place] == folder.effects[place]);
}

proof fn dropping_keeps_the_scope(window: WindowView)
    ensures
        window.drop_image().session.flags.explicit_navigation
            == window.session.flags.explicit_navigation,
{
    reveal(WindowView::drop_image);
    let empty = WindowView {
        session: Session {
            content: Content {
                has_document: false,
                rendered: None,
                dirty: false,
                can_undo: false,
                can_redo: false,
                ..window.session.content
            },
            animation: Animation { frames: 0, ..window.session.animation },
            generations: Generations {
                render: next_generation(window.session.generations.render),
                ..window.session.generations
            },
            ..window.session
        },
        ..window
    }.emit(Effect::DropImage).emit(Effect::ShowAnimationControls(false));
    changing_tools_ends_what_was_begun(empty, empty.requested_tool(Tool::Idle));
    leaving_forgets_the_comparison(empty.set_tool(Tool::Idle).select_annotation(None, None), true);
}

proof fn starting_asks_for_the_file(window: WindowView, file: LocationView)
    ensures
        ({
            let after = window.start_load(file);
            let generation = after.session.generations.load;
            &&& generation != window.session.generations.load
            &&& after.session.generations == (Generations {
                load: generation,
                ..window.session.generations
            })
            &&& after.session.zooming == window.session.zooming
            &&& asks_just(
                window,
                after,
                seq![
                    Effect::MonitorDirectory,
                    Effect::RememberFolder,
                    Effect::ClearCanvas,
                    Effect::ReadSourceTime { generation },
                    Effect::UpdateTitle,
                    Effect::ShowLoading,
                    Effect::ShowViewOnly(false),
                    Effect::UpdateActionStates,
                    Effect::StartLoad { generation },
                ],
            )
            &&& asks_for(window, after, Effect::MonitorDirectory)
            &&& asks_for(window, after, Effect::RememberFolder)
            &&& asks_for(window, after, Effect::ClearCanvas)
            &&& asks_for(window, after, Effect::ReadSourceTime { generation })
            &&& asks_for(window, after, Effect::ShowLoading)
            &&& after.effects.last() == Effect::StartLoad { generation }
            &&& keeps_asking(window, after)
        }),
{
    reveal(WindowView::start_load);
    let after = window.start_load(file);
    let place = window.effects.len() as int;
    let generation = after.session.generations.load;
    assert(after.effects[place] == Effect::MonitorDirectory);
    assert(after.effects[place + 1] == Effect::RememberFolder);
    assert(after.effects[place + 2] == Effect::ClearCanvas);
    assert(after.effects[place + 3] == Effect::ReadSourceTime { generation });
    assert(after.effects[place + 5] == Effect::ShowLoading);
    assert(after.effects =~= window.effects + seq![
        Effect::MonitorDirectory,
        Effect::RememberFolder,
        Effect::ClearCanvas,
        Effect::ReadSourceTime { generation },
        Effect::UpdateTitle,
        Effect::ShowLoading,
        Effect::ShowViewOnly(false),
        Effect::UpdateActionStates,
        Effect::StartLoad { generation },
    ]);
}

/// A file that is opened is fitted, whatever the zoom was. An image that is stepped
/// to is fitted or filled where the window is, and keeps a zoom that was chosen.
pub proof fn loads_follow_the_mode(window: WindowView, file: LocationView)
    requires
        !(window.session.content.has_document && window.session.content.dirty),
    ensures
        window.load_with_fit(file, true).session.zooming.fit_on_load == Some(false),
        window.session.zooming.mode == ZoomMode::Fit ==> window.load_with_fit(
            file,
            false,
        ).session.zooming.fit_on_load == Some(false),
        window.session.zooming.mode == ZoomMode::Fill ==> window.load_with_fit(
            file,
            false,
        ).session.zooming.fit_on_load == Some(true),
        window.session.zooming.mode == ZoomMode::Manual ==> window.load_with_fit(
            file,
            false,
        ).session.zooming.fit_on_load is None,
{
    reveal(WindowView::load_with_fit);
    let forced = window.begin_load(true);
    images_are_dropped(forced);
    starting_asks_for_the_file(forced.drop_image().drop_directory(), file);
    let free = window.begin_load(false);
    images_are_dropped(free);
    starting_asks_for_the_file(free.drop_image().drop_directory(), file);
}

/// A file that the user chose anew has the images of its folder around it, not
/// those that were named before, and is fitted.
pub proof fn chosen_files_bring_their_folder(window: WindowView, file: LocationView)
    requires
        !(window.session.content.has_document && window.session.content.dirty),
    ensures
        ({
            let after = window.load_from_new_scope(file);
            &&& !after.session.flags.explicit_navigation
            &&& !after.session.flags.has_sequence
            &&& after.files.current == Some(file)
            &&& after.session.zooming.fit_on_load == Some(false)
            &&& after.effects[window.effects.len() as int] == Effect::DropSequence
            &&& after.effects.last() == Effect::StartLoad {
                generation: after.session.generations.load,
            }
        }),
{
    reveal(WindowView::load_from_new_scope);
    let scope = WindowView {
        session: Session {
            flags: Flags { explicit_navigation: false, ..window.session.flags },
            ..window.session
        },
        ..window
    }.drop_sequence();
    assert(scope.effects[window.effects.len() as int] == Effect::DropSequence);
    loading_starts_afresh(scope, file, true);
    loads_are_started(scope, file, true);
    loads_follow_the_mode(scope, file);
}

/// A picture that is loaded is shown in its size, fitted or filled where that was
/// to be done, and played where it is animated; the decoding for editing is awaited
/// under the same number.
pub proof fn loaded_pictures_are_shown(window: WindowView, size: (u32, u32), animated: bool)
    ensures
        ({
            let generation = window.session.generations.load;
            let after = window.preview_loaded(
                generation,
                PreviewOutcome::Loaded { size, animated },
            );
            &&& after.session.content.texture == Some(size)
            &&& after.session.content.has_document == window.session.content.has_document
            &&& after.session.flags.subtitle_ready
            &&& after.effects[window.effects.len() as int] == Effect::ShowPreview
            &&& asks_for(window, after, Effect::UpdateActionStates)
            &&& asks_for(window, after, Effect::UpdateSubtitle)
            &&& asks_for(window, after, Effect::StartAnimation { generation }) <==> animated
            &&& after.effects.last() == Effect::AwaitEditable { generation }
            &&& window.session.zooming.fit_on_load matches Some(fill)
                ==> after.session.zooming.pending_fit == Some(fill) && asks_for(
                window,
                after,
                Effect::MeasureViewport,
            )
            &&& window.session.zooming.fit_on_load is None ==> after.session.zooming
                == window.session.zooming && !asks_for(window, after, Effect::MeasureViewport)
        }),
{
    let generation = window.session.generations.load;
    let after = window.preview_loaded(generation, PreviewOutcome::Loaded { size, animated });
    let place = window.effects.len() as int;
    assert(after.effects[place + 1] == Effect::UpdateActionStates);
    if window.session.zooming.fit_on_load is Some {
        assert(after.effects[place + 2] == Effect::MeasureViewport);
        assert(after.effects[place + 3] == Effect::UpdateSubtitle);
        if animated {
            assert(after.effects[place + 4] == Effect::StartAnimation { generation });
        }
    } else {
        assert(after.effects[place + 2] == Effect::UpdateSubtitle);
        if animated {
            assert(after.effects[place + 3] == Effect::StartAnimation { generation });
        }
    }
}

/// A picture that cannot be loaded is told of; nothing is compared with it.
pub proof fn failed_loads_are_told(window: WindowView)
    ensures
        ({
            let after = window.preview_loaded(
                window.session.generations.load,
                PreviewOutcome::Failed,
            );
            &&& after.files.pending_comparison is None
            &&& after.effects[after.effects.len() - 2] == Effect::ShowLoadError
            &&& after.effects.last() == Effect::UpdateActionStates
            &&& !after.session.flags.decode_pending
        }),
{
    let ended = window.decode_ended(false);
    assert(window.finish_editable_decode(false).session.flags == ended.session.flags);
}

/// An image that can only be viewed says so; one that can be edited does not.
pub proof fn view_only_images_say_so(window: WindowView, available: bool)
    ensures
        ({
            let after = window.decode_ended(available);
            &&& !after.session.flags.decode_pending
            &&& !after.session.scaling.pending_activation
            &&& asks_just(
                window,
                after,
                seq![
                    Effect::ShowViewOnly(window.session.content.texture is Some && !available),
                    Effect::UpdateActionStates,
                ],
            )
        }),
{
    assert(window.decode_ended(available).effects =~= window.effects + seq![
        Effect::ShowViewOnly(window.session.content.texture is Some && !available),
        Effect::UpdateActionStates,
    ]);
}

/// A decoded image has a document of its size with nothing to undo and nothing
/// unsaved.
pub proof fn decoded_images_can_be_edited(window: WindowView, size: (u32, u32))
    ensures
        ({
            let after = window.adopt_document(size);
            &&& after.session.content.has_document
            &&& after.session.content.rendered == Some(size)
            &&& !after.session.content.dirty
            &&& !after.session.content.can_undo
            &&& !after.session.content.can_redo
            &&& asks_just(window, after, seq![Effect::AdoptDocument])
            &&& window.editable_loaded(
                window.session.generations.load,
                EditableOutcome::Decoded { size },
            ) == after.finish_load(true)
        }),
{
    assert(window.adopt_document(size).effects =~= window.effects + seq![Effect::AdoptDocument]);
}

/// An image that cannot be edited can still be viewed, and is told of where
/// something failed.
pub proof fn undecoded_images_are_told(window: WindowView, generation: u64)
    ensures
        window.editable_loaded(
            window.session.generations.load,
            EditableOutcome::Unavailable,
        ) == window.finish_load(false),
        window.editable_loaded(window.session.generations.load, EditableOutcome::WorkerFailed)
            == window.emit(Effect::Notify(Notice::EditingWorkerFailed)).finish_load(false),
        window.editable_loaded(generation, EditableOutcome::Unreadable).effects.last()
            == Effect::Notify(Notice::UnreadableForEditing),
{
}

/// Once its image can be edited, a window without a tool rests on the one that
/// selects; a scaling that waited for the pixels begins.
pub proof fn decoded_images_bring_their_tool(window: WindowView, size: (u32, u32))
    requires
        window.session.content.has_document,
        window.session.content.rendered == Some(size),
        !window.session.comparison.active,
    ensures
        !window.session.scaling.pending_activation && window.session.tools.tool == Tool::Idle
            ==> window.finish_editable_decode(true).session.tools.tool == Tool::Select,
        window.session.scaling.pending_activation && window.session.tools.tool == Tool::Scale
            && 1 <= size.0 && 1 <= size.1 ==> window.finish_editable_decode(
            true,
        ).session.scaling.source == Some(size),
        window.session.scaling.pending_activation && window.session.tools.tool != Tool::Scale
            ==> window.finish_editable_decode(true).effects.last() == Effect::ReleaseScaleButton,
{
    let ended = window.decode_ended(true);
    changing_tools_ends_what_was_begun(ended, Tool::Select);
    crate::scaling_laws::scaling_begins_with_the_image(ended, size);
}

/// Once a load is over, the images around the file are listed anew and the folder is
/// watched.
pub proof fn finished_loads_list_the_folder(window: WindowView, available: bool)
    ensures
        ({
            let before = window.finish_editable_decode(available);
            let after = window.finish_load(available);
            &&& before.session.flags.explicit_navigation ==> asks_for(
                before,
                after,
                Effect::MonitorDirectory,
            ) && asks_for(before, after, Effect::PrefetchNeighbors)
            &&& !before.session.flags.explicit_navigation ==> asks_for(
                before,
                after,
                Effect::DropSequence,
            ) && after.effects.last() == Effect::BuildSequence {
                generation: after.session.generations.directory,
                purpose: SequencePurpose::Refresh { restart_monitor: true },
            }
        }),
{
    reveal(WindowView::finish_load);
    reveal(WindowView::rebuild_navigation);
    let before = window.finish_editable_decode(available);
    let after = window.finish_load(available);
    let place = before.effects.len() as int;
    let first: int = if before.files.pending_comparison is Some {
        place + 2
    } else {
        place
    };
    if before.session.flags.explicit_navigation {
        assert(after.effects[first + 1] == Effect::PrefetchNeighbors);
        assert(after.effects[first + 2] == Effect::MonitorDirectory);
    } else {
        assert(after.effects[first] == Effect::DropSequence);
    }
}

/// The file that waited to be compared with a new image is loaded once that is
/// there, and the images around it are listed.
pub proof fn waiting_comparisons_are_loaded(window: WindowView, available: bool, file: LocationView)
    requires
        window.finish_editable_decode(available).files.pending_comparison == Some(file),
    ensures
        ({
            let after = window.finish_load(available);
            &&& after.files.requested_comparison == Some(file)
            &&& after.files.pending_comparison is None
            &&& asks_for(
                window.finish_editable_decode(available),
                after,
                Effect::StartComparisonLoad {
                    generation: after.session.generations.comparison,
                    primary: after.session.generations.load,
                },
            )
        }),
{
    reveal(WindowView::finish_load);
    let finished = window.finish_editable_decode(available);
    let compared = finished.with_files(
        FilesView { pending_comparison: None, ..finished.files },
    ).load_comparison(file);
    rebuilding_keeps_the_comparison(compared);
    let after = window.finish_load(available);
    let place = finished.effects.len() as int + 1;
    assert(compared.effects[place] == Effect::StartComparisonLoad {
        generation: compared.session.generations.comparison,
        primary: compared.session.generations.load,
    });
    assert(after.effects[place] == compared.effects[place]);
}

proof fn rebuilding_keeps_the_comparison(window: WindowView)
    ensures
        ({
            let after = window.rebuild_navigation();
            &&& keeps_asking(window, after)
            &&& after.files == window.files
            &&& after.session.generations.comparison == window.session.generations.comparison
            &&& after.session.generations.load == window.session.generations.load
        }),
{
    reveal(WindowView::rebuild_navigation);
}

/// The time of a file is taken for the load that asked for it, and no other.
pub proof fn times_belong_to_their_load(
    window: WindowView,
    generation: u64,
    modified: Option<crate::file_state::Timestamp>,
)
    ensures
        generation == window.session.generations.load ==> window.source_time_read(
            generation,
            modified,
        ).session.source_modified == modified,
        generation != window.session.generations.load ==> window.source_time_read(
            generation,
            modified,
        ) == window,
{
}

/// Unsaved edits are kept while they are asked about, along with the file that was
/// to be loaded, and that file is loaded once they are given up.
pub proof fn asked_loads_keep_their_file(window: WindowView, file: LocationView, fit: bool)
    requires
        window.session.content.has_document,
        window.session.content.dirty,
    ensures
        ({
            let asked = window.load_with_fit(file, fit);
            &&& asked.files.awaiting_discard == Some(file)
            &&& asked.session.pending_discard == Some(
                crate::window::PendingDiscard::Load { fit },
            )
            &&& asked.discard_confirmed().files.current == Some(file)
            &&& asked.discard_confirmed().effects.last() == Effect::StartLoad {
                generation: asked.discard_confirmed().session.generations.load,
            }
        }),
        ({
            let asked = window.load_from_new_scope(file);
            &&& asked.files.awaiting_discard == Some(file)
            &&& asked.discard_confirmed().files.current == Some(file)
            &&& !asked.discard_confirmed().session.flags.explicit_navigation
        }),
{
    reveal(WindowView::load_with_fit);
    let asked = window.load_with_fit(file, fit);
    let restored = asked.nothing_to_discard().restore_original();
    assert(asked.discard_confirmed() == restored.load_with_fit(file, fit));
    loading_starts_afresh(restored, file, fit);
    loads_are_started(restored, file, fit);
    reveal(WindowView::load_from_new_scope);
    let scoped = window.load_from_new_scope(file);
    let free = scoped.nothing_to_discard().restore_original();
    assert(scoped.discard_confirmed() == free.load_from_new_scope(file));
    chosen_files_bring_their_folder(free, file);
}

} // verus!
