//! What holds of loading images and of going from one to the next.

use crate::compare::leaving_forgets_the_comparison;
use crate::description::spec_display_name;
use crate::effect::Effect;
use crate::file_state::LocationView;
use crate::load::{no_content, EditableOutcome, PreviewOutcome};
use crate::navigation::MatchView;
use crate::tool::Tool;
use crate::tool_laws::changing_tools_ends_what_was_begun;
use crate::window::{
    next_generation, Animation, Content, FilesView, Generations, PendingDiscard, Session,
    WindowView,
};
use vstd::prelude::*;

verus! {

/// Whether a window asks about its unsaved edits, and leaves them and its file
/// alone until it is answered.
pub open spec fn asks_first(before: WindowView, after: WindowView, pending: PendingDiscard) -> bool {
    &&& after.session.content == before.session.content
    &&& after.session.tools == before.session.tools
    &&& after.session.annotations == before.session.annotations
    &&& after.session.generations.load == before.session.generations.load
    &&& after.session.generations.render == before.session.generations.render
    &&& after.session.pending_discard == Some(pending)
    &&& after.files.current == before.files.current
    &&& after.files.comparison == before.files.comparison
    &&& after.effects.last() == Effect::ConfirmDiscard(pending)
}

/// Unsaved edits are never lost unasked: neither another image, wherever it
/// comes from, nor closing the window drops them before the user agrees.
pub proof fn unsaved_edits_are_asked_about(
    window: WindowView,
    file: LocationView,
    fit: bool,
    forward: bool,
)
    requires
        window.session.unsaved(),
    ensures
        asks_first(window, window.load_with_fit(file, fit), PendingDiscard::Load { fit }),
        asks_first(window, window.load_from_new_scope(file), PendingDiscard::LoadFromNewScope),
        asks_first(window, window.navigate(forward), PendingDiscard::Navigate { forward }),
        !window.session.flags.close_approved ==> asks_first(
            window,
            window.close_requested(),
            PendingDiscard::Close,
        ),
{
    reveal(WindowView::load_with_fit);
    reveal(WindowView::load_from_new_scope);
    reveal(WindowView::navigate);
}

/// What is left of an image that is dropped.
proof fn dropping_an_image(window: WindowView)
    ensures
        ({
            let after = window.drop_image();
            &&& after.session.tools.tool == Tool::Idle
            &&& after.session.annotations.selected is None
            &&& window.session.region.selection is None ==> after.session.region.selection is None
            &&& !after.session.comparison.active
            &&& after.session.animation.frames == 0
            &&& after.session.flags.explicit_navigation == window.session.flags.explicit_navigation
            &&& after.session.flags.has_sequence == window.session.flags.has_sequence
            &&& after.session.content.has_neighbors == window.session.content.has_neighbors
            &&& after.session.pending_discard == window.session.pending_discard
            &&& after.files.comparison is None
            &&& after.files.pending_comparison == window.files.pending_comparison
        }),
{
    reveal(WindowView::drop_image);
    let empty = WindowView {
        session: Session {
            content: Content {
                has_document: false,
                rendered: None,
                dirty: false,
                can_undo: false,
                can_redo: false,
                ..window.session.content
            },
            animation: Animation { frames: 0, ..window.session.animation },
            generations: Generations {
                render: next_generation(window.session.generations.render),
                ..window.session.generations
            },
            ..window.session
        },
        ..window
    }.emit(Effect::DropImage).emit(Effect::ShowAnimationControls(false));
    changing_tools_ends_what_was_begun(empty, Tool::Idle);
    let idle = empty.set_tool(Tool::Idle);
    assert(idle.session.tools.tool == Tool::Idle);
    let deselected = idle.select_annotation(None, None);
    leaving_forgets_the_comparison(deselected, true);
    assert(window.drop_image() == deselected.exit_compare());
}

/// A file that is loaded is the current one, and nothing of the image before
/// it stays: no edit, tool, selected annotation or region, no comparison and no
/// frame. The header has its name, and says that it is being loaded.
pub proof fn loading_starts_afresh(window: WindowView, file: LocationView, fit: bool)
    requires
        !window.session.unsaved(),
    ensures
        ({
            let after = window.load_with_fit(file, fit);
            &&& after.files.current == Some(file)
            &&& after.files.comparison is None
            &&& after.files.pending_comparison == window.files.pending_comparison
            &&& after.session.content == no_content(window.session.content.has_neighbors)
            &&& after.session.tools.tool == Tool::Idle
            &&& after.session.annotations.selected is None
            &&& after.session.region.selection is None
            &&& !after.session.comparison.active
            &&& after.session.animation.frames == 0
            &&& after.session.flags.decode_pending
            &&& !after.session.flags.external_conflict
            &&& after.session.flags.explicit_navigation == window.session.flags.explicit_navigation
            &&& after.session.flags.has_sequence == (window.session.flags.has_sequence
                && window.session.flags.explicit_navigation)
            &&& after.title() == Some(spec_display_name(file))
            &&& after.effects.skip(after.effects.len() - 5) == seq![
                Effect::UpdateTitle,
                Effect::ShowLoading,
                Effect::ShowViewOnly(false),
                Effect::UpdateActionStates,
                Effect::StartLoad { generation: after.session.generations.load },
            ]
        }),
{
    reveal(WindowView::load_with_fit);
    reveal(WindowView::start_load);
    dropping_an_image(window.begin_load(fit));
    let after = window.load_with_fit(file, fit);
    assert(after.title()->0 =~= spec_display_name(file));
    assert(after.effects.skip(after.effects.len() - 5) =~= seq![
        Effect::UpdateTitle,
        Effect::ShowLoading,
        Effect::ShowViewOnly(false),
        Effect::UpdateActionStates,
        Effect::StartLoad { generation: after.session.generations.load },
    ]);
}

/// Only the file that was loaded last is shown: what comes back of another
/// load changes nothing. (A file that cannot be read for editing says so
/// whenever it comes to light.)
pub proof fn superseded_loads_are_ignored(
    window: WindowView,
    generation: u64,
    preview: PreviewOutcome,
    editable: EditableOutcome,
)
    requires
        generation != window.session.generations.load,
        editable != EditableOutcome::Unreadable,
    ensures
        window.preview_loaded(generation, preview) == window,
        window.editable_loaded(generation, editable) == window,
        window.source_time_read(generation, None) == window,
{
}

/// A load that was asked about is done once the user gives the edits up, and
/// the images that the user named stay the ones to navigate.
pub proof fn agreed_loads_are_done(window: WindowView, file: LocationView, fit: bool)
    requires
        window.session.unsaved(),
    ensures
        ({
            let after = window.load_with_fit(file, fit).discard_confirmed();
            &&& after.files.current == Some(file)
            &&& after.session.pending_discard is None
            &&& !after.session.unsaved()
            &&& after.session.flags.explicit_navigation == window.session.flags.explicit_navigation
        }),
{
    reveal(WindowView::load_with_fit);
    let asked = window.load_with_fit(file, fit);
    let restored = asked.nothing_to_discard().restore_original();
    assert(asked.discard_confirmed() == restored.load_with_fit(file, fit));
    loading_starts_afresh(restored, file, fit);
    pending_discards_stay(restored, file, fit);
}

/// A load that drops nothing asks nothing.
proof fn pending_discards_stay(window: WindowView, file: LocationView, fit: bool)
    requires
        !window.session.unsaved(),
    ensures
        window.load_with_fit(file, fit).session.pending_discard == window.session.pending_discard,
{
    reveal(WindowView::load_with_fit);
    reveal(WindowView::start_load);
    dropping_an_image(window.begin_load(fit));
}

/// A window whose edits were given up on closing closes without asking again.
pub proof fn agreed_closing_closes(window: WindowView)
    requires
        window.session.unsaved(),
        !window.session.flags.close_approved,
    ensures
        ({
            let agreed = window.close_requested().discard_confirmed();
            &&& agreed.session.flags.close_approved
            &&& agreed.effects.last() == Effect::CloseWindow
            &&& agreed.close_requested() == agreed
        }),
{
}

/// Only the image that was gone to last is compared: the search that an
/// earlier step began changes nothing.
pub proof fn superseded_matches_are_ignored(
    window: WindowView,
    file: LocationView,
    found: MatchView,
)
    ensures
        ({
            let later = window.find_match(file);
            later.match_found(window.session.generations.navigation, found) == later
        }),
{
}

/// A deletion that fails, or that ends when another image is shown, leaves the
/// image and its edits as they are.
pub proof fn failed_deletions_change_nothing(
    window: WindowView,
    generation: u64,
    deleted: bool,
    replacement: Option<LocationView>,
)
    requires
        !deleted || generation != window.session.generations.load || window.files.current
            != window.files.deleting,
    ensures
        ({
            let after = window.deletion_finished(generation, deleted, replacement);
            &&& after.session.content == window.session.content
            &&& after.session.generations == window.session.generations
            &&& after.files == window.files
            &&& !after.session.flags.deletion_running
        }),
{
}

/// Once the file is gone, the image that takes its place is loaded, or the
/// window closes where there is none. Where the user named the images, it is
/// looked for among them, and no other deletion begins before it is found.
pub proof fn deleted_files_are_replaced(window: WindowView, replacement: Option<LocationView>)
    requires
        window.session.flags.deletion_running,
        window.files.current == window.files.deleting,
    ensures
        ({
            let after = window.deletion_finished(
                window.session.generations.load,
                true,
                replacement,
            );
            let settled = if window.session.flags.explicit_navigation {
                after.deleted_removed(replacement)
            } else {
                after
            };
            &&& window.session.flags.explicit_navigation ==> {
                &&& after.session.flags.deletion_running
                &&& after.effects.last() == Effect::RemoveDeleted
            }
            &&& settled == window.restore_original().emit_if(
                window.session.flags.explicit_navigation,
                Effect::RemoveDeleted,
            ).replace_deleted(replacement)
        }),
{
}

/// A file is deleted once: while a deletion runs, no other is begun.
pub proof fn deletions_do_not_overlap(window: WindowView)
    requires
        window.session.flags.deletion_running,
    ensures
        window.delete_current_file() == window,
        window.confirm_delete_current_file().session == window.session,
        window.confirm_delete_current_file().files == window.files,
{
}

/// A file is deleted only once that was agreed to, and it is then the one that
/// was asked about, whatever the window has come to show meanwhile.
pub proof fn deletions_are_agreed_to(window: WindowView, shown: Option<LocationView>)
    requires
        !window.session.flags.export_running,
        !window.session.flags.deletion_running,
        window.files.current is Some,
    ensures
        ({
            let asked = window.confirm_delete_current_file();
            let meanwhile = asked.with_files(FilesView { current: shown, ..asked.files });
            let deleting = meanwhile.delete_current_file();
            &&& asked.effects == window.effects.push(
                Effect::ConfirmDeletion { unsaved: window.session.unsaved() },
            )
            &&& asked.session == window.session
            &&& deleting.files.deleting == window.files.current
            &&& deleting.session.flags.deletion_running
        }),
{
}

} // verus!
