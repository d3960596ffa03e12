//! What follows from changes that others make to the files of a window.

use crate::asking::{asks_for, asks_just, keeps_asking};
use crate::directory::FileFacts;
use crate::effect::{Effect, Notice, SequencePurpose};
use crate::file_state::{merged, no_changes, LocationView, MonitorEvent, PendingView, Timestamp};
use crate::load_laws::loading_starts_afresh;
use crate::loading_laws::loads_are_started;
use crate::window::{FilesView, WindowView};
use vstd::prelude::*;

verus! {

/// What is reported of the current file itself is remembered as what it is: another
/// content, a removal, a move to another place. Each report on the folder has the
/// images listed anew.
pub proof fn reports_on_the_file_are_remembered(
    current: LocationView,
    other: Option<LocationView>,
    pending: PendingView,
)
    ensures
        merged(pending, current, current, other, MonitorEvent::Changed).current_changed,
        merged(pending, current, current, other, MonitorEvent::ChangesDoneHint).current_changed,
        merged(pending, current, current, other, MonitorEvent::Created).current_changed,
        merged(pending, current, current, other, MonitorEvent::MovedIn).current_changed,
        merged(pending, current, current, other, MonitorEvent::Deleted).current_removed,
        merged(pending, current, current, other, MonitorEvent::MovedOut).current_removed,
        merged(pending, current, current, other, MonitorEvent::Moved).current_removed,
        merged(pending, current, current, other, MonitorEvent::Renamed).current_removed,
        merged(pending, current, current, other, MonitorEvent::Moved).current_renamed_to == other,
        merged(pending, current, current, other, MonitorEvent::Renamed).current_renamed_to == other,
        other is Some ==> merged(
            pending,
            current,
            current,
            other,
            MonitorEvent::MovedOut,
        ).current_renamed_to == other,
        merged(pending, current, current, other, MonitorEvent::PreUnmount).current_removed,
        merged(pending, current, current, other, MonitorEvent::Unmounted).current_removed,
{
}

/// A file that is not there any more has not changed, and one that changed is still
/// there: a report of the one is none of the other.
pub proof fn reports_are_kept_apart(
    current: LocationView,
    other: Option<LocationView>,
)
    requires
        other != Some(current),
    ensures
        !merged(no_changes(), current, current, other, MonitorEvent::Changed).current_removed,
        !merged(no_changes(), current, current, other, MonitorEvent::Created).current_removed,
        !merged(no_changes(), current, current, other, MonitorEvent::Deleted).current_changed,
        !merged(no_changes(), current, current, other, MonitorEvent::Renamed).current_changed,
        merged(no_changes(), current, current, other, MonitorEvent::AttributeChanged) == (
        PendingView { refresh_navigation: true, ..no_changes() }),
        merged(no_changes(), current, current, other, MonitorEvent::Other) == (PendingView {
            refresh_navigation: true,
            ..no_changes()
        }),
        !no_changes().refresh_navigation,
        !no_changes().current_changed,
        !no_changes().current_removed,
        no_changes().current_renamed_to is None,
{
}

/// A file that another one is moved onto has changed; a file whose folder is gone is
/// gone.
pub proof fn replaced_files_have_changed(
    pending: PendingView,
    current: LocationView,
    file: LocationView,
)
    ensures
        merged(pending, current, file, Some(current), MonitorEvent::Moved).current_changed,
        merged(pending, current, file, Some(current), MonitorEvent::Renamed).current_changed,
        merged(pending, current, file, Some(current), MonitorEvent::MovedIn).current_changed,
        current.parent() is Some ==> {
            &&& merged(
                pending,
                current,
                current.parent()->0,
                None,
                MonitorEvent::Deleted,
            ).current_removed
            &&& merged(
                pending,
                current,
                current.parent()->0,
                None,
                MonitorEvent::MovedOut,
            ).current_removed
        },
{
}

/// A report is looked into in a moment, once for all that come until then, and only
/// for the folder that it was about.
pub proof fn reports_are_looked_into_once(
    window: WindowView,
    file: LocationView,
    other: Option<LocationView>,
    event: MonitorEvent,
    generation: u64,
)
    ensures
        window.files.current is None ==> window.queue_directory_change(file, other, event)
            == window,
        window.files.current matches Some(current) ==> {
            let after = window.queue_directory_change(file, other, event);
            &&& after.session.flags.directory_scheduled
            &&& after.files.pending_changes == merged(
                window.files.pending_changes,
                current,
                file,
                other,
                event,
            )
            &&& window.session.flags.directory_scheduled ==> after.effects == window.effects
            &&& !window.session.flags.directory_scheduled ==> asks_just(
                window,
                after,
                seq![
                    Effect::ScheduleDirectoryRefresh {
                        generation: window.session.generations.directory,
                    },
                ],
            )
        },
        ({
            let due = window.session.flags.directory_scheduled && generation
                == window.session.generations.directory;
            let after = window.directory_changes_due(generation);
            &&& !due ==> after == window
            &&& due ==> {
                &&& after.files.settling_changes == window.files.pending_changes
                &&& after.files.pending_changes == no_changes()
                &&& !after.session.flags.directory_scheduled
                &&& after.effects == if window.files.current is Some {
                    window.effects.push(Effect::InspectFiles)
                } else {
                    window.effects
                }
            }
        }),
{
    let after = window.queue_directory_change(file, other, event);
    if window.files.current is Some && !window.session.flags.directory_scheduled {
        assert(after.effects =~= window.effects + seq![
            Effect::ScheduleDirectoryRefresh {
                generation: window.session.generations.directory,
            },
        ]);
    }
}

/// A file that was moved is followed to its new place, edits and all: the document
/// has the new path, the title is brought up to date, and the user is told.
pub proof fn moved_files_are_followed(
    window: WindowView,
    target: LocationView,
    facts: FileFacts,
)
    requires
        window.files.current is Some,
        window.files.settling_changes.current_renamed_to == Some(target),
        facts.renamed_regular,
    ensures
        ({
            let after = window.files_inspected(facts);
            &&& after.files.current == Some(target)
            &&& after.session.source_modified == facts.renamed_modified
            &&& after.session.content == window.session.content
            &&& asks_for(window, after, Effect::Notify(Notice::LocationUpdated))
            &&& asks_for(window, after, Effect::UpdateTitle)
            &&& asks_for(window, after, Effect::RememberFolder)
            &&& asks_for(window, after, Effect::SetDocumentPath)
                <==> window.session.content.has_document
            &&& asks_for(window, after, Effect::ReplaceInSequence)
                <==> window.session.flags.explicit_navigation
                && window.session.flags.has_sequence
        }),
{
    let settled = window.with_files(
        FilesView { settling_changes: no_changes(), ..window.files },
    );
    following_a_move(settled, target, facts.renamed_modified);
}

proof fn following_a_move(window: WindowView, target: LocationView, modified: Option<Timestamp>)
    ensures
        ({
            let after = window.follow_rename(target, modified);
            &&& after.files.current == Some(target)
            &&& after.session.source_modified == modified
            &&& after.session.content == window.session.content
            &&& asks_for(window, after, Effect::Notify(Notice::LocationUpdated))
            &&& asks_for(window, after, Effect::UpdateTitle)
            &&& asks_for(window, after, Effect::RememberFolder)
            &&& asks_for(window, after, Effect::SetDocumentPath)
                <==> window.session.content.has_document
            &&& asks_for(window, after, Effect::ReplaceInSequence)
                <==> window.session.flags.explicit_navigation
                && window.session.flags.has_sequence
        }),
{
    reveal(WindowView::follow_rename);
    reveal(WindowView::rebuild_navigation);
    let after = window.follow_rename(target, modified);
    let place = window.effects.len() as int;
    let replaces = window.session.flags.explicit_navigation && window.session.flags.has_sequence;
    let first: int = if replaces {
        1
    } else {
        0
    };
    let second: int = if window.session.content.has_document {
        first + 1
    } else {
        first
    };
    if replaces {
        assert(after.effects[place] == Effect::ReplaceInSequence);
    }
    if window.session.content.has_document {
        assert(after.effects[place + first] == Effect::SetDocumentPath);
    }
    assert(after.effects[place + second] == Effect::RememberFolder);
    assert(after.effects[place + second + 1] == Effect::UpdateTitle);
    assert(after.effects[place + second + 3] == Effect::Notify(Notice::LocationUpdated));
}

/// A file that is gone makes way for another image, unless it has unsaved edits:
/// those stay, and it is told that they can be saved elsewhere.
pub proof fn removed_files_keep_their_edits(window: WindowView, facts: FileFacts)
    requires
        window.files.current is Some,
        window.files.settling_changes.current_renamed_to is None || !facts.renamed_regular,
        window.files.settling_changes.current_removed,
        !facts.current_regular,
    ensures
        ({
            let dirty = window.session.content.has_document && window.session.content.dirty;
            let after = window.files_inspected(facts);
            &&& !dirty ==> asks_just(
                window,
                after,
                seq![
                    Effect::FindReplacement { explicit: window.session.flags.explicit_navigation },
                ],
            )
            &&& dirty ==> {
                &&& after.session.content == window.session.content
                &&& after.files.current == window.files.current
                &&& after.session.flags.external_conflict
                &&& asks_for(window, after, Effect::ShowMissing)
                &&& after.effects.last() == Effect::Notify(Notice::SourceGoneUnsaved)
            }
        }),
{
    let after = window.files_inspected(facts);
    if window.session.unsaved() {
        assert(after.effects[after.effects.len() - 2] == Effect::ShowMissing);
    } else {
        assert(after.effects =~= window.effects + seq![
            Effect::FindReplacement { explicit: window.session.flags.explicit_navigation },
        ]);
    }
}

/// The image that takes the place of one that is gone is loaded and told of, and
/// compared with what was compared before; where there is none, the image stays on
/// the screen as one that is missing.
pub proof fn replacements_are_loaded(window: WindowView, file: LocationView)
    requires
        !(window.session.content.has_document && window.session.content.dirty),
    ensures
        ({
            let after = window.replacement_found(Some(file));
            &&& after.files.current == Some(file)
            &&& after.files.pending_comparison == window.files.comparison
            &&& after.effects.last() == Effect::Notify(Notice::PreviousGone)
            &&& asks_for(
                window,
                after,
                Effect::StartLoad { generation: after.session.generations.load },
            )
        }),
        ({
            let after = window.replacement_found(None);
            &&& after.files.current == window.files.current
            &&& after.session.flags.external_conflict
            &&& asks_for(window, after, Effect::ShowMissing)
            &&& after.effects.last() == Effect::Notify(Notice::CurrentGone)
            &&& asks_for(window, after, Effect::DropSequence)
                <==> !window.session.flags.explicit_navigation
        }),
{
    reloading_loads(window, file, Notice::PreviousGone);
    let missing = window.replacement_found(None);
    assert(missing.effects[missing.effects.len() - 2] == Effect::ShowMissing);
    if !window.session.flags.explicit_navigation {
        assert(missing.effects[window.effects.len() as int] == Effect::DropSequence);
    }
}

proof fn reloading_loads(window: WindowView, file: LocationView, notice: Notice)
    requires
        !(window.session.content.has_document && window.session.content.dirty),
    ensures
        ({
            let after = window.reload_with(file, notice);
            &&& after.files.current == Some(file)
            &&& after.files.pending_comparison == window.files.comparison
            &&& after.effects.last() == Effect::Notify(notice)
            &&& keeps_asking(window, after)
            &&& asks_for(
                window,
                after,
                Effect::StartLoad { generation: after.session.generations.load },
            )
        }),
{
    let kept = window.with_files(
        FilesView { pending_comparison: window.files.comparison, ..window.files },
    );
    loading_starts_afresh(kept, file, true);
    loads_are_started(kept, file, true);
    let loaded = kept.load_with_fit(file, true);
    let after = window.reload_with(file, notice);
    assert(after.effects[loaded.effects.len() - 1] == loaded.effects.last());
}

/// A file that was changed is read again under a number of its own, unless there are
/// edits: those are kept, and told to need another name. A local file with the time
/// that it was read with has not changed.
pub proof fn changed_files_are_read_again(
    window: WindowView,
    file: LocationView,
    facts: FileFacts,
)
    requires
        window.files.current == Some(file),
        window.files.settling_changes.current_renamed_to is None || !facts.renamed_regular,
        window.files.settling_changes.current_changed,
        facts.current_regular,
        !window.files.settling_changes.refresh_navigation,
    ensures
        ({
            let dirty = window.session.content.has_document && window.session.content.dirty;
            let same = file.is_local() && window.session.source_modified == facts.current_modified;
            let after = window.files_inspected(facts);
            &&& !dirty && !same ==> {
                &&& after.session.generations.external_reload
                    != window.session.generations.external_reload
                &&& asks_just(
                    window,
                    after,
                    seq![
                        Effect::StartReload {
                            generation: after.session.generations.external_reload,
                            load: window.session.generations.load,
                        },
                    ],
                )
            }
            &&& !dirty && same ==> after.session == window.session && after.effects
                == window.effects
            &&& dirty ==> {
                &&& after.session.content == window.session.content
                &&& after.session.flags.external_conflict
                &&& asks_just(
                    window,
                    after,
                    seq![Effect::Notify(Notice::SourceChangedUnsaved)],
                )
            }
        }),
{
    let after = window.files_inspected(facts);
    if window.session.unsaved() {
        assert(after.effects =~= window.effects + seq![
            Effect::Notify(Notice::SourceChangedUnsaved),
        ]);
    } else if !(file.is_local() && window.session.source_modified == facts.current_modified) {
        assert(after.effects =~= window.effects + seq![
            Effect::StartReload {
                generation: after.session.generations.external_reload,
                load: window.session.generations.load,
            },
        ]);
    }
}

/// Where the folder of a changed file has other files too, its images are listed anew
/// beside what becomes of the file; one that is read again has them listed by that.
pub proof fn changed_files_have_their_folder_listed(
    window: WindowView,
    file: LocationView,
    facts: FileFacts,
)
    requires
        window.files.current == Some(file),
        window.files.settling_changes.current_renamed_to is None || !facts.renamed_regular,
        !window.files.settling_changes.current_removed || facts.current_regular,
        window.files.settling_changes.current_changed,
        facts.current_regular,
        window.files.settling_changes.refresh_navigation,
        !window.session.flags.explicit_navigation,
    ensures
        ({
            let dirty = window.session.content.has_document && window.session.content.dirty;
            let same = file.is_local() && window.session.source_modified == facts.current_modified;
            let after = window.files_inspected(facts);
            let listing = Effect::BuildSequence {
                generation: after.session.generations.directory,
                purpose: SequencePurpose::Refresh { restart_monitor: false },
            };
            &&& dirty ==> asks_just(
                window,
                after,
                seq![Effect::Notify(Notice::SourceChangedUnsaved), listing],
            )
            &&& !dirty && same ==> asks_just(window, after, seq![listing])
            &&& !dirty && !same ==> after.effects.last() is StartReload
        }),
{
    let after = window.files_inspected(facts);
    let listing = Effect::BuildSequence {
        generation: after.session.generations.directory,
        purpose: SequencePurpose::Refresh { restart_monitor: false },
    };
    if window.session.unsaved() {
        assert(after.effects =~= window.effects + seq![
            Effect::Notify(Notice::SourceChangedUnsaved),
            listing,
        ]);
    } else if file.is_local() && window.session.source_modified == facts.current_modified {
        assert(after.effects =~= window.effects + seq![listing]);
    }
}

/// A folder with other files has its images listed anew, where nothing happened to
/// the current one.
pub proof fn changed_folders_are_listed_anew(window: WindowView, facts: FileFacts)
    requires
        window.files.current is Some,
        window.files.settling_changes.current_renamed_to is None,
        !window.files.settling_changes.current_removed,
        !window.files.settling_changes.current_changed,
        !window.session.flags.explicit_navigation,
    ensures
        ({
            let after = window.files_inspected(facts);
            &&& window.files.settling_changes.refresh_navigation ==> asks_just(
                window,
                after,
                seq![
                    Effect::BuildSequence {
                        generation: after.session.generations.directory,
                        purpose: SequencePurpose::Refresh { restart_monitor: false },
                    },
                ],
            ) && after.session.generations.directory != window.session.generations.directory
            &&& !window.files.settling_changes.refresh_navigation ==> after.effects
                == window.effects
            &&& after.files.current == window.files.current
            &&& after.session.content == window.session.content
            &&& after.files.settling_changes == no_changes()
        }),
{
    let after = window.files_inspected(facts);
    if window.files.settling_changes.refresh_navigation {
        assert(after.effects =~= window.effects + seq![
            Effect::BuildSequence {
                generation: after.session.generations.directory,
                purpose: SequencePurpose::Refresh { restart_monitor: false },
            },
        ]);
    }
}

/// A file that was read again is shown, told of and compared with what was compared
/// before; one that could not be read is told of and the image stays. A file or an
/// image that has been left meanwhile is let be.
pub proof fn files_read_again_are_shown(
    window: WindowView,
    file: LocationView,
    generation: u64,
    load: u64,
)
    requires
        !(window.session.content.has_document && window.session.content.dirty),
        window.files.current == Some(file),
    ensures
        ({
            let wanted = generation == window.session.generations.external_reload && load
                == window.session.generations.load;
            let shown = window.reload_finished(generation, load, file, true);
            let failed = window.reload_finished(generation, load, file, false);
            &&& wanted ==> {
                &&& shown.files.current == Some(file)
                &&& shown.files.pending_comparison == window.files.comparison
                &&& shown.effects[window.effects.len() as int] == Effect::CacheReload
                &&& shown.effects.last() == Effect::Notify(Notice::Reloaded)
                &&& failed.session == window.session
                &&& asks_just(window, failed, seq![Effect::Notify(Notice::ReloadFailed)])
            }
            &&& !wanted ==> shown == window && failed == window
        }),
{
    if generation == window.session.generations.external_reload && load
        == window.session.generations.load {
        let kept = window.emit(Effect::CacheReload);
        reloading_loads(kept, file, Notice::Reloaded);
        assert(kept.effects[window.effects.len() as int] == Effect::CacheReload);
        assert(window.reload_finished(generation, load, file, false).effects =~= window.effects
            + seq![Effect::Notify(Notice::ReloadFailed)]);
    }
}

} // verus!
