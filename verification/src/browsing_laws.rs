//! What going from image to image asks for, and in which direction.

use crate::actions::Action;
use crate::asking::{asks_for, asks_just, keeps_asking};
use crate::effect::{Effect, Notice, SequencePurpose};
use crate::file_state::LocationView;
use crate::keys::{Key, Modifiers};
use crate::load_laws::loading_starts_afresh;
use crate::loading_laws::loads_are_started;
use crate::navigation::{MatchView, NeighborView};
use crate::tool::Tool;
use crate::window::{PendingDiscard, WindowView};
use vstd::prelude::*;

verus! {

/// With the images known and nothing unsaved, Next looks for the one after the
/// current and Previous for the one before, and neither does anything else.
pub proof fn steps_look_their_own_way(window: WindowView)
    requires
        window.session.flags.has_sequence,
        !(window.session.content.has_document && window.session.content.dirty),
    ensures
        asks_just(
            window,
            window.activate(Action::Next),
            seq![Effect::FindNeighbor { forward: true }],
        ),
        asks_just(
            window,
            window.activate(Action::Previous),
            seq![Effect::FindNeighbor { forward: false }],
        ),
        asks_just(window, window.navigate(true), seq![Effect::FindNeighbor { forward: true }]),
        asks_just(window, window.navigate(false), seq![Effect::FindNeighbor { forward: false }]),
        window.activate(Action::Next).effects != window.activate(Action::Previous).effects,
        window.activate(Action::Next).session == window.session,
        window.activate(Action::Previous).session == window.session,
{
    reveal(WindowView::file_action);
    reveal(WindowView::navigate);
    let next = window.activate(Action::Next);
    let previous = window.activate(Action::Previous);
    assert(next.effects =~= window.effects + seq![Effect::FindNeighbor { forward: true }]);
    assert(previous.effects =~= window.effects + seq![Effect::FindNeighbor { forward: false }]);
    assert(next.effects.last() != previous.effects.last());
}

/// The right arrow does what Next does, and the left one what Previous does; the
/// locks of the keyboard make no difference.
pub proof fn arrows_step_their_own_way(window: WindowView, bare: Modifiers)
    requires
        window.session.tools.tool == Tool::Idle,
        window.session.flags.has_sequence,
        !(window.session.content.has_document && window.session.content.dirty),
        !bare.shift && !bare.control && !bare.alt && !bare.logo && !bare.hyper && !bare.meta,
    ensures
        asks_just(
            window,
            window.navigation_key(Key::Right, bare).0,
            seq![Effect::FindNeighbor { forward: true }],
        ),
        asks_just(
            window,
            window.navigation_key(Key::Left, bare).0,
            seq![Effect::FindNeighbor { forward: false }],
        ),
{
    steps_look_their_own_way(window);
}

/// Where the images are not known yet, they are listed first, under a number of
/// their own and for the way that is gone; without a file there is nowhere to go.
pub proof fn unknown_images_are_listed_first(window: WindowView, forward: bool)
    requires
        !window.session.flags.has_sequence,
        !(window.session.content.has_document && window.session.content.dirty),
    ensures
        ({
            let after = window.navigate(forward);
            let generation = after.session.generations.directory;
            &&& window.files.current is None ==> after == window
            &&& window.files.current is Some ==> {
                &&& generation != window.session.generations.directory
                &&& asks_just(
                    window,
                    after,
                    seq![
                        Effect::BuildSequence {
                            generation,
                            purpose: SequencePurpose::Navigate { forward },
                        },
                    ],
                )
            }
        }),
{
    reveal(WindowView::navigate);
    let after = window.navigate(forward);
    if window.files.current is Some {
        assert(after.effects =~= window.effects + seq![
            Effect::BuildSequence {
                generation: after.session.generations.directory,
                purpose: SequencePurpose::Navigate { forward },
            },
        ]);
    }
}

/// Once the images are listed, the way goes on as it was begun. A list that failed,
/// or one of another folder, leads nowhere.
pub proof fn listed_images_are_stepped_through(window: WindowView, listed: bool, forward: bool)
    requires
        !(window.session.content.has_document && window.session.content.dirty),
    ensures
        ({
            let after = window.sequence_listed(
                window.session.generations.directory,
                true,
                forward,
            );
            &&& after.session.flags.has_sequence
            &&& asks_just(
                window,
                after,
                seq![Effect::UpdateActionStates, Effect::FindNeighbor { forward }],
            )
        }),
        window.sequence_listed(window.session.generations.directory, false, forward) == window,
        forall|generation: u64|
            generation != window.session.generations.directory
                ==> #[trigger] window.sequence_listed(generation, listed, forward) == window,
{
    reveal(WindowView::navigate);
    let after = window.sequence_listed(window.session.generations.directory, true, forward);
    assert(after.effects =~= window.effects + seq![
        Effect::UpdateActionStates,
        Effect::FindNeighbor { forward },
    ]);
}

/// A list of the folder is taken for the file that it was made for, and no other;
/// the folder is watched anew where that was asked for.
pub proof fn fresh_lists_are_taken(
    window: WindowView,
    expected: LocationView,
    restart_monitor: bool,
)
    requires
        window.files.current == Some(expected),
    ensures
        ({
            let generation = window.session.generations.directory;
            let taken = window.sequence_refreshed(generation, expected, true, restart_monitor);
            let failed = window.sequence_refreshed(generation, expected, false, restart_monitor);
            &&& taken.session.flags.has_sequence
            &&& asks_for(window, taken, Effect::PrefetchNeighbors)
            &&& asks_for(window, taken, Effect::UpdateActionStates)
            &&& asks_for(window, taken, Effect::MonitorDirectory) <==> restart_monitor
            &&& failed.session == window.session
            &&& failed.effects == if restart_monitor {
                window.effects.push(Effect::MonitorDirectory)
            } else {
                window.effects
            }
            &&& forall|other: LocationView|
                other != expected ==> #[trigger] window.sequence_refreshed(
                    generation,
                    other,
                    true,
                    restart_monitor,
                ) == window
            &&& forall|stale: u64|
                stale != generation ==> #[trigger] window.sequence_refreshed(
                    stale,
                    expected,
                    true,
                    restart_monitor,
                ) == window
        }),
{
    let generation = window.session.generations.directory;
    let taken = window.sequence_refreshed(generation, expected, true, restart_monitor);
    let place = window.effects.len() as int;
    assert(taken.effects[place] == Effect::PrefetchNeighbors);
    assert(taken.effects[place + 1] == Effect::UpdateActionStates);
    if restart_monitor {
        assert(taken.effects[place + 2] == Effect::MonitorDirectory);
    }
}

/// Unsaved edits are asked about before any step, and once they are given up the
/// step goes on the way that it was begun.
pub proof fn agreed_steps_go_on(window: WindowView, forward: bool)
    requires
        window.session.content.has_document,
        window.session.content.dirty,
        window.session.flags.has_sequence,
    ensures
        ({
            let asked = window.navigate(forward);
            let agreed = asked.discard_confirmed();
            &&& asks_just(
                window,
                asked,
                seq![Effect::ConfirmDiscard(PendingDiscard::Navigate { forward })],
            )
            &&& asks_just(
                asked,
                agreed,
                seq![Effect::RestoreOriginal, Effect::FindNeighbor { forward }],
            )
            &&& !agreed.session.content.dirty
            &&& agreed.session.pending_discard is None
        }),
{
    reveal(WindowView::navigate);
    let asked = window.navigate(forward);
    assert(asked.effects =~= window.effects + seq![
        Effect::ConfirmDiscard(PendingDiscard::Navigate { forward }),
    ]);
    assert(asked.discard_confirmed().effects =~= asked.effects + seq![
        Effect::RestoreOriginal,
        Effect::FindNeighbor { forward },
    ]);
}

/// The image that is found is gone to: loaded, or first matched with a file to
/// compare it with, where one is compared. Where there is none, nothing happens.
pub proof fn found_images_are_gone_to(window: WindowView, forward: bool, file: LocationView)
    requires
        !(window.session.content.has_document && window.session.content.dirty),
    ensures
        window.neighbor_found(forward, NeighborView::Nowhere) == window,
        window.files.comparison is None ==> {
            let after = window.neighbor_found(forward, NeighborView::Found(file));
            &&& after.files.current == Some(file)
            &&& after.effects.last() == Effect::StartLoad {
                generation: after.session.generations.load,
            }
            &&& after == window.emit(Effect::AdvanceSequence).load_with_fit(file, false)
        },
        window.files.comparison is Some ==> {
            let after = window.neighbor_found(forward, NeighborView::Found(file));
            let generation = after.session.generations.navigation;
            &&& after.files.current == window.files.current
            &&& after.files.pending_navigation == Some(file)
            &&& after.files.matched_against == window.files.comparison
            &&& generation != window.session.generations.navigation
            &&& asks_just(
                window,
                after,
                seq![Effect::AdvanceSequence, Effect::FindMatch { generation }],
            )
        },
{
    let after = window.neighbor_found(forward, NeighborView::Found(file));
    if window.files.comparison is None {
        let advanced = window.emit(Effect::AdvanceSequence);
        loading_starts_afresh(advanced, file, false);
        loads_are_started(advanced, file, false);
    } else {
        assert(after.effects =~= window.effects + seq![
            Effect::AdvanceSequence,
            Effect::FindMatch { generation: after.session.generations.navigation },
        ]);
    }
}

/// Once a match is looked for, the image is loaded: compared with the match, alone
/// where there is none, and with the same file as before where the search broke.
pub proof fn matched_images_are_loaded(window: WindowView, file: LocationView, other: LocationView)
    requires
        !(window.session.content.has_document && window.session.content.dirty),
        window.files.pending_navigation == Some(file),
    ensures
        ({
            let generation = window.session.generations.navigation;
            let found = window.match_found(generation, MatchView::Found(other));
            let nothing = window.match_found(generation, MatchView::Nothing);
            let broken = window.match_found(generation, MatchView::WorkerFailed);
            &&& found.files.current == Some(file)
            &&& nothing.files.current == Some(file)
            &&& broken.files.current == Some(file)
            &&& found.files.pending_comparison == Some(other)
            &&& nothing.files.pending_comparison is None
            &&& broken.files.pending_comparison == window.files.matched_against
        }),
{
    let files = window.files;
    loading_starts_afresh(
        window.with_files(
            crate::window::FilesView { pending_comparison: Some(other), ..files },
        ),
        file,
        false,
    );
    loading_starts_afresh(
        window.with_files(crate::window::FilesView { pending_comparison: None, ..files }),
        file,
        false,
    );
    loading_starts_afresh(
        window.with_files(
            crate::window::FilesView { pending_comparison: files.matched_against, ..files },
        ),
        file,
        false,
    );
}

/// An image that has vanished is passed over among those that the user named, and
/// the way goes on as it was begun. In a folder, the folder is listed anew.
pub proof fn vanished_images_are_passed_over(
    window: WindowView,
    forward: bool,
    file: LocationView,
)
    requires
        !(window.session.content.has_document && window.session.content.dirty),
        window.session.flags.has_sequence,
        window.files.current is Some,
    ensures
        window.session.flags.explicit_navigation ==> {
            let after = window.neighbor_found(forward, NeighborView::Gone(file));
            &&& after.files.vanished == Some(file)
            &&& asks_just(
                window,
                after,
                seq![
                    Effect::RemoveNeighbor,
                    Effect::PrefetchNeighbors,
                    Effect::Notify(Notice::RemovedFromOpened),
                    Effect::FindNeighbor { forward },
                ],
            )
        },
        !window.session.flags.explicit_navigation ==> {
            let after = window.neighbor_found(forward, NeighborView::Gone(file));
            let generation = after.session.generations.directory;
            &&& generation != window.session.generations.directory
            &&& asks_just(
                window,
                after,
                seq![
                    Effect::BuildSequence {
                        generation,
                        purpose: SequencePurpose::Refresh { restart_monitor: false },
                    },
                    Effect::Notify(Notice::FolderRefreshed),
                ],
            )
        },
{
    reveal(WindowView::navigate);
    let after = window.neighbor_found(forward, NeighborView::Gone(file));
    if window.session.flags.explicit_navigation {
        assert(after.effects =~= window.effects + seq![
            Effect::RemoveNeighbor,
            Effect::PrefetchNeighbors,
            Effect::Notify(Notice::RemovedFromOpened),
            Effect::FindNeighbor { forward },
        ]);
    } else {
        assert(after.effects =~= window.effects + seq![
            Effect::BuildSequence {
                generation: after.session.generations.directory,
                purpose: SequencePurpose::Refresh { restart_monitor: false },
            },
            Effect::Notify(Notice::FolderRefreshed),
        ]);
    }
}

/// The images that the user named stay when their folder is looked at again; those
/// of a folder are listed anew, under a number of their own, and the folder is
/// watched anew.
pub proof fn folders_are_listed_anew(window: WindowView, restart_monitor: bool)
    ensures
        window.session.flags.explicit_navigation ==> {
            let rebuilt = window.rebuild_navigation();
            &&& window.refresh_navigation(restart_monitor).session == window.session
            &&& rebuilt.session == window.session
            &&& asks_just(
                window,
                rebuilt,
                seq![
                    Effect::StopDirectoryMonitor,
                    Effect::PrefetchNeighbors,
                    Effect::MonitorDirectory,
                    Effect::UpdateActionStates,
                ],
            )
        },
        !window.session.flags.explicit_navigation ==> {
            let refreshed = window.refresh_navigation(restart_monitor);
            let rebuilt = window.rebuild_navigation();
            &&& refreshed.session.generations.directory != window.session.generations.directory
            &&& refreshed.effects.last() == Effect::BuildSequence {
                generation: refreshed.session.generations.directory,
                purpose: SequencePurpose::Refresh { restart_monitor },
            }
            &&& !rebuilt.session.flags.has_sequence
            &&& asks_just(
                window,
                rebuilt,
                seq![
                    Effect::DropSequence,
                    Effect::StopDirectoryMonitor,
                    Effect::PrefetchNeighbors,
                    Effect::BuildSequence {
                        generation: rebuilt.session.generations.directory,
                        purpose: SequencePurpose::Refresh { restart_monitor: true },
                    },
                ],
            )
        },
{
    reveal(WindowView::rebuild_navigation);
    let rebuilt = window.rebuild_navigation();
    if window.session.flags.explicit_navigation {
        assert(rebuilt.effects =~= window.effects + seq![
            Effect::StopDirectoryMonitor,
            Effect::PrefetchNeighbors,
            Effect::MonitorDirectory,
            Effect::UpdateActionStates,
        ]);
    } else {
        assert(rebuilt.effects =~= window.effects + seq![
            Effect::DropSequence,
            Effect::StopDirectoryMonitor,
            Effect::PrefetchNeighbors,
            Effect::BuildSequence {
                generation: rebuilt.session.generations.directory,
                purpose: SequencePurpose::Refresh { restart_monitor: true },
            },
        ]);
    }
}

/// A file is deleted once that is agreed to, under the number of its load and with
/// the word whether the user named the images; the folder is not watched meanwhile.
/// The question tells whether edits go with it. An export, another deletion and the
/// lack of a file are reasons to refuse.
pub proof fn deletions_name_what_is_deleted(window: WindowView)
    ensures
        ({
            let asked = window.activate(Action::DeleteFile);
            let flags = window.session.flags;
            let dirty = window.session.content.has_document && window.session.content.dirty;
            &&& flags.export_running ==> asks_just(
                window,
                asked,
                seq![Effect::Notify(Notice::WaitForExport)],
            )
            &&& !flags.export_running && flags.deletion_running ==> asks_just(
                window,
                asked,
                seq![Effect::Notify(Notice::DeletionRunning)],
            )
            &&& !flags.export_running && !flags.deletion_running && window.files.current is None
                ==> asks_just(window, asked, seq![Effect::Notify(Notice::NoImage)])
            &&& !flags.export_running && !flags.deletion_running && window.files.current is Some
                ==> asks_just(window, asked, seq![Effect::ConfirmDeletion { unsaved: dirty }])
                && asked.files.deleting == window.files.current
        }),
        !window.session.flags.deletion_running && window.files.deleting is Some ==> {
            let deleting = window.delete_current_file();
            &&& deleting.session.flags.deletion_running
            &&& asks_just(
                window,
                deleting,
                seq![
                    Effect::StopDirectoryMonitor,
                    Effect::DeleteFile {
                        generation: window.session.generations.load,
                        explicit: window.session.flags.explicit_navigation,
                    },
                ],
            )
        },
{
    reveal(WindowView::file_action);
    let asked = window.activate(Action::DeleteFile);
    let flags = window.session.flags;
    if flags.export_running {
        assert(asked.effects =~= window.effects + seq![Effect::Notify(Notice::WaitForExport)]);
    } else if flags.deletion_running {
        assert(asked.effects =~= window.effects + seq![Effect::Notify(Notice::DeletionRunning)]);
    } else if window.files.current is None {
        assert(asked.effects =~= window.effects + seq![Effect::Notify(Notice::NoImage)]);
    } else {
        assert(asked.effects =~= window.effects + seq![
            Effect::ConfirmDeletion {
                unsaved: window.session.content.has_document && window.session.content.dirty,
            },
        ]);
    }
    if !flags.deletion_running && window.files.deleting is Some {
        assert(window.delete_current_file().effects =~= window.effects + seq![
            Effect::StopDirectoryMonitor,
            Effect::DeleteFile {
                generation: window.session.generations.load,
                explicit: window.session.flags.explicit_navigation,
            },
        ]);
    }
}

/// A deleted image is told of and makes way for the next one, which is fitted; where
/// there is none, the window closes.
pub proof fn deleted_images_make_way(window: WindowView, replacement: LocationView)
    requires
        window.session.flags.deletion_running,
        !window.session.flags.explicit_navigation,
        window.files.current == window.files.deleting,
    ensures
        ({
            let generation = window.session.generations.load;
            let replaced = window.deletion_finished(generation, true, Some(replacement));
            let closed = window.deletion_finished(generation, true, None);
            &&& replaced.files.current == Some(replacement)
            &&& replaced.effects.last() == Effect::StartLoad {
                generation: replaced.session.generations.load,
            }
            &&& asks_just(
                window,
                closed,
                seq![
                    Effect::RestoreOriginal,
                    Effect::Notify(Notice::ImageDeleted),
                    Effect::CloseWindow,
                ],
            )
            &&& closed.session.flags.close_approved
            &&& !closed.session.flags.deletion_running
        }),
{
    let told = window.restore_original().with_flags(
        crate::window::Flags { deletion_running: false, ..window.session.flags },
    ).emit(Effect::Notify(Notice::ImageDeleted));
    loading_starts_afresh(told, replacement, true);
    let generation = window.session.generations.load;
    let replaced = window.deletion_finished(generation, true, Some(replacement));
    assert(replaced == told.load_with_fit(replacement, true));
    loads_are_started(told, replacement, true);
    assert(window.deletion_finished(generation, true, None).effects =~= window.effects + seq![
        Effect::RestoreOriginal,
        Effect::Notify(Notice::ImageDeleted),
        Effect::CloseWindow,
    ]);
}

/// Among images that the user named, the deleted one is taken out first, and the one
/// that takes its place is shown then; where there is none, the window closes.
pub proof fn deleted_images_are_taken_out(window: WindowView, replacement: LocationView)
    requires
        window.session.flags.deletion_running,
        window.session.flags.explicit_navigation,
        window.files.current == window.files.deleting,
    ensures
        ({
            let deleted = window.deletion_finished(window.session.generations.load, true, None);
            let replaced = deleted.deleted_removed(Some(replacement));
            let closed = deleted.deleted_removed(None);
            &&& asks_just(window, deleted, seq![Effect::RestoreOriginal, Effect::RemoveDeleted])
            &&& !deleted.session.content.dirty
            &&& replaced.files.current == Some(replacement)
            &&& !closed.session.flags.deletion_running
            &&& asks_just(
                deleted,
                closed,
                seq![Effect::Notify(Notice::ImageDeleted), Effect::CloseWindow],
            )
        }),
        window.session.flags.deletion_running ==> {
            let ended = window.with_flags(
                crate::window::Flags { deletion_running: false, ..window.session.flags },
            );
            ended.deleted_removed(Some(replacement)) == ended
        },
{
    let deleted = window.deletion_finished(window.session.generations.load, true, None);
    assert(deleted.effects =~= window.effects + seq![
        Effect::RestoreOriginal,
        Effect::RemoveDeleted,
    ]);
    let told = deleted.with_flags(
        crate::window::Flags { deletion_running: false, ..deleted.session.flags },
    ).emit(Effect::Notify(Notice::ImageDeleted));
    loading_starts_afresh(told, replacement, true);
    assert(deleted.deleted_removed(None).effects =~= deleted.effects + seq![
        Effect::Notify(Notice::ImageDeleted),
        Effect::CloseWindow,
    ]);
}

/// A deletion that ends when another image is shown leaves that image, and has its
/// folder watched again.
pub proof fn late_deletions_leave_the_image(
    window: WindowView,
    generation: u64,
    replacement: Option<LocationView>,
)
    requires
        generation != window.session.generations.load || window.files.current
            != window.files.deleting,
    ensures
        asks_just(
            window,
            window.deletion_finished(generation, true, replacement),
            seq![Effect::MonitorDirectory],
        ),
{
    assert(window.deletion_finished(generation, true, replacement).effects =~= window.effects
        + seq![Effect::MonitorDirectory]);
}

/// A deletion that fails is told of, and the folder is watched again.
pub proof fn failed_deletions_are_told(window: WindowView, generation: u64)
    ensures
        asks_just(
            window,
            window.deletion_finished(generation, false, None),
            seq![Effect::Notify(Notice::DeletionFailed), Effect::MonitorDirectory],
        ),
{
    assert(window.deletion_finished(generation, false, None).effects =~= window.effects + seq![
        Effect::Notify(Notice::DeletionFailed),
        Effect::MonitorDirectory,
    ]);
}

/// A window closes at once where nothing is unsaved, or where that was agreed to,
/// and asks first otherwise.
pub proof fn closing_asks_first(window: WindowView)
    ensures
        ({
            let dirty = window.session.content.has_document && window.session.content.dirty;
            let asked = window.close_requested();
            &&& !dirty || window.session.flags.close_approved ==> asked == window
            &&& dirty && !window.session.flags.close_approved ==> asks_just(
                window,
                asked,
                seq![Effect::ConfirmDiscard(PendingDiscard::Close)],
            ) && asked.session.pending_discard == Some(PendingDiscard::Close)
        }),
        asks_just(window, window.activate(Action::Close), seq![Effect::CloseWindow]),
{
    reveal(WindowView::file_action);
    assert(window.activate(Action::Close).effects =~= window.effects + seq![Effect::CloseWindow]);
    if window.session.unsaved() && !window.session.flags.close_approved {
        assert(window.close_requested().effects =~= window.effects + seq![
            Effect::ConfirmDiscard(PendingDiscard::Close),
        ]);
    }
}

/// Nothing that was asked for is lost on the way to another image.
pub proof fn steps_keep_what_was_asked_for(window: WindowView, forward: bool)
    ensures
        keeps_asking(window, window.navigate(forward)),
{
    reveal(WindowView::navigate);
}

} // verus!
