//! What happens to the file behind the window's back, and what follows.

use crate::effect::{Effect, Notice};
use crate::file_state::{
    files_equal, merge_directory_change, merged, no_changes, place, source_revision_changed,
    FileLocation, LocationView, MonitorEvent, PendingDirectoryChanges, Timestamp,
};
use crate::window::{
    following_generation, next_generation, FilesView, Flags, Generations, Session, ViewerWindow,
    WindowView,
};
use vstd::prelude::*;

verus! {

/// What is found at the places of the files that a report was about.
#[derive(Debug, Clone, Copy, PartialEq, Eq)]
pub struct FileFacts {
    /// Whether there is a regular file where the current one was.
    pub current_regular: bool,
    pub current_modified: Option<Timestamp>,
    /// Whether there is a regular file where the current one was moved to.
    pub renamed_regular: bool,
    pub renamed_modified: Option<Timestamp>,
}

/// The file that a reported place is, where there is one.
pub open spec fn reported_file(other_file: Option<&FileLocation>) -> Option<LocationView> {
    match other_file {
        Some(other) => Some(other@),
        None => None,
    }
}

impl WindowView {
    /// The window with a report on its folder kept in mind.
    pub open spec fn queue_directory_change(
        self,
        file: LocationView,
        other_file: Option<LocationView>,
        event: MonitorEvent,
    ) -> WindowView {
        match self.files.current {
            None => self,
            Some(current) => self.with_files(
                FilesView {
                    pending_changes: merged(
                        self.files.pending_changes,
                        current,
                        file,
                        other_file,
                        event,
                    ),
                    ..self.files
                },
            ).with_flags(
                Flags { directory_scheduled: true, ..self.session.flags },
            ).emit_if(
                !self.session.flags.directory_scheduled,
                Effect::ScheduleDirectoryRefresh {
                    generation: self.session.generations.directory,
                },
            ),
        }
    }

    /// The window once the reports on its folder are due to be looked into.
    pub open spec fn directory_changes_due(self, generation: u64) -> WindowView {
        if generation != self.session.generations.directory
            || !self.session.flags.directory_scheduled {
            self
        } else {
            self.with_files(
                FilesView {
                    pending_changes: no_changes(),
                    settling_changes: self.files.pending_changes,
                    ..self.files
                },
            ).with_flags(
                Flags { directory_scheduled: false, ..self.session.flags },
            ).emit_if(self.files.current is Some, Effect::InspectFiles)
        }
    }

    /// The window with its file at another place.
    #[verifier::opaque]
    pub open spec fn follow_rename(
        self,
        target: LocationView,
        modified: Option<Timestamp>,
    ) -> WindowView {
        let placed = WindowView {
            session: Session { source_modified: modified, ..self.session },
            files: FilesView { current: Some(target), ..self.files },
            ..self
        };
        placed.emit_if(
            self.session.flags.explicit_navigation && self.session.flags.has_sequence,
            Effect::ReplaceInSequence,
        ).emit_if(self.session.content.has_document, Effect::SetDocumentPath).emit(
            Effect::RememberFolder,
        ).emit(Effect::UpdateTitle).emit(Effect::UpdateSubtitle).emit(
            Effect::Notify(Notice::LocationUpdated),
        ).rebuild_navigation()
    }

    /// The window whose file is gone, with nothing to show in its place.
    pub open spec fn settle_removal(self) -> WindowView {
        let unsaved = self.session.unsaved();
        let forgotten = if self.session.flags.explicit_navigation {
            self
        } else {
            self.drop_sequence()
        };
        forgotten.with_flags(
            Flags { external_conflict: true, ..forgotten.session.flags },
        ).emit(Effect::PrefetchNeighbors).emit(Effect::ShowMissing).emit(
            Effect::Notify(
                if unsaved {
                    Notice::SourceGoneUnsaved
                } else {
                    Notice::CurrentGone
                },
            ),
        )
    }

    /// The window whose file has other contents than the one that it read.
    pub open spec fn follow_change(
        self,
        refresh: bool,
        modified: Option<Timestamp>,
        local: bool,
    ) -> WindowView {
        if self.session.unsaved() {
            self.with_flags(Flags { external_conflict: true, ..self.session.flags }).emit(
                Effect::Notify(Notice::SourceChangedUnsaved),
            ).follow_folder(refresh)
        } else if local ==> self.session.source_modified != modified {
            self.start_reload()
        } else {
            self.follow_folder(refresh)
        }
    }

    /// The window whose folder has other files.
    pub open spec fn follow_folder(self, refresh: bool) -> WindowView {
        if refresh {
            self.refresh_navigation(false)
        } else {
            self
        }
    }

    /// The window with its file being read again.
    pub open spec fn start_reload(self) -> WindowView {
        let generation = next_generation(self.session.generations.external_reload);
        WindowView {
            session: Session {
                generations: Generations {
                    external_reload: generation,
                    ..self.session.generations
                },
                ..self.session
            },
            ..self
        }.emit(Effect::StartReload { generation, load: self.session.generations.load })
    }

    /// The window once it is known what is at the places of its files: moved,
    /// gone or changed, in this order of precedence.
    pub open spec fn files_inspected(self, facts: FileFacts) -> WindowView {
        let changes = self.files.settling_changes;
        let settled = self.with_files(
            FilesView { settling_changes: no_changes(), ..self.files },
        );
        if self.files.current is None {
            settled
        } else if changes.current_renamed_to is Some && facts.renamed_regular {
            settled.follow_rename(changes.current_renamed_to->0, facts.renamed_modified)
        } else if changes.current_removed && !facts.current_regular {
            if self.session.unsaved() {
                settled.settle_removal()
            } else {
                settled.emit(
                    Effect::FindReplacement { explicit: self.session.flags.explicit_navigation },
                )
            }
        } else if changes.current_changed && facts.current_regular {
            settled.follow_change(
                changes.refresh_navigation,
                facts.current_modified,
                self.files.current->0.is_local(),
            )
        } else {
            settled.follow_folder(changes.refresh_navigation)
        }
    }

    /// The window with the image that takes the place of its own, compared
    /// with the same file as before.
    pub open spec fn reload_with(self, file: LocationView, notice: Notice) -> WindowView {
        self.with_files(
            FilesView { pending_comparison: self.files.comparison, ..self.files },
        ).load_with_fit(file, true).emit(Effect::Notify(notice))
    }

    /// The window after the search for an image in place of one that is gone.
    pub open spec fn replacement_found(self, replacement: Option<LocationView>) -> WindowView {
        match replacement {
            Some(file) => self.reload_with(file, Notice::PreviousGone),
            None => self.settle_removal(),
        }
    }

    /// The window after its changed file was read again.
    pub open spec fn reload_finished(
        self,
        generation: u64,
        load: u64,
        file: LocationView,
        loaded: bool,
    ) -> WindowView {
        if generation != self.session.generations.external_reload || load
            != self.session.generations.load || self.files.current != Some(file) {
            self
        } else if loaded {
            self.emit(Effect::CacheReload).reload_with(file, Notice::Reloaded)
        } else {
            self.emit(Effect::Notify(Notice::ReloadFailed))
        }
    }
}

impl ViewerWindow {
    /// Keeps a report on the folder in mind, and looks into all of them in a
    /// moment.
    pub fn queue_directory_change(
        &mut self,
        file: &FileLocation,
        other_file: Option<&FileLocation>,
        event: MonitorEvent,
    )
        ensures
            final(self)@ == old(self)@.queue_directory_change(
                file@,
                reported_file(other_file),
                event,
            ),
    {
        let current = match &self.files.current {
            None => {
                return;
            },
            Some(current) => current.clone(),
        };
        merge_directory_change(
            &mut self.files.pending_changes,
            &current,
            file,
            other_file,
            event,
        );
        let scheduled = self.session.flags.directory_scheduled;
        self.session.flags = Flags { directory_scheduled: true, ..self.session.flags };
        if !scheduled {
            self.emit(
                Effect::ScheduleDirectoryRefresh {
                    generation: self.session.generations.directory,
                },
            );
        }
    }

    /// Looks into the reports on the folder, unless another folder is meant by
    /// now.
    pub fn directory_changes_due(&mut self, generation: u64)
        ensures
            final(self)@ == old(self)@.directory_changes_due(generation),
    {
        if generation != self.session.generations.directory
            || !self.session.flags.directory_scheduled {
            return;
        }
        self.session.flags = Flags { directory_scheduled: false, ..self.session.flags };
        let mut changes = PendingDirectoryChanges::default();
        std::mem::swap(&mut changes, &mut self.files.pending_changes);
        self.files.settling_changes = changes;
        if self.files.current.is_some() {
            self.emit(Effect::InspectFiles);
        }
    }

    fn follow_rename(&mut self, target: FileLocation, modified: Option<Timestamp>)
        ensures
            final(self)@ == old(self)@.follow_rename(target@, modified),
    {
        proof {
            reveal(WindowView::follow_rename);
        }
        self.session = Session { source_modified: modified, ..self.session };
        self.files.current = Some(target);
        if self.session.flags.explicit_navigation && self.session.flags.has_sequence {
            self.emit(Effect::ReplaceInSequence);
        }
        if self.session.content.has_document {
            self.emit(Effect::SetDocumentPath);
        }
        self.emit(Effect::RememberFolder);
        self.emit(Effect::UpdateTitle);
        self.emit(Effect::UpdateSubtitle);
        self.emit(Effect::Notify(Notice::LocationUpdated));
        self.rebuild_navigation();
    }

    fn settle_removal(&mut self)
        ensures
            final(self)@ == old(self)@.settle_removal(),
    {
        let unsaved = self.unsaved();
        if !self.session.flags.explicit_navigation {
            self.session.flags = Flags { has_sequence: false, ..self.session.flags };
            self.emit(Effect::DropSequence);
        }
        self.session.flags = Flags { external_conflict: true, ..self.session.flags };
        self.emit(Effect::PrefetchNeighbors);
        self.emit(Effect::ShowMissing);
        self.emit(
            Effect::Notify(
                if unsaved {
                    Notice::SourceGoneUnsaved
                } else {
                    Notice::CurrentGone
                },
            ),
        );
    }

    fn follow_folder(&mut self, refresh: bool)
        ensures
            final(self)@ == old(self)@.follow_folder(refresh),
    {
        if refresh {
            self.refresh_navigation(false);
        }
    }

    fn start_reload(&mut self)
        ensures
            final(self)@ == old(self)@.start_reload(),
    {
        let generation: u64 = following_generation(self.session.generations.external_reload);
        self.session.generations = Generations {
            external_reload: generation,
            ..self.session.generations
        };
        self.emit(Effect::StartReload { generation, load: self.session.generations.load });
    }

    fn follow_change(&mut self, refresh: bool, modified: Option<Timestamp>, local: bool)
        ensures
            final(self)@ == old(self)@.follow_change(refresh, modified, local),
    {
        if self.unsaved() {
            self.session.flags = Flags { external_conflict: true, ..self.session.flags };
            self.emit(Effect::Notify(Notice::SourceChangedUnsaved));
            self.follow_folder(refresh);
        } else if source_revision_changed(self.session.source_modified, modified, local) {
            self.start_reload();
        } else {
            self.follow_folder(refresh);
        }
    }

    /// Follows a file that was moved, looks for another image where it is gone
    /// and reads it again where it changed. Unsaved edits stay, whatever
    /// happened to the file.
    pub fn files_inspected(&mut self, facts: FileFacts)
        ensures
            final(self)@ == old(self)@.files_inspected(facts),
    {
        let mut changes = PendingDirectoryChanges::default();
        std::mem::swap(&mut changes, &mut self.files.settling_changes);
        let local = match &self.files.current {
            None => {
                return;
            },
            Some(current) => current.is_local(),
        };
        if let Some(target) = changes.current_renamed_to {
            if facts.renamed_regular {
                self.follow_rename(target, facts.renamed_modified);
                return;
            }
        }
        if changes.current_removed && !facts.current_regular {
            if self.unsaved() {
                self.settle_removal();
            } else {
                self.emit(
                    Effect::FindReplacement { explicit: self.session.flags.explicit_navigation },
                );
            }
        } else if changes.current_changed && facts.current_regular {
            self.follow_change(changes.refresh_navigation, facts.current_modified, local);
        } else {
            self.follow_folder(changes.refresh_navigation);
        }
    }

    fn reload_with(&mut self, file: FileLocation, notice: Notice)
        ensures
            final(self)@ == old(self)@.reload_with(file@, notice),
    {
        self.files.pending_comparison = match &self.files.comparison {
            Some(comparison) => Some(comparison.clone()),
            None => None,
        };
        self.load_with_fit(file, true);
        self.emit(Effect::Notify(notice));
    }

    /// Shows the image that takes the place of one that is gone, or says that
    /// it is gone.
    pub fn replacement_found(&mut self, replacement: Option<FileLocation>)
        ensures
            final(self)@ == old(self)@.replacement_found(place(replacement)),
    {
        match replacement {
            Some(file) => self.reload_with(file, Notice::PreviousGone),
            None => self.settle_removal(),
        }
    }

    /// Shows the file as it is now, unless another one was loaded since.
    pub fn reload_finished(&mut self, generation: u64, load: u64, file: FileLocation, loaded: bool)
        ensures
            final(self)@ == old(self)@.reload_finished(generation, load, file@, loaded),
    {
        let expected = Some(file.clone());
        if generation != self.session.generations.external_reload || load
            != self.session.generations.load || !files_equal(&self.files.current, &expected) {
            return;
        }
        if loaded {
            self.emit(Effect::CacheReload);
            self.reload_with(file, Notice::Reloaded);
        } else {
            self.emit(Effect::Notify(Notice::ReloadFailed));
        }
    }
}

/// Whether two states show the same image in the same way.
pub open spec fn same_image(left: Session, right: Session) -> bool {
    &&& left.content == right.content
    &&& left.tools == right.tools
    &&& left.annotations == right.annotations
    &&& left.region == right.region
    &&& left.generations.load == right.generations.load
    &&& left.generations.render == right.generations.render
}

proof fn rebuilding_keeps_the_image(window: WindowView)
    ensures
        same_image(window.rebuild_navigation().session, window.session),
        window.rebuild_navigation().session.source_modified == window.session.source_modified,
        window.rebuild_navigation().files == window.files,
{
    reveal(WindowView::rebuild_navigation);
}

proof fn renames_keep_the_image(
    window: WindowView,
    target: LocationView,
    modified: Option<Timestamp>,
)
    ensures
        same_image(window.follow_rename(target, modified).session, window.session),
        window.follow_rename(target, modified).session.source_modified == modified,
        window.follow_rename(target, modified).files.current == Some(target),
{
    reveal(WindowView::follow_rename);
    let placed = WindowView {
        session: Session { source_modified: modified, ..window.session },
        files: FilesView { current: Some(target), ..window.files },
        ..window
    };
    let told = placed.emit_if(
        window.session.flags.explicit_navigation && window.session.flags.has_sequence,
        Effect::ReplaceInSequence,
    ).emit_if(window.session.content.has_document, Effect::SetDocumentPath).emit(
        Effect::RememberFolder,
    ).emit(Effect::UpdateTitle).emit(Effect::UpdateSubtitle).emit(Effect::Notify(Notice::LocationUpdated));
    rebuilding_keeps_the_image(told);
}

/// Whatever happens to the file, unsaved edits stay, and neither the image nor
/// its tools are touched.
pub proof fn outside_changes_keep_unsaved_edits(window: WindowView, facts: FileFacts)
    requires
        window.session.unsaved(),
    ensures
        ({
            let after = window.files_inspected(facts);
            &&& after.session.unsaved()
            &&& same_image(after.session, window.session)
        }),
{
    let changes = window.files.settling_changes;
    let settled = window.with_files(
        FilesView { settling_changes: no_changes(), ..window.files },
    );
    if changes.current_renamed_to is Some {
        renames_keep_the_image(settled, changes.current_renamed_to->0, facts.renamed_modified);
    }
}

/// A file that changed or went under unsaved edits is marked, so that it is not
/// written over unasked.
pub proof fn conflicts_are_remembered(window: WindowView, facts: FileFacts)
    requires
        window.session.unsaved(),
        window.files.current is Some,
        window.files.settling_changes.current_renamed_to is None || !facts.renamed_regular,
        (window.files.settling_changes.current_removed && !facts.current_regular)
            || (window.files.settling_changes.current_changed && facts.current_regular),
    ensures
        window.files_inspected(facts).session.flags.external_conflict,
{
}

/// A file that was moved is followed: the window is about its new place.
pub proof fn renamed_files_are_followed(
    window: WindowView,
    facts: FileFacts,
    target: LocationView,
)
    requires
        window.files.current is Some,
        window.files.settling_changes.current_renamed_to == Some(target),
        facts.renamed_regular,
    ensures
        ({
            let after = window.files_inspected(facts);
            &&& after.files.current == Some(target)
            &&& after.session.source_modified == facts.renamed_modified
            &&& same_image(after.session, window.session)
        }),
{
    let settled = window.with_files(
        FilesView { settling_changes: no_changes(), ..window.files },
    );
    renames_keep_the_image(settled, target, facts.renamed_modified);
}

/// However many reports come, the folder is looked at once for all of them.
pub proof fn reports_are_gathered(
    window: WindowView,
    file: LocationView,
    other_file: Option<LocationView>,
    event: MonitorEvent,
)
    requires
        window.session.flags.directory_scheduled,
    ensures
        window.queue_directory_change(file, other_file, event).effects == window.effects,
{
}

/// A file that is read again because it changed keeps the file that it is
/// compared with.
pub proof fn reloads_keep_the_comparison(window: WindowView, file: LocationView)
    requires
        !window.session.unsaved(),
        window.files.current == Some(file),
    ensures
        ({
            let after = window.reload_finished(
                window.session.generations.external_reload,
                window.session.generations.load,
                file,
                true,
            );
            &&& after.files.current == Some(file)
            &&& after.files.pending_comparison == window.files.comparison
        }),
{
    let kept = window.emit(Effect::CacheReload).with_files(
        FilesView { pending_comparison: window.files.comparison, ..window.files },
    );
    crate::load_laws::loading_starts_afresh(kept, file, true);
}

/// A window without unsaved edits whose file is gone goes on to the image that
/// takes its place, and is compared with the same file as before.
pub proof fn vanished_images_are_replaced(
    window: WindowView,
    facts: FileFacts,
    replacement: LocationView,
)
    requires
        window.files.current is Some,
        window.files.settling_changes.current_removed,
        !(window.files.settling_changes.current_renamed_to is Some && facts.renamed_regular),
        !facts.current_regular,
        !window.session.unsaved(),
    ensures
        ({
            let asked = window.files_inspected(facts);
            let shown = asked.replacement_found(Some(replacement));
            &&& asked.session == window.session
            &&& asked.effects == window.effects.push(
                Effect::FindReplacement { explicit: window.session.flags.explicit_navigation },
            )
            &&& shown.files.current == Some(replacement)
            &&& shown.files.pending_comparison == window.files.comparison
            &&& shown.effects.last() == Effect::Notify(Notice::PreviousGone)
        }),
{
    let asked = window.files_inspected(facts);
    let kept = asked.with_files(
        FilesView { pending_comparison: asked.files.comparison, ..asked.files },
    );
    crate::load_laws::loading_starts_afresh(kept, replacement, true);
}

} // verus!
