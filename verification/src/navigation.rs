//! Going from image to image, deleting them, and leaving the window.

use crate::effect::{Effect, Notice, SequencePurpose};
use crate::file_state::{files_equal, place, FileLocation, LocationView};
use crate::window::{
    following_generation, next_generation, Content, FilesView, Flags, Generations,
    PendingDiscard, Session, ViewerWindow, WindowView,
};
use vstd::prelude::*;

verus! {

/// What the search for the next image found.
#[derive(Debug)]
pub enum Neighbor {
    /// The current image is the only one.
    Nowhere,
    /// An image that is no longer on disk.
    Gone(FileLocation),
    Found(FileLocation),
}

/// What the search for the next image found, as a value.
pub ghost enum NeighborView {
    Nowhere,
    Gone(LocationView),
    Found(LocationView),
}

impl View for Neighbor {
    type V = NeighborView;

    open spec fn view(&self) -> NeighborView {
        match self {
            Neighbor::Nowhere => NeighborView::Nowhere,
            Neighbor::Gone(file) => NeighborView::Gone(file@),
            Neighbor::Found(file) => NeighborView::Found(file@),
        }
    }
}

/// What the search for the file to compare the next image with found.
#[derive(Debug)]
pub enum Match {
    Found(FileLocation),
    /// No file goes with the next image.
    Nothing,
    /// The search itself failed.
    WorkerFailed,
}

/// What that search found, as a value.
pub ghost enum MatchView {
    Found(LocationView),
    Nothing,
    WorkerFailed,
}

impl View for Match {
    type V = MatchView;

    open spec fn view(&self) -> MatchView {
        match self {
            Match::Found(file) => MatchView::Found(file@),
            Match::Nothing => MatchView::Nothing,
            Match::WorkerFailed => MatchView::WorkerFailed,
        }
    }
}

/// How a deletion goes on.
#[derive(Debug)]
pub enum DeletionStep {
    /// List the folder first: the image to show then is not known yet.
    ListFolder,
    /// Delete the file, and show this image then.
    Delete(Option<FileLocation>),
}

/// Whether the folder is listed before a file is deleted. `known` tells whether the
/// image to show then is.
pub open spec fn lists_first(explicit: bool, known: bool) -> bool {
    !explicit && !known
}

/// How a deletion goes on. `explicit` tells whether the user named the images
/// to navigate, `known` is the one to show then, as far as they are listed.
pub fn deletion_step(explicit: bool, known: Option<FileLocation>) -> (step: DeletionStep)
    ensures
        match step {
            DeletionStep::ListFolder => !explicit && known is None,
            DeletionStep::Delete(replacement) => (explicit || known is Some) && replacement
                == known,
        },
        step is ListFolder == lists_first(explicit, known is Some),
{
    if explicit || known.is_some() {
        DeletionStep::Delete(known)
    } else {
        DeletionStep::ListFolder
    }
}

impl WindowView {
    pub open spec fn with_flags(self, flags: Flags) -> WindowView {
        WindowView { session: Session { flags, ..self.session }, ..self }
    }

    /// The window with the images to navigate known.
    pub open spec fn keep_sequence(self) -> WindowView {
        self.with_flags(Flags { has_sequence: true, ..self.session.flags })
    }

    /// The window after its images to navigate were listed, for the file that
    /// was `expected` to be shown.
    pub open spec fn sequence_refreshed(
        self,
        generation: u64,
        expected: LocationView,
        listed: bool,
        restart_monitor: bool,
    ) -> WindowView {
        if generation != self.session.generations.directory || self.files.current
            != Some(expected) {
            self
        } else {
            let taken = if listed {
                self.keep_sequence().emit(Effect::PrefetchNeighbors).emit(
                    Effect::UpdateActionStates,
                )
            } else {
                self
            };
            taken.emit_if(restart_monitor, Effect::MonitorDirectory)
        }
    }

    /// The window on the way to another image.
    #[verifier::opaque]
    pub open spec fn navigate(self, forward: bool) -> WindowView {
        if self.session.unsaved() {
            self.ask_to_discard(PendingDiscard::Navigate { forward }, None)
        } else if self.session.flags.has_sequence {
            self.emit(Effect::FindNeighbor { forward })
        } else if self.files.current is None {
            self
        } else {
            let renewed = self.renew_directory();
            renewed.emit(
                Effect::BuildSequence {
                    generation: renewed.session.generations.directory,
                    purpose: SequencePurpose::Navigate { forward },
                },
            )
        }
    }

    /// The window after its images were listed on the way to another one.
    pub open spec fn sequence_listed(
        self,
        generation: u64,
        listed: bool,
        forward: bool,
    ) -> WindowView {
        if generation != self.session.generations.directory || !listed {
            self
        } else {
            self.keep_sequence().emit(Effect::UpdateActionStates).navigate(forward)
        }
    }

    /// The window on the way to an image, with a file to compare it with still
    /// to be found.
    pub open spec fn find_match(self, file: LocationView) -> WindowView {
        let generation = next_generation(self.session.generations.navigation);
        WindowView {
            session: Session {
                generations: Generations { navigation: generation, ..self.session.generations },
                ..self.session
            },
            files: FilesView {
                pending_navigation: Some(file),
                matched_against: self.files.comparison,
                ..self.files
            },
            ..self
        }.emit(Effect::FindMatch { generation })
    }

    /// The window with an image out of those to navigate that has vanished.
    pub open spec fn pass_over(self, file: LocationView) -> WindowView {
        self.with_files(FilesView { vanished: Some(file), ..self.files }).emit(
            Effect::RemoveNeighbor,
        ).emit(Effect::PrefetchNeighbors).emit(Effect::Notify(Notice::RemovedFromOpened))
    }

    /// The window after the search for the next image.
    pub open spec fn neighbor_found(self, forward: bool, neighbor: NeighborView) -> WindowView {
        match neighbor {
            NeighborView::Nowhere => self,
            NeighborView::Gone(file) => if self.session.flags.explicit_navigation {
                self.pass_over(file).navigate(forward)
            } else {
                let refreshed = if self.files.current is Some {
                    self.refresh_navigation(false)
                } else {
                    self
                };
                refreshed.emit(Effect::Notify(Notice::FolderRefreshed))
            },
            NeighborView::Found(file) => {
                let advanced = self.emit(Effect::AdvanceSequence);
                if self.files.comparison is Some {
                    advanced.find_match(file)
                } else {
                    advanced.load_with_fit(file, false)
                }
            },
        }
    }

    /// The window after the search for the file to compare with.
    pub open spec fn match_found(self, generation: u64, found: MatchView) -> WindowView {
        if generation != self.session.generations.navigation || self.files.pending_navigation
            is None {
            self
        } else {
            self.with_files(
                FilesView {
                    pending_comparison: match found {
                        MatchView::Found(file) => Some(file),
                        MatchView::Nothing => None,
                        MatchView::WorkerFailed => self.files.matched_against,
                    },
                    ..self.files
                },
            ).load_with_fit(self.files.pending_navigation->0, false)
        }
    }

    /// The window that asks whether its file is to be deleted, or says why
    /// not.
    pub open spec fn confirm_delete_current_file(self) -> WindowView {
        if self.session.flags.export_running {
            self.emit(Effect::Notify(Notice::WaitForExport))
        } else if self.session.flags.deletion_running {
            self.emit(Effect::Notify(Notice::DeletionRunning))
        } else if self.files.current is None {
            self.emit(Effect::Notify(Notice::NoImage))
        } else {
            self.with_files(
                FilesView { deleting: self.files.current, ..self.files },
            ).emit(Effect::ConfirmDeletion { unsaved: self.session.unsaved() })
        }
    }

    /// The window with its file being deleted.
    pub open spec fn delete_current_file(self) -> WindowView {
        if self.session.flags.deletion_running || self.files.deleting is None {
            self
        } else {
            self.with_flags(Flags { deletion_running: true, ..self.session.flags }).emit(
                Effect::StopDirectoryMonitor,
            ).emit(
                Effect::DeleteFile {
                    generation: self.session.generations.load,
                    explicit: self.session.flags.explicit_navigation,
                },
            )
        }
    }

    /// The window with its unsaved edits gone.
    pub open spec fn restore_original(self) -> WindowView {
        self.observe(Content { dirty: false, ..self.session.content }).emit(
            Effect::RestoreOriginal,
        )
    }

    /// The window that closes whatever is unsaved.
    pub open spec fn close(self) -> WindowView {
        self.with_flags(Flags { close_approved: true, ..self.session.flags }).emit(
            Effect::CloseWindow,
        )
    }

    /// The window after a deletion: on to the next image, or to the search for
    /// it among those that the user named. `replacement` is the one of the
    /// folder.
    pub open spec fn deletion_finished(
        self,
        generation: u64,
        deleted: bool,
        replacement: Option<LocationView>,
    ) -> WindowView {
        let ended = self.with_flags(Flags { deletion_running: false, ..self.session.flags });
        if !deleted {
            ended.emit(Effect::Notify(Notice::DeletionFailed)).emit(Effect::MonitorDirectory)
        } else if generation != self.session.generations.load || self.files.current
            != self.files.deleting {
            ended.emit(Effect::MonitorDirectory)
        } else {
            if self.session.flags.explicit_navigation {
                self.restore_original().emit(Effect::RemoveDeleted)
            } else {
                self.restore_original().replace_deleted(replacement)
            }
        }
    }

    /// The window whose file was deleted: on to the next image, or closing.
    pub open spec fn replace_deleted(self, replacement: Option<LocationView>) -> WindowView {
        let told = self.with_flags(
            Flags { deletion_running: false, ..self.session.flags },
        ).emit(Effect::Notify(Notice::ImageDeleted));
        match replacement {
            Some(file) => told.load_with_fit(file, true),
            None => told.close(),
        }
    }

    /// The window after the deleted file was taken out of the images that the
    /// user named.
    pub open spec fn deleted_removed(self, replacement: Option<LocationView>) -> WindowView {
        if self.session.flags.deletion_running {
            self.replace_deleted(replacement)
        } else {
            self
        }
    }

    /// The window after a request to close it.
    pub open spec fn close_requested(self) -> WindowView {
        if self.session.flags.close_approved || !self.session.unsaved() {
            self
        } else {
            self.ask_to_discard(PendingDiscard::Close, None)
        }
    }

    /// The window with nothing waiting for its edits to be discarded.
    pub open spec fn nothing_to_discard(self) -> WindowView {
        WindowView {
            session: Session { pending_discard: None, ..self.session },
            files: FilesView { awaiting_discard: None, ..self.files },
            ..self
        }
    }

    /// The window after its edits were given up for something.
    pub open spec fn discard_confirmed(self) -> WindowView {
        let settled = self.nothing_to_discard();
        match self.session.pending_discard {
            None => self,
            Some(PendingDiscard::Close) => settled.close(),
            Some(PendingDiscard::Navigate { forward }) => settled.restore_original().navigate(
                forward,
            ),
            Some(PendingDiscard::Load { fit }) => match self.files.awaiting_discard {
                Some(file) => settled.restore_original().load_with_fit(file, fit),
                None => settled,
            },
            Some(PendingDiscard::LoadFromNewScope) => match self.files.awaiting_discard {
                Some(file) => settled.restore_original().load_from_new_scope(file),
                None => settled,
            },
        }
    }
}

impl ViewerWindow {
    fn keep_sequence(&mut self)
        ensures
            final(self)@ == old(self)@.keep_sequence(),
    {
        self.session.flags = Flags { has_sequence: true, ..self.session.flags };
    }

    /// Takes the list of images to navigate, unless the folder or the file is
    /// no longer the one that it was made for.
    pub fn sequence_refreshed(
        &mut self,
        generation: u64,
        expected: FileLocation,
        listed: bool,
        restart_monitor: bool,
    )
        ensures
            final(self)@ == old(self)@.sequence_refreshed(
                generation,
                expected@,
                listed,
                restart_monitor,
            ),
    {
        if generation != self.session.generations.directory || !files_equal(
            &self.files.current,
            &Some(expected),
        ) {
            return;
        }
        if listed {
            self.keep_sequence();
            self.emit(Effect::PrefetchNeighbors);
            self.emit(Effect::UpdateActionStates);
        }
        if restart_monitor {
            self.emit(Effect::MonitorDirectory);
        }
    }

    /// Goes to the next image, or the previous one. Unsaved edits are asked
    /// about first.
    pub fn navigate(&mut self, forward: bool)
        ensures
            final(self)@ == old(self)@.navigate(forward),
    {
        proof {
            reveal(WindowView::navigate);
        }
        if self.unsaved() {
            self.ask_to_discard(PendingDiscard::Navigate { forward }, None);
            return;
        }
        if self.session.flags.has_sequence {
            self.emit(Effect::FindNeighbor { forward });
            return;
        }
        if self.files.current.is_none() {
            return;
        }
        let directory: u64 = following_generation(self.session.generations.directory);
        self.session.generations = Generations { directory, ..self.session.generations };
        self.emit(
            Effect::BuildSequence {
                generation: directory,
                purpose: SequencePurpose::Navigate { forward },
            },
        );
    }

    /// Goes on to another image once the images are listed.
    pub fn sequence_listed(&mut self, generation: u64, listed: bool, forward: bool)
        ensures
            final(self)@ == old(self)@.sequence_listed(generation, listed, forward),
    {
        if generation != self.session.generations.directory || !listed {
            return;
        }
        self.keep_sequence();
        self.emit(Effect::UpdateActionStates);
        self.navigate(forward);
    }

    fn find_match(&mut self, file: FileLocation)
        ensures
            final(self)@ == old(self)@.find_match(file@),
    {
        let generation: u64 = following_generation(self.session.generations.navigation);
        self.session.generations = Generations {
            navigation: generation,
            ..self.session.generations
        };
        self.files.pending_navigation = Some(file);
        self.files.matched_against = match &self.files.comparison {
            Some(comparison) => Some(comparison.clone()),
            None => None,
        };
        self.emit(Effect::FindMatch { generation });
    }

    /// Loads the image that was found. One that is gone is passed over where
    /// the user named the images, and has the folder listed anew elsewhere.
    pub fn neighbor_found(&mut self, forward: bool, neighbor: Neighbor)
        ensures
            final(self)@ == old(self)@.neighbor_found(forward, neighbor@),
    {
        match neighbor {
            Neighbor::Nowhere => {},
            Neighbor::Gone(file) => {
                if self.session.flags.explicit_navigation {
                    self.files.vanished = Some(file);
                    self.emit(Effect::RemoveNeighbor);
                    self.emit(Effect::PrefetchNeighbors);
                    self.emit(Effect::Notify(Notice::RemovedFromOpened));
                    self.navigate(forward);
                    return;
                }
                if self.files.current.is_some() {
                    self.refresh_navigation(false);
                }
                self.emit(Effect::Notify(Notice::FolderRefreshed));
            },
            Neighbor::Found(file) => {
                self.emit(Effect::AdvanceSequence);
                if self.files.comparison.is_some() {
                    self.find_match(file);
                } else {
                    self.load_with_fit(file, false);
                }
            },
        }
    }

    /// Loads the image that was found, and compares it with the file that goes
    /// with it, unless another image was asked for since.
    pub fn match_found(&mut self, generation: u64, found: Match)
        ensures
            final(self)@ == old(self)@.match_found(generation, found@),
    {
        if generation != self.session.generations.navigation {
            return;
        }
        let file = match &self.files.pending_navigation {
            None => {
                return;
            },
            Some(file) => file.clone(),
        };
        self.files.pending_comparison = match found {
            Match::Found(comparison) => Some(comparison),
            Match::Nothing => None,
            Match::WorkerFailed => match &self.files.matched_against {
                Some(comparison) => Some(comparison.clone()),
                None => None,
            },
        };
        self.load_with_fit(file, false);
    }

    /// Asks whether the file is to be deleted, unless it is being written or
    /// deleted already.
    pub fn confirm_delete_current_file(&mut self)
        ensures
            final(self)@ == old(self)@.confirm_delete_current_file(),
    {
        if self.session.flags.export_running {
            self.emit(Effect::Notify(Notice::WaitForExport));
            return;
        }
        if self.session.flags.deletion_running {
            self.emit(Effect::Notify(Notice::DeletionRunning));
            return;
        }
        let unsaved = self.unsaved();
        let file = match &self.files.current {
            None => {
                self.emit(Effect::Notify(Notice::NoImage));
                return;
            },
            Some(file) => file.clone(),
        };
        self.files.deleting = Some(file);
        self.emit(Effect::ConfirmDeletion { unsaved });
    }

    /// Deletes the file that the user was asked about.
    pub fn delete_current_file(&mut self)
        ensures
            final(self)@ == old(self)@.delete_current_file(),
    {
        if self.session.flags.deletion_running || self.files.deleting.is_none() {
            return;
        }
        self.session.flags = Flags { deletion_running: true, ..self.session.flags };
        self.emit(Effect::StopDirectoryMonitor);
        self.emit(
            Effect::DeleteFile {
                generation: self.session.generations.load,
                explicit: self.session.flags.explicit_navigation,
            },
        );
    }

    fn restore_original(&mut self)
        ensures
            final(self)@ == old(self)@.restore_original(),
    {
        self.session.content = Content { dirty: false, ..self.session.content };
        self.emit(Effect::RestoreOriginal);
    }

    fn close(&mut self)
        ensures
            final(self)@ == old(self)@.close(),
    {
        self.session.flags = Flags { close_approved: true, ..self.session.flags };
        self.emit(Effect::CloseWindow);
    }

    /// Shows the image after the deleted one, or closes the window where none
    /// is left; where the user named the images, it has to be found among them
    /// first. A deletion that failed leaves everything as it was.
    pub fn deletion_finished(
        &mut self,
        generation: u64,
        deleted: bool,
        replacement: Option<FileLocation>,
    )
        ensures
            final(self)@ == old(self)@.deletion_finished(generation, deleted, place(replacement)),
    {
        if !deleted {
            self.session.flags = Flags { deletion_running: false, ..self.session.flags };
            self.emit(Effect::Notify(Notice::DeletionFailed));
            self.emit(Effect::MonitorDirectory);
            return;
        }
        if generation != self.session.generations.load || !files_equal(
            &self.files.current,
            &self.files.deleting,
        ) {
            self.session.flags = Flags { deletion_running: false, ..self.session.flags };
            self.emit(Effect::MonitorDirectory);
            return;
        }
        self.restore_original();
        if self.session.flags.explicit_navigation {
            self.emit(Effect::RemoveDeleted);
        } else {
            self.replace_deleted(replacement);
        }
    }

    fn replace_deleted(&mut self, replacement: Option<FileLocation>)
        ensures
            final(self)@ == old(self)@.replace_deleted(place(replacement)),
    {
        self.session.flags = Flags { deletion_running: false, ..self.session.flags };
        self.emit(Effect::Notify(Notice::ImageDeleted));
        match replacement {
            Some(file) => self.load_with_fit(file, true),
            None => self.close(),
        }
    }

    /// Shows the image that has taken the place of the deleted one among those
    /// that the user named, or closes the window where none is left.
    pub fn deleted_removed(&mut self, replacement: Option<FileLocation>)
        ensures
            final(self)@ == old(self)@.deleted_removed(place(replacement)),
    {
        if self.session.flags.deletion_running {
            self.replace_deleted(replacement);
        }
    }

    /// Whether the window may close now. Where unsaved edits are in the way,
    /// they are asked about.
    pub fn close_requested(&mut self) -> (closes: bool)
        ensures
            closes == (old(self)@.session.flags.close_approved || !old(self)@.session.unsaved()),
            final(self)@ == old(self)@.close_requested(),
    {
        if self.session.flags.close_approved || !self.unsaved() {
            return true;
        }
        self.ask_to_discard(PendingDiscard::Close, None);
        false
    }

    /// Gives unsaved edits up, and does what they were in the way of.
    pub fn discard_confirmed(&mut self)
        ensures
            final(self)@ == old(self)@.discard_confirmed(),
    {
        let pending = match self.session.pending_discard {
            None => {
                return;
            },
            Some(pending) => pending,
        };
        self.session = Session { pending_discard: None, ..self.session };
        let file = self.files.awaiting_discard.take();
        match pending {
            PendingDiscard::Close => self.close(),
            PendingDiscard::Navigate { forward } => {
                self.restore_original();
                self.navigate(forward);
            },
            PendingDiscard::Load { fit } => {
                if let Some(file) = file {
                    self.restore_original();
                    self.load_with_fit(file, fit);
                }
            },
            PendingDiscard::LoadFromNewScope => {
                if let Some(file) = file {
                    self.restore_original();
                    self.load_from_new_scope(file);
                }
            },
        }
    }
}

impl PendingDiscard {
    /// The question before unsaved edits are discarded.
    pub open spec fn spec_heading(self) -> Seq<char> {
        match self {
            PendingDiscard::Close => "Discard unsaved edits?"@,
            _ => "Discard unsaved edits and open another image?"@,
        }
    }

    /// The question before unsaved edits are discarded.
    pub fn heading(self) -> (heading: &'static str)
        ensures
            heading@ == self.spec_heading(),
    {
        match self {
            PendingDiscard::Close => "Discard unsaved edits?",
            _ => "Discard unsaved edits and open another image?",
        }
    }
}

/// The question before a file is deleted.
pub open spec fn deletion_text(name: Seq<char>, unsaved: bool) -> Seq<char> {
    "“"@ + name + if unsaved {
        "” and its unsaved edits will be permanently deleted. This cannot be undone."@
    } else {
        "” will be permanently deleted. This cannot be undone."@
    }
}

/// The question before a file is deleted.
pub fn deletion_question(name: &str, unsaved: bool) -> (text: String)
    ensures
        text@ == deletion_text(name@, unsaved),
{
    let mut text = String::from_str("“");
    text.append(name);
    if unsaved {
        text.append("” and its unsaved edits will be permanently deleted. This cannot be undone.");
    } else {
        text.append("” will be permanently deleted. This cannot be undone.");
    }
    text
}

/// Where the user named the images, the one that is taken out of them is the
/// one that has vanished, and the image on the screen stays.
pub proof fn vanished_neighbours_are_named(window: WindowView, forward: bool, file: LocationView)
    requires
        window.session.flags.explicit_navigation,
    ensures
        ({
            let after = window.neighbor_found(forward, NeighborView::Gone(file));
            &&& after.files.vanished == Some(file)
            &&& after.files.current == window.files.current
            &&& after.effects.len() > window.effects.len()
            &&& after.effects[window.effects.len() as int] == Effect::RemoveNeighbor
        }),
{
    reveal(WindowView::navigate);
}

} // verus!
