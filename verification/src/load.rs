//! Loading an image: what is dropped, what is started, and what comes of it.

use crate::effect::{Effect, Notice, SequencePurpose};
use crate::file_state::{no_changes, FileLocation, LocationView, PendingDirectoryChanges, Timestamp};
use crate::tool::Tool;
use crate::window::{
    following_generation, next_generation, Animation, Content, FilesView, Flags, Generations,
    PendingDiscard, Scaling, Session, ViewerWindow, WindowView, Zooming,
};
use crate::zoom::{fit_on_load, spec_fit_on_load};
use vstd::prelude::*;

verus! {

/// How the load of a picture ended.
#[derive(Debug, Clone, Copy, PartialEq, Eq)]
pub enum PreviewOutcome {
    Loaded { size: (u32, u32), animated: bool },
    Failed,
}

/// How the decoding for editing ended.
#[derive(Debug, Clone, Copy, PartialEq, Eq)]
pub enum EditableOutcome {
    Decoded { size: (u32, u32) },
    /// The image can only be viewed.
    Unavailable,
    WorkerFailed,
    /// The bytes of the file could not be read.
    Unreadable,
}

/// What is known of no image at all.
pub open spec fn no_content(neighbors: bool) -> Content {
    Content {
        texture: None,
        has_document: false,
        rendered: None,
        dirty: false,
        can_undo: false,
        can_redo: false,
        has_neighbors: neighbors,
        selected_kind: None,
        comparison_rendered: false,
    }
}

impl WindowView {
    /// The window with another number for the lists of its folder.
    pub open spec fn renew_directory(self) -> WindowView {
        WindowView {
            session: Session {
                generations: Generations {
                    directory: next_generation(self.session.generations.directory),
                    ..self.session.generations
                },
                ..self.session
            },
            ..self
        }
    }

    /// The window with the images to navigate forgotten.
    pub open spec fn drop_sequence(self) -> WindowView {
        WindowView {
            session: Session {
                flags: Flags { has_sequence: false, ..self.session.flags },
                ..self.session
            },
            ..self
        }.emit(Effect::DropSequence)
    }

    /// The window with its images to navigate up to date, or being listed.
    pub open spec fn refresh_navigation(self, restart_monitor: bool) -> WindowView {
        if self.session.flags.explicit_navigation {
            self.emit(Effect::PrefetchNeighbors).emit_if(
                restart_monitor,
                Effect::MonitorDirectory,
            )
        } else {
            let renewed = self.renew_directory();
            renewed.emit(
                Effect::BuildSequence {
                    generation: renewed.session.generations.directory,
                    purpose: SequencePurpose::Refresh { restart_monitor },
                },
            )
        }
    }

    /// The window with its images to navigate listed anew. Those that the user
    /// named stay.
    #[verifier::opaque]
    pub open spec fn rebuild_navigation(self) -> WindowView {
        if self.session.flags.explicit_navigation {
            self.emit(Effect::StopDirectoryMonitor).emit(Effect::PrefetchNeighbors).emit(
                Effect::MonitorDirectory,
            ).emit(Effect::UpdateActionStates)
        } else {
            self.drop_sequence().emit(Effect::StopDirectoryMonitor).emit(
                Effect::PrefetchNeighbors,
            ).refresh_navigation(true)
        }
    }

    /// The window with its wait for other images over: a search for a match
    /// and a reload are out of date, and the region is no longer selected.
    pub open spec fn begin_load(self, fit: bool) -> WindowView {
        let cleared = self.clear_region_selection();
        WindowView {
            session: Session {
                zooming: Zooming {
                    fit_on_load: spec_fit_on_load(fit, self.session.zooming.mode),
                    ..cleared.session.zooming
                },
                generations: Generations {
                    navigation: next_generation(self.session.generations.navigation),
                    external_reload: next_generation(self.session.generations.external_reload),
                    ..cleared.session.generations
                },
                ..cleared.session
            },
            ..cleared
        }
    }

    /// The window that asks whether its edits may be discarded first.
    pub open spec fn ask_to_discard(
        self,
        pending: PendingDiscard,
        file: Option<LocationView>,
    ) -> WindowView {
        WindowView {
            session: Session { pending_discard: Some(pending), ..self.session },
            files: FilesView { awaiting_discard: file, ..self.files },
            ..self
        }.emit(Effect::ConfirmDiscard(pending))
    }

    /// The window with nothing of its image left.
    #[verifier::opaque]
    pub open spec fn drop_image(self) -> WindowView {
        WindowView {
            session: Session {
                content: Content {
                    has_document: false,
                    rendered: None,
                    dirty: false,
                    can_undo: false,
                    can_redo: false,
                    ..self.session.content
                },
                animation: Animation { frames: 0, ..self.session.animation },
                generations: Generations {
                    render: next_generation(self.session.generations.render),
                    ..self.session.generations
                },
                ..self.session
            },
            ..self
        }.emit(Effect::DropImage).emit(Effect::ShowAnimationControls(false)).set_tool(
            Tool::Idle,
        ).select_annotation(None, None).exit_compare()
    }

    /// The window with nothing known of the folder of its file.
    pub open spec fn drop_directory(self) -> WindowView {
        let renewed = self.renew_directory();
        let settled = WindowView {
            session: Session {
                flags: Flags { directory_scheduled: false, ..renewed.session.flags },
                ..renewed.session
            },
            files: FilesView { pending_changes: no_changes(), ..renewed.files },
            ..renewed
        };
        let forgotten = if self.session.flags.explicit_navigation {
            settled
        } else {
            settled.drop_sequence()
        };
        forgotten.emit(Effect::StopDirectoryMonitor).emit(Effect::PrefetchNeighbors)
    }

    /// The window with a file being loaded.
    #[verifier::opaque]
    pub open spec fn start_load(self, file: LocationView) -> WindowView {
        let generation = next_generation(self.session.generations.load);
        WindowView {
            session: Session {
                generations: Generations { load: generation, ..self.session.generations },
                flags: Flags {
                    decode_pending: true,
                    external_conflict: false,
                    subtitle_ready: false,
                    ..self.session.flags
                },
                scaling: Scaling { pending_activation: false, ..self.session.scaling },
                content: no_content(self.session.content.has_neighbors),
                source_modified: None,
                ..self.session
            },
            files: FilesView { current: Some(file), ..self.files },
            ..self
        }.emit(Effect::MonitorDirectory).emit(Effect::RememberFolder).emit(
            Effect::ClearCanvas,
        ).emit(Effect::ReadSourceTime { generation }).emit(Effect::UpdateTitle).emit(
            Effect::ShowLoading,
        ).emit(Effect::ShowViewOnly(false)).emit(Effect::UpdateActionStates).emit(Effect::StartLoad { generation })
    }

    /// The window with a file being loaded in place of its own, or the
    /// question whether its edits may be discarded for it.
    #[verifier::opaque]
    pub open spec fn load_with_fit(self, file: LocationView, fit: bool) -> WindowView {
        let begun = self.begin_load(fit);
        if self.session.unsaved() {
            begun.ask_to_discard(PendingDiscard::Load { fit }, Some(file))
        } else {
            begun.drop_image().drop_directory().start_load(file)
        }
    }

    /// The window with a file being loaded that the user chose: the images to
    /// navigate are then those of its folder.
    #[verifier::opaque]
    pub open spec fn load_from_new_scope(self, file: LocationView) -> WindowView {
        if self.session.unsaved() {
            self.ask_to_discard(PendingDiscard::LoadFromNewScope, Some(file))
        } else {
            WindowView {
                session: Session {
                    flags: Flags { explicit_navigation: false, ..self.session.flags },
                    ..self.session
                },
                ..self
            }.drop_sequence().load_with_fit(file, true)
        }
    }

    /// The window after the time of its file was read.
    pub open spec fn source_time_read(
        self,
        generation: u64,
        modified: Option<Timestamp>,
    ) -> WindowView {
        if generation == self.session.generations.load {
            WindowView { session: Session { source_modified: modified, ..self.session }, ..self }
        } else {
            self
        }
    }

    /// The window with a loaded picture on its canvas.
    pub open spec fn show_preview(
        self,
        generation: u64,
        size: (u32, u32),
        animated: bool,
    ) -> WindowView {
        let shown = WindowView {
            session: Session {
                flags: Flags { subtitle_ready: true, ..self.session.flags },
                content: Content { texture: Some(size), ..self.session.content },
                ..self.session
            },
            ..self
        }.emit(Effect::ShowPreview).emit(Effect::UpdateActionStates);
        let fitted = match self.session.zooming.fit_on_load {
            Some(fill) => shown.fit(fill),
            None => shown,
        };
        fitted.emit(Effect::UpdateSubtitle).emit_if(
            animated,
            Effect::StartAnimation { generation },
        ).emit(Effect::AwaitEditable { generation })
    }

    /// The window after the load of its picture ended.
    pub open spec fn preview_loaded(self, generation: u64, outcome: PreviewOutcome) -> WindowView {
        if generation != self.session.generations.load {
            self
        } else {
            match outcome {
                PreviewOutcome::Loaded { size, animated } => self.show_preview(
                    generation,
                    size,
                    animated,
                ),
                PreviewOutcome::Failed => {
                    let finished = self.finish_editable_decode(false);
                    finished.with_files(
                        FilesView { pending_comparison: None, ..finished.files },
                    ).emit(Effect::ShowLoadError).emit(Effect::UpdateActionStates)
                },
            }
        }
    }

    /// The window with a document for its image.
    pub open spec fn adopt_document(self, size: (u32, u32)) -> WindowView {
        self.observe(
            Content {
                rendered: Some(size),
                has_document: true,
                dirty: false,
                can_undo: false,
                can_redo: false,
                ..self.session.content
            },
        ).emit(Effect::AdoptDocument)
    }

    /// The window once its image can be edited, or not: with the comparison
    /// that waited for it, and the images to navigate.
    #[verifier::opaque]
    pub open spec fn finish_load(self, available: bool) -> WindowView {
        let finished = self.finish_editable_decode(available);
        let compared = match finished.files.pending_comparison {
            Some(file) => finished.with_files(
                FilesView { pending_comparison: None, ..finished.files },
            ).load_comparison(file),
            None => finished,
        };
        compared.rebuild_navigation()
    }

    /// The window after its image was decoded for editing, or could not be.
    pub open spec fn editable_loaded(self, generation: u64, outcome: EditableOutcome) -> WindowView {
        if outcome == EditableOutcome::Unreadable {
            self.finish_editable_decode(false).emit(Effect::Notify(Notice::UnreadableForEditing))
        } else if generation != self.session.generations.load {
            self
        } else {
            match outcome {
                EditableOutcome::Decoded { size } => self.adopt_document(size).finish_load(true),
                EditableOutcome::WorkerFailed => self.emit(
                    Effect::Notify(Notice::EditingWorkerFailed),
                ).finish_load(false),
                _ => self.finish_load(false),
            }
        }
    }
}

impl ViewerWindow {
    fn renew_directory(&mut self)
        ensures
            final(self)@ == old(self)@.renew_directory(),
    {
        let directory: u64 = following_generation(self.session.generations.directory);
        self.session.generations = Generations { directory, ..self.session.generations };
    }

    fn drop_sequence(&mut self)
        ensures
            final(self)@ == old(self)@.drop_sequence(),
    {
        self.session.flags = Flags { has_sequence: false, ..self.session.flags };
        self.emit(Effect::DropSequence);
    }

    /// Lists the images to navigate anew, unless the user named them.
    pub fn refresh_navigation(&mut self, restart_monitor: bool)
        ensures
            final(self)@ == old(self)@.refresh_navigation(restart_monitor),
    {
        if self.session.flags.explicit_navigation {
            self.emit(Effect::PrefetchNeighbors);
            if restart_monitor {
                self.emit(Effect::MonitorDirectory);
            }
            return;
        }
        self.renew_directory();
        self.emit(
            Effect::BuildSequence {
                generation: self.session.generations.directory,
                purpose: SequencePurpose::Refresh { restart_monitor },
            },
        );
    }

    /// Lists the images to navigate anew, and watches their folder.
    pub fn rebuild_navigation(&mut self)
        ensures
            final(self)@ == old(self)@.rebuild_navigation(),
    {
        proof {
            reveal(WindowView::rebuild_navigation);
        }
        if self.session.flags.explicit_navigation {
            self.emit(Effect::StopDirectoryMonitor);
            self.emit(Effect::PrefetchNeighbors);
            self.emit(Effect::MonitorDirectory);
            self.emit(Effect::UpdateActionStates);
            return;
        }
        self.drop_sequence();
        self.emit(Effect::StopDirectoryMonitor);
        self.emit(Effect::PrefetchNeighbors);
        self.refresh_navigation(true);
    }

    fn begin_load(&mut self, fit: bool)
        ensures
            final(self)@ == old(self)@.begin_load(fit),
    {
        let fit_on_load = fit_on_load(fit, self.session.zooming.mode);
        self.clear_region_selection();
        let navigation: u64 = following_generation(self.session.generations.navigation);
        let external_reload: u64 = following_generation(self.session.generations.external_reload);
        self.session = Session {
            zooming: Zooming { fit_on_load, ..self.session.zooming },
            generations: Generations {
                navigation,
                external_reload,
                ..self.session.generations
            },
            ..self.session
        };
    }

    /// Asks whether unsaved edits may be discarded, and keeps in mind what
    /// for.
    pub fn ask_to_discard(&mut self, pending: PendingDiscard, file: Option<FileLocation>)
        ensures
            final(self)@ == old(self)@.ask_to_discard(pending, crate::file_state::place(file)),
    {
        self.session = Session { pending_discard: Some(pending), ..self.session };
        self.files.awaiting_discard = file;
        self.emit(Effect::ConfirmDiscard(pending));
    }

    fn drop_image(&mut self)
        ensures
            final(self)@ == old(self)@.drop_image(),
    {
        proof {
            reveal(WindowView::drop_image);
        }
        let render: u64 = following_generation(self.session.generations.render);
        self.session = Session {
            content: Content {
                has_document: false,
                rendered: None,
                dirty: false,
                can_undo: false,
                can_redo: false,
                ..self.session.content
            },
            animation: Animation { frames: 0, ..self.session.animation },
            generations: Generations { render, ..self.session.generations },
            ..self.session
        };
        self.emit(Effect::DropImage);
        self.emit(Effect::ShowAnimationControls(false));
        self.set_tool(Tool::Idle);
        self.select_annotation(None, None);
        self.exit_compare();
    }

    fn drop_directory(&mut self)
        ensures
            final(self)@ == old(self)@.drop_directory(),
    {
        self.renew_directory();
        self.session.flags = Flags { directory_scheduled: false, ..self.session.flags };
        self.files.pending_changes = PendingDirectoryChanges::default();
        if !self.session.flags.explicit_navigation {
            self.drop_sequence();
        }
        self.emit(Effect::StopDirectoryMonitor);
        self.emit(Effect::PrefetchNeighbors);
    }

    fn start_load(&mut self, file: FileLocation)
        ensures
            final(self)@ == old(self)@.start_load(file@),
    {
        proof {
            reveal(WindowView::start_load);
        }
        let generation: u64 = following_generation(self.session.generations.load);
        self.session = Session {
            generations: Generations { load: generation, ..self.session.generations },
            flags: Flags {
                decode_pending: true,
                external_conflict: false,
                subtitle_ready: false,
                ..self.session.flags
            },
            scaling: Scaling { pending_activation: false, ..self.session.scaling },
            content: Content {
                texture: None,
                has_document: false,
                rendered: None,
                dirty: false,
                can_undo: false,
                can_redo: false,
                has_neighbors: self.session.content.has_neighbors,
                selected_kind: None,
                comparison_rendered: false,
            },
            source_modified: None,
            ..self.session
        };
        self.files.current = Some(file);
        self.emit(Effect::MonitorDirectory);
        self.emit(Effect::RememberFolder);
        self.emit(Effect::ClearCanvas);
        self.emit(Effect::ReadSourceTime { generation });
        self.emit(Effect::UpdateTitle);
        self.emit(Effect::ShowLoading);
        self.emit(Effect::ShowViewOnly(false));
        self.emit(Effect::UpdateActionStates);
        self.emit(Effect::StartLoad { generation });
    }

    /// Loads a file in place of the one that is shown. Unsaved edits are asked
    /// about first. `fit` has the new image fitted into the window whatever
    /// the zoom follows.
    pub fn load_with_fit(&mut self, file: FileLocation, fit: bool)
        ensures
            final(self)@ == old(self)@.load_with_fit(file@, fit),
    {
        proof {
            reveal(WindowView::load_with_fit);
        }
        let unsaved = self.unsaved();
        self.begin_load(fit);
        if unsaved {
            self.ask_to_discard(PendingDiscard::Load { fit }, Some(file));
            return;
        }
        self.drop_image();
        self.drop_directory();
        self.start_load(file);
    }

    /// Loads a file that the user chose, and navigates its folder from then
    /// on.
    pub fn load_from_new_scope(&mut self, file: FileLocation)
        ensures
            final(self)@ == old(self)@.load_from_new_scope(file@),
    {
        proof {
            reveal(WindowView::load_from_new_scope);
        }
        if self.unsaved() {
            self.ask_to_discard(PendingDiscard::LoadFromNewScope, Some(file));
            return;
        }
        self.session.flags = Flags { explicit_navigation: false, ..self.session.flags };
        self.drop_sequence();
        self.load_with_fit(file, true);
    }

    /// Takes the time of the file, unless another one was loaded since.
    pub fn source_time_read(&mut self, generation: u64, modified: Option<Timestamp>)
        ensures
            final(self)@ == old(self)@.source_time_read(generation, modified),
    {
        if generation == self.session.generations.load {
            self.session = Session { source_modified: modified, ..self.session };
        }
    }

    fn show_preview(&mut self, generation: u64, size: (u32, u32), animated: bool)
        ensures
            final(self)@ == old(self)@.show_preview(generation, size, animated),
    {
        let fit = self.session.zooming.fit_on_load;
        self.session = Session {
            flags: Flags { subtitle_ready: true, ..self.session.flags },
            content: Content { texture: Some(size), ..self.session.content },
            ..self.session
        };
        self.emit(Effect::ShowPreview);
        self.emit(Effect::UpdateActionStates);
        if let Some(fill) = fit {
            self.fit(fill);
        }
        self.emit(Effect::UpdateSubtitle);
        if animated {
            self.emit(Effect::StartAnimation { generation });
        }
        self.emit(Effect::AwaitEditable { generation });
    }

    /// Takes the loaded picture, unless another file was loaded since.
    pub fn preview_loaded(&mut self, generation: u64, outcome: PreviewOutcome)
        ensures
            final(self)@ == old(self)@.preview_loaded(generation, outcome),
    {
        if generation != self.session.generations.load {
            return;
        }
        match outcome {
            PreviewOutcome::Loaded { size, animated } => self.show_preview(
                generation,
                size,
                animated,
            ),
            PreviewOutcome::Failed => {
                self.finish_editable_decode(false);
                self.files.pending_comparison = None;
                self.emit(Effect::ShowLoadError);
                self.emit(Effect::UpdateActionStates);
            },
        }
    }

    fn adopt_document(&mut self, size: (u32, u32))
        ensures
            final(self)@ == old(self)@.adopt_document(size),
    {
        self.session.content = Content {
            rendered: Some(size),
            has_document: true,
            dirty: false,
            can_undo: false,
            can_redo: false,
            ..self.session.content
        };
        self.emit(Effect::AdoptDocument);
    }

    fn finish_load(&mut self, available: bool)
        ensures
            final(self)@ == old(self)@.finish_load(available),
    {
        proof {
            reveal(WindowView::finish_load);
        }
        self.finish_editable_decode(available);
        let pending = self.files.pending_comparison.take();
        if let Some(file) = pending {
            self.load_comparison(file);
        }
        self.rebuild_navigation();
    }

    /// Takes the pixels to edit, unless another file was loaded since.
    pub fn editable_loaded(&mut self, generation: u64, outcome: EditableOutcome)
        ensures
            final(self)@ == old(self)@.editable_loaded(generation, outcome),
    {
        if matches!(outcome, EditableOutcome::Unreadable) {
            self.finish_editable_decode(false);
            self.emit(Effect::Notify(Notice::UnreadableForEditing));
            return;
        }
        if generation != self.session.generations.load {
            return;
        }
        match outcome {
            EditableOutcome::Decoded { size } => {
                self.adopt_document(size);
                self.finish_load(true);
            },
            EditableOutcome::WorkerFailed => {
                self.emit(Effect::Notify(Notice::EditingWorkerFailed));
                self.finish_load(false);
            },
            _ => self.finish_load(false),
        }
    }
}

} // verus!
