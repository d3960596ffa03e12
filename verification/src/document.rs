//! Changes of the document and the renders that follow them.

use crate::effect::{Announcement, AnnotationId, AnnotationKind, Effect, Notice, Operation};
use crate::window::{
    following_generation, next_generation, Annotations, Content, Generations, Session,
    ViewerWindow, WindowView,
};
use vstd::prelude::*;

verus! {

/// How a render ended.
#[derive(Debug, Clone, Copy, PartialEq, Eq)]
pub enum RenderOutcome {
    /// Pixels of this size; `adopted` tells whether they are those of the
    /// document as it is now.
    Rendered { adopted: bool, size: (u32, u32) },
    Cancelled,
    Failed,
    WorkerFailed,
}

impl WindowView {
    /// The window with a new render of its document under way.
    pub open spec fn render_document(self) -> WindowView {
        let generation = next_generation(self.session.generations.render);
        if self.session.content.has_document {
            self.with_render_generation(generation).emit(Effect::UpdateTitle).emit(
                Effect::UpdateSubtitle,
            ).emit(Effect::StartRender(generation))
        } else {
            self
        }
    }

    /// The window with another number for its renders.
    pub open spec fn with_render_generation(self, generation: u64) -> WindowView {
        WindowView {
            session: Session {
                generations: Generations { render: generation, ..self.session.generations },
                ..self.session
            },
            ..self
        }
    }

    /// The window with no render of use to it.
    pub open spec fn cancel_document_render(self) -> WindowView {
        self.with_render_generation(next_generation(self.session.generations.render)).emit(
            Effect::CancelRender,
        )
    }

    /// The window with no nudge to merge into.
    pub open spec fn end_nudging(self) -> WindowView {
        WindowView {
            session: Session {
                annotations: Annotations { nudged: None, ..self.session.annotations },
                ..self.session
            },
            ..self
        }
    }

    /// The window after a change of the document.
    pub open spec fn apply(self, operation: Operation) -> WindowView {
        let settled = self.end_nudging();
        if self.session.content.has_document {
            settled.emit(Effect::Apply(operation)).emit(
                Effect::UpdateActionStates,
            ).render_document()
        } else {
            settled.emit(Effect::Notify(Notice::OpenEditableFirst))
        }
    }

    /// The window with this annotation selected, of the given kind where the
    /// document holds it.
    pub open spec fn select_annotation(
        self,
        id: Option<AnnotationId>,
        kind: Option<AnnotationKind>,
    ) -> WindowView {
        let found = id is Some && kind is Some;
        let selected = if found {
            id
        } else {
            None
        };
        let shown = WindowView {
            session: Session {
                annotations: Annotations {
                    selected,
                    nudged: None,
                    ..self.session.annotations
                },
                content: Content {
                    selected_kind: if found {
                        kind
                    } else {
                        None
                    },
                    ..self.session.content
                },
                ..self.session
            },
            ..self
        }.emit(Effect::ShowSelection(selected));
        if found {
            shown.emit(Effect::Announce(Announcement::AnnotationSelected(kind->0)))
        } else {
            shown
        }
    }

    /// The window with its selection dropped where the document no longer
    /// holds the annotation.
    pub open spec fn refresh_annotation_selection(self) -> WindowView {
        let selected = if self.session.content.selected_kind is Some {
            self.session.annotations.selected
        } else {
            None
        };
        WindowView {
            session: Session {
                annotations: Annotations { selected, ..self.session.annotations },
                ..self.session
            },
            ..self
        }.emit(Effect::ShowSelection(selected))
    }

    /// The window after a render has ended.
    pub open spec fn render_finished(self, generation: u64, outcome: RenderOutcome) -> WindowView {
        if generation != self.session.generations.render {
            self
        } else {
            match outcome {
                RenderOutcome::Rendered { adopted, size } => if adopted {
                    self.observe(
                        Content { rendered: Some(size), texture: Some(size), ..self.session.content },
                    ).emit(Effect::ShowRender).refresh_annotation_selection().emit(
                        Effect::UpdateMinimap,
                    ).emit(Effect::UpdateSubtitle).emit(Effect::UpdateActionStates)
                } else {
                    self
                },
                RenderOutcome::Cancelled => self,
                RenderOutcome::Failed => self.emit(Effect::Notify(Notice::Failure)),
                RenderOutcome::WorkerFailed => self.emit(
                    Effect::Notify(Notice::ProcessingWorkerFailed),
                ),
            }
        }
    }

    /// The window on the way to an earlier, or later, state of its document.
    pub open spec fn step_history(self, redo: bool) -> WindowView {
        self.end_nudging().emit(Effect::StepHistory { redo })
    }

    /// The window after that step.
    pub open spec fn history_stepped(self, changed: bool) -> WindowView {
        let rendering = if changed {
            self.render_document()
        } else {
            self
        };
        rendering.emit(Effect::UpdateActionStates)
    }
}

impl ViewerWindow {
    /// Renders the document, and makes every earlier render out of date.
    pub fn render_document(&mut self)
        ensures
            final(self)@ == old(self)@.render_document(),
    {
        if self.session.content.has_document {
            let generation: u64 = following_generation(self.session.generations.render);
            self.session.generations.render = generation;
            self.emit(Effect::UpdateTitle);
            self.emit(Effect::UpdateSubtitle);
            self.emit(Effect::StartRender(generation));
        }
    }

    /// Makes a render that is under way useless.
    pub fn cancel_document_render(&mut self)
        ensures
            final(self)@ == old(self)@.cancel_document_render(),
    {
        self.session.generations.render = following_generation(self.session.generations.render);
        self.emit(Effect::CancelRender);
    }

    /// Changes the document, and shows the change.
    pub fn apply(&mut self, operation: Operation)
        ensures
            final(self)@ == old(self)@.apply(operation),
    {
        self.session.annotations.nudged = None;
        if !self.session.content.has_document {
            self.emit(Effect::Notify(Notice::OpenEditableFirst));
            return;
        }
        self.emit(Effect::Apply(operation));
        self.emit(Effect::UpdateActionStates);
        self.render_document();
    }

    /// Selects an annotation, of the given kind where the document holds it.
    pub fn select_annotation(&mut self, id: Option<AnnotationId>, kind: Option<AnnotationKind>)
        ensures
            final(self)@ == old(self)@.select_annotation(id, kind),
    {
        let found = id.is_some() && kind.is_some();
        let selected = if found {
            id
        } else {
            None
        };
        self.session.annotations.selected = selected;
        self.session.annotations.nudged = None;
        self.session.content.selected_kind = if found {
            kind
        } else {
            None
        };
        self.emit(Effect::ShowSelection(selected));
        if id.is_some() {
            if let Some(kind) = kind {
                self.emit(Effect::Announce(Announcement::AnnotationSelected(kind)));
            }
        }
    }

    /// Drops the selection where the document no longer holds it.
    pub fn refresh_annotation_selection(&mut self)
        ensures
            final(self)@ == old(self)@.refresh_annotation_selection(),
    {
        if self.session.content.selected_kind.is_none() {
            self.session.annotations.selected = None;
        }
        self.emit(Effect::ShowSelection(self.session.annotations.selected));
    }

    /// Takes the result of a render, unless it is out of date.
    pub fn render_finished(&mut self, generation: u64, outcome: RenderOutcome)
        ensures
            final(self)@ == old(self)@.render_finished(generation, outcome),
    {
        if generation != self.session.generations.render {
            return;
        }
        match outcome {
            RenderOutcome::Rendered { adopted, size } => {
                if !adopted {
                    return;
                }
                self.session.content.rendered = Some(size);
                self.session.content.texture = Some(size);
                self.emit(Effect::ShowRender);
                self.refresh_annotation_selection();
                self.emit(Effect::UpdateMinimap);
                self.emit(Effect::UpdateSubtitle);
                self.emit(Effect::UpdateActionStates);
            },
            RenderOutcome::Cancelled => {},
            RenderOutcome::Failed => self.emit(Effect::Notify(Notice::Failure)),
            RenderOutcome::WorkerFailed => self.emit(
                Effect::Notify(Notice::ProcessingWorkerFailed),
            ),
        }
    }

    /// Undoes the last change, or redoes the last undone one.
    pub fn step_history(&mut self, redo: bool)
        ensures
            final(self)@ == old(self)@.step_history(redo),
    {
        self.session.annotations.nudged = None;
        self.emit(Effect::StepHistory { redo });
    }

    /// Shows the document after a step through its history.
    pub fn history_stepped(&mut self, changed: bool)
        ensures
            final(self)@ == old(self)@.history_stepped(changed),
    {
        if changed {
            self.render_document();
        }
        self.emit(Effect::UpdateActionStates);
    }
}

/// A render that was started before another one changes nothing.
pub proof fn superseded_renders_are_ignored(window: WindowView, outcome: RenderOutcome)
    requires
        window.session.content.has_document,
    ensures
        ({
            let started = window.render_document();
            started.render_finished(window.session.generations.render, outcome) == started
        }),
{
}

/// A change of the document ends the merging of nudges, whether or not there
/// is a document to change.
pub proof fn changes_end_nudging(window: WindowView, operation: Operation)
    ensures
        window.apply(operation).session.annotations.nudged is None,
{
}

} // verus!
