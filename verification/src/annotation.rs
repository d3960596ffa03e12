//! Annotations under the pointer, the keys and the text editor.

use crate::actions::Action;
use crate::effect::{AnnotationId, AnnotationKind, EditorPlace, Effect, Operation};
use crate::keys::{arrow_step, spec_arrow_step, Key, Modifiers};
use crate::tool::Tool;
use crate::window::{AnnotationDrag, Annotations, HitKind, ViewerWindow, WindowView};
use vstd::prelude::*;
use vstd::std_specs::cmp::PartialEqSpec;

verus! {

/// Previews that wait for the next frame. Only the latest one is drawn.
#[derive(Debug)]
pub struct PreviewQueue<T> {
    pub pending: Option<T>,
    pub scheduled: bool,
}

/// Whether something is there and equals the other.
pub open spec fn holds<T: PartialEq>(held: Option<T>, other: T) -> bool {
    held matches Some(held) && held.eq_spec(&other)
}

impl<T> Default for PreviewQueue<T> {
    fn default() -> (queue: Self)
        ensures
            queue == (PreviewQueue::<T> { pending: None, scheduled: false }),
    {
        PreviewQueue { pending: None, scheduled: false }
    }
}

impl<T: PartialEq> PreviewQueue<T> {
    /// Whether a preview is there already: in the queue, or on display with
    /// nothing due that would replace it.
    pub open spec fn knows(self, preview: T, displayed: Option<T>) -> bool {
        holds(self.pending, preview) || (!self.scheduled && holds(displayed, preview))
    }

    /// The queue with a preview in it.
    pub open spec fn pushed(self, preview: T, displayed: Option<T>) -> PreviewQueue<T> {
        if self.knows(preview, displayed) {
            self
        } else {
            PreviewQueue { pending: Some(preview), scheduled: true }
        }
    }

    /// Puts a preview in the queue, in place of one that waits there. Tells
    /// whether a frame has to be asked for.
    pub fn push(&mut self, preview: T, displayed: Option<&T>) -> (schedule: bool)
        ensures
            T::obeys_eq_spec() ==> ({
                let shown = match displayed {
                    Some(shown) => Some(*shown),
                    None => None,
                };
                &&& *final(self) == old(self).pushed(preview, shown)
                &&& schedule == (!old(self).knows(preview, shown) && !old(self).scheduled)
            }),
    {
        if let Some(pending) = &self.pending {
            if *pending == preview {
                return false;
            }
        }
        if !self.scheduled {
            if let Some(displayed) = displayed {
                if *displayed == preview {
                    return false;
                }
            }
        }
        let schedule = !self.scheduled;
        self.pending = Some(preview);
        self.scheduled = true;
        schedule
    }

    /// Takes the preview to draw on this frame.
    pub fn take(&mut self) -> (preview: Option<T>)
        ensures
            preview == old(self).pending,
            *final(self) == (PreviewQueue::<T> { pending: None, scheduled: false }),
    {
        self.scheduled = false;
        self.pending.take()
    }

    /// Forgets the preview that waits, without taking back the frame.
    pub fn clear_pending(&mut self)
        ensures
            *final(self) == (PreviewQueue::<T> { pending: None, scheduled: old(self).scheduled }),
    {
        self.pending = None;
    }
}

/// However many previews are pushed before a frame, one frame is asked for and
/// the last of them is drawn.
pub proof fn previews_are_coalesced<T: PartialEq>(
    queue: PreviewQueue<T>,
    first: T,
    last: T,
    displayed: Option<T>,
)
    requires
        !queue.scheduled,
        queue.pending is None,
        !holds(displayed, first),
    ensures
        ({
            let after = queue.pushed(first, displayed).pushed(last, displayed);
            &&& queue.pushed(first, displayed).scheduled
            &&& after.scheduled
            &&& after.pending == Some(last) || (after.pending == Some(first) && first.eq_spec(
                &last,
            ))
        }),
{
}

/// An arrow, or another annotation that has no point to bend it by.
#[derive(Debug, Clone, Copy, PartialEq, Eq)]
pub enum BentShape<P> {
    Arrow { start: P, end: P, control: P },
    Other,
}

/// An annotation after a double click on a part of it: an arrow whose bending point
/// it was is straight.
pub open spec fn straightened<P>(shape: BentShape<P>, hit: HitKind, midpoint: P) -> BentShape<P> {
    match shape {
        BentShape::Arrow { start, end, control } => BentShape::Arrow {
            start,
            end,
            control: if hit == HitKind::ControlHandle {
                midpoint
            } else {
                control
            },
        },
        BentShape::Other => BentShape::Other,
    }
}

/// Straightens an arrow whose bending point was double-clicked. `midpoint` is
/// the point halfway between its ends. Tells whether it was one.
pub fn reset_arrow_control<P: Copy>(
    shape: &mut BentShape<P>,
    hit: HitKind,
    midpoint: P,
) -> (reset: bool)
    ensures
        reset == (*old(shape) is Arrow && hit == HitKind::ControlHandle),
        *final(shape) == match *old(shape) {
            BentShape::Arrow { start, end, control } => BentShape::Arrow {
                start,
                end,
                control: if hit == HitKind::ControlHandle {
                    midpoint
                } else {
                    control
                },
            },
            BentShape::Other => BentShape::Other,
        },
        *final(shape) == straightened(*old(shape), hit, midpoint),
{
    match *shape {
        BentShape::Arrow { start, end, .. } => {
            if !matches!(hit, HitKind::ControlHandle) {
                return false;
            }
            *shape = BentShape::Arrow { start, end, control: midpoint };
            true
        },
        BentShape::Other => false,
    }
}

/// The colour and the size of an annotation; a text's size is that of its
/// letters.
#[derive(Debug, Clone, Copy, PartialEq, Eq)]
pub struct AnnotationStyle<N> {
    pub color: [u8; 4],
    pub size: N,
}

/// A style with another colour and another size, as far as they are asked for and
/// the kind of annotation has one to choose.
pub open spec fn spec_restyled<N>(
    kind: AnnotationKind,
    style: AnnotationStyle<N>,
    color: Option<[u8; 4]>,
    size: Option<N>,
    highlight_width: N,
    measurement_width: N,
) -> AnnotationStyle<N> {
    AnnotationStyle {
        color: match color {
            Some(color) => color,
            None => style.color,
        },
        size: match kind {
            AnnotationKind::Highlight => highlight_width,
            AnnotationKind::Measurement => measurement_width,
            _ => match size {
                Some(size) => size,
                None => style.size,
            },
        },
    }
}

/// An annotation in another style. Highlights and measurements have the width
/// of their kind, whatever size is asked for.
pub fn restyled<N: Copy>(
    kind: AnnotationKind,
    style: AnnotationStyle<N>,
    color: Option<[u8; 4]>,
    size: Option<N>,
    highlight_width: N,
    measurement_width: N,
) -> (restyled: AnnotationStyle<N>)
    ensures
        restyled.color == match color {
            Some(color) => color,
            None => style.color,
        },
        restyled.size == match kind {
            AnnotationKind::Highlight => highlight_width,
            AnnotationKind::Measurement => measurement_width,
            _ => match size {
                Some(size) => size,
                None => style.size,
            },
        },
        restyled == spec_restyled(kind, style, color, size, highlight_width, measurement_width),
{
    let size = match kind {
        AnnotationKind::Highlight => highlight_width,
        AnnotationKind::Measurement => measurement_width,
        _ => match size {
            Some(size) => size,
            None => style.size,
        },
    };
    let color = match color {
        Some(color) => color,
        None => style.color,
    };
    AnnotationStyle { color, size }
}

/// The longest text of an annotation, in characters.
pub const TEXT_LIMIT: usize = 256;

/// A text as an annotation holds it.
pub open spec fn spec_limited_text(text: Seq<char>) -> Seq<char> {
    if text.len() > TEXT_LIMIT {
        text.take(TEXT_LIMIT as int)
    } else {
        text
    }
}

/// The first characters of a text, as many as an annotation holds.
pub fn limited_text(text: &str) -> (limited: String)
    ensures
        limited@ == if text@.len() > TEXT_LIMIT {
            text@.take(TEXT_LIMIT as int)
        } else {
            text@
        },
        limited@ == spec_limited_text(text@),
{
    let length: usize = text.unicode_len();
    let kept: usize = if length > TEXT_LIMIT {
        TEXT_LIMIT
    } else {
        length
    };
    assert(text@.subrange(0, kept as int) == text@.take(kept as int));
    assert(text@.take(text@.len() as int) == text@);
    String::from_str(text.substring_char(0, kept))
}

/// What the pointer makes of an annotation while it is dragged.
#[derive(Debug, Clone, Copy, PartialEq, Eq, Structural)]
pub enum DragPlan {
    /// A highlight with the two points as corners.
    Highlight { seed: u64 },
    /// A straight arrow from the first point to the second.
    Arrow,
    /// A measurement along the longer side.
    Measure,
    /// A text at the first point, running towards the second.
    Text,
    /// The annotation moved; a measurement moves by whole pixels.
    Move { whole_pixels: bool },
    /// The annotation with a handle moved.
    Handle { constrained: bool },
    /// The text turned.
    Rotate { constrained: bool },
}

/// What the pointer makes of an annotation while it is dragged.
pub open spec fn drag_plan(drag: AnnotationDrag, shift: bool) -> Option<DragPlan> {
    match drag {
        AnnotationDrag::Create { tool, id } => match tool {
            Tool::Highlight => Some(
                DragPlan::Highlight { seed: crate::keyboard::highlight_seed(id) },
            ),
            Tool::Arrow => Some(DragPlan::Arrow),
            Tool::Measure => Some(DragPlan::Measure),
            Tool::Text => Some(DragPlan::Text),
            _ => None,
        },
        AnnotationDrag::Change { kind, part, .. } => Some(
            match part {
                HitKind::Body => DragPlan::Move {
                    whole_pixels: kind == AnnotationKind::Measurement,
                },
                HitKind::Handle | HitKind::ControlHandle => DragPlan::Handle {
                    constrained: shift,
                },
                HitKind::Rotate => DragPlan::Rotate { constrained: shift },
            },
        ),
    }
}

/// What the pointer makes of an annotation while it is dragged. Shift keeps a
/// handle or a turn to straight steps.
pub fn annotation_for_drag(drag: AnnotationDrag, shift: bool) -> (plan: Option<DragPlan>)
    ensures
        plan == drag_plan(drag, shift),
{
    match drag {
        AnnotationDrag::Create { tool, id } => match tool {
            Tool::Highlight => Some(DragPlan::Highlight { seed: id.0 ^ 0xD10A_AA73_9E37_79B9 }),
            Tool::Arrow => Some(DragPlan::Arrow),
            Tool::Measure => Some(DragPlan::Measure),
            Tool::Text => Some(DragPlan::Text),
            _ => None,
        },
        AnnotationDrag::Change { kind, part, .. } => Some(
            match part {
                HitKind::Body => DragPlan::Move {
                    whole_pixels: matches!(kind, AnnotationKind::Measurement),
                },
                HitKind::Handle | HitKind::ControlHandle => DragPlan::Handle {
                    constrained: shift,
                },
                HitKind::Rotate => DragPlan::Rotate { constrained: shift },
            },
        ),
    }
}

/// What a tool that places shapes places.
pub open spec fn placed_kind(tool: Tool) -> Option<AnnotationKind> {
    match tool {
        Tool::Highlight => Some(AnnotationKind::Highlight),
        Tool::Arrow => Some(AnnotationKind::Arrow),
        Tool::Measure => Some(AnnotationKind::Measurement),
        Tool::Text => Some(AnnotationKind::Text),
        _ => None,
    }
}

fn kind_placed(tool: Tool) -> (kind: Option<AnnotationKind>)
    ensures
        kind == placed_kind(tool),
{
    match tool {
        Tool::Highlight => Some(AnnotationKind::Highlight),
        Tool::Arrow => Some(AnnotationKind::Arrow),
        Tool::Measure => Some(AnnotationKind::Measurement),
        Tool::Text => Some(AnnotationKind::Text),
        _ => None,
    }
}

/// The annotation that the pointer is over.
#[derive(Debug, Clone, Copy, PartialEq, Eq, Structural)]
pub struct Hit {
    pub id: AnnotationId,
    pub kind: AnnotationKind,
    pub part: HitKind,
}

/// What a key did.
#[derive(Debug, Clone, Copy, PartialEq, Eq, Structural)]
pub enum KeyUse {
    Ignored,
    Handled,
}

impl WindowView {
    /// The window with an annotation in the hand of the pointer.
    pub open spec fn grab_annotation(self, hit: Hit) -> WindowView {
        let selected = self.select_annotation(Some(hit.id), Some(hit.kind));
        selected.with_annotations(
            Annotations {
                drag: Some(
                    AnnotationDrag::Change { id: hit.id, kind: hit.kind, part: hit.part },
                ),
                ..selected.session.annotations
            },
        ).cancel_document_render().emit(
            if hit.kind == AnnotationKind::Measurement {
                Effect::ShowMeasurementBase(Some(hit.id))
            } else {
                Effect::ShowWithout(hit.id)
            },
        )
    }

    /// The window with an annotation being drawn.
    pub open spec fn begin_annotation(self, id: AnnotationId) -> WindowView {
        let tool = self.session.tools.tool;
        let deselected = self.select_annotation(None, None);
        let begun = deselected.with_annotations(
            Annotations {
                drag: Some(AnnotationDrag::Create { tool, id }),
                ..deselected.session.annotations
            },
        );
        if tool == Tool::Measure {
            begun.cancel_document_render().emit(Effect::ShowMeasurementBase(None))
        } else {
            begun
        }
    }

    /// Whether a press of a drawing tool closes the text editor.
    pub open spec fn press_closes_editor(self) -> bool {
        self.session.tools.tool.spec_is_annotation() && self.session.annotations.editor is Some
    }

    /// Whether a press takes hold of an annotation.
    pub open spec fn press_grabs(self, inside: bool, hit: Option<Hit>) -> bool {
        &&& self.session.tools.tool.spec_is_annotation()
        &&& !self.press_closes_editor()
        &&& inside
        &&& hit is Some
    }

    /// Whether a press starts to draw an annotation.
    pub open spec fn press_creates(self, inside: bool, hit: Option<Hit>) -> bool {
        &&& self.session.tools.tool.spec_is_vector_annotation()
        &&& !self.press_closes_editor()
        &&& inside
        &&& hit is None
        &&& self.session.content.has_document
    }

    /// The window after a press of a drawing tool.
    pub open spec fn annotation_pressed(
        self,
        inside: bool,
        hit: Option<Hit>,
        id: AnnotationId,
    ) -> WindowView {
        if self.press_closes_editor() {
            self.close_text_editor()
        } else if self.press_grabs(inside, hit) {
            self.grab_annotation(hit->0)
        } else if self.press_creates(inside, hit) {
            self.begin_annotation(id)
        } else {
            self
        }
    }

    /// The window with nothing kept of what was drawn.
    pub open spec fn discard_drag(self) -> WindowView {
        self.emit(Effect::DiscardAnnotationPreview).render_document()
    }

    /// The window with what was drawn in its document.
    pub open spec fn keep_drag(
        self,
        operation: Operation,
        id: AnnotationId,
        kind: AnnotationKind,
    ) -> WindowView {
        let applied = self.emit(Effect::PrepareDragged(id)).emit(
            Effect::CommitAnnotationPreview,
        ).apply(operation);
        applied.select_annotation(
            Some(id),
            if self.session.content.has_document {
                Some(kind)
            } else {
                None
            },
        )
    }

    /// The window after a drag has ended at a point of the image, or outside
    /// it. A short drag draws nothing but a text.
    pub open spec fn annotation_released(self, inside: bool, short: bool) -> WindowView {
        match self.session.annotations.drag {
            None => self,
            Some(drag) => {
                let ended = self.with_annotations(
                    Annotations { drag: None, ..self.session.annotations },
                ).emit(Effect::ClearPreviewQueue);
                if !inside {
                    ended.discard_drag()
                } else {
                    match drag {
                        AnnotationDrag::Create { tool, id } => if tool == Tool::Text {
                            ended.emit(Effect::DiscardAnnotationPreview).open_text_editor(
                                id,
                                EditorPlace::Drag,
                            )
                        } else if short {
                            ended.discard_drag()
                        } else {
                            match placed_kind(tool) {
                                Some(kind) => ended.keep_drag(
                                    Operation::CreateAnnotation(id),
                                    id,
                                    kind,
                                ),
                                None => ended.emit(Effect::DiscardAnnotationPreview),
                            }
                        },
                        AnnotationDrag::Change { id, kind, .. } => ended.keep_drag(
                            Operation::SetAnnotation(id),
                            id,
                            kind,
                        ),
                    }
                }
            },
        }
    }

    /// Whether a double click is about an annotation.
    pub open spec fn double_click_counts(
        self,
        presses: i32,
        inside: bool,
        hit: Option<Hit>,
    ) -> bool {
        presses == 2 && self.session.tools.tool.spec_is_annotation() && inside && hit is Some
    }

    /// The window after a double click: an arrow straightened, a text opened.
    pub open spec fn annotation_double_clicked(self, hit: Hit) -> WindowView {
        if hit.kind == AnnotationKind::Arrow && hit.part == HitKind::ControlHandle {
            self.emit(Effect::PrepareStraightened(hit.id)).apply(
                Operation::SetAnnotation(hit.id),
            ).select_annotation(
                Some(hit.id),
                if self.session.content.has_document {
                    Some(hit.kind)
                } else {
                    None
                },
            )
        } else if hit.kind == AnnotationKind::Text {
            self.select_annotation(Some(hit.id), Some(hit.kind)).open_text_editor(
                hit.id,
                EditorPlace::Existing,
            )
        } else {
            self
        }
    }

    /// Whether a double click does something with an annotation.
    pub open spec fn double_click_acts(hit: Hit) -> bool {
        hit.kind == AnnotationKind::Text || (hit.kind == AnnotationKind::Arrow && hit.part
            == HitKind::ControlHandle)
    }

    /// The selected annotation, where the document holds it.
    pub open spec fn found_selection(self) -> Option<(AnnotationId, AnnotationKind)> {
        match (self.session.annotations.selected, self.session.content.selected_kind) {
            (Some(id), Some(kind)) => Some((id, kind)),
            _ => None,
        }
    }

    /// The window with its selected annotation deleted.
    pub open spec fn delete_annotation(self, id: AnnotationId) -> WindowView {
        self.apply(Operation::DeleteAnnotation(id)).select_annotation(None, None).emit(
            Effect::FocusCanvas,
        )
    }

    /// The window on the way to a nudge of its selected annotation.
    pub open spec fn begin_nudge(
        self,
        id: AnnotationId,
        kind: AnnotationKind,
        step: (int, int),
    ) -> WindowView {
        self.emit(
            Effect::Nudge {
                id,
                dx: step.0 as i32,
                dy: step.1 as i32,
                whole_pixels: kind == AnnotationKind::Measurement,
                amend: self.session.annotations.nudged == Some(id),
            },
        )
    }

    /// The window after a nudge was prepared. `amended` tells whether it was
    /// merged into the nudge before it.
    pub open spec fn finish_nudge(self, id: AnnotationId, amended: bool) -> WindowView {
        if amended && self.session.annotations.nudged == Some(id) {
            self.emit(Effect::UpdateActionStates).render_document()
        } else {
            let applied = self.apply(Operation::SetAnnotation(id));
            applied.with_annotations(
                Annotations { nudged: Some(id), ..applied.session.annotations },
            )
        }
    }

    /// What a key does to the annotations, if anything.
    pub open spec fn annotation_key_use(self, key: Key) -> KeyUse {
        let deletes = key == Key::Delete || key == Key::KeypadDelete;
        let selected = self.session.annotations.selected;
        let found = self.found_selection();
        if (deletes || key == Key::BackSpace) && selected is Some {
            KeyUse::Handled
        } else if deletes && self.session.tools.tool == Tool::Idle {
            KeyUse::Handled
        } else if spec_arrow_step(key, no_modifiers()) is Some && found is Some {
            KeyUse::Handled
        } else if (key == Key::Return || key == Key::KeypadEnter) && found is Some && (found->0).1
            == AnnotationKind::Text {
            KeyUse::Handled
        } else {
            KeyUse::Ignored
        }
    }

    /// The window after a key that may be about an annotation.
    #[verifier::opaque]
    pub open spec fn handle_annotation_key(self, key: Key, modifiers: Modifiers) -> WindowView {
        let deletes = key == Key::Delete || key == Key::KeypadDelete;
        let selected = self.session.annotations.selected;
        let found = self.found_selection();
        let step = spec_arrow_step(key, modifiers);
        if (deletes || key == Key::BackSpace) && selected is Some {
            self.delete_annotation(selected->0)
        } else if deletes && self.session.tools.tool == Tool::Idle {
            if self.action_enabled(Action::DeleteFile) {
                self.confirm_delete_current_file()
            } else {
                self
            }
        } else if step is Some && found is Some {
            self.begin_nudge((found->0).0, (found->0).1, step->0)
        } else if (key == Key::Return || key == Key::KeypadEnter) && found is Some && (found->0).1
            == AnnotationKind::Text {
            self.open_text_editor((found->0).0, EditorPlace::Existing)
        } else {
            self
        }
    }

    /// The window with its selected annotation in another style.
    pub open spec fn update_selected_annotation_style(
        self,
        color: Option<[u8; 4]>,
        resize: bool,
    ) -> WindowView {
        match self.found_selection() {
            None => self,
            Some((id, _)) => self.emit(Effect::PrepareRestyled { id, color, resize }).apply(
                Operation::SetAnnotation(id),
            ),
        }
    }

    /// The window after the size control was moved by the user.
    pub open spec fn size_changed(self) -> WindowView {
        match self.session.tools.tool {
            Tool::Highlight | Tool::Measure => self,
            Tool::Text => self.emit(Effect::SaveTextSize).update_selected_annotation_style(
                None,
                true,
            ),
            _ => self.emit(Effect::SaveLineWidth).update_selected_annotation_style(None, true),
        }
    }

    /// The window after the typed text was confirmed.
    pub open spec fn text_confirmed(self, empty: bool) -> WindowView {
        match self.session.annotations.editor {
            None => self,
            Some(editor) => if empty {
                self.close_text_editor()
            } else {
                self.with_annotations(
                    Annotations { editor: None, ..self.session.annotations },
                ).emit(Effect::PrepareText(editor.id)).emit(
                    Effect::RemoveTextEditor { commit_preview: true },
                ).apply(
                    if editor.editing {
                        Operation::SetAnnotation(editor.id)
                    } else {
                        Operation::CreateAnnotation(editor.id)
                    },
                ).select_annotation(
                    Some(editor.id),
                    if self.session.content.has_document {
                        Some(AnnotationKind::Text)
                    } else {
                        None
                    },
                ).emit(Effect::FocusCanvas)
            },
        }
    }
}

/// No modifier held.
pub open spec fn no_modifiers() -> Modifiers {
    Modifiers {
        shift: false,
        control: false,
        alt: false,
        logo: false,
        hyper: false,
        meta: false,
        lock: false,
    }
}

impl ViewerWindow {
    fn grab_annotation(&mut self, hit: Hit)
        ensures
            final(self)@ == old(self)@.grab_annotation(hit),
    {
        self.select_annotation(Some(hit.id), Some(hit.kind));
        self.session.annotations = Annotations {
            drag: Some(AnnotationDrag::Change { id: hit.id, kind: hit.kind, part: hit.part }),
            ..self.session.annotations
        };
        self.cancel_document_render();
        if matches!(hit.kind, AnnotationKind::Measurement) {
            self.emit(Effect::ShowMeasurementBase(Some(hit.id)));
        } else {
            self.emit(Effect::ShowWithout(hit.id));
        }
    }

    fn begin_annotation(&mut self, id: AnnotationId)
        ensures
            final(self)@ == old(self)@.begin_annotation(id),
    {
        let tool = self.session.tools.tool;
        self.select_annotation(None, None);
        self.session.annotations = Annotations {
            drag: Some(AnnotationDrag::Create { tool, id }),
            ..self.session.annotations
        };
        if matches!(tool, Tool::Measure) {
            self.cancel_document_render();
            self.emit(Effect::ShowMeasurementBase(None));
        }
    }

    /// Whether a press starts to draw an annotation, which needs a new name.
    pub fn press_creates(&self, inside: bool, hit: Option<Hit>) -> (creates: bool)
        ensures
            creates == self@.press_creates(inside, hit),
    {
        self.session.tools.tool.is_vector_annotation() && self.session.annotations.editor.is_none()
            && inside && hit.is_none() && self.session.content.has_document
    }

    /// Closes the text editor, takes hold of the annotation under the pointer,
    /// or starts to draw one. `inside` tells whether the press is on the
    /// image. Tells whether the press is claimed.
    pub fn annotation_pressed(
        &mut self,
        inside: bool,
        hit: Option<Hit>,
        id: AnnotationId,
    ) -> (claimed: bool)
        ensures
            claimed == (old(self)@.press_closes_editor() || old(self)@.press_grabs(inside, hit)
                || old(self)@.press_creates(inside, hit)),
            final(self)@ == old(self)@.annotation_pressed(inside, hit, id),
    {
        if !self.session.tools.tool.is_annotation() {
            return false;
        }
        if self.close_text_editor() {
            return true;
        }
        if !inside {
            return false;
        }
        if let Some(hit) = hit {
            self.grab_annotation(hit);
            return true;
        }
        if self.session.tools.tool.is_vector_annotation() && self.session.content.has_document {
            self.begin_annotation(id);
            return true;
        }
        false
    }

    fn discard_drag(&mut self)
        ensures
            final(self)@ == old(self)@.discard_drag(),
    {
        self.emit(Effect::DiscardAnnotationPreview);
        self.render_document();
    }

    fn keep_drag(&mut self, operation: Operation, id: AnnotationId, kind: AnnotationKind)
        ensures
            final(self)@ == old(self)@.keep_drag(operation, id, kind),
    {
        let found = if self.session.content.has_document {
            Some(kind)
        } else {
            None
        };
        self.emit(Effect::PrepareDragged(id));
        self.emit(Effect::CommitAnnotationPreview);
        self.apply(operation);
        self.select_annotation(Some(id), found);
    }

    /// Ends a drag at a point of the image, or outside it. `short` tells that
    /// the pointer has hardly moved.
    pub fn annotation_released(&mut self, inside: bool, short: bool)
        ensures
            final(self)@ == old(self)@.annotation_released(inside, short),
    {
        let drag = match self.session.annotations.drag {
            None => {
                return;
            },
            Some(drag) => drag,
        };
        self.session.annotations = Annotations { drag: None, ..self.session.annotations };
        self.emit(Effect::ClearPreviewQueue);
        if !inside {
            self.discard_drag();
            return;
        }
        match drag {
            AnnotationDrag::Create { tool, id } => {
                if matches!(tool, Tool::Text) {
                    self.emit(Effect::DiscardAnnotationPreview);
                    self.open_text_editor(id, EditorPlace::Drag);
                } else if short {
                    self.discard_drag();
                } else {
                    match kind_placed(tool) {
                        Some(kind) => self.keep_drag(Operation::CreateAnnotation(id), id, kind),
                        None => self.emit(Effect::DiscardAnnotationPreview),
                    }
                }
            },
            AnnotationDrag::Change { id, kind, .. } => self.keep_drag(
                Operation::SetAnnotation(id),
                id,
                kind,
            ),
        }
    }

    /// Straightens an arrow, or opens a text. Tells whether the click is
    /// claimed.
    pub fn annotation_double_clicked(
        &mut self,
        presses: i32,
        inside: bool,
        hit: Option<Hit>,
    ) -> (claimed: bool)
        ensures
            claimed == (old(self)@.double_click_counts(presses, inside, hit)
                && WindowView::double_click_acts(hit->0)),
            final(self)@ == if claimed {
                old(self)@.annotation_double_clicked(hit->0)
            } else {
                old(self)@
            },
    {
        if presses != 2 || !self.session.tools.tool.is_annotation() || !inside {
            return false;
        }
        let hit = match hit {
            None => {
                return false;
            },
            Some(hit) => hit,
        };
        if matches!(hit.kind, AnnotationKind::Arrow) && matches!(hit.part, HitKind::ControlHandle) {
            let found = if self.session.content.has_document {
                Some(hit.kind)
            } else {
                None
            };
            self.emit(Effect::PrepareStraightened(hit.id));
            self.apply(Operation::SetAnnotation(hit.id));
            self.select_annotation(Some(hit.id), found);
            return true;
        }
        if matches!(hit.kind, AnnotationKind::Text) {
            self.select_annotation(Some(hit.id), Some(hit.kind));
            self.open_text_editor(hit.id, EditorPlace::Existing);
            return true;
        }
        false
    }

    fn begin_nudge(&mut self, id: AnnotationId, kind: AnnotationKind, step: (i32, i32))
        ensures
            final(self)@ == old(self)@.begin_nudge(id, kind, (step.0 as int, step.1 as int)),
    {
        let amend = match self.session.annotations.nudged {
            Some(nudged) => nudged == id,
            None => false,
        };
        let whole_pixels = matches!(kind, AnnotationKind::Measurement);
        self.emit(Effect::Nudge { id, dx: step.0, dy: step.1, whole_pixels, amend });
    }

    /// Takes a nudge that was prepared. `amended` tells whether the document
    /// merged it into the nudge before it.
    pub fn finish_nudge(&mut self, id: AnnotationId, amended: bool)
        ensures
            final(self)@ == old(self)@.finish_nudge(id, amended),
    {
        let merged = match self.session.annotations.nudged {
            Some(nudged) => amended && nudged == id,
            None => false,
        };
        if merged {
            self.emit(Effect::UpdateActionStates);
            self.render_document();
            return;
        }
        self.apply(Operation::SetAnnotation(id));
        self.session.annotations = Annotations {
            nudged: Some(id),
            ..self.session.annotations
        };
    }

    /// Deletes, nudges or opens the selected annotation, or has the file
    /// deleted where that can be done now. Tells whether the key meant any of
    /// these.
    pub fn handle_annotation_key(&mut self, key: Key, modifiers: Modifiers) -> (used: KeyUse)
        ensures
            used == old(self)@.annotation_key_use(key),
            final(self)@ == old(self)@.handle_annotation_key(key, modifiers),
    {
        proof {
            reveal(WindowView::handle_annotation_key);
        }
        let deletes = matches!(key, Key::Delete | Key::KeypadDelete);
        if deletes || matches!(key, Key::BackSpace) {
            if let Some(id) = self.session.annotations.selected {
                self.apply(Operation::DeleteAnnotation(id));
                self.select_annotation(None, None);
                self.emit(Effect::FocusCanvas);
                return KeyUse::Handled;
            }
        }
        if deletes && matches!(self.session.tools.tool, Tool::Idle) {
            if self.action_enabled(Action::DeleteFile) {
                self.confirm_delete_current_file();
            }
            return KeyUse::Handled;
        }
        let found = match (
            self.session.annotations.selected,
            self.session.content.selected_kind,
        ) {
            (Some(id), Some(kind)) => (id, kind),
            _ => {
                return KeyUse::Ignored;
            },
        };
        if let Some(step) = arrow_step(key, modifiers) {
            self.begin_nudge(found.0, found.1, step);
            return KeyUse::Handled;
        }
        if matches!(key, Key::Return | Key::KeypadEnter) && matches!(found.1, AnnotationKind::Text) {
            self.open_text_editor(found.0, EditorPlace::Existing);
            return KeyUse::Handled;
        }
        KeyUse::Ignored
    }

    /// Gives the selected annotation another colour, or the size of the size
    /// control.
    pub fn update_selected_annotation_style(&mut self, color: Option<[u8; 4]>, resize: bool)
        ensures
            final(self)@ == old(self)@.update_selected_annotation_style(color, resize),
    {
        if let (Some(id), Some(_)) = (
            self.session.annotations.selected,
            self.session.content.selected_kind,
        ) {
            self.emit(Effect::PrepareRestyled { id, color, resize });
            self.apply(Operation::SetAnnotation(id));
        }
    }

    /// Keeps the size that the user chose, for the tool that has one.
    pub fn size_changed(&mut self)
        ensures
            final(self)@ == old(self)@.size_changed(),
    {
        match self.session.tools.tool {
            Tool::Highlight | Tool::Measure => {},
            Tool::Text => {
                self.emit(Effect::SaveTextSize);
                self.update_selected_annotation_style(None, true);
            },
            _ => {
                self.emit(Effect::SaveLineWidth);
                self.update_selected_annotation_style(None, true);
            },
        }
    }

    /// Takes the typed text over into the document; an empty one is dropped.
    pub fn text_confirmed(&mut self, empty: bool)
        ensures
            final(self)@ == old(self)@.text_confirmed(empty),
    {
        let editor = match self.session.annotations.editor {
            None => {
                return;
            },
            Some(editor) => editor,
        };
        if empty {
            self.close_text_editor();
            return;
        }
        let found = if self.session.content.has_document {
            Some(AnnotationKind::Text)
        } else {
            None
        };
        self.session.annotations = Annotations { editor: None, ..self.session.annotations };
        self.emit(Effect::PrepareText(editor.id));
        self.emit(Effect::RemoveTextEditor { commit_preview: true });
        if editor.editing {
            self.apply(Operation::SetAnnotation(editor.id));
        } else {
            self.apply(Operation::CreateAnnotation(editor.id));
        }
        self.select_annotation(Some(editor.id), found);
        self.emit(Effect::FocusCanvas);
    }
}

/// Whether the window has asked for a change of the document since then.
pub open spec fn changed_since(before: WindowView, after: WindowView) -> bool {
    exists|i: int|
        before.effects.len() <= i < after.effects.len() && (#[trigger] after.effects[i]) is Apply
}

/// What is given up does not change the document: a drag or a text that is
/// cancelled, a drag that ends outside the image, and a shape that was hardly
/// drawn.
pub proof fn given_up_drags_change_nothing(window: WindowView, tool: Tool, id: AnnotationId)
    requires
        window.session.annotations.drag == Some(AnnotationDrag::Create { tool, id }),
        window.session.annotations.editor is None,
    ensures
        !changed_since(window, window.cancel_annotation_drag()),
        !changed_since(window, window.annotation_released(false, true)),
        !changed_since(window, window.annotation_released(false, false)),
        !changed_since(window, window.annotation_released(true, true)),
{
}

/// A drag is over once the pointer is let go.
pub proof fn released_drags_are_over(window: WindowView, inside: bool, short: bool)
    ensures
        window.annotation_released(inside, short).session.annotations.drag is None,
{
}

/// A nudge that follows another nudge of the same annotation is merged into
/// it; after any other change of the document it is not.
pub proof fn nudges_merge_only_with_nudges(
    window: WindowView,
    id: AnnotationId,
    kind: AnnotationKind,
    step: (int, int),
    other: Operation,
)
    ensures
        ({
            let nudged = window.finish_nudge(id, false).begin_nudge(id, kind, step);
            let separate = window.finish_nudge(id, false).apply(other).begin_nudge(id, kind, step);
            &&& nudged.effects.last() matches Effect::Nudge { amend, .. } && amend
            &&& separate.effects.last() matches Effect::Nudge { amend, .. } && !amend
            &&& window.apply(other).finish_nudge(id, true) == window.apply(other).finish_nudge(
                id,
                false,
            )
        }),
{
}

/// Deleting the selected annotation asks for just that, and leaves nothing
/// selected.
pub proof fn deleting_deselects(window: WindowView, id: AnnotationId)
    requires
        window.session.annotations.selected == Some(id),
        window.session.content.has_document,
    ensures
        ({
            let after = window.handle_annotation_key(Key::Delete, no_modifiers());
            &&& after.session.annotations.selected is None
            &&& after.effects[window.effects.len() as int] == Effect::Apply(
                Operation::DeleteAnnotation(id),
            )
        }),
{
    reveal(WindowView::handle_annotation_key);
}

/// With nothing selected and no tool active, the keys that delete ask about the
/// file just as the action does, and are claimed without an effect where the
/// action cannot be used.
pub proof fn deleting_keys_obey_the_action(window: WindowView, key: Key, modifiers: Modifiers)
    requires
        key == Key::Delete || key == Key::KeypadDelete,
        window.session.annotations.selected is None,
        window.session.tools.tool == Tool::Idle,
    ensures
        window.annotation_key_use(key) == KeyUse::Handled,
        window.handle_annotation_key(key, modifiers) == if window.action_enabled(
            Action::DeleteFile,
        ) {
            window.confirm_delete_current_file()
        } else {
            window
        },
{
    reveal(WindowView::handle_annotation_key);
}

} // verus!
