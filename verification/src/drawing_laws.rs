//! What comes of drawing: which annotation is placed, changed, selected or
//! deleted by what is done to the image.

use crate::actions::Action;
use crate::annotation::{drag_plan, DragPlan, Hit, KeyUse};
use crate::asking::{
    asks_for, asks_just, edits_at, edits_just, edits_nothing,
};
use crate::document::RenderOutcome;
use crate::effect::{
    Announcement, AnnotationId, AnnotationKind, EditorPlace, Effect, Notice, Operation,
};
use crate::keys::{Key, Modifiers};
use crate::tool::Tool;
use crate::window::{AnnotationDrag, HitKind, TextEditor, WindowView};
use vstd::prelude::*;

verus! {

/// Whether an annotation of that kind is the selected one.
pub open spec fn selects(window: WindowView, id: AnnotationId, kind: AnnotationKind) -> bool {
    window.session.annotations.selected == Some(id) && window.session.content.selected_kind == Some(
        kind,
    )
}

/// A change is asked for once, and the document is then rendered anew under a
/// number that makes every render before it out of date. Without a document there
/// is a message in its place.
pub proof fn edits_are_applied_and_rendered(window: WindowView, operation: Operation)
    ensures
        ({
            let after = window.apply(operation);
            let render = after.session.generations.render;
            if window.session.content.has_document {
                &&& edits_just(window, after, operation)
                &&& after.effects[window.effects.len() as int] == Effect::Apply(operation)
                &&& asks_for(window, after, Effect::UpdateActionStates)
                &&& asks_for(window, after, Effect::UpdateTitle)
                &&& after.effects.last() == Effect::StartRender(render)
                &&& render != window.session.generations.render
            } else {
                &&& asks_just(window, after, seq![Effect::Notify(Notice::OpenEditableFirst)])
                &&& render == window.session.generations.render
            }
        }),
        ({
            let after = window.apply(operation);
            &&& after.session.content == window.session.content
            &&& after.session.tools == window.session.tools
            &&& after.session.region == window.session.region
            &&& after.session.annotations.selected == window.session.annotations.selected
            &&& after.session.annotations.drag == window.session.annotations.drag
            &&& after.files == window.files
        }),
{
    let after = window.apply(operation);
    let place = window.effects.len() as int;
    if window.session.content.has_document {
        assert(edits_at(window, after, place, operation));
        assert(after.effects[place + 1] == Effect::UpdateActionStates);
        assert(after.effects[place + 2] == Effect::UpdateTitle);
    } else {
        assert(after.effects =~= window.effects + seq![Effect::Notify(Notice::OpenEditableFirst)]);
    }
}

/// Each action that turns or mirrors the image asks for that change and no
/// other: the four differ.
pub proof fn turns_and_flips_do_what_they_say(window: WindowView)
    requires
        window.session.content.has_document,
    ensures
        edits_just(window, window.activate(Action::RotateClockwise), Operation::RotateClockwise),
        edits_just(
            window,
            window.activate(Action::RotateCounterclockwise),
            Operation::RotateCounterclockwise,
        ),
        edits_just(window, window.activate(Action::FlipHorizontal), Operation::FlipHorizontal),
        edits_just(window, window.activate(Action::FlipVertical), Operation::FlipVertical),
{
    reveal(WindowView::editing_action);
    edits_are_applied_and_rendered(window, Operation::RotateClockwise);
    edits_are_applied_and_rendered(window, Operation::RotateCounterclockwise);
    edits_are_applied_and_rendered(window, Operation::FlipHorizontal);
    edits_are_applied_and_rendered(window, Operation::FlipVertical);
}

/// Undo steps back through the changes of the document and redo steps forward;
/// neither adds a change of its own. Where the step changed something, the
/// document is rendered anew.
pub proof fn history_goes_both_ways(window: WindowView, changed: bool)
    ensures
        asks_just(window, window.activate(Action::Undo), seq![Effect::StepHistory { redo: false }]),
        asks_just(window, window.activate(Action::Redo), seq![Effect::StepHistory { redo: true }]),
        window.activate(Action::Undo).session.annotations.nudged is None,
        window.activate(Action::Redo).session.annotations.nudged is None,
        ({
            let after = window.history_stepped(changed);
            &&& after.effects.last() == Effect::UpdateActionStates
            &&& edits_nothing(window, after)
            &&& changed && window.session.content.has_document ==> asks_for(
                window,
                after,
                Effect::StartRender(after.session.generations.render),
            ) && after.session.generations.render != window.session.generations.render
            &&& !changed ==> after.session == window.session
        }),
{
    reveal(WindowView::editing_action);
    assert(window.activate(Action::Undo).effects =~= window.effects + seq![
        Effect::StepHistory { redo: false },
    ]);
    assert(window.activate(Action::Redo).effects =~= window.effects + seq![
        Effect::StepHistory { redo: true },
    ]);
    let after = window.history_stepped(changed);
    if changed && window.session.content.has_document {
        assert(after.effects[after.effects.len() - 2] == Effect::StartRender(
            after.session.generations.render,
        ));
    }
}

/// A render that is the current one and still that of the document is shown, with
/// its size; the selected annotation stays selected where the document holds it.
/// A failed one is reported and leaves the picture as it is.
pub proof fn renders_are_shown(window: WindowView, adopted: bool, size: (u32, u32))
    ensures
        ({
            let current = window.session.generations.render;
            let shown = window.render_finished(current, RenderOutcome::Rendered { adopted, size });
            &&& adopted ==> {
                &&& shown.session.content.rendered == Some(size)
                &&& shown.session.content.texture == Some(size)
                &&& asks_for(window, shown, Effect::ShowRender)
                &&& asks_for(window, shown, Effect::UpdateSubtitle)
                &&& asks_for(window, shown, Effect::UpdateActionStates)
                &&& shown.session.annotations.selected
                    == if window.session.content.selected_kind is Some {
                    window.session.annotations.selected
                } else {
                    None
                }
            }
            &&& !adopted ==> shown == window
            &&& window.render_finished(current, RenderOutcome::Cancelled) == window
            &&& asks_just(
                window,
                window.render_finished(current, RenderOutcome::Failed),
                seq![Effect::Notify(Notice::Failure)],
            )
            &&& asks_just(
                window,
                window.render_finished(current, RenderOutcome::WorkerFailed),
                seq![Effect::Notify(Notice::ProcessingWorkerFailed)],
            )
            &&& window.render_finished(current, RenderOutcome::Failed).session == window.session
        }),
{
    let current = window.session.generations.render;
    let shown = window.render_finished(current, RenderOutcome::Rendered { adopted, size });
    if adopted {
        let place = window.effects.len() as int;
        assert(shown.effects[place] == Effect::ShowRender);
        assert(shown.effects[place + 3] == Effect::UpdateSubtitle);
        assert(shown.effects[place + 4] == Effect::UpdateActionStates);
    }
    assert(window.render_finished(current, RenderOutcome::Failed).effects =~= window.effects
        + seq![Effect::Notify(Notice::Failure)]);
    assert(window.render_finished(current, RenderOutcome::WorkerFailed).effects =~= window.effects
        + seq![Effect::Notify(Notice::ProcessingWorkerFailed)]);
}

/// What is selected shows its handles and is announced by its kind; selecting
/// nothing takes them away.
pub proof fn selections_are_shown(window: WindowView, id: AnnotationId, kind: AnnotationKind)
    ensures
        ({
            let after = window.select_annotation(Some(id), Some(kind));
            &&& selects(after, id, kind)
            &&& asks_just(
                window,
                after,
                seq![
                    Effect::ShowSelection(Some(id)),
                    Effect::Announce(Announcement::AnnotationSelected(kind)),
                ],
            )
        }),
        ({
            let after = window.select_annotation(None, None);
            &&& after.session.annotations.selected is None
            &&& after.session.content.selected_kind is None
            &&& asks_just(window, after, seq![Effect::ShowSelection(None)])
        }),
        window.select_annotation(Some(id), None).session.annotations.selected is None,
{
    assert(window.select_annotation(Some(id), Some(kind)).effects =~= window.effects + seq![
        Effect::ShowSelection(Some(id)),
        Effect::Announce(Announcement::AnnotationSelected(kind)),
    ]);
    assert(window.select_annotation(None, None).effects =~= window.effects + seq![
        Effect::ShowSelection(None),
    ]);
}

/// A shape that was drawn is kept: letting go of a highlight, an arrow or a
/// measurement on the image, some way from where it began, places it in the
/// document and selects it.
pub proof fn drawn_shapes_are_placed(window: WindowView, tool: Tool, id: AnnotationId)
    requires
        window.session.content.has_document,
        window.session.annotations.drag == Some(AnnotationDrag::Create { tool, id }),
        tool == Tool::Highlight || tool == Tool::Arrow || tool == Tool::Measure,
    ensures
        ({
            let after = window.annotation_released(true, false);
            &&& edits_just(window, after, Operation::CreateAnnotation(id))
            &&& asks_for(window, after, Effect::PrepareDragged(id))
            &&& asks_for(window, after, Effect::CommitAnnotationPreview)
            &&& !asks_for(window, after, Effect::DiscardAnnotationPreview)
            &&& tool == Tool::Highlight ==> selects(after, id, AnnotationKind::Highlight)
            &&& tool == Tool::Arrow ==> selects(after, id, AnnotationKind::Arrow)
            &&& tool == Tool::Measure ==> selects(after, id, AnnotationKind::Measurement)
        }),
{
    let after = window.annotation_released(true, false);
    let place = window.effects.len() as int;
    assert(edits_at(window, after, place + 3, Operation::CreateAnnotation(id)));
    assert(after.effects[place + 1] == Effect::PrepareDragged(id));
    assert(after.effects[place + 2] == Effect::CommitAnnotationPreview);
}

/// An annotation that was moved or bent stays so: letting go of it on the image
/// changes just that annotation, which stays selected.
pub proof fn dragged_annotations_are_changed(
    window: WindowView,
    id: AnnotationId,
    kind: AnnotationKind,
    part: HitKind,
    short: bool,
)
    requires
        window.session.content.has_document,
        window.session.annotations.drag == Some(AnnotationDrag::Change { id, kind, part }),
    ensures
        ({
            let after = window.annotation_released(true, short);
            &&& edits_just(window, after, Operation::SetAnnotation(id))
            &&& asks_for(window, after, Effect::PrepareDragged(id))
            &&& selects(after, id, kind)
        }),
        ({
            let outside = window.annotation_released(false, short);
            &&& edits_nothing(window, outside)
            &&& asks_for(window, outside, Effect::DiscardAnnotationPreview)
            &&& asks_for(
                window,
                outside,
                Effect::StartRender(outside.session.generations.render),
            )
        }),
{
    let after = window.annotation_released(true, short);
    let place = window.effects.len() as int;
    assert(edits_at(window, after, place + 3, Operation::SetAnnotation(id)));
    assert(after.effects[place + 1] == Effect::PrepareDragged(id));
    let outside = window.annotation_released(false, short);
    assert(outside.effects[place + 1] == Effect::DiscardAnnotationPreview);
    assert(outside.effects.last() == Effect::StartRender(outside.session.generations.render));
}

/// A text is typed where it was dragged out, however short the drag: the
/// document is not changed before it is confirmed.
pub proof fn dragged_texts_are_typed(window: WindowView, id: AnnotationId, short: bool)
    requires
        window.session.annotations.drag == Some(AnnotationDrag::Create { tool: Tool::Text, id }),
    ensures
        ({
            let after = window.annotation_released(true, short);
            &&& edits_nothing(window, after)
            &&& after.session.annotations.editor == Some(TextEditor { id, editing: false })
            &&& after.effects.last() == Effect::OpenTextEditor { id, place: EditorPlace::Drag }
        }),
{
}

/// A shape that was hardly drawn is given up, and the document shown without it.
pub proof fn short_drags_draw_nothing(window: WindowView, tool: Tool, id: AnnotationId)
    requires
        window.session.content.has_document,
        window.session.annotations.drag == Some(AnnotationDrag::Create { tool, id }),
        tool != Tool::Text,
    ensures
        ({
            let after = window.annotation_released(true, true);
            &&& edits_nothing(window, after)
            &&& asks_for(window, after, Effect::DiscardAnnotationPreview)
            &&& asks_for(window, after, Effect::StartRender(after.session.generations.render))
            &&& after.session.annotations.selected == window.session.annotations.selected
        }),
{
    let after = window.annotation_released(true, true);
    assert(after.effects[window.effects.len() as int + 1] == Effect::DiscardAnnotationPreview);
    assert(after.effects.last() == Effect::StartRender(after.session.generations.render));
}

/// A press on an annotation takes hold of the part that it is on, whichever tool
/// draws, and selects the annotation; the document is shown without it.
pub proof fn presses_take_hold(window: WindowView, hit: Hit, id: AnnotationId)
    requires
        window.session.annotations.editor is None,
    ensures
        ({
            let tool = window.session.tools.tool;
            let draws = tool == Tool::Pencil || tool == Tool::Highlight || tool == Tool::Arrow
                || tool == Tool::Measure || tool == Tool::Text;
            let after = window.annotation_pressed(true, Some(hit), id);
            if draws {
                &&& window.press_grabs(true, Some(hit))
                &&& after.session.annotations.drag == Some(
                    AnnotationDrag::Change { id: hit.id, kind: hit.kind, part: hit.part },
                )
                &&& selects(after, hit.id, hit.kind)
                &&& edits_nothing(window, after)
                &&& asks_for(window, after, Effect::CancelRender)
                &&& after.session.generations.render != window.session.generations.render
                &&& hit.kind == AnnotationKind::Measurement ==> after.effects.last()
                    == Effect::ShowMeasurementBase(Some(hit.id))
                &&& hit.kind != AnnotationKind::Measurement ==> after.effects.last()
                    == Effect::ShowWithout(hit.id)
            } else {
                !window.press_grabs(true, Some(hit)) && !window.press_creates(true, Some(hit))
                    && after == window
            }
        }),
{
    let after = window.annotation_pressed(true, Some(hit), id);
    if window.press_grabs(true, Some(hit)) {
        assert(after.effects[window.effects.len() as int + 2] == Effect::CancelRender);
    }
}

/// A press beside every annotation starts a new one of the active tool, for each
/// tool that places shapes; the pencil and the tools that do not draw leave it
/// alone.
pub proof fn presses_start_shapes(window: WindowView, id: AnnotationId)
    requires
        window.session.annotations.editor is None,
        window.session.content.has_document,
    ensures
        ({
            let tool = window.session.tools.tool;
            let places = tool == Tool::Highlight || tool == Tool::Arrow || tool == Tool::Measure
                || tool == Tool::Text;
            let after = window.annotation_pressed(true, None, id);
            if places {
                &&& window.press_creates(true, None)
                &&& after.session.annotations.drag == Some(AnnotationDrag::Create { tool, id })
                &&& after.session.annotations.selected is None
                &&& edits_nothing(window, after)
                &&& tool == Tool::Measure ==> after.effects.last() == Effect::ShowMeasurementBase(
                    None,
                )
            } else {
                !window.press_creates(true, None) && after == window
            }
        }),
        !window.press_creates(false, None),
        !window.press_grabs(false, None),
        window.annotation_pressed(false, None, id) == window,
{
}

/// While a text is typed, a press of a drawing tool ends the typing and does
/// nothing else: the text is dropped and no shape is begun.
pub proof fn presses_end_typing(
    window: WindowView,
    inside: bool,
    hit: Option<Hit>,
    id: AnnotationId,
)
    requires
        window.session.annotations.editor is Some,
        window.session.tools.tool == Tool::Pencil || window.session.tools.tool == Tool::Highlight
            || window.session.tools.tool == Tool::Arrow || window.session.tools.tool
            == Tool::Measure || window.session.tools.tool == Tool::Text,
    ensures
        ({
            let after = window.annotation_pressed(inside, hit, id);
            &&& window.press_closes_editor()
            &&& after.session.annotations.editor is None
            &&& after.session.annotations.drag == window.session.annotations.drag
            &&& after.session.annotations.selected == window.session.annotations.selected
            &&& edits_nothing(window, after)
            &&& asks_for(
                window,
                after,
                Effect::RemoveTextEditor { commit_preview: false },
            )
        }),
{
    let after = window.annotation_pressed(inside, hit, id);
    assert(after.effects[window.effects.len() as int] == Effect::RemoveTextEditor {
        commit_preview: false,
    });
}

/// What a drag makes of an annotation follows from what was taken hold of: its
/// body moves it, an end or the bending point moves alone, the handle above a
/// text turns it; a new one is of the tool that drew it.
pub proof fn drags_do_what_was_taken_hold_of(
    id: AnnotationId,
    kind: AnnotationKind,
    shift: bool,
)
    ensures
        drag_plan(AnnotationDrag::Change { id, kind, part: HitKind::Body }, shift) == Some(
            DragPlan::Move { whole_pixels: kind == AnnotationKind::Measurement },
        ),
        drag_plan(AnnotationDrag::Change { id, kind, part: HitKind::Handle }, shift) == Some(
            DragPlan::Handle { constrained: shift },
        ),
        drag_plan(AnnotationDrag::Change { id, kind, part: HitKind::ControlHandle }, shift) == Some(
            DragPlan::Handle { constrained: shift },
        ),
        drag_plan(AnnotationDrag::Change { id, kind, part: HitKind::Rotate }, shift) == Some(
            DragPlan::Rotate { constrained: shift },
        ),
        drag_plan(AnnotationDrag::Create { tool: Tool::Arrow, id }, shift) == Some(
            DragPlan::Arrow,
        ),
        drag_plan(AnnotationDrag::Create { tool: Tool::Measure, id }, shift) == Some(
            DragPlan::Measure,
        ),
        drag_plan(AnnotationDrag::Create { tool: Tool::Text, id }, shift) == Some(DragPlan::Text),
        drag_plan(AnnotationDrag::Create { tool: Tool::Highlight, id }, shift) matches Some(
            DragPlan::Highlight { .. },
        ),
{
}

/// A second click on the bend of an arrow straightens it, and one on a text opens
/// it for typing; any other annotation, and any other number of clicks, is left
/// alone.
pub proof fn double_clicks_straighten_and_open(window: WindowView, hit: Hit, presses: i32)
    requires
        window.session.content.has_document,
    ensures
        ({
            let tool = window.session.tools.tool;
            let draws = tool == Tool::Pencil || tool == Tool::Highlight || tool == Tool::Arrow
                || tool == Tool::Measure || tool == Tool::Text;
            &&& window.double_click_counts(presses, true, Some(hit)) <==> draws && presses == 2
            &&& !window.double_click_counts(presses, false, Some(hit))
            &&& !window.double_click_counts(presses, true, None)
        }),
        ({
            let after = window.annotation_double_clicked(hit);
            if hit.kind == AnnotationKind::Arrow && hit.part == HitKind::ControlHandle {
                &&& WindowView::double_click_acts(hit)
                &&& edits_just(window, after, Operation::SetAnnotation(hit.id))
                &&& after.effects[window.effects.len() as int] == Effect::PrepareStraightened(
                    hit.id,
                )
                &&& selects(after, hit.id, hit.kind)
                &&& after.session.annotations.editor == window.session.annotations.editor
            } else if hit.kind == AnnotationKind::Text {
                &&& WindowView::double_click_acts(hit)
                &&& edits_nothing(window, after)
                &&& selects(after, hit.id, hit.kind)
                &&& after.session.annotations.editor == Some(
                    TextEditor { id: hit.id, editing: true },
                )
                &&& after.effects.last() == Effect::OpenTextEditor {
                    id: hit.id,
                    place: EditorPlace::Existing,
                }
            } else {
                !WindowView::double_click_acts(hit)
            }
        }),
{
    let after = window.annotation_double_clicked(hit);
    let place = window.effects.len() as int;
    if hit.kind == AnnotationKind::Arrow && hit.part == HitKind::ControlHandle {
        assert(edits_at(window, after, place + 1, Operation::SetAnnotation(hit.id)));
    }
}

/// Each key that deletes takes the selected annotation out of the document, and
/// no other one.
pub proof fn deleting_keys_delete_the_selected(
    window: WindowView,
    id: AnnotationId,
    key: Key,
    modifiers: Modifiers,
)
    requires
        window.session.content.has_document,
        window.session.annotations.selected == Some(id),
        key == Key::Delete || key == Key::KeypadDelete || key == Key::BackSpace,
    ensures
        ({
            let after = window.handle_annotation_key(key, modifiers);
            &&& window.annotation_key_use(key) == KeyUse::Handled
            &&& edits_just(window, after, Operation::DeleteAnnotation(id))
            &&& after.session.annotations.selected is None
            &&& after.session.content.selected_kind is None
            &&& after.effects.last() == Effect::FocusCanvas
        }),
{
    reveal(WindowView::handle_annotation_key);
    let after = window.handle_annotation_key(key, modifiers);
    assert(edits_at(
        window,
        after,
        window.effects.len() as int,
        Operation::DeleteAnnotation(id),
    ));
}

/// An arrow key moves the selected annotation its own way, by one pixel or with
/// Shift by ten; opposite keys move it back.
pub proof fn arrow_keys_nudge_the_selected(
    window: WindowView,
    id: AnnotationId,
    kind: AnnotationKind,
    modifiers: Modifiers,
)
    requires
        selects(window, id, kind),
    ensures
        ({
            let far: i32 = if modifiers.shift {
                10
            } else {
                1
            };
            let whole_pixels = kind == AnnotationKind::Measurement;
            let amend = window.session.annotations.nudged == Some(id);
            let back: i32 = (0 - far) as i32;
            &&& asks_just(
                window,
                window.handle_annotation_key(Key::Left, modifiers),
                seq![Effect::Nudge { id, dx: back, dy: 0, whole_pixels, amend }],
            )
            &&& asks_just(
                window,
                window.handle_annotation_key(Key::Right, modifiers),
                seq![Effect::Nudge { id, dx: far, dy: 0, whole_pixels, amend }],
            )
            &&& asks_just(
                window,
                window.handle_annotation_key(Key::Up, modifiers),
                seq![Effect::Nudge { id, dx: 0, dy: back, whole_pixels, amend }],
            )
            &&& asks_just(
                window,
                window.handle_annotation_key(Key::Down, modifiers),
                seq![Effect::Nudge { id, dx: 0, dy: far, whole_pixels, amend }],
            )
        }),
        window.annotation_key_use(Key::Left) == KeyUse::Handled,
        window.annotation_key_use(Key::Right) == KeyUse::Handled,
        window.annotation_key_use(Key::Up) == KeyUse::Handled,
        window.annotation_key_use(Key::Down) == KeyUse::Handled,
{
    reveal(WindowView::handle_annotation_key);
    let far: i32 = if modifiers.shift {
        10
    } else {
        1
    };
    let back: i32 = (0 - far) as i32;
    let whole_pixels = kind == AnnotationKind::Measurement;
    let amend = window.session.annotations.nudged == Some(id);
    assert(window.handle_annotation_key(Key::Left, modifiers).effects =~= window.effects + seq![
        Effect::Nudge { id, dx: back, dy: 0, whole_pixels, amend },
    ]);
    assert(window.handle_annotation_key(Key::Right, modifiers).effects =~= window.effects + seq![
        Effect::Nudge { id, dx: far, dy: 0, whole_pixels, amend },
    ]);
    assert(window.handle_annotation_key(Key::Up, modifiers).effects =~= window.effects + seq![
        Effect::Nudge { id, dx: 0, dy: back, whole_pixels, amend },
    ]);
    assert(window.handle_annotation_key(Key::Down, modifiers).effects =~= window.effects + seq![
        Effect::Nudge { id, dx: 0, dy: far, whole_pixels, amend },
    ]);
}

/// Return opens the selected annotation where it is a text, and means nothing to
/// any other; keys that are about no annotation are left to others.
pub proof fn return_opens_selected_texts(
    window: WindowView,
    id: AnnotationId,
    kind: AnnotationKind,
    key: Key,
    modifiers: Modifiers,
)
    requires
        selects(window, id, kind),
        key == Key::Return || key == Key::KeypadEnter,
    ensures
        ({
            let after = window.handle_annotation_key(key, modifiers);
            if kind == AnnotationKind::Text {
                &&& window.annotation_key_use(key) == KeyUse::Handled
                &&& edits_nothing(window, after)
                &&& after.session.annotations.editor == Some(TextEditor { id, editing: true })
                &&& after.effects.last() == Effect::OpenTextEditor {
                    id,
                    place: EditorPlace::Existing,
                }
            } else {
                &&& window.annotation_key_use(key) == KeyUse::Ignored
                &&& after == window
            }
        }),
        window.annotation_key_use(Key::Other) == KeyUse::Ignored,
        window.annotation_key_use(Key::Escape) == KeyUse::Ignored,
        window.annotation_key_use(Key::Space) == KeyUse::Ignored,
{
    reveal(WindowView::handle_annotation_key);
}

/// A nudge changes just that annotation, and is remembered so that the next one
/// can be merged into it; a merged one adds no change of its own.
pub proof fn nudges_change_the_annotation(window: WindowView, id: AnnotationId, amended: bool)
    requires
        window.session.content.has_document,
    ensures
        ({
            let after = window.finish_nudge(id, amended);
            let merged = amended && window.session.annotations.nudged == Some(id);
            &&& after.session.annotations.nudged == Some(id)
            &&& after.session.annotations.selected == window.session.annotations.selected
            &&& merged ==> edits_nothing(window, after)
            &&& !merged ==> edits_just(window, after, Operation::SetAnnotation(id))
            &&& after.effects.last() == Effect::StartRender(after.session.generations.render)
            &&& after.session.generations.render != window.session.generations.render
        }),
{
    let after = window.finish_nudge(id, amended);
    if !(amended && window.session.annotations.nudged == Some(id)) {
        assert(edits_at(
            window,
            after,
            window.effects.len() as int,
            Operation::SetAnnotation(id),
        ));
    }
}

/// A colour or a size that is chosen changes the selected annotation, and that
/// one alone; with none selected it changes nothing of the document.
pub proof fn styles_change_the_selected(
    window: WindowView,
    id: AnnotationId,
    kind: AnnotationKind,
    color: Option<[u8; 4]>,
    resize: bool,
)
    requires
        window.session.content.has_document,
    ensures
        selects(window, id, kind) ==> {
            let after = window.update_selected_annotation_style(color, resize);
            &&& edits_just(window, after, Operation::SetAnnotation(id))
            &&& after.effects[window.effects.len() as int] == Effect::PrepareRestyled {
                id,
                color,
                resize,
            }
            &&& selects(after, id, kind)
        },
        window.session.annotations.selected is None ==> window.update_selected_annotation_style(
            color,
            resize,
        ) == window,
{
    if selects(window, id, kind) {
        let after = window.update_selected_annotation_style(color, resize);
        assert(edits_at(
            window,
            after,
            window.effects.len() as int + 1,
            Operation::SetAnnotation(id),
        ));
    }
}

/// The size control is that of the text for the text tool and that of the line
/// elsewhere; highlights and measurements have none. The selected annotation
/// follows it in size, and keeps its colour.
pub proof fn sizes_belong_to_their_tools(window: WindowView, id: AnnotationId, kind: AnnotationKind)
    requires
        window.session.content.has_document,
    ensures
        ({
            let tool = window.session.tools.tool;
            let after = window.size_changed();
            let saved = if tool == Tool::Text {
                Effect::SaveTextSize
            } else {
                Effect::SaveLineWidth
            };
            if tool == Tool::Highlight || tool == Tool::Measure {
                after == window
            } else {
                &&& after.effects[window.effects.len() as int] == saved
                &&& selects(window, id, kind) ==> {
                    &&& edits_just(window, after, Operation::SetAnnotation(id))
                    &&& asks_for(
                        window,
                        after,
                        Effect::PrepareRestyled { id, color: None, resize: true },
                    )
                }
                &&& window.session.annotations.selected is None ==> asks_just(
                    window,
                    after,
                    seq![saved],
                )
            }
        }),
{
    let tool = window.session.tools.tool;
    let after = window.size_changed();
    let place = window.effects.len() as int;
    if tool != Tool::Highlight && tool != Tool::Measure {
        if selects(window, id, kind) {
            assert(edits_at(window, after, place + 2, Operation::SetAnnotation(id)));
            assert(after.effects[place + 1] == Effect::PrepareRestyled {
                id,
                color: None,
                resize: true,
            });
        }
        if window.session.annotations.selected is None {
            assert(after.effects =~= window.effects + seq![after.effects[place]]);
        }
    }
}

/// A text that is confirmed goes into the document, as a new annotation or in
/// place of the one that was opened, and is selected; an empty one is dropped.
/// Either way the typing is over.
pub proof fn typed_texts_are_placed(window: WindowView, id: AnnotationId, editing: bool)
    requires
        window.session.content.has_document,
        window.session.annotations.editor == Some(TextEditor { id, editing }),
    ensures
        ({
            let after = window.text_confirmed(false);
            &&& edits_just(
                window,
                after,
                if editing {
                    Operation::SetAnnotation(id)
                } else {
                    Operation::CreateAnnotation(id)
                },
            )
            &&& after.effects[window.effects.len() as int] == Effect::PrepareText(id)
            &&& asks_for(window, after, Effect::RemoveTextEditor { commit_preview: true })
            &&& selects(after, id, AnnotationKind::Text)
            &&& after.session.annotations.editor is None
        }),
        ({
            let dropped = window.text_confirmed(true);
            &&& edits_nothing(window, dropped)
            &&& dropped.session.annotations.editor is None
            &&& asks_for(window, dropped, Effect::RemoveTextEditor { commit_preview: false })
        }),
{
    let place = window.effects.len() as int;
    let after = window.text_confirmed(false);
    assert(edits_at(
        window,
        after,
        place + 2,
        if editing {
            Operation::SetAnnotation(id)
        } else {
            Operation::CreateAnnotation(id)
        },
    ));
    assert(after.effects[place + 1] == Effect::RemoveTextEditor { commit_preview: true });
    let dropped = window.text_confirmed(true);
    assert(dropped.effects[place] == Effect::RemoveTextEditor { commit_preview: false });
}

/// A drag and a text that are given up leave the document as it is, and show it
/// again without them.
pub proof fn given_up_work_is_taken_off(window: WindowView)
    requires
        window.session.content.has_document,
    ensures
        window.session.annotations.drag is Some ==> {
            let after = window.cancel_annotation_drag();
            &&& after.session.annotations.drag is None
            &&& edits_nothing(window, after)
            &&& asks_for(window, after, Effect::DiscardAnnotationPreview)
            &&& after.effects.last() == Effect::StartRender(after.session.generations.render)
        },
        window.session.annotations.drag is None ==> window.cancel_annotation_drag() == window,
        window.session.annotations.editor is Some ==> {
            let after = window.close_text_editor();
            &&& after.session.annotations.editor is None
            &&& edits_nothing(window, after)
            &&& asks_for(window, after, Effect::RemoveTextEditor { commit_preview: false })
            &&& asks_for(window, after, Effect::StartRender(after.session.generations.render))
        },
        window.session.annotations.editor is None ==> window.close_text_editor() == window,
{
    let place = window.effects.len() as int;
    if window.session.annotations.drag is Some {
        assert(window.cancel_annotation_drag().effects[place] == Effect::DiscardAnnotationPreview);
    }
    if window.session.annotations.editor is Some {
        let after = window.close_text_editor();
        assert(after.effects[place] == Effect::RemoveTextEditor { commit_preview: false });
        assert(after.effects[place + 3] == Effect::StartRender(after.session.generations.render));
    }
}

} // verus!
