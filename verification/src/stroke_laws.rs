//! What comes of the pencil and of the colour picker.

use crate::asking::{asks_for, asks_just, edits_at, edits_just, edits_nothing};
use crate::drawing_laws::selects;
use crate::effect::{AnnotationId, AnnotationKind, CanvasSide, Effect, Operation};
use crate::keys::{spec_pencil_drag_mode, Modifiers, PencilDragMode};
use crate::pencil::{
    spec_pencil_drag_path, spec_pencil_drag_should_preview, stroke_kind, StrokePath,
};
use crate::tool::Tool;
use crate::window::{LineStart, PencilDrag, WindowView};
use vstd::prelude::*;

verus! {

/// Each modifier chooses its own kind of stroke: none draws freehand, Control a
/// line, Shift a rectangle and Alt a circle, and the last of these that is held
/// wins. No other modifier matters.
pub proof fn modifiers_choose_the_stroke(modifiers: Modifiers)
    ensures
        modifiers.alt ==> spec_pencil_drag_mode(modifiers) == PencilDragMode::Circle,
        modifiers.shift && !modifiers.alt ==> spec_pencil_drag_mode(modifiers)
            == PencilDragMode::Rectangle,
        modifiers.control && !modifiers.shift && !modifiers.alt ==> spec_pencil_drag_mode(modifiers)
            == PencilDragMode::Line,
        !modifiers.control && !modifiers.shift && !modifiers.alt ==> spec_pencil_drag_mode(
            modifiers,
        ) == PencilDragMode::Freehand,
{
}

/// Every kind of stroke is an annotation of its own kind: two kinds of stroke
/// never share one. Only freehand strokes are smoothed and only circles are
/// round.
pub proof fn strokes_are_of_their_kind(left: PencilDragMode, right: PencilDragMode)
    ensures
        stroke_kind(left) == stroke_kind(right) ==> left == right,
        stroke_kind(PencilDragMode::Freehand) == AnnotationKind::PencilDrawing,
        stroke_kind(PencilDragMode::Line) == AnnotationKind::PencilLine,
        stroke_kind(PencilDragMode::Rectangle) == AnnotationKind::PencilRectangle,
        stroke_kind(PencilDragMode::Circle) == AnnotationKind::PencilEllipse,
        spec_pencil_drag_path(left) == StrokePath::Smooth <==> left == PencilDragMode::Freehand,
        spec_pencil_drag_path(left) == StrokePath::Circle <==> left == PencilDragMode::Circle,
{
}

/// A shape is shown from the first pixel on, a freehand stroke from its second.
pub proof fn strokes_are_previewed(mode: PencilDragMode, sampled: nat)
    ensures
        mode != PencilDragMode::Freehand ==> spec_pencil_drag_should_preview(mode, sampled),
        spec_pencil_drag_should_preview(PencilDragMode::Freehand, sampled) <==> 2 <= sampled,
{
}

/// The pencil starts a stroke on the primary picture wherever no annotation is
/// under it, and on the comparison picture wherever its pixels are at hand. No
/// other tool starts one.
pub proof fn only_the_pencil_draws_strokes(window: WindowView, hit: bool)
    ensures
        window.pencil_starts(CanvasSide::Primary, hit) <==> window.session.tools.tool
            == Tool::Pencil && !hit,
        window.pencil_starts(CanvasSide::Comparison, hit) <==> window.session.tools.tool
            == Tool::Pencil && window.session.content.comparison_rendered,
{
}

/// A stroke begins at the pixel under the pointer, on the picture that it is
/// over, and beside the picture none begins.
pub proof fn strokes_begin_at_the_pointer(
    window: WindowView,
    side: CanvasSide,
    pixel: (u32, u32),
    modifiers: Modifiers,
    chained: bool,
    time: u32,
)
    ensures
        ({
            let after = window.begin_pencil_drag(side, Some(pixel), modifiers, chained, time);
            let drag = after.session.pencil.drag->0;
            &&& after.session.pencil.drag is Some
            &&& drag.side == side
            &&& drag.mode == spec_pencil_drag_mode(modifiers)
            &&& drag.origin == pixel
            &&& drag.current == pixel
            &&& drag.samples == 1
            &&& after.effects[window.effects.len() as int] == Effect::BeginPencilSamples {
                pixel,
                time,
            }
            &&& edits_nothing(window, after)
            &&& after.session.pencil.line_annotation == window.session.pencil.line_annotation
            &&& chained && window.session.pencil.line_annotation is Some && drag.mode
                == PencilDragMode::Line ==> drag.line_start == LineStart::ChainEnd
        }),
        window.begin_pencil_drag(side, None, modifiers, chained, time) == window,
{
}

/// A stroke follows the pointer on its own picture and on no other. A freehand
/// stroke takes down every pixel that it comes to, and none twice in a row.
pub proof fn strokes_follow_the_pointer(
    window: WindowView,
    drag: PencilDrag,
    side: CanvasSide,
    pixel: (u32, u32),
    time: u32,
)
    requires
        window.session.pencil.drag == Some(drag),
    ensures
        ({
            let after = window.update_pencil_drag(side, Some(pixel), time);
            let moved = after.session.pencil.drag->0;
            let sampled = drag.mode == PencilDragMode::Freehand && pixel != drag.current;
            if side != drag.side {
                after == window
            } else {
                &&& moved.current == pixel
                &&& moved.origin == drag.origin
                &&& moved.mode == drag.mode
                &&& moved.side == drag.side
                &&& moved.line_start == drag.line_start
                &&& sampled <==> asks_for(
                    window,
                    after,
                    Effect::RecordPencilSample { pixel, time },
                )
                &&& sampled && drag.samples < u64::MAX ==> moved.samples == drag.samples + 1
                &&& !sampled ==> moved.samples == drag.samples
                &&& asks_for(window, after, Effect::ShapePencilStroke)
                &&& after.effects.last() == if drag.mode == PencilDragMode::Freehand
                    && moved.samples < 2 {
                    Effect::ClearPencilOverlay(side)
                } else {
                    Effect::ShowPencilOverlay(side)
                }
                &&& edits_nothing(window, after)
            }
        }),
        window.update_pencil_drag(side, None, time) == window,
{
    let after = window.update_pencil_drag(side, Some(pixel), time);
    let sampled = drag.mode == PencilDragMode::Freehand && pixel != drag.current;
    let place = window.effects.len() as int;
    if side == drag.side {
        if sampled {
            assert(after.effects[place] == Effect::RecordPencilSample { pixel, time });
            assert(after.effects[place + 1] == Effect::ShapePencilStroke);
        } else {
            assert(after.effects[place] == Effect::ShapePencilStroke);
        }
    }
}

/// A stroke ends where the pointer is let go. Only a line leaves a place behind
/// for the next one to start at, and a stroke of the other picture goes on.
pub proof fn strokes_end_where_they_are_let_go(
    window: WindowView,
    drag: PencilDrag,
    side: CanvasSide,
    pixel: (u32, u32),
    time: u32,
)
    requires
        window.session.pencil.drag == Some(drag),
    ensures
        ({
            let after = window.finish_pencil_drag(side, Some(pixel), time);
            if side == drag.side {
                &&& after.session.pencil.drag is None
                &&& after.session.pencil.line_anchor == if drag.mode == PencilDragMode::Line {
                    Some(pixel)
                } else {
                    None
                }
                &&& edits_nothing(window, after)
            } else {
                after == window
            }
        }),
{
}

/// A finished stroke is placed as one new annotation of its kind, which is then
/// selected; only a line can be continued by the next stroke.
pub proof fn finished_strokes_are_placed(
    window: WindowView,
    mode: PencilDragMode,
    continued: Option<bool>,
    id: AnnotationId,
)
    requires
        window.session.content.has_document,
        mode != PencilDragMode::Line || window.session.pencil.line_annotation is None
            || continued is None,
    ensures
        ({
            let after = window.commit_editable_pencil_stroke(mode, true, continued, id);
            &&& edits_just(window, after, Operation::CreateAnnotation(id))
            &&& asks_for(window, after, Effect::PrepareStroke { id, mode })
            &&& asks_for(window, after, Effect::CommitAnnotationPreview)
            &&& asks_for(window, after, Effect::ClearPencilOverlay(CanvasSide::Primary))
            &&& after.session.annotations.selected == Some(id)
            &&& mode == PencilDragMode::Freehand ==> selects(after, id, AnnotationKind::PencilDrawing)
            &&& mode == PencilDragMode::Line ==> selects(after, id, AnnotationKind::PencilLine)
            &&& mode == PencilDragMode::Rectangle ==> selects(
                after,
                id,
                AnnotationKind::PencilRectangle,
            )
            &&& mode == PencilDragMode::Circle ==> selects(after, id, AnnotationKind::PencilEllipse)
            &&& after.session.pencil.line_annotation == if mode == PencilDragMode::Line {
                Some(id)
            } else {
                None
            }
        }),
{
    let after = window.commit_editable_pencil_stroke(mode, true, continued, id);
    let place = window.effects.len() as int;
    assert(after.effects[place] == Effect::ClearPencilOverlay(CanvasSide::Primary));
    assert(after.effects[place + 1] == Effect::PrepareStroke { id, mode });
    assert(after.effects[place + 2] == Effect::CommitAnnotationPreview);
    assert(edits_at(window, after, place + 3, Operation::CreateAnnotation(id)));
}

/// A line that continues the one before it changes that one and adds none; where
/// its end did not move, nothing is changed. It stays the selected one.
pub proof fn continued_lines_grow(
    window: WindowView,
    line: AnnotationId,
    extends: bool,
    id: AnnotationId,
)
    requires
        window.session.content.has_document,
        window.session.pencil.line_annotation == Some(line),
    ensures
        ({
            let after = window.commit_editable_pencil_stroke(
                PencilDragMode::Line,
                true,
                Some(extends),
                id,
            );
            &&& extends ==> edits_just(window, after, Operation::SetAnnotation(line)) && asks_for(
                window,
                after,
                Effect::ExtendLine(line),
            )
            &&& !extends ==> edits_nothing(window, after)
            &&& selects(after, line, AnnotationKind::PencilLine)
            &&& after.session.pencil.line_annotation == Some(line)
        }),
{
    let after = window.commit_editable_pencil_stroke(
        PencilDragMode::Line,
        true,
        Some(extends),
        id,
    );
    let place = window.effects.len() as int;
    if extends {
        assert(after.effects[place + 1] == Effect::ExtendLine(line));
        assert(edits_at(window, after, place + 3, Operation::SetAnnotation(line)));
    }
}

/// A stroke without a shape is taken off the picture and changes nothing. One on
/// the comparison picture is painted there, and never goes into the document.
pub proof fn other_strokes_leave_the_document(
    window: WindowView,
    mode: PencilDragMode,
    continued: Option<bool>,
    id: AnnotationId,
)
    ensures
        asks_just(
            window,
            window.commit_editable_pencil_stroke(mode, false, continued, id),
            seq![Effect::ClearPencilOverlay(CanvasSide::Primary)],
        ),
        window.commit_editable_pencil_stroke(mode, false, continued, id).session == window.session,
        ({
            let after = window.commit_comparison_pencil_stroke();
            &&& edits_nothing(window, after)
            &&& asks_for(window, after, Effect::PaintComparisonStroke)
                <==> window.session.content.comparison_rendered
            &&& after.effects.last() == Effect::ClearPencilOverlay(CanvasSide::Comparison)
            &&& after.session.pencil.line_annotation is None
            &&& after.session.annotations == window.session.annotations
        }),
{
    assert(window.commit_editable_pencil_stroke(mode, false, continued, id).effects
        =~= window.effects + seq![Effect::ClearPencilOverlay(CanvasSide::Primary)]);
    let after = window.commit_comparison_pencil_stroke();
    if window.session.content.comparison_rendered {
        assert(after.effects[window.effects.len() as int] == Effect::PaintComparisonStroke);
    }
}

/// A stroke that is given up leaves nothing behind: not on its picture, not in
/// the document, and no line to continue. Letting go of the key that chains lines
/// ends the chain, and a line that is being drawn with it.
pub proof fn aborted_strokes_leave_nothing(window: WindowView)
    ensures
        ({
            let after = window.abort_pencil_drag();
            &&& after.session.pencil.drag is None
            &&& after.session.pencil.line_anchor is None
            &&& after.session.pencil.line_annotation is None
            &&& asks_for(window, after, Effect::ForgetPencilPoints)
            &&& window.session.pencil.drag matches Some(drag) ==> after.effects.last()
                == Effect::ClearPencilOverlay(drag.side)
            &&& edits_nothing(window, after)
        }),
        ({
            let after = window.abort_pencil_line();
            let line = window.session.pencil.drag matches Some(drag) && drag.mode
                == PencilDragMode::Line;
            &&& after.session.pencil.line_anchor is None
            &&& after.session.pencil.line_annotation is None
            &&& line ==> after.session.pencil.drag is None
            &&& !line ==> after.session.pencil.drag == window.session.pencil.drag && after.effects
                == window.effects
        }),
{
    assert(window.abort_pencil_drag().effects[window.effects.len() as int]
        == Effect::ForgetPencilPoints);
}

/// A colour that is picked is the one to draw with from then on. The colour picker
/// copies it; the pencil tells it where it was sampled from the primary picture.
pub proof fn picked_colours_are_taken(window: WindowView, side: CanvasSide, color: [u8; 4])
    ensures
        ({
            let after = window.apply_picked_color(color);
            &&& after.effects.last() == Effect::SetDrawingColor(color)
            &&& edits_nothing(window, after)
        }),
        window.session.tools.tool == Tool::PickColor && window.session.tools.return_tool is None
            ==> {
            let (after, claimed) = window.picker_clicked(Some(color));
            &&& claimed
            &&& asks_for(window, after, Effect::SetDrawingColor(color))
            &&& after.effects.last() == Effect::CopyColor(color)
        },
        window.session.tools.tool != Tool::PickColor ==> !window.picker_clicked(Some(color)).1,
        !window.picker_clicked(None).1,
        window.session.tools.tool == Tool::Pencil ==> {
            let (after, claimed) = window.sampler_clicked(side, Some(color));
            &&& claimed
            &&& asks_for(window, after, Effect::SetDrawingColor(color))
            &&& !asks_for(window, after, Effect::CopyColor(color))
            &&& asks_for(window, after, Effect::ReportSample(color)) <==> side
                == CanvasSide::Primary
            &&& window.sampler_clicked(side, None).1 == (side == CanvasSide::Primary)
        },
        window.session.tools.tool != Tool::Pencil ==> !window.sampler_clicked(
            side,
            Some(color),
        ).1,
{
    let picked = window.apply_picked_color(color);
    let chosen = picked.effects.len() - 1;
    let copied = picked.emit(Effect::CopyColor(color));
    assert(copied.effects[chosen] == Effect::SetDrawingColor(color));
    let told = picked.emit_if(side == CanvasSide::Primary, Effect::ReportSample(color));
    assert(told.effects[chosen] == Effect::SetDrawingColor(color));
    if side == CanvasSide::Primary {
        assert(told.effects[chosen + 1] == Effect::ReportSample(color));
    }
}

} // verus!
