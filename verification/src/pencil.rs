//! Strokes of the pencil: what is drawn, sampled, continued and placed.

use crate::effect::{AnnotationId, AnnotationKind, CanvasSide, Effect, Operation};
use crate::keys::{pencil_drag_mode, spec_pencil_drag_mode, Modifiers, PencilDragMode};
use crate::text::{decimal, hex_byte, push_decimal, push_hex_byte};
use crate::tool::{pencil_drag_available, Tool};
use crate::window::{LineStart, Pencil, PencilDrag, Session, ViewerWindow, WindowView};
use vstd::prelude::*;

verus! {

/// How the points of a stroke are joined.
#[derive(Debug, Clone, Copy, PartialEq, Eq, Structural)]
pub enum StrokePath {
    Smooth,
    Linear,
    Circle,
}

/// How the points of a stroke are joined in each mode.
pub open spec fn spec_pencil_drag_path(mode: PencilDragMode) -> StrokePath {
    match mode {
        PencilDragMode::Freehand => StrokePath::Smooth,
        PencilDragMode::Line | PencilDragMode::Rectangle => StrokePath::Linear,
        PencilDragMode::Circle => StrokePath::Circle,
    }
}

/// How the points of a stroke are joined.
pub fn pencil_drag_path(mode: PencilDragMode) -> (path: StrokePath)
    ensures
        path == spec_pencil_drag_path(mode),
{
    match mode {
        PencilDragMode::Freehand => StrokePath::Smooth,
        PencilDragMode::Line | PencilDragMode::Rectangle => StrokePath::Linear,
        PencilDragMode::Circle => StrokePath::Circle,
    }
}

/// Whether a stroke is shown while it is drawn.
pub open spec fn spec_pencil_drag_should_preview(mode: PencilDragMode, sampled: nat) -> bool {
    mode != PencilDragMode::Freehand || sampled > 1
}

/// Whether a stroke is shown while it is drawn: a freehand one from its second
/// pixel on.
pub fn pencil_drag_should_preview(mode: PencilDragMode, sampled_pixels: u64) -> (preview: bool)
    ensures
        preview == spec_pencil_drag_should_preview(mode, sampled_pixels as nat),
{
    mode != PencilDragMode::Freehand || sampled_pixels > 1
}

/// Where a stroke starts.
pub open spec fn spec_pencil_line_start<P>(
    mode: PencilDragMode,
    line_anchor: Option<P>,
    origin: P,
) -> P {
    match line_anchor {
        Some(anchor) => if mode == PencilDragMode::Line {
            anchor
        } else {
            origin
        },
        None => origin,
    }
}

/// Where a stroke starts: a line at the end of the line before it, where there
/// is one, everything else where the pointer went down.
pub fn pencil_line_start<P>(mode: PencilDragMode, line_anchor: Option<P>, origin: P) -> (start: P)
    ensures
        start == match line_anchor {
            Some(anchor) if mode == PencilDragMode::Line => anchor,
            _ => origin,
        },
        start == spec_pencil_line_start(mode, line_anchor, origin),
{
    match line_anchor {
        Some(anchor) if mode == PencilDragMode::Line => anchor,
        _ => origin,
    }
}

/// The points that a stroke is made of.
#[derive(Debug, Clone, Copy, PartialEq, Eq)]
pub enum PencilShape<P> {
    /// The samples, smoothed.
    Smoothed,
    Line { start: P, end: P },
    Rectangle { start: P, end: P },
    Circle { center: P, edge: P },
}

/// The points that a stroke is made of.
pub open spec fn spec_pencil_drag_shape<P>(
    mode: PencilDragMode,
    origin: P,
    line_start: P,
    current: P,
) -> PencilShape<P> {
    match mode {
        PencilDragMode::Freehand => PencilShape::Smoothed,
        PencilDragMode::Line => PencilShape::Line { start: line_start, end: current },
        PencilDragMode::Rectangle => PencilShape::Rectangle { start: origin, end: current },
        PencilDragMode::Circle => PencilShape::Circle { center: origin, edge: current },
    }
}

/// The points that a stroke is made of: a shape never falls back to the pixels
/// that the pointer passed.
pub fn pencil_drag_shape<P>(
    mode: PencilDragMode,
    origin: P,
    line_start: P,
    current: P,
) -> (shape: PencilShape<P>)
    ensures
        shape == match mode {
            PencilDragMode::Freehand => PencilShape::Smoothed,
            PencilDragMode::Line => PencilShape::Line { start: line_start, end: current },
            PencilDragMode::Rectangle => PencilShape::Rectangle { start: origin, end: current },
            PencilDragMode::Circle => PencilShape::Circle { center: origin, edge: current },
        },
        shape == spec_pencil_drag_shape(mode, origin, line_start, current),
{
    match mode {
        PencilDragMode::Freehand => PencilShape::Smoothed,
        PencilDragMode::Line => PencilShape::Line { start: line_start, end: current },
        PencilDragMode::Rectangle => PencilShape::Rectangle { start: origin, end: current },
        PencilDragMode::Circle => PencilShape::Circle { center: origin, edge: current },
    }
}

/// What a stroke is as an annotation.
#[derive(Debug, Clone, PartialEq, Eq)]
pub enum PencilGeometry<P> {
    Freehand(Vec<P>),
    Line { start: P, end: P },
    Rectangle { corner: P, opposite: P },
    Ellipse { center: P, edge: P },
}

/// What the points of a stroke are as an annotation. A circle needs a second
/// point; nothing comes of no points.
pub fn pencil_geometry<P: Copy>(mode: PencilDragMode, points: &[P]) -> (geometry: Option<
    PencilGeometry<P>,
>)
    ensures
        geometry is Some <==> points@.len() > 0 && (mode == PencilDragMode::Circle ==> points@.len()
            > 1),
        geometry matches Some(geometry) ==> match mode {
            PencilDragMode::Freehand => geometry matches PencilGeometry::Freehand(kept) && kept@
                == points@,
            PencilDragMode::Line => geometry == (PencilGeometry::Line {
                start: points@[0],
                end: points@.last(),
            }),
            PencilDragMode::Rectangle => geometry == (PencilGeometry::Rectangle {
                corner: points@[0],
                opposite: if points@.len() > 2 {
                    points@[2]
                } else {
                    points@.last()
                },
            }),
            PencilDragMode::Circle => geometry == (PencilGeometry::Ellipse {
                center: points@[0],
                edge: points@[1],
            }),
        },
{
    if points.len() == 0 {
        return None;
    }
    let first = points[0];
    let last = points[points.len() - 1];
    match mode {
        PencilDragMode::Freehand => {
            let mut kept: Vec<P> = Vec::new();
            let mut index: usize = 0;
            while index < points.len()
                invariant
                    index <= points@.len(),
                    kept@ == points@.take(index as int),
                decreases points@.len() - index,
            {
                kept.push(points[index]);
                index = index + 1;
            }
            assert(kept@ == points@);
            Some(PencilGeometry::Freehand(kept))
        },
        PencilDragMode::Line => Some(PencilGeometry::Line { start: first, end: last }),
        PencilDragMode::Rectangle => {
            let opposite = if points.len() > 2 {
                points[2]
            } else {
                last
            };
            Some(PencilGeometry::Rectangle { corner: first, opposite })
        },
        PencilDragMode::Circle => {
            if points.len() > 1 {
                Some(PencilGeometry::Ellipse { center: first, edge: points[1] })
            } else {
                None
            }
        },
    }
}

/// What a stroke of each mode is called.
pub open spec fn stroke_kind(mode: PencilDragMode) -> AnnotationKind {
    match mode {
        PencilDragMode::Freehand => AnnotationKind::PencilDrawing,
        PencilDragMode::Line => AnnotationKind::PencilLine,
        PencilDragMode::Rectangle => AnnotationKind::PencilRectangle,
        PencilDragMode::Circle => AnnotationKind::PencilEllipse,
    }
}

fn kind_of_stroke(mode: PencilDragMode) -> (kind: AnnotationKind)
    ensures
        kind == stroke_kind(mode),
{
    match mode {
        PencilDragMode::Freehand => AnnotationKind::PencilDrawing,
        PencilDragMode::Line => AnnotationKind::PencilLine,
        PencilDragMode::Rectangle => AnnotationKind::PencilRectangle,
        PencilDragMode::Circle => AnnotationKind::PencilEllipse,
    }
}

/// What a sampled colour is announced as.
pub open spec fn sampled_text(color: [u8; 4]) -> Seq<char> {
    "#"@ + hex_byte(color[0]) + hex_byte(color[1]) + hex_byte(color[2]) + hex_byte(color[3])
        + " · rgba("@ + decimal(color[0] as nat) + ", "@ + decimal(color[1] as nat) + ", "@
        + decimal(color[2] as nat) + ", "@ + decimal(color[3] as nat) + ")"@
}

/// What a sampled colour is announced as: all four bytes, in both notations.
pub fn sampled_color_text(color: [u8; 4]) -> (text: String)
    ensures
        text@ == sampled_text(color),
{
    let mut text = String::from_str("#");
    push_hex_byte(&mut text, color[0]);
    push_hex_byte(&mut text, color[1]);
    push_hex_byte(&mut text, color[2]);
    push_hex_byte(&mut text, color[3]);
    text.append(" · rgba(");
    push_decimal(&mut text, color[0] as u64);
    text.append(", ");
    push_decimal(&mut text, color[1] as u64);
    text.append(", ");
    push_decimal(&mut text, color[2] as u64);
    text.append(", ");
    push_decimal(&mut text, color[3] as u64);
    text.append(")");
    assert(text@ == sampled_text(color));
    text
}

/// What the user is told of a sampled colour.
pub fn sampled_notice(color: [u8; 4]) -> (text: String)
    ensures
        text@ == "Sampled "@ + sampled_text(color),
{
    let mut text = String::from_str("Sampled ");
    text.append(sampled_color_text(color).as_str());
    text
}

/// One more sample, as far as they can be counted.
pub open spec fn one_more(samples: u64) -> u64 {
    if samples == u64::MAX {
        samples
    } else {
        (samples + 1) as u64
    }
}

impl WindowView {
    /// The window with nothing left of a stroke, nor of the line before it.
    pub open spec fn abort_pencil_drag(self) -> WindowView {
        let cleared = WindowView {
            session: Session {
                pencil: Pencil { drag: None, line_anchor: None, line_annotation: None },
                ..self.session
            },
            ..self
        }.emit(Effect::ForgetPencilPoints);
        match self.session.pencil.drag {
            Some(drag) => cleared.emit(Effect::ClearPencilOverlay(drag.side)),
            None => cleared,
        }
    }

    /// The window with no line to continue, and no line being drawn.
    pub open spec fn abort_pencil_line(self) -> WindowView {
        match self.session.pencil.drag {
            Some(drag) if drag.mode == PencilDragMode::Line => self.abort_pencil_drag(),
            _ => self.with_pencil(
                Pencil { line_anchor: None, line_annotation: None, ..self.session.pencil },
            ),
        }
    }

    /// The window with its stroke at another pixel.
    pub open spec fn update_pencil_drag(
        self,
        side: CanvasSide,
        pixel: Option<(u32, u32)>,
        time: u32,
    ) -> WindowView {
        match (self.session.pencil.drag, pixel) {
            (Some(drag), Some(current)) if drag.side == side => {
                let sampled = drag.mode == PencilDragMode::Freehand && current != drag.current;
                let samples = if sampled {
                    one_more(drag.samples)
                } else {
                    drag.samples
                };
                self.with_pencil(
                    Pencil {
                        drag: Some(PencilDrag { current, samples, ..drag }),
                        ..self.session.pencil
                    },
                ).emit_if(sampled, Effect::RecordPencilSample { pixel: current, time }).emit(
                    Effect::ShapePencilStroke,
                ).emit(
                    if spec_pencil_drag_should_preview(drag.mode, samples as nat) {
                        Effect::ShowPencilOverlay(side)
                    } else {
                        Effect::ClearPencilOverlay(side)
                    },
                )
            },
            _ => self,
        }
    }

    /// Where a stroke starts that begins at `origin`.
    pub open spec fn line_start(
        self,
        mode: PencilDragMode,
        chained: bool,
        origin: (u32, u32),
    ) -> LineStart {
        if mode != PencilDragMode::Line {
            LineStart::Pixel(origin)
        } else if chained && self.session.pencil.line_annotation is Some {
            LineStart::ChainEnd
        } else {
            LineStart::Pixel(
                match self.session.pencil.line_anchor {
                    Some(anchor) => anchor,
                    None => origin,
                },
            )
        }
    }

    /// The window with a stroke begun.
    pub open spec fn begin_pencil_drag(
        self,
        side: CanvasSide,
        pixel: Option<(u32, u32)>,
        modifiers: Modifiers,
        chained: bool,
        time: u32,
    ) -> WindowView {
        let mode = spec_pencil_drag_mode(modifiers);
        match pixel {
            None => self,
            Some(origin) => self.with_pencil(
                Pencil {
                    drag: Some(
                        PencilDrag {
                            side,
                            mode,
                            origin,
                            line_start: self.line_start(mode, chained, origin),
                            current: origin,
                            samples: 1,
                        },
                    ),
                    ..self.session.pencil
                },
            ).emit(Effect::BeginPencilSamples { pixel: origin, time }).update_pencil_drag(
                side,
                pixel,
                time,
            ),
        }
    }

    /// Whether a press of the pencil starts a stroke on a side.
    pub open spec fn pencil_starts(self, side: CanvasSide, annotation_hit: bool) -> bool {
        &&& self.session.tools.tool == Tool::Pencil
        &&& match side {
            CanvasSide::Primary => !annotation_hit,
            CanvasSide::Comparison => self.session.content.comparison_rendered,
        }
    }

    /// The window with its stroke ended, for the side that it is on.
    pub open spec fn finish_pencil_drag(
        self,
        side: CanvasSide,
        pixel: Option<(u32, u32)>,
        time: u32,
    ) -> WindowView {
        let updated = self.update_pencil_drag(side, pixel, time);
        match updated.session.pencil.drag {
            Some(drag) if drag.side == side => updated.with_pencil(
                Pencil {
                    drag: None,
                    line_anchor: if drag.mode == PencilDragMode::Line {
                        Some(drag.current)
                    } else {
                        None
                    },
                    ..updated.session.pencil
                },
            ),
            _ => updated,
        }
    }

    /// The window with the line before it continued, where its end moved.
    pub open spec fn continue_line(self, id: AnnotationId, extends: bool) -> WindowView {
        let cleared = self.emit(Effect::ClearPencilOverlay(CanvasSide::Primary));
        let extended = if extends {
            cleared.emit(Effect::ExtendLine(id)).emit(Effect::CommitAnnotationPreview).apply(
                Operation::SetAnnotation(id),
            )
        } else {
            cleared
        };
        extended.select_annotation(Some(id), Some(AnnotationKind::PencilLine))
    }

    /// The window with a stroke placed as a new annotation.
    pub open spec fn place_stroke(self, mode: PencilDragMode, id: AnnotationId) -> WindowView {
        let cleared = self.emit(Effect::ClearPencilOverlay(CanvasSide::Primary));
        if !self.session.content.has_document {
            cleared
        } else {
            let placed = cleared.emit(Effect::PrepareStroke { id, mode }).emit(
                Effect::CommitAnnotationPreview,
            ).apply(Operation::CreateAnnotation(id)).select_annotation(
                Some(id),
                Some(stroke_kind(mode)),
            );
            placed.with_pencil(
                Pencil {
                    line_annotation: if mode == PencilDragMode::Line {
                        Some(id)
                    } else {
                        None
                    },
                    ..placed.session.pencil
                },
            )
        }
    }

    /// The window with a finished stroke in its document.
    pub open spec fn commit_editable_pencil_stroke(
        self,
        mode: PencilDragMode,
        drawable: bool,
        continued: Option<bool>,
        id: AnnotationId,
    ) -> WindowView {
        let line = self.session.pencil.line_annotation;
        if !drawable {
            self.emit(Effect::ClearPencilOverlay(CanvasSide::Primary))
        } else if mode == PencilDragMode::Line && line is Some && continued is Some {
            self.continue_line(line->0, continued->0)
        } else {
            self.place_stroke(mode, id)
        }
    }

    /// The window with a finished stroke on the comparison picture.
    pub open spec fn commit_comparison_pencil_stroke(self) -> WindowView {
        self.with_pencil(Pencil { line_annotation: None, ..self.session.pencil }).emit_if(
            self.session.content.comparison_rendered,
            Effect::PaintComparisonStroke,
        ).emit(Effect::ClearPencilOverlay(CanvasSide::Comparison))
    }
}

impl ViewerWindow {
    /// Gives up a stroke, and forgets where the last line ended.
    pub fn abort_pencil_drag(&mut self)
        ensures
            final(self)@ == old(self)@.abort_pencil_drag(),
    {
        let drag = self.session.pencil.drag;
        self.session.pencil = Pencil { drag: None, line_anchor: None, line_annotation: None };
        self.emit(Effect::ForgetPencilPoints);
        if let Some(drag) = drag {
            self.emit(Effect::ClearPencilOverlay(drag.side));
        }
    }

    /// Forgets where the last line ended, when its key is released.
    pub fn abort_pencil_line(&mut self)
        ensures
            final(self)@ == old(self)@.abort_pencil_line(),
    {
        if let Some(drag) = self.session.pencil.drag {
            if drag.mode == PencilDragMode::Line {
                self.abort_pencil_drag();
                return;
            }
        }
        self.session.pencil = Pencil {
            line_anchor: None,
            line_annotation: None,
            ..self.session.pencil
        };
    }

    /// Moves the stroke to another pixel of the side that it is on.
    pub fn update_pencil_drag(&mut self, side: CanvasSide, pixel: Option<(u32, u32)>, time: u32)
        ensures
            final(self)@ == old(self)@.update_pencil_drag(side, pixel, time),
    {
        if let (Some(drag), Some(current)) = (self.session.pencil.drag, pixel) {
            if drag.side != side {
                return;
            }
            let sampled = drag.mode == PencilDragMode::Freehand && !(current.0 == drag.current.0
                && current.1 == drag.current.1);
            let samples: u64 = if sampled && drag.samples < u64::MAX {
                drag.samples + 1
            } else {
                drag.samples
            };
            self.session.pencil = Pencil {
                drag: Some(PencilDrag { current, samples, ..drag }),
                ..self.session.pencil
            };
            if sampled {
                self.emit(Effect::RecordPencilSample { pixel: current, time });
            }
            self.emit(Effect::ShapePencilStroke);
            if pencil_drag_should_preview(drag.mode, samples) {
                self.emit(Effect::ShowPencilOverlay(side));
            } else {
                self.emit(Effect::ClearPencilOverlay(side));
            }
        }
    }

    /// Begins a stroke at a pixel. `chained` tells whether the line to
    /// continue is still in the document.
    pub fn begin_pencil_drag(
        &mut self,
        side: CanvasSide,
        pixel: Option<(u32, u32)>,
        modifiers: Modifiers,
        chained: bool,
        time: u32,
    )
        ensures
            final(self)@ == old(self)@.begin_pencil_drag(side, pixel, modifiers, chained, time),
    {
        let origin = match pixel {
            None => {
                return;
            },
            Some(origin) => origin,
        };
        let mode = pencil_drag_mode(modifiers);
        let anchor = if chained && self.session.pencil.line_annotation.is_some() {
            Some(LineStart::ChainEnd)
        } else {
            match self.session.pencil.line_anchor {
                Some(anchor) => Some(LineStart::Pixel(anchor)),
                None => None,
            }
        };
        let line_start = pencil_line_start(mode, anchor, LineStart::Pixel(origin));
        self.session.pencil = Pencil {
            drag: Some(
                PencilDrag { side, mode, origin, line_start, current: origin, samples: 1 },
            ),
            ..self.session.pencil
        };
        self.emit(Effect::BeginPencilSamples { pixel: origin, time });
        self.update_pencil_drag(side, pixel, time);
    }

    /// Begins a stroke where a press starts one. Tells whether it does, and
    /// so whether the press is claimed.
    pub fn pencil_pressed(
        &mut self,
        side: CanvasSide,
        annotation_hit: bool,
        pixel: Option<(u32, u32)>,
        modifiers: Modifiers,
        chained: bool,
        time: u32,
    ) -> (claimed: bool)
        ensures
            claimed == old(self)@.pencil_starts(side, annotation_hit),
            final(self)@ == if claimed {
                old(self)@.begin_pencil_drag(side, pixel, modifiers, chained, time)
            } else {
                old(self)@
            },
    {
        if !matches!(self.session.tools.tool, Tool::Pencil) {
            return false;
        }
        let starts = match side {
            CanvasSide::Primary => pencil_drag_available(annotation_hit),
            CanvasSide::Comparison => self.session.content.comparison_rendered,
        };
        if starts {
            self.begin_pencil_drag(side, pixel, modifiers, chained, time);
        }
        starts
    }

    /// Moves the stroke, while the pencil is active.
    pub fn pencil_moved(&mut self, side: CanvasSide, pixel: Option<(u32, u32)>, time: u32)
        ensures
            final(self)@ == if old(self)@.session.tools.tool == Tool::Pencil {
                old(self)@.update_pencil_drag(side, pixel, time)
            } else {
                old(self)@
            },
    {
        if matches!(self.session.tools.tool, Tool::Pencil) {
            self.update_pencil_drag(side, pixel, time);
        }
    }

    /// Ends the stroke on the side that it is on. Tells what was drawn.
    pub fn finish_pencil_drag(
        &mut self,
        side: CanvasSide,
        pixel: Option<(u32, u32)>,
        time: u32,
    ) -> (drawn: Option<PencilDragMode>)
        ensures
            final(self)@ == old(self)@.finish_pencil_drag(side, pixel, time),
            drawn == match old(self)@.session.pencil.drag {
                Some(drag) if drag.side == side => Some(drag.mode),
                _ => None,
            },
    {
        self.update_pencil_drag(side, pixel, time);
        let drag = match self.session.pencil.drag {
            None => {
                return None;
            },
            Some(drag) => drag,
        };
        if drag.side != side {
            return None;
        }
        let line_anchor = if drag.mode == PencilDragMode::Line {
            Some(drag.current)
        } else {
            None
        };
        self.session.pencil = Pencil { drag: None, line_anchor, ..self.session.pencil };
        Some(drag.mode)
    }

    fn continue_line(&mut self, id: AnnotationId, extends: bool)
        ensures
            final(self)@ == old(self)@.continue_line(id, extends),
    {
        self.emit(Effect::ClearPencilOverlay(CanvasSide::Primary));
        if extends {
            self.emit(Effect::ExtendLine(id));
            self.emit(Effect::CommitAnnotationPreview);
            self.apply(Operation::SetAnnotation(id));
        }
        self.select_annotation(Some(id), Some(AnnotationKind::PencilLine));
    }

    fn place_stroke(&mut self, mode: PencilDragMode, id: AnnotationId)
        ensures
            final(self)@ == old(self)@.place_stroke(mode, id),
    {
        self.emit(Effect::ClearPencilOverlay(CanvasSide::Primary));
        if !self.session.content.has_document {
            return;
        }
        self.emit(Effect::PrepareStroke { id, mode });
        self.emit(Effect::CommitAnnotationPreview);
        self.apply(Operation::CreateAnnotation(id));
        self.select_annotation(Some(id), Some(kind_of_stroke(mode)));
        let line_annotation = if mode == PencilDragMode::Line {
            Some(id)
        } else {
            None
        };
        self.session.pencil = Pencil { line_annotation, ..self.session.pencil };
    }

    /// Places a finished stroke in the document. `drawable` tells whether its
    /// points make a shape; `continued` tells of a line that the document
    /// still holds whether its end moved; `id` names a new annotation.
    pub fn commit_editable_pencil_stroke(
        &mut self,
        mode: PencilDragMode,
        drawable: bool,
        continued: Option<bool>,
        id: AnnotationId,
    )
        ensures
            final(self)@ == old(self)@.commit_editable_pencil_stroke(mode, drawable, continued, id),
    {
        if !drawable {
            self.emit(Effect::ClearPencilOverlay(CanvasSide::Primary));
            return;
        }
        if mode == PencilDragMode::Line {
            if let (Some(line), Some(extends)) = (
                self.session.pencil.line_annotation,
                continued,
            ) {
                self.continue_line(line, extends);
                return;
            }
        }
        self.place_stroke(mode, id);
    }

    /// Paints a finished stroke onto the comparison picture, which keeps it
    /// until the comparison ends.
    pub fn commit_comparison_pencil_stroke(&mut self)
        ensures
            final(self)@ == old(self)@.commit_comparison_pencil_stroke(),
    {
        self.session.pencil = Pencil { line_annotation: None, ..self.session.pencil };
        if self.session.content.comparison_rendered {
            self.emit(Effect::PaintComparisonStroke);
        }
        self.emit(Effect::ClearPencilOverlay(CanvasSide::Comparison));
    }
}

/// A line that is drawn after another one starts where that one ended, until
/// its key is released or the tool is put away.
pub proof fn lines_are_chained(
    window: WindowView,
    side: CanvasSide,
    end: (u32, u32),
    next: (u32, u32),
    drag: PencilDrag,
    modifiers: Modifiers,
    time: u32,
)
    requires
        window.session.pencil.drag == Some(drag),
        drag.side == side,
        drag.mode == PencilDragMode::Line,
        spec_pencil_drag_mode(modifiers) == PencilDragMode::Line,
    ensures
        ({
            let ended = window.finish_pencil_drag(side, Some(end), time);
            let begun = ended.begin_pencil_drag(side, Some(next), modifiers, false, time);
            let forgotten = ended.abort_pencil_line().begin_pencil_drag(
                side,
                Some(next),
                modifiers,
                false,
                time,
            );
            &&& ended.session.pencil.line_anchor == Some(end)
            &&& begun.session.pencil.drag->0.line_start == LineStart::Pixel(end)
            &&& forgotten.session.pencil.drag->0.line_start == LineStart::Pixel(next)
        }),
{
}

/// Only a line is started at the end of the line before it: every other
/// stroke starts where the pointer went down.
pub proof fn only_lines_are_chained(
    window: WindowView,
    side: CanvasSide,
    origin: (u32, u32),
    modifiers: Modifiers,
    chained: bool,
    time: u32,
)
    requires
        spec_pencil_drag_mode(modifiers) != PencilDragMode::Line,
    ensures
        window.begin_pencil_drag(
            side,
            Some(origin),
            modifiers,
            chained,
            time,
        ).session.pencil.drag->0.line_start == LineStart::Pixel(origin),
{
}

} // verus!
