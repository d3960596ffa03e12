//! Tools that are aimed with the arrow keys.

use crate::effect::{
    Announcement, AnnotationId, AnnotationKind, Axis, CanvasSide, Draft, EditorPlace, Effect,
    Operation,
};
use crate::region::{selection_overlay, spec_selection_overlay, SelectionDrag};
use crate::tool::Tool;
use crate::window::{
    Annotations, KeyboardAim, Pencil, Session, TextEditor, ViewerWindow, WindowView,
};
use vstd::prelude::*;

verus! {

/// The tools that the arrow keys can aim.
#[derive(Debug, Clone, Copy, PartialEq, Eq, Structural)]
pub enum KeyboardTool {
    Highlight,
    Arrow,
    Measure,
    Text,
    Select,
    PickColor,
    Pencil,
}

/// The keyboard side of a tool, where it has one.
pub open spec fn spec_keyboard_tool(tool: Tool) -> Option<KeyboardTool> {
    match tool {
        Tool::Highlight => Some(KeyboardTool::Highlight),
        Tool::Arrow => Some(KeyboardTool::Arrow),
        Tool::Measure => Some(KeyboardTool::Measure),
        Tool::Text => Some(KeyboardTool::Text),
        Tool::Select => Some(KeyboardTool::Select),
        Tool::PickColor => Some(KeyboardTool::PickColor),
        Tool::Pencil => Some(KeyboardTool::Pencil),
        Tool::Idle | Tool::Scale => None,
    }
}

/// The keyboard side of a tool, where it has one.
pub fn keyboard_tool(tool: Tool) -> (aimed: Option<KeyboardTool>)
    ensures
        aimed == spec_keyboard_tool(tool),
{
    match tool {
        Tool::Highlight => Some(KeyboardTool::Highlight),
        Tool::Arrow => Some(KeyboardTool::Arrow),
        Tool::Measure => Some(KeyboardTool::Measure),
        Tool::Text => Some(KeyboardTool::Text),
        Tool::Select => Some(KeyboardTool::Select),
        Tool::PickColor => Some(KeyboardTool::PickColor),
        Tool::Pencil => Some(KeyboardTool::Pencil),
        Tool::Idle | Tool::Scale => None,
    }
}

/// The farthest place that a tool can be aimed at: a corner of the pixel grid
/// for measurements, else a pixel.
pub open spec fn aim_limit(tool: KeyboardTool, size: (u32, u32)) -> (u32, u32) {
    if tool == KeyboardTool::Measure {
        size
    } else {
        (
            if size.0 > 0 {
                (size.0 - 1) as u32
            } else {
                0
            },
            if size.1 > 0 {
                (size.1 - 1) as u32
            } else {
                0
            },
        )
    }
}

fn farthest_aim(tool: KeyboardTool, size: (u32, u32)) -> (limit: (u32, u32))
    ensures
        limit == aim_limit(tool, size),
{
    if matches!(tool, KeyboardTool::Measure) {
        size
    } else {
        (size.0.saturating_sub(1), size.1.saturating_sub(1))
    }
}

/// A coordinate after a move, kept between zero and the limit.
pub open spec fn moved_coordinate(coordinate: u32, by: i32, limit: u32) -> u32 {
    if coordinate + by < 0 {
        0
    } else if coordinate + by > limit {
        limit
    } else {
        (coordinate + by) as u32
    }
}

fn move_coordinate(coordinate: u32, by: i32, limit: u32) -> (moved: u32)
    ensures
        moved == moved_coordinate(coordinate, by, limit),
{
    let target: i64 = coordinate as i64 + by as i64;
    if target < 0 {
        0
    } else if target > limit as i64 {
        limit
    } else {
        target as u32
    }
}

pub open spec fn between(value: int, low: int, high: int) -> int {
    if value < low {
        low
    } else if value > high {
        high
    } else {
        value
    }
}

fn bring_between(value: i64, low: i64, high: i64) -> (brought: i64)
    ensures
        brought == between(value as int, low as int, high as int),
{
    if value < low {
        low
    } else if value > high {
        high
    } else {
        value
    }
}

/// What the hand-drawn outline of a highlight is derived from.
pub open spec fn highlight_seed(id: AnnotationId) -> u64 {
    id.0 ^ 0xD10A_AA73_9E37_79B9
}

/// The highlight around an aimed pixel: 64 by 40 pixels, or the image where it
/// is smaller, centred on the pixel as far as the image allows. Coordinates
/// count half pixels.
pub open spec fn highlight_draft(at: (u32, u32), size: (u32, u32), id: AnnotationId) -> Draft {
    let width = between(size.0 as int, 0, 64);
    let height = between(size.1 as int, 0, 40);
    Draft::Highlight {
        x: between(2 * at.0 + 1 - width, 0, 2 * (size.0 - width)) as i64,
        y: between(2 * at.1 + 1 - height, 0, 2 * (size.1 - height)) as i64,
        width: (2 * width) as i64,
        height: (2 * height) as i64,
        seed: highlight_seed(id),
    }
}

/// The arrow through an aimed pixel: 80 pixels long, or as long as the image
/// allows, centred on the pixel as far as the image allows.
pub open spec fn arrow_draft(at: (u32, u32), size: (u32, u32)) -> Draft {
    let length = between(size.0 - 1, 0, 80);
    let start = between(2 * at.0 + 1 - length, 1, 2 * size.0 - 1 - 2 * length);
    Draft::Arrow {
        start_x: start as i64,
        control_x: (start + length) as i64,
        end_x: (start + 2 * length) as i64,
        y: (2 * at.1 + 1) as i64,
    }
}

pub open spec fn distance(left: u32, right: u32) -> int {
    if left < right {
        right - left
    } else {
        left - right
    }
}

/// The measurement between two corners of the pixel grid: along the longer
/// side, at the height of the first corner.
pub open spec fn measurement_draft(start: (u32, u32), end: (u32, u32)) -> Draft {
    if distance(start.0, end.0) >= distance(start.1, end.1) {
        Draft::Measurement {
            axis: Axis::Horizontal,
            from: (2 * crate::region::smaller(start.0 as int, end.0 as int)) as i64,
            to: (2 * crate::region::larger(start.0 as int, end.0 as int)) as i64,
            at: (2 * start.1) as i64,
        }
    } else {
        Draft::Measurement {
            axis: Axis::Vertical,
            from: (2 * crate::region::smaller(start.1 as int, end.1 as int)) as i64,
            to: (2 * crate::region::larger(start.1 as int, end.1 as int)) as i64,
            at: (2 * start.0) as i64,
        }
    }
}

fn draft_highlight(at: (u32, u32), size: (u32, u32), id: AnnotationId) -> (draft: Draft)
    ensures
        draft == highlight_draft(at, size, id),
{
    let width: i64 = bring_between(size.0 as i64, 0, 64);
    let height: i64 = bring_between(size.1 as i64, 0, 40);
    Draft::Highlight {
        x: bring_between(2 * (at.0 as i64) + 1 - width, 0, 2 * (size.0 as i64 - width)),
        y: bring_between(2 * (at.1 as i64) + 1 - height, 0, 2 * (size.1 as i64 - height)),
        width: 2 * width,
        height: 2 * height,
        seed: id.0 ^ 0xD10A_AA73_9E37_79B9,
    }
}

fn draft_arrow(at: (u32, u32), size: (u32, u32)) -> (draft: Draft)
    ensures
        draft == arrow_draft(at, size),
{
    let length: i64 = bring_between(size.0 as i64 - 1, 0, 80);
    let start: i64 = bring_between(
        2 * (at.0 as i64) + 1 - length,
        1,
        2 * (size.0 as i64) - 1 - 2 * length,
    );
    Draft::Arrow {
        start_x: start,
        control_x: start + length,
        end_x: start + 2 * length,
        y: 2 * (at.1 as i64) + 1,
    }
}

fn draft_measurement(start: (u32, u32), end: (u32, u32)) -> (draft: Draft)
    ensures
        draft == measurement_draft(start, end),
{
    let (low_x, high_x) = if start.0 < end.0 {
        (start.0, end.0)
    } else {
        (end.0, start.0)
    };
    let (low_y, high_y) = if start.1 < end.1 {
        (start.1, end.1)
    } else {
        (end.1, start.1)
    };
    if high_x - low_x >= high_y - low_y {
        Draft::Measurement {
            axis: Axis::Horizontal,
            from: 2 * (low_x as i64),
            to: 2 * (high_x as i64),
            at: 2 * (start.1 as i64),
        }
    } else {
        Draft::Measurement {
            axis: Axis::Vertical,
            from: 2 * (low_y as i64),
            to: 2 * (high_y as i64),
            at: 2 * (start.0 as i64),
        }
    }
}

/// A highlight that is placed by keyboard lies inside the image, whichever
/// pixel was aimed at, and has the size that it is given.
pub proof fn highlights_lie_inside(at: (u32, u32), size: (u32, u32), id: AnnotationId)
    ensures
        highlight_draft(at, size, id) matches Draft::Highlight { x, y, width, height, .. } && {
            &&& 0 <= x && x + width <= 2 * size.0
            &&& 0 <= y && y + height <= 2 * size.1
            &&& width == 2 * between(size.0 as int, 0, 64)
            &&& height == 2 * between(size.1 as int, 0, 40)
        },
{
}

/// An arrow that is placed by keyboard is horizontal and goes straight from the
/// centre of a pixel of the image to the centre of another one.
pub proof fn arrows_lie_inside(at: (u32, u32), size: (u32, u32))
    requires
        1 <= size.0,
        at.0 < size.0,
    ensures
        arrow_draft(at, size) matches Draft::Arrow { start_x, control_x, end_x, y } && {
            &&& 2 * control_x == start_x + end_x
            &&& 1 <= start_x <= end_x <= 2 * size.0 - 1
            &&& end_x - start_x == 2 * between(size.0 - 1, 0, 80)
            &&& y == 2 * at.1 + 1
        },
{
}

impl WindowView {
    pub open spec fn with_aim(self, aim: KeyboardAim) -> WindowView {
        WindowView { session: Session { aim, ..self.session }, ..self }
    }

    /// Where the active tool is aimed, or would be at first: the middle.
    pub open spec fn aimed_at(self) -> (u32, u32) {
        let limit = aim_limit(
            spec_keyboard_tool(self.session.tools.tool)->0,
            self.session.content.rendered->0,
        );
        match self.session.aim.cursor {
            Some(cursor) => cursor,
            None => (limit.0 / 2, limit.1 / 2),
        }
    }

    /// Whether the arrow keys have something to aim.
    pub open spec fn can_aim(self) -> bool {
        spec_keyboard_tool(self.session.tools.tool) is Some
            && self.session.content.rendered is Some
    }

    /// The window with its aim shown.
    #[verifier::opaque]
    pub open spec fn show_aim(self, announce: bool) -> WindowView {
        let cursor = self.session.aim.cursor->0;
        let size = self.session.content.rendered->0;
        if !self.can_aim() || self.session.aim.cursor is None {
            self
        } else {
            let marked = if self.session.tools.tool == Tool::Measure {
                self.emit(Effect::ShowMarker(None)).emit(
                    Effect::ShowMeasurementCursor(Some(cursor)),
                )
            } else {
                self.emit(Effect::ShowMeasurementCursor(None)).emit(
                    Effect::ShowMarker(Some(cursor)),
                )
            };
            let marking = if self.session.tools.tool == Tool::Select
                && self.session.aim.anchor is Some {
                marked.emit(
                    Effect::ShowCropOverlay(
                        spec_selection_overlay(
                            SelectionDrag {
                                start: self.session.aim.anchor->0,
                                current: cursor,
                                image_dimensions: size,
                            },
                        ),
                    ),
                )
            } else {
                marked
            };
            marking.emit_if(
                announce,
                Effect::Announce(
                    Announcement::Cursor {
                        column: (cursor.0 + 1) as u64,
                        row: (cursor.1 + 1) as u64,
                    },
                ),
            )
        }
    }

    /// The window with its aim moved.
    pub open spec fn move_keyboard_tool_cursor(self, dx: i32, dy: i32) -> WindowView {
        if !self.can_aim() {
            self
        } else {
            let limit = aim_limit(
                spec_keyboard_tool(self.session.tools.tool)->0,
                self.session.content.rendered->0,
            );
            let from = self.aimed_at();
            self.with_aim(
                KeyboardAim {
                    cursor: Some(
                        (
                            moved_coordinate(from.0, dx, limit.0),
                            moved_coordinate(from.1, dy, limit.1),
                        ),
                    ),
                    ..self.session.aim
                },
            ).show_aim(true)
        }
    }

    /// Whether acting at the aim places an annotation.
    pub open spec fn keyboard_tool_places(self) -> bool {
        &&& self.session.content.has_document
        &&& self.session.content.rendered is Some
        &&& match self.session.tools.tool {
            Tool::Highlight | Tool::Arrow | Tool::Text | Tool::Pencil => true,
            Tool::Measure => self.session.aim.anchor is Some,
            _ => false,
        }
    }

    /// The window with a new annotation in its document, selected.
    pub open spec fn place_annotation(
        self,
        id: AnnotationId,
        kind: AnnotationKind,
        draft: Draft,
    ) -> WindowView {
        self.emit(Effect::Prepare { id, draft }).apply(
            Operation::CreateAnnotation(id),
        ).select_annotation(Some(id), Some(kind))
    }

    /// The window with a text being typed.
    pub open spec fn open_text_editor(
        self,
        id: AnnotationId,
        place: EditorPlace,
    ) -> WindowView {
        let editing = place == EditorPlace::Existing;
        let closed = self.close_text_editor();
        let ready = if editing {
            closed.cancel_document_render().emit(Effect::ShowWithout(id))
        } else {
            closed
        };
        ready.with_annotations(
            Annotations {
                editor: Some(TextEditor { id, editing }),
                ..ready.session.annotations
            },
        ).emit(Effect::OpenTextEditor { id, place })
    }

    /// The window after the first or the second of two points was set.
    pub open spec fn set_point(self, at: (u32, u32), id: AnnotationId) -> WindowView {
        match self.session.aim.anchor {
            None => self.with_aim(KeyboardAim { anchor: Some(at), ..self.session.aim }).emit(
                Effect::Announce(Announcement::StartPointSet),
            ),
            Some(start) => {
                let ended = self.with_aim(KeyboardAim { anchor: None, ..self.session.aim });
                if self.session.tools.tool == Tool::Measure {
                    if self.session.content.has_document {
                        ended.place_annotation(
                            id,
                            AnnotationKind::Measurement,
                            measurement_draft(start, at),
                        )
                    } else {
                        ended
                    }
                } else {
                    ended.region_marked(
                        spec_selection_overlay(
                            SelectionDrag {
                                start,
                                current: at,
                                image_dimensions: self.session.content.rendered->0,
                            },
                        ),
                    )
                }
            },
        }
    }

    /// The window with a region marked, and said to be.
    pub open spec fn region_marked(
        self,
        selection: Option<crate::region::CropOverlay>,
    ) -> WindowView {
        let set = self.set_region_selection(selection);
        match selection {
            Some(region) => set.emit(
                Effect::Announce(
                    Announcement::RegionSelected { width: region.width, height: region.height },
                ),
            ),
            None => set,
        }
    }

    /// The window with a dot of the pencil.
    pub open spec fn place_dot(self, at: (u32, u32), id: AnnotationId) -> WindowView {
        let cleared = self.emit(Effect::ClearPencilOverlay(CanvasSide::Primary));
        if self.session.content.has_document {
            let placed = cleared.emit(
                Effect::Prepare {
                    id,
                    draft: Draft::Dot { x: (2 * at.0 + 1) as i64, y: (2 * at.1 + 1) as i64 },
                },
            ).emit(Effect::CommitAnnotationPreview).apply(
                Operation::CreateAnnotation(id),
            ).select_annotation(Some(id), Some(AnnotationKind::PencilDrawing));
            placed.with_pencil(Pencil { line_annotation: None, ..placed.session.pencil })
        } else {
            cleared
        }
    }

    pub open spec fn with_pencil(self, pencil: Pencil) -> WindowView {
        WindowView { session: Session { pencil, ..self.session }, ..self }
    }

    /// The window after acting at a place with an aimed tool.
    #[verifier::opaque]
    pub open spec fn act_at(
        self,
        tool: KeyboardTool,
        at: (u32, u32),
        id: AnnotationId,
    ) -> WindowView {
        let size = self.session.content.rendered->0;
        match tool {
            KeyboardTool::PickColor => self.emit(Effect::PickPixel { x: at.0, y: at.1 }),
            KeyboardTool::Pencil => self.place_dot(at, id),
            KeyboardTool::Measure | KeyboardTool::Select => self.set_point(at, id),
            _ => if !self.session.content.has_document {
                self
            } else {
                match tool {
                    KeyboardTool::Highlight => self.place_annotation(
                        id,
                        AnnotationKind::Highlight,
                        highlight_draft(at, size, id),
                    ),
                    KeyboardTool::Arrow => self.place_annotation(
                        id,
                        AnnotationKind::Arrow,
                        arrow_draft(at, size),
                    ),
                    _ => self.open_text_editor(id, EditorPlace::Pixel(at)),
                }
            },
        }
    }

    /// The window after acting with the aimed tool: at its aim, or in the
    /// middle where it has not been aimed yet.
    pub open spec fn activate_keyboard_tool(self, id: AnnotationId) -> WindowView {
        if self.can_aim() {
            let at = self.aimed_at();
            self.with_aim(
                KeyboardAim { cursor: Some(at), ..self.session.aim },
            ).show_aim(false).act_at(spec_keyboard_tool(self.session.tools.tool)->0, at, id)
        } else {
            self
        }
    }
}

impl ViewerWindow {
    fn show_aim(&mut self, announce: bool)
        ensures
            final(self)@ == old(self)@.show_aim(announce),
            final(self)@.session == old(self)@.session,
    {
        proof {
            reveal(WindowView::show_aim);
        }
        if matches!(self.session.tools.tool, Tool::Idle | Tool::Scale) {
            return;
        }
        if let (Some(cursor), Some(size)) = (
            self.session.aim.cursor,
            self.session.content.rendered,
        ) {
            if matches!(self.session.tools.tool, Tool::Measure) {
                self.emit(Effect::ShowMarker(None));
                self.emit(Effect::ShowMeasurementCursor(Some(cursor)));
            } else {
                self.emit(Effect::ShowMeasurementCursor(None));
                self.emit(Effect::ShowMarker(Some(cursor)));
            }
            if matches!(self.session.tools.tool, Tool::Select) {
                if let Some(start) = self.session.aim.anchor {
                    let overlay = selection_overlay(
                        SelectionDrag { start, current: cursor, image_dimensions: size },
                    );
                    self.emit(Effect::ShowCropOverlay(overlay));
                }
            }
            if announce {
                let column: u64 = cursor.0 as u64 + 1;
                let row: u64 = cursor.1 as u64 + 1;
                self.emit(Effect::Announce(Announcement::Cursor { column, row }));
            }
        }
    }

    /// Moves the aim to the right and down. Tells whether there was something
    /// to aim.
    pub fn move_keyboard_tool_cursor(&mut self, dx: i32, dy: i32) -> (moved: bool)
        ensures
            moved == old(self)@.can_aim(),
            final(self)@ == old(self)@.move_keyboard_tool_cursor(dx, dy),
    {
        let (tool, size) = match (
            keyboard_tool(self.session.tools.tool),
            self.session.content.rendered,
        ) {
            (Some(tool), Some(size)) => (tool, size),
            _ => {
                return false;
            },
        };
        let limit = farthest_aim(tool, size);
        let from = match self.session.aim.cursor {
            Some(cursor) => cursor,
            None => (limit.0 / 2, limit.1 / 2),
        };
        let cursor: (u32, u32) = (
            move_coordinate(from.0, dx, limit.0),
            move_coordinate(from.1, dy, limit.1),
        );
        self.session.aim = KeyboardAim { cursor: Some(cursor), ..self.session.aim };
        self.show_aim(true);
        true
    }

    /// Whether acting at the aim places an annotation, which needs a new name.
    pub fn keyboard_tool_places(&self) -> (places: bool)
        ensures
            places == self@.keyboard_tool_places(),
    {
        self.session.content.has_document && self.session.content.rendered.is_some()
            && match self.session.tools.tool {
            Tool::Highlight | Tool::Arrow | Tool::Text | Tool::Pencil => true,
            Tool::Measure => self.session.aim.anchor.is_some(),
            _ => false,
        }
    }

    fn place_annotation(&mut self, id: AnnotationId, kind: AnnotationKind, draft: Draft)
        ensures
            final(self)@ == old(self)@.place_annotation(id, kind, draft),
    {
        self.emit(Effect::Prepare { id, draft });
        self.apply(Operation::CreateAnnotation(id));
        self.select_annotation(Some(id), Some(kind));
    }

    /// Lets a text be typed.
    pub fn open_text_editor(&mut self, id: AnnotationId, place: EditorPlace)
        ensures
            final(self)@ == old(self)@.open_text_editor(id, place),
    {
        let editing = matches!(place, EditorPlace::Existing);
        self.close_text_editor();
        if editing {
            self.cancel_document_render();
            self.emit(Effect::ShowWithout(id));
        }
        self.session.annotations = Annotations {
            editor: Some(TextEditor { id, editing }),
            ..self.session.annotations
        };
        self.emit(Effect::OpenTextEditor { id, place });
    }

    /// Takes a marked region, and says so.
    pub fn region_marked(&mut self, selection: Option<crate::region::CropOverlay>)
        ensures
            final(self)@ == old(self)@.region_marked(selection),
    {
        self.set_region_selection(selection);
        if let Some(region) = selection {
            self.emit(
                Effect::Announce(
                    Announcement::RegionSelected { width: region.width, height: region.height },
                ),
            );
        }
    }

    fn set_point(&mut self, at: (u32, u32), size: (u32, u32), id: AnnotationId)
        requires
            old(self)@.session.content.rendered == Some(size),
        ensures
            final(self)@ == old(self)@.set_point(at, id),
    {
        let start = match self.session.aim.anchor {
            None => {
                self.session.aim = KeyboardAim { anchor: Some(at), ..self.session.aim };
                self.emit(Effect::Announce(Announcement::StartPointSet));
                return;
            },
            Some(start) => start,
        };
        self.session.aim = KeyboardAim { anchor: None, ..self.session.aim };
        if matches!(self.session.tools.tool, Tool::Measure) {
            if self.session.content.has_document {
                self.place_annotation(
                    id,
                    AnnotationKind::Measurement,
                    draft_measurement(start, at),
                );
            }
        } else {
            self.region_marked(
                selection_overlay(SelectionDrag { start, current: at, image_dimensions: size }),
            );
        }
    }

    fn place_dot(&mut self, at: (u32, u32), id: AnnotationId)
        ensures
            final(self)@ == old(self)@.place_dot(at, id),
    {
        self.emit(Effect::ClearPencilOverlay(CanvasSide::Primary));
        if self.session.content.has_document {
            let draft = Draft::Dot { x: 2 * (at.0 as i64) + 1, y: 2 * (at.1 as i64) + 1 };
            self.emit(Effect::Prepare { id, draft });
            self.emit(Effect::CommitAnnotationPreview);
            self.apply(Operation::CreateAnnotation(id));
            self.select_annotation(Some(id), Some(AnnotationKind::PencilDrawing));
            self.session.pencil = Pencil { line_annotation: None, ..self.session.pencil };
        }
    }

    fn act_at(&mut self, tool: KeyboardTool, at: (u32, u32), size: (u32, u32), id: AnnotationId)
        requires
            old(self)@.session.content.rendered == Some(size),
        ensures
            final(self)@ == old(self)@.act_at(tool, at, id),
    {
        proof {
            reveal(WindowView::act_at);
        }
        match tool {
            KeyboardTool::PickColor => self.emit(Effect::PickPixel { x: at.0, y: at.1 }),
            KeyboardTool::Pencil => self.place_dot(at, id),
            KeyboardTool::Measure | KeyboardTool::Select => self.set_point(at, size, id),
            KeyboardTool::Highlight => {
                if self.session.content.has_document {
                    self.place_annotation(
                        id,
                        AnnotationKind::Highlight,
                        draft_highlight(at, size, id),
                    );
                }
            },
            KeyboardTool::Arrow => {
                if self.session.content.has_document {
                    self.place_annotation(id, AnnotationKind::Arrow, draft_arrow(at, size));
                }
            },
            KeyboardTool::Text => {
                if self.session.content.has_document {
                    self.open_text_editor(id, EditorPlace::Pixel(at));
                }
            },
        }
    }

    /// Acts with the aimed tool. `id` names the annotation that is placed,
    /// where one is.
    pub fn activate_keyboard_tool(&mut self, id: AnnotationId)
        ensures
            final(self)@ == old(self)@.activate_keyboard_tool(id),
    {
        let (tool, size) = match (
            keyboard_tool(self.session.tools.tool),
            self.session.content.rendered,
        ) {
            (Some(tool), Some(size)) => (tool, size),
            _ => {
                return;
            },
        };
        let limit = farthest_aim(tool, size);
        let at = match self.session.aim.cursor {
            Some(cursor) => cursor,
            None => (limit.0 / 2, limit.1 / 2),
        };
        self.session.aim = KeyboardAim { cursor: Some(at), ..self.session.aim };
        self.show_aim(false);
        self.act_at(tool, at, size, id);
    }
}

/// Wherever the arrow keys lead, the aim stays on the image.
pub proof fn aim_stays_on_the_image(window: WindowView, dx: i32, dy: i32, tool: KeyboardTool)
    requires
        spec_keyboard_tool(window.session.tools.tool) == Some(tool),
        window.session.content.rendered is Some,
    ensures
        ({
            let moved = window.move_keyboard_tool_cursor(dx, dy);
            let limit = aim_limit(tool, window.session.content.rendered->0);
            &&& moved.session.aim.cursor is Some
            &&& (moved.session.aim.cursor->0).0 <= limit.0
            &&& (moved.session.aim.cursor->0).1 <= limit.1
            &&& moved.session.aim.anchor == window.session.aim.anchor
        }),
{
    reveal(WindowView::show_aim);
}

/// Two points of the image that are set with the region tool select the region
/// from the first to the second.
pub proof fn two_points_select_a_region(
    window: WindowView,
    first: (u32, u32),
    second: (u32, u32),
    size: (u32, u32),
    id: AnnotationId,
)
    requires
        window.session.tools.tool == Tool::Select,
        window.session.content.rendered == Some(size),
        window.session.aim.anchor is None,
        crate::region::pixel_inside(first, size),
        crate::region::pixel_inside(second, size),
    ensures
        ({
            let started = window.set_point(first, id);
            let ended = started.set_point(second, id);
            &&& started.session.aim.anchor == Some(first)
            &&& started.session.region == window.session.region
            &&& ended.session.aim.anchor is None
            &&& ended.session.region.selection == spec_selection_overlay(
                SelectionDrag { start: first, current: second, image_dimensions: size },
            )
            &&& ended.session.region.selection is Some
        }),
{
}

} // verus!
