//! Which tool is active, and what changing it entails.

use crate::effect::{Announcement, CanvasSide, Cursor, Effect, Notice, Operation, SizeControl};
use crate::scale::ScaleMethod;
use crate::tool::{
    palette_visible, resting_tool, spec_palette_visible, spec_resting_tool, Tool,
};
use crate::window::{
    Annotations, Flags, KeyboardAim, Region, Scaling, Session, Tools, ViewerWindow, WindowView,
};
use crate::region::CropOverlay;
use vstd::prelude::*;

verus! {

/// Whether the pencil, or any tool that works on pixels, can be active.
pub fn pencil_can_activate(has_image: bool) -> (possible: bool)
    ensures
        possible == has_image,
{
    has_image
}

/// The tools that the arrow keys can aim.
pub open spec fn aims_by_keyboard(tool: Tool) -> bool {
    tool != Tool::Idle && tool != Tool::Scale
}

/// What the size control stands for while a tool is active.
pub open spec fn spec_size_control(tool: Tool) -> SizeControl {
    match tool {
        Tool::Text => SizeControl::TextSize,
        Tool::Highlight => SizeControl::HighlightWidth,
        Tool::Arrow | Tool::Pencil => SizeControl::StrokeWidth,
        Tool::Measure => SizeControl::MeasurementWidth,
        _ => SizeControl::Width,
    }
}

/// What the size control stands for while a tool is active.
pub fn size_control(tool: Tool) -> (control: SizeControl)
    ensures
        control == spec_size_control(tool),
{
    match tool {
        Tool::Text => SizeControl::TextSize,
        Tool::Highlight => SizeControl::HighlightWidth,
        Tool::Arrow | Tool::Pencil => SizeControl::StrokeWidth,
        Tool::Measure => SizeControl::MeasurementWidth,
        _ => SizeControl::Width,
    }
}

/// The pointer's shape over the primary picture once nothing else claims it.
pub open spec fn spec_resting_cursor(tool: Tool, lens_active: bool) -> Cursor {
    if lens_active || tool == Tool::Measure {
        Cursor::Hidden
    } else if tool == Tool::Select || tool == Tool::PickColor {
        Cursor::Crosshair
    } else {
        Cursor::Default
    }
}

/// The pointer's shape over the primary picture once nothing else claims it.
pub fn resting_cursor(tool: Tool, lens_active: bool) -> (cursor: Cursor)
    ensures
        cursor == spec_resting_cursor(tool, lens_active),
{
    if lens_active || matches!(tool, Tool::Measure) {
        Cursor::Hidden
    } else if matches!(tool, Tool::Select | Tool::PickColor) {
        Cursor::Crosshair
    } else {
        Cursor::Default
    }
}

impl WindowView {
    pub open spec fn with_tools(self, tools: Tools) -> WindowView {
        WindowView { session: Session { tools, ..self.session }, ..self }
    }

    pub open spec fn with_annotations(self, annotations: Annotations) -> WindowView {
        WindowView { session: Session { annotations, ..self.session }, ..self }
    }

    pub open spec fn with_region(self, region: Region) -> WindowView {
        WindowView { session: Session { region, ..self.session }, ..self }
    }

    /// The window with no annotation in the hand of the pointer.
    pub open spec fn cancel_annotation_drag(self) -> WindowView {
        if self.session.annotations.drag is Some {
            self.with_annotations(
                Annotations { drag: None, ..self.session.annotations },
            ).emit(Effect::DiscardAnnotationPreview).render_document()
        } else {
            self
        }
    }

    /// The window with no text being typed.
    pub open spec fn close_text_editor(self) -> WindowView {
        if self.session.annotations.editor is Some {
            self.with_annotations(
                Annotations { editor: None, ..self.session.annotations },
            ).emit(Effect::RemoveTextEditor { commit_preview: false }).render_document().emit(
                Effect::FocusCanvas,
            )
        } else {
            self
        }
    }

    /// The window with its arrow keys aiming from the start, or not at all.
    pub open spec fn prepare_keyboard_tool(self, active: bool) -> WindowView {
        let cleared = WindowView {
            session: Session {
                aim: KeyboardAim { cursor: None, anchor: None },
                ..self.session
            },
            ..self
        }.emit(Effect::ShowMarker(None)).emit(Effect::ShowMeasurementCursor(None));
        if active && aims_by_keyboard(self.session.tools.tool)
            && self.session.content.rendered is Some {
            cleared.emit(Effect::FocusCanvas).emit(Effect::Announce(Announcement::KeyboardHelp))
        } else {
            cleared
        }
    }

    /// The window with this region selected, or none.
    pub open spec fn set_region_selection(self, selection: Option<CropOverlay>) -> WindowView {
        self.with_region(Region { selection, ..self.session.region }).emit(
            Effect::ShowCropOverlay(selection),
        ).emit(Effect::EnableSelectionActions(selection is Some))
    }

    /// The window with no region selected or being marked.
    pub open spec fn clear_region_selection(self) -> WindowView {
        self.with_region(Region { drag: None, ..self.session.region }).set_region_selection(None)
    }

    pub open spec fn set_cursor(self, cursor: Cursor) -> WindowView {
        self.emit(Effect::SetCursor { side: CanvasSide::Primary, cursor })
    }

    /// The window with its colour picker on or off.
    pub open spec fn set_color_picker_active(self, active: bool) -> WindowView {
        let cursor = if self.session.comparison.lens_active || self.session.comparison.active {
            Cursor::Hidden
        } else if active {
            Cursor::Crosshair
        } else {
            Cursor::Default
        };
        self.set_cursor(cursor).emit_if(
            self.session.comparison.active,
            Effect::SetCursor { side: CanvasSide::Comparison, cursor },
        ).prepare_keyboard_tool(active)
    }

    /// The window with its region tool on or off.
    pub open spec fn set_selection_active(self, active: bool) -> WindowView {
        let shown = self.emit(Effect::ShowRegionControls(active));
        let cleared = if active {
            shown
        } else {
            shown.clear_region_selection()
        };
        cleared.set_cursor(
            if active && !self.session.comparison.lens_active {
                Cursor::Crosshair
            } else {
                Cursor::Default
            },
        ).prepare_keyboard_tool(active)
    }

    /// The window with a tool put away.
    #[verifier::opaque]
    pub open spec fn leave_tool(self, tool: Tool) -> WindowView {
        match tool {
            Tool::Pencil => self.abort_pencil_drag().prepare_keyboard_tool(false),
            Tool::PickColor => self.set_color_picker_active(false),
            Tool::Select => self.set_selection_active(false),
            Tool::Scale => self.set_scale_preview_active(false),
            Tool::Measure => self.prepare_keyboard_tool(false),
            _ => self,
        }
    }

    /// The window with its active tool taken up.
    #[verifier::opaque]
    pub open spec fn enter_tool(self, tool: Tool) -> WindowView {
        match tool {
            Tool::Pencil => self.prepare_keyboard_tool(true),
            Tool::PickColor => self.set_color_picker_active(true),
            Tool::Select => self.set_selection_active(true),
            Tool::Scale => self.set_scale_preview_active(true),
            Tool::Measure => self.set_cursor(Cursor::Hidden).prepare_keyboard_tool(true),
            Tool::Idle => self.set_cursor(Cursor::Default).prepare_keyboard_tool(false),
            _ => self.set_cursor(
                if self.session.comparison.lens_active {
                    Cursor::Default
                } else {
                    Cursor::Crosshair
                },
            ).prepare_keyboard_tool(true),
        }
    }

    /// The tools after a change to `tool`.
    pub open spec fn tools_for(self, tool: Tool) -> Tools {
        let previous = self.session.tools.tool;
        Tools {
            tool,
            return_tool: if tool == Tool::PickColor && previous.spec_is_annotation() {
                Some(previous)
            } else {
                None
            },
        }
    }

    /// Whether the selected annotation stays selected under these tools.
    pub open spec fn keeps_selection(tools: Tools) -> bool {
        spec_palette_visible(tools.tool, tools.return_tool)
    }

    /// The window with another tool, which is known to be possible.
    #[verifier::opaque]
    pub open spec fn change_tool(self, tool: Tool) -> WindowView {
        let tools = self.tools_for(tool);
        let ready = self.end_nudging().cancel_annotation_drag().close_text_editor().leave_tool(
            self.session.tools.tool,
        ).with_tools(tools);
        let settled = if WindowView::keeps_selection(tools) {
            ready
        } else {
            ready.select_annotation(None, None)
        };
        settled.emit(Effect::ShowToolButtons(tool)).enter_tool(tool).emit(
            Effect::SetSizeControl(spec_size_control(tool)),
        ).emit(Effect::ShowPalette(spec_palette_visible(tool, tools.return_tool))).emit(
            Effect::SetToolState(tool),
        ).emit(Effect::SetCanvasLabel(tool))
    }

    /// The tool that a request leads to where pixels can be edited or not.
    pub open spec fn requested_tool(self, tool: Tool) -> Tool {
        spec_resting_tool(tool, self.session.editable())
    }

    /// Whether a request changes the tool: not to the active one, not to one
    /// that places shapes while two images are compared, and to none at all
    /// without pixels.
    pub open spec fn tool_changes(self, tool: Tool) -> bool {
        let requested = self.requested_tool(tool);
        &&& requested != self.session.tools.tool
        &&& !(requested.spec_is_vector_annotation() && self.session.comparison.active)
        &&& requested == Tool::Idle || self.session.content.rendered is Some
    }

    /// The window after a tool was asked for.
    pub open spec fn set_tool(self, tool: Tool) -> WindowView {
        let requested = self.requested_tool(tool);
        if self.tool_changes(tool) {
            self.change_tool(requested)
        } else if requested == self.session.tools.tool || (requested.spec_is_vector_annotation()
            && self.session.comparison.active) {
            self
        } else {
            self.emit(Effect::Notify(Notice::OpenEditableFirst))
        }
    }

    /// The window after a tool was asked for, or put away where it was active.
    #[verifier::opaque]
    pub open spec fn toggle_tool(self, tool: Tool) -> WindowView {
        self.set_tool(
            if self.session.tools.tool == tool {
                Tool::Idle
            } else {
                tool
            },
        )
    }

    /// Whether Escape has a tool to end.
    pub open spec fn tool_can_end(self) -> bool {
        self.session.tools.tool != Tool::Idle && self.session.tools.tool != Tool::Select
    }

    /// The window after Escape: the first of these that there is to end.
    #[verifier::opaque]
    pub open spec fn cancel_tool(self) -> WindowView {
        let session = self.session;
        if session.tools.tool == Tool::Select && (session.region.drag is Some
            || session.region.selection is Some) {
            self.clear_region_selection()
        } else if session.annotations.editor is Some {
            self.close_text_editor()
        } else if session.annotations.drag is Some {
            self.cancel_annotation_drag()
        } else if session.annotations.selected is Some {
            self.select_annotation(None, None)
        } else if session.tools.tool == Tool::PickColor && session.tools.return_tool is Some {
            self.set_tool(session.tools.return_tool->0)
        } else if self.tool_can_end() {
            self.set_tool(Tool::Idle).emit(Effect::ForgetPencilPoints).emit(
                Effect::Notify(Notice::ToolCancelled),
            )
        } else {
            self
        }
    }

    /// The window with the news whether its image can be edited.
    pub open spec fn decode_ended(self, available: bool) -> WindowView {
        WindowView {
            session: Session {
                flags: Flags { decode_pending: false, ..self.session.flags },
                scaling: Scaling { pending_activation: false, ..self.session.scaling },
                ..self.session
            },
            ..self
        }.emit(
            Effect::ShowViewOnly(self.session.content.texture is Some && !available),
        ).emit(Effect::UpdateActionStates)
    }

    /// The window once it is known whether its image can be edited.
    pub open spec fn finish_editable_decode(self, available: bool) -> WindowView {
        let ended = self.decode_ended(available);
        if self.session.scaling.pending_activation {
            if available && self.session.tools.tool == Tool::Scale {
                ended.set_scale_preview_active(true)
            } else {
                ended.emit(Effect::ReleaseScaleButton)
            }
        } else if available && self.session.tools.tool == Tool::Idle {
            ended.set_tool(Tool::Select)
        } else {
            ended
        }
    }

    /// The window with the chosen size taken over into the document.
    #[verifier::opaque]
    pub open spec fn confirm_scale_preview(self) -> WindowView {
        let scaling = self.session.scaling;
        match scaling.source {
            None => self,
            Some(source) => {
                let grows = scaling.target.0 > source.0 || scaling.target.1 > source.1;
                if grows && scaling.method == ScaleMethod::SeamCarving {
                    self.emit(Effect::Notify(Notice::SeamCarvingShrinksOnly))
                } else {
                    let shown = self.emit_if(
                        grows,
                        Effect::Notify(Notice::ScalingUp),
                    ).set_scale_original_visible(false);
                    shown.with_scaling(
                        Scaling { committing: true, ..shown.session.scaling },
                    ).set_tool(Tool::Idle).apply(
                        Operation::Scale {
                            width: scaling.target.0,
                            height: scaling.target.1,
                            method: scaling.method,
                        },
                    )
                }
            },
        }
    }

    /// The window with a picked colour to draw with.
    pub open spec fn apply_picked_color(self, color: [u8; 4]) -> WindowView {
        self.abort_pencil_drag().emit(Effect::SetDrawingColor(color))
    }

    /// The window with a picked colour copied, and its colour picker left for
    /// the tool that it was called from.
    pub open spec fn copy_color_to_clipboard(self, color: [u8; 4]) -> WindowView {
        let copied = self.apply_picked_color(color).emit(Effect::CopyColor(color));
        match self.session.tools.return_tool {
            Some(tool) => copied.set_tool(tool),
            None => copied,
        }
    }
}

impl ViewerWindow {
    /// Lets go of an annotation without changing it. Tells whether one was
    /// held.
    pub fn cancel_annotation_drag(&mut self) -> (held: bool)
        ensures
            held == old(self)@.session.annotations.drag is Some,
            final(self)@ == old(self)@.cancel_annotation_drag(),
    {
        if self.session.annotations.drag.is_none() {
            return false;
        }
        self.session.annotations.drag = None;
        self.emit(Effect::DiscardAnnotationPreview);
        self.render_document();
        true
    }

    /// Closes the text editor without taking its text over. Tells whether one
    /// was open.
    pub fn close_text_editor(&mut self) -> (open: bool)
        ensures
            open == old(self)@.session.annotations.editor is Some,
            final(self)@ == old(self)@.close_text_editor(),
    {
        if self.session.annotations.editor.is_none() {
            return false;
        }
        self.session.annotations.editor = None;
        self.emit(Effect::RemoveTextEditor { commit_preview: false });
        self.render_document();
        self.emit(Effect::FocusCanvas);
        true
    }

    /// Lets the arrow keys aim from the start, or not at all.
    pub fn prepare_keyboard_tool(&mut self, active: bool)
        ensures
            final(self)@ == old(self)@.prepare_keyboard_tool(active),
    {
        self.session.aim.cursor = None;
        self.session.aim.anchor = None;
        self.emit(Effect::ShowMarker(None));
        self.emit(Effect::ShowMeasurementCursor(None));
        if !active || matches!(self.session.tools.tool, Tool::Idle | Tool::Scale)
            || self.session.content.rendered.is_none() {
            return;
        }
        self.emit(Effect::FocusCanvas);
        self.emit(Effect::Announce(Announcement::KeyboardHelp));
    }

    /// Selects a region, or none.
    pub fn set_region_selection(&mut self, selection: Option<CropOverlay>)
        ensures
            final(self)@ == old(self)@.set_region_selection(selection),
    {
        self.session.region.selection = selection;
        self.emit(Effect::ShowCropOverlay(selection));
        self.emit(Effect::EnableSelectionActions(selection.is_some()));
    }

    /// Selects no region, and stops marking one.
    pub fn clear_region_selection(&mut self)
        ensures
            final(self)@ == old(self)@.clear_region_selection(),
    {
        self.session.region.drag = None;
        self.set_region_selection(None);
    }

    /// Shapes the pointer over the primary picture.
    pub fn set_cursor(&mut self, cursor: Cursor)
        ensures
            final(self)@ == old(self)@.set_cursor(cursor),
    {
        self.emit(Effect::SetCursor { side: CanvasSide::Primary, cursor });
    }

    fn set_color_picker_active(&mut self, active: bool)
        ensures
            final(self)@ == old(self)@.set_color_picker_active(active),
    {
        let cursor = if self.session.comparison.lens_active || self.session.comparison.active {
            Cursor::Hidden
        } else if active {
            Cursor::Crosshair
        } else {
            Cursor::Default
        };
        self.set_cursor(cursor);
        if self.session.comparison.active {
            self.emit(Effect::SetCursor { side: CanvasSide::Comparison, cursor });
        }
        self.prepare_keyboard_tool(active);
    }

    fn set_selection_active(&mut self, active: bool)
        ensures
            final(self)@ == old(self)@.set_selection_active(active),
    {
        self.emit(Effect::ShowRegionControls(active));
        if !active {
            self.clear_region_selection();
        }
        let cursor = if active && !self.session.comparison.lens_active {
            Cursor::Crosshair
        } else {
            Cursor::Default
        };
        self.set_cursor(cursor);
        self.prepare_keyboard_tool(active);
    }

    fn leave_tool(&mut self, tool: Tool)
        ensures
            final(self)@ == old(self)@.leave_tool(tool),
    {
        proof {
            reveal(WindowView::leave_tool);
        }
        match tool {
            Tool::Pencil => {
                self.abort_pencil_drag();
                self.prepare_keyboard_tool(false);
            },
            Tool::PickColor => self.set_color_picker_active(false),
            Tool::Select => self.set_selection_active(false),
            Tool::Scale => self.set_scale_preview_active(false),
            Tool::Measure => self.prepare_keyboard_tool(false),
            _ => {},
        }
    }

    fn enter_tool(&mut self, tool: Tool)
        ensures
            final(self)@ == old(self)@.enter_tool(tool),
    {
        proof {
            reveal(WindowView::enter_tool);
        }
        match tool {
            Tool::Pencil => self.prepare_keyboard_tool(true),
            Tool::PickColor => self.set_color_picker_active(true),
            Tool::Select => self.set_selection_active(true),
            Tool::Scale => self.set_scale_preview_active(true),
            Tool::Measure => {
                self.set_cursor(Cursor::Hidden);
                self.prepare_keyboard_tool(true);
            },
            Tool::Highlight | Tool::Arrow | Tool::Text => {
                let cursor = if self.session.comparison.lens_active {
                    Cursor::Default
                } else {
                    Cursor::Crosshair
                };
                self.set_cursor(cursor);
                self.prepare_keyboard_tool(true);
            },
            Tool::Idle => {
                self.set_cursor(Cursor::Default);
                self.prepare_keyboard_tool(false);
            },
        }
    }

    /// Changes the tool where that is possible: puts the active one away, with
    /// all that it had begun, and takes the other one up.
    pub fn set_tool(&mut self, tool: Tool)
        ensures
            final(self)@ == old(self)@.set_tool(tool),
    {
        let tool = resting_tool(tool, self.editable());
        let previous = self.session.tools.tool;
        if previous == tool {
            return;
        }
        if tool.is_vector_annotation() && self.session.comparison.active {
            return;
        }
        if tool != Tool::Idle && !pencil_can_activate(self.session.content.rendered.is_some()) {
            self.emit(Effect::Notify(Notice::OpenEditableFirst));
            return;
        }
        proof {
            reveal(WindowView::change_tool);
        }
        self.session.annotations.nudged = None;
        self.cancel_annotation_drag();
        self.close_text_editor();
        self.leave_tool(previous);
        self.session.tools.return_tool = if tool == Tool::PickColor && previous.is_annotation() {
            Some(previous)
        } else {
            None
        };
        self.session.tools.tool = tool;
        let palette = palette_visible(tool, self.session.tools.return_tool);
        if !palette {
            self.select_annotation(None, None);
        }
        self.emit(Effect::ShowToolButtons(tool));
        self.enter_tool(tool);
        self.emit(Effect::SetSizeControl(size_control(tool)));
        self.emit(Effect::ShowPalette(palette));
        self.emit(Effect::SetToolState(tool));
        self.emit(Effect::SetCanvasLabel(tool));
    }

    /// Takes a tool up, or puts it away where it is active.
    pub fn toggle_tool(&mut self, tool: Tool)
        ensures
            final(self)@ == old(self)@.toggle_tool(tool),
    {
        proof {
            reveal(WindowView::toggle_tool);
        }
        if self.session.tools.tool == tool {
            self.set_tool(Tool::Idle);
        } else {
            self.set_tool(tool);
        }
    }

    /// Follows the button of a tool. Tells how the button has to stand, where
    /// it does not stand as the tool does.
    pub fn tool_button_toggled(&mut self, pressed: bool, tool: Tool) -> (correction: Option<bool>)
        ensures
            ({
                let requested = if pressed {
                    tool
                } else {
                    Tool::Idle
                };
                &&& final(self)@ == old(self)@.set_tool(requested)
                &&& correction == if final(self)@.session.tools.tool == requested {
                    None
                } else {
                    Some(final(self)@.session.tools.tool == tool)
                }
            }),
    {
        let requested = if pressed {
            tool
        } else {
            Tool::Idle
        };
        self.set_tool(requested);
        if self.session.tools.tool == requested {
            None
        } else {
            Some(self.session.tools.tool == tool)
        }
    }

    /// Ends what Escape ends: a marked region, a text, a drag, a selection, a
    /// borrowed colour picker, or the tool.
    pub fn cancel_tool(&mut self)
        ensures
            final(self)@ == old(self)@.cancel_tool(),
    {
        proof {
            reveal(WindowView::cancel_tool);
        }
        if matches!(self.session.tools.tool, Tool::Select) && (self.session.region.drag.is_some()
            || self.session.region.selection.is_some()) {
            self.clear_region_selection();
            return;
        }
        if self.close_text_editor() || self.cancel_annotation_drag() {
            return;
        }
        if self.session.annotations.selected.is_some() {
            self.select_annotation(None, None);
            return;
        }
        if matches!(self.session.tools.tool, Tool::PickColor) {
            if let Some(return_tool) = self.session.tools.return_tool {
                self.set_tool(return_tool);
                return;
            }
        }
        if matches!(self.session.tools.tool, Tool::Idle | Tool::Select) {
            return;
        }
        self.set_tool(Tool::Idle);
        self.emit(Effect::ForgetPencilPoints);
        self.emit(Effect::Notify(Notice::ToolCancelled));
    }

    fn decode_ended(&mut self, available: bool)
        ensures
            final(self)@ == old(self)@.decode_ended(available),
    {
        let view_only = self.session.content.texture.is_some() && !available;
        self.session = Session {
            flags: Flags { decode_pending: false, ..self.session.flags },
            scaling: Scaling { pending_activation: false, ..self.session.scaling },
            ..self.session
        };
        self.emit(Effect::ShowViewOnly(view_only));
        self.emit(Effect::UpdateActionStates);
    }

    /// Learns whether the image can be edited: the selection is then at hand,
    /// or the scaling tool that waited for it.
    pub fn finish_editable_decode(&mut self, available: bool)
        ensures
            final(self)@ == old(self)@.finish_editable_decode(available),
    {
        let waiting = self.session.scaling.pending_activation;
        self.decode_ended(available);
        if waiting {
            if available && matches!(self.session.tools.tool, Tool::Scale) {
                self.set_scale_preview_active(true);
            } else {
                self.emit(Effect::ReleaseScaleButton);
            }
        } else if available && matches!(self.session.tools.tool, Tool::Idle) {
            self.set_tool(Tool::Select);
        }
    }

    /// Takes the chosen size over into the document, and leaves the scaling
    /// tool.
    pub fn confirm_scale_preview(&mut self)
        ensures
            final(self)@ == old(self)@.confirm_scale_preview(),
    {
        proof {
            reveal(WindowView::confirm_scale_preview);
        }
        let scaling = self.session.scaling;
        let source = match scaling.source {
            None => {
                return;
            },
            Some(source) => source,
        };
        let (width, height) = scaling.target;
        let grows = width > source.0 || height > source.1;
        if grows && matches!(scaling.method, ScaleMethod::SeamCarving) {
            self.emit(Effect::Notify(Notice::SeamCarvingShrinksOnly));
            return;
        }
        if grows {
            self.emit(Effect::Notify(Notice::ScalingUp));
        }
        self.set_scale_original_visible(false);
        self.session.scaling.committing = true;
        self.set_tool(Tool::Idle);
        self.apply(Operation::Scale { width, height, method: scaling.method });
    }

    /// Draws with a picked colour from now on.
    pub fn apply_picked_color(&mut self, color: [u8; 4])
        ensures
            final(self)@ == old(self)@.apply_picked_color(color),
    {
        self.abort_pencil_drag();
        self.emit(Effect::SetDrawingColor(color));
    }

    /// Draws with a picked colour, copies it, and returns to the tool that the
    /// colour picker was called from.
    pub fn copy_color_to_clipboard(&mut self, color: [u8; 4])
        ensures
            final(self)@ == old(self)@.copy_color_to_clipboard(color),
    {
        let return_tool = self.session.tools.return_tool;
        self.apply_picked_color(color);
        self.emit(Effect::CopyColor(color));
        if let Some(tool) = return_tool {
            self.set_tool(tool);
        }
    }
}

} // verus!
