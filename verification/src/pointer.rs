//! What the pointer does beside dragging: picking colours, zooming, and
//! passing over annotations.

use crate::annotation::Hit;
use crate::effect::{CanvasSide, Effect, ZoomAlignment, ZoomTarget};
use crate::tool::Tool;
use crate::window::{HitKind, ViewerWindow, WindowView};
use vstd::prelude::*;

verus! {

/// What is shown while the pointer passes over an annotation, or none.
#[derive(Debug, Clone, Copy, PartialEq, Eq, Structural)]
pub struct HoverLook {
    /// Whether the handles of the selected annotation are drawn anew.
    pub handles: bool,
    /// Whether the handle under the pointer stands out.
    pub hot: bool,
    /// Whether the pointer itself is hidden.
    pub hidden: bool,
}

/// What follows a move of the pointer while a tool draws.
#[derive(Debug, Clone, Copy, PartialEq, Eq, Structural)]
pub struct AnnotationHover {
    /// Whether the crosshair of the measuring tool follows the pointer.
    pub measuring: bool,
    /// What is shown of the annotations; nothing changes while one is dragged
    /// or beside the image.
    pub look: Option<HoverLook>,
}

impl WindowView {
    /// The window after a click of the colour picker on a pixel of that colour,
    /// and whether it was one.
    pub open spec fn picker_clicked(self, color: Option<[u8; 4]>) -> (WindowView, bool) {
        match color {
            Some(color) => if self.session.tools.tool == Tool::PickColor {
                (self.copy_color_to_clipboard(color), true)
            } else {
                (self, false)
            },
            None => (self, false),
        }
    }

    /// The window after a click that samples a colour to draw with, and whether
    /// it was one. On the primary picture the pencil claims it even where there
    /// is no pixel, and the colour is told.
    pub open spec fn sampler_clicked(
        self,
        side: CanvasSide,
        color: Option<[u8; 4]>,
    ) -> (WindowView, bool) {
        if self.session.tools.tool != Tool::Pencil {
            (self, false)
        } else {
            match color {
                Some(color) => (
                    self.apply_picked_color(color).emit_if(
                        side == CanvasSide::Primary,
                        Effect::ReportSample(color),
                    ),
                    true,
                ),
                None => (self, side == CanvasSide::Primary),
            }
        }
    }

    /// What follows a move of the pointer, where a tool draws.
    pub open spec fn annotation_hover(
        self,
        inside: bool,
        hit: Option<Hit>,
    ) -> Option<AnnotationHover> {
        let tool = self.session.tools.tool;
        if !tool.spec_is_annotation() {
            None
        } else {
            Some(
                AnnotationHover {
                    measuring: tool == Tool::Measure,
                    look: if self.session.annotations.drag is Some || !inside {
                        None
                    } else {
                        Some(
                            HoverLook {
                                handles: self.session.annotations.selected is Some
                                    && self.session.content.selected_kind is Some,
                                hot: hit is Some && (hit->0.part == HitKind::Handle
                                    || hit->0.part == HitKind::ControlHandle),
                                hidden: hit is None && tool == Tool::Measure,
                            },
                        )
                    },
                },
            )
        }
    }

    /// The window with a zoom that a gesture has reached; once it has ended, the
    /// zoom is brought onto the grid.
    pub open spec fn gesture_zoomed(self, ended: bool) -> WindowView {
        self.set_zoom(
            ZoomTarget::Gesture,
            if ended {
                Some(ZoomAlignment::Nearest)
            } else {
                None
            },
        )
    }

    /// The window after a turn of the wheel, and whether it zooms.
    pub open spec fn wheel_turned(self, control: bool) -> (WindowView, bool) {
        if control {
            (self.gesture_zoomed(true), true)
        } else {
            (self, false)
        }
    }
}

impl ViewerWindow {
    /// Copies the colour of a clicked pixel where the colour picker is active.
    pub fn picker_clicked(&mut self, color: Option<[u8; 4]>) -> (claimed: bool)
        ensures
            (final(self)@, claimed) == old(self)@.picker_clicked(color),
    {
        if !matches!(self.session.tools.tool, Tool::PickColor) {
            return false;
        }
        match color {
            Some(color) => {
                self.copy_color_to_clipboard(color);
                true
            },
            None => false,
        }
    }

    /// Takes the colour of a clicked pixel to draw with where the pencil is
    /// active.
    pub fn sampler_clicked(&mut self, side: CanvasSide, color: Option<[u8; 4]>) -> (claimed: bool)
        ensures
            (final(self)@, claimed) == old(self)@.sampler_clicked(side, color),
    {
        if !matches!(self.session.tools.tool, Tool::Pencil) {
            return false;
        }
        let primary = matches!(side, CanvasSide::Primary);
        match color {
            Some(color) => {
                self.apply_picked_color(color);
                if primary {
                    self.emit(Effect::ReportSample(color));
                }
                true
            },
            None => primary,
        }
    }

    /// What follows a move of the pointer, where a tool draws. A drag owns what
    /// is shown of the annotation that it holds.
    pub fn annotation_hover(&self, inside: bool, hit: Option<Hit>) -> (hover: Option<
        AnnotationHover,
    >)
        ensures
            hover == self@.annotation_hover(inside, hit),
    {
        let tool = self.session.tools.tool;
        if !tool.is_annotation() {
            return None;
        }
        let measuring = matches!(tool, Tool::Measure);
        if self.session.annotations.drag.is_some() || !inside {
            return Some(AnnotationHover { measuring, look: None });
        }
        let hot = match hit {
            Some(hit) => matches!(hit.part, HitKind::Handle | HitKind::ControlHandle),
            None => false,
        };
        let look = HoverLook {
            handles: self.session.annotations.selected.is_some()
                && self.session.content.selected_kind.is_some(),
            hot,
            hidden: hit.is_none() && measuring,
        };
        Some(AnnotationHover { measuring, look: Some(look) })
    }

    /// Takes the zoom that a gesture has reached.
    pub fn gesture_zoomed(&mut self, ended: bool)
        ensures
            final(self)@ == old(self)@.gesture_zoomed(ended),
    {
        self.set_zoom(
            ZoomTarget::Gesture,
            if ended {
                Some(ZoomAlignment::Nearest)
            } else {
                None
            },
        );
    }

    /// Zooms where the wheel is turned with Control held.
    pub fn wheel_turned(&mut self, control: bool) -> (claimed: bool)
        ensures
            (final(self)@, claimed) == old(self)@.wheel_turned(control),
    {
        if control {
            self.gesture_zoomed(true);
        }
        control
    }
}

/// A click that is not claimed changes nothing.
pub proof fn unclaimed_clicks_change_nothing(
    window: WindowView,
    side: CanvasSide,
    color: Option<[u8; 4]>,
)
    ensures
        !window.picker_clicked(color).1 ==> window.picker_clicked(color).0 == window,
        !window.sampler_clicked(side, color).1 ==> window.sampler_clicked(side, color).0
            == window,
{
}

/// A colour that is sampled leaves no stroke begun and no line to continue.
pub proof fn sampling_leaves_no_stroke(window: WindowView, side: CanvasSide, color: [u8; 4])
    requires
        window.session.tools.tool == Tool::Pencil,
    ensures
        ({
            let sampled = window.sampler_clicked(side, Some(color)).0.session.pencil;
            &&& sampled.drag is None
            &&& sampled.line_anchor is None
            &&& sampled.line_annotation is None
        }),
{
}

} // verus!
