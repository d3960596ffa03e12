//! Which part of the window a key goes to, and whether it claims the key.

use crate::annotation::KeyUse;
use crate::effect::AnnotationId;
use crate::keyboard::{keyboard_tool, spec_keyboard_tool};
use crate::keys::{
    arrow_step, image_navigation_direction, is_activation, pencil_zoom_key, spec_arrow_step,
    spec_image_navigation_direction, spec_is_activation, spec_pencil_zoom_key, Key, Modifiers,
    PencilZoomKey,
};
use crate::tool::Tool;
use crate::window::{ViewerWindow, WindowView};
use vstd::prelude::*;

verus! {

/// What a key confirms, apart from the space bar.
pub open spec fn is_enter(key: Key) -> bool {
    key == Key::Return || key == Key::KeypadEnter
}

impl WindowView {
    /// The window after a key that zooms while the pencil is active, and
    /// whether it was one.
    pub open spec fn zoom_key(self, key: Key, modifiers: Modifiers) -> (WindowView, bool) {
        match spec_pencil_zoom_key(key, modifiers, self.session.tools.tool == Tool::Pencil) {
            Some(direction) => (self.step_zoom(direction == PencilZoomKey::In), true),
            None => (self, false),
        }
    }

    /// The window after a key that may be about an annotation, and whether it
    /// was.
    pub open spec fn annotation_key(self, key: Key, modifiers: Modifiers) -> (WindowView, bool) {
        (
            self.handle_annotation_key(key, modifiers),
            self.annotation_key_use(key) == KeyUse::Handled,
        )
    }

    /// The window after a key that no canvas has claimed, and whether it is
    /// about an annotation. Keys that go into a text are not.
    pub open spec fn window_key(
        self,
        key: Key,
        modifiers: Modifiers,
        text_focused: bool,
    ) -> (WindowView, bool) {
        if modifiers.spec_command() || text_focused {
            (self, false)
        } else {
            self.annotation_key(key, modifiers)
        }
    }

    /// The window after a key that aims the active tool or makes it act, and
    /// whether it did.
    pub open spec fn aiming_key(
        self,
        key: Key,
        modifiers: Modifiers,
        id: AnnotationId,
    ) -> (WindowView, bool) {
        let step = spec_arrow_step(key, modifiers);
        if spec_keyboard_tool(self.session.tools.tool) is None {
            (self, false)
        } else if step is Some && self.can_aim() {
            (self.move_keyboard_tool_cursor((step->0).0 as i32, (step->0).1 as i32), true)
        } else if spec_is_activation(key) {
            (self.activate_keyboard_tool(id), true)
        } else {
            (self, false)
        }
    }

    /// The window after a key on its canvas, and whether it was claimed: by an
    /// annotation, by the scaling, by the selected region or by the active
    /// tool, in this order.
    pub open spec fn canvas_key(
        self,
        key: Key,
        modifiers: Modifiers,
        id: AnnotationId,
    ) -> (WindowView, bool) {
        if modifiers.spec_command() {
            (self, false)
        } else if self.annotation_key(key, modifiers).1 {
            self.annotation_key(key, modifiers)
        } else if self.session.tools.tool == Tool::Scale && is_enter(key) {
            (self.confirm_scale_preview(), true)
        } else if spec_is_activation(key) && self.session.region.selection is Some {
            (self.zoom_selected_region(), true)
        } else {
            self.aiming_key(key, modifiers, id)
        }
    }

    /// The window after a key on its canvas was released.
    pub open spec fn canvas_key_released(self, key: Key) -> WindowView {
        if key == Key::ControlLeft || key == Key::ControlRight {
            self.abort_pencil_line()
        } else {
            self
        }
    }

    /// The window after a key that may lead to another image, and whether it
    /// did.
    pub open spec fn navigation_key(self, key: Key, modifiers: Modifiers) -> (WindowView, bool) {
        let tool = self.session.tools.tool;
        let contextual = spec_keyboard_tool(tool) is Some || tool == Tool::Scale;
        match spec_image_navigation_direction(key, modifiers, contextual) {
            Some(forward) => (self.navigate(forward), true),
            None => (self, false),
        }
    }
}

/// A key that is about no annotation leaves them alone.
proof fn ignored_keys_change_nothing(window: WindowView, key: Key, modifiers: Modifiers)
    requires
        window.annotation_key_use(key) == KeyUse::Ignored,
    ensures
        window.handle_annotation_key(key, modifiers) == window,
{
    reveal(WindowView::handle_annotation_key);
}

impl ViewerWindow {
    /// Zooms where the key does so while the pencil is active.
    pub fn zoom_key_pressed(&mut self, key: Key, modifiers: Modifiers) -> (claimed: bool)
        ensures
            (final(self)@, claimed) == old(self)@.zoom_key(key, modifiers),
    {
        let pencil = matches!(self.session.tools.tool, Tool::Pencil);
        match pencil_zoom_key(key, modifiers, pencil) {
            Some(direction) => {
                self.step_zoom(matches!(direction, PencilZoomKey::In));
                true
            },
            None => false,
        }
    }

    /// Hands a key that no canvas has claimed to the selected annotation.
    pub fn window_key_pressed(
        &mut self,
        key: Key,
        modifiers: Modifiers,
        text_focused: bool,
    ) -> (claimed: bool)
        ensures
            (final(self)@, claimed) == old(self)@.window_key(key, modifiers, text_focused),
    {
        if modifiers.command() || text_focused {
            return false;
        }
        matches!(self.handle_annotation_key(key, modifiers), KeyUse::Handled)
    }

    fn aiming_key(&mut self, key: Key, modifiers: Modifiers, id: AnnotationId) -> (claimed: bool)
        ensures
            (final(self)@, claimed) == old(self)@.aiming_key(key, modifiers, id),
    {
        if keyboard_tool(self.session.tools.tool).is_none() {
            return false;
        }
        if let Some(step) = arrow_step(key, modifiers) {
            if self.move_keyboard_tool_cursor(step.0, step.1) {
                return true;
            }
        }
        if is_activation(key) {
            self.activate_keyboard_tool(id);
            return true;
        }
        false
    }

    /// Hands a key on the canvas to what it is for. `id` is the name of an
    /// annotation that it may place.
    pub fn canvas_key_pressed(
        &mut self,
        key: Key,
        modifiers: Modifiers,
        id: AnnotationId,
    ) -> (claimed: bool)
        ensures
            (final(self)@, claimed) == old(self)@.canvas_key(key, modifiers, id),
    {
        if modifiers.command() {
            return false;
        }
        if matches!(self.handle_annotation_key(key, modifiers), KeyUse::Handled) {
            return true;
        }
        proof {
            ignored_keys_change_nothing(old(self)@, key, modifiers);
        }
        if matches!(self.session.tools.tool, Tool::Scale) && matches!(
            key,
            Key::Return | Key::KeypadEnter
        ) {
            self.confirm_scale_preview();
            return true;
        }
        if is_activation(key) && self.zoom_selected_region() {
            return true;
        }
        self.aiming_key(key, modifiers, id)
    }

    /// Ends a run of pencil lines with the key that continues it.
    pub fn canvas_key_released(&mut self, key: Key)
        ensures
            final(self)@ == old(self)@.canvas_key_released(key),
    {
        if matches!(key, Key::ControlLeft | Key::ControlRight) {
            self.abort_pencil_line();
        }
    }

    /// Goes to the next or previous image where no tool wants the arrow keys.
    pub fn navigation_key_pressed(&mut self, key: Key, modifiers: Modifiers) -> (claimed: bool)
        ensures
            (final(self)@, claimed) == old(self)@.navigation_key(key, modifiers),
    {
        let contextual = keyboard_tool(self.session.tools.tool).is_some() || matches!(
            self.session.tools.tool,
            Tool::Scale
        );
        match image_navigation_direction(key, modifiers, contextual) {
            Some(forward) => {
                self.navigate(forward);
                true
            },
            None => false,
        }
    }
}

/// A key that is not claimed changes nothing.
pub proof fn unclaimed_keys_change_nothing(
    window: WindowView,
    key: Key,
    modifiers: Modifiers,
    text_focused: bool,
    id: AnnotationId,
)
    ensures
        !window.zoom_key(key, modifiers).1 ==> window.zoom_key(key, modifiers).0 == window,
        !window.window_key(key, modifiers, text_focused).1 ==> window.window_key(
            key,
            modifiers,
            text_focused,
        ).0 == window,
        !window.canvas_key(key, modifiers, id).1 ==> window.canvas_key(key, modifiers, id).0
            == window,
        !window.navigation_key(key, modifiers).1 ==> window.navigation_key(key, modifiers).0
            == window,
{
    if window.annotation_key_use(key) == KeyUse::Ignored {
        ignored_keys_change_nothing(window, key, modifiers);
    }
}

/// Where a tool aims by keyboard, its arrow keys never lead to another image,
/// and where an image is shown without one, they do.
pub proof fn arrows_serve_one_purpose(window: WindowView, key: Key, modifiers: Modifiers)
    requires
        spec_arrow_step(key, modifiers) is Some,
    ensures
        spec_keyboard_tool(window.session.tools.tool) is Some ==> !window.navigation_key(
            key,
            modifiers,
        ).1,
        window.session.tools.tool == Tool::Idle && !modifiers.shift && !modifiers.spec_command()
            && (key == Key::Left || key == Key::Right) ==> window.navigation_key(key, modifiers).1,
{
}

} // verus!
