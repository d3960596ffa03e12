//! The picture over the whole screen, with everything else out of reach.

use crate::actions::Action;
use crate::window::{ViewerWindow, WindowView};
use vstd::prelude::*;

verus! {

/// Whether an action can be used while the picture fills the screen.
pub open spec fn allowed_in_preview(action: Action) -> bool {
    action == Action::CancelTool || action == Action::Close
}

/// An action, and whether it can be used.
#[derive(Debug, Clone, Copy, PartialEq, Eq, Structural)]
pub struct ActionState {
    pub action: Action,
    pub enabled: bool,
}

/// What is put back once the picture no longer fills the screen.
#[derive(Debug)]
pub struct FullscreenPreview {
    pub was_fullscreen: bool,
    pub window_size: (i32, i32),
    pub actions: Vec<ActionState>,
}

/// The state of an action while the picture fills the screen.
pub open spec fn spec_previewed(state: ActionState) -> ActionState {
    ActionState { enabled: state.enabled && allowed_in_preview(state.action), ..state }
}

/// The state of an action while the picture fills the screen: only closing the
/// window and Escape stay as they are.
pub fn previewed(state: ActionState) -> (during: ActionState)
    ensures
        during == spec_previewed(state),
{
    let allowed = matches!(state.action, Action::CancelTool | Action::Close);
    ActionState { enabled: state.enabled && allowed, ..state }
}

impl FullscreenPreview {
    /// Takes the states of the actions down, and gives those that hold while the
    /// picture fills the screen.
    pub fn show(actions: Vec<ActionState>, was_fullscreen: bool, window_size: (i32, i32)) -> (shown:
        (FullscreenPreview, Vec<ActionState>))
        ensures
            shown.0.actions@ == actions@,
            shown.0.was_fullscreen == was_fullscreen,
            shown.0.window_size == window_size,
            shown.1@ == actions@.map_values(|state: ActionState| spec_previewed(state)),
    {
        let mut during: Vec<ActionState> = Vec::new();
        let mut index: usize = 0;
        while index < actions.len()
            invariant
                index <= actions.len(),
                during@ == actions@.take(index as int).map_values(
                    |state: ActionState| spec_previewed(state),
                ),
            decreases actions.len() - index,
        {
            assert(actions@.take(index + 1) =~= actions@.take(index as int).push(
                actions@[index as int],
            ));
            during.push(previewed(actions[index]));
            index = index + 1;
            assert(during@ =~= actions@.take(index as int).map_values(
                |state: ActionState| spec_previewed(state),
            ));
        }
        assert(actions@.take(actions@.len() as int) =~= actions@);
        (FullscreenPreview { was_fullscreen, window_size, actions }, during)
    }

    /// The states of the actions to put back, and whether the window stays over
    /// the whole screen.
    pub fn leave(self) -> (left: (Vec<ActionState>, bool))
        ensures
            left.0@ == self.actions@,
            left.1 == self.was_fullscreen,
    {
        (self.actions, self.was_fullscreen)
    }
}

impl WindowView {
    /// The window with nothing in the hand of the pointer, before its picture
    /// fills the screen.
    pub open spec fn prepare_preview(self) -> WindowView {
        let free = self.cancel_annotation_drag();
        if free.session.pencil.drag is Some {
            free.abort_pencil_drag()
        } else {
            free
        }
    }
}

impl ViewerWindow {
    /// Lets go of an annotation or a stroke, before the picture fills the screen.
    pub fn prepare_preview(&mut self)
        ensures
            final(self)@ == old(self)@.prepare_preview(),
    {
        let _ = self.cancel_annotation_drag();
        if self.session.pencil.drag.is_some() {
            self.abort_pencil_drag();
        }
    }
}

/// While the picture fills the screen, no action but closing the window and
/// Escape can be used, whatever the window comes to allow meanwhile.
pub proof fn previews_block_actions(state: ActionState)
    requires
        spec_previewed(state).enabled,
    ensures
        state.action == Action::CancelTool || state.action == Action::Close,
        spec_previewed(state) == state,
{
}

} // verus!
