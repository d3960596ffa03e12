//! The frames of an animated image.

use crate::effect::Effect;
use crate::window::{Animation, Session, ViewerWindow, WindowView};
use vstd::prelude::*;

verus! {

/// What the player of an animation does next.
#[derive(Debug, Clone, Copy, PartialEq, Eq, Structural)]
pub enum PlayerStep {
    /// The animation is over, or no longer the one that is shown.
    Stop,
    /// Look again after a moment.
    Wait,
    /// Show the next frame once the frame at this place has had its time.
    Hold { index: usize },
}

impl Animation {
    /// The frame that is shown is one of the frames.
    pub open spec fn well_formed(self) -> bool {
        self.frames > 0 ==> self.index < self.frames
    }

    /// The place of the frame after, or before, the one that is shown.
    pub open spec fn neighbor(self, forward: bool) -> usize {
        if forward {
            if self.index + 1 == self.frames {
                0
            } else {
                (self.index + 1) as usize
            }
        } else if self.index == 0 {
            (self.frames - 1) as usize
        } else {
            (self.index - 1) as usize
        }
    }

    fn step(&self, forward: bool) -> (index: usize)
        requires
            self.well_formed(),
            self.frames > 0,
        ensures
            index == self.neighbor(forward),
    {
        if forward {
            if self.index + 1 == self.frames {
                0
            } else {
                self.index + 1
            }
        } else if self.index == 0 {
            self.frames - 1
        } else {
            self.index - 1
        }
    }
}

impl WindowView {
    pub open spec fn with_animation(self, animation: Animation) -> WindowView {
        WindowView { session: Session { animation, ..self.session }, ..self }
    }

    /// The window with the frame at this place shown.
    pub open spec fn show_frame(self, index: usize) -> WindowView {
        self.with_animation(Animation { index, ..self.session.animation }).emit(
            Effect::ShowFrame(index),
        ).emit(Effect::UpdateMinimap).emit(Effect::UpdateSubtitle)
    }

    /// The window with its animation stopped or going on.
    pub open spec fn set_paused(self, paused: bool) -> WindowView {
        self.with_animation(Animation { paused, ..self.session.animation }).emit(
            Effect::ShowPlaying(!paused),
        )
    }

    /// The window one frame further, or back, with its animation stopped.
    pub open spec fn step_animation(self, forward: bool) -> WindowView {
        if self.session.animation.frames == 0 {
            self
        } else {
            self.set_paused(true).show_frame(self.session.animation.neighbor(forward))
        }
    }

    /// The window with its animation stopped where it went on, and the other
    /// way round.
    pub open spec fn toggle_animation(self) -> WindowView {
        if self.session.animation.frames == 0 {
            self
        } else {
            self.set_paused(!self.session.animation.paused)
        }
    }

    /// The window with frames to play, unless another image was loaded or
    /// there is but one.
    pub open spec fn animation_decoded(self, generation: u64, frames: usize) -> WindowView {
        if generation != self.session.generations.load || frames <= 1 {
            self
        } else {
            self.with_animation(Animation { frames, index: 0, paused: false }).emit(
                Effect::ShowAnimationControls(true),
            ).emit(Effect::ShowPlaying(true)).emit(Effect::UpdateActionStates).emit(
                Effect::PlayAnimation { generation },
            )
        }
    }

    /// What the player does next, on behalf of the image it was started for.
    pub open spec fn player_step(self, generation: u64) -> PlayerStep {
        if generation != self.session.generations.load {
            PlayerStep::Stop
        } else if self.session.animation.paused {
            PlayerStep::Wait
        } else {
            PlayerStep::Hold { index: self.session.animation.index }
        }
    }

    /// The window after a frame has had its time.
    pub open spec fn frame_elapsed(self) -> WindowView {
        if self.session.animation.paused || self.session.animation.frames == 0 {
            self
        } else {
            self.show_frame(self.session.animation.neighbor(true))
        }
    }
}

impl ViewerWindow {
    fn show_frame(&mut self, index: usize)
        ensures
            final(self)@ == old(self)@.show_frame(index),
    {
        self.session.animation = Animation { index, ..self.session.animation };
        self.emit(Effect::ShowFrame(index));
        self.emit(Effect::UpdateMinimap);
        self.emit(Effect::UpdateSubtitle);
    }

    fn set_paused(&mut self, paused: bool)
        ensures
            final(self)@ == old(self)@.set_paused(paused),
    {
        self.session.animation = Animation { paused, ..self.session.animation };
        self.emit(Effect::ShowPlaying(!paused));
    }

    /// Stops the animation, and shows the frame after, or before, this one.
    pub fn step_animation(&mut self, forward: bool)
        requires
            old(self)@.session.animation.well_formed(),
        ensures
            final(self)@ == old(self)@.step_animation(forward),
            final(self)@.session.animation.well_formed(),
    {
        if self.session.animation.frames == 0 {
            return;
        }
        let index: usize = self.session.animation.step(forward);
        self.set_paused(true);
        self.show_frame(index);
    }

    /// Stops the animation, or lets it go on.
    pub fn toggle_animation(&mut self)
        ensures
            final(self)@ == old(self)@.toggle_animation(),
    {
        if self.session.animation.frames == 0 {
            return;
        }
        let paused = !self.session.animation.paused;
        self.set_paused(paused);
    }

    /// Takes the frames of an animation, and has them played.
    pub fn animation_decoded(&mut self, generation: u64, frames: usize)
        ensures
            final(self)@ == old(self)@.animation_decoded(generation, frames),
    {
        if generation != self.session.generations.load || frames <= 1 {
            return;
        }
        self.session.animation = Animation { frames, index: 0, paused: false };
        self.emit(Effect::ShowAnimationControls(true));
        self.emit(Effect::ShowPlaying(true));
        self.emit(Effect::UpdateActionStates);
        self.emit(Effect::PlayAnimation { generation });
    }

    /// What the player does next, on behalf of the image it was started for.
    pub fn player_step(&self, generation: u64) -> (step: PlayerStep)
        ensures
            step == self@.player_step(generation),
    {
        if generation != self.session.generations.load {
            PlayerStep::Stop
        } else if self.session.animation.paused {
            PlayerStep::Wait
        } else {
            PlayerStep::Hold { index: self.session.animation.index }
        }
    }

    /// Shows the next frame, once this one has had its time. Tells whether the
    /// player goes on.
    pub fn frame_elapsed(&mut self) -> (goes_on: bool)
        requires
            old(self)@.session.animation.well_formed(),
        ensures
            goes_on == (old(self)@.session.animation.paused || old(self)@.session.animation.frames
                > 0),
            final(self)@ == old(self)@.frame_elapsed(),
            final(self)@.session.animation.well_formed(),
    {
        if self.session.animation.paused {
            return true;
        }
        if self.session.animation.frames == 0 {
            return false;
        }
        let index: usize = self.session.animation.step(true);
        self.show_frame(index);
        true
    }
}

/// A step forward and a step back lead to the frame that was shown, and so do
/// a step back and a step forward.
pub proof fn frame_steps_undo_each_other(window: WindowView, forward: bool)
    requires
        window.session.animation.well_formed(),
        window.session.animation.frames > 0,
    ensures
        window.step_animation(forward).step_animation(!forward).session.animation.index
            == window.session.animation.index,
        window.step_animation(forward).session.animation.paused,
{
}

/// Going on and stopping undo each other.
pub proof fn toggling_twice_changes_nothing(window: WindowView)
    ensures
        window.toggle_animation().toggle_animation().session == window.session,
{
}

/// The frames of an image that is no longer shown are not played.
pub proof fn stale_animations_are_ignored(window: WindowView, generation: u64, frames: usize)
    requires
        generation != window.session.generations.load,
    ensures
        window.animation_decoded(generation, frames) == window,
        window.player_step(generation) == PlayerStep::Stop,
{
}

} // verus!
