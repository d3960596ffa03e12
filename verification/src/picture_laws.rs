//! What is played, printed and made room for.

use crate::actions::Action;
use crate::asking::{
    asks_for, asks_just, edit_follows_calm, edits_just, edits_nothing, tools_do_not_edit,
};
use crate::animation::PlayerStep;
use crate::canvas_resize::canvas_fits;
use crate::drawing_laws::edits_are_applied_and_rendered;
use crate::effect::{Effect, Notice, Operation};
use crate::fullscreen_preview::{spec_previewed, ActionState};
use crate::print::{print_error, PrintError, PrintSource};
use crate::tool::Tool;
use crate::tool_laws::changing_tools_ends_what_was_begun;
use crate::window::{Animation, WindowView};
use vstd::prelude::*;

verus! {

/// The frame after the last is the first and the one before the first is the last;
/// between them they follow each other by one.
pub proof fn frames_go_round(animation: Animation)
    requires
        0 < animation.frames,
        animation.index < animation.frames,
    ensures
        animation.index + 1 < animation.frames ==> animation.neighbor(true) == animation.index + 1,
        animation.index + 1 == animation.frames ==> animation.neighbor(true) == 0,
        0 < animation.index ==> animation.neighbor(false) == animation.index - 1,
        animation.index == 0 ==> animation.neighbor(false) == animation.frames - 1,
{
}

/// A step shows the next frame or the one before, as it is named, and stops the
/// animation there. An image without frames has none to show.
pub proof fn frame_steps_go_their_own_way(window: WindowView)
    ensures
        window.session.animation.frames == 0 ==> {
            &&& window.activate(Action::NextFrame) == window
            &&& window.activate(Action::PreviousFrame) == window
            &&& window.activate(Action::PlayPause) == window
            &&& window.frame_elapsed() == window
        },
        window.session.animation.frames > 0 ==> {
            let next = window.activate(Action::NextFrame);
            let previous = window.activate(Action::PreviousFrame);
            let animation = window.session.animation;
            &&& next.session.animation.index == animation.neighbor(true)
            &&& previous.session.animation.index == animation.neighbor(false)
            &&& next.session.animation.paused && previous.session.animation.paused
            &&& next.session.animation.frames == animation.frames
            &&& asks_just(
                window,
                next,
                seq![
                    Effect::ShowPlaying(false),
                    Effect::ShowFrame(animation.neighbor(true)),
                    Effect::UpdateMinimap,
                    Effect::UpdateSubtitle,
                ],
            )
            &&& asks_just(
                window,
                previous,
                seq![
                    Effect::ShowPlaying(false),
                    Effect::ShowFrame(animation.neighbor(false)),
                    Effect::UpdateMinimap,
                    Effect::UpdateSubtitle,
                ],
            )
        },
{
    reveal(WindowView::viewing_action);
    if window.session.animation.frames > 0 {
        let animation = window.session.animation;
        assert(window.activate(Action::NextFrame).effects =~= window.effects + seq![
            Effect::ShowPlaying(false),
            Effect::ShowFrame(animation.neighbor(true)),
            Effect::UpdateMinimap,
            Effect::UpdateSubtitle,
        ]);
        assert(window.activate(Action::PreviousFrame).effects =~= window.effects + seq![
            Effect::ShowPlaying(false),
            Effect::ShowFrame(animation.neighbor(false)),
            Effect::UpdateMinimap,
            Effect::UpdateSubtitle,
        ]);
    }
}

/// To play is to stop what plays and to go on with what is stopped, at the frame
/// that is shown.
pub proof fn playing_and_stopping_alternate(window: WindowView)
    requires
        window.session.animation.frames > 0,
    ensures
        ({
            let after = window.activate(Action::PlayPause);
            &&& after.session.animation.paused == !window.session.animation.paused
            &&& after.session.animation.index == window.session.animation.index
            &&& asks_just(
                window,
                after,
                seq![Effect::ShowPlaying(window.session.animation.paused)],
            )
        }),
{
    reveal(WindowView::viewing_action);
    assert(window.activate(Action::PlayPause).effects =~= window.effects + seq![
        Effect::ShowPlaying(window.session.animation.paused),
    ]);
}

/// The frames of the image that is shown are played from the first one on, where
/// there is more than one.
pub proof fn decoded_frames_are_played(window: WindowView, frames: usize)
    ensures
        ({
            let generation = window.session.generations.load;
            let after = window.animation_decoded(generation, frames);
            &&& frames <= 1 ==> after == window
            &&& frames > 1 ==> {
                &&& after.session.animation == (Animation { frames, index: 0, paused: false })
                &&& asks_just(
                    window,
                    after,
                    seq![
                        Effect::ShowAnimationControls(true),
                        Effect::ShowPlaying(true),
                        Effect::UpdateActionStates,
                        Effect::PlayAnimation { generation },
                    ],
                )
            }
        }),
{
    let generation = window.session.generations.load;
    if frames > 1 {
        assert(window.animation_decoded(generation, frames).effects =~= window.effects + seq![
            Effect::ShowAnimationControls(true),
            Effect::ShowPlaying(true),
            Effect::UpdateActionStates,
            Effect::PlayAnimation { generation },
        ]);
    }
}

/// While it plays, each frame is held for its time and followed by the next; while
/// it is stopped, the frame stays.
pub proof fn playing_goes_on(window: WindowView)
    requires
        window.session.animation.frames > 0,
    ensures
        ({
            let animation = window.session.animation;
            let generation = window.session.generations.load;
            let after = window.frame_elapsed();
            &&& animation.paused ==> {
                &&& window.player_step(generation) == PlayerStep::Wait
                &&& after == window
            }
            &&& !animation.paused ==> {
                &&& window.player_step(generation) == (PlayerStep::Hold { index: animation.index })
                &&& after.session.animation.index == animation.neighbor(true)
                &&& !after.session.animation.paused
                &&& after.effects[window.effects.len() as int] == Effect::ShowFrame(
                    animation.neighbor(true),
                )
            }
        }),
{
}

/// An image that can be edited is printed as its document is; one that is animated,
/// or can only be viewed, as it is shown. Without an image nothing is printed.
pub proof fn printing_takes_what_there_is(window: WindowView)
    ensures
        window.session.content.texture is None ==> window.print() == window,
        window.session.content.texture is Some ==> {
            let source = if window.session.content.has_document && window.session.animation.frames
                == 0 {
                PrintSource::Document
            } else {
                PrintSource::Frame
            };
            asks_just(
                window,
                window.print(),
                seq![
                    Effect::PreparePrint { source, generation: window.session.generations.load },
                ],
            )
        },
{
    if window.session.content.texture is Some {
        assert(window.print().effects =~= window.effects + seq![
            Effect::PreparePrint {
                source: window.print_source()->0,
                generation: window.session.generations.load,
            },
        ]);
    }
}

/// What is prepared for the printer is printed, told of where that failed, and
/// dropped where another image is shown by now.
pub proof fn prepared_prints_are_run(window: WindowView, generation: u64)
    ensures
        generation == window.session.generations.load ==> {
            &&& asks_just(window, window.print_prepared(generation, true), seq![Effect::RunPrint])
            &&& asks_just(
                window,
                window.print_prepared(generation, false),
                seq![Effect::Notify(Notice::PrintFailed)],
            )
        },
        generation != window.session.generations.load ==> {
            &&& window.print_prepared(generation, true) == window
            &&& window.print_prepared(generation, false) == window
        },
{
    if generation == window.session.generations.load {
        assert(window.print_prepared(generation, true).effects =~= window.effects + seq![
            Effect::RunPrint,
        ]);
        assert(window.print_prepared(generation, false).effects =~= window.effects + seq![
            Effect::Notify(Notice::PrintFailed),
        ]);
    }
}

/// An image with pixels can be printed as long as its rows can be counted.
pub proof fn images_with_pixels_are_printed(width: u32, height: u32)
    ensures
        print_error(width, height) is None <==> 1 <= width && 1 <= height && 4 * width <= i32::MAX
            && height <= i32::MAX,
        print_error(0, 0) == Some(PrintError::Empty),
        width > i32::MAX ==> print_error(width, height) == Some(PrintError::WidthTooLarge),
        width <= i32::MAX && height > i32::MAX ==> print_error(width, height) == Some(
            PrintError::HeightTooLarge,
        ),
        width <= i32::MAX && height <= i32::MAX && 4 * width > i32::MAX ==> print_error(
            width,
            height,
        ) == Some(PrintError::StrideTooLarge),
{
}

/// A square canvas has the longer side of the image on both sides, and is given to
/// the image in one change. An image that is square stays; one whose square would
/// take more memory than images may is told of and stays too.
pub proof fn canvases_are_squared(window: WindowView, max_bytes: u64, size: (u32, u32))
    requires
        window.session.content.has_document,
        window.session.content.rendered == Some(size),
    ensures
        ({
            let after = window.square_up(max_bytes);
            let side = if size.0 < size.1 {
                size.1
            } else {
                size.0
            };
            &&& size.0 == size.1 ==> edits_nothing(window, after)
            &&& size.0 != size.1 && 4 * (side * side) > max_bytes ==> edits_nothing(window, after)
                && after.effects.last() == Effect::Notify(Notice::SquareTooLarge)
            &&& size.0 != size.1 && 4 * (side * side) <= max_bytes ==> edits_just(
                window,
                after,
                Operation::ResizeCanvas { width: side, height: side },
            )
        }),
{
    let idle = window.set_tool(Tool::Idle);
    tools_do_not_edit(window, Tool::Idle);
    changing_tools_ends_what_was_begun(window, window.requested_tool(Tool::Idle));
    let side = if size.0 < size.1 {
        size.1
    } else {
        size.0
    };
    let after = window.square_up(max_bytes);
    let operation = Operation::ResizeCanvas { width: side, height: side };
    let area = side * side;
    assert(area > max_bytes / 4 <==> 4 * area > max_bytes);
    if size.0 != size.1 {
        if 4 * area <= max_bytes {
            assert(after == idle.apply(operation));
            edits_are_applied_and_rendered(idle, operation);
            edit_follows_calm(window, idle, after, operation);
        } else {
            assert(after == idle.emit(Effect::Notify(Notice::SquareTooLarge)));
            assert(edits_nothing(idle, after));
            crate::asking::calm_follows_calm(window, idle, after);
        }
    }
}

/// A canvas fits where its pixels, of four bytes each, take no more than allowed; a
/// smaller one fits wherever a larger one does.
pub proof fn smaller_canvases_fit(
    small: (u32, u32),
    large: (u32, u32),
    max_bytes: u64,
)
    requires
        small.0 <= large.0,
        small.1 <= large.1,
        canvas_fits(large.0, large.1, max_bytes),
    ensures
        canvas_fits(small.0, small.1, max_bytes),
        4 * (large.0 * large.1) <= max_bytes,
{
    let (low, high) = ((small.0 * small.1), (large.0 * large.1));
    assert(low <= high) by (nonlinear_arith)
        requires
            low == small.0 * small.1,
            high == large.0 * large.1,
            0 <= small.0 <= large.0,
            0 <= small.1 <= large.1,
    ;
    assert(large.0 * large.1 * 4 == 4 * high) by (nonlinear_arith)
        requires
            high == large.0 * large.1,
    ;
    assert(small.0 * small.1 * 4 == 4 * low) by (nonlinear_arith)
        requires
            low == small.0 * small.1,
    ;
}

/// While a picture fills the screen, Escape and closing stay as they were, and
/// everything else cannot be used.
pub proof fn previews_leave_the_way_out(enabled: bool, action: Action)
    ensures
        spec_previewed(ActionState { action: Action::CancelTool, enabled }).enabled == enabled,
        spec_previewed(ActionState { action: Action::Close, enabled }).enabled == enabled,
        action != Action::CancelTool && action != Action::Close ==> !spec_previewed(
            ActionState { action, enabled },
        ).enabled,
        spec_previewed(ActionState { action, enabled }).action == action,
{
}

/// Before a picture fills the screen, whatever the pointer holds is let go and
/// nothing of it is kept; an image that nothing is held of is left alone.
pub proof fn previews_let_go(window: WindowView)
    ensures
        ({
            let after = window.prepare_preview();
            &&& after.session.annotations.drag is None
            &&& after.session.pencil.drag is None
            &&& edits_nothing(window, after)
            &&& window.session.annotations.drag is Some ==> asks_for(
                window,
                after,
                Effect::DiscardAnnotationPreview,
            )
            &&& window.session.pencil.drag is Some ==> asks_for(
                window,
                after,
                Effect::ForgetPencilPoints,
            )
            &&& window.session.annotations.drag is None && window.session.pencil.drag is None
                ==> after == window
        }),
{
    let free = window.cancel_annotation_drag();
    let after = window.prepare_preview();
    if window.session.annotations.drag is Some {
        assert(after.effects[window.effects.len() as int] == Effect::DiscardAnnotationPreview);
    }
    if window.session.pencil.drag is Some {
        assert(after.effects[free.effects.len() as int] == Effect::ForgetPencilPoints);
    }
}

} // verus!
