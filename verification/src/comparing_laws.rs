//! What two images side by side are asked to do, and the lenses over them.

use crate::actions::Action;
use crate::asking::{asks_for, asks_just, keeps_asking};
use crate::compare::{moves_away, spec_lens_scroll, LensScroll};
use crate::effect::{CanvasSide, Cursor, Effect, Notice};
use crate::file_state::{LocationView, MonitorEvent};
use crate::keys::Modifiers;
use crate::tool::Tool;
use crate::window::WindowView;
use vstd::prelude::*;

verus! {

/// A file to compare with can be chosen where there is an image to compare it with.
pub proof fn comparisons_need_an_image(window: WindowView)
    ensures
        window.session.content.texture is Some ==> asks_just(
            window,
            window.activate(Action::Compare),
            seq![Effect::ChooseComparison],
        ),
        window.session.content.texture is None ==> asks_just(
            window,
            window.activate(Action::Compare),
            seq![Effect::Notify(Notice::OpenFirstImage)],
        ),
        asks_just(window, window.activate(Action::Lens), seq![Effect::ToggleLensButton]),
{
    reveal(WindowView::viewing_action);
    let after = window.activate(Action::Compare);
    if window.session.content.texture is Some {
        assert(after.effects =~= window.effects + seq![Effect::ChooseComparison]);
    } else {
        assert(after.effects =~= window.effects + seq![Effect::Notify(Notice::OpenFirstImage)]);
    }
    assert(window.activate(Action::Lens).effects =~= window.effects + seq![
        Effect::ToggleLensButton,
    ]);
}

/// A file to compare with is loaded under a number of its own and that of the image
/// that it is compared with; a load before it is given up.
pub proof fn comparisons_are_loaded(window: WindowView, file: LocationView)
    ensures
        ({
            let after = window.load_comparison(file);
            let generation = after.session.generations.comparison;
            &&& generation != window.session.generations.comparison
            &&& after.files.requested_comparison == Some(file)
            &&& after.files.current == window.files.current
            &&& after.files.comparison == window.files.comparison
            &&& asks_just(
                window,
                after,
                seq![
                    Effect::CancelComparisonLoad,
                    Effect::StartComparisonLoad {
                        generation,
                        primary: window.session.generations.load,
                    },
                ],
            )
        }),
{
    let after = window.load_comparison(file);
    assert(after.effects =~= window.effects + seq![
        Effect::CancelComparisonLoad,
        Effect::StartComparisonLoad {
            generation: after.session.generations.comparison,
            primary: window.session.generations.load,
        },
    ]);
}

/// The file that was asked for last is compared with once it is loaded, for the
/// image that it was asked for. One that cannot be loaded is told of, and what is
/// compared stays.
pub proof fn loaded_comparisons_are_entered(window: WindowView, primary: u64, generation: u64)
    ensures
        primary == window.session.generations.load && generation
            == window.session.generations.comparison ==> {
            &&& window.comparison_loaded(primary, generation, true) == window.enter_compare()
            &&& asks_just(
                window,
                window.comparison_loaded(primary, generation, false),
                seq![Effect::Notify(Notice::Failure)],
            )
            &&& window.comparison_loaded(primary, generation, false).session == window.session
        },
        primary != window.session.generations.load || generation
            != window.session.generations.comparison ==> {
            &&& window.comparison_loaded(primary, generation, true) == window
            &&& window.comparison_loaded(primary, generation, false) == window
        },
{
    if primary == window.session.generations.load && generation
        == window.session.generations.comparison {
        assert(window.comparison_loaded(primary, generation, false).effects =~= window.effects
            + seq![Effect::Notify(Notice::Failure)]);
    }
}

/// A comparison begins locked, is opened beside the image, laid out and watched.
/// The pointer is hidden over both pictures, unless it picks a colour.
pub proof fn comparisons_are_opened(window: WindowView)
    ensures
        ({
            let after = window.open_comparison();
            let cursor = if window.session.tools.tool == Tool::PickColor {
                Cursor::Crosshair
            } else {
                Cursor::Hidden
            };
            &&& after.session.comparison.active
            &&& after.session.comparison.locked
            &&& after.files.comparison == window.files.requested_comparison
            &&& after.files.current == window.files.current
            &&& asks_just(
                window,
                after,
                seq![
                    Effect::OpenComparison,
                    Effect::UpdateActionStates,
                    Effect::MonitorComparison,
                    Effect::SetCursor { side: CanvasSide::Primary, cursor },
                    Effect::SetCursor { side: CanvasSide::Comparison, cursor },
                    Effect::ScheduleComparisonLayout,
                ],
            )
        }),
{
    reveal(WindowView::open_comparison);
    let cursor = if window.session.tools.tool == Tool::PickColor {
        Cursor::Crosshair
    } else {
        Cursor::Hidden
    };
    assert(window.open_comparison().effects =~= window.effects + seq![
        Effect::OpenComparison,
        Effect::UpdateActionStates,
        Effect::MonitorComparison,
        Effect::SetCursor { side: CanvasSide::Primary, cursor },
        Effect::SetCursor { side: CanvasSide::Comparison, cursor },
        Effect::ScheduleComparisonLayout,
    ]);
}

/// A comparison that is left is closed: its load is given up, the pointer has the
/// shape of its tool again, and what it allowed is looked at anew.
pub proof fn comparisons_are_left(window: WindowView)
    ensures
        ({
            let after = window.exit_compare();
            let tool = window.session.tools.tool;
            let lens = window.session.comparison.lens_active;
            &&& keeps_asking(window, after)
            &&& !after.session.comparison.active
            &&& !after.session.comparison.locked
            &&& after.files.comparison is None
            &&& after.files.current == window.files.current
            &&& asks_for(window, after, Effect::CancelComparisonLoad)
            &&& asks_for(window, after, Effect::CloseComparison)
            &&& asks_for(window, after, Effect::UpdateActionStates)
            &&& asks_for(window, after, Effect::ShowMarker(None))
            &&& asks_for(window, after, Effect::SetCanvasLabel(Tool::Idle))
            &&& asks_for(window, after, Effect::UpdateMinimap)
            &&& lens || tool == Tool::Measure ==> asks_for(
                window,
                after,
                Effect::SetCursor { side: CanvasSide::Primary, cursor: Cursor::Hidden },
            )
            &&& !lens && (tool == Tool::Select || tool == Tool::PickColor) ==> asks_for(
                window,
                after,
                Effect::SetCursor { side: CanvasSide::Primary, cursor: Cursor::Crosshair },
            )
            &&& !lens && tool == Tool::Idle ==> asks_for(
                window,
                after,
                Effect::SetCursor { side: CanvasSide::Primary, cursor: Cursor::Default },
            )
        }),
{
    reveal(WindowView::exit_compare);
    let after = window.exit_compare();
    let place = window.effects.len() as int;
    assert(after.effects[place] == Effect::CancelComparisonLoad);
    assert(after.effects[place + 1] == Effect::CloseComparison);
    assert(after.effects[place + 2] is SetCursor);
    assert(after.effects[place + 3] == Effect::ShowMarker(None));
    assert(after.effects[place + 4] == Effect::SetCanvasLabel(Tool::Idle));
    assert(after.effects[place + 5] == Effect::UpdateActionStates);
    assert(after.effects[place + 6] == Effect::UpdateMinimap);
}

/// The two pictures are locked or free just as it is asked, and nothing else of the
/// comparison changes. Locked pictures scroll together, free ones do not; the scroll
/// that follows another moves nothing back, until that is over.
pub proof fn locked_pictures_scroll_together(window: WindowView, locked: bool)
    ensures
        ({
            let after = window.set_compare_locked(locked);
            &&& after.session.comparison.locked == locked
            &&& after.session.comparison.active == window.session.comparison.active
            &&& after.session.comparison.lens_active == window.session.comparison.lens_active
            &&& after.effects == window.effects
        }),
        ({
            let (after, moves) = window.begin_scroll_sync();
            let (again, moves_again) = after.begin_scroll_sync();
            let (later, moves_later) = after.end_scroll_sync().begin_scroll_sync();
            &&& moves ==> window.session.comparison.locked
            &&& window.session.comparison.locked && !window.session.comparison.syncing ==> moves
            &&& moves ==> after.session.comparison.syncing
            &&& !moves ==> after == window
            &&& !moves_again || !moves
            &&& moves_later == window.session.comparison.locked
            &&& after.session.comparison.locked == window.session.comparison.locked
        }),
{
}

/// Scrolling over the comparison with Alt changes how much a lens magnifies, and
/// with Shift how large it is; otherwise the pictures scroll.
pub proof fn lens_scrolls_have_their_key(modifiers: Modifiers)
    ensures
        spec_lens_scroll(false, modifiers) == LensScroll::Pass,
        modifiers.alt ==> spec_lens_scroll(true, modifiers) == LensScroll::Magnification,
        !modifiers.alt && modifiers.shift ==> spec_lens_scroll(true, modifiers)
            == LensScroll::Diameter,
        !modifiers.alt && !modifiers.shift ==> spec_lens_scroll(true, modifiers)
            == LensScroll::Pass,
{
}

/// The lens over an image is on or off just as it is asked, where there is an image;
/// otherwise the user is told and the button is let go. It hides the pointer; when
/// it is put away it is no longer drawn, and the pointer is that of the tool.
pub proof fn lenses_are_turned_on_and_off(window: WindowView)
    ensures
        window.session.content.texture is Some ==> {
            let on = window.set_single_image_lens_active(true);
            let off = window.set_single_image_lens_active(false);
            let tool = window.session.tools.tool;
            &&& on.session.comparison.lens_active
            &&& !off.session.comparison.lens_active
            &&& asks_just(
                window,
                on,
                seq![Effect::SetCursor { side: CanvasSide::Primary, cursor: Cursor::Hidden }],
            )
            &&& off.effects.last() == Effect::ClearLens(CanvasSide::Primary)
            &&& off.effects[window.effects.len() as int] == Effect::SetCursor {
                side: CanvasSide::Primary,
                cursor: if tool == Tool::Measure {
                    Cursor::Hidden
                } else if tool == Tool::Idle {
                    Cursor::Default
                } else {
                    Cursor::Crosshair
                },
            }
        },
        window.session.content.texture is None ==> {
            &&& window.set_single_image_lens_active(false) == window
            &&& window.set_single_image_lens_active(true).session == window.session
            &&& asks_just(
                window,
                window.set_single_image_lens_active(true),
                seq![Effect::ReleaseLensButton, Effect::Notify(Notice::OpenImageForLens)],
            )
        },
{
    let on = window.set_single_image_lens_active(true);
    if window.session.content.texture is Some {
        assert(on.effects =~= window.effects + seq![
            Effect::SetCursor { side: CanvasSide::Primary, cursor: Cursor::Hidden },
        ]);
    } else {
        assert(on.effects =~= window.effects + seq![
            Effect::ReleaseLensButton,
            Effect::Notify(Notice::OpenImageForLens),
        ]);
    }
}

/// The lens over a single image follows the pointer on the picture and is gone
/// beside it; it is not drawn where it is off or where two images are compared.
pub proof fn lenses_follow_the_pointer(window: WindowView, inside: bool)
    ensures
        ({
            let shown = window.session.comparison.lens_active && !window.session.comparison.active
                && window.session.content.texture is Some;
            &&& !shown ==> window.single_lens_moved(inside) == window
            &&& shown ==> asks_just(
                window,
                window.single_lens_moved(true),
                seq![Effect::ShowLens { side: CanvasSide::Primary, both: false }],
            )
            &&& shown ==> asks_just(
                window,
                window.single_lens_moved(false),
                seq![Effect::ClearLens(CanvasSide::Primary)],
            )
        }),
{
    if window.session.comparison.lens_active && !window.session.comparison.active
        && window.session.content.texture is Some {
        assert(window.single_lens_moved(true).effects =~= window.effects + seq![
            Effect::ShowLens { side: CanvasSide::Primary, both: false },
        ]);
        assert(window.single_lens_moved(false).effects =~= window.effects + seq![
            Effect::ClearLens(CanvasSide::Primary),
        ]);
    }
}

/// While two images are compared, the lens is drawn over both at the place of the
/// pointer, and the side of the pointer is kept in mind; it is gone where there is
/// nothing under it, while a region is marked or something is measured, and when the
/// pointer leaves that side.
pub proof fn compared_lenses_follow_the_pointer(window: WindowView, side: CanvasSide)
    ensures
        ({
            let tool = window.session.tools.tool;
            let shown = window.session.comparison.active && tool != Tool::Measure && tool
                != Tool::Select;
            let seen = window.compare_lens_moved(side, true);
            let beside = window.compare_lens_moved(side, false);
            &&& shown ==> {
                &&& seen.session.comparison.lens_source == Some(side)
                &&& asks_just(
                    window,
                    seen,
                    seq![
                        Effect::SetCursor { side, cursor: Cursor::Hidden },
                        Effect::ShowLens { side, both: true },
                    ],
                )
                &&& asks_just(
                    window,
                    beside,
                    seq![
                        Effect::SetCursor { side, cursor: Cursor::Hidden },
                        Effect::ClearLens(CanvasSide::Primary),
                        Effect::ClearLens(CanvasSide::Comparison),
                    ],
                )
            }
            &&& !shown ==> {
                &&& seen.session == window.session
                &&& asks_for(window, seen, Effect::ClearLens(CanvasSide::Primary))
                &&& asks_for(window, seen, Effect::ClearLens(CanvasSide::Comparison))
                &&& side == CanvasSide::Primary && tool == Tool::Measure ==> seen.effects.last()
                    == Effect::SetCursor { side, cursor: Cursor::Hidden }
                &&& side == CanvasSide::Primary && tool == Tool::Select ==> seen.effects.last()
                    == Effect::SetCursor { side, cursor: Cursor::Crosshair }
                &&& side == CanvasSide::Comparison ==> seen.effects.last() == Effect::SetCursor {
                    side,
                    cursor: Cursor::Default,
                }
            }
        }),
        window.session.comparison.lens_source == Some(side) ==> {
            let left = window.compare_lens_left(side);
            &&& left.session.comparison.lens_source is None
            &&& asks_just(
                window,
                left,
                seq![
                    Effect::ClearLens(CanvasSide::Primary),
                    Effect::ClearLens(CanvasSide::Comparison),
                ],
            )
        },
        window.session.comparison.lens_source != Some(side) ==> window.compare_lens_left(side)
            == window,
{
    let seen = window.compare_lens_moved(side, true);
    let beside = window.compare_lens_moved(side, false);
    let tool = window.session.tools.tool;
    let place = window.effects.len() as int;
    if window.session.comparison.active && tool != Tool::Measure && tool != Tool::Select {
        assert(seen.effects =~= window.effects + seq![
            Effect::SetCursor { side, cursor: Cursor::Hidden },
            Effect::ShowLens { side, both: true },
        ]);
        assert(beside.effects =~= window.effects + seq![
            Effect::SetCursor { side, cursor: Cursor::Hidden },
            Effect::ClearLens(CanvasSide::Primary),
            Effect::ClearLens(CanvasSide::Comparison),
        ]);
    } else {
        assert(seen.effects[place] == Effect::ClearLens(CanvasSide::Primary));
        assert(seen.effects[place + 1] == Effect::ClearLens(CanvasSide::Comparison));
    }
    if window.session.comparison.lens_source == Some(side) {
        assert(window.compare_lens_left(side).effects =~= window.effects + seq![
            Effect::ClearLens(CanvasSide::Primary),
            Effect::ClearLens(CanvasSide::Comparison),
        ]);
    }
}

/// A report on the file that is compared with has it looked at again, once; a change
/// of its attributes does not. Only a move of that file tells where it is now.
pub proof fn comparison_reports_are_looked_into(
    window: WindowView,
    file: LocationView,
    other: Option<LocationView>,
    event: MonitorEvent,
)
    ensures
        window.files.comparison is None || event == MonitorEvent::AttributeChanged
            ==> window.comparison_file_changed(file, other, event) == window,
        window.files.comparison is Some && event != MonitorEvent::AttributeChanged ==> {
            let after = window.comparison_file_changed(file, other, event);
            let moved = window.files.comparison == Some(file) && other is Some && (event
                == MonitorEvent::Moved || event == MonitorEvent::Renamed || event
                == MonitorEvent::MovedOut);
            &&& after.session.flags.comparison_scheduled
            &&& window.session.flags.comparison_scheduled ==> after.effects == window.effects
            &&& !window.session.flags.comparison_scheduled ==> asks_just(
                window,
                after,
                seq![
                    Effect::ScheduleComparisonRefresh {
                        generation: window.session.generations.comparison,
                    },
                ],
            )
            &&& moved ==> after.files.comparison_renamed_to == other
            &&& !moved ==> after.files.comparison_renamed_to == window.files.comparison_renamed_to
            &&& after.files.comparison == window.files.comparison
        },
        moves_away(event) <==> event == MonitorEvent::Moved || event == MonitorEvent::Renamed
            || event == MonitorEvent::MovedOut,
{
    let after = window.comparison_file_changed(file, other, event);
    if window.files.comparison is Some && event != MonitorEvent::AttributeChanged
        && !window.session.flags.comparison_scheduled {
        assert(after.effects =~= window.effects + seq![
            Effect::ScheduleComparisonRefresh {
                generation: window.session.generations.comparison,
            },
        ]);
    }
}

/// A file that is compared with is loaded again from where it is: from its new place
/// where it was moved, else from its own. Where it is neither, the comparison ends
/// and that is told. It is looked at once, and only while it is the one compared.
pub proof fn changed_comparisons_are_loaded_again(
    window: WindowView,
    generation: u64,
    renamed_exists: bool,
    current_exists: bool,
)
    ensures
        ({
            let after = window.comparison_refresh_due(generation, renamed_exists, current_exists);
            let due = window.session.generations.comparison == generation
                && window.session.flags.comparison_scheduled;
            let renamed = window.files.comparison_renamed_to;
            let follows = renamed is Some && renamed_exists;
            let stays = window.files.comparison is Some && current_exists;
            &&& !due ==> after == window
            &&& due ==> !after.session.flags.comparison_scheduled
                && after.files.comparison_renamed_to is None
            &&& due && follows ==> after.files.requested_comparison == renamed
            &&& due && !follows && stays ==> after.files.requested_comparison
                == window.files.comparison
            &&& due && (follows || stays) ==> after.effects.last() == Effect::StartComparisonLoad {
                generation: after.session.generations.comparison,
                primary: window.session.generations.load,
            }
            &&& due && !follows && !stays ==> !after.session.comparison.active
                && after.files.comparison is None && after.effects.last() == Effect::Notify(
                Notice::ComparisonGone,
            )
        }),
{
    reveal(WindowView::exit_compare);
}

} // verus!
