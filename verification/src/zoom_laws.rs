//! What every zoom does to the picture and to the one that it is compared with.

use crate::actions::{Action, ZoomPreset};
use crate::asking::{asks_for, asks_just, keeps_asking};
use crate::compare::{centered_divider, LayoutStep, PanelLayout};
use crate::effect::{Effect, ZoomAlignment, ZoomTarget};
use crate::region::CropOverlay;
use crate::tool::Tool;
use crate::window::{ScalePreviewView, WindowView, ZoomFilter, ZoomMode};
use crate::zoom::{spec_fit_on_load, spec_usable_panel_size};
use vstd::prelude::*;

verus! {

/// Whether a zoom has been asked for since, and every zoom is one of both
/// pictures just where that is wanted.
pub open spec fn zooms(before: WindowView, after: WindowView, both: bool) -> bool {
    &&& keeps_asking(before, after)
    &&& exists|index: int|
        before.effects.len() <= index < after.effects.len()
            && #[trigger] after.effects[index] is Zoom
    &&& forall|index: int|
        before.effects.len() <= index < after.effects.len() ==> (
        #[trigger] after.effects[index] matches Effect::Zoom { both: together, .. } ==> together
            == both)
}

/// Whether a zoom onto a target has been asked for since, brought onto the grid in
/// a way, and no zoom onto another.
pub open spec fn zooms_to(
    before: WindowView,
    after: WindowView,
    target: ZoomTarget,
    alignment: Option<ZoomAlignment>,
) -> bool {
    &&& exists|index: int|
        before.effects.len() <= index < after.effects.len()
            && #[trigger] after.effects[index] is Zoom
    &&& forall|index: int|
        before.effects.len() <= index < after.effects.len() ==> (
        #[trigger] after.effects[index] matches Effect::Zoom { target: chosen, alignment: grid, .. }
            ==> chosen == target && grid == alignment)
}

/// Whether a comparison follows the zoom of the picture: it is shown, and it is
/// locked.
pub open spec fn follows(window: WindowView) -> bool {
    &&& window.session.comparison.active
    &&& window.session.comparison.locked
}

/// A zoom goes to both pictures where the comparison is locked, and to one where
/// it is not, or where nothing is compared. Hard pixels are brought onto the grid,
/// soft ones are not. The fit that was waiting is off, and what tells of the zoom
/// is brought up to date.
pub proof fn locked_comparisons_follow_the_zoom(
    window: WindowView,
    target: ZoomTarget,
    alignment: Option<ZoomAlignment>,
    within_fit: bool,
)
    ensures
        ({
            let after = window.apply_zoom(target, alignment, within_fit);
            let grid = if window.session.zooming.filter == ZoomFilter::Hard {
                alignment
            } else {
                None
            };
            &&& zooms(window, after, follows(window))
            &&& zooms_to(window, after, target, grid)
            &&& asks_for(window, after, Effect::UpdateSubtitle)
            &&& asks_for(window, after, Effect::UpdateMinimap)
            &&& after.effects[window.effects.len() as int] matches Effect::Zoom {
                within_fit: limited,
                ..
            } && limited == within_fit
            &&& after.session.zooming.pending_fit is None
            &&& after.session.zooming.mode == window.session.zooming.mode
            &&& after.session.zooming.filter == window.session.zooming.filter
            &&& after.session.comparison == window.session.comparison
            &&& after.session.content == window.session.content
        }),
{
    let after = window.apply_zoom(target, alignment, within_fit);
    let place = window.effects.len() as int;
    assert(after.effects[place] is Zoom);
    assert(after.effects[place + 1] == Effect::UpdateSubtitle);
    assert(after.effects[place + 2] == Effect::UpdateMinimap);
}

/// A zoom that the user chose is the one that is shown and follows the window no
/// longer, which is remembered. The comparison goes along where it is locked.
pub proof fn chosen_zooms_are_shown(
    window: WindowView,
    target: ZoomTarget,
    alignment: Option<ZoomAlignment>,
)
    ensures
        ({
            let after = window.set_zoom(target, alignment);
            let hard = window.session.zooming.filter == ZoomFilter::Hard;
            &&& zooms(window, after, follows(window))
            &&& zooms_to(window, after, target, if hard { alignment } else { None })
            &&& asks_for(window, after, Effect::SaveZoomMode(ZoomMode::Manual))
            &&& after.session.zooming.mode == ZoomMode::Manual
            &&& after.session.zooming.pending_fit is None
        }),
        ({
            let after = window.set_zoom_centered(target);
            let hard = window.session.zooming.filter == ZoomFilter::Hard;
            &&& zooms(window, after, follows(window))
            &&& zooms_to(
                window,
                after,
                target,
                if hard { Some(ZoomAlignment::Nearest) } else { None },
            )
            &&& asks_for(window, after, Effect::SaveZoomMode(ZoomMode::Manual))
            &&& after.effects.last() == Effect::CenterViewport
            &&& after.session.zooming.mode == ZoomMode::Manual
            &&& after.session.zooming.pending_fit is None
        }),
{
    let place = window.effects.len() as int;
    let chosen = window.set_zoom(target, alignment);
    assert(chosen.effects[place] == Effect::SaveZoomMode(ZoomMode::Manual));
    assert(chosen.effects[place + 1] is Zoom);
    let centered = window.set_zoom_centered(target);
    assert(centered.effects[place] == Effect::SaveZoomMode(ZoomMode::Manual));
    assert(centered.effects[place + 1] is Zoom);
}

/// A step goes the way that it is named for, in whole steps where pixels are hard,
/// and keeps the middle where it is. A stroke of the pencil is given up for it.
pub proof fn steps_go_their_own_way(window: WindowView, zoom_in: bool)
    ensures
        ({
            let after = window.step_zoom(zoom_in);
            let hard = window.session.zooming.filter == ZoomFilter::Hard;
            &&& zooms(window, after, follows(window))
            &&& zooms_to(
                window,
                after,
                ZoomTarget::Step { zoom_in, hard },
                if hard { Some(ZoomAlignment::Nearest) } else { None },
            )
            &&& after.session.zooming.mode == ZoomMode::Manual
            &&& after.effects.last() == Effect::CenterViewport
            &&& window.session.tools.tool == Tool::Pencil ==> after.session.pencil.drag is None
            &&& window.session.tools.tool != Tool::Pencil ==> after.session.pencil
                == window.session.pencil
        }),
{
    reveal(WindowView::step_zoom);
    let after = window.step_zoom(zoom_in);
    let place = window.effects.len() as int;
    if window.session.tools.tool != Tool::Pencil {
        assert(after.effects[place + 1] is Zoom);
    } else if window.session.pencil.drag is None {
        assert(after.effects[place + 2] is Zoom);
    } else {
        assert(after.effects[place + 3] is Zoom);
    }
}

/// Zooming in and zooming out are not the same.
pub proof fn steps_differ(window: WindowView)
    ensures
        window.activate(Action::ZoomIn).effects != window.activate(Action::ZoomOut).effects,
{
    reveal(WindowView::zooming_action);
    steps_go_their_own_way(window, true);
    steps_go_their_own_way(window, false);
    let closer = window.step_zoom(true);
    let farther = window.step_zoom(false);
    let index = choose|index: int|
        window.effects.len() <= index < closer.effects.len()
            && #[trigger] closer.effects[index] is Zoom;
    assert(closer.effects[index] is Zoom);
    if closer.effects == farther.effects {
        assert(farther.effects[index] is Zoom);
    }
}

/// Each action that zooms does what it is named for, to both pictures where the
/// comparison is locked.
pub proof fn zoom_actions_zoom(window: WindowView, preset: ZoomPreset)
    ensures
        window.activate(Action::ZoomIn) == window.step_zoom(true),
        window.activate(Action::ZoomOut) == window.step_zoom(false),
        ({
            let hard = window.session.zooming.filter == ZoomFilter::Hard;
            let grid = if hard { Some(ZoomAlignment::Nearest) } else { None };
            let whole = window.activate(Action::ActualSize);
            let chosen = window.activate(Action::ZoomTo(preset));
            &&& zooms(window, whole, follows(window))
            &&& zooms(window, chosen, follows(window))
            &&& zooms_to(window, whole, ZoomTarget::Percent(100), grid)
            &&& zooms_to(window, chosen, ZoomTarget::Percent(preset.spec_percent()), grid)
            &&& whole.effects.last() == Effect::CenterViewport
            &&& chosen.effects.last() == Effect::CenterViewport
            &&& whole == window.activate(Action::ZoomTo(ZoomPreset::Whole))
        }),
{
    reveal(WindowView::zooming_action);
    chosen_zooms_are_shown(window, ZoomTarget::Percent(100), None);
    chosen_zooms_are_shown(window, ZoomTarget::Percent(preset.spec_percent()), None);
}

/// The zooms on offer are the quarters up to the whole size, and its multiples up
/// to nine.
pub proof fn presets_are_what_they_are_called(preset: ZoomPreset)
    ensures
        4 * ZoomPreset::Quarter.spec_percent() == 100,
        2 * ZoomPreset::Half.spec_percent() == 100,
        4 * ZoomPreset::ThreeQuarters.spec_percent() == 3 * 100,
        ZoomPreset::Whole.spec_percent() == 100,
        ZoomPreset::Twofold.spec_percent() == 2 * 100,
        ZoomPreset::Threefold.spec_percent() == 3 * 100,
        ZoomPreset::Fourfold.spec_percent() == 4 * 100,
        ZoomPreset::Fivefold.spec_percent() == 5 * 100,
        ZoomPreset::Sixfold.spec_percent() == 6 * 100,
        ZoomPreset::Sevenfold.spec_percent() == 7 * 100,
        ZoomPreset::Eightfold.spec_percent() == 8 * 100,
        ZoomPreset::Ninefold.spec_percent() == 9 * 100,
        25 <= preset.spec_percent() <= 900,
{
}

/// The wheel zooms with Control and scrolls without. A gesture zooms both pictures
/// where the comparison is locked, and is brought onto the grid once it has ended.
pub proof fn gestures_zoom(window: WindowView, ended: bool)
    ensures
        ({
            let after = window.gesture_zoomed(ended);
            let hard = window.session.zooming.filter == ZoomFilter::Hard;
            &&& zooms(window, after, follows(window))
            &&& zooms_to(
                window,
                after,
                ZoomTarget::Gesture,
                if ended && hard { Some(ZoomAlignment::Nearest) } else { None },
            )
            &&& after.session.zooming.mode == ZoomMode::Manual
        }),
        ({
            let (after, claimed) = window.wheel_turned(true);
            &&& claimed
            &&& zooms(window, after, follows(window))
            &&& after.session.zooming.mode == ZoomMode::Manual
        }),
        window.wheel_turned(false) == (window, false),
{
    chosen_zooms_are_shown(window, ZoomTarget::Gesture, None);
    chosen_zooms_are_shown(window, ZoomTarget::Gesture, Some(ZoomAlignment::Nearest));
}

/// To fit and to fill are remembered as such and wait for the size of the viewport.
/// While an image is scaled, to fit concerns the scaled picture alone.
pub proof fn fits_are_asked_for(window: WindowView)
    ensures
        ({
            let after = window.activate(Action::Fill);
            &&& after.session.zooming.mode == ZoomMode::Fill
            &&& after.session.zooming.pending_fit == Some(true)
            &&& asks_just(
                window,
                after,
                seq![Effect::SaveZoomMode(ZoomMode::Fill), Effect::MeasureViewport],
            )
        }),
        window.session.tools.tool != Tool::Scale ==> {
            let after = window.activate(Action::Fit);
            &&& after.session.zooming.mode == ZoomMode::Fit
            &&& after.session.zooming.pending_fit == Some(false)
            &&& asks_just(
                window,
                after,
                seq![Effect::SaveZoomMode(ZoomMode::Fit), Effect::MeasureViewport],
            )
        },
        window.session.tools.tool == Tool::Scale ==> {
            let after = window.activate(Action::Fit);
            &&& after.session.zooming.mode == window.session.zooming.mode
            &&& after.session.zooming.pending_fit == Some(false)
            &&& after.session.scaling.view == ScalePreviewView::Fit
            &&& asks_just(window, after, seq![Effect::MeasureViewport])
            &&& window.activate(Action::ScaleFit) == after
        },
        window.session.tools.tool != Tool::Scale ==> window.activate(Action::ScaleFit) == window,
{
    reveal(WindowView::zooming_action);
    reveal(WindowView::fit_requested);
    reveal(WindowView::scale_fit);
    assert(window.activate(Action::Fill).effects =~= window.effects + seq![
        Effect::SaveZoomMode(ZoomMode::Fill),
        Effect::MeasureViewport,
    ]);
    if window.session.tools.tool == Tool::Scale {
        assert(window.activate(Action::Fit).effects =~= window.effects + seq![
            Effect::MeasureViewport,
        ]);
    } else {
        assert(window.activate(Action::Fit).effects =~= window.effects + seq![
            Effect::SaveZoomMode(ZoomMode::Fit),
            Effect::MeasureViewport,
        ]);
    }
}

/// A scaled picture is shown pixel for pixel on request, and only while an image is
/// scaled.
pub proof fn scaled_pictures_are_shown_pixel_for_pixel(window: WindowView)
    ensures
        window.session.tools.tool == Tool::Scale ==> {
            let after = window.activate(Action::ScaleActualSize);
            let hard = window.session.zooming.filter == ZoomFilter::Hard;
            &&& zooms(window, after, follows(window))
            &&& zooms_to(
                window,
                after,
                ZoomTarget::Percent(100),
                if hard { Some(ZoomAlignment::Nearest) } else { None },
            )
            &&& after.session.scaling.view == ScalePreviewView::ActualSize
        },
        window.session.tools.tool != Tool::Scale ==> window.activate(Action::ScaleActualSize)
            == window,
{
    reveal(WindowView::zooming_action);
    reveal(WindowView::scale_actual_size);
    let seen = window.set_scale_view(ScalePreviewView::ActualSize);
    chosen_zooms_are_shown(seen, ZoomTarget::Percent(100), Some(ZoomAlignment::Nearest));
}

/// A waiting fit is done in a viewport that has been laid out, to both pictures
/// where the comparison is locked: the whole picture is seen where it is fitted,
/// and nothing beside it where it fills.
pub proof fn waiting_fits_are_done(window: WindowView, fill: bool, viewport: (i32, i32))
    requires
        window.session.zooming.pending_fit == Some(fill),
        window.session.content.texture is Some,
        viewport.0 > 1,
        viewport.1 > 1,
        fill || window.session.tools.tool != Tool::Scale || window.session.scaling.view
            != ScalePreviewView::Fit,
    ensures
        ({
            let after = window.apply_pending_fit(viewport);
            let hard = window.session.zooming.filter == ZoomFilter::Hard;
            let grid = if fill {
                ZoomAlignment::Cover
            } else {
                ZoomAlignment::Contain
            };
            &&& zooms(window, after, follows(window))
            &&& zooms_to(
                window,
                after,
                ZoomTarget::Viewport { fill, viewport },
                if hard { Some(grid) } else { None },
            )
            &&& after.session.zooming.pending_fit is None
            &&& after.session.zooming.mode == window.session.zooming.mode
            &&& window.viewport_measured(viewport) == after
            &&& window.fit_tick(viewport).effects == after.effects
            &&& !window.fit_tick(viewport).session.zooming.tick_scheduled
        }),
{
    locked_comparisons_follow_the_zoom(
        window,
        ZoomTarget::Viewport { fill, viewport },
        Some(
            if fill {
                ZoomAlignment::Cover
            } else {
                ZoomAlignment::Contain
            },
        ),
        true,
    );
}

/// While an image is scaled and fitted, the fit is one of the scaled picture.
pub proof fn scaled_pictures_are_fitted(window: WindowView, viewport: (i32, i32))
    requires
        window.session.zooming.pending_fit == Some(false),
        window.session.content.texture is Some,
        viewport.0 > 1,
        viewport.1 > 1,
        window.session.tools.tool == Tool::Scale,
        window.session.scaling.view == ScalePreviewView::Fit,
    ensures
        ({
            let after = window.apply_pending_fit(viewport);
            &&& after.session.zooming.pending_fit is None
            &&& asks_just(
                window,
                after,
                seq![
                    Effect::FitScalePicture {
                        viewport,
                        aligned: window.session.zooming.filter == ZoomFilter::Hard,
                    },
                    Effect::UpdateSubtitle,
                    Effect::UpdateMinimap,
                ],
            )
        }),
{
    assert(window.apply_pending_fit(viewport).effects =~= window.effects + seq![
        Effect::FitScalePicture {
            viewport,
            aligned: window.session.zooming.filter == ZoomFilter::Hard,
        },
        Effect::UpdateSubtitle,
        Effect::UpdateMinimap,
    ]);
}

/// A fit that cannot be done yet goes on waiting, and is tried again on a frame;
/// only one such frame is asked for. Where none waits, nothing is done.
pub proof fn fits_wait_for_the_viewport(window: WindowView, viewport: (i32, i32))
    ensures
        window.session.zooming.pending_fit is None ==> {
            &&& window.viewport_measured(viewport) == window
            &&& window.fit_tick(viewport).effects == window.effects
            &&& !window.fit_tick(viewport).session.zooming.tick_scheduled
        },
        window.session.zooming.pending_fit is Some && (window.session.content.texture is None
            || viewport.0 <= 1 || viewport.1 <= 1) ==> {
            let after = window.viewport_measured(viewport);
            &&& after.session.zooming.pending_fit == window.session.zooming.pending_fit
            &&& after.session.zooming.tick_scheduled
            &&& after.effects == if window.session.zooming.tick_scheduled {
                window.effects
            } else {
                window.effects.push(Effect::ScheduleFitTick)
            }
            &&& window.fit_tick(viewport) == window
        },
{
}

/// A change of how magnified pixels are drawn is shown, changes the way in which
/// they are drawn and nothing else, and is undone by another. The zoom is brought
/// onto the grid again: a window that fits or fills goes on to, and another keeps
/// its zoom.
pub proof fn filters_are_exchanged(window: WindowView)
    ensures
        ({
            let after = window.activate(Action::ToggleFilter);
            let filter = after.session.zooming.filter;
            &&& filter != window.session.zooming.filter
            &&& asks_for(window, after, Effect::ShowFilter(filter))
            &&& after.activate(Action::ToggleFilter).session.zooming.filter
                == window.session.zooming.filter
            &&& after.session.zooming.mode == window.session.zooming.mode
            &&& window.session.content.texture is Some && window.session.zooming.mode
                == ZoomMode::Fit ==> after.session.zooming.pending_fit == Some(false)
                && after.effects.last() == Effect::MeasureViewport
            &&& window.session.content.texture is Some && window.session.zooming.mode
                == ZoomMode::Fill ==> after.session.zooming.pending_fit == Some(true)
                && after.effects.last() == Effect::MeasureViewport
            &&& window.session.content.texture is None || window.session.zooming.mode
                == ZoomMode::Manual ==> {
                &&& zooms(window, after, follows(window))
                &&& zooms_to(
                    window,
                    after,
                    ZoomTarget::Current,
                    if filter == ZoomFilter::Hard { Some(ZoomAlignment::Nearest) } else { None },
                )
            }
        }),
{
    reveal(WindowView::zooming_action);
    reveal(WindowView::toggle_filter);
    let after = window.activate(Action::ToggleFilter);
    let place = window.effects.len() as int;
    assert(after.effects[place] == Effect::ShowFilter(after.session.zooming.filter));
    if window.session.content.texture is None || window.session.zooming.mode == ZoomMode::Manual {
        assert(after.effects[place + 1] is Zoom);
    }
}

/// A window that does not follow its size keeps its zoom on the grid when that
/// changes, and the comparison goes along where it is locked.
pub proof fn realigned_zooms_stay(window: WindowView)
    requires
        window.session.zooming.mode == ZoomMode::Manual || window.session.content.texture is None,
    ensures
        zooms(window, window.realign_zoom(), follows(window)),
        window.realign_zoom().effects[window.effects.len() as int] matches Effect::Zoom {
            target,
            ..
        } && target == ZoomTarget::Current,
        window.realign_zoom().session.zooming.mode == window.session.zooming.mode,
{
    locked_comparisons_follow_the_zoom(
        window,
        ZoomTarget::Current,
        Some(ZoomAlignment::Nearest),
        false,
    );
}

/// A zoom onto the selected region is measured for that region, done to both
/// pictures where the comparison is locked, and scrolled to where the same region
/// of the same image is still selected.
pub proof fn regions_are_zoomed_onto(window: WindowView, region: CropOverlay)
    ensures
        window.session.region.selection == Some(region) ==> asks_just(
            window,
            window.activate(Action::SelectionZoom),
            seq![Effect::MeasureRegionZoom(region)],
        ),
        window.session.region.selection is None ==> window.activate(Action::SelectionZoom)
            == window,
        ({
            let after = window.region_zoom_measured(region);
            &&& zooms(window, after, follows(window))
            &&& zooms_to(window, after, ZoomTarget::Region, None)
            &&& after.session.zooming.mode == ZoomMode::Manual
            &&& after.effects.last() == Effect::CenterRegion {
                region,
                generation: window.session.generations.load,
            }
            &&& after.region_still_selected(region, window.session.generations.load)
                <==> window.session.region.selection == Some(region)
                && window.session.content.texture == Some(
                (region.image_width, region.image_height),
            )
        }),
        forall|generation: u64| #[trigger]
            window.region_still_selected(region, generation) ==> generation
                == window.session.generations.load,
{
    reveal(WindowView::viewing_action);
    if window.session.region.selection == Some(region) {
        assert(window.activate(Action::SelectionZoom).effects =~= window.effects + seq![
            Effect::MeasureRegionZoom(region),
        ]);
    }
    let after = window.region_zoom_measured(region);
    assert(after.effects[window.effects.len() as int + 1] is Zoom);
}

/// Pictures side by side are fitted into their panels, both where they are locked,
/// once the panels are laid out with the divider in the middle.
pub proof fn panels_are_fitted(window: WindowView, layout: PanelLayout)
    requires
        window.session.comparison.active,
        window.session.content.texture is Some,
        layout.comparison_texture,
        layout.size.0 > 1,
        layout.size.1 > 1,
    ensures
        ({
            let laid_out = layout.primary.0 > 1 && layout.primary.1 > 1 && layout.comparison.0 > 1
                && layout.comparison.1 > 1;
            let length = if layout.horizontal {
                layout.size.0
            } else {
                layout.size.1
            };
            let centered = 2 * layout.position <= length <= 2 * layout.position + 1;
            let (after, step) = window.layout_compare_panels(layout);
            let hard = window.session.zooming.filter == ZoomFilter::Hard;
            &&& centered && laid_out ==> {
                &&& step == LayoutStep::Done
                &&& after.effects[window.effects.len() as int] == Effect::MeasurePanels
                &&& zooms(window, after, follows(window))
                &&& zooms_to(
                    window,
                    after,
                    ZoomTarget::Panel,
                    if hard { Some(ZoomAlignment::Contain) } else { None },
                )
            }
            &&& centered && !laid_out ==> step == LayoutStep::Again && after == window
            &&& !centered ==> step == LayoutStep::Again && asks_just(
                window,
                after,
                seq![Effect::SetDivider(centered_divider(layout) as i32)],
            ) && 2 * centered_divider(layout) <= length <= 2 * centered_divider(layout) + 1
        }),
{
    let (after, step) = window.layout_compare_panels(layout);
    let told = window.emit(Effect::MeasurePanels);
    locked_comparisons_follow_the_zoom(
        told,
        ZoomTarget::Panel,
        Some(ZoomAlignment::Contain),
        true,
    );
    if layout.position == centered_divider(layout) {
        if window.panels_ready(layout) {
            assert(after.effects[window.effects.len() as int + 1] is Zoom);
        }
    } else {
        assert(after.effects =~= window.effects + seq![
            Effect::SetDivider(centered_divider(layout) as i32),
        ]);
    }
}

/// Whether every zoom since keeps to the range of fitted zooms, or none has to.
pub open spec fn keeps_within_fit(before: WindowView, after: WindowView, bounded: bool) -> bool {
    forall|index: int|
        before.effects.len() <= index < after.effects.len() ==> (
        #[trigger] after.effects[index] matches Effect::Zoom { within_fit, .. } ==> within_fit
            == bounded)
}

/// A zoom that fits something may leave the steps that a chosen one keeps to.
pub proof fn fitted_zooms_have_their_own_range(
    window: WindowView,
    target: ZoomTarget,
    alignment: Option<ZoomAlignment>,
    region: CropOverlay,
    viewport: (i32, i32),
    layout: PanelLayout,
)
    ensures
        keeps_within_fit(window, window.set_zoom(target, alignment), false),
        keeps_within_fit(window, window.set_zoom_centered(target), false),
        keeps_within_fit(window, window.realign_zoom(), false),
        keeps_within_fit(window, window.region_zoom_measured(region), true),
        keeps_within_fit(window, window.apply_pending_fit(viewport), true),
        keeps_within_fit(window, window.fit_compare_panels(layout), true),
{
}

/// Panels without a comparison, or without a size, are left alone: there is nothing
/// to lay out, or it is tried again.
pub proof fn panels_wait_for_their_size(window: WindowView, layout: PanelLayout)
    ensures
        !window.session.comparison.active ==> window.layout_compare_panels(layout) == (
            window,
            LayoutStep::Done,
        ),
        window.session.comparison.active && (layout.size.0 <= 1 || layout.size.1 <= 1)
            ==> window.layout_compare_panels(layout) == (window, LayoutStep::Again),
        spec_usable_panel_size(layout.size) <==> layout.size.0 > 1 && layout.size.1 > 1,
{
}

/// A new image is fitted where that is asked for or where the window fits, fills it
/// where the window fills, and keeps the zoom where it was chosen.
pub proof fn new_images_follow_the_mode(force: bool, mode: ZoomMode)
    ensures
        spec_fit_on_load(true, mode) == Some(false),
        spec_fit_on_load(force, ZoomMode::Fit) == Some(false),
        spec_fit_on_load(false, ZoomMode::Fill) == Some(true),
        spec_fit_on_load(false, ZoomMode::Manual) is None,
{
}

} // verus!
