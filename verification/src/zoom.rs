//! How the zoom follows the window, the user and the comparison.

use crate::effect::{Effect, ZoomAlignment, ZoomTarget};
use crate::region::CropOverlay;
use crate::tool::Tool;
use crate::window::{
    ScalePreviewView, Session, ViewerWindow, WindowView, ZoomFilter, ZoomMode, Zooming,
};
use vstd::prelude::*;

verus! {

/// Whether a new image fits the window, and fills it.
pub open spec fn spec_fit_on_load(force_fit: bool, zoom_mode: ZoomMode) -> Option<bool> {
    if force_fit || zoom_mode == ZoomMode::Fit {
        Some(false)
    } else if zoom_mode == ZoomMode::Fill {
        Some(true)
    } else {
        None
    }
}

/// Whether a new image is fitted into the window (`Some(false)`), fills it
/// (`Some(true)`) or keeps the zoom.
pub fn fit_on_load(force_fit: bool, zoom_mode: ZoomMode) -> (fit: Option<bool>)
    ensures
        fit == spec_fit_on_load(force_fit, zoom_mode),
{
    if force_fit {
        return Some(false);
    }
    match zoom_mode {
        ZoomMode::Fit => Some(false),
        ZoomMode::Fill => Some(true),
        ZoomMode::Manual => None,
    }
}

/// Whether a panel has been laid out.
pub open spec fn spec_usable_panel_size(size: (i32, i32)) -> bool {
    size.0 > 1 && size.1 > 1
}

/// Whether a panel has been laid out: before that its size is a placeholder.
pub fn usable_panel_size(size: (i32, i32)) -> (usable: bool)
    ensures
        usable == spec_usable_panel_size(size),
{
    size.0 > 1 && size.1 > 1
}

impl WindowView {
    pub open spec fn with_zooming(self, zooming: Zooming) -> WindowView {
        WindowView { session: Session { zooming, ..self.session }, ..self }
    }

    /// The window with the picture zoomed: a fit that was waiting is off, and
    /// the comparison follows where it is locked.
    pub open spec fn apply_zoom(
        self,
        target: ZoomTarget,
        alignment: Option<ZoomAlignment>,
        within_fit: bool,
    ) -> WindowView {
        let zooming = self.session.zooming;
        self.with_zooming(Zooming { pending_fit: None, ..zooming }).emit(
            Effect::Zoom {
                target,
                alignment: if zooming.filter == ZoomFilter::Hard {
                    alignment
                } else {
                    None
                },
                within_fit,
                both: self.session.comparison.locked && self.session.comparison.active,
            },
        ).emit(Effect::UpdateSubtitle).emit(Effect::UpdateMinimap)
    }

    /// The window with another way in which the zoom follows it.
    pub open spec fn with_zoom_mode(self, mode: ZoomMode) -> WindowView {
        self.with_zooming(Zooming { mode, ..self.session.zooming }).emit(
            Effect::SaveZoomMode(mode),
        )
    }

    /// The window with a zoom that the user chose.
    pub open spec fn set_zoom(
        self,
        target: ZoomTarget,
        alignment: Option<ZoomAlignment>,
    ) -> WindowView {
        self.with_zoom_mode(ZoomMode::Manual).apply_zoom(target, alignment, false)
    }

    /// The window with a zoom that the user chose, scrolled to the middle.
    pub open spec fn set_zoom_centered(self, target: ZoomTarget) -> WindowView {
        self.set_zoom(target, Some(ZoomAlignment::Nearest)).emit(Effect::CenterViewport)
    }

    /// The window one step closer or farther.
    #[verifier::opaque]
    pub open spec fn step_zoom(self, zoom_in: bool) -> WindowView {
        let settled = if self.session.tools.tool == Tool::Pencil {
            self.abort_pencil_drag()
        } else {
            self
        };
        settled.set_zoom_centered(
            ZoomTarget::Step { zoom_in, hard: self.session.zooming.filter == ZoomFilter::Hard },
        )
    }

    /// The window with a fit that waits for the size of the viewport.
    pub open spec fn fit(self, fill: bool) -> WindowView {
        self.with_zooming(Zooming { pending_fit: Some(fill), ..self.session.zooming }).emit(
            Effect::MeasureViewport,
        )
    }

    /// The window with its zoom following the size of the viewport.
    pub open spec fn set_fit_mode(self, fill: bool) -> WindowView {
        self.with_zoom_mode(
            if fill {
                ZoomMode::Fill
            } else {
                ZoomMode::Fit
            },
        ).fit(fill)
    }

    /// Whether a waiting fit can be done in a viewport of that size, or none
    /// waits.
    pub open spec fn fit_is_possible(self, viewport: (i32, i32)) -> bool {
        self.session.zooming.pending_fit is Some ==> self.session.content.texture is Some
            && spec_usable_panel_size(viewport)
    }

    /// The window with its waiting fit done, where it can be.
    pub open spec fn apply_pending_fit(self, viewport: (i32, i32)) -> WindowView {
        if self.session.zooming.pending_fit is None || !self.fit_is_possible(viewport) {
            self
        } else {
            let fill = self.session.zooming.pending_fit->0;
            if !fill && self.session.tools.tool == Tool::Scale && self.session.scaling.view
                == ScalePreviewView::Fit {
                self.with_zooming(Zooming { pending_fit: None, ..self.session.zooming }).emit(
                    Effect::FitScalePicture {
                        viewport,
                        aligned: self.session.zooming.filter == ZoomFilter::Hard,
                    },
                ).emit(Effect::UpdateSubtitle).emit(Effect::UpdateMinimap)
            } else {
                self.apply_zoom(
                    ZoomTarget::Viewport { fill, viewport },
                    Some(
                        if fill {
                            ZoomAlignment::Cover
                        } else {
                            ZoomAlignment::Contain
                        },
                    ),
                    true,
                )
            }
        }
    }

    /// The window after the viewport was measured for a fit: done, or due on
    /// the next frame.
    pub open spec fn viewport_measured(self, viewport: (i32, i32)) -> WindowView {
        let tried = self.apply_pending_fit(viewport);
        if self.fit_is_possible(viewport) || self.session.zooming.tick_scheduled {
            tried
        } else {
            tried.with_zooming(Zooming { tick_scheduled: true, ..tried.session.zooming }).emit(
                Effect::ScheduleFitTick,
            )
        }
    }

    /// The window after a frame on which a fit was due.
    pub open spec fn fit_tick(self, viewport: (i32, i32)) -> WindowView {
        let tried = self.apply_pending_fit(viewport);
        if self.fit_is_possible(viewport) {
            tried.with_zooming(Zooming { tick_scheduled: false, ..tried.session.zooming })
        } else {
            tried
        }
    }

    /// The window with its zoom brought onto the grid again.
    pub open spec fn realign_zoom(self) -> WindowView {
        let has_image = self.session.content.texture is Some;
        match self.session.zooming.mode {
            ZoomMode::Fit if has_image => self.fit(false),
            ZoomMode::Fill if has_image => self.fit(true),
            _ => self.apply_zoom(ZoomTarget::Current, Some(ZoomAlignment::Nearest), false),
        }
    }

    /// The window with magnified pixels drawn another way.
    pub open spec fn set_filter(self, filter: ZoomFilter) -> WindowView {
        self.with_zooming(Zooming { filter, ..self.session.zooming }).emit(
            Effect::ShowFilter(filter),
        ).realign_zoom()
    }

    /// The window on the way to a zoom on its selected region.
    pub open spec fn zoom_selected_region(self) -> WindowView {
        match self.session.region.selection {
            Some(region) => self.emit(Effect::MeasureRegionZoom(region)),
            None => self,
        }
    }

    /// The window zoomed onto a region, once the zoom is known.
    pub open spec fn region_zoom_measured(self, region: CropOverlay) -> WindowView {
        self.with_zoom_mode(ZoomMode::Manual).apply_zoom(ZoomTarget::Region, None, true).emit(
            Effect::CenterRegion { region, generation: self.session.generations.load },
        )
    }

    /// Whether the window still shows the region that it was to scroll to.
    pub open spec fn region_still_selected(self, region: CropOverlay, generation: u64) -> bool {
        &&& self.session.generations.load == generation
        &&& self.session.region.selection == Some(region)
        &&& self.session.content.texture == Some((region.image_width, region.image_height))
    }
}

impl ViewerWindow {
    /// Zooms the picture, and the comparison with it where it is locked.
    pub fn apply_zoom(
        &mut self,
        target: ZoomTarget,
        alignment: Option<ZoomAlignment>,
        within_fit: bool,
    )
        ensures
            final(self)@ == old(self)@.apply_zoom(target, alignment, within_fit),
    {
        self.session.zooming.pending_fit = None;
        let alignment = if matches!(self.session.zooming.filter, ZoomFilter::Hard) {
            alignment
        } else {
            None
        };
        let both = self.session.comparison.locked && self.session.comparison.active;
        self.emit(Effect::Zoom { target, alignment, within_fit, both });
        self.emit(Effect::UpdateSubtitle);
        self.emit(Effect::UpdateMinimap);
    }

    fn set_zoom_mode(&mut self, mode: ZoomMode)
        ensures
            final(self)@ == old(self)@.with_zoom_mode(mode),
    {
        self.session.zooming.mode = mode;
        self.emit(Effect::SaveZoomMode(mode));
    }

    /// Zooms as the user chose: the zoom no longer follows the window.
    pub fn set_zoom(&mut self, target: ZoomTarget, alignment: Option<ZoomAlignment>)
        ensures
            final(self)@ == old(self)@.set_zoom(target, alignment),
    {
        self.set_zoom_mode(ZoomMode::Manual);
        self.apply_zoom(target, alignment, false);
    }

    /// Zooms as the user chose, and scrolls to the middle.
    pub fn set_zoom_centered(&mut self, target: ZoomTarget)
        ensures
            final(self)@ == old(self)@.set_zoom_centered(target),
    {
        self.set_zoom(target, Some(ZoomAlignment::Nearest));
        self.emit(Effect::CenterViewport);
    }

    /// Zooms one step in or out. A stroke of the pencil is given up for it.
    pub fn step_zoom(&mut self, zoom_in: bool)
        ensures
            final(self)@ == old(self)@.step_zoom(zoom_in),
    {
        proof {
            reveal(WindowView::step_zoom);
        }
        if matches!(self.session.tools.tool, Tool::Pencil) {
            self.abort_pencil_drag();
        }
        let hard = matches!(self.session.zooming.filter, ZoomFilter::Hard);
        self.set_zoom_centered(ZoomTarget::Step { zoom_in, hard });
    }

    /// Fits the picture into the viewport, or fills it, once its size is known.
    pub fn fit(&mut self, fill: bool)
        ensures
            final(self)@ == old(self)@.fit(fill),
    {
        self.session.zooming.pending_fit = Some(fill);
        self.emit(Effect::MeasureViewport);
    }

    /// Lets the zoom follow the size of the viewport.
    pub fn set_fit_mode(&mut self, fill: bool)
        ensures
            final(self)@ == old(self)@.set_fit_mode(fill),
    {
        let mode = if fill {
            ZoomMode::Fill
        } else {
            ZoomMode::Fit
        };
        self.set_zoom_mode(mode);
        self.fit(fill);
    }

    /// Does the fit that waits, where it can be done. Tells whether none waits
    /// any more.
    pub fn apply_pending_fit(&mut self, viewport: (i32, i32)) -> (done: bool)
        ensures
            done == old(self)@.fit_is_possible(viewport),
            final(self)@ == old(self)@.apply_pending_fit(viewport),
    {
        let fill = match self.session.zooming.pending_fit {
            None => {
                return true;
            },
            Some(fill) => fill,
        };
        if self.session.content.texture.is_none() || !usable_panel_size(viewport) {
            return false;
        }
        let alignment = if fill {
            ZoomAlignment::Cover
        } else {
            ZoomAlignment::Contain
        };
        if !fill && matches!(self.session.tools.tool, Tool::Scale) && matches!(
            self.session.scaling.view,
            ScalePreviewView::Fit
        ) {
            self.session.zooming.pending_fit = None;
            let aligned = matches!(self.session.zooming.filter, ZoomFilter::Hard);
            self.emit(Effect::FitScalePicture { viewport, aligned });
            self.emit(Effect::UpdateSubtitle);
            self.emit(Effect::UpdateMinimap);
        } else {
            self.apply_zoom(
                ZoomTarget::Viewport { fill, viewport },
                Some(alignment),
                true,
            );
        }
        true
    }

    /// Does the fit that waits, or has it tried again on the next frame.
    pub fn viewport_measured(&mut self, viewport: (i32, i32))
        ensures
            final(self)@ == old(self)@.viewport_measured(viewport),
    {
        if !self.apply_pending_fit(viewport) && !self.session.zooming.tick_scheduled {
            self.session.zooming.tick_scheduled = true;
            self.emit(Effect::ScheduleFitTick);
        }
    }

    /// Tries the fit that waits on a frame. Tells whether the frames can stop.
    pub fn fit_tick(&mut self, viewport: (i32, i32)) -> (done: bool)
        ensures
            done == old(self)@.fit_is_possible(viewport),
            final(self)@ == old(self)@.fit_tick(viewport),
    {
        let done = self.apply_pending_fit(viewport);
        if done {
            self.session.zooming.tick_scheduled = false;
        }
        done
    }

    /// Brings the zoom onto the grid again, after the grid has changed.
    pub fn realign_zoom(&mut self)
        ensures
            final(self)@ == old(self)@.realign_zoom(),
    {
        let has_image = self.session.content.texture.is_some();
        match self.session.zooming.mode {
            ZoomMode::Fit if has_image => self.fit(false),
            ZoomMode::Fill if has_image => self.fit(true),
            _ => self.apply_zoom(ZoomTarget::Current, Some(ZoomAlignment::Nearest), false),
        }
    }

    /// Draws magnified pixels another way.
    pub fn set_filter(&mut self, filter: ZoomFilter)
        ensures
            final(self)@ == old(self)@.set_filter(filter),
    {
        self.session.zooming.filter = filter;
        self.emit(Effect::ShowFilter(filter));
        self.realign_zoom();
    }

    /// Zooms onto the selected region. Tells whether there is one.
    pub fn zoom_selected_region(&mut self) -> (selected: bool)
        ensures
            selected == old(self)@.session.region.selection is Some,
            final(self)@ == old(self)@.zoom_selected_region(),
    {
        match self.session.region.selection {
            Some(region) => {
                self.emit(Effect::MeasureRegionZoom(region));
                true
            },
            None => false,
        }
    }

    /// Zooms onto a region once the zoom is known.
    pub fn region_zoom_measured(&mut self, region: CropOverlay)
        ensures
            final(self)@ == old(self)@.region_zoom_measured(region),
    {
        self.set_zoom_mode(ZoomMode::Manual);
        self.apply_zoom(ZoomTarget::Region, None, true);
        self.emit(Effect::CenterRegion { region, generation: self.session.generations.load });
    }

    /// Whether the window still shows the region that it was to scroll to.
    pub fn region_still_selected(&self, region: CropOverlay, generation: u64) -> (selected: bool)
        ensures
            selected == self@.region_still_selected(region, generation),
    {
        if self.session.generations.load != generation {
            return false;
        }
        match (self.session.region.selection, self.session.content.texture) {
            (Some(selection), Some((width, height))) => selection == region && width
                == region.image_width && height == region.image_height,
            _ => false,
        }
    }
}

/// A fit that was asked for is done as soon as the picture and the viewport
/// are there, and does not wait any longer then.
pub proof fn fits_are_done_once_possible(window: WindowView, fill: bool, viewport: (i32, i32))
    requires
        window.session.content.texture is Some,
        spec_usable_panel_size(viewport),
    ensures
        window.fit(fill).fit_is_possible(viewport),
        window.fit(fill).apply_pending_fit(viewport).session.zooming.pending_fit is None,
        window.fit(fill).viewport_measured(viewport).session.zooming.tick_scheduled
            == window.session.zooming.tick_scheduled,
{
}

/// A zoom that the user chose takes the place of a fit that was waiting.
pub proof fn chosen_zoom_cancels_fits(
    window: WindowView,
    target: ZoomTarget,
    alignment: Option<ZoomAlignment>,
    viewport: (i32, i32),
)
    ensures
        ({
            let zoomed = window.set_zoom(target, alignment);
            &&& zoomed.session.zooming.mode == ZoomMode::Manual
            &&& zoomed.apply_pending_fit(viewport) == zoomed
        }),
{
}

} // verus!
