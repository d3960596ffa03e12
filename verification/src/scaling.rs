//! The scaling tool: its controls, its preview and what it leaves behind.

use crate::effect::{Effect, Notice};
use crate::scale::{
    clamped_length, proportional, scaled_dimensions, scaled_width_for_height, ScaleMethod,
    ScaleUnit,
};
use crate::text::{decimal, push_decimal};
use crate::tool::Tool;
use crate::window::{
    following_generation, next_generation, Generations, ScalePreviewView, Scaling, Session,
    ViewerWindow, WindowView, Zooming,
};
use vstd::prelude::*;

verus! {

/// The nearest whole number to a ratio; halves go to the even neighbour.
pub open spec fn nearest_even(numerator: nat, denominator: nat) -> nat {
    let whole = numerator / denominator;
    let rest = 2 * (numerator % denominator);
    if rest < denominator || (rest == denominator && whole % 2 == 0) {
        whole
    } else {
        whole + 1
    }
}

/// What part of `whole` a length is, in percent.
pub open spec fn percentage(length: u32, whole: u32) -> nat {
    nearest_even(100 * length as nat, clamped_length(whole as nat))
}

fn percentage_of(length: u32, whole: u32) -> (percent: u64)
    ensures
        percent == percentage(length, whole),
{
    let numerator: u64 = 100 * length as u64;
    let denominator: u64 = if whole < 1 {
        1
    } else {
        whole as u64
    };
    let whole: u64 = numerator / denominator;
    let rest: u64 = 2 * (numerator % denominator);
    if rest < denominator || (rest == denominator && whole % 2 == 0) {
        whole
    } else {
        whole + 1
    }
}

/// The line that sums up what is scaled to what.
pub open spec fn summary_text(source: (u32, u32), target: (u32, u32), locked: bool) -> Seq<char> {
    let percent = decimal(percentage(target.0, source.0)) + "%"@;
    decimal(source.0 as nat) + " × "@ + decimal(source.1 as nat) + " → "@ + decimal(
        target.0 as nat,
    ) + " × "@ + decimal(target.1 as nat) + " ("@ + (if locked {
        percent
    } else {
        percent + " × "@ + decimal(percentage(target.1, source.1)) + "%"@
    }) + ")"@
}

/// The line that sums up what is scaled to what: the sizes, and the
/// percentages of both sides where they may differ.
pub fn scale_summary(source: (u32, u32), target: (u32, u32), locked: bool) -> (text: String)
    ensures
        text@ == summary_text(source, target, locked),
{
    let mut text = String::new();
    push_decimal(&mut text, source.0 as u64);
    text.append(" × ");
    push_decimal(&mut text, source.1 as u64);
    text.append(" → ");
    push_decimal(&mut text, target.0 as u64);
    text.append(" × ");
    push_decimal(&mut text, target.1 as u64);
    text.append(" (");
    push_decimal(&mut text, percentage_of(target.0, source.0));
    text.append("%");
    if !locked {
        text.append(" × ");
        push_decimal(&mut text, percentage_of(target.1, source.1));
        text.append("%");
    }
    text.append(")");
    assert(text@ == summary_text(source, target, locked));
    text
}

/// The largest slider value.
pub open spec fn spec_slider_limit(scaling: Scaling) -> u32 {
    match scaling.unit {
        ScaleUnit::Pixels => scaling.limits.0,
        ScaleUnit::Percent => if scaling.method == ScaleMethod::SeamCarving {
            100
        } else {
            200
        },
    }
}

/// The largest slider value: the largest width, or the largest percentage.
pub fn slider_limit(scaling: &Scaling) -> (limit: u32)
    ensures
        limit == spec_slider_limit(*scaling),
{
    match scaling.unit {
        ScaleUnit::Pixels => scaling.limits.0,
        ScaleUnit::Percent => if matches!(scaling.method, ScaleMethod::SeamCarving) {
            100
        } else {
            200
        },
    }
}

/// A length as the controls take it: at least one, at most the limit.
pub open spec fn within_limit(length: u32, limit: u32) -> u32 {
    if length < 1 || limit < 1 {
        1
    } else if length > limit {
        limit
    } else {
        length
    }
}

fn bring_within_limit(length: u32, limit: u32) -> (brought: u32)
    ensures
        brought == within_limit(length, limit),
{
    if length < 1 || limit < 1 {
        1
    } else if length > limit {
        limit
    } else {
        length
    }
}

/// How the computation of a preview ended.
#[derive(Debug, Clone, Copy, PartialEq, Eq)]
pub enum ScaleOutcome {
    Ready { size: (u32, u32) },
    Failed,
    WorkerFailed,
}

impl Scaling {
    /// The limits on offer are those of the method, and the chosen size keeps
    /// to them.
    pub open spec fn well_formed(self) -> bool {
        self.source matches Some(source) ==> {
            &&& self.limits.0 == self.method.spec_limit(source.0)
            &&& self.limits.1 == self.method.spec_limit(source.1)
            &&& self.target.0 == within_limit(self.target.0, self.limits.0)
            &&& self.target.1 == within_limit(self.target.1, self.limits.1)
        }
    }

    /// The controls with the limits of their method, and the size brought
    /// within them.
    pub open spec fn configured(self, source: (u32, u32), target: (u32, u32)) -> Scaling {
        let limits = (
            self.method.spec_limit(source.0) as u32,
            self.method.spec_limit(source.1) as u32,
        );
        Scaling {
            limits,
            target: (within_limit(target.0, limits.0), within_limit(target.1, limits.1)),
            ..self
        }
    }

    /// The controls with the other side following the one that changed, where
    /// the proportions are kept.
    pub open spec fn with_proportions(self, width_changed: bool) -> Scaling {
        match self.source {
            Some(source) => if !self.locked {
                self
            } else if width_changed {
                Scaling {
                    target: (
                        self.target.0,
                        within_limit(
                            proportional(source.1, source.0, self.target.0) as u32,
                            self.limits.1,
                        ),
                    ),
                    ..self
                }
            } else {
                Scaling {
                    target: (
                        within_limit(
                            proportional(source.0, source.1, self.target.1) as u32,
                            self.limits.0,
                        ),
                        self.target.1,
                    ),
                    ..self
                }
            },
            None => self,
        }
    }
}

impl WindowView {
    pub open spec fn with_scaling(self, scaling: Scaling) -> WindowView {
        WindowView { session: Session { scaling, ..self.session }, ..self }
    }

    pub open spec fn with_scale_generation(self, generation: u64) -> WindowView {
        WindowView {
            session: Session {
                generations: Generations { scale_preview: generation, ..self.session.generations },
                ..self.session
            },
            ..self
        }
    }

    /// The window with another zoom of the scaled picture.
    pub open spec fn zoom_scaled(self, zoom: Effect) -> WindowView {
        self.emit(zoom).emit(Effect::UpdateSubtitle).emit(Effect::UpdateMinimap)
    }

    /// The window with the scaled picture shown as it was looked at.
    pub open spec fn apply_scale_preview_view(self, target_width: u32) -> WindowView {
        match self.session.scaling.view {
            ScalePreviewView::Footprint => match self.session.scaling.source {
                Some(source) => self.zoom_scaled(
                    Effect::ZoomScaleFootprint { source_width: source.0, target_width },
                ),
                None => self,
            },
            ScalePreviewView::ActualSize => self.zoom_scaled(Effect::ZoomScaleActual),
            ScalePreviewView::Fit => self.fit(false),
        }
    }

    /// The window with a preview of that size at hand.
    #[verifier::opaque]
    pub open spec fn display_scale_preview(self, size: (u32, u32)) -> WindowView {
        let ready = self.emit(Effect::ShowScaleSpinner(false)).with_scaling(
            Scaling { preview: Some(size), ..self.session.scaling },
        ).emit(Effect::EnableScaleOriginal(true));
        if self.session.scaling.showing_original {
            ready
        } else {
            ready.emit(Effect::ShowScalePicture { original: false }).apply_scale_preview_view(
                size.0,
            )
        }
    }

    /// The window on the way to a preview of that size. The source's own size
    /// needs no computation.
    #[verifier::opaque]
    pub open spec fn schedule_scale_preview(self, target: (u32, u32)) -> WindowView {
        match self.session.scaling.source {
            None => self.emit(Effect::ShowScaleSpinner(false)),
            Some(source) => {
                let generation = next_generation(self.session.generations.scale_preview);
                let renewed = self.with_scale_generation(generation).emit_if(
                    self.session.scaling.running,
                    Effect::CancelScalePreview,
                );
                if target == source {
                    renewed.with_scaling(
                        Scaling { running: false, ..self.session.scaling },
                    ).emit(Effect::ShowScaleSpinner(false)).display_scale_preview(source)
                } else {
                    renewed.with_scaling(Scaling { running: true, ..self.session.scaling }).emit(
                        Effect::ShowScaleSpinner(true),
                    ).emit(Effect::EnableScaleOriginal(false)).emit(
                        Effect::StartScalePreview {
                            generation,
                            width: target.0,
                            height: target.1,
                            method: self.session.scaling.method,
                        },
                    )
                }
            },
        }
    }

    /// The window with its scaling controls in step with the chosen size.
    pub open spec fn refresh_scale_controls(self) -> WindowView {
        if self.session.scaling.source is Some {
            self.emit(Effect::ShowScaleTarget).schedule_scale_preview(self.session.scaling.target)
        } else {
            self
        }
    }

    /// The window after one side of the size was changed.
    pub open spec fn scale_dimension_changed(self, width_changed: bool) -> WindowView {
        self.with_scaling(
            self.session.scaling.with_proportions(width_changed),
        ).refresh_scale_controls()
    }

    /// The window after one side of the size was set.
    pub open spec fn set_scale_side(self, width_changed: bool, length: u32) -> WindowView {
        let scaling = self.session.scaling;
        if scaling.source is None {
            self
        } else {
            self.with_scaling(
                Scaling {
                    target: if width_changed {
                        (within_limit(length, scaling.limits.0), scaling.target.1)
                    } else {
                        (scaling.target.0, within_limit(length, scaling.limits.1))
                    },
                    ..scaling
                },
            ).scale_dimension_changed(width_changed)
        }
    }

    /// The window after both sides were set at once.
    pub open spec fn set_scale_size(self, size: (u32, u32)) -> WindowView {
        let scaling = self.session.scaling;
        if scaling.source is None {
            self
        } else {
            self.with_scaling(
                Scaling {
                    target: (
                        within_limit(size.0, scaling.limits.0),
                        within_limit(size.1, scaling.limits.1),
                    ),
                    ..scaling
                },
            ).refresh_scale_controls()
        }
    }

    /// The window after the proportions were locked or freed.
    pub open spec fn set_scale_lock(self, locked: bool) -> WindowView {
        let set = self.with_scaling(Scaling { locked, ..self.session.scaling });
        if locked {
            set.scale_dimension_changed(true)
        } else {
            set.refresh_scale_controls()
        }
    }

    /// The window after another unit was chosen.
    pub open spec fn set_scale_unit(self, unit: ScaleUnit) -> WindowView {
        self.with_scaling(Scaling { unit, ..self.session.scaling }).refresh_scale_controls()
    }

    /// The window after another method was chosen.
    pub open spec fn set_scale_method(self, method: ScaleMethod) -> WindowView {
        let scaling = Scaling { method, ..self.session.scaling };
        match scaling.source {
            None => self.with_scaling(scaling).emit(Effect::ShowScaleLimits),
            Some(source) => self.with_scaling(scaling.configured(source, scaling.target)).emit(
                Effect::ShowScaleLimits,
            ).scale_dimension_changed(true),
        }
    }

    /// The window with its scaling tool on, for pixels of that size.
    #[verifier::opaque]
    pub open spec fn open_scaling(self, size: (u32, u32)) -> WindowView {
        self.with_scaling(
            Scaling {
                source: Some(size),
                preview: None,
                view: ScalePreviewView::Footprint,
                showing_original: false,
                committing: false,
                pending_activation: false,
                ..self.session.scaling
            }.configured(size, size),
        ).emit(Effect::KeepScaleSource).emit(
            Effect::ShowScaleLimits,
        ).refresh_scale_controls().emit(Effect::ShowScaleControls(true)).emit(
            Effect::ShowZoomControls(false),
        )
    }

    /// The window with its scaling tool off. Unless the new size is being
    /// taken over, the picture is shown as it was before.
    #[verifier::opaque]
    pub open spec fn close_scaling(self) -> WindowView {
        let scaling = self.session.scaling;
        let closed = self.with_scale_generation(
            next_generation(self.session.generations.scale_preview),
        ).with_scaling(
            Scaling {
                source: None,
                preview: None,
                showing_original: false,
                committing: false,
                running: false,
                pending_activation: false,
                ..scaling
            },
        ).with_zooming(Zooming { pending_fit: None, ..self.session.zooming }).emit_if(
            scaling.running,
            Effect::CancelScalePreview,
        ).emit(Effect::ShowScaleSpinner(false)).emit(Effect::ShowScaleControls(false)).emit(
            Effect::ShowZoomControls(true),
        );
        if scaling.committing || scaling.source is None {
            closed
        } else {
            closed.emit(Effect::RestoreScaleSource).emit(Effect::UpdateMinimap).emit(
                Effect::UpdateSubtitle,
            )
        }
    }

    /// The window with its scaling tool on or off. It cannot be on without
    /// pixels; while they are being decoded it waits for them.
    pub open spec fn set_scale_preview_active(self, active: bool) -> WindowView {
        if !active {
            self.close_scaling()
        } else {
            match self.session.content.rendered {
                Some(size) => self.open_scaling(size),
                None => if self.session.flags.decode_pending {
                    self.with_scaling(
                        Scaling { pending_activation: true, ..self.session.scaling },
                    ).emit(Effect::Notify(Notice::PreparingScale))
                } else {
                    self.emit(Effect::ReleaseScaleButton).emit(
                        Effect::Notify(Notice::OpenEditableFirst),
                    )
                },
            }
        }
    }

    /// The window after the computation of a preview has ended.
    pub open spec fn scale_preview_finished(
        self,
        generation: u64,
        outcome: ScaleOutcome,
    ) -> WindowView {
        if generation != self.session.generations.scale_preview {
            self
        } else {
            let ended = self.with_scaling(
                Scaling { running: false, ..self.session.scaling },
            ).emit(Effect::ShowScaleSpinner(false));
            match outcome {
                ScaleOutcome::Ready { size } => ended.display_scale_preview(size),
                ScaleOutcome::Failed => ended.emit(Effect::Notify(Notice::Failure)),
                ScaleOutcome::WorkerFailed => ended.emit(
                    Effect::Notify(Notice::ScaleWorkerFailed),
                ),
            }
        }
    }

    /// The window with the source in place of the preview, while a button is
    /// held, and back.
    pub open spec fn set_scale_original_visible(self, visible: bool) -> WindowView {
        let scaling = self.session.scaling;
        let set = self.with_scaling(Scaling { showing_original: visible, ..scaling });
        if self.session.tools.tool != Tool::Scale || scaling.showing_original == visible {
            self
        } else if visible {
            match scaling.source {
                None => set,
                Some(source) => set.emit(Effect::ShowScalePicture { original: true }).zoom_scaled(
                    Effect::ZoomScaleOriginal {
                        source_width: source.0,
                        target_width: scaling.target.0,
                        fit: scaling.view == ScalePreviewView::Fit,
                    },
                ),
            }
        } else if scaling.preview == Some(scaling.target) {
            let shown = set.emit(Effect::ShowScalePicture { original: false });
            if scaling.view == ScalePreviewView::Fit {
                shown.fit(false)
            } else {
                shown.zoom_scaled(Effect::RestoreScaleZoom)
            }
        } else {
            set.schedule_scale_preview(scaling.target)
        }
    }

    /// The window with another view of the scaled picture, which only the
    /// scaling tool has.
    pub open spec fn set_scale_view(self, view: ScalePreviewView) -> WindowView {
        self.with_scaling(Scaling { view, ..self.session.scaling })
    }
}

impl ViewerWindow {
    fn zoom_scaled(&mut self, zoom: Effect)
        ensures
            final(self)@ == old(self)@.zoom_scaled(zoom),
    {
        self.emit(zoom);
        self.emit(Effect::UpdateSubtitle);
        self.emit(Effect::UpdateMinimap);
    }

    fn apply_scale_preview_view(&mut self, target_width: u32)
        ensures
            final(self)@ == old(self)@.apply_scale_preview_view(target_width),
    {
        match self.session.scaling.view {
            ScalePreviewView::Footprint => {
                if let Some(source) = self.session.scaling.source {
                    self.zoom_scaled(
                        Effect::ZoomScaleFootprint { source_width: source.0, target_width },
                    );
                }
            },
            ScalePreviewView::ActualSize => self.zoom_scaled(Effect::ZoomScaleActual),
            ScalePreviewView::Fit => self.fit(false),
        }
    }

    fn display_scale_preview(&mut self, size: (u32, u32))
        ensures
            final(self)@ == old(self)@.display_scale_preview(size),
    {
        proof {
            reveal(WindowView::display_scale_preview);
        }
        self.emit(Effect::ShowScaleSpinner(false));
        self.session.scaling.preview = Some(size);
        self.emit(Effect::EnableScaleOriginal(true));
        if !self.session.scaling.showing_original {
            self.emit(Effect::ShowScalePicture { original: false });
            self.apply_scale_preview_view(size.0);
        }
    }

    /// Has a preview of that size computed, and makes every earlier one out of
    /// date.
    pub fn schedule_scale_preview(&mut self, target: (u32, u32))
        ensures
            final(self)@ == old(self)@.schedule_scale_preview(target),
    {
        proof {
            reveal(WindowView::schedule_scale_preview);
        }
        let source = match self.session.scaling.source {
            None => {
                self.emit(Effect::ShowScaleSpinner(false));
                return;
            },
            Some(source) => source,
        };
        let generation: u64 = following_generation(self.session.generations.scale_preview);
        self.session.generations.scale_preview = generation;
        if self.session.scaling.running {
            self.emit(Effect::CancelScalePreview);
        }
        if target.0 == source.0 && target.1 == source.1 {
            self.session.scaling.running = false;
            self.emit(Effect::ShowScaleSpinner(false));
            self.display_scale_preview(source);
            return;
        }
        self.session.scaling.running = true;
        self.emit(Effect::ShowScaleSpinner(true));
        self.emit(Effect::EnableScaleOriginal(false));
        let method = self.session.scaling.method;
        self.emit(
            Effect::StartScalePreview { generation, width: target.0, height: target.1, method },
        );
    }

    /// Brings the scaling controls in step with the chosen size.
    pub fn refresh_scale_controls(&mut self)
        ensures
            final(self)@ == old(self)@.refresh_scale_controls(),
    {
        if self.session.scaling.source.is_some() {
            self.emit(Effect::ShowScaleTarget);
            self.schedule_scale_preview(self.session.scaling.target);
        }
    }

    /// Lets the other side follow the one that changed, where the proportions
    /// are kept.
    pub fn scale_dimension_changed(&mut self, width_changed: bool)
        ensures
            final(self)@ == old(self)@.scale_dimension_changed(width_changed),
    {
        let scaling = self.session.scaling;
        if let Some(source) = scaling.source {
            if scaling.locked {
                if width_changed {
                    let size = scaled_dimensions(source.0, source.1, scaling.target.0);
                    self.session.scaling.target = (
                        scaling.target.0,
                        bring_within_limit(size.1, scaling.limits.1),
                    );
                } else {
                    let width: u32 = scaled_width_for_height(
                        source.0,
                        source.1,
                        scaling.target.1,
                    );
                    self.session.scaling.target = (
                        bring_within_limit(width, scaling.limits.0),
                        scaling.target.1,
                    );
                }
            }
        }
        self.refresh_scale_controls();
    }

    /// Sets the width, or the height, to scale to.
    pub fn set_scale_side(&mut self, width_changed: bool, length: u32)
        ensures
            final(self)@ == old(self)@.set_scale_side(width_changed, length),
    {
        let scaling = self.session.scaling;
        if scaling.source.is_none() {
            return;
        }
        self.session.scaling.target = if width_changed {
            (bring_within_limit(length, scaling.limits.0), scaling.target.1)
        } else {
            (scaling.target.0, bring_within_limit(length, scaling.limits.1))
        };
        self.scale_dimension_changed(width_changed);
    }

    /// Sets both sides at once, as a percentage does.
    pub fn set_scale_size(&mut self, size: (u32, u32))
        ensures
            final(self)@ == old(self)@.set_scale_size(size),
    {
        let scaling = self.session.scaling;
        if scaling.source.is_none() {
            return;
        }
        self.session.scaling.target = (
            bring_within_limit(size.0, scaling.limits.0),
            bring_within_limit(size.1, scaling.limits.1),
        );
        self.refresh_scale_controls();
    }

    /// Locks or frees the proportions.
    pub fn set_scale_lock(&mut self, locked: bool)
        ensures
            final(self)@ == old(self)@.set_scale_lock(locked),
    {
        self.session.scaling.locked = locked;
        if locked {
            self.scale_dimension_changed(true);
        } else {
            self.refresh_scale_controls();
        }
    }

    /// Chooses what the numbers of the controls count.
    pub fn set_scale_unit(&mut self, unit: ScaleUnit)
        ensures
            final(self)@ == old(self)@.set_scale_unit(unit),
    {
        self.session.scaling.unit = unit;
        self.refresh_scale_controls();
    }

    fn configure_scale_limits(&mut self, source: (u32, u32), target: (u32, u32))
        ensures
            final(self)@ == old(self)@.with_scaling(
                old(self)@.session.scaling.configured(source, target),
            ),
    {
        let method = self.session.scaling.method;
        let limits: (u32, u32) = (method.limit(source.0), method.limit(source.1));
        self.session.scaling = Scaling {
            limits,
            target: (
                bring_within_limit(target.0, limits.0),
                bring_within_limit(target.1, limits.1),
            ),
            ..self.session.scaling
        };
    }

    /// Chooses how pixels are scaled.
    pub fn set_scale_method(&mut self, method: ScaleMethod)
        ensures
            final(self)@ == old(self)@.set_scale_method(method),
    {
        self.session.scaling.method = method;
        match self.session.scaling.source {
            None => self.emit(Effect::ShowScaleLimits),
            Some(source) => {
                self.configure_scale_limits(source, self.session.scaling.target);
                self.emit(Effect::ShowScaleLimits);
                self.scale_dimension_changed(true);
            },
        }
    }

    fn open_scaling(&mut self, size: (u32, u32))
        ensures
            final(self)@ == old(self)@.open_scaling(size),
    {
        proof {
            reveal(WindowView::open_scaling);
        }
        self.session.scaling = Scaling {
            source: Some(size),
            preview: None,
            view: ScalePreviewView::Footprint,
            showing_original: false,
            committing: false,
            pending_activation: false,
            ..self.session.scaling
        };
        self.configure_scale_limits(size, size);
        self.emit(Effect::KeepScaleSource);
        self.emit(Effect::ShowScaleLimits);
        self.refresh_scale_controls();
        self.emit(Effect::ShowScaleControls(true));
        self.emit(Effect::ShowZoomControls(false));
    }

    fn close_scaling(&mut self)
        ensures
            final(self)@ == old(self)@.close_scaling(),
    {
        proof {
            reveal(WindowView::close_scaling);
        }
        let before = self.session.scaling;
        let generation: u64 = following_generation(self.session.generations.scale_preview);
        self.session = Session {
            generations: Generations { scale_preview: generation, ..self.session.generations },
            scaling: Scaling {
                source: None,
                preview: None,
                showing_original: false,
                committing: false,
                running: false,
                pending_activation: false,
                ..before
            },
            zooming: Zooming { pending_fit: None, ..self.session.zooming },
            ..self.session
        };
        if before.running {
            self.emit(Effect::CancelScalePreview);
        }
        self.emit(Effect::ShowScaleSpinner(false));
        self.emit(Effect::ShowScaleControls(false));
        self.emit(Effect::ShowZoomControls(true));
        if !before.committing && before.source.is_some() {
            self.emit(Effect::RestoreScaleSource);
            self.emit(Effect::UpdateMinimap);
            self.emit(Effect::UpdateSubtitle);
        }
    }

    /// Turns the scaling tool on or off.
    pub fn set_scale_preview_active(&mut self, active: bool)
        ensures
            final(self)@ == old(self)@.set_scale_preview_active(active),
    {
        if !active {
            self.close_scaling();
            return;
        }
        match self.session.content.rendered {
            Some(size) => self.open_scaling(size),
            None => {
                if self.session.flags.decode_pending {
                    self.session.scaling.pending_activation = true;
                    self.emit(Effect::Notify(Notice::PreparingScale));
                } else {
                    self.emit(Effect::ReleaseScaleButton);
                    self.emit(Effect::Notify(Notice::OpenEditableFirst));
                }
            },
        }
    }

    /// Takes the result of a preview's computation, unless it is out of date.
    pub fn scale_preview_finished(&mut self, generation: u64, outcome: ScaleOutcome)
        ensures
            final(self)@ == old(self)@.scale_preview_finished(generation, outcome),
    {
        if generation != self.session.generations.scale_preview {
            return;
        }
        self.session.scaling.running = false;
        self.emit(Effect::ShowScaleSpinner(false));
        match outcome {
            ScaleOutcome::Ready { size } => self.display_scale_preview(size),
            ScaleOutcome::Failed => self.emit(Effect::Notify(Notice::Failure)),
            ScaleOutcome::WorkerFailed => self.emit(Effect::Notify(Notice::ScaleWorkerFailed)),
        }
    }

    /// Shows the source in place of the preview, or the preview again.
    pub fn set_scale_original_visible(&mut self, visible: bool)
        ensures
            final(self)@ == old(self)@.set_scale_original_visible(visible),
    {
        let scaling = self.session.scaling;
        if !matches!(self.session.tools.tool, Tool::Scale) || scaling.showing_original == visible {
            return;
        }
        self.session.scaling.showing_original = visible;
        if visible {
            if let Some(source) = scaling.source {
                self.emit(Effect::ShowScalePicture { original: true });
                let fit = matches!(scaling.view, ScalePreviewView::Fit);
                self.zoom_scaled(
                    Effect::ZoomScaleOriginal {
                        source_width: source.0,
                        target_width: scaling.target.0,
                        fit,
                    },
                );
            }
            return;
        }
        let ready = match scaling.preview {
            Some(preview) => preview.0 == scaling.target.0 && preview.1 == scaling.target.1,
            None => false,
        };
        if ready {
            self.emit(Effect::ShowScalePicture { original: false });
            if matches!(scaling.view, ScalePreviewView::Fit) {
                self.fit(false);
            } else {
                self.zoom_scaled(Effect::RestoreScaleZoom);
            }
        } else {
            self.schedule_scale_preview(scaling.target);
        }
    }

    /// Chooses what part of the scaled picture the viewport shows.
    pub fn set_scale_view(&mut self, view: ScalePreviewView)
        ensures
            final(self)@ == old(self)@.set_scale_view(view),
    {
        self.session.scaling.view = view;
    }
}

/// Whether two states of the controls offer and choose the same.
pub open spec fn same_choice(left: Scaling, right: Scaling) -> bool {
    &&& left.method == right.method
    &&& left.source == right.source
    &&& left.limits == right.limits
    &&& left.target == right.target
    &&& left.committing == right.committing
}

/// Showing a preview does not change what is chosen.
pub proof fn displays_keep_the_choice(window: WindowView, size: (u32, u32))
    ensures
        same_choice(
            window.display_scale_preview(size).session.scaling,
            window.session.scaling,
        ),
        window.display_scale_preview(size).session.generations == window.session.generations,
{
    reveal(WindowView::display_scale_preview);
}

/// A preview does not change what is chosen, and makes every earlier one out
/// of date.
pub proof fn previews_keep_the_choice(window: WindowView, target: (u32, u32))
    ensures
        same_choice(
            window.schedule_scale_preview(target).session.scaling,
            window.session.scaling,
        ),
        same_choice(window.refresh_scale_controls().session.scaling, window.session.scaling),
        window.session.scaling.source is Some ==> window.schedule_scale_preview(
            target,
        ).session.generations.scale_preview != window.session.generations.scale_preview,
{
    reveal(WindowView::schedule_scale_preview);
    assert forall|next: WindowView, size: (u32, u32)|
        {
            &&& same_choice(
                #[trigger] next.display_scale_preview(size).session.scaling,
                next.session.scaling,
            )
            &&& next.display_scale_preview(size).session.generations == next.session.generations
        } by {
        displays_keep_the_choice(next, size);
    }
}

/// Setting one side, with the other following it or not, keeps to the limits.
pub proof fn sides_keep_to_the_limits(window: WindowView, width_changed: bool, length: u32)
    requires
        window.session.scaling.well_formed(),
    ensures
        window.set_scale_side(width_changed, length).session.scaling.well_formed(),
        window.scale_dimension_changed(width_changed).session.scaling.well_formed(),
{
    let scaling = window.session.scaling;
    let next = window.with_scaling(scaling.with_proportions(width_changed));
    previews_keep_the_choice(next, next.session.scaling.target);
    let chosen = Scaling {
        target: if width_changed {
            (within_limit(length, scaling.limits.0), scaling.target.1)
        } else {
            (scaling.target.0, within_limit(length, scaling.limits.1))
        },
        ..scaling
    };
    let set = window.with_scaling(chosen);
    let followed = set.with_scaling(chosen.with_proportions(width_changed));
    previews_keep_the_choice(followed, followed.session.scaling.target);
}

/// Setting both sides at once keeps to the limits.
pub proof fn sizes_keep_to_the_limits(window: WindowView, size: (u32, u32))
    requires
        window.session.scaling.well_formed(),
    ensures
        window.set_scale_size(size).session.scaling.well_formed(),
{
    let scaling = window.session.scaling;
    let next = window.with_scaling(
        Scaling {
            target: (
                within_limit(size.0, scaling.limits.0),
                within_limit(size.1, scaling.limits.1),
            ),
            ..scaling
        },
    );
    previews_keep_the_choice(next, next.session.scaling.target);
}

/// Another method brings its own limits, and the chosen size within them.
pub proof fn methods_bring_their_limits(window: WindowView, method: ScaleMethod)
    ensures
        window.set_scale_method(method).session.scaling.well_formed(),
        window.set_scale_method(method).session.scaling.method == method,
{
    let scaling = Scaling { method, ..window.session.scaling };
    if scaling.source is Some {
        let configured = scaling.configured(scaling.source->0, scaling.target);
        let next = window.with_scaling(configured).emit(Effect::ShowScaleLimits);
        assert(configured.well_formed());
        sides_keep_to_the_limits(next, true, 0);
        let followed = next.with_scaling(configured.with_proportions(true));
        previews_keep_the_choice(followed, followed.session.scaling.target);
    }
}

/// Seams are only ever carved out: with that method the chosen size is never
/// larger than the source.
pub proof fn seam_carving_only_shrinks(scaling: Scaling, source: (u32, u32))
    requires
        scaling.well_formed(),
        scaling.method == ScaleMethod::SeamCarving,
        scaling.source == Some(source),
        1 <= source.0,
        1 <= source.1,
    ensures
        1 <= scaling.target.0 <= source.0,
        1 <= scaling.target.1 <= source.1,
{
}

/// With the proportions kept, setting the width sets the height that goes
/// with it, as far as the limits allow.
pub proof fn locked_sides_go_together(window: WindowView, source: (u32, u32), length: u32)
    requires
        window.session.scaling.locked,
        window.session.scaling.source == Some(source),
    ensures
        ({
            let after = window.set_scale_side(true, length).session.scaling;
            &&& after.target.0 == within_limit(length, after.limits.0)
            &&& after.target.1 == within_limit(
                proportional(source.1, source.0, after.target.0) as u32,
                after.limits.1,
            )
        }),
{
    let scaling = window.session.scaling;
    let chosen = Scaling {
        target: (within_limit(length, scaling.limits.0), scaling.target.1),
        ..scaling
    }.with_proportions(true);
    previews_keep_the_choice(window.with_scaling(chosen), chosen.target);
}

/// The source's own size is chosen when the tool is opened, within the limits
/// of the method, and leaving the tool without taking a size over puts the picture back.
pub proof fn scaling_leaves_nothing_behind(window: WindowView, size: (u32, u32))
    requires
        window.session.content.rendered == Some(size),
        1 <= size.0,
        1 <= size.1,
    ensures
        ({
            let opened = window.set_scale_preview_active(true);
            let closed = opened.set_scale_preview_active(false);
            &&& opened.session.scaling.target == size
            &&& opened.session.scaling.well_formed()
            &&& closed.session.scaling.source is None
            &&& closed.effects.contains(Effect::RestoreScaleSource)
        }),
{
    let chosen = Scaling {
        source: Some(size),
        preview: None,
        view: ScalePreviewView::Footprint,
        showing_original: false,
        committing: false,
        pending_activation: false,
        ..window.session.scaling
    }.configured(size, size);
    let before = window.with_scaling(chosen).emit(Effect::KeepScaleSource).emit(
        Effect::ShowScaleLimits,
    );
    previews_keep_the_choice(before, size);
    reveal(WindowView::open_scaling);
    reveal(WindowView::close_scaling);
    let opened = window.set_scale_preview_active(true);
    let closed = opened.set_scale_preview_active(false);
    assert(opened.session.scaling.target == size);
    assert(!opened.session.scaling.committing && opened.session.scaling.source is Some);
    assert(closed.effects[closed.effects.len() - 3] == Effect::RestoreScaleSource);
}

/// Only the latest preview is shown: a computation that was started before
/// another one changes nothing.
pub proof fn superseded_previews_are_ignored(
    window: WindowView,
    target: (u32, u32),
    outcome: ScaleOutcome,
)
    requires
        window.session.scaling.source is Some,
    ensures
        ({
            let scheduled = window.schedule_scale_preview(target);
            scheduled.scale_preview_finished(window.session.generations.scale_preview, outcome)
                == scheduled
        }),
{
    previews_keep_the_choice(window, target);
}

} // verus!
