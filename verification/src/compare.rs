//! Two images side by side, and the lenses over them.

use crate::active_tool::{resting_cursor, spec_resting_cursor};
use crate::effect::{CanvasSide, Cursor, Effect, Notice, ZoomAlignment, ZoomTarget};
use crate::file_state::{place, FileLocation, LocationView, MonitorEvent};
use crate::keys::Modifiers;
use crate::tool::Tool;
use crate::tool_laws::changing_tools_ends_what_was_begun;
use crate::window::{
    following_generation, next_generation, Comparison, Content, FilesView, Flags, Generations,
    Session, ViewerWindow, WindowView,
};
use crate::zoom::{spec_usable_panel_size, usable_panel_size};
use vstd::prelude::*;

verus! {

/// How the panels of a comparison stand on a frame.
#[derive(Debug, Clone, Copy, PartialEq, Eq, Structural)]
pub enum LayoutStep {
    /// Nothing is left to lay out.
    Done,
    /// Try again on the next frame.
    Again,
}

/// The panels as they are laid out on a frame.
#[derive(Debug, Clone, Copy, PartialEq, Eq)]
pub struct PanelLayout {
    /// The size of both panels together.
    pub size: (i32, i32),
    /// Whether the panels stand side by side.
    pub horizontal: bool,
    /// Where the divider is.
    pub position: i32,
    pub primary: (i32, i32),
    pub comparison: (i32, i32),
    /// Whether there is a picture in the second panel.
    pub comparison_texture: bool,
}

/// What scrolling over a lens changes.
#[derive(Debug, Clone, Copy, PartialEq, Eq, Structural)]
pub enum LensScroll {
    Pass,
    Magnification,
    Diameter,
}

/// What a scroll over the comparison changes.
pub open spec fn spec_lens_scroll(active: bool, modifiers: Modifiers) -> LensScroll {
    if active && modifiers.alt {
        LensScroll::Magnification
    } else if active && modifiers.shift {
        LensScroll::Diameter
    } else {
        LensScroll::Pass
    }
}

/// What a scroll over the comparison changes: Alt the magnification of the
/// lens, Shift its size.
pub fn lens_scroll(active: bool, modifiers: Modifiers) -> (scroll: LensScroll)
    ensures
        scroll == spec_lens_scroll(active, modifiers),
        scroll == if active && modifiers.alt {
            LensScroll::Magnification
        } else if active && modifiers.shift {
            LensScroll::Diameter
        } else {
            LensScroll::Pass
        },
{
    if !active {
        LensScroll::Pass
    } else if modifiers.alt {
        LensScroll::Magnification
    } else if modifiers.shift {
        LensScroll::Diameter
    } else {
        LensScroll::Pass
    }
}

/// Whether the file that is compared with was moved away.
pub open spec fn moves_away(event: MonitorEvent) -> bool {
    event == MonitorEvent::Moved || event == MonitorEvent::Renamed || event
        == MonitorEvent::MovedOut
}

/// Where the divider of the panels belongs: in the middle.
pub open spec fn centered_divider(layout: PanelLayout) -> int {
    let available = if layout.horizontal {
        layout.size.0
    } else {
        layout.size.1
    };
    available as int / 2
}

impl WindowView {
    pub open spec fn with_comparison(self, comparison: Comparison) -> WindowView {
        WindowView { session: Session { comparison, ..self.session }, ..self }
    }

    pub open spec fn with_files(self, files: FilesView) -> WindowView {
        WindowView { files, ..self }
    }

    /// The window with another number for the loads of its comparison.
    pub open spec fn renew_comparison(self) -> WindowView {
        WindowView {
            session: Session {
                generations: Generations {
                    comparison: next_generation(self.session.generations.comparison),
                    ..self.session.generations
                },
                ..self.session
            },
            ..self
        }.emit(Effect::CancelComparisonLoad)
    }

    /// The window on the way to a comparison, where there is something to
    /// compare.
    pub open spec fn choose_comparison(self) -> WindowView {
        if self.session.content.texture is Some {
            self.emit(Effect::ChooseComparison)
        } else {
            self.emit(Effect::Notify(Notice::OpenFirstImage))
        }
    }

    /// The window with a file to compare being loaded.
    pub open spec fn load_comparison(self, file: LocationView) -> WindowView {
        let renewed = self.renew_comparison();
        renewed.with_files(
            FilesView { requested_comparison: Some(file), ..self.files },
        ).emit(
            Effect::StartComparisonLoad {
                generation: renewed.session.generations.comparison,
                primary: self.session.generations.load,
            },
        )
    }

    /// The session of a window that compares nothing.
    pub open spec fn alone(self) -> Session {
        Session {
            comparison: Comparison {
                active: false,
                locked: false,
                syncing: false,
                lens_source: None,
                ..self.session.comparison
            },
            flags: Flags { comparison_scheduled: false, ..self.session.flags },
            content: Content { comparison_rendered: false, ..self.session.content },
            ..self.session
        }
    }

    /// The window with its primary picture alone.
    #[verifier::opaque]
    pub open spec fn exit_compare(self) -> WindowView {
        let renewed = self.renew_comparison();
        WindowView {
            session: renewed.alone(),
            files: FilesView {
                comparison: None,
                comparison_renamed_to: None,
                ..self.files
            },
            ..renewed
        }.emit(Effect::CloseComparison).set_cursor(
            spec_resting_cursor(self.session.tools.tool, self.session.comparison.lens_active),
        ).emit(Effect::ShowMarker(None)).emit(Effect::SetCanvasLabel(Tool::Idle)).emit(
            Effect::UpdateActionStates,
        ).emit(Effect::UpdateMinimap)
    }

    /// The window with the requested file beside its own.
    #[verifier::opaque]
    pub open spec fn open_comparison(self) -> WindowView {
        let cursor = if self.session.tools.tool == Tool::PickColor {
            Cursor::Crosshair
        } else {
            Cursor::Hidden
        };
        self.with_comparison(
            Comparison { active: true, locked: true, ..self.session.comparison },
        ).with_files(
            FilesView { comparison: self.files.requested_comparison, ..self.files },
        ).emit(Effect::OpenComparison).emit(Effect::UpdateActionStates).emit(
            Effect::MonitorComparison,
        ).set_cursor(cursor).emit(
            Effect::SetCursor { side: CanvasSide::Comparison, cursor },
        ).emit(Effect::ScheduleComparisonLayout)
    }

    /// The window with the requested file beside its own, where it has one. A
    /// tool that places shapes is put away for it.
    pub open spec fn enter_compare(self) -> WindowView {
        let alone = self.exit_compare();
        let ready = if self.session.tools.tool.spec_is_vector_annotation() {
            alone.set_tool(Tool::Idle)
        } else {
            alone
        };
        if self.session.content.texture is Some {
            ready.open_comparison()
        } else {
            ready
        }
    }

    /// Whether the load of a comparison is still wanted.
    pub open spec fn comparison_wanted(self, primary: u64, generation: u64) -> bool {
        self.session.generations.load == primary && self.session.generations.comparison
            == generation
    }

    /// The window after the file to compare was loaded, or could not be.
    pub open spec fn comparison_loaded(
        self,
        primary: u64,
        generation: u64,
        loaded: bool,
    ) -> WindowView {
        if !self.comparison_wanted(primary, generation) {
            self
        } else if loaded {
            self.enter_compare()
        } else {
            self.emit(Effect::Notify(Notice::Failure))
        }
    }

    /// Whether the pictures can be fitted into their panels, or need not be.
    pub open spec fn panels_ready(self, layout: PanelLayout) -> bool {
        !self.session.comparison.active || self.session.content.texture is None
            || !layout.comparison_texture || (spec_usable_panel_size(layout.primary)
            && spec_usable_panel_size(layout.comparison))
    }

    /// The window with the pictures fitted into their panels.
    pub open spec fn fit_compare_panels(self, layout: PanelLayout) -> WindowView {
        if self.session.comparison.active && self.session.content.texture is Some
            && layout.comparison_texture && self.panels_ready(layout) {
            self.emit(Effect::MeasurePanels).apply_zoom(
                ZoomTarget::Panel,
                Some(ZoomAlignment::Contain),
                true,
            )
        } else {
            self
        }
    }

    /// How the panels stand, and the window after they were laid out as far as
    /// they could be.
    pub open spec fn layout_compare_panels(self, layout: PanelLayout) -> (WindowView, LayoutStep) {
        if !self.session.comparison.active {
            (self, LayoutStep::Done)
        } else if !spec_usable_panel_size(layout.size) {
            (self, LayoutStep::Again)
        } else if layout.position != centered_divider(layout) {
            (
                self.emit(Effect::SetDivider(centered_divider(layout) as i32)),
                LayoutStep::Again,
            )
        } else {
            (
                self.fit_compare_panels(layout),
                if self.panels_ready(layout) {
                    LayoutStep::Done
                } else {
                    LayoutStep::Again
                },
            )
        }
    }

    /// The window due to look at its comparison file again.
    pub open spec fn queue_comparison_refresh(self) -> WindowView {
        if self.session.flags.comparison_scheduled {
            self
        } else {
            WindowView {
                session: Session {
                    flags: Flags { comparison_scheduled: true, ..self.session.flags },
                    ..self.session
                },
                ..self
            }.emit(
                Effect::ScheduleComparisonRefresh {
                    generation: self.session.generations.comparison,
                },
            )
        }
    }

    /// The window after a report on its comparison file.
    pub open spec fn comparison_file_changed(
        self,
        file: LocationView,
        other: Option<LocationView>,
        event: MonitorEvent,
    ) -> WindowView {
        match self.files.comparison {
            None => self,
            Some(comparison) => if event == MonitorEvent::AttributeChanged {
                self
            } else {
                let moved = file == comparison && moves_away(event) && other is Some;
                self.with_files(
                    FilesView {
                        comparison_renamed_to: if moved {
                            other
                        } else {
                            self.files.comparison_renamed_to
                        },
                        ..self.files
                    },
                ).queue_comparison_refresh()
            },
        }
    }

    /// Whether it is time to look at the comparison file.
    pub open spec fn comparison_refresh_counts(self, generation: u64) -> bool {
        self.session.generations.comparison == generation
            && self.session.flags.comparison_scheduled
    }

    /// The window after it looked at its comparison file: loaded from where it
    /// is now, or given up.
    pub open spec fn comparison_refresh_due(
        self,
        generation: u64,
        renamed_exists: bool,
        current_exists: bool,
    ) -> WindowView {
        if !self.comparison_refresh_counts(generation) {
            self
        } else {
            let renamed = self.files.comparison_renamed_to;
            let looked = WindowView {
                session: Session {
                    flags: Flags { comparison_scheduled: false, ..self.session.flags },
                    ..self.session
                },
                files: FilesView { comparison_renamed_to: None, ..self.files },
                ..self
            };
            if renamed is Some && renamed_exists {
                looked.load_comparison(renamed->0)
            } else if self.files.comparison is Some && current_exists {
                looked.load_comparison(self.files.comparison->0)
            } else {
                looked.exit_compare().emit(Effect::Notify(Notice::ComparisonGone))
            }
        }
    }

    /// The window with its two pictures locked together, or free.
    pub open spec fn set_compare_locked(self, locked: bool) -> WindowView {
        self.with_comparison(Comparison { locked, ..self.session.comparison })
    }

    /// The window after one picture was scrolled, and whether that moves the other
    /// one.
    pub open spec fn begin_scroll_sync(self) -> (WindowView, bool) {
        let moves = self.session.comparison.locked && !self.session.comparison.syncing;
        (
            self.with_comparison(
                Comparison {
                    syncing: self.session.comparison.syncing || moves,
                    ..self.session.comparison
                },
            ),
            moves,
        )
    }

    /// The window once the other picture has followed.
    pub open spec fn end_scroll_sync(self) -> WindowView {
        self.with_comparison(Comparison { syncing: false, ..self.session.comparison })
    }

    /// The window with its lens over a single image on or off.
    pub open spec fn set_single_image_lens_active(self, active: bool) -> WindowView {
        if self.session.content.texture is None {
            if active {
                self.emit(Effect::ReleaseLensButton).emit(Effect::Notify(Notice::OpenImageForLens))
            } else {
                self
            }
        } else {
            self.with_comparison(
                Comparison { lens_active: active, ..self.session.comparison },
            ).set_cursor(
                if active || self.session.tools.tool == Tool::Measure {
                    Cursor::Hidden
                } else if self.session.tools.tool == Tool::Idle {
                    Cursor::Default
                } else {
                    Cursor::Crosshair
                },
            ).emit_if(!active, Effect::ClearLens(CanvasSide::Primary))
        }
    }

    /// The window after the pointer moved over a single image. `inside` tells
    /// whether it is over the picture.
    pub open spec fn single_lens_moved(self, inside: bool) -> WindowView {
        if !self.session.comparison.lens_active || self.session.comparison.active
            || self.session.content.texture is None {
            self
        } else if inside {
            self.emit(Effect::ShowLens { side: CanvasSide::Primary, both: false })
        } else {
            self.emit(Effect::ClearLens(CanvasSide::Primary))
        }
    }

    pub open spec fn clear_lenses(self) -> WindowView {
        self.emit(Effect::ClearLens(CanvasSide::Primary)).emit(
            Effect::ClearLens(CanvasSide::Comparison),
        )
    }

    /// The window after the pointer moved over one of two images. `visible`
    /// tells whether both pictures are there and the pointer is over one.
    pub open spec fn compare_lens_moved(self, side: CanvasSide, visible: bool) -> WindowView {
        let tool = self.session.tools.tool;
        if !self.session.comparison.active || tool == Tool::Measure || tool == Tool::Select {
            self.clear_lenses().emit(
                Effect::SetCursor {
                    side,
                    cursor: if side == CanvasSide::Primary && tool == Tool::Measure {
                        Cursor::Hidden
                    } else if side == CanvasSide::Primary && tool == Tool::Select {
                        Cursor::Crosshair
                    } else {
                        Cursor::Default
                    },
                },
            )
        } else {
            let held = self.with_comparison(
                Comparison { lens_source: Some(side), ..self.session.comparison },
            ).emit(Effect::SetCursor { side, cursor: Cursor::Hidden });
            if visible {
                held.emit(Effect::ShowLens { side, both: true })
            } else {
                held.clear_lenses()
            }
        }
    }

    /// The window after the pointer left one of two images.
    pub open spec fn compare_lens_left(self, side: CanvasSide) -> WindowView {
        if self.session.comparison.lens_source == Some(side) {
            self.with_comparison(
                Comparison { lens_source: None, ..self.session.comparison },
            ).clear_lenses()
        } else {
            self
        }
    }
}

impl ViewerWindow {
    fn renew_comparison(&mut self)
        ensures
            final(self)@ == old(self)@.renew_comparison(),
    {
        let comparison: u64 = following_generation(self.session.generations.comparison);
        self.session.generations = Generations { comparison, ..self.session.generations };
        self.emit(Effect::CancelComparisonLoad);
    }

    /// Has the user choose a file to compare with.
    pub fn choose_comparison(&mut self)
        ensures
            final(self)@ == old(self)@.choose_comparison(),
    {
        if self.session.content.texture.is_some() {
            self.emit(Effect::ChooseComparison);
        } else {
            self.emit(Effect::Notify(Notice::OpenFirstImage));
        }
    }

    /// Loads a file to compare with, in place of any that is being loaded.
    pub fn load_comparison(&mut self, file: FileLocation)
        ensures
            final(self)@ == old(self)@.load_comparison(file@),
    {
        self.renew_comparison();
        self.files.requested_comparison = Some(file);
        self.emit(
            Effect::StartComparisonLoad {
                generation: self.session.generations.comparison,
                primary: self.session.generations.load,
            },
        );
    }

    /// Shows the primary picture alone, and forgets all about the other one.
    pub fn exit_compare(&mut self)
        ensures
            final(self)@ == old(self)@.exit_compare(),
    {
        proof {
            reveal(WindowView::exit_compare);
        }
        let cursor = resting_cursor(
            self.session.tools.tool,
            self.session.comparison.lens_active,
        );
        self.renew_comparison();
        self.session = Session {
            comparison: Comparison {
                active: false,
                locked: false,
                syncing: false,
                lens_source: None,
                ..self.session.comparison
            },
            flags: Flags { comparison_scheduled: false, ..self.session.flags },
            content: Content { comparison_rendered: false, ..self.session.content },
            ..self.session
        };
        self.files.comparison = None;
        self.files.comparison_renamed_to = None;
        self.emit(Effect::CloseComparison);
        self.set_cursor(cursor);
        self.emit(Effect::ShowMarker(None));
        self.emit(Effect::SetCanvasLabel(Tool::Idle));
        self.emit(Effect::UpdateActionStates);
        self.emit(Effect::UpdateMinimap);
    }

    fn open_comparison(&mut self)
        ensures
            final(self)@ == old(self)@.open_comparison(),
    {
        proof {
            reveal(WindowView::open_comparison);
        }
        let cursor = if matches!(self.session.tools.tool, Tool::PickColor) {
            Cursor::Crosshair
        } else {
            Cursor::Hidden
        };
        self.session.comparison = Comparison {
            active: true,
            locked: true,
            ..self.session.comparison
        };
        self.files.comparison = match &self.files.requested_comparison {
            Some(file) => Some(file.clone()),
            None => None,
        };
        self.emit(Effect::OpenComparison);
        self.emit(Effect::UpdateActionStates);
        self.emit(Effect::MonitorComparison);
        self.set_cursor(cursor);
        self.emit(Effect::SetCursor { side: CanvasSide::Comparison, cursor });
        self.emit(Effect::ScheduleComparisonLayout);
    }

    /// Shows the requested file beside the primary one.
    pub fn enter_compare(&mut self)
        ensures
            final(self)@ == old(self)@.enter_compare(),
    {
        let places_shapes = self.session.tools.tool.is_vector_annotation();
        let has_picture = self.session.content.texture.is_some();
        self.exit_compare();
        if places_shapes {
            self.set_tool(Tool::Idle);
        }
        if has_picture {
            self.open_comparison();
        }
    }

    /// Takes the file to compare, unless it is no longer wanted.
    pub fn comparison_loaded(&mut self, primary: u64, generation: u64, loaded: bool)
        ensures
            final(self)@ == old(self)@.comparison_loaded(primary, generation, loaded),
    {
        if self.session.generations.load != primary || self.session.generations.comparison
            != generation {
            return;
        }
        if loaded {
            self.enter_compare();
        } else {
            self.emit(Effect::Notify(Notice::Failure));
        }
    }

    fn fit_compare_panels(&mut self, layout: PanelLayout) -> (ready: bool)
        ensures
            ready == old(self)@.panels_ready(layout),
            final(self)@ == old(self)@.fit_compare_panels(layout),
    {
        if !self.session.comparison.active || self.session.content.texture.is_none()
            || !layout.comparison_texture {
            return true;
        }
        if !usable_panel_size(layout.primary) || !usable_panel_size(layout.comparison) {
            return false;
        }
        self.emit(Effect::MeasurePanels);
        self.apply_zoom(ZoomTarget::Panel, Some(ZoomAlignment::Contain), true);
        true
    }

    /// Lays the panels out on a frame: the divider in the middle, then the
    /// pictures fitted into the panels.
    pub fn layout_compare_panels(&mut self, layout: PanelLayout) -> (step: LayoutStep)
        ensures
            (final(self)@, step) == old(self)@.layout_compare_panels(layout),
    {
        if !self.session.comparison.active {
            return LayoutStep::Done;
        }
        if !usable_panel_size(layout.size) {
            return LayoutStep::Again;
        }
        let available: i32 = if layout.horizontal {
            layout.size.0
        } else {
            layout.size.1
        };
        let centered: i32 = available / 2;
        if layout.position != centered {
            self.emit(Effect::SetDivider(centered));
            return LayoutStep::Again;
        }
        if self.fit_compare_panels(layout) {
            LayoutStep::Done
        } else {
            LayoutStep::Again
        }
    }

    fn queue_comparison_refresh(&mut self)
        ensures
            final(self)@ == old(self)@.queue_comparison_refresh(),
    {
        if self.session.flags.comparison_scheduled {
            return;
        }
        self.session.flags = Flags { comparison_scheduled: true, ..self.session.flags };
        self.emit(
            Effect::ScheduleComparisonRefresh { generation: self.session.generations.comparison },
        );
    }

    /// Takes a report on the file that is compared with.
    pub fn comparison_file_changed(
        &mut self,
        file: &FileLocation,
        other_file: Option<&FileLocation>,
        event: MonitorEvent,
    )
        ensures
            final(self)@ == old(self)@.comparison_file_changed(
                file@,
                match other_file {
                    Some(other) => Some(other@),
                    None => None,
                },
                event,
            ),
    {
        let same = match &self.files.comparison {
            None => {
                return;
            },
            Some(comparison) => file.equal(comparison),
        };
        if event == MonitorEvent::AttributeChanged {
            return;
        }
        let moved = same && matches!(
            event,
            MonitorEvent::Moved | MonitorEvent::Renamed | MonitorEvent::MovedOut
        );
        if moved {
            if let Some(target) = other_file {
                self.files.comparison_renamed_to = Some(target.clone());
            }
        }
        self.queue_comparison_refresh();
    }

    /// Looks at the file that is compared with. The two flags tell whether
    /// there is a file where it was moved to, and where it was.
    pub fn comparison_refresh_due(
        &mut self,
        generation: u64,
        renamed_exists: bool,
        current_exists: bool,
    )
        ensures
            final(self)@ == old(self)@.comparison_refresh_due(
                generation,
                renamed_exists,
                current_exists,
            ),
    {
        if self.session.generations.comparison != generation
            || !self.session.flags.comparison_scheduled {
            return;
        }
        self.session.flags = Flags { comparison_scheduled: false, ..self.session.flags };
        let renamed = self.files.comparison_renamed_to.take();
        if renamed_exists {
            if let Some(file) = renamed {
                self.load_comparison(file);
                return;
            }
        }
        if current_exists {
            if let Some(file) = &self.files.comparison {
                let file = file.clone();
                self.load_comparison(file);
                return;
            }
        }
        self.exit_compare();
        self.emit(Effect::Notify(Notice::ComparisonGone));
    }

    /// Locks the two pictures together, or frees them.
    pub fn set_compare_locked(&mut self, locked: bool)
        ensures
            final(self)@ == old(self)@.with_comparison(
                (Comparison { locked, ..old(self)@.session.comparison }),
            ),
            final(self)@ == old(self)@.set_compare_locked(locked),
    {
        self.session.comparison = Comparison { locked, ..self.session.comparison };
    }

    /// Whether a scroll of one picture moves the other one now. While it does,
    /// the scroll that it causes moves nothing back.
    pub fn begin_scroll_sync(&mut self) -> (moves: bool)
        ensures
            moves == (old(self)@.session.comparison.locked && !old(
                self,
            )@.session.comparison.syncing),
            final(self)@ == old(self)@.with_comparison(
                (Comparison {
                    syncing: old(self)@.session.comparison.syncing || moves,
                    ..old(self)@.session.comparison
                }),
            ),
            (final(self)@, moves) == old(self)@.begin_scroll_sync(),
    {
        let moves = self.session.comparison.locked && !self.session.comparison.syncing;
        if moves {
            self.session.comparison = Comparison { syncing: true, ..self.session.comparison };
        }
        moves
    }

    /// Ends what `begin_scroll_sync` began.
    pub fn end_scroll_sync(&mut self)
        ensures
            final(self)@ == old(self)@.with_comparison(
                (Comparison { syncing: false, ..old(self)@.session.comparison }),
            ),
            final(self)@ == old(self)@.end_scroll_sync(),
    {
        self.session.comparison = Comparison { syncing: false, ..self.session.comparison };
    }

    /// Turns the lens over a single image on or off.
    pub fn set_single_image_lens_active(&mut self, active: bool)
        ensures
            final(self)@ == old(self)@.set_single_image_lens_active(active),
    {
        if self.session.content.texture.is_none() {
            if active {
                self.emit(Effect::ReleaseLensButton);
                self.emit(Effect::Notify(Notice::OpenImageForLens));
            }
            return;
        }
        self.session.comparison = Comparison { lens_active: active, ..self.session.comparison };
        let cursor = if active {
            Cursor::Hidden
        } else {
            match self.session.tools.tool {
                Tool::Measure => Cursor::Hidden,
                Tool::Idle => Cursor::Default,
                _ => Cursor::Crosshair,
            }
        };
        self.set_cursor(cursor);
        if !active {
            self.emit(Effect::ClearLens(CanvasSide::Primary));
        }
    }

    /// Moves the lens over a single image.
    pub fn single_lens_moved(&mut self, inside: bool)
        ensures
            final(self)@ == old(self)@.single_lens_moved(inside),
    {
        if !self.session.comparison.lens_active || self.session.comparison.active
            || self.session.content.texture.is_none() {
            return;
        }
        if inside {
            self.emit(Effect::ShowLens { side: CanvasSide::Primary, both: false });
        } else {
            self.emit(Effect::ClearLens(CanvasSide::Primary));
        }
    }

    fn clear_lenses(&mut self)
        ensures
            final(self)@ == old(self)@.clear_lenses(),
    {
        self.emit(Effect::ClearLens(CanvasSide::Primary));
        self.emit(Effect::ClearLens(CanvasSide::Comparison));
    }

    /// Moves the lens over one of two images, and the other one with it.
    pub fn compare_lens_moved(&mut self, side: CanvasSide, visible: bool)
        ensures
            final(self)@ == old(self)@.compare_lens_moved(side, visible),
    {
        let tool = self.session.tools.tool;
        if !self.session.comparison.active || matches!(tool, Tool::Measure | Tool::Select) {
            self.clear_lenses();
            let cursor = match (side, tool) {
                (CanvasSide::Primary, Tool::Measure) => Cursor::Hidden,
                (CanvasSide::Primary, Tool::Select) => Cursor::Crosshair,
                _ => Cursor::Default,
            };
            self.emit(Effect::SetCursor { side, cursor });
            return;
        }
        self.session.comparison = Comparison {
            lens_source: Some(side),
            ..self.session.comparison
        };
        self.emit(Effect::SetCursor { side, cursor: Cursor::Hidden });
        if visible {
            self.emit(Effect::ShowLens { side, both: true });
        } else {
            self.clear_lenses();
        }
    }

    /// Takes the lenses away when the pointer leaves the side that it held
    /// them over.
    pub fn compare_lens_left(&mut self, side: CanvasSide)
        ensures
            final(self)@ == old(self)@.compare_lens_left(side),
    {
        let held = match self.session.comparison.lens_source {
            Some(source) => source == side,
            None => false,
        };
        if held {
            self.session.comparison = Comparison { lens_source: None, ..self.session.comparison };
            self.clear_lenses();
        }
    }
}

/// Leaving a comparison leaves nothing of it behind, and makes every load for
/// it out of date.
pub proof fn leaving_forgets_the_comparison(window: WindowView, loaded: bool)
    ensures
        ({
            let after = window.exit_compare();
            let late = window.session.generations.comparison;
            &&& !after.session.comparison.active
            &&& !after.session.comparison.locked
            &&& !after.session.comparison.syncing
            &&& after.session.comparison.lens_source is None
            &&& after.session.comparison.lens_active == window.session.comparison.lens_active
            &&& !after.session.flags.comparison_scheduled
            &&& !after.session.content.comparison_rendered
            &&& after.files.comparison is None
            &&& after.files.comparison_renamed_to is None
            &&& after.comparison_loaded(window.session.generations.load, late, loaded) == after
            &&& after.session.tools == window.session.tools
            &&& after.session.annotations == window.session.annotations
            &&& after.session.region == window.session.region
            &&& after.session.content.texture == window.session.content.texture
            &&& after.session.content.rendered == window.session.content.rendered
            &&& after.session.content.has_document == window.session.content.has_document
            &&& after.session.content.has_neighbors == window.session.content.has_neighbors
            &&& after.session.animation == window.session.animation
            &&& after.session.flags == (Flags {
                comparison_scheduled: false,
                ..window.session.flags
            })
            &&& after.session.pending_discard == window.session.pending_discard
            &&& after.session.generations.load == window.session.generations.load
            &&& after.files.current == window.files.current
            &&& after.files.requested_comparison == window.files.requested_comparison
            &&& after.files.pending_comparison == window.files.pending_comparison
        }),
{
    reveal(WindowView::exit_compare);
}

/// A comparison shows the requested file, locked to the primary one, and no
/// tool that places shapes is active in it.
pub proof fn comparisons_show_the_requested_file(window: WindowView)
    requires
        window.session.content.texture is Some,
    ensures
        ({
            let after = window.enter_compare();
            &&& after.session.comparison.active
            &&& after.session.comparison.locked
            &&& after.files.comparison == window.files.requested_comparison
            &&& !after.session.tools.tool.spec_is_vector_annotation()
        }),
{
    let alone = window.exit_compare();
    leaving_forgets_the_comparison(window, true);
    reveal(WindowView::open_comparison);
    if window.session.tools.tool.spec_is_vector_annotation() {
        changing_tools_ends_what_was_begun(alone, alone.requested_tool(Tool::Idle));
    }
}

/// Only the file that was requested last is compared with: the load of an
/// earlier one changes nothing.
pub proof fn superseded_comparisons_are_ignored(
    window: WindowView,
    file: LocationView,
    loaded: bool,
)
    ensures
        ({
            let requested = window.load_comparison(file);
            requested.comparison_loaded(
                window.session.generations.load,
                window.session.generations.comparison,
                loaded,
            ) == requested
        }),
        window.load_comparison(file).files.requested_comparison == Some(file),
{
}

/// Laying the panels out ends: once the divider is in the middle and both
/// panels have a size, the pictures are fitted and nothing is left to do.
pub proof fn layout_ends(window: WindowView, layout: PanelLayout)
    requires
        spec_usable_panel_size(layout.size),
        spec_usable_panel_size(layout.primary),
        spec_usable_panel_size(layout.comparison),
        layout.position == centered_divider(layout),
    ensures
        window.layout_compare_panels(layout).1 == LayoutStep::Done,
{
}

/// A comparison file that was renamed is followed to its new place, whether or
/// not there is a file at the old one again.
pub proof fn renamed_comparisons_are_followed(
    window: WindowView,
    file: LocationView,
    target: LocationView,
    event: MonitorEvent,
    current_exists: bool,
)
    requires
        window.files.comparison == Some(file),
        moves_away(event),
        !window.session.flags.comparison_scheduled,
    ensures
        ({
            let told = window.comparison_file_changed(file, Some(target), event);
            let generation = window.session.generations.comparison;
            let followed = told.comparison_refresh_due(generation, true, current_exists);
            &&& told.effects == window.effects.push(
                Effect::ScheduleComparisonRefresh { generation },
            )
            &&& followed.files.requested_comparison == Some(target)
            &&& followed.files.comparison_renamed_to is None
        }),
{
}

} // verus!
