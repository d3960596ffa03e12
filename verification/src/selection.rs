//! The region tool: marking, resizing, cropping and copying a region.

use crate::effect::{Effect, Notice, Operation};
use crate::region::{
    boundary_overlay, region_resize_cursor, resize_cursor_name, resize_region, resized_span,
    resizing_stays_inside, spec_boundary_overlay, CropOverlay, Edges, SelectionDrag,
};
use crate::tool::Tool;
use crate::window::{Region, RegionDrag, ViewerWindow, WindowView};
use vstd::prelude::*;

verus! {

/// Whether a corner of the pixel grid lies on an image of that size.
pub open spec fn corner_on_image(corner: (u32, u32), dimensions: (u32, u32)) -> bool {
    corner.0 <= dimensions.0 && corner.1 <= dimensions.1
}

impl Region {
    /// Every region that is selected, or being resized, lies inside its image.
    pub open spec fn well_formed(self) -> bool {
        &&& self.selection matches Some(crop) ==> crop.inside_image()
        &&& match self.drag {
            Some(RegionDrag::Marking(marking)) => corner_on_image(
                marking.start,
                marking.image_dimensions,
            ) && corner_on_image(marking.current, marking.image_dimensions),
            Some(RegionDrag::Resizing { crop, .. }) => crop.inside_image(),
            None => true,
        }
    }

    /// Whether every region that is selected, or being resized, lies inside its
    /// image.
    pub fn is_well_formed(self) -> (sound: bool)
        ensures
            sound == self.well_formed(),
    {
        let selection = match self.selection {
            Some(crop) => crop.is_inside_image(),
            None => true,
        };
        let drag = match self.drag {
            Some(RegionDrag::Marking(marking)) => {
                let (width, height) = marking.image_dimensions;
                marking.start.0 <= width && marking.start.1 <= height && marking.current.0 <= width
                    && marking.current.1 <= height
            },
            Some(RegionDrag::Resizing { crop, .. }) => crop.is_inside_image(),
            None => true,
        };
        selection && drag
    }

    /// Whether the corner that the pointer is at lies on the marked image.
    pub open spec fn corner_fits(self, corner: Option<(u32, u32)>) -> bool {
        (self.drag matches Some(RegionDrag::Marking(marking)) && corner is Some)
            ==> corner_on_image(corner->0, self.drag->0->Marking_0.image_dimensions)
    }
}

/// The region between two corners, where it holds a pixel.
pub open spec fn marked_region(marking: SelectionDrag) -> Option<CropOverlay> {
    let overlay = spec_boundary_overlay(marking.start, marking.current, marking.image_dimensions);
    if overlay.width > 0 && overlay.height > 0 {
        Some(overlay)
    } else {
        None
    }
}

fn region_of_marking(marking: SelectionDrag) -> (region: Option<CropOverlay>)
    ensures
        region == marked_region(marking),
{
    let overlay = boundary_overlay(marking.start, marking.current, marking.image_dimensions);
    if overlay.width > 0 && overlay.height > 0 {
        Some(overlay)
    } else {
        None
    }
}

/// A region with some of its edges dragged to a corner.
pub open spec fn resized(crop: CropOverlay, edges: Edges, corner: (u32, u32)) -> CropOverlay {
    let across = resized_span(
        crop.x as int,
        crop.width as int,
        crop.image_width as int,
        corner.0 as int,
        edges.left,
        edges.right,
    );
    let down = resized_span(
        crop.y as int,
        crop.height as int,
        crop.image_height as int,
        corner.1 as int,
        edges.top,
        edges.bottom,
    );
    CropOverlay {
        x: across.0 as u32,
        width: across.1 as u32,
        y: down.0 as u32,
        height: down.1 as u32,
        ..crop
    }
}

/// A region inside its image stays inside it whichever edges are dragged
/// wherever.
pub proof fn resized_regions_stay_inside(crop: CropOverlay, edges: Edges, corner: (u32, u32))
    requires
        crop.inside_image(),
    ensures
        resized(crop, edges, corner).inside_image(),
{
    resizing_stays_inside(
        crop.x,
        crop.width,
        crop.image_width,
        corner.0,
        edges.left,
        edges.right,
    );
    resizing_stays_inside(
        crop.y,
        crop.height,
        crop.image_height,
        corner.1,
        edges.top,
        edges.bottom,
    );
}

fn resize(crop: CropOverlay, edges: Edges, corner: (u32, u32)) -> (region: CropOverlay)
    requires
        crop.inside_image(),
    ensures
        region == resized(crop, edges, corner),
        region.inside_image(),
{
    proof {
        resizing_stays_inside(
            crop.x,
            crop.width,
            crop.image_width,
            corner.0,
            edges.left,
            edges.right,
        );
        resizing_stays_inside(
            crop.y,
            crop.height,
            crop.image_height,
            corner.1,
            edges.top,
            edges.bottom,
        );
    }
    resize_region(crop, corner.0, corner.1, edges)
}

impl WindowView {
    /// Whether a press takes hold of the selected region's edges.
    pub open spec fn press_resizes(self, edges: Edges) -> bool {
        self.session.tools.tool == Tool::Select && self.session.region.selection is Some
            && edges.spec_any()
    }

    /// Whether a press starts to mark a region.
    pub open spec fn press_marks(self, edges: Edges, corner: Option<(u32, u32)>) -> bool {
        &&& self.session.tools.tool == Tool::Select
        &&& !self.press_resizes(edges)
        &&& corner is Some
        &&& self.session.content.rendered is Some
    }

    /// The window with the edges of a region in the hand of the pointer.
    pub open spec fn begin_resizing(self, crop: CropOverlay, edges: Edges) -> WindowView {
        self.with_region(
            Region {
                drag: Some(RegionDrag::Resizing { crop, edges }),
                ..self.session.region
            },
        )
    }

    /// The window with a region being marked from a corner.
    pub open spec fn begin_marking(self, start: (u32, u32), size: (u32, u32)) -> WindowView {
        self.with_region(
            Region {
                drag: Some(
                    RegionDrag::Marking(
                        SelectionDrag { start, current: start, image_dimensions: size },
                    ),
                ),
                ..self.session.region
            },
        ).emit(Effect::FocusCanvas).set_region_selection(None)
    }

    /// The window after a press of the region tool.
    pub open spec fn region_pressed(
        self,
        edges: Edges,
        corner: Option<(u32, u32)>,
    ) -> WindowView {
        if self.press_resizes(edges) {
            self.begin_resizing(self.session.region.selection->0, edges)
        } else if self.press_marks(edges, corner) {
            self.begin_marking(corner->0, self.session.content.rendered->0)
        } else {
            self
        }
    }

    /// The window after the pointer of the region tool moved to a corner.
    pub open spec fn region_moved(self, corner: Option<(u32, u32)>) -> WindowView {
        match (self.session.region.drag, corner) {
            (Some(RegionDrag::Marking(marking)), Some(current)) => {
                let moved = SelectionDrag { current, ..marking };
                self.with_region(
                    Region { drag: Some(RegionDrag::Marking(moved)), ..self.session.region },
                ).set_region_selection(marked_region(moved))
            },
            (
                Some(RegionDrag::Resizing { crop, edges }),
                Some(current),
            ) => self.set_region_selection(Some(resized(crop, edges, current))),
            _ => self,
        }
    }

    /// The window with no pointer on its region.
    pub open spec fn end_region_drag(self) -> WindowView {
        self.with_region(Region { drag: None, ..self.session.region })
    }

    /// The window after the pointer of the region tool was let go.
    pub open spec fn region_released(self, corner: Option<(u32, u32)>) -> WindowView {
        match self.session.region.drag {
            None => self,
            Some(RegionDrag::Marking(marking)) => self.end_region_drag().region_marked(
                marked_region(
                    match corner {
                        Some(current) => SelectionDrag { current, ..marking },
                        None => marking,
                    },
                ),
            ),
            Some(RegionDrag::Resizing { crop, edges }) => match corner {
                Some(current) => self.end_region_drag().set_region_selection(
                    Some(resized(crop, edges, current)),
                ),
                None => self.end_region_drag(),
            },
        }
    }

    /// The window after a drag of the region tool was given up.
    pub open spec fn region_drag_cancelled(self) -> WindowView {
        match self.session.region.drag {
            None => self,
            Some(RegionDrag::Marking(_)) => self.end_region_drag().set_region_selection(None),
            Some(RegionDrag::Resizing { crop, .. }) => self.end_region_drag().set_region_selection(
                Some(crop),
            ),
        }
    }

    /// The window with its image cropped to the selected region.
    pub open spec fn crop_selected_region(self) -> WindowView {
        match self.session.region.selection {
            Some(crop) if self.session.tools.tool == Tool::Select => self.apply(
                Operation::Crop { x: crop.x, y: crop.y, width: crop.width, height: crop.height },
            ).clear_region_selection(),
            _ => self,
        }
    }

    /// Whether the selected region can be copied from what is shown.
    pub open spec fn region_is_shown(self) -> bool {
        self.session.region.selection matches Some(crop) && {
            &&& crop.width > 0
            &&& crop.height > 0
            &&& self.session.content.texture == Some((crop.image_width, crop.image_height))
        }
    }

    /// The window with its selected region copied.
    pub open spec fn copy_selected_region(self) -> WindowView {
        self.emit_if(
            self.region_is_shown(),
            Effect::CopyRegion(self.session.region.selection->0),
        )
    }

    /// The window with its selected region copied, or else its image.
    pub open spec fn copy_selection_or_image(self) -> WindowView {
        if self.session.region.selection is Some {
            self.copy_selected_region()
        } else {
            match self.session.content.texture {
                Some(size) => self.emit(Effect::CopyImage { width: size.0, height: size.1 }),
                None => self.emit(Effect::Notify(Notice::OpenImageFirst)),
            }
        }
    }

    /// The pointer's shape over the region tool, by name.
    pub open spec fn region_hover(self, edges: Option<Edges>) -> Option<Seq<char>> {
        if self.session.comparison.lens_active {
            Some("none"@)
        } else if self.session.tools.tool != Tool::Select {
            None
        } else {
            match edges {
                Some(edges) => Some(resize_cursor_name(edges)),
                None => Some("crosshair"@),
            }
        }
    }
}

impl ViewerWindow {
    fn begin_resizing(&mut self, crop: CropOverlay, edges: Edges)
        ensures
            final(self)@ == old(self)@.begin_resizing(crop, edges),
    {
        self.session.region = Region {
            drag: Some(RegionDrag::Resizing { crop, edges }),
            ..self.session.region
        };
    }

    fn begin_marking(&mut self, start: (u32, u32), size: (u32, u32))
        ensures
            final(self)@ == old(self)@.begin_marking(start, size),
    {
        let marking = SelectionDrag { start, current: start, image_dimensions: size };
        self.session.region = Region {
            drag: Some(RegionDrag::Marking(marking)),
            ..self.session.region
        };
        self.emit(Effect::FocusCanvas);
        self.set_region_selection(None);
    }

    /// Takes hold of the selected region's edges, or starts to mark a region.
    /// `edges` are those that the press is on; `corner` is the corner of the
    /// pixel grid that it is at. Tells whether the press is claimed.
    pub fn region_pressed(&mut self, edges: Edges, corner: Option<(u32, u32)>) -> (claimed: bool)
        ensures
            claimed == (old(self)@.press_resizes(edges) || old(self)@.press_marks(edges, corner)),
            final(self)@ == old(self)@.region_pressed(edges, corner),
    {
        if !matches!(self.session.tools.tool, Tool::Select) {
            return false;
        }
        if edges.any() {
            if let Some(crop) = self.session.region.selection {
                self.begin_resizing(crop, edges);
                return true;
            }
        }
        match (corner, self.session.content.rendered) {
            (Some(start), Some(size)) => {
                self.begin_marking(start, size);
                true
            },
            _ => false,
        }
    }

    /// Follows the pointer to a corner of the pixel grid.
    pub fn region_moved(&mut self, corner: Option<(u32, u32)>)
        requires
            old(self)@.session.region.well_formed(),
        ensures
            final(self)@ == old(self)@.region_moved(corner),
    {
        match (self.session.region.drag, corner) {
            (Some(RegionDrag::Marking(marking)), Some(current)) => {
                let moved = SelectionDrag { current, ..marking };
                self.session.region = Region {
                    drag: Some(RegionDrag::Marking(moved)),
                    ..self.session.region
                };
                self.set_region_selection(region_of_marking(moved));
            },
            (Some(RegionDrag::Resizing { crop, edges }), Some(current)) => {
                self.set_region_selection(Some(resize(crop, edges, current)));
            },
            _ => {},
        }
    }

    /// Lets go of the region at a corner of the pixel grid.
    pub fn region_released(&mut self, corner: Option<(u32, u32)>)
        requires
            old(self)@.session.region.well_formed(),
        ensures
            final(self)@ == old(self)@.region_released(corner),
    {
        let drag = match self.session.region.drag {
            None => {
                return;
            },
            Some(drag) => drag,
        };
        self.session.region = Region { drag: None, ..self.session.region };
        match drag {
            RegionDrag::Marking(marking) => {
                let marking = match corner {
                    Some(current) => SelectionDrag { current, ..marking },
                    None => marking,
                };
                self.region_marked(region_of_marking(marking));
            },
            RegionDrag::Resizing { crop, edges } => {
                if let Some(current) = corner {
                    self.set_region_selection(Some(resize(crop, edges, current)));
                }
            },
        }
    }

    /// Gives a drag up: a marked region is gone, a resized one as it was.
    pub fn region_drag_cancelled(&mut self)
        ensures
            final(self)@ == old(self)@.region_drag_cancelled(),
    {
        let drag = match self.session.region.drag {
            None => {
                return;
            },
            Some(drag) => drag,
        };
        self.session.region = Region { drag: None, ..self.session.region };
        match drag {
            RegionDrag::Marking(_) => self.set_region_selection(None),
            RegionDrag::Resizing { crop, .. } => self.set_region_selection(Some(crop)),
        }
    }

    /// Crops the image to the selected region.
    pub fn crop_selected_region(&mut self)
        ensures
            final(self)@ == old(self)@.crop_selected_region(),
    {
        if !matches!(self.session.tools.tool, Tool::Select) {
            return;
        }
        if let Some(crop) = self.session.region.selection {
            self.apply(
                Operation::Crop { x: crop.x, y: crop.y, width: crop.width, height: crop.height },
            );
            self.clear_region_selection();
        }
    }

    /// Copies the selected region, where it is what is shown.
    pub fn copy_selected_region(&mut self)
        ensures
            final(self)@ == old(self)@.copy_selected_region(),
    {
        if let (Some(crop), Some(size)) = (
            self.session.region.selection,
            self.session.content.texture,
        ) {
            if crop.width > 0 && crop.height > 0 && size.0 == crop.image_width && size.1
                == crop.image_height {
                self.emit(Effect::CopyRegion(crop));
            }
        }
    }

    /// Copies the selected region, or the image where none is selected.
    pub fn copy_selection_or_image(&mut self)
        ensures
            final(self)@ == old(self)@.copy_selection_or_image(),
    {
        if self.session.region.selection.is_some() {
            self.copy_selected_region();
            return;
        }
        match self.session.content.texture {
            Some(size) => self.emit(Effect::CopyImage { width: size.0, height: size.1 }),
            None => self.emit(Effect::Notify(Notice::OpenImageFirst)),
        }
    }

    /// The pointer's shape over the picture, by name, where the region tool or
    /// the lens has a say. `edges` are those of the selected region that the
    /// pointer is over.
    pub fn region_hover(&self, edges: Option<Edges>) -> (name: Option<&'static str>)
        ensures
            match name {
                Some(name) => self@.region_hover(edges) == Some(name@),
                None => self@.region_hover(edges) is None,
            },
    {
        if self.session.comparison.lens_active {
            return Some("none");
        }
        if !matches!(self.session.tools.tool, Tool::Select) {
            return None;
        }
        match edges {
            Some(edges) => Some(region_resize_cursor(edges)),
            None => Some("crosshair"),
        }
    }
}

/// Every step of the region tool keeps the selected region inside the image,
/// as long as the pointer is followed to corners on the image.
pub proof fn regions_stay_inside(
    window: WindowView,
    edges: Edges,
    corner: Option<(u32, u32)>,
)
    requires
        window.session.region.well_formed(),
        window.session.region.corner_fits(corner),
    ensures
        (corner is Some && window.session.content.rendered is Some ==> corner_on_image(
            corner->0,
            window.session.content.rendered->0,
        )) ==> window.region_pressed(edges, corner).session.region.well_formed(),
        window.region_moved(corner).session.region.well_formed(),
        window.region_released(corner).session.region.well_formed(),
        window.region_drag_cancelled().session.region.well_formed(),
        window.crop_selected_region().session.region.well_formed(),
        window.clear_region_selection().session.region.well_formed(),
{
    if let (Some(RegionDrag::Resizing { crop, edges }), Some(current)) = (
        window.session.region.drag,
        corner,
    ) {
        resized_regions_stay_inside(crop, edges, current);
    }
}

/// A region that is marked in one drag is the one between the corners where
/// the drag began and ended.
pub proof fn marking_spans_the_drag(
    window: WindowView,
    start: (u32, u32),
    end: (u32, u32),
    size: (u32, u32),
    edges: Edges,
)
    requires
        window.session.tools.tool == Tool::Select,
        window.session.content.rendered == Some(size),
        !window.press_resizes(edges),
        start.0 != end.0,
        start.1 != end.1,
    ensures
        ({
            let pressed = window.region_pressed(edges, Some(start));
            let released = pressed.region_moved(Some(end)).region_released(Some(end));
            &&& released.session.region.selection == Some(spec_boundary_overlay(start, end, size))
            &&& released.session.region.drag is None
        }),
{
}

/// Giving a resize up leaves the region as it was when it began.
pub proof fn cancelled_resizes_leave_the_region(
    window: WindowView,
    edges: Edges,
    corner: (u32, u32),
)
    requires
        window.press_resizes(edges),
    ensures
        ({
            let dragged = window.region_pressed(edges, None).region_moved(Some(corner));
            let cancelled = dragged.region_drag_cancelled();
            &&& cancelled.session.region.selection == window.session.region.selection
            &&& cancelled.session.region.drag is None
        }),
{
}

/// Copying and zooming keep the region selected; cropping to it does not.
pub proof fn copies_keep_the_region(window: WindowView, crop: CropOverlay)
    requires
        window.session.region.selection == Some(crop),
        window.session.tools.tool == Tool::Select,
    ensures
        window.copy_selection_or_image().session == window.session,
        window.zoom_selected_region().session == window.session,
        window.region_zoom_measured(crop).session.region == window.session.region,
        window.crop_selected_region().session.region.selection is None,
{
}

} // verus!
