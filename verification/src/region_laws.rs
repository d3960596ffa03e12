//! What is done with a region of the image, and what is shown of it.

use crate::actions::Action;
use crate::asking::{asks_for, asks_just, edits_at, edits_just, edits_nothing};
use crate::effect::{Announcement, Effect, Notice, Operation};
use crate::keyboard::KeyboardTool;
use crate::region::{
    resize_cursor_name, spec_boundary_overlay, spec_selection_overlay, CropOverlay, Edges,
    SelectionDrag,
};
use crate::selection::{marked_region, resized};
use crate::tool::Tool;
use crate::window::{RegionDrag, WindowView};
use vstd::prelude::*;

verus! {

/// Whether a region is selected and shown, and its actions are on offer; or none is.
pub open spec fn shows_region(
    before: WindowView,
    after: WindowView,
    region: Option<CropOverlay>,
) -> bool {
    &&& after.session.region.selection == region
    &&& asks_for(before, after, Effect::ShowCropOverlay(region))
    &&& asks_for(before, after, Effect::EnableSelectionActions(region is Some))
    &&& !asks_for(before, after, Effect::EnableSelectionActions(region is None))
}

/// A region that is selected is shown, and its actions are offered just then.
pub proof fn selected_regions_are_shown(window: WindowView, region: Option<CropOverlay>)
    ensures
        shows_region(window, window.set_region_selection(region), region),
        edits_nothing(window, window.set_region_selection(region)),
        window.set_region_selection(region).session.region.drag == window.session.region.drag,
        ({
            let cleared = window.clear_region_selection();
            &&& shows_region(window, cleared, None)
            &&& cleared.session.region.drag is None
        }),
{
    let place = window.effects.len() as int;
    let set = window.set_region_selection(region);
    assert(set.effects[place] == Effect::ShowCropOverlay(region));
    assert(set.effects[place + 1] == Effect::EnableSelectionActions(region is Some));
    let cleared = window.clear_region_selection();
    assert(cleared.effects[place] == Effect::ShowCropOverlay(None));
    assert(cleared.effects[place + 1] == Effect::EnableSelectionActions(false));
}

/// To crop is to cut the image to just the selected region, once; the region is
/// then no longer selected. Without the region tool or a region nothing is cut.
pub proof fn images_are_cropped_to_the_region(window: WindowView, region: CropOverlay)
    ensures
        window.session.content.has_document && window.session.tools.tool == Tool::Select
            && window.session.region.selection == Some(region) ==> {
            let after = window.activate(Action::SelectionCrop);
            &&& edits_just(
                window,
                after,
                Operation::Crop {
                    x: region.x,
                    y: region.y,
                    width: region.width,
                    height: region.height,
                },
            )
            &&& shows_region(window, after, None)
            &&& after.session.region.drag is None
        },
        window.session.region.selection is None || window.session.tools.tool != Tool::Select
            ==> window.activate(Action::SelectionCrop) == window,
{
    reveal(WindowView::editing_action);
    if window.session.content.has_document && window.session.tools.tool == Tool::Select
        && window.session.region.selection == Some(region) {
        let operation = Operation::Crop {
            x: region.x,
            y: region.y,
            width: region.width,
            height: region.height,
        };
        let after = window.activate(Action::SelectionCrop);
        let place = window.effects.len() as int;
        assert(edits_at(window, after, place, operation));
        assert(after.effects[after.effects.len() - 2] == Effect::ShowCropOverlay(None));
        assert(after.effects[after.effects.len() - 1] == Effect::EnableSelectionActions(false));
    }
}

/// To copy is to copy the selected region of what is shown, or the whole image
/// where none is selected; without an image that is told. What no longer lies on
/// the image that is shown is not copied.
pub proof fn copies_are_of_the_region_or_the_image(window: WindowView, region: CropOverlay)
    ensures
        ({
            let shown = region.width > 0 && region.height > 0 && window.session.content.texture
                == Some((region.image_width, region.image_height));
            let whole = window.activate(Action::CopyImage);
            let part = window.activate(Action::SelectionCopy);
            let selected = window.session.region.selection == Some(region);
            &&& selected && shown ==> asks_just(window, whole, seq![Effect::CopyRegion(region)])
                && asks_just(window, part, seq![Effect::CopyRegion(region)])
            &&& selected && !shown ==> whole == window && part == window
        }),
        window.session.region.selection is None ==> {
            let whole = window.activate(Action::CopyImage);
            &&& window.activate(Action::SelectionCopy) == window
            &&& window.session.content.texture matches Some(size) ==> asks_just(
                window,
                whole,
                seq![Effect::CopyImage { width: size.0, height: size.1 }],
            )
            &&& window.session.content.texture is None ==> asks_just(
                window,
                whole,
                seq![Effect::Notify(Notice::OpenImageFirst)],
            )
        },
{
    reveal(WindowView::file_action);
    let whole = window.activate(Action::CopyImage);
    let part = window.activate(Action::SelectionCopy);
    if window.session.region.selection is Some {
        if window.region_is_shown() {
            let copied = window.session.region.selection->0;
            assert(whole.effects =~= window.effects + seq![Effect::CopyRegion(copied)]);
            assert(part.effects =~= window.effects + seq![Effect::CopyRegion(copied)]);
        }
    } else if window.session.content.texture is Some {
        let size = window.session.content.texture->0;
        assert(whole.effects =~= window.effects + seq![
            Effect::CopyImage { width: size.0, height: size.1 },
        ]);
    } else {
        assert(whole.effects =~= window.effects + seq![Effect::Notify(Notice::OpenImageFirst)]);
    }
}

/// A press on an edge of the selected region takes hold of that edge; one beside it
/// begins a new region at its corner, and the region before is no longer selected.
/// Without the region tool a press is left alone.
pub proof fn presses_begin_regions(
    window: WindowView,
    edges: Edges,
    corner: (u32, u32),
    size: (u32, u32),
)
    ensures
        ({
            let held = edges.left || edges.right || edges.top || edges.bottom;
            let selects = window.session.tools.tool == Tool::Select;
            let after = window.region_pressed(edges, Some(corner));
            &&& selects && held && window.session.region.selection is Some ==> {
                &&& after.session.region.drag == Some(
                    RegionDrag::Resizing { crop: window.session.region.selection->0, edges },
                )
                &&& after.session.region.selection == window.session.region.selection
                &&& after.effects == window.effects
            }
            &&& selects && (!held || window.session.region.selection is None)
                && window.session.content.rendered == Some(size) ==> {
                &&& after.session.region.drag == Some(
                    RegionDrag::Marking(
                        SelectionDrag { start: corner, current: corner, image_dimensions: size },
                    ),
                )
                &&& shows_region(window, after, None)
                &&& asks_for(window, after, Effect::FocusCanvas)
            }
            &&& !selects ==> after == window
        }),
        window.session.region.selection is None ==> window.region_pressed(edges, None) == window,
{
    let after = window.region_pressed(edges, Some(corner));
    let place = window.effects.len() as int;
    if window.press_marks(edges, Some(corner)) {
        assert(after.effects[place] == Effect::FocusCanvas);
        assert(after.effects[place + 1] == Effect::ShowCropOverlay(None));
        assert(after.effects[place + 2] == Effect::EnableSelectionActions(false));
    }
}

/// A region that is being marked spans from where it began to where the pointer is,
/// while it moves and when it is let go, and what is selected then is announced with
/// its size. One that holds no pixel is none, and neither is one that is given up.
pub proof fn marked_regions_follow_the_pointer(
    window: WindowView,
    marking: SelectionDrag,
    corner: (u32, u32),
)
    requires
        window.session.region.drag == Some(RegionDrag::Marking(marking)),
    ensures
        ({
            let region = marked_region(SelectionDrag { current: corner, ..marking });
            let moved = window.region_moved(Some(corner));
            let released = window.region_released(Some(corner));
            &&& shows_region(window, moved, region)
            &&& moved.session.region.drag == Some(
                RegionDrag::Marking(SelectionDrag { current: corner, ..marking }),
            )
            &&& released.session.region.selection == region
            &&& released.session.region.drag is None
            &&& region matches Some(marked) ==> released.effects.last() == Effect::Announce(
                Announcement::RegionSelected { width: marked.width, height: marked.height },
            )
            &&& asks_for(window, released, Effect::ShowCropOverlay(region))
            &&& region is Some <==> corner.0 != marking.start.0 && corner.1 != marking.start.1
            &&& window.region_released(None).session.region.selection == marked_region(marking)
            &&& window.region_moved(None) == window
            &&& shows_region(window, window.region_drag_cancelled(), None)
            &&& window.region_drag_cancelled().session.region.drag is None
        }),
{
    let region = marked_region(SelectionDrag { current: corner, ..marking });
    let place = window.effects.len() as int;
    let moved = window.region_moved(Some(corner));
    assert(moved.effects[place] == Effect::ShowCropOverlay(region));
    assert(moved.effects[place + 1] == Effect::EnableSelectionActions(region is Some));
    let released = window.region_released(Some(corner));
    assert(released.effects[place] == Effect::ShowCropOverlay(region));
    let cancelled = window.region_drag_cancelled();
    assert(cancelled.effects[place] == Effect::ShowCropOverlay(None));
    assert(cancelled.effects[place + 1] == Effect::EnableSelectionActions(false));
}

/// A region whose edges are held has those edges where the pointer is, while it
/// moves and when it is let go; a drag that is given up puts the region back.
pub proof fn resized_regions_follow_the_pointer(
    window: WindowView,
    crop: CropOverlay,
    edges: Edges,
    corner: (u32, u32),
)
    requires
        window.session.region.drag == Some(RegionDrag::Resizing { crop, edges }),
    ensures
        ({
            let region = resized(crop, edges, corner);
            let moved = window.region_moved(Some(corner));
            let released = window.region_released(Some(corner));
            let cancelled = window.region_drag_cancelled();
            &&& shows_region(window, moved, Some(region))
            &&& moved.session.region.drag == window.session.region.drag
            &&& shows_region(window, released, Some(region))
            &&& released.session.region.drag is None
            &&& shows_region(window, cancelled, Some(crop))
            &&& cancelled.session.region.drag is None
        }),
{
    let region = resized(crop, edges, corner);
    let place = window.effects.len() as int;
    let moved = window.region_moved(Some(corner));
    assert(moved.effects[place] == Effect::ShowCropOverlay(Some(region)));
    assert(moved.effects[place + 1] == Effect::EnableSelectionActions(true));
    let released = window.region_released(Some(corner));
    assert(released.effects[place] == Effect::ShowCropOverlay(Some(region)));
    assert(released.effects[place + 1] == Effect::EnableSelectionActions(true));
    let cancelled = window.region_drag_cancelled();
    assert(cancelled.effects[place] == Effect::ShowCropOverlay(Some(crop)));
    assert(cancelled.effects[place + 1] == Effect::EnableSelectionActions(true));
}

/// An edge that is held moves to the pointer wherever that leaves a pixel inside
/// the image, and the opposite edge stays; an edge that is not held stays.
pub proof fn held_edges_move_alone(crop: CropOverlay, corner: (u32, u32), edges: Edges)
    requires
        crop.inside_image(),
    ensures
        ({
            let left = Edges { left: true, right: false, top: false, bottom: false };
            let right = Edges { left: false, right: true, top: false, bottom: false };
            let top = Edges { left: false, right: false, top: true, bottom: false };
            let bottom = Edges { left: false, right: false, top: false, bottom: true };
            let at_left = resized(crop, left, corner);
            let at_right = resized(crop, right, corner);
            let at_top = resized(crop, top, corner);
            let at_bottom = resized(crop, bottom, corner);
            &&& corner.0 < crop.x + crop.width ==> at_left.x == corner.0
            &&& at_left.x + at_left.width == crop.x + crop.width
            &&& at_left.y == crop.y && at_left.height == crop.height
            &&& crop.x < corner.0 <= crop.image_width ==> at_right.x + at_right.width == corner.0
            &&& at_right.x == crop.x
            &&& at_right.y == crop.y && at_right.height == crop.height
            &&& corner.1 < crop.y + crop.height ==> at_top.y == corner.1
            &&& at_top.y + at_top.height == crop.y + crop.height
            &&& at_top.x == crop.x && at_top.width == crop.width
            &&& crop.y < corner.1 <= crop.image_height ==> at_bottom.y + at_bottom.height
                == corner.1
            &&& at_bottom.y == crop.y
            &&& at_bottom.x == crop.x && at_bottom.width == crop.width
        }),
        resized(crop, edges, corner).image_width == crop.image_width,
        resized(crop, edges, corner).image_height == crop.image_height,
{
}

/// A region between two corners begins at the lower of them and is as long as they
/// are apart, on both sides.
pub proof fn marked_regions_span_their_corners(
    start: (u32, u32),
    current: (u32, u32),
    size: (u32, u32),
)
    ensures
        ({
            let region = spec_boundary_overlay(start, current, size);
            &&& region.x <= start.0 <= region.x + region.width
            &&& region.x <= current.0 <= region.x + region.width
            &&& region.y <= start.1 <= region.y + region.height
            &&& region.y <= current.1 <= region.y + region.height
            &&& region.width == start.0 - current.0 || region.width == current.0 - start.0
            &&& region.height == start.1 - current.1 || region.height == current.1 - start.1
            &&& region.image_width == size.0
            &&& region.image_height == size.1
        }),
{
}

/// A region between two pixels holds both of them and is no longer than it must be:
/// it begins with one and ends with one, on both sides.
pub proof fn pixel_regions_end_at_their_pixels(
    start: (u32, u32),
    current: (u32, u32),
    size: (u32, u32),
)
    requires
        start.0 < size.0,
        start.1 < size.1,
        current.0 < size.0,
        current.1 < size.1,
    ensures
        spec_selection_overlay(SelectionDrag { start, current, image_dimensions: size }) matches Some(
            region,
        ) && {
            &&& region.x == start.0 || region.x == current.0
            &&& region.y == start.1 || region.y == current.1
            &&& region.x + region.width == start.0 + 1 || region.x + region.width == current.0 + 1
            &&& region.y + region.height == start.1 + 1 || region.y + region.height == current.1 + 1
            &&& region.x <= start.0 < region.x + region.width
            &&& region.x <= current.0 < region.x + region.width
            &&& region.y <= start.1 < region.y + region.height
            &&& region.y <= current.1 < region.y + region.height
        },
{
}

/// Two points that are set by keyboard select the region between their pixels, and
/// that is announced with its size.
pub proof fn points_select_and_announce(
    window: WindowView,
    first: (u32, u32),
    second: (u32, u32),
    size: (u32, u32),
    id: crate::effect::AnnotationId,
)
    requires
        window.session.tools.tool == Tool::Select,
        window.session.content.rendered == Some(size),
        window.session.aim.anchor == Some(first),
        first.0 < size.0,
        first.1 < size.1,
        second.0 < size.0,
        second.1 < size.1,
    ensures
        ({
            let after = window.act_at(KeyboardTool::Select, second, id);
            let region = spec_selection_overlay(
                SelectionDrag { start: first, current: second, image_dimensions: size },
            );
            &&& region is Some
            &&& after.session.region.selection == region
            &&& after.session.aim.anchor is None
            &&& asks_for(window, after, Effect::ShowCropOverlay(region))
            &&& after.effects.last() == Effect::Announce(
                Announcement::RegionSelected {
                    width: region->0.width,
                    height: region->0.height,
                },
            )
        }),
{
    reveal(WindowView::act_at);
    let after = window.act_at(KeyboardTool::Select, second, id);
    let region = spec_selection_overlay(
        SelectionDrag { start: first, current: second, image_dimensions: size },
    );
    assert(after.effects[window.effects.len() as int] == Effect::ShowCropOverlay(region));
}

/// The pointer shows which way an edge can be dragged: a corner along its diagonal,
/// a side across itself. The lens hides it, and only the region tool shapes it.
pub proof fn pointers_show_the_way(window: WindowView, edges: Edges)
    ensures
        edges.left && edges.top && !edges.right && !edges.bottom ==> resize_cursor_name(edges)
            == "nwse-resize"@,
        edges.right && edges.bottom && !edges.left && !edges.top ==> resize_cursor_name(edges)
            == "nwse-resize"@,
        edges.right && edges.top && !edges.left && !edges.bottom ==> resize_cursor_name(edges)
            == "nesw-resize"@,
        edges.left && edges.bottom && !edges.right && !edges.top ==> resize_cursor_name(edges)
            == "nesw-resize"@,
        (edges.left || edges.right) && !edges.top && !edges.bottom ==> resize_cursor_name(edges)
            == "ew-resize"@,
        (edges.top || edges.bottom) && !edges.left && !edges.right ==> resize_cursor_name(edges)
            == "ns-resize"@,
        !edges.left && !edges.right && !edges.top && !edges.bottom ==> resize_cursor_name(edges)
            == "default"@,
        window.session.comparison.lens_active ==> window.region_hover(Some(edges)) == Some("none"@),
        !window.session.comparison.lens_active && window.session.tools.tool != Tool::Select
            ==> window.region_hover(Some(edges)) is None,
        !window.session.comparison.lens_active && window.session.tools.tool == Tool::Select ==> {
            &&& window.region_hover(Some(edges)) == Some(resize_cursor_name(edges))
            &&& window.region_hover(None) == Some("crosshair"@)
        },
{
}

} // verus!
