//! Rectangles of image pixels: how they are marked and resized.

use vstd::prelude::*;

verus! {

/// A rectangle of pixels and the size of the image that it lies on.
#[derive(Debug, Clone, Copy, PartialEq, Eq, Structural)]
pub struct CropOverlay {
    pub x: u32,
    pub y: u32,
    pub width: u32,
    pub height: u32,
    pub image_width: u32,
    pub image_height: u32,
}

/// The edges of a rectangle that a pointer has hold of.
#[derive(Debug, Clone, Copy, PartialEq, Eq, Structural)]
pub struct Edges {
    pub left: bool,
    pub right: bool,
    pub top: bool,
    pub bottom: bool,
}

/// A rectangle being marked from one pixel to another.
#[derive(Debug, Clone, Copy, PartialEq, Eq)]
pub struct SelectionDrag {
    pub start: (u32, u32),
    pub current: (u32, u32),
    pub image_dimensions: (u32, u32),
}

impl CropOverlay {
    /// Whether the rectangle holds a pixel and no pixel outside the image.
    pub open spec fn inside_image(self) -> bool {
        &&& 1 <= self.width
        &&& 1 <= self.height
        &&& self.x + self.width <= self.image_width
        &&& self.y + self.height <= self.image_height
    }

    /// Whether the rectangle has pixels and lies inside its image.
    pub fn is_inside_image(self) -> (inside: bool)
        ensures
            inside == self.inside_image(),
    {
        1 <= self.width && 1 <= self.height && self.x as u64 + self.width as u64
            <= self.image_width as u64 && self.y as u64 + self.height as u64
            <= self.image_height as u64
    }

    /// Whether the pixel lies in the rectangle.
    pub open spec fn holds(self, pixel: (u32, u32)) -> bool {
        &&& self.x <= pixel.0 < self.x + self.width
        &&& self.y <= pixel.1 < self.y + self.height
    }
}

pub open spec fn smaller(left: int, right: int) -> int {
    if left < right {
        left
    } else {
        right
    }
}

pub open spec fn larger(left: int, right: int) -> int {
    if left < right {
        right
    } else {
        left
    }
}

/// One side of a rectangle after its low end, its high end or both were
/// dragged to `pointer`: where it starts and how long it is. The low end stays
/// short of the high one, the high end behind the low one and inside `limit`.
pub open spec fn resized_span(
    start: int,
    length: int,
    limit: int,
    pointer: int,
    low: bool,
    high: bool,
) -> (int, int) {
    let end = start + length;
    let new_start = if low {
        smaller(pointer, larger(end - 1, 0))
    } else {
        start
    };
    let new_length = if high {
        smaller(larger(pointer - new_start, 1), limit - new_start)
    } else {
        end - new_start
    };
    (new_start, new_length)
}

/// Whether the span can be resized: a dragged low end needs a high end that is
/// a pixel number, a dragged high end needs room inside the limit.
pub open spec fn can_resize_span(
    start: int,
    length: int,
    limit: int,
    pointer: int,
    low: bool,
    high: bool,
) -> bool {
    &&& low ==> start + length <= u32::MAX
    &&& high ==> resized_span(start, length, limit, pointer, low, false).0 < limit
}

fn smaller_of(left: u32, right: u32) -> (value: u32)
    ensures
        value == smaller(left as int, right as int),
{
    if left < right {
        left
    } else {
        right
    }
}

fn larger_of(left: u32, right: u32) -> (value: u32)
    ensures
        value == larger(left as int, right as int),
{
    if left < right {
        right
    } else {
        left
    }
}

fn resize_span(
    start: u32,
    length: u32,
    limit: u32,
    pointer: u32,
    low: bool,
    high: bool,
) -> (span: (u32, u32))
    requires
        can_resize_span(start as int, length as int, limit as int, pointer as int, low, high),
    ensures
        (span.0 as int, span.1 as int) == resized_span(
            start as int,
            length as int,
            limit as int,
            pointer as int,
            low,
            high,
        ),
{
    let mut start: u32 = start;
    let mut length: u32 = length;
    if low {
        let end: u32 = start + length;
        start = smaller_of(pointer, end.saturating_sub(1));
        length = end - start;
    }
    if high {
        length = smaller_of(larger_of(pointer.saturating_sub(start), 1), limit - start);
    }
    (start, length)
}

/// The rectangle after the pointer dragged the given edges to `(x, y)`.
pub fn resize_region(crop: CropOverlay, x: u32, y: u32, edges: Edges) -> (resized: CropOverlay)
    requires
        can_resize_span(
            crop.x as int,
            crop.width as int,
            crop.image_width as int,
            x as int,
            edges.left,
            edges.right,
        ),
        can_resize_span(
            crop.y as int,
            crop.height as int,
            crop.image_height as int,
            y as int,
            edges.top,
            edges.bottom,
        ),
    ensures
        (resized.x as int, resized.width as int) == resized_span(
            crop.x as int,
            crop.width as int,
            crop.image_width as int,
            x as int,
            edges.left,
            edges.right,
        ),
        (resized.y as int, resized.height as int) == resized_span(
            crop.y as int,
            crop.height as int,
            crop.image_height as int,
            y as int,
            edges.top,
            edges.bottom,
        ),
        resized.image_width == crop.image_width,
        resized.image_height == crop.image_height,
{
    let (left, width) = resize_span(
        crop.x,
        crop.width,
        crop.image_width,
        x,
        edges.left,
        edges.right,
    );
    let (top, height) = resize_span(
        crop.y,
        crop.height,
        crop.image_height,
        y,
        edges.top,
        edges.bottom,
    );
    CropOverlay {
        x: left,
        y: top,
        width,
        height,
        image_width: crop.image_width,
        image_height: crop.image_height,
    }
}

/// A span inside its image can be dragged at any end to any place, and stays
/// inside the image with at least one pixel. An end that is not dragged stays
/// where it is.
pub proof fn resizing_stays_inside(
    start: u32,
    length: u32,
    limit: u32,
    pointer: u32,
    low: bool,
    high: bool,
)
    requires
        1 <= length,
        start + length <= limit,
    ensures
        can_resize_span(start as int, length as int, limit as int, pointer as int, low, high),
        ({
            let (new_start, new_length) = resized_span(
                start as int,
                length as int,
                limit as int,
                pointer as int,
                low,
                high,
            );
            &&& 0 <= new_start
            &&& 1 <= new_length
            &&& new_start + new_length <= limit
            &&& !low ==> new_start == start
            &&& !high ==> new_start + new_length == start + length
        }),
{
}

/// Where the dragged edge can follow, it does: a low edge in front of the high
/// one lies at the pointer, and so does a high edge behind the low one.
pub proof fn resizing_follows_the_pointer(
    start: u32,
    length: u32,
    limit: u32,
    pointer: u32,
)
    requires
        1 <= length,
        start + length <= limit,
    ensures
        pointer < start + length ==> resized_span(
            start as int,
            length as int,
            limit as int,
            pointer as int,
            true,
            false,
        ).0 == pointer,
        start < pointer <= limit ==> ({
            let span = resized_span(
                start as int,
                length as int,
                limit as int,
                pointer as int,
                false,
                true,
            );
            span.0 + span.1 == pointer
        }),
{
}

/// Whether a pixel lies in an image of that size.
pub open spec fn pixel_inside(pixel: (u32, u32), dimensions: (u32, u32)) -> bool {
    pixel.0 < dimensions.0 && pixel.1 < dimensions.1
}

/// The rectangle of all pixels from `start` to `current`, both of them in it.
pub open spec fn spec_selection_overlay(drag: SelectionDrag) -> Option<CropOverlay> {
    let x = smaller(drag.start.0 as int, drag.current.0 as int);
    let y = smaller(drag.start.1 as int, drag.current.1 as int);
    if pixel_inside(drag.start, drag.image_dimensions) && pixel_inside(
        drag.current,
        drag.image_dimensions,
    ) {
        Some(
            CropOverlay {
                x: x as u32,
                y: y as u32,
                width: (larger(drag.start.0 as int, drag.current.0 as int) + 1 - x) as u32,
                height: (larger(drag.start.1 as int, drag.current.1 as int) + 1 - y) as u32,
                image_width: drag.image_dimensions.0,
                image_height: drag.image_dimensions.1,
            },
        )
    } else {
        None
    }
}

/// The rectangle of all pixels from `start` to `current`, both of them in it.
/// There is none where either lies outside the image.
pub fn selection_overlay(drag: SelectionDrag) -> (overlay: Option<CropOverlay>)
    ensures
        overlay == spec_selection_overlay(drag),
{
    let (width, height) = drag.image_dimensions;
    if drag.start.0 >= width || drag.start.1 >= height || drag.current.0 >= width || drag.current.1
        >= height {
        return None;
    }
    let x: u32 = smaller_of(drag.start.0, drag.current.0);
    let y: u32 = smaller_of(drag.start.1, drag.current.1);
    Some(
        CropOverlay {
            x,
            y,
            width: larger_of(drag.start.0, drag.current.0) - x + 1,
            height: larger_of(drag.start.1, drag.current.1) - y + 1,
            image_width: width,
            image_height: height,
        },
    )
}

/// A region that is marked from pixel to pixel lies inside the image and holds
/// both pixels, whichever was first.
pub proof fn marked_regions_hold_their_ends(
    start: (u32, u32),
    current: (u32, u32),
    image_dimensions: (u32, u32),
)
    requires
        pixel_inside(start, image_dimensions),
        pixel_inside(current, image_dimensions),
    ensures
        ({
            let overlay = spec_selection_overlay(
                SelectionDrag { start, current, image_dimensions },
            );
            &&& overlay is Some
            &&& overlay->0.inside_image()
            &&& overlay->0.holds(start)
            &&& overlay->0.holds(current)
            &&& overlay == spec_selection_overlay(
                SelectionDrag { start: current, current: start, image_dimensions },
            )
        }),
{
}

/// The rectangle between two corners of the pixel grid.
pub open spec fn spec_boundary_overlay(
    start: (u32, u32),
    current: (u32, u32),
    image_dimensions: (u32, u32),
) -> CropOverlay {
    let x = smaller(start.0 as int, current.0 as int);
    let y = smaller(start.1 as int, current.1 as int);
    CropOverlay {
        x: x as u32,
        y: y as u32,
        width: (larger(start.0 as int, current.0 as int) - x) as u32,
        height: (larger(start.1 as int, current.1 as int) - y) as u32,
        image_width: image_dimensions.0,
        image_height: image_dimensions.1,
    }
}

/// The rectangle between two corners of the pixel grid, which may hold no
/// pixel at all.
pub fn boundary_overlay(
    start: (u32, u32),
    current: (u32, u32),
    image_dimensions: (u32, u32),
) -> (overlay: CropOverlay)
    ensures
        overlay == spec_boundary_overlay(start, current, image_dimensions),
{
    let x: u32 = smaller_of(start.0, current.0);
    let y: u32 = smaller_of(start.1, current.1);
    CropOverlay {
        x,
        y,
        width: larger_of(start.0, current.0) - x,
        height: larger_of(start.1, current.1) - y,
        image_width: image_dimensions.0,
        image_height: image_dimensions.1,
    }
}

/// A rectangle does not depend on the direction in which it was marked, and
/// between two corners that lie on the image it lies on the image.
pub proof fn marking_ignores_direction(
    start: (u32, u32),
    current: (u32, u32),
    image_dimensions: (u32, u32),
)
    ensures
        spec_boundary_overlay(start, current, image_dimensions) == spec_boundary_overlay(
            current,
            start,
            image_dimensions,
        ),
        start.0 <= image_dimensions.0 && current.0 <= image_dimensions.0 && start.1
            <= image_dimensions.1 && current.1 <= image_dimensions.1 && start.0 != current.0
            && start.1 != current.1 ==> spec_boundary_overlay(
            start,
            current,
            image_dimensions,
        ).inside_image(),
{
}

/// The name of the pointer's shape over the edges of a region.
pub open spec fn resize_cursor_name(edges: Edges) -> Seq<char> {
    if (edges.left && edges.top) || (edges.right && edges.bottom) {
        "nwse-resize"@
    } else if (edges.right && edges.top) || (edges.left && edges.bottom) {
        "nesw-resize"@
    } else if edges.left || edges.right {
        "ew-resize"@
    } else if edges.top || edges.bottom {
        "ns-resize"@
    } else {
        "default"@
    }
}

/// The name of the pointer's shape over the edges of a region.
pub fn region_resize_cursor(edges: Edges) -> (name: &'static str)
    ensures
        name@ == resize_cursor_name(edges),
{
    match (edges.left, edges.right, edges.top, edges.bottom) {
        (true, _, true, _) | (_, true, _, true) => "nwse-resize",
        (_, true, true, _) | (true, _, _, true) => "nesw-resize",
        (true, _, _, _) | (_, true, _, _) => "ew-resize",
        (_, _, true, _) | (_, _, _, true) => "ns-resize",
        _ => "default",
    }
}

impl Edges {
    /// Whether the pointer has hold of any edge.
    pub open spec fn spec_any(self) -> bool {
        self.left || self.right || self.top || self.bottom
    }

    /// Whether the pointer has hold of any edge.
    pub fn any(self) -> (any: bool)
        ensures
            any == self.spec_any(),
    {
        self.left || self.right || self.top || self.bottom
    }
}

} // verus!
