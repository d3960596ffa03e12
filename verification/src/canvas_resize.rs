//! Adding space around an image.

use crate::effect::{Effect, Notice, Operation};
use crate::pixels::{
    averages_fit, image_resize_nearest, image_thumbnail, nearest_bytes, thumbnail_bytes, PixelsView,
    RgbaPixels,
};
use crate::tool::Tool;
use crate::window::{ViewerWindow, WindowView};
use vstd::prelude::*;

verus! {

/// The larger of two lengths.
pub open spec fn larger(left: u32, right: u32) -> u32 {
    if left < right {
        right
    } else {
        left
    }
}

/// Whether a canvas fits into the memory that images may take.
pub open spec fn canvas_fits(width: u32, height: u32, max_bytes: u64) -> bool {
    width * height * 4 <= max_bytes
}

/// Whether a canvas fits into the memory that images may take.
pub fn fits_canvas(width: u32, height: u32, max_bytes: u64) -> (fits: bool)
    ensures
        fits == canvas_fits(width, height, max_bytes),
{
    assert(0 <= width * height <= 0xffff_ffff * 0xffff_ffff) by (nonlinear_arith)
        requires
            0 <= width <= 0xffff_ffff,
            0 <= height <= 0xffff_ffff,
    ;
    (width as u128 * height as u128) * 4 <= max_bytes as u128
}

/// What the dialog shows for a chosen size.
#[derive(Debug, Clone, Copy, PartialEq, Eq, Structural)]
pub struct CanvasChoice {
    /// Whether the size can be applied.
    pub applies: bool,
    /// Whether the size is too large.
    pub too_large: bool,
}

/// What the dialog shows for a chosen size.
pub open spec fn spec_canvas_choice(
    width: u32,
    height: u32,
    original: (u32, u32),
    max_bytes: u64,
) -> CanvasChoice {
    CanvasChoice {
        applies: canvas_fits(width, height, max_bytes) && (width, height) != original,
        too_large: !canvas_fits(width, height, max_bytes),
    }
}

/// What the dialog shows for a chosen size: it can be applied where it fits and
/// is another one.
pub fn canvas_choice(width: u32, height: u32, original: (u32, u32), max_bytes: u64) -> (choice:
    CanvasChoice)
    ensures
        choice.too_large == !canvas_fits(width, height, max_bytes),
        choice.applies == (canvas_fits(width, height, max_bytes) && (width, height) != original),
        choice == spec_canvas_choice(width, height, original, max_bytes),
{
    let fits = fits_canvas(width, height, max_bytes);
    CanvasChoice {
        applies: fits && !(width == original.0 && height == original.1),
        too_large: !fits,
    }
}

/// The largest length on offer for a side.
pub fn canvas_limit(length: u32) -> (limit: u32)
    ensures
        limit == larger(length, 65535),
{
    if length < 65535 {
        65535
    } else {
        length
    }
}

/// The room that the dialog has for its picture.
pub open spec fn preview_room() -> (u32, u32) {
    (480, 320)
}

/// What the picture of the dialog is made from: the image in as many pixels as
/// there is room for. One with too many pixels for that has none.
pub fn canvas_source(pixels: &RgbaPixels) -> (source: Option<RgbaPixels>)
    ensures
        match source {
            Some(source) => {
                &&& averages_fit((pixels@.width, pixels@.height), preview_room())
                &&& source@ == (PixelsView {
                    width: preview_room().0,
                    height: preview_room().1,
                    bytes: thumbnail_bytes(
                        pixels@.bytes,
                        (pixels@.width, pixels@.height),
                        preview_room(),
                    ),
                })
            },
            None => !averages_fit((pixels@.width, pixels@.height), preview_room()),
        },
{
    let (width, height) = pixels.dimensions();
    if width > 0x100_0000 || height > 0x100_0000 {
        return None;
    }
    let across: u64 = (width / 480 + 8) as u64;
    let down: u64 = (height / 320 + 8) as u64;
    assert(across * down <= 0x100_0000 * 0x100_0000) by (nonlinear_arith)
        requires
            0 <= across <= 0x100_0000,
            0 <= down <= 0x100_0000,
    ;
    if across * down > 0x100_0000 {
        return None;
    }
    Some(image_thumbnail(pixels, (480, 320)))
}

/// The image as large as it is on a canvas that fills the room of the dialog.
pub fn canvas_picture(source: &RgbaPixels, size: (u32, u32)) -> (picture: RgbaPixels)
    requires
        source@.width <= 0x2000,
        source@.height <= 0x2000,
        1 <= size.0 <= 0x2000,
        1 <= size.1 <= 0x2000,
    ensures
        picture@ == (PixelsView {
            width: size.0,
            height: size.1,
            bytes: nearest_bytes(source@.bytes, (source@.width, source@.height), size),
        }),
{
    image_resize_nearest(source, size)
}

impl WindowView {
    /// The window with a canvas of the chosen size.
    pub open spec fn canvas_size_chosen(self, width: u32, height: u32) -> WindowView {
        self.apply(Operation::ResizeCanvas { width, height })
    }

    /// The window with its image made square.
    pub open spec fn square_up(self, max_bytes: u64) -> WindowView {
        let idle = self.set_tool(Tool::Idle);
        match idle.session.content.rendered {
            None => idle,
            Some(size) => {
                let side = larger(size.0, size.1);
                if size.0 == size.1 {
                    idle
                } else if side * side > max_bytes / 4 {
                    idle.emit(Effect::Notify(Notice::SquareTooLarge))
                } else {
                    idle.apply(Operation::ResizeCanvas { width: side, height: side })
                }
            },
        }
    }
}

impl ViewerWindow {
    /// Adds space on two sides of the image so that it becomes square, unless it
    /// would be too large.
    pub fn square_up(&mut self, max_bytes: u64)
        ensures
            final(self)@ == old(self)@.square_up(max_bytes),
    {
        self.set_tool(Tool::Idle);
        let size = match self.session.content.rendered {
            None => {
                return;
            },
            Some(size) => size,
        };
        if size.0 == size.1 {
            return;
        }
        let side: u32 = if size.0 < size.1 {
            size.1
        } else {
            size.0
        };
        assert(0 <= side * side <= 0xffff_ffff * 0xffff_ffff) by (nonlinear_arith)
            requires
                0 <= side <= 0xffff_ffff,
        ;
        if side as u64 * side as u64 > max_bytes / 4 {
            self.emit(Effect::Notify(Notice::SquareTooLarge));
            return;
        }
        self.apply(Operation::ResizeCanvas { width: side, height: side });
    }

    /// Gives the canvas the chosen size.
    pub fn canvas_size_chosen(&mut self, width: u32, height: u32)
        ensures
            final(self)@ == old(self)@.apply(Operation::ResizeCanvas { width, height }),
            final(self)@ == old(self)@.canvas_size_chosen(width, height),
    {
        self.apply(Operation::ResizeCanvas { width, height });
    }
}

/// A square canvas holds the whole image.
pub proof fn squares_hold_the_image(width: u32, height: u32)
    ensures
        width <= larger(width, height),
        height <= larger(width, height),
        larger(width, height) == width || larger(width, height) == height,
{
}

} // verus!
