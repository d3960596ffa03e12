//! Pixels on their way to the screen and back.

use vstd::arithmetic::div_mod::lemma_fundamental_div_mod_converse;
use vstd::prelude::*;

verus! {

/// An image of the `image` crate with eight bits for each of red, green, blue
/// and alpha.
#[verifier::external_body]
#[derive(Debug)]
pub struct RgbaPixels {
    image: image::RgbaImage,
}

/// The bytes of an image: red, green, blue and alpha of each pixel, row by row.
pub uninterp spec fn image_bytes(pixels: RgbaPixels) -> Seq<u8>;

/// The width and the height of an image.
pub uninterp spec fn image_dimensions(pixels: RgbaPixels) -> (u32, u32);

/// `image::RgbaImage::from_raw`: an image of these bytes, unless there are too
/// few of them, or a row is too long for the memory of the machine.
#[verifier::external_body]
fn image_from_raw(width: u32, height: u32, bytes: Vec<u8>) -> (pixels: Option<RgbaPixels>)
    ensures
        pixels is Some == (4 * width <= usize::MAX && 4 * width * height <= bytes@.len()),
        pixels is Some ==> image_bytes(pixels->0) == bytes@,
        pixels is Some ==> image_dimensions(pixels->0) == (width, height),
{
    image::RgbaImage::from_raw(width, height, bytes).map(|image| RgbaPixels { image })
}

/// `image::RgbaImage::into_raw`: the bytes of an image.
#[verifier::external_body]
fn image_into_raw(pixels: RgbaPixels) -> (bytes: Vec<u8>)
    ensures
        bytes@ == image_bytes(pixels),
{
    pixels.image.into_raw()
}

/// `image::RgbaImage::as_raw`: the bytes of an image, of which there are always
/// enough for its size.
#[verifier::external_body]
fn image_as_raw(pixels: &RgbaPixels) -> (bytes: &Vec<u8>)
    ensures
        bytes@ == image_bytes(*pixels),
        4 * image_dimensions(*pixels).0 * image_dimensions(*pixels).1 <= bytes@.len(),
{
    pixels.image.as_raw()
}

/// `image::RgbaImage::dimensions`: the width and the height of an image.
#[verifier::external_body]
fn image_size(pixels: &RgbaPixels) -> (size: (u32, u32))
    ensures
        size == image_dimensions(*pixels),
{
    pixels.image.dimensions()
}

/// `image::RgbaImage::clone`: an image of the same size and bytes.
#[verifier::external_body]
fn image_clone(pixels: &RgbaPixels) -> (copy: RgbaPixels)
    ensures
        image_bytes(copy) == image_bytes(*pixels),
        image_dimensions(copy) == image_dimensions(*pixels),
{
    RgbaPixels { image: pixels.image.clone() }
}

/// What `image::imageops::thumbnail` makes of the bytes of an image of that
/// size, for a target size.
pub uninterp spec fn thumbnail_bytes(bytes: Seq<u8>, size: (u32, u32), target: (u32, u32)) -> Seq<
    u8,
>;

/// What `image::imageops::resize` makes of the bytes of an image of that size
/// with the nearest pixels, for a target size.
pub uninterp spec fn nearest_bytes(bytes: Seq<u8>, size: (u32, u32), target: (u32, u32)) -> Seq<
    u8,
>;

/// Whether the pixels that a thumbnail makes one of are few enough for their sum
/// to be a number of 32 bits, however the bounds between them are rounded.
pub open spec fn averages_fit(size: (u32, u32), target: (u32, u32)) -> bool {
    &&& 1 <= target.0 <= 0x2000
    &&& 1 <= target.1 <= 0x2000
    &&& size.0 <= 0x100_0000
    &&& size.1 <= 0x100_0000
    &&& (size.0 / target.0 + 8) * (size.1 / target.1 + 8) <= 0x100_0000
}

/// `image::imageops::thumbnail`: the image in the target size, each pixel made
/// of those in its place. The size is stated; the bytes, which follow from
/// those of the image and from the two sizes, have a name.
#[verifier::external_body]
pub(crate) fn image_thumbnail(pixels: &RgbaPixels, target: (u32, u32)) -> (small: RgbaPixels)
    requires
        averages_fit(image_dimensions(*pixels), target),
    ensures
        image_dimensions(small) == target,
        image_bytes(small) == thumbnail_bytes(
            image_bytes(*pixels),
            image_dimensions(*pixels),
            target,
        ),
{
    RgbaPixels { image: image::imageops::thumbnail(&pixels.image, target.0, target.1) }
}

/// `image::imageops::resize` with `FilterType::Nearest`: the image in the target
/// size, each pixel the nearest one. The size is stated; the bytes, which follow
/// from those of the image and from the two sizes, have a name.
#[verifier::external_body]
pub(crate) fn image_resize_nearest(pixels: &RgbaPixels, target: (u32, u32)) -> (resized: RgbaPixels)
    requires
        image_dimensions(*pixels).0 <= 0x2000,
        image_dimensions(*pixels).1 <= 0x2000,
        1 <= target.0 <= 0x2000,
        1 <= target.1 <= 0x2000,
    ensures
        image_dimensions(resized) == target,
        image_bytes(resized) == nearest_bytes(
            image_bytes(*pixels),
            image_dimensions(*pixels),
            target,
        ),
{
    let nearest = image::imageops::FilterType::Nearest;
    RgbaPixels { image: image::imageops::resize(&pixels.image, target.0, target.1, nearest) }
}

/// The bytes and the size of an image, as values.
pub ghost struct PixelsView {
    pub width: u32,
    pub height: u32,
    pub bytes: Seq<u8>,
}

impl View for RgbaPixels {
    type V = PixelsView;

    open spec fn view(&self) -> PixelsView {
        PixelsView {
            width: image_dimensions(*self).0,
            height: image_dimensions(*self).1,
            bytes: image_bytes(*self),
        }
    }
}

impl RgbaPixels {
    /// An image of these bytes, where there are enough of them.
    pub fn from_raw(width: u32, height: u32, bytes: Vec<u8>) -> (pixels: Option<RgbaPixels>)
        ensures
            pixels is Some == (4 * width <= usize::MAX && 4 * width * height <= bytes@.len()),
            pixels is Some ==> pixels->0@ == (PixelsView { width, height, bytes: bytes@ }),
    {
        image_from_raw(width, height, bytes)
    }

    /// The width and the height.
    pub fn dimensions(&self) -> (size: (u32, u32))
        ensures
            size == (self@.width, self@.height),
    {
        image_size(self)
    }

    /// The bytes.
    pub fn into_raw(self) -> (bytes: Vec<u8>)
        ensures
            bytes@ == self@.bytes,
    {
        image_into_raw(self)
    }
}

/// A picture as the screen takes it: rows of pixels with four bytes each, a row
/// beginning every `stride` bytes.
#[derive(Debug)]
pub struct Texture {
    pub width: i32,
    pub height: i32,
    pub stride: usize,
    pub bytes: Vec<u8>,
}

/// Why an image cannot go to the screen.
#[derive(Debug, Clone, Copy, PartialEq, Eq, Structural)]
pub enum TextureError {
    WidthTooLarge,
    HeightTooLarge,
    StrideTooLarge,
}

impl TextureError {
    /// The error in words.
    pub open spec fn spec_text(self) -> Seq<char> {
        match self {
            TextureError::WidthTooLarge => "Image width is too large"@,
            TextureError::HeightTooLarge => "Image height is too large"@,
            TextureError::StrideTooLarge => "Image stride is too large"@,
        }
    }

    /// The error in words.
    pub fn text(self) -> (text: &'static str)
        ensures
            text@ == self.spec_text(),
    {
        match self {
            TextureError::WidthTooLarge => "Image width is too large",
            TextureError::HeightTooLarge => "Image height is too large",
            TextureError::StrideTooLarge => "Image stride is too large",
        }
    }
}

/// Why an image of this size cannot go to the screen, where it cannot.
pub open spec fn texture_error(width: u32, height: u32) -> Option<TextureError> {
    if width > i32::MAX {
        Some(TextureError::WidthTooLarge)
    } else if height > i32::MAX {
        Some(TextureError::HeightTooLarge)
    } else if 4 * width > usize::MAX {
        Some(TextureError::StrideTooLarge)
    } else {
        None
    }
}

/// Whether a picture shows an image: the same pixels, without room between the
/// rows.
pub open spec fn shows(texture: Texture, pixels: PixelsView) -> bool {
    &&& texture.width == pixels.width
    &&& texture.height == pixels.height
    &&& texture.stride == 4 * pixels.width
    &&& texture.bytes@ == pixels.bytes
}

/// The picture of an image that stays.
pub fn texture_from_rgba(pixels: &RgbaPixels) -> (texture: Result<Texture, TextureError>)
    ensures
        match texture {
            Ok(texture) => texture_error(pixels@.width, pixels@.height) is None && shows(
                texture,
                pixels@,
            ),
            Err(error) => texture_error(pixels@.width, pixels@.height) == Some(error),
        },
{
    texture_from_owned_rgba(image_clone(pixels))
}

/// The picture of an image.
pub fn texture_from_owned_rgba(pixels: RgbaPixels) -> (texture: Result<Texture, TextureError>)
    ensures
        match texture {
            Ok(texture) => texture_error(pixels@.width, pixels@.height) is None && shows(
                texture,
                pixels@,
            ),
            Err(error) => texture_error(pixels@.width, pixels@.height) == Some(error),
        },
{
    let (width, height) = pixels.dimensions();
    if width > i32::MAX as u32 {
        return Err(TextureError::WidthTooLarge);
    }
    if height > i32::MAX as u32 {
        return Err(TextureError::HeightTooLarge);
    }
    let row: u64 = width as u64 * 4;
    if row > usize::MAX as u64 {
        return Err(TextureError::StrideTooLarge);
    }
    Ok(
        Texture {
            width: width as i32,
            height: height as i32,
            stride: row as usize,
            bytes: pixels.into_raw(),
        },
    )
}

/// Whether a picture has all the rows that its size calls for.
pub open spec fn rows_are_there(texture: Texture) -> bool {
    &&& 0 <= texture.width
    &&& 0 <= texture.height
    &&& 4 * texture.width <= texture.stride
    &&& texture.stride * texture.height <= texture.bytes@.len()
}

/// The pixels of a picture without what lies between its rows.
pub open spec fn packed_rows(texture: Texture) -> Seq<u8> {
    let row = 4 * texture.width as int;
    Seq::new(
        (row * texture.height) as nat,
        |index: int| texture.bytes@[(index / row) * texture.stride + index % row],
    )
}

fn copy_row(pixels: &mut Vec<u8>, texture: &Texture, row: usize, row_bytes: usize)
    requires
        rows_are_there(*texture),
        row < texture.height,
        row_bytes == 4 * texture.width,
        old(pixels)@ == packed_rows(*texture).take(row * row_bytes),
    ensures
        final(pixels)@ == packed_rows(*texture).take((row + 1) * row_bytes),
{
    let ghost whole = packed_rows(*texture);
    let length: usize = texture.bytes.len();
    let mut column: usize = 0;
    proof {
        rows_lie_inside(*texture, row as int);
    }
    assert(pixels@ =~= whole.take(row * row_bytes + column));
    let start: usize = row * texture.stride;
    while column < row_bytes
        invariant
            rows_are_there(*texture),
            row < texture.height,
            row_bytes == 4 * texture.width,
            start == row * texture.stride,
            length == texture.bytes@.len(),
            start + row_bytes <= length,
            (row + 1) * row_bytes == row * row_bytes + row_bytes,
            (row + 1) * row_bytes <= whole.len(),
            whole == packed_rows(*texture),
            column <= row_bytes,
            pixels@ == whole.take(row * row_bytes + column),
        decreases row_bytes - column,
    {
        let ghost index = row * row_bytes + column;
        proof {
            assert(0 <= row * row_bytes) by (nonlinear_arith)
                requires
                    0 <= row,
                    0 <= row_bytes,
            ;
            lemma_fundamental_div_mod_converse(
                index,
                row_bytes as int,
                row as int,
                column as int,
            );
            assert(whole[index] == texture.bytes@[start + column]);
            assert(whole.take(index + 1) =~= whole.take(index).push(whole[index]));
        }
        pixels.push(texture.bytes[start + column]);
        column = column + 1;
    }
}

/// A row lies inside the bytes of its picture.
proof fn rows_lie_inside(texture: Texture, row: int)
    requires
        rows_are_there(texture),
        0 <= row < texture.height,
    ensures
        0 <= row * texture.stride,
        row * texture.stride + 4 * texture.width <= texture.bytes@.len(),
        (row + 1) * (4 * texture.width) == row * (4 * texture.width) + 4 * texture.width,
        (row + 1) * (4 * texture.width) <= packed_rows(texture).len(),
{
    let stride = texture.stride as int;
    let height = texture.height as int;
    let length = 4 * texture.width as int;
    assert(0 <= row * stride && row * stride + stride <= stride * height) by (nonlinear_arith)
        requires
            0 <= row < height,
            0 <= stride,
    ;
    assert((row + 1) * length == row * length + length) by (nonlinear_arith);
    assert((row + 1) * length <= length * height) by (nonlinear_arith)
        requires
            0 <= row < height,
            0 <= length,
    ;
}

/// The image that a picture shows, where all its rows are there. A picture
/// without width needs a stride all the same.
pub fn rgba_from_texture(texture: &Texture) -> (pixels: Option<RgbaPixels>)
    requires
        texture.stride > 0 || texture.width != 0,
    ensures
        pixels is Some == rows_are_there(*texture),
        pixels is Some ==> pixels->0@ == (PixelsView {
            width: texture.width as u32,
            height: texture.height as u32,
            bytes: packed_rows(*texture),
        }),
{
    if texture.width < 0 || texture.height < 0 {
        return None;
    }
    let row_bytes: u64 = texture.width as u64 * 4;
    if row_bytes > texture.stride as u64 {
        return None;
    }
    let row_bytes: usize = row_bytes as usize;
    let height: usize = texture.height as usize;
    let length: usize = texture.bytes.len();
    match texture.stride.checked_mul(height) {
        None => {
            return None;
        },
        Some(expected) => {
            if length < expected {
                return None;
            }
        },
    }
    let mut pixels: Vec<u8> = Vec::new();
    let mut row: usize = 0;
    assert(pixels@ =~= packed_rows(*texture).take(0 * row_bytes));
    while row < height
        invariant
            rows_are_there(*texture),
            row <= height,
            height == texture.height,
            row_bytes == 4 * texture.width,
            pixels@ == packed_rows(*texture).take(row * row_bytes),
        decreases height - row,
    {
        copy_row(&mut pixels, texture, row, row_bytes);
        row = row + 1;
    }
    proof {
        assert(row * row_bytes == row_bytes * row) by (nonlinear_arith);
        assert(0 <= row_bytes * row) by (nonlinear_arith)
            requires
                0 <= row,
                0 <= row_bytes,
        ;
        assert(4 * (texture.width as u32) * (texture.height as u32) == row_bytes * height);
        assert(packed_rows(*texture).take(row * row_bytes) =~= packed_rows(*texture));
    }
    RgbaPixels::from_raw(texture.width as u32, texture.height as u32, pixels)
}

/// What goes to the screen comes back from it: the pixels of the picture of an
/// image are those of the image.
pub proof fn pixels_survive_the_screen(texture: Texture, pixels: PixelsView)
    requires
        shows(texture, pixels),
        pixels.bytes.len() == 4 * pixels.width * pixels.height,
    ensures
        rows_are_there(texture),
        packed_rows(texture) == pixels.bytes,
{
    let row = 4 * texture.width as int;
    assert(packed_rows(texture).len() == texture.bytes@.len());
    assert forall|index: int| 0 <= index < texture.bytes@.len() implies packed_rows(texture)[index]
        == texture.bytes@[index] by {
        assert(row > 0) by (nonlinear_arith)
            requires
                0 <= index < row * texture.height,
                0 <= row,
        ;
        vstd::arithmetic::div_mod::lemma_fundamental_div_mod(index, row);
        assert((index / row) * row == row * (index / row)) by (nonlinear_arith);
    }
    assert(packed_rows(texture) =~= texture.bytes@);
}

/// Where a byte of a part of an image lies in the bytes of the image.
pub open spec fn source_of(width: int, x: int, y: int, part_width: int, index: int) -> int {
    ((y + index / (4 * part_width)) * width + x) * 4 + index % (4 * part_width)
}

/// The bytes of a part of an image.
pub open spec fn cropped_bytes(
    pixels: PixelsView,
    x: u32,
    y: u32,
    width: u32,
    height: u32,
) -> Seq<u8> {
    Seq::new(
        (4 * width * height) as nat,
        |index: int|
            pixels.bytes[source_of(pixels.width as int, x as int, y as int, width as int, index)],
    )
}

/// The bytes of a part of an image lie among its bytes, and the next byte of a
/// row behind the one before.
proof fn parts_lie_inside(
    size: (int, int),
    length: int,
    x: int,
    y: int,
    part: (int, int),
    row: int,
    column: int,
)
    requires
        0 <= x,
        0 <= y,
        x + part.0 <= size.0,
        y + part.1 <= size.1,
        0 <= row < part.1,
        0 <= column < 4 * part.0,
        4 * size.0 * size.1 <= length,
    ensures
        0 <= (y + row) * size.0 + x <= size.0 * size.1,
        0 <= ((y + row) * size.0 + x) * 4 + column < length,
        source_of(size.0, x, y, part.0, row * (4 * part.0) + column) == ((y + row) * size.0 + x) * 4
            + column,
        0 <= row * (4 * part.0),
        (row + 1) * (4 * part.0) == row * (4 * part.0) + 4 * part.0,
        row * (4 * part.0) + column < 4 * part.0 * part.1,
{
    let width = size.0;
    assert((y + row) * width + width <= width * size.1) by (nonlinear_arith)
        requires
            y + row + 1 <= size.1,
            0 <= width,
    ;
    assert(0 <= (y + row) * width) by (nonlinear_arith)
        requires
            0 <= y + row,
            0 <= width,
    ;
    assert(4 * width * size.1 == 4 * (width * size.1)) by (nonlinear_arith);
    let row_bytes = 4 * part.0;
    assert((row + 1) * row_bytes == row * row_bytes + row_bytes) by (nonlinear_arith);
    assert(0 <= row * row_bytes && row * row_bytes + row_bytes <= row_bytes * part.1)
        by (nonlinear_arith)
        requires
            0 <= row < part.1,
            0 <= row_bytes,
    ;
    lemma_fundamental_div_mod_converse(row * row_bytes + column, row_bytes, row, column);
}

fn copy_part_of_row(
    part: &mut Vec<u8>,
    pixels: &RgbaPixels,
    x: u32,
    y: u32,
    width: u32,
    height: u32,
    row: u32,
)
    requires
        x + width <= pixels@.width,
        y + height <= pixels@.height,
        0 < width,
        row < height,
        old(part)@ == cropped_bytes(pixels@, x, y, width, height).take(row * (4 * width)),
    ensures
        final(part)@ == cropped_bytes(pixels@, x, y, width, height).take((row + 1) * (4 * width)),
{
    let ghost whole = cropped_bytes(pixels@, x, y, width, height);
    let bytes = image_as_raw(pixels);
    let length: usize = bytes.len();
    let ghost size = (pixels@.width as int, pixels@.height as int);
    let ghost extent = (width as int, height as int);
    let image_width: u32 = pixels.dimensions().0;
    proof {
        parts_lie_inside(size, length as int, x as int, y as int, extent, row as int, 0);
    }
    assert(((y + row) * image_width + x) * 4 <= length);
    assert((y + row) * image_width <= u64::MAX) by (nonlinear_arith)
        requires
            0 <= y + row <= 0xffff_ffff,
            0 <= image_width <= 0xffff_ffff,
    ;
    let row_bytes: u64 = 4 * width as u64;
    let start: u64 = (y as u64 + row as u64) * image_width as u64 + x as u64;
    let mut column: u64 = 0;
    while column < row_bytes
        invariant
            x + width <= pixels@.width,
            y + height <= pixels@.height,
            row < height,
            bytes@ == pixels@.bytes,
            length == bytes@.len(),
            4 * pixels@.width * pixels@.height <= length,
            size == (pixels@.width as int, pixels@.height as int),
            extent == (width as int, height as int),
            whole == cropped_bytes(pixels@, x, y, width, height),
            row_bytes == 4 * width,
            start == (y + row) * pixels@.width + x,
            column <= row_bytes,
            part@ == whole.take(row * (4 * width) + column),
        decreases row_bytes - column,
    {
        let ghost index = row * (4 * width) + column;
        proof {
            parts_lie_inside(
                size,
                length as int,
                x as int,
                y as int,
                extent,
                row as int,
                column as int,
            );
            assert(whole[index] == bytes@[start * 4 + column]);
            assert(whole.take(index + 1) =~= whole.take(index).push(whole[index]));
        }
        part.push(bytes[(start * 4 + column) as usize]);
        column = column + 1;
    }
}

/// A part of an image, where it has pixels and lies inside the image.
pub fn crop(pixels: &RgbaPixels, x: u32, y: u32, width: u32, height: u32) -> (part: Option<
    RgbaPixels,
>)
    ensures
        part is Some == (0 < width && 0 < height && x + width <= pixels@.width && y + height
            <= pixels@.height),
        part is Some ==> part->0@ == (PixelsView {
            width,
            height,
            bytes: cropped_bytes(pixels@, x, y, width, height),
        }),
{
    let (image_width, image_height) = pixels.dimensions();
    if width == 0 || height == 0 || x as u64 + width as u64 > image_width as u64 || y as u64
        + height as u64 > image_height as u64 {
        return None;
    }
    let ghost whole = cropped_bytes(pixels@, x, y, width, height);
    let mut part: Vec<u8> = Vec::new();
    let mut row: u32 = 0;
    assert(part@ =~= whole.take(0 * (4 * width)));
    while row < height
        invariant
            0 < width,
            x + width <= pixels@.width,
            y + height <= pixels@.height,
            row <= height,
            whole == cropped_bytes(pixels@, x, y, width, height),
            part@ == whole.take(row * (4 * width)),
        decreases height - row,
    {
        copy_part_of_row(&mut part, pixels, x, y, width, height, row);
        row = row + 1;
    }
    let length: usize = part.len();
    proof {
        assert(row * (4 * width) == 4 * width * height) by (nonlinear_arith)
            requires
                row == height,
        ;
        assert(0 <= 4 * width * height) by (nonlinear_arith);
        assert(part@ =~= whole);
        assert(4 * width <= length) by (nonlinear_arith)
            requires
                length == 4 * width * height,
                1 <= height,
                0 <= width,
        ;
    }
    RgbaPixels::from_raw(width, height, part)
}

/// How the content of an image is told from its background.
#[derive(Debug, Clone, Copy, PartialEq, Eq, Structural)]
pub enum ContentDetection {
    /// By the pixels whose alpha is at least this.
    Alpha { threshold: u8 },
    /// By the distance from the colour of the border.
    Opaque { tolerance: u8 },
}

/// Whether an image has a pixel that is not opaque.
pub open spec fn has_transparency(pixels: PixelsView) -> bool {
    exists|pixel: int|
        0 <= pixel < pixels.width * pixels.height && #[trigger] pixels.bytes[4 * pixel + 3] < 255
}

/// How the content of an image is to be found.
pub open spec fn spec_content_detection(pixels: PixelsView) -> ContentDetection {
    if has_transparency(pixels) {
        ContentDetection::Alpha { threshold: 1 }
    } else {
        ContentDetection::Opaque { tolerance: 16 }
    }
}

/// How the content of an image is to be found: by its alpha where it has a pixel
/// that is not opaque, else by its colours.
pub fn content_detection(pixels: &RgbaPixels) -> (detection: ContentDetection)
    ensures
        detection == if has_transparency(pixels@) {
            ContentDetection::Alpha { threshold: 1 }
        } else {
            ContentDetection::Opaque { tolerance: 16 }
        },
        detection == spec_content_detection(pixels@),
{
    let (width, height) = pixels.dimensions();
    let bytes = image_as_raw(pixels);
    let length: usize = bytes.len();
    proof {
        assert(4 * width * height == 4 * (width * height)) by (nonlinear_arith);
        assert(0 <= width * height <= 0xffff_ffff * 0xffff_ffff) by (nonlinear_arith)
            requires
                0 <= width <= 0xffff_ffff,
                0 <= height <= 0xffff_ffff,
        ;
    }
    let count: u64 = width as u64 * height as u64;
    let mut pixel: u64 = 0;
    while pixel < count
        invariant
            bytes@ == pixels@.bytes,
            length == bytes@.len(),
            4 * count <= length,
            count == pixels@.width * pixels@.height,
            pixel <= count,
            forall|earlier: int| 0 <= earlier < pixel ==> #[trigger] pixels@.bytes[4 * earlier + 3]
                == 255,
        decreases count - pixel,
    {
        let alpha: u8 = bytes[(pixel * 4 + 3) as usize];
        assert(alpha == pixels@.bytes[4 * (pixel as int) + 3]);
        if alpha < 255 {
            return ContentDetection::Alpha { threshold: 1 };
        }
        pixel = pixel + 1;
    }
    ContentDetection::Opaque { tolerance: 16 }
}

} // verus!
