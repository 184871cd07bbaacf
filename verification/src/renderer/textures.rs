//! What goes into a texture and how its rows lie in memory.
use vstd::prelude::*;

verus! {

/// The pixel of the default diffuse texture: white.
pub const DEFAULT_DIFFUSE_PIXEL: [u8; 3] = [255, 255, 255];

/// The pixel of the default specular texture: black.
pub const DEFAULT_SPECULAR_PIXEL: [u8; 3] = [0, 0, 0];

/// The pixel of the default emissive texture: black.
pub const DEFAULT_EMISSIVE_PIXEL: [u8; 3] = [0, 0, 0];

/// The number of bytes of an RGBA8 pixel.
pub const BYTES_PER_PIXEL: u32 = 4;

/// How the rows of an RGBA8 image lie in the buffer that a texture is
/// filled from.
#[derive(Clone, Copy, Debug, PartialEq, Eq, Structural)]
pub struct ImageDataLayout {
    /// Where the image starts in the buffer.
    pub offset: u64,
    /// The number of bytes from one row to the next.
    pub bytes_per_row: u32,
    /// The number of rows of the image.
    pub rows_per_image: u32,
}

/// The data of a new 1x1 texture with the given pixel color: the pixel in
/// RGBA8, opaque. `pixel` is an RGB triplet with 0 being none, and 255
/// being maximum.
///
/// `[255, 255, 255]` for white.
pub fn new_1x1(pixel: [u8; 3]) -> (rgba: [u8; 4])
    ensures
        rgba@ == seq![pixel[0], pixel[1], pixel[2], 255u8],
{
    let rgba: [u8; 4] = [pixel[0], pixel[1], pixel[2], 255];
    assert(rgba@ =~= seq![pixel[0], pixel[1], pixel[2], 255u8]);
    rgba
}

/// Whether an RGBA8 image of the given width has rows that a layout can
/// describe: four bytes for each pixel must fit 32 bits.
pub open spec fn row_fits(width: u32) -> bool {
    BYTES_PER_PIXEL * width <= u32::MAX
}

/// Computes `row_fits`.
pub fn is_row_fit(width: u32) -> (r: bool)
    ensures
        r == row_fits(width),
{
    width <= u32::MAX / BYTES_PER_PIXEL
}

/// The layout of the pixels of a tightly packed RGBA8 image of `width` by
/// `height` pixels: rows of four bytes for each pixel, one behind the
/// other from the start of the buffer.
pub fn from_image(width: u32, height: u32) -> (layout: ImageDataLayout)
    requires
        row_fits(width),
    ensures
        layout == (ImageDataLayout {
            offset: 0,
            bytes_per_row: (BYTES_PER_PIXEL * width) as u32,
            rows_per_image: height,
        }),
{
    ImageDataLayout { offset: 0, bytes_per_row: BYTES_PER_PIXEL * width, rows_per_image: height }
}

} // verus!
