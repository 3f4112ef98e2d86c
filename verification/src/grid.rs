//! The pixel grid that a render writes into.
//!
//! The grid is an `image::ImageBuffer` of RGBA bytes. Verus does not look
//! inside it: what it holds goes by three names, `grid_width`, `grid_height`
//! and `grid_pixels`, and each call made into it carries a contract over
//! those names that is taken on trust.

use vstd::prelude::*;
use image::{ImageBuffer, Rgba};
use crate::color::Color;

verus! {

/// `image::Rgba`, a pixel of four channels in a public array: red, green,
/// blue and alpha.
#[verifier::external_type_specification]
#[verifier::reject_recursive_types(T)]
pub struct ExRgba<T>(Rgba<T>);

/// A grid of RGBA pixels, eight bits to the channel.
///
/// It wraps `image::ImageBuffer<Rgba<u8>, Vec<u8>>`, whose fields are private
/// to that crate.
#[verifier::external_body]
pub struct PixelGrid {
    image: ImageBuffer<Rgba<u8>, Vec<u8>>,
}

/// The number of pixels in a row: what `ImageBuffer::width` returns.
pub uninterp spec fn grid_width(grid: PixelGrid) -> u32;

/// The number of rows: what `ImageBuffer::height` returns.
pub uninterp spec fn grid_height(grid: PixelGrid) -> u32;

/// The pixels of the grid in row-major order, each as its four channel
/// bytes: the pixel at column `x` of row `y` stands at `y * width + x`.
pub uninterp spec fn grid_pixels(grid: PixelGrid) -> Seq<Seq<u8>>;

/// The grid as contracts speak of it.
pub ghost struct Raster {
    pub width: nat,
    pub height: nat,
    pub pixels: Seq<Seq<u8>>,
}

impl Raster {
    /// Whether the grid holds one pixel of four bytes for each of its places.
    pub open spec fn well_formed(self) -> bool {
        &&& self.pixels.len() == self.width * self.height
        &&& forall|k: int| 0 <= k < self.pixels.len() ==> (#[trigger] self.pixels[k]).len() == 4
    }

    /// Whether column `x` of row `y` lies on the grid.
    pub open spec fn contains(self, x: int, y: int) -> bool {
        0 <= x < self.width && 0 <= y < self.height
    }

    /// The four bytes of the pixel at column `x` of row `y`.
    pub open spec fn pixel(self, x: int, y: int) -> Seq<u8>
        recommends
            self.contains(x, y),
    {
        self.pixels[pixel_index(self.width as int, x, y)]
    }

    /// The channel bytes of the whole grid, pixel after pixel.
    pub open spec fn samples(self) -> Seq<u8> {
        channel_bytes(self.pixels)
    }
}

/// The channel bytes of a row of pixels, four to the pixel and one pixel
/// after another.
pub open spec fn channel_bytes(pixels: Seq<Seq<u8>>) -> Seq<u8> {
    Seq::new(4 * pixels.len(), |i: int| pixels[i / 4][i % 4])
}

/// Where the pixel at column `x` of row `y` stands in a row-major grid that
/// is `width` pixels wide.
pub open spec fn pixel_index(width: int, x: int, y: int) -> int {
    y * width + x
}

/// The four bytes stored for a colour: its three levels, each narrowed to a
/// byte, and full opacity.
pub open spec fn pixel_bytes(color: Color) -> Seq<u8> {
    seq![color.r_spec(), color.g_spec(), color.b_spec(), 255u8]
}

/// In a row-major grid one pixel comes before another exactly when it lies
/// in an earlier row, or in the same row further left; so two pixels share a
/// place only if they are the same pixel.
pub proof fn lemma_pixel_order(width: int, u: int, v: int, x: int, y: int)
    requires
        0 <= u < width,
        0 <= x < width,
    ensures
        pixel_index(width, u, v) < pixel_index(width, x, y) <==> (v < y || (v == y && u < x)),
        pixel_index(width, u, v) == pixel_index(width, x, y) <==> (v == y && u == x),
{
    if v < y {
        assert((v + 1) * width <= y * width) by (nonlinear_arith)
            requires
                v + 1 <= y,
                width > 0,
        ;
        assert((v + 1) * width == v * width + width) by (nonlinear_arith);
    } else if y < v {
        assert((y + 1) * width <= v * width) by (nonlinear_arith)
            requires
                y + 1 <= v,
                width > 0,
        ;
        assert((y + 1) * width == y * width + width) by (nonlinear_arith);
    }
}

/// Every pixel of a grid has its place among the `width * height` of them.
pub proof fn lemma_pixel_in_grid(width: int, height: int, x: int, y: int)
    requires
        0 <= x < width,
        0 <= y < height,
    ensures
        0 <= pixel_index(width, x, y) < width * height,
{
    assert(0 <= y * width) by (nonlinear_arith)
        requires
            0 <= y,
            0 <= width,
    ;
    assert((y + 1) * width <= height * width) by (nonlinear_arith)
        requires
            y + 1 <= height,
            width > 0,
    ;
    assert((y + 1) * width == y * width + width) by (nonlinear_arith);
    assert(height * width == width * height) by (nonlinear_arith);
}

impl View for PixelGrid {
    type V = Raster;

    open spec fn view(&self) -> Raster {
        Raster {
            width: grid_width(*self) as nat,
            height: grid_height(*self) as nat,
            pixels: grid_pixels(*self),
        }
    }
}

/// Whether the bytes of a grid of this size fit in one vector: four for each
/// of `width * height` pixels, and no more than `isize::MAX` in all.
pub open spec fn fits(width: u32, height: u32) -> bool {
    4 * width * height <= isize::MAX
}

/// Tells whether a grid of this size can be held in memory as one vector of
/// bytes. A render may be asked only for such a grid.
pub fn grid_fits(width: u32, height: u32) -> (answer: bool)
    ensures
        answer == fits(width, height),
{
    assert(4 * width * height <= 4 * 0xffff_ffff * 0xffff_ffff) by (nonlinear_arith)
        requires
            width <= 0xffff_ffff,
            height <= 0xffff_ffff,
    ;
    let bytes: u128 = 4 * (width as u128) * (height as u128);
    bytes <= isize::MAX as u128
}

/// `ImageBuffer::new`: a grid of the given size in which every channel of
/// every pixel is zero. The call panics when the byte count does not fit a
/// vector, which the precondition rules out.
#[verifier::external_body]
pub(crate) fn blank_grid(width: u32, height: u32) -> (grid: PixelGrid)
    requires
        fits(width, height),
    ensures
        grid_width(grid) == width,
        grid_height(grid) == height,
        grid_pixels(grid).len() == width * height,
        forall|k: int|
            0 <= k < width * height ==> #[trigger] grid_pixels(grid)[k] == seq![0u8, 0u8, 0u8, 0u8],
{
    PixelGrid { image: ImageBuffer::new(width, height) }
}

/// `ImageBuffer::get_pixel_mut`: a mutable borrow of the pixel at column `x`
/// of row `y`. Whatever is written through the borrow replaces that pixel and
/// no other; the size of the grid stays. The call panics off the grid, which
/// the precondition rules out.
#[verifier::external_body]
pub(crate) fn pixel_mut(grid: &mut PixelGrid, x: u32, y: u32) -> (pixel: &mut Rgba<u8>)
    requires
        x < grid_width(*old(grid)),
        y < grid_height(*old(grid)),
    ensures
        pixel.0@ == grid_pixels(*old(grid))[pixel_index(grid_width(*old(grid)) as int, x as int, y as int)],
        grid_pixels(*final(grid)) == grid_pixels(*old(grid)).update(
            pixel_index(grid_width(*old(grid)) as int, x as int, y as int),
            final(pixel).0@,
        ),
        grid_width(*final(grid)) == grid_width(*old(grid)),
        grid_height(*final(grid)) == grid_height(*old(grid)),
{
    grid.image.get_pixel_mut(x, y)
}

/// `ImageBuffer::width`.
#[verifier::external_body]
fn width_of(grid: &PixelGrid) -> (width: u32)
    ensures
        width == grid_width(*grid),
{
    grid.image.width()
}

/// `ImageBuffer::height`.
#[verifier::external_body]
fn height_of(grid: &PixelGrid) -> (height: u32)
    ensures
        height == grid_height(*grid),
{
    grid.image.height()
}

/// `ImageBuffer::get_pixel`: the pixel at column `x` of row `y`. The call
/// panics off the grid, which the precondition rules out.
#[verifier::external_body]
fn pixel_of(grid: &PixelGrid, x: u32, y: u32) -> (pixel: Rgba<u8>)
    requires
        x < grid_width(*grid),
        y < grid_height(*grid),
    ensures
        pixel.0@ == grid_pixels(*grid)[pixel_index(grid_width(*grid) as int, x as int, y as int)],
{
    *grid.image.get_pixel(x, y)
}

/// `ImageBuffer::into_raw`: the channel bytes of all pixels, one pixel after
/// another in row-major order.
#[verifier::external_body]
fn samples_of(grid: PixelGrid) -> (samples: Vec<u8>)
    ensures
        samples@ == channel_bytes(grid_pixels(grid)),
{
    grid.image.into_raw()
}

/// Stores a colour in a pixel: its three levels, each narrowed to a byte, and
/// an alpha that is always fully opaque.
pub fn write_color(pixel: &mut Rgba<u8>, color: Color)
    ensures
        final(pixel).0@ == pixel_bytes(color),
{
    *pixel = Rgba([color.r(), color.g(), color.b(), 255u8]);
}

impl PixelGrid {
    /// The number of pixels in a row.
    pub fn width(&self) -> (width: u32)
        ensures
            width == self@.width,
    {
        width_of(self)
    }

    /// The number of rows.
    pub fn height(&self) -> (height: u32)
        ensures
            height == self@.height,
    {
        height_of(self)
    }

    /// The pixel at column `x` of row `y`, or nothing where that place lies
    /// off the grid.
    pub fn get_pixel(&self, x: u32, y: u32) -> (found: Option<Rgba<u8>>)
        ensures
            found.is_some() <==> self@.contains(x as int, y as int),
            found.is_some() ==> found.unwrap().0@ == self@.pixel(x as int, y as int),
    {
        if x < width_of(self) && y < height_of(self) {
            Some(pixel_of(self, x, y))
        } else {
            None
        }
    }

    /// Gives up the grid for its channel bytes: four to the pixel, one pixel
    /// after another in row-major order.
    pub fn into_raw(self) -> (samples: Vec<u8>)
        ensures
            samples@ == self@.samples(),
    {
        samples_of(self)
    }
}

} // verus!
