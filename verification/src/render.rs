//! The render driver: the size of the image, and the pass over its pixels.

use vstd::prelude::*;
use crate::color::Color;
use crate::grid::{
    blank_grid, fits, lemma_pixel_in_grid, lemma_pixel_order, pixel_bytes, pixel_index, pixel_mut,
    write_color, PixelGrid, Raster,
};

verus! {

/// The height of an image `width` pixels wide whose sides stand in the ratio
/// `aspect_width : aspect_height`: the width divided by the ratio, truncated
/// to a whole number of rows. A height too large for 32 bits is held at the
/// largest one.
pub open spec fn height_for(width: int, aspect_width: int, aspect_height: int) -> int
    recommends
        aspect_width > 0,
{
    let rows = (width * aspect_height) / aspect_width;
    if rows > u32::MAX {
        u32::MAX as int
    } else {
        rows
    }
}

/// Derives the height of an image from its width and its aspect ratio.
pub fn image_height(width: u32, aspect_width: u32, aspect_height: u32) -> (height: u32)
    requires
        aspect_width > 0,
    ensures
        height == height_for(width as int, aspect_width as int, aspect_height as int),
{
    assert(width * aspect_height <= 0xffff_ffff * 0xffff_ffff) by (nonlinear_arith)
        requires
            width <= 0xffff_ffff,
            aspect_height <= 0xffff_ffff,
    ;
    let area: u64 = width as u64 * aspect_height as u64;
    let rows: u64 = area / aspect_width as u64;
    if rows > u32::MAX as u64 {
        u32::MAX
    } else {
        rows as u32
    }
}

/// Whether `bytes` is the pixel of a colour that `shade` can give for column
/// `x` of row `y`.
pub open spec fn shaded<E, F: Fn(u32, u32) -> Result<Color, E>>(
    shade: F,
    x: u32,
    y: u32,
    bytes: Seq<u8>,
) -> bool {
    exists|color: Color| #[trigger]
        call_ensures(shade, (x, y), Ok::<Color, E>(color)) && bytes == pixel_bytes(color)
}

/// Whether `shade` can fail with `error` at column `x` of row `y` after it
/// gave a colour for every pixel that a row-major pass visits before that
/// one.
pub open spec fn fails_first_at<E, F: Fn(u32, u32) -> Result<Color, E>>(
    shade: F,
    width: u32,
    height: u32,
    x: u32,
    y: u32,
    error: E,
) -> bool {
    &&& x < width
    &&& y < height
    &&& call_ensures(shade, (x, y), Err::<Color, E>(error))
    &&& forall|u: u32, v: u32|
        u < width && v < height && pixel_index(width as int, u as int, v as int) < pixel_index(
            width as int,
            x as int,
            y as int,
        ) ==> exists|color: Color| #[trigger] call_ensures(shade, (u, v), Ok::<Color, E>(color))
}

/// Whether every pixel of the grid that a row-major pass reaches before the
/// place `done` holds a colour that `shade` can give for it, at full opacity.
spec fn shaded_before<E, F: Fn(u32, u32) -> Result<Color, E>>(
    shade: F,
    grid: Raster,
    done: int,
) -> bool {
    &&& forall|u: u32, v: u32|
        grid.contains(u as int, v as int) && pixel_index(grid.width as int, u as int, v as int)
            < done ==> #[trigger] shaded(shade, u, v, grid.pixel(u as int, v as int))
    &&& forall|k: int| 0 <= k < done && k < grid.pixels.len() ==> (#[trigger] grid.pixels[k])[3] == 255
}

/// Renders an image of `width` by `height` pixels.
///
/// The pixels are visited once each, row by row from the top and from left to
/// right within a row. For each one `shade` is asked for the colour at its
/// column and row, and that colour is stored with full opacity. The first
/// failure of `shade` abandons the render and is handed back as it came.
pub fn render_image<E, F: Fn(u32, u32) -> Result<Color, E>>(
    width: u32,
    height: u32,
    shade: F,
) -> (outcome: Result<PixelGrid, E>)
    requires
        fits(width, height),
        forall|x: u32, y: u32| x < width && y < height ==> call_requires(shade, (x, y)),
    ensures
        match outcome {
            Ok(grid) => {
                &&& grid@.width == width
                &&& grid@.height == height
                &&& grid@.well_formed()
                &&& forall|x: u32, y: u32|
                    x < width && y < height ==> #[trigger] shaded(
                        shade,
                        x,
                        y,
                        grid@.pixel(x as int, y as int),
                    )
                &&& forall|k: int| 0 <= k < grid@.pixels.len() ==> (#[trigger] grid@.pixels[k])[3] == 255
            },
            Err(error) => exists|x: u32, y: u32| #[trigger]
                fails_first_at(shade, width, height, x, y, error),
        },
{
    let mut grid = blank_grid(width, height);
    let mut y: u32 = 0;
    while y < height
        invariant
            y <= height,
            grid@.width == width,
            grid@.height == height,
            grid@.well_formed(),
            forall|x: u32, y: u32| x < width && y < height ==> call_requires(shade, (x, y)),
            shaded_before(shade, grid@, pixel_index(width as int, 0, y as int)),
        decreases height - y,
    {
        let mut x: u32 = 0;
        while x < width
            invariant
                x <= width,
                y < height,
                grid@.width == width,
                grid@.height == height,
                grid@.well_formed(),
                forall|x: u32, y: u32| x < width && y < height ==> call_requires(shade, (x, y)),
                shaded_before(shade, grid@, pixel_index(width as int, x as int, y as int)),
            decreases width - x,
        {
            let ghost before = grid@;
            let ghost place = pixel_index(width as int, x as int, y as int);
            proof {
                lemma_pixel_in_grid(width as int, height as int, x as int, y as int);
            }
            match shade(x, y) {
                Ok(color) => {
                    write_color(pixel_mut(&mut grid, x, y), color);
                    proof {
                        assert(grid@.pixels == before.pixels.update(place, pixel_bytes(color)));
                        assert forall|u: u32, v: u32|
                            u < width && v < height && pixel_index(width as int, u as int, v as int)
                                < place + 1 implies #[trigger] shaded(
                            shade,
                            u,
                            v,
                            grid@.pixel(u as int, v as int),
                        ) by {
                            lemma_pixel_order(width as int, u as int, v as int, x as int, y as int);
                            lemma_pixel_in_grid(width as int, height as int, u as int, v as int);
                            if pixel_index(width as int, u as int, v as int) < place {
                                assert(shaded(shade, u, v, before.pixel(u as int, v as int)));
                            }
                        }
                    }
                },
                Err(error) => {
                    proof {
                        assert forall|u: u32, v: u32|
                            u < width && v < height && pixel_index(width as int, u as int, v as int)
                                < place implies exists|color: Color| #[trigger]
                            call_ensures(shade, (u, v), Ok::<Color, E>(color)) by {
                            assert(shaded(shade, u, v, grid@.pixel(u as int, v as int)));
                        }
                    }
                    let outcome: Result<PixelGrid, E> = Err(error);
                    assert(fails_first_at(shade, width, height, x, y, outcome->Err_0));
                    return outcome;
                },
            }
            x += 1;
        }
        y += 1;
        assert(pixel_index(width as int, 0, y as int) == pixel_index(
            width as int,
            width as int,
            y - 1,
        )) by (nonlinear_arith);
    }
    proof {
        assert(pixel_index(width as int, 0, height as int) == width * height) by (nonlinear_arith);
        assert forall|x: u32, y: u32| x < width && y < height implies #[trigger] shaded(
            shade,
            x,
            y,
            grid@.pixel(x as int, y as int),
        ) by {
            lemma_pixel_in_grid(width as int, height as int, x as int, y as int);
        }
    }
    Ok(grid)
}

} // verus!
