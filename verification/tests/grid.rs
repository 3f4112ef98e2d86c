use image::Rgba;
use raycast::color::Color;
use raycast::grid::{grid_fits, write_color};
use raycast::render::render_image;

fn by_place(x: u32, y: u32) -> Result<Color, String> {
    Ok(Color::new(i64::from(x), i64::from(y), i64::from(10 * y + x)))
}

#[test]
fn write_color_stores_the_three_bytes_and_full_opacity() {
    let mut pixel: Rgba<u8> = Rgba([9, 9, 9, 0]);
    write_color(&mut pixel, Color::new(255, 0, 0));
    assert_eq!(pixel, Rgba([255, 0, 0, 255]));
}

#[test]
fn write_color_narrows_each_level() {
    let mut pixel: Rgba<u8> = Rgba([1, 2, 3, 4]);
    write_color(&mut pixel, Color::new(306, -7, 127));
    assert_eq!(pixel, Rgba([255, 0, 127, 255]));
}

#[test]
fn write_color_of_the_named_colours() {
    let white = Color::new((1.0f64 * 255.0) as i64, (1.0f64 * 255.0) as i64, (1.0f64 * 255.0) as i64);
    let light_blue =
        Color::new((0.5f64 * 255.0) as i64, (0.7f64 * 255.0) as i64, (1.0f64 * 255.0) as i64);
    let facing_normal =
        Color::new((0.5f64 * 255.0) as i64, (0.5f64 * 255.0) as i64, (1.0f64 * 255.0) as i64);
    let mut pixel: Rgba<u8> = Rgba([0, 0, 0, 0]);
    write_color(&mut pixel, white);
    assert_eq!(pixel, Rgba([255, 255, 255, 255]));
    write_color(&mut pixel, light_blue);
    assert_eq!(pixel, Rgba([127, 178, 255, 255]));
    write_color(&mut pixel, facing_normal);
    assert_eq!(pixel, Rgba([127, 127, 255, 255]));
}

#[test]
fn a_grid_knows_its_size() {
    let grid = render_image(5, 3, by_place).unwrap();
    assert_eq!(grid.width(), 5);
    assert_eq!(grid.height(), 3);
}

#[test]
fn get_pixel_finds_each_pixel_by_column_and_row() {
    let grid = render_image(5, 3, by_place).unwrap();
    let mut y: u32 = 0;
    while y < 3 {
        let mut x: u32 = 0;
        while x < 5 {
            let expected: Rgba<u8> = Rgba([x as u8, y as u8, (10 * y + x) as u8, 255]);
            assert_eq!(grid.get_pixel(x, y), Some(expected));
            x += 1;
        }
        y += 1;
    }
}

#[test]
fn get_pixel_finds_nothing_off_the_grid() {
    let grid = render_image(5, 3, by_place).unwrap();
    assert_eq!(grid.get_pixel(5, 0), None);
    assert_eq!(grid.get_pixel(0, 3), None);
    assert_eq!(grid.get_pixel(5, 3), None);
    assert_eq!(grid.get_pixel(u32::MAX, u32::MAX), None);
    assert_eq!(grid.get_pixel(4, 2), Some(Rgba([4, 2, 24, 255])));
}

#[test]
fn into_raw_lays_the_pixels_out_row_by_row() {
    let grid = render_image(3, 2, by_place).unwrap();
    let samples: Vec<u8> = grid.into_raw();
    let expected: Vec<u8> = vec![
        0, 0, 0, 255, 1, 0, 1, 255, 2, 0, 2, 255, 0, 1, 10, 255, 1, 1, 11, 255, 2, 1, 12, 255,
    ];
    assert_eq!(samples, expected);
}

#[test]
fn into_raw_holds_four_bytes_to_the_pixel() {
    let grid = render_image(7, 4, by_place).unwrap();
    let samples: Vec<u8> = grid.into_raw();
    assert_eq!(samples.len(), 4 * 7 * 4);
    let mut y: usize = 0;
    while y < 4 {
        let mut x: usize = 0;
        while x < 7 {
            let at: usize = 4 * (y * 7 + x);
            assert_eq!(samples[at], x as u8);
            assert_eq!(samples[at + 1], y as u8);
            assert_eq!(samples[at + 2], (10 * y + x) as u8);
            assert_eq!(samples[at + 3], 255);
            x += 1;
        }
        y += 1;
    }
}

#[test]
fn grids_of_ordinary_size_fit() {
    assert!(grid_fits(0, 0));
    assert!(grid_fits(400, 225));
    assert!(grid_fits(u32::MAX, 0));
    assert!(grid_fits(1, u32::MAX));
}

#[test]
fn a_grid_fits_up_to_the_largest_vector() {
    let limit: u128 = isize::MAX as u128;
    let sides: [(u32, u32); 6] = [
        (u32::MAX, u32::MAX),
        (u32::MAX, u32::MAX / 2),
        (u32::MAX, 1 << 29),
        (1 << 31, 1 << 30),
        (1 << 16, 1 << 13),
        (46341, 46341),
    ];
    for (width, height) in sides {
        let bytes: u128 = 4 * u128::from(width) * u128::from(height);
        assert_eq!(grid_fits(width, height), bytes <= limit);
        assert_eq!(grid_fits(height, width), bytes <= limit);
    }
}
