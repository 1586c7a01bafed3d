use image::Pixel;
use image_borders::img::{fade_out, fill_rect, Direction, RasterImage, Rgba};
use image_borders::types::{Point, Size};

fn rgba(r: u8, g: u8, b: u8, a: u8) -> Rgba {
    Rgba { r, g, b, a }
}

fn numbered(width: u32, height: u32) -> RasterImage {
    let mut data = Vec::new();
    for y in 0..height {
        for x in 0..width {
            data.extend_from_slice(&[x as u8, y as u8, (10 * x + y) as u8, 255]);
        }
    }
    RasterImage::from_raw(width, height, data).unwrap()
}

fn reference_blend(bg: Rgba, fg: Rgba) -> Rgba {
    let mut under = image::Rgba([bg.r, bg.g, bg.b, bg.a]);
    under.blend(&image::Rgba([fg.r, fg.g, fg.b, fg.a]));
    rgba(under.0[0], under.0[1], under.0[2], under.0[3])
}

fn alphas_along_row(image: &RasterImage) -> Vec<u8> {
    (0..image.width()).map(|x| image.get_pixel(x, 0).a).collect()
}

fn alphas_along_column(image: &RasterImage) -> Vec<u8> {
    (0..image.height()).map(|y| image.get_pixel(0, y).a).collect()
}

#[test]
fn from_raw_wants_four_bytes_a_pixel() {
    assert!(RasterImage::from_raw(2, 3, vec![0; 24]).is_some());
    assert!(RasterImage::from_raw(2, 3, vec![0; 23]).is_none());
    assert!(RasterImage::from_raw(2, 3, vec![0; 25]).is_none());
    assert!(RasterImage::from_raw(0, 3, vec![]).is_some());
    assert!(RasterImage::from_raw(0, 0, vec![1]).is_none());
    assert!(RasterImage::from_raw(u32::MAX, u32::MAX, vec![0; 4]).is_none());
}

#[test]
fn raw_bytes_come_back_unchanged() {
    let data: Vec<u8> = (0..24).collect();
    let image = RasterImage::from_raw(3, 2, data.clone()).unwrap();
    assert_eq!(image.width(), 3);
    assert_eq!(image.height(), 2);
    assert_eq!(image.size(), Size { width: 3, height: 2 });
    assert_eq!(image.get_pixel(0, 0), rgba(0, 1, 2, 3));
    assert_eq!(image.get_pixel(2, 0), rgba(8, 9, 10, 11));
    assert_eq!(image.get_pixel(0, 1), rgba(12, 13, 14, 15));
    assert_eq!(image.get_pixel(2, 1), rgba(20, 21, 22, 23));
    assert_eq!(image.copy().into_raw(), data);
    assert_eq!(image.into_raw(), data);
}

#[test]
fn new_image_is_solid() {
    let image = RasterImage::new(3, 2, rgba(1, 2, 3, 4));
    assert_eq!(image.width(), 3);
    assert_eq!(image.height(), 2);
    for y in 0..2 {
        for x in 0..3 {
            assert_eq!(image.get_pixel(x, y), rgba(1, 2, 3, 4));
        }
    }
    assert_eq!(RasterImage::new(0, 7, rgba(1, 2, 3, 4)).into_raw(), Vec::<u8>::new());
}

#[test]
fn put_pixel_changes_one_pixel() {
    let mut image = numbered(3, 3);
    image.put_pixel(1, 2, rgba(9, 8, 7, 6));
    let before = numbered(3, 3);
    for y in 0..3 {
        for x in 0..3 {
            if (x, y) == (1, 2) {
                assert_eq!(image.get_pixel(x, y), rgba(9, 8, 7, 6));
            } else {
                assert_eq!(image.get_pixel(x, y), before.get_pixel(x, y));
            }
        }
    }
}

#[test]
fn fill_rect_with_opaque_color_replaces_inside_and_keeps_outside() {
    let mut image = numbered(6, 5);
    let before = numbered(6, 5);
    let color = rgba(100, 110, 120, 255);
    fill_rect(&mut image, &color, Point { x: 1, y: 2 }, Point { x: 4, y: 4 });
    for y in 0..5 {
        for x in 0..6 {
            let inside = (1..4).contains(&x) && (2..4).contains(&y);
            if inside {
                assert_eq!(image.get_pixel(x, y), color);
            } else {
                assert_eq!(image.get_pixel(x, y), before.get_pixel(x, y));
            }
        }
    }
}

#[test]
fn fill_rect_takes_its_corners_either_way_round() {
    let color = rgba(100, 110, 120, 255);
    let mut straight = numbered(6, 5);
    fill_rect(&mut straight, &color, Point { x: 1, y: 2 }, Point { x: 4, y: 4 });
    let mut swapped = numbered(6, 5);
    fill_rect(&mut swapped, &color, Point { x: 4, y: 4 }, Point { x: 1, y: 2 });
    let mut crossed = numbered(6, 5);
    fill_rect(&mut crossed, &color, Point { x: 4, y: 2 }, Point { x: 1, y: 4 });
    assert_eq!(swapped.into_raw(), straight.copy().into_raw());
    assert_eq!(crossed.into_raw(), straight.into_raw());
}

#[test]
fn fill_rect_is_cut_to_the_image() {
    let color = rgba(1, 1, 1, 255);
    let mut image = numbered(3, 3);
    fill_rect(&mut image, &color, Point { x: 2, y: 1 }, Point { x: 900, y: u32::MAX });
    let before = numbered(3, 3);
    for y in 0..3 {
        for x in 0..3 {
            if x == 2 && y >= 1 {
                assert_eq!(image.get_pixel(x, y), color);
            } else {
                assert_eq!(image.get_pixel(x, y), before.get_pixel(x, y));
            }
        }
    }
    let mut untouched = numbered(3, 3);
    fill_rect(&mut untouched, &color, Point { x: 3, y: 0 }, Point { x: 10, y: 10 });
    assert_eq!(untouched.into_raw(), numbered(3, 3).into_raw());
    let mut flat = numbered(3, 3);
    fill_rect(&mut flat, &color, Point { x: 1, y: 0 }, Point { x: 1, y: 3 });
    assert_eq!(flat.into_raw(), numbered(3, 3).into_raw());
}

#[test]
fn fill_rect_blends_a_translucent_color() {
    let gray = rgba(200, 200, 200, 255);
    let red = rgba(255, 0, 0, 50);
    let mut image = RasterImage::new(2, 2, gray);
    fill_rect(&mut image, &red, Point { x: 0, y: 0 }, Point { x: 1, y: 1 });
    let mixed = image.get_pixel(0, 0);
    assert_eq!(mixed, reference_blend(gray, red));
    assert_eq!((mixed.r, mixed.g, mixed.b), (210, 160, 160));
    assert_ne!(mixed, gray);
    assert_ne!(mixed, red);
    assert_eq!(image.get_pixel(1, 0), gray);
    assert_eq!(image.get_pixel(0, 1), gray);
}

#[test]
fn fill_rect_with_a_transparent_color_changes_nothing() {
    let mut image = numbered(3, 3);
    fill_rect(&mut image, &rgba(9, 9, 9, 0), Point { x: 0, y: 0 }, Point { x: 3, y: 3 });
    assert_eq!(image.into_raw(), numbered(3, 3).into_raw());
}

#[test]
fn fade_out_ramps_down_from_start_to_end() {
    let mut image = RasterImage::new(6, 2, rgba(7, 8, 9, 200));
    fade_out(&mut image, 1, 4, Direction::Horizontal);
    assert_eq!(alphas_along_row(&image), vec![200, 200, 133, 66, 0, 0]);
    for x in 0..6 {
        let p = image.get_pixel(x, 1);
        assert_eq!((p.r, p.g, p.b), (7, 8, 9));
        assert_eq!(p.a, image.get_pixel(x, 0).a);
    }
}

#[test]
fn fade_out_ramps_up_when_start_is_above_end() {
    let mut image = RasterImage::new(6, 1, rgba(7, 8, 9, 200));
    fade_out(&mut image, 4, 1, Direction::Horizontal);
    assert_eq!(alphas_along_row(&image), vec![0, 0, 66, 133, 200, 200]);
}

#[test]
fn fade_out_follows_the_rows_when_vertical() {
    let mut image = RasterImage::new(2, 5, rgba(7, 8, 9, 255));
    fade_out(&mut image, 0, 4, Direction::Vertical);
    assert_eq!(alphas_along_column(&image), vec![255, 191, 127, 63, 0]);
    assert_eq!(image.get_pixel(1, 1).a, 191);
    let mut back = RasterImage::new(2, 5, rgba(7, 8, 9, 255));
    fade_out(&mut back, 4, 0, Direction::Vertical);
    assert_eq!(alphas_along_column(&back), vec![0, 63, 127, 191, 255]);
}

#[test]
fn fade_out_without_a_ramp_changes_nothing() {
    let mut image = numbered(4, 4);
    fade_out(&mut image, 2, 2, Direction::Horizontal);
    assert_eq!(image.into_raw(), numbered(4, 4).into_raw());
}

#[test]
fn fade_out_multiplies_the_alpha_that_is_there() {
    let mut image = RasterImage::new(3, 1, rgba(0, 0, 0, 100));
    image.put_pixel(1, 0, rgba(0, 0, 0, 51));
    fade_out(&mut image, 0, 2, Direction::Horizontal);
    assert_eq!(alphas_along_row(&image), vec![100, 25, 0]);
}

#[test]
fn fade_out_beyond_the_image_is_held_at_the_ends() {
    let mut image = RasterImage::new(3, 1, rgba(0, 0, 0, 90));
    fade_out(&mut image, 10, 20, Direction::Horizontal);
    assert_eq!(alphas_along_row(&image), vec![90, 90, 90]);
    fade_out(&mut image, 20, 10, Direction::Horizontal);
    assert_eq!(alphas_along_row(&image), vec![0, 0, 0]);
}
