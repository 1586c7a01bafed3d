use image_borders::img::{RasterImage, Rgba};
use image_borders::ops::{is_storable, is_workable, Filter};
use image_borders::types::{Rect, Rotation};

fn px(r: u8, g: u8, b: u8, a: u8) -> Rgba {
    Rgba { r, g, b, a }
}

fn tagged(width: u32, height: u32) -> RasterImage {
    let mut data = Vec::new();
    for y in 0..height {
        for x in 0..width {
            data.extend_from_slice(&[x as u8, y as u8, (10 * x + y) as u8, 255]);
        }
    }
    RasterImage::from_raw(width, height, data).unwrap()
}

fn tag(x: u32, y: u32) -> Rgba {
    px(x as u8, y as u8, (10 * x + y) as u8, 255)
}

#[test]
fn rotate90_moves_each_pixel_clockwise() {
    let src = tagged(2, 3);
    let out = src.rotate(Rotation::Rotate90);
    assert_eq!((out.width(), out.height()), (3, 2));
    for y in 0..3 {
        for x in 0..2 {
            assert_eq!(out.get_pixel(2 - y, x), tag(x, y));
        }
    }
    assert_eq!(out.get_pixel(0, 0), tag(0, 2));
    assert_eq!(out.get_pixel(2, 1), tag(1, 0));
}

#[test]
fn rotate180_turns_the_image_upside_down() {
    let src = tagged(2, 3);
    let out = src.rotate(Rotation::Rotate180);
    assert_eq!((out.width(), out.height()), (2, 3));
    for y in 0..3 {
        for x in 0..2 {
            assert_eq!(out.get_pixel(1 - x, 2 - y), tag(x, y));
        }
    }
}

#[test]
fn rotate270_moves_each_pixel_counterclockwise() {
    let src = tagged(2, 3);
    let out = src.rotate(Rotation::Rotate270);
    assert_eq!((out.width(), out.height()), (3, 2));
    for y in 0..3 {
        for x in 0..2 {
            assert_eq!(out.get_pixel(y, 1 - x), tag(x, y));
        }
    }
    assert_eq!(out.get_pixel(0, 0), tag(1, 0));
}

#[test]
fn rotate0_is_a_copy() {
    let src = tagged(2, 3);
    assert_eq!(src.rotate(Rotation::Rotate0).into_raw(), src.into_raw());
}

#[test]
fn four_quarter_turns_give_the_image_back() {
    let src = tagged(5, 3);
    let once = src.rotate(Rotation::Rotate90);
    let twice = once.rotate(Rotation::Rotate90);
    let thrice = twice.rotate(Rotation::Rotate90);
    let back = thrice.rotate(Rotation::Rotate90);
    assert_ne!(once.copy().into_raw(), src.copy().into_raw());
    assert_eq!(twice.into_raw(), src.rotate(Rotation::Rotate180).into_raw());
    assert_eq!(thrice.into_raw(), src.rotate(Rotation::Rotate270).into_raw());
    assert_eq!(back.into_raw(), src.into_raw());
}

#[test]
fn rotating_an_empty_image_swaps_its_sides() {
    let src = RasterImage::from_raw(0, 4, vec![]).unwrap();
    let out = src.rotate(Rotation::Rotate90);
    assert_eq!((out.width(), out.height()), (4, 0));
}

#[test]
fn crop_copies_the_rectangle() {
    let src = tagged(5, 4);
    let out = src.crop(Rect { x: 1, y: 2, width: 3, height: 2 });
    assert_eq!((out.width(), out.height()), (3, 2));
    for y in 0..2 {
        for x in 0..3 {
            assert_eq!(out.get_pixel(x, y), tag(x + 1, y + 2));
        }
    }
}

#[test]
fn crop_is_cut_to_the_image() {
    let src = tagged(2, 3);
    let out = src.crop(Rect { x: 1, y: 1, width: 5, height: 5 });
    assert_eq!((out.width(), out.height()), (1, 2));
    assert_eq!(out.get_pixel(0, 0), tag(1, 1));
    assert_eq!(out.get_pixel(0, 1), tag(1, 2));
    let none = src.crop(Rect { x: 5, y: 5, width: 1, height: 1 });
    assert_eq!((none.width(), none.height()), (0, 0));
    let edge = src.crop(Rect { x: 2, y: 0, width: u32::MAX, height: u32::MAX });
    assert_eq!((edge.width(), edge.height()), (0, 3));
    let all = src.crop(Rect { x: 0, y: 0, width: u32::MAX, height: u32::MAX });
    assert_eq!(all.into_raw(), src.into_raw());
}

#[test]
fn overlay_replaces_with_opaque_pixels_where_the_images_meet() {
    let white = px(255, 255, 255, 255);
    let mut bottom = RasterImage::new(4, 4, white);
    let top = tagged(2, 2);
    bottom.overlay(&top, 3, 2);
    for y in 0..4 {
        for x in 0..4 {
            let expected = if x == 3 && (2..4).contains(&y) { tag(0, y - 2) } else { white };
            assert_eq!(bottom.get_pixel(x, y), expected);
        }
    }
}

#[test]
fn overlay_at_a_negative_offset_uses_the_far_part_of_the_top() {
    let white = px(255, 255, 255, 255);
    let mut bottom = RasterImage::new(3, 3, white);
    let top = tagged(2, 2);
    bottom.overlay(&top, -1, -1);
    assert_eq!(bottom.get_pixel(0, 0), tag(1, 1));
    assert_eq!(bottom.get_pixel(1, 0), white);
    assert_eq!(bottom.get_pixel(0, 1), white);
}

#[test]
fn overlay_outside_the_bottom_changes_nothing() {
    let white = px(255, 255, 255, 255);
    for (x, y) in [(3i64, 0i64), (0, 3), (-2, 0), (0, -2), (i64::MAX, 0), (i64::MIN, i64::MIN)] {
        let mut bottom = RasterImage::new(3, 3, white);
        bottom.overlay(&tagged(2, 2), x, y);
        assert_eq!(bottom.into_raw(), RasterImage::new(3, 3, white).into_raw());
    }
}

#[test]
fn overlay_keeps_the_bottom_under_transparent_pixels_and_blends_the_rest() {
    let gray = px(200, 200, 200, 255);
    let mut bottom = RasterImage::new(2, 1, gray);
    let mut top = RasterImage::new(2, 1, px(255, 0, 0, 0));
    top.put_pixel(1, 0, px(255, 0, 0, 50));
    bottom.overlay(&top, 0, 0);
    assert_eq!(bottom.get_pixel(0, 0), gray);
    let mixed = bottom.get_pixel(1, 0);
    assert_eq!((mixed.r, mixed.g, mixed.b), (210, 160, 160));
}

#[test]
fn resize_gives_the_size_asked_for() {
    let src = RasterImage::new(4, 4, px(10, 20, 30, 255));
    for filter in [Filter::Lanczos3, Filter::Triangle] {
        let out = src.resize(8, 2, filter).unwrap();
        assert_eq!((out.width(), out.height()), (8, 2));
        for y in 0..2 {
            for x in 0..8 {
                assert_eq!(out.get_pixel(x, y), px(10, 20, 30, 255));
            }
        }
    }
}

#[test]
fn resize_to_the_same_size_is_a_copy() {
    let src = tagged(5, 4);
    let out = src.resize(5, 4, Filter::Lanczos3).unwrap();
    assert_eq!(out.into_raw(), src.into_raw());
}

#[test]
fn resize_interpolates_between_pixels() {
    let mut src = RasterImage::new(2, 1, px(0, 0, 0, 255));
    src.put_pixel(1, 0, px(200, 200, 200, 255));
    let out = src.resize(4, 1, Filter::Triangle).unwrap();
    assert_eq!((out.width(), out.height()), (4, 1));
    let reds: Vec<u8> = (0..4).map(|x| out.get_pixel(x, 0).r).collect();
    assert_eq!(reds[0], 0);
    assert_eq!(reds[3], 200);
    assert!(reds[0] < reds[1] && reds[1] < reds[2] && reds[2] < reds[3]);
}

#[test]
fn resize_of_an_empty_image_is_transparent() {
    let src = RasterImage::from_raw(0, 5, vec![]).unwrap();
    let out = src.resize(3, 2, Filter::Lanczos3).unwrap();
    assert_eq!((out.width(), out.height()), (3, 2));
    assert_eq!(out.into_raw(), vec![0u8; 24]);
}

#[test]
fn resize_to_nothing_is_empty() {
    let src = tagged(5, 4);
    let out = src.resize(0, 0, Filter::Lanczos3).unwrap();
    assert_eq!((out.width(), out.height()), (0, 0));
    let flat = src.resize(3, 0, Filter::Triangle).unwrap();
    assert_eq!((flat.width(), flat.height()), (3, 0));
    let thin = src.resize(0, 3, Filter::Triangle).unwrap();
    assert_eq!((thin.width(), thin.height()), (0, 3));
}

#[test]
fn resize_refuses_what_does_not_fit_into_memory() {
    let src = tagged(5, 4);
    assert!(src.resize(u32::MAX, u32::MAX, Filter::Triangle).is_none());
}

#[test]
fn memory_limits() {
    assert!(is_workable(1000, 1000));
    assert!(is_storable(1000, 1000));
    assert!(is_workable(0, u64::MAX));
    assert!(is_workable(u64::MAX, 0));
    assert!(!is_workable(u64::MAX, 2));
    assert!(!is_storable(u64::MAX, u64::MAX));
    let most = (usize::MAX as u64) / 32;
    assert!(is_workable(most, 1));
    assert!(is_workable(1, most));
    assert!(!is_workable(most + 1, 1));
    assert!(!is_workable(1, most + 1));
    let bytes = (usize::MAX as u64) / 8;
    assert!(is_storable(bytes, 1));
    assert!(!is_storable(bytes + 1, 1));
    assert!(is_storable(bytes / 2, 2));
    assert!(!is_storable(bytes / 2 + 1, 2));
}

#[test]
fn resize_between_small_sizes_always_gives_the_size_asked_for() {
    for filter in [Filter::Lanczos3, Filter::Triangle] {
        for sw in 1..7u32 {
            for sh in 1..7u32 {
                let src = tagged(sw, sh);
                for w in [0u32, 1, 2, 3, 5, 8, 13, 64] {
                    for h in [0u32, 1, 2, 3, 5, 8, 13, 64] {
                        let out = src.resize(w, h, filter).unwrap();
                        assert_eq!((out.width(), out.height()), (w, h));
                        assert_eq!(out.into_raw().len(), (4 * w * h) as usize);
                    }
                }
            }
        }
    }
}

#[test]
fn resize_shrinks_large_images() {
    let src = RasterImage::new(900, 700, px(10, 20, 30, 255));
    for filter in [Filter::Lanczos3, Filter::Triangle] {
        let out = src.resize(3, 2, filter).unwrap();
        assert_eq!((out.width(), out.height()), (3, 2));
        assert_eq!(out.get_pixel(1, 1), px(10, 20, 30, 255));
        let line = src.resize(1, 1200, filter).unwrap();
        assert_eq!((line.width(), line.height()), (1, 1200));
        assert_eq!(line.get_pixel(0, 600), px(10, 20, 30, 255));
    }
}
