use image_borders::img::{RasterImage, Rgba};
use image_borders::layout::plan_transform;
use image_borders::transform::transform;
use image_borders::types::{CropSpec, Point, Rect, RenderError, Rotation, ScaleFactor, Size};

fn size(width: u32, height: u32) -> Size {
    Size { width, height }
}

fn marked(width: u32, height: u32) -> RasterImage {
    let mut data = Vec::new();
    for y in 0..height {
        for x in 0..width {
            data.extend_from_slice(&[x as u8, y as u8, (10 * x + y) as u8, 255]);
        }
    }
    RasterImage::from_raw(width, height, data).unwrap()
}

fn mark(x: u32, y: u32) -> Rgba {
    Rgba { r: x as u8, g: y as u8, b: (10 * x + y) as u8, a: 255 }
}

#[test]
fn transform_plan_for_a_landscape_photo() {
    let plan = plan_transform(size(800, 600), None, None, size(1000, 1000), None);
    assert!(!plan.portrait);
    assert_eq!(plan.crop, None);
    assert_eq!(plan.fit, size(1000, 750));
    assert_eq!(plan.offset, Point { x: 0, y: 125 });
}

#[test]
fn transform_plan_takes_the_orientation_before_the_crop() {
    let crop = CropSpec { top: None, right: Some(700), bottom: None, left: None };
    let plan = plan_transform(size(800, 600), None, Some(crop), size(1000, 1000), None);
    assert!(!plan.portrait);
    assert_eq!(plan.crop, Some(Rect { x: 0, y: 0, width: 100, height: 600 }));
    assert_eq!(plan.fit, size(166, 1000));
    assert_eq!(plan.offset, Point { x: 417, y: 0 });
    let turned =
        plan_transform(size(800, 600), Some(Rotation::Rotate270), None, size(1000, 1000), None);
    assert!(turned.portrait);
    assert_eq!(turned.fit, size(750, 1000));
    assert_eq!(turned.offset, Point { x: 125, y: 0 });
}

#[test]
fn transform_resamples_to_the_fitted_size() {
    let photo = RasterImage::new(8, 6, Rgba { r: 9, g: 8, b: 7, a: 255 });
    let out = transform(&photo, None, None, size(100, 100), None).ok().unwrap();
    assert_eq!(out.fit, size(100, 75));
    assert_eq!((out.photo.width(), out.photo.height()), (100, 75));
    assert_eq!(out.offset, Point { x: 0, y: 12 });
    assert!(!out.portrait);
    assert_eq!(out.photo.get_pixel(50, 40), Rgba { r: 9, g: 8, b: 7, a: 255 });
}

#[test]
fn transform_halves_the_fit_with_a_scale_factor_of_a_half() {
    let photo = RasterImage::new(8, 6, Rgba { r: 9, g: 8, b: 7, a: 255 });
    let half = ScaleFactor::new(1, 2);
    let out = transform(&photo, None, None, size(100, 100), half).ok().unwrap();
    assert_eq!(out.fit, size(50, 37));
    assert_eq!((out.photo.width(), out.photo.height()), (50, 37));
    assert_eq!(out.offset, Point { x: 25, y: 31 });
}

#[test]
fn transform_turns_then_cuts() {
    let photo = marked(4, 3);
    // the canvas is 1000 long, so one unit is one pixel
    let crop = CropSpec { top: Some(1), right: None, bottom: None, left: Some(1) };
    let canvas = Size { width: 2, height: 1000 };
    let out = transform(&photo, Some(Rotation::Rotate90), Some(crop), canvas, None).ok().unwrap();
    // turned: 3 x 4; cut: 2 x 3 from (1, 1); fitted: 2 x 3 again
    assert!(out.portrait);
    assert_eq!(out.fit, size(2, 3));
    assert_eq!(out.offset, Point { x: 0, y: 498 });
    let turned = photo.rotate(Rotation::Rotate90);
    for y in 0..3 {
        for x in 0..2 {
            assert_eq!(out.photo.get_pixel(x, y), turned.get_pixel(x + 1, y + 1));
        }
    }
    assert_eq!(out.photo.get_pixel(0, 0), mark(1, 1));
}

#[test]
fn transform_of_a_photo_cut_to_nothing_is_empty() {
    let photo = marked(4, 3);
    let crop = CropSpec { top: None, right: None, bottom: None, left: Some(4) };
    let out = transform(&photo, None, Some(crop), size(1000, 1000), None).ok().unwrap();
    assert_eq!(out.fit, size(0, 0));
    assert_eq!((out.photo.width(), out.photo.height()), (0, 0));
    assert_eq!(out.offset, Point { x: 500, y: 500 });
}

#[test]
fn transform_refuses_what_does_not_fit_into_memory() {
    let photo = marked(4, 4);
    let out = transform(&photo, None, None, size(u32::MAX, u32::MAX), None);
    assert_eq!(out.err(), Some(RenderError::Limits));
}
