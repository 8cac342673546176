use tracer::raster::{Raster, Rgb};

#[test]
fn new_raster_is_filled() {
    let sky = Rgb::new(250, 200, 200);
    let r = Raster::new(4, 3, sky);
    assert_eq!(r.width(), 4);
    assert_eq!(r.height(), 3);
    for y in 0..3 {
        for x in 0..4 {
            assert_eq!(r.pixel(x, y), sky);
        }
    }
}

#[test]
fn set_pixel_changes_only_that_pixel() {
    let sky = Rgb::new(1, 2, 3);
    let red = Rgb::new(255, 0, 0);
    let mut r = Raster::new(5, 4, sky);
    r.set_pixel(3, 2, red);
    assert_eq!(r.pixel(3, 2), red);
    assert_eq!(r.pixel(2, 3), sky);
    assert_eq!(r.pixel(4, 1), sky);
    assert_eq!(r.pixel(0, 0), sky);
}

#[test]
fn corners_are_distinct_pixels() {
    let mut r = Raster::new(200, 200, Rgb::new(0, 0, 0));
    r.set_pixel(0, 0, Rgb::new(1, 1, 1));
    r.set_pixel(199, 0, Rgb::new(2, 2, 2));
    r.set_pixel(0, 199, Rgb::new(3, 3, 3));
    r.set_pixel(199, 199, Rgb::new(4, 4, 4));
    assert_eq!(r.pixel(0, 0), Rgb::new(1, 1, 1));
    assert_eq!(r.pixel(199, 0), Rgb::new(2, 2, 2));
    assert_eq!(r.pixel(0, 199), Rgb::new(3, 3, 3));
    assert_eq!(r.pixel(199, 199), Rgb::new(4, 4, 4));
    assert_eq!(r.pixel(100, 100), Rgb::new(0, 0, 0));
}

#[test]
fn empty_raster() {
    let r = Raster::new(0, 7, Rgb::new(9, 9, 9));
    assert_eq!(r.width(), 0);
    assert_eq!(r.height(), 7);
}
