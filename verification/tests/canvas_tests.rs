use fractal_dispatch::canvas::{put_color_in_image, tile_origin, Canvas, IMAGE_SIDE, TILE_SIDE};
use fractal_dispatch::fractal::FractalName;
use fractal_dispatch::tiles::create_params;
use fractal_dispatch::types::{Point, Range};

fn shades(n: usize) -> Vec<[u8; 3]> {
    (0..n).map(|k| [(k % 251) as u8 + 1, (k / 251 % 251) as u8, (k % 7) as u8]).collect()
}

#[test]
fn a_new_canvas_is_black() {
    let canvas = Canvas::new(4, 3).unwrap();
    assert_eq!(canvas.dimensions(), (4, 3));
    assert_eq!(canvas.to_raw(), vec![0u8; 36]);
    assert_eq!(canvas.pixel(0, 0), Some([0, 0, 0]));
    assert_eq!(canvas.pixel(3, 2), Some([0, 0, 0]));
    assert_eq!(canvas.pixel(4, 0), None);
    assert_eq!(canvas.pixel(0, 3), None);
    let empty = Canvas::new(0, 0).unwrap();
    assert_eq!(empty.dimensions(), (0, 0));
    assert_eq!(empty.to_raw(), Vec::<u8>::new());
}

#[test]
fn a_canvas_that_cannot_be_counted_is_refused() {
    assert!(Canvas::new(u32::MAX, u32::MAX).is_none());
    assert!(Canvas::new(u32::MAX, 0).is_some() == (3 * (u32::MAX as u128) <= isize::MAX as u128));
}

#[test]
fn tiles_begin_where_the_plane_formula_puts_them() {
    let params = create_params(FractalName::Julia);
    for (k, task) in params.iter().enumerate() {
        let x = ((f64::from_bits(task.range.min.x) + 1.2) / 2.4 * 1200.0) as u32;
        let y = ((f64::from_bits(task.range.min.y) + 1.2) / 2.4 * 1200.0) as u32;
        assert_eq!(tile_origin(&task.range), Some((x, y)));
        assert_eq!((x, y), (300 * (k as u32 % 4), 300 * (k as u32 / 4)));
    }
}

#[test]
fn a_rectangle_off_the_grid_begins_nowhere() {
    let half = Point::new(0.5f64.to_bits(), 0.0f64.to_bits());
    let one = Point::new(1.2f64.to_bits(), 1.2f64.to_bits());
    assert_eq!(tile_origin(&Range::new(half, one)), None);
    let edge = Point::new(1.2f64.to_bits(), 0.0f64.to_bits());
    assert_eq!(tile_origin(&Range::new(edge, one)), None);
    let minus_zero = Point::new((-0.0f64).to_bits(), 0.0f64.to_bits());
    assert_eq!(tile_origin(&Range::new(minus_zero, one)), None);
}

#[test]
fn a_tile_is_painted_row_after_row() {
    let mut canvas = Canvas::new(IMAGE_SIDE, IMAGE_SIDE).unwrap();
    let params = create_params(FractalName::Mandelbrot);
    let colors = shades(90_000);
    assert!(put_color_in_image(&params[6], &colors, &mut canvas));
    assert_eq!(canvas.dimensions(), (1200, 1200));
    assert_eq!(canvas.pixel(600, 300), Some(colors[0]));
    assert_eq!(canvas.pixel(601, 300), Some(colors[1]));
    assert_eq!(canvas.pixel(899, 300), Some(colors[299]));
    assert_eq!(canvas.pixel(600, 301), Some(colors[300]));
    assert_eq!(canvas.pixel(742, 417), Some(colors[117 * 300 + 142]));
    assert_eq!(canvas.pixel(899, 599), Some(colors[89_999]));
    assert_eq!(canvas.pixel(599, 300), Some([0, 0, 0]));
    assert_eq!(canvas.pixel(900, 300), Some([0, 0, 0]));
    assert_eq!(canvas.pixel(600, 299), Some([0, 0, 0]));
    assert_eq!(canvas.pixel(600, 600), Some([0, 0, 0]));
    let raw = canvas.to_raw();
    assert_eq!(raw.len(), 3 * 1200 * 1200);
    let at = (417 * 1200 + 742) * 3;
    assert_eq!(&raw[at..at + 3], &colors[117 * 300 + 142][..]);
}

#[test]
fn fewer_colours_paint_the_beginning_of_the_tile() {
    let mut canvas = Canvas::new(IMAGE_SIDE, IMAGE_SIDE).unwrap();
    let params = create_params(FractalName::Julia);
    let colors = shades(301);
    assert!(put_color_in_image(&params[0], &colors, &mut canvas));
    assert_eq!(canvas.pixel(0, 0), Some(colors[0]));
    assert_eq!(canvas.pixel(299, 0), Some(colors[299]));
    assert_eq!(canvas.pixel(0, 1), Some(colors[300]));
    assert_eq!(canvas.pixel(1, 1), Some([0, 0, 0]));
    assert_eq!(canvas.pixel(300, 0), Some([0, 0, 0]));
    assert!(put_color_in_image(&params[0], &Vec::new(), &mut canvas));
    assert_eq!(canvas.pixel(0, 0), Some(colors[0]));
}

#[test]
fn colours_beyond_one_tile_are_not_used() {
    let mut canvas = Canvas::new(IMAGE_SIDE, IMAGE_SIDE).unwrap();
    let params = create_params(FractalName::Julia);
    let colors = shades(90_000 + 5);
    assert!(put_color_in_image(&params[0], &colors, &mut canvas));
    assert_eq!(canvas.pixel(299, 299), Some(colors[89_999]));
    assert_eq!(canvas.pixel(0, 300), Some([0, 0, 0]));
    assert_eq!(canvas.pixel(4, 300), Some([0, 0, 0]));
}

#[test]
fn a_tile_outside_the_image_is_not_painted() {
    let mut canvas = Canvas::new(700, 1200).unwrap();
    let params = create_params(FractalName::Julia);
    assert!(put_color_in_image(&params[1], &shades(10), &mut canvas));
    assert!(!put_color_in_image(&params[2], &shades(10), &mut canvas));
    assert_eq!(canvas.pixel(600, 0), Some([0, 0, 0]));
    let mut small = Canvas::new(200, 200).unwrap();
    assert!(!put_color_in_image(&params[0], &shades(10), &mut small));
    assert_eq!(small.to_raw(), vec![0u8; 3 * 200 * 200]);
    let off_grid = {
        let mut task = params[0];
        task.range.min.x = 0.1f64.to_bits();
        task
    };
    assert!(!put_color_in_image(&off_grid, &shades(10), &mut canvas));
}

#[test]
fn sixteen_tiles_paint_every_pixel_once() {
    let mut canvas = Canvas::new(IMAGE_SIDE, IMAGE_SIDE).unwrap();
    let params = create_params(FractalName::Julia);
    for (k, task) in params.iter().enumerate() {
        let colors = vec![[k as u8 + 1, 0, 0]; (TILE_SIDE * TILE_SIDE) as usize];
        assert!(put_color_in_image(task, &colors, &mut canvas));
    }
    let raw = canvas.to_raw();
    for y in 0..1200usize {
        for x in 0..1200usize {
            let tile = 4 * (y / 300) + x / 300;
            assert_eq!(raw[(y * 1200 + x) * 3], tile as u8 + 1);
        }
    }
}
