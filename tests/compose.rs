use bpg::image::{add_border, white, Image, Rgba};
use bpg::matching::common_ratios;
use bpg::pipeline::border_image;
use bpg::ratio::Ratio;

fn px(r: u8, g: u8, b: u8, a: u8) -> Rgba {
    Rgba { r, g, b, a }
}

fn from_bytes(width: usize, bytes: Vec<u8>) -> Image {
    let pixels: Vec<Rgba> = bytes.chunks(4).map(|c| px(c[0], c[1], c[2], c[3])).collect();
    let rows: Vec<Vec<Rgba>> = pixels.chunks(width).map(|row| row.to_vec()).collect();
    Image::from_rows(rows).unwrap()
}

fn base_image(pixel: Rgba) -> Image {
    Image::from_pixel(2, 2, pixel)
}

#[test]
fn test_add_border() {
    let base = base_image(px(0, 0, 0, 255));
    let cases = [
        (
            (2, 2),
            from_bytes(2, vec![0, 0, 0, 255, 0, 0, 0, 255, 0, 0, 0, 255, 0, 0, 0, 255]),
        ),
        (
            (2, 3),
            from_bytes(
                2,
                vec![
                    0, 0, 0, 255, 0, 0, 0, 255, 0, 0, 0, 255, 0, 0, 0, 255, 255, 255, 255, 255,
                    255, 255, 255, 255,
                ],
            ),
        ),
        (
            (2, 4),
            from_bytes(
                2,
                vec![
                    255, 255, 255, 255, 255, 255, 255, 255, 0, 0, 0, 255, 0, 0, 0, 255, 0, 0, 0,
                    255, 0, 0, 0, 255, 255, 255, 255, 255, 255, 255, 255, 255,
                ],
            ),
        ),
        (
            (3, 2),
            from_bytes(
                3,
                vec![
                    0, 0, 0, 255, 0, 0, 0, 255, 255, 255, 255, 255, 0, 0, 0, 255, 0, 0, 0, 255,
                    255, 255, 255, 255,
                ],
            ),
        ),
        (
            (4, 2),
            from_bytes(
                4,
                vec![
                    255, 255, 255, 255, 0, 0, 0, 255, 0, 0, 0, 255, 255, 255, 255, 255, 255, 255,
                    255, 255, 0, 0, 0, 255, 0, 0, 0, 255, 255, 255, 255, 255,
                ],
            ),
        ),
    ];
    for (final_dims, expected) in cases {
        assert_eq!(add_border(&base, final_dims), expected);
    }
}

#[test]
fn test_add_border_transparent_base() {
    let base = base_image(px(0, 0, 0, 0));
    assert_eq!(add_border(&base, (12, 24)), Image::from_pixel(12, 24, px(255, 255, 255, 255)));
}

#[test]
fn add_border_centers_vertically_and_horizontally() {
    let black = px(0, 0, 0, 255);
    let base = base_image(black);
    let tall = add_border(&base, (2, 4));
    assert_eq!(tall.get_pixel(0, 0), white());
    assert_eq!(tall.get_pixel(1, 1), black);
    assert_eq!(tall.get_pixel(0, 2), black);
    assert_eq!(tall.get_pixel(1, 3), white());
    let wide = add_border(&base, (3, 2));
    assert_eq!(wide.get_pixel(0, 0), black);
    assert_eq!(wide.get_pixel(1, 1), black);
    assert_eq!(wide.get_pixel(2, 0), white());
    assert_eq!(wide.get_pixel(2, 1), white());
}

#[test]
fn add_border_blends_partly_transparent_pixels() {
    let half = px(0, 0, 0, 128);
    let out = add_border(&Image::from_pixel(1, 1, half), (3, 3));
    let mid = out.get_pixel(1, 1);
    assert_ne!(mid, half);
    assert_ne!(mid, white());
    assert!(mid.a >= 254);
    assert!(mid.r > 100 && mid.r < 140);
    assert_eq!(mid.r, mid.g);
    assert_eq!(mid.g, mid.b);
}

#[test]
fn add_border_leaves_input_unchanged() {
    let base = base_image(px(1, 2, 3, 255));
    let copy = base.clone();
    let _ = add_border(&base, (5, 5));
    assert_eq!(base, copy);
}

#[test]
fn from_rows_rejects_ragged_rows() {
    let a = px(1, 1, 1, 255);
    assert!(Image::from_rows(vec![vec![a, a], vec![a]]).is_none());
    let ok = Image::from_rows(vec![vec![a, a], vec![a, a], vec![a, a]]).unwrap();
    assert_eq!((ok.width(), ok.height()), (2, 3));
    let empty = Image::from_rows(vec![]).unwrap();
    assert_eq!((empty.width(), empty.height()), (0, 0));
}

#[test]
fn border_image_with_common_ratios() {
    let black = px(0, 0, 0, 255);
    // 30x20 is 3:2; border 10 on the width gives 40 wide, 40 * 2 / 3 = 26 high.
    let img = Image::from_pixel(30, 20, black);
    let out = border_image(&img, 10, &common_ratios(), None, false).unwrap();
    assert_eq!((out.width(), out.height()), (40, 26));
    assert_eq!(out.get_pixel(5, 3), black);
    assert_eq!(out.get_pixel(4, 3), white());
    assert_eq!(out.get_pixel(5, 2), white());
    assert_eq!(out.get_pixel(34, 22), black);
    assert_eq!(out.get_pixel(35, 22), white());
}

#[test]
fn border_image_with_forced_ratio() {
    let img = Image::from_pixel(20, 30, px(0, 0, 0, 255));
    // 2:3 image, forced 3:4 without orientation: candidates are 3:4 and 4:3.
    let out = border_image(&img, 10, &common_ratios(), Some(Ratio::new(3, 4)), false).unwrap();
    assert_eq!((out.width(), out.height()), (30, 40));
    // Forced orientation keeps 4:3 on a tall image.
    let out = border_image(&img, 10, &common_ratios(), Some(Ratio::new(4, 3)), true).unwrap();
    assert_eq!((out.width(), out.height()), (53, 40));
    // Forced 4:3 without orientation turns it to 3:4.
    let out = border_image(&img, 10, &common_ratios(), Some(Ratio::new(4, 3)), false).unwrap();
    assert_eq!((out.width(), out.height()), (30, 40));
}

#[test]
fn border_image_refuses_a_canvas_smaller_than_the_image() {
    // 100x99 forced to 16:9 gives a canvas 100 wide and 56 high.
    let img = Image::from_pixel(100, 99, px(0, 0, 0, 255));
    assert!(border_image(&img, 0, &common_ratios(), Some(Ratio::new(16, 9)), true).is_none());
    let out = border_image(&img, 0, &common_ratios(), Some(Ratio::new(9, 16)), true).unwrap();
    assert_eq!((out.width(), out.height()), (100, 177));
}

#[test]
fn border_image_refuses_degenerate_input() {
    let empty = Image::from_pixel(0, 0, white());
    assert!(border_image(&empty, 10, &common_ratios(), None, false).is_none());
    let img = Image::from_pixel(4, 2, white());
    assert!(border_image(&img, 10, &common_ratios(), Some(Ratio::new(0, 1)), false).is_none());
    assert!(border_image(&img, 10, &common_ratios(), Some(Ratio::new(0, 1)), true).is_none());
}

#[test]
fn border_image_is_deterministic() {
    let img = Image::from_pixel(7, 5, px(10, 20, 30, 200));
    let a = border_image(&img, 4, &common_ratios(), None, false);
    let b = border_image(&img, 4, &common_ratios(), None, false);
    assert_eq!(a, b);
}
