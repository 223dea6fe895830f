use led_matrix::gamma::gamma_correct;
use led_matrix::image::{Color, Image};

fn ref_scale(x: u8, num: u32, den: u32) -> u8 {
    let exact = (x as f64) * (num as f64) / (den as f64);
    let clamped = exact.max(0.0).min(255.0);
    clamped.round() as u8
}

#[test]
fn gamma_endpoints_fixed() {
    assert_eq!(gamma_correct(0), 0);
    assert_eq!(gamma_correct(255), 255);
}

#[test]
fn gamma_is_quadratic_rounded() {
    // 128 * 128 / 255 = 64.25... -> 64; 200 * 200 / 255 = 156.86... -> 157
    assert_eq!(gamma_correct(128), 64);
    assert_eq!(gamma_correct(200), 157);
    // never decreasing over the whole channel range
    for x in 0..255u8 {
        assert!(gamma_correct(x) <= gamma_correct(x + 1));
    }
}

#[test]
fn color_gamma_corrects_each_channel() {
    let c = Color { r: 0, g: 128, b: 255 };
    let g = c.gamma_correct();
    assert_eq!((g.r, g.g, g.b), (0, 64, 255));
}

#[test]
fn scale_matches_round_clamp() {
    // doubling 100 gives 200; doubling 200 clamps at 255
    let c = Color { r: 100, g: 200, b: 0 };
    let d = c.scale(2, 1);
    assert_eq!((d.r, d.g, d.b), (200, 255, 0));
    // halving rounds to nearest, ties away from zero: 1/2 -> 1, 3/2 -> 2
    let e = Color { r: 1, g: 3, b: 5 }.scale(1, 2);
    assert_eq!((e.r, e.g, e.b), (1, 2, 3));
}

#[test]
fn scale_agrees_with_float_reference() {
    let samples: [(u8, u32, u32); 7] = [
        (255, 1, 3),
        (17, 7, 5),
        (200, 3, 2),
        (1, 1, 2),
        (255, 1000, 999),
        (0, 5, 1),
        (128, 0, 7),
    ];
    for (x, num, den) in samples {
        let got = Color { r: x, g: x, b: x }.scale(num, den);
        assert_eq!(got.r, ref_scale(x, num, den));
    }
}

#[test]
fn solid_image_has_one_color_everywhere() {
    let c = Color { r: 9, g: 8, b: 7 };
    let img = Image::new_solid(c);
    for row in 1..=8 {
        for col in 1..=8 {
            assert_eq!(img.get(row, col), c);
        }
    }
}

#[test]
fn row_returns_the_eight_cells_in_column_order() {
    let mut img = Image::new_solid(Color { r: 0, g: 0, b: 0 });
    for col in 1..=8usize {
        img.set(3, col, Color { r: col as u8, g: 0, b: 0 });
    }
    let row = img.row(3);
    assert_eq!(row.len(), 8);
    for col in 1..=8usize {
        assert_eq!(row[col - 1].r, col as u8);
    }
}

#[test]
fn gradient_brightest_at_origin_and_monotone() {
    let img = Image::gradient(Color { r: 255, g: 255, b: 255 });
    let top = img.get(1, 1);
    // 255 / (1 + 1 + 1) = 85
    assert_eq!((top.r, top.g, top.b), (85, 85, 85));
    // 255 / (1 + 64 + 8) = 3
    assert_eq!(img.get(8, 8).r, 3);
    let mut cells: Vec<(usize, u8)> = Vec::new();
    for row in 1..=8usize {
        for col in 1..=8usize {
            cells.push((row * row + col, img.get(row, col).r));
        }
    }
    for a in &cells {
        for b in &cells {
            if a.0 <= b.0 {
                assert!(a.1 >= b.1);
            }
        }
    }
}

#[test]
fn gradient_cell_formula_exact() {
    let img = Image::gradient(Color { r: 90, g: 60, b: 30 });
    for row in 1..=8usize {
        for col in 1..=8usize {
            let d = (1 + row * row + col) as u32;
            let c = img.get(row, col);
            assert_eq!(c.r, (90 / d) as u8);
            assert_eq!(c.g, (60 / d) as u8);
            assert_eq!(c.b, (30 / d) as u8);
        }
    }
}

#[test]
fn byte_view_round_trips_any_buffer() {
    let mut bytes: Vec<u8> = Vec::new();
    for i in 0..192u32 {
        bytes.push((i * 7 % 251) as u8);
    }
    let img = Image::from_bytes(&bytes);
    // reading back through the grid accessor sees exactly the written bytes
    for p in 0..64usize {
        let c = img.get(p / 8 + 1, p % 8 + 1);
        assert_eq!(c.r, bytes[3 * p]);
        assert_eq!(c.g, bytes[3 * p + 1]);
        assert_eq!(c.b, bytes[3 * p + 2]);
    }
    assert_eq!(img.to_bytes(), bytes);
}

#[test]
fn byte_view_round_trips_an_image() {
    let img = Image::gradient(Color { r: 200, g: 100, b: 50 });
    let copy = Image::from_bytes(&img.to_bytes());
    for row in 1..=8 {
        for col in 1..=8 {
            assert_eq!(copy.get(row, col), img.get(row, col));
        }
    }
}
