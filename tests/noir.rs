use desat::{clamp, luma, transform_gray, transform_noir, ColorRaster, Rgb};

fn rgb(r: u8, g: u8, b: u8) -> Rgb {
    Rgb { r, g, b }
}

fn raster(width: u32, height: u32, pixels: Vec<Rgb>) -> ColorRaster {
    ColorRaster::new(width, height, pixels).expect("valid raster")
}

fn noir_of_pixel(p: Rgb) -> u8 {
    let out = transform_noir(&raster(1, 1, vec![p]));
    assert_eq!(out.samples().len(), 1);
    out.samples()[0]
}

#[test]
fn pure_red_gives_54() {
    assert_eq!(luma(rgb(255, 0, 0)), 54);
    assert_eq!(noir_of_pixel(rgb(255, 0, 0)), 54);
}

#[test]
fn pure_green_gives_182() {
    assert_eq!(luma(rgb(0, 255, 0)), 182);
    assert_eq!(noir_of_pixel(rgb(0, 255, 0)), 182);
}

#[test]
fn pure_blue_gives_18() {
    assert_eq!(luma(rgb(0, 0, 255)), 18);
    assert_eq!(noir_of_pixel(rgb(0, 0, 255)), 18);
}

#[test]
fn mid_gray_keeps_128() {
    assert_eq!(luma(rgb(128, 128, 128)), 128);
    assert_eq!(noir_of_pixel(rgb(128, 128, 128)), 128);
}

#[test]
fn white_and_black_hit_the_bounds() {
    assert_eq!(noir_of_pixel(rgb(255, 255, 255)), 255);
    assert_eq!(noir_of_pixel(rgb(0, 0, 0)), 0);
}

#[test]
fn every_neutral_gray_keeps_its_level() {
    for level in 0..=255u8 {
        assert_eq!(luma(rgb(level, level, level)), level);
    }
}

#[test]
fn end_to_end_two_by_two() {
    let input = raster(
        2,
        2,
        vec![rgb(255, 0, 0), rgb(0, 255, 0), rgb(0, 0, 255), rgb(128, 128, 128)],
    );
    let out = transform_noir(&input);
    assert_eq!(out.width(), 2);
    assert_eq!(out.height(), 2);
    assert_eq!(out.samples(), &vec![54u8, 182, 18, 128]);
}

#[test]
fn end_to_end_with_white_and_black() {
    let input = raster(
        3,
        2,
        vec![
            rgb(255, 0, 0),
            rgb(0, 255, 0),
            rgb(0, 0, 255),
            rgb(128, 128, 128),
            rgb(255, 255, 255),
            rgb(0, 0, 0),
        ],
    );
    let out = transform_noir(&input);
    assert_eq!(out.width(), 3);
    assert_eq!(out.height(), 2);
    assert_eq!(out.samples(), &vec![54u8, 182, 18, 128, 255, 0]);
}

#[test]
fn output_size_matches_input() {
    for (w, h) in [(1u32, 1u32), (1, 7), (5, 1), (4, 3)] {
        let n = (w * h) as usize;
        let pixels: Vec<Rgb> = (0..n).map(|i| rgb(i as u8, (i * 7) as u8, (i * 13) as u8)).collect();
        let input = raster(w, h, pixels);
        let noir = transform_noir(&input);
        assert_eq!((noir.width(), noir.height()), (w, h));
        assert_eq!(noir.samples().len(), n);
        let gray = transform_gray(&input);
        assert_eq!((gray.width(), gray.height()), (w, h));
        assert_eq!(gray.samples().len(), n);
    }
}

#[test]
fn repeated_runs_are_identical() {
    let pixels: Vec<Rgb> = (0..64u32).map(|i| rgb((i * 4) as u8, (255 - i * 3) as u8, (i * 11) as u8)).collect();
    let input = raster(8, 8, pixels);
    let first = transform_noir(&input);
    let second = transform_noir(&input);
    assert_eq!(first.samples(), second.samples());
    assert_eq!((first.width(), first.height()), (second.width(), second.height()));
}

#[test]
fn clamp_saturates_and_rounds_half_away_from_zero() {
    assert_eq!(clamp(-1), 0);
    assert_eq!(clamp(i64::MIN), 0);
    assert_eq!(clamp(0), 0);
    assert_eq!(clamp(4999), 0);
    assert_eq!(clamp(5000), 1);
    assert_eq!(clamp(542130), 54);
    assert_eq!(clamp(2544999), 254);
    assert_eq!(clamp(2545000), 255);
    assert_eq!(clamp(2550000), 255);
    assert_eq!(clamp(2550001), 255);
    assert_eq!(clamp(i64::MAX), 255);
}

#[test]
fn gray_rounds_down_where_noir_rounds() {
    let input = raster(
        4,
        1,
        vec![rgb(255, 0, 0), rgb(0, 255, 0), rgb(0, 1, 0), rgb(200, 100, 50)],
    );
    let gray = transform_gray(&input);
    let noir = transform_noir(&input);
    // 7152 / 10000 rounds to 1 but is 0 rounded down;
    // 2126*200 + 7152*100 + 722*50 = 1176500, so 117.65: 118 against 117.
    assert_eq!(gray.samples(), &vec![54u8, 182, 0, 117]);
    assert_eq!(noir.samples(), &vec![54u8, 182, 1, 118]);
}

#[test]
fn gray_and_noir_differ_by_at_most_one() {
    let mut pixels = Vec::new();
    for r in (0..=255u32).step_by(15) {
        for g in (0..=255u32).step_by(17) {
            for b in (0..=255u32).step_by(51) {
                pixels.push(rgb(r as u8, g as u8, b as u8));
            }
        }
    }
    let n = pixels.len() as u32;
    let input = raster(n, 1, pixels);
    let gray = transform_gray(&input);
    let noir = transform_noir(&input);
    for (i, (g, l)) in gray.samples().iter().zip(noir.samples().iter()).enumerate() {
        let (g, l) = (*g as u16, *l as u16);
        assert!(g <= l && l <= g + 1, "pixel {:?}: gray {} noir {}", input.pixels()[i], g, l);
    }
}
