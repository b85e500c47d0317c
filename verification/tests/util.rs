use gpu_image::util::{
    calculate_image_size, output_size, scaled, Resize, Size, SizeF, MARGIN,
};

fn next_random(state: &mut u64) -> u32 {
    *state = state.wrapping_mul(6364136223846793005).wrapping_add(1442695040888963407);
    (*state >> 32) as u32
}

fn reference_fit(window: (u32, u32), image: (u32, u32)) -> (u32, u32) {
    let img_aspect = image.0 as f32 / image.1 as f32;
    let win_aspect = window.0 as f32 / window.1 as f32;
    if img_aspect > win_aspect {
        (window.0, (window.0 as f32 / img_aspect) as u32)
    } else {
        ((window.1 as f32 * img_aspect) as u32, window.1)
    }
}

fn reference_resize(size: (u32, u32), factor: f32) -> (u32, u32) {
    ((size.0 as f32 * factor).round() as u32, (size.1 as f32 * factor).round() as u32)
}

fn fit(window: (u32, u32), image: (u32, u32)) -> (u32, u32) {
    let fitted = calculate_image_size(Size::new(window.0, window.1), Size::new(image.0, image.1));
    (fitted.width, fitted.height)
}

#[test]
fn margin_is_one_point_two() {
    assert_eq!(MARGIN, 1.2f32.to_bits());
}

#[test]
fn wide_image_takes_the_width_of_the_window() {
    assert_eq!(fit((1024, 1024), (2000, 1000)), (1024, 512));
    assert_eq!(fit((1000, 500), (400, 100)), (1000, 250));
}

#[test]
fn tall_image_takes_the_height_of_the_window() {
    assert_eq!(fit((1024, 1024), (1000, 2000)), (512, 1024));
    assert_eq!(fit((1000, 500), (100, 400)), (125, 500));
}

#[test]
fn same_proportion_fills_the_window() {
    assert_eq!(fit((800, 600), (400, 300)), (800, 600));
    assert_eq!(fit((1024, 974), (1024, 974)), (1024, 974));
}

#[test]
fn empty_window_gives_an_empty_fit() {
    assert_eq!(fit((0, 0), (4, 3)), reference_fit((0, 0), (4, 3)));
    assert_eq!(fit((0, 0), (4, 3)), (0, 0));
    assert_eq!(fit((100, 0), (4, 3)), reference_fit((100, 0), (4, 3)));
    assert_eq!(fit((0, 100), (4, 3)), reference_fit((0, 100), (4, 3)));
}

#[test]
fn fit_matches_single_precision_arithmetic_on_photo_sizes() {
    for image in [(5472u32, 3648u32), (5496, 3670), (3648, 5472), (1920, 1080), (1, 1), (3, 7)] {
        for width in (0..2000u32).step_by(7) {
            for height in (0..2000u32).step_by(13) {
                assert_eq!(
                    fit((width, height), image),
                    reference_fit((width, height), image),
                    "window {}x{} image {:?}",
                    width,
                    height,
                    image
                );
            }
        }
    }
}

#[test]
fn fit_matches_single_precision_arithmetic_on_a_sweep() {
    let mut state: u64 = 31;
    for _ in 0..200_000 {
        let window = (
            next_random(&mut state) >> (next_random(&mut state) % 32),
            next_random(&mut state) >> (next_random(&mut state) % 32),
        );
        let image = (
            (next_random(&mut state) >> (next_random(&mut state) % 32)).max(1),
            (next_random(&mut state) >> (next_random(&mut state) % 32)).max(1),
        );
        assert_eq!(fit(window, image), reference_fit(window, image), "{:?} {:?}", window, image);
    }
}

#[test]
fn margin_enlarges_by_a_fifth() {
    assert_eq!(Size::new(1000, 500).resize(MARGIN), Size::new(1200, 600));
    assert_eq!(Size::new(100, 50).resize(MARGIN), Size::new(120, 60));
    assert_eq!(Size::new(0, 1).resize(MARGIN), Size::new(0, 1));
    assert_eq!(Size::new(3, 2).resize(MARGIN), Size::new(4, 2));
    assert_eq!(Size::new(u32::MAX, 1024).resize(MARGIN), Size::new(u32::MAX, 1229));
}

#[test]
fn resize_matches_single_precision_arithmetic() {
    let mut state: u64 = 37;
    for _ in 0..200_000 {
        let size = (
            next_random(&mut state) >> (next_random(&mut state) % 32),
            next_random(&mut state) >> (next_random(&mut state) % 32),
        );
        let resized = Size::new(size.0, size.1).resize(MARGIN);
        assert_eq!((resized.width, resized.height), reference_resize(size, 1.2));
    }
    for width in 0..20_000u32 {
        let resized = Size::new(width, width / 3).resize(MARGIN);
        assert_eq!((resized.width, resized.height), reference_resize((width, width / 3), 1.2));
    }
    for factor in [0.5f32, 1.0, 2.0, 0.1, 3.75, 1e-9, 1e9] {
        let resized = Size::new(1023, 77).resize(factor.to_bits());
        assert_eq!((resized.width, resized.height), reference_resize((1023, 77), factor));
    }
}

#[test]
fn single_precision_sizes_scale_by_the_factor() {
    let size = SizeF { width: 100.0f32.to_bits(), height: 0.75f32.to_bits() };
    let resized = size.resize(MARGIN);
    assert_eq!(resized.width, (100.0f32 * 1.2f32).to_bits());
    assert_eq!(resized.height, (0.75f32 * 1.2f32).to_bits());
}

#[test]
fn render_target_is_the_fit_with_the_margin() {
    let size = output_size(Size::new(1024, 1024), Size::new(2000, 1000));
    assert_eq!(size, Size::new(1229, 614));
    assert_eq!(output_size(Size::new(100, 50), Size::new(4, 2)), Size::new(120, 60));
    let mut state: u64 = 41;
    for _ in 0..100_000 {
        let window = (next_random(&mut state) % 8192, next_random(&mut state) % 8192);
        let image = (next_random(&mut state) % 8192 + 1, next_random(&mut state) % 8192 + 1);
        let size = output_size(Size::new(window.0, window.1), Size::new(image.0, image.1));
        assert_eq!(
            (size.width, size.height),
            reference_resize(reference_fit(window, image), 1.2)
        );
    }
}

#[test]
fn every_factor_scales_as_single_precision_arithmetic_does() {
    let mut state: u64 = 43;
    for _ in 0..400_000 {
        let dimension = next_random(&mut state) >> (next_random(&mut state) % 33).min(31);
        let factor = next_random(&mut state);
        let expected = (dimension as f32 * f32::from_bits(factor)).round() as u32;
        assert_eq!(scaled(dimension, factor), expected, "{} * {:#x}", dimension, factor);
    }
    let factors = [
        0u32,
        1,
        0x7f_ffff,
        0x80_0000,
        0x80_0001,
        0x3f7f_ffff,
        0x3f80_0000,
        0x3f99_999a,
        0x6e7f_ffff,
        0x6e80_0000,
        0x7f7f_ffff,
        0x7f80_0000,
        0x7f80_0001,
        0x7fc0_0000,
        0x7fff_ffff,
        0x8000_0000,
        0x8000_0001,
        0xbf80_0000,
        0xff80_0000,
        0xffc0_0000,
        0xffff_ffff,
    ];
    for factor in factors {
        for dimension in [0u32, 1, 2, 3, 1000, 0xff_ffff, 0x100_0001, 0x7fff_ffff, u32::MAX] {
            let expected = (dimension as f32 * f32::from_bits(factor)).round() as u32;
            assert_eq!(scaled(dimension, factor), expected, "{} * {:#x}", dimension, factor);
        }
    }
}

#[test]
fn odd_factors_give_the_ends_of_the_range() {
    assert_eq!(scaled(7, f32::NAN.to_bits()), 0);
    assert_eq!(scaled(7, (-1.2f32).to_bits()), 0);
    assert_eq!(scaled(7, 0), 0);
    assert_eq!(scaled(7, f32::INFINITY.to_bits()), u32::MAX);
    assert_eq!(scaled(0, f32::INFINITY.to_bits()), 0);
    assert_eq!(scaled(7, 1e30f32.to_bits()), u32::MAX);
    assert_eq!(scaled(7, 1e-40f32.to_bits()), 0);
    assert_eq!(Size::new(10, 0).resize(1e30f32.to_bits()), Size::new(u32::MAX, 0));
}

#[test]
fn images_without_width_or_height_fit_as_single_precision_arithmetic_says() {
    for window in [(0u32, 0u32), (100, 0), (0, 100), (640, 480), (u32::MAX, u32::MAX)] {
        for image in [(0u32, 0u32), (0, 5), (5, 0), (0, u32::MAX), (u32::MAX, 0)] {
            assert_eq!(fit(window, image), reference_fit(window, image), "{:?} {:?}", window, image);
        }
    }
    assert_eq!(fit((640, 480), (0, 0)), (0, 480));
    assert_eq!(fit((640, 480), (0, 5)), (0, 480));
    assert_eq!(fit((640, 480), (5, 0)), (640, 0));
    assert_eq!(fit((640, 0), (5, 0)), (0, 0));
}

#[test]
fn margin_never_shrinks_and_never_doubles() {
    let mut state: u64 = 47;
    for _ in 0..200_000 {
        let value = next_random(&mut state) >> 9;
        let enlarged = scaled(value, MARGIN);
        assert!(value <= enlarged && enlarged as u64 <= 2 * value as u64, "value {}", value);
    }
    for value in 0..100_000u32 {
        let enlarged = scaled(value, MARGIN);
        assert!(value <= enlarged && enlarged <= 2 * value, "value {}", value);
    }
    assert_eq!(scaled(0x7f_ffff, MARGIN), 10066329);
}
