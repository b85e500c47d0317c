use gpu_image::ieee::{
    single_div, single_mul, single_of_u16, single_of_u32, to_float,
    truncated_u32_of_single, u32_of_single, HIDDEN_BIT, MINUS_ONE, ONE, ZERO,
};
use gpu_image::program::XYZ_TO_SRGB;

fn next_random(state: &mut u64) -> u32 {
    *state = state.wrapping_mul(6364136223846793005).wrapping_add(1442695040888963407);
    (*state >> 32) as u32
}

#[test]
fn constants_are_the_patterns_they_name() {
    assert_eq!(ZERO, 0.0f32.to_bits());
    assert_eq!(ONE, 1.0f32.to_bits());
    assert_eq!(MINUS_ONE, (-1.0f32).to_bits());
    assert_eq!(HIDDEN_BIT, 1 << 23);
}

#[test]
fn xyz_to_srgb_holds_the_matrix() {
    let expected: [[f32; 3]; 3] = [
        [3.2406, -0.9689, 0.0557],
        [-1.5372, 1.8758, -0.2040],
        [-0.4986, 0.0415, 1.0570],
    ];
    for row in 0..3 {
        for column in 0..3 {
            assert_eq!(XYZ_TO_SRGB[row][column], expected[row][column].to_bits());
        }
    }
}

#[test]
fn every_sample_widens_as_the_hardware_does() {
    for value in 0..=u16::MAX {
        assert_eq!(single_of_u16(value), f32::from(value).to_bits(), "sample {}", value);
    }
}

#[test]
fn widening_gives_known_patterns() {
    assert_eq!(single_of_u16(0), 0);
    assert_eq!(single_of_u16(1), 0x3f80_0000);
    assert_eq!(single_of_u16(2), 0x4000_0000);
    assert_eq!(single_of_u16(3), 0x4040_0000);
    assert_eq!(single_of_u16(1024), 0x4480_0000);
    assert_eq!(single_of_u16(16383), 0x467f_fc00);
    assert_eq!(single_of_u16(65535), 0x477f_ff00);
}

#[test]
fn exact_conversion_covers_24_bits() {
    assert_eq!(single_of_u32(0), 0);
    assert_eq!(single_of_u32(0xff_ffff), (0xff_ffff as f32).to_bits());
    assert_eq!(single_of_u32(0x80_0000), 0x4b00_0000);
    let mut state: u64 = 7;
    for _ in 0..100_000 {
        let value = next_random(&mut state) >> 8;
        assert_eq!(single_of_u32(value), (value as f32).to_bits(), "value {}", value);
    }
}

#[test]
fn rounding_conversion_matches_a_cast_at_the_edges() {
    let edges: [u32; 24] = [
        0,
        1,
        0xff_ffff,
        0x100_0000,
        0x100_0001,
        0x100_0002,
        0x100_0003,
        0x100_0004,
        0x1ff_fffe,
        0x1ff_ffff,
        0x200_0000,
        0x200_0002,
        0x200_0006,
        0x7fff_ffbf,
        0x7fff_ffc0,
        0x7fff_ffff,
        0x8000_0000,
        0x8000_0080,
        0x8000_0081,
        0x8000_0180,
        0xffff_ff00,
        0xffff_ff7f,
        0xffff_ff80,
        0xffff_ffff,
    ];
    for value in edges {
        assert_eq!(single_of_u32(value), (value as f32).to_bits(), "value {:#x}", value);
    }
}

#[test]
fn rounding_conversion_rounds_ties_to_even() {
    // 2^24 + 1 lies halfway between 2^24 and 2^24 + 2: the even significand wins.
    assert_eq!(single_of_u32(0x100_0001), 0x4b80_0000);
    // 2^24 + 3 lies halfway between 2^24 + 2 and 2^24 + 4.
    assert_eq!(single_of_u32(0x100_0003), 0x4b80_0002);
    // The largest number rounds up to 2^32.
    assert_eq!(single_of_u32(u32::MAX), 0x4f80_0000);
}

#[test]
fn rounding_conversion_matches_a_cast_on_a_sweep() {
    let mut state: u64 = 11;
    for _ in 0..300_000 {
        let value = next_random(&mut state);
        assert_eq!(single_of_u32(value), (value as f32).to_bits(), "value {:#x}", value);
    }
    for shift in 0..32 {
        for delta in 0..64u32 {
            let base = 1u32 << shift;
            let up = base.wrapping_add(delta);
            let down = base.wrapping_sub(delta);
            assert_eq!(single_of_u32(up), (up as f32).to_bits());
            assert_eq!(single_of_u32(down), (down as f32).to_bits());
        }
    }
}

fn rounded(bits: u32) -> u32 {
    f32::from_bits(bits).round() as u32
}

#[test]
fn rounding_to_whole_numbers_gives_known_values() {
    assert_eq!(u32_of_single(0.0f32.to_bits()), 0);
    assert_eq!(u32_of_single(0.49f32.to_bits()), 0);
    assert_eq!(u32_of_single(0.5f32.to_bits()), 1);
    assert_eq!(u32_of_single(1.0f32.to_bits()), 1);
    assert_eq!(u32_of_single(1.5f32.to_bits()), 2);
    assert_eq!(u32_of_single(2.5f32.to_bits()), 3);
    assert_eq!(u32_of_single(1023.5f32.to_bits()), 1024);
    assert_eq!(u32_of_single(1024.0f32.to_bits()), 1024);
    assert_eq!(u32_of_single(4294967040.0f32.to_bits()), 4294967040);
    assert_eq!(u32_of_single(4294967296.0f32.to_bits()), u32::MAX);
    assert_eq!(u32_of_single(f32::INFINITY.to_bits()), u32::MAX);
    assert_eq!(u32_of_single(f32::NAN.to_bits()), 0);
    assert_eq!(u32_of_single((-0.0f32).to_bits()), 0);
    assert_eq!(u32_of_single((-3.7f32).to_bits()), 0);
    assert_eq!(u32_of_single(f32::NEG_INFINITY.to_bits()), 0);
    assert_eq!(u32_of_single(f32::MIN_POSITIVE.to_bits()), 0);
    assert_eq!(u32_of_single(1), 0);
}

#[test]
fn rounding_to_whole_numbers_matches_the_hardware_on_a_sweep() {
    let mut state: u64 = 13;
    for _ in 0..300_000 {
        let bits = next_random(&mut state);
        assert_eq!(u32_of_single(bits), rounded(bits), "pattern {:#x}", bits);
    }
    for exponent in 0..=255u32 {
        for fraction in [0u32, 1, 2, 0x3f_ffff, 0x40_0000, 0x40_0001, 0x7f_fffe, 0x7f_ffff] {
            let bits = (exponent << 23) | fraction;
            assert_eq!(u32_of_single(bits), rounded(bits), "pattern {:#x}", bits);
            let negative = bits | 0x8000_0000;
            assert_eq!(u32_of_single(negative), rounded(negative), "pattern {:#x}", negative);
        }
    }
}

#[test]
fn rounding_to_whole_numbers_matches_the_hardware_near_halves() {
    for whole in 0..5000u32 {
        for quarter in 0..4u32 {
            let value = whole as f32 + quarter as f32 * 0.25;
            assert_eq!(u32_of_single(value.to_bits()), value.round() as u32, "value {}", value);
        }
    }
}

#[test]
fn levels_widen_one_by_one() {
    let levels = to_float([0, 1, 15000, 65535]);
    assert_eq!(levels, [0.0f32.to_bits(), 1.0f32.to_bits(), 15000.0f32.to_bits(), 65535.0f32.to_bits()]);
}

fn ordinary(state: &mut u64, low_exponent: u32, high_exponent: u32) -> u32 {
    let fraction = next_random(state) & 0x7f_ffff;
    let exponent = low_exponent + next_random(state) % (high_exponent - low_exponent + 1);
    (exponent << 23) | fraction
}

#[test]
fn products_match_the_hardware() {
    let mut state: u64 = 17;
    for _ in 0..300_000 {
        let a = ordinary(&mut state, 64, 189);
        let b = ordinary(&mut state, 64, 189);
        let expected = (f32::from_bits(a) * f32::from_bits(b)).to_bits();
        assert_eq!(single_mul(a, b), expected, "{:#x} * {:#x}", a, b);
    }
    assert_eq!(single_mul(0, 0x3f99_999a), 0);
    assert_eq!(single_mul(0x3f99_999a, 0), 0);
    assert_eq!(single_mul(1000.0f32.to_bits(), 1.2f32.to_bits()), (1000.0f32 * 1.2f32).to_bits());
    assert_eq!(single_mul(3.0f32.to_bits(), 0.5f32.to_bits()), 1.5f32.to_bits());
}

#[test]
fn products_match_the_hardware_at_the_rim() {
    let fractions = [0u32, 1, 2, 3, 0x3f_ffff, 0x40_0000, 0x40_0001, 0x7f_fffe, 0x7f_ffff];
    for first in fractions {
        for second in fractions {
            for (low, high) in [(1u32, 127u32), (127, 127), (126, 253), (1, 254), (254, 1), (190, 189)] {
                let a = (low << 23) | first;
                let b = (high << 23) | second;
                let expected = (f32::from_bits(a) * f32::from_bits(b)).to_bits();
                assert_eq!(single_mul(a, b), expected, "{:#x} * {:#x}", a, b);
            }
        }
    }
}

#[test]
fn quotients_match_the_hardware() {
    let mut state: u64 = 19;
    for _ in 0..300_000 {
        let a = ordinary(&mut state, 64, 189);
        let b = ordinary(&mut state, 64, 189);
        let expected = (f32::from_bits(a) / f32::from_bits(b)).to_bits();
        assert_eq!(single_div(a, b), expected, "{:#x} / {:#x}", a, b);
    }
    assert_eq!(single_div(0, 0x3f99_999a), 0);
    assert_eq!(single_div(1.0f32.to_bits(), 3.0f32.to_bits()), (1.0f32 / 3.0f32).to_bits());
    assert_eq!(single_div(3.0f32.to_bits(), 2.0f32.to_bits()), 1.5f32.to_bits());
}

#[test]
fn quotients_match_the_hardware_at_the_rim() {
    let fractions = [0u32, 1, 2, 3, 0x3f_ffff, 0x40_0000, 0x40_0001, 0x7f_fffe, 0x7f_ffff];
    for first in fractions {
        for second in fractions {
            for (high, low) in [(127u32, 1u32), (127, 127), (254, 128), (1, 126), (129, 254), (200, 100)] {
                let a = (high << 23) | first;
                let b = (low << 23) | second;
                let expected = (f32::from_bits(a) / f32::from_bits(b)).to_bits();
                assert_eq!(single_div(a, b), expected, "{:#x} / {:#x}", a, b);
            }
        }
    }
}

#[test]
fn quotients_of_whole_numbers_match_the_hardware() {
    let mut state: u64 = 23;
    for _ in 0..200_000 {
        let a = next_random(&mut state) >> (next_random(&mut state) % 32);
        let b = (next_random(&mut state) >> (next_random(&mut state) % 32)).max(1);
        let expected = (a as f32 / b as f32).to_bits();
        assert_eq!(single_div(single_of_u32(a), single_of_u32(b)), expected, "{} / {}", a, b);
    }
}

#[test]
fn truncation_matches_the_hardware() {
    let mut state: u64 = 29;
    for _ in 0..300_000 {
        let bits = next_random(&mut state);
        assert_eq!(truncated_u32_of_single(bits), f32::from_bits(bits) as u32, "{:#x}", bits);
    }
    for exponent in 0..=255u32 {
        for fraction in [0u32, 1, 2, 0x3f_ffff, 0x40_0000, 0x40_0001, 0x7f_fffe, 0x7f_ffff] {
            let bits = (exponent << 23) | fraction;
            assert_eq!(truncated_u32_of_single(bits), f32::from_bits(bits) as u32);
            let negative = bits | 0x8000_0000;
            assert_eq!(truncated_u32_of_single(negative), f32::from_bits(negative) as u32);
        }
    }
    assert_eq!(truncated_u32_of_single(1.99f32.to_bits()), 1);
    assert_eq!(truncated_u32_of_single(0.99f32.to_bits()), 0);
    assert_eq!(truncated_u32_of_single(1023.99f32.to_bits()), 1023);
}
