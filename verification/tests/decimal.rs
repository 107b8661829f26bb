use sensor::binary32::rounded_hundredths;
use sensor::decimal::{append_decimal, two_places};

fn std_two_places(bits: u32) -> String {
    format!("{:.2}", f32::from_bits(bits))
}

#[test]
fn rounds_the_documented_example() {
    assert_eq!(two_places(23.456f32.to_bits()), "23.46");
    assert_eq!(two_places(55.1f32.to_bits()), "55.10");
}

#[test]
fn pads_whole_numbers_with_two_zeros() {
    assert_eq!(two_places(21.0f32.to_bits()), "21.00");
    assert_eq!(two_places(40.0f32.to_bits()), "40.00");
    assert_eq!(two_places(0), "0.00");
    assert_eq!(two_places(1.0f32.to_bits()), "1.00");
    assert_eq!(two_places(100.0f32.to_bits()), "100.00");
}

#[test]
fn ties_go_to_the_even_hundredth() {
    assert_eq!(two_places(0.125f32.to_bits()), "0.12");
    assert_eq!(two_places(0.375f32.to_bits()), "0.38");
    assert_eq!(two_places(0.625f32.to_bits()), "0.62");
    assert_eq!(two_places(0.875f32.to_bits()), "0.88");
    assert_eq!(two_places(2.125f32.to_bits()), "2.12");
    assert_eq!(two_places(0.0078125f32.to_bits()), "0.01");
    assert_eq!(two_places(0.015625f32.to_bits()), "0.02");
}

#[test]
fn carries_into_the_whole_part() {
    assert_eq!(two_places(0.994f32.to_bits()), "0.99");
    assert_eq!(two_places(0.996f32.to_bits()), "1.00");
    assert_eq!(two_places(9.999f32.to_bits()), "10.00");
    assert_eq!(two_places(99.995f32.to_bits()), "100.00");
}

#[test]
fn keeps_the_sign_bit() {
    assert_eq!(two_places((-12.344f32).to_bits()), "-12.34");
    assert_eq!(two_places((-0.0f32).to_bits()), "-0.00");
    assert_eq!(two_places((-0.001f32).to_bits()), "-0.00");
    assert_eq!(two_places((-50.0f32).to_bits()), "-50.00");
}

#[test]
fn names_what_is_not_a_number() {
    assert_eq!(two_places(f32::INFINITY.to_bits()), "inf");
    assert_eq!(two_places(f32::NEG_INFINITY.to_bits()), "-inf");
    assert_eq!(two_places(f32::NAN.to_bits()), "NaN");
    assert_eq!(two_places(0xFFC0_0001), "NaN");
    assert_eq!(two_places(0x7F80_0001), "NaN");
}

#[test]
fn writes_the_extremes_in_full() {
    assert_eq!(two_places(f32::MAX.to_bits()), "340282346638528859811704183484516925440.00");
    assert_eq!(two_places(f32::MIN.to_bits()), "-340282346638528859811704183484516925440.00");
    assert_eq!(two_places(f32::MIN_POSITIVE.to_bits()), "0.00");
    assert_eq!(two_places(1), "0.00");
    assert_eq!(two_places(16777216.0f32.to_bits()), "16777216.00");
    assert_eq!(two_places(8388607.5f32.to_bits()), "8388607.50");
}

#[test]
fn agrees_with_std_around_every_exponent() {
    let mut field: u32 = 0;
    while field < 256 {
        for fraction in [0u32, 1, 2, 0x40_0000, 0x7F_FFFF, 0x12_3456, 0x20_0000, 0x60_0000] {
            for sign in [0u32, 0x8000_0000] {
                let bits = sign | (field << 23) | fraction;
                assert_eq!(two_places(bits), std_two_places(bits), "pattern {bits:#010x}");
            }
        }
        field += 1;
    }
}

#[test]
fn agrees_with_std_on_scattered_patterns() {
    let mut bits: u32 = 0x2545_F491;
    let mut round = 0;
    while round < 60_000 {
        bits = bits.wrapping_mul(1_664_525).wrapping_add(1_013_904_223);
        assert_eq!(two_places(bits), std_two_places(bits), "pattern {bits:#010x}");
        round += 1;
    }
}

#[test]
fn agrees_with_std_over_the_sensor_range() {
    let mut raw: u32 = 0;
    while raw < (1 << 20) {
        let humidity = raw as f32 * 9.5367431640625e-5;
        let temperature = raw as f32 * 1.9073486328125e-4 - 50.0;
        assert_eq!(two_places(humidity.to_bits()), format!("{:02.2}", humidity));
        assert_eq!(two_places(temperature.to_bits()), format!("{:02.2}", temperature));
        raw += 37;
    }
}

#[test]
fn splits_hundredths_into_units_and_cents() {
    assert_eq!(rounded_hundredths(23.456f32.to_bits()), Some((23, 46)));
    assert_eq!(rounded_hundredths(55.1f32.to_bits()), Some((55, 10)));
    assert_eq!(rounded_hundredths(0), Some((0, 0)));
    assert_eq!(rounded_hundredths(0.125f32.to_bits()), Some((0, 12)));
    assert_eq!(rounded_hundredths(1e10f32.to_bits()), Some((10_000_000_000, 0)));
    assert_eq!(rounded_hundredths((-3.999f32).to_bits()), Some((4, 0)));
    assert_eq!(
        rounded_hundredths(f32::MAX.to_bits()),
        Some((340282346638528859811704183484516925440, 0))
    );
    assert_eq!(rounded_hundredths(f32::INFINITY.to_bits()), None);
    assert_eq!(rounded_hundredths(f32::NEG_INFINITY.to_bits()), None);
    assert_eq!(rounded_hundredths(f32::NAN.to_bits()), None);
}

#[test]
fn appends_decimal_digits() {
    let mut text = String::from("n=");
    append_decimal(&mut text, 0);
    assert_eq!(text, "n=0");
    append_decimal(&mut text, 1234567890);
    assert_eq!(text, "n=01234567890");
    let mut largest = String::new();
    append_decimal(&mut largest, u128::MAX);
    assert_eq!(largest, "340282366920938463463374607431768211455");
    assert_eq!(largest, format!("{}", u128::MAX));
}
