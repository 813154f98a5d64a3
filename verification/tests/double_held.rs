use sysmon::double::{double_spacing, to_double, DOUBLE_LIMIT};

#[test]
fn a_figure_of_up_to_53_bits_is_held_as_it_is() {
    assert_eq!(DOUBLE_LIMIT, 1 << 53);
    assert_eq!(to_double(0), 0);
    assert_eq!(to_double(1), 1);
    assert_eq!(to_double(16_777_216), 16_777_216);
    assert_eq!(to_double((1 << 53) - 1), (1 << 53) - 1);
    assert_eq!(to_double(1 << 53), 1 << 53);
}

#[test]
fn a_longer_figure_is_rounded_to_53_bits() {
    assert_eq!(to_double((1 << 53) + 1), 1 << 53);
    assert_eq!(to_double((1 << 53) + 2), (1 << 53) + 2);
    assert_eq!(to_double((1 << 53) + 3), (1 << 53) + 4);
    assert_eq!(to_double((1 << 54) - 1), 1 << 54);
    assert_eq!(to_double((1 << 54) + 2), 1 << 54);
    assert_eq!(to_double((1 << 54) + 6), (1 << 54) + 8);
    assert_eq!(to_double(u64::MAX), 1 << 64);
    assert_eq!(to_double(u64::MAX - 1023), 1 << 64);
    assert_eq!(to_double(u64::MAX - 1024), (1u128 << 64) - 2048);
}

#[test]
fn spacing_doubles_with_every_bit_beyond_53() {
    assert_eq!(double_spacing(0), 1);
    assert_eq!(double_spacing((1 << 53) - 1), 1);
    assert_eq!(double_spacing(1 << 53), 2);
    assert_eq!(double_spacing((1 << 54) - 1), 2);
    assert_eq!(double_spacing(1 << 54), 4);
    assert_eq!(double_spacing(1 << 63), 1024 * 2);
    assert_eq!(double_spacing(u64::MAX), 2048);
}

#[test]
fn to_double_agrees_with_the_machine_on_a_sweep() {
    let mut x: u64 = 0;
    let mut count: u32 = 0;
    loop {
        assert_eq!(to_double(x), (x as f64) as u128, "figure {}", x);
        count += 1;
        match x.checked_add(x / 1_021 + 7_919) {
            Some(next) => x = next,
            None => break,
        }
    }
    assert!(count > 10_000);
}

#[test]
fn to_double_agrees_with_the_machine_around_every_power_of_two() {
    let mut bit: u32 = 50;
    while bit < 64 {
        let base: u64 = 1 << bit;
        let mut offset: u64 = 0;
        while offset < 5_000 {
            assert_eq!(to_double(base + offset), ((base + offset) as f64) as u128);
            assert_eq!(to_double(base - offset), ((base - offset) as f64) as u128);
            offset += 1;
        }
        bit += 1;
    }
    let mut below: u64 = 0;
    while below < 5_000 {
        assert_eq!(to_double(u64::MAX - below), ((u64::MAX - below) as f64) as u128);
        below += 1;
    }
}

#[test]
fn to_double_keeps_the_order() {
    let mut x: u64 = (1 << 53) - 100;
    let mut last: u128 = 0;
    while x < (1 << 53) + 10_000 {
        let held = to_double(x);
        assert!(last <= held);
        last = held;
        x += 1;
    }
}
