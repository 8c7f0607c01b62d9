use speedcli::binary64::{percent_of, percent_tenths_of, ratio_of};

/// Numbers of all sizes, from a fixed sequence.
fn numbers() -> Vec<u64> {
    let mut out = vec![1, 2, 3, 7, 10, 100, 999, u64::MAX, u64::MAX - 1, 1 << 53, (1 << 53) + 1];
    let mut x: u64 = 0x9e37_79b9_7f4a_7c15;
    for i in 0..60 {
        x = x.wrapping_mul(6364136223846793005).wrapping_add(1442695040888963407);
        out.push((x >> (i % 64)).max(1));
    }
    out
}

#[test]
fn ratio_is_the_quotient_of_doubles() {
    for whole in numbers() {
        for part in numbers() {
            if part <= whole {
                let expected = (part as f64) / (whole as f64);
                assert_eq!(ratio_of(part, whole), expected.to_bits(), "{} / {}", part, whole);
            }
        }
        assert_eq!(ratio_of(0, whole), 0.0f64.to_bits());
    }
    assert_eq!(ratio_of(0, 0), 0);
}

#[test]
fn ratio_of_all_is_one_and_of_nothing_zero() {
    assert_eq!(f64::from_bits(ratio_of(17, 17)), 1.0);
    assert_eq!(f64::from_bits(ratio_of(0, 17)), 0.0);
    assert_eq!(f64::from_bits(ratio_of(1, 4)), 0.25);
}

#[test]
fn percent_is_printed_as_a_double_is() {
    for total in numbers() {
        for weight in numbers() {
            let weight = (weight % (1 << 32)) as u32;
            if weight > 0 && u64::from(weight) <= total {
                let expected = format!("{:.0}", (weight as f64) / (total as f64) * 100.0);
                assert_eq!(percent_of(weight, total).to_string(), expected, "{} / {}", weight, total);
            }
        }
    }
}

#[test]
fn percent_is_nearest_to_the_true_share() {
    for total in numbers() {
        for weight in numbers() {
            let weight = (weight % (1 << 32)) as u32;
            if weight > 0 && u64::from(weight) <= total {
                let shown = percent_of(weight, total) as i128 * total as i128;
                let off = (2 * shown - 200 * i128::from(weight)).abs();
                assert!(off <= i128::from(total) + i128::from(total >> 43));
            }
        }
    }
    assert_eq!(percent_of(1, 8), 12);
    assert_eq!(percent_of(3, 8), 38);
    assert_eq!(percent_of(2, 3), 67);
}

#[test]
fn percent_of_a_hundred_is_the_weight() {
    for weight in 1..=100 {
        assert_eq!(percent_of(weight, 100), u128::from(weight));
    }
}

#[test]
fn tenths_are_printed_as_a_double_is() {
    for whole in numbers() {
        for part in numbers() {
            if part <= whole {
                let tenths = percent_tenths_of(part, whole);
                let expected = format!("{:.1}", (part as f64) * 100.0 / (whole as f64));
                assert_eq!(format!("{}.{}", tenths / 10, tenths % 10), expected, "{} / {}", part, whole);
            }
        }
    }
    for whole in 1..200u64 {
        for part in 0..=whole {
            let tenths = percent_tenths_of(part, whole);
            let expected = format!("{:.1}", (part as f64) * 100.0 / (whole as f64));
            assert_eq!(format!("{}.{}", tenths / 10, tenths % 10), expected, "{} / {}", part, whole);
        }
    }
}
