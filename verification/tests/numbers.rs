use libbrainview::binary32::{
    is_less, is_not_a_number, is_same_number, key_of, INFINITY, NEG_INFINITY, SIGN_BIT,
};
use libbrainview::{f32tou32, scaling_plan, BrainviewError, ScalePlan};

fn samples() -> Vec<f32> {
    vec![
        0.0,
        -0.0,
        1.0,
        -1.0,
        2.5,
        -2.5,
        6.0,
        0.01,
        -0.01,
        1.0e-40,
        -1.0e-40,
        f32::MIN_POSITIVE,
        f32::MAX,
        f32::MIN,
        f32::EPSILON,
        f32::INFINITY,
        f32::NEG_INFINITY,
        f32::NAN,
        -f32::NAN,
        f32::from_bits(0x7f80_0001),
        f32::from_bits(0xffff_ffff),
    ]
}

#[test]
fn the_named_encodings_are_the_infinities() {
    assert_eq!(INFINITY, f32::INFINITY.to_bits());
    assert_eq!(NEG_INFINITY, f32::NEG_INFINITY.to_bits());
    assert_eq!(SIGN_BIT, (-0.0f32).to_bits());
}

#[test]
fn not_a_number_is_told_by_the_bits() {
    for v in samples() {
        assert_eq!(is_not_a_number(v.to_bits()), v.is_nan(), "{:?}", v);
    }
}

#[test]
fn less_agrees_with_the_numbers() {
    for a in samples() {
        for b in samples() {
            assert_eq!(is_less(a.to_bits(), b.to_bits()), a < b, "{:?} {:?}", a, b);
        }
    }
}

#[test]
fn same_agrees_with_the_numbers() {
    for a in samples() {
        for b in samples() {
            assert_eq!(is_same_number(a.to_bits(), b.to_bits()), a == b, "{:?} {:?}", a, b);
        }
    }
}

#[test]
fn keys_have_exact_values() {
    assert_eq!(key_of(0x0000_0000), 0);
    assert_eq!(key_of(0x8000_0000), 0);
    assert_eq!(key_of(0x3f80_0000), 0x3f80_0000);
    assert_eq!(key_of(0xbf80_0000), -0x3f80_0000);
    assert_eq!(key_of(0xffff_ffff), -0x7fff_ffff);
    assert_eq!(key_of(0x7fff_ffff), 0x7fff_ffff);
}

#[test]
fn indices_are_read_as_unsigned() {
    assert_eq!(f32tou32(vec![0, 5, 2, i32::MAX]), vec![0, 5, 2, 2147483647]);
    assert_eq!(f32tou32(vec![-1, i32::MIN, -2]), vec![4294967295, 2147483648, 4294967294]);
    assert_eq!(f32tou32(Vec::new()), Vec::<u32>::new());
}

fn bits(values: &[f32]) -> Vec<u32> {
    values.iter().map(|v| v.to_bits()).collect()
}

#[test]
fn no_value_is_a_degenerate_range() {
    assert_eq!(scaling_plan(&Vec::new()), Err(BrainviewError::DegenerateRange));
}

#[test]
fn values_of_some_width_are_stretched() {
    assert_eq!(scaling_plan(&bits(&[0.4, 0.5, 0.9, 0.01])), Ok(ScalePlan::Stretch));
    assert_eq!(scaling_plan(&bits(&[f32::NAN, 1.0, f32::NAN, 1.5])), Ok(ScalePlan::Stretch));
    assert_eq!(scaling_plan(&bits(&[-1.0, 1.0])), Ok(ScalePlan::Stretch));
}

#[test]
fn a_constant_is_flat() {
    assert_eq!(scaling_plan(&bits(&[2.5])), Ok(ScalePlan::Flat));
    assert_eq!(scaling_plan(&bits(&[2.5, 2.5, 2.5])), Ok(ScalePlan::Flat));
    assert_eq!(scaling_plan(&bits(&[f32::NAN, 7.0, f32::NAN, 7.0])), Ok(ScalePlan::Flat));
    assert_eq!(scaling_plan(&bits(&[0.0, -0.0])), Ok(ScalePlan::Flat));
}

#[test]
fn nothing_but_missing_values_is_all_missing() {
    assert_eq!(scaling_plan(&bits(&[f32::NAN])), Ok(ScalePlan::AllMissing));
    assert_eq!(scaling_plan(&bits(&[f32::NAN, -f32::NAN])), Ok(ScalePlan::AllMissing));
}
