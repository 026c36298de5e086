use cube_sphere::single::{
    Single, HALF_BITS, INFINITY_MAGNITUDE, MINUS_180_BITS, MINUS_40_BITS, MINUS_89_BITS,
    MINUS_90_BITS, ONE_BITS, PLUS_180_BITS, PLUS_89_BITS, PLUS_90_BITS, SIGN_BIT, ZERO_BITS,
};

fn single(value: f32) -> Single {
    Single::from_bits(value.to_bits())
}

fn samples() -> Vec<f32> {
    vec![
        f32::NEG_INFINITY,
        f32::MIN,
        -181.0,
        -180.0,
        -90.000_01,
        -90.0,
        -89.0,
        -40.0,
        -1.0,
        -0.5,
        -f32::MIN_POSITIVE,
        -f32::from_bits(1),
        -0.0,
        0.0,
        f32::from_bits(1),
        f32::from_bits(0x007f_ffff),
        f32::MIN_POSITIVE,
        0.5,
        1.0,
        1.000_000_1,
        40.0,
        89.0,
        89.999_99,
        90.0,
        179.999_98,
        180.0,
        181.0,
        f32::MAX,
        f32::INFINITY,
        f32::NAN,
        -f32::NAN,
    ]
}

#[test]
fn named_encodings_are_those_of_the_numbers() {
    assert_eq!(ZERO_BITS, 0.0f32.to_bits());
    assert_eq!(HALF_BITS, 0.5f32.to_bits());
    assert_eq!(ONE_BITS, 1.0f32.to_bits());
    assert_eq!(MINUS_40_BITS, (-40.0f32).to_bits());
    assert_eq!(PLUS_89_BITS, 89.0f32.to_bits());
    assert_eq!(MINUS_89_BITS, (-89.0f32).to_bits());
    assert_eq!(PLUS_90_BITS, 90.0f32.to_bits());
    assert_eq!(MINUS_90_BITS, (-90.0f32).to_bits());
    assert_eq!(PLUS_180_BITS, 180.0f32.to_bits());
    assert_eq!(MINUS_180_BITS, (-180.0f32).to_bits());
    assert_eq!(INFINITY_MAGNITUDE, f32::INFINITY.to_bits());
    assert_eq!(SIGN_BIT, (-0.0f32).to_bits());
}

#[test]
fn bits_round_trip() {
    for value in samples() {
        assert_eq!(single(value).to_bits(), value.to_bits());
        assert_eq!(single(value).bits, value.to_bits());
    }
    assert_eq!(Single::from_bits(0x1234_5678).to_bits(), 0x1234_5678);
}

#[test]
fn nan_is_recognised() {
    for value in samples() {
        assert_eq!(single(value).nan(), value.is_nan(), "{value:?}");
    }
    assert!(Single::from_bits(0x7f80_0001).nan());
    assert!(Single::from_bits(0xffff_ffff).nan());
    assert!(!Single::from_bits(0x7f80_0000).nan());
    assert!(!Single::from_bits(0xff80_0000).nan());
}

#[test]
fn lt_orders_as_the_numbers_do() {
    for a in samples() {
        for b in samples() {
            assert_eq!(single(a).lt(single(b)), a < b, "{a:?} < {b:?}");
        }
    }
}

#[test]
fn le_orders_as_the_numbers_do() {
    for a in samples() {
        for b in samples() {
            assert_eq!(single(a).le(single(b)), a <= b, "{a:?} <= {b:?}");
        }
    }
}

#[test]
fn same_compares_as_the_numbers_do() {
    for a in samples() {
        for b in samples() {
            assert_eq!(single(a).same(single(b)), a == b, "{a:?} == {b:?}");
        }
    }
}

#[test]
fn the_two_zeros_are_the_same_number() {
    let plus = single(0.0);
    let minus = single(-0.0);
    assert!(plus != minus);
    assert!(plus.same(minus));
    assert!(plus.le(minus));
    assert!(minus.le(plus));
    assert!(!plus.lt(minus));
    assert!(!minus.lt(plus));
}

#[test]
fn nan_is_neither_below_nor_above_nor_equal() {
    let nan = single(f32::NAN);
    let one = single(1.0);
    assert!(!nan.lt(one));
    assert!(!one.lt(nan));
    assert!(!nan.le(one));
    assert!(!one.le(nan));
    assert!(!nan.same(nan));
    assert!(!nan.le(nan));
}

#[test]
fn neighbouring_encodings_are_ordered() {
    let mut bits: u32 = 0;
    while bits < 0x7f80_0000 {
        let low = Single::from_bits(bits);
        let high = Single::from_bits(bits + 1);
        assert!(low.lt(high));
        assert!(Single::from_bits(bits + 1 + SIGN_BIT).lt(Single::from_bits(bits + SIGN_BIT)));
        bits += 0x0003_fff1;
    }
}
