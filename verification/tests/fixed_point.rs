//! Arithmetic and encoding behaviour of the fixed-point types.

use secret_data_tools::codec::{
    decode_fixed, decode_opt_sensitivity, decode_u32, decode_wide, encode_fixed,
    encode_opt_sensitivity, encode_u32, encode_wide,
};
use secret_data_tools::fixed::{Fixed, WideFixed};

#[test]
fn from_int_scales_by_one() {
    assert_eq!(Fixed::from_int(1).raw(), 65536);
    assert_eq!(Fixed::from_int(-2).raw(), -131072);
    assert_eq!(Fixed::zero().raw(), 0);
}

#[test]
fn checked_add_and_sub_exact() {
    let a = Fixed::from_int(3);
    let b = Fixed::from_int(5);
    assert_eq!(a.checked_add(&b).unwrap().raw(), 8 * 65536);
    assert_eq!(a.checked_sub(&b).unwrap().raw(), -2 * 65536);
    assert!(Fixed::max_value().checked_add(&Fixed::from_int(1)).is_none());
    assert!(Fixed::min_value().checked_sub(&Fixed::from_int(1)).is_none());
    assert!(Fixed::min_value().checked_neg().is_none());
}

#[test]
fn checked_mul_truncates_toward_zero() {
    let half = Fixed::from_raw(0x8000); // 0.5
    let three = Fixed::from_int(3);
    assert_eq!(three.checked_mul(&half).unwrap().raw(), 0x18000); // 1.5
    // (-3) * 0.5 = -1.5 exactly
    let neg_three = Fixed::from_int(-3);
    assert_eq!(neg_three.checked_mul(&half).unwrap().raw(), -0x18000);
    // smallest positive times smallest positive truncates to zero
    let eps = Fixed::from_raw(1);
    assert_eq!(eps.checked_mul(&eps).unwrap().raw(), 0);
    // and toward zero for a negative product
    let neg_eps = Fixed::from_raw(-1);
    assert_eq!(neg_eps.checked_mul(&eps).unwrap().raw(), 0);
}

#[test]
fn checked_div_exact_and_truncating() {
    let one = Fixed::from_int(1);
    let two = Fixed::from_int(2);
    assert_eq!(one.checked_div(&two).unwrap().raw(), 0x8000); // 0.5
    let seven = Fixed::from_int(7);
    let three = Fixed::from_int(3);
    // 7/3 = 2.333... truncated at 16 fractional bits
    assert_eq!(seven.checked_div(&three).unwrap().raw(), (7 * 65536_i64 / 3) as i32);
    // negative quotient truncates toward zero
    let neg_seven = Fixed::from_int(-7);
    assert_eq!(neg_seven.checked_div(&three).unwrap().raw(), -(7 * 65536_i64 / 3) as i32);
    // division by a tiny value overflows
    assert!(Fixed::max_value().checked_div(&Fixed::from_raw(1)).is_none());
}

#[test]
fn widen_and_narrow_round_trip() {
    for raw in [0i32, 1, -1, 65536, -65536, i32::MAX, i32::MIN] {
        let f = Fixed::from_raw(raw);
        let w = f.widen();
        assert_eq!(w.raw(), raw as i64 * 65536);
        assert_eq!(w.narrow().unwrap().raw(), raw);
        assert_eq!(w.exact_narrow().unwrap().raw(), raw);
    }
    // a wide value with extra fractional bits narrows by truncation
    let w = WideFixed::from_raw(0x1_8000); // 1.5 * 2^-16
    assert_eq!(w.narrow().unwrap().raw(), 1);
    assert!(w.exact_narrow().is_none());
    let wn = WideFixed::from_raw(-0x1_8000);
    assert_eq!(wn.narrow().unwrap().raw(), -1);
    // a wide value beyond the scalar range does not narrow
    let big = WideFixed::from_raw(i64::MAX);
    assert!(big.narrow().is_none());
}

#[test]
fn wide_arithmetic_checked() {
    let a = WideFixed::from_raw(5 << 32);
    let b = WideFixed::from_raw(3 << 32);
    assert_eq!(a.checked_add(&b).unwrap().raw(), 8 << 32);
    assert_eq!(a.checked_sub(&b).unwrap().raw(), 2 << 32);
    assert_eq!(a.checked_mul(&b).unwrap().raw(), 15 << 32);
    let q = a.checked_div(&b).unwrap();
    assert_eq!(q.raw(), (5i64 << 32) / 3);
    assert!(WideFixed::from_raw(i64::MAX).checked_add(&WideFixed::from_raw(1)).is_none());
    assert!(WideFixed::from_raw(i64::MIN).checked_neg().is_none());
}

#[test]
fn wide_from_u32_counts() {
    assert_eq!(WideFixed::from_u32(0).unwrap().raw(), 0);
    assert_eq!(WideFixed::from_u32(3).unwrap().raw(), 3 << 32);
    assert_eq!(WideFixed::from_u32(0x7fff_ffff).unwrap().raw(), 0x7fff_ffff_i64 << 32);
    assert!(WideFixed::from_u32(0x8000_0000).is_none());
}

#[test]
fn u32_encoding_round_trip() {
    for v in [0u32, 1, 0xdead_beef, u32::MAX] {
        let bytes = encode_u32(v);
        assert_eq!(bytes.len(), 4);
        assert_eq!(decode_u32(&bytes).unwrap(), v);
    }
    assert_eq!(encode_u32(0x0102_0304), vec![1, 2, 3, 4]);
    assert!(decode_u32(&vec![1, 2, 3]).is_none());
    assert!(decode_u32(&vec![1, 2, 3, 4, 5]).is_none());
}

#[test]
fn fixed_encoding_round_trip() {
    // zero, minimum, maximum and a mid-range value
    for raw in [0i32, i32::MIN, i32::MAX, 0x0001_8000, -0x0001_8000] {
        let f = Fixed::from_raw(raw);
        let bytes = encode_fixed(&f);
        assert_eq!(bytes.len(), 4);
        assert_eq!(decode_fixed(&bytes).unwrap().raw(), raw);
    }
    assert!(decode_fixed(&vec![0; 8]).is_none());
}

#[test]
fn wide_encoding_round_trip() {
    for raw in [0i64, i64::MIN, i64::MAX, 15 << 32, -(15i64 << 32)] {
        let w = WideFixed::from_raw(raw);
        let bytes = encode_wide(&w);
        assert_eq!(bytes.len(), 8);
        assert_eq!(decode_wide(&bytes).unwrap().raw(), raw);
    }
    assert!(decode_wide(&vec![0; 4]).is_none());
}

#[test]
fn sensitivity_encoding_round_trip() {
    let absent: Option<Fixed> = None;
    let enc = encode_opt_sensitivity(&absent);
    assert_eq!(enc, vec![0u8]);
    assert_eq!(decode_opt_sensitivity(&enc).unwrap(), None);

    let present = Some(Fixed::from_int(7));
    let enc = encode_opt_sensitivity(&present);
    assert_eq!(enc.len(), 9);
    assert_eq!(enc[0], 8);
    assert_eq!(decode_opt_sensitivity(&enc).unwrap().unwrap().raw(), 7 * 65536);

    // a payload with sub-scalar fractional bits is malformed
    let mut bad = vec![8u8];
    bad.extend_from_slice(&[0, 0, 0, 0, 0, 0, 0, 1]);
    assert!(decode_opt_sensitivity(&bad).is_none());
    // a wrong length prefix is malformed
    assert!(decode_opt_sensitivity(&vec![8u8, 0, 0]).is_none());
    assert!(decode_opt_sensitivity(&vec![1u8]).is_none());
}
