use cuproof::integer::Integer;
use num_bigint::{BigInt, Sign};

fn big(x: &Integer) -> BigInt {
    let (negative, bytes) = x.to_bytes_be();
    BigInt::from_bytes_be(if negative { Sign::Minus } else { Sign::Plus }, &bytes)
}

#[test]
fn from_u64_gives_the_value() {
    assert_eq!(big(&Integer::from_u64(0)), BigInt::from(0u64));
    assert_eq!(big(&Integer::from_u64(1)), BigInt::from(1u64));
    assert_eq!(big(&Integer::from_u64(255)), BigInt::from(255u64));
    assert_eq!(big(&Integer::from_u64(256)), BigInt::from(256u64));
    assert_eq!(big(&Integer::from_u64(0x0102_0304_0506_0708)), BigInt::from(0x0102_0304_0506_0708u64));
    assert_eq!(big(&Integer::from_u64(u64::MAX)), BigInt::from(u64::MAX));
}

#[test]
fn from_u64_spells_most_significant_byte_first() {
    let (negative, bytes) = Integer::from_u64(0x0102_03).to_bytes_be();
    assert!(!negative);
    assert_eq!(bytes, vec![1u8, 2, 3]);
}

#[test]
fn from_i64_gives_the_value() {
    assert_eq!(big(&Integer::from_i64(0)), BigInt::from(0));
    assert_eq!(big(&Integer::from_i64(-1)), BigInt::from(-1));
    assert_eq!(big(&Integer::from_i64(-258)), BigInt::from(-258));
    assert_eq!(big(&Integer::from_i64(i64::MAX)), BigInt::from(i64::MAX));
    assert_eq!(big(&Integer::from_i64(i64::MIN)), BigInt::from(i64::MIN));
}

#[test]
fn from_bytes_be_reads_big_endian() {
    assert_eq!(Integer::from_bytes_be(false, &[1, 2]), Integer::from_u64(258));
    assert_eq!(Integer::from_bytes_be(true, &[1, 2]), Integer::from_i64(-258));
    assert_eq!(Integer::from_bytes_be(false, &[]), Integer::from_u64(0));
    assert_eq!(Integer::from_bytes_be(false, b"A"), Integer::from_u64(65));
    assert_eq!(Integer::from_bytes_be(false, b"AB"), Integer::from_u64(16706));
}

#[test]
fn leading_zero_bytes_do_not_change_the_value() {
    let padded = Integer::from_bytes_be(false, &[0, 0, 0, 7, 9]);
    let bare = Integer::from_bytes_be(false, &[7, 9]);
    assert!(padded.equals(&bare));
    assert!(bare.equals(&padded));
    assert_eq!(padded, bare);
}

#[test]
fn zero_has_one_value_under_either_sign() {
    let plain = Integer::zero();
    let minus = Integer::from_bytes_be(true, &[0, 0]);
    assert!(minus.is_zero());
    assert!(!minus.is_negative());
    assert_eq!(plain, minus);
    assert_eq!(minus.to_bytes_be().0, false);
    assert_eq!(big(&minus), BigInt::from(0));
}

#[test]
fn equals_tells_values_apart() {
    assert_ne!(Integer::from_u64(5), Integer::from_i64(-5));
    assert_ne!(Integer::from_u64(5), Integer::from_u64(6));
    assert_ne!(Integer::from_u64(256), Integer::from_u64(1));
    assert_ne!(Integer::from_u64(0x0100), Integer::from_u64(0x0001_00_00));
    assert_ne!(Integer::from_bytes_be(false, &[1, 2, 3]), Integer::from_bytes_be(false, &[1, 2, 4]));
    assert_ne!(Integer::from_bytes_be(false, &[0, 2, 3]), Integer::from_bytes_be(false, &[1, 2, 3]));
    assert_eq!(Integer::from_i64(-77), Integer::from_bytes_be(true, &[0, 77]));
}

#[test]
fn is_zero_and_is_negative_read_the_value() {
    assert!(Integer::zero().is_zero());
    assert!(Integer::from_bytes_be(false, &[0, 0, 0]).is_zero());
    assert!(!Integer::from_u64(1).is_zero());
    assert!(!Integer::from_bytes_be(false, &[0, 0, 1]).is_zero());
    assert!(Integer::from_i64(-1).is_negative());
    assert!(!Integer::from_u64(1).is_negative());
    assert!(!Integer::zero().is_negative());
}

#[test]
fn neg_reverses_the_sign() {
    assert_eq!(Integer::from_u64(9).neg(), Integer::from_i64(-9));
    assert_eq!(Integer::from_i64(-9).neg(), Integer::from_u64(9));
    assert_eq!(Integer::zero().neg(), Integer::zero());
}

#[test]
fn clone_keeps_the_value() {
    let a = Integer::from_i64(-123456789);
    assert_eq!(a.clone(), a);
}

#[test]
fn to_bytes_be_round_trips_a_large_value() {
    let text = "-123456789012345678901234567890123456789012345678901234567890";
    let b: BigInt = text.parse().unwrap();
    let (sign, bytes) = b.to_bytes_be();
    let x = Integer::from_bytes_be(sign == Sign::Minus, &bytes);
    assert!(x.is_negative());
    assert_eq!(big(&x), b);
}
