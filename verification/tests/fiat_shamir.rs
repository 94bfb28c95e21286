use cuproof::fiat_shamir::{fiat_shamir, transcript};
use cuproof::integer::Integer;
use num_bigint::{BigInt, Sign};

fn decimal(text: &str) -> Integer {
    let b: BigInt = text.parse().unwrap();
    let (sign, bytes) = b.to_bytes_be();
    Integer::from_bytes_be(sign == Sign::Minus, &bytes)
}

#[test]
fn transcript_concatenates_decimal_texts() {
    let a = Integer::from_u64(12);
    let b = Integer::from_i64(-3);
    let c = Integer::from_u64(0);
    assert_eq!(transcript(&[&a, &b, &c]), b"12-30".to_vec());
}

#[test]
fn transcript_of_nothing_is_empty() {
    assert_eq!(transcript(&[]), Vec::<u8>::new());
}

#[test]
fn transcript_writes_no_leading_zeros() {
    let padded = Integer::from_bytes_be(false, &[0, 0, 1, 0]);
    assert_eq!(transcript(&[&padded]), b"256".to_vec());
    let minus_zero = Integer::from_bytes_be(true, &[0]);
    assert_eq!(transcript(&[&minus_zero]), b"0".to_vec());
}

#[test]
fn transcript_of_a_large_value() {
    let text = "340282366920938463463374607431768211456";
    assert_eq!(transcript(&[&decimal(text)]), text.as_bytes().to_vec());
}

#[test]
fn fiat_shamir_known_digest() {
    let one = Integer::from_u64(1);
    let two = Integer::from_u64(2);
    let three = Integer::from_u64(3);
    // SHA-256 of "123" is a665a459...a27ae3.
    let expected = decimal("75263518707598184987916378021939673586055614731957507592904438851787542395619");
    assert_eq!(fiat_shamir(&[&one, &two, &three]), expected);
}

#[test]
fn fiat_shamir_of_nothing_hashes_the_empty_transcript() {
    let expected = decimal("102987336249554097029535212322581322789799900648198034993379397001115665086549");
    assert_eq!(fiat_shamir(&[]), expected);
}

#[test]
fn fiat_shamir_with_a_negative_input() {
    let a = Integer::from_u64(12);
    let b = Integer::from_i64(-3);
    let expected = decimal("19992004381614377672489586318323325148481316471784151200914482715236472427989");
    assert_eq!(fiat_shamir(&[&a, &b]), expected);
}

#[test]
fn fiat_shamir_is_stable() {
    let a = decimal("123456789012345678901234567890");
    let b = Integer::from_u64(42);
    let c = Integer::from_i64(-7);
    let first = fiat_shamir(&[&a, &b, &c]);
    let second = fiat_shamir(&[&a, &b, &c]);
    assert_eq!(first, second);
}

#[test]
fn fiat_shamir_depends_on_the_order() {
    let one = Integer::from_u64(1);
    let two = Integer::from_u64(2);
    let three = Integer::from_u64(3);
    let in_order = fiat_shamir(&[&one, &two, &three]);
    let swapped = fiat_shamir(&[&one, &three, &two]);
    assert_ne!(in_order, swapped);
    assert_eq!(
        swapped,
        decimal("99370783733613987980498294432115840879335461405988183382459776303837559081206")
    );
}

#[test]
fn fiat_shamir_reads_the_representation_not_the_bytes() {
    // The same value with leading zero bytes gives the same challenge.
    let bare = Integer::from_bytes_be(false, &[1, 0]);
    let padded = Integer::from_bytes_be(false, &[0, 0, 1, 0]);
    assert_eq!(fiat_shamir(&[&bare]), fiat_shamir(&[&padded]));
}

#[test]
fn fiat_shamir_does_not_separate_its_inputs() {
    // "1" then "23" and "12" then "3" spell the same transcript.
    let a = fiat_shamir(&[&Integer::from_u64(1), &Integer::from_u64(23)]);
    let b = fiat_shamir(&[&Integer::from_u64(12), &Integer::from_u64(3)]);
    assert_eq!(a, b);
}

#[test]
fn fiat_shamir_is_not_reduced() {
    let c = fiat_shamir(&[&Integer::from_u64(1), &Integer::from_u64(2), &Integer::from_u64(3)]);
    let (negative, bytes) = c.to_bytes_be();
    assert!(!negative);
    assert_eq!(bytes.len(), 32);
    assert_eq!(bytes[0], 0xa6);
    assert_eq!(bytes[31], 0xe3);
}
