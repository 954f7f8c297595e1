//! Reconstituting integers as base-field elements: for every integer type,
//! the low bits of the field element are the integer's two's-complement
//! bits and every remaining bit is zero.

use request_auth::field::FieldElem;

const ITERATIONS: u64 = 10_000;

const FIELD_BITS: usize = 253;

fn check_bits(candidate: FieldElem, bits: u32, value: u128) {
    let candidate_bits_le = candidate.to_bits_le();
    assert_eq!(FIELD_BITS, candidate_bits_le.len());

    // Ensure all integer bits match with the expected result.
    for (j, candidate_bit) in candidate_bits_le.iter().enumerate().take(bits as usize) {
        let expected_bit = (value >> j) & 1 == 1;
        assert_eq!(expected_bit, *candidate_bit);
    }

    // Ensure all remaining bits are 0.
    for candidate_bit in &candidate_bits_le[bits as usize..] {
        assert!(!candidate_bit);
    }
}

#[test]
fn test_u8_to_field() {
    for _ in 0..ITERATIONS {
        let expected: u8 = rand::random();
        check_bits(FieldElem::from_u8(expected), 8, expected as u128);
    }
}

#[test]
fn test_i8_to_field() {
    for _ in 0..ITERATIONS {
        let expected: i8 = rand::random();
        check_bits(FieldElem::from_i8(expected), 8, expected as u8 as u128);
    }
}

#[test]
fn test_u16_to_field() {
    for _ in 0..ITERATIONS {
        let expected: u16 = rand::random();
        check_bits(FieldElem::from_u16(expected), 16, expected as u128);
    }
}

#[test]
fn test_i16_to_field() {
    for _ in 0..ITERATIONS {
        let expected: i16 = rand::random();
        check_bits(FieldElem::from_i16(expected), 16, expected as u16 as u128);
    }
}

#[test]
fn test_u32_to_field() {
    for _ in 0..ITERATIONS {
        let expected: u32 = rand::random();
        check_bits(FieldElem::from_u32(expected), 32, expected as u128);
    }
}

#[test]
fn test_i32_to_field() {
    for _ in 0..ITERATIONS {
        let expected: i32 = rand::random();
        check_bits(FieldElem::from_i32(expected), 32, expected as u32 as u128);
    }
}

#[test]
fn test_u64_to_field() {
    for _ in 0..ITERATIONS {
        let expected: u64 = rand::random();
        check_bits(FieldElem::from_u64(expected), 64, expected as u128);
    }
}

#[test]
fn test_i64_to_field() {
    for _ in 0..ITERATIONS {
        let expected: i64 = rand::random();
        check_bits(FieldElem::from_i64(expected), 64, expected as u64 as u128);
    }
}

#[test]
fn test_u128_to_field() {
    for _ in 0..ITERATIONS {
        let expected: u128 = rand::random();
        check_bits(FieldElem::from_u128(expected), 128, expected);
    }
}

#[test]
fn test_i128_to_field() {
    for _ in 0..ITERATIONS {
        let expected: i128 = rand::random();
        check_bits(FieldElem::from_i128(expected), 128, expected as u128);
    }
}
