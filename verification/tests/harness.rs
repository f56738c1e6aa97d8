use overflow_probe::operand::{decode, DecodeError, OperandPair, PAIR_BYTES};
use overflow_probe::probe::Verdict;
use overflow_probe::{run_iteration, HarnessError};

fn pair_bytes(a: u64, b: u64) -> Vec<u8> {
    let mut bytes: Vec<u8> = Vec::new();
    bytes.extend_from_slice(&a.to_le_bytes());
    bytes.extend_from_slice(&b.to_le_bytes());
    bytes
}

#[test]
fn decode_reads_little_endian() {
    let mut bytes: Vec<u8> = vec![0; 16];
    bytes[0] = 1;
    bytes[8] = 2;
    bytes[9] = 1;
    assert_eq!(decode(&bytes), Ok(OperandPair { a: 1, b: 0x102 }));
}

#[test]
fn decode_covers_full_range() {
    let bytes = pair_bytes(u64::MAX, 9223372036854775808);
    assert_eq!(
        decode(&bytes),
        Ok(OperandPair { a: u64::MAX, b: 9223372036854775808 })
    );
}

#[test]
fn decode_ignores_trailing_bytes() {
    let mut bytes = pair_bytes(7, 9);
    bytes.extend_from_slice(&[0xAB, 0xCD, 0xEF]);
    assert_eq!(decode(&bytes), Ok(OperandPair { a: 7, b: 9 }));
}

#[test]
fn decode_is_idempotent() {
    let bytes = pair_bytes(0xDEADBEEF, 0xCAFEBABE);
    let first = decode(&bytes);
    let second = decode(&bytes);
    assert_eq!(first, second);
    assert_eq!(first, Ok(OperandPair { a: 0xDEADBEEF, b: 0xCAFEBABE }));
}

#[test]
fn decode_rejects_short_input() {
    let empty: Vec<u8> = Vec::new();
    assert_eq!(decode(&empty), Err(DecodeError));
    let fifteen: Vec<u8> = vec![0xFF; PAIR_BYTES - 1];
    assert_eq!(decode(&fifteen), Err(DecodeError));
}

#[test]
fn iteration_zero_pair_gives_zero_sum() {
    let bytes = pair_bytes(0, 0);
    assert_eq!(run_iteration(&bytes), Ok(Verdict::Sum(0)));
}

#[test]
fn iteration_max_and_zero_gives_max() {
    let bytes = pair_bytes(18446744073709551615, 0);
    assert_eq!(run_iteration(&bytes), Ok(Verdict::Sum(18446744073709551615)));
}

#[test]
fn iteration_max_and_one_overflows() {
    let bytes = pair_bytes(18446744073709551615, 1);
    assert_eq!(run_iteration(&bytes), Ok(Verdict::Overflow));
}

#[test]
fn iteration_exact_boundary_sum_is_max() {
    let bytes = pair_bytes(9223372036854775807, 9223372036854775808);
    assert_eq!(run_iteration(&bytes), Ok(Verdict::Sum(18446744073709551615)));
}

#[test]
fn iteration_short_input_gives_decode_error() {
    let bytes: Vec<u8> = vec![1, 2, 3, 4, 5];
    assert_eq!(run_iteration(&bytes), Err(HarnessError::Decode(DecodeError)));
}
