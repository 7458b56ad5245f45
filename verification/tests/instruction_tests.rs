use counter_program::instruction::{decode, encode, increment, initialize, CounterInstruction, DecodeError};
use counter_program::state::{Address, Counter};

#[test]
fn encode_is_one_discriminant_byte() {
    assert_eq!(encode(CounterInstruction::Initialize), vec![0u8]);
    assert_eq!(encode(CounterInstruction::Increment), vec![1u8]);
}

#[test]
fn round_trip_initialize() {
    let bytes = encode(CounterInstruction::Initialize);
    assert_eq!(decode(&bytes), Ok(CounterInstruction::Initialize));
}

#[test]
fn round_trip_increment() {
    let bytes = encode(CounterInstruction::Increment);
    assert_eq!(decode(&bytes), Ok(CounterInstruction::Increment));
}

#[test]
fn decode_empty_buffer_is_truncated() {
    assert_eq!(decode(&[]), Err(DecodeError::Truncated));
}

#[test]
fn decode_unknown_discriminant_is_rejected() {
    assert_eq!(decode(&[0x02]), Err(DecodeError::UnknownVariant));
    assert_eq!(decode(&[0xff]), Err(DecodeError::UnknownVariant));
}

#[test]
fn decode_trailing_bytes_are_rejected() {
    assert_eq!(decode(&[0x00, 0x00]), Err(DecodeError::TrailingData));
    assert_eq!(decode(&[0x01, 0x07, 0x09]), Err(DecodeError::TrailingData));
}

#[test]
fn counter_serializes_little_endian() {
    let c = Counter { count: 0x0102_0304 };
    assert_eq!(c.to_bytes(), vec![0x04, 0x03, 0x02, 0x01]);
}

#[test]
fn counter_round_trips_through_bytes() {
    let c = Counter { count: 41 };
    let bytes = c.to_bytes();
    assert_eq!(Counter::from_bytes(&bytes), Some(Counter { count: 41 }));
}

#[test]
fn counter_rejects_wrong_lengths() {
    assert_eq!(Counter::from_bytes(&[]), None);
    assert_eq!(Counter::from_bytes(&[1, 2, 3]), None);
    assert_eq!(Counter::from_bytes(&[1, 2, 3, 4, 5]), None);
}

#[test]
fn initialize_builder_lists_three_records() {
    let program_id = Address { value: 11 };
    let counter = Address { value: 22 };
    let authority = Address { value: 33 };
    let msg = initialize(&program_id, &counter, &authority);
    assert_eq!(msg.program_id, program_id);
    assert_eq!(msg.data, vec![0u8]);
    assert_eq!(msg.accounts.len(), 3);
    assert_eq!(msg.accounts[0].address, counter);
    assert!(msg.accounts[0].is_writable);
    assert!(!msg.accounts[0].is_authorized);
    assert_eq!(msg.accounts[1].address, authority);
    assert!(!msg.accounts[1].is_writable);
    assert!(msg.accounts[1].is_authorized);
    assert_eq!(msg.accounts[2].address, Address { value: 0 });
    assert!(!msg.accounts[2].is_writable);
    assert!(!msg.accounts[2].is_authorized);
}

#[test]
fn increment_builder_lists_two_records() {
    let program_id = Address { value: 11 };
    let counter = Address { value: 22 };
    let authority = Address { value: 33 };
    let msg = increment(&program_id, &counter, &authority);
    assert_eq!(msg.program_id, program_id);
    assert_eq!(msg.data, vec![1u8]);
    assert_eq!(msg.accounts.len(), 2);
    assert_eq!(msg.accounts[0].address, counter);
    assert!(msg.accounts[0].is_writable);
    assert!(!msg.accounts[0].is_authorized);
    assert_eq!(msg.accounts[1].address, authority);
    assert!(!msg.accounts[1].is_writable);
    assert!(msg.accounts[1].is_authorized);
}
