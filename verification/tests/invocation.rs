//! End-to-end tests of the invocation handler against the in-memory model
//! of the host's return-data channel.

use return_data::channel::{ReturnDataSlot, MAX_RETURN_DATA};
use return_data::handler::{build_fixture_record, deliver_record, handle_invocation};
use return_data::record::{decode, Record, RecordError};

#[test]
fn invocation_sets_return_data_to_fixture_record() {
    let mut slot = ReturnDataSlot::with_host_capacity();
    assert!(!slot.is_set());
    assert_eq!(handle_invocation(&mut slot), Ok(()));
    assert!(slot.is_set());
    let decoded = decode(slot.payload()).unwrap();
    assert_eq!(decoded.asset_type, "PNG");
    assert_eq!(decoded.asset_size, 100);
}

#[test]
fn invocation_payload_exact_bytes() {
    let mut slot = ReturnDataSlot::with_host_capacity();
    assert_eq!(handle_invocation(&mut slot), Ok(()));
    assert_eq!(
        slot.payload(),
        &[0x03, 0x00, 0x00, 0x00, b'P', b'N', b'G', 0x64, 0x00, 0x00, 0x00]
    );
}

#[test]
fn fixture_record_has_fixed_fields() {
    let record = build_fixture_record();
    assert_eq!(record.asset_type, "PNG");
    assert_eq!(record.asset_size, 100);
}

#[test]
fn oversized_record_fails_and_slot_stays_unset() {
    // An encoding of 8 + 2000 bytes exceeds the host's 1024-byte channel.
    let record = Record { asset_type: "x".repeat(2000), asset_size: 1 };
    let mut slot = ReturnDataSlot::with_host_capacity();
    assert_eq!(
        deliver_record(&record, &mut slot),
        Err(RecordError::ReturnDataTooLarge)
    );
    assert!(!slot.is_set());
}

#[test]
fn fixture_record_overflows_tiny_slot() {
    let mut slot = ReturnDataSlot::new(4);
    assert_eq!(
        handle_invocation(&mut slot),
        Err(RecordError::ReturnDataTooLarge)
    );
    assert!(!slot.is_set());
    assert_eq!(slot.capacity(), 4);
}

#[test]
fn delivery_fits_exactly_at_capacity() {
    let record = build_fixture_record();
    let mut slot = ReturnDataSlot::new(11);
    assert_eq!(deliver_record(&record, &mut slot), Ok(()));
    assert_eq!(slot.payload().len(), 11);
}

#[test]
fn failed_delivery_keeps_earlier_payload() {
    let small = Record { asset_type: "a".to_string(), asset_size: 5 };
    let big = Record { asset_type: "y".repeat(100), asset_size: 6 };
    let mut slot = ReturnDataSlot::new(16);
    assert_eq!(deliver_record(&small, &mut slot), Ok(()));
    let held = slot.payload().to_vec();
    assert_eq!(
        deliver_record(&big, &mut slot),
        Err(RecordError::ReturnDataTooLarge)
    );
    assert_eq!(slot.payload(), held.as_slice());
}

#[test]
fn host_capacity_matches_host_constant() {
    let slot = ReturnDataSlot::with_host_capacity();
    assert_eq!(slot.capacity(), MAX_RETURN_DATA);
    assert_eq!(MAX_RETURN_DATA, solana_program::program::MAX_RETURN_DATA);
}
