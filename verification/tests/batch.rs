use section45::contract::{compute_batch_id, Contract};
use section45::encode::{encode_submission, quantity_to_bytes};
use section45::errors::ContractErrors;
use section45::hexfmt::bytes_to_hex_string;
use sha2::{Digest, Sha256};

fn submit(
    contract: &mut Contract,
    component_type: &[u8],
    production_quantity: i32,
    production_date: &[u8],
    facility_id: &[u8],
    doc_hash: &[u8],
    now: u64,
) -> Result<String, ContractErrors> {
    contract.submit_data(
        &component_type.to_vec(),
        production_quantity,
        &production_date.to_vec(),
        &facility_id.to_vec(),
        &doc_hash.to_vec(),
        now,
    )
}

#[test]
fn test() {
    let mut contract = Contract::new();

    // Inputs
    let component_type = b"solarpsolarpsolarpsolarpsolarpsolarpsolarpsolarpsolarpsolarp";
    let production_quantity = 100;
    let production_date = b"2025-04-24";
    let facility_id = b"FAC123";
    let doc_hash = b"abc123def456";

    let batch_id = submit(
        &mut contract,
        component_type,
        production_quantity,
        production_date,
        facility_id,
        doc_hash,
        0,
    )
    .unwrap();

    println!("batch_id: {}", batch_id);

    let timestamp = contract.get_timestamp(&batch_id);

    println!("timestamp: {}", timestamp);
}

#[test]
fn determinism_same_fields_same_identifier() {
    let mut contract = Contract::new();
    let first = submit(&mut contract, b"gear", 5, b"2025-01-01", b"FAC1", b"d0c0", 10).unwrap();
    let second = submit(&mut contract, b"gear", 5, b"2025-01-01", b"FAC1", b"d0c0", 20).unwrap();
    assert_eq!(first, second);

    // The identifier is content-addressed: a fresh store derives the same one.
    let mut other = Contract::new();
    let third = submit(&mut other, b"gear", 5, b"2025-01-01", b"FAC1", b"d0c0", 30).unwrap();
    assert_eq!(first, third);
}

#[test]
fn sensitivity_each_field_changes_identifier() {
    let mut contract = Contract::new();
    let base = submit(&mut contract, b"gear", 5, b"2025-01-01", b"FAC1", b"d0c0", 1).unwrap();
    let ct = submit(&mut contract, b"gearx", 5, b"2025-01-01", b"FAC1", b"d0c0", 1).unwrap();
    let qty = submit(&mut contract, b"gear", 6, b"2025-01-01", b"FAC1", b"d0c0", 1).unwrap();
    let date = submit(&mut contract, b"gear", 5, b"2025-01-02", b"FAC1", b"d0c0", 1).unwrap();
    let fac = submit(&mut contract, b"gear", 5, b"2025-01-01", b"FAC2", b"d0c0", 1).unwrap();
    let doc = submit(&mut contract, b"gear", 5, b"2025-01-01", b"FAC1", b"d0c1", 1).unwrap();
    let ids = [&base, &ct, &qty, &date, &fac, &doc];
    for i in 0..ids.len() {
        for j in (i + 1)..ids.len() {
            assert_ne!(ids[i], ids[j]);
        }
    }
}

#[test]
fn component_type_at_bound_succeeds_over_bound_fails() {
    let mut contract = Contract::new();
    let ok = submit(&mut contract, &[b'a'; 64], 1, b"2025-01-01", b"F", b"d", 7);
    assert!(ok.is_ok());
    let err = submit(&mut contract, &[b'a'; 65], 1, b"2025-01-01", b"F", b"d", 7);
    assert_eq!(err.unwrap_err(), ContractErrors::ComponentTypeLengthError);
}

#[test]
fn production_date_at_bound_succeeds_over_bound_fails() {
    let mut contract = Contract::new();
    let ok = submit(&mut contract, b"gear", 1, &[b'd'; 20], b"F", b"d", 7);
    assert!(ok.is_ok());
    let err = submit(&mut contract, b"gear", 1, &[b'd'; 21], b"F", b"d", 7);
    assert_eq!(err.unwrap_err(), ContractErrors::ProductionDateLengthError);
}

#[test]
fn facility_id_at_bound_succeeds_over_bound_fails() {
    let mut contract = Contract::new();
    let ok = submit(&mut contract, b"gear", 1, b"2025-01-01", &[b'f'; 64], b"d", 7);
    assert!(ok.is_ok());
    let err = submit(&mut contract, b"gear", 1, b"2025-01-01", &[b'f'; 65], b"d", 7);
    assert_eq!(err.unwrap_err(), ContractErrors::FacilityIdLengthError);
}

#[test]
fn doc_hash_at_bound_succeeds_over_bound_fails() {
    let mut contract = Contract::new();
    let ok = submit(&mut contract, b"gear", 1, b"2025-01-01", b"F", &[b'h'; 70], 7);
    assert!(ok.is_ok());
    let err = submit(&mut contract, b"gear", 1, b"2025-01-01", b"F", &[b'h'; 71], 7);
    assert_eq!(err.unwrap_err(), ContractErrors::DocHashLengthError);
}

#[test]
fn failed_submission_writes_nothing() {
    let mut contract = Contract::new();
    // The identifier the over-long tuple would get, recomputed here from its
    // canonical encoding with the hash the handler uses.
    let encoded = encode_submission(
        &[b'a'; 65].to_vec(),
        1,
        &b"2025-01-01".to_vec(),
        &b"F".to_vec(),
        &b"d".to_vec(),
    );
    let would_be_id = bytes_to_hex_string(&Sha256::digest(&encoded).to_vec());
    let err = submit(&mut contract, &[b'a'; 65], 1, b"2025-01-01", b"F", b"d", 7);
    assert!(err.is_err());
    assert_eq!(contract.get_timestamp(&would_be_id), 0);
}

#[test]
fn first_length_violation_wins() {
    let mut contract = Contract::new();
    // Every text field is over its bound: the component type is reported.
    let err = submit(&mut contract, &[b'a'; 65], 1, &[b'd'; 21], &[b'f'; 65], &[b'h'; 71], 7);
    assert_eq!(err.unwrap_err(), ContractErrors::ComponentTypeLengthError);
    // With the component type in bounds, the production date is reported.
    let err = submit(&mut contract, b"gear", 1, &[b'd'; 21], &[b'f'; 65], &[b'h'; 71], 7);
    assert_eq!(err.unwrap_err(), ContractErrors::ProductionDateLengthError);
    // Then the facility id.
    let err = submit(&mut contract, b"gear", 1, b"2025-01-01", &[b'f'; 65], &[b'h'; 71], 7);
    assert_eq!(err.unwrap_err(), ContractErrors::FacilityIdLengthError);
}

#[test]
fn idempotent_overwrite_updates_timestamp() {
    let mut contract = Contract::new();
    let first = submit(&mut contract, b"gear", 5, b"2025-01-01", b"FAC1", b"d0c0", 100).unwrap();
    assert_eq!(contract.get_timestamp(&first), 100);
    let second = submit(&mut contract, b"gear", 5, b"2025-01-01", b"FAC1", b"d0c0", 200).unwrap();
    assert_eq!(first, second);
    assert_eq!(contract.get_timestamp(&second), 200);
}

#[test]
fn distinct_submissions_stored_side_by_side() {
    let mut contract = Contract::new();
    let a = submit(&mut contract, b"gear", 5, b"2025-01-01", b"FAC1", b"d0c0", 100).unwrap();
    let b = submit(&mut contract, b"cog", 5, b"2025-01-01", b"FAC1", b"d0c0", 200).unwrap();
    assert_ne!(a, b);
    assert_eq!(contract.get_timestamp(&a), 100);
    assert_eq!(contract.get_timestamp(&b), 200);
}

#[test]
fn unknown_identifier_returns_zero() {
    let mut contract = Contract::new();
    let stored = submit(&mut contract, b"gear", 5, b"2025-01-01", b"FAC1", b"d0c0", 100).unwrap();
    let unknown = String::from("0123456789abcdef0123456789abcdef0123456789abcdef0123456789abcdef");
    assert_ne!(stored, unknown);
    assert_eq!(contract.get_timestamp(&unknown), 0);
    // Lookup needs no prior submission at all.
    let empty = Contract::new();
    assert_eq!(empty.get_timestamp(&unknown), 0);
}

#[test]
fn end_to_end_example_fixed_identifier() {
    let mut contract = Contract::new();
    let submitted_at: u64 = 1745500000;
    let batch_id = submit(
        &mut contract,
        b"solarpsolarpsolarpsolarpsolarpsolarpsolarpsolarpsolarpsolarp",
        100,
        b"2025-04-24",
        b"FAC123",
        b"abc123def456",
        submitted_at,
    )
    .unwrap();
    assert_eq!(batch_id.len(), 64);
    assert!(batch_id.bytes().all(|b| b"0123456789abcdef".contains(&b)));
    assert_eq!(
        batch_id,
        "9f6d98681db5890d1b09a1707abb3fa980854bfa945f2246e72bb54da96835fc"
    );
    assert_eq!(contract.get_timestamp(&batch_id), submitted_at);
}

#[test]
fn quantity_encodes_as_big_endian_twos_complement() {
    assert_eq!(quantity_to_bytes(0x01020304), vec![0x01, 0x02, 0x03, 0x04]);
    assert_eq!(quantity_to_bytes(100), vec![0x00, 0x00, 0x00, 0x64]);
    assert_eq!(quantity_to_bytes(-1), vec![0xff, 0xff, 0xff, 0xff]);
    assert_eq!(quantity_to_bytes(-2), vec![0xff, 0xff, 0xff, 0xfe]);
    assert_eq!(quantity_to_bytes(i32::MIN), vec![0x80, 0x00, 0x00, 0x00]);
    assert_eq!(quantity_to_bytes(i32::MAX), vec![0x7f, 0xff, 0xff, 0xff]);
}

#[test]
fn encoding_concatenates_fields_in_frozen_order() {
    let encoded = encode_submission(
        &b"ct".to_vec(),
        0x01020304,
        &b"date".to_vec(),
        &b"fac".to_vec(),
        &b"doc".to_vec(),
    );
    let mut expected = b"ct".to_vec();
    expected.extend_from_slice(&[0x01, 0x02, 0x03, 0x04]);
    expected.extend_from_slice(b"date");
    expected.extend_from_slice(b"fac");
    expected.extend_from_slice(b"doc");
    assert_eq!(encoded, expected);
}

#[test]
fn hex_rendering_is_lowercase_msn_first() {
    assert_eq!(bytes_to_hex_string(&vec![]), "");
    assert_eq!(
        bytes_to_hex_string(&vec![0x00, 0x0f, 0xa5, 0xff, 0x1b]),
        "000fa5ff1b"
    );
}

#[test]
fn identifier_matches_independent_recomputation() {
    // Recompute the identifier from the canonical encoding with sha2
    // directly; fails if the pipeline's digest handed its input back.
    let batch_id =
        compute_batch_id(&b"gear".to_vec(), 5, &b"2025-01-01".to_vec(), &b"FAC1".to_vec(), &b"d0c0".to_vec())
            .unwrap();
    let encoded =
        encode_submission(&b"gear".to_vec(), 5, &b"2025-01-01".to_vec(), &b"FAC1".to_vec(), &b"d0c0".to_vec());
    let recomputed = bytes_to_hex_string(&Sha256::digest(&encoded).to_vec());
    assert_eq!(batch_id, recomputed);
    assert_ne!(batch_id, bytes_to_hex_string(&encoded));
}
