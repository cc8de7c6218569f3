use zkvm_local_server::bytes::{append_bytes, bytes_equal, copy_bytes};
use zkvm_local_server::error::{ErrorKind, PipelineError};
use zkvm_local_server::record::{BinaryFingerprint, StoredProofRecord, RECORD_HEADER_LEN};

#[test]
fn record_layout_is_magic_length_fingerprint_proof() {
    let record = StoredProofRecord::new(BinaryFingerprint::of(&[1, 2, 3]), vec![9, 8]);
    assert_eq!(
        record.to_bytes(),
        vec![0x5a, 0x4b, 0x50, 0x52, 3, 0, 0, 0, 0, 0, 0, 0, 1, 2, 3, 9, 8]
    );
    assert_eq!(RECORD_HEADER_LEN, 12);
}

#[test]
fn record_length_field_is_little_endian() {
    let binary = vec![7u8; 258];
    let record = StoredProofRecord::new(BinaryFingerprint::of(&binary), Vec::new());
    let bytes = record.to_bytes();
    assert_eq!(bytes.len(), 12 + 258);
    assert_eq!(&bytes[4..12], &[2u8, 1, 0, 0, 0, 0, 0, 0][..]);
    assert_eq!(&bytes[12..], &binary[..]);
}

#[test]
fn record_survives_its_layout() {
    let cases: Vec<(Vec<u8>, Vec<u8>)> = vec![
        (Vec::new(), Vec::new()),
        (vec![1], Vec::new()),
        (Vec::new(), vec![2]),
        (vec![0x5a, 0x4b, 0x50, 0x52], vec![0x5a, 0x4b, 0x50, 0x52]),
        ((0..=255u8).collect(), (0..=255u8).rev().collect()),
    ];
    for (binary, proof_bytes) in cases {
        let record = StoredProofRecord::new(BinaryFingerprint::of(&binary), proof_bytes.clone());
        let bytes = record.to_bytes();
        let back = StoredProofRecord::from_bytes(&bytes).unwrap();
        assert_eq!(back, record);
        assert!(back.fingerprint().matches(&binary));
        assert_eq!(back.fingerprint().as_bytes(), &binary[..]);
        assert_eq!(back.proof_bytes(), &proof_bytes[..]);
        assert_eq!(back.to_bytes(), bytes);
    }
}

#[test]
fn from_bytes_reads_a_written_layout() {
    let bytes = [0x5au8, 0x4b, 0x50, 0x52, 2, 0, 0, 0, 0, 0, 0, 0, 0xaa, 0xbb, 0xcc];
    let record = StoredProofRecord::from_bytes(&bytes).unwrap();
    assert_eq!(record.fingerprint().as_bytes(), &[0xaau8, 0xbb][..]);
    assert_eq!(record.proof_bytes(), &[0xccu8][..]);
    let (fingerprint, proof_bytes) = record.into_parts();
    assert_eq!(fingerprint, BinaryFingerprint::of(&[0xaa, 0xbb]));
    assert_eq!(proof_bytes, vec![0xcc]);
}

#[test]
fn from_bytes_refuses_what_is_no_record() {
    let malformed: Vec<Vec<u8>> = vec![
        Vec::new(),
        vec![0x5a, 0x4b, 0x50, 0x52],
        vec![0x5a, 0x4b, 0x50, 0x52, 0, 0, 0, 0, 0, 0, 0],
        vec![0x5b, 0x4b, 0x50, 0x52, 0, 0, 0, 0, 0, 0, 0, 0],
        vec![0x5a, 0x4b, 0x50, 0x53, 0, 0, 0, 0, 0, 0, 0, 0],
        vec![0x5a, 0x4b, 0x50, 0x52, 1, 0, 0, 0, 0, 0, 0, 0],
        vec![0x5a, 0x4b, 0x50, 0x52, 3, 0, 0, 0, 0, 0, 0, 0, 1, 2],
        vec![0x5a, 0x4b, 0x50, 0x52, 0, 0, 0, 0, 0, 0, 0, 0x80, 1, 2],
        vec![0x5a, 0x4b, 0x50, 0x52, 0xff, 0xff, 0xff, 0xff, 0xff, 0xff, 0xff, 0xff, 1],
    ];
    for bytes in malformed {
        let error = StoredProofRecord::from_bytes(&bytes).unwrap_err();
        assert_eq!(
            error,
            PipelineError::new(
                ErrorKind::SerializationError,
                String::from("stored record is malformed")
            )
        );
    }
}

#[test]
fn from_bytes_accepts_an_empty_record() {
    let bytes = [0x5au8, 0x4b, 0x50, 0x52, 0, 0, 0, 0, 0, 0, 0, 0];
    let record = StoredProofRecord::from_bytes(&bytes).unwrap();
    assert!(record.fingerprint().as_bytes().is_empty());
    assert!(record.proof_bytes().is_empty());
}

#[test]
fn fingerprint_tells_binaries_apart() {
    let fingerprint = BinaryFingerprint::of(&[1, 2, 3]);
    assert!(fingerprint.matches(&[1, 2, 3]));
    assert!(!fingerprint.matches(&[1, 2, 4]));
    assert!(!fingerprint.matches(&[1, 2]));
    assert!(!fingerprint.matches(&[1, 2, 3, 0]));
    assert!(!fingerprint.matches(&[]));
    assert!(BinaryFingerprint::of(&[]).matches(&[]));
    assert_eq!(fingerprint.clone(), fingerprint);
    assert_ne!(fingerprint, BinaryFingerprint::of(&[3, 2, 1]));
}

#[test]
fn error_constructors_keep_kind_and_detail() {
    let built = PipelineError::new(ErrorKind::BuildError, String::from("E0425"));
    assert_eq!(built.kind, ErrorKind::BuildError);
    assert_eq!(built.detail, "E0425");
    let fixed = PipelineError::with_message(ErrorKind::IoError, "disk full");
    assert_eq!(fixed.kind, ErrorKind::IoError);
    assert_eq!(fixed.detail, "disk full");
}

#[test]
fn byte_helpers_append_copy_and_compare() {
    let mut out = vec![1u8, 2];
    append_bytes(&mut out, &[3, 4]);
    assert_eq!(out, vec![1, 2, 3, 4]);
    append_bytes(&mut out, &[]);
    assert_eq!(out, vec![1, 2, 3, 4]);
    assert_eq!(copy_bytes(&[5, 6, 7]), vec![5, 6, 7]);
    assert!(copy_bytes(&[]).is_empty());
    assert!(bytes_equal(&[1, 2], &[1, 2]));
    assert!(bytes_equal(&[], &[]));
    assert!(!bytes_equal(&[1, 2], &[1, 3]));
    assert!(!bytes_equal(&[1, 2], &[1]));
    assert!(!bytes_equal(&[1], &[1, 2]));
}
