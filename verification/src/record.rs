//! Stored proof records: a proof together with the identity of the binary it was
//! produced against, and the byte layout in which a record is kept.
//!
//! A record is laid out as the four magic bytes, the length of the fingerprint as a
//! little-endian 64-bit number, the fingerprint, and then the proof up to the end.

use crate::bytes::{append_bytes, bytes_equal, copy_bytes};
use crate::error::{ErrorKind, ErrorView, PipelineError};
use vstd::bytes::*;
use vstd::prelude::*;
use vstd::slice::*;

verus! {

/// The identity of a binary. It is exact: two binaries have the same fingerprint only
/// if they are the same bytes (see [`lemma_fingerprint_exact`]).
pub closed spec fn fingerprint_of(binary: Seq<u8>) -> Seq<u8> {
    binary
}

/// Two binaries have the same fingerprint if and only if they are byte for byte equal.
pub proof fn lemma_fingerprint_exact(left: Seq<u8>, right: Seq<u8>)
    ensures
        (fingerprint_of(left) == fingerprint_of(right)) <==> (left == right),
{
}

/// A fingerprint is as long as the binary it is taken of.
pub proof fn lemma_fingerprint_len(binary: Seq<u8>)
    ensures
        fingerprint_of(binary).len() == binary.len(),
{
}

/// The identity of the exact binary that a proof was produced against.
#[derive(Debug, PartialEq, Eq)]
pub struct BinaryFingerprint {
    image: Vec<u8>,
}

impl View for BinaryFingerprint {
    type V = Seq<u8>;

    closed spec fn view(&self) -> Seq<u8> {
        self.image@
    }
}

impl Clone for BinaryFingerprint {
    fn clone(&self) -> (copy: Self)
        ensures
            copy@ == self@,
    {
        BinaryFingerprint { image: copy_bytes(self.image.as_slice()) }
    }
}

impl BinaryFingerprint {
    /// Takes the fingerprint of `binary`.
    pub fn of(binary: &[u8]) -> (fingerprint: BinaryFingerprint)
        ensures
            fingerprint@ == fingerprint_of(binary@),
    {
        BinaryFingerprint { image: copy_bytes(binary) }
    }

    /// Tells whether this is the fingerprint of `binary`.
    pub fn matches(&self, binary: &[u8]) -> (same: bool)
        ensures
            same == (self@ == fingerprint_of(binary@)),
    {
        bytes_equal(self.image.as_slice(), binary)
    }

    /// The fingerprint as it is written into a record.
    pub fn as_bytes(&self) -> (bytes: &[u8])
        ensures
            bytes@ == self@,
    {
        self.image.as_slice()
    }
}

/// The mathematical content of a [`StoredProofRecord`].
pub struct RecordView {
    pub fingerprint: Seq<u8>,
    pub proof_bytes: Seq<u8>,
}

/// A proof, as serialized bytes, bound to the fingerprint of the binary it attests.
#[derive(Debug, PartialEq, Eq)]
pub struct StoredProofRecord {
    fingerprint: BinaryFingerprint,
    proof_bytes: Vec<u8>,
}

impl View for StoredProofRecord {
    type V = RecordView;

    closed spec fn view(&self) -> RecordView {
        RecordView { fingerprint: self.fingerprint@, proof_bytes: self.proof_bytes@ }
    }
}

impl Clone for StoredProofRecord {
    fn clone(&self) -> (copy: Self)
        ensures
            copy@ == self@,
    {
        StoredProofRecord {
            fingerprint: self.fingerprint.clone(),
            proof_bytes: copy_bytes(self.proof_bytes.as_slice()),
        }
    }
}

/// The number of bytes in front of the fingerprint: the magic and the length field.
pub const RECORD_HEADER_LEN: usize = 12;

/// The four bytes that every record starts with.
pub open spec fn record_magic() -> Seq<u8> {
    seq![0x5au8, 0x4bu8, 0x50u8, 0x52u8]
}

/// The byte layout of a record.
pub open spec fn encode_record(record: RecordView) -> Seq<u8> {
    record_magic() + spec_u64_to_le_bytes(record.fingerprint.len() as u64) + record.fingerprint
        + record.proof_bytes
}

/// The record that `bytes` lay out, if they lay out one.
pub open spec fn decode_record(bytes: Seq<u8>) -> Option<RecordView> {
    if bytes.len() < RECORD_HEADER_LEN || bytes.subrange(0, 4) != record_magic() {
        None
    } else {
        let declared = spec_u64_from_le_bytes(bytes.subrange(4, 12)) as int;
        if declared > bytes.len() - RECORD_HEADER_LEN {
            None
        } else {
            Some(
                RecordView {
                    fingerprint: bytes.subrange(12, 12 + declared),
                    proof_bytes: bytes.subrange(12 + declared, bytes.len() as int),
                },
            )
        }
    }
}

/// The detail of the failure that undecodable record bytes give.
pub open spec fn malformed_record_detail() -> Seq<char> {
    "stored record is malformed"@
}

/// The failure that undecodable record bytes give.
pub open spec fn malformed_record_error() -> ErrorView {
    ErrorView { kind: ErrorKind::SerializationError, detail: malformed_record_detail() }
}

/// Decoding the layout of a record gives the record back.
pub proof fn lemma_decode_encode(record: RecordView)
    requires
        record.fingerprint.len() <= u64::MAX,
    ensures
        decode_record(encode_record(record)) == Some(record),
{
    lemma_auto_spec_u64_to_from_le_bytes();
    let length = spec_u64_to_le_bytes(record.fingerprint.len() as u64);
    let bytes = encode_record(record);
    assert(bytes.subrange(0, 4) == record_magic());
    assert(bytes.subrange(4, 12) == length);
    let declared = record.fingerprint.len() as int;
    assert(bytes.subrange(12, 12 + declared) == record.fingerprint);
    assert(bytes.subrange(12 + declared, bytes.len() as int) == record.proof_bytes);
}

/// Bytes that decode to a record are exactly the layout of that record: no two
/// different byte strings hold the same record.
pub proof fn lemma_encode_decode(bytes: Seq<u8>)
    requires
        decode_record(bytes) is Some,
    ensures
        encode_record(decode_record(bytes).unwrap()) == bytes,
{
    lemma_auto_spec_u64_to_from_le_bytes();
    let record = decode_record(bytes).unwrap();
    let field = bytes.subrange(4, 12);
    let declared = spec_u64_from_le_bytes(field);
    assert(record.fingerprint.len() == declared);
    assert(spec_u64_to_le_bytes(spec_u64_from_le_bytes(field)) == field);
    assert(encode_record(record) == bytes);
}

impl StoredProofRecord {
    /// Binds a serialized proof to `fingerprint`.
    pub fn new(fingerprint: BinaryFingerprint, proof_bytes: Vec<u8>) -> (record: StoredProofRecord)
        ensures
            record@ == (RecordView { fingerprint: fingerprint@, proof_bytes: proof_bytes@ }),
    {
        StoredProofRecord { fingerprint, proof_bytes }
    }

    /// The fingerprint of the binary that the proof was produced against.
    pub fn fingerprint(&self) -> (fingerprint: &BinaryFingerprint)
        ensures
            fingerprint@ == self@.fingerprint,
    {
        &self.fingerprint
    }

    /// The serialized proof.
    pub fn proof_bytes(&self) -> (bytes: &[u8])
        ensures
            bytes@ == self@.proof_bytes,
    {
        self.proof_bytes.as_slice()
    }

    /// Takes the record apart again.
    pub fn into_parts(self) -> (parts: (BinaryFingerprint, Vec<u8>))
        ensures
            parts.0@ == self@.fingerprint,
            parts.1@ == self@.proof_bytes,
    {
        (self.fingerprint, self.proof_bytes)
    }

    /// Lays the record out as bytes.
    pub fn to_bytes(&self) -> (bytes: Vec<u8>)
        ensures
            bytes@ == encode_record(self@),
    {
        let mut bytes: Vec<u8> = Vec::new();
        bytes.push(0x5au8);
        bytes.push(0x4bu8);
        bytes.push(0x50u8);
        bytes.push(0x52u8);
        assert(bytes@ == record_magic());
        let length = u64_to_le_bytes(self.fingerprint.image.len() as u64);
        append_bytes(&mut bytes, length.as_slice());
        append_bytes(&mut bytes, self.fingerprint.image.as_slice());
        append_bytes(&mut bytes, self.proof_bytes.as_slice());
        bytes
    }

    /// Reads a record back from its byte layout. Bytes that do not lay out a record
    /// are refused with `SerializationError`.
    pub fn from_bytes(bytes: &[u8]) -> (decoded: Result<StoredProofRecord, PipelineError>)
        ensures
            match decode_record(bytes@) {
                Some(record) => decoded matches Ok(found) && found@ == record,
                None => decoded matches Err(error) && error@ == malformed_record_error(),
            },
    {
        if bytes.len() < RECORD_HEADER_LEN {
            return Err(
                PipelineError::with_message(
                    ErrorKind::SerializationError,
                    "stored record is malformed",
                ),
            );
        }
        let starts_with_magic = bytes[0] == 0x5au8 && bytes[1] == 0x4bu8 && bytes[2] == 0x50u8
            && bytes[3] == 0x52u8;
        proof {
            let head = bytes@.subrange(0, 4);
            if starts_with_magic {
                assert(head == record_magic());
            } else {
                assert(head[0] == bytes@[0] && head[1] == bytes@[1] && head[2] == bytes@[2]
                    && head[3] == bytes@[3]);
                assert(head != record_magic());
            }
        }
        if !starts_with_magic {
            return Err(
                PipelineError::with_message(
                    ErrorKind::SerializationError,
                    "stored record is malformed",
                ),
            );
        }
        let declared: u64 = u64_from_le_bytes(slice_subrange(bytes, 4, 12));
        if declared > (bytes.len() - RECORD_HEADER_LEN) as u64 {
            return Err(
                PipelineError::with_message(
                    ErrorKind::SerializationError,
                    "stored record is malformed",
                ),
            );
        }
        let split: usize = RECORD_HEADER_LEN + declared as usize;
        let image = copy_bytes(slice_subrange(bytes, RECORD_HEADER_LEN, split));
        let proof_bytes = copy_bytes(slice_subrange(bytes, split, bytes.len()));
        Ok(StoredProofRecord { fingerprint: BinaryFingerprint { image }, proof_bytes })
    }
}

} // verus!
