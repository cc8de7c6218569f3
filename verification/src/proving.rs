//! The two entry points of the service: proving a snippet, and checking a stored
//! proof against a binary.
//!
//! Both leave the engine to the caller. `prove_query` opens a pipeline run, which the
//! caller drives event by event. `verify_proof` decides whether the engine is to be
//! asked at all, and what it is to be asked; the engine's answer is then concluded
//! into the result.

use crate::bytes::copy_bytes;
use crate::error::{ErrorKind, ErrorView, PipelineError};
use crate::guest::guest_source;
use crate::pipeline::{
    Action, ActionView, Event, EventView, Pipeline, PipelineView, StateView, SUCCESS_EXIT_CODE,
};
use crate::record::{
    decode_record, encode_record, fingerprint_of, lemma_decode_encode, lemma_fingerprint_exact,
    lemma_fingerprint_len, malformed_record_error, RecordView, StoredProofRecord,
};
use crate::runs::{
    actions_after, built_binary, lemma_completed_means_written,
    lemma_completed_names_built_binary, lemma_first_step, state_after,
};
use crate::toolchain::TOOLCHAIN_SUCCESS;
use crate::workspace::{binary_path, proof_slot, source_path, workspace_root};
use vstd::prelude::*;
use vstd::string::*;
use vstd::utf8::*;

verus! {

/// Opens the run `run_id` for `snippet`: the run is in `Synthesizing`, and the first
/// work is to write the guest program of the snippet to the run's source file.
pub fn prove_query(snippet: &str, run_id: u64) -> (opened: (Pipeline, Action))
    ensures
        opened.0@ == (PipelineView { run_id, state: StateView::Synthesizing }),
        opened.1@ == (ActionView::WriteSource {
            path: source_path(run_id),
            source: guest_source(snippet.spec_bytes()),
        }),
{
    proof {
        encode_utf8_valid_utf8(snippet@);
    }
    let body = copy_bytes(snippet.as_bytes());
    Pipeline::new(run_id).step(Event::Submitted { body })
}

/// What the engine is asked to confirm: that the proof attests an execution, with
/// the expected exit status and the given public input and output, of the binary
/// that was handed to [`verify_proof`].
#[derive(Clone, Debug, PartialEq, Eq)]
pub struct EngineCheck {
    proof_bytes: Vec<u8>,
    expected_exit_code: u32,
    public_input: Vec<u8>,
    public_output: Vec<u8>,
}

/// The mathematical content of an [`EngineCheck`].
pub struct CheckView {
    pub proof_bytes: Seq<u8>,
    pub expected_exit_code: u32,
    pub public_input: Seq<u8>,
    pub public_output: Seq<u8>,
}

impl View for EngineCheck {
    type V = CheckView;

    closed spec fn view(&self) -> CheckView {
        CheckView {
            proof_bytes: self.proof_bytes@,
            expected_exit_code: self.expected_exit_code,
            public_input: self.public_input@,
            public_output: self.public_output@,
        }
    }
}

/// What the engine answered.
#[derive(Clone, Debug, PartialEq, Eq)]
pub enum EngineVerdict {
    /// The proof attests the execution that was asked about.
    Accepted,
    /// The proof does not attest it, or the engine could not tell.
    Rejected { detail: String },
    /// The stored proof bytes are not a proof.
    ProofUndecodable { detail: String },
}

/// The mathematical content of an [`EngineVerdict`].
pub enum VerdictView {
    Accepted,
    Rejected { detail: Seq<char> },
    ProofUndecodable { detail: Seq<char> },
}

impl View for EngineVerdict {
    type V = VerdictView;

    open spec fn view(&self) -> VerdictView {
        match self {
            EngineVerdict::Accepted => VerdictView::Accepted,
            EngineVerdict::Rejected { detail } => VerdictView::Rejected { detail: detail@ },
            EngineVerdict::ProofUndecodable { detail } => VerdictView::ProofUndecodable {
                detail: detail@,
            },
        }
    }
}

/// The failure that a binary other than the one the proof was produced against gives.
pub open spec fn fingerprint_mismatch_error() -> ErrorView {
    ErrorView {
        kind: ErrorKind::VerificationError,
        detail: "binary does not match the stored fingerprint"@,
    }
}

/// What is asked of the engine for a stored record and a binary, or why it is not
/// asked: the record must decode, and the binary must be the one that the record
/// names. The check expects the success status and carries no public input or output.
pub open spec fn verification_request(stored: Seq<u8>, binary: Seq<u8>) -> Result<
    CheckView,
    ErrorView,
> {
    match decode_record(stored) {
        None => Err(malformed_record_error()),
        Some(record) => if record.fingerprint == fingerprint_of(binary) {
            Ok(
                CheckView {
                    proof_bytes: record.proof_bytes,
                    expected_exit_code: SUCCESS_EXIT_CODE,
                    public_input: Seq::empty(),
                    public_output: Seq::empty(),
                },
            )
        } else {
            Err(fingerprint_mismatch_error())
        },
    }
}

/// What an answer of the engine amounts to.
pub open spec fn verdict_result(verdict: VerdictView) -> Result<(), ErrorView> {
    match verdict {
        VerdictView::Accepted => Ok(()),
        VerdictView::Rejected { detail } => Err(
            ErrorView { kind: ErrorKind::VerificationError, detail },
        ),
        VerdictView::ProofUndecodable { detail } => Err(
            ErrorView { kind: ErrorKind::SerializationError, detail },
        ),
    }
}

/// The result of verifying a stored record against a binary, given what the engine
/// answers where it is asked.
pub open spec fn verification_result(
    stored: Seq<u8>,
    binary: Seq<u8>,
    verdict: VerdictView,
) -> Result<(), ErrorView> {
    match verification_request(stored, binary) {
        Err(error) => Err(error),
        Ok(_) => verdict_result(verdict),
    }
}

/// Prepares the verification of the stored record `stored` against `binary`. The
/// engine is to be asked only where this returns the check to put to it; its answer
/// goes to [`EngineCheck::conclude`]. Bytes that are no record are refused with
/// `SerializationError`, and a binary that is not the one the record names with
/// `VerificationError`.
pub fn verify_proof(stored: &[u8], binary: &[u8]) -> (prepared: Result<
    EngineCheck,
    PipelineError,
>)
    ensures
        match verification_request(stored@, binary@) {
            Ok(check) => prepared matches Ok(found) && found@ == check,
            Err(error) => prepared matches Err(reported) && reported@ == error,
        },
{
    match StoredProofRecord::from_bytes(stored) {
        Err(error) => Err(error),
        Ok(record) => {
            if record.fingerprint().matches(binary) {
                let (_, proof_bytes) = record.into_parts();
                Ok(
                    EngineCheck {
                        proof_bytes,
                        expected_exit_code: SUCCESS_EXIT_CODE,
                        public_input: Vec::new(),
                        public_output: Vec::new(),
                    },
                )
            } else {
                Err(
                    PipelineError::with_message(
                        ErrorKind::VerificationError,
                        "binary does not match the stored fingerprint",
                    ),
                )
            }
        },
    }
}

impl EngineCheck {
    /// The serialized proof that the engine is to check.
    pub fn proof_bytes(&self) -> (bytes: &[u8])
        ensures
            bytes@ == self@.proof_bytes,
    {
        self.proof_bytes.as_slice()
    }

    /// The exit status that the proved execution must have ended with.
    pub fn expected_exit_code(&self) -> (exit_code: u32)
        ensures
            exit_code == self@.expected_exit_code,
    {
        self.expected_exit_code
    }

    /// The public input that the proved execution must have read.
    pub fn public_input(&self) -> (input: &[u8])
        ensures
            input@ == self@.public_input,
    {
        self.public_input.as_slice()
    }

    /// The public output that the proved execution must have written.
    pub fn public_output(&self) -> (output: &[u8])
        ensures
            output@ == self@.public_output,
    {
        self.public_output.as_slice()
    }

    /// Turns the engine's answer to this check into the result of the verification.
    pub fn conclude(self, verdict: EngineVerdict) -> (result: Result<(), PipelineError>)
        ensures
            match verdict_result(verdict@) {
                Ok(_) => result is Ok,
                Err(error) => result matches Err(reported) && reported@ == error,
            },
    {
        match verdict {
            EngineVerdict::Accepted => Ok(()),
            EngineVerdict::Rejected { detail } => Err(
                PipelineError::new(ErrorKind::VerificationError, detail),
            ),
            EngineVerdict::ProofUndecodable { detail } => Err(
                PipelineError::new(ErrorKind::SerializationError, detail),
            ),
        }
    }
}

/// The events of a run in which all outside work succeeds and the guest ends with
/// the success status.
pub open spec fn successful_run(
    body: Seq<u8>,
    diagnostics: Seq<char>,
    binary: Seq<u8>,
    proof_bytes: Seq<u8>,
) -> Seq<EventView> {
    seq![
        EventView::Submitted { body },
        EventView::SourceWritten,
        EventView::BuildFinished { status: Some(TOOLCHAIN_SUCCESS), diagnostics, binary },
        EventView::Proved,
        EventView::OutcomeObserved { exit_code: SUCCESS_EXIT_CODE },
        EventView::ProofSerialized { proof_bytes },
        EventView::RecordWritten,
    ]
}

/// A run in which the guest of a text snippet is built, ends with the
/// success status and is proved, completes with a record that binds the proof to the
/// built binary; the bytes it asked to be written are that record; and verifying
/// them against the same binary succeeds as soon as the engine accepts the proof.
pub proof fn lemma_round_trip(
    run_id: u64,
    body: Seq<u8>,
    diagnostics: Seq<char>,
    binary: Seq<u8>,
    proof_bytes: Seq<u8>,
)
    requires
        valid_utf8(body),
        binary.len() <= u64::MAX,
    ensures
        ({
            let events = successful_run(body, diagnostics, binary, proof_bytes);
            let record = RecordView { fingerprint: fingerprint_of(binary), proof_bytes };
            &&& state_after(StateView::Received, events) == (StateView::Completed { record })
            &&& actions_after(run_id, StateView::Received, events) == seq![
                ActionView::WriteSource { path: source_path(run_id), source: guest_source(body) },
                ActionView::Build {
                    directory: workspace_root(run_id),
                    artifact: binary_path(run_id),
                },
                ActionView::Prove { binary_path: binary_path(run_id) },
                ActionView::ObserveOutcome,
                ActionView::SerializeProof,
                ActionView::WriteRecord { path: proof_slot(run_id), bytes: encode_record(record) },
                ActionView::Idle,
            ]
            &&& verification_result(encode_record(record), binary, VerdictView::Accepted) == Ok::<
                (),
                ErrorView,
            >(())
        }),
{
    let e0 = EventView::Submitted { body };
    let e1 = EventView::SourceWritten;
    let e2 = EventView::BuildFinished { status: Some(TOOLCHAIN_SUCCESS), diagnostics, binary };
    let e3 = EventView::Proved;
    let e4 = EventView::OutcomeObserved { exit_code: SUCCESS_EXIT_CODE };
    let e5 = EventView::ProofSerialized { proof_bytes };
    let e6 = EventView::RecordWritten;
    let events = successful_run(body, diagnostics, binary, proof_bytes);
    let fingerprint = fingerprint_of(binary);
    let record = RecordView { fingerprint, proof_bytes };
    let s0 = StateView::Received;
    let s1 = StateView::Synthesizing;
    let s2 = StateView::Building;
    let s3 = StateView::Proving { fingerprint };
    let s4 = StateView::ValidatingOutcome { fingerprint };
    let s5 = StateView::Persisting { fingerprint, proof_bytes: None };
    let s6 = StateView::Persisting { fingerprint, proof_bytes: Some(proof_bytes) };
    let s7 = StateView::Completed { record };
    let t6 = seq![e6];
    let t5 = seq![e5, e6];
    let t4 = seq![e4, e5, e6];
    let t3 = seq![e3, e4, e5, e6];
    let t2 = seq![e2, e3, e4, e5, e6];
    let t1 = seq![e1, e2, e3, e4, e5, e6];
    assert(t6 == seq![e6] + Seq::<EventView>::empty());
    assert(t5 == seq![e5] + t6);
    assert(t4 == seq![e4] + t5);
    assert(t3 == seq![e3] + t4);
    assert(t2 == seq![e2] + t3);
    assert(t1 == seq![e1] + t2);
    assert(events == seq![e0] + t1);
    lemma_first_step(run_id, s6, e6, Seq::<EventView>::empty());
    lemma_first_step(run_id, s5, e5, t6);
    lemma_first_step(run_id, s4, e4, t5);
    lemma_first_step(run_id, s3, e3, t4);
    lemma_first_step(run_id, s2, e2, t3);
    lemma_first_step(run_id, s1, e1, t2);
    lemma_first_step(run_id, s0, e0, t1);
    assert(state_after(s7, Seq::<EventView>::empty()) == s7);
    assert(actions_after(run_id, s7, Seq::<EventView>::empty()) == Seq::<ActionView>::empty());
    lemma_fingerprint_len(binary);
    lemma_decode_encode(record);
}

/// Whatever events arrive, in whatever order: a run that completes has asked for its
/// record to be written, the record names a binary that the run was told was built,
/// and verifying the written bytes against that binary succeeds as soon as the engine
/// accepts the proof.
pub proof fn lemma_completed_run_verifies(run_id: u64, events: Seq<EventView>)
    requires
        state_after(StateView::Received, events) is Completed,
        state_after(StateView::Received, events)->Completed_record.fingerprint.len() <= u64::MAX,
    ensures
        ({
            let record = state_after(StateView::Received, events)->Completed_record;
            let stored = encode_record(record);
            &&& exists|i: int|
                0 <= i < events.len() && #[trigger] actions_after(
                    run_id,
                    StateView::Received,
                    events,
                )[i] == (ActionView::WriteRecord { path: proof_slot(run_id), bytes: stored })
            &&& exists|j: int|
                0 <= j < events.len() && built_binary(#[trigger] events[j]) is Some
                    && verification_result(
                    stored,
                    built_binary(events[j]).unwrap(),
                    VerdictView::Accepted,
                ) == Ok::<(), ErrorView>(())
        }),
{
    let record = state_after(StateView::Received, events)->Completed_record;
    lemma_completed_means_written(run_id, StateView::Received, events);
    lemma_completed_names_built_binary(StateView::Received, events);
    let j = choose|j: int|
        0 <= j < events.len() && built_binary(#[trigger] events[j]) is Some && fingerprint_of(
            built_binary(events[j]).unwrap(),
        ) == record.fingerprint;
    lemma_decode_encode(record);
}

/// Verifying the same stored record against the same
/// binary again gives the same result, as long as the engine gives the same answer:
/// nothing but the record, the binary and that answer enters the result.
pub proof fn lemma_verification_is_repeatable(
    stored: Seq<u8>,
    binary: Seq<u8>,
    first_answer: VerdictView,
    second_answer: VerdictView,
)
    requires
        first_answer == second_answer,
    ensures
        verification_result(stored, binary, first_answer) == verification_result(
            stored,
            binary,
            second_answer,
        ),
{
}

/// A record that was produced against one binary never verifies
/// against another: the verification fails with `VerificationError` before the
/// engine is asked, whatever the engine would answer.
pub proof fn lemma_fingerprint_binding(
    produced_against: Seq<u8>,
    proof_bytes: Seq<u8>,
    supplied: Seq<u8>,
    answer: VerdictView,
)
    requires
        produced_against.len() <= u64::MAX,
        supplied != produced_against,
    ensures
        ({
            let stored = encode_record(
                RecordView { fingerprint: fingerprint_of(produced_against), proof_bytes },
            );
            &&& verification_request(stored, supplied) == Err::<CheckView, ErrorView>(
                fingerprint_mismatch_error(),
            )
            &&& verification_result(stored, supplied, answer) == Err::<(), ErrorView>(
                fingerprint_mismatch_error(),
            )
            &&& fingerprint_mismatch_error().kind == ErrorKind::VerificationError
        }),
{
    let record = RecordView { fingerprint: fingerprint_of(produced_against), proof_bytes };
    lemma_fingerprint_len(produced_against);
    lemma_decode_encode(record);
    lemma_fingerprint_exact(produced_against, supplied);
}

} // verus!
