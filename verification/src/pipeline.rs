//! The pipeline that turns a snippet into a stored proof, as a state machine.
//!
//! A run moves through `Received`, `Synthesizing`, `Building`, `Proving`,
//! `ValidatingOutcome` and `Persisting` to `Completed`, or ends in `Failed`. The
//! machine does no work on the outside world itself. Each step takes the event that
//! reports the result of the last piece of outside work and answers with the next
//! state and the next piece of work to perform. Nothing is retried.

use crate::error::{ErrorKind, ErrorView, PipelineError};
use crate::guest::{guest_source, synthesize};
use crate::record::{
    encode_record, fingerprint_of, BinaryFingerprint, RecordView, StoredProofRecord,
};
use crate::text::{decimal, push_decimal};
use crate::toolchain::{build_succeeded, build_succeeded_spec};
use crate::workspace::{binary_path, proof_slot, source_path, workspace_root, GuestWorkspace};
use vstd::prelude::*;
use vstd::string::*;
use vstd::utf8::*;

verus! {

/// The exit status that means the guest ran to its intended end. Only an execution
/// that ends with it is proved and stored.
pub const SUCCESS_EXIT_CODE: u32 = 0;

/// Where a run stands.
#[derive(Clone, Debug, PartialEq, Eq)]
pub enum PipelineState {
    /// Nothing has been submitted yet.
    Received,
    /// The guest source is being written.
    Synthesizing,
    /// The toolchain is building the guest.
    Building,
    /// The engine is executing and proving the binary with this fingerprint.
    Proving { fingerprint: BinaryFingerprint },
    /// The exit status of the proved execution is being read.
    ValidatingOutcome { fingerprint: BinaryFingerprint },
    /// The proof is being stored: first serialized (`proof_bytes` is `None`), then
    /// written as a record (`proof_bytes` holds the serialized proof).
    Persisting { fingerprint: BinaryFingerprint, proof_bytes: Option<Vec<u8>> },
    /// The record is stored. Terminal.
    Completed { record: StoredProofRecord },
    /// The run has failed. Terminal.
    Failed { error: PipelineError },
}

/// The mathematical content of a [`PipelineState`].
pub enum StateView {
    Received,
    Synthesizing,
    Building,
    Proving { fingerprint: Seq<u8> },
    ValidatingOutcome { fingerprint: Seq<u8> },
    Persisting { fingerprint: Seq<u8>, proof_bytes: Option<Seq<u8>> },
    Completed { record: RecordView },
    Failed { error: ErrorView },
}

impl View for PipelineState {
    type V = StateView;

    open spec fn view(&self) -> StateView {
        match self {
            PipelineState::Received => StateView::Received,
            PipelineState::Synthesizing => StateView::Synthesizing,
            PipelineState::Building => StateView::Building,
            PipelineState::Proving { fingerprint } => StateView::Proving {
                fingerprint: fingerprint@,
            },
            PipelineState::ValidatingOutcome { fingerprint } => StateView::ValidatingOutcome {
                fingerprint: fingerprint@,
            },
            PipelineState::Persisting { fingerprint, proof_bytes } => StateView::Persisting {
                fingerprint: fingerprint@,
                proof_bytes: match proof_bytes {
                    Some(bytes) => Some(bytes@),
                    None => None,
                },
            },
            PipelineState::Completed { record } => StateView::Completed { record: record@ },
            PipelineState::Failed { error } => StateView::Failed { error: error@ },
        }
    }
}

/// The result of a piece of outside work, as it is reported to the machine.
#[derive(Clone, Debug, PartialEq, Eq)]
pub enum Event {
    /// A request arrived with this body.
    Submitted { body: Vec<u8> },
    /// The guest source was written.
    SourceWritten,
    /// The toolchain returned. `status` is its exit status, if it has one,
    /// `diagnostics` what it printed, and `binary` the content of the binary it left
    /// (empty where it left none).
    BuildFinished { status: Option<i32>, diagnostics: String, binary: Vec<u8> },
    /// The engine loaded the binary, executed it and produced a proof.
    Proved,
    /// The proved execution ended with this exit status.
    OutcomeObserved { exit_code: u32 },
    /// The proof was serialized to these bytes.
    ProofSerialized { proof_bytes: Vec<u8> },
    /// The record was written to its slot.
    RecordWritten,
    /// The work that the last action asked for could not be done.
    Failure { detail: String },
}

/// The mathematical content of an [`Event`].
pub enum EventView {
    Submitted { body: Seq<u8> },
    SourceWritten,
    BuildFinished { status: Option<i32>, diagnostics: Seq<char>, binary: Seq<u8> },
    Proved,
    OutcomeObserved { exit_code: u32 },
    ProofSerialized { proof_bytes: Seq<u8> },
    RecordWritten,
    Failure { detail: Seq<char> },
}

impl View for Event {
    type V = EventView;

    open spec fn view(&self) -> EventView {
        match self {
            Event::Submitted { body } => EventView::Submitted { body: body@ },
            Event::SourceWritten => EventView::SourceWritten,
            Event::BuildFinished { status, diagnostics, binary } => EventView::BuildFinished {
                status: *status,
                diagnostics: diagnostics@,
                binary: binary@,
            },
            Event::Proved => EventView::Proved,
            Event::OutcomeObserved { exit_code } => EventView::OutcomeObserved {
                exit_code: *exit_code,
            },
            Event::ProofSerialized { proof_bytes } => EventView::ProofSerialized {
                proof_bytes: proof_bytes@,
            },
            Event::RecordWritten => EventView::RecordWritten,
            Event::Failure { detail } => EventView::Failure { detail: detail@ },
        }
    }
}

/// The piece of outside work that the machine asks for next.
#[derive(Clone, Debug, PartialEq, Eq)]
pub enum Action {
    /// Write `source` to the file `path`, replacing what is there.
    WriteSource { path: String, source: Vec<u8> },
    /// Run the toolchain in `directory`, then read the binary it left at `artifact`.
    Build { directory: String, artifact: String },
    /// Load the binary at `binary_path` into the engine, execute it and prove it.
    Prove { binary_path: String },
    /// Read the exit status of the proved execution.
    ObserveOutcome,
    /// Serialize the proof.
    SerializeProof,
    /// Write `bytes` to the new file `path`; a file that is already there is kept,
    /// and the work has failed.
    WriteRecord { path: String, bytes: Vec<u8> },
    /// Nothing: the run is over, or the event was not the one awaited.
    Idle,
}

/// The mathematical content of an [`Action`].
pub enum ActionView {
    WriteSource { path: Seq<char>, source: Seq<u8> },
    Build { directory: Seq<char>, artifact: Seq<char> },
    Prove { binary_path: Seq<char> },
    ObserveOutcome,
    SerializeProof,
    WriteRecord { path: Seq<char>, bytes: Seq<u8> },
    Idle,
}

impl View for Action {
    type V = ActionView;

    open spec fn view(&self) -> ActionView {
        match self {
            Action::WriteSource { path, source } => ActionView::WriteSource {
                path: path@,
                source: source@,
            },
            Action::Build { directory, artifact } => ActionView::Build {
                directory: directory@,
                artifact: artifact@,
            },
            Action::Prove { binary_path } => ActionView::Prove { binary_path: binary_path@ },
            Action::ObserveOutcome => ActionView::ObserveOutcome,
            Action::SerializeProof => ActionView::SerializeProof,
            Action::WriteRecord { path, bytes } => ActionView::WriteRecord {
                path: path@,
                bytes: bytes@,
            },
            Action::Idle => ActionView::Idle,
        }
    }
}

/// The failure that a body that is not text gives.
pub open spec fn invalid_input_error() -> ErrorView {
    ErrorView { kind: ErrorKind::InvalidInput, detail: "Invalid UTF-8 in request body"@ }
}

/// The failure that an execution ending with `exit_code` gives.
pub open spec fn exit_code_error(exit_code: u32) -> ErrorView {
    ErrorView {
        kind: ErrorKind::ExitCodeMismatch,
        detail: "guest exited with status "@ + decimal(exit_code as nat),
    }
}

/// Whether a run in `state` is over.
pub open spec fn is_terminal(state: StateView) -> bool {
    state is Completed || state is Failed
}

/// The state that follows `state` on `event`. An event that the state does not
/// await leaves it as it is.
pub open spec fn next_state(state: StateView, event: EventView) -> StateView {
    match state {
        StateView::Received => match event {
            EventView::Submitted { body } => if valid_utf8(body) {
                StateView::Synthesizing
            } else {
                StateView::Failed { error: invalid_input_error() }
            },
            _ => state,
        },
        StateView::Synthesizing => match event {
            EventView::SourceWritten => StateView::Building,
            EventView::Failure { detail } => StateView::Failed {
                error: ErrorView { kind: ErrorKind::IoError, detail },
            },
            _ => state,
        },
        StateView::Building => match event {
            EventView::BuildFinished { status, diagnostics, binary } => if build_succeeded_spec(
                status,
            ) {
                StateView::Proving { fingerprint: fingerprint_of(binary) }
            } else {
                StateView::Failed {
                    error: ErrorView { kind: ErrorKind::BuildError, detail: diagnostics },
                }
            },
            EventView::Failure { detail } => StateView::Failed {
                error: ErrorView { kind: ErrorKind::BuildError, detail },
            },
            _ => state,
        },
        StateView::Proving { fingerprint } => match event {
            EventView::Proved => StateView::ValidatingOutcome { fingerprint },
            EventView::Failure { detail } => StateView::Failed {
                error: ErrorView { kind: ErrorKind::ProvingError, detail },
            },
            _ => state,
        },
        StateView::ValidatingOutcome { fingerprint } => match event {
            EventView::OutcomeObserved { exit_code } => if exit_code == SUCCESS_EXIT_CODE {
                StateView::Persisting { fingerprint, proof_bytes: None }
            } else {
                StateView::Failed { error: exit_code_error(exit_code) }
            },
            EventView::Failure { detail } => StateView::Failed {
                error: ErrorView { kind: ErrorKind::ExitCodeMismatch, detail },
            },
            _ => state,
        },
        StateView::Persisting { fingerprint, proof_bytes: None } => match event {
            EventView::ProofSerialized { proof_bytes } => StateView::Persisting {
                fingerprint,
                proof_bytes: Some(proof_bytes),
            },
            EventView::Failure { detail } => StateView::Failed {
                error: ErrorView { kind: ErrorKind::SerializationError, detail },
            },
            _ => state,
        },
        StateView::Persisting { fingerprint, proof_bytes: Some(staged) } => match event {
            EventView::RecordWritten => StateView::Completed {
                record: RecordView { fingerprint, proof_bytes: staged },
            },
            EventView::Failure { detail } => StateView::Failed {
                error: ErrorView { kind: ErrorKind::IoError, detail },
            },
            _ => state,
        },
        StateView::Completed { .. } => state,
        StateView::Failed { .. } => state,
    }
}

/// The work that the run `run_id` asks for when `event` arrives in `state`. There is
/// work only where the state advances without failing.
pub open spec fn next_action(run_id: u64, state: StateView, event: EventView) -> ActionView {
    match state {
        StateView::Received => match event {
            EventView::Submitted { body } => if valid_utf8(body) {
                ActionView::WriteSource { path: source_path(run_id), source: guest_source(body) }
            } else {
                ActionView::Idle
            },
            _ => ActionView::Idle,
        },
        StateView::Synthesizing => match event {
            EventView::SourceWritten => ActionView::Build {
                directory: workspace_root(run_id),
                artifact: binary_path(run_id),
            },
            _ => ActionView::Idle,
        },
        StateView::Building => match event {
            EventView::BuildFinished { status, .. } => if build_succeeded_spec(status) {
                ActionView::Prove { binary_path: binary_path(run_id) }
            } else {
                ActionView::Idle
            },
            _ => ActionView::Idle,
        },
        StateView::Proving { .. } => match event {
            EventView::Proved => ActionView::ObserveOutcome,
            _ => ActionView::Idle,
        },
        StateView::ValidatingOutcome { .. } => match event {
            EventView::OutcomeObserved { exit_code } => if exit_code == SUCCESS_EXIT_CODE {
                ActionView::SerializeProof
            } else {
                ActionView::Idle
            },
            _ => ActionView::Idle,
        },
        StateView::Persisting { fingerprint, proof_bytes: None } => match event {
            EventView::ProofSerialized { proof_bytes } => ActionView::WriteRecord {
                path: proof_slot(run_id),
                bytes: encode_record(RecordView { fingerprint, proof_bytes }),
            },
            _ => ActionView::Idle,
        },
        _ => ActionView::Idle,
    }
}

/// Reads a request body as text, by `core::str::from_utf8`. What is stated of that
/// call is taken from the standard library's documentation and not proved here: it
/// succeeds exactly on well-formed UTF-8, and the text it returns consists of the
/// same bytes.
#[verifier::external_body]
fn decode_text(body: &[u8]) -> (text: Option<&str>)
    ensures
        text is Some <==> valid_utf8(body@),
        text matches Some(decoded) ==> decoded.spec_bytes() == body@,
{
    match core::str::from_utf8(body) {
        Ok(decoded) => Some(decoded),
        Err(_) => None,
    }
}

/// One pipeline run.
#[derive(Clone, Debug, PartialEq, Eq)]
pub struct Pipeline {
    pub run_id: u64,
    pub state: PipelineState,
}

/// The mathematical content of a [`Pipeline`].
pub struct PipelineView {
    pub run_id: u64,
    pub state: StateView,
}

impl View for Pipeline {
    type V = PipelineView;

    open spec fn view(&self) -> PipelineView {
        PipelineView { run_id: self.run_id, state: self.state@ }
    }
}

impl Pipeline {
    /// A run that has received nothing yet. `run_id` names its workspace and its
    /// proof slot, and must be used for no other run.
    pub fn new(run_id: u64) -> (pipeline: Pipeline)
        ensures
            pipeline@ == (PipelineView { run_id, state: StateView::Received }),
    {
        Pipeline { run_id, state: PipelineState::Received }
    }

    /// Tells whether the run is over.
    pub fn is_terminal(&self) -> (over: bool)
        ensures
            over == is_terminal(self@.state),
    {
        match &self.state {
            PipelineState::Completed { .. } => true,
            PipelineState::Failed { .. } => true,
            _ => false,
        }
    }

    /// Takes `event` and answers with the run in its next state and the work to
    /// perform next.
    pub fn step(self, event: Event) -> (next: (Pipeline, Action))
        ensures
            next.0@ == (PipelineView {
                run_id: self.run_id,
                state: next_state(self@.state, event@),
            }),
            next.1@ == next_action(self.run_id, self@.state, event@),
    {
        let run_id = self.run_id;
        let workspace = GuestWorkspace::new(run_id);
        match self.state {
            PipelineState::Received => match event {
                Event::Submitted { body } => match decode_text(body.as_slice()) {
                    Some(text) => {
                        let source = synthesize(text);
                        (
                            Pipeline { run_id, state: PipelineState::Synthesizing },
                            Action::WriteSource { path: workspace.source_path(), source },
                        )
                    },
                    None => (
                        Pipeline::failed(
                            run_id,
                            PipelineError::with_message(
                                ErrorKind::InvalidInput,
                                "Invalid UTF-8 in request body",
                            ),
                        ),
                        Action::Idle,
                    ),
                },
                _ => (Pipeline { run_id, state: PipelineState::Received }, Action::Idle),
            },
            PipelineState::Synthesizing => match event {
                Event::SourceWritten => (
                    Pipeline { run_id, state: PipelineState::Building },
                    Action::Build {
                        directory: workspace.root(),
                        artifact: workspace.binary_path(),
                    },
                ),
                Event::Failure { detail } => (
                    Pipeline::failed(run_id, PipelineError::new(ErrorKind::IoError, detail)),
                    Action::Idle,
                ),
                _ => (Pipeline { run_id, state: PipelineState::Synthesizing }, Action::Idle),
            },
            PipelineState::Building => match event {
                Event::BuildFinished { status, diagnostics, binary } => {
                    if build_succeeded(status) {
                        let fingerprint = BinaryFingerprint::of(binary.as_slice());
                        (
                            Pipeline { run_id, state: PipelineState::Proving { fingerprint } },
                            Action::Prove { binary_path: workspace.binary_path() },
                        )
                    } else {
                        (
                            Pipeline::failed(
                                run_id,
                                PipelineError::new(ErrorKind::BuildError, diagnostics),
                            ),
                            Action::Idle,
                        )
                    }
                },
                Event::Failure { detail } => (
                    Pipeline::failed(run_id, PipelineError::new(ErrorKind::BuildError, detail)),
                    Action::Idle,
                ),
                _ => (Pipeline { run_id, state: PipelineState::Building }, Action::Idle),
            },
            PipelineState::Proving { fingerprint } => match event {
                Event::Proved => (
                    Pipeline { run_id, state: PipelineState::ValidatingOutcome { fingerprint } },
                    Action::ObserveOutcome,
                ),
                Event::Failure { detail } => (
                    Pipeline::failed(run_id, PipelineError::new(ErrorKind::ProvingError, detail)),
                    Action::Idle,
                ),
                _ => (
                    Pipeline { run_id, state: PipelineState::Proving { fingerprint } },
                    Action::Idle,
                ),
            },
            PipelineState::ValidatingOutcome { fingerprint } => match event {
                Event::OutcomeObserved { exit_code } => {
                    if exit_code == SUCCESS_EXIT_CODE {
                        (
                            Pipeline {
                                run_id,
                                state: PipelineState::Persisting { fingerprint, proof_bytes: None },
                            },
                            Action::SerializeProof,
                        )
                    } else {
                        let mut detail = String::new();
                        detail.append("guest exited with status ");
                        push_decimal(&mut detail, exit_code as u64);
                        (
                            Pipeline::failed(
                                run_id,
                                PipelineError::new(ErrorKind::ExitCodeMismatch, detail),
                            ),
                            Action::Idle,
                        )
                    }
                },
                Event::Failure { detail } => (
                    Pipeline::failed(
                        run_id,
                        PipelineError::new(ErrorKind::ExitCodeMismatch, detail),
                    ),
                    Action::Idle,
                ),
                _ => (
                    Pipeline { run_id, state: PipelineState::ValidatingOutcome { fingerprint } },
                    Action::Idle,
                ),
            },
            PipelineState::Persisting { fingerprint, proof_bytes: None } => match event {
                Event::ProofSerialized { proof_bytes } => {
                    let record = StoredProofRecord::new(fingerprint, proof_bytes);
                    let bytes = record.to_bytes();
                    let (fingerprint, proof_bytes) = record.into_parts();
                    (
                        Pipeline {
                            run_id,
                            state: PipelineState::Persisting {
                                fingerprint,
                                proof_bytes: Some(proof_bytes),
                            },
                        },
                        Action::WriteRecord { path: workspace.proof_slot(), bytes },
                    )
                },
                Event::Failure { detail } => (
                    Pipeline::failed(
                        run_id,
                        PipelineError::new(ErrorKind::SerializationError, detail),
                    ),
                    Action::Idle,
                ),
                _ => (
                    Pipeline {
                        run_id,
                        state: PipelineState::Persisting { fingerprint, proof_bytes: None },
                    },
                    Action::Idle,
                ),
            },
            PipelineState::Persisting { fingerprint, proof_bytes: Some(staged) } => match event {
                Event::RecordWritten => (
                    Pipeline {
                        run_id,
                        state: PipelineState::Completed {
                            record: StoredProofRecord::new(fingerprint, staged),
                        },
                    },
                    Action::Idle,
                ),
                Event::Failure { detail } => (
                    Pipeline::failed(run_id, PipelineError::new(ErrorKind::IoError, detail)),
                    Action::Idle,
                ),
                _ => (
                    Pipeline {
                        run_id,
                        state: PipelineState::Persisting { fingerprint, proof_bytes: Some(staged) },
                    },
                    Action::Idle,
                ),
            },
            PipelineState::Completed { record } => (
                Pipeline { run_id, state: PipelineState::Completed { record } },
                Action::Idle,
            ),
            PipelineState::Failed { error } => (
                Pipeline { run_id, state: PipelineState::Failed { error } },
                Action::Idle,
            ),
        }
    }

    /// What the run ended with: the stored record or the failure. `None` while the
    /// run is not over.
    pub fn into_outcome(self) -> (outcome: Option<Result<StoredProofRecord, PipelineError>>)
        ensures
            match self@.state {
                StateView::Completed { record } => outcome matches Some(Ok(stored))
                    && stored@ == record,
                StateView::Failed { error } => outcome matches Some(Err(reported))
                    && reported@ == error,
                _ => outcome is None,
            },
    {
        match self.state {
            PipelineState::Completed { record } => Some(Ok(record)),
            PipelineState::Failed { error } => Some(Err(error)),
            _ => None,
        }
    }

    fn failed(run_id: u64, error: PipelineError) -> (pipeline: Pipeline)
        ensures
            pipeline@ == (PipelineView { run_id, state: StateView::Failed { error: error@ } }),
    {
        Pipeline { run_id, state: PipelineState::Failed { error } }
    }
}

} // verus!
