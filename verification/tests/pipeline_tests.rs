use zkvm_local_server::error::{ErrorKind, PipelineError};
use zkvm_local_server::guest::{GUEST_EPILOGUE, GUEST_PROLOGUE};
use zkvm_local_server::pipeline::{Action, Event, Pipeline, PipelineState, SUCCESS_EXIT_CODE};
use zkvm_local_server::record::{BinaryFingerprint, StoredProofRecord};

fn every_event() -> Vec<Event> {
    vec![
        Event::Submitted { body: b"let x = 1;".to_vec() },
        Event::SourceWritten,
        Event::BuildFinished {
            status: Some(0),
            diagnostics: String::from("Finished"),
            binary: vec![1, 2, 3],
        },
        Event::Proved,
        Event::OutcomeObserved { exit_code: 0 },
        Event::ProofSerialized { proof_bytes: vec![4, 5] },
        Event::RecordWritten,
        Event::Failure { detail: String::from("it broke") },
    ]
}

fn at(state: PipelineState) -> Pipeline {
    Pipeline { run_id: 11, state }
}

fn fingerprint() -> BinaryFingerprint {
    BinaryFingerprint::of(&[1, 2, 3])
}

fn failed(kind: ErrorKind, detail: &str) -> PipelineState {
    PipelineState::Failed { error: PipelineError::new(kind, String::from(detail)) }
}

#[test]
fn new_run_has_received_nothing() {
    let pipeline = Pipeline::new(5);
    assert_eq!(pipeline.run_id, 5);
    assert_eq!(pipeline.state, PipelineState::Received);
    assert!(!pipeline.is_terminal());
    assert_eq!(pipeline.into_outcome(), None);
}

#[test]
fn success_sentinel_is_zero() {
    assert_eq!(SUCCESS_EXIT_CODE, 0);
}

#[test]
fn submitted_text_is_synthesized() {
    let (next, action) = Pipeline::new(2).step(Event::Submitted { body: b"let x = 1;".to_vec() });
    assert_eq!(next, Pipeline { run_id: 2, state: PipelineState::Synthesizing });
    let expected = format!("{}let x = 1;{}", GUEST_PROLOGUE, GUEST_EPILOGUE).into_bytes();
    assert_eq!(
        action,
        Action::WriteSource { path: String::from("../guest-2/src/main.rs"), source: expected }
    );
}

#[test]
fn empty_body_is_text() {
    let (next, action) = Pipeline::new(2).step(Event::Submitted { body: Vec::new() });
    assert_eq!(next.state, PipelineState::Synthesizing);
    let expected = format!("{}{}", GUEST_PROLOGUE, GUEST_EPILOGUE).into_bytes();
    assert_eq!(
        action,
        Action::WriteSource { path: String::from("../guest-2/src/main.rs"), source: expected }
    );
}

#[test]
fn malformed_body_is_rejected_without_any_work() {
    for body in [vec![0xffu8], vec![b'a', 0xc3], vec![0xed, 0xa0, 0x80], vec![0xc0, 0x80]] {
        let (mut pipeline, action) = Pipeline::new(4).step(Event::Submitted { body });
        assert_eq!(
            pipeline.state,
            failed(ErrorKind::InvalidInput, "Invalid UTF-8 in request body")
        );
        assert_eq!(action, Action::Idle);
        assert!(pipeline.is_terminal());
        for event in every_event() {
            let (next, action) = pipeline.step(event);
            assert_eq!(action, Action::Idle);
            assert_eq!(
                next.state,
                failed(ErrorKind::InvalidInput, "Invalid UTF-8 in request body")
            );
            pipeline = next;
        }
    }
}

#[test]
fn source_written_starts_the_build() {
    let (next, action) = at(PipelineState::Synthesizing).step(Event::SourceWritten);
    assert_eq!(next, at(PipelineState::Building));
    assert_eq!(
        action,
        Action::Build {
            directory: String::from("../guest-11"),
            artifact: String::from("../guest-11/target/riscv32i-unknown-none-elf/release/guest"),
        }
    );
}

#[test]
fn source_write_failure_is_an_io_error() {
    let (next, action) = at(PipelineState::Synthesizing)
        .step(Event::Failure { detail: String::from("permission denied") });
    assert_eq!(next.state, failed(ErrorKind::IoError, "permission denied"));
    assert_eq!(action, Action::Idle);
}

#[test]
fn finished_build_starts_proving() {
    let (next, action) = at(PipelineState::Building).step(Event::BuildFinished {
        status: Some(0),
        diagnostics: String::from("warning: unused variable"),
        binary: vec![1, 2, 3],
    });
    assert_eq!(next.state, PipelineState::Proving { fingerprint: fingerprint() });
    assert_eq!(
        action,
        Action::Prove {
            binary_path: String::from(
                "../guest-11/target/riscv32i-unknown-none-elf/release/guest"
            ),
        }
    );
}

#[test]
fn build_failures_are_build_errors() {
    for status in [Some(101), Some(1), Some(-1), None] {
        let (next, action) = at(PipelineState::Building).step(Event::BuildFinished {
            status,
            diagnostics: String::from("error[E0425]: cannot find value"),
            binary: vec![1, 2, 3],
        });
        assert_eq!(next.state, failed(ErrorKind::BuildError, "error[E0425]: cannot find value"));
        assert_eq!(action, Action::Idle);
    }
    let (next, action) = at(PipelineState::Building)
        .step(Event::Failure { detail: String::from("cargo: not found") });
    assert_eq!(next.state, failed(ErrorKind::BuildError, "cargo: not found"));
    assert_eq!(action, Action::Idle);
}

#[test]
fn proved_execution_is_validated() {
    let (next, action) =
        at(PipelineState::Proving { fingerprint: fingerprint() }).step(Event::Proved);
    assert_eq!(next.state, PipelineState::ValidatingOutcome { fingerprint: fingerprint() });
    assert_eq!(action, Action::ObserveOutcome);
}

#[test]
fn engine_failure_is_a_proving_error() {
    let (next, action) = at(PipelineState::Proving { fingerprint: fingerprint() })
        .step(Event::Failure { detail: String::from("failed to load program") });
    assert_eq!(next.state, failed(ErrorKind::ProvingError, "failed to load program"));
    assert_eq!(action, Action::Idle);
}

#[test]
fn success_status_moves_on_to_persisting() {
    let (next, action) = at(PipelineState::ValidatingOutcome { fingerprint: fingerprint() })
        .step(Event::OutcomeObserved { exit_code: 0 });
    assert_eq!(
        next.state,
        PipelineState::Persisting { fingerprint: fingerprint(), proof_bytes: None }
    );
    assert_eq!(action, Action::SerializeProof);
}

#[test]
fn other_statuses_discard_the_proof() {
    let cases = [
        (1u32, "guest exited with status 1"),
        (2, "guest exited with status 2"),
        (10, "guest exited with status 10"),
        (4294967295, "guest exited with status 4294967295"),
    ];
    for (exit_code, detail) in cases {
        let (mut pipeline, action) =
            at(PipelineState::ValidatingOutcome { fingerprint: fingerprint() })
                .step(Event::OutcomeObserved { exit_code });
        assert_eq!(pipeline.state, failed(ErrorKind::ExitCodeMismatch, detail));
        assert_eq!(action, Action::Idle);
        for event in every_event() {
            let (next, action) = pipeline.step(event);
            assert_eq!(action, Action::Idle);
            assert_eq!(next.state, failed(ErrorKind::ExitCodeMismatch, detail));
            pipeline = next;
        }
    }
}

#[test]
fn unreadable_outcome_discards_the_proof() {
    let (next, action) = at(PipelineState::ValidatingOutcome { fingerprint: fingerprint() })
        .step(Event::Failure { detail: String::from("failed to retrieve exit code") });
    assert_eq!(next.state, failed(ErrorKind::ExitCodeMismatch, "failed to retrieve exit code"));
    assert_eq!(action, Action::Idle);
}

#[test]
fn serialized_proof_is_framed_and_written() {
    let (next, action) =
        at(PipelineState::Persisting { fingerprint: fingerprint(), proof_bytes: None })
            .step(Event::ProofSerialized { proof_bytes: vec![9, 8] });
    assert_eq!(
        next.state,
        PipelineState::Persisting { fingerprint: fingerprint(), proof_bytes: Some(vec![9, 8]) }
    );
    assert_eq!(
        action,
        Action::WriteRecord {
            path: String::from("./proofs/proof-11"),
            bytes: vec![0x5a, 0x4b, 0x50, 0x52, 3, 0, 0, 0, 0, 0, 0, 0, 1, 2, 3, 9, 8],
        }
    );
}

#[test]
fn serialization_failure_is_a_serialization_error() {
    let (next, action) =
        at(PipelineState::Persisting { fingerprint: fingerprint(), proof_bytes: None })
            .step(Event::Failure { detail: String::from("buffer full") });
    assert_eq!(next.state, failed(ErrorKind::SerializationError, "buffer full"));
    assert_eq!(action, Action::Idle);
}

#[test]
fn written_record_completes_the_run() {
    let (next, action) =
        at(PipelineState::Persisting { fingerprint: fingerprint(), proof_bytes: Some(vec![9, 8]) })
            .step(Event::RecordWritten);
    let record = StoredProofRecord::new(fingerprint(), vec![9, 8]);
    assert_eq!(next.state, PipelineState::Completed { record: record.clone() });
    assert_eq!(action, Action::Idle);
    assert!(next.is_terminal());
    assert_eq!(next.into_outcome(), Some(Ok(record)));
}

#[test]
fn record_write_failure_is_an_io_error() {
    let (next, action) =
        at(PipelineState::Persisting { fingerprint: fingerprint(), proof_bytes: Some(vec![9, 8]) })
            .step(Event::Failure { detail: String::from("disk full") });
    assert_eq!(next.state, failed(ErrorKind::IoError, "disk full"));
    assert_eq!(action, Action::Idle);
    assert_eq!(
        next.into_outcome(),
        Some(Err(PipelineError::new(ErrorKind::IoError, String::from("disk full"))))
    );
}

#[test]
fn unawaited_events_change_nothing() {
    let states = vec![
        (PipelineState::Received, vec![0usize]),
        (PipelineState::Synthesizing, vec![1, 7]),
        (PipelineState::Building, vec![2, 7]),
        (PipelineState::Proving { fingerprint: fingerprint() }, vec![3, 7]),
        (PipelineState::ValidatingOutcome { fingerprint: fingerprint() }, vec![4, 7]),
        (PipelineState::Persisting { fingerprint: fingerprint(), proof_bytes: None }, vec![5, 7]),
        (
            PipelineState::Persisting { fingerprint: fingerprint(), proof_bytes: Some(vec![1]) },
            vec![6, 7],
        ),
        (
            PipelineState::Completed { record: StoredProofRecord::new(fingerprint(), vec![1]) },
            vec![],
        ),
        (failed(ErrorKind::BuildError, "no"), vec![]),
    ];
    for (state, awaited) in states {
        for (index, event) in every_event().into_iter().enumerate() {
            let (next, action) = at(state.clone()).step(event);
            if awaited.contains(&index) {
                assert_ne!(next.state, state);
            } else {
                assert_eq!(next, at(state.clone()));
                assert_eq!(action, Action::Idle);
            }
        }
    }
}

#[test]
fn no_record_is_written_unless_success_was_observed() {
    // Every sequence of three events from every state that is before `Persisting`.
    let starts = vec![
        PipelineState::Received,
        PipelineState::Synthesizing,
        PipelineState::Building,
        PipelineState::Proving { fingerprint: fingerprint() },
        PipelineState::ValidatingOutcome { fingerprint: fingerprint() },
    ];
    let mut events = every_event();
    events.push(Event::OutcomeObserved { exit_code: 1 });
    for start in starts {
        for first in &events {
            for second in &events {
                for third in &events {
                    let trace = [first.clone(), second.clone(), third.clone()];
                    let mut pipeline = at(start.clone());
                    let mut success_seen = false;
                    for event in trace {
                        let is_success = event == Event::OutcomeObserved { exit_code: 0 };
                        let (next, action) = pipeline.step(event);
                        if matches!(action, Action::WriteRecord { .. }) {
                            assert!(success_seen);
                        }
                        success_seen = success_seen || is_success;
                        pipeline = next;
                    }
                }
            }
        }
    }
}
