//! What holds between runs: no run reaches into the locations of another.

use crate::pipeline::{next_action, ActionView, EventView, StateView};
use crate::workspace::{
    lemma_runs_share_no_location, lemma_slots_lie_outside_workspaces, proof_slot, source_path,
};
use vstd::prelude::*;

verus! {

/// Two different runs never ask for work on the same location: the source files,
/// workspace directories, binaries and proof slots that their actions name differ.
pub proof fn lemma_runs_are_isolated(
    left: u64,
    left_state: StateView,
    left_event: EventView,
    right: u64,
    right_state: StateView,
    right_event: EventView,
)
    requires
        left != right,
    ensures
        match (
            next_action(left, left_state, left_event),
            next_action(right, right_state, right_event),
        ) {
            (
                ActionView::WriteSource { path: ours, .. },
                ActionView::WriteSource { path: theirs, .. },
            ) => ours != theirs,
            (
                ActionView::Build { directory: ours, artifact: our_binary },
                ActionView::Build { directory: theirs, artifact: their_binary },
            ) => ours != theirs && our_binary != their_binary,
            (
                ActionView::Build { artifact: ours, .. },
                ActionView::Prove { binary_path: theirs },
            ) => ours != theirs,
            (
                ActionView::Prove { binary_path: ours },
                ActionView::Build { artifact: theirs, .. },
            ) => ours != theirs,
            (
                ActionView::Prove { binary_path: ours },
                ActionView::Prove { binary_path: theirs },
            ) => ours != theirs,
            (
                ActionView::WriteRecord { path: ours, .. },
                ActionView::WriteRecord { path: theirs, .. },
            ) => ours != theirs,
            _ => true,
        },
{
    lemma_runs_share_no_location(left, right);
}

/// The files that the machine has had written, by path.
pub type Files = Map<Seq<char>, Seq<u8>>;

/// The files after `action` has been performed. A source that is written takes the
/// place of what was at its path. A record is written only where no file is yet. No
/// other action writes a file whose content the machine dictates.
pub open spec fn files_after(files: Files, action: ActionView) -> Files {
    match action {
        ActionView::WriteSource { path, source } => files.insert(path, source),
        ActionView::WriteRecord { path, bytes } => if files.dom().contains(path) {
            files
        } else {
            files.insert(path, bytes)
        },
        _ => files,
    }
}

/// One step of some run, seen from another run.
pub struct ForeignStep {
    pub run_id: u64,
    pub state: StateView,
    pub event: EventView,
}

/// The files after the work that each of `steps` asks for has been performed, in order.
pub open spec fn files_after_steps(files: Files, steps: Seq<ForeignStep>) -> Files
    decreases steps.len(),
{
    if steps.len() == 0 {
        files
    } else {
        let step = steps.last();
        files_after(
            files_after_steps(files, steps.drop_last()),
            next_action(step.run_id, step.state, step.event),
        )
    }
}

/// The file at `path` is the same in `before` and in `after`: there in both with the
/// same content, or in neither.
pub open spec fn same_file(before: Files, after: Files, path: Seq<char>) -> bool {
    &&& after.dom().contains(path) == before.dom().contains(path)
    &&& before.dom().contains(path) ==> after[path] == before[path]
}

/// However many steps other runs take, in whatever states and order: the source file
/// and the proof slot of a run stay as they are. No run overwrites the source of
/// another while it is built, or the record of another once it is stored.
pub proof fn lemma_other_runs_leave_files_alone(files: Files, ours: u64, steps: Seq<ForeignStep>)
    requires
        forall|i: int| 0 <= i < steps.len() ==> (#[trigger] steps[i]).run_id != ours,
    ensures
        same_file(files, files_after_steps(files, steps), source_path(ours)),
        same_file(files, files_after_steps(files, steps), proof_slot(ours)),
    decreases steps.len(),
{
    if steps.len() > 0 {
        let earlier = steps.drop_last();
        let step = steps.last();
        assert forall|i: int| 0 <= i < earlier.len() implies (#[trigger] earlier[i]).run_id
            != ours by {
            assert(earlier[i] == steps[i]);
        }
        lemma_other_runs_leave_files_alone(files, ours, earlier);
        lemma_runs_share_no_location(step.run_id, ours);
        lemma_slots_lie_outside_workspaces(step.run_id, ours);
        lemma_slots_lie_outside_workspaces(ours, step.run_id);
    }
}

/// A stored record is written once and never changed in place: whatever steps any
/// runs take afterwards, its own run among them, the record in a slot stays as it is.
pub proof fn lemma_stored_records_are_never_overwritten(
    files: Files,
    stored_by: u64,
    steps: Seq<ForeignStep>,
)
    requires
        files.dom().contains(proof_slot(stored_by)),
    ensures
        same_file(files, files_after_steps(files, steps), proof_slot(stored_by)),
    decreases steps.len(),
{
    if steps.len() > 0 {
        let step = steps.last();
        lemma_stored_records_are_never_overwritten(files, stored_by, steps.drop_last());
        lemma_slots_lie_outside_workspaces(stored_by, step.run_id);
    }
}

} // verus!
