//! Where a run keeps its files. Every location is derived from the run's identifier,
//! so that no two runs share a source file, a binary or a proof slot.

use crate::bytes::lemma_framed_injective;
use crate::text::{decimal, lemma_decimal_injective, push_decimal};
use vstd::prelude::*;
use vstd::string::*;

verus! {

/// The directory of the guest workspace of a run.
pub open spec fn workspace_root(run_id: u64) -> Seq<char> {
    "../guest-"@ + decimal(run_id as nat)
}

/// The file that holds the synthesized source of a run.
pub open spec fn source_path(run_id: u64) -> Seq<char> {
    workspace_root(run_id) + "/src/main.rs"@
}

/// The file in which the toolchain leaves the binary of a run.
pub open spec fn binary_path(run_id: u64) -> Seq<char> {
    workspace_root(run_id) + "/target/riscv32i-unknown-none-elf/release/guest"@
}

/// The file that holds the stored proof record of a run.
pub open spec fn proof_slot(run_id: u64) -> Seq<char> {
    "./proofs/proof-"@ + decimal(run_id as nat)
}

/// The workspace of one pipeline run.
#[derive(Clone, Copy, Debug, PartialEq, Eq, Structural)]
pub struct GuestWorkspace {
    pub run_id: u64,
}

impl GuestWorkspace {
    /// The workspace of the run `run_id`.
    pub fn new(run_id: u64) -> (workspace: GuestWorkspace)
        ensures
            workspace.run_id == run_id,
    {
        GuestWorkspace { run_id }
    }

    /// The directory in which the toolchain is run.
    pub fn root(&self) -> (path: String)
        ensures
            path@ == workspace_root(self.run_id),
    {
        let mut path = String::new();
        path.append("../guest-");
        push_decimal(&mut path, self.run_id);
        path
    }

    /// The file that the synthesized source is written to.
    pub fn source_path(&self) -> (path: String)
        ensures
            path@ == source_path(self.run_id),
    {
        let mut path = self.root();
        path.append("/src/main.rs");
        path
    }

    /// The file that the built binary is read from.
    pub fn binary_path(&self) -> (path: String)
        ensures
            path@ == binary_path(self.run_id),
    {
        let mut path = self.root();
        path.append("/target/riscv32i-unknown-none-elf/release/guest");
        path
    }

    /// The file that the proof record of the run is written to.
    pub fn proof_slot(&self) -> (path: String)
        ensures
            path@ == proof_slot(self.run_id),
    {
        let mut path = String::new();
        path.append("./proofs/proof-");
        push_decimal(&mut path, self.run_id);
        path
    }
}

/// Two different runs share no location: their workspace directories, source files,
/// binaries and proof slots all differ.
pub proof fn lemma_runs_share_no_location(left: u64, right: u64)
    requires
        left != right,
    ensures
        workspace_root(left) != workspace_root(right),
        source_path(left) != source_path(right),
        binary_path(left) != binary_path(right),
        proof_slot(left) != proof_slot(right),
{
    let a = decimal(left as nat);
    let b = decimal(right as nat);
    let none = Seq::<char>::empty();
    assert(a != b) by {
        if a == b {
            lemma_decimal_injective(left as nat, right as nat);
        }
    }
    assert(workspace_root(left) != workspace_root(right)) by {
        if workspace_root(left) == workspace_root(right) {
            assert("../guest-"@ + a + none == "../guest-"@ + a);
            assert("../guest-"@ + b + none == "../guest-"@ + b);
            lemma_framed_injective("../guest-"@, a, b, none);
        }
    }
    assert(source_path(left) != source_path(right)) by {
        if source_path(left) == source_path(right) {
            lemma_framed_injective("../guest-"@, a, b, "/src/main.rs"@);
        }
    }
    assert(binary_path(left) != binary_path(right)) by {
        if binary_path(left) == binary_path(right) {
            lemma_framed_injective(
                "../guest-"@,
                a,
                b,
                "/target/riscv32i-unknown-none-elf/release/guest"@,
            );
        }
    }
    assert(proof_slot(left) != proof_slot(right)) by {
        if proof_slot(left) == proof_slot(right) {
            assert("./proofs/proof-"@ + a + none == "./proofs/proof-"@ + a);
            assert("./proofs/proof-"@ + b + none == "./proofs/proof-"@ + b);
            lemma_framed_injective("./proofs/proof-"@, a, b, none);
        }
    }
}

/// A proof slot is no file of any workspace: writing a record never touches a
/// workspace directory, a source file or a binary, of the same run or of another.
pub proof fn lemma_slots_lie_outside_workspaces(slot_of: u64, workspace_of: u64)
    ensures
        proof_slot(slot_of) != workspace_root(workspace_of),
        proof_slot(slot_of) != source_path(workspace_of),
        proof_slot(slot_of) != binary_path(workspace_of),
{
    reveal_strlit("./proofs/proof-");
    reveal_strlit("../guest-");
    let slot = proof_slot(slot_of);
    assert(slot[1] == '/');
    assert(workspace_root(workspace_of)[1] == '.');
    assert(source_path(workspace_of)[1] == '.');
    assert(binary_path(workspace_of)[1] == '.');
}

} // verus!
