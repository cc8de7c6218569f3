//! How the guest program is built: the toolchain invocation and the reading of its
//! termination status.

use vstd::prelude::*;

verus! {

/// The program that builds the guest.
pub const TOOLCHAIN_PROGRAM: &'static str = "cargo";

/// The constrained instruction set that the guest is built for.
pub const GUEST_TARGET: &'static str = "riscv32i-unknown-none-elf";

/// The arguments of the toolchain invocation, in order.
pub open spec fn toolchain_arguments_spec() -> Seq<Seq<char>> {
    seq!["build"@, "--release"@, "--target"@, GUEST_TARGET@]
}

/// The arguments that the toolchain is run with, in the guest workspace's directory.
pub fn toolchain_arguments() -> (arguments: Vec<&'static str>)
    ensures
        arguments@.len() == 4,
        forall|i: int| 0 <= i < 4 ==> arguments@[i]@ == #[trigger] toolchain_arguments_spec()[i],
{
    let mut arguments: Vec<&'static str> = Vec::new();
    arguments.push("build");
    arguments.push("--release");
    arguments.push("--target");
    arguments.push(GUEST_TARGET);
    arguments
}

/// The exit status with which the toolchain reports a finished build.
pub const TOOLCHAIN_SUCCESS: i32 = 0;

/// Whether a termination status means that the guest was built. A missing status
/// (the toolchain was killed) does not.
pub open spec fn build_succeeded_spec(status: Option<i32>) -> bool {
    status == Some(TOOLCHAIN_SUCCESS)
}

/// Tells whether the toolchain's termination status means that the guest was built.
pub fn build_succeeded(status: Option<i32>) -> (built: bool)
    ensures
        built == build_succeeded_spec(status),
{
    match status {
        Some(code) => code == TOOLCHAIN_SUCCESS,
        None => false,
    }
}

} // verus!
