use zkvm_local_server::guest::{synthesize, GUEST_EPILOGUE, GUEST_PROLOGUE};
use zkvm_local_server::text::push_decimal;
use zkvm_local_server::toolchain::{
    build_succeeded, toolchain_arguments, GUEST_TARGET, TOOLCHAIN_PROGRAM, TOOLCHAIN_SUCCESS,
};
use zkvm_local_server::workspace::GuestWorkspace;

#[test]
fn synthesize_wraps_the_snippet() {
    let source = synthesize("let x = 5;");
    let expected = "\n#![cfg_attr(target_arch = \"riscv32\", no_std, no_main)]\n#[nexus_rt::main]\nfn main() {let x = 5;}";
    assert_eq!(String::from_utf8(source).unwrap(), expected);
}

#[test]
fn synthesize_of_nothing_is_an_empty_entry_point() {
    let source = synthesize("");
    assert_eq!(source, format!("{}{}", GUEST_PROLOGUE, GUEST_EPILOGUE).into_bytes());
    assert_eq!(GUEST_EPILOGUE, "}");
    assert!(GUEST_PROLOGUE.ends_with("fn main() {"));
}

#[test]
fn synthesize_does_not_inspect_the_snippet() {
    let snippet = "} fn other() { loop {} } fn third() {";
    let source = String::from_utf8(synthesize(snippet)).unwrap();
    assert_eq!(source, format!("{}{}{}", GUEST_PROLOGUE, snippet, GUEST_EPILOGUE));
}

#[test]
fn different_snippets_give_different_sources() {
    assert_ne!(synthesize("let a = 1;"), synthesize("let a = 2;"));
    assert_ne!(synthesize("}"), synthesize(""));
    assert_eq!(synthesize("let a = 1;"), synthesize("let a = 1;"));
}

#[test]
fn workspace_locations_are_named_by_the_run() {
    let workspace = GuestWorkspace::new(7);
    assert_eq!(workspace.run_id, 7);
    assert_eq!(workspace.root(), "../guest-7");
    assert_eq!(workspace.source_path(), "../guest-7/src/main.rs");
    assert_eq!(
        workspace.binary_path(),
        "../guest-7/target/riscv32i-unknown-none-elf/release/guest"
    );
    assert_eq!(workspace.proof_slot(), "./proofs/proof-7");
}

#[test]
fn workspace_locations_of_the_extreme_runs() {
    assert_eq!(GuestWorkspace::new(0).root(), "../guest-0");
    assert_eq!(GuestWorkspace::new(0).proof_slot(), "./proofs/proof-0");
    assert_eq!(GuestWorkspace::new(u64::MAX).root(), "../guest-18446744073709551615");
    assert_eq!(
        GuestWorkspace::new(u64::MAX).proof_slot(),
        "./proofs/proof-18446744073709551615"
    );
}

#[test]
fn different_runs_share_no_location() {
    let ids = [0u64, 1, 9, 10, 11, 19, 90, 99, 100, 101, 110, 1000, u64::MAX - 1, u64::MAX];
    for left in ids {
        for right in ids {
            if left != right {
                let ours = GuestWorkspace::new(left);
                let theirs = GuestWorkspace::new(right);
                assert_ne!(ours.root(), theirs.root());
                assert_ne!(ours.source_path(), theirs.source_path());
                assert_ne!(ours.binary_path(), theirs.binary_path());
                assert_ne!(ours.proof_slot(), theirs.proof_slot());
            }
        }
    }
}

#[test]
fn decimal_rendering_is_exact() {
    let cases: [(u64, &str); 9] = [
        (0, "0"),
        (7, "7"),
        (9, "9"),
        (10, "10"),
        (42, "42"),
        (100, "100"),
        (1234567890, "1234567890"),
        (4294967296, "4294967296"),
        (18446744073709551615, "18446744073709551615"),
    ];
    for (number, text) in cases {
        let mut out = String::new();
        push_decimal(&mut out, number);
        assert_eq!(out, text);
    }
    let mut out = String::from("run ");
    push_decimal(&mut out, 305);
    out.push('.');
    assert_eq!(out, "run 305.");
}

#[test]
fn toolchain_invocation_targets_the_guest_instruction_set() {
    assert_eq!(TOOLCHAIN_PROGRAM, "cargo");
    assert_eq!(GUEST_TARGET, "riscv32i-unknown-none-elf");
    assert_eq!(
        toolchain_arguments(),
        vec!["build", "--release", "--target", "riscv32i-unknown-none-elf"]
    );
}

#[test]
fn only_exit_status_zero_is_a_finished_build() {
    assert_eq!(TOOLCHAIN_SUCCESS, 0);
    assert!(build_succeeded(Some(0)));
    assert!(!build_succeeded(Some(1)));
    assert!(!build_succeeded(Some(101)));
    assert!(!build_succeeded(Some(-1)));
    assert!(!build_succeeded(Some(i32::MIN)));
    assert!(!build_succeeded(None));
}
