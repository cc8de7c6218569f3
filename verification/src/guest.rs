//! The guest program that a snippet is wrapped into.
//!
//! The snippet is taken as it is, with no check of its syntax or meaning: it becomes
//! the body of the entry point of a freestanding program.

use crate::bytes::{append_bytes, lemma_framed_injective};
use vstd::prelude::*;
use vstd::string::*;
use vstd::utf8::*;

verus! {

/// What stands in front of the snippet: the attributes of a freestanding program and
/// the opening of its entry point.
pub const GUEST_PROLOGUE: &'static str =
    "\n#![cfg_attr(target_arch = \"riscv32\", no_std, no_main)]\n#[nexus_rt::main]\nfn main() {";

/// What stands behind the snippet: the end of the entry point.
pub const GUEST_EPILOGUE: &'static str = "}";

/// The source text of the guest program for a snippet, as bytes.
pub open spec fn guest_source(snippet: Seq<u8>) -> Seq<u8> {
    GUEST_PROLOGUE.spec_bytes() + snippet + GUEST_EPILOGUE.spec_bytes()
}

/// Wraps `snippet` into the source text of a guest program.
pub fn synthesize(snippet: &str) -> (source: Vec<u8>)
    ensures
        source@ == guest_source(snippet.spec_bytes()),
{
    let mut source: Vec<u8> = Vec::new();
    append_bytes(&mut source, GUEST_PROLOGUE.as_bytes());
    append_bytes(&mut source, snippet.as_bytes());
    append_bytes(&mut source, GUEST_EPILOGUE.as_bytes());
    source
}

/// The source text determines the snippet: two snippets give the same guest program
/// only if they are the same snippet.
pub proof fn lemma_source_holds_snippet(left: Seq<u8>, right: Seq<u8>)
    ensures
        (guest_source(left) == guest_source(right)) <==> (left == right),
{
    if guest_source(left) == guest_source(right) {
        lemma_framed_injective(
            GUEST_PROLOGUE.spec_bytes(),
            left,
            right,
            GUEST_EPILOGUE.spec_bytes(),
        );
    }
}

/// The guest program of a snippet that is text is text.
pub proof fn lemma_source_is_text(snippet: Seq<u8>)
    requires
        valid_utf8(snippet),
    ensures
        valid_utf8(guest_source(snippet)),
{
    encode_utf8_valid_utf8(GUEST_PROLOGUE@);
    encode_utf8_valid_utf8(GUEST_EPILOGUE@);
    valid_utf8_concat(GUEST_PROLOGUE.spec_bytes(), snippet);
    valid_utf8_concat(GUEST_PROLOGUE.spec_bytes() + snippet, GUEST_EPILOGUE.spec_bytes());
}

} // verus!
