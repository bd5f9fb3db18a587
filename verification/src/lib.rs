//! Status decoding and feature detection for x86_64 restricted hardware
//! transactional memory (RTM).
//!
//! A hardware transaction is entered with the `xbegin` instruction, committed
//! with `xend`, cancelled with `xabort`, and queried with `xtest`. Those four
//! instructions live behind an unsafe boundary outside this crate; what this
//! crate provides is everything around them that is pure: the typed decoding
//! of the raw status words the instructions report, and the compile-time
//! support flag. Decoding is total and side-effect-free, so every function
//! here carries a contract that pins its result down exactly.

use vstd::prelude::*;

pub mod laws;
pub mod status;

verus! {

/// The immediate operand handed to the `xabort` instruction. The instruction
/// encodes its eight-bit code directly, so a caller supplies it as an
/// associated constant rather than a run-time value.
pub trait XAbortConst {
    const CODE: i8;
}

/// Compile-time support flag: this build configuration targets a processor
/// that is assumed to provide the transactional-memory instructions. It is a
/// build-time contract, not a safety check; runtime detection (a cpuid query,
/// outside this crate) is the authoritative answer.
pub fn htm_supported() -> (r: bool)
    ensures
        r,
{
    true
}

} // verus!
