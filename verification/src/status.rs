//! Typed decoding of the raw status words reported by the transactional
//! instructions, so callers never hand-roll the bitmask arithmetic.

use vstd::prelude::*;

verus! {

/// Raw word `xbegin` reports when the transaction started: all bits set.
pub const _XBEGIN_STARTED: i32 = -1;

/// Abort-reason flag: the transaction was aborted by an `xabort` call, and
/// bits 24..32 of the status word carry the caller's eight-bit code.
pub const _XABORT_EXPLICIT: i32 = 1;

/// Abort-reason flag: the hardware hints the transaction may succeed if
/// retried unmodified.
pub const _XABORT_RETRY: i32 = 2;

/// Abort-reason flag: another hardware thread touched memory the transaction
/// was reading or writing.
pub const _XABORT_CONFLICT: i32 = 4;

/// Abort-reason flag: the transaction's working set exceeded the hardware's
/// tracking limits.
pub const _XABORT_CAPACITY: i32 = 8;

/// Abort-reason flag: a debug trap fired inside the transaction.
pub const _XABORT_DEBUG: i32 = 16;

/// Abort-reason flag: the abort happened inside a nested transaction.
pub const _XABORT_NESTED: i32 = 32;

/// A begin status means "started" exactly on the all-ones sentinel.
pub open spec fn spec_is_started(v: i32) -> bool {
    v == _XBEGIN_STARTED
}

/// A begin status carries an abort reason when it is not the started sentinel
/// and the reason's flag bit is set. A started status carries no reason: the
/// two outcomes are mutually exclusive, and the flag bits of the sentinel are
/// an artefact of its all-ones encoding, not a report by the hardware.
pub open spec fn spec_has_reason(v: i32, flag: i32) -> bool {
    !spec_is_started(v) && v & flag != 0
}

/// The eight-bit payload an explicit abort carries in bits 24..32 of the
/// begin status.
pub open spec fn spec_abort_code(v: i32) -> i32 {
    (v >> 24) & 0xFF
}

/// A test status means "inside a transaction" exactly when it is non-zero.
pub open spec fn spec_in_transaction(v: i32) -> bool {
    v != 0
}

/// Extracts the eight-bit explicit-abort payload from a raw begin status.
/// Only the top byte is read; the reason bits never reach the result.
#[allow(non_snake_case)]
pub fn _XABORT_CODE(x: i32) -> (r: i32)
    ensures
        r == spec_abort_code(x),
        0 <= r < 256,
{
    proof {
        assert(0 <= (x >> 24) & 0xFF < 256) by (bit_vector);
    }
    (x >> 24) & 0xFF
}

/// The raw signed 32-bit word `xbegin` reports: either the started sentinel,
/// or a bitmask of abort reasons with an optional payload in the top byte.
#[derive(PartialEq, Eq, PartialOrd, Ord, Copy, Clone, Debug, Hash, Structural)]
pub struct BeginCode(pub i32);

impl BeginCode {
    /// True exactly when the transaction started and execution went on inside
    /// it.
    pub fn is_started(&self) -> (r: bool)
        ensures
            r == spec_is_started(self.0),
    {
        self.0 == _XBEGIN_STARTED
    }

    /// True exactly when the abort was requested by the caller through
    /// `xabort`; only then does `abort_code` carry meaning.
    pub fn is_explicit_abort(&self) -> (r: bool)
        ensures
            r == spec_has_reason(self.0, _XABORT_EXPLICIT),
    {
        self.0 != _XBEGIN_STARTED && self.0 & _XABORT_EXPLICIT != 0
    }

    /// True exactly when the hardware hints that retrying the transaction
    /// unmodified may succeed.
    pub fn is_retry(&self) -> (r: bool)
        ensures
            r == spec_has_reason(self.0, _XABORT_RETRY),
    {
        self.0 != _XBEGIN_STARTED && self.0 & _XABORT_RETRY != 0
    }

    /// True exactly when a memory conflict with another hardware thread was
    /// detected.
    pub fn is_conflict(&self) -> (r: bool)
        ensures
            r == spec_has_reason(self.0, _XABORT_CONFLICT),
    {
        self.0 != _XBEGIN_STARTED && self.0 & _XABORT_CONFLICT != 0
    }

    /// True exactly when the transaction's working set exceeded hardware
    /// limits. This is a distinct bit from the conflict flag: a caller picks
    /// a different fallback strategy for capacity than for conflict, so the
    /// two must never be conflated.
    pub fn is_capacity(&self) -> (r: bool)
        ensures
            r == spec_has_reason(self.0, _XABORT_CAPACITY),
    {
        self.0 != _XBEGIN_STARTED && self.0 & _XABORT_CAPACITY != 0
    }

    /// The eight-bit code the caller handed to `xabort`; meaningful only when
    /// `is_explicit_abort` is true.
    pub fn abort_code(&self) -> (r: i32)
        ensures
            r == spec_abort_code(self.0),
            0 <= r < 256,
    {
        _XABORT_CODE(self.0)
    }
}

/// The raw word `xtest` reports: non-zero exactly when the executing thread
/// is currently inside a hardware transaction.
#[derive(PartialEq, Eq, PartialOrd, Ord, Copy, Clone, Debug, Hash, Structural)]
pub struct TestCode(pub i32);

impl TestCode {
    /// True exactly when the raw test status is non-zero, that is, when the
    /// query ran inside a hardware transaction.
    pub fn in_transaction(&self) -> (r: bool)
        ensures
            r == spec_in_transaction(self.0),
    {
        self.0 != 0
    }

    /// Whether the current transaction is hardware-suspended. The x86_64
    /// instruction exposes no such signal, so this reports false rather than
    /// fabricating one.
    pub fn is_suspended(&self) -> (r: bool)
        ensures
            !r,
    {
        false
    }
}

} // verus!
