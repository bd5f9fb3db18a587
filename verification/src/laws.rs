//! The decoding laws: what holds of every raw status word, stated over the
//! spec functions the decoders' contracts use.

use vstd::prelude::*;

verus! {

use crate::status::{
    spec_abort_code, spec_has_reason, spec_is_started, _XABORT_CAPACITY, _XABORT_CONFLICT,
    _XABORT_DEBUG, _XABORT_EXPLICIT, _XABORT_NESTED, _XABORT_RETRY, _XBEGIN_STARTED,
};

/// A begin status is started exactly on the all-ones sentinel, and a started
/// status carries no abort reason: the two outcomes are mutually exclusive.
pub proof fn lemma_started_excludes_reasons(v: i32)
    ensures
        spec_is_started(v) == (v == -1),
        spec_is_started(v) ==> !spec_has_reason(v, _XABORT_EXPLICIT),
        spec_is_started(v) ==> !spec_has_reason(v, _XABORT_RETRY),
        spec_is_started(v) ==> !spec_has_reason(v, _XABORT_CONFLICT),
        spec_is_started(v) ==> !spec_has_reason(v, _XABORT_CAPACITY),
        spec_is_started(v) ==> !spec_has_reason(v, _XABORT_DEBUG),
        spec_is_started(v) ==> !spec_has_reason(v, _XABORT_NESTED),
{
}

/// On every status other than the started sentinel, each reason predicate is
/// exactly the documented test of its flag bit: decoding an aborted status
/// never contradicts the raw bitmask.
pub proof fn lemma_reason_is_flag_bit(v: i32, flag: i32)
    requires
        v != _XBEGIN_STARTED,
    ensures
        !spec_is_started(v),
        spec_has_reason(v, flag) == (v & flag != 0),
{
}

/// The abort-code payload reads the top byte alone: setting or clearing any
/// of the low 24 bits, where the reason flags live, leaves it unchanged.
pub proof fn lemma_abort_code_reads_top_byte(v: i32, low: i32)
    requires
        0 <= low < 0x1000000,
    ensures
        spec_abort_code(v | low) == spec_abort_code(v),
{
    assert((((v | low) >> 24) & 0xFF) == ((v >> 24) & 0xFF)) by (bit_vector)
        requires
            0 <= low < 0x1000000i32,
    ;
}

/// Round trip: a synthetic status carrying an arbitrary eight-bit payload in
/// bits 24..32 together with the explicit-abort flag decodes as an explicit
/// abort with that same payload.
pub proof fn lemma_abort_code_round_trip(code: u8)
    ensures
        spec_has_reason(((code as i32) << 24) | _XABORT_EXPLICIT, _XABORT_EXPLICIT),
        spec_abort_code(((code as i32) << 24) | _XABORT_EXPLICIT) == code,
{
    assert((((code as i32) << 24) | 1i32) != -1i32) by (bit_vector);
    assert(((((code as i32) << 24) | 1i32) & 1i32) != 0i32) by (bit_vector);
    assert((((((code as i32) << 24) | 1i32) >> 24) & 0xFFi32) == code as i32) by (bit_vector);
}

} // verus!
