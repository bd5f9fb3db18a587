//! Concrete checks of the status decoders and the support flag.

use swym_htm::htm_supported;
use swym_htm::status::BeginCode;
use swym_htm::status::TestCode;
use swym_htm::status::_XABORT_CODE;

#[test]
fn started_is_the_all_ones_sentinel() {
    assert!(BeginCode(-1).is_started());
    assert!(!BeginCode(0).is_started());
    assert!(!BeginCode(1).is_started());
    assert!(!BeginCode(i32::MIN).is_started());
    assert!(!BeginCode(i32::MAX).is_started());
}

#[test]
fn started_status_carries_no_abort_reason() {
    let started = BeginCode(-1);
    assert!(!started.is_explicit_abort());
    assert!(!started.is_retry());
    assert!(!started.is_conflict());
    assert!(!started.is_capacity());
}

#[test]
fn explicit_abort_flag_is_bit_zero() {
    assert!(BeginCode(1).is_explicit_abort());
    assert!(!BeginCode(2).is_explicit_abort());
    assert!(!BeginCode(0).is_explicit_abort());
}

#[test]
fn retry_flag_is_bit_one() {
    assert!(BeginCode(2).is_retry());
    assert!(!BeginCode(1).is_retry());
    assert!(!BeginCode(4).is_retry());
}

#[test]
fn conflict_and_capacity_are_distinct_bits() {
    let conflict = BeginCode(4);
    assert!(conflict.is_conflict());
    assert!(!conflict.is_capacity());

    let capacity = BeginCode(8);
    assert!(capacity.is_capacity());
    assert!(!capacity.is_conflict());
}

#[test]
fn several_reasons_can_hold_at_once() {
    let code = BeginCode(2 | 4);
    assert!(code.is_retry());
    assert!(code.is_conflict());
    assert!(!code.is_explicit_abort());
    assert!(!code.is_capacity());
    assert!(!code.is_started());
}

#[test]
fn abort_code_round_trips_an_arbitrary_payload() {
    let synthetic = BeginCode((42i32 << 24) | 1);
    assert!(synthetic.is_explicit_abort());
    assert_eq!(synthetic.abort_code(), 42);
}

#[test]
fn abort_code_round_trips_the_top_payload_bit() {
    let synthetic = BeginCode((255i32 << 24) | 1);
    assert!(synthetic.is_explicit_abort());
    assert_eq!(synthetic.abort_code(), 255);

    let low = BeginCode((128i32 << 24) | 1);
    assert!(low.is_explicit_abort());
    assert_eq!(low.abort_code(), 128);
}

#[test]
fn abort_code_reads_only_the_top_byte() {
    assert_eq!(_XABORT_CODE((42i32 << 24) | 0x3F), 42);
    assert_eq!(_XABORT_CODE(0x3F), 0);
    assert_eq!(_XABORT_CODE(0), 0);
    assert_eq!(_XABORT_CODE(-1), 255);
}

#[test]
fn in_transaction_is_nonzeroness() {
    assert!(!TestCode(0).in_transaction());
    assert!(TestCode(1).in_transaction());
    assert!(TestCode(-1).in_transaction());
}

#[test]
fn suspension_is_never_reported() {
    assert!(!TestCode(0).is_suspended());
    assert!(!TestCode(1).is_suspended());
    assert!(!TestCode(-1).is_suspended());
}

#[test]
fn compile_time_support_is_assumed() {
    assert!(htm_supported());
}
