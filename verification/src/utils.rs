//! The execution guard's settlement: every boundary operation ends in one of
//! three outcomes, and each outcome maps to a single return code and, on
//! failure, a filled error record.

use vstd::prelude::*;

use crate::error::{
    slot_reports, ErrorSlot, OpusError, INTERNAL_FAULT_CODE, INVALID_INPUT_CODE,
    UNKNOWN_ERROR_CODE,
};

verus! {

/// What became of a guarded unit of work: it ran to completion, the engine
/// reported a structured failure with a description, or it ended abnormally
/// and nothing of it may be inspected.
pub enum GuardOutcome {
    Completed,
    Failed(String),
    Faulted,
}

/// Reports an absent required pointer argument. The record, when a slot is
/// attached, carries the reserved code and a fixed description; the code is
/// returned either way. Nothing else is touched: this check runs before any
/// engine work.
pub fn invalid_input(error: &mut ErrorSlot) -> (code: i32)
    ensures
        code == INVALID_INPUT_CODE,
        slot_reports(*old(error), *final(error), INVALID_INPUT_CODE, "Invalid input"@),
{
    let record = OpusError { code: INVALID_INPUT_CODE, message: Some("Invalid input".to_owned()) };
    OpusError::fill(error, record)
}

/// Settles a guarded outcome into the single return-code convention:
/// `0` for completion, with the caller's record left untouched; the shared
/// engine-failure code with the engine's own description on a structured
/// failure; and the reserved fault code with a fixed generic description on
/// an abnormal ending, whose original detail is never inspected.
pub fn ffi_exec(outcome: GuardOutcome, error: &mut ErrorSlot) -> (code: i32)
    ensures
        outcome is Completed ==> code == 0 && *final(error) == *old(error),
        outcome matches GuardOutcome::Failed(message) ==> {
            &&& code == UNKNOWN_ERROR_CODE
            &&& slot_reports(*old(error), *final(error), UNKNOWN_ERROR_CODE, message@)
        },
        outcome is Faulted ==> {
            &&& code == INTERNAL_FAULT_CODE
            &&& slot_reports(*old(error), *final(error), INTERNAL_FAULT_CODE, "Rust panic occurred"@)
        },
{
    match outcome {
        GuardOutcome::Completed => 0,
        GuardOutcome::Failed(message) => {
            let record = OpusError { code: UNKNOWN_ERROR_CODE, message: Some(message) };
            OpusError::fill(error, record)
        },
        GuardOutcome::Faulted => {
            let record = OpusError {
                code: INTERNAL_FAULT_CODE,
                message: Some("Rust panic occurred".to_owned()),
            };
            OpusError::fill(error, record)
        },
    }
}

} // verus!
