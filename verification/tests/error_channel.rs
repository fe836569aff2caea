use opus_ffi::error::{
    free_c_string, free_opus_error, ErrorSlot, OpusError, INTERNAL_FAULT_CODE, INVALID_INPUT_CODE,
    UNKNOWN_ERROR_CODE,
};
use opus_ffi::utils::{ffi_exec, invalid_input, GuardOutcome};

fn empty_record() -> ErrorSlot {
    ErrorSlot::Present(OpusError { code: 0, message: None })
}

fn record_of(slot: ErrorSlot) -> OpusError {
    match slot {
        ErrorSlot::Present(record) => record,
        ErrorSlot::Absent => panic!("expected a record"),
    }
}

#[test]
fn test_reserved_codes() {
    assert_eq!(UNKNOWN_ERROR_CODE, -8);
    assert_eq!(INVALID_INPUT_CODE, -9);
    assert_eq!(INTERNAL_FAULT_CODE, -10);
}

#[test]
fn test_invalid_input_fills_present_slot() {
    let mut slot = empty_record();
    let code = invalid_input(&mut slot);
    assert_eq!(code, INVALID_INPUT_CODE);
    let record = record_of(slot);
    assert_eq!(record.code, INVALID_INPUT_CODE);
    assert_eq!(record.message.as_deref(), Some("Invalid input"));
}

#[test]
fn test_invalid_input_returns_code_without_slot() {
    let mut slot = ErrorSlot::Absent;
    let code = invalid_input(&mut slot);
    assert_eq!(code, INVALID_INPUT_CODE);
    assert!(matches!(slot, ErrorSlot::Absent));
}

#[test]
fn test_fill_moves_record_into_present_slot() {
    let mut slot = empty_record();
    let origin = OpusError { code: -3, message: Some("internal error".to_string()) };
    let code = OpusError::fill(&mut slot, origin);
    assert_eq!(code, -3);
    let record = record_of(slot);
    assert_eq!(record.code, -3);
    assert_eq!(record.message.as_deref(), Some("internal error"));
}

#[test]
fn test_fill_returns_code_with_absent_slot() {
    let mut slot = ErrorSlot::Absent;
    let origin = OpusError { code: -4, message: Some("invalid packet".to_string()) };
    let code = OpusError::fill(&mut slot, origin);
    assert_eq!(code, -4);
    assert!(matches!(slot, ErrorSlot::Absent));
}

#[test]
fn test_ffi_exec_completed_leaves_slot_untouched() {
    let mut slot = empty_record();
    let code = ffi_exec(GuardOutcome::Completed, &mut slot);
    assert_eq!(code, 0);
    let record = record_of(slot);
    assert_eq!(record.code, 0);
    assert!(record.message.is_none());
}

#[test]
fn test_ffi_exec_failure_files_engine_description() {
    let mut slot = empty_record();
    let code = ffi_exec(GuardOutcome::Failed("Output buffer too small".to_string()), &mut slot);
    assert_eq!(code, UNKNOWN_ERROR_CODE);
    let record = record_of(slot);
    assert_eq!(record.code, UNKNOWN_ERROR_CODE);
    assert_eq!(record.message.as_deref(), Some("Output buffer too small"));
}

#[test]
fn test_ffi_exec_fault_reports_sentinel() {
    let mut slot = empty_record();
    let code = ffi_exec(GuardOutcome::Faulted, &mut slot);
    assert_eq!(code, INTERNAL_FAULT_CODE);
    let record = record_of(slot);
    assert_eq!(record.code, INTERNAL_FAULT_CODE);
    assert_eq!(record.message.as_deref(), Some("Rust panic occurred"));
}

#[test]
fn test_ffi_exec_fault_returns_code_without_slot() {
    let mut slot = ErrorSlot::Absent;
    let code = ffi_exec(GuardOutcome::Faulted, &mut slot);
    assert_eq!(code, INTERNAL_FAULT_CODE);
    assert!(matches!(slot, ErrorSlot::Absent));
}

#[test]
fn test_release_message_clears_the_slot() {
    let mut slot = empty_record();
    invalid_input(&mut slot);
    let mut record = record_of(slot);
    assert!(record.message.is_some());
    free_c_string(&mut record.message);
    assert!(record.message.is_none());
    // A second release finds the slot already empty and changes nothing.
    free_c_string(&mut record.message);
    assert!(record.message.is_none());
}

#[test]
fn test_free_opus_error_accepts_null_and_owned() {
    free_opus_error(None);
    let record = OpusError { code: -1, message: Some("bad argument".to_string()) };
    free_opus_error(Some(record));
}
