//! The error channel: a record of `{ code, message }` handed back to the
//! caller across the boundary, and the rules for filling it.

use vstd::prelude::*;

verus! {

/// Code under which a structured failure reported by the codec engine is
/// filed. The engine describes its failures by message alone, so they all
/// share this code, the classic "unknown error" slot of the Opus code space
/// (whose reserved codes occupy -1 through -8).
pub const UNKNOWN_ERROR_CODE: i32 = -8;

/// Code returned when a required pointer argument was absent. Sits just below
/// the engine's reserved code space so it can never collide with a code of
/// the engine's own.
pub const INVALID_INPUT_CODE: i32 = UNKNOWN_ERROR_CODE - 1;

/// Code returned when the guarded work ended abnormally. Also reserved to
/// this layer, below the engine's code space.
pub const INTERNAL_FAULT_CODE: i32 = UNKNOWN_ERROR_CODE - 2;

/// The error record a caller may hand in. `message`, when present, is owned
/// by whoever holds the record; `None` stands for the null message pointer of
/// the C-facing layout.
pub struct OpusError {
    pub code: i32,
    pub message: Option<String>,
}

/// The caller's optional error out-parameter. `Absent` stands for a null
/// record pointer: the caller asked for no description and only the return
/// code reaches it. `Present` carries the record that will be written back.
pub enum ErrorSlot {
    Absent,
    Present(OpusError),
}

/// The slot holds exactly the failure `(code, message)`, with an owned,
/// non-null message.
pub open spec fn records_failure(slot: ErrorSlot, code: i32, message: Seq<char>) -> bool {
    &&& slot is Present
    &&& slot->Present_0.code == code
    &&& slot->Present_0.message is Some
    &&& slot->Present_0.message->Some_0@ == message
}

/// How a failing operation treats the slot: an absent slot is left alone,
/// a present one receives the failure.
pub open spec fn slot_reports(pre: ErrorSlot, post: ErrorSlot, code: i32, message: Seq<char>) -> bool {
    &&& pre is Absent ==> post == pre
    &&& pre is Present ==> records_failure(post, code, message)
}

/// As `slot_reports`, for a failure whose message text is not pinned down:
/// the code is written and some owned message accompanies it.
pub open spec fn slot_reports_code(pre: ErrorSlot, post: ErrorSlot, code: i32) -> bool {
    &&& pre is Absent ==> post == pre
    &&& pre is Present ==> {
        &&& post is Present
        &&& post->Present_0.code == code
        &&& post->Present_0.message is Some
    }
}

impl ErrorSlot {
    /// Whether a record is attached, i.e. the caller supplied a non-null
    /// record pointer.
    pub fn is_present(&self) -> (r: bool)
        ensures
            r == (self is Present),
    {
        match self {
            ErrorSlot::Absent => false,
            ErrorSlot::Present(_) => true,
        }
    }
}

impl OpusError {
    /// Converts a failure into the wire representation: the record moves into
    /// the slot when one is present, and the numeric code is returned either
    /// way, so a caller that supplied no record still learns the code.
    pub fn fill(out: &mut ErrorSlot, origin: OpusError) -> (code: i32)
        ensures
            code == origin.code,
            *old(out) is Absent ==> *final(out) == *old(out),
            *old(out) is Present ==> *final(out) == ErrorSlot::Present(origin),
    {
        let code = origin.code;
        if out.is_present() {
            *out = ErrorSlot::Present(origin);
        }
        code
    }
}

/// Releases the message string of a record, leaving the slot null so that a
/// second release finds nothing to free.
pub fn free_c_string(message: &mut Option<String>)
    ensures
        *final(message) is None,
{
    *message = None;
}

/// Releases a heap-owned error record as a whole: the record's message goes
/// with it. A caller that holds no record passes `None`, which is a safe
/// no-op. This path and `free_c_string` are alternatives, never both: the
/// message is released exactly once.
pub fn free_opus_error(record: Option<OpusError>) {
    match record {
        Some(mut r) => {
            free_c_string(&mut r.message);
        },
        None => {},
    }
}

/// The two codes this layer owns are distinct from each other, from success,
/// and from the code under which engine failures are filed, so a caller can
/// always tell the three failure kinds apart.
pub proof fn lemma_reserved_codes_distinct()
    ensures
        INVALID_INPUT_CODE != INTERNAL_FAULT_CODE,
        INVALID_INPUT_CODE != UNKNOWN_ERROR_CODE,
        INTERNAL_FAULT_CODE != UNKNOWN_ERROR_CODE,
        INVALID_INPUT_CODE < 0,
        INTERNAL_FAULT_CODE < 0,
        UNKNOWN_ERROR_CODE < 0,
{
}

} // verus!
