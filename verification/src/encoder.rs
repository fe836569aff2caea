//! The encoding half of the boundary: session construction, the frame
//! encode call, and session release. Mirrors the decoding half, with the
//! caller additionally selecting an optimization mode at construction.

use vstd::prelude::*;

use crate::engine::{
    application_mode, channel_count, engine_encode_i16, engine_new_encoder, spec_application,
    spec_channel_count, supported_sample_rate, Application,
};
use crate::error::{slot_reports, slot_reports_code, ErrorSlot, INVALID_INPUT_CODE, UNKNOWN_ERROR_CODE};
use crate::utils::{ffi_exec, invalid_input, GuardOutcome};

verus! {

/// A heap-resident encoding session: the engine's state plus the
/// configuration it was built with.
pub struct Encoder {
    pub channels: u32,
    pub application: Application,
    pub session: opus_rs::OpusEncoder,
}

impl Encoder {
    /// Every session this layer constructs is mono or stereo.
    pub open spec fn wf(&self) -> bool {
        self.channels == 1 || self.channels == 2
    }
}

/// Builds an encoding session. An absent result slot is rejected before any
/// engine work; an unrecognized channel count falls back to mono and an
/// unrecognized mode value to voice, both silently; the sample rate is the
/// engine's to accept, and a session is returned exactly when the rate is
/// one it supports.
pub fn new_encoder(
    channels: u32,
    sample_rate: u32,
    application: u32,
    result_present: bool,
    error: &mut ErrorSlot,
) -> (r: (i32, Option<Encoder>))
    ensures
        !result_present ==> {
            &&& r.0 == INVALID_INPUT_CODE
            &&& r.1 is None
            &&& slot_reports(*old(error), *final(error), INVALID_INPUT_CODE, "Invalid input"@)
        },
        result_present ==> {
            &&& (r.0 == 0) == supported_sample_rate(sample_rate)
            &&& (r.1 is Some) == (r.0 == 0)
            &&& (r.1 matches Some(e) ==> {
                &&& e.wf()
                &&& e.channels == spec_channel_count(channels)
                &&& e.application == spec_application(application)
            })
            &&& r.0 == 0 ==> *final(error) == *old(error)
            &&& r.0 != 0 ==> {
                &&& r.0 == UNKNOWN_ERROR_CODE
                &&& slot_reports(*old(error), *final(error), UNKNOWN_ERROR_CODE, "Invalid sampling rate"@)
            }
        },
{
    if !result_present {
        let code = invalid_input(error);
        return (code, None);
    }
    let count = channel_count(channels);
    let mode = application_mode(application);
    match engine_new_encoder(sample_rate, count, mode) {
        Ok(session) => {
            let code = ffi_exec(GuardOutcome::Completed, error);
            (code, Some(Encoder { channels: count, application: mode, session }))
        },
        Err(message) => {
            let code = ffi_exec(GuardOutcome::Failed(message.to_owned()), error);
            (code, None)
        },
    }
}

/// Encodes one frame of interleaved integer samples into a packet. The
/// samples, the output capacity and the written-count out-parameter model
/// the caller's three pointers: any of them absent is rejected, with the
/// code returned and nothing else touched, before the engine is consulted.
/// On success the packet buffer comes back sized to the declared capacity
/// with the count of bytes the engine wrote into its front, which is only
/// meaningful on a zero code.
pub fn encode(
    encoder: &mut Encoder,
    samples: Option<&Vec<i16>>,
    output_capacity: Option<u32>,
    written_present: bool,
    error: &mut ErrorSlot,
) -> (r: (i32, Vec<u8>, usize))
    requires
        old(encoder).wf(),
    ensures
        final(encoder).wf(),
        final(encoder).channels == old(encoder).channels,
        final(encoder).application == old(encoder).application,
        (samples is None || output_capacity is None || !written_present) ==> {
            &&& r.0 == INVALID_INPUT_CODE
            &&& slot_reports(*old(error), *final(error), INVALID_INPUT_CODE, "Invalid input"@)
            &&& r.1@.len() == 0
            &&& r.2 == 0
            &&& *final(encoder) == *old(encoder)
        },
        (samples is Some && output_capacity is Some && written_present) ==> {
            &&& r.0 == 0 || r.0 == UNKNOWN_ERROR_CODE
            &&& r.0 == 0 ==> {
                &&& r.1@.len() == output_capacity->Some_0
                &&& r.2 <= output_capacity->Some_0
                &&& *final(error) == *old(error)
            }
            &&& r.0 != 0 ==> {
                &&& r.1@.len() == 0
                &&& r.2 == 0
                &&& slot_reports_code(*old(error), *final(error), UNKNOWN_ERROR_CODE)
            }
        },
{
    if samples.is_none() || output_capacity.is_none() || !written_present {
        let code = invalid_input(error);
        return (code, Vec::new(), 0);
    }
    let frame = samples.unwrap();
    let capacity = output_capacity.unwrap() as usize;
    let channels = encoder.channels as usize;
    let frame_size = frame.len() / channels;
    let mut output: Vec<u8> = Vec::new();
    while output.len() < capacity
        invariant
            output@.len() <= capacity,
        decreases capacity - output@.len(),
    {
        output.push(0u8);
    }
    match engine_encode_i16(&mut encoder.session, frame, frame_size, &mut output) {
        Ok(written) => {
            let code = ffi_exec(GuardOutcome::Completed, error);
            (code, output, written)
        },
        Err(message) => {
            let code = ffi_exec(GuardOutcome::Failed(message.to_owned()), error);
            (code, Vec::new(), 0)
        },
    }
}

/// Releases an encoding session. `None` stands for the null handle and is a
/// safe no-op; a session passed in is consumed here, so it can be released
/// only this once.
pub fn free_encoder(encoder: Option<Encoder>) {
    match encoder {
        Some(_session) => {},
        None => {},
    }
}

} // verus!
