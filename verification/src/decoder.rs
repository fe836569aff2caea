//! The decoding half of the boundary: session construction, the packet
//! decode call, and session release. A session is exclusively owned; the
//! shell around this crate hands its owner a raw handle and gives the
//! session back to `free_decoder` exactly once.

use vstd::prelude::*;

use crate::engine::{
    channel_count, engine_decode, engine_new_decoder, spec_channel_count, supported_sample_rate,
};
use crate::error::{slot_reports, slot_reports_code, ErrorSlot, INVALID_INPUT_CODE, UNKNOWN_ERROR_CODE};
use crate::utils::{ffi_exec, invalid_input, GuardOutcome};

verus! {

/// A heap-resident decoding session: the engine's state plus the channel
/// count it was built with, which fixes how many interleaved samples one
/// frame holds.
pub struct Decoder {
    pub channels: u32,
    pub session: opus_rs::OpusDecoder,
}

impl Decoder {
    /// Every session this layer constructs is mono or stereo.
    pub open spec fn wf(&self) -> bool {
        self.channels == 1 || self.channels == 2
    }
}

/// Builds a decoding session. An absent result slot is rejected before any
/// engine work; an unrecognized channel count silently falls back to mono;
/// the sample rate is the engine's to accept, and a session is returned
/// exactly when the rate is one it supports.
pub fn new_decoder(
    channels: u32,
    sample_rate: u32,
    result_present: bool,
    error: &mut ErrorSlot,
) -> (r: (i32, Option<Decoder>))
    ensures
        !result_present ==> {
            &&& r.0 == INVALID_INPUT_CODE
            &&& r.1 is None
            &&& slot_reports(*old(error), *final(error), INVALID_INPUT_CODE, "Invalid input"@)
        },
        result_present ==> {
            &&& (r.0 == 0) == supported_sample_rate(sample_rate)
            &&& (r.1 is Some) == (r.0 == 0)
            &&& (r.1 matches Some(d) ==> d.wf() && d.channels == spec_channel_count(channels))
            &&& r.0 == 0 ==> *final(error) == *old(error)
            &&& r.0 != 0 ==> {
                &&& r.0 == UNKNOWN_ERROR_CODE
                &&& slot_reports(*old(error), *final(error), UNKNOWN_ERROR_CODE, "Invalid sampling rate"@)
            }
        },
{
    if !result_present {
        let code = invalid_input(error);
        return (code, None);
    }
    let count = channel_count(channels);
    match engine_new_decoder(sample_rate, count) {
        Ok(session) => {
            let code = ffi_exec(GuardOutcome::Completed, error);
            (code, Some(Decoder { channels: count, session }))
        },
        Err(message) => {
            let code = ffi_exec(GuardOutcome::Failed(message.to_owned()), error);
            (code, None)
        },
    }
}

/// Decodes one packet. The packet bytes, the output capacity and the
/// produced-count out-parameter model the caller's three pointers: any of
/// them absent is rejected, with the code returned and nothing else touched,
/// before the engine is consulted. On success the samples come back as raw
/// bit patterns — their audio values are the engine's business — with the
/// per-channel count, which is only meaningful on a zero code. An empty
/// packet asks the engine to conceal a lost frame.
pub fn decode(
    decoder: &mut Decoder,
    packet: Option<&Vec<u8>>,
    output_capacity: Option<u32>,
    produced_present: bool,
    error: &mut ErrorSlot,
) -> (r: (i32, Vec<u32>, usize))
    requires
        old(decoder).wf(),
    ensures
        final(decoder).wf(),
        final(decoder).channels == old(decoder).channels,
        (packet is None || output_capacity is None || !produced_present) ==> {
            &&& r.0 == INVALID_INPUT_CODE
            &&& slot_reports(*old(error), *final(error), INVALID_INPUT_CODE, "Invalid input"@)
            &&& r.1@.len() == 0
            &&& r.2 == 0
            &&& *final(decoder) == *old(decoder)
        },
        (packet is Some && output_capacity is Some && produced_present) ==> {
            &&& r.0 == 0 || r.0 == UNKNOWN_ERROR_CODE
            &&& r.0 == 0 ==> {
                &&& r.1@.len() == output_capacity->Some_0
                &&& r.2 <= output_capacity->Some_0
                &&& (r.2 as int) * (old(decoder).channels as int) <= output_capacity->Some_0 as int
                &&& *final(error) == *old(error)
            }
            &&& r.0 != 0 ==> {
                &&& r.1@.len() == 0
                &&& r.2 == 0
                &&& slot_reports_code(*old(error), *final(error), UNKNOWN_ERROR_CODE)
            }
        },
{
    if packet.is_none() || output_capacity.is_none() || !produced_present {
        let code = invalid_input(error);
        return (code, Vec::new(), 0);
    }
    let data = packet.unwrap();
    let capacity = output_capacity.unwrap() as usize;
    let channels = decoder.channels as usize;
    let frame_size = capacity / channels;
    match engine_decode(&mut decoder.session, data, frame_size, capacity) {
        Ok((samples, produced)) => {
            proof {
                lemma_frame_budget(capacity as int, channels as int, produced as int);
            }
            let code = ffi_exec(GuardOutcome::Completed, error);
            (code, samples, produced)
        },
        Err(message) => {
            let code = ffi_exec(GuardOutcome::Failed(message.to_owned()), error);
            (code, Vec::new(), 0)
        },
    }
}

/// A per-channel count that fits the per-channel budget `capacity / channels`
/// also fits the whole buffer once multiplied out.
proof fn lemma_frame_budget(capacity: int, channels: int, produced: int)
    requires
        1 <= channels,
        0 <= capacity,
        0 <= produced <= capacity / channels,
    ensures
        produced * channels <= capacity,
{
    assert(produced * channels <= (capacity / channels) * channels) by (nonlinear_arith)
        requires
            0 <= produced <= capacity / channels,
            1 <= channels,
    ;
    assert((capacity / channels) * channels <= capacity) by (nonlinear_arith)
        requires
            1 <= channels,
            0 <= capacity,
    ;
}

/// Releases a decoding session. `None` stands for the null handle and is a
/// safe no-op; a session passed in is consumed here, so it can be released
/// only this once.
pub fn free_decoder(decoder: Option<Decoder>) {
    match decoder {
        Some(_session) => {},
        None => {},
    }
}

} // verus!
