//! The codec engine's doorstep: the caller-facing configuration values, the
//! mapping from raw configuration integers onto them, and the trusted items
//! through which the engine is called. Everything the engine touches crosses
//! this module as a plain value.

use vstd::prelude::*;

verus! {

#[verifier::external_type_specification]
#[verifier::external_body]
pub struct ExOpusDecoder(opus_rs::OpusDecoder);

#[verifier::external_type_specification]
#[verifier::external_body]
pub struct ExOpusEncoder(opus_rs::OpusEncoder);

/// The encoder's optimization mode as the caller selects it. An unrecognized
/// raw value falls back to `Voip`, the low-latency voice default; falling
/// back is deliberate, never an error.
#[derive(Clone, Copy, Debug, PartialEq, Eq, Structural)]
pub enum Application {
    Voip,
    Audio,
    LowDelay,
}

/// The channel count a raw configuration value selects: stereo for 2, mono
/// for 1 and for every unrecognized value.
pub open spec fn spec_channel_count(raw: u32) -> u32 {
    if raw == 2 {
        2
    } else {
        1
    }
}

/// The mode a raw configuration value selects: 1 is voice, 2 is audio, 3 is
/// low delay, and every other value falls back to voice.
pub open spec fn spec_application(raw: u32) -> Application {
    if raw == 2 {
        Application::Audio
    } else if raw == 3 {
        Application::LowDelay
    } else {
        Application::Voip
    }
}

/// The sample rates the engine constructs sessions for.
pub open spec fn supported_sample_rate(rate: u32) -> bool {
    rate == 8000 || rate == 12000 || rate == 16000 || rate == 24000 || rate == 48000
}

/// Maps a caller-supplied channel count onto the engine's, defaulting every
/// unrecognized value to mono.
pub fn channel_count(raw: u32) -> (count: u32)
    ensures
        count == spec_channel_count(raw),
{
    if raw == 2 {
        2
    } else {
        1
    }
}

/// Maps a caller-supplied mode value onto the engine's, defaulting every
/// unrecognized value to voice.
pub fn application_mode(raw: u32) -> (mode: Application)
    ensures
        mode == spec_application(raw),
{
    if raw == 2 {
        Application::Audio
    } else if raw == 3 {
        Application::LowDelay
    } else {
        Application::Voip
    }
}

/// The message with which the engine turns a session request down: the
/// sample rate is inspected first, the channel count second.
pub open spec fn spec_rejection(sample_rate: u32) -> Seq<char> {
    if supported_sample_rate(sample_rate) {
        "Invalid number of channels"@
    } else {
        "Invalid sampling rate"@
    }
}

/// Relies on opus_rs::OpusDecoder::new: it validates the sample rate and the
/// channel count first, in that order, naming the offender in its message,
/// and past those two checks it always returns a session.
#[verifier::external_body]
pub(crate) fn engine_new_decoder(sample_rate: u32, channels: u32) -> (r: Result<opus_rs::OpusDecoder, &'static str>)
    ensures
        (r is Ok) == (supported_sample_rate(sample_rate) && (channels == 1 || channels == 2)),
        r matches Err(m) ==> m@ == spec_rejection(sample_rate),
{
    opus_rs::OpusDecoder::new(sample_rate as i32, channels as usize)
}

/// Relies on opus_rs::OpusEncoder::new: the same two validations as the
/// decoder's, in the same order, and past them it always returns a session
/// (its internal voice-codec initialization cannot fail).
#[verifier::external_body]
pub(crate) fn engine_new_encoder(sample_rate: u32, channels: u32, mode: Application) -> (r: Result<opus_rs::OpusEncoder, &'static str>)
    ensures
        (r is Ok) == (supported_sample_rate(sample_rate) && (channels == 1 || channels == 2)),
        r matches Err(m) ==> m@ == spec_rejection(sample_rate),
{
    let application = match mode {
        Application::Voip => opus_rs::Application::Voip,
        Application::Audio => opus_rs::Application::Audio,
        Application::LowDelay => opus_rs::Application::RestrictedLowDelay,
    };
    opus_rs::OpusEncoder::new(sample_rate as i32, channels as usize, application)
}

/// Relies on opus_rs::OpusDecoder::decode: on success it reports how many
/// samples per channel it produced, at most `frame_size` and at most the
/// buffer's room, and fills the buffer with that many interleaved samples per
/// channel. The samples are handed on as their raw bit patterns; their
/// audio values are the engine's business alone.
#[verifier::external_body]
pub(crate) fn engine_decode(
    decoder: &mut opus_rs::OpusDecoder,
    packet: &Vec<u8>,
    frame_size: usize,
    capacity: usize,
) -> (r: Result<(Vec<u32>, usize), &'static str>)
    ensures
        r matches Ok((samples, produced)) ==> {
            &&& samples@.len() == capacity
            &&& produced <= frame_size
            &&& produced <= capacity
        },
{
    let mut buffer = vec![Default::default(); capacity];
    match decoder.decode(packet.as_slice(), frame_size, &mut buffer) {
        Ok(produced) => Ok((buffer.into_iter().map(|sample| sample.to_bits()).collect(), produced)),
        Err(message) => Err(message),
    }
}

/// Relies on opus_rs::OpusEncoder::encode_i16: on success it reports how many
/// packet bytes it wrote into the buffer, never more than the buffer holds,
/// and it never resizes the buffer.
#[verifier::external_body]
pub(crate) fn engine_encode_i16(
    encoder: &mut opus_rs::OpusEncoder,
    samples: &Vec<i16>,
    frame_size: usize,
    output: &mut Vec<u8>,
) -> (r: Result<usize, &'static str>)
    ensures
        final(output)@.len() == old(output)@.len(),
        r matches Ok(written) ==> written <= old(output)@.len(),
{
    encoder.encode_i16(samples.as_slice(), frame_size, output.as_mut_slice())
}

} // verus!
