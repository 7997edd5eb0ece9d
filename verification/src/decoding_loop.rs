//! The decoder worker's decisions: track initialisation, resampler priming,
//! the per-packet step of the decode loop, and the refill policy.
//!
//! The demuxer, codec and resampler do their work outside the library and
//! hand this module plain values: a packet's stream index together with the
//! device-rate stereo frames decoded from it.

use crate::engine::{AudioEngine, LOW_WATER_SECONDS, TARGET_SECONDS};
use crate::enums::PlayerState;
use crate::fifo::AudioFifo;
use crate::singletons::{get_decoder_eof, set_total, SharedCounters};
use vstd::prelude::*;

verus! {

/// The decoder session: what the verified decode step reads of the state
/// owned by the decoder worker.  The open demuxer, codec and resampler
/// handles live beside it, outside the library.
pub struct Decoder {
    /// Index of the selected audio stream; packets of other streams are dropped.
    pub audio_stream_index: usize,
    /// Sample rate of the source, before rate conversion.
    pub source_rate: u32,
    /// Set by `seek` to preempt the decode loop without discarding the
    /// demuxer position; checked at the top of each packet iteration.
    pub cancel_requested: bool,
    /// True once a source has been opened for this session.
    pub session_open: bool,
}

/// What the decode loop did with one packet.
#[derive(Clone, Copy, Debug, PartialEq, Eq, Structural)]
pub enum PacketOutcome {
    /// The cancellation flag was set: the loop must return, keeping the
    /// demuxer context.
    Interrupted,
    /// The packet belongs to another stream and was dropped.
    Skipped,
    /// This many frames entered the FIFO; the rest were tolerated as a
    /// short write.
    Written(usize),
}

/// Publish a freshly opened track: bind the session to its audio stream,
/// clear the cancellation flag, publish duration and total frame count, and
/// move the engine to `INITIALISED`.
pub fn initialise_track(
    engine: &mut AudioEngine,
    counters: &mut SharedCounters,
    decoder: &mut Decoder,
    stream_index: usize,
    source_rate: u32,
    duration_us: Option<u64>,
) -> (total: Option<u64>)
    requires
        old(engine).wf(),
        !old(engine).device_started,
        duration_us matches Some(d) ==> (d as int) * (old(engine).sample_rate as int) / 1_000_000
            <= u64::MAX as int,
    ensures
        *final(decoder) == (Decoder {
            audio_stream_index: stream_index,
            source_rate: source_rate,
            cancel_requested: false,
            session_open: true,
        }),
        total == (match duration_us {
            Some(d) => Some(
                (((d as int) * (old(engine).sample_rate as int) / 1_000_000)) as u64,
            ),
            None => None::<u64>,
        }),
        *final(engine) == (AudioEngine {
            state: PlayerState::INITIALISED,
            duration_us: duration_us,
            total_samples: total,
            ..*old(engine)
        }),
        final(engine).wf(),
        *final(counters) == (SharedCounters {
            total: (match total {
                Some(t) => t,
                None => old(counters).total,
            }),
            ..*old(counters)
        }),
{
    decoder.audio_stream_index = stream_index;
    decoder.source_rate = source_rate;
    decoder.cancel_requested = false;
    decoder.session_open = true;
    engine.duration_us = duration_us;
    let total: Option<u64> = match duration_us {
        Some(d) => {
            let t = ((d as u128) * (engine.sample_rate as u128) / 1_000_000) as u64;
            set_total(counters, t);
            Some(t)
        },
        None => None,
    };
    engine.total_samples = total;
    engine.state = PlayerState::INITIALISED;
    total
}

/// One second of silence at the source rate, pushed through the rate
/// resampler (and its output discarded) before real audio, so that the
/// polyphase filter starts with a full history and no transient artifacts.
pub fn priming_frames(source_rate: u32) -> (v: Vec<(i32, i32)>)
    ensures
        v@.len() == source_rate,
        forall|i: int| 0 <= i < v@.len() ==> v@[i] == (0i32, 0i32),
{
    let n = source_rate as usize;
    let mut v: Vec<(i32, i32)> = Vec::new();
    while v.len() < n
        invariant
            v@.len() <= n,
            forall|i: int| 0 <= i < v@.len() ==> v@[i] == (0i32, 0i32),
        decreases n - v@.len(),
    {
        v.push((0i32, 0i32));
    }
    v
}

/// One iteration of the decode loop, for one packet already decoded and
/// resampled to device-rate frames: honour the cancellation flag, drop
/// packets of other streams, and otherwise append the frames to the FIFO,
/// tolerating a short write without blocking.
pub fn process_packet(
    decoder: &Decoder,
    fifo: &mut AudioFifo,
    packet_stream_index: usize,
    frames: &Vec<(i32, i32)>,
) -> (r: PacketOutcome)
    requires
        old(fifo).inv(),
    ensures
        final(fifo).inv(),
        final(fifo).cap() == old(fifo).cap(),
        decoder.cancel_requested ==> r == PacketOutcome::Interrupted && final(fifo)@ == old(
            fifo,
        )@,
        !decoder.cancel_requested && packet_stream_index != decoder.audio_stream_index ==> r
            == PacketOutcome::Skipped && final(fifo)@ == old(fifo)@,
        !decoder.cancel_requested && packet_stream_index == decoder.audio_stream_index ==> (
        r matches PacketOutcome::Written(written) && written == vstd::math::min(
            frames@.len() as int,
            old(fifo).cap() as int - old(fifo)@.len() as int,
        ) && final(fifo)@ == old(fifo)@ + frames@.take(written as int)),
{
    if decoder.cancel_requested {
        PacketOutcome::Interrupted
    } else if packet_stream_index != decoder.audio_stream_index {
        PacketOutcome::Skipped
    } else {
        let written = fifo.write(frames);
        PacketOutcome::Written(written)
    }
}

/// The refill policy: a `FillBuffer` command acts only while the source is
/// not exhausted and the FIFO sits under the low-water mark.
pub fn should_fill(fifo: &AudioFifo, counters: &SharedCounters, device_rate: u32) -> (r: bool)
    ensures
        r == (!counters.eof && (fifo@.len() as int) < (LOW_WATER_SECONDS as int) * (
        device_rate as int)),
{
    !get_decoder_eof(counters) && (fifo.size() as u64) < LOW_WATER_SECONDS * (device_rate as u64)
}

/// When a refill may stop: the source ran out, or the FIFO reached its
/// target level.
pub fn fill_complete(fifo: &AudioFifo, counters: &SharedCounters, device_rate: u32) -> (r: bool)
    ensures
        r == (counters.eof || (fifo@.len() as int) >= (TARGET_SECONDS as int) * (
        device_rate as int)),
{
    get_decoder_eof(counters) || (fifo.size() as u64) >= TARGET_SECONDS * (device_rate as u64)
}

} // verus!
