//! Counters shared between the control thread, the decoder worker and the
//! audio callback: played samples, total samples, the decoder end-of-file
//! flag and the gain.  One `SharedCounters` block exists per engine; the
//! caller serializes access to it and hands it to each operation by
//! reference.

use vstd::prelude::*;

verus! {

/// Unit gain on the fixed-point scale used on the signal path: a gain of
/// `GAIN_UNIT` leaves samples unchanged, a gain of `0` silences them.
pub const GAIN_UNIT: u32 = 65536;

pub struct SharedCounters {
    /// Frames handed to the device since the last `clear` or `load`
    /// (set to the seek target on seek).
    pub played: u64,
    /// Total frames of the current track at device rate, when known.
    pub total: u64,
    /// True once the demuxer has exhausted the current source.
    pub eof: bool,
    /// Gain applied by the audio callback, in `[0, GAIN_UNIT]`.
    pub gain: u32,
}

impl SharedCounters {
    /// The gain never exceeds unity; `set_volume` clamps it.
    pub open spec fn wf(self) -> bool {
        self.gain <= GAIN_UNIT
    }

    /// Fresh counter block: nothing played, no track, unity gain.
    pub fn new() -> (c: SharedCounters)
        ensures
            c.played == 0,
            c.total == 0,
            !c.eof,
            c.gain == GAIN_UNIT,
            c.wf(),
    {
        SharedCounters { played: 0, total: 0, eof: false, gain: GAIN_UNIT }
    }
}

/// Forget everything played so far (used by `clear` and `load`).
pub fn reset_played(c: &mut SharedCounters)
    ensures
        *final(c) == (SharedCounters { played: 0, ..*old(c) }),
{
    c.played = 0;
}

/// Record that `samples` more frames were handed to the device.
pub fn add_played(c: &mut SharedCounters, samples: u64)
    requires
        old(c).played + samples <= u64::MAX,
    ensures
        *final(c) == (SharedCounters { played: (old(c).played + samples) as u64, ..*old(c) }),
{
    c.played = c.played + samples;
}

pub fn get_played(c: &SharedCounters) -> (r: u64)
    ensures
        r == c.played,
{
    c.played
}

/// Publish the track length in frames at device rate.
pub fn set_total(c: &mut SharedCounters, samples: u64)
    ensures
        *final(c) == (SharedCounters { total: samples, ..*old(c) }),
{
    c.total = samples;
}

pub fn get_total(c: &SharedCounters) -> (r: u64)
    ensures
        r == c.total,
{
    c.total
}

pub fn get_decoder_eof(c: &SharedCounters) -> (r: bool)
    ensures
        r == c.eof,
{
    c.eof
}

pub fn set_decoder_eof(c: &mut SharedCounters, flag: bool)
    ensures
        *final(c) == (SharedCounters { eof: flag, ..*old(c) }),
{
    c.eof = flag;
}

pub fn get_volume(c: &SharedCounters) -> (r: u32)
    ensures
        r == c.gain,
{
    c.gain
}

/// Set the gain, clamped to `[0, GAIN_UNIT]`.
pub fn set_volume(c: &mut SharedCounters, v: u32)
    ensures
        *final(c) == (SharedCounters {
            gain: if v <= GAIN_UNIT { v } else { GAIN_UNIT },
            ..*old(c)
        }),
        final(c).wf(),
{
    if v <= GAIN_UNIT {
        c.gain = v;
    } else {
        c.gain = GAIN_UNIT;
    }
}

} // verus!
