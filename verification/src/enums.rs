//! State, command, signal and error types shared by the whole engine.

use vstd::prelude::*;

verus! {

/// Lifecycle states of the engine facade.  `LOADED` is informational only;
/// the transport logic never produces it.
#[derive(Clone, Copy, Debug, PartialEq, Eq, Structural)]
pub enum PlayerState {
    LOADING,
    LOADED,
    PLAYING,
    PAUSED,
    EMPTY,
    INITIALISED,
}

/// Out-of-band signals raised by the audio callback and consumed in order by
/// the event listener.
#[derive(Clone, Copy, Debug, PartialEq, Eq, Structural)]
pub enum EngineSignal {
    /// The decoder reached end of file and the FIFO has (nearly) drained.
    MediaEnd,
    /// The FIFO fell under the low-water mark while the decoder still has input.
    BufferLow,
}

/// Quality recipe for the rate resampler, from cheapest to best.
#[derive(Clone, Copy, Debug, PartialEq, Eq, Structural)]
pub enum ResamplingQuality {
    Quick,
    Low,
    Medium,
    High,
    VeryHigh,
}

/// Commands consumed in order by the decoder worker.
pub enum CMD {
    /// Open a new source and begin decoding it with the given quality.
    Start(String, ResamplingQuality),
    /// Re-enter the decode loop on the already open source (used after seek).
    Resume,
    /// Top the FIFO up to its target level if the source is not exhausted.
    FillBuffer,
}

impl PartialEq for CMD {
    fn eq(&self, other: &Self) -> (r: bool) {
        match (self, other) {
            (CMD::Start(a_url, a_quality), CMD::Start(b_url, b_quality)) => {
                *a_url == *b_url && *a_quality == *b_quality
            },
            (CMD::Resume, CMD::Resume) => true,
            (CMD::FillBuffer, CMD::FillBuffer) => true,
            _ => false,
        }
    }
}

impl vstd::std_specs::cmp::PartialEqSpecImpl for CMD {
    open spec fn obeys_eq_spec() -> bool {
        true
    }

    open spec fn eq_spec(&self, other: &Self) -> bool {
        match (self, other) {
            (CMD::Start(a_url, a_quality), CMD::Start(b_url, b_quality)) => {
                a_url@ == b_url@ && a_quality == b_quality
            },
            (CMD::Resume, CMD::Resume) => true,
            (CMD::FillBuffer, CMD::FillBuffer) => true,
            _ => false,
        }
    }
}

/// Errors surfaced to callers as one opaque numeric code.
#[derive(Clone, Copy, Debug, PartialEq, Eq, Structural)]
pub enum PlayerError {
    Code(i32),
}

} // verus!
