//! The audio callback's arithmetic: drain the FIFO into the device buffer,
//! apply the gain, zero-fill what cannot be served, and decide which signals
//! to raise.  The device's pull loop hands the surrounding runtime a buffer
//! of `frame_count` frames; the runtime takes a non-blocking lock on the
//! FIFO and calls `render` — on contention it zero-fills by itself, since
//! this path must never block.

use crate::channel::try_send_signal;
use crate::engine::LOW_WATER_SECONDS;
use crate::enums::EngineSignal;
use crate::fifo::AudioFifo;
use crate::singletons::{add_played, get_decoder_eof, get_volume, SharedCounters, GAIN_UNIT};
use vstd::arithmetic::div_mod::{
    lemma_div_is_ordered, lemma_div_multiples_vanish, lemma_div_pos_is_pos,
};
use vstd::arithmetic::mul::lemma_mul_inequality;
use vstd::prelude::*;

verus! {

/// Gain applied to one sample on the fixed-point scale, rounding toward
/// zero: unit gain is exact and zero gain is exact silence.
pub open spec fn scale_sample(s: int, gain: int) -> int
    recommends
        0 <= gain <= GAIN_UNIT,
{
    if s >= 0 {
        s * gain / (GAIN_UNIT as int)
    } else {
        -((-s) * gain / (GAIN_UNIT as int))
    }
}

/// Unit gain is a no-op on the signal path.
pub proof fn lemma_gain_identity(s: int)
    ensures
        scale_sample(s, GAIN_UNIT as int) == s,
{
    let u = GAIN_UNIT as int;
    if s >= 0 {
        assert(s * u == u * s) by (nonlinear_arith);
        lemma_div_multiples_vanish(s, u);
    } else {
        assert((-s) * u == u * (-s)) by (nonlinear_arith);
        lemma_div_multiples_vanish(-s, u);
    }
}

/// Zero gain produces pure silence.
pub proof fn lemma_gain_silence(s: int)
    ensures
        scale_sample(s, 0) == 0,
{
    let u = GAIN_UNIT as int;
    if s >= 0 {
        assert(s * 0 == u * 0) by (nonlinear_arith);
        lemma_div_multiples_vanish(0, u);
    } else {
        assert((-s) * 0 == u * 0) by (nonlinear_arith);
        lemma_div_multiples_vanish(0, u);
    }
}

/// A gain in `[0, GAIN_UNIT]` never grows a sample's magnitude, so the
/// scaled sample stays in the 32-bit signed range.
pub proof fn lemma_scale_bounds(s: int, gain: int)
    requires
        0 <= gain <= GAIN_UNIT,
    ensures
        s >= 0 ==> 0 <= scale_sample(s, gain) <= s,
        s < 0 ==> s <= scale_sample(s, gain) <= 0,
{
    let u = GAIN_UNIT as int;
    if s >= 0 {
        lemma_mul_inequality(gain, u, s);
        assert(gain * s == s * gain && u * s == s * u) by (nonlinear_arith);
        lemma_div_is_ordered(s * gain, s * u, u);
        lemma_div_multiples_vanish(s, u);
        assert(s * u == u * s) by (nonlinear_arith);
        assert(s * gain >= 0) by (nonlinear_arith)
            requires
                s >= 0,
                gain >= 0,
        ;
        lemma_div_pos_is_pos(s * gain, u);
    } else {
        let m = -s;
        lemma_mul_inequality(gain, u, m);
        assert(gain * m == m * gain && u * m == m * u) by (nonlinear_arith);
        lemma_div_is_ordered(m * gain, m * u, u);
        lemma_div_multiples_vanish(m, u);
        assert(m * u == u * m) by (nonlinear_arith);
        assert(m * gain >= 0) by (nonlinear_arith)
            requires
                m >= 0,
                gain >= 0,
        ;
        lemma_div_pos_is_pos(m * gain, u);
    }
}

/// Apply the gain to one sample, saturating arithmetic made exact: with the
/// gain clamped to `[0, GAIN_UNIT]` the result always fits.
pub fn scale(s: i32, gain: u32) -> (r: i32)
    requires
        gain <= GAIN_UNIT,
    ensures
        r as int == scale_sample(s as int, gain as int),
{
    proof {
        lemma_scale_bounds(s as int, gain as int);
    }
    if s >= 0 {
        let p = (s as u64) * (gain as u64);
        proof {
            assert((s as u64) as int * ((gain as u64) as int) <= 0x7fff_ffff * 0x10000int)
                by (nonlinear_arith)
                requires
                    0 <= (s as u64) as int <= 0x7fff_ffff,
                    0 <= (gain as u64) as int <= 0x10000,
            ;
        }
        (p / (GAIN_UNIT as u64)) as i32
    } else {
        let m = (-(s as i64)) as u64;
        proof {
            assert(m as int * ((gain as u64) as int) <= 0x8000_0000 * 0x10000int)
                by (nonlinear_arith)
                requires
                    0 <= m as int <= 0x8000_0000,
                    0 <= (gain as u64) as int <= 0x10000,
            ;
        }
        let d = (m * (gain as u64)) / (GAIN_UNIT as u64);
        (-(d as i64)) as i32
    }
}

/// True when the request cannot be served and the producer is still
/// running: the callback then keeps silence rather than stuttering.
pub open spec fn underrun(avail: nat, requested: nat, eof: bool) -> bool {
    avail < requested && !eof
}

/// The end-of-media edge: the decoder is done and the FIFO handed over less
/// than the end threshold (one hundredth of a second of audio).
pub open spec fn media_end_due(eof: bool, taken: nat, rate: nat) -> bool {
    eof && taken < rate / 100
}

/// Backpressure: the producer still runs and the FIFO sits under the
/// low-water mark.
pub open spec fn buffer_low_due(eof: bool, avail: nat, rate: nat) -> bool {
    !eof && avail < (LOW_WATER_SECONDS as nat) * rate
}

/// `MediaEnd` needs the end-of-file flag: once the listener clears the flag
/// while handling a track's `MediaEnd`, no later callback raises it again
/// until the decoder exhausts the next track — at most one per track.
pub proof fn lemma_media_end_armed_once(taken: nat, rate: nat)
    ensures
        !media_end_due(false, taken, rate),
{
}

/// With device requests of at least the end threshold, `MediaEnd` is raised
/// only once the FIFO has drained below that threshold.
pub proof fn lemma_media_end_after_drain(eof: bool, avail: nat, requested: nat, rate: nat)
    requires
        requested >= rate / 100,
        media_end_due(
            eof,
            vstd::math::min(avail as int, requested as int) as nat,
            rate,
        ),
    ensures
        avail < rate / 100,
{
}

/// What one callback invocation did, beside filling the buffer.
#[derive(Clone, Copy, Debug, PartialEq, Eq, Structural)]
pub struct RenderOutcome {
    /// Frames actually taken from the FIFO.
    pub frames_read: usize,
    /// A `MediaEnd` signal went out.
    pub media_end: bool,
    /// A `BufferLow` signal went out.
    pub buffer_low: bool,
}

fn zero_frames(n: usize) -> (v: Vec<(i32, i32)>)
    ensures
        v@.len() == n,
        forall|i: int| 0 <= i < v@.len() ==> v@[i] == (0i32, 0i32),
{
    let mut v: Vec<(i32, i32)> = Vec::new();
    while v.len() < n
        invariant
            v@.len() <= n,
            forall|i: int| 0 <= i < v@.len() ==> v@[i] == (0i32, 0i32),
        decreases n - v@.len(),
    {
        v.push((0i32, 0i32));
    }
    v
}

/// One pull of the device: serve `frame_count` frames.
///
/// While the producer is behind and still running, the whole buffer is
/// silence and nothing else changes (pre-roll underrun).  Otherwise the
/// available frames come out of the FIFO with the gain applied, the played
/// counter advances by exactly that many, the tail is silence, and the two
/// signals go out — best-effort, never blocking — exactly when their
/// conditions hold.
pub fn render(
    fifo: &mut AudioFifo,
    counters: &mut SharedCounters,
    device_rate: u32,
    frame_count: usize,
    signals: &crossbeam_channel::Sender<EngineSignal>,
) -> (r: (Vec<(i32, i32)>, RenderOutcome))
    requires
        old(fifo).inv(),
        old(counters).wf(),
        old(counters).played + frame_count <= u64::MAX,
    ensures
        final(fifo).inv(),
        final(fifo).cap() == old(fifo).cap(),
        final(counters).wf(),
        r.0@.len() == frame_count,
        underrun(old(fifo)@.len(), frame_count as nat, old(counters).eof) ==> final(fifo)@
            == old(fifo)@ && *final(counters) == *old(counters) && (forall|i: int|
            0 <= i < frame_count ==> r.0@[i] == (0i32, 0i32)) && r.1 == (RenderOutcome {
            frames_read: 0,
            media_end: false,
            buffer_low: false,
        }),
        !underrun(old(fifo)@.len(), frame_count as nat, old(counters).eof) ==> ({
            let k = vstd::math::min(old(fifo)@.len() as int, frame_count as int);
            &&& r.1.frames_read == k
            &&& final(fifo)@ == old(fifo)@.skip(k)
            &&& *final(counters) == (SharedCounters {
                played: (old(counters).played + k) as u64,
                ..*old(counters)
            })
            &&& forall|i: int|
                0 <= i < k ==> r.0@[i].0 as int == scale_sample(
                    old(fifo)@[i].0 as int,
                    old(counters).gain as int,
                ) && r.0@[i].1 as int == scale_sample(
                    old(fifo)@[i].1 as int,
                    old(counters).gain as int,
                )
            &&& forall|i: int| k <= i < frame_count ==> r.0@[i] == (0i32, 0i32)
            &&& r.1.media_end == media_end_due(old(counters).eof, k as nat, device_rate as nat)
            &&& r.1.buffer_low == buffer_low_due(
                old(counters).eof,
                old(fifo)@.len(),
                device_rate as nat,
            )
        }),
{
    let avail = fifo.size();
    let eof = get_decoder_eof(counters);
    if avail < frame_count && !eof {
        let out = zero_frames(frame_count);
        return (
            out,
            RenderOutcome { frames_read: 0, media_end: false, buffer_low: false },
        );
    }
    let k = if avail < frame_count {
        avail
    } else {
        frame_count
    };
    let gain = get_volume(counters);
    let mut out = fifo.read(k);
    let ghost taken = out@;
    add_played(counters, k as u64);
    if gain != GAIN_UNIT {
        let mut j: usize = 0;
        while j < out.len()
            invariant
                j <= out@.len(),
                out@.len() == taken.len(),
                gain <= GAIN_UNIT,
                forall|i: int|
                    0 <= i < j ==> out@[i].0 as int == scale_sample(taken[i].0 as int, gain as int)
                        && out@[i].1 as int == scale_sample(taken[i].1 as int, gain as int),
                forall|i: int| j <= i < out@.len() ==> out@[i] == taken[i],
            decreases out@.len() - j,
        {
            let f = out[j];
            let left = scale(f.0, gain);
            let right = scale(f.1, gain);
            out.set(j, (left, right));
            j = j + 1;
        }
    } else {
        proof {
            assert forall|i: int| 0 <= i < out@.len() implies out@[i].0 as int == scale_sample(
                taken[i].0 as int,
                gain as int,
            ) && out@[i].1 as int == scale_sample(taken[i].1 as int, gain as int) by {
                lemma_gain_identity(taken[i].0 as int);
                lemma_gain_identity(taken[i].1 as int);
            }
        }
    }
    proof {
        assert forall|i: int| 0 <= i < out@.len() implies out@[i].0 as int == scale_sample(
            old(fifo)@[i].0 as int,
            gain as int,
        ) && out@[i].1 as int == scale_sample(old(fifo)@[i].1 as int, gain as int) by {
            assert(taken[i] == old(fifo)@[i]);
        }
    }
    let ghost scaled = out@;
    while out.len() < frame_count
        invariant
            scaled.len() <= out@.len() <= frame_count,
            gain == old(counters).gain,
            scaled.len() == vstd::math::min(old(fifo)@.len() as int, frame_count as int),
            forall|i: int|
                0 <= i < scaled.len() ==> out@[i].0 as int == scale_sample(
                    old(fifo)@[i].0 as int,
                    gain as int,
                ) && out@[i].1 as int == scale_sample(old(fifo)@[i].1 as int, gain as int),
            forall|i: int| scaled.len() <= i < out@.len() ==> out@[i] == (0i32, 0i32),
        decreases frame_count - out@.len(),
    {
        out.push((0i32, 0i32));
    }
    let media_end = eof && (k as u64) < (device_rate as u64) / 100;
    let buffer_low = !eof && (avail as u64) < LOW_WATER_SECONDS * (device_rate as u64);
    if media_end {
        let _ = try_send_signal(signals, EngineSignal::MediaEnd);
    }
    if buffer_low {
        let _ = try_send_signal(signals, EngineSignal::BufferLow);
    }
    (out, RenderOutcome { frames_read: k, media_end, buffer_low })
}

} // verus!
