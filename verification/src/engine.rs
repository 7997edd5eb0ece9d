//! The engine facade: the transport state machine over the device, the FIFO,
//! the shared counters and the decoder worker's command inbox.
//!
//! The struct models what the facade decides: its `device_started` field
//! mirrors the audio device, which runs exactly while the state is
//! `PLAYING`.  The surrounding runtime performs the actual device start and
//! stop after each transition and runs the blocking waits (pre-roll polling,
//! waiting for the worker to observe a cancellation) that no verified
//! function may contain.

use crate::channel::send_cmd;
use crate::decoding_loop::Decoder;
use crate::enums::{PlayerError, PlayerState, ResamplingQuality, CMD};
use crate::fifo::AudioFifo;
use crate::singletons::{get_played, reset_played, set_decoder_eof, SharedCounters};
use vstd::arithmetic::div_mod::{
    lemma_div_is_ordered, lemma_div_is_ordered_by_denominator, lemma_div_multiples_vanish,
    lemma_div_pos_is_pos, lemma_fundamental_div_mod, lemma_mod_bound,
};
use vstd::arithmetic::mul::lemma_mul_inequality;
use vstd::prelude::*;

verus! {

/// Seconds of audio that must sit in the FIFO before the device starts,
/// and under which the audio callback raises `BufferLow`.
pub const LOW_WATER_SECONDS: u64 = 5;

/// Seconds of audio a refill aims to keep buffered.
pub const TARGET_SECONDS: u64 = 10;

pub struct AudioEngine {
    pub state: PlayerState,
    /// Mirror of the audio device: running exactly while `state` is `PLAYING`.
    pub device_started: bool,
    /// Negotiated device sample rate in frames per second.
    pub sample_rate: u32,
    /// Negotiated device channel count.
    pub channels: u32,
    /// Recipe handed to the rate resampler on each `Start`.
    pub resampling_quality: ResamplingQuality,
    /// Track duration in microseconds, once the decoder has published it.
    pub duration_us: Option<u64>,
    /// Track length in frames at device rate, once known.
    pub total_samples: Option<u64>,
    /// Sending half of the decoder worker's command inbox.
    pub tx: crossbeam_channel::Sender<CMD>,
}

/// Progress in microseconds for a number of played frames at a device rate.
pub open spec fn progress_micros(played: nat, rate: nat) -> nat
    recommends
        rate > 0,
{
    played * 1_000_000 / rate
}

impl AudioEngine {
    /// The facade's core invariant: the device runs iff the state is `PLAYING`.
    pub open spec fn wf(self) -> bool {
        self.device_started <==> self.state == PlayerState::PLAYING
    }

    /// `play` is legal in every state but `EMPTY` and `LOADING`.
    pub open spec fn play_permitted(self) -> bool {
        self.state != PlayerState::EMPTY && self.state != PlayerState::LOADING
    }

    /// Pre-roll: enough buffered audio to start without underrun, or nothing
    /// more will ever come.
    pub open spec fn preroll_met(self, fifo_frames: nat, eof: bool) -> bool {
        fifo_frames >= (LOW_WATER_SECONDS as int) * (self.sample_rate as int) || eof
    }

    /// The engine after a `pause`: stopped if it was playing, untouched
    /// otherwise.
    pub open spec fn paused(self) -> AudioEngine {
        if self.state == PlayerState::PLAYING {
            AudioEngine { state: PlayerState::PAUSED, device_started: false, ..self }
        } else {
            self
        }
    }

    /// The engine after a `play`: device running, state `PLAYING`.
    pub open spec fn playing(self) -> AudioEngine {
        AudioEngine { state: PlayerState::PLAYING, device_started: true, ..self }
    }

    /// The engine after a `clear` or a `load`: stopped and empty.
    pub open spec fn emptied(self) -> AudioEngine {
        AudioEngine { state: PlayerState::EMPTY, device_started: false, ..self }
    }

    /// A fresh facade around an idle device with the given negotiated format.
    pub fn new(
        sample_rate: u32,
        channels: u32,
        resampling_quality: ResamplingQuality,
        tx: crossbeam_channel::Sender<CMD>,
    ) -> (e: AudioEngine)
        ensures
            e.state == PlayerState::EMPTY,
            !e.device_started,
            e.sample_rate == sample_rate,
            e.channels == channels,
            e.resampling_quality == resampling_quality,
            e.duration_us == None::<u64>,
            e.total_samples == None::<u64>,
            e.wf(),
    {
        AudioEngine {
            state: PlayerState::EMPTY,
            device_started: false,
            sample_rate,
            channels,
            resampling_quality,
            duration_us: None,
            total_samples: None,
            tx,
        }
    }

    /// The stored track duration in microseconds, or `None` while unknown.
    pub fn get_duration(&self) -> (r: Option<u64>)
        ensures
            r == self.duration_us,
    {
        self.duration_us
    }

    /// Playback position in microseconds: played frames over the device
    /// rate.  Fails exactly when the device rate is zero.
    pub fn get_progress(&self, counters: &SharedCounters) -> (r: Result<u64, PlayerError>)
        requires
            counters.played * 1_000_000 <= u64::MAX,
        ensures
            self.sample_rate == 0 ==> r == Err::<u64, PlayerError>(PlayerError::Code(-1i32)),
            self.sample_rate > 0 ==> r == Ok::<u64, PlayerError>(
                progress_micros(counters.played as nat, self.sample_rate as nat) as u64,
            ),
    {
        if self.sample_rate == 0 {
            Err(PlayerError::Code(-1))
        } else {
            let played = get_played(counters);
            Ok(played * 1_000_000 / (self.sample_rate as u64))
        }
    }

    /// Whether the device may start: the FIFO holds the pre-roll amount or
    /// the decoder already hit end of file.  The transport loop polls this
    /// before `play`.
    pub fn preroll_complete(&self, fifo: &AudioFifo, counters: &SharedCounters) -> (r: bool)
        ensures
            r == self.preroll_met(fifo@.len(), counters.eof),
    {
        (fifo.size() as u64) >= LOW_WATER_SECONDS * (self.sample_rate as u64) || counters.eof
    }

    /// Start the device.  Callers wait for `preroll_complete` first (unless
    /// already playing); the runtime starts the real device whenever
    /// `device_started` goes up.  Idempotent while `PLAYING`.
    pub fn play(&mut self, fifo: &AudioFifo, counters: &SharedCounters) -> (r: Result<
        (),
        PlayerError,
    >)
        requires
            old(self).wf(),
            old(self).play_permitted(),
            old(self).state == PlayerState::PLAYING || old(self).preroll_met(
                fifo@.len(),
                counters.eof,
            ),
        ensures
            *final(self) == old(self).playing(),
            final(self).wf(),
            r == Ok::<(), PlayerError>(()),
    {
        if self.state != PlayerState::PLAYING {
            self.device_started = true;
            self.state = PlayerState::PLAYING;
        }
        Ok(())
    }

    /// Stop the device if playing; a no-op in every other state.
    pub fn pause(&mut self) -> (r: Result<(), PlayerError>)
        requires
            old(self).wf(),
        ensures
            *final(self) == old(self).paused(),
            final(self).wf(),
            r == Ok::<(), PlayerError>(()),
    {
        if self.state == PlayerState::PLAYING {
            self.device_started = false;
            self.state = PlayerState::PAUSED;
        }
        Ok(())
    }

    /// Stop if playing, forget the played count and the end-of-file flag,
    /// drain the FIFO (the device is stopped by then) and go `EMPTY`.
    pub fn clear(&mut self, fifo: &mut AudioFifo, counters: &mut SharedCounters) -> (r: Result<
        (),
        PlayerError,
    >)
        requires
            old(self).wf(),
            old(fifo).inv(),
        ensures
            *final(self) == old(self).emptied(),
            final(self).wf(),
            final(fifo)@ == Seq::<(i32, i32)>::empty(),
            final(fifo).cap() == old(fifo).cap(),
            final(fifo).inv(),
            *final(counters) == (SharedCounters { played: 0, eof: false, ..*old(counters) }),
            r == Ok::<(), PlayerError>(()),
    {
        let _ = self.pause();
        reset_played(counters);
        set_decoder_eof(counters, false);
        fifo.reset();
        self.state = PlayerState::EMPTY;
        Ok(())
    }

    /// Load a source: stop and reset everything as `clear` does, then hand
    /// `Start` to the decoder worker, which will publish the duration and
    /// move the state to `INITIALISED`.  Legal from any state.
    pub fn load(&mut self, path: &str, fifo: &mut AudioFifo, counters: &mut SharedCounters) -> (r:
        Result<(), PlayerError>)
        requires
            old(self).wf(),
            old(fifo).inv(),
        ensures
            *final(self) == old(self).emptied(),
            final(self).wf(),
            final(fifo)@ == Seq::<(i32, i32)>::empty(),
            final(fifo).cap() == old(fifo).cap(),
            final(fifo).inv(),
            *final(counters) == (SharedCounters { played: 0, eof: false, ..*old(counters) }),
            r == Ok::<(), PlayerError>(()),
    {
        let _ = self.clear(fifo, counters);
        let _ = send_cmd(&self.tx, CMD::Start(path.to_owned(), self.resampling_quality));
        Ok(())
    }

    /// First half of a seek: stop the device, raise the session's
    /// cancellation flag so the decode loop yields, and drain the FIFO.
    /// The runtime then repositions the demuxer and flushes the codec and
    /// resamplers before `seek_finish`.
    pub fn seek_begin(&mut self, decoder: &mut Decoder, fifo: &mut AudioFifo) -> (was_playing:
        bool)
        requires
            old(self).wf(),
            old(fifo).inv(),
            old(self).state == PlayerState::INITIALISED || old(self).state == PlayerState::PLAYING
                || old(self).state == PlayerState::PAUSED,
        ensures
            was_playing == (old(self).state == PlayerState::PLAYING),
            *final(self) == old(self).paused(),
            final(self).wf(),
            !final(self).device_started,
            *final(decoder) == (Decoder { cancel_requested: true, ..*old(decoder) }),
            final(fifo)@ == Seq::<(i32, i32)>::empty(),
            final(fifo).cap() == old(fifo).cap(),
            final(fifo).inv(),
    {
        let was_playing = self.state == PlayerState::PLAYING;
        let _ = self.pause();
        decoder.cancel_requested = true;
        fifo.reset();
        was_playing
    }

    /// Second half of a seek, once the demuxer sits at `target_us` and the
    /// codec and resamplers are flushed: drop the cancellation flag, account
    /// the position as already played, re-arm end-of-file and wake the
    /// decode loop with `Resume`.  Returns whether the caller should resume
    /// playback (it does so through the usual pre-roll wait and `play`).
    pub fn seek_finish(
        &mut self,
        decoder: &mut Decoder,
        counters: &mut SharedCounters,
        target_us: u64,
        was_playing: bool,
    ) -> (resume: bool)
        requires
            old(self).wf(),
            (target_us as int) * (old(self).sample_rate as int) / 1_000_000 <= u64::MAX as int,
        ensures
            *final(self) == *old(self),
            *final(decoder) == (Decoder { cancel_requested: false, ..*old(decoder) }),
            *final(counters) == (SharedCounters {
                played: ((target_us as int) * (old(self).sample_rate as int) / 1_000_000) as u64,
                eof: false,
                ..*old(counters)
            }),
            resume == was_playing,
    {
        decoder.cancel_requested = false;
        let played_u128 = (target_us as u128) * (self.sample_rate as u128) / 1_000_000;
        counters.played = played_u128 as u64;
        set_decoder_eof(counters, false);
        let _ = send_cmd(&self.tx, CMD::Resume);
        was_playing
    }
}

/// Progress never runs backwards: while the played counter only grows —
/// every operation but `clear`, `load` and `seek` only adds to it — the
/// position `get_progress` reports is non-decreasing.
pub proof fn lemma_progress_monotonic(played1: nat, played2: nat, rate: nat)
    requires
        played1 <= played2,
        1 <= rate,
    ensures
        progress_micros(played1, rate) <= progress_micros(played2, rate),
{
    lemma_mul_inequality(played1 as int, played2 as int, 1_000_000);
    lemma_div_is_ordered(played1 as int * 1_000_000, played2 as int * 1_000_000, rate as int);
}

/// Seek accuracy: `seek_finish(target_us)` sets the played counter so that
/// the next `get_progress` reads at most the target, and short of it by at
/// most one device frame period plus a microsecond of rounding — under a
/// tenth of a second on any device rate of at least 11 frames per second.
pub proof fn lemma_seek_then_progress(target_us: nat, rate: nat)
    requires
        1 <= rate,
    ensures
        ({
            let played = target_us * rate / 1_000_000;
            let prog = progress_micros(played, rate);
            &&& prog <= target_us
            &&& target_us - prog <= 1_000_000int / (rate as int) + 1
            &&& 11 <= rate ==> target_us - prog <= 100_000
        }),
{
    let m = 1_000_000int;
    let t = target_us as int;
    let r = rate as int;
    let tr = t * r;
    assert(t * r >= 0) by (nonlinear_arith)
        requires
            t >= 0,
            r >= 0,
    ;
    let p = tr / m;
    let rem = tr % m;
    lemma_fundamental_div_mod(tr, m);
    lemma_mod_bound(tr, m);
    lemma_div_pos_is_pos(tr, m);
    let prog = p * m / r;
    // Upper bound: p * m <= t * r, so prog <= (t * r) / r == t.
    lemma_div_is_ordered(p * m, tr, r);
    assert(t * r == r * t) by (nonlinear_arith);
    lemma_div_multiples_vanish(t, r);
    // Lower bound: with s = rem / r, we have tr - rem >= r * (t - s - 1),
    // so prog >= t - s - 1, and s <= (m - 1) / r.
    let s = rem / r;
    lemma_fundamental_div_mod(rem, r);
    lemma_mod_bound(rem, r);
    lemma_div_pos_is_pos(rem, r);
    assert(r * (t - s - 1) == r * t - r * s - r) by (nonlinear_arith);
    assert(p * m >= r * (t - s - 1)) by {
        assert(rem < r * s + r);
    }
    lemma_div_is_ordered(r * (t - s - 1), p * m, r);
    lemma_div_multiples_vanish(t - s - 1, r);
    assert(prog >= t - s - 1);
    lemma_div_is_ordered(rem, m - 1, r);
    lemma_div_is_ordered(m - 1, m, r);
    assert(t - prog <= m / r + 1);
    if 11 <= r {
        lemma_div_is_ordered_by_denominator(m, 11, r);
        assert(m / 11 == 90909);
    }
}

/// The facade's invariant, which every constructor and transition keeps:
/// the audio device is started exactly while the state is `PLAYING`.
pub proof fn lemma_device_iff_playing(e: AudioEngine)
    requires
        e.wf(),
    ensures
        e.device_started <==> e.state == PlayerState::PLAYING,
{
}

/// `pause` followed by `play`, with nothing in between, puts the engine
/// back into `PLAYING` with every other field intact; neither transition
/// touches the shared counters, so playback resumes at the very played
/// sample where it paused.
pub proof fn lemma_pause_play_resumes(e: AudioEngine)
    requires
        e.wf(),
    ensures
        ({
            let resumed = e.paused().playing();
            &&& resumed.state == PlayerState::PLAYING
            &&& resumed.device_started
            &&& resumed.wf()
            &&& resumed.sample_rate == e.sample_rate
            &&& resumed.channels == e.channels
            &&& resumed.resampling_quality == e.resampling_quality
            &&& resumed.duration_us == e.duration_us
            &&& resumed.total_samples == e.total_samples
            &&& e.state == PlayerState::PLAYING ==> resumed == e
        }),
{
}

/// `load` is legal from any state and leaves the engine stopped and empty;
/// once the decoder worker publishes the new track (`initialise_track`),
/// the engine satisfies `play`'s precondition — it is ready to play.
pub proof fn lemma_load_leaves_ready(
    e: AudioEngine,
    duration_us: Option<u64>,
    total: Option<u64>,
)
    requires
        e.wf(),
    ensures
        ({
            let after_load = e.emptied();
            let after_init = AudioEngine {
                state: PlayerState::INITIALISED,
                duration_us: duration_us,
                total_samples: total,
                ..after_load
            };
            &&& after_load.wf()
            &&& !after_load.device_started
            &&& after_init.wf()
            &&& after_init.play_permitted()
        }),
{
}

} // verus!
