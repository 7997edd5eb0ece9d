//! The event listener's decisions.  A long-lived task dequeues the signals
//! the audio callback raised, in order, and calls `handle_signal` under the
//! engine lock; it holds only a weak reference to the engine, so dropping
//! the engine ends the task on its next iteration.

use crate::channel::send_cmd;
use crate::engine::AudioEngine;
use crate::enums::{EngineSignal, CMD};
use crate::fifo::AudioFifo;
use crate::singletons::{get_decoder_eof, set_decoder_eof, SharedCounters};
use vstd::prelude::*;

verus! {

/// What the listener asks of its surrounding loop after one signal.
#[derive(Clone, Copy, Debug, PartialEq, Eq, Structural)]
pub enum ListenerAction {
    /// Release the engine lock, then invoke the user callback with
    /// `MediaEnd`; the callback may re-enter the engine.
    InvokeCallback,
    /// A `FillBuffer` command went to the decoder worker.
    RequestedFill,
    /// Nothing to do.
    Ignored,
}

/// Handle one signal, in arrival order.
///
/// `MediaEnd` re-arms the end-of-file edge for the next track, stops the
/// device, drains the FIFO, empties the engine, and asks the caller to run
/// the user callback — after releasing the engine lock, so the callback may
/// load the next track.  `BufferLow` forwards a refill request while the
/// current track is not exhausted and otherwise does nothing.
pub fn handle_signal(
    engine: &mut AudioEngine,
    fifo: &mut AudioFifo,
    counters: &mut SharedCounters,
    signal: EngineSignal,
) -> (r: ListenerAction)
    requires
        old(engine).wf(),
        old(fifo).inv(),
    ensures
        final(engine).wf(),
        final(fifo).inv(),
        final(fifo).cap() == old(fifo).cap(),
        signal == EngineSignal::MediaEnd ==> r == ListenerAction::InvokeCallback
            && *final(engine) == old(engine).emptied()
            && final(fifo)@ == Seq::<(i32, i32)>::empty()
            && *final(counters) == (SharedCounters { played: 0, eof: false, ..*old(counters) }),
        signal == EngineSignal::BufferLow ==> *final(engine) == *old(engine)
            && final(fifo)@ == old(fifo)@
            && *final(counters) == *old(counters) && r == (if old(counters).eof {
            ListenerAction::Ignored
        } else {
            ListenerAction::RequestedFill
        }),
{
    match signal {
        EngineSignal::MediaEnd => {
            set_decoder_eof(counters, false);
            let _ = engine.pause();
            let _ = engine.clear(fifo, counters);
            ListenerAction::InvokeCallback
        },
        EngineSignal::BufferLow => {
            if !get_decoder_eof(counters) {
                let _ = send_cmd(&engine.tx, CMD::FillBuffer);
                ListenerAction::RequestedFill
            } else {
                ListenerAction::Ignored
            }
        },
    }
}

} // verus!
