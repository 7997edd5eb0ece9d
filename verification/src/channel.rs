//! Trusted boundary to the channels that link the engine's threads: the
//! command inbox of the decoder worker and the signal outbox of the audio
//! callback.  Only the sending halves are touched from verified code; the
//! receiving loops live with the thread plumbing outside the library.

use crate::enums::{CMD, EngineSignal};
use vstd::prelude::*;

verus! {

/// crossbeam_channel's sending half, declared so that it can stand in fields
/// and signatures.  Verus sees nothing inside a value of it.
#[verifier::external_type_specification]
#[verifier::external_body]
#[verifier::reject_recursive_types(T)]
pub struct ExSender<T>(crossbeam_channel::Sender<T>);

/// Relies on crossbeam_channel::Sender::try_send: it never blocks, delivers
/// the command in channel order when it returns Ok, and on the engine's
/// unbounded command channel fails only when every receiver is gone.
/// Nothing can be promised about the result: whether a receiver still exists
/// is outside state.
#[verifier::external_body]
pub(crate) fn send_cmd(tx: &crossbeam_channel::Sender<CMD>, cmd: CMD) -> (accepted: bool) {
    crossbeam_channel::Sender::try_send(tx, cmd).is_ok()
}

/// Relies on crossbeam_channel::Sender::try_send: a best-effort, non-blocking
/// handoff of a signal to the listener, as the real-time callback requires;
/// the result says whether the channel took it, which depends on outside
/// state alone.
#[verifier::external_body]
pub(crate) fn try_send_signal(
    tx: &crossbeam_channel::Sender<EngineSignal>,
    signal: EngineSignal,
) -> (accepted: bool) {
    crossbeam_channel::Sender::try_send(tx, signal).is_ok()
}

} // verus!
