//! The callback interfaces that embedders implement.

use crate::enums::EngineSignal;
use vstd::prelude::*;

verus! {

/// The engine's event callback.  The listener invokes it after releasing
/// the engine lock, so an implementation may re-enter the engine — to load
/// and play the next track of a gapless queue, for instance.
pub trait PlayerCallback: Send + Sync {
    fn on_player_event(&self, event: EngineSignal);
}

/// The callback surface handed to the UI layer's bindings; adapters forward
/// its events from `PlayerCallback` without exposing the engine handle.
pub trait FlutterPlayerCallback: Send + Sync {
    fn on_player_event(&self, event: EngineSignal);
}

} // verus!
