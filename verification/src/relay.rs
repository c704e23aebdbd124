//! The relay policy: once both streams of a connection are open, bytes are
//! copied in both directions without inspection or framing, and the first
//! terminal condition on either direction shuts the whole relay down.

use vstd::prelude::*;

verus! {

/// What one relay direction observed on its stream.
#[derive(Debug, PartialEq, Eq)]
pub enum RelayEvent {
    /// Bytes arrived.
    Data { bytes: Vec<u8> },
    /// The stream reached end-of-stream or failed.
    Closed,
}

/// What the relay does in response.
#[derive(Debug, PartialEq, Eq)]
pub enum RelayAction {
    /// Write exactly these bytes to the opposite stream.
    Forward { bytes: Vec<u8> },
    /// Shut both sides down: the relay is over.
    ShutdownBoth,
}

/// The relay's decision on one event: data passes through unmodified, and a
/// closed stream ends the relay for both sides.
pub fn relay_step(event: RelayEvent) -> (a: RelayAction)
    ensures
        match event {
            RelayEvent::Data { bytes } => a matches RelayAction::Forward { bytes: f } && f@
                == bytes@,
            RelayEvent::Closed => a is ShutdownBoth,
        },
{
    match event {
        RelayEvent::Data { bytes } => RelayAction::Forward { bytes },
        RelayEvent::Closed => RelayAction::ShutdownBoth,
    }
}

} // verus!
