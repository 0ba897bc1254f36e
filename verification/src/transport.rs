//! The decisions of the reconnecting transport: what follows from a read or
//! a write on the link, and who reconnects when many notice a failure at
//! once.

use vstd::prelude::*;
use crate::error::CoreError;
use crate::frames::{MavHeader, MavMessage};

verus! {

/// How a read from the link ended.
#[derive(Debug, Clone, Copy, PartialEq, Eq)]
pub enum RecvOutcome {
    /// A valid frame arrived.
    Frame((MavHeader, MavMessage)),
    /// The bytes that arrived are no valid frame.
    Parse,
    /// The link failed.
    Io,
    /// Nothing arrived in time.
    TimedOut,
}

/// What the transport does after a read or a write.
#[derive(Debug, Clone, Copy, PartialEq, Eq)]
pub enum LinkAction {
    /// Hand the frame to the caller.
    Deliver((MavHeader, MavMessage)),
    /// Go on with the next read or write on the same link.
    Continue,
    /// Establish the link anew, then try again.
    Reconnect,
}

/// What went wrong with a consumer's place on the bus.
#[derive(Debug, Clone, Copy, PartialEq, Eq, Structural)]
pub enum BusError {
    /// The consumer fell behind and this many messages were dropped for it.
    Lagged(u64),
    /// The bus is gone.
    Closed,
}

/// The coordinator of reconnections: of all who notice a failure while a
/// reconnection is under way, none starts a second one.
#[derive(Debug)]
pub struct ReconnectCoordinator {
    pub is_running: bool,
}

impl ReconnectCoordinator {
    /// A coordinator with no reconnection under way.
    pub fn new() -> (c: ReconnectCoordinator)
        ensures
            !c.is_running,
    {
        ReconnectCoordinator { is_running: false }
    }

    /// Asks to reconnect. The one who is told `true` reconnects and then
    /// calls `finish`; whoever is told `false` waits for that to happen.
    /// `true` is told exactly when no reconnection was under way, and from
    /// then on one is.
    pub fn reconnect(&mut self) -> (lead: bool)
        ensures
            lead == !old(self).is_running,
            final(self).is_running,
    {
        let lead = !self.is_running;
        self.is_running = true;
        lead
    }

    /// Reports that the link is established again: the waiting ones go on,
    /// and the next failure starts a new reconnection.
    pub fn finish(&mut self)
        ensures
            !final(self).is_running,
    {
        self.is_running = false;
    }
}

/// What follows from a read: a frame is delivered; bytes that are no frame
/// are skipped and never surface; a failed link and a silent link are
/// reconnected.
pub fn recv(outcome: RecvOutcome) -> (action: LinkAction)
    ensures
        action == (match outcome {
            RecvOutcome::Frame(frame) => LinkAction::Deliver(frame),
            RecvOutcome::Parse => LinkAction::Continue,
            RecvOutcome::Io => LinkAction::Reconnect,
            RecvOutcome::TimedOut => LinkAction::Reconnect,
        }),
{
    match outcome {
        RecvOutcome::Frame(frame) => LinkAction::Deliver(frame),
        RecvOutcome::Parse => LinkAction::Continue,
        RecvOutcome::Io => LinkAction::Reconnect,
        RecvOutcome::TimedOut => LinkAction::Reconnect,
    }
}

/// What follows from a write: after a failure the link is reconnected and
/// the write tried again; a success ends the sending.
pub fn send_inner(sent: bool) -> (action: Option<LinkAction>)
    ensures
        action == (if sent {
            None
        } else {
            Some(LinkAction::Reconnect)
        }),
{
    if sent {
        None
    } else {
        Some(LinkAction::Reconnect)
    }
}

/// What a failure of the bus means for a consumer: one that lagged goes on
/// with the next message; for one whose bus is gone the link has failed.
pub fn on_bus_error(error: BusError) -> (r: Option<CoreError>)
    ensures
        r == (match error {
            BusError::Lagged(_) => None,
            BusError::Closed => Some(CoreError::Transport),
        }),
{
    match error {
        BusError::Lagged(_) => None,
        BusError::Closed => Some(CoreError::Transport),
    }
}

} // verus!
