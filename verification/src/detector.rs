//! The change detector: from raw ownership notifications to change signals.

use vstd::prelude::*;
use crossbeam_channel::Sender;
use crate::channel::offer_signal;

verus! {

/// "The owner of the watched selection changed." A signal carries nothing but
/// its occurrence.
#[derive(Clone, Copy, Debug, PartialEq, Eq)]
pub struct ChangeSignal;

/// What the detector reads of a raw event of the source windowing system.
#[derive(Clone, Copy, Debug, PartialEq, Eq)]
pub enum Notification {
    /// The owner of the selection with this identifier changed.
    OwnerChanged { selection: u32 },
    /// Any other event.
    Other,
}

/// What became of a notification that was relayed towards the engine.
#[derive(Clone, Copy, Debug, PartialEq, Eq)]
pub enum Relay {
    /// The notification was not about the watched selection; nothing was sent.
    Ignored,
    /// A signal was placed in the hand-off channel.
    Handed,
    /// The channel was full and the signal was dropped; the signal already
    /// waiting there stands for it.
    Dropped,
    /// The receiving side is gone and the signal was dropped.
    Disconnected,
}

/// Filters raw notifications down to those about one selection.
#[derive(Clone, Copy, Debug)]
pub struct ChangeDetector {
    watched: u32,
}

impl ChangeDetector {
    /// The identifier of the selection that is watched.
    pub closed spec fn selection(self) -> u32 {
        self.watched
    }

    /// Whether a notification gives rise to a change signal: it reports a new
    /// owner of the watched selection.
    pub open spec fn admits(self, notification: Notification) -> bool {
        notification matches Notification::OwnerChanged { selection }
            && selection == self.selection()
    }

    /// A detector for the selection with the given identifier.
    pub fn new(watched: u32) -> (detector: ChangeDetector)
        ensures
            detector.selection() == watched,
    {
        ChangeDetector { watched }
    }

    /// The identifier of the selection that is watched.
    pub fn watched(&self) -> (id: u32)
        ensures
            id == self.selection(),
    {
        self.watched
    }

    /// The signal that a notification gives rise to: one for a notification
    /// about the watched selection, none for any other.
    pub fn observe(&self, notification: &Notification) -> (signal: Option<ChangeSignal>)
        ensures
            signal is Some <==> self.admits(*notification),
    {
        match notification {
            Notification::OwnerChanged { selection } => {
                if *selection == self.watched {
                    Some(ChangeSignal)
                } else {
                    None
                }
            },
            Notification::Other => None,
        }
    }

    /// Observes a notification and offers the signal it gives rise to, if any,
    /// to the hand-off channel, without ever blocking.
    ///
    /// Whether an offered signal is taken depends on the channel alone, so the
    /// result says only that a notification is ignored exactly when it is not
    /// about the watched selection.
    pub fn relay(&self, notification: &Notification, handoff: &Sender<ChangeSignal>) -> (relay: Relay)
        ensures
            relay is Ignored <==> !self.admits(*notification),
    {
        match self.observe(notification) {
            Some(signal) => offer_signal(handoff, signal),
            None => Relay::Ignored,
        }
    }
}

} // verus!
