//! The hand-off channel between detector and engine, as far as the library
//! touches it. Nothing in this file is proved: each function states what it
//! takes on trust from the `crossbeam-channel` crate.

use vstd::prelude::*;
use crossbeam_channel::{Receiver, RecvTimeoutError, Sender, TrySendError};
use std::time::Duration;
use crate::detector::{ChangeSignal, Relay};
use crate::engine::Event;

verus! {

/// The receiving half of a `crossbeam-channel` channel, opaque to the verifier.
#[verifier::external_type_specification]
#[verifier::external_body]
#[verifier::reject_recursive_types(T)]
pub struct ExReceiver<T>(crossbeam_channel::Receiver<T>);

/// The sending half of a `crossbeam-channel` channel, opaque to the verifier.
#[verifier::external_type_specification]
#[verifier::external_body]
#[verifier::reject_recursive_types(T)]
pub struct ExSender<T>(crossbeam_channel::Sender<T>);

/// Calls `Receiver::recv`, which blocks until a message arrives or the channel
/// is empty with every sender gone. Trusted: the call returns without
/// panicking; a message is reported as a signal, the error as closure.
#[verifier::external_body]
pub(crate) fn recv_signal(handoff: &Receiver<ChangeSignal>) -> (event: Event)
    ensures
        event is Signal || event is Closed,
{
    match handoff.recv() {
        Ok(_) => Event::Signal,
        Err(_) => Event::Closed,
    }
}

/// Calls `Receiver::recv_timeout`, which blocks until a message arrives, the
/// time runs out, or the channel is empty with every sender gone. Trusted: the
/// call returns without panicking; a message is reported as a signal, a
/// timeout as quiet, disconnection as closure.
#[verifier::external_body]
pub(crate) fn recv_signal_within(handoff: &Receiver<ChangeSignal>, window_ms: u64) -> (event: Event)
    ensures
        event is Signal || event is Quiet || event is Closed,
{
    match handoff.recv_timeout(Duration::from_millis(window_ms)) {
        Ok(_) => Event::Signal,
        Err(RecvTimeoutError::Timeout) => Event::Quiet,
        Err(RecvTimeoutError::Disconnected) => Event::Closed,
    }
}

/// Calls `Sender::try_send`, which places the message in the channel at once or
/// fails because the channel is full or has no receiver left. Trusted: the call
/// returns without blocking or panicking, and never reports the signal as
/// ignored.
#[verifier::external_body]
pub(crate) fn offer_signal(handoff: &Sender<ChangeSignal>, signal: ChangeSignal) -> (relay: Relay)
    ensures
        !(relay is Ignored),
{
    match handoff.try_send(signal) {
        Ok(()) => Relay::Handed,
        Err(TrySendError::Full(_)) => Relay::Dropped,
        Err(TrySendError::Disconnected(_)) => Relay::Disconnected,
    }
}

} // verus!
