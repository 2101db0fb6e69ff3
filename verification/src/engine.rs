//! The synchronization engine: debounce, echo suppression, fetch, compare,
//! publish.
//!
//! The engine decides and remembers; it neither waits on the clipboard nor
//! reads a clock. Whoever drives it carries out the [`Action`] it asks for and
//! hands the outcome, with the time on a monotonic clock, to
//! [`SyncEngine::step`]. The one wait it can carry out itself is the wait for
//! change signals on the hand-off channel ([`SyncEngine::await_burst`]).

use vstd::prelude::*;
use crossbeam_channel::Receiver;
use crate::channel::{recv_signal, recv_signal_within};
use crate::detector::ChangeSignal;
use crate::model;
use crate::model::{answers, wanted, Input, Output, Stage, State, SKIPPED_MAX};
use crate::policy::Policy;

verus! {

/// What the surroundings report to the engine.
#[derive(Debug, PartialEq, Eq)]
pub enum Event {
    /// A change signal arrived.
    Signal,
    /// A whole debounce window passed without a signal.
    Quiet,
    /// The signal source is closed and drained.
    Closed,
    /// The fetch returned this content.
    Fetched { content: Vec<u8> },
    /// The fetch timed out or failed.
    FetchFailed,
    /// The target accepted the content.
    Published,
    /// The target refused the content.
    PublishFailed,
}

impl View for Event {
    type V = Input;

    open spec fn view(&self) -> Input {
        match self {
            Event::Signal => Input::Signal,
            Event::Quiet => Input::Quiet,
            Event::Closed => Input::Closed,
            Event::Fetched { content } => Input::Fetched { content: content@ },
            Event::FetchFailed => Input::FetchFailed,
            Event::Published => Input::Published,
            Event::PublishFailed => Input::PublishFailed,
        }
    }
}

/// What the engine asks of its surroundings.
#[derive(Debug, PartialEq, Eq)]
pub enum Action {
    /// Wait, without limit, for a signal or for the source to close.
    AwaitSignal,
    /// Wait for a signal, but no longer than `window_ms` milliseconds.
    AwaitSignalFor { window_ms: u64 },
    /// Fetch the source content within `timeout_ms` milliseconds; `skipped`
    /// signals were coalesced into this request.
    Fetch { timeout_ms: u64, skipped: u64 },
    /// Write `content` to the target.
    Publish { content: Vec<u8> },
    /// Nothing more: the engine has stopped.
    Stop,
}

impl View for Action {
    type V = Output;

    open spec fn view(&self) -> Output {
        match self {
            Action::AwaitSignal => Output::AwaitSignal,
            Action::AwaitSignalFor { window_ms } => Output::AwaitSignalFor {
                window_ms: *window_ms as nat,
            },
            Action::Fetch { timeout_ms, skipped } => Output::Fetch {
                timeout_ms: *timeout_ms as nat,
                skipped: *skipped as nat,
            },
            Action::Publish { content } => Output::Publish { content: content@ },
            Action::Stop => Output::Stop,
        }
    }
}

/// Whether two byte strings hold the same bytes in the same order.
pub fn same_bytes(a: &Vec<u8>, b: &Vec<u8>) -> (same: bool)
    ensures
        same == (a@ == b@),
{
    if a.len() != b.len() {
        return false;
    }
    let mut i: usize = 0;
    while i < a.len()
        invariant
            a.len() == b.len(),
            i <= a.len(),
            forall|j: int| 0 <= j < i ==> a@[j] == b@[j],
        decreases a.len() - i,
    {
        if a[i] != b[i] {
            return false;
        }
        i += 1;
    }
    assert(a@ =~= b@);
    true
}

#[derive(Clone, Copy, Debug)]
enum Phase {
    Waiting,
    Debouncing { skipped: u64 },
    Fetching { skipped: u64 },
    Publishing,
    Stopped,
}

/// The synchronization engine. It owns the snapshot of what the target holds
/// and the time of its own last write, and nothing else can change them.
#[derive(Debug)]
pub struct SyncEngine {
    policy: Policy,
    snapshot: Vec<u8>,
    last_write: Option<u64>,
    phase: Phase,
    /// The content under way to the target while publishing.
    outgoing: Vec<u8>,
}

impl View for SyncEngine {
    type V = State;

    closed spec fn view(&self) -> State {
        State {
            policy: self.policy,
            snapshot: self.snapshot@,
            last_write: match self.last_write {
                Some(t) => Some(t as nat),
                None => None,
            },
            stage: match self.phase {
                Phase::Waiting => Stage::Waiting,
                Phase::Debouncing { skipped } => Stage::Debouncing { skipped: skipped as nat },
                Phase::Fetching { skipped } => Stage::Fetching { skipped: skipped as nat },
                Phase::Publishing => Stage::Publishing { content: self.outgoing@ },
                Phase::Stopped => Stage::Stopped,
            },
        }
    }
}

impl SyncEngine {
    #[verifier::type_invariant]
    spec fn well_formed(self) -> bool {
        self@.consistent()
    }

    /// An engine that has synchronized nothing yet and waits for its first
    /// signal.
    pub fn new(policy: Policy) -> (engine: SyncEngine)
        ensures
            engine@ == State::initial(policy),
    {
        SyncEngine {
            policy,
            snapshot: Vec::new(),
            last_write: None,
            phase: Phase::Waiting,
            outgoing: Vec::new(),
        }
    }

    /// What the engine asks for in its present state.
    pub fn action(&self) -> (action: Action)
        ensures
            action@ == wanted(self@),
    {
        match self.phase {
            Phase::Waiting => Action::AwaitSignal,
            Phase::Debouncing { .. } => Action::AwaitSignalFor {
                window_ms: self.policy.debounce_ms(),
            },
            Phase::Fetching { skipped } => Action::Fetch {
                timeout_ms: self.policy.fetch_timeout_ms(),
                skipped,
            },
            Phase::Publishing => Action::Publish { content: self.outgoing.clone() },
            Phase::Stopped => Action::Stop,
        }
    }

    /// The durations in force.
    pub fn policy(&self) -> (policy: Policy)
        ensures
            policy == self@.policy,
    {
        self.policy
    }

    /// The content last written to the target; empty before the first write.
    pub fn snapshot(&self) -> (content: &Vec<u8>)
        ensures
            content@ == self@.snapshot,
    {
        &self.snapshot
    }

    /// The time of the last successful write to the target, if there was one.
    pub fn last_write_ms(&self) -> (written: Option<u64>)
        ensures
            written is Some <==> self@.last_write is Some,
            written matches Some(t) ==> self@.last_write == Some(t as nat),
    {
        self.last_write
    }

    /// Whether the engine has stopped for good.
    pub fn is_stopped(&self) -> (stopped: bool)
        ensures
            stopped == (self@.stage is Stopped),
    {
        match self.phase {
            Phase::Stopped => true,
            _ => false,
        }
    }

    /// Waits on the hand-off channel for a burst of change signals and takes
    /// it in: blocks until a first signal arrives, then absorbs every signal
    /// that follows within a debounce window of the one before.
    ///
    /// Returns what ended the wait, which is still to be handed to
    /// [`SyncEngine::step`] together with the time: `Quiet` once a whole
    /// debounce window has passed in silence, `Closed` once the channel is
    /// closed and drained. A further `Signal` comes back, not yet absorbed,
    /// only where the count of the burst has reached its bound. Where the
    /// engine is neither waiting nor debouncing, `None` comes back at once.
    ///
    /// What arrives depends on the other side of the channel and on time. What
    /// holds whatever arrives: the engine has taken in signals and nothing
    /// else, and the event that comes back answers its pending action.
    pub fn await_burst(&mut self, handoff: &Receiver<ChangeSignal>) -> (end: Option<Event>)
        ensures
            end is Some <==> old(self)@.stage is Waiting || old(self)@.stage is Debouncing,
            end is None ==> final(self)@ == old(self)@,
            end matches Some(e) ==> {
                &&& final(self)@.absorbed_since(old(self)@)
                &&& answers(wanted(final(self)@), e@)
                &&& final(self)@.stage is Waiting ==> e is Closed
                &&& e is Signal ==> final(self)@.stage == (Stage::Debouncing {
                    skipped: SKIPPED_MAX as nat,
                })
            },
            final(self)@.consistent(),
    {
        proof {
            use_type_invariant(&*self);
        }
        match self.phase {
            Phase::Waiting => {
                let first = recv_signal(handoff);
                match first {
                    Event::Signal => {
                        self.absorb_signal();
                    },
                    _ => {
                        return Some(first);
                    },
                }
            },
            Phase::Debouncing { .. } => {},
            _ => {
                return None;
            },
        }
        let window = self.policy.debounce_ms();
        loop
            invariant
                self@.absorbed_since(old(self)@),
                self@.stage is Debouncing,
                self@.consistent(),
                window == self@.policy.debounce(),
            decreases SKIPPED_MAX - self@.stage->Debouncing_skipped,
        {
            let next = recv_signal_within(handoff, window);
            match next {
                Event::Signal => {
                    if self.burst_is_full() {
                        return Some(next);
                    }
                    self.absorb_signal();
                },
                _ => {
                    return Some(next);
                },
            }
        }
    }

    /// Whether the count of the burst under way has reached its bound.
    fn burst_is_full(&self) -> (full: bool)
        ensures
            full == (self@.stage == Stage::Debouncing { skipped: SKIPPED_MAX as nat }),
    {
        match self.phase {
            Phase::Debouncing { skipped } => skipped == SKIPPED_MAX,
            _ => false,
        }
    }

    /// Takes in what the surroundings report at time `now_ms`, a reading in
    /// milliseconds of a monotonic clock, and returns what the engine asks for
    /// next.
    ///
    /// The engine moves exactly as the state machine of [`model::step`] does:
    /// a signal opens or extends a burst; a quiet debounce window ends it, and
    /// the burst is dropped as an echo or leads to a fetch; fetched content
    /// that is empty or equal to the snapshot is dropped, other content is
    /// handed out for publishing; an accepted publish replaces the snapshot and
    /// records the time. An event that does not answer the pending action
    /// changes nothing.
    pub fn step(&mut self, event: Event, now_ms: u64) -> (action: Action)
        ensures
            final(self)@ == model::step(old(self)@, event@, now_ms as nat),
            final(self)@.consistent(),
            action@ == wanted(final(self)@),
    {
        match event {
            Event::Signal => self.absorb_signal(),
            Event::Quiet => self.judge_burst(now_ms),
            Event::Closed => self.shut_down(),
            Event::Fetched { content } => self.settle_fetch(Some(content)),
            Event::FetchFailed => self.settle_fetch(None),
            Event::Published => self.settle_publish(true, now_ms),
            Event::PublishFailed => self.settle_publish(false, now_ms),
        }
        proof {
            use_type_invariant(&*self);
        }
        self.action()
    }

    /// A signal opens a burst or is coalesced into the one under way.
    fn absorb_signal(&mut self)
        ensures
            final(self)@ == model::step(old(self)@, Input::Signal, 0),
    {
        proof {
            use_type_invariant(&*self);
        }
        match self.phase {
            Phase::Waiting => {
                self.phase = Phase::Debouncing { skipped: 0 };
            },
            Phase::Debouncing { skipped } => {
                let counted: u64 = if skipped < SKIPPED_MAX {
                    skipped + 1
                } else {
                    skipped
                };
                self.phase = Phase::Debouncing { skipped: counted };
            },
            _ => {},
        }
    }

    /// Whether a burst judged at `now_ms` falls within the echo guard window
    /// of the engine's own last write.
    pub fn is_echo(&self, now_ms: u64) -> (echo: bool)
        ensures
            echo == self@.echoes(now_ms as nat),
    {
        match self.last_write {
            Some(written) => {
                let since: u64 = if now_ms >= written {
                    now_ms - written
                } else {
                    0
                };
                since < self.policy.echo_guard_ms()
            },
            None => false,
        }
    }

    /// The burst has gone quiet: it is dropped as an echo, or a fetch begins.
    fn judge_burst(&mut self, now_ms: u64)
        ensures
            final(self)@ == model::step(old(self)@, Input::Quiet, now_ms as nat),
    {
        proof {
            use_type_invariant(&*self);
        }
        match self.phase {
            Phase::Debouncing { skipped } => {
                if self.is_echo(now_ms) {
                    self.phase = Phase::Waiting;
                } else {
                    self.phase = Phase::Fetching { skipped };
                }
            },
            _ => {},
        }
    }

    /// The signal source has closed: the engine stops, unless a fetch or a
    /// publish is still to be answered.
    fn shut_down(&mut self)
        ensures
            final(self)@ == model::step(old(self)@, Input::Closed, 0),
    {
        proof {
            use_type_invariant(&*self);
        }
        match self.phase {
            Phase::Waiting => {
                self.phase = Phase::Stopped;
            },
            Phase::Debouncing { .. } => {
                self.phase = Phase::Stopped;
            },
            _ => {},
        }
    }

    /// Whether `content` is worth writing to the target: it is not empty and
    /// differs, byte for byte, from the snapshot.
    pub fn is_news(&self, content: &Vec<u8>) -> (news: bool)
        ensures
            news == self@.is_news(content@),
    {
        content.len() > 0 && !same_bytes(content, &self.snapshot)
    }

    /// The fetch has ended, with content or without: news is kept for
    /// publishing, anything else ends the cycle.
    fn settle_fetch(&mut self, fetched: Option<Vec<u8>>)
        ensures
            final(self)@ == model::step(
                old(self)@,
                match fetched {
                    Some(content) => Input::Fetched { content: content@ },
                    None => Input::FetchFailed,
                },
                0,
            ),
    {
        proof {
            use_type_invariant(&*self);
        }
        match self.phase {
            Phase::Fetching { .. } => {
                match fetched {
                    Some(content) => {
                        if self.is_news(&content) {
                            self.outgoing = content;
                            self.phase = Phase::Publishing;
                        } else {
                            self.phase = Phase::Waiting;
                        }
                    },
                    None => {
                        self.phase = Phase::Waiting;
                    },
                }
            },
            _ => {},
        }
    }

    /// The publish has ended: on success the content becomes the snapshot and
    /// the time of writing is recorded; on failure both stay as they were.
    fn settle_publish(&mut self, accepted: bool, now_ms: u64)
        ensures
            final(self)@ == model::step(
                old(self)@,
                if accepted {
                    Input::Published
                } else {
                    Input::PublishFailed
                },
                now_ms as nat,
            ),
    {
        proof {
            use_type_invariant(&*self);
        }
        match self.phase {
            Phase::Publishing => {
                self.phase = Phase::Waiting;
                let mut content: Vec<u8> = Vec::new();
                std::mem::swap(&mut self.outgoing, &mut content);
                if accepted {
                    self.snapshot = content;
                    let written: u64 = match self.last_write {
                        Some(earlier) => if earlier > now_ms {
                            earlier
                        } else {
                            now_ms
                        },
                        None => now_ms,
                    };
                    self.last_write = Some(written);
                }
            },
            _ => {},
        }
    }
}

} // verus!
