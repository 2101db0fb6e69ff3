//! The synchronization engine as a mathematical state machine.
//!
//! A [`State`] is moved by one [`Input`] at a time ([`step`]); what the engine
//! then asks of its surroundings is a function of the new state alone
//! ([`wanted`]). Time is a count of milliseconds on a monotonic clock.
//!
//! A cycle runs through these stages. While waiting, the first signal opens a
//! burst. Every further signal is coalesced into the burst and restarts the
//! debounce wait, so a burst ends when a whole debounce window has passed in
//! silence. The burst is then judged: within the echo guard window of the
//! engine's own last write it is taken for an echo of that write and dropped;
//! otherwise the source content is fetched. Content that is empty or equal to
//! the snapshot ends the cycle, as does a fetch that fails. Other content is
//! published; only when the target has accepted it does it become the snapshot.

use vstd::prelude::*;
use crate::policy::Policy;

verus! {

/// Largest count of coalesced signals that the engine keeps; further signals of
/// the same burst are absorbed without being counted.
pub const SKIPPED_MAX: u64 = 0xffff_ffff_ffff_ffff;

/// Where the engine stands within a synchronization cycle.
#[verifier::ext_equal]
pub enum Stage {
    /// No burst is under way.
    Waiting,
    /// A burst has begun; `skipped` signals have followed its first one.
    Debouncing { skipped: nat },
    /// The burst has gone quiet and the source content is being fetched.
    Fetching { skipped: nat },
    /// New content is being written to the target.
    Publishing { content: Seq<u8> },
    /// The signal source has closed for good.
    Stopped,
}

/// The whole state of the engine.
#[verifier::ext_equal]
pub struct State {
    /// The durations in force.
    pub policy: Policy,
    /// The content last written to the target; empty before the first write.
    pub snapshot: Seq<u8>,
    /// The time of the last successful write to the target, if there was one.
    pub last_write: Option<nat>,
    /// The stage of the current cycle.
    pub stage: Stage,
}

/// What the surroundings report to the engine.
#[verifier::ext_equal]
pub enum Input {
    /// A change signal arrived.
    Signal,
    /// A whole debounce window passed without a signal.
    Quiet,
    /// The signal source is closed and drained.
    Closed,
    /// The fetch returned this content.
    Fetched { content: Seq<u8> },
    /// The fetch timed out or failed.
    FetchFailed,
    /// The target accepted the content.
    Published,
    /// The target refused the content.
    PublishFailed,
}

/// What the engine asks of its surroundings.
#[verifier::ext_equal]
pub enum Output {
    /// Wait, without limit, for a signal or for the source to close.
    AwaitSignal,
    /// Wait for a signal, but no longer than `window_ms`.
    AwaitSignalFor { window_ms: nat },
    /// Fetch the source content within `timeout_ms`; `skipped` signals were
    /// coalesced into this request.
    Fetch { timeout_ms: nat, skipped: nat },
    /// Write `content` to the target.
    Publish { content: Seq<u8> },
    /// Nothing more: the engine has stopped.
    Stop,
}

/// Milliseconds from `since` to `now`; zero where `now` is the earlier one.
pub open spec fn elapsed(since: nat, now: nat) -> nat {
    if now >= since {
        (now - since) as nat
    } else {
        0
    }
}

/// The later of a recorded time and `now`.
pub open spec fn latest(recorded: Option<nat>, now: nat) -> nat {
    match recorded {
        Some(t) if t > now => t,
        _ => now,
    }
}

/// `a` is no later than `b`, where `None` precedes every time.
pub open spec fn no_later(a: Option<nat>, b: Option<nat>) -> bool {
    match (a, b) {
        (None, _) => true,
        (Some(_), None) => false,
        (Some(x), Some(y)) => x <= y,
    }
}

/// One more coalesced signal, counted up to [`SKIPPED_MAX`].
pub open spec fn one_more(skipped: nat) -> nat {
    if skipped < SKIPPED_MAX {
        skipped + 1
    } else {
        skipped
    }
}

impl State {
    /// The state of an engine that has synchronized nothing yet.
    pub open spec fn initial(policy: Policy) -> State {
        State { policy, snapshot: Seq::empty(), last_write: None, stage: Stage::Waiting }
    }

    /// Whether a burst judged at `now` falls within the echo guard window of
    /// the engine's own last write.
    pub open spec fn echoes(self, now: nat) -> bool {
        self.last_write matches Some(t) && elapsed(t, now) < self.policy.echo_guard()
    }

    /// Whether `content` is worth writing to the target: it is not empty and
    /// differs from the snapshot.
    pub open spec fn is_news(self, content: Seq<u8>) -> bool {
        content.len() > 0 && content != self.snapshot
    }

    /// What holds of every state that the engine reaches: content under way to
    /// the target is news, and counts stay within their bound.
    pub open spec fn consistent(self) -> bool {
        match self.stage {
            Stage::Debouncing { skipped } => skipped <= SKIPPED_MAX,
            Stage::Fetching { skipped } => skipped <= SKIPPED_MAX,
            Stage::Publishing { content } => self.is_news(content),
            _ => true,
        }
    }

    /// This state at another stage.
    pub open spec fn at(self, stage: Stage) -> State {
        State { stage, ..self }
    }

    /// Whether this state is `before` with signals, and nothing else, taken
    /// in since: none, or one or more.
    pub open spec fn absorbed_since(self, before: State) -> bool {
        &&& self == before.at(self.stage)
        &&& match (before.stage, self.stage) {
            (Stage::Waiting, Stage::Waiting) => true,
            (Stage::Waiting, Stage::Debouncing { skipped }) => skipped <= SKIPPED_MAX,
            (Stage::Debouncing { skipped: had }, Stage::Debouncing { skipped }) => had <= skipped
                <= SKIPPED_MAX,
            _ => false,
        }
    }
}

/// The state that follows `s` when `input` is reported at time `now`.
///
/// An input that does not answer what the state asks for leaves it unchanged.
pub open spec fn step(s: State, input: Input, now: nat) -> State {
    match (s.stage, input) {
        (Stage::Waiting, Input::Signal) => s.at(Stage::Debouncing { skipped: 0 }),
        (Stage::Waiting, Input::Closed) => s.at(Stage::Stopped),
        (Stage::Debouncing { skipped }, Input::Signal) => s.at(
            Stage::Debouncing { skipped: one_more(skipped) },
        ),
        (Stage::Debouncing { skipped }, Input::Quiet) => if s.echoes(now) {
            s.at(Stage::Waiting)
        } else {
            s.at(Stage::Fetching { skipped })
        },
        (Stage::Debouncing { .. }, Input::Closed) => s.at(Stage::Stopped),
        (Stage::Fetching { .. }, Input::Fetched { content }) => if s.is_news(content) {
            s.at(Stage::Publishing { content })
        } else {
            s.at(Stage::Waiting)
        },
        (Stage::Fetching { .. }, Input::FetchFailed) => s.at(Stage::Waiting),
        (Stage::Publishing { content }, Input::Published) => State {
            policy: s.policy,
            snapshot: content,
            last_write: Some(latest(s.last_write, now)),
            stage: Stage::Waiting,
        },
        (Stage::Publishing { .. }, Input::PublishFailed) => s.at(Stage::Waiting),
        _ => s,
    }
}

/// What a state asks of the surroundings.
pub open spec fn wanted(s: State) -> Output {
    match s.stage {
        Stage::Waiting => Output::AwaitSignal,
        Stage::Debouncing { .. } => Output::AwaitSignalFor { window_ms: s.policy.debounce() },
        Stage::Fetching { skipped } => Output::Fetch {
            timeout_ms: s.policy.fetch_timeout(),
            skipped,
        },
        Stage::Publishing { content } => Output::Publish { content },
        Stage::Stopped => Output::Stop,
    }
}

/// Whether `input` is a possible outcome of carrying out `output`.
pub open spec fn answers(output: Output, input: Input) -> bool {
    match output {
        Output::AwaitSignal => input is Signal || input is Closed,
        Output::AwaitSignalFor { .. } => input is Signal || input is Quiet || input is Closed,
        Output::Fetch { .. } => input is Fetched || input is FetchFailed,
        Output::Publish { .. } => input is Published || input is PublishFailed,
        Output::Stop => false,
    }
}

/// Every step keeps a consistent state consistent.
pub proof fn lemma_step_consistent(s: State, input: Input, now: nat)
    requires
        s.consistent(),
    ensures
        step(s, input, now).consistent(),
{
}

} // verus!
