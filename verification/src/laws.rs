//! What holds of every run of the synchronization engine.
//!
//! A run is a sequence of reports, each an input with the time at which it is
//! handed to the engine. The laws below are stated over the state machine of
//! [`crate::model`], which the executable engine follows step by step.

use vstd::prelude::*;
use crate::model::{
    elapsed, latest, lemma_step_consistent, no_later, step, wanted, Input, Output, Stage, State,
    SKIPPED_MAX,
};

verus! {

/// An input together with the time at which the engine is told of it.
pub struct Report {
    pub input: Input,
    pub at: nat,
}

/// The state reached from `s` after the reports, taken in order.
pub open spec fn run(s: State, reports: Seq<Report>) -> State
    decreases reports.len(),
{
    if reports.len() == 0 {
        s
    } else {
        step(run(s, reports.drop_last()), reports.last().input, reports.last().at)
    }
}

/// What the engine asks for after each of the reports, in order.
pub open spec fn outputs(s: State, reports: Seq<Report>) -> Seq<Output>
    decreases reports.len(),
{
    if reports.len() == 0 {
        Seq::empty()
    } else {
        outputs(s, reports.drop_last()).push(wanted(run(s, reports)))
    }
}

/// How many of the outputs ask for a fetch.
pub open spec fn fetches(outputs: Seq<Output>) -> nat
    decreases outputs.len(),
{
    if outputs.len() == 0 {
        0
    } else {
        fetches(outputs.drop_last()) + if outputs.last() is Fetch {
            1nat
        } else {
            0nat
        }
    }
}

/// How many of the outputs ask for a publish.
pub open spec fn publishes(outputs: Seq<Output>) -> nat
    decreases outputs.len(),
{
    if outputs.len() == 0 {
        0
    } else {
        publishes(outputs.drop_last()) + if outputs.last() is Publish {
            1nat
        } else {
            0nat
        }
    }
}

/// Reports of nothing but signals.
pub open spec fn all_signals(reports: Seq<Report>) -> bool {
    forall|i: int| 0 <= i < reports.len() ==> (#[trigger] reports[i]).input is Signal
}

/// A burst: one signal or more, each within the debounce window of the one
/// before, and then the quiet window that ends it.
pub open spec fn is_burst(reports: Seq<Report>) -> bool {
    &&& reports.len() >= 2
    &&& all_signals(reports.drop_last())
    &&& reports.last().input is Quiet
}

/// The count that the engine keeps of `signals` signals in one burst: those
/// after the first, up to [`SKIPPED_MAX`].
pub open spec fn skipped_of(signals: nat) -> nat
    recommends
        signals >= 1,
{
    if signals - 1 <= SKIPPED_MAX {
        (signals - 1) as nat
    } else {
        SKIPPED_MAX as nat
    }
}

/// The last report of a run adds its own output to the counts of the run
/// before it.
pub proof fn lemma_last_report_counts(s: State, reports: Seq<Report>)
    requires
        reports.len() >= 1,
    ensures
        outputs(s, reports).last() == wanted(run(s, reports)),
        fetches(outputs(s, reports)) == fetches(outputs(s, reports.drop_last())) + if wanted(
            run(s, reports),
        ) is Fetch {
            1nat
        } else {
            0nat
        },
        publishes(outputs(s, reports)) == publishes(outputs(s, reports.drop_last())) + if wanted(
            run(s, reports),
        ) is Publish {
            1nat
        } else {
            0nat
        },
{
    let before = outputs(s, reports.drop_last());
    let all = outputs(s, reports);
    assert(all == before.push(wanted(run(s, reports))));
    assert(all.drop_last() =~= before);
}

/// Where all reports are signals, so is the last one, and so are all before
/// it.
proof fn lemma_signals_before_the_last(reports: Seq<Report>)
    requires
        reports.len() >= 1,
        all_signals(reports),
    ensures
        reports.last().input is Signal,
        all_signals(reports.drop_last()),
{
    let earlier = reports.drop_last();
    assert forall|i: int| 0 <= i < earlier.len() implies (#[trigger] earlier[i]).input is Signal by {
        assert(earlier[i] == reports[i]);
    }
}

/// A waiting engine that is told of one signal or more, and of nothing else,
/// is left debouncing, has counted the signals after the first, and has asked
/// for neither a fetch nor a publish.
pub proof fn lemma_signals_coalesce(s: State, reports: Seq<Report>)
    requires
        s.stage is Waiting,
        reports.len() >= 1,
        all_signals(reports),
    ensures
        run(s, reports) == s.at(Stage::Debouncing { skipped: skipped_of(reports.len()) }),
        fetches(outputs(s, reports)) == 0,
        publishes(outputs(s, reports)) == 0,
    decreases reports.len(),
{
    let earlier = reports.drop_last();
    lemma_signals_before_the_last(reports);
    if earlier.len() == 0 {
        assert(run(s, earlier) == s);
        assert(outputs(s, earlier).len() == 0);
    } else {
        lemma_signals_coalesce(s, earlier);
    }
    lemma_last_report_counts(s, reports);
}

/// A waiting or debouncing engine that is told of signals, and of nothing
/// else, has taken them in and nothing more: it asks for neither a fetch nor
/// a publish, and only its stage and its count have moved.
pub proof fn law_signals_are_only_absorbed(s: State, reports: Seq<Report>)
    requires
        s.consistent(),
        s.stage is Waiting || s.stage is Debouncing,
        all_signals(reports),
    ensures
        run(s, reports).absorbed_since(s),
        fetches(outputs(s, reports)) == 0,
        publishes(outputs(s, reports)) == 0,
    decreases reports.len(),
{
    if reports.len() > 0 {
        lemma_signals_before_the_last(reports);
        law_signals_are_only_absorbed(s, reports.drop_last());
        lemma_last_report_counts(s, reports);
    }
}

/// Every burst of one or more signals that is not judged an echo leads to
/// exactly one fetch request, made when the burst has gone quiet, and to no
/// publish; the snapshot and the time of the last write stay as they were.
pub proof fn law_burst_fetches_once(s: State, burst: Seq<Report>)
    requires
        s.stage is Waiting,
        is_burst(burst),
        !s.echoes(burst.last().at),
    ensures
        fetches(outputs(s, burst)) == 1,
        publishes(outputs(s, burst)) == 0,
        outputs(s, burst).last() is Fetch,
        run(s, burst) == s.at(Stage::Fetching { skipped: skipped_of((burst.len() - 1) as nat) }),
{
    lemma_signals_coalesce(s, burst.drop_last());
    lemma_last_report_counts(s, burst);
}

/// A burst that is judged within the echo guard window of the engine's own
/// last write leads to no fetch and no publish, and leaves the engine as it
/// was before the burst.
pub proof fn law_echo_burst_is_dropped(s: State, burst: Seq<Report>)
    requires
        s.stage is Waiting,
        is_burst(burst),
        s.echoes(burst.last().at),
    ensures
        fetches(outputs(s, burst)) == 0,
        publishes(outputs(s, burst)) == 0,
        run(s, burst) == s,
{
    lemma_signals_coalesce(s, burst.drop_last());
    lemma_last_report_counts(s, burst);
    assert(run(s, burst) =~= s);
}

/// A burst judged within the echo guard window after a successful publish
/// leads to no fetch: the engine takes it for the echo of its own write and
/// stays as the publish left it.
pub proof fn law_no_fetch_after_own_write(s: State, written_at: nat, burst: Seq<Report>)
    requires
        s.stage is Publishing,
        is_burst(burst),
        written_at <= burst.last().at < written_at + s.policy.echo_guard(),
    ensures
        fetches(outputs(step(s, Input::Published, written_at), burst)) == 0,
        publishes(outputs(step(s, Input::Published, written_at), burst)) == 0,
        run(step(s, Input::Published, written_at), burst) == step(s, Input::Published, written_at),
{
    let written = step(s, Input::Published, written_at);
    assert(written.last_write == Some(latest(s.last_write, written_at)));
    assert(elapsed(latest(s.last_write, written_at), burst.last().at) < s.policy.echo_guard());
    law_echo_burst_is_dropped(written, burst);
}

/// Fetched content equal to the snapshot is never published: the cycle ends,
/// and snapshot and time of last write stay as they were.
pub proof fn law_unchanged_content_is_not_published(s: State, content: Seq<u8>, now: nat)
    requires
        s.stage is Fetching,
        content == s.snapshot,
    ensures
        step(s, Input::Fetched { content }, now) == s.at(Stage::Waiting),
        wanted(step(s, Input::Fetched { content }, now)) == Output::AwaitSignal,
{
}

/// Fetched content that is not empty and differs from the snapshot is
/// published exactly once, with those bytes; once the target has accepted it,
/// it is the snapshot, and the time of the write is on record.
pub proof fn law_new_content_is_published_once(
    s: State,
    content: Seq<u8>,
    fetched_at: nat,
    written_at: nat,
)
    requires
        s.stage is Fetching,
        content.len() > 0,
        content != s.snapshot,
    ensures
        ({
            let cycle = seq![
                Report { input: Input::Fetched { content }, at: fetched_at },
                Report { input: Input::Published, at: written_at },
            ];
            &&& outputs(s, cycle) == seq![Output::Publish { content }, Output::AwaitSignal]
            &&& publishes(outputs(s, cycle)) == 1
            &&& fetches(outputs(s, cycle)) == 0
            &&& run(s, cycle).snapshot == content
            &&& run(s, cycle).last_write == Some(latest(s.last_write, written_at))
            &&& run(s, cycle).stage is Waiting
        }),
{
    let fetched = Report { input: Input::Fetched { content }, at: fetched_at };
    let cycle = seq![fetched, Report { input: Input::Published, at: written_at }];
    let first = cycle.drop_last();
    assert(first =~= seq![fetched]);
    assert(first.drop_last() =~= Seq::<Report>::empty());
    assert(run(s, first.drop_last()) == s);
    assert(run(s, first) == s.at(Stage::Publishing { content }));
    lemma_last_report_counts(s, first);
    lemma_last_report_counts(s, cycle);
    assert(outputs(s, first.drop_last()).len() == 0);
    assert(outputs(s, cycle) =~= seq![Output::Publish { content }, Output::AwaitSignal]);
}

/// A fetch that fails or times out, or that returns empty content, ends the
/// cycle and leaves snapshot and time of last write as they were.
pub proof fn law_failed_fetch_changes_nothing(s: State, input: Input, now: nat)
    requires
        s.stage is Fetching,
        input is FetchFailed || (input matches Input::Fetched { content } && content.len() == 0),
    ensures
        step(s, input, now) == s.at(Stage::Waiting),
        wanted(step(s, input, now)) == Output::AwaitSignal,
{
}

/// A publish that fails leaves snapshot and time of last write as they were,
/// so the same content, fetched again after the next burst, is handed out for
/// publishing again.
pub proof fn law_failed_publish_is_retried(
    s: State,
    failed_at: nat,
    burst: Seq<Report>,
    fetched_at: nat,
)
    requires
        s.consistent(),
        s.stage is Publishing,
        is_burst(burst),
        !s.echoes(burst.last().at),
    ensures
        step(s, Input::PublishFailed, failed_at) == s.at(Stage::Waiting),
        ({
            let content = s.stage->content;
            let again = burst.push(Report { input: Input::Fetched { content }, at: fetched_at });
            wanted(run(step(s, Input::PublishFailed, failed_at), again)) == Output::Publish {
                content,
            }
        }),
{
    let content = s.stage->content;
    let failed = step(s, Input::PublishFailed, failed_at);
    let again = burst.push(Report { input: Input::Fetched { content }, at: fetched_at });
    law_burst_fetches_once(failed, burst);
    assert(again.drop_last() =~= burst);
}

/// Snapshot and time of last write change in one step only: when the target
/// has accepted content. The snapshot is then that content, and the time on
/// record is the time of the write, or the time already on record where the
/// clock was read earlier than that.
pub proof fn law_state_changes_only_on_publish(s: State, input: Input, now: nat)
    ensures
        step(s, input, now).policy == s.policy,
        s.stage is Publishing && input is Published ==> {
            &&& step(s, input, now).snapshot == s.stage->content
            &&& step(s, input, now).last_write == Some(latest(s.last_write, now))
        },
        !(s.stage is Publishing && input is Published) ==> {
            &&& step(s, input, now).snapshot == s.snapshot
            &&& step(s, input, now).last_write == s.last_write
        },
{
}

/// The time of the last write never moves backwards, whatever is reported and
/// whatever the clock reads.
pub proof fn law_last_write_never_decreases(s: State, reports: Seq<Report>)
    ensures
        no_later(s.last_write, run(s, reports).last_write),
    decreases reports.len(),
{
    if reports.len() > 0 {
        law_last_write_never_decreases(s, reports.drop_last());
        law_state_changes_only_on_publish(
            run(s, reports.drop_last()),
            reports.last().input,
            reports.last().at,
        );
    }
}

/// Every run from a consistent state ends in a consistent state.
pub proof fn law_runs_stay_consistent(s: State, reports: Seq<Report>)
    requires
        s.consistent(),
    ensures
        run(s, reports).consistent(),
    decreases reports.len(),
{
    if reports.len() > 0 {
        law_runs_stay_consistent(s, reports.drop_last());
        lemma_step_consistent(run(s, reports.drop_last()), reports.last().input, reports.last().at);
    }
}

/// Once the signal source has closed, a waiting or debouncing engine stops,
/// and a stopped engine stays stopped: it asks for no fetch and no publish
/// again.
pub proof fn law_stopped_is_final(s: State, now: nat, reports: Seq<Report>)
    requires
        s.stage is Waiting || s.stage is Debouncing || s.stage is Stopped,
    ensures
        step(s, Input::Closed, now) == s.at(Stage::Stopped),
        run(s.at(Stage::Stopped), reports) == s.at(Stage::Stopped),
        fetches(outputs(s.at(Stage::Stopped), reports)) == 0,
        publishes(outputs(s.at(Stage::Stopped), reports)) == 0,
    decreases reports.len(),
{
    if reports.len() > 0 {
        law_stopped_is_final(s, now, reports.drop_last());
        lemma_last_report_counts(s.at(Stage::Stopped), reports);
    }
}

} // verus!
