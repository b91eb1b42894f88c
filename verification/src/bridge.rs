//! The state bridge: a background poller that repeatedly queries the
//! window-manager collaborator and hands the latest snapshot to the render
//! loop over a single-slot channel.
//!
//! The polling loop itself runs outside this crate, next to the blocking
//! query calls, the channel and the sleep; every decision it takes is made
//! here. Each iteration queries, delivers the snapshot, then sleeps one poll
//! interval. A failed query is fatal to the bridge — window-manager
//! connectivity loss is unrecoverable for this process's lifetime, so the
//! bridge stops with an error instead of retrying. A closed channel means
//! the receiver is gone (the application is shutting down) and is the
//! bridge's normal termination signal, not an error.

use vstd::prelude::*;

verus! {

/// How long the bridge sleeps after a successful delivery before polling
/// again, in milliseconds.
pub const POLL_INTERVAL_MS: u64 = 50;

/// A snapshot of window-manager-reported facts relevant to the bar.
#[derive(Clone, Debug, PartialEq, Eq)]
pub struct DesktopState {
    /// The names of the desktops (workspaces), in workspace order.
    pub desktop_names: Vec<String>,
    /// The reported desktop layout.
    pub desktop_layout: String,
}

/// A failed query against the window-manager collaborator.
#[derive(Clone, Copy, Debug, PartialEq, Eq, Structural)]
pub enum QueryError {
    /// The connection failed or the protocol reply never came.
    ConnectionLost,
}

/// What became of one attempted delivery over the single-slot channel.
#[derive(Clone, Copy, Debug, PartialEq, Eq, Structural)]
pub enum SendOutcome {
    /// The snapshot was handed to the render loop's slot.
    Delivered,
    /// The receiver is gone; nothing can be delivered any more.
    ChannelClosed,
}

/// The bridge's next move, as decided after a query or a delivery attempt.
#[derive(Clone, Debug, PartialEq, Eq)]
pub enum BridgeStep {
    /// Deliver this snapshot over the channel.
    Deliver(DesktopState),
    /// Sleep one poll interval, then poll again.
    SleepThenPoll,
    /// Terminate cleanly: the receiver is gone.
    StopClean,
    /// Terminate with an error: the window manager became unreachable.
    StopFailed(QueryError),
}

/// Whether a step ends the bridge's loop.
pub open spec fn step_is_terminal(step: BridgeStep) -> bool {
    step is StopClean || step is StopFailed
}

/// The decision after one query: a successful reply is packaged, unchanged
/// and with an empty layout, as a snapshot to deliver; a failed one stops
/// the bridge with its error.
pub open spec fn query_decision(reply: Result<Vec<String>, QueryError>, step: BridgeStep) -> bool {
    match reply {
        Ok(names) => step matches BridgeStep::Deliver(state) && state.desktop_names == names
            && state.desktop_layout@ == Seq::<char>::empty(),
        Err(e) => step == BridgeStep::StopFailed(e),
    }
}

/// Decide the bridge's next move from the reply to a desktop-names query.
pub fn bridge_on_query(reply: Result<Vec<String>, QueryError>) -> (step: BridgeStep)
    ensures
        query_decision(reply, step),
{
    match reply {
        Ok(names) => BridgeStep::Deliver(
            DesktopState { desktop_names: names, desktop_layout: String::new() },
        ),
        Err(e) => BridgeStep::StopFailed(e),
    }
}

/// The decision after one delivery attempt: sleep and poll again while the
/// channel is open, terminate cleanly once it has closed.
pub open spec fn on_send_spec(outcome: SendOutcome) -> BridgeStep {
    match outcome {
        SendOutcome::Delivered => BridgeStep::SleepThenPoll,
        SendOutcome::ChannelClosed => BridgeStep::StopClean,
    }
}

/// Decide the bridge's next move from the outcome of a delivery attempt.
pub fn bridge_on_send(outcome: SendOutcome) -> (step: BridgeStep)
    ensures
        step == on_send_spec(outcome),
{
    match outcome {
        SendOutcome::Delivered => BridgeStep::SleepThenPoll,
        SendOutcome::ChannelClosed => BridgeStep::StopClean,
    }
}

/// Each delivery so far is the successful reply at its own position,
/// packaged as [`query_decision`] demands: names unchanged, layout empty.
pub open spec fn deliveries_match(
    replies: Seq<Result<Vec<String>, QueryError>>,
    delivered: Seq<DesktopState>,
) -> bool {
    delivered.len() <= replies.len() && (forall|j: int|
        0 <= j < delivered.len() ==> (#[trigger] replies[j]) is Ok) && (forall|j: int|
        #![trigger delivered[j]]
        0 <= j < delivered.len() ==> delivered[j].desktop_names == replies[j]->Ok_0
            && delivered[j].desktop_layout@ == Seq::<char>::empty())
}

proof fn lemma_deliveries_match_push(
    replies: Seq<Result<Vec<String>, QueryError>>,
    delivered: Seq<DesktopState>,
    state: DesktopState,
)
    requires
        deliveries_match(replies, delivered),
        delivered.len() < replies.len(),
        replies[delivered.len() as int] is Ok,
        state.desktop_names == replies[delivered.len() as int]->Ok_0,
        state.desktop_layout@ == Seq::<char>::empty(),
    ensures
        deliveries_match(replies, delivered.push(state)),
{
    assert forall|j: int|
        0 <= j < delivered.push(state).len() implies (#[trigger] replies[j]) is Ok by {}
    assert forall|j: int|
        #![trigger delivered.push(state)[j]]
        0 <= j < delivered.push(state).len() implies delivered.push(state)[j].desktop_names
        == replies[j]->Ok_0 && delivered.push(state)[j].desktop_layout@ == Seq::<char>::empty() by {
        if j < delivered.len() {
            assert(delivered.push(state)[j] == delivered[j]);
        } else {
            assert(delivered.push(state)[j] == state);
        }
    }
}

/// Drive the bridge's decision rule over a finite script of query replies,
/// as the polling thread does while the channel stays open: each successful
/// reply becomes one delivery, in order; the first failure stops the run at
/// once with its error, consulting nothing after it — an unreachable window
/// manager is never retried.
pub fn bridge_run_script(replies: Vec<Result<Vec<String>, QueryError>>) -> (r: (
    Vec<DesktopState>,
    Result<(), QueryError>,
))
    ensures
        deliveries_match(replies@, r.0@),
        r.1 is Ok ==> r.0@.len() == replies@.len(),
        r.1 matches Err(e) ==> r.0@.len() < replies@.len() && replies@[r.0@.len() as int] == Err::<
            Vec<String>,
            QueryError,
        >(e),
{
    let ghost script = replies@;
    let mut rest = replies;
    let mut delivered: Vec<DesktopState> = Vec::new();
    loop
        invariant
            script == replies@,
            delivered@.len() + rest@.len() == script.len(),
            script.subrange(delivered@.len() as int, script.len() as int) == rest@,
            deliveries_match(script, delivered@),
        decreases rest@.len(),
    {
        if rest.len() == 0 {
            return (delivered, Ok(()));
        }
        let head = rest.remove(0);
        proof {
            assert(head == script[delivered@.len() as int]);
            assert(script.subrange(delivered@.len() as int, script.len() as int).remove(0)
                =~= script.subrange(delivered@.len() as int + 1, script.len() as int));
        }
        match bridge_on_query(head) {
            BridgeStep::Deliver(state) => {
                let ghost prev = delivered@;
                let ghost pushed = state;
                proof {
                    assert(head is Ok);
                    lemma_deliveries_match_push(script, prev, pushed);
                }
                delivered.push(state);
                proof {
                    assert(delivered@ == prev.push(pushed));
                }
            },
            BridgeStep::StopFailed(e) => {
                return (delivered, Err(e));
            },
            // A query decides only between delivering and failing.
            BridgeStep::SleepThenPoll => vstd::pervasive::unreached(),
            BridgeStep::StopClean => vstd::pervasive::unreached(),
        }
    }
}

/// An unreachable window manager terminates the bridge: the decision on any
/// failed query is terminal and carries the error — never a retry, never a
/// delivery.
pub proof fn lemma_query_failure_terminates(
    reply: Result<Vec<String>, QueryError>,
    step: BridgeStep,
)
    requires
        reply is Err,
        query_decision(reply, step),
    ensures
        step_is_terminal(step),
        step == BridgeStep::StopFailed(reply->Err_0),
{
}

} // verus!
