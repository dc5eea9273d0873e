//! A model of one whole test run: the two threads of control (harness and
//! listener), the ready rendezvous, the shutdown flag and the probe, as a
//! transition system. Its invariant proves the ordering guarantees: the
//! listener never enters Serving, and the harness never sends its probe,
//! before the rendezvous has completed on both sides.

use vstd::prelude::*;

use crate::addr::Family;
use crate::addr::SockAddress;
use crate::listener::ListenerAction;
use crate::listener::ListenerEvent;
use crate::listener::ListenerState;
use crate::listener::ListenerTask;
use crate::listener::next_state;
use crate::listener::step_action;
use crate::payload::response_bytes;
use crate::plans::socket_config_for;

verus! {

/// The shared state of one run, seen from outside both threads.
pub struct RunModel {
    /// The listener task's phase.
    pub listener: ListenerState,
    /// The listener has arrived at the ready rendezvous.
    pub listener_at_barrier: bool,
    /// The harness has arrived at the ready rendezvous.
    pub harness_at_barrier: bool,
    /// The shutdown flag has been raised.
    pub shutdown_raised: bool,
    /// The harness has sent its probe datagram.
    pub probe_sent: bool,
}

/// The rendezvous has completed: both parties arrived.
pub open spec fn rendezvous_complete(r: RunModel) -> bool {
    r.listener_at_barrier && r.harness_at_barrier
}

/// The state a run starts in.
pub open spec fn run_init(r: RunModel) -> bool {
    &&& r.listener == ListenerState::Joining
    &&& !r.listener_at_barrier
    &&& !r.harness_at_barrier
    &&& !r.shutdown_raised
    &&& !r.probe_sent
}

/// The atomic steps either thread can take.
#[derive(Clone, Copy, Debug, PartialEq, Eq, Structural)]
pub enum RunStep {
    /// Listener: the multicast join succeeded.
    JoinOk,
    /// Listener: the multicast join failed; the task aborts.
    JoinFail,
    /// Listener: arrive at the rendezvous.
    ListenerArrive,
    /// Harness: arrive at the rendezvous.
    HarnessArrive,
    /// Listener: proceed past the completed rendezvous into Serving.
    BeginServing,
    /// Harness: proceed past the completed rendezvous and send the probe.
    SendProbe,
    /// Listener: one serving iteration (receive, respond or time out).
    ServeIteration,
    /// Harness: the shutdown guarantee raises the flag.
    RaiseShutdown,
    /// Listener: read the raised flag at loop top and stop.
    ObserveShutdown,
}

/// The transition relation: which step is allowed where, and what changes.
pub open spec fn run_next(pre: RunModel, s: RunStep, post: RunModel) -> bool {
    match s {
        RunStep::JoinOk => pre.listener == ListenerState::Joining && post == (RunModel {
            listener: ListenerState::AwaitingReady,
            ..pre
        }),
        RunStep::JoinFail => pre.listener == ListenerState::Joining && post == (RunModel {
            listener: ListenerState::Stopped,
            ..pre
        }),
        RunStep::ListenerArrive => pre.listener == ListenerState::AwaitingReady
            && !pre.listener_at_barrier && post == (RunModel {
            listener_at_barrier: true,
            ..pre
        }),
        RunStep::HarnessArrive => !pre.harness_at_barrier && post == (RunModel {
            harness_at_barrier: true,
            ..pre
        }),
        RunStep::BeginServing => pre.listener == ListenerState::AwaitingReady
            && rendezvous_complete(pre) && post == (RunModel {
            listener: ListenerState::Serving,
            ..pre
        }),
        RunStep::SendProbe => rendezvous_complete(pre) && post == (RunModel {
            probe_sent: true,
            ..pre
        }),
        RunStep::ServeIteration => pre.listener == ListenerState::Serving && post == pre,
        RunStep::RaiseShutdown => post == (RunModel { shutdown_raised: true, ..pre }),
        RunStep::ObserveShutdown => pre.listener == ListenerState::Serving && pre.shutdown_raised
            && post == (RunModel { listener: ListenerState::Stopped, ..pre }),
    }
}

/// The run invariant: serving and probing happen only after the rendezvous
/// has completed on both sides.
pub open spec fn run_inv(r: RunModel) -> bool {
    &&& r.listener == ListenerState::Serving ==> rendezvous_complete(r)
    &&& r.probe_sent ==> rendezvous_complete(r)
}

/// The initial state satisfies the invariant.
pub proof fn lemma_init_inv(r: RunModel)
    requires
        run_init(r),
    ensures
        run_inv(r),
{
}

/// Every allowed step preserves the invariant.
pub proof fn lemma_step_inv(pre: RunModel, s: RunStep, post: RunModel)
    requires
        run_inv(pre),
        run_next(pre, s, post),
    ensures
        run_inv(post),
{
}

/// A run: a sequence of allowed steps from `pre` to `post`.
pub open spec fn run_trace(pre: RunModel, steps: Seq<RunStep>, post: RunModel) -> bool
    decreases steps.len(),
{
    if steps.len() == 0 {
        post == pre
    } else {
        exists|mid: RunModel| run_next(pre, steps[0], mid) && run_trace(mid, steps.skip(1), post)
    }
}

/// The invariant holds along every run.
pub proof fn lemma_trace_inv(pre: RunModel, steps: Seq<RunStep>, post: RunModel)
    requires
        run_inv(pre),
        run_trace(pre, steps, post),
    ensures
        run_inv(post),
    decreases steps.len(),
{
    if steps.len() > 0 {
        let mid = choose|mid: RunModel|
            run_next(pre, steps[0], mid) && run_trace(mid, steps.skip(1), post);
        lemma_step_inv(pre, steps[0], mid);
        lemma_trace_inv(mid, steps.skip(1), post);
    }
}

/// No send-before-ready race: in every state a run can reach from the
/// start, the listener is in Serving only after both parties completed the
/// rendezvous, and the probe has been sent only after both parties
/// completed the rendezvous.
pub proof fn lemma_no_serving_before_rendezvous(pre: RunModel, steps: Seq<RunStep>, post: RunModel)
    requires
        run_init(pre),
        run_trace(pre, steps, post),
    ensures
        post.listener == ListenerState::Serving ==> rendezvous_complete(post),
        post.probe_sent ==> rendezvous_complete(post),
{
    lemma_init_inv(pre);
    lemma_trace_inv(pre, steps, post);
}

/// Once the shutdown flag is raised, a serving listener can always take
/// the step that observes it and stops: raising the flag unblocks the
/// serving loop at its next poll.
pub proof fn lemma_shutdown_observable(r: RunModel)
    requires
        r.listener == ListenerState::Serving,
        r.shutdown_raised,
    ensures
        run_next(r, RunStep::ObserveShutdown, (RunModel { listener: ListenerState::Stopped, ..r })),
{
}

/// For either address family: a listener in Serving that holds the
/// family's fixed response, on receiving any probe datagram, stays in
/// Serving and is told to answer the probe's origin — over a fresh unicast
/// socket of the origin's family — with exactly the expected payload for
/// that family.
pub proof fn lemma_probe_answered(t: ListenerTask, f: Family, data: Vec<u8>, from: SockAddress)
    requires
        t.state == ListenerState::Serving,
        t.response@ == response_bytes(f),
    ensures
        next_state(t.state, ListenerEvent::Datagram { data, from }) == ListenerState::Serving,
        step_action(t, ListenerEvent::Datagram { data, from }) == (ListenerAction::Respond {
            socket: socket_config_for(from),
            payload: t.response,
            to: from,
        }),
        socket_config_for(from).family == from.ip.family(),
        t.response@ == response_bytes(f),
{
}

} // verus!
