//! The listener task as a state machine. The unverified shell that owns the
//! thread and the sockets feeds each observation in as an event and performs
//! the action handed back; every decision of the serving loop is made and
//! proved here.
//!
//! States: Joining -> AwaitingReady -> Serving (self-loop) -> Stopped, with
//! a fatal abort out of Joining when the multicast join fails.

use vstd::prelude::*;

use crate::addr::SockAddress;
use crate::payload::copy_bytes;
use crate::plans::SocketConfig;
use crate::plans::socket_config;
use crate::plans::socket_config_for;

verus! {

/// The phases of the listener task.
#[derive(Clone, Copy, Debug, PartialEq, Eq, Structural)]
pub enum ListenerState {
    /// Building the joined, bound receive socket.
    Joining,
    /// Joined; waiting at the ready rendezvous.
    AwaitingReady,
    /// In the receive/respond loop.
    Serving,
    /// Terminal: told to stop, or aborted during setup.
    Stopped,
}

/// What the shell observed since the last step.
pub enum ListenerEvent {
    /// The join plan was executed; `ok` says whether every step succeeded.
    JoinOutcome { ok: bool },
    /// Both parties crossed the ready rendezvous.
    ReadyCompleted,
    /// The shutdown flag read true at the top of the serving loop.
    ShutdownSeen,
    /// A datagram arrived: its (possibly truncated) bytes and its origin.
    Datagram { data: Vec<u8>, from: SockAddress },
    /// The receive timed out or failed transiently; no data arrived.
    ReceiveFailed,
}

/// What the shell must do next.
pub enum ListenerAction {
    /// Arrive at the ready rendezvous and block until it completes.
    AwaitReady,
    /// Check the shutdown flag, then receive with the bounded timeout.
    Poll,
    /// Build a fresh unicast socket per `socket` and send `payload` to
    /// `to`; a failure here is fatal to the test.
    Respond { socket: SocketConfig, payload: Vec<u8>, to: SockAddress },
    /// Setup failed: surface a test setup failure.
    AbortSetup,
    /// Terminal: nothing more to do.
    Finish,
}

/// Which events can be observed in which state.
pub open spec fn event_enabled(s: ListenerState, e: ListenerEvent) -> bool {
    match e {
        ListenerEvent::JoinOutcome { .. } => s == ListenerState::Joining,
        ListenerEvent::ReadyCompleted => s == ListenerState::AwaitingReady,
        ListenerEvent::ShutdownSeen => s == ListenerState::Serving,
        ListenerEvent::Datagram { .. } => s == ListenerState::Serving,
        ListenerEvent::ReceiveFailed => s == ListenerState::Serving,
    }
}

/// The state after an enabled event.
pub open spec fn next_state(s: ListenerState, e: ListenerEvent) -> ListenerState {
    match e {
        ListenerEvent::JoinOutcome { ok } => if ok {
            ListenerState::AwaitingReady
        } else {
            ListenerState::Stopped
        },
        ListenerEvent::ReadyCompleted => ListenerState::Serving,
        ListenerEvent::ShutdownSeen => ListenerState::Stopped,
        ListenerEvent::Datagram { .. } => ListenerState::Serving,
        ListenerEvent::ReceiveFailed => ListenerState::Serving,
    }
}

/// The listener task: its phase and the fixed payload it answers with.
pub struct ListenerTask {
    pub state: ListenerState,
    pub response: Vec<u8>,
}

/// The action an enabled event calls for, given the task's fixed response.
pub open spec fn step_action(t: ListenerTask, e: ListenerEvent) -> ListenerAction {
    match e {
        ListenerEvent::JoinOutcome { ok } => if ok {
            ListenerAction::AwaitReady
        } else {
            ListenerAction::AbortSetup
        },
        ListenerEvent::ReadyCompleted => ListenerAction::Poll,
        ListenerEvent::ShutdownSeen => ListenerAction::Finish,
        ListenerEvent::Datagram { data, from } => ListenerAction::Respond {
            socket: socket_config_for(from),
            payload: t.response,
            to: from,
        },
        ListenerEvent::ReceiveFailed => ListenerAction::Poll,
    }
}

impl ListenerTask {
    /// A fresh task about to join, answering with `response`.
    pub fn new(response: Vec<u8>) -> (r: ListenerTask)
        ensures
            r.state == ListenerState::Joining,
            r.response@ == response@,
    {
        ListenerTask { state: ListenerState::Joining, response }
    }

    /// Take one step: move to the next state and say what to do. The
    /// response payload never changes.
    pub fn on_event(&mut self, e: ListenerEvent) -> (a: ListenerAction)
        requires
            event_enabled(old(self).state, e),
        ensures
            final(self).state == next_state(old(self).state, e),
            final(self).response@ == old(self).response@,
            action_matches(a, step_action(*old(self), e)),
    {
        match e {
            ListenerEvent::JoinOutcome { ok } => {
                if ok {
                    self.state = ListenerState::AwaitingReady;
                    ListenerAction::AwaitReady
                } else {
                    self.state = ListenerState::Stopped;
                    ListenerAction::AbortSetup
                }
            },
            ListenerEvent::ReadyCompleted => {
                self.state = ListenerState::Serving;
                ListenerAction::Poll
            },
            ListenerEvent::ShutdownSeen => {
                self.state = ListenerState::Stopped;
                ListenerAction::Finish
            },
            ListenerEvent::Datagram { data: _, from } => {
                let socket = socket_config(&from);
                let payload = copy_bytes(&self.response);
                ListenerAction::Respond { socket, payload, to: from }
            },
            ListenerEvent::ReceiveFailed => ListenerAction::Poll,
        }
    }
}

/// Whether two actions agree: the same instruction, with payloads compared
/// byte for byte.
pub open spec fn action_matches(a: ListenerAction, b: ListenerAction) -> bool {
    match (a, b) {
        (ListenerAction::AwaitReady, ListenerAction::AwaitReady) => true,
        (ListenerAction::Poll, ListenerAction::Poll) => true,
        (
            ListenerAction::Respond { socket: sa, payload: pa, to: ta },
            ListenerAction::Respond { socket: sb, payload: pb, to: tb },
        ) => sa == sb && pa@ == pb@ && ta == tb,
        (ListenerAction::AbortSetup, ListenerAction::AbortSetup) => true,
        (ListenerAction::Finish, ListenerAction::Finish) => true,
        _ => false,
    }
}

/// A receive that times out or fails without data is not fatal: the task
/// stays in Serving, and the next action is Poll, which re-checks the
/// shutdown flag before the next bounded receive.
pub proof fn lemma_receive_failure_not_fatal(t: ListenerTask)
    requires
        t.state == ListenerState::Serving,
    ensures
        next_state(t.state, ListenerEvent::ReceiveFailed) == ListenerState::Serving,
        step_action(t, ListenerEvent::ReceiveFailed) == ListenerAction::Poll,
{
}

} // verus!
