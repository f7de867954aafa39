//! Connection manager: the layered retry state machine that sequences
//! link-establishment, transport-establishment, protocol handshake and the
//! steady-state publish loop. Each layer retries on its own fixed delay, and
//! a failure re-enters at its own layer: a publish or handshake failure goes
//! back to the transport layer, never to the link layer.
//!
//! The machine itself is pure: it maps the current state and the outcome of
//! the state's entry action (reported by the caller as an [`Event`]) to the
//! next state, whether the transport session must be closed, and how long to
//! wait before acting again. The caller performs the I/O and the delays.

use vstd::prelude::*;

verus! {

/// Delay before retrying a failed link-connect request.
pub const LINK_RETRY_DELAY_MS: u32 = 3000;

/// Poll interval while waiting for the link layer's address assignment.
pub const ADDRESS_POLL_DELAY_MS: u32 = 500;

/// Delay before retrying a failed transport connect or a failed handshake.
pub const TRANSPORT_RETRY_DELAY_MS: u32 = 5000;

/// Pause between two consecutive publish attempts in steady state.
pub const PUBLISH_PERIOD_MS: u32 = 2000;

/// The connection manager's position in the layered bring-up sequence.
#[derive(Clone, Copy, Debug, PartialEq, Eq, Structural)]
pub enum ConnectionState {
    /// The wireless link is not associated; a link connect is requested here.
    LinkDown,
    /// The link is associated; waiting for an address assignment.
    LinkUp,
    /// Opening a transport session to the broker endpoint.
    TransportConnecting,
    /// A transport session is open but the handshake has not started.
    /// No row of the transition table leads here: the machine moves straight
    /// from `TransportConnecting` to `HandshakePending`.
    TransportUp,
    /// The protocol handshake is in flight over the open session.
    HandshakePending,
    /// The handshake was accepted; the first publish has not happened yet.
    Ready,
    /// Steady state: readings are published on a fixed period.
    Publishing,
}

/// The outcome of a state's entry action, reported back by the caller.
#[derive(Clone, Copy, Debug, PartialEq, Eq, Structural)]
pub enum Event {
    /// The link layer associated.
    LinkConnected,
    /// The link layer refused or dropped the association request.
    LinkConnectFailed,
    /// The link layer assigned an address.
    AddressAssigned,
    /// No address has been assigned yet.
    AddressPending,
    /// A transport session to the broker endpoint is open.
    TransportConnected,
    /// The transport session could not be opened.
    TransportConnectFailed,
    /// The protocol handshake was accepted by the broker.
    HandshakeCompleted,
    /// The handshake failed: a write, a read, or a protocol refusal.
    HandshakeFailed,
    /// One reading was encoded and written in full.
    PublishSucceeded,
    /// The publish attempt failed, at encode time or on the wire.
    PublishFailed,
}

/// What the caller must do after a transition: move to `next`, close the
/// transport session first if `close_session` holds, and wait `delay_ms`
/// before performing the next state's entry action.
#[derive(Clone, Copy, Debug, PartialEq, Eq, Structural)]
pub struct Step {
    pub next: ConnectionState,
    pub close_session: bool,
    pub delay_ms: u32,
}

/// The transition table. An event that does not belong to the current state
/// leaves the machine where it is, with nothing to close and no delay.
pub open spec fn spec_step(s: ConnectionState, e: Event) -> Step {
    match (s, e) {
        (ConnectionState::LinkDown, Event::LinkConnected) => Step {
            next: ConnectionState::LinkUp,
            close_session: false,
            delay_ms: 0,
        },
        (ConnectionState::LinkDown, Event::LinkConnectFailed) => Step {
            next: ConnectionState::LinkDown,
            close_session: false,
            delay_ms: LINK_RETRY_DELAY_MS,
        },
        (ConnectionState::LinkUp, Event::AddressAssigned) => Step {
            next: ConnectionState::TransportConnecting,
            close_session: false,
            delay_ms: 0,
        },
        (ConnectionState::LinkUp, Event::AddressPending) => Step {
            next: ConnectionState::LinkUp,
            close_session: false,
            delay_ms: ADDRESS_POLL_DELAY_MS,
        },
        (ConnectionState::TransportConnecting, Event::TransportConnected) => Step {
            next: ConnectionState::HandshakePending,
            close_session: false,
            delay_ms: 0,
        },
        (ConnectionState::TransportConnecting, Event::TransportConnectFailed) => Step {
            next: ConnectionState::TransportConnecting,
            close_session: true,
            delay_ms: TRANSPORT_RETRY_DELAY_MS,
        },
        (ConnectionState::HandshakePending, Event::HandshakeCompleted) => Step {
            next: ConnectionState::Ready,
            close_session: false,
            delay_ms: 0,
        },
        (ConnectionState::HandshakePending, Event::HandshakeFailed) => Step {
            next: ConnectionState::TransportConnecting,
            close_session: true,
            delay_ms: TRANSPORT_RETRY_DELAY_MS,
        },
        (ConnectionState::Ready, Event::PublishSucceeded) => Step {
            next: ConnectionState::Publishing,
            close_session: false,
            delay_ms: PUBLISH_PERIOD_MS,
        },
        (ConnectionState::Ready, Event::PublishFailed) => Step {
            next: ConnectionState::TransportConnecting,
            close_session: true,
            delay_ms: 0,
        },
        (ConnectionState::Publishing, Event::PublishSucceeded) => Step {
            next: ConnectionState::Publishing,
            close_session: false,
            delay_ms: PUBLISH_PERIOD_MS,
        },
        (ConnectionState::Publishing, Event::PublishFailed) => Step {
            next: ConnectionState::TransportConnecting,
            close_session: true,
            delay_ms: 0,
        },
        (_, _) => Step { next: s, close_session: false, delay_ms: 0 },
    }
}

/// One transition of the state machine, exactly as the table gives it.
pub fn transition(s: ConnectionState, e: Event) -> (step: Step)
    ensures
        step == spec_step(s, e),
{
    match (s, e) {
        (ConnectionState::LinkDown, Event::LinkConnected) => Step {
            next: ConnectionState::LinkUp,
            close_session: false,
            delay_ms: 0,
        },
        (ConnectionState::LinkDown, Event::LinkConnectFailed) => Step {
            next: ConnectionState::LinkDown,
            close_session: false,
            delay_ms: LINK_RETRY_DELAY_MS,
        },
        (ConnectionState::LinkUp, Event::AddressAssigned) => Step {
            next: ConnectionState::TransportConnecting,
            close_session: false,
            delay_ms: 0,
        },
        (ConnectionState::LinkUp, Event::AddressPending) => Step {
            next: ConnectionState::LinkUp,
            close_session: false,
            delay_ms: ADDRESS_POLL_DELAY_MS,
        },
        (ConnectionState::TransportConnecting, Event::TransportConnected) => Step {
            next: ConnectionState::HandshakePending,
            close_session: false,
            delay_ms: 0,
        },
        (ConnectionState::TransportConnecting, Event::TransportConnectFailed) => Step {
            next: ConnectionState::TransportConnecting,
            close_session: true,
            delay_ms: TRANSPORT_RETRY_DELAY_MS,
        },
        (ConnectionState::HandshakePending, Event::HandshakeCompleted) => Step {
            next: ConnectionState::Ready,
            close_session: false,
            delay_ms: 0,
        },
        (ConnectionState::HandshakePending, Event::HandshakeFailed) => Step {
            next: ConnectionState::TransportConnecting,
            close_session: true,
            delay_ms: TRANSPORT_RETRY_DELAY_MS,
        },
        (ConnectionState::Ready, Event::PublishSucceeded) => Step {
            next: ConnectionState::Publishing,
            close_session: false,
            delay_ms: PUBLISH_PERIOD_MS,
        },
        (ConnectionState::Ready, Event::PublishFailed) => Step {
            next: ConnectionState::TransportConnecting,
            close_session: true,
            delay_ms: 0,
        },
        (ConnectionState::Publishing, Event::PublishSucceeded) => Step {
            next: ConnectionState::Publishing,
            close_session: false,
            delay_ms: PUBLISH_PERIOD_MS,
        },
        (ConnectionState::Publishing, Event::PublishFailed) => Step {
            next: ConnectionState::TransportConnecting,
            close_session: true,
            delay_ms: 0,
        },
        (_, _) => Step { next: s, close_session: false, delay_ms: 0 },
    }
}

/// The connection manager: holds the current state; [`Self::handle`] is the
/// only mutator.
pub struct ConnectionManager {
    state: ConnectionState,
}

impl ConnectionManager {
    /// The manager's current state, for contracts.
    pub closed spec fn spec_state(&self) -> ConnectionState {
        self.state
    }

    /// A fresh manager starts with the link down.
    pub fn new() -> (m: ConnectionManager)
        ensures
            m.spec_state() == ConnectionState::LinkDown,
    {
        ConnectionManager { state: ConnectionState::LinkDown }
    }

    /// The manager's current state.
    pub fn state(&self) -> (s: ConnectionState)
        ensures
            s == self.spec_state(),
    {
        self.state
    }

    /// Feeds the outcome of the current state's entry action into the
    /// machine and moves to the state the table names.
    pub fn handle(&mut self, e: Event) -> (step: Step)
        ensures
            step == spec_step(old(self).spec_state(), e),
            final(self).spec_state() == step.next,
    {
        let step = transition(self.state, e);
        self.state = step.next;
        step
    }
}

/// Law: once the link is up, no failure at the transport, handshake or
/// publish layer ever sends the machine back to a link-layer state — those
/// layers retry from `TransportConnecting` at the lowest.
pub proof fn lemma_failure_never_reenters_link(s: ConnectionState, e: Event)
    requires
        s == ConnectionState::TransportConnecting || s == ConnectionState::HandshakePending || s
            == ConnectionState::Ready || s == ConnectionState::Publishing,
    ensures
        spec_step(s, e).next != ConnectionState::LinkDown,
        spec_step(s, e).next != ConnectionState::LinkUp,
{
}

/// Law: the transport session is closed on every exit from the `Publishing`
/// state, success or failure, and more generally whenever a handshake or
/// publish layer falls back to `TransportConnecting`, before a new session
/// is opened there.
pub proof fn lemma_session_closed_on_exit(s: ConnectionState, e: Event)
    requires
        s == ConnectionState::HandshakePending || s == ConnectionState::Ready || s
            == ConnectionState::Publishing,
    ensures
        spec_step(s, e).next == ConnectionState::TransportConnecting ==> spec_step(
            s,
            e,
        ).close_session,
        s == ConnectionState::Publishing && spec_step(s, e).next != ConnectionState::Publishing
            ==> spec_step(s, e).close_session,
{
}

/// Law: every bring-up failure is answered with a retry delay at its own
/// layer; only a publish failure reconnects at once.
pub proof fn lemma_failures_delay(s: ConnectionState, e: Event)
    requires
        (s == ConnectionState::LinkDown && e == Event::LinkConnectFailed) || (s
            == ConnectionState::LinkUp && e == Event::AddressPending) || (s
            == ConnectionState::TransportConnecting && e == Event::TransportConnectFailed) || (s
            == ConnectionState::HandshakePending && e == Event::HandshakeFailed),
    ensures
        spec_step(s, e).delay_ms > 0,
{
}

} // verus!
