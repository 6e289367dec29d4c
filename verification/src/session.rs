//! The life of one capture attempt: the errors it can surface, how the race
//! between delivery, channel loss and the deadline resolves, and a state
//! machine whose invariant guarantees that the outcome is delivered at most
//! once, only after the response has been written, and that every terminal
//! state has released the listening socket.
//!
//! The sockets, the timer and the background task live outside the library;
//! they drive this machine and take every decision from it.

use vstd::prelude::*;
use vstd::string::StringExecFns;

use crate::text::dec_spec;
use crate::text::u64_to_string;
use crate::OAuthCallbackResult;

verus! {

/// An error of one capture attempt.  Malformed redirects are not errors:
/// they parse into an outcome whose `error` field is set.
#[derive(Debug)]
pub enum OAuthError {
    /// The environment could not supply an unused loopback port.
    NoPortAvailable,
    /// Binding the listener to the reserved port failed.
    BindError { port: u16, cause: String },
    /// The deadline elapsed before any redirect arrived.
    Timeout { timeout_secs: u64 },
    /// The delivery channel closed without ever carrying an outcome.
    ChannelClosed,
}

/// The human-readable description of an error.
pub open spec fn message_spec(e: OAuthError) -> Seq<char> {
    match e {
        OAuthError::NoPortAvailable => "No available port found"@,
        OAuthError::BindError { port, cause } => "Failed to bind to 127.0.0.1:"@ + dec_spec(
            port as nat,
        ) + ": "@ + cause@,
        OAuthError::Timeout { timeout_secs } => "OAuth callback timed out after "@ + dec_spec(
            timeout_secs as nat,
        ) + " seconds"@,
        OAuthError::ChannelClosed => "OAuth callback channel closed unexpectedly"@,
    }
}

impl OAuthError {
    /// Renders the error as text, following `message_spec`.
    pub fn message(&self) -> (r: String)
        ensures
            r@ == message_spec(*self),
    {
        match self {
            OAuthError::NoPortAvailable => "No available port found".to_owned(),
            OAuthError::BindError { port, cause } => {
                let mut r: String = "Failed to bind to 127.0.0.1:".to_owned();
                let p: String = u64_to_string(*port as u64);
                r.append(p.as_str());
                r.append(": ");
                r.append(cause.as_str());
                r
            },
            OAuthError::Timeout { timeout_secs } => {
                let mut r: String = "OAuth callback timed out after ".to_owned();
                let t: String = u64_to_string(*timeout_secs);
                r.append(t.as_str());
                r.append(" seconds");
                r
            },
            OAuthError::ChannelClosed => "OAuth callback channel closed unexpectedly".to_owned(),
        }
    }
}

/// Turns the result of the environment's port probe into the caller-facing
/// result: the port when one was found, `NoPortAvailable` otherwise.
pub fn reserve_port_outcome(picked: Option<u16>) -> (r: Result<u16, OAuthError>)
    ensures
        match picked {
            Some(p) => r == Ok::<u16, OAuthError>(p),
            None => r == Err::<u16, OAuthError>(OAuthError::NoPortAvailable),
        },
{
    match picked {
        Some(p) => Ok(p),
        None => Err(OAuthError::NoPortAvailable),
    }
}

/// How the foreground race ended: the outcome arrived, the channel closed
/// without one, or the deadline elapsed first.
pub enum WaitOutcome {
    Received(OAuthCallbackResult),
    Closed,
    DeadlineElapsed,
}

/// Resolves the foreground race: a received outcome is returned as is, a
/// closed channel becomes `ChannelClosed`, an elapsed deadline becomes
/// `Timeout` carrying the caller's timeout.
pub fn resolve_wait(event: WaitOutcome, timeout_secs: u64) -> (r: Result<
    OAuthCallbackResult,
    OAuthError,
>)
    ensures
        match event {
            WaitOutcome::Received(o) => r is Ok && r->Ok_0 == o,
            WaitOutcome::Closed => r is Err && r->Err_0 == OAuthError::ChannelClosed,
            WaitOutcome::DeadlineElapsed => r is Err && r->Err_0 == (OAuthError::Timeout {
                timeout_secs,
            }),
        },
{
    match event {
        WaitOutcome::Received(o) => Ok(o),
        WaitOutcome::Closed => Err(OAuthError::ChannelClosed),
        WaitOutcome::DeadlineElapsed => Err(OAuthError::Timeout { timeout_secs }),
    }
}

/// The phases of one capture attempt.
pub enum SessionState {
    /// Nothing bound yet.
    Idle,
    /// Binding the reserved port failed; terminal.
    BindFailed,
    /// The listener is bound, the accept loop not yet running.
    Bound,
    /// The accept loop runs and races against the deadline.
    Waiting,
    /// The outcome was handed to the caller; terminal.
    Delivered,
    /// The deadline elapsed first; terminal.
    TimedOut,
    /// The delivery channel closed without an outcome; terminal.
    ChannelLost,
}

/// The state of one capture attempt, with the bookkeeping the laws speak
/// of: whether the socket is still bound, whether the response bytes have
/// been written, and how many outcomes have been delivered.
pub struct ListenerSession {
    pub state: SessionState,
    pub socket_bound: bool,
    pub response_written: bool,
    pub deliveries: u64,
}

impl ListenerSession {
    /// The states in which the attempt is over.
    pub open spec fn is_terminal(self) -> bool {
        self.state is BindFailed || self.state is Delivered || self.state is TimedOut
            || self.state is ChannelLost
    }

    /// The invariant every reachable session satisfies: the socket is bound
    /// exactly while the attempt is live past the bind, at most one outcome
    /// is ever delivered, a delivery happens only after the response was
    /// written, and every terminal state has released the socket.
    pub open spec fn wf(self) -> bool {
        &&& (self.socket_bound <==> self.state is Bound || self.state is Waiting)
        &&& self.deliveries <= 1
        &&& (self.deliveries == 1 <==> self.state is Delivered)
        &&& (self.state is Delivered ==> self.response_written)
        &&& (self.state is Idle || self.state is Bound ==> !self.response_written)
    }

    /// A fresh attempt: nothing bound, nothing written, nothing delivered.
    pub fn new() -> (s: Self)
        ensures
            s.state is Idle,
            !s.socket_bound,
            !s.response_written,
            s.deliveries == 0,
            s.wf(),
    {
        ListenerSession {
            state: SessionState::Idle,
            socket_bound: false,
            response_written: false,
            deliveries: 0,
        }
    }

    /// The bind resolved: the session holds the socket on success and is
    /// terminal on failure, with nothing bound.
    pub fn on_bind(&mut self, ok: bool)
        requires
            old(self).state is Idle,
            old(self).wf(),
        ensures
            final(self).wf(),
            ok ==> final(self).state is Bound && final(self).socket_bound,
            !ok ==> final(self).state is BindFailed && !final(self).socket_bound,
            final(self).deliveries == 0,
            !final(self).response_written,
    {
        if ok {
            self.state = SessionState::Bound;
            self.socket_bound = true;
        } else {
            self.state = SessionState::BindFailed;
        }
    }

    /// The background accept loop started; the race is on.
    pub fn on_accept_loop_started(&mut self)
        requires
            old(self).state is Bound,
            old(self).wf(),
        ensures
            final(self).wf(),
            final(self).state is Waiting,
            final(self).socket_bound,
            final(self).deliveries == 0,
    {
        self.state = SessionState::Waiting;
    }

    /// The full response was flushed to the browser's connection.  This is
    /// the only step that permits a later delivery.
    pub fn on_response_written(&mut self)
        requires
            old(self).state is Waiting,
            old(self).wf(),
        ensures
            final(self).wf(),
            final(self).state is Waiting,
            final(self).socket_bound,
            final(self).response_written,
            final(self).deliveries == 0,
    {
        self.response_written = true;
    }

    /// The outcome reached the caller: terminal, the one delivery consumed,
    /// socket and background task released.
    pub fn on_delivered(&mut self)
        requires
            old(self).state is Waiting,
            old(self).response_written,
            old(self).wf(),
        ensures
            final(self).wf(),
            final(self).state is Delivered,
            final(self).is_terminal(),
            !final(self).socket_bound,
            final(self).deliveries == 1,
    {
        self.state = SessionState::Delivered;
        self.socket_bound = false;
        self.deliveries = self.deliveries + 1;
    }

    /// The channel's producer side vanished without sending: terminal, no
    /// delivery, socket released.
    pub fn on_channel_closed(&mut self)
        requires
            old(self).state is Waiting,
            old(self).wf(),
        ensures
            final(self).wf(),
            final(self).state is ChannelLost,
            final(self).is_terminal(),
            !final(self).socket_bound,
            final(self).deliveries == 0,
    {
        self.state = SessionState::ChannelLost;
        self.socket_bound = false;
    }

    /// The deadline elapsed first: terminal, no delivery, socket released.
    pub fn on_deadline(&mut self)
        requires
            old(self).state is Waiting,
            old(self).wf(),
        ensures
            final(self).wf(),
            final(self).state is TimedOut,
            final(self).is_terminal(),
            !final(self).socket_bound,
            final(self).deliveries == 0,
    {
        self.state = SessionState::TimedOut;
        self.socket_bound = false;
    }
}

/// After any terminal outcome — delivered, timed out, channel lost, or a
/// failed bind — the listening socket is no longer bound, so the port can
/// immediately be bound again.
pub proof fn lemma_terminal_releases_socket(s: ListenerSession)
    requires
        s.wf(),
        s.is_terminal(),
    ensures
        !s.socket_bound,
{
}

/// A session hands the caller at most one outcome, and hands one exactly
/// when it ended in `Delivered`; the delivery comes only after the response
/// was fully written.  Since `Delivered` is terminal and no step accepts a
/// terminal state, a second connection can never be answered or delivered.
pub proof fn lemma_single_delivery(s: ListenerSession)
    requires
        s.wf(),
    ensures
        s.deliveries <= 1,
        s.deliveries == 1 <==> s.state is Delivered,
        s.state is Delivered ==> s.response_written,
{
}

} // verus!
