//! One connection attempt as a state machine.
//!
//! The library decides and the caller acts: `step` takes what happened
//! outside and answers with what to do next. An attempt moves forward only,
//! from `Idle` to one of three final phases, and is never retried.

use vstd::prelude::*;
use crate::address::{first_ipv4, select_address, SocketAddress};
use crate::error::{ConnectionError, Failure};
use crate::identity::{identity_name, infer_identity, name_view};

verus! {

/// Where an attempt stands.
#[derive(Clone, Copy, Debug, PartialEq, Eq, Structural)]
pub enum Phase {
    /// Nothing has been done yet.
    Idle,
    /// The resolver has been asked for the endpoint's addresses.
    Resolving,
    /// An address is chosen; the identity name is next.
    NameInferring(SocketAddress),
    /// The transport has been handed the address and the name.
    HandshakeInitiating,
    /// The handshake runs against a deadline of so many seconds.
    AwaitingCompletion(u64),
    /// Final: the handshake completed.
    Succeeded,
    /// Final: the deadline passed first.
    TimedOut,
    /// Final: the attempt failed for another reason.
    Failed,
}

impl Phase {
    pub open spec fn spec_is_final(&self) -> bool {
        *self is Succeeded || *self is TimedOut || *self is Failed
    }

    /// Whether the attempt is over.
    #[verifier::when_used_as_spec(spec_is_final)]
    pub fn is_final(&self) -> (b: bool)
        ensures
            b == self.spec_is_final(),
    {
        match self {
            Phase::Succeeded | Phase::TimedOut | Phase::Failed => true,
            _ => false,
        }
    }

    /// How far along a phase is. The three final phases stand together at
    /// the end.
    pub open spec fn rank(&self) -> nat {
        match *self {
            Phase::Idle => 0,
            Phase::Resolving => 1,
            Phase::NameInferring(_) => 2,
            Phase::HandshakeInitiating => 3,
            Phase::AwaitingCompletion(_) => 4,
            Phase::Succeeded => 5,
            Phase::TimedOut => 5,
            Phase::Failed => 5,
        }
    }
}

/// What happened outside since the last step.
#[derive(Clone, Debug, PartialEq, Eq)]
pub enum Event {
    /// Nothing had to happen: the attempt may go on.
    Proceed,
    /// The resolver answered with these candidates, in its order.
    Resolved(Vec<SocketAddress>),
    /// The resolver could not parse or resolve the endpoint.
    ResolutionFailed(String),
    /// The transport accepted the address and the name.
    SetupAccepted,
    /// The transport refused them before any I/O.
    SetupRejected(String),
    /// The handshake completed within the deadline.
    HandshakeCompleted,
    /// The handshake ended in a failure within the deadline.
    HandshakeRejected(String),
    /// The deadline passed before the handshake ended.
    DeadlineElapsed,
}

/// An event with its contents as sequences.
pub enum EventView {
    Proceed,
    Resolved(Seq<SocketAddress>),
    ResolutionFailed(Seq<char>),
    SetupAccepted,
    SetupRejected(Seq<char>),
    HandshakeCompleted,
    HandshakeRejected(Seq<char>),
    DeadlineElapsed,
}

impl View for Event {
    type V = EventView;

    open spec fn view(&self) -> EventView {
        match *self {
            Event::Proceed => EventView::Proceed,
            Event::Resolved(candidates) => EventView::Resolved(candidates@),
            Event::ResolutionFailed(why) => EventView::ResolutionFailed(why@),
            Event::SetupAccepted => EventView::SetupAccepted,
            Event::SetupRejected(why) => EventView::SetupRejected(why@),
            Event::HandshakeCompleted => EventView::HandshakeCompleted,
            Event::HandshakeRejected(why) => EventView::HandshakeRejected(why@),
            Event::DeadlineElapsed => EventView::DeadlineElapsed,
        }
    }
}

/// What the caller is to do next.
#[derive(Clone, Debug, PartialEq, Eq)]
pub enum Action {
    /// Resolve this endpoint string and answer with `Resolved` or
    /// `ResolutionFailed`.
    Resolve(String),
    /// Nothing to do outside: answer with `Proceed`.
    InferName,
    /// Open a handshake to `address` that expects `identity`, and answer
    /// with `SetupAccepted` or `SetupRejected`.
    Connect { address: SocketAddress, identity: String },
    /// Wait for the handshake, `seconds` at most, and answer with how it
    /// ended.
    AwaitHandshake { seconds: u64 },
    /// The attempt is over: it succeeded.
    ReportSuccess,
    /// The attempt is over: it failed.
    ReportFailure(ConnectionError),
    /// The event does not belong to the phase. Nothing changed.
    Ignore,
}

/// An action with its contents as sequences.
pub enum ActionView {
    Resolve(Seq<char>),
    InferName,
    Connect { address: SocketAddress, identity: Seq<char> },
    AwaitHandshake { seconds: u64 },
    ReportSuccess,
    ReportFailure(Failure),
    Ignore,
}

impl View for Action {
    type V = ActionView;

    open spec fn view(&self) -> ActionView {
        match *self {
            Action::Resolve(endpoint) => ActionView::Resolve(endpoint@),
            Action::InferName => ActionView::InferName,
            Action::Connect { address, identity } => ActionView::Connect {
                address,
                identity: identity@,
            },
            Action::AwaitHandshake { seconds } => ActionView::AwaitHandshake { seconds },
            Action::ReportSuccess => ActionView::ReportSuccess,
            Action::ReportFailure(e) => ActionView::ReportFailure(e@),
            Action::Ignore => ActionView::Ignore,
        }
    }
}

/// What an attempt was asked to do, and its phase.
pub struct AttemptView {
    pub endpoint: Seq<char>,
    pub server_name: Option<Seq<char>>,
    pub timeout: u64,
    pub phase: Phase,
}

/// The phase that follows `a.phase` on `e`, and the action that goes with
/// it. An event that the phase does not wait for changes nothing.
pub open spec fn transition(a: AttemptView, e: EventView) -> (Phase, ActionView) {
    match (a.phase, e) {
        (Phase::Idle, EventView::Proceed) => (Phase::Resolving, ActionView::Resolve(a.endpoint)),
        (Phase::Resolving, EventView::Resolved(candidates)) => match first_ipv4(candidates) {
            Some(address) => (Phase::NameInferring(address), ActionView::InferName),
            None => (Phase::Failed, ActionView::ReportFailure(Failure::NoIpv4Address)),
        },
        (Phase::Resolving, EventView::ResolutionFailed(why)) => (
            Phase::Failed,
            ActionView::ReportFailure(Failure::ResolverFailed(why)),
        ),
        (Phase::NameInferring(address), EventView::Proceed) => match identity_name(
            a.endpoint,
            a.server_name,
        ) {
            Some(identity) => (
                Phase::HandshakeInitiating,
                ActionView::Connect { address, identity },
            ),
            None => (Phase::Failed, ActionView::ReportFailure(Failure::IdentityInference)),
        },
        (Phase::HandshakeInitiating, EventView::SetupAccepted) => (
            Phase::AwaitingCompletion(a.timeout),
            ActionView::AwaitHandshake { seconds: a.timeout },
        ),
        (Phase::HandshakeInitiating, EventView::SetupRejected(why)) => (
            Phase::Failed,
            ActionView::ReportFailure(Failure::HandshakeSetup(why)),
        ),
        (Phase::AwaitingCompletion(_), EventView::HandshakeCompleted) => (
            Phase::Succeeded,
            ActionView::ReportSuccess,
        ),
        (Phase::AwaitingCompletion(_), EventView::HandshakeRejected(why)) => (
            Phase::Failed,
            ActionView::ReportFailure(Failure::Handshake(why)),
        ),
        (Phase::AwaitingCompletion(_), EventView::DeadlineElapsed) => (
            Phase::TimedOut,
            ActionView::ReportFailure(Failure::Timeout),
        ),
        _ => (a.phase, ActionView::Ignore),
    }
}

/// The attempt after `e`: only its phase can differ.
pub open spec fn after(a: AttemptView, e: EventView) -> AttemptView {
    AttemptView { phase: transition(a, e).0, ..a }
}

/// An attempt only moves forward: a step keeps the phase, with `Ignore` as
/// its action, or takes it to a later one, with another action. No event
/// leads back to an earlier phase.
pub proof fn lemma_step_moves_forward(a: AttemptView, e: EventView)
    ensures
        transition(a, e).0 == a.phase || transition(a, e).0.rank() > a.phase.rank(),
        transition(a, e).1 is Ignore <==> transition(a, e).0 == a.phase,
{
}

/// A final phase is left by no event: an attempt that is over is not
/// retried.
pub proof fn lemma_final_phase_stays(a: AttemptView, e: EventView)
    requires
        a.phase.spec_is_final(),
    ensures
        transition(a, e) == (a.phase, ActionView::Ignore),
{
}

/// A step reports an outcome exactly when it enters a final phase, and the
/// report fits the phase: success with `Succeeded`, the timeout with
/// `TimedOut`, every other failure with `Failed`.
pub proof fn lemma_report_fits_phase(a: AttemptView, e: EventView)
    ensures
        match transition(a, e).1 {
            ActionView::ReportSuccess => !a.phase.spec_is_final() && transition(a, e).0
                is Succeeded,
            ActionView::ReportFailure(f) => !a.phase.spec_is_final() && if f is Timeout {
                transition(a, e).0 is TimedOut
            } else {
                transition(a, e).0 is Failed
            },
            _ => a.phase.spec_is_final() || !transition(a, e).0.spec_is_final(),
        },
{
}

/// While the handshake is awaited, a deadline that passes first ends the
/// attempt in `TimedOut` with the failure `Timeout`: never in success, never
/// in a handshake failure. And nothing else ends an attempt that way.
pub proof fn lemma_deadline_means_timeout(a: AttemptView, e: EventView)
    ensures
        a.phase is AwaitingCompletion && e is DeadlineElapsed ==> transition(a, e) == (
            Phase::TimedOut,
            ActionView::ReportFailure(Failure::Timeout),
        ),
        transition(a, e).1 == ActionView::ReportFailure(Failure::Timeout) ==> a.phase
            is AwaitingCompletion && e is DeadlineElapsed,
        transition(a, e).0 is TimedOut && !(a.phase is TimedOut) ==> a.phase
            is AwaitingCompletion && e is DeadlineElapsed,
{
}

/// The handshake is only ever opened towards an IPv4 address chosen from
/// the resolver's candidates and with an identity name that is not empty;
/// it is awaited for the attempt's own timeout.
pub proof fn lemma_handshake_parameters(a: AttemptView, e: EventView)
    ensures
        transition(a, e).1 matches ActionView::Connect { address, identity } ==> {
            &&& a.phase == Phase::NameInferring(address)
            &&& identity_name(a.endpoint, a.server_name) == Some(identity)
            &&& identity.len() > 0
        },
        transition(a, e).0 is NameInferring && !(a.phase is NameInferring) ==> {
            &&& transition(a, e).0->NameInferring_0 is V4
            &&& e is Resolved
            &&& first_ipv4(e->Resolved_0) == Some(transition(a, e).0->NameInferring_0)
        },
        transition(a, e).1 matches ActionView::AwaitHandshake { seconds } ==> seconds
            == a.timeout && transition(a, e).0 == Phase::AwaitingCompletion(a.timeout),
{
    if let EventView::Resolved(candidates) = e {
        if a.phase is Resolving && first_ipv4(candidates) is Some {
            crate::address::lemma_selected_is_ipv4(candidates);
        }
    }
}

/// One connection attempt.
#[derive(Debug)]
pub struct Attempt {
    endpoint: String,
    server_name: Option<String>,
    timeout: u64,
    phase: Phase,
}

impl View for Attempt {
    type V = AttemptView;

    closed spec fn view(&self) -> AttemptView {
        AttemptView {
            endpoint: self.endpoint@,
            server_name: name_view(self.server_name),
            timeout: self.timeout,
            phase: self.phase,
        }
    }
}

impl Attempt {
    /// An attempt on `endpoint` that has not begun. `server_name`, where it
    /// is given and not empty, is the identity to expect of the peer;
    /// `timeout` bounds the handshake, in seconds.
    pub fn new(endpoint: &str, server_name: Option<String>, timeout: u64) -> (attempt: Attempt)
        ensures
            attempt@ == (AttemptView {
                endpoint: endpoint@,
                server_name: name_view(server_name),
                timeout,
                phase: Phase::Idle,
            }),
    {
        Attempt { endpoint: endpoint.to_owned(), server_name, timeout, phase: Phase::Idle }
    }

    /// The phase the attempt is in.
    pub fn phase(&self) -> (phase: Phase)
        ensures
            phase == self@.phase,
    {
        self.phase
    }

    /// The deadline of the handshake, in seconds.
    pub fn timeout(&self) -> (seconds: u64)
        ensures
            seconds == self@.timeout,
    {
        self.timeout
    }

    /// Takes an event, moves to the phase that follows, and says what to do
    /// next. Phase and action are those of `transition`; the endpoint, the
    /// name and the timeout never change.
    pub fn step(&mut self, event: Event) -> (action: Action)
        ensures
            final(self)@ == after(old(self)@, event@),
            action@ == transition(old(self)@, event@).1,
    {
        match (self.phase, event) {
            (Phase::Idle, Event::Proceed) => {
                self.phase = Phase::Resolving;
                Action::Resolve(self.endpoint.clone())
            },
            (Phase::Resolving, Event::Resolved(candidates)) => match select_address(&candidates) {
                Some(address) => {
                    self.phase = Phase::NameInferring(address);
                    Action::InferName
                },
                None => {
                    self.phase = Phase::Failed;
                    Action::ReportFailure(ConnectionError::NoIpv4Address)
                },
            },
            (Phase::Resolving, Event::ResolutionFailed(why)) => {
                self.phase = Phase::Failed;
                Action::ReportFailure(ConnectionError::ResolverFailed(why))
            },
            (Phase::NameInferring(address), Event::Proceed) => match infer_identity(
                self.endpoint.as_str(),
                &self.server_name,
            ) {
                Ok(identity) => {
                    self.phase = Phase::HandshakeInitiating;
                    Action::Connect { address, identity }
                },
                Err(e) => {
                    self.phase = Phase::Failed;
                    Action::ReportFailure(e)
                },
            },
            (Phase::HandshakeInitiating, Event::SetupAccepted) => {
                self.phase = Phase::AwaitingCompletion(self.timeout);
                Action::AwaitHandshake { seconds: self.timeout }
            },
            (Phase::HandshakeInitiating, Event::SetupRejected(why)) => {
                self.phase = Phase::Failed;
                Action::ReportFailure(ConnectionError::HandshakeSetup(why))
            },
            (Phase::AwaitingCompletion(_), Event::HandshakeCompleted) => {
                self.phase = Phase::Succeeded;
                Action::ReportSuccess
            },
            (Phase::AwaitingCompletion(_), Event::HandshakeRejected(why)) => {
                self.phase = Phase::Failed;
                Action::ReportFailure(ConnectionError::Handshake(why))
            },
            (Phase::AwaitingCompletion(_), Event::DeadlineElapsed) => {
                self.phase = Phase::TimedOut;
                Action::ReportFailure(ConnectionError::Timeout)
            },
            _ => Action::Ignore,
        }
    }
}

} // verus!
