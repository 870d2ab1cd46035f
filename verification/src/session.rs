//! The session pipeline: the state machine that one client connection runs
//! through, from its start-up over authorization and the relay of queries to
//! its end.
//!
//! The machine decides and does no I/O. Whoever owns the sockets feeds it
//! what happened and carries out the actions it answers with.

use crate::auth::{decision, reason, AuthError, AuthHandler};
use crate::translate::{
    translate, translation, QueryResultEvent, ResponseUnit, ResponseUnitView, Severity,
    TranslationError,
};
use vstd::prelude::*;

verus! {

/// Where a session stands.
#[derive(Debug, Clone, Copy, PartialEq, Eq)]
pub enum SessionState {
    /// The connection is accepted; the client has not introduced itself.
    Connecting,
    /// The client's start-up information is here; the decision is pending.
    Authorizing,
    /// The session waits for a query.
    Ready,
    /// A query is with the upstream server.
    Executing,
    /// The client has closed the connection. Final.
    Closing,
    /// The client was refused, or the session broke. Final.
    Failed,
}

/// What can happen to a session.
#[derive(Debug, PartialEq, Eq)]
pub enum SessionEvent {
    /// The client's start-up information arrived.
    StartupReceived,
    /// The decision on the client is here.
    GateDecided(Result<(), AuthError>),
    /// The client sent a query string.
    QueryReceived(String),
    /// The upstream result of the query in progress is here, translated, or
    /// could not be translated.
    UpstreamFinished(Result<Vec<ResponseUnit>, TranslationError>),
    /// The client closed its side of the connection.
    ClientClosed,
}

/// What a [`SessionEvent`] stands for in contracts.
pub enum SessionEventView {
    StartupReceived,
    GateDecided(Result<(), AuthError>),
    QueryReceived(Seq<char>),
    UpstreamFinished(Result<Seq<ResponseUnitView>, TranslationError>),
    ClientClosed,
}

/// What the owner of the sockets is to do for a session.
#[derive(Debug, Clone, PartialEq, Eq)]
pub enum SessionAction {
    /// Tell the client that it is let in.
    SendAuthenticationOk,
    /// Send these units to the client, in this order.
    Respond(Vec<ResponseUnit>),
    /// Hand this query string to the upstream server, as it is.
    ForwardQuery(String),
    /// Put on record why the upstream result could not be translated.
    RecordFailure(TranslationError),
    /// Close the connection to the client.
    CloseTransport,
    /// Give back the session's upstream connection.
    ReleaseUpstream,
}

/// What a [`SessionAction`] stands for in contracts.
pub enum SessionActionView {
    SendAuthenticationOk,
    Respond(Seq<ResponseUnitView>),
    ForwardQuery(Seq<char>),
    RecordFailure(TranslationError),
    CloseTransport,
    ReleaseUpstream,
}

/// A state and the actions that led to it.
pub struct Step {
    pub state: SessionState,
    pub actions: Seq<SessionActionView>,
}

/// The view of a translation's outcome.
pub open spec fn outcome_view(outcome: Result<Vec<ResponseUnit>, TranslationError>) -> Result<
    Seq<ResponseUnitView>,
    TranslationError,
> {
    match outcome {
        Ok(units) => Ok(units.deep_view()),
        Err(error) => Err(error),
    }
}

impl View for SessionEvent {
    type V = SessionEventView;

    open spec fn view(&self) -> SessionEventView {
        match self {
            SessionEvent::StartupReceived => SessionEventView::StartupReceived,
            SessionEvent::GateDecided(verdict) => SessionEventView::GateDecided(*verdict),
            SessionEvent::QueryReceived(text) => SessionEventView::QueryReceived(text@),
            SessionEvent::UpstreamFinished(outcome) => SessionEventView::UpstreamFinished(
                outcome_view(*outcome),
            ),
            SessionEvent::ClientClosed => SessionEventView::ClientClosed,
        }
    }
}

impl View for SessionAction {
    type V = SessionActionView;

    open spec fn view(&self) -> SessionActionView {
        match self {
            SessionAction::SendAuthenticationOk => SessionActionView::SendAuthenticationOk,
            SessionAction::Respond(units) => SessionActionView::Respond(units.deep_view()),
            SessionAction::ForwardQuery(text) => SessionActionView::ForwardQuery(text@),
            SessionAction::RecordFailure(error) => SessionActionView::RecordFailure(*error),
            SessionAction::CloseTransport => SessionActionView::CloseTransport,
            SessionAction::ReleaseUpstream => SessionActionView::ReleaseUpstream,
        }
    }
}

impl DeepView for SessionAction {
    type V = SessionActionView;

    open spec fn deep_view(&self) -> SessionActionView {
        self@
    }
}

/// Whether a state is final: a session that reached it does nothing more.
pub open spec fn is_final(state: SessionState) -> bool {
    state is Closing || state is Failed
}

/// What the client is told when the session breaks on the proxy's side.
pub open spec fn internal_error_text() -> Seq<char> {
    "Internal error: the upstream result could not be relayed"@
}

/// A fatal notice with this text.
pub open spec fn fatal_notice(message: Seq<char>) -> ResponseUnitView {
    ResponseUnitView::ErrorNotice { severity: Severity::Fatal, message }
}

/// Whether an answer ends the session: its last unit is a fatal notice, as
/// the translator writes one when the upstream connection failed.
pub open spec fn ends_session(units: Seq<ResponseUnitView>) -> bool {
    units.len() > 0 && units.last() matches ResponseUnitView::ErrorNotice {
        severity: Severity::Fatal,
        ..
    }
}

/// The actions of a session that breaks after telling the client `units`.
pub open spec fn failing(units: Seq<ResponseUnitView>) -> Seq<SessionActionView> {
    seq![
        SessionActionView::Respond(units),
        SessionActionView::CloseTransport,
        SessionActionView::ReleaseUpstream,
    ]
}

/// The machine: the state that `event` leads to from `state`, and what is to
/// be done on the way.
///
/// An event that a state has no use for changes nothing and asks for
/// nothing. So no query is forwarded before the client has been let in, and
/// a session that has ended stays ended. A query is taken only when the
/// session is `Ready`: whoever reads from the client reads the next query
/// when the last one is answered, which keeps the queries in their order.
pub open spec fn step(state: SessionState, event: SessionEventView) -> Step {
    match (state, event) {
        (SessionState::Connecting, SessionEventView::StartupReceived) => Step {
            state: SessionState::Authorizing,
            actions: Seq::empty(),
        },
        (SessionState::Authorizing, SessionEventView::GateDecided(Ok(()))) => Step {
            state: SessionState::Ready,
            actions: seq![SessionActionView::SendAuthenticationOk],
        },
        (SessionState::Authorizing, SessionEventView::GateDecided(Err(error))) => Step {
            state: SessionState::Failed,
            actions: failing(seq![fatal_notice(reason(error))]),
        },
        (SessionState::Ready, SessionEventView::QueryReceived(text)) => Step {
            state: SessionState::Executing,
            actions: seq![SessionActionView::ForwardQuery(text)],
        },
        (SessionState::Executing, SessionEventView::UpstreamFinished(Ok(units))) => {
            if ends_session(units) {
                Step { state: SessionState::Failed, actions: failing(units) }
            } else {
                Step {
                    state: SessionState::Ready,
                    actions: seq![SessionActionView::Respond(units)],
                }
            }
        },
        (SessionState::Executing, SessionEventView::UpstreamFinished(Err(error))) => Step {
            state: SessionState::Failed,
            actions: seq![SessionActionView::RecordFailure(error)] + failing(
                seq![fatal_notice(internal_error_text())],
            ),
        },
        (_, SessionEventView::ClientClosed) => {
            if is_final(state) {
                Step { state, actions: Seq::empty() }
            } else {
                Step {
                    state: SessionState::Closing,
                    actions: seq![SessionActionView::ReleaseUpstream],
                }
            }
        },
        _ => Step { state, actions: Seq::empty() },
    }
}

/// The machine over a sequence of events: the state at the end and all the
/// actions on the way, in order.
pub open spec fn run(state: SessionState, events: Seq<SessionEventView>) -> Step
    decreases events.len(),
{
    if events.len() == 0 {
        Step { state, actions: Seq::empty() }
    } else {
        let before = run(state, events.drop_last());
        let last = step(before.state, events.last());
        Step { state: last.state, actions: before.actions + last.actions }
    }
}

/// Whether `state` is final.
pub fn state_is_final(state: SessionState) -> (last: bool)
    ensures
        last == is_final(state),
{
    match state {
        SessionState::Closing | SessionState::Failed => true,
        _ => false,
    }
}

/// Whether an answer ends the session.
pub fn answer_ends_session(units: &Vec<ResponseUnit>) -> (ends: bool)
    ensures
        ends == ends_session(units.deep_view()),
{
    if units.len() == 0 {
        return false;
    }
    match &units[units.len() - 1] {
        ResponseUnit::ErrorNotice { severity: Severity::Fatal, .. } => true,
        _ => false,
    }
}

/// The actions of a session that breaks after telling the client `units`.
fn fail_with(units: Vec<ResponseUnit>) -> (actions: Vec<SessionAction>)
    ensures
        actions.deep_view() == failing(units.deep_view()),
{
    let mut actions: Vec<SessionAction> = Vec::new();
    actions.push(SessionAction::Respond(units));
    actions.push(SessionAction::CloseTransport);
    actions.push(SessionAction::ReleaseUpstream);
    actions
}

/// One fatal notice with this text, as the only unit of an answer.
fn fatal_answer(message: String) -> (units: Vec<ResponseUnit>)
    ensures
        units.deep_view() == seq![fatal_notice(message@)],
{
    let mut units: Vec<ResponseUnit> = Vec::new();
    units.push(ResponseUnit::ErrorNotice { severity: Severity::Fatal, message });
    units
}

/// One action alone.
fn only(action: SessionAction) -> (actions: Vec<SessionAction>)
    ensures
        actions.deep_view() == seq![action@],
{
    let mut actions: Vec<SessionAction> = Vec::new();
    actions.push(action);
    actions
}

/// No action.
fn nothing() -> (actions: Vec<SessionAction>)
    ensures
        actions.deep_view() == Seq::<SessionActionView>::empty(),
{
    Vec::new()
}

/// Takes one step of the machine: the next state and the actions, exactly
/// as [`step`] gives them.
pub fn advance(state: SessionState, event: SessionEvent) -> (next: (
    SessionState,
    Vec<SessionAction>,
))
    ensures
        next.0 == step(state, event@).state,
        next.1.deep_view() == step(state, event@).actions,
{
    match event {
        SessionEvent::StartupReceived => match state {
            SessionState::Connecting => (SessionState::Authorizing, nothing()),
            _ => (state, nothing()),
        },
        SessionEvent::GateDecided(verdict) => match state {
            SessionState::Authorizing => match verdict {
                Ok(()) => (SessionState::Ready, only(SessionAction::SendAuthenticationOk)),
                Err(error) => (SessionState::Failed, fail_with(fatal_answer(error.message()))),
            },
            _ => (state, nothing()),
        },
        SessionEvent::QueryReceived(text) => match state {
            SessionState::Ready => (
                SessionState::Executing,
                only(SessionAction::ForwardQuery(text)),
            ),
            _ => (state, nothing()),
        },
        SessionEvent::UpstreamFinished(outcome) => match state {
            SessionState::Executing => match outcome {
                Ok(units) => {
                    if answer_ends_session(&units) {
                        (SessionState::Failed, fail_with(units))
                    } else {
                        (SessionState::Ready, only(SessionAction::Respond(units)))
                    }
                },
                Err(error) => {
                    let mut actions = only(SessionAction::RecordFailure(error));
                    let mut rest = fail_with(
                        fatal_answer(
                            "Internal error: the upstream result could not be relayed".to_owned(),
                        ),
                    );
                    actions.append(&mut rest);
                    (SessionState::Failed, actions)
                },
            },
            _ => (state, nothing()),
        },
        SessionEvent::ClientClosed => {
            if state_is_final(state) {
                (state, nothing())
            } else {
                (SessionState::Closing, only(SessionAction::ReleaseUpstream))
            }
        },
    }
}

/// One client connection's share of the proxy: where its session stands,
/// the address the client connected from, and the schema it asked for once
/// it has done so. It is made when the connection is accepted and is done
/// with when its state is final.
///
/// The decision on a client is taken at once, so a context never rests in
/// [`SessionState::Authorizing`], and as long as it is
/// [`SessionState::Connecting`] it has no schema.
pub struct SessionContext {
    state: SessionState,
    client_addr: Option<String>,
    schema: Option<String>,
}

/// What a [`SessionContext`] stands for in contracts.
pub struct SessionContextView {
    pub state: SessionState,
    pub client_addr: Option<Seq<char>>,
    pub schema: Option<Seq<char>>,
}

impl View for SessionContext {
    type V = SessionContextView;

    closed spec fn view(&self) -> SessionContextView {
        SessionContextView {
            state: self.state,
            client_addr: self.client_addr.deep_view(),
            schema: self.schema.deep_view(),
        }
    }
}

impl SessionContext {
    #[verifier::type_invariant]
    spec fn settled(&self) -> bool {
        &&& !(self.state is Authorizing)
        &&& self.state is Connecting ==> self.schema is None
    }

    /// The context of a connection that was just accepted from `client_addr`.
    pub fn new(client_addr: Option<String>) -> (context: Self)
        ensures
            context@.state == SessionState::Connecting,
            context@.client_addr == client_addr.deep_view(),
            context@.schema == None::<Seq<char>>,
    {
        SessionContext { state: SessionState::Connecting, client_addr, schema: None }
    }

    /// Where the session stands. Never [`SessionState::Authorizing`].
    pub fn state(&self) -> (state: SessionState)
        ensures
            state == self@.state,
            !(state is Authorizing),
    {
        proof {
            use_type_invariant(self);
        }
        self.state
    }

    /// The address the client connected from, if it is known.
    pub fn client_addr(&self) -> (address: Option<&str>)
        ensures
            address.deep_view() == self@.client_addr,
    {
        match &self.client_addr {
            Some(address) => Some(address.as_str()),
            None => None,
        }
    }

    /// The schema the client asked for, once it has done so.
    pub fn schema(&self) -> (schema: Option<&str>)
        ensures
            schema.deep_view() == self@.schema,
    {
        match &self.schema {
            Some(schema) => Some(schema.as_str()),
            None => None,
        }
    }

    /// Whether the session has ended.
    pub fn is_finished(&self) -> (finished: bool)
        ensures
            finished == is_final(self@.state),
    {
        state_is_final(self.state)
    }

    /// The client's start-up information arrived, asking for `schema`:
    /// `handler` decides on it and on the client's address, and the session
    /// is `Ready` or `Failed` after it. This is the machine's step for
    /// `StartupReceived` followed by its step for the decision taken.
    /// A context that is still `Connecting` keeps the schema.
    pub fn on_startup(&mut self, handler: &AuthHandler, schema: &str) -> (actions: Vec<
        SessionAction,
    >)
        ensures
            ({
                let received = step(old(self)@.state, SessionEventView::StartupReceived);
                let decided = step(
                    received.state,
                    SessionEventView::GateDecided(
                        decision(handler.policy()@, schema@, old(self)@.client_addr),
                    ),
                );
                &&& final(self)@.state == decided.state
                &&& actions.deep_view() == received.actions + decided.actions
            }),
            final(self)@.client_addr == old(self)@.client_addr,
            final(self)@.schema == if old(self)@.state is Connecting {
                Some(schema@)
            } else {
                old(self)@.schema
            },
    {
        proof {
            use_type_invariant(&*self);
        }
        let fresh = match self.state {
            SessionState::Connecting => true,
            _ => false,
        };
        let (waiting, first) = advance(self.state, SessionEvent::StartupReceived);
        let verdict = match &self.client_addr {
            Some(address) => handler.authenticate(schema, Some(address.as_str())),
            None => handler.authenticate(schema, None),
        };
        let (next, actions) = advance(waiting, SessionEvent::GateDecided(verdict));
        self.state = next;
        if fresh {
            self.schema = Some(schema.to_owned());
        }
        actions
    }

    /// The client sent the query string `text`: from `Ready` the session is
    /// `Executing` and the text is to be forwarded as it is. This is the
    /// machine's step for `QueryReceived`.
    pub fn on_query(&mut self, text: &str) -> (actions: Vec<SessionAction>)
        ensures
            final(self)@.state == step(
                old(self)@.state,
                SessionEventView::QueryReceived(text@),
            ).state,
            actions.deep_view() == step(
                old(self)@.state,
                SessionEventView::QueryReceived(text@),
            ).actions,
            final(self)@.client_addr == old(self)@.client_addr,
            final(self)@.schema == old(self)@.schema,
    {
        proof {
            use_type_invariant(&*self);
        }
        let (next, actions) = advance(self.state, SessionEvent::QueryReceived(text.to_owned()));
        self.state = next;
        actions
    }

    /// The upstream driver delivered `events` for the query in progress:
    /// they are translated, and the session is `Ready` again with the answer
    /// to send, or `Failed`. This is the machine's step for
    /// `UpstreamFinished` with the outcome of the translation.
    pub fn on_upstream_result(&mut self, events: &Vec<QueryResultEvent>) -> (actions: Vec<
        SessionAction,
    >)
        ensures
            final(self)@.state == step(
                old(self)@.state,
                SessionEventView::UpstreamFinished(translation(events.deep_view())),
            ).state,
            actions.deep_view() == step(
                old(self)@.state,
                SessionEventView::UpstreamFinished(translation(events.deep_view())),
            ).actions,
            final(self)@.client_addr == old(self)@.client_addr,
            final(self)@.schema == old(self)@.schema,
    {
        proof {
            use_type_invariant(&*self);
        }
        let outcome = translate(events);
        let (next, actions) = advance(self.state, SessionEvent::UpstreamFinished(outcome));
        self.state = next;
        actions
    }

    /// The client closed the connection: a session that had not ended is
    /// `Closing` and gives its upstream connection back. This is the
    /// machine's step for `ClientClosed`.
    pub fn on_client_closed(&mut self) -> (actions: Vec<SessionAction>)
        ensures
            final(self)@.state == step(old(self)@.state, SessionEventView::ClientClosed).state,
            actions.deep_view() == step(old(self)@.state, SessionEventView::ClientClosed).actions,
            final(self)@.client_addr == old(self)@.client_addr,
            final(self)@.schema == old(self)@.schema,
    {
        proof {
            use_type_invariant(&*self);
        }
        let (next, actions) = advance(self.state, SessionEvent::ClientClosed);
        self.state = next;
        actions
    }
}

} // verus!
