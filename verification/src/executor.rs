use crate::error::{DeviiError, ErrorModel};
use vstd::prelude::*;

verus! {

/// Where one query stands between the call and its outcome.
#[derive(Debug, PartialEq, Eq)]
pub enum QueryState {
    /// Nothing has been done yet.
    Idle,
    /// The envelope is serialized and carries the session's credential.
    RequestBuilt,
    /// The request is with the transport.
    Sent,
    /// The body of the response was read; holds its text.
    ResponseReceived { text: String },
    /// The text was decoded into the expected envelope.
    Decoded,
    /// The text was refused by the decoder; holds the text and the cause.
    ParseFailed { raw: String, cause: String },
    /// No body was obtained; holds the cause.
    TransportFailed { cause: String },
}

/// What happened since the last step.
#[derive(Debug, PartialEq, Eq)]
pub enum QueryEvent {
    /// The caller asks for the query to be run.
    Start,
    /// The transport took the request.
    Dispatched,
    /// The body of the response was read; holds its text.
    Body(String),
    /// The transport failed to build, send or read; holds its account.
    TransportFailure(String),
    /// The decoder accepted the text.
    DecodeOk,
    /// The decoder refused the text; holds its account.
    DecodeFailure(String),
}

/// What is to be done next.
#[derive(Debug, PartialEq, Eq)]
pub enum QueryAction {
    /// Serialize the envelope, attach the credential and send it.
    Send,
    /// Read the body of the response.
    ReadBody,
    /// Decode the text that the state holds.
    Decode,
    /// Hand the decoded envelope to the caller.
    Deliver,
    /// Report the failure to the caller.
    Fail(DeviiError),
    /// The event does not belong to the state; nothing is to be done.
    Nothing,
}

/// The mathematical content of a `QueryState`.
pub enum StateModel {
    Idle,
    RequestBuilt,
    Sent,
    ResponseReceived { text: Seq<char> },
    Decoded,
    ParseFailed { raw: Seq<char>, cause: Seq<char> },
    TransportFailed { cause: Seq<char> },
}

/// The mathematical content of a `QueryEvent`.
pub enum EventModel {
    Start,
    Dispatched,
    Body(Seq<char>),
    TransportFailure(Seq<char>),
    DecodeOk,
    DecodeFailure(Seq<char>),
}

/// The mathematical content of a `QueryAction`.
pub enum ActionModel {
    Send,
    ReadBody,
    Decode,
    Deliver,
    Fail(ErrorModel),
    Nothing,
}

impl View for QueryState {
    type V = StateModel;

    open spec fn view(&self) -> StateModel {
        match self {
            QueryState::Idle => StateModel::Idle,
            QueryState::RequestBuilt => StateModel::RequestBuilt,
            QueryState::Sent => StateModel::Sent,
            QueryState::ResponseReceived { text } => StateModel::ResponseReceived { text: text@ },
            QueryState::Decoded => StateModel::Decoded,
            QueryState::ParseFailed { raw, cause } => StateModel::ParseFailed {
                raw: raw@,
                cause: cause@,
            },
            QueryState::TransportFailed { cause } => StateModel::TransportFailed { cause: cause@ },
        }
    }
}

impl View for QueryEvent {
    type V = EventModel;

    open spec fn view(&self) -> EventModel {
        match self {
            QueryEvent::Start => EventModel::Start,
            QueryEvent::Dispatched => EventModel::Dispatched,
            QueryEvent::Body(text) => EventModel::Body(text@),
            QueryEvent::TransportFailure(cause) => EventModel::TransportFailure(cause@),
            QueryEvent::DecodeOk => EventModel::DecodeOk,
            QueryEvent::DecodeFailure(cause) => EventModel::DecodeFailure(cause@),
        }
    }
}

impl View for QueryAction {
    type V = ActionModel;

    open spec fn view(&self) -> ActionModel {
        match self {
            QueryAction::Send => ActionModel::Send,
            QueryAction::ReadBody => ActionModel::ReadBody,
            QueryAction::Decode => ActionModel::Decode,
            QueryAction::Deliver => ActionModel::Deliver,
            QueryAction::Fail(error) => ActionModel::Fail(error@),
            QueryAction::Nothing => ActionModel::Nothing,
        }
    }
}

impl StateModel {
    /// A state in which the query has its outcome.
    pub open spec fn is_final(self) -> bool {
        self is Decoded || self is ParseFailed || self is TransportFailed
    }
}

/// The state that follows `state` on `event`. A failure of the transport
/// ends the query as long as no body was read; the decoder's refusal ends it
/// with the text that was read. An event that does not belong to the state
/// changes nothing.
pub open spec fn next_state(state: StateModel, event: EventModel) -> StateModel {
    match (state, event) {
        (StateModel::Idle, EventModel::Start) => StateModel::RequestBuilt,
        (StateModel::RequestBuilt, EventModel::Dispatched) => StateModel::Sent,
        (StateModel::RequestBuilt, EventModel::TransportFailure(cause)) => {
            StateModel::TransportFailed { cause }
        },
        (StateModel::Sent, EventModel::Body(text)) => StateModel::ResponseReceived { text },
        (StateModel::Sent, EventModel::TransportFailure(cause)) => StateModel::TransportFailed {
            cause,
        },
        (StateModel::ResponseReceived { text }, EventModel::DecodeOk) => StateModel::Decoded,
        (StateModel::ResponseReceived { text }, EventModel::DecodeFailure(cause)) => {
            StateModel::ParseFailed { raw: text, cause }
        },
        _ => state,
    }
}

/// What is to be done when `state` meets `event`.
pub open spec fn next_action(state: StateModel, event: EventModel) -> ActionModel {
    match (state, event) {
        (StateModel::Idle, EventModel::Start) => ActionModel::Send,
        (StateModel::RequestBuilt, EventModel::Dispatched) => ActionModel::ReadBody,
        (StateModel::RequestBuilt, EventModel::TransportFailure(cause)) => ActionModel::Fail(
            ErrorModel::Transport(cause),
        ),
        (StateModel::Sent, EventModel::Body(text)) => ActionModel::Decode,
        (StateModel::Sent, EventModel::TransportFailure(cause)) => ActionModel::Fail(
            ErrorModel::Transport(cause),
        ),
        (StateModel::ResponseReceived { text }, EventModel::DecodeOk) => ActionModel::Deliver,
        (StateModel::ResponseReceived { text }, EventModel::DecodeFailure(cause)) => {
            ActionModel::Fail(ErrorModel::Parse { raw: text, cause })
        },
        _ => ActionModel::Nothing,
    }
}

/// The state that `events`, taken in their order, lead to from `state`.
pub open spec fn state_after(state: StateModel, events: Seq<EventModel>) -> StateModel
    decreases events.len(),
{
    if events.len() == 0 {
        state
    } else {
        next_state(state_after(state, events.drop_last()), events.last())
    }
}

impl QueryState {
    /// The state of a query that was not started.
    pub fn new() -> (r: Self)
        ensures
            r@ == StateModel::Idle,
    {
        QueryState::Idle
    }

    /// Tells whether the query has its outcome.
    pub fn is_final(&self) -> (r: bool)
        ensures
            r == self@.is_final(),
    {
        match self {
            QueryState::Decoded => true,
            QueryState::ParseFailed { .. } => true,
            QueryState::TransportFailed { .. } => true,
            _ => false,
        }
    }

    /// Takes one step: the state that follows on `event`, and what is to be
    /// done next.
    pub fn step(self, event: QueryEvent) -> (r: (QueryState, QueryAction))
        ensures
            r.0@ == next_state(self@, event@),
            r.1@ == next_action(self@, event@),
    {
        match self {
            QueryState::Idle => match event {
                QueryEvent::Start => (QueryState::RequestBuilt, QueryAction::Send),
                _ => (QueryState::Idle, QueryAction::Nothing),
            },
            QueryState::RequestBuilt => match event {
                QueryEvent::Dispatched => (QueryState::Sent, QueryAction::ReadBody),
                QueryEvent::TransportFailure(cause) => {
                    let reported = cause.clone();
                    (
                        QueryState::TransportFailed { cause },
                        QueryAction::Fail(DeviiError::Transport(reported)),
                    )
                },
                _ => (QueryState::RequestBuilt, QueryAction::Nothing),
            },
            QueryState::Sent => match event {
                QueryEvent::Body(text) => (
                    QueryState::ResponseReceived { text },
                    QueryAction::Decode,
                ),
                QueryEvent::TransportFailure(cause) => {
                    let reported = cause.clone();
                    (
                        QueryState::TransportFailed { cause },
                        QueryAction::Fail(DeviiError::Transport(reported)),
                    )
                },
                _ => (QueryState::Sent, QueryAction::Nothing),
            },
            QueryState::ResponseReceived { text } => match event {
                QueryEvent::DecodeOk => (QueryState::Decoded, QueryAction::Deliver),
                QueryEvent::DecodeFailure(cause) => {
                    let raw = text.clone();
                    let reported = cause.clone();
                    (
                        QueryState::ParseFailed { raw: text, cause },
                        QueryAction::Fail(DeviiError::Parse { raw, cause: reported }),
                    )
                },
                _ => (QueryState::ResponseReceived { text }, QueryAction::Nothing),
            },
            QueryState::Decoded => (QueryState::Decoded, QueryAction::Nothing),
            QueryState::ParseFailed { raw, cause } => (
                QueryState::ParseFailed { raw, cause },
                QueryAction::Nothing,
            ),
            QueryState::TransportFailed { cause } => (
                QueryState::TransportFailed { cause },
                QueryAction::Nothing,
            ),
        }
    }
}

/// Once a query has its outcome, no event changes it and none asks for
/// anything more: a failed query is reported once and never sent again.
pub proof fn outcome_is_kept(state: StateModel, event: EventModel)
    requires
        state.is_final(),
    ensures
        next_state(state, event) == state,
        next_action(state, event) == ActionModel::Nothing,
{
}

/// Whatever the order of events, a query that ends in a parse failure
/// reports the very text that was read as the response, and the decoder's
/// own account; one that ends in a transport failure reports the
/// transport's account.
pub proof fn failure_reports_what_was_received(events: Seq<EventModel>)
    ensures
        match state_after(StateModel::Idle, events) {
            StateModel::ResponseReceived { text } => events.contains(EventModel::Body(text)),
            StateModel::ParseFailed { raw, cause } => events.contains(EventModel::Body(raw))
                && events.contains(EventModel::DecodeFailure(cause)),
            StateModel::TransportFailed { cause } => events.contains(
                EventModel::TransportFailure(cause),
            ),
            _ => true,
        },
    decreases events.len(),
{
    if events.len() > 0 {
        let earlier = events.drop_last();
        failure_reports_what_was_received(earlier);
        assert(events.last() == events[events.len() - 1]);
        assert forall|e: EventModel| earlier.contains(e) implies events.contains(e) by {
            let i = choose|i: int| 0 <= i < earlier.len() && earlier[i] == e;
            assert(events[i] == e);
        }
    }
}

/// No sequence of events leads away from an outcome: there is no retry.
pub proof fn outcome_is_kept_for_good(state: StateModel, events: Seq<EventModel>)
    requires
        state.is_final(),
    ensures
        state_after(state, events) == state,
    decreases events.len(),
{
    if events.len() > 0 {
        outcome_is_kept_for_good(state, events.drop_last());
    }
}

} // verus!
