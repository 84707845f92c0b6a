//! One call to the service, as a conversation between the client and whoever
//! drives it.
//!
//! The client does no I/O. It answers each [`Event`] with an [`Action`]: a request
//! to send, the next piece of a body to wait for, bytes to decode under a schema,
//! or the end of the call with its result. The driver carries the action out and
//! comes back with the event that it led to. What the client decides is the
//! function [`resumed`] (and [`begun`] for the first action); how the driver waits
//! is its own affair.

use crate::access_controller::{stored, token_step, ControllerView, TokenStepView};
use crate::chatex::ApiView;
use crate::endpoint::{needs_token, request_for, Operation, OperationView};
use crate::error::{
    http_error, is_success_status, payload_view, BuildError, DecodeStage, Error, ErrorPayload,
    ErrorView, PayloadView,
};
use crate::models::{AccessToken, AccessTokenView};
use crate::request::{built_view, RequestDescription, RequestView};
use std::marker::PhantomData;
use vstd::prelude::*;

verus! {

/// Whose answer a call is waiting for.
#[derive(Debug, Clone, Copy, PartialEq, Eq, Structural)]
pub enum Target {
    /// The request for an access token, which the call needs before its own.
    Token,
    /// The request of the operation itself.
    Endpoint,
}

/// How far a call has come.
#[derive(Debug, Clone, Copy, PartialEq, Eq, Structural)]
pub enum Phase {
    /// A request is on its way; its status is awaited.
    Head(Target),
    /// The status is known; the body is being gathered.
    Body(Target, u16),
    /// The body is with the decoder.
    Decode(Target, u16),
    /// The call has given its result.
    Finished,
}

/// What a body is to be decoded as.
#[derive(Debug, Clone, Copy, PartialEq, Eq, Structural)]
pub enum Schema {
    /// The answer to a request for an access token.
    AccessToken,
    /// The exchange's account of a failure.
    ErrorPayload,
    /// The document that the operation answers with.
    Model,
}

/// The state of one call. `T` is the document that the operation answers with.
#[derive(Debug, PartialEq, Eq)]
pub struct Call<T> {
    operation: Operation,
    phase: Phase,
    body: Vec<u8>,
    document: PhantomData<T>,
}

/// The mathematical value of a [`Call`].
pub struct CallView {
    pub operation: OperationView,
    pub phase: Phase,
    /// The bytes of the body gathered so far.
    pub body: Seq<u8>,
}

impl<T> View for Call<T> {
    type V = CallView;

    closed spec fn view(&self) -> CallView {
        CallView { operation: self.operation@, phase: self.phase, body: self.body@ }
    }
}

/// What the driver reports. `T` is the document that the operation answers with.
#[derive(Debug, PartialEq, Eq)]
pub enum Event<T> {
    /// The request could not be exchanged for a response; the text says why.
    TransportFailed(String),
    /// A response arrived with this status.
    Head(u16),
    /// The next piece of the body.
    Chunk(Vec<u8>),
    /// The body is complete.
    EndOfBody,
    /// The body broke off.
    BodyFailed,
    /// The bytes decoded as an access token, or did not.
    Token(Option<AccessToken>),
    /// The bytes decoded as the exchange's account of a failure, or did not.
    Payload(Option<ErrorPayload>),
    /// The bytes decoded as the document of the operation, or did not.
    Model(Option<T>),
}

/// The mathematical value of an [`Event`].
pub enum EventView<T> {
    TransportFailed(Seq<char>),
    Head(u16),
    Chunk(Seq<u8>),
    EndOfBody,
    BodyFailed,
    Token(Option<AccessTokenView>),
    Payload(Option<PayloadView>),
    Model(Option<T>),
}

impl<T> View for Event<T> {
    type V = EventView<T>;

    open spec fn view(&self) -> EventView<T> {
        match self {
            Event::TransportFailed(text) => EventView::TransportFailed(text@),
            Event::Head(status) => EventView::Head(*status),
            Event::Chunk(bytes) => EventView::Chunk(bytes@),
            Event::EndOfBody => EventView::EndOfBody,
            Event::BodyFailed => EventView::BodyFailed,
            Event::Token(token) => EventView::Token(
                match token {
                    Some(t) => Some(t@),
                    None => None,
                },
            ),
            Event::Payload(payload) => EventView::Payload(payload_view(*payload)),
            Event::Model(model) => EventView::Model(*model),
        }
    }
}

/// What the driver is to do next.
#[derive(Debug, PartialEq, Eq)]
pub enum Action<T> {
    /// Send this request and report its status, or that it could not be sent.
    Send(RequestDescription),
    /// Report the next piece of the body, its end, or that it broke off.
    Receive,
    /// Decode these bytes under this schema and report what came of it.
    Decode(Schema, Vec<u8>),
    /// The call is over; this is its result.
    Finish(Result<T, Error>),
}

/// The mathematical value of an [`Action`].
pub enum ActionView<T> {
    Send(RequestView),
    Receive,
    Decode(Schema, Seq<u8>),
    Finish(Result<T, ErrorView>),
}

impl<T> View for Action<T> {
    type V = ActionView<T>;

    open spec fn view(&self) -> ActionView<T> {
        match self {
            Action::Send(request) => ActionView::Send(request@),
            Action::Receive => ActionView::Receive,
            Action::Decode(schema, bytes) => ActionView::Decode(*schema, bytes@),
            Action::Finish(result) => ActionView::Finish(
                match result {
                    Ok(model) => Ok(*model),
                    Err(e) => Err(e@),
                },
            ),
        }
    }
}

/// The mathematical value of a client: what it is configured with and what its
/// access controller keeps.
pub struct ClientView {
    pub api: ApiView,
    pub controller: ControllerView,
}

/// Whose answer a call in `phase` is waiting for, if it is waiting at all.
pub open spec fn awaited(phase: Phase) -> Option<Target> {
    match phase {
        Phase::Head(target) => Some(target),
        Phase::Body(target, _) => Some(target),
        Phase::Decode(target, _) => Some(target),
        Phase::Finished => None,
    }
}

/// The schema under which the body of a response is decoded: the exchange's
/// account of a failure where the status denotes one, else what was asked for.
pub open spec fn schema_for(target: Target, status: u16) -> Schema {
    if !is_success_status(status) {
        Schema::ErrorPayload
    } else {
        match target {
            Target::Token => Schema::AccessToken,
            Target::Endpoint => Schema::Model,
        }
    }
}

/// What the transport is told when an event comes that the phase has no use for.
pub open spec fn unexpected() -> Seq<char> {
    "unexpected event"@
}

/// How a call reports that the exchange with `target` failed with `error`. A call
/// that cannot get its access token says just that, whatever the reason.
pub open spec fn failed<T>(target: Target, error: ErrorView) -> ActionView<T> {
    ActionView::Finish(
        Err(
            match target {
                Target::Token => ErrorView::AuthUnavailable,
                Target::Endpoint => error,
            },
        ),
    )
}

/// The end of a call with `action`.
pub open spec fn finished<T>(client: ClientView, call: CallView, action: ActionView<T>) -> (
    ClientView,
    CallView,
    ActionView<T>,
) {
    (
        client,
        CallView { operation: call.operation, phase: Phase::Finished, body: Seq::empty() },
        action,
    )
}

/// The phase and action that follow from describing the request of an operation:
/// the request is sent, or it could not be described and the call ends.
pub open spec fn dispatched<T>(built: Result<RequestView, BuildError>) -> (Phase, ActionView<T>) {
    match built {
        Ok(request) => (Phase::Head(Target::Endpoint), ActionView::Send(request)),
        Err(e) => (Phase::Finished, ActionView::Finish(Err(ErrorView::RequestBuild(e)))),
    }
}

/// The first action of a call of `operation`, and the state the call is then in.
///
/// An operation that needs no access token goes out under the shared secret. Any
/// other goes out under the token that is kept; where none is kept the request for
/// one goes out first, and where that cannot be described the call ends without
/// anything sent.
pub open spec fn begun<T>(client: ClientView, operation: OperationView) -> (
    CallView,
    ActionView<T>,
) {
    let (phase, action) = if !needs_token(operation) {
        dispatched::<T>(request_for(client.api.base, operation, client.api.secret))
    } else {
        match token_step(client.controller, client.api) {
            TokenStepView::Ready(token) => dispatched::<T>(
                request_for(client.api.base, operation, token),
            ),
            TokenStepView::Fetch(request) => (
                Phase::Head(Target::Token),
                ActionView::Send(request),
            ),
            TokenStepView::Failed(_) => (
                Phase::Finished,
                ActionView::Finish(Err(ErrorView::AuthUnavailable)),
            ),
        }
    };
    (CallView { operation, phase, body: Seq::empty() }, action)
}

/// What a call decides when `event` comes: the client and the call afterwards, and
/// the next action.
///
/// - While the status is awaited: a status moves the call on to its body, except
///   that a failure status on the request for the token ends the call at once; a
///   transport failure ends it.
/// - While the body is gathered: a piece is appended; the end hands the whole to
///   the decoder under [`schema_for`]; a break ends the call, as a read failure
///   on success and as the plain status on failure.
/// - While the decoder works: on a failure status the payload, found or not, ends
///   the call with the status. On success a token is stored and the request of
///   the operation goes out under it; a document is the result of the call; bytes
///   that did not decode end it as a parse failure.
/// - Any other event, and any event after the end, ends the call as a transport
///   failure.
pub open spec fn resumed<T>(client: ClientView, call: CallView, event: EventView<T>) -> (
    ClientView,
    CallView,
    ActionView<T>,
) {
    match (call.phase, event) {
        (Phase::Head(target), EventView::Head(status)) => {
            if target == Target::Token && !is_success_status(status) {
                finished(client, call, failed::<T>(target, http_error(status, None)))
            } else {
                (
                    client,
                    CallView {
                        operation: call.operation,
                        phase: Phase::Body(target, status),
                        body: Seq::empty(),
                    },
                    ActionView::Receive,
                )
            }
        },
        (Phase::Head(target), EventView::TransportFailed(text)) => finished(
            client,
            call,
            failed::<T>(target, ErrorView::Transport(text)),
        ),
        (Phase::Body(target, status), EventView::Chunk(bytes)) => (
            client,
            CallView { operation: call.operation, phase: call.phase, body: call.body + bytes },
            ActionView::Receive,
        ),
        (Phase::Body(target, status), EventView::EndOfBody) => (
            client,
            CallView {
                operation: call.operation,
                phase: Phase::Decode(target, status),
                body: Seq::empty(),
            },
            ActionView::Decode(schema_for(target, status), call.body),
        ),
        (Phase::Body(target, status), EventView::BodyFailed) => finished(
            client,
            call,
            failed::<T>(
                target,
                if is_success_status(status) {
                    ErrorView::Decode(DecodeStage::Read)
                } else {
                    http_error(status, None)
                },
            ),
        ),
        (Phase::Decode(target, status), EventView::Payload(payload)) => {
            if schema_for(target, status) == Schema::ErrorPayload {
                finished(client, call, failed::<T>(target, http_error(status, payload)))
            } else {
                finished(client, call, failed::<T>(target, ErrorView::Transport(unexpected())))
            }
        },
        (Phase::Decode(target, status), EventView::Token(token)) => {
            if schema_for(target, status) == Schema::AccessToken {
                match token {
                    Some(granted) => {
                        let (phase, action) = dispatched::<T>(
                            request_for(client.api.base, call.operation, granted.access_token),
                        );
                        (
                            ClientView {
                                api: client.api,
                                controller: stored(client.controller, client.api, granted),
                            },
                            CallView { operation: call.operation, phase, body: Seq::empty() },
                            action,
                        )
                    },
                    None => finished(
                        client,
                        call,
                        failed::<T>(target, ErrorView::Decode(DecodeStage::Parse)),
                    ),
                }
            } else {
                finished(client, call, failed::<T>(target, ErrorView::Transport(unexpected())))
            }
        },
        (Phase::Decode(target, status), EventView::Model(model)) => {
            if schema_for(target, status) == Schema::Model {
                match model {
                    Some(document) => finished(client, call, ActionView::Finish(Ok(document))),
                    None => finished(
                        client,
                        call,
                        failed::<T>(target, ErrorView::Decode(DecodeStage::Parse)),
                    ),
                }
            } else {
                finished(client, call, failed::<T>(target, ErrorView::Transport(unexpected())))
            }
        },
        (Phase::Head(target), _) => finished(
            client,
            call,
            failed::<T>(target, ErrorView::Transport(unexpected())),
        ),
        (Phase::Body(target, _), _) => finished(
            client,
            call,
            failed::<T>(target, ErrorView::Transport(unexpected())),
        ),
        (Phase::Decode(target, _), _) => finished(
            client,
            call,
            failed::<T>(target, ErrorView::Transport(unexpected())),
        ),
        (Phase::Finished, _) => finished(
            client,
            call,
            ActionView::Finish(Err(ErrorView::Transport(unexpected()))),
        ),
    }
}

/// A call for which no token is kept begins by asking for one, with exactly the
/// request for an access token under the shared secret. Where that request cannot
/// be described the call ends as `AuthUnavailable` and nothing is sent.
pub proof fn lemma_first_call_asks_for_token<T>(client: ClientView, operation: OperationView)
    requires
        needs_token(operation),
        client.controller.access is None,
    ensures
        begun::<T>(client, operation) == match request_for(
            client.controller.base,
            OperationView::CreateAccessToken,
            client.api.secret,
        ) {
            Ok(request) => (
                CallView { operation, phase: Phase::Head(Target::Token), body: Seq::empty() },
                ActionView::<T>::Send(request),
            ),
            Err(_) => (
                CallView { operation, phase: Phase::Finished, body: Seq::empty() },
                ActionView::<T>::Finish(Err(ErrorView::AuthUnavailable)),
            ),
        },
{
}

/// A call for which a token is kept does not ask for one: its own request goes out
/// at once, under the kept token, or it ends because that request cannot be
/// described.
pub proof fn lemma_kept_token_is_used<T>(client: ClientView, operation: OperationView)
    requires
        needs_token(operation),
        client.controller.access is Some,
    ensures
        begun::<T>(client, operation).0.phase != Phase::Head(Target::Token),
        (begun::<T>(client, operation).0.phase, begun::<T>(client, operation).1) == dispatched::<T>(
            request_for(client.api.base, operation, client.controller.access->0.access_token),
        ),
{
}

/// Once begun, a call never asks for a token again: no event brings it back to
/// waiting for the status of a token request. So a call asks for a token at most
/// once, at its beginning.
pub proof fn lemma_token_is_asked_for_at_most_once<T>(
    client: ClientView,
    call: CallView,
    event: EventView<T>,
)
    ensures
        resumed::<T>(client, call, event).1.phase != Phase::Head(Target::Token),
{
}

/// When the decoder reports the token that a call was waiting for, the client
/// keeps it, its configuration untouched, and the request of the operation goes
/// out under that token.
pub proof fn lemma_granted_token_is_kept<T>(
    client: ClientView,
    call: CallView,
    status: u16,
    granted: AccessTokenView,
)
    requires
        call.phase == Phase::Decode(Target::Token, status),
        is_success_status(status),
    ensures
        ({
            let (after, next, action) = resumed::<T>(client, call, EventView::Token(Some(granted)));
            &&& after.api == client.api
            &&& after.controller == stored(client.controller, client.api, granted)
            &&& after.controller.access->0.access_token == granted.access_token
            &&& next.operation == call.operation
            &&& (next.phase, action) == dispatched::<T>(
                request_for(client.api.base, call.operation, granted.access_token),
            )
        }),
{
}

/// The client changes in one way only: by the token that a call was waiting for.
/// Every other event, a failed fetch among them, leaves the client exactly as it
/// was, so nothing is remembered of a failure and the next call asks again. A
/// token that is kept is never dropped, and the configuration never changes.
pub proof fn lemma_only_a_granted_token_changes_the_client<T>(
    client: ClientView,
    call: CallView,
    event: EventView<T>,
)
    ensures
        resumed::<T>(client, call, event).0.api == client.api,
        resumed::<T>(client, call, event).0.controller.base == client.controller.base,
        client.controller.access is Some ==> resumed::<T>(
            client,
            call,
            event,
        ).0.controller.access is Some,
        resumed::<T>(client, call, event).0 != client ==> {
            &&& call.phase matches Phase::Decode(Target::Token, status)
            &&& is_success_status(status)
            &&& event matches EventView::Token(Some(_))
        },
{
}

/// While a call waits for its token, the request of the operation goes out only
/// on the event that grants the token; and if the call ends there, it ends as
/// `AuthUnavailable`, or because the request of the operation cannot be
/// described under the token just granted.
pub proof fn lemma_no_token_no_request<T>(
    client: ClientView,
    call: CallView,
    event: EventView<T>,
)
    requires
        awaited(call.phase) == Some(Target::Token),
    ensures
        resumed::<T>(client, call, event).2 is Send ==> event matches EventView::Token(Some(_)),
        resumed::<T>(client, call, event).2 matches ActionView::Finish(result) ==> {
            ||| result == Err::<T, ErrorView>(ErrorView::AuthUnavailable)
            ||| (result matches Err(ErrorView::RequestBuild(_)) && event matches EventView::Token(
                Some(_),
            ))
        },
{
}

/// A call gives a document as its result exactly when the decoder reports that
/// document for the body of a success response to the operation's own request.
/// No other event makes a document, so a body that does not decode never ends as
/// a result.
pub proof fn lemma_result_is_the_decoded_document<T>(
    client: ClientView,
    call: CallView,
    event: EventView<T>,
    document: T,
)
    ensures
        resumed::<T>(client, call, event).2 == ActionView::<T>::Finish(Ok(document)) <==> {
            &&& call.phase matches Phase::Decode(Target::Endpoint, status)
            &&& is_success_status(status)
            &&& event == EventView::Model(Some(document))
        },
{
}

/// A call is finished exactly when it has given its result, and it gives one
/// result only: whatever is reported to a finished call, it stays finished and
/// answers that the event was not expected.
pub proof fn lemma_call_ends_once<T>(client: ClientView, call: CallView, event: EventView<T>)
    ensures
        resumed::<T>(client, call, event).2 is Finish <==> resumed::<T>(
            client,
            call,
            event,
        ).1.phase == Phase::Finished,
        call.phase == Phase::Finished ==> resumed::<T>(client, call, event) == (
            client,
            CallView { operation: call.operation, phase: Phase::Finished, body: Seq::empty() },
            ActionView::<T>::Finish(Err(ErrorView::Transport(unexpected()))),
        ),
{
}

impl<T> Call<T> {
    /// A call of `operation` in `phase` with nothing gathered.
    pub(crate) fn at(operation: Operation, phase: Phase) -> (call: Call<T>)
        ensures
            call@ == (CallView { operation: operation@, phase, body: Seq::empty() }),
    {
        Call { operation, phase, body: Vec::new(), document: PhantomData }
    }

    /// The call with one more piece of the body.
    pub(crate) fn with_chunk(self, chunk: Vec<u8>) -> (call: Call<T>)
        ensures
            call@ == (CallView {
                operation: self@.operation,
                phase: self@.phase,
                body: self@.body + chunk@,
            }),
    {
        let Call { operation, phase, mut body, document } = self;
        let mut chunk = chunk;
        body.append(&mut chunk);
        Call { operation, phase, body, document }
    }

    /// Takes the call apart into its operation and what it has gathered.
    pub(crate) fn into_parts(self) -> (parts: (Operation, Vec<u8>))
        ensures
            parts.0@ == self@.operation,
            parts.1@ == self@.body,
    {
        (self.operation, self.body)
    }

    /// What follows from describing the request of `operation`: where there is a
    /// request, the call waits for its status and the request is to be sent; where
    /// there is none, the call is over and gives the reason.
    pub fn dispatch(operation: Operation, built: Result<RequestDescription, BuildError>) -> (next:
        (Call<T>, Action<T>))
        ensures
            next.0@.operation == operation@,
            next.0@.body == Seq::<u8>::empty(),
            (next.0@.phase, next.1@) == dispatched::<T>(built_view(built)),
    {
        match built {
            Ok(request) => (
                Call::at(operation, Phase::Head(Target::Endpoint)),
                Action::Send(request),
            ),
            Err(e) => (
                Call::at(operation, Phase::Finished),
                Action::Finish(Err(Error::RequestBuild(e))),
            ),
        }
    }

    /// How far the call has come.
    pub fn phase(&self) -> (phase: Phase)
        ensures
            phase == self@.phase,
    {
        self.phase
    }

    /// The operation that the call is for.
    pub fn operation(&self) -> (operation: &Operation)
        ensures
            operation@ == self@.operation,
    {
        &self.operation
    }

    /// Whether the call has given its result.
    pub fn is_finished(&self) -> (yes: bool)
        ensures
            yes == (self@.phase == Phase::Finished),
    {
        match self.phase {
            Phase::Finished => true,
            _ => false,
        }
    }
}

} // verus!
