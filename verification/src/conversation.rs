//! What a call comes to when it is driven faithfully.
//!
//! A driver is faithful if it does what each action asks for and reports what came
//! of it: it sends the request and reports the status or the failure, it reports
//! the pieces of the body in the order in which they come and then its end or its
//! break, and it reports what the decoder makes of the bytes it was handed.
//! [`driven`] is that loop, written down as a function. [`outcome`] says, without
//! any loop, what a call is meant to come to. The two agree: that is
//! [`lemma_driven_call_comes_to_its_outcome`].

use crate::access_controller::{stored, token_step, TokenStepView};
use crate::call::{
    begun, resumed, ActionView, CallView, ClientView, EventView, Phase, Schema, Target,
};
use crate::endpoint::{needs_token, request_for, OperationView};
use crate::error::{http_error, is_success_status, DecodeStage, ErrorView, PayloadView};
use crate::models::AccessTokenView;
use crate::request::RequestView;
use vstd::prelude::*;

verus! {

/// The answer of the service to one request, as a transport reports it: the
/// status, the pieces of the body in their order, and whether the body came to its
/// end or broke off after them.
pub struct Answer {
    pub status: u16,
    pub chunks: Seq<Seq<u8>>,
    pub complete: bool,
}

/// What becomes of a request that is handed to a transport.
pub enum Delivery {
    /// No response came; the text says why.
    Refused(Seq<char>),
    Answered(Answer),
}

/// The surroundings of a call: how the transport answers each request, and what
/// the decoder makes of bytes under each schema.
pub struct World<T> {
    pub transport: spec_fn(RequestView) -> Delivery,
    pub token: spec_fn(Seq<u8>) -> Option<AccessTokenView>,
    pub payload: spec_fn(Seq<u8>) -> Option<PayloadView>,
    pub model: spec_fn(Seq<u8>) -> Option<T>,
}

/// What a driver holds between two steps: the requests it has sent so far, and
/// what is left of the body it is reading.
pub struct Driver {
    pub sent: Seq<RequestView>,
    pub pending: Seq<Seq<u8>>,
    pub complete: bool,
}

/// What a call has come to: the client after it, the requests that were sent for
/// it in their order, and its result.
pub struct Outcome<T> {
    pub client: ClientView,
    pub sent: Seq<RequestView>,
    pub result: Result<T, ErrorView>,
}

/// A driver that has sent nothing yet.
pub open spec fn idle() -> Driver {
    Driver { sent: Seq::empty(), pending: Seq::empty(), complete: false }
}

/// The event with which a faithful driver answers a request to decode.
pub open spec fn decoded<T>(world: World<T>, schema: Schema, bytes: Seq<u8>) -> EventView<T> {
    match schema {
        Schema::AccessToken => EventView::Token((world.token)(bytes)),
        Schema::ErrorPayload => EventView::Payload((world.payload)(bytes)),
        Schema::Model => EventView::Model((world.model)(bytes)),
    }
}

/// One step of a faithful driver: the event that carrying out `action` leads to,
/// and the driver afterwards. The end of a call asks for nothing, so no step is
/// meant to follow it.
pub open spec fn served<T>(world: World<T>, driver: Driver, action: ActionView<T>) -> (
    EventView<T>,
    Driver,
)
    recommends
        !(action is Finish),
{
    match action {
        ActionView::Send(request) => match (world.transport)(request) {
            Delivery::Refused(text) => (
                EventView::TransportFailed(text),
                Driver { sent: driver.sent.push(request), pending: Seq::empty(), complete: false },
            ),
            Delivery::Answered(answer) => (
                EventView::Head(answer.status),
                Driver {
                    sent: driver.sent.push(request),
                    pending: answer.chunks,
                    complete: answer.complete,
                },
            ),
        },
        ActionView::Receive => if driver.pending.len() > 0 {
            (
                EventView::Chunk(driver.pending[0]),
                Driver {
                    sent: driver.sent,
                    pending: driver.pending.drop_first(),
                    complete: driver.complete,
                },
            )
        } else if driver.complete {
            (EventView::EndOfBody, driver)
        } else {
            (EventView::BodyFailed, driver)
        },
        ActionView::Decode(schema, bytes) => (decoded(world, schema, bytes), driver),
        ActionView::Finish(_) => (EventView::EndOfBody, driver),
    }
}

/// The loop of a faithful driver: carry out the action, report the event, and go
/// on with the action that the call answers with, until the call is over. `fuel`
/// bounds the number of steps; `None` says that it did not suffice.
pub open spec fn driven<T>(
    world: World<T>,
    fuel: nat,
    client: ClientView,
    call: CallView,
    action: ActionView<T>,
    driver: Driver,
) -> Option<Outcome<T>>
    decreases fuel,
{
    match action {
        ActionView::Finish(result) => Some(Outcome { client, sent: driver.sent, result }),
        _ => if fuel == 0 {
            None
        } else {
            let (event, driver) = served(world, driver, action);
            let (client, call, action) = resumed::<T>(client, call, event);
            driven(world, (fuel - 1) as nat, client, call, action, driver)
        },
    }
}

/// What a response to the request of an operation comes to. A failure status
/// gives the status, with the payload where the body held one. A success gives
/// the document in the body, a read failure where the body broke off, and a parse
/// failure where it holds no document.
pub open spec fn read_response<T>(world: World<T>, answer: Answer) -> Result<T, ErrorView> {
    let body = answer.chunks.flatten();
    if !is_success_status(answer.status) {
        Err(
            http_error(
                answer.status,
                if answer.complete {
                    (world.payload)(body)
                } else {
                    None
                },
            ),
        )
    } else if !answer.complete {
        Err(ErrorView::Decode(DecodeStage::Read))
    } else {
        match (world.model)(body) {
            Some(document) => Ok(document),
            None => Err(ErrorView::Decode(DecodeStage::Parse)),
        }
    }
}

/// What sending the request of an operation comes to.
pub open spec fn exchanged<T>(world: World<T>, request: RequestView) -> Result<T, ErrorView> {
    match (world.transport)(request) {
        Delivery::Refused(text) => Err(ErrorView::Transport(text)),
        Delivery::Answered(answer) => read_response(world, answer),
    }
}

/// The token that sending the request for one brings: the one in the complete
/// body of a success response, and none otherwise.
pub open spec fn granted<T>(world: World<T>, request: RequestView) -> Option<AccessTokenView> {
    match (world.transport)(request) {
        Delivery::Refused(_) => None,
        Delivery::Answered(answer) => if is_success_status(answer.status) && answer.complete {
            (world.token)(answer.chunks.flatten())
        } else {
            None
        },
    }
}

/// What a call comes to once its credential is at hand and `sent` has been sent
/// for it already: the request of the operation is sent and answered, or it
/// cannot be described and nothing more is sent.
pub open spec fn operation_outcome<T>(
    world: World<T>,
    client: ClientView,
    sent: Seq<RequestView>,
    operation: OperationView,
    credential: Seq<char>,
) -> Outcome<T> {
    match request_for(client.api.base, operation, credential) {
        Err(e) => Outcome { client, sent, result: Err(ErrorView::RequestBuild(e)) },
        Ok(request) => Outcome {
            client,
            sent: sent.push(request),
            result: exchanged(world, request),
        },
    }
}

/// What a call of `operation` is meant to come to.
///
/// - An operation that needs no token is sent under the shared secret.
/// - Where a token is kept, the operation is sent under it and nothing else is
///   sent.
/// - Where none is kept, the request for one is sent first, once. If it brings a
///   token, the client keeps it and the operation is sent under it. If it does
///   not, or if it cannot even be described, the call ends as `AuthUnavailable`,
///   the client is as it was, and the operation is not sent.
pub open spec fn outcome<T>(world: World<T>, client: ClientView, operation: OperationView)
    -> Outcome<T> {
    if !needs_token(operation) {
        operation_outcome(world, client, Seq::empty(), operation, client.api.secret)
    } else {
        match token_step(client.controller, client.api) {
            TokenStepView::Ready(token) => operation_outcome(
                world,
                client,
                Seq::empty(),
                operation,
                token,
            ),
            TokenStepView::Failed(_) => Outcome {
                client,
                sent: Seq::empty(),
                result: Err(ErrorView::AuthUnavailable),
            },
            TokenStepView::Fetch(request) => match granted(world, request) {
                None => Outcome {
                    client,
                    sent: seq![request],
                    result: Err(ErrorView::AuthUnavailable),
                },
                Some(token) => operation_outcome(
                    world,
                    ClientView {
                        api: client.api,
                        controller: stored(client.controller, client.api, token),
                    },
                    seq![request],
                    operation,
                    token.access_token,
                ),
            },
        }
    }
}

/// Fuel that sufficed still suffices when there is more of it, and the outcome is
/// the same.
pub proof fn lemma_more_fuel_same_outcome<T>(
    world: World<T>,
    fuel: nat,
    more: nat,
    client: ClientView,
    call: CallView,
    action: ActionView<T>,
    driver: Driver,
)
    requires
        driven(world, fuel, client, call, action, driver) is Some,
        fuel <= more,
    ensures
        driven(world, more, client, call, action, driver) == driven(
            world,
            fuel,
            client,
            call,
            action,
            driver,
        ),
    decreases fuel,
{
    if !(action is Finish) {
        let (event, next_driver) = served(world, driver, action);
        let (next_client, next_call, next_action) = resumed::<T>(client, call, event);
        lemma_more_fuel_same_outcome(
            world,
            (fuel - 1) as nat,
            (more - 1) as nat,
            next_client,
            next_call,
            next_action,
            next_driver,
        );
    }
}

/// While the body is gathered, a faithful driver reports all pending pieces, one
/// step each, and the call then holds them in their order.
proof fn lemma_driven_through_body<T>(
    world: World<T>,
    fuel: nat,
    client: ClientView,
    call: CallView,
    driver: Driver,
)
    requires
        call.phase is Body,
    ensures
        driven(world, fuel + driver.pending.len(), client, call, ActionView::<T>::Receive, driver)
            == driven(
            world,
            fuel,
            client,
            CallView {
                operation: call.operation,
                phase: call.phase,
                body: call.body + driver.pending.flatten(),
            },
            ActionView::<T>::Receive,
            Driver { sent: driver.sent, pending: Seq::empty(), complete: driver.complete },
        ),
    decreases driver.pending.len(),
{
    let pending = driver.pending;
    if pending.len() == 0 {
        assert(pending =~= Seq::<Seq<u8>>::empty());
    } else {
        let next_call = CallView {
            operation: call.operation,
            phase: call.phase,
            body: call.body + pending[0],
        };
        let next_driver = Driver {
            sent: driver.sent,
            pending: pending.drop_first(),
            complete: driver.complete,
        };
        lemma_driven_through_body::<T>(world, fuel, client, next_call, next_driver);
        assert(next_call.body + next_driver.pending.flatten() =~= call.body
            + pending.flatten());
    }
}

/// The steps that an answer takes at most: one for each piece of the body and a
/// few around them.
spec fn steps_of(delivery: Delivery) -> nat {
    match delivery {
        Delivery::Refused(_) => 1,
        Delivery::Answered(answer) => answer.chunks.len() + 3,
    }
}

/// A call that sends the request of its operation, faithfully driven, comes to
/// what [`exchanged`] says, with that one request sent and the client as it was.
proof fn lemma_driven_operation<T>(
    world: World<T>,
    client: ClientView,
    call: CallView,
    request: RequestView,
    driver: Driver,
)
    requires
        call.phase == Phase::Head(Target::Endpoint),
        call.body == Seq::<u8>::empty(),
    ensures
        driven(
            world,
            steps_of((world.transport)(request)),
            client,
            call,
            ActionView::<T>::Send(request),
            driver,
        ) == Some(
            Outcome { client, sent: driver.sent.push(request), result: exchanged(world, request) },
        ),
{
    let action = ActionView::<T>::Send(request);
    let fuel = steps_of((world.transport)(request));
    let sent = driver.sent.push(request);
    match (world.transport)(request) {
        Delivery::Refused(text) => {
            let end = CallView {
                operation: call.operation,
                phase: Phase::Finished,
                body: Seq::empty(),
            };
            let last = ActionView::<T>::Finish(Err(ErrorView::Transport(text)));
            let after = Driver { sent, pending: Seq::empty(), complete: false };
            assert(driven(world, 0, client, end, last, after) == Some(
                Outcome { client, sent, result: Err::<T, ErrorView>(ErrorView::Transport(text)) },
            ));
        },
        Delivery::Answered(answer) => {
            let status = answer.status;
            let reading = CallView {
                operation: call.operation,
                phase: Phase::Body(Target::Endpoint, status),
                body: Seq::empty(),
            };
            let started = Driver { sent, pending: answer.chunks, complete: answer.complete };
            assert(served(world, driver, action) == (EventView::<T>::Head(status), started));
            assert(resumed::<T>(client, call, EventView::Head(status)) == (
                client,
                reading,
                ActionView::<T>::Receive,
            ));
            assert(driven(world, fuel, client, call, action, driver) == driven(
                world,
                (answer.chunks.len() + 2) as nat,
                client,
                reading,
                ActionView::<T>::Receive,
                started,
            ));
            lemma_driven_through_body::<T>(world, 2, client, reading, started);
            let body = answer.chunks.flatten();
            let read = CallView {
                operation: call.operation,
                phase: Phase::Body(Target::Endpoint, status),
                body,
            };
            let drained = Driver { sent, pending: Seq::empty(), complete: answer.complete };
            let end = CallView {
                operation: call.operation,
                phase: Phase::Finished,
                body: Seq::empty(),
            };
            let last = ActionView::<T>::Finish(read_response(world, answer));
            if !answer.complete {
                assert(served(world, drained, ActionView::<T>::Receive) == (
                    EventView::<T>::BodyFailed,
                    drained,
                ));
                assert(resumed::<T>(client, read, EventView::BodyFailed) == (client, end, last));
                assert(driven(world, 1, client, end, last, drained) == Some(
                    Outcome { client, sent, result: read_response(world, answer) },
                ));
            } else {
                assert(driven(world, 0, client, end, last, drained) == Some(
                    Outcome { client, sent, result: read_response(world, answer) },
                ));
            }
        },
    }
}

/// A call that sends the request for its token, faithfully driven, comes to this:
/// where the request brings a token, the client keeps it and the call goes on as
/// [`operation_outcome`] says; where it brings none, the call ends as
/// `AuthUnavailable` with the client as it was and nothing more sent.
proof fn lemma_driven_token<T>(
    world: World<T>,
    client: ClientView,
    call: CallView,
    request: RequestView,
    driver: Driver,
) -> (fuel: nat)
    requires
        call.phase == Phase::Head(Target::Token),
        call.body == Seq::<u8>::empty(),
    ensures
        driven(world, fuel, client, call, ActionView::<T>::Send(request), driver) == Some(
            match granted(world, request) {
                None => Outcome {
                    client,
                    sent: driver.sent.push(request),
                    result: Err::<T, ErrorView>(ErrorView::AuthUnavailable),
                },
                Some(token) => operation_outcome(
                    world,
                    ClientView {
                        api: client.api,
                        controller: stored(client.controller, client.api, token),
                    },
                    driver.sent.push(request),
                    call.operation,
                    token.access_token,
                ),
            },
        ),
{
    let sent = driver.sent.push(request);
    let end = CallView { operation: call.operation, phase: Phase::Finished, body: Seq::empty() };
    let refused = ActionView::<T>::Finish(Err(ErrorView::AuthUnavailable));
    let unavailable = Some(
        Outcome { client, sent, result: Err::<T, ErrorView>(ErrorView::AuthUnavailable) },
    );
    match (world.transport)(request) {
        Delivery::Refused(text) => {
            let after = Driver { sent, pending: Seq::empty(), complete: false };
            assert(driven(world, 0, client, end, refused, after) == unavailable);
            1
        },
        Delivery::Answered(answer) => {
            let status = answer.status;
            let started = Driver { sent, pending: answer.chunks, complete: answer.complete };
            if !is_success_status(status) {
                assert(driven(world, 0, client, end, refused, started) == unavailable);
                1
            } else {
                let reading = CallView {
                    operation: call.operation,
                    phase: Phase::Body(Target::Token, status),
                    body: Seq::empty(),
                };
                let body = answer.chunks.flatten();
                let read = CallView {
                    operation: call.operation,
                    phase: Phase::Body(Target::Token, status),
                    body,
                };
                let drained = Driver { sent, pending: Seq::empty(), complete: answer.complete };
                if !answer.complete {
                    lemma_driven_through_body::<T>(world, 1, client, reading, started);
                    assert(resumed::<T>(client, read, EventView::BodyFailed) == (
                        client,
                        end,
                        refused,
                    ));
                    assert(driven(world, 0, client, end, refused, drained) == unavailable);
                    (answer.chunks.len() + 2) as nat
                } else {
                    let decoding = CallView {
                        operation: call.operation,
                        phase: Phase::Decode(Target::Token, status),
                        body: Seq::empty(),
                    };
                    let decode = ActionView::<T>::Decode(Schema::AccessToken, body);
                    assert(served(world, drained, ActionView::<T>::Receive) == (
                        EventView::<T>::EndOfBody,
                        drained,
                    ));
                    assert(resumed::<T>(client, read, EventView::EndOfBody) == (
                        client,
                        decoding,
                        decode,
                    ));
                    let event = EventView::<T>::Token((world.token)(body));
                    assert(served(world, drained, decode) == (event, drained));
                    match (world.token)(body) {
                        None => {
                            lemma_driven_through_body::<T>(world, 2, client, reading, started);
                            (answer.chunks.len() + 3) as nat
                        },
                        Some(token) => {
                            let kept = ClientView {
                                api: client.api,
                                controller: stored(client.controller, client.api, token),
                            };
                            let expected = operation_outcome::<T>(
                                world,
                                kept,
                                sent,
                                call.operation,
                                token.access_token,
                            );
                            let built = request_for(
                                client.api.base,
                                call.operation,
                                token.access_token,
                            );
                            let rest: nat = match built {
                                Ok(next) => steps_of((world.transport)(next)),
                                Err(_) => 0,
                            };
                            match built {
                                Err(e) => {
                                    let last = ActionView::<T>::Finish(
                                        Err(ErrorView::RequestBuild(e)),
                                    );
                                    assert(driven(world, rest, kept, end, last, drained) == Some(
                                        expected,
                                    ));
                                },
                                Ok(next) => {
                                    let waiting = CallView {
                                        operation: call.operation,
                                        phase: Phase::Head(Target::Endpoint),
                                        body: Seq::empty(),
                                    };
                                    lemma_driven_operation::<T>(
                                        world,
                                        kept,
                                        waiting,
                                        next,
                                        drained,
                                    );
                                },
                            }
                            assert(driven(
                                world,
                                (rest + 1) as nat,
                                client,
                                decoding,
                                decode,
                                drained,
                            ) == Some(expected));
                            lemma_driven_through_body::<T>(
                                world,
                                (rest + 2) as nat,
                                client,
                                reading,
                                started,
                            );
                            (rest + 3 + answer.chunks.len()) as nat
                        },
                    }
                }
            }
        },
    }
}

/// A call that is driven faithfully comes to its outcome: the loop ends, the
/// client is then what [`outcome`] says, the requests that were sent are the ones
/// it names, in that order, and the result is the one it gives. By
/// [`lemma_more_fuel_same_outcome`] this is the only outcome the loop can have.
pub proof fn lemma_driven_call_comes_to_its_outcome<T>(
    world: World<T>,
    client: ClientView,
    operation: OperationView,
)
    ensures
        exists|fuel: nat|
            driven(
                world,
                fuel,
                client,
                begun::<T>(client, operation).0,
                begun::<T>(client, operation).1,
                idle(),
            ) == Some(outcome(world, client, operation)),
{
    let (call, action) = begun::<T>(client, operation);
    let expected = outcome(world, client, operation);
    let fuel: nat = match action {
        ActionView::Send(request) => {
            if call.phase == Phase::Head(Target::Token) {
                lemma_driven_token::<T>(world, client, call, request, idle())
            } else {
                lemma_driven_operation::<T>(world, client, call, request, idle());
                steps_of((world.transport)(request))
            }
        },
        _ => 0,
    };
    assert(driven(world, fuel, client, call, action, idle()) == Some(expected));
}

/// The token is asked for once. A call that finds no token kept sends the request
/// for one first and then the request of its operation; the client keeps the token
/// that came. A later call on that client, whatever its operation and whatever
/// becomes of it, sends nothing but the request of its operation, under the same
/// token, and leaves the client as it is.
pub proof fn lemma_token_is_fetched_once<T, U>(
    world: World<T>,
    later: World<U>,
    client: ClientView,
    operation: OperationView,
    next: OperationView,
    request: RequestView,
    token: AccessTokenView,
)
    requires
        needs_token(operation),
        needs_token(next),
        token_step(client.controller, client.api) == TokenStepView::Fetch(request),
        granted(world, request) == Some(token),
    ensures
        ({
            let first = outcome(world, client, operation);
            let second = outcome(later, first.client, next);
            &&& first.sent == match request_for(client.api.base, operation, token.access_token) {
                Ok(own) => seq![request, own],
                Err(_) => seq![request],
            }
            &&& first.client.api == client.api
            &&& first.client.controller == stored(client.controller, client.api, token)
            &&& second.sent == match request_for(client.api.base, next, token.access_token) {
                Ok(own) => seq![own],
                Err(_) => Seq::empty(),
            }
            &&& second.client == first.client
        }),
{
    match request_for(client.api.base, operation, token.access_token) {
        Ok(own) => {
        },
        Err(_) => {},
    }
    match request_for(client.api.base, next, token.access_token) {
        Ok(own) => {
        },
        Err(_) => {},
    }
}

/// Nothing is remembered of a fetch that failed. A call whose request for a token
/// brings none ends as `AuthUnavailable`, with that one request sent and the
/// client as it was; so the next call comes to whatever it would have come to
/// without the failure, and begins by sending the request for a token afresh.
pub proof fn lemma_failed_fetch_is_forgotten<T, U>(
    world: World<T>,
    later: World<U>,
    client: ClientView,
    operation: OperationView,
    next: OperationView,
    request: RequestView,
)
    requires
        needs_token(operation),
        needs_token(next),
        token_step(client.controller, client.api) == TokenStepView::Fetch(request),
        granted(world, request) is None,
    ensures
        outcome(world, client, operation) == (Outcome {
            client,
            sent: seq![request],
            result: Err::<T, ErrorView>(ErrorView::AuthUnavailable),
        }),
        outcome(later, outcome(world, client, operation).client, next) == outcome(
            later,
            client,
            next,
        ),
        outcome(later, client, next).sent.len() > 0,
        outcome(later, client, next).sent[0] == request,
{
    match granted(later, request) {
        None => {},
        Some(token) => {
            match request_for(client.api.base, next, token.access_token) {
                Ok(own) => {
                },
                Err(_) => {},
            }
        },
    }
}

/// A call gives a document exactly when the request of its operation was answered
/// with a success status and a complete body in which the decoder found that
/// document. A body that is cut short or holds something else never becomes a
/// document, and a failure status never does.
pub proof fn lemma_document_comes_from_a_decoded_success<T>(
    world: World<T>,
    request: RequestView,
    document: T,
)
    ensures
        exchanged(world, request) == Ok::<T, ErrorView>(document) <==> {
            &&& (world.transport)(request) matches Delivery::Answered(answer)
            &&& is_success_status(answer.status)
            &&& answer.complete
            &&& (world.model)(answer.chunks.flatten()) == Some(document)
        },
{
}

/// What a call reports when the request of its operation did not bring a
/// document: the status with the exchange's payload on a failure status, the
/// status alone where the body held no payload or broke off, a parse failure
/// where a success carried no document, a read failure where its body broke off,
/// and the transport's own words where no response came at all.
pub proof fn lemma_failure_is_classified<T>(world: World<T>, request: RequestView)
    ensures
        match (world.transport)(request) {
            Delivery::Refused(text) => exchanged(world, request) == Err::<T, ErrorView>(
                ErrorView::Transport(text),
            ),
            Delivery::Answered(answer) => {
                let body = answer.chunks.flatten();
                if !is_success_status(answer.status) {
                    exchanged(world, request) == Err::<T, ErrorView>(
                        ErrorView::Http {
                            status: answer.status,
                            payload: if answer.complete {
                                (world.payload)(body)
                            } else {
                                None
                            },
                        },
                    )
                } else if !answer.complete {
                    exchanged(world, request) == Err::<T, ErrorView>(
                        ErrorView::Decode(DecodeStage::Read),
                    )
                } else {
                    (world.model)(body) is None ==> exchanged(world, request) == Err::<
                        T,
                        ErrorView,
                    >(ErrorView::Decode(DecodeStage::Parse))
                }
            },
        },
{
}

} // verus!
