//! The client core: one access controller and one configuration, shared by every
//! call.
//!
//! [`ClientBase::begin`] and [`ClientBase::resume`] are the executable forms of
//! [`begun`] and [`resumed`]. The core is the same whoever drives it, a production
//! transport or a scripted one.

use crate::access_controller::{cached_token, AccessController, TokenStep};
use crate::call::{
    begun, failed, resumed, unexpected, Action, Call, ClientView, Event, Phase, Schema, Target,
};
use crate::chatex::ApiContext;
use crate::endpoint::{describe, Operation};
use crate::error::{DecodeStage, Error, ErrorView};
use crate::request::text_of;
use vstd::prelude::*;
use vstd::string::*;

verus! {

/// What the calls of one client share.
#[derive(Debug)]
pub struct ClientBase {
    api_context: ApiContext,
    access_controller: AccessController,
}

impl View for ClientBase {
    type V = ClientView;

    closed spec fn view(&self) -> ClientView {
        ClientView { api: self.api_context@, controller: self.access_controller@ }
    }
}

/// How a call reports that the exchange with `target` failed with `error`.
fn fail<T>(target: Target, error: Error) -> (action: Action<T>)
    ensures
        action@ == failed::<T>(target, error@),
{
    match target {
        Target::Token => Action::Finish(Err(Error::AuthUnavailable)),
        Target::Endpoint => Action::Finish(Err(error)),
    }
}

/// The failure that an event out of turn is reported as.
fn out_of_turn() -> (error: Error)
    ensures
        error@ == ErrorView::Transport(unexpected()),
{
    Error::Transport("unexpected event".to_owned())
}

/// The end of `call` with `action`.
fn finish<T>(call: Call<T>, action: Action<T>) -> (next: (Call<T>, Action<T>))
    ensures
        next.0@ == (crate::call::CallView {
            operation: call@.operation,
            phase: Phase::Finished,
            body: Seq::empty(),
        }),
        next.1 == action,
{
    let (operation, _) = call.into_parts();
    (Call::at(operation, Phase::Finished), action)
}

impl ClientBase {
    pub fn new(api_context: ApiContext, access_controller: AccessController) -> (client:
        ClientBase)
        ensures
            client@ == (ClientView { api: api_context@, controller: access_controller@ }),
    {
        ClientBase { api_context, access_controller }
    }

    /// The access token that is kept, if any. Nothing is sent for it.
    pub fn get_access_token(&self) -> (token: Option<String>)
        ensures
            text_of(token) == cached_token(self@.controller),
    {
        self.access_controller.get_access_token()
    }

    /// Begins a call of `operation` and says what the driver is to do first.
    pub fn begin<T>(&self, operation: Operation) -> (next: (Call<T>, Action<T>))
        ensures
            (next.0@, next.1@) == begun::<T>(self@, operation@),
    {
        if !operation.needs_token() {
            let built = describe(self.api_context.base(), &operation, self.api_context.secret());
            Call::dispatch(operation, built)
        } else {
            match self.access_controller.get_or_fetch_token(&self.api_context) {
                TokenStep::Ready(token) => {
                    let built = describe(self.api_context.base(), &operation, token.as_str());
                    Call::dispatch(operation, built)
                },
                TokenStep::Fetch(request) => (
                    Call::at(operation, Phase::Head(Target::Token)),
                    Action::Send(request),
                ),
                TokenStep::Failed(_) => (
                    Call::at(operation, Phase::Finished),
                    Action::Finish(Err(Error::AuthUnavailable)),
                ),
            }
        }
    }

    /// Takes the event that the last action led to and says what the driver is to
    /// do next. The access token is stored here, and only here, when the decoder
    /// reports one for a call that was waiting for it.
    pub fn resume<T>(&mut self, call: Call<T>, event: Event<T>) -> (next: (Call<T>, Action<T>))
        ensures
            (final(self)@, next.0@, next.1@) == resumed::<T>(old(self)@, call@, event@),
    {
        match call.phase() {
            Phase::Head(target) => match event {
                Event::Head(status) => {
                    let refused = match target {
                        Target::Token => Error::is_error_code(status),
                        Target::Endpoint => false,
                    };
                    if refused {
                        finish(call, fail(target, Error::to_error(status, None)))
                    } else {
                        let (operation, _) = call.into_parts();
                        (Call::at(operation, Phase::Body(target, status)), Action::Receive)
                    }
                },
                Event::TransportFailed(text) => finish(call, fail(target, Error::Transport(text))),
                _ => finish(call, fail(target, out_of_turn())),
            },
            Phase::Body(target, status) => match event {
                Event::Chunk(bytes) => (call.with_chunk(bytes), Action::Receive),
                Event::EndOfBody => {
                    let schema = if Error::is_error_code(status) {
                        Schema::ErrorPayload
                    } else {
                        match target {
                            Target::Token => Schema::AccessToken,
                            Target::Endpoint => Schema::Model,
                        }
                    };
                    let (operation, body) = call.into_parts();
                    (
                        Call::at(operation, Phase::Decode(target, status)),
                        Action::Decode(schema, body),
                    )
                },
                Event::BodyFailed => {
                    let error = if Error::is_error_code(status) {
                        Error::to_error(status, None)
                    } else {
                        Error::Decode(DecodeStage::Read)
                    };
                    finish(call, fail(target, error))
                },
                _ => finish(call, fail(target, out_of_turn())),
            },
            Phase::Decode(target, status) => {
                let failure = Error::is_error_code(status);
                match event {
                    Event::Payload(payload) => {
                        let error = if failure {
                            Error::to_error(status, payload)
                        } else {
                            out_of_turn()
                        };
                        finish(call, fail(target, error))
                    },
                    Event::Token(token) => {
                        let awaited = match target {
                            Target::Token => !failure,
                            Target::Endpoint => false,
                        };
                        if !awaited {
                            finish(call, fail(target, out_of_turn()))
                        } else {
                            match token {
                                Some(granted) => {
                                    let token = self.access_controller.store(
                                        &self.api_context,
                                        granted,
                                    );
                                    let (operation, _) = call.into_parts();
                                    let built = describe(
                                        self.api_context.base(),
                                        &operation,
                                        token.as_str(),
                                    );
                                    Call::dispatch(operation, built)
                                },
                                None => finish(
                                    call,
                                    fail(target, Error::Decode(DecodeStage::Parse)),
                                ),
                            }
                        }
                    },
                    Event::Model(model) => {
                        let awaited = match target {
                            Target::Token => false,
                            Target::Endpoint => !failure,
                        };
                        if !awaited {
                            finish(call, fail(target, out_of_turn()))
                        } else {
                            match model {
                                Some(document) => finish(call, Action::Finish(Ok(document))),
                                None => finish(
                                    call,
                                    fail(target, Error::Decode(DecodeStage::Parse)),
                                ),
                            }
                        }
                    },
                    _ => finish(call, fail(target, out_of_turn())),
                }
            },
            Phase::Finished => finish(call, Action::Finish(Err(out_of_turn()))),
        }
    }
}

} // verus!
