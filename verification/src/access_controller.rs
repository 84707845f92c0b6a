//! The access controller: the one place where the access token is kept.
//!
//! The token is asked for when it is first needed and kept from then on. The
//! controller itself sends nothing: it says whether a token is there or which
//! request has to be sent for one, and it takes the token that came back. A fetch
//! that failed leaves no trace, so the next call asks again.

use crate::chatex::{AccessContext, AccessView, ApiContext, ApiView};
use crate::endpoint::{request_for, OperationView, Profile};
use crate::error::BuildError;
use crate::models::{AccessToken, AccessTokenView};
use crate::request::{text_of, RequestDescription, RequestView};
use vstd::prelude::*;
use vstd::string::*;

verus! {

/// What the controller answers when a token is asked for.
#[derive(Debug, PartialEq, Eq)]
pub enum TokenStep {
    /// The token is there. Nothing has to be sent.
    Ready(String),
    /// No token is there. This request asks the service for one.
    Fetch(RequestDescription),
    /// No token is there and the request for one cannot be described.
    Failed(BuildError),
}

/// The mathematical value of a [`TokenStep`].
pub enum TokenStepView {
    Ready(Seq<char>),
    Fetch(RequestView),
    Failed(BuildError),
}

impl View for TokenStep {
    type V = TokenStepView;

    open spec fn view(&self) -> TokenStepView {
        match self {
            TokenStep::Ready(token) => TokenStepView::Ready(token@),
            TokenStep::Fetch(request) => TokenStepView::Fetch(request@),
            TokenStep::Failed(e) => TokenStepView::Failed(*e),
        }
    }
}

/// The mathematical value of an [`AccessController`].
pub struct ControllerView {
    /// What is kept: nothing, or the context of the token that was granted.
    pub access: Option<AccessView>,
    /// The base URL under which the token is asked for.
    pub base: Seq<char>,
}

/// The token that is kept, if any.
pub open spec fn cached_token(controller: ControllerView) -> Option<Seq<char>> {
    match controller.access {
        Some(access) => Some(access.access_token),
        None => None,
    }
}

/// What the controller answers when a token is asked for: the token that is kept,
/// or else the request for one under the secret of `api`.
pub open spec fn token_step(controller: ControllerView, api: ApiView) -> TokenStepView {
    match controller.access {
        Some(access) => TokenStepView::Ready(access.access_token),
        None => match request_for(controller.base, OperationView::CreateAccessToken, api.secret) {
            Ok(request) => TokenStepView::Fetch(request),
            Err(e) => TokenStepView::Failed(e),
        },
    }
}

/// The controller after the service granted `token`: it keeps the token, together
/// with the base URL of `api`, in place of whatever it kept before.
pub open spec fn stored(controller: ControllerView, api: ApiView, token: AccessTokenView)
    -> ControllerView {
    ControllerView {
        access: Some(AccessView { base: api.base, access_token: token.access_token }),
        base: controller.base,
    }
}

/// The keeper of the access token.
#[derive(Debug)]
pub struct AccessController {
    access_context: Option<AccessContext>,
    profile: Profile,
}

impl View for AccessController {
    type V = ControllerView;

    closed spec fn view(&self) -> ControllerView {
        ControllerView {
            access: match self.access_context {
                Some(access) => Some(access@),
                None => None,
            },
            base: self.profile@,
        }
    }
}

impl AccessController {
    /// A controller that keeps no token yet and asks for one at `profile`.
    pub fn new(profile: Profile) -> (controller: AccessController)
        ensures
            controller@ == (ControllerView { access: None, base: profile@ }),
    {
        AccessController { access_context: None, profile }
    }

    /// The token that is kept, if any. Nothing is sent for it.
    pub fn get_access_token(&self) -> (token: Option<String>)
        ensures
            text_of(token) == cached_token(self@),
    {
        match &self.access_context {
            Some(access) => Some(access.access_token().to_owned()),
            None => None,
        }
    }

    /// The token that is kept or, where none is, the request that asks for one.
    /// The controller is left as it is: the request is still to be sent, and the
    /// token it brings is handed to [`AccessController::store`].
    pub fn get_or_fetch_token(&self, api: &ApiContext) -> (step: TokenStep)
        ensures
            step@ == token_step(self@, api@),
    {
        match &self.access_context {
            Some(access) => TokenStep::Ready(access.access_token().to_owned()),
            None => match self.profile.get_access_token(api) {
                Ok(request) => TokenStep::Fetch(request),
                Err(e) => TokenStep::Failed(e),
            },
        }
    }

    /// Keeps the token that the service granted and hands it back. Whatever was
    /// kept before is replaced as a whole.
    pub fn store(&mut self, api: &ApiContext, token: AccessToken) -> (granted: String)
        ensures
            final(self)@ == stored(old(self)@, api@, token@),
            granted@ == token@.access_token,
    {
        let granted = token.access_token.clone();
        self.access_context = Some(AccessContext::new(api.base().clone(), token.access_token));
        granted
    }
}

/// Once a token is kept, asking for it sends nothing and gives that token, under
/// whatever secret and however often it is asked.
pub proof fn lemma_kept_token_is_served(controller: ControllerView, api: ApiView)
    requires
        controller.access is Some,
    ensures
        token_step(controller, api) == TokenStepView::Ready(cached_token(controller)->0),
{
}

/// With no token kept, asking for one gives the request for an access token under
/// the shared secret, or says that it cannot be described. It never gives a token.
pub proof fn lemma_missing_token_is_asked_for(controller: ControllerView, api: ApiView)
    requires
        controller.access is None,
    ensures
        token_step(controller, api) == match request_for(
            controller.base,
            OperationView::CreateAccessToken,
            api.secret,
        ) {
            Ok(request) => TokenStepView::Fetch(request),
            Err(e) => TokenStepView::Failed(e),
        },
{
}

/// A token that was stored is the one that is kept and served from then on, and
/// storing another replaces it as a whole.
pub proof fn lemma_stored_token_is_kept(
    controller: ControllerView,
    api: ApiView,
    token: AccessTokenView,
    later: ApiView,
    other: AccessTokenView,
)
    ensures
        cached_token(stored(controller, api, token)) == Some(token.access_token),
        token_step(stored(controller, api, token), later) == TokenStepView::Ready(
            token.access_token,
        ),
        stored(stored(controller, api, token), later, other) == stored(controller, later, other),
{
}

} // verus!
