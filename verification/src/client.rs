//! The client of the exchange.

use crate::access_controller::{AccessController, ControllerView};
use crate::call::{resumed, Action, Call, ClientView, Event};
use crate::chatex::{ApiContext, ApiView, BaseContext};
use crate::client_base::ClientBase;
use crate::coin_client::CoinClient;
use crate::endpoint::Profile;
use crate::profile_client::ProfileClient;
use vstd::prelude::*;

verus! {

/// A client of the exchange: its configuration and the access token it keeps.
///
/// The client sends nothing itself. A call is begun through [`ChatexClient::profile`]
/// or [`ChatexClient::coin`] and carried on with [`ChatexClient::resume`]; between
/// the two the driver does what each action asks for.
#[derive(Debug)]
pub struct ChatexClient {
    base: ClientBase,
}

impl View for ChatexClient {
    type V = ClientView;

    closed spec fn view(&self) -> ClientView {
        self.base@
    }
}

/// The value of a client that was just made: it keeps no token, and asks for one
/// under the same base URL that its operations lie under.
pub open spec fn fresh_client(base_url: Seq<char>, secret: Seq<char>) -> ClientView {
    ClientView {
        api: ApiView { base: base_url, secret },
        controller: ControllerView { access: None, base: base_url },
    }
}

impl ChatexClient {
    /// A client for the service at `base_url` that asks for access tokens with
    /// `secret`.
    pub fn new(base_url: String, secret: String) -> (client: ChatexClient)
        ensures
            client@ == fresh_client(base_url@, secret@),
    {
        let base_context = BaseContext::new(base_url);
        let profile = Profile::new(&base_context);
        let api_context = ApiContext::new(base_context, secret);
        let access_controller = AccessController::new(profile);
        let base = ClientBase::new(api_context, access_controller);
        ChatexClient { base }
    }

    /// The operations on the caller's own account.
    pub fn profile(&self) -> (profile: ProfileClient<'_>)
        ensures
            profile@ == self@,
    {
        ProfileClient::new(&self.base)
    }

    /// The operations on the coin catalogue.
    pub fn coin(&self) -> (coin: CoinClient<'_>)
        ensures
            coin@ == self@,
    {
        CoinClient::new(&self.base)
    }

    /// The access token that is kept, if any. Nothing is sent for it.
    pub fn get_access_token(&self) -> (token: Option<String>)
        ensures
            crate::request::text_of(token) == crate::access_controller::cached_token(
                self@.controller,
            ),
    {
        self.base.get_access_token()
    }

    /// Carries a call on: takes the event that the last action led to and says
    /// what the driver is to do next.
    pub fn resume<T>(&mut self, call: Call<T>, event: Event<T>) -> (next: (Call<T>, Action<T>))
        ensures
            (final(self)@, next.0@, next.1@) == resumed::<T>(old(self)@, call@, event@),
    {
        self.base.resume(call, event)
    }
}

} // verus!
