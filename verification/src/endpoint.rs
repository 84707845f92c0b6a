//! The endpoints of the service: which request each operation is made with.
//!
//! Building a request is a pure function of the base URL, the operation and the
//! credential. It does no I/O and keeps no state, so the same three always give
//! the same request, whatever was built before.

use crate::chatex::{ApiContext, BaseContext};
use crate::coin::{symbol, CoinView};
use crate::error::BuildError;
use crate::request::{
    authorization, authorized_request, bearer, built_view, resolved_url, Method,
    RequestDescription, RequestView,
};
use vstd::prelude::*;
use vstd::string::*;

verus! {

/// An operation of the service.
#[derive(Debug, Clone, PartialEq, Eq)]
pub enum Operation {
    /// Ask for an access token. The credential is the shared secret.
    CreateAccessToken,
    /// The account of the caller.
    GetProfile,
    /// What the caller holds.
    GetBalance,
    /// All coins of the exchange.
    ListCoins,
    /// One coin of the exchange.
    GetCoin(crate::coin::Coin),
}

/// The mathematical value of an [`Operation`].
pub enum OperationView {
    CreateAccessToken,
    GetProfile,
    GetBalance,
    ListCoins,
    GetCoin(CoinView),
}

impl View for Operation {
    type V = OperationView;

    open spec fn view(&self) -> OperationView {
        match self {
            Operation::CreateAccessToken => OperationView::CreateAccessToken,
            Operation::GetProfile => OperationView::GetProfile,
            Operation::GetBalance => OperationView::GetBalance,
            Operation::ListCoins => OperationView::ListCoins,
            Operation::GetCoin(coin) => OperationView::GetCoin(coin@),
        }
    }
}

/// The method an operation is asked for with.
pub open spec fn method_of(operation: OperationView) -> Method {
    match operation {
        OperationView::CreateAccessToken => Method::Post,
        _ => Method::Get,
    }
}

/// The path of an operation, relative to the base URL.
pub open spec fn path_of(operation: OperationView) -> Seq<char> {
    match operation {
        OperationView::CreateAccessToken => "access_token"@,
        OperationView::GetProfile => "me"@,
        OperationView::GetBalance => "balance"@,
        OperationView::ListCoins => "coins"@,
        OperationView::GetCoin(coin) => "coins/"@ + symbol(coin),
    }
}

/// Whether an operation is made with an access token. Asking for the token itself
/// is made with the shared secret.
pub open spec fn needs_token(operation: OperationView) -> bool {
    !(operation is CreateAccessToken)
}

/// The request of an operation under `base`, made with `credential`, or the reason
/// why there is none.
pub open spec fn request_for(base: Seq<char>, operation: OperationView, credential: Seq<char>)
    -> Result<RequestView, BuildError> {
    authorized_request(method_of(operation), base, path_of(operation), credential)
}

/// The request of an operation, where there is one: it goes to the URL that the
/// path of the operation resolves to, with the method of the operation, without a
/// body, and with one header, which carries the credential. Only the request for
/// an access token is posted.
pub proof fn lemma_request_of_operation(
    base: Seq<char>,
    operation: OperationView,
    credential: Seq<char>,
)
    ensures
        request_for(base, operation, credential) matches Ok(request) ==> {
            &&& resolved_url(base, path_of(operation)) == Some(request.url)
            &&& request.method == method_of(operation)
            &&& request.headers == seq![(authorization(), bearer(credential))]
            &&& request.body is None
            &&& (request.method == Method::Post <==> operation is CreateAccessToken)
        },
{
}

impl Operation {
    /// Whether the operation is made with an access token.
    pub fn needs_token(&self) -> (yes: bool)
        ensures
            yes == needs_token(self@),
    {
        match self {
            Operation::CreateAccessToken => false,
            _ => true,
        }
    }

    /// The path of the operation, relative to the base URL.
    pub fn path(&self) -> (path: String)
        ensures
            path@ == path_of(self@),
    {
        match self {
            Operation::CreateAccessToken => "access_token".to_owned(),
            Operation::GetProfile => "me".to_owned(),
            Operation::GetBalance => "balance".to_owned(),
            Operation::ListCoins => "coins".to_owned(),
            Operation::GetCoin(coin) => {
                let mut path = "coins/".to_owned();
                let name = coin.to_string();
                path.append(name.as_str());
                path
            },
        }
    }

    /// The method the operation is asked for with.
    pub fn method(&self) -> (method: Method)
        ensures
            method == method_of(self@),
    {
        match self {
            Operation::CreateAccessToken => Method::Post,
            _ => Method::Get,
        }
    }
}

/// Describes the request of `operation` under `base`, made with `credential`.
pub fn describe(base: &BaseContext, operation: &Operation, credential: &str) -> (built: Result<
    RequestDescription,
    BuildError,
>)
    ensures
        built_view(built) == request_for(base@, operation@, credential@),
{
    let path = operation.path();
    RequestDescription::authorized(operation.method(), base.url(), path.as_str(), credential)
}

/// The endpoints of the caller's own account.
#[derive(Debug, PartialEq, Eq)]
pub struct Profile {
    base: BaseContext,
}

impl View for Profile {
    type V = Seq<char>;

    /// The base URL the endpoints lie under.
    closed spec fn view(&self) -> Seq<char> {
        self.base@
    }
}

impl Clone for Profile {
    fn clone(&self) -> (copy: Profile)
        ensures
            copy@ == self@,
    {
        Profile { base: self.base.clone() }
    }
}

impl Profile {
    pub fn new(base: &BaseContext) -> (profile: Profile)
        ensures
            profile@ == base@,
    {
        Profile { base: base.clone() }
    }

    /// The request that asks for an access token with the secret of `api`.
    pub fn get_access_token(&self, api: &ApiContext) -> (built: Result<
        RequestDescription,
        BuildError,
    >)
        ensures
            built_view(built) == request_for(
                self@,
                OperationView::CreateAccessToken,
                api@.secret,
            ),
    {
        describe(&self.base, &Operation::CreateAccessToken, api.secret())
    }

    /// The request for the account of the caller.
    pub fn get_me(&self, access_token: &str) -> (built: Result<RequestDescription, BuildError>)
        ensures
            built_view(built) == request_for(self@, OperationView::GetProfile, access_token@),
    {
        describe(&self.base, &Operation::GetProfile, access_token)
    }

    /// The request for what the caller holds.
    pub fn get_balance(&self, access_token: &str) -> (built: Result<
        RequestDescription,
        BuildError,
    >)
        ensures
            built_view(built) == request_for(self@, OperationView::GetBalance, access_token@),
    {
        describe(&self.base, &Operation::GetBalance, access_token)
    }
}

/// The endpoints of the coin catalogue.
#[derive(Debug, PartialEq, Eq)]
pub struct Coin {
    base: BaseContext,
}

impl View for Coin {
    type V = Seq<char>;

    /// The base URL the endpoints lie under.
    closed spec fn view(&self) -> Seq<char> {
        self.base@
    }
}

impl Clone for Coin {
    fn clone(&self) -> (copy: Coin)
        ensures
            copy@ == self@,
    {
        Coin { base: self.base.clone() }
    }
}

impl Coin {
    pub fn new(base: &BaseContext) -> (coin: Coin)
        ensures
            coin@ == base@,
    {
        Coin { base: base.clone() }
    }

    /// The request for all coins of the exchange.
    pub fn coins(&self, access_token: &str) -> (built: Result<RequestDescription, BuildError>)
        ensures
            built_view(built) == request_for(self@, OperationView::ListCoins, access_token@),
    {
        describe(&self.base, &Operation::ListCoins, access_token)
    }

    /// The request for one coin of the exchange.
    pub fn coin(&self, coin: crate::coin::Coin, access_token: &str) -> (built: Result<
        RequestDescription,
        BuildError,
    >)
        ensures
            built_view(built) == request_for(self@, OperationView::GetCoin(coin@), access_token@),
    {
        describe(&self.base, &Operation::GetCoin(coin), access_token)
    }
}

} // verus!
