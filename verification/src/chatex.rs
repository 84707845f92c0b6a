//! The contexts a client works in: where the service is, and what it is spoken to
//! with.
//!
//! All three are immutable once made. A client has one [`ApiContext`] for its whole
//! life; an [`AccessContext`] comes into being when the service has granted an
//! access token.

use vstd::prelude::*;
use vstd::string::*;

verus! {

/// Where the service is: the URL that every path is resolved against.
#[derive(Debug, PartialEq, Eq)]
pub struct BaseContext {
    url: String,
}

impl View for BaseContext {
    type V = Seq<char>;

    closed spec fn view(&self) -> Seq<char> {
        self.url@
    }
}

impl BaseContext {
    pub fn new(url: String) -> (base: BaseContext)
        ensures
            base@ == url@,
    {
        BaseContext { url }
    }

    /// The base URL, as it was given.
    pub fn url(&self) -> (url: &str)
        ensures
            url@ == self@,
    {
        self.url.as_str()
    }
}

impl Clone for BaseContext {
    fn clone(&self) -> (copy: BaseContext)
        ensures
            copy@ == self@,
    {
        BaseContext { url: self.url.clone() }
    }
}

/// The mathematical value of an [`ApiContext`].
pub struct ApiView {
    pub base: Seq<char>,
    pub secret: Seq<char>,
}

/// What a client is configured with: the service and the shared secret that access
/// tokens are asked for with.
#[derive(Debug, PartialEq, Eq)]
pub struct ApiContext {
    base: BaseContext,
    secret: String,
}

impl View for ApiContext {
    type V = ApiView;

    closed spec fn view(&self) -> ApiView {
        ApiView { base: self.base@, secret: self.secret@ }
    }
}

impl ApiContext {
    pub fn new(base: BaseContext, secret: String) -> (api: ApiContext)
        ensures
            api@ == (ApiView { base: base@, secret: secret@ }),
    {
        ApiContext { base, secret }
    }

    pub fn base(&self) -> (base: &BaseContext)
        ensures
            base@ == self@.base,
    {
        &self.base
    }

    pub fn secret(&self) -> (secret: &str)
        ensures
            secret@ == self@.secret,
    {
        self.secret.as_str()
    }
}

/// The mathematical value of an [`AccessContext`].
pub struct AccessView {
    pub base: Seq<char>,
    pub access_token: Seq<char>,
}

/// What authenticated requests are made with: the service and the access token it
/// granted.
#[derive(Debug, PartialEq, Eq)]
pub struct AccessContext {
    base: BaseContext,
    access_token: String,
}

impl View for AccessContext {
    type V = AccessView;

    closed spec fn view(&self) -> AccessView {
        AccessView { base: self.base@, access_token: self.access_token@ }
    }
}

impl AccessContext {
    pub fn new(base: BaseContext, access_token: String) -> (access: AccessContext)
        ensures
            access@ == (AccessView { base: base@, access_token: access_token@ }),
    {
        AccessContext { base, access_token }
    }

    pub fn base(&self) -> (base: &BaseContext)
        ensures
            base@ == self@.base,
    {
        &self.base
    }

    pub fn access_token(&self) -> (token: &str)
        ensures
            token@ == self@.access_token,
    {
        self.access_token.as_str()
    }
}

} // verus!
