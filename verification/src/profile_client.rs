//! The operations on the caller's own account.

use crate::call::{begun, Action, Call, ClientView};
use crate::client_base::ClientBase;
use crate::endpoint::{Operation, OperationView};
use crate::models::{AccessToken, Balance, BasicInfo};
use vstd::prelude::*;

verus! {

/// The account operations of a client. Each method begins a call and says what
/// the driver is to do first; the call is carried on with the client's `resume`.
pub struct ProfileClient<'a> {
    base: &'a ClientBase,
}

impl<'a> View for ProfileClient<'a> {
    type V = ClientView;

    closed spec fn view(&self) -> ClientView {
        self.base@
    }
}

impl<'a> ProfileClient<'a> {
    pub fn new(base: &'a ClientBase) -> (client: ProfileClient<'a>)
        ensures
            client@ == base@,
    {
        ProfileClient { base }
    }

    /// Asks the service for an access token with the shared secret. The token is
    /// the result of the call; it is not kept for later calls.
    pub fn create_access_token(&self) -> (next: (Call<AccessToken>, Action<AccessToken>))
        ensures
            (next.0@, next.1@) == begun::<AccessToken>(self@, OperationView::CreateAccessToken),
    {
        self.base.begin(Operation::CreateAccessToken)
    }

    /// Asks for the account of the caller.
    pub fn get_account_information(&self) -> (next: (Call<BasicInfo>, Action<BasicInfo>))
        ensures
            (next.0@, next.1@) == begun::<BasicInfo>(self@, OperationView::GetProfile),
    {
        self.base.begin(Operation::GetProfile)
    }

    /// Asks for what the caller holds.
    pub fn get_balance_summary(&self) -> (next: (Call<Balance>, Action<Balance>))
        ensures
            (next.0@, next.1@) == begun::<Balance>(self@, OperationView::GetBalance),
    {
        self.base.begin(Operation::GetBalance)
    }
}

} // verus!
