//! The operations on the coin catalogue.

use crate::call::{begun, Action, Call, ClientView};
use crate::client_base::ClientBase;
use crate::endpoint::{Operation, OperationView};
use crate::models::Coins;
use vstd::prelude::*;

verus! {

/// The catalogue operations of a client. Each method begins a call and says what
/// the driver is to do first; the call is carried on with the client's `resume`.
pub struct CoinClient<'a> {
    base: &'a ClientBase,
}

impl<'a> View for CoinClient<'a> {
    type V = ClientView;

    closed spec fn view(&self) -> ClientView {
        self.base@
    }
}

impl<'a> CoinClient<'a> {
    pub fn new(base: &'a ClientBase) -> (client: CoinClient<'a>)
        ensures
            client@ == base@,
    {
        CoinClient { base }
    }

    /// Asks for all coins of the exchange.
    pub fn get_available_coins(&self) -> (next: (Call<Coins>, Action<Coins>))
        ensures
            (next.0@, next.1@) == begun::<Coins>(self@, OperationView::ListCoins),
    {
        self.base.begin(Operation::ListCoins)
    }

    /// Asks for one coin of the exchange.
    pub fn get_coin(&self, coin: crate::coin::Coin) -> (next: (
        Call<crate::models::Coin>,
        Action<crate::models::Coin>,
    ))
        ensures
            (next.0@, next.1@) == begun::<crate::models::Coin>(
                self@,
                OperationView::GetCoin(coin@),
            ),
    {
        self.base.begin(Operation::GetCoin(coin))
    }
}

} // verus!
