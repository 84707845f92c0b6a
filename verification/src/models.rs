//! The records that the service answers with.
//!
//! They are passive: each holds the fields of one document of the service and has
//! no behaviour of its own.

use vstd::prelude::*;

verus! {

/// The answer to a request for an access token.
#[derive(Debug, Clone, PartialEq, Eq, Default)]
pub struct AccessToken {
    pub access_token: String,
    pub expires_at: i32,
}

/// The mathematical value of an [`AccessToken`].
pub struct AccessTokenView {
    pub access_token: Seq<char>,
    pub expires_at: i32,
}

impl View for AccessToken {
    type V = AccessTokenView;

    open spec fn view(&self) -> AccessTokenView {
        AccessTokenView { access_token: self.access_token@, expires_at: self.expires_at }
    }
}

/// The account of the caller.
#[derive(Debug, Clone, PartialEq, Eq, Default)]
pub struct BasicInfo {
    pub id: i64,
    pub merchant_info: Option<MerchantInfo>,
    pub profile: Profile,
}

#[derive(Debug, Clone, PartialEq, Eq, Default)]
pub struct MerchantInfo {
    pub name: String,
    pub usd_amount_max_limit: String,
}

#[derive(Debug, Clone, PartialEq, Eq, Default)]
pub struct Profile {
    pub country_code: String,
    pub email: Option<String>,
    pub is_finance_blocked: bool,
    pub lang_id: String,
    pub limits: AML5Limits,
    pub phone: String,
    pub username: String,
    pub verification: Verification,
}

#[derive(Debug, Clone, PartialEq, Eq, Default)]
pub struct AML5Limits {
    pub current_turnover: String,
    pub current_withdraw: String,
    pub turnover_limit: String,
    pub withdraw_limit: String,
    pub withdraw_limit_daily: String,
}

#[derive(Debug, Clone, PartialEq, Eq, Default)]
pub struct Verification {
    pub current_level: String,
}

/// What the caller holds, coin by coin.
pub type Balance = Vec<Currency>;

#[derive(Debug, Clone, PartialEq, Eq, Default)]
pub struct Currency {
    pub amount: String,
    pub coin: String,
    pub held: String,
}

/// The coins the exchange trades.
pub type Coins = Vec<Coin>;

/// What the exchange says of one coin.
#[derive(Debug, Clone, PartialEq, Eq, Default)]
pub struct Coin {
    pub decimals: u32,
    pub full_name: String,
    pub name: String,
}

} // verus!
