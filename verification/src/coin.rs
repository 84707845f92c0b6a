//! Coin identity: the symbols the exchange trades under, and pairs of them.
//!
//! The set of coins is decided by the remote service and can grow, so besides the
//! symbols known today a coin can be `Unknown` and carry whatever symbol the
//! service used. Every coin has exactly one string form, its symbol.

use crate::text::str_eq;
use vstd::prelude::*;
use vstd::std_specs::convert::FromSpecImpl;
use vstd::string::*;

verus! {

/// A coin of the exchange.
#[derive(Debug, Clone, PartialEq, Eq)]
pub enum Coin {
    BTC,
    LTC,
    BCH,
    XRP,
    BTG,
    ETH,
    TRX,
    DASH,
    USDT,
    TON,
    /// A coin this library has no variant for, under the symbol the service gave it.
    Unknown(String),
}

/// The mathematical value of a [`Coin`].
pub enum CoinView {
    BTC,
    LTC,
    BCH,
    XRP,
    BTG,
    ETH,
    TRX,
    DASH,
    USDT,
    TON,
    Unknown(Seq<char>),
}

impl View for Coin {
    type V = CoinView;

    open spec fn view(&self) -> CoinView {
        match self {
            Coin::BTC => CoinView::BTC,
            Coin::LTC => CoinView::LTC,
            Coin::BCH => CoinView::BCH,
            Coin::XRP => CoinView::XRP,
            Coin::BTG => CoinView::BTG,
            Coin::ETH => CoinView::ETH,
            Coin::TRX => CoinView::TRX,
            Coin::DASH => CoinView::DASH,
            Coin::USDT => CoinView::USDT,
            Coin::TON => CoinView::TON,
            Coin::Unknown(name) => CoinView::Unknown(name@),
        }
    }
}

/// The symbol under which a coin is written.
pub open spec fn symbol(coin: CoinView) -> Seq<char> {
    match coin {
        CoinView::BTC => "btc"@,
        CoinView::LTC => "ltc"@,
        CoinView::BCH => "bch"@,
        CoinView::XRP => "xrp"@,
        CoinView::BTG => "btg"@,
        CoinView::ETH => "eth"@,
        CoinView::TRX => "trx"@,
        CoinView::DASH => "dash"@,
        CoinView::USDT => "usdt"@,
        CoinView::TON => "ton_crystal"@,
        CoinView::Unknown(name) => name,
    }
}

/// Whether `s` is the symbol of one of the coins that have a variant of their own.
pub open spec fn is_known_symbol(s: Seq<char>) -> bool {
    ||| s == "btc"@
    ||| s == "ltc"@
    ||| s == "bch"@
    ||| s == "xrp"@
    ||| s == "btg"@
    ||| s == "eth"@
    ||| s == "trx"@
    ||| s == "dash"@
    ||| s == "usdt"@
    ||| s == "ton_crystal"@
}

/// The coin that a symbol stands for. Every string stands for a coin.
pub open spec fn parse_symbol(s: Seq<char>) -> CoinView {
    if s == "btc"@ {
        CoinView::BTC
    } else if s == "ltc"@ {
        CoinView::LTC
    } else if s == "bch"@ {
        CoinView::BCH
    } else if s == "xrp"@ {
        CoinView::XRP
    } else if s == "btg"@ {
        CoinView::BTG
    } else if s == "eth"@ {
        CoinView::ETH
    } else if s == "trx"@ {
        CoinView::TRX
    } else if s == "dash"@ {
        CoinView::DASH
    } else if s == "usdt"@ {
        CoinView::USDT
    } else if s == "ton_crystal"@ {
        CoinView::TON
    } else {
        CoinView::Unknown(s)
    }
}

/// A coin is canonical unless it is `Unknown` under a symbol that has a variant of
/// its own. Parsing only ever yields canonical coins.
pub open spec fn is_canonical(coin: CoinView) -> bool {
    coin matches CoinView::Unknown(name) ==> !is_known_symbol(name)
}

/// The string form of a pair: the two symbols with a slash between them.
pub open spec fn pair_symbol(left: CoinView, right: CoinView) -> Seq<char> {
    symbol(left) + "/"@ + symbol(right)
}

/// Writing down the coin that a string stands for gives the string back. This
/// holds of every string, known symbol or not.
pub proof fn lemma_symbol_of_parsed(s: Seq<char>)
    ensures
        symbol(parse_symbol(s)) == s,
{
}

/// A string that is not a known symbol stands for the unknown coin of that name,
/// and a known symbol never does.
pub proof fn lemma_parse_unknown(s: Seq<char>)
    ensures
        !is_known_symbol(s) <==> parse_symbol(s) == CoinView::Unknown(s),
{
}

/// The known symbols are pairwise different, so a canonical coin is found again
/// from its symbol.
pub proof fn lemma_parse_of_symbol(coin: CoinView)
    requires
        is_canonical(coin),
    ensures
        parse_symbol(symbol(coin)) == coin,
{
    reveal_strlit("btc");
    reveal_strlit("ltc");
    reveal_strlit("bch");
    reveal_strlit("xrp");
    reveal_strlit("btg");
    reveal_strlit("eth");
    reveal_strlit("trx");
    reveal_strlit("dash");
    reveal_strlit("usdt");
    reveal_strlit("ton_crystal");
    match coin {
        CoinView::BTC => {},
        CoinView::LTC => {
            assert("ltc"@[0] != "btc"@[0]);
        },
        CoinView::BCH => {
            assert("bch"@[1] != "btc"@[1]);
        },
        CoinView::XRP => {
            assert("xrp"@[0] != "btc"@[0]);
        },
        CoinView::BTG => {
            assert("btg"@[2] != "btc"@[2]);
        },
        CoinView::ETH => {
            assert("eth"@[0] != "btc"@[0]);
        },
        CoinView::TRX => {
            assert("trx"@[0] != "btc"@[0]);
        },
        CoinView::DASH => {
            assert("dash"@.len() == 4);
        },
        CoinView::USDT => {
            assert("usdt"@[0] != "dash"@[0]);
        },
        CoinView::TON => {
            assert("ton_crystal"@.len() == 11);
        },
        CoinView::Unknown(name) => {},
    }
}

impl Coin {
    /// Reads a coin from its symbol. Never fails: a symbol without a variant of its
    /// own gives `Unknown` with that symbol.
    pub fn from_str(s: &str) -> (coin: Coin)
        ensures
            coin@ == parse_symbol(s@),
    {
        if str_eq(s, "btc") {
            Coin::BTC
        } else if str_eq(s, "ltc") {
            Coin::LTC
        } else if str_eq(s, "bch") {
            Coin::BCH
        } else if str_eq(s, "xrp") {
            Coin::XRP
        } else if str_eq(s, "btg") {
            Coin::BTG
        } else if str_eq(s, "eth") {
            Coin::ETH
        } else if str_eq(s, "trx") {
            Coin::TRX
        } else if str_eq(s, "dash") {
            Coin::DASH
        } else if str_eq(s, "usdt") {
            Coin::USDT
        } else if str_eq(s, "ton_crystal") {
            Coin::TON
        } else {
            Coin::Unknown(s.to_owned())
        }
    }

    /// The symbol of the coin as an owned string.
    pub fn to_string(&self) -> (s: String)
        ensures
            s@ == symbol(self@),
    {
        match self {
            Coin::BTC => "btc".to_owned(),
            Coin::LTC => "ltc".to_owned(),
            Coin::BCH => "bch".to_owned(),
            Coin::XRP => "xrp".to_owned(),
            Coin::BTG => "btg".to_owned(),
            Coin::ETH => "eth".to_owned(),
            Coin::TRX => "trx".to_owned(),
            Coin::DASH => "dash".to_owned(),
            Coin::USDT => "usdt".to_owned(),
            Coin::TON => "ton_crystal".to_owned(),
            Coin::Unknown(name) => name.clone(),
        }
    }
}

impl From<&str> for Coin {
    fn from(coin: &str) -> (ret: Coin)
        ensures
            ret@ == parse_symbol(coin@),
    {
        Coin::from_str(coin)
    }
}

/// No spec function can build the owned string of an unknown coin, so the
/// conversion is specified by the value of its result: see `from`.
impl FromSpecImpl<&str> for Coin {
    open spec fn obeys_from_spec() -> bool {
        false
    }

    open spec fn from_spec(v: &str) -> Coin {
        arbitrary()
    }
}

impl From<Coin> for String {
    fn from(coin: Coin) -> (ret: String)
        ensures
            ret@ == symbol(coin@),
    {
        match coin {
            Coin::Unknown(name) => name,
            known => known.to_string(),
        }
    }
}

impl FromSpecImpl<Coin> for String {
    open spec fn obeys_from_spec() -> bool {
        false
    }

    open spec fn from_spec(v: Coin) -> String {
        arbitrary()
    }
}

/// An ordered pair of coins, as in a market `left/right`.
#[derive(Debug, Clone, PartialEq, Eq)]
pub struct CoinPair {
    pub left: Coin,
    pub right: Coin,
}

impl CoinPair {
    pub fn new(left: Coin, right: Coin) -> (pair: CoinPair)
        ensures
            pair.left == left,
            pair.right == right,
    {
        CoinPair { left, right }
    }

    /// The string form of the pair, `left/right`.
    pub fn to_string(&self) -> (s: String)
        ensures
            s@ == pair_symbol(self.left@, self.right@),
    {
        let mut s = self.left.to_string();
        s.append("/");
        let right = self.right.to_string();
        s.append(right.as_str());
        s
    }
}

impl From<CoinPair> for String {
    fn from(pair: CoinPair) -> (ret: String)
        ensures
            ret@ == pair_symbol(pair.left@, pair.right@),
    {
        pair.to_string()
    }
}

impl FromSpecImpl<CoinPair> for String {
    open spec fn obeys_from_spec() -> bool {
        false
    }

    open spec fn from_spec(v: CoinPair) -> String {
        arbitrary()
    }
}

} // verus!
