//! The closed set of trading venues the Tardis API serves.

use vstd::prelude::*;

verus! {

/// A supported trading venue. Request paths name the venue by its canonical
/// lower-case form, given by [`Exchange::as_str`].
#[derive(Clone, Copy, Debug, PartialEq, Eq, Structural)]
pub enum Exchange {
    Binance,
    BinanceDelivery,
    BinanceFutures,
    Bitfinex,
    Bitflyer,
    Bitmex,
    Bitstamp,
    Bybit,
    BybitSpot,
    Coinbase,
    CryptoCom,
    Deribit,
    Dydx,
    GateIo,
    Gemini,
    Hitbtc,
    Kraken,
    Kucoin,
    Okex,
    Phemex,
    Poloniex,
    Upbit,
}

impl Exchange {
    /// The canonical form of the venue's name, as the request path carries it.
    pub open spec fn canonical(self) -> Seq<char> {
        match self {
            Exchange::Binance => "binance"@,
            Exchange::BinanceDelivery => "binance-delivery"@,
            Exchange::BinanceFutures => "binance-futures"@,
            Exchange::Bitfinex => "bitfinex"@,
            Exchange::Bitflyer => "bitflyer"@,
            Exchange::Bitmex => "bitmex"@,
            Exchange::Bitstamp => "bitstamp"@,
            Exchange::Bybit => "bybit"@,
            Exchange::BybitSpot => "bybit-spot"@,
            Exchange::Coinbase => "coinbase"@,
            Exchange::CryptoCom => "crypto-com"@,
            Exchange::Deribit => "deribit"@,
            Exchange::Dydx => "dydx"@,
            Exchange::GateIo => "gate-io"@,
            Exchange::Gemini => "gemini"@,
            Exchange::Hitbtc => "hitbtc"@,
            Exchange::Kraken => "kraken"@,
            Exchange::Kucoin => "kucoin"@,
            Exchange::Okex => "okex"@,
            Exchange::Phemex => "phemex"@,
            Exchange::Poloniex => "poloniex"@,
            Exchange::Upbit => "upbit"@,
        }
    }

    /// The canonical name of the venue.
    pub fn as_str(&self) -> (r: &'static str)
        ensures
            r@ == self.canonical(),
    {
        match self {
            Exchange::Binance => "binance",
            Exchange::BinanceDelivery => "binance-delivery",
            Exchange::BinanceFutures => "binance-futures",
            Exchange::Bitfinex => "bitfinex",
            Exchange::Bitflyer => "bitflyer",
            Exchange::Bitmex => "bitmex",
            Exchange::Bitstamp => "bitstamp",
            Exchange::Bybit => "bybit",
            Exchange::BybitSpot => "bybit-spot",
            Exchange::Coinbase => "coinbase",
            Exchange::CryptoCom => "crypto-com",
            Exchange::Deribit => "deribit",
            Exchange::Dydx => "dydx",
            Exchange::GateIo => "gate-io",
            Exchange::Gemini => "gemini",
            Exchange::Hitbtc => "hitbtc",
            Exchange::Kraken => "kraken",
            Exchange::Kucoin => "kucoin",
            Exchange::Okex => "okex",
            Exchange::Phemex => "phemex",
            Exchange::Poloniex => "poloniex",
            Exchange::Upbit => "upbit",
        }
    }
}

} // verus!
