//! Candles: the price bars that drive every position.

use vstd::prelude::*;
use crate::error::Error;
use crate::timestamp::Timestamp;

verus! {

/// A price, counted in ticks: whole multiples of the smallest price step of the
/// instrument.
pub type Price = i64;

/// One bar of market data.
#[derive(Clone, Copy, Debug, PartialEq, Eq, Structural)]
pub struct Candle {
    /// Opening time of the bar, in milliseconds from the Unix epoch.
    pub time: i64,
    /// The same opening time as an instant.
    pub timestamp: Timestamp,
    /// Length of the bar in minutes.
    pub timeframe: u16,
    pub open: Price,
    pub high: Price,
    pub low: Price,
    pub close: Price,
    /// Traded volume, in the smallest unit of quantity.
    pub volume: i64,
}

/// The larger of two prices.
pub open spec fn higher(a: Price, b: Price) -> Price {
    if a >= b {
        a
    } else {
        b
    }
}

/// The smaller of two prices.
pub open spec fn lower(a: Price, b: Price) -> Price {
    if a <= b {
        a
    } else {
        b
    }
}

/// The larger of two prices.
pub fn max_price(a: Price, b: Price) -> (r: Price)
    ensures
        r == higher(a, b),
{
    if a >= b {
        a
    } else {
        b
    }
}

/// The smaller of two prices.
pub fn min_price(a: Price, b: Price) -> (r: Price)
    ensures
        r == lower(a, b),
{
    if a <= b {
        a
    } else {
        b
    }
}

/// The contents of a window of candles: `None` before the first batch, the
/// candles oldest first after it.
pub open spec fn window_view(window: Option<Vec<Candle>>) -> Option<Seq<Candle>> {
    match window {
        Some(candles) => Some(candles@),
        None => None,
    }
}

/// The latest candle of a window.
pub open spec fn latest_of(window: Option<Seq<Candle>>) -> Option<Candle> {
    match window {
        Some(candles) if candles.len() > 0 => Some(candles.last()),
        _ => None,
    }
}

/// The window after one more candle: the oldest candle leaves and the new one
/// enters, so the window keeps its length. Before the first batch there is no
/// window to slide.
pub open spec fn slid(window: Option<Seq<Candle>>, candle: Candle) -> Option<Seq<Candle>> {
    match window {
        Some(candles) if candles.len() > 0 => Some(candles.drop_first().push(candle)),
        other => other,
    }
}

/// The latest candle of a window, or `NoCandleAvailable`.
pub fn latest_candle(window: &Option<Vec<Candle>>) -> (r: Result<Candle, Error>)
    ensures
        r == match latest_of(window_view(*window)) {
            Some(candle) => Ok::<Candle, Error>(candle),
            None => Err(Error::NoCandleAvailable),
        },
{
    match window {
        Some(candles) => {
            if candles.len() > 0 {
                Ok(candles[candles.len() - 1])
            } else {
                Err(Error::NoCandleAvailable)
            }
        },
        None => Err(Error::NoCandleAvailable),
    }
}

/// Slides a window by one candle.
pub fn slide_window(window: &mut Option<Vec<Candle>>, candle: Candle)
    ensures
        window_view(*final(window)) == slid(window_view(*old(window)), candle),
{
    match window {
        Some(candles) => {
            if candles.len() > 0 {
                candles.remove(0);
                candles.push(candle);
            }
        },
        None => {},
    }
}

} // verus!
