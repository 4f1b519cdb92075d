//! Signals: one order intent or one fill, and the rules by which an intent
//! fills against a candle.

use vstd::prelude::*;
use crate::candle::{higher, lower, Candle, Price};
use crate::error::Error;
use crate::records::{SignalState, SignalStateView};
use crate::state::{
    lemma_order_type_token_round_trip, lemma_signal_type_token_round_trip,
    lemma_trade_action_token_round_trip, OrderType, SignalType, TradeAction,
};
use crate::timestamp::Timestamp;

verus! {

/// One proposed or executed order action at a price and a time.
#[derive(Clone, Copy, Debug, PartialEq, Eq, Structural)]
pub struct Signal {
    pub signal_type: SignalType,
    pub action: TradeAction,
    pub order_type: OrderType,
    pub price: Price,
    /// The instant of the candle that produced the signal.
    pub candle_timestamp: Timestamp,
}

impl Signal {
    /// The wire record of the signal.
    pub open spec fn state_view(self) -> SignalStateView {
        SignalStateView {
            signal_type: self.signal_type.token(),
            action: self.action.token(),
            order_type: self.order_type.token(),
            price: self.price,
            candle_timestamp: self.candle_timestamp.text(),
        }
    }

    /// What reading a wire record gives. The fields are read in the order
    /// signal type, action, order type, timestamp, and the first one that
    /// cannot be read decides the error.
    pub open spec fn parsed(record: SignalStateView) -> Result<Signal, Error> {
        match SignalType::parsed(record.signal_type) {
            Err(error) => Err(error),
            Ok(signal_type) => match TradeAction::parsed(record.action) {
                Err(error) => Err(error),
                Ok(action) => match OrderType::parsed(record.order_type) {
                    Err(error) => Err(error),
                    Ok(order_type) => match Timestamp::from_text(record.candle_timestamp) {
                        None => Err(Error::InvalidTimestamp),
                        Some(candle_timestamp) => Ok(
                            Signal {
                                signal_type,
                                action,
                                order_type,
                                price: record.price,
                                candle_timestamp,
                            },
                        ),
                    },
                },
            },
        }
    }

    /// Whether the candle reaches the price of the signal. A market order is
    /// always reached. A stop on the buying side is reached from below, by the
    /// candle's high, and on the selling side from above, by its low. A limit
    /// is reached the other way round.
    pub open spec fn touched(self, candle: Candle) -> bool {
        match self.order_type {
            OrderType::Market => true,
            OrderType::Stop => if self.action.is_buy_side() {
                candle.high >= self.price
            } else {
                candle.low <= self.price
            },
            OrderType::Limit => if self.action.is_buy_side() {
                candle.low <= self.price
            } else {
                candle.high >= self.price
            },
        }
    }

    /// The price at which a touched signal fills. A back test fills at the
    /// candle's open and a live run at its close, each moved to the signal's
    /// price where that is worse for a stop or better for a limit; a market
    /// order in a back test fills at the open as it is.
    pub open spec fn filled_at(self, candle: Candle, backtest: bool) -> Price {
        let base = if backtest {
            candle.open
        } else {
            candle.close
        };
        match self.order_type {
            OrderType::Market => if backtest {
                candle.open
            } else if self.action.is_buy_side() {
                higher(candle.close, self.price)
            } else {
                lower(candle.close, self.price)
            },
            OrderType::Stop => if self.action.is_buy_side() {
                higher(base, self.price)
            } else {
                lower(base, self.price)
            },
            OrderType::Limit => if self.action.is_buy_side() {
                lower(base, self.price)
            } else {
                higher(base, self.price)
            },
        }
    }

    /// The price at which the signal fills against the candle, if it fills.
    pub open spec fn fill(self, candle: Candle, backtest: bool) -> Option<Price> {
        if self.touched(candle) {
            Some(self.filled_at(candle, backtest))
        } else {
            None
        }
    }

    /// Reads a signal from a borrowed wire record.
    pub fn parse_state(record: &SignalState) -> (r: Result<Signal, Error>)
        ensures
            r == Signal::parsed(record@),
    {
        let signal_type = SignalType::from_str(&record.signal_type)?;
        let action = TradeAction::parse(&record.action)?;
        let order_type = OrderType::parse(&record.order_type)?;
        let candle_timestamp = Timestamp::parse(record.candle_timestamp.as_str())?;
        Ok(Signal { signal_type, action, order_type, price: record.price, candle_timestamp })
    }

    /// Reads a signal from its wire record.
    pub fn from_state(signal_state: SignalState) -> (r: Result<Signal, Error>)
        ensures
            r == Signal::parsed(signal_state@),
    {
        Signal::parse_state(&signal_state)
    }

    /// Writes the wire record of the signal. Reading the record back gives
    /// the same signal.
    pub fn state(&self) -> (record: SignalState)
        ensures
            record@ == self.state_view(),
            Signal::parsed(record@) == Ok::<Signal, Error>(*self),
    {
        proof {
            lemma_signal_type_token_round_trip(self.signal_type);
            lemma_trade_action_token_round_trip(self.action);
            lemma_order_type_token_round_trip(self.order_type);
        }
        SignalState {
            signal_type: self.signal_type.to_str(),
            action: self.action.to_str().unwrap(),
            order_type: self.order_type.to_str().unwrap(),
            price: self.price,
            candle_timestamp: self.candle_timestamp.format(),
        }
    }
}

} // verus!
