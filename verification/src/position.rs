//! The position state machine: one tradeable unit, its pending orders and its
//! recorded fills.

use vstd::prelude::*;
use crate::candle::{max_price, min_price, Candle, Price};
use crate::error::Error;
use crate::ident::{format_id, fresh_id, parse_id};
use crate::model::{
    applied, first_touched, lemma_state_round_trip, optional_instant, optional_text,
    parsed_signals, signal_records, PositionInternal, PositionView,
};
use crate::records::{
    PositionInternalState, PositionState, SignalEvent, SignalState, SignalStateView,
};
use crate::signal::Signal;
use crate::state::{OrderType, PositionDirection, PositionStatus, SignalType, TradeAction};
use crate::timestamp::Timestamp;

verus! {

/// One tradeable unit: new until its entry fills, open until its exit fills,
/// closed after that.
#[derive(Clone, Debug, PartialEq)]
pub struct Position {
    id: u128,
    backtest: bool,
    candle: Option<Candle>,
    prefix: String,
    code: String,
    parent_id: Option<String>,
    direction: Option<PositionDirection>,
    status: PositionStatus,
    entry_status: Option<PositionStatus>,
    entry_price: Option<Price>,
    entry_date: Option<Timestamp>,
    entry_order_type: Option<OrderType>,
    entry_action: Option<TradeAction>,
    entry_candle_timestamp: Option<Timestamp>,
    exit_status: Option<PositionStatus>,
    exit_price: Option<Price>,
    exit_date: Option<Timestamp>,
    exit_order_type: Option<OrderType>,
    exit_action: Option<TradeAction>,
    exit_candle_timestamp: Option<Timestamp>,
    alerts: Vec<Signal>,
    trades: Vec<Signal>,
    internal: PositionInternal,
}

impl View for Position {
    type V = PositionView;

    closed spec fn view(&self) -> PositionView {
        PositionView {
            id: self.id,
            backtest: self.backtest,
            candle: self.candle,
            prefix: self.prefix@,
            code: self.code@,
            parent_id: self.parent_id.deep_view(),
            direction: self.direction,
            status: self.status,
            entry_status: self.entry_status,
            entry_price: self.entry_price,
            entry_date: self.entry_date,
            entry_order_type: self.entry_order_type,
            entry_action: self.entry_action,
            entry_candle_timestamp: self.entry_candle_timestamp,
            exit_status: self.exit_status,
            exit_price: self.exit_price,
            exit_date: self.exit_date,
            exit_order_type: self.exit_order_type,
            exit_action: self.exit_action,
            exit_candle_timestamp: self.exit_candle_timestamp,
            alerts: self.alerts@,
            trades: self.trades@,
            internal: self.internal,
        }
    }
}

impl Position {
    /// Makes a new position with the given identifier.
    pub fn with_id(
        id: u128,
        prefix: &String,
        code: &String,
        parent_id: &Option<String>,
        candle: &Option<Candle>,
        backtest: bool,
    ) -> (position: Position)
        ensures
            position@ == PositionView::fresh(
                id,
                prefix@,
                code@,
                parent_id.deep_view(),
                *candle,
                backtest,
            ),
            position@.wf(),
    {
        Position {
            id,
            backtest,
            candle: *candle,
            prefix: prefix.clone(),
            code: code.clone(),
            parent_id: parent_id.clone(),
            direction: None,
            status: PositionStatus::New,
            entry_status: None,
            entry_price: None,
            entry_date: None,
            entry_order_type: None,
            entry_action: None,
            entry_candle_timestamp: None,
            exit_status: None,
            exit_price: None,
            exit_date: None,
            exit_order_type: None,
            exit_action: None,
            exit_candle_timestamp: None,
            alerts: Vec::new(),
            trades: Vec::new(),
            internal: PositionInternal { highest_high: None, lowest_low: None, stop: None },
        }
    }

    /// Makes a new position with a fresh random identifier.
    pub fn new(
        prefix: &String,
        code: &String,
        parent_id: &Option<String>,
        candle: &Option<Candle>,
        backtest: &bool,
    ) -> (position: Position)
        ensures
            position@ == PositionView::fresh(
                position@.id,
                prefix@,
                code@,
                parent_id.deep_view(),
                *candle,
                *backtest,
            ),
            position@.wf(),
    {
        Position::with_id(fresh_id(), prefix, code, parent_id, candle, *backtest)
    }

    /// Takes in the latest candle.
    pub fn handle_candle(&mut self, candle: &Option<Candle>)
        ensures
            final(self)@ == old(self)@.with_candle(*candle),
    {
        self.candle = *candle;
        if let Some(bar) = candle {
            if self.status == PositionStatus::Open {
                self.internal.highest_high = match self.internal.highest_high {
                    Some(highest_high) => Some(max_price(highest_high, bar.high)),
                    None => Some(bar.high),
                };
                self.internal.lowest_low = match self.internal.lowest_low {
                    Some(lowest_low) => Some(min_price(lowest_low, bar.low)),
                    None => Some(bar.low),
                };
            }
        }
    }

    /// The identifier of the position.
    pub fn get_id(&self) -> (id: u128)
        ensures
            id == self@.id,
    {
        self.id
    }

    /// The slot of the position.
    pub fn get_prefix(&self) -> (prefix: &String)
        ensures
            prefix@ == self@.prefix,
    {
        &self.prefix
    }

    /// The code of the position: its prefix and its sequence number.
    pub fn get_code(&self) -> (code: &String)
        ensures
            code@ == self@.code,
    {
        &self.code
    }

    /// The code of the parent position, if the position has one.
    pub fn get_parent_id(&self) -> (parent_id: &Option<String>)
        ensures
            parent_id.deep_view() == self@.parent_id,
    {
        &self.parent_id
    }

    /// The side of the market, once the entry has filled.
    pub fn get_direction(&self) -> (direction: &Option<PositionDirection>)
        ensures
            *direction == self@.direction,
    {
        &self.direction
    }

    /// Whether the position is new, open or closed.
    pub fn get_status(&self) -> (status: &PositionStatus)
        ensures
            *status == self@.status,
    {
        &self.status
    }

    /// The pending orders, oldest first.
    pub fn get_alerts(&self) -> (alerts: &Vec<Signal>)
        ensures
            alerts@ == self@.alerts,
    {
        &self.alerts
    }

    /// The fills since the trades were last cleared, oldest first.
    pub fn get_trades(&self) -> (trades: &Vec<Signal>)
        ensures
            trades@ == self@.trades,
    {
        &self.trades
    }

    /// The running extremes and the trailing stop.
    pub fn get_internal(&self) -> (internal: &PositionInternal)
        ensures
            *internal == self@.internal,
    {
        &self.internal
    }

    /// The latest candle, or `NoCandleAvailable`.
    pub fn get_candle(&self) -> (r: Result<&Candle, Error>)
        ensures
            match self@.candle {
                Some(candle) => r matches Ok(found) && *found == candle,
                None => r == Err::<&Candle, Error>(Error::NoCandleAvailable),
            },
    {
        match &self.candle {
            Some(candle) => Ok(candle),
            None => Err(Error::NoCandleAvailable),
        }
    }

    /// The instant of the latest candle, or `NoCandleAvailable`.
    pub fn get_candle_timestamp(&self) -> (r: Result<Timestamp, Error>)
        ensures
            r == match self@.candle {
                Some(candle) => Ok::<Timestamp, Error>(candle.timestamp),
                None => Err(Error::NoCandleAvailable),
            },
    {
        match &self.candle {
            Some(candle) => Ok(candle.timestamp),
            None => Err(Error::NoCandleAvailable),
        }
    }

    /// Whether the position is new or open.
    pub fn is_active(&self) -> (active: bool)
        ensures
            active == self@.is_active(),
    {
        self.status == PositionStatus::New || self.status == PositionStatus::Open
    }

    /// Whether the position is on the long side.
    pub fn is_long(&self) -> (long: bool)
        ensures
            long == (self@.direction == Some(PositionDirection::Long)),
    {
        match self.direction {
            Some(PositionDirection::Long) => true,
            _ => false,
        }
    }

    /// Whether the position is on the short side.
    pub fn is_short(&self) -> (short: bool)
        ensures
            short == (self@.direction == Some(PositionDirection::Short)),
    {
        match self.direction {
            Some(PositionDirection::Short) => true,
            _ => false,
        }
    }

    /// Drops every pending order.
    pub fn clear_alerts(&mut self)
        ensures
            final(self)@ == (PositionView { alerts: Seq::empty(), ..old(self)@ }),
    {
        self.alerts.clear();
    }

    /// Drops the recorded fills.
    pub fn clear_trades(&mut self)
        ensures
            final(self)@ == (PositionView { trades: Seq::empty(), ..old(self)@ }),
    {
        self.trades.clear();
    }
}

impl Position {
    fn check_open(&self) -> (r: Result<(), Error>)
        ensures
            r == self@.open_guard(),
    {
        match self.entry_status {
            Some(PositionStatus::Closed) => Err(Error::AlreadyOpen),
            _ => Ok(()),
        }
    }

    fn check_close(&self) -> (r: Result<(), Error>)
        ensures
            r == self@.close_guard(),
    {
        match self.entry_status {
            Some(PositionStatus::Closed) => match self.exit_status {
                Some(PositionStatus::Closed) => Err(Error::AlreadyClosed),
                _ => Ok(()),
            },
            _ => Err(Error::NotOpenYet),
        }
    }

    fn add_alert(&mut self, action: TradeAction, price: Price, order_type: OrderType) -> (r: Result<
        (),
        Error,
    >)
        ensures
            applied(old(self)@.alerted(action, price, order_type), old(self)@, r, final(self)@),
    {
        let candle_timestamp = self.get_candle_timestamp()?;
        self.alerts.push(
            Signal { signal_type: SignalType::Alert, action, order_type, price, candle_timestamp },
        );
        Ok(())
    }

    fn add_trade(&mut self, action: TradeAction, price: Price, order_type: OrderType) -> (r: Result<
        (),
        Error,
    >)
        ensures
            applied(old(self)@.traded(action, price, order_type), old(self)@, r, final(self)@),
    {
        let candle_timestamp = self.get_candle_timestamp()?;
        self.trades.push(
            Signal { signal_type: SignalType::Trade, action, order_type, price, candle_timestamp },
        );
        Ok(())
    }

    /// Raises a market order to open a long position at `price`.
    pub fn buy_at_market_price(&mut self, price: Price) -> (r: Result<(), Error>)
        ensures
            applied(
                old(self)@.ordered(TradeAction::Long, OrderType::Market, price),
                old(self)@,
                r,
                final(self)@,
            ),
    {
        self.check_open()?;
        self.add_alert(TradeAction::Long, price, OrderType::Market)?;
        Ok(())
    }

    /// Raises a market order to open a long position at the close of the latest
    /// candle.
    pub fn buy_at_market(&mut self) -> (r: Result<(), Error>)
        ensures
            applied(
                old(self)@.ordered_at_candle(TradeAction::Long, OrderType::Market),
                old(self)@,
                r,
                final(self)@,
            ),
    {
        let price = self.get_candle()?.close;
        self.buy_at_market_price(price)
    }

    /// Raises a market order to close a long position at `price`.
    pub fn sell_at_market_price(&mut self, price: Price) -> (r: Result<(), Error>)
        ensures
            applied(
                old(self)@.ordered(TradeAction::CloseLong, OrderType::Market, price),
                old(self)@,
                r,
                final(self)@,
            ),
    {
        self.check_close()?;
        self.add_alert(TradeAction::CloseLong, price, OrderType::Market)?;
        Ok(())
    }

    /// Raises a market order to close a long position at the close of the latest
    /// candle.
    pub fn sell_at_market(&mut self) -> (r: Result<(), Error>)
        ensures
            applied(
                old(self)@.ordered_at_candle(TradeAction::CloseLong, OrderType::Market),
                old(self)@,
                r,
                final(self)@,
            ),
    {
        let price = self.get_candle()?.close;
        self.sell_at_market_price(price)
    }

    /// Raises a market order to open a short position at `price`.
    pub fn short_at_market_price(&mut self, price: Price) -> (r: Result<(), Error>)
        ensures
            applied(
                old(self)@.ordered(TradeAction::Short, OrderType::Market, price),
                old(self)@,
                r,
                final(self)@,
            ),
    {
        self.check_open()?;
        self.add_alert(TradeAction::Short, price, OrderType::Market)?;
        Ok(())
    }

    /// Raises a market order to open a short position at the close of the latest
    /// candle.
    pub fn short_at_market(&mut self) -> (r: Result<(), Error>)
        ensures
            applied(
                old(self)@.ordered_at_candle(TradeAction::Short, OrderType::Market),
                old(self)@,
                r,
                final(self)@,
            ),
    {
        let price = self.get_candle()?.close;
        self.short_at_market_price(price)
    }

    /// Raises a market order to close a short position at `price`.
    pub fn cover_at_market_price(&mut self, price: Price) -> (r: Result<(), Error>)
        ensures
            applied(
                old(self)@.ordered(TradeAction::CloseShort, OrderType::Market, price),
                old(self)@,
                r,
                final(self)@,
            ),
    {
        self.check_close()?;
        self.add_alert(TradeAction::CloseShort, price, OrderType::Market)?;
        Ok(())
    }

    /// Raises a market order to close a short position at the close of the latest
    /// candle.
    pub fn cover_at_market(&mut self) -> (r: Result<(), Error>)
        ensures
            applied(
                old(self)@.ordered_at_candle(TradeAction::CloseShort, OrderType::Market),
                old(self)@,
                r,
                final(self)@,
            ),
    {
        let price = self.get_candle()?.close;
        self.cover_at_market_price(price)
    }

    /// Raises a stop order to open a long position at `price`.
    pub fn buy_at_stop_price(&mut self, price: Price) -> (r: Result<(), Error>)
        ensures
            applied(
                old(self)@.ordered(TradeAction::Long, OrderType::Stop, price),
                old(self)@,
                r,
                final(self)@,
            ),
    {
        self.check_open()?;
        self.add_alert(TradeAction::Long, price, OrderType::Stop)?;
        Ok(())
    }

    /// Raises a stop order to open a long position at the open of the latest
    /// candle.
    pub fn buy_at_stop(&mut self) -> (r: Result<(), Error>)
        ensures
            applied(
                old(self)@.ordered_at_candle(TradeAction::Long, OrderType::Stop),
                old(self)@,
                r,
                final(self)@,
            ),
    {
        let price = self.get_candle()?.open;
        self.buy_at_stop_price(price)
    }

    /// Raises a stop order to close a long position at `price`.
    pub fn sell_at_stop_price(&mut self, price: Price) -> (r: Result<(), Error>)
        ensures
            applied(
                old(self)@.ordered(TradeAction::CloseLong, OrderType::Stop, price),
                old(self)@,
                r,
                final(self)@,
            ),
    {
        self.check_close()?;
        self.add_alert(TradeAction::CloseLong, price, OrderType::Stop)?;
        Ok(())
    }

    /// Raises a stop order to close a long position at the open of the latest
    /// candle.
    pub fn sell_at_stop(&mut self) -> (r: Result<(), Error>)
        ensures
            applied(
                old(self)@.ordered_at_candle(TradeAction::CloseLong, OrderType::Stop),
                old(self)@,
                r,
                final(self)@,
            ),
    {
        let price = self.get_candle()?.open;
        self.sell_at_stop_price(price)
    }

    /// Raises a trailing stop to close a long position: the stop moves to
    /// `price` where that tightens it, and the order is placed at the stop.
    pub fn sell_at_trailing_stop_price(&mut self, price: Price) -> (r: Result<(), Error>)
        ensures
            applied(old(self)@.trailed(TradeAction::CloseLong, price), old(self)@, r, final(self)@),
    {
        self.check_close()?;
        let candle_timestamp = self.get_candle_timestamp()?;
        let stop = match self.internal.stop {
            Some(stop) => max_price(stop, price),
            None => price,
        };
        self.internal.stop = Some(stop);
        self.alerts.push(
            Signal {
                signal_type: SignalType::Alert,
                action: TradeAction::CloseLong,
                order_type: OrderType::Stop,
                price: stop,
                candle_timestamp,
            },
        );
        Ok(())
    }

    /// As `sell_at_trailing_stop_price`, with the open of the latest candle as
    /// the reference price.
    pub fn sell_at_trailing_stop(&mut self) -> (r: Result<(), Error>)
        ensures
            applied(old(self)@.trailed_at_candle(TradeAction::CloseLong), old(self)@, r, final(self)@),
    {
        let price = self.get_candle()?.open;
        self.sell_at_trailing_stop_price(price)
    }

    /// Raises a stop order to open a short position at `price`.
    pub fn short_at_stop_price(&mut self, price: Price) -> (r: Result<(), Error>)
        ensures
            applied(
                old(self)@.ordered(TradeAction::Short, OrderType::Stop, price),
                old(self)@,
                r,
                final(self)@,
            ),
    {
        self.check_open()?;
        self.add_alert(TradeAction::Short, price, OrderType::Stop)?;
        Ok(())
    }

    /// Raises a stop order to open a short position at the open of the latest
    /// candle.
    pub fn short_at_stop(&mut self) -> (r: Result<(), Error>)
        ensures
            applied(
                old(self)@.ordered_at_candle(TradeAction::Short, OrderType::Stop),
                old(self)@,
                r,
                final(self)@,
            ),
    {
        let price = self.get_candle()?.open;
        self.short_at_stop_price(price)
    }

    /// Raises a stop order to close a short position at `price`.
    pub fn cover_at_stop_price(&mut self, price: Price) -> (r: Result<(), Error>)
        ensures
            applied(
                old(self)@.ordered(TradeAction::CloseShort, OrderType::Stop, price),
                old(self)@,
                r,
                final(self)@,
            ),
    {
        self.check_close()?;
        self.add_alert(TradeAction::CloseShort, price, OrderType::Stop)?;
        Ok(())
    }

    /// Raises a stop order to close a short position at the open of the latest
    /// candle.
    pub fn cover_at_stop(&mut self) -> (r: Result<(), Error>)
        ensures
            applied(
                old(self)@.ordered_at_candle(TradeAction::CloseShort, OrderType::Stop),
                old(self)@,
                r,
                final(self)@,
            ),
    {
        let price = self.get_candle()?.open;
        self.cover_at_stop_price(price)
    }

    /// Raises a trailing stop to close a short position: the stop moves to
    /// `price` where that tightens it, and the order is placed at the stop.
    pub fn cover_at_trailing_stop_price(&mut self, price: Price) -> (r: Result<(), Error>)
        ensures
            applied(old(self)@.trailed(TradeAction::CloseShort, price), old(self)@, r, final(self)@),
    {
        self.check_close()?;
        let candle_timestamp = self.get_candle_timestamp()?;
        let stop = match self.internal.stop {
            Some(stop) => min_price(stop, price),
            None => price,
        };
        self.internal.stop = Some(stop);
        self.alerts.push(
            Signal {
                signal_type: SignalType::Alert,
                action: TradeAction::CloseShort,
                order_type: OrderType::Stop,
                price: stop,
                candle_timestamp,
            },
        );
        Ok(())
    }

    /// As `cover_at_trailing_stop_price`, with the open of the latest candle as
    /// the reference price.
    pub fn cover_at_trailing_stop(&mut self) -> (r: Result<(), Error>)
        ensures
            applied(old(self)@.trailed_at_candle(TradeAction::CloseShort), old(self)@, r, final(self)@),
    {
        let price = self.get_candle()?.open;
        self.cover_at_trailing_stop_price(price)
    }

    /// Raises a limit order to open a long position at `price`.
    pub fn buy_at_limit_price(&mut self, price: Price) -> (r: Result<(), Error>)
        ensures
            applied(
                old(self)@.ordered(TradeAction::Long, OrderType::Limit, price),
                old(self)@,
                r,
                final(self)@,
            ),
    {
        self.check_open()?;
        self.add_alert(TradeAction::Long, price, OrderType::Limit)?;
        Ok(())
    }

    /// Raises a limit order to open a long position at the open of the latest
    /// candle.
    pub fn buy_at_limit(&mut self) -> (r: Result<(), Error>)
        ensures
            applied(
                old(self)@.ordered_at_candle(TradeAction::Long, OrderType::Limit),
                old(self)@,
                r,
                final(self)@,
            ),
    {
        let price = self.get_candle()?.open;
        self.buy_at_limit_price(price)
    }

    /// Raises a limit order to close a long position at `price`.
    pub fn sell_at_limit_price(&mut self, price: Price) -> (r: Result<(), Error>)
        ensures
            applied(
                old(self)@.ordered(TradeAction::CloseLong, OrderType::Limit, price),
                old(self)@,
                r,
                final(self)@,
            ),
    {
        self.check_close()?;
        self.add_alert(TradeAction::CloseLong, price, OrderType::Limit)?;
        Ok(())
    }

    /// Raises a limit order to close a long position at the open of the latest
    /// candle.
    pub fn sell_at_limit(&mut self) -> (r: Result<(), Error>)
        ensures
            applied(
                old(self)@.ordered_at_candle(TradeAction::CloseLong, OrderType::Limit),
                old(self)@,
                r,
                final(self)@,
            ),
    {
        let price = self.get_candle()?.open;
        self.sell_at_limit_price(price)
    }

    /// Raises a limit order to open a short position at `price`.
    pub fn short_at_limit_price(&mut self, price: Price) -> (r: Result<(), Error>)
        ensures
            applied(
                old(self)@.ordered(TradeAction::Short, OrderType::Limit, price),
                old(self)@,
                r,
                final(self)@,
            ),
    {
        self.check_open()?;
        self.add_alert(TradeAction::Short, price, OrderType::Limit)?;
        Ok(())
    }

    /// Raises a limit order to open a short position at the open of the latest
    /// candle.
    pub fn short_at_limit(&mut self) -> (r: Result<(), Error>)
        ensures
            applied(
                old(self)@.ordered_at_candle(TradeAction::Short, OrderType::Limit),
                old(self)@,
                r,
                final(self)@,
            ),
    {
        let price = self.get_candle()?.open;
        self.short_at_limit_price(price)
    }

    /// Raises a limit order to close a short position at `price`.
    pub fn cover_at_limit_price(&mut self, price: Price) -> (r: Result<(), Error>)
        ensures
            applied(
                old(self)@.ordered(TradeAction::CloseShort, OrderType::Limit, price),
                old(self)@,
                r,
                final(self)@,
            ),
    {
        self.check_close()?;
        self.add_alert(TradeAction::CloseShort, price, OrderType::Limit)?;
        Ok(())
    }

    /// Raises a limit order to close a short position at the open of the latest
    /// candle.
    pub fn cover_at_limit(&mut self) -> (r: Result<(), Error>)
        ensures
            applied(
                old(self)@.ordered_at_candle(TradeAction::CloseShort, OrderType::Limit),
                old(self)@,
                r,
                final(self)@,
            ),
    {
        let price = self.get_candle()?.open;
        self.cover_at_limit_price(price)
    }
}

impl Position {
    /// Fills the entry of the position from `alert`, dated `now` in a live run.
    pub fn open_at(&mut self, alert: Signal, now: Timestamp) -> (r: Result<(), Error>)
        ensures
            applied(old(self)@.opened(alert, now), old(self)@, r, final(self)@),
    {
        self.check_open()?;
        let direction = match alert.action {
            TradeAction::Long => PositionDirection::Long,
            TradeAction::Short => PositionDirection::Short,
            _ => {
                return Err(Error::InvalidTransition);
            },
        };
        let candle_timestamp = self.get_candle_timestamp()?;
        self.status = PositionStatus::Open;
        self.entry_status = Some(PositionStatus::Closed);
        self.entry_price = Some(alert.price);
        self.entry_date = if self.backtest {
            Some(candle_timestamp)
        } else {
            Some(now)
        };
        self.entry_order_type = Some(alert.order_type);
        self.entry_action = Some(alert.action);
        self.entry_candle_timestamp = Some(alert.candle_timestamp);
        self.direction = Some(direction);
        self.trades.push(
            Signal {
                signal_type: SignalType::Trade,
                action: alert.action,
                order_type: alert.order_type,
                price: alert.price,
                candle_timestamp,
            },
        );
        Ok(())
    }

    /// Fills the entry of the position from `alert`. A live run dates the entry
    /// by the wall clock; a back test never reads the clock.
    pub fn open(&mut self, alert: Signal) -> (r: Result<(), Error>)
        ensures
            exists|now: Timestamp|
                applied(old(self)@.opened(alert, now), old(self)@, r, final(self)@),
    {
        let now = self.fill_clock();
        self.open_at(alert, now)
    }

    /// Fills the exit of the position from `alert`, dated `now` in a live run.
    pub fn close_at(&mut self, alert: Signal, now: Timestamp) -> (r: Result<(), Error>)
        ensures
            applied(old(self)@.closed(alert, now), old(self)@, r, final(self)@),
    {
        self.check_close()?;
        match alert.action {
            TradeAction::CloseLong | TradeAction::CloseShort => {},
            _ => {
                return Err(Error::InvalidTransition);
            },
        }
        let candle_timestamp = self.get_candle_timestamp()?;
        self.status = PositionStatus::Closed;
        self.exit_status = Some(PositionStatus::Closed);
        self.exit_price = Some(alert.price);
        self.exit_date = if self.backtest {
            Some(candle_timestamp)
        } else {
            Some(now)
        };
        self.exit_order_type = Some(alert.order_type);
        self.exit_action = Some(alert.action);
        self.exit_candle_timestamp = Some(alert.candle_timestamp);
        self.trades.push(
            Signal {
                signal_type: SignalType::Trade,
                action: alert.action,
                order_type: alert.order_type,
                price: alert.price,
                candle_timestamp,
            },
        );
        Ok(())
    }

    /// Fills the exit of the position from `alert`. A live run dates the exit
    /// by the wall clock; a back test never reads the clock.
    pub fn close(&mut self, alert: Signal) -> (r: Result<(), Error>)
        ensures
            exists|now: Timestamp|
                applied(old(self)@.closed(alert, now), old(self)@, r, final(self)@),
    {
        let now = self.fill_clock();
        self.close_at(alert, now)
    }

    /// The instant by which a live run dates what happens now: the reading of
    /// the wall clock. A back test dates by its candles, so no clock is read
    /// for it and the epoch is handed out in its place.
    fn fill_clock(&self) -> (now: Timestamp)
        ensures
            self@.backtest ==> now == Timestamp::epoch(),
    {
        if self.backtest {
            Timestamp { nanos: 0 }
        } else {
            Timestamp::now()
        }
    }

    /// The price at which `alert` fills as a market order against the latest
    /// candle.
    pub fn check_market_alert(&self, alert: &Signal) -> (r: Result<Option<Price>, Error>)
        ensures
            r == match self@.candle {
                None => Err::<Option<Price>, Error>(Error::NoCandleAvailable),
                Some(candle) => Ok(
                    Signal { order_type: OrderType::Market, ..*alert }.fill(candle, self@.backtest),
                ),
            },
    {
        let candle = self.get_candle()?;
        match alert.action {
            TradeAction::Long | TradeAction::CloseShort => {
                if !self.backtest {
                    Ok(Some(max_price(candle.close, alert.price)))
                } else {
                    Ok(Some(candle.open))
                }
            },
            TradeAction::Short | TradeAction::CloseLong => {
                if !self.backtest {
                    Ok(Some(min_price(candle.close, alert.price)))
                } else {
                    Ok(Some(candle.open))
                }
            },
        }
    }

    /// The price at which `alert` fills as a stop order against the latest
    /// candle, if the candle reaches it.
    pub fn check_stop_alert(&self, alert: &Signal) -> (r: Result<Option<Price>, Error>)
        ensures
            r == match self@.candle {
                None => Err::<Option<Price>, Error>(Error::NoCandleAvailable),
                Some(candle) => Ok(
                    Signal { order_type: OrderType::Stop, ..*alert }.fill(candle, self@.backtest),
                ),
            },
    {
        let candle = self.get_candle()?;
        match alert.action {
            TradeAction::Long | TradeAction::CloseShort => {
                if candle.high >= alert.price {
                    if !self.backtest {
                        return Ok(Some(max_price(candle.close, alert.price)));
                    } else {
                        return Ok(Some(max_price(candle.open, alert.price)));
                    }
                }
            },
            TradeAction::Short | TradeAction::CloseLong => {
                if candle.low <= alert.price {
                    if !self.backtest {
                        return Ok(Some(min_price(candle.close, alert.price)));
                    } else {
                        return Ok(Some(min_price(candle.open, alert.price)));
                    }
                }
            },
        }
        Ok(None)
    }

    /// The price at which `alert` fills as a limit order against the latest
    /// candle, if the candle reaches it.
    pub fn check_limit_alert(&self, alert: &Signal) -> (r: Result<Option<Price>, Error>)
        ensures
            r == match self@.candle {
                None => Err::<Option<Price>, Error>(Error::NoCandleAvailable),
                Some(candle) => Ok(
                    Signal { order_type: OrderType::Limit, ..*alert }.fill(candle, self@.backtest),
                ),
            },
    {
        let candle = self.get_candle()?;
        match alert.action {
            TradeAction::Long | TradeAction::CloseShort => {
                if candle.low <= alert.price {
                    if !self.backtest {
                        return Ok(Some(min_price(candle.close, alert.price)));
                    } else {
                        return Ok(Some(min_price(candle.open, alert.price)));
                    }
                }
            },
            TradeAction::Short | TradeAction::CloseLong => {
                if candle.high >= alert.price {
                    if !self.backtest {
                        return Ok(Some(max_price(candle.close, alert.price)));
                    } else {
                        return Ok(Some(max_price(candle.open, alert.price)));
                    }
                }
            },
        }
        Ok(None)
    }

    /// Tries one order against the latest candle and fills it if the candle
    /// reaches it. Returns whether it filled.
    pub fn check_alert(&mut self, alert: &Signal, now: Timestamp) -> (r: Result<bool, Error>)
        ensures
            match old(self)@.tried(*alert, now) {
                Ok((done, next)) => r == Ok::<bool, Error>(done) && final(self)@ == next,
                Err(error) => r == Err::<bool, Error>(error) && final(self)@ == old(self)@,
            },
    {
        let next_price = match alert.order_type {
            OrderType::Market => self.check_market_alert(alert)?,
            OrderType::Stop => self.check_stop_alert(alert)?,
            OrderType::Limit => self.check_limit_alert(alert)?,
        };
        match next_price {
            Some(price) => {
                let fill = Signal {
                    signal_type: alert.signal_type,
                    action: alert.action,
                    order_type: alert.order_type,
                    price,
                    candle_timestamp: alert.candle_timestamp,
                };
                match alert.action {
                    TradeAction::Long | TradeAction::Short => self.open_at(fill, now)?,
                    TradeAction::CloseLong | TradeAction::CloseShort => self.close_at(fill, now)?,
                }
                Ok(true)
            },
            None => Ok(false),
        }
    }

    /// Resolves the pending orders against the latest candle, dating a fill
    /// `now` in a live run.
    pub fn check_alerts_at(&mut self, now: Timestamp) -> (r: Result<(), Error>)
        ensures
            applied(old(self)@.resolved(now), old(self)@, r, final(self)@),
    {
        let count = self.alerts.len();
        let mut index: usize = 0;
        while index < count
            invariant
                index <= count,
                count == self@.alerts.len(),
                self@ == old(self)@,
                self@.candle is None ==> index == 0,
                self@.candle matches Some(candle) ==> first_touched(self@.alerts, candle, 0)
                    == first_touched(self@.alerts, candle, index as int),
            decreases count - index,
        {
            let alert = self.alerts[index];
            let success = self.check_alert(&alert, now)?;
            if success {
                self.clear_alerts();
                return Ok(());
            }
            index += 1;
        }
        Ok(())
    }

    /// Resolves the pending orders against the latest candle. A live run dates
    /// a fill by the wall clock; a back test never reads the clock.
    pub fn check_alerts(&mut self) -> (r: Result<(), Error>)
        ensures
            exists|now: Timestamp|
                applied(old(self)@.resolved(now), old(self)@, r, final(self)@),
    {
        let now = self.fill_clock();
        self.check_alerts_at(now)
    }
}

/// Reads an optional instant from its wire text.
fn parse_optional_instant(text: &Option<String>) -> (r: Result<Option<Timestamp>, Error>)
    ensures
        r == optional_instant(text.deep_view()),
{
    match text {
        None => Ok(None),
        Some(t) => match Timestamp::parse(t.as_str()) {
            Ok(instant) => Ok(Some(instant)),
            Err(error) => Err(error),
        },
    }
}

/// Writes an optional instant as wire text.
fn format_optional_instant(instant: &Option<Timestamp>) -> (text: Option<String>)
    ensures
        text.deep_view() == optional_text(*instant),
        optional_instant(text.deep_view()) == Ok::<Option<Timestamp>, Error>(*instant),
{
    match instant {
        Some(t) => Some(t.format()),
        None => None,
    }
}

/// Reads signals from their wire records.
fn parse_signals(records: &Vec<SignalState>) -> (r: Result<Vec<Signal>, Error>)
    ensures
        match parsed_signals(records.deep_view()) {
            Ok(signals) => r matches Ok(read) && read@ == signals,
            Err(error) => r matches Err(e) && e == error,
        },
{
    let mut signals: Vec<Signal> = Vec::new();
    let mut index: usize = 0;
    while index < records.len()
        invariant
            index <= records.len(),
            parsed_signals(records.deep_view().take(index as int)) == Ok::<Seq<Signal>, Error>(
                signals@,
            ),
        decreases records.len() - index,
    {
        proof {
            let next = records.deep_view().take(index + 1);
            assert(next.drop_last() == records.deep_view().take(index as int));
            lemma_parsed_signals_prefix(records.deep_view(), index + 1);
        }
        let signal = Signal::parse_state(&records[index])?;
        signals.push(signal);
        index += 1;
    }
    proof {
        assert(records.deep_view().take(index as int) == records.deep_view());
    }
    Ok(signals)
}

/// Where a prefix of the records cannot be read, the whole cannot, and the
/// error is that of the prefix.
proof fn lemma_parsed_signals_prefix(records: Seq<SignalStateView>, length: int)
    requires
        0 <= length <= records.len(),
    ensures
        parsed_signals(records.take(length)) matches Err(error) ==> parsed_signals(records)
            == Err::<Seq<Signal>, Error>(error),
    decreases records.len() - length,
{
    if length < records.len() {
        let longer = records.take(length + 1);
        assert(longer.drop_last() == records.take(length));
        lemma_parsed_signals_prefix(records, length + 1);
    } else {
        assert(records.take(length) == records);
    }
}

/// Writes the wire records of signals. Reading the records back gives the
/// same signals.
fn signals_state(signals: &Vec<Signal>) -> (records: Vec<SignalState>)
    ensures
        records.deep_view() == signal_records(signals@),
        parsed_signals(records.deep_view()) == Ok::<Seq<Signal>, Error>(signals@),
{
    let mut records: Vec<SignalState> = Vec::new();
    let mut index: usize = 0;
    assert(signals@.take(0) == Seq::<Signal>::empty());
    while index < signals.len()
        invariant
            index <= signals.len(),
            records.deep_view() == signal_records(signals@.take(index as int)),
            parsed_signals(records.deep_view()) == Ok::<Seq<Signal>, Error>(
                signals@.take(index as int),
            ),
        decreases signals.len() - index,
    {
        let ghost before = records.deep_view();
        let record = signals[index].state();
        records.push(record);
        proof {
            assert(records.deep_view() == before.push(record@));
            assert(records.deep_view().drop_last() == before);
            assert(signals@.take(index + 1) == signals@.take(index as int).push(
                signals[index as int],
            ));
        }
        index += 1;
    }
    proof {
        assert(signals@.take(index as int) == signals@);
    }
    records
}

impl Position {
    /// Reads a position from a borrowed wire record, with the given candle and
    /// mode. The recorded fills of the position start empty.
    pub fn restore(record: &PositionState, candle: &Option<Candle>, backtest: bool) -> (r: Result<
        Position,
        Error,
    >)
        ensures
            match PositionView::restored(record@, *candle, backtest) {
                Ok(view) => r matches Ok(position) && position@ == view && view.wf(),
                Err(error) => r matches Err(e) && e == error,
            },
    {
        let id = parse_id(record.id.as_str())?;
        let direction = PositionDirection::from_str(&record.direction)?;
        let status = PositionStatus::parse(&record.status)?;
        let entry_status = PositionStatus::from_str(&record.entry_status)?;
        let entry_date = parse_optional_instant(&record.entry_date)?;
        let entry_order_type = OrderType::from_str(&record.entry_order_type)?;
        let entry_action = TradeAction::entry_from_str(&record.entry_action)?;
        let entry_candle_timestamp = parse_optional_instant(&record.entry_candle_timestamp)?;
        let exit_status = PositionStatus::from_str(&record.exit_status)?;
        let exit_date = parse_optional_instant(&record.exit_date)?;
        let exit_order_type = OrderType::from_str(&record.exit_order_type)?;
        let exit_action = TradeAction::exit_from_str(&record.exit_action)?;
        let exit_candle_timestamp = parse_optional_instant(&record.exit_candle_timestamp)?;
        let alerts = parse_signals(&record.alerts)?;
        Ok(
            Position {
                id,
                backtest,
                candle: *candle,
                prefix: record.prefix.clone(),
                code: record.code.clone(),
                parent_id: record.parent_id.clone(),
                direction,
                status,
                entry_status,
                entry_price: record.entry_price,
                entry_date,
                entry_order_type,
                entry_action,
                entry_candle_timestamp,
                exit_status,
                exit_price: record.exit_price,
                exit_date,
                exit_order_type,
                exit_action,
                exit_candle_timestamp,
                alerts,
                trades: Vec::new(),
                internal: PositionInternal {
                    highest_high: record.internal_state.highest_high,
                    lowest_low: record.internal_state.lowest_low,
                    stop: record.internal_state.stop,
                },
            },
        )
    }

    /// Reads a position from its wire record, with the given candle and mode.
    /// The recorded fills of the position start empty.
    pub fn from_state(position_state: PositionState, candle: &Option<Candle>, backtest: &bool) -> (r:
        Result<Position, Error>)
        ensures
            match PositionView::restored(position_state@, *candle, *backtest) {
                Ok(view) => r matches Ok(position) && position@ == view && view.wf(),
                Err(error) => r matches Err(e) && e == error,
            },
    {
        Position::restore(&position_state, candle, *backtest)
    }

    /// Writes the wire record of the position. Reading the record of a well
    /// formed position back, with any candle and mode, gives the position with
    /// that candle and mode and without its recorded fills.
    pub fn state(&self) -> (record: PositionState)
        ensures
            record@ == self@.state_view(),
            self@.wf() ==> forall|candle: Option<Candle>, backtest: bool|
                #[trigger] PositionView::restored(record@, candle, backtest) == Ok::<
                    PositionView,
                    Error,
                >(PositionView { candle, backtest, trades: Seq::empty(), ..self@ }),
    {
        let id = format_id(self.id);
        let direction = match &self.direction {
            Some(direction) => direction.to_str(),
            None => None,
        };
        let status = self.status.to_str().unwrap();
        let entry_status = match &self.entry_status {
            Some(status) => status.to_str(),
            None => None,
        };
        let entry_date = format_optional_instant(&self.entry_date);
        let entry_order_type = match &self.entry_order_type {
            Some(order_type) => order_type.to_str(),
            None => None,
        };
        let entry_action = match &self.entry_action {
            Some(action) => action.to_str(),
            None => None,
        };
        let entry_candle_timestamp = format_optional_instant(&self.entry_candle_timestamp);
        let exit_status = match &self.exit_status {
            Some(status) => status.to_str(),
            None => None,
        };
        let exit_date = format_optional_instant(&self.exit_date);
        let exit_order_type = match &self.exit_order_type {
            Some(order_type) => order_type.to_str(),
            None => None,
        };
        let exit_action = match &self.exit_action {
            Some(action) => action.to_str(),
            None => None,
        };
        let exit_candle_timestamp = format_optional_instant(&self.exit_candle_timestamp);
        let alerts = signals_state(&self.alerts);
        let record = PositionState {
            id,
            prefix: self.prefix.clone(),
            code: self.code.clone(),
            parent_id: self.parent_id.clone(),
            direction,
            status,
            entry_status,
            entry_price: self.entry_price,
            entry_date,
            entry_order_type,
            entry_action,
            entry_candle_timestamp,
            exit_status,
            exit_price: self.exit_price,
            exit_date,
            exit_order_type,
            exit_action,
            exit_candle_timestamp,
            alerts,
            internal_state: PositionInternalState {
                highest_high: self.internal.highest_high,
                lowest_low: self.internal.lowest_low,
                stop: self.internal.stop,
            },
        };
        proof {
            if self@.wf() {
                assert forall|candle: Option<Candle>, backtest: bool|
                    #[trigger] PositionView::restored(record@, candle, backtest) == Ok::<
                        PositionView,
                        Error,
                    >(PositionView { candle, backtest, trades: Seq::empty(), ..self@ }) by {
                    lemma_state_round_trip(self@, record@, candle, backtest);
                }
            }
        }
        record
    }

    /// The wire records of the pending orders.
    pub fn alerts_state(&self) -> (records: Vec<SignalState>)
        ensures
            records.deep_view() == signal_records(self@.alerts),
    {
        signals_state(&self.alerts)
    }

    /// The wire records of the recorded fills.
    pub fn trades_state(&self) -> (records: Vec<SignalState>)
        ensures
            records.deep_view() == signal_records(self@.trades),
    {
        signals_state(&self.trades)
    }
}

impl Position {
    /// The event that reports `signal` for this position under the identifier
    /// `id`, timed `now` in a live run.
    pub fn event(&self, signal: &Signal, id: u128, now: Timestamp) -> (event: SignalEvent)
        ensures
            event@ == self@.event_view(*signal, id, now),
    {
        SignalEvent {
            id: format_id(id),
            timestamp: if self.backtest {
                signal.candle_timestamp.format()
            } else {
                now.format()
            },
            position_id: format_id(self.id),
            position_prefix: self.prefix.clone(),
            position_code: self.code.clone(),
            position_parent_id: self.parent_id.clone(),
            signal_type: signal.signal_type.to_str(),
            action: signal.action.to_str().unwrap(),
            order_type: signal.order_type.to_str().unwrap(),
            price: signal.price,
            candle_timestamp: signal.candle_timestamp.format(),
        }
    }

    /// Reports each of `signals` under a fresh identifier, timed `now` in a
    /// live run.
    fn events(&self, signals: &Vec<Signal>, now: Timestamp) -> (events: Vec<SignalEvent>)
        ensures
            self@.reports_all(signals@, now, events.deep_view()),
    {
        let mut events: Vec<SignalEvent> = Vec::new();
        let mut index: usize = 0;
        while index < signals.len()
            invariant
                index <= signals.len(),
                self@.reports_all(signals@.take(index as int), now, events.deep_view()),
            decreases signals.len() - index,
        {
            let ghost before = events.deep_view();
            let id = fresh_id();
            let event = self.event(&signals[index], id, now);
            events.push(event);
            proof {
                assert(events.deep_view() == before.push(event@));
            }
            index += 1;
        }
        proof {
            assert(signals@.take(index as int) == signals@);
        }
        events
    }

    /// Reports the pending orders, each under a fresh identifier, timed `now`
    /// in a live run.
    pub fn alert_events_at(&self, now: Timestamp) -> (events: Vec<SignalEvent>)
        ensures
            self@.reports_all(self@.alerts, now, events.deep_view()),
    {
        self.events(&self.alerts, now)
    }

    /// Reports the recorded fills, each under a fresh identifier, timed `now`
    /// in a live run.
    pub fn trade_events_at(&self, now: Timestamp) -> (events: Vec<SignalEvent>)
        ensures
            self@.reports_all(self@.trades, now, events.deep_view()),
    {
        self.events(&self.trades, now)
    }

    /// Reports the pending orders, each under a fresh identifier. A live run
    /// times the reports by the wall clock.
    pub fn alert_events(&self) -> (events: Vec<SignalEvent>)
        ensures
            exists|now: Timestamp| self@.reports_all(self@.alerts, now, events.deep_view()),
    {
        let now = self.fill_clock();
        let events = self.events(&self.alerts, now);
        assert(self@.reports_all(self@.alerts, now, events.deep_view()));
        events
    }

    /// Reports the recorded fills, each under a fresh identifier. A live run
    /// times the reports by the wall clock.
    pub fn trade_events(&self) -> (events: Vec<SignalEvent>)
        ensures
            exists|now: Timestamp| self@.reports_all(self@.trades, now, events.deep_view()),
    {
        let now = self.fill_clock();
        let events = self.events(&self.trades, now);
        assert(self@.reports_all(self@.trades, now, events.deep_view()));
        events
    }
}

} // verus!
