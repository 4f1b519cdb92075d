//! The model of a position: what a position holds, and what each operation
//! makes of it. The executable position is specified against this model.

use vstd::prelude::*;
use crate::candle::{higher, lower, Candle, Price};
use crate::error::Error;
use crate::ident::{id_text, text_id};
use crate::records::{PositionInternalState, PositionStateView, SignalEventView, SignalStateView};
use crate::signal::Signal;
use crate::state::{
    lemma_order_type_token_round_trip, lemma_position_direction_token_round_trip,
    lemma_position_status_token_round_trip, lemma_trade_action_token_round_trip, OrderType,
    PositionDirection, PositionStatus, SignalType, TradeAction,
};
use crate::timestamp::Timestamp;

verus! {

/// What a position remembers of the candles it saw while open.
#[derive(Clone, Copy, Debug, PartialEq, Eq, Structural)]
pub struct PositionInternal {
    /// The highest high seen while the position was open.
    pub highest_high: Option<Price>,
    /// The lowest low seen while the position was open.
    pub lowest_low: Option<Price>,
    /// The trigger price of the trailing stop.
    pub stop: Option<Price>,
}

/// The contents of a position.
pub struct PositionView {
    pub id: u128,
    pub backtest: bool,
    pub candle: Option<Candle>,
    pub prefix: Seq<char>,
    pub code: Seq<char>,
    pub parent_id: Option<Seq<char>>,
    pub direction: Option<PositionDirection>,
    pub status: PositionStatus,
    pub entry_status: Option<PositionStatus>,
    pub entry_price: Option<Price>,
    pub entry_date: Option<Timestamp>,
    pub entry_order_type: Option<OrderType>,
    pub entry_action: Option<TradeAction>,
    pub entry_candle_timestamp: Option<Timestamp>,
    pub exit_status: Option<PositionStatus>,
    pub exit_price: Option<Price>,
    pub exit_date: Option<Timestamp>,
    pub exit_order_type: Option<OrderType>,
    pub exit_action: Option<TradeAction>,
    pub exit_candle_timestamp: Option<Timestamp>,
    /// The pending orders, oldest first.
    pub alerts: Seq<Signal>,
    /// The fills since the trades were last cleared, oldest first.
    pub trades: Seq<Signal>,
    pub internal: PositionInternal,
}

/// The running maximum of an optional extreme and a new value.
pub open spec fn raised(extreme: Option<Price>, value: Price) -> Option<Price> {
    match extreme {
        Some(seen) => Some(higher(seen, value)),
        None => Some(value),
    }
}

/// The running minimum of an optional extreme and a new value.
pub open spec fn lowered(extreme: Option<Price>, value: Price) -> Option<Price> {
    match extreme {
        Some(seen) => Some(lower(seen, value)),
        None => Some(value),
    }
}

impl PositionView {
    /// A new position: nothing filled, nothing pending.
    pub open spec fn fresh(
        id: u128,
        prefix: Seq<char>,
        code: Seq<char>,
        parent_id: Option<Seq<char>>,
        candle: Option<Candle>,
        backtest: bool,
    ) -> PositionView {
        PositionView {
            id,
            backtest,
            candle,
            prefix,
            code,
            parent_id,
            direction: None,
            status: PositionStatus::New,
            entry_status: None,
            entry_price: None,
            entry_date: None,
            entry_order_type: None,
            entry_action: None,
            entry_candle_timestamp: None,
            exit_status: None,
            exit_price: None,
            exit_date: None,
            exit_order_type: None,
            exit_action: None,
            exit_candle_timestamp: None,
            alerts: Seq::empty(),
            trades: Seq::empty(),
            internal: PositionInternal { highest_high: None, lowest_low: None, stop: None },
        }
    }

    /// The recorded entry action opens a position and the recorded exit action
    /// closes one. Every position that this library makes is well formed.
    pub open spec fn wf(self) -> bool {
        &&& self.entry_action matches Some(action) ==> action.is_entry()
        &&& self.exit_action matches Some(action) ==> action.is_exit()
    }

    /// Whether nothing is recorded of the entry.
    pub open spec fn entry_blank(self) -> bool {
        &&& self.direction is None
        &&& self.entry_status is None
        &&& self.entry_price is None
        &&& self.entry_date is None
        &&& self.entry_order_type is None
        &&& self.entry_action is None
        &&& self.entry_candle_timestamp is None
    }

    /// Whether the entry is recorded in full: it is closed, every detail of
    /// the fill is there, the action opens a position, and the direction is
    /// that of the action.
    pub open spec fn entry_filled(self) -> bool {
        &&& self.entry_status == Some(PositionStatus::Closed)
        &&& self.entry_price is Some
        &&& self.entry_date is Some
        &&& self.entry_order_type is Some
        &&& self.entry_candle_timestamp is Some
        &&& self.entry_action matches Some(action) && action.is_entry() && self.direction == Some(
            direction_of(action),
        )
    }

    /// Whether nothing is recorded of the exit.
    pub open spec fn exit_blank(self) -> bool {
        &&& self.exit_status is None
        &&& self.exit_price is None
        &&& self.exit_date is None
        &&& self.exit_order_type is None
        &&& self.exit_action is None
        &&& self.exit_candle_timestamp is None
    }

    /// Whether the exit is recorded in full: it is closed, every detail of the
    /// fill is there, and the action closes a position.
    pub open spec fn exit_filled(self) -> bool {
        &&& self.exit_status == Some(PositionStatus::Closed)
        &&& self.exit_price is Some
        &&& self.exit_date is Some
        &&& self.exit_order_type is Some
        &&& self.exit_candle_timestamp is Some
        &&& self.exit_action matches Some(action) && action.is_exit()
    }

    /// Whether the status says what is recorded: a new position has neither
    /// entry nor exit, an open one has its entry and no exit, a closed one has
    /// both. A position that starts new and is changed by the operations of
    /// this library only is coherent at every step.
    pub open spec fn coherent(self) -> bool {
        match self.status {
            PositionStatus::New => self.entry_blank() && self.exit_blank(),
            PositionStatus::Open => self.entry_filled() && self.exit_blank(),
            PositionStatus::Closed => self.entry_filled() && self.exit_filled(),
        }
    }

    /// Whether the entry of the position, and its direction, are recorded as
    /// they are in `other`.
    pub open spec fn same_entry(self, other: PositionView) -> bool {
        &&& self.direction == other.direction
        &&& self.entry_status == other.entry_status
        &&& self.entry_price == other.entry_price
        &&& self.entry_date == other.entry_date
        &&& self.entry_order_type == other.entry_order_type
        &&& self.entry_action == other.entry_action
        &&& self.entry_candle_timestamp == other.entry_candle_timestamp
    }

    /// Whether the position is new or open.
    pub open spec fn is_active(self) -> bool {
        self.status == PositionStatus::New || self.status == PositionStatus::Open
    }

    /// The position after it received a candle: the candle becomes the latest
    /// one and, while the position is open, widens the running extremes.
    pub open spec fn with_candle(self, candle: Option<Candle>) -> PositionView {
        match candle {
            Some(bar) if self.status == PositionStatus::Open => PositionView {
                candle,
                internal: PositionInternal {
                    highest_high: raised(self.internal.highest_high, bar.high),
                    lowest_low: lowered(self.internal.lowest_low, bar.low),
                    stop: self.internal.stop,
                },
                ..self
            },
            _ => PositionView { candle, ..self },
        }
    }
}

/// Whether a mutating operation did what its outcome says: on success the
/// position is the one the outcome holds, on failure the error is returned and
/// the position is as it was.
pub open spec fn applied(
    outcome: Result<PositionView, Error>,
    before: PositionView,
    result: Result<(), Error>,
    after: PositionView,
) -> bool {
    match outcome {
        Ok(next) => result is Ok && after == next,
        Err(error) => result == Err::<(), Error>(error) && after == before,
    }
}

/// The trailing stop after a new reference price: it only ever moves toward
/// the market, up for the exit of a long position and down for that of a short.
pub open spec fn tightened(stop: Option<Price>, action: TradeAction, price: Price) -> Price {
    match stop {
        Some(current) => if action == TradeAction::CloseLong {
            higher(current, price)
        } else {
            lower(current, price)
        },
        None => price,
    }
}

impl PositionView {
    /// Whether an entry order may be raised or filled: not once the entry has
    /// filled.
    pub open spec fn open_guard(self) -> Result<(), Error> {
        if self.entry_status == Some(PositionStatus::Closed) {
            Err(Error::AlreadyOpen)
        } else {
            Ok(())
        }
    }

    /// Whether an exit order may be raised or filled: only after the entry has
    /// filled and before the exit has.
    pub open spec fn close_guard(self) -> Result<(), Error> {
        if self.entry_status != Some(PositionStatus::Closed) {
            Err(Error::NotOpenYet)
        } else if self.exit_status == Some(PositionStatus::Closed) {
            Err(Error::AlreadyClosed)
        } else {
            Ok(())
        }
    }

    /// The guard that applies to an action: that of the entry for `Long` and
    /// `Short`, that of the exit for the closing actions.
    pub open spec fn guard(self, action: TradeAction) -> Result<(), Error> {
        if action.is_entry() {
            self.open_guard()
        } else {
            self.close_guard()
        }
    }

    /// The position after one more pending order, stamped with the instant of
    /// the latest candle.
    pub open spec fn alerted(
        self,
        action: TradeAction,
        price: Price,
        order_type: OrderType,
    ) -> Result<PositionView, Error> {
        match self.candle {
            None => Err(Error::NoCandleAvailable),
            Some(candle) => Ok(
                PositionView {
                    alerts: self.alerts.push(
                        Signal {
                            signal_type: SignalType::Alert,
                            action,
                            order_type,
                            price,
                            candle_timestamp: candle.timestamp,
                        },
                    ),
                    ..self
                },
            ),
        }
    }

    /// The position after one more recorded fill, stamped with the instant of
    /// the latest candle.
    pub open spec fn traded(
        self,
        action: TradeAction,
        price: Price,
        order_type: OrderType,
    ) -> Result<PositionView, Error> {
        match self.candle {
            None => Err(Error::NoCandleAvailable),
            Some(candle) => Ok(
                PositionView {
                    trades: self.trades.push(
                        Signal {
                            signal_type: SignalType::Trade,
                            action,
                            order_type,
                            price,
                            candle_timestamp: candle.timestamp,
                        },
                    ),
                    ..self
                },
            ),
        }
    }

    /// What raising an order at a given price does: the guard of the action
    /// decides first, then the order is appended to the pending ones.
    pub open spec fn ordered(
        self,
        action: TradeAction,
        order_type: OrderType,
        price: Price,
    ) -> Result<PositionView, Error> {
        match self.guard(action) {
            Err(error) => Err(error),
            Ok(()) => self.alerted(action, price, order_type),
        }
    }

    /// What raising an order without a price does: the price is taken from the
    /// latest candle, its close for a market order and its open for the others.
    pub open spec fn ordered_at_candle(
        self,
        action: TradeAction,
        order_type: OrderType,
    ) -> Result<PositionView, Error> {
        match self.candle {
            None => Err(Error::NoCandleAvailable),
            Some(candle) => self.ordered(
                action,
                order_type,
                if order_type == OrderType::Market {
                    candle.close
                } else {
                    candle.open
                },
            ),
        }
    }

    /// What raising a trailing stop does: the stop of the position is tightened
    /// by the reference price, and a stop order at the tightened price is
    /// appended to the pending ones.
    pub open spec fn trailed(self, action: TradeAction, price: Price) -> Result<
        PositionView,
        Error,
    > {
        match self.close_guard() {
            Err(error) => Err(error),
            Ok(()) => {
                let stop = tightened(self.internal.stop, action, price);
                PositionView {
                    internal: PositionInternal { stop: Some(stop), ..self.internal },
                    ..self
                }.alerted(action, stop, OrderType::Stop)
            },
        }
    }

    /// What raising a trailing stop without a reference price does: the open
    /// of the latest candle is the reference.
    pub open spec fn trailed_at_candle(self, action: TradeAction) -> Result<PositionView, Error> {
        match self.candle {
            None => Err(Error::NoCandleAvailable),
            Some(candle) => self.trailed(action, candle.open),
        }
    }
}

/// The direction that an entry action opens.
pub open spec fn direction_of(action: TradeAction) -> PositionDirection {
    if action == TradeAction::Long {
        PositionDirection::Long
    } else {
        PositionDirection::Short
    }
}

/// The index of the first pending order at or after `from` that the candle
/// reaches, if there is one.
pub open spec fn first_touched(alerts: Seq<Signal>, candle: Candle, from: int) -> Option<int>
    decreases alerts.len() - from,
{
    if from < 0 || from >= alerts.len() {
        None
    } else if alerts[from].touched(candle) {
        Some(from)
    } else {
        first_touched(alerts, candle, from + 1)
    }
}

impl PositionView {
    /// What filling an entry does. The entry guard decides first, then the
    /// action, which must open a position, then the presence of a candle. On
    /// success the position is open, the entry is recorded from the fill, the
    /// direction is that of the action, and one trade is appended. The entry is
    /// dated by the latest candle in a back test and by `now` otherwise.
    pub open spec fn opened(self, alert: Signal, now: Timestamp) -> Result<PositionView, Error> {
        if self.open_guard() is Err {
            Err(Error::AlreadyOpen)
        } else if !alert.action.is_entry() {
            Err(Error::InvalidTransition)
        } else {
            match self.candle {
                None => Err(Error::NoCandleAvailable),
                Some(candle) => Ok(
                    PositionView {
                        status: PositionStatus::Open,
                        entry_status: Some(PositionStatus::Closed),
                        entry_price: Some(alert.price),
                        entry_date: Some(
                            if self.backtest {
                                candle.timestamp
                            } else {
                                now
                            },
                        ),
                        entry_order_type: Some(alert.order_type),
                        entry_action: Some(alert.action),
                        entry_candle_timestamp: Some(alert.candle_timestamp),
                        direction: Some(direction_of(alert.action)),
                        trades: self.trades.push(
                            Signal {
                                signal_type: SignalType::Trade,
                                action: alert.action,
                                order_type: alert.order_type,
                                price: alert.price,
                                candle_timestamp: candle.timestamp,
                            },
                        ),
                        ..self
                    },
                ),
            }
        }
    }

    /// What filling an exit does. The exit guard decides first, then the
    /// action, which must close a position, then the presence of a candle. On
    /// success the position is closed, the exit is recorded from the fill, and
    /// one trade is appended. The exit is dated as an entry is.
    pub open spec fn closed(self, alert: Signal, now: Timestamp) -> Result<PositionView, Error> {
        match self.close_guard() {
            Err(error) => Err(error),
            Ok(()) => if !alert.action.is_exit() {
                Err(Error::InvalidTransition)
            } else {
                match self.candle {
                    None => Err(Error::NoCandleAvailable),
                    Some(candle) => Ok(
                        PositionView {
                            status: PositionStatus::Closed,
                            exit_status: Some(PositionStatus::Closed),
                            exit_price: Some(alert.price),
                            exit_date: Some(
                                if self.backtest {
                                    candle.timestamp
                                } else {
                                    now
                                },
                            ),
                            exit_order_type: Some(alert.order_type),
                            exit_action: Some(alert.action),
                            exit_candle_timestamp: Some(alert.candle_timestamp),
                            trades: self.trades.push(
                                Signal {
                                    signal_type: SignalType::Trade,
                                    action: alert.action,
                                    order_type: alert.order_type,
                                    price: alert.price,
                                    candle_timestamp: candle.timestamp,
                                },
                            ),
                            ..self
                        },
                    ),
                }
            },
        }
    }

    /// What filling a signal does: an entry for the opening actions, an exit
    /// for the closing ones.
    pub open spec fn filled(self, fill: Signal, now: Timestamp) -> Result<PositionView, Error> {
        if fill.action.is_entry() {
            self.opened(fill, now)
        } else {
            self.closed(fill, now)
        }
    }

    /// What trying one pending order against the latest candle does: without a
    /// candle it fails; an order that the candle does not reach leaves the
    /// position as it is; one that it reaches fills at the price of the fill
    /// rules. The flag says whether the order filled.
    pub open spec fn tried(self, alert: Signal, now: Timestamp) -> Result<
        (bool, PositionView),
        Error,
    > {
        match self.candle {
            None => Err(Error::NoCandleAvailable),
            Some(candle) => match alert.fill(candle, self.backtest) {
                None => Ok((false, self)),
                Some(price) => match self.filled(Signal { price, ..alert }, now) {
                    Ok(next) => Ok((true, next)),
                    Err(error) => Err(error),
                },
            },
        }
    }

    /// What resolving the pending orders does. They are tried oldest first. The
    /// first one that the latest candle reaches is filled, and every pending
    /// order is dropped with it: at most one order fills against one candle.
    /// Where none is reached the position stays as it is. With pending orders
    /// and no candle, or where the fill is refused, the error is returned.
    pub open spec fn resolved(self, now: Timestamp) -> Result<PositionView, Error> {
        if self.alerts.len() == 0 {
            Ok(self)
        } else {
            match self.candle {
                None => Err(Error::NoCandleAvailable),
                Some(candle) => match first_touched(self.alerts, candle, 0) {
                    None => Ok(self),
                    Some(index) => match self.tried(self.alerts[index], now) {
                        Ok((_, next)) => Ok(PositionView { alerts: Seq::empty(), ..next }),
                        Err(error) => Err(error),
                    },
                },
            }
        }
    }
}

/// The wire text of an optional instant.
pub open spec fn optional_text(instant: Option<Timestamp>) -> Option<Seq<char>> {
    match instant {
        Some(t) => Some(t.text()),
        None => None,
    }
}

/// What reading an optional wire instant gives: nothing for an absent text,
/// the instant for a text that denotes one, the error for any other.
pub open spec fn optional_instant(text: Option<Seq<char>>) -> Result<Option<Timestamp>, Error> {
    match text {
        None => Ok(None),
        Some(t) => match Timestamp::from_text(t) {
            Some(instant) => Ok(Some(instant)),
            None => Err(Error::InvalidTimestamp),
        },
    }
}

/// The wire records of a sequence of signals.
pub open spec fn signal_records(signals: Seq<Signal>) -> Seq<SignalStateView> {
    signals.map_values(|signal: Signal| signal.state_view())
}

/// What reading a sequence of wire records gives: the signals, or the error
/// of the first record that cannot be read.
pub open spec fn parsed_signals(records: Seq<SignalStateView>) -> Result<Seq<Signal>, Error>
    decreases records.len(),
{
    if records.len() == 0 {
        Ok(Seq::empty())
    } else {
        match parsed_signals(records.drop_last()) {
            Err(error) => Err(error),
            Ok(signals) => match Signal::parsed(records.last()) {
                Err(error) => Err(error),
                Ok(signal) => Ok(signals.push(signal)),
            },
        }
    }
}

impl PositionView {
    /// The wire record of the position. It holds everything but the latest
    /// candle, the mode and the recorded fills.
    pub open spec fn state_view(self) -> PositionStateView {
        PositionStateView {
            id: id_text(self.id),
            prefix: self.prefix,
            code: self.code,
            parent_id: self.parent_id,
            direction: match self.direction {
                Some(direction) => Some(direction.token()),
                None => None,
            },
            status: self.status.token(),
            entry_status: match self.entry_status {
                Some(status) => Some(status.token()),
                None => None,
            },
            entry_price: self.entry_price,
            entry_date: optional_text(self.entry_date),
            entry_order_type: match self.entry_order_type {
                Some(order_type) => Some(order_type.token()),
                None => None,
            },
            entry_action: match self.entry_action {
                Some(action) => Some(action.token()),
                None => None,
            },
            entry_candle_timestamp: optional_text(self.entry_candle_timestamp),
            exit_status: match self.exit_status {
                Some(status) => Some(status.token()),
                None => None,
            },
            exit_price: self.exit_price,
            exit_date: optional_text(self.exit_date),
            exit_order_type: match self.exit_order_type {
                Some(order_type) => Some(order_type.token()),
                None => None,
            },
            exit_action: match self.exit_action {
                Some(action) => Some(action.token()),
                None => None,
            },
            exit_candle_timestamp: optional_text(self.exit_candle_timestamp),
            alerts: signal_records(self.alerts),
            internal_state: PositionInternalState {
                highest_high: self.internal.highest_high,
                lowest_low: self.internal.lowest_low,
                stop: self.internal.stop,
            },
        }
    }

    /// The error of the first field of a wire record that cannot be read, in
    /// the order of the fields; `None` where every field can be read.
    pub open spec fn restore_error(record: PositionStateView) -> Option<Error> {
        if text_id(record.id) is None {
            Some(Error::InvalidId)
        } else if PositionDirection::parsed_optional(record.direction) is Err {
            Some(Error::InvalidEnumValue)
        } else if PositionStatus::parsed(record.status) is Err {
            Some(Error::InvalidEnumValue)
        } else if PositionStatus::parsed_optional(record.entry_status) is Err {
            Some(Error::InvalidEnumValue)
        } else if optional_instant(record.entry_date) is Err {
            Some(Error::InvalidTimestamp)
        } else if OrderType::parsed_optional(record.entry_order_type) is Err {
            Some(Error::InvalidEnumValue)
        } else if TradeAction::parsed_entry(record.entry_action) is Err {
            Some(Error::InvalidEnumValue)
        } else if optional_instant(record.entry_candle_timestamp) is Err {
            Some(Error::InvalidTimestamp)
        } else if PositionStatus::parsed_optional(record.exit_status) is Err {
            Some(Error::InvalidEnumValue)
        } else if optional_instant(record.exit_date) is Err {
            Some(Error::InvalidTimestamp)
        } else if OrderType::parsed_optional(record.exit_order_type) is Err {
            Some(Error::InvalidEnumValue)
        } else if TradeAction::parsed_exit(record.exit_action) is Err {
            Some(Error::InvalidEnumValue)
        } else if optional_instant(record.exit_candle_timestamp) is Err {
            Some(Error::InvalidTimestamp)
        } else {
            match parsed_signals(record.alerts) {
                Err(error) => Some(error),
                Ok(_) => None,
            }
        }
    }

    /// The position that a readable wire record describes, with the given
    /// candle and mode and with no recorded fills.
    pub open spec fn restored_from(
        record: PositionStateView,
        candle: Option<Candle>,
        backtest: bool,
    ) -> PositionView {
        PositionView {
            id: text_id(record.id).unwrap(),
            backtest,
            candle,
            prefix: record.prefix,
            code: record.code,
            parent_id: record.parent_id,
            direction: PositionDirection::parsed_optional(record.direction).unwrap(),
            status: PositionStatus::parsed(record.status).unwrap(),
            entry_status: PositionStatus::parsed_optional(record.entry_status).unwrap(),
            entry_price: record.entry_price,
            entry_date: optional_instant(record.entry_date).unwrap(),
            entry_order_type: OrderType::parsed_optional(record.entry_order_type).unwrap(),
            entry_action: TradeAction::parsed_entry(record.entry_action).unwrap(),
            entry_candle_timestamp: optional_instant(record.entry_candle_timestamp).unwrap(),
            exit_status: PositionStatus::parsed_optional(record.exit_status).unwrap(),
            exit_price: record.exit_price,
            exit_date: optional_instant(record.exit_date).unwrap(),
            exit_order_type: OrderType::parsed_optional(record.exit_order_type).unwrap(),
            exit_action: TradeAction::parsed_exit(record.exit_action).unwrap(),
            exit_candle_timestamp: optional_instant(record.exit_candle_timestamp).unwrap(),
            alerts: parsed_signals(record.alerts).unwrap(),
            trades: Seq::empty(),
            internal: PositionInternal {
                highest_high: record.internal_state.highest_high,
                lowest_low: record.internal_state.lowest_low,
                stop: record.internal_state.stop,
            },
        }
    }

    /// What reading a wire record gives: the position it describes, or the
    /// error of the first field that cannot be read.
    pub open spec fn restored(
        record: PositionStateView,
        candle: Option<Candle>,
        backtest: bool,
    ) -> Result<PositionView, Error> {
        match Self::restore_error(record) {
            Some(error) => Err(error),
            None => Ok(Self::restored_from(record, candle, backtest)),
        }
    }
}

impl PositionView {
    /// The event that reports `signal` for this position, under the identifier
    /// `id`. The report is timed by the candle of the signal in a back test and
    /// by `now` otherwise.
    pub open spec fn event_view(self, signal: Signal, id: u128, now: Timestamp) -> SignalEventView {
        SignalEventView {
            id: id_text(id),
            timestamp: if self.backtest {
                signal.candle_timestamp.text()
            } else {
                now.text()
            },
            position_id: id_text(self.id),
            position_prefix: self.prefix,
            position_code: self.code,
            position_parent_id: self.parent_id,
            signal_type: signal.signal_type.token(),
            action: signal.action.token(),
            order_type: signal.order_type.token(),
            price: signal.price,
            candle_timestamp: signal.candle_timestamp.text(),
        }
    }

    /// Whether `event` reports `signal` for this position at `now`, under some
    /// identifier.
    pub open spec fn reports(self, signal: Signal, now: Timestamp, event: SignalEventView) -> bool {
        exists|id: u128| event == self.event_view(signal, id, now)
    }

    /// Whether `events` report `signals` for this position at `now`, one event
    /// for each signal and in the same order.
    pub open spec fn reports_all(
        self,
        signals: Seq<Signal>,
        now: Timestamp,
        events: Seq<SignalEventView>,
    ) -> bool {
        &&& events.len() == signals.len()
        &&& forall|i: int|
            0 <= i < signals.len() ==> #[trigger] self.reports(signals[i], now, events[i])
    }
}

/// Reading an optional token that was written gives the value back.
pub proof fn lemma_optional_tokens(p: PositionView)
    ensures
        PositionStatus::parsed(p.status.token()) == Ok::<PositionStatus, Error>(p.status),
        PositionDirection::parsed_optional(p.state_view().direction) == Ok::<
            Option<PositionDirection>,
            Error,
        >(p.direction),
        PositionStatus::parsed_optional(p.state_view().entry_status) == Ok::<
            Option<PositionStatus>,
            Error,
        >(p.entry_status),
        PositionStatus::parsed_optional(p.state_view().exit_status) == Ok::<
            Option<PositionStatus>,
            Error,
        >(p.exit_status),
        OrderType::parsed_optional(p.state_view().entry_order_type) == Ok::<
            Option<OrderType>,
            Error,
        >(p.entry_order_type),
        OrderType::parsed_optional(p.state_view().exit_order_type) == Ok::<
            Option<OrderType>,
            Error,
        >(p.exit_order_type),
        TradeAction::parsed_optional(p.state_view().entry_action) == Ok::<
            Option<TradeAction>,
            Error,
        >(p.entry_action),
        TradeAction::parsed_optional(p.state_view().exit_action) == Ok::<
            Option<TradeAction>,
            Error,
        >(p.exit_action),
{
    lemma_position_status_token_round_trip(p.status);
    if let Some(direction) = p.direction {
        lemma_position_direction_token_round_trip(direction);
    }
    if let Some(status) = p.entry_status {
        lemma_position_status_token_round_trip(status);
    }
    if let Some(status) = p.exit_status {
        lemma_position_status_token_round_trip(status);
    }
    if let Some(order_type) = p.entry_order_type {
        lemma_order_type_token_round_trip(order_type);
    }
    if let Some(order_type) = p.exit_order_type {
        lemma_order_type_token_round_trip(order_type);
    }
    if let Some(action) = p.entry_action {
        lemma_trade_action_token_round_trip(action);
    }
    if let Some(action) = p.exit_action {
        lemma_trade_action_token_round_trip(action);
    }
}

/// A record that was written for a well formed position, and whose
/// identifier, instants and signals read back as they were written, reads back
/// as the position.
pub proof fn lemma_state_round_trip(
    p: PositionView,
    record: PositionStateView,
    candle: Option<Candle>,
    backtest: bool,
)
    requires
        p.wf(),
        record == p.state_view(),
        text_id(record.id) == Some(p.id),
        optional_instant(record.entry_date) == Ok::<Option<Timestamp>, Error>(p.entry_date),
        optional_instant(record.entry_candle_timestamp) == Ok::<Option<Timestamp>, Error>(
            p.entry_candle_timestamp,
        ),
        optional_instant(record.exit_date) == Ok::<Option<Timestamp>, Error>(p.exit_date),
        optional_instant(record.exit_candle_timestamp) == Ok::<Option<Timestamp>, Error>(
            p.exit_candle_timestamp,
        ),
        parsed_signals(record.alerts) == Ok::<Seq<Signal>, Error>(p.alerts),
    ensures
        PositionView::restored(record, candle, backtest) == Ok::<PositionView, Error>(
            PositionView { candle, backtest, trades: Seq::empty(), ..p },
        ),
{
    lemma_optional_tokens(p);
    assert(PositionView::restore_error(record) is None);
    let restored = PositionView::restored_from(record, candle, backtest);
    assert(restored.internal == p.internal);
}

/// After an entry has filled, the position is open, its entry is closed, its
/// direction is that of the entry action, and exactly one trade was appended:
/// the fill itself. Nothing else of the position changes but the record of the
/// entry.
pub proof fn lemma_open_outcome(p: PositionView, alert: Signal, now: Timestamp)
    requires
        p.opened(alert, now) is Ok,
    ensures
        ({
            let next = p.opened(alert, now).unwrap();
            &&& next.status == PositionStatus::Open
            &&& next.entry_status == Some(PositionStatus::Closed)
            &&& alert.action == TradeAction::Long ==> next.direction == Some(
                PositionDirection::Long,
            )
            &&& alert.action == TradeAction::Short ==> next.direction == Some(
                PositionDirection::Short,
            )
            &&& alert.action.is_entry()
            &&& next.entry_action == Some(alert.action)
            &&& next.entry_price == Some(alert.price)
            &&& next.trades.len() == p.trades.len() + 1
            &&& next.trades.drop_last() == p.trades
            &&& next.trades.last().signal_type == SignalType::Trade
            &&& next.trades.last().action == alert.action
            &&& next.trades.last().price == alert.price
            &&& next.alerts == p.alerts
        }),
{
    let next = p.opened(alert, now).unwrap();
    assert(next.trades.drop_last() =~= p.trades);
}

/// An exit fills only on a position whose entry has filled.
pub proof fn lemma_close_follows_open(p: PositionView, alert: Signal, now: Timestamp)
    requires
        p.closed(alert, now) is Ok,
    ensures
        p.entry_status == Some(PositionStatus::Closed),
        p.closed(alert, now).unwrap().status == PositionStatus::Closed,
        p.closed(alert, now).unwrap().exit_status == Some(PositionStatus::Closed),
{

}

/// A new position cannot be closed: its entry has not filled.
pub proof fn lemma_new_position_cannot_close(
    id: u128,
    prefix: Seq<char>,
    code: Seq<char>,
    parent_id: Option<Seq<char>>,
    candle: Option<Candle>,
    backtest: bool,
    alert: Signal,
    now: Timestamp,
)
    ensures
        PositionView::fresh(id, prefix, code, parent_id, candle, backtest).closed(alert, now)
            == Err::<PositionView, Error>(Error::NotOpenYet),
{

}

/// Closing a position twice fails the second time with `AlreadyClosed`.
pub proof fn lemma_close_twice(
    p: PositionView,
    first: Signal,
    now: Timestamp,
    second: Signal,
    later: Timestamp,
)
    requires
        p.closed(first, now) is Ok,
    ensures
        p.closed(first, now).unwrap().closed(second, later) == Err::<PositionView, Error>(
            Error::AlreadyClosed,
        ),
{

}

/// Only the fill of an entry records an entry: every other operation leaves
/// the entry of the position, and with it its direction, as it was.
pub proof fn lemma_only_open_records_entry(
    p: PositionView,
    candle: Option<Candle>,
    action: TradeAction,
    order_type: OrderType,
    price: Price,
    alert: Signal,
    now: Timestamp,
)
    ensures
        p.with_candle(candle).same_entry(p),
        p.ordered(action, order_type, price) matches Ok(next) ==> next.same_entry(p),
        p.ordered_at_candle(action, order_type) matches Ok(next) ==> next.same_entry(p),
        p.trailed(action, price) matches Ok(next) ==> next.same_entry(p),
        p.trailed_at_candle(action) matches Ok(next) ==> next.same_entry(p),
        p.closed(alert, now) matches Ok(next) ==> next.same_entry(p),
{

}

/// Once the entry of a position has filled it is never recorded again: no
/// further entry fills, and resolving the pending orders leaves the entry and
/// the direction as they were.
pub proof fn lemma_entry_is_recorded_once(p: PositionView, alert: Signal, now: Timestamp)
    requires
        p.entry_status == Some(PositionStatus::Closed),
    ensures
        p.opened(alert, now) == Err::<PositionView, Error>(Error::AlreadyOpen),
        p.resolved(now) matches Ok(next) ==> next.same_entry(p),
{

}

/// Resolving the pending orders of a position appends at most one trade: the
/// trades are as they were, or one longer with the old ones in front. Where a
/// trade was appended no order is left pending.
pub proof fn lemma_resolve_fills_at_most_one(p: PositionView, now: Timestamp)
    requires
        p.resolved(now) is Ok,
    ensures
        ({
            let next = p.resolved(now).unwrap();
            ||| next == p
            ||| {
                &&& next.trades.len() == p.trades.len() + 1
                &&& next.trades.drop_last() == p.trades
                &&& next.trades.last().signal_type == SignalType::Trade
                &&& next.alerts.len() == 0
            }
        }),
{
    let next = p.resolved(now).unwrap();
    if next != p {
        if p.alerts.len() > 0 && p.candle is Some {
            let candle = p.candle.unwrap();
            match first_touched(p.alerts, candle, 0) {
                None => {},
                Some(index) => {
                    lemma_first_touched_is_oldest(p.alerts, candle, 0);
                    let tried = p.tried(p.alerts[index], now).unwrap();
                    assert(tried.0);
                    assert(tried.1.trades.drop_last() =~= p.trades);
                },
            }
        }
    }
}

/// The order that resolving fills is the oldest one that the candle reaches:
/// the candle reaches it and none before it.
pub proof fn lemma_first_touched_is_oldest(alerts: Seq<Signal>, candle: Candle, from: int)
    requires
        0 <= from,
    ensures
        match first_touched(alerts, candle, from) {
            Some(index) => {
                &&& from <= index < alerts.len()
                &&& alerts[index].touched(candle)
                &&& forall|i: int| from <= i < index ==> !(#[trigger] alerts[i]).touched(candle)
            },
            None => forall|i: int| from <= i < alerts.len() ==> !(#[trigger] alerts[i]).touched(
                candle,
            ),
        },
    decreases alerts.len() - from,
{
    if from < alerts.len() && !alerts[from].touched(candle) {
        lemma_first_touched_is_oldest(alerts, candle, from + 1);
    }
}

/// A stop and a limit on the same side are reached from opposite directions.
/// On the buying side a stop is reached exactly when the high is at or above
/// its price and a limit exactly when the low is at or below it, so both are
/// reached exactly when the price lies within the candle. On the selling side
/// the two tests change places.
pub proof fn lemma_stop_and_limit_touch(candle: Candle, stop: Signal, limit: Signal)
    requires
        stop.order_type == OrderType::Stop,
        limit.order_type == OrderType::Limit,
        stop.price == limit.price,
        stop.action.is_buy_side() == limit.action.is_buy_side(),
    ensures
        stop.action.is_buy_side() ==> (stop.touched(candle) <==> candle.high >= stop.price),
        stop.action.is_buy_side() ==> (limit.touched(candle) <==> candle.low <= stop.price),
        !stop.action.is_buy_side() ==> (stop.touched(candle) <==> candle.low <= stop.price),
        !stop.action.is_buy_side() ==> (limit.touched(candle) <==> candle.high >= stop.price),
        (stop.touched(candle) && limit.touched(candle)) <==> candle.low <= stop.price
            <= candle.high,
{

}

/// A fill is never better than what the market gave: a touched stop fills at
/// or beyond its price, a touched limit at or within it.
pub proof fn lemma_fill_price_bounds(signal: Signal, candle: Candle, backtest: bool)
    ensures
        signal.order_type == OrderType::Stop && signal.action.is_buy_side() ==> signal.filled_at(
            candle,
            backtest,
        ) >= signal.price,
        signal.order_type == OrderType::Stop && !signal.action.is_buy_side() ==> signal.filled_at(
            candle,
            backtest,
        ) <= signal.price,
        signal.order_type == OrderType::Limit && signal.action.is_buy_side() ==> signal.filled_at(
            candle,
            backtest,
        ) <= signal.price,
        signal.order_type == OrderType::Limit && !signal.action.is_buy_side() ==> signal.filled_at(
            candle,
            backtest,
        ) >= signal.price,
        signal.order_type == OrderType::Market && backtest ==> signal.filled_at(candle, backtest)
            == candle.open,
{

}

/// A trailing stop only tightens: the stop for the exit of a long position
/// never falls, that for the exit of a short position never rises, and either
/// is at least as tight as the reference price it was given.
pub proof fn lemma_trailing_stop_tightens(stop: Option<Price>, price: Price)
    ensures
        tightened(stop, TradeAction::CloseLong, price) >= price,
        tightened(stop, TradeAction::CloseShort, price) <= price,
        stop matches Some(current) ==> tightened(stop, TradeAction::CloseLong, price) >= current,
        stop matches Some(current) ==> tightened(stop, TradeAction::CloseShort, price) <= current,
{

}

/// Every operation keeps a well formed position well formed.
pub proof fn lemma_operations_keep_wf(
    p: PositionView,
    candle: Option<Candle>,
    action: TradeAction,
    order_type: OrderType,
    price: Price,
    alert: Signal,
    now: Timestamp,
)
    requires
        p.wf(),
    ensures
        p.with_candle(candle).wf(),
        p.ordered(action, order_type, price) matches Ok(next) ==> next.wf(),
        p.ordered_at_candle(action, order_type) matches Ok(next) ==> next.wf(),
        p.trailed(action, price) matches Ok(next) ==> next.wf(),
        p.trailed_at_candle(action) matches Ok(next) ==> next.wf(),
        p.opened(alert, now) matches Ok(next) ==> next.wf(),
        p.closed(alert, now) matches Ok(next) ==> next.wf(),
        p.tried(alert, now) matches Ok((_, next)) ==> next.wf(),
        p.resolved(now) matches Ok(next) ==> next.wf(),
{

}

/// Resolving the pending orders never changes what identifies a position:
/// its identifier, its prefix, its code, its parent, its mode and its candle.
pub proof fn lemma_resolving_keeps_identity(p: PositionView, now: Timestamp)
    requires
        p.resolved(now) is Ok,
    ensures
        ({
            let next = p.resolved(now).unwrap();
            &&& next.id == p.id
            &&& next.prefix == p.prefix
            &&& next.code == p.code
            &&& next.parent_id == p.parent_id
            &&& next.backtest == p.backtest
            &&& next.candle == p.candle
        }),
{

}

/// Whether the candle is sound: its open and its close lie between its low
/// and its high.
pub open spec fn sound(candle: Candle) -> bool {
    &&& candle.low <= candle.open <= candle.high
    &&& candle.low <= candle.close <= candle.high
}

/// A fill against a sound candle is at a price that the candle traded at: it
/// lies between the low and the high. The one exception is a market order in
/// a live run, which fills at its own price where that is worse than the
/// close.
pub proof fn lemma_fill_within_candle(signal: Signal, candle: Candle, backtest: bool)
    requires
        sound(candle),
        signal.touched(candle),
        signal.order_type != OrderType::Market || backtest,
    ensures
        candle.low <= signal.filled_at(candle, backtest) <= candle.high,
{

}

/// The life of a position runs one way. A new position is coherent. Every
/// operation keeps a coherent position coherent, and a coherent position is
/// well formed. On a coherent position an entry fills only while it is new and
/// makes it open, an exit fills only while it is open and makes it closed, and
/// nothing else changes the status.
pub proof fn lemma_lifecycle(
    p: PositionView,
    candle: Option<Candle>,
    action: TradeAction,
    order_type: OrderType,
    price: Price,
    alert: Signal,
    now: Timestamp,
)
    requires
        p.coherent(),
    ensures
        p.wf(),
        p.with_candle(candle).coherent() && p.with_candle(candle).status == p.status,
        p.ordered(action, order_type, price) matches Ok(next) ==> next.coherent() && next.status
            == p.status,
        p.ordered_at_candle(action, order_type) matches Ok(next) ==> next.coherent() && next.status
            == p.status,
        p.trailed(action, price) matches Ok(next) ==> next.coherent() && next.status == p.status,
        p.trailed_at_candle(action) matches Ok(next) ==> next.coherent() && next.status
            == p.status,
        p.opened(alert, now) matches Ok(next) ==> next.coherent() && p.status
            == PositionStatus::New && next.status == PositionStatus::Open,
        p.closed(alert, now) matches Ok(next) ==> next.coherent() && p.status
            == PositionStatus::Open && next.status == PositionStatus::Closed,
        p.resolved(now) matches Ok(next) ==> next.coherent() && (next.status == p.status || (
            p.status == PositionStatus::New && next.status == PositionStatus::Open) || (p.status
            == PositionStatus::Open && next.status == PositionStatus::Closed)),
{

}

/// A new position is coherent.
pub proof fn lemma_new_position_is_coherent(
    id: u128,
    prefix: Seq<char>,
    code: Seq<char>,
    parent_id: Option<Seq<char>>,
    candle: Option<Candle>,
    backtest: bool,
)
    ensures
        PositionView::fresh(id, prefix, code, parent_id, candle, backtest).coherent(),
{

}

/// A back test never depends on the clock: whatever instant is handed in, a
/// fill and the resolving of the pending orders come out the same.
pub proof fn lemma_backtest_ignores_clock(
    p: PositionView,
    alert: Signal,
    now: Timestamp,
    other: Timestamp,
)
    requires
        p.backtest,
    ensures
        p.opened(alert, now) == p.opened(alert, other),
        p.closed(alert, now) == p.closed(alert, other),
        p.tried(alert, now) == p.tried(alert, other),
        p.resolved(now) == p.resolved(other),
{
}

} // verus!
