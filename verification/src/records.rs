//! The wire records: positions, signals and events in the string form in which
//! they are persisted and reported.

use vstd::prelude::*;
use crate::candle::Price;

verus! {

/// A signal on the wire.
#[derive(Clone, Debug, PartialEq)]
pub struct SignalState {
    /// `alert` or `trade`.
    pub signal_type: String,
    /// `long`, `short`, `closeLong` or `closeShort`.
    pub action: String,
    /// `market`, `limit` or `stop`.
    pub order_type: String,
    pub price: Price,
    /// ISO-8601 text.
    pub candle_timestamp: String,
}

/// The contents of a `SignalState`.
pub struct SignalStateView {
    pub signal_type: Seq<char>,
    pub action: Seq<char>,
    pub order_type: Seq<char>,
    pub price: Price,
    pub candle_timestamp: Seq<char>,
}

impl View for SignalState {
    type V = SignalStateView;

    open spec fn view(&self) -> SignalStateView {
        SignalStateView {
            signal_type: self.signal_type@,
            action: self.action@,
            order_type: self.order_type@,
            price: self.price,
            candle_timestamp: self.candle_timestamp@,
        }
    }
}

impl DeepView for SignalState {
    type V = SignalStateView;

    open spec fn deep_view(&self) -> SignalStateView {
        self@
    }
}

/// An alert or a trade as it is reported for persistence: the signal, the
/// position it belongs to, an identifier of its own and the time of the report.
#[derive(Clone, Debug, PartialEq)]
pub struct SignalEvent {
    pub id: String,
    pub timestamp: String,
    pub position_id: String,
    pub position_prefix: String,
    pub position_code: String,
    pub position_parent_id: Option<String>,
    pub signal_type: String,
    pub action: String,
    pub order_type: String,
    pub price: Price,
    pub candle_timestamp: String,
}

/// The contents of a `SignalEvent`.
pub struct SignalEventView {
    pub id: Seq<char>,
    pub timestamp: Seq<char>,
    pub position_id: Seq<char>,
    pub position_prefix: Seq<char>,
    pub position_code: Seq<char>,
    pub position_parent_id: Option<Seq<char>>,
    pub signal_type: Seq<char>,
    pub action: Seq<char>,
    pub order_type: Seq<char>,
    pub price: Price,
    pub candle_timestamp: Seq<char>,
}

impl View for SignalEvent {
    type V = SignalEventView;

    open spec fn view(&self) -> SignalEventView {
        SignalEventView {
            id: self.id@,
            timestamp: self.timestamp@,
            position_id: self.position_id@,
            position_prefix: self.position_prefix@,
            position_code: self.position_code@,
            position_parent_id: self.position_parent_id.deep_view(),
            signal_type: self.signal_type@,
            action: self.action@,
            order_type: self.order_type@,
            price: self.price,
            candle_timestamp: self.candle_timestamp@,
        }
    }
}

impl DeepView for SignalEvent {
    type V = SignalEventView;

    open spec fn deep_view(&self) -> SignalEventView {
        self@
    }
}

/// The running extremes and the trailing stop of a position, on the wire.
#[derive(Clone, Copy, Debug, PartialEq, Eq, Structural)]
pub struct PositionInternalState {
    pub highest_high: Option<Price>,
    pub lowest_low: Option<Price>,
    pub stop: Option<Price>,
}

/// A position on the wire.
#[derive(Clone, Debug, PartialEq)]
pub struct PositionState {
    pub id: String,
    pub prefix: String,
    pub code: String,
    pub parent_id: Option<String>,
    pub direction: Option<String>,
    pub status: String,
    pub entry_status: Option<String>,
    pub entry_price: Option<Price>,
    pub entry_date: Option<String>,
    pub entry_order_type: Option<String>,
    pub entry_action: Option<String>,
    pub entry_candle_timestamp: Option<String>,
    pub exit_status: Option<String>,
    pub exit_price: Option<Price>,
    pub exit_date: Option<String>,
    pub exit_order_type: Option<String>,
    pub exit_action: Option<String>,
    pub exit_candle_timestamp: Option<String>,
    pub alerts: Vec<SignalState>,
    pub internal_state: PositionInternalState,
}

/// The contents of a `PositionState`.
pub struct PositionStateView {
    pub id: Seq<char>,
    pub prefix: Seq<char>,
    pub code: Seq<char>,
    pub parent_id: Option<Seq<char>>,
    pub direction: Option<Seq<char>>,
    pub status: Seq<char>,
    pub entry_status: Option<Seq<char>>,
    pub entry_price: Option<Price>,
    pub entry_date: Option<Seq<char>>,
    pub entry_order_type: Option<Seq<char>>,
    pub entry_action: Option<Seq<char>>,
    pub entry_candle_timestamp: Option<Seq<char>>,
    pub exit_status: Option<Seq<char>>,
    pub exit_price: Option<Price>,
    pub exit_date: Option<Seq<char>>,
    pub exit_order_type: Option<Seq<char>>,
    pub exit_action: Option<Seq<char>>,
    pub exit_candle_timestamp: Option<Seq<char>>,
    pub alerts: Seq<SignalStateView>,
    pub internal_state: PositionInternalState,
}

impl View for PositionState {
    type V = PositionStateView;

    open spec fn view(&self) -> PositionStateView {
        PositionStateView {
            id: self.id@,
            prefix: self.prefix@,
            code: self.code@,
            parent_id: self.parent_id.deep_view(),
            direction: self.direction.deep_view(),
            status: self.status@,
            entry_status: self.entry_status.deep_view(),
            entry_price: self.entry_price,
            entry_date: self.entry_date.deep_view(),
            entry_order_type: self.entry_order_type.deep_view(),
            entry_action: self.entry_action.deep_view(),
            entry_candle_timestamp: self.entry_candle_timestamp.deep_view(),
            exit_status: self.exit_status.deep_view(),
            exit_price: self.exit_price,
            exit_date: self.exit_date.deep_view(),
            exit_order_type: self.exit_order_type.deep_view(),
            exit_action: self.exit_action.deep_view(),
            exit_candle_timestamp: self.exit_candle_timestamp.deep_view(),
            alerts: self.alerts.deep_view(),
            internal_state: self.internal_state,
        }
    }
}

impl DeepView for PositionState {
    type V = PositionStateView;

    open spec fn deep_view(&self) -> PositionStateView {
        self@
    }
}

} // verus!
