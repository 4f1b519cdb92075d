//! The T2 trend friend strategy: long while the price and three moving
//! averages are stacked in a rising order, out once the price falls below the
//! fastest average after a minimum holding period.

use vstd::prelude::*;
use crate::candle::{latest_candle, latest_of, slid, slide_window, window_view, Candle};
use crate::error::Error;
use crate::ident::fresh_id;
use crate::indicator::SMAResult;
use crate::manager::{
    active_index, default_prefix, lemma_first_where, lemma_operations_keep_manager_wf,
    lemma_operations_keep_single_default, ManagerView, PositionManager,
};
use crate::model::lemma_operations_keep_wf;
use crate::model::PositionView;
use crate::robot::RobotState;
use crate::state::{OrderType, PositionDirection, TradeAction};
use crate::strategy::{StrategyOwnSettings, StrategyParams, StrategyState};
use crate::timestamp::Timestamp;

verus! {

/// The parameters of the strategy.
#[derive(Clone, Copy, Debug, PartialEq, Eq, Structural)]
pub struct T2TrendFriendStrategyParams {
    /// Period of the fastest moving average.
    pub sma1: u16,
    /// Period of the second moving average.
    pub sma2: u16,
    /// Period of the third moving average.
    pub sma3: u16,
    /// A position is held for more than this many bars before it is sold.
    pub min_bars_to_hold: u16,
}

/// The state that the strategy carries from cycle to cycle.
#[derive(Clone, Copy, Debug, PartialEq, Eq, Structural)]
pub struct T2TrendFriendStrategyState {
    pub sma1_result: Option<SMAResult>,
    pub sma2_result: Option<SMAResult>,
    pub sma3_result: Option<SMAResult>,
    /// The number of bars for which the open position has been held.
    pub bars_held: Option<u16>,
}

/// The values of the three moving averages at the latest candle, as computed
/// outside this library.
#[derive(Clone, Copy, Debug, PartialEq, Eq, Structural)]
pub struct Indicators {
    pub sma1: Option<SMAResult>,
    pub sma2: Option<SMAResult>,
    pub sma3: Option<SMAResult>,
}

/// The strategy with its positions and its window of candles.
#[derive(Debug)]
pub struct Strategy {
    settings: StrategyOwnSettings,
    params: T2TrendFriendStrategyParams,
    state: T2TrendFriendStrategyState,
    positions: PositionManager,
    candles: Option<Vec<Candle>>,
}

/// The contents of the strategy.
pub struct StrategyView {
    pub settings: StrategyOwnSettings,
    pub params: T2TrendFriendStrategyParams,
    pub state: T2TrendFriendStrategyState,
    pub positions: ManagerView,
    /// The window of candles, oldest first; `None` before the first batch.
    pub candles: Option<Seq<Candle>>,
}

impl View for Strategy {
    type V = StrategyView;

    closed spec fn view(&self) -> StrategyView {
        StrategyView {
            settings: self.settings,
            params: self.params,
            state: self.state,
            positions: self.positions@,
            candles: window_view(self.candles),
        }
    }
}

/// One more bar held, without ever wrapping round.
pub open spec fn one_more(bars: u16) -> u16 {
    if bars < u16::MAX {
        (bars + 1) as u16
    } else {
        bars
    }
}

/// Whether the entry rule holds: the close is above the fastest average, and
/// the fastest average is above the second, which is above the third.
pub open spec fn entry_signal(close: i64, sma1: i64, sma2: i64, sma3: i64) -> bool {
    close > sma1 && sma1 > sma2 && sma1 > sma3 && sma2 > sma3
}

/// Whether the exit rule holds: the close is below the fastest average and
/// the position has been held for more than the minimum number of bars.
pub open spec fn exit_signal(close: i64, sma1: i64, bars_held: u16, min_bars_to_hold: u16) -> bool {
    close < sma1 && bars_held > min_bars_to_hold
}

impl StrategyView {
    /// The window is absent or holds at least one candle. Every strategy that
    /// this library makes is well formed.
    pub open spec fn wf(self) -> bool {
        self.candles matches Some(candles) ==> candles.len() > 0
    }

    /// The latest candle of the window.
    pub open spec fn latest(self) -> Option<Candle> {
        latest_of(self.candles)
    }

    /// The strategy after one more candle: the window slides by one, and
    /// every position receives the candle. Before the first batch there is no
    /// window to slide.
    pub open spec fn ingested(self, candle: Candle) -> StrategyView {
        StrategyView {
            candles: slid(self.candles, candle),
            positions: self.positions.with_candle(candle),
            ..self
        }
    }

    /// What taking in the indicator values does: without a window there is
    /// nothing they could have been computed from; with one they become the
    /// state of the strategy.
    pub open spec fn with_indicators(self, indicators: Indicators) -> Result<StrategyView, Error> {
        match self.candles {
            None => Err(Error::NoCandleAvailable),
            Some(_) => Ok(
                StrategyView {
                    state: T2TrendFriendStrategyState {
                        sma1_result: indicators.sma1,
                        sma2_result: indicators.sma2,
                        sma3_result: indicators.sma3,
                        ..self.state
                    },
                    ..self
                },
            ),
        }
    }

    /// What evaluating the rules does. They need the latest candle and all
    /// three averages. While a position exists in the default slot, the active
    /// one is looked at: a long position has been held for one more bar, and
    /// once the exit rule holds a market order to close it is raised and the
    /// count starts over. While none exists and the entry rule holds, a
    /// position is created under `id` and a market order to open it long is
    /// raised. An error leaves everything as it was.
    pub open spec fn ruled(self, id: u128) -> Result<StrategyView, Error> {
        match (self.latest(), self.state.sma1_result, self.state.sma2_result, self.state.sma3_result) {
            (None, _, _, _) => Err(Error::NoCandleAvailable),
            (Some(candle), Some(sma1), Some(sma2), Some(sma3)) => {
                if self.positions.has_prefix(default_prefix()) {
                    match active_index(self.positions.positions) {
                        None => Err(Error::NoActivePosition),
                        Some(index) => {
                            let position = self.positions.positions[index];
                            if position.direction == Some(PositionDirection::Long) {
                                let bars = one_more(
                                    match self.state.bars_held {
                                        Some(held) => held,
                                        None => 0,
                                    },
                                );
                                if exit_signal(
                                    candle.close,
                                    sma1.result,
                                    bars,
                                    self.params.min_bars_to_hold,
                                ) {
                                    match position.ordered_at_candle(
                                        TradeAction::CloseLong,
                                        OrderType::Market,
                                    ) {
                                        Err(error) => Err(error),
                                        Ok(next) => Ok(
                                            StrategyView {
                                                state: T2TrendFriendStrategyState {
                                                    bars_held: Some(0),
                                                    ..self.state
                                                },
                                                positions: ManagerView {
                                                    positions: self.positions.positions.update(
                                                        index,
                                                        next,
                                                    ),
                                                    ..self.positions
                                                },
                                                ..self
                                            },
                                        ),
                                    }
                                } else {
                                    Ok(
                                        StrategyView {
                                            state: T2TrendFriendStrategyState {
                                                bars_held: Some(bars),
                                                ..self.state
                                            },
                                            ..self
                                        },
                                    )
                                }
                            } else {
                                Ok(self)
                            }
                        },
                    }
                } else if entry_signal(candle.close, sma1.result, sma2.result, sma3.result) {
                    if self.positions.candle is None {
                        Err(Error::NoCandleAvailable)
                    } else {
                        match self.positions.creation_error(None) {
                            Some(error) => Err(error),
                            None => match self.positions.next_position(
                                id,
                                None,
                                None,
                            ).ordered_at_candle(TradeAction::Long, OrderType::Market) {
                                Err(error) => Err(error),
                                Ok(position) => Ok(
                                    StrategyView {
                                        state: T2TrendFriendStrategyState {
                                            bars_held: Some(1),
                                            ..self.state
                                        },
                                        positions: ManagerView {
                                            last_position_num: (self.positions.last_position_num
                                                + 1) as u32,
                                            positions: self.positions.positions.push(position),
                                            ..self.positions
                                        },
                                        ..self
                                    },
                                ),
                            },
                        }
                    }
                } else {
                    Ok(self)
                }
            },
            _ => Err(Error::MissingIndicator),
        }
    }

    /// The strategy at the start of a cycle: closed positions removed, pending
    /// orders and recorded fills dropped.
    pub open spec fn cleared(self) -> StrategyView {
        StrategyView {
            positions: self.positions.without_closed().without_alerts().without_trades(),
            ..self
        }
    }

    /// What one cycle does, step by step: clear, take in the indicator values,
    /// hand the latest candle to the positions, evaluate the rules, resolve the
    /// pending orders. The first error ends the cycle; the steps before it
    /// stay done. The result holds the strategy after the cycle and the error,
    /// if there was one.
    pub open spec fn ran(self, indicators: Indicators, id: u128, now: Timestamp) -> (
        StrategyView,
        Option<Error>,
    ) {
        let cleared = self.cleared();
        match cleared.with_indicators(indicators) {
            Err(error) => (cleared, Some(error)),
            Ok(informed) => match informed.latest() {
                None => (informed, Some(Error::NoCandleAvailable)),
                Some(candle) => {
                    let shown = StrategyView {
                        positions: informed.positions.with_candle(candle),
                        ..informed
                    };
                    match shown.ruled(id) {
                        Err(error) => (shown, Some(error)),
                        Ok(ruled) => (
                            StrategyView { positions: ruled.positions.swept(now), ..ruled },
                            ruled.positions.sweep_error(now),
                        ),
                    }
                },
            },
        }
    }

    /// What a check between cycles does: closed positions are removed, the
    /// recorded fills dropped, and the pending orders resolved against the
    /// latest candle. The rules are not evaluated.
    pub open spec fn checked(self, now: Timestamp) -> (StrategyView, Option<Error>) {
        let swept = self.positions.without_closed().without_trades();
        (StrategyView { positions: swept.swept(now), ..self }, swept.sweep_error(now))
    }
}

/// The result that reports an optional error.
pub open spec fn outcome(error: Option<Error>) -> Result<(), Error> {
    match error {
        Some(e) => Err(e),
        None => Ok(()),
    }
}

impl Strategy {
    /// Makes the strategy, with no window of candles yet.
    pub fn new(
        settings: StrategyOwnSettings,
        params: T2TrendFriendStrategyParams,
        state: T2TrendFriendStrategyState,
        positions: PositionManager,
    ) -> (strategy: Strategy)
        ensures
            strategy@ == (StrategyView {
                settings,
                params,
                state,
                positions: positions@,
                candles: None,
            }),
            strategy@.wf(),
    {
        Strategy { settings, params, state, positions, candles: None }
    }

    /// The latest candle of the window, or `NoCandleAvailable`.
    pub fn get_candle(&self) -> (r: Result<Candle, Error>)
        ensures
            r == match self@.latest() {
                Some(candle) => Ok::<Candle, Error>(candle),
                None => Err(Error::NoCandleAvailable),
            },
    {
        latest_candle(&self.candles)
    }

    /// The positions of the strategy.
    pub fn positions(&self) -> (positions: &PositionManager)
        ensures
            positions@ == self@.positions,
    {
        &self.positions
    }

    /// Replaces the window of candles by a batch. An empty batch is refused
    /// with `EmptyCandleBatch` and changes nothing.
    pub fn handle_candles(&mut self, candles: Vec<Candle>) -> (r: Result<(), Error>)
        ensures
            candles@.len() == 0 ==> r == Err::<(), Error>(Error::EmptyCandleBatch) && final(self)@
                == old(self)@,
            candles@.len() > 0 ==> r is Ok && final(self)@ == (StrategyView {
                candles: Some(candles@),
                ..old(self)@
            }),
            old(self)@.wf() ==> final(self)@.wf(),
    {
        if candles.len() == 0 {
            return Err(Error::EmptyCandleBatch);
        }
        self.candles = Some(candles);
        Ok(())
    }

    /// Takes in one more candle: the window slides by one and every position
    /// receives the candle.
    pub fn handle_candle(&mut self, candle: Candle) -> (r: Result<(), Error>)
        ensures
            r is Ok,
            final(self)@ == old(self)@.ingested(candle),
            old(self)@.wf() ==> final(self)@.wf(),
    {
        slide_window(&mut self.candles, candle);
        self.positions.handle_candle(&candle);
        Ok(())
    }

    /// Takes in the values of the indicators at the latest candle.
    pub fn calc_indicators(&mut self, indicators: &Indicators) -> (r: Result<(), Error>)
        ensures
            match old(self)@.with_indicators(*indicators) {
                Ok(next) => r is Ok && final(self)@ == next,
                Err(error) => r == Err::<(), Error>(error) && final(self)@ == old(self)@,
            },
    {
        if self.candles.is_none() {
            return Err(Error::NoCandleAvailable);
        }
        self.state.sma1_result = indicators.sma1;
        self.state.sma2_result = indicators.sma2;
        self.state.sma3_result = indicators.sma3;
        Ok(())
    }

    /// Evaluates the rules; a position that they create gets the identifier
    /// `id`.
    pub fn run_strategy_with(&mut self, id: u128) -> (r: Result<(), Error>)
        ensures
            match old(self)@.ruled(id) {
                Ok(next) => r is Ok && final(self)@ == next,
                Err(error) => r == Err::<(), Error>(error) && final(self)@ == old(self)@,
            },
    {
        let candle = self.get_candle()?;
        let sma1 = match self.state.sma1_result {
            Some(value) => value.result,
            None => {
                return Err(Error::MissingIndicator);
            },
        };
        let sma2 = match self.state.sma2_result {
            Some(value) => value.result,
            None => {
                return Err(Error::MissingIndicator);
            },
        };
        let sma3 = match self.state.sma3_result {
            Some(value) => value.result,
            None => {
                return Err(Error::MissingIndicator);
            },
        };
        if self.positions.has_active_position() {
            let position = self.positions.get_active_position()?;
            if position.is_long() {
                let held = match self.state.bars_held {
                    Some(held) => held,
                    None => 0,
                };
                let bars = if held < u16::MAX {
                    held + 1
                } else {
                    held
                };
                if candle.close < sma1 && bars > self.params.min_bars_to_hold {
                    match position.sell_at_market() {
                        Ok(()) => {},
                        Err(error) => {
                            // Nothing was written through the handle, so the positions are
                            // as they were.
                            assert(self@.positions.positions =~= old(self)@.positions.positions);
                            return Err(error);
                        },
                    }
                    self.state.bars_held = Some(0);
                } else {
                    self.state.bars_held = Some(bars);
                    assert(self@.positions.positions =~= old(self)@.positions.positions);
                }
            } else {
                assert(self@.positions.positions =~= old(self)@.positions.positions);
            }
        } else if candle.close > sma1 && sma1 > sma2 && sma1 > sma3 && sma2 > sma3 {
            if self.positions.get_candle().is_none() {
                return Err(Error::NoCandleAvailable);
            }
            let position = self.positions.create_with_id(id, None, None)?;
            position.buy_at_market()?;
            self.state.bars_held = Some(1);
        }
        Ok(())
    }

    /// Evaluates the rules; a position that they create gets a fresh random
    /// identifier.
    pub fn run_strategy(&mut self) -> (r: Result<(), Error>)
        ensures
            exists|id: u128|
                match #[trigger] old(self)@.ruled(id) {
                    Ok(next) => r is Ok && final(self)@ == next,
                    Err(error) => r == Err::<(), Error>(error) && final(self)@ == old(self)@,
                },
    {
        let id = fresh_id();
        let r = self.run_strategy_with(id);
        r
    }

    /// Runs one cycle with the given indicator values. A position that the
    /// rules create gets the identifier `id`; a fill in a live run is dated
    /// `now`.
    pub fn run_with(&mut self, indicators: &Indicators, id: u128, now: Timestamp) -> (r: Result<
        (),
        Error,
    >)
        ensures
            final(self)@ == old(self)@.ran(*indicators, id, now).0,
            r == outcome(old(self)@.ran(*indicators, id, now).1),
    {
        self.positions.clear_all();
        self.calc_indicators(indicators)?;
        let candle = self.get_candle()?;
        self.positions.handle_candle(&candle);
        self.run_strategy_with(id)?;
        self.positions.check_alerts_at(now)
    }

    /// Runs one cycle with the given indicator values. A position that the
    /// rules create gets a fresh random identifier; a live run dates its fills
    /// by the wall clock.
    pub fn run(&mut self, indicators: &Indicators) -> (r: Result<(), Error>)
        ensures
            exists|id: u128, now: Timestamp|
                {
                    &&& final(self)@ == (#[trigger] old(self)@.ran(*indicators, id, now)).0
                    &&& r == outcome(old(self)@.ran(*indicators, id, now).1)
                },
    {
        let id = fresh_id();
        let now = self.positions.clock();
        let r = self.run_with(indicators, id, now);
        r
    }

    /// Checks the pending orders between cycles, dating a fill `now` in a live
    /// run.
    pub fn check_at(&mut self, now: Timestamp) -> (r: Result<(), Error>)
        ensures
            final(self)@ == old(self)@.checked(now).0,
            r == outcome(old(self)@.checked(now).1),
    {
        self.positions.clear_closed_positions();
        self.positions.clear_trades();
        self.positions.check_alerts_at(now)
    }

    /// Checks the pending orders between cycles. A live run dates its fills by
    /// the wall clock.
    pub fn check(&mut self) -> (r: Result<(), Error>)
        ensures
            exists|now: Timestamp|
                {
                    &&& final(self)@ == (#[trigger] old(self)@.checked(now)).0
                    &&& r == outcome(old(self)@.checked(now).1)
                },
    {
        let now = self.positions.clock();
        let r = self.check_at(now);
        r
    }

    /// The parameters of the strategy.
    pub fn strategy_params(&self) -> (params: StrategyParams)
        ensures
            params == StrategyParams::T2TrendFriend(self@.params),
    {
        StrategyParams::T2TrendFriend(self.params)
    }

    /// The state that the strategy carries to its next cycle.
    pub fn strategy_state(&self) -> (state: StrategyState)
        ensures
            state matches StrategyState::T2TrendFriend(inner) && inner == self@.state,
    {
        StrategyState::T2TrendFriend(self.state)
    }

    /// What the robot persists and reports after a cycle, the reports timed
    /// `now` in a live run.
    pub fn robot_state_at(&self, now: Timestamp) -> (state: RobotState)
        ensures
            self@.positions.described_by(state@, now),
    {
        RobotState {
            position_last_num: Some(self.positions.position_last_num()),
            positions: Some(self.positions.positions_state()),
            alerts: Some(self.positions.alert_events_at(now)),
            trades: Some(self.positions.trade_events_at(now)),
        }
    }

    /// What the robot persists and reports after a cycle. A live run times the
    /// reports by the wall clock.
    pub fn robot_state(&self) -> (state: RobotState)
        ensures
            exists|now: Timestamp| self@.positions.described_by(state@, now),
    {
        let now = self.positions.clock();
        let state = self.robot_state_at(now);
        state
    }
}

/// The rules never hold two positions in the default slot. In a well formed
/// manager with at most one position in that slot, evaluating the rules leaves
/// a well formed manager with at most one: a position is created only while
/// the slot is empty.
pub proof fn lemma_rules_keep_one_default_position(strategy: StrategyView, id: u128)
    requires
        strategy.positions.wf(),
        strategy.positions.single_default(),
        strategy.ruled(id) is Ok,
    ensures
        strategy.ruled(id).unwrap().positions.wf(),
        strategy.ruled(id).unwrap().positions.single_default(),
{
    let before = strategy.positions;
    let after = strategy.ruled(id).unwrap().positions;
    if after != before {
        if before.has_prefix(default_prefix()) {
            let index = active_index(before.positions).unwrap();
            lemma_first_where(
                before.positions,
                |position: PositionView| position.prefix == default_prefix() && position.is_active(),
                0,
            );
            let position = before.positions[index];
            assert(position.wf());
            lemma_operations_keep_wf(
                position,
                None,
                TradeAction::CloseLong,
                OrderType::Market,
                0,
                arbitrary(),
                arbitrary(),
            );
            assert forall|i: int| 0 <= i < after.positions.len() implies (
            #[trigger] after.positions[i]).wf() && after.positions[i].code
                == before.positions[i].code && after.positions[i].prefix
                == before.positions[i].prefix by {
                assert(before.positions[i].wf());
            }
            assert forall|i: int, j: int| 0 <= i < j < after.positions.len() implies (
            #[trigger] after.positions[i]).code != (#[trigger] after.positions[j]).code by {
                assert(before.positions[i].code != before.positions[j].code);
            }
            assert forall|i: int, j: int| 0 <= i < j < after.positions.len() implies !((
            #[trigger] after.positions[i]).prefix == default_prefix() && (
            #[trigger] after.positions[j]).prefix == default_prefix()) by {
                assert(!(before.positions[i].prefix == default_prefix()
                    && before.positions[j].prefix == default_prefix()));
            }
        } else {
            let fresh = before.next_position(id, None, None);
            lemma_operations_keep_wf(
                fresh,
                None,
                TradeAction::Long,
                OrderType::Market,
                0,
                arbitrary(),
                arbitrary(),
            );
            assert forall|i: int| 0 <= i < after.positions.len() implies (
            #[trigger] after.positions[i]).wf() by {
                if i < before.positions.len() {
                    assert(before.positions[i].wf());
                }
            }
            assert forall|i: int, j: int| 0 <= i < j < after.positions.len() implies (
            #[trigger] after.positions[i]).code != (#[trigger] after.positions[j]).code by {
                if j == before.positions.len() {
                    assert(before.positions[i].code != fresh.code);
                } else {
                    assert(before.positions[i].code != before.positions[j].code);
                }
            }
            assert forall|i: int, j: int| 0 <= i < j < after.positions.len() implies !((
            #[trigger] after.positions[i]).prefix == default_prefix() && (
            #[trigger] after.positions[j]).prefix == default_prefix()) by {
                if j == before.positions.len() {
                    assert(before.positions[i].prefix != default_prefix());
                } else {
                    assert(before.positions[i].prefix != default_prefix());
                }
            }
        }
    }
}

/// A cycle and a check keep the manager well formed and never leave two
/// positions in the default slot, whether they end in an error or not.
pub proof fn lemma_cycle_keeps_one_default_position(
    strategy: StrategyView,
    indicators: Indicators,
    id: u128,
    now: Timestamp,
)
    requires
        strategy.positions.wf(),
        strategy.positions.single_default(),
    ensures
        strategy.ran(indicators, id, now).0.positions.wf(),
        strategy.ran(indicators, id, now).0.positions.single_default(),
        strategy.checked(now).0.positions.wf(),
        strategy.checked(now).0.positions.single_default(),
{
    let any = Candle {
        time: 0,
        timestamp: Timestamp { nanos: 0 },
        timeframe: 0,
        open: 0,
        high: 0,
        low: 0,
        close: 0,
        volume: 0,
    };
    let start = strategy.positions;
    lemma_operations_keep_manager_wf(start, any, now);
    lemma_operations_keep_single_default(start, any, now);
    let kept = start.without_closed();
    lemma_operations_keep_manager_wf(kept, any, now);
    lemma_operations_keep_single_default(kept, any, now);
    let blank = kept.without_trades();
    lemma_operations_keep_manager_wf(blank, any, now);
    lemma_operations_keep_single_default(blank, any, now);
    let quiet = kept.without_alerts();
    lemma_operations_keep_manager_wf(quiet, any, now);
    lemma_operations_keep_single_default(quiet, any, now);
    let cleared = quiet.without_trades();
    assert(cleared == strategy.cleared().positions);
    match strategy.cleared().with_indicators(indicators) {
        Err(_) => {},
        Ok(informed) => match informed.latest() {
            None => {},
            Some(candle) => {
                lemma_operations_keep_manager_wf(cleared, candle, now);
                lemma_operations_keep_single_default(cleared, candle, now);
                let shown = StrategyView {
                    positions: informed.positions.with_candle(candle),
                    ..informed
                };
                match shown.ruled(id) {
                    Err(_) => {},
                    Ok(ruled) => {
                        lemma_rules_keep_one_default_position(shown, id);
                        lemma_operations_keep_manager_wf(ruled.positions, any, now);
                        lemma_operations_keep_single_default(ruled.positions, any, now);
                    },
                }
            },
        },
    }
}

} // verus!
