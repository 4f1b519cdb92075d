//! The strategies that are named and have no rules yet. Such a strategy takes
//! in candles and keeps its positions checked, but refuses to run a cycle.

use vstd::prelude::*;
use crate::candle::{latest_candle, latest_of, slid, slide_window, window_view, Candle};
use crate::error::Error;
use crate::manager::{ManagerView, PositionManager};
use crate::robot::RobotState;
use crate::strategy::{StrategyOwnSettings, StrategyParams, StrategyState, StrategyType};
use crate::timestamp::Timestamp;

verus! {

/// The parameters of a strategy without rules.
#[derive(Clone, Copy, Debug, PartialEq, Eq, Structural)]
pub struct DummyStrategyParams {
    pub min_bars_to_hold: u8,
}

/// The state of a strategy without rules.
#[derive(Clone, Debug, PartialEq)]
pub struct DummyStrategyState {
    pub state: String,
}

/// A strategy without rules, with its positions and its window of candles.
#[derive(Debug)]
pub struct Strategy {
    settings: StrategyOwnSettings,
    params: DummyStrategyParams,
    state: DummyStrategyState,
    positions: PositionManager,
    candles: Option<Vec<Candle>>,
}

/// The contents of a strategy without rules.
pub struct StrategyView {
    pub settings: StrategyOwnSettings,
    pub params: DummyStrategyParams,
    pub state: Seq<char>,
    pub positions: ManagerView,
    /// The window of candles, oldest first; `None` before the first batch.
    pub candles: Option<Seq<Candle>>,
}

impl View for Strategy {
    type V = StrategyView;

    closed spec fn view(&self) -> StrategyView {
        StrategyView {
            settings: self.settings,
            params: self.params,
            state: self.state.state@,
            positions: self.positions@,
            candles: window_view(self.candles),
        }
    }
}

impl StrategyView {
    /// The latest candle of the window.
    pub open spec fn latest(self) -> Option<Candle> {
        latest_of(self.candles)
    }

    /// The strategy after one more candle: the window slides by one, and
    /// every position receives the candle.
    pub open spec fn ingested(self, candle: Candle) -> StrategyView {
        StrategyView {
            candles: slid(self.candles, candle),
            positions: self.positions.with_candle(candle),
            ..self
        }
    }

    /// The strategy at the start of a cycle: closed positions removed, pending
    /// orders and recorded fills dropped.
    pub open spec fn cleared(self) -> StrategyView {
        StrategyView {
            positions: self.positions.without_closed().without_alerts().without_trades(),
            ..self
        }
    }

    /// What a check between cycles does: closed positions are removed, the
    /// recorded fills dropped, and the pending orders resolved against the
    /// latest candle.
    pub open spec fn checked(self, now: Timestamp) -> (StrategyView, Option<Error>) {
        let swept = self.positions.without_closed().without_trades();
        (StrategyView { positions: swept.swept(now), ..self }, swept.sweep_error(now))
    }
}

/// Whether `state` is the state `text` of a strategy without rules, under the
/// variant of its strategy type. The type with rules has a state of its own
/// kind, so a strategy without rules that bears that type reports under the
/// first variant.
pub open spec fn is_state_of(state: StrategyState, strategy_type: StrategyType, text: Seq<char>) -> bool {
    match strategy_type {
        StrategyType::Breakout | StrategyType::T2TrendFriend => state matches StrategyState::Breakout(
            inner,
        ) && inner.state@ == text,
        StrategyType::BreakoutV2 => state matches StrategyState::BreakoutV2(inner) && inner.state@
            == text,
        StrategyType::Channels => state matches StrategyState::Channels(inner) && inner.state@
            == text,
        StrategyType::CounterCandle => state matches StrategyState::CounterCandle(inner)
            && inner.state@ == text,
        StrategyType::DoubleReverseMM => state matches StrategyState::DoubleReverseMM(inner)
            && inner.state@ == text,
        StrategyType::FxCash => state matches StrategyState::FxCash(inner) && inner.state@ == text,
        StrategyType::IRSTS => state matches StrategyState::IRSTS(inner) && inner.state@ == text,
        StrategyType::Parabolic => state matches StrategyState::Parabolic(inner) && inner.state@
            == text,
        StrategyType::TrendlingLong => state matches StrategyState::TrendlingLong(inner)
            && inner.state@ == text,
        StrategyType::TrendlingShort => state matches StrategyState::TrendlingShort(inner)
            && inner.state@ == text,
    }
}

/// The parameters of a strategy without rules, under the variant of its
/// strategy type. The type with rules has parameters of its own kind, so a
/// strategy without rules that bears that type reports under the first variant.
pub open spec fn params_of(strategy_type: StrategyType, params: DummyStrategyParams) -> StrategyParams {
    match strategy_type {
        StrategyType::Breakout | StrategyType::T2TrendFriend => StrategyParams::Breakout(params),
        StrategyType::BreakoutV2 => StrategyParams::BreakoutV2(params),
        StrategyType::Channels => StrategyParams::Channels(params),
        StrategyType::CounterCandle => StrategyParams::CounterCandle(params),
        StrategyType::DoubleReverseMM => StrategyParams::DoubleReverseMM(params),
        StrategyType::FxCash => StrategyParams::FxCash(params),
        StrategyType::IRSTS => StrategyParams::IRSTS(params),
        StrategyType::Parabolic => StrategyParams::Parabolic(params),
        StrategyType::TrendlingLong => StrategyParams::TrendlingLong(params),
        StrategyType::TrendlingShort => StrategyParams::TrendlingShort(params),
    }
}

impl Strategy {
    /// The parameters of the strategy, under the variant of its strategy
    /// type.
    pub fn strategy_params(&self) -> (params: StrategyParams)
        ensures
            params == params_of(self@.settings.strategy_type, self@.params),
    {
        match self.settings.strategy_type {
            StrategyType::Breakout => StrategyParams::Breakout(self.params),
            StrategyType::BreakoutV2 => StrategyParams::BreakoutV2(self.params),
            StrategyType::Channels => StrategyParams::Channels(self.params),
            StrategyType::CounterCandle => StrategyParams::CounterCandle(self.params),
            StrategyType::DoubleReverseMM => StrategyParams::DoubleReverseMM(self.params),
            StrategyType::FxCash => StrategyParams::FxCash(self.params),
            StrategyType::IRSTS => StrategyParams::IRSTS(self.params),
            StrategyType::Parabolic => StrategyParams::Parabolic(self.params),
            StrategyType::T2TrendFriend => StrategyParams::Breakout(self.params),
            StrategyType::TrendlingLong => StrategyParams::TrendlingLong(self.params),
            StrategyType::TrendlingShort => StrategyParams::TrendlingShort(self.params),
        }
    }

    /// Makes the strategy, with no window of candles yet.
    pub fn new(
        settings: StrategyOwnSettings,
        params: DummyStrategyParams,
        state: DummyStrategyState,
        positions: PositionManager,
    ) -> (strategy: Strategy)
        ensures
            strategy@ == (StrategyView {
                settings,
                params,
                state: state.state@,
                positions: positions@,
                candles: None,
            }),
    {
        Strategy { settings, params, state, positions, candles: None }
    }

    /// The latest candle of the window, or `NoCandleAvailable`.
    pub fn get_candle(&self) -> (r: Result<Candle, Error>)
        ensures
            r == match self@.latest() {
                Some(candle) => Ok::<Candle, Error>(candle),
                None => Err(Error::NoCandleAvailable),
            },
    {
        latest_candle(&self.candles)
    }

    /// The positions of the strategy.
    pub fn positions(&self) -> (positions: &PositionManager)
        ensures
            positions@ == self@.positions,
    {
        &self.positions
    }

    /// Replaces the window of candles by a batch. An empty batch is refused
    /// with `EmptyCandleBatch` and changes nothing.
    pub fn handle_candles(&mut self, candles: Vec<Candle>) -> (r: Result<(), Error>)
        ensures
            candles@.len() == 0 ==> r == Err::<(), Error>(Error::EmptyCandleBatch) && final(self)@
                == old(self)@,
            candles@.len() > 0 ==> r is Ok && final(self)@ == (StrategyView {
                candles: Some(candles@),
                ..old(self)@
            }),
    {
        if candles.len() == 0 {
            return Err(Error::EmptyCandleBatch);
        }
        self.candles = Some(candles);
        Ok(())
    }

    /// Takes in one more candle: the window slides by one and every position
    /// receives the candle.
    pub fn handle_candle(&mut self, candle: Candle) -> (r: Result<(), Error>)
        ensures
            r is Ok,
            final(self)@ == old(self)@.ingested(candle),
    {
        slide_window(&mut self.candles, candle);
        self.positions.handle_candle(&candle);
        Ok(())
    }

    /// There are no indicators to take in: always `NotImplemented`.
    pub fn calc_indicators(&mut self) -> (r: Result<(), Error>)
        ensures
            r == Err::<(), Error>(Error::NotImplemented),
            final(self)@ == old(self)@,
    {
        Err(Error::NotImplemented)
    }

    /// There are no rules to evaluate: always `NotImplemented`.
    pub fn run_strategy(&mut self) -> (r: Result<(), Error>)
        ensures
            r == Err::<(), Error>(Error::NotImplemented),
            final(self)@ == old(self)@,
    {
        Err(Error::NotImplemented)
    }

    /// Starts a cycle as every strategy does, by clearing, and then refuses
    /// with `NotImplemented`.
    pub fn run(&mut self) -> (r: Result<(), Error>)
        ensures
            r == Err::<(), Error>(Error::NotImplemented),
            final(self)@ == old(self)@.cleared(),
    {
        self.positions.clear_all();
        self.calc_indicators()?;
        self.run_strategy()?;
        Ok(())
    }

    /// Checks the pending orders between cycles, dating a fill `now` in a live
    /// run.
    pub fn check_at(&mut self, now: Timestamp) -> (r: Result<(), Error>)
        ensures
            final(self)@ == old(self)@.checked(now).0,
            r == match old(self)@.checked(now).1 {
                Some(error) => Err::<(), Error>(error),
                None => Ok(()),
            },
    {
        self.positions.clear_closed_positions();
        self.positions.clear_trades();
        self.positions.check_alerts_at(now)
    }

    /// Checks the pending orders between cycles. A live run dates its fills by
    /// the wall clock.
    pub fn check(&mut self) -> (r: Result<(), Error>)
        ensures
            exists|now: Timestamp|
                {
                    &&& final(self)@ == (#[trigger] old(self)@.checked(now)).0
                    &&& r == match old(self)@.checked(now).1 {
                        Some(error) => Err::<(), Error>(error),
                        None => Ok(()),
                    }
                },
    {
        let now = self.positions.clock();
        let r = self.check_at(now);
        r
    }

    /// The state that the strategy carries to its next cycle, under the
    /// variant of its strategy type.
    pub fn strategy_state(&self) -> (state: StrategyState)
        ensures
            is_state_of(state, self@.settings.strategy_type, self@.state),
    {
        let inner = DummyStrategyState { state: self.state.state.clone() };
        match self.settings.strategy_type {
            StrategyType::Breakout => StrategyState::Breakout(inner),
            StrategyType::BreakoutV2 => StrategyState::BreakoutV2(inner),
            StrategyType::Channels => StrategyState::Channels(inner),
            StrategyType::CounterCandle => StrategyState::CounterCandle(inner),
            StrategyType::DoubleReverseMM => StrategyState::DoubleReverseMM(inner),
            StrategyType::FxCash => StrategyState::FxCash(inner),
            StrategyType::IRSTS => StrategyState::IRSTS(inner),
            StrategyType::Parabolic => StrategyState::Parabolic(inner),
            StrategyType::T2TrendFriend => StrategyState::Breakout(inner),
            StrategyType::TrendlingLong => StrategyState::TrendlingLong(inner),
            StrategyType::TrendlingShort => StrategyState::TrendlingShort(inner),
        }
    }

    /// What the robot persists and reports, the reports timed `now` in a live
    /// run.
    pub fn robot_state_at(&self, now: Timestamp) -> (state: RobotState)
        ensures
            self@.positions.described_by(state@, now),
    {
        RobotState {
            position_last_num: Some(self.positions.position_last_num()),
            positions: Some(self.positions.positions_state()),
            alerts: Some(self.positions.alert_events_at(now)),
            trades: Some(self.positions.trade_events_at(now)),
        }
    }

    /// What the robot persists and reports. A live run times the reports by
    /// the wall clock.
    pub fn robot_state(&self) -> (state: RobotState)
        ensures
            exists|now: Timestamp| self@.positions.described_by(state@, now),
    {
        let now = self.positions.clock();
        let state = self.robot_state_at(now);
        state
    }
}

} // verus!
