//! The robot: one strategy on one market, and what it reports to its host.

use vstd::prelude::*;
use crate::candle::Candle;
use crate::error::Error;
use crate::records::{PositionState, PositionStateView, SignalEvent, SignalEventView};
use crate::strategy::t2_trend_friend::{outcome, Indicators};
use crate::strategy::{
    Strategy, StrategyModel, StrategyParams, StrategySettings, StrategySettingsView, StrategyState,
};
use crate::timestamp::Timestamp;

verus! {

/// The settings of a robot.
#[derive(Clone, Debug, PartialEq)]
pub struct RobotSettings {
    pub exchange: String,
    /// Length of the candles in minutes.
    pub timeframe: u16,
    pub strategy_settings: StrategySettings,
}

/// The contents of a `RobotSettings`.
pub struct RobotSettingsView {
    pub exchange: Seq<char>,
    pub timeframe: u16,
    pub strategy_settings: StrategySettingsView,
}

impl View for RobotSettings {
    type V = RobotSettingsView;

    open spec fn view(&self) -> RobotSettingsView {
        RobotSettingsView {
            exchange: self.exchange@,
            timeframe: self.timeframe,
            strategy_settings: self.strategy_settings@,
        }
    }
}

/// What a robot persists and reports between cycles: the sequence counter,
/// the positions, and the alerts and trades since the last report.
#[derive(Clone, Debug, PartialEq)]
pub struct RobotState {
    pub position_last_num: Option<u32>,
    pub positions: Option<Vec<PositionState>>,
    pub alerts: Option<Vec<SignalEvent>>,
    pub trades: Option<Vec<SignalEvent>>,
}

/// The contents of a `RobotState`.
pub struct RobotStateView {
    pub position_last_num: Option<u32>,
    pub positions: Option<Seq<PositionStateView>>,
    pub alerts: Option<Seq<SignalEventView>>,
    pub trades: Option<Seq<SignalEventView>>,
}

impl View for RobotState {
    type V = RobotStateView;

    open spec fn view(&self) -> RobotStateView {
        RobotStateView {
            position_last_num: self.position_last_num,
            positions: self.positions.deep_view(),
            alerts: self.alerts.deep_view(),
            trades: self.trades.deep_view(),
        }
    }
}

/// One strategy on one market.
#[derive(Debug)]
pub struct Robot {
    settings: RobotSettings,
    strategy: Strategy,
}

/// The contents of a robot.
pub struct RobotView {
    pub settings: RobotSettingsView,
    pub strategy: StrategyModel,
}

impl View for Robot {
    type V = RobotView;

    closed spec fn view(&self) -> RobotView {
        RobotView { settings: self.settings@, strategy: self.strategy@ }
    }
}

impl Robot {
    /// Makes a robot from its settings, what it persisted, and the parameters
    /// and the state of its strategy.
    pub fn new(
        settings: RobotSettings,
        state: RobotState,
        strategy_params: StrategyParams,
        strategy_state: StrategyState,
    ) -> (r: Result<Robot, Error>)
        ensures
            match StrategyModel::made(
                settings@.strategy_settings,
                strategy_params,
                strategy_state,
                state@,
            ) {
                Ok(model) => r matches Ok(robot) && robot@ == (RobotView {
                    settings: settings@,
                    strategy: model,
                }),
                Err(error) => r matches Err(e) && e == error,
            },
    {
        let strategy_settings = StrategySettings {
            strategy_type: settings.strategy_settings.strategy_type.clone(),
            backtest: settings.strategy_settings.backtest,
        };
        let strategy = Strategy::new(strategy_settings, strategy_params, strategy_state, state)?;
        Ok(Robot { settings, strategy })
    }

    /// Replaces the window of candles by a batch. An empty batch is refused
    /// with `EmptyCandleBatch` and changes nothing.
    pub fn handle_candles(&mut self, candles: Vec<Candle>) -> (r: Result<(), Error>)
        ensures
            candles@.len() == 0 ==> r == Err::<(), Error>(Error::EmptyCandleBatch) && final(self)@
                == old(self)@,
            candles@.len() > 0 ==> r is Ok && final(self)@ == (RobotView {
                strategy: old(self)@.strategy.batched(candles@),
                ..old(self)@
            }),
    {
        self.strategy.handle_candles(candles)
    }

    /// Takes in one more candle.
    pub fn handle_candle(&mut self, candle: Candle) -> (r: Result<(), Error>)
        ensures
            r is Ok,
            final(self)@ == (RobotView {
                strategy: old(self)@.strategy.ingested(candle),
                ..old(self)@
            }),
    {
        self.strategy.handle_candle(candle)
    }

    /// Runs one cycle with the given indicator values. A position that the
    /// rules create gets the identifier `id`; a fill in a live run is dated
    /// `now`.
    pub fn run_with(&mut self, indicators: &Indicators, id: u128, now: Timestamp) -> (r: Result<
        (),
        Error,
    >)
        ensures
            final(self)@ == (RobotView {
                strategy: old(self)@.strategy.ran(*indicators, id, now).0,
                ..old(self)@
            }),
            r == outcome(old(self)@.strategy.ran(*indicators, id, now).1),
    {
        self.strategy.run_with(indicators, id, now)
    }

    /// Runs one cycle with the given indicator values. A position that the
    /// rules create gets a fresh random identifier; a live run dates its fills
    /// by the wall clock.
    pub fn run(&mut self, indicators: &Indicators) -> (r: Result<(), Error>)
        ensures
            exists|id: u128, now: Timestamp|
                {
                    &&& final(self)@ == (RobotView {
                        strategy: (#[trigger] old(self)@.strategy.ran(*indicators, id, now)).0,
                        ..old(self)@
                    })
                    &&& r == outcome(old(self)@.strategy.ran(*indicators, id, now).1)
                },
    {
        self.strategy.run(indicators)
    }

    /// Checks the pending orders between cycles, dating a fill `now` in a live
    /// run.
    pub fn check_at(&mut self, now: Timestamp) -> (r: Result<(), Error>)
        ensures
            final(self)@ == (RobotView {
                strategy: old(self)@.strategy.checked(now).0,
                ..old(self)@
            }),
            r == outcome(old(self)@.strategy.checked(now).1),
    {
        self.strategy.check_at(now)
    }

    /// Checks the pending orders between cycles. A live run dates its fills by
    /// the wall clock.
    pub fn check(&mut self) -> (r: Result<(), Error>)
        ensures
            exists|now: Timestamp|
                {
                    &&& final(self)@ == (RobotView {
                        strategy: (#[trigger] old(self)@.strategy.checked(now)).0,
                        ..old(self)@
                    })
                    &&& r == outcome(old(self)@.strategy.checked(now).1)
                },
    {
        self.strategy.check()
    }

    /// What the robot persists and reports, the reports timed `now` in a live
    /// run.
    pub fn robot_state_at(&self, now: Timestamp) -> (state: RobotState)
        ensures
            self@.strategy.positions().described_by(state@, now),
    {
        self.strategy.robot_state_at(now)
    }

    /// What the robot persists and reports. A live run times the reports by
    /// the wall clock.
    pub fn robot_state(&self) -> (state: RobotState)
        ensures
            exists|now: Timestamp| self@.strategy.positions().described_by(state@, now),
    {
        self.strategy.robot_state()
    }

    /// The state that the strategy carries to its next cycle.
    pub fn strategy_state(&self) -> (state: StrategyState)
        ensures
            self@.strategy.carries(state),
    {
        self.strategy.strategy_state()
    }

    /// The state that the strategy carries to its next cycle.
    pub fn state(&self) -> (state: StrategyState)
        ensures
            self@.strategy.carries(state),
    {
        self.strategy.strategy_state()
    }

    /// The parameters of the strategy.
    pub fn strategy_params(&self) -> (params: StrategyParams)
        ensures
            params == self@.strategy.params(),
    {
        self.strategy.strategy_params()
    }

    /// The settings of the robot.
    pub fn settings(&self) -> (settings: RobotSettings)
        ensures
            settings@ == self@.settings,
    {
        RobotSettings {
            exchange: self.settings.exchange.clone(),
            timeframe: self.settings.timeframe,
            strategy_settings: StrategySettings {
                strategy_type: self.settings.strategy_settings.strategy_type.clone(),
                backtest: self.settings.strategy_settings.backtest,
            },
        }
    }
}

} // verus!
