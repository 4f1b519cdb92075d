//! Strategies: the rules that raise orders, and the cycle that feeds them
//! candles and indicator values.

use vstd::prelude::*;
use vstd::string::StringExecFns;
use crate::candle::Candle;
use crate::error::Error;
use crate::manager::{rehydrated, ManagerView, PositionManager};
use crate::robot::{RobotState, RobotStateView};
use crate::strategy::dummy::{is_state_of, params_of, DummyStrategyParams, DummyStrategyState};
use crate::strategy::t2_trend_friend::{
    outcome, Indicators, T2TrendFriendStrategyParams, T2TrendFriendStrategyState,
};
use crate::timestamp::Timestamp;

pub mod dummy;
pub mod t2_trend_friend;

verus! {

/// The strategies that a robot can be asked for. Only `T2TrendFriend` has
/// rules; the others are named and not yet implemented.
#[derive(Clone, Copy, Debug, PartialEq, Eq, Structural)]
pub enum StrategyType {
    Breakout,
    BreakoutV2,
    Channels,
    CounterCandle,
    DoubleReverseMM,
    FxCash,
    IRSTS,
    Parabolic,
    T2TrendFriend,
    TrendlingLong,
    TrendlingShort,
}

impl StrategyType {
    /// The wire token of the strategy type.
    pub open spec fn token(self) -> Seq<char> {
        match self {
            StrategyType::Breakout => "breakout"@,
            StrategyType::BreakoutV2 => "breakout_v2"@,
            StrategyType::Channels => "channels"@,
            StrategyType::CounterCandle => "counter_candle"@,
            StrategyType::DoubleReverseMM => "double_reverse_mm"@,
            StrategyType::FxCash => "fx_cash"@,
            StrategyType::IRSTS => "irsts"@,
            StrategyType::Parabolic => "parabolic"@,
            StrategyType::T2TrendFriend => "t2_trend_friend"@,
            StrategyType::TrendlingLong => "trendling_long"@,
            StrategyType::TrendlingShort => "trendling_short"@,
        }
    }

    /// The strategy type that a wire token names, if it names one.
    pub open spec fn from_token(token: Seq<char>) -> Option<StrategyType> {
        if token == "breakout"@ {
            Some(StrategyType::Breakout)
        } else if token == "breakout_v2"@ {
            Some(StrategyType::BreakoutV2)
        } else if token == "channels"@ {
            Some(StrategyType::Channels)
        } else if token == "counter_candle"@ {
            Some(StrategyType::CounterCandle)
        } else if token == "double_reverse_mm"@ {
            Some(StrategyType::DoubleReverseMM)
        } else if token == "fx_cash"@ {
            Some(StrategyType::FxCash)
        } else if token == "irsts"@ {
            Some(StrategyType::IRSTS)
        } else if token == "parabolic"@ {
            Some(StrategyType::Parabolic)
        } else if token == "t2_trend_friend"@ {
            Some(StrategyType::T2TrendFriend)
        } else if token == "trendling_long"@ {
            Some(StrategyType::TrendlingLong)
        } else if token == "trendling_short"@ {
            Some(StrategyType::TrendlingShort)
        } else {
            None
        }
    }

    /// What reading a wire token gives: the strategy type it names, or the
    /// error.
    pub open spec fn parsed(token: Seq<char>) -> Result<StrategyType, Error> {
        match Self::from_token(token) {
            Some(value) => Ok(value),
            None => Err(Error::InvalidEnumValue),
        }
    }

    /// Reads a strategy type from its wire token.
    pub fn from_str(token: &String) -> (r: Result<StrategyType, Error>)
        ensures
            r == Self::parsed(token@),
    {
        if *token == String::from_str("breakout") {
            Ok(StrategyType::Breakout)
        } else if *token == String::from_str("breakout_v2") {
            Ok(StrategyType::BreakoutV2)
        } else if *token == String::from_str("channels") {
            Ok(StrategyType::Channels)
        } else if *token == String::from_str("counter_candle") {
            Ok(StrategyType::CounterCandle)
        } else if *token == String::from_str("double_reverse_mm") {
            Ok(StrategyType::DoubleReverseMM)
        } else if *token == String::from_str("fx_cash") {
            Ok(StrategyType::FxCash)
        } else if *token == String::from_str("irsts") {
            Ok(StrategyType::IRSTS)
        } else if *token == String::from_str("parabolic") {
            Ok(StrategyType::Parabolic)
        } else if *token == String::from_str("t2_trend_friend") {
            Ok(StrategyType::T2TrendFriend)
        } else if *token == String::from_str("trendling_long") {
            Ok(StrategyType::TrendlingLong)
        } else if *token == String::from_str("trendling_short") {
            Ok(StrategyType::TrendlingShort)
        } else {
            Err(Error::InvalidEnumValue)
        }
    }

    /// Writes the wire token of the strategy type.
    pub fn as_str(&self) -> (r: String)
        ensures
            r@ == self.token(),
    {
        match self {
            StrategyType::Breakout => String::from_str("breakout"),
            StrategyType::BreakoutV2 => String::from_str("breakout_v2"),
            StrategyType::Channels => String::from_str("channels"),
            StrategyType::CounterCandle => String::from_str("counter_candle"),
            StrategyType::DoubleReverseMM => String::from_str("double_reverse_mm"),
            StrategyType::FxCash => String::from_str("fx_cash"),
            StrategyType::IRSTS => String::from_str("irsts"),
            StrategyType::Parabolic => String::from_str("parabolic"),
            StrategyType::T2TrendFriend => String::from_str("t2_trend_friend"),
            StrategyType::TrendlingLong => String::from_str("trendling_long"),
            StrategyType::TrendlingShort => String::from_str("trendling_short"),
        }
    }
}

/// Reading the token that was written for a strategy type gives that strategy
/// type back.
pub proof fn lemma_strategy_type_token_round_trip(value: StrategyType)
    ensures
        StrategyType::from_token(value.token()) == Some(value),
{
    reveal_strlit("breakout");
    reveal_strlit("breakout_v2");
    reveal_strlit("channels");
    reveal_strlit("counter_candle");
    reveal_strlit("double_reverse_mm");
    reveal_strlit("fx_cash");
    reveal_strlit("irsts");
    reveal_strlit("parabolic");
    reveal_strlit("t2_trend_friend");
    reveal_strlit("trendling_long");
    reveal_strlit("trendling_short");
    assert("breakout"@.len() == 8);
    assert("breakout_v2"@.len() == 11);
    assert("channels"@.len() == 8);
    assert("counter_candle"@.len() == 14);
    assert("double_reverse_mm"@.len() == 17);
    assert("fx_cash"@.len() == 7);
    assert("irsts"@.len() == 5);
    assert("parabolic"@.len() == 9);
    assert("t2_trend_friend"@.len() == 15);
    assert("trendling_long"@.len() == 14);
    assert("trendling_short"@.len() == 15);
    assert("breakout"@[0] != "channels"@[0]);
    assert("counter_candle"@[0] != "trendling_long"@[0]);
    assert("t2_trend_friend"@[1] != "trendling_short"@[1]);
}

/// The settings of a strategy as they arrive from the host: the strategy type
/// is still a wire token.
#[derive(Clone, Debug, PartialEq)]
pub struct StrategySettings {
    pub strategy_type: String,
    pub backtest: bool,
}

/// The contents of a `StrategySettings`.
pub struct StrategySettingsView {
    pub strategy_type: Seq<char>,
    pub backtest: bool,
}

impl View for StrategySettings {
    type V = StrategySettingsView;

    open spec fn view(&self) -> StrategySettingsView {
        StrategySettingsView { strategy_type: self.strategy_type@, backtest: self.backtest }
    }
}

/// The settings of a strategy.
#[derive(Clone, Copy, Debug, PartialEq, Eq, Structural)]
pub struct StrategyOwnSettings {
    pub strategy_type: StrategyType,
    pub backtest: bool,
}

/// The parameters of a strategy, by strategy type.
#[derive(Clone, Copy, Debug, PartialEq, Eq, Structural)]
pub enum StrategyParams {
    Breakout(DummyStrategyParams),
    BreakoutV2(DummyStrategyParams),
    Channels(DummyStrategyParams),
    CounterCandle(DummyStrategyParams),
    DoubleReverseMM(DummyStrategyParams),
    FxCash(DummyStrategyParams),
    IRSTS(DummyStrategyParams),
    Parabolic(DummyStrategyParams),
    T2TrendFriend(T2TrendFriendStrategyParams),
    TrendlingLong(DummyStrategyParams),
    TrendlingShort(DummyStrategyParams),
}

/// The state of a strategy, by strategy type.
#[derive(Clone, Debug, PartialEq)]
pub enum StrategyState {
    Breakout(DummyStrategyState),
    BreakoutV2(DummyStrategyState),
    Channels(DummyStrategyState),
    CounterCandle(DummyStrategyState),
    DoubleReverseMM(DummyStrategyState),
    FxCash(DummyStrategyState),
    IRSTS(DummyStrategyState),
    Parabolic(DummyStrategyState),
    T2TrendFriend(T2TrendFriendStrategyState),
    TrendlingLong(DummyStrategyState),
    TrendlingShort(DummyStrategyState),
}

/// A strategy of any type.
#[derive(Debug)]
pub enum Strategy {
    Breakout(dummy::Strategy),
    BreakoutV2(dummy::Strategy),
    Channels(dummy::Strategy),
    CounterCandle(dummy::Strategy),
    DoubleReverseMM(dummy::Strategy),
    FxCash(dummy::Strategy),
    IRSTS(dummy::Strategy),
    Parabolic(dummy::Strategy),
    T2TrendFriend(t2_trend_friend::Strategy),
    TrendlingLong(dummy::Strategy),
    TrendlingShort(dummy::Strategy),
}

/// The contents of a strategy of any type: those of the strategy with rules,
/// or those of a strategy without.
pub enum StrategyModel {
    Dummy(dummy::StrategyView),
    T2TrendFriend(t2_trend_friend::StrategyView),
}

impl View for Strategy {
    type V = StrategyModel;

    open spec fn view(&self) -> StrategyModel {
        match self {
            Strategy::Breakout(strategy) => StrategyModel::Dummy(strategy@),
            Strategy::BreakoutV2(strategy) => StrategyModel::Dummy(strategy@),
            Strategy::Channels(strategy) => StrategyModel::Dummy(strategy@),
            Strategy::CounterCandle(strategy) => StrategyModel::Dummy(strategy@),
            Strategy::DoubleReverseMM(strategy) => StrategyModel::Dummy(strategy@),
            Strategy::FxCash(strategy) => StrategyModel::Dummy(strategy@),
            Strategy::IRSTS(strategy) => StrategyModel::Dummy(strategy@),
            Strategy::Parabolic(strategy) => StrategyModel::Dummy(strategy@),
            Strategy::TrendlingLong(strategy) => StrategyModel::Dummy(strategy@),
            Strategy::TrendlingShort(strategy) => StrategyModel::Dummy(strategy@),
            Strategy::T2TrendFriend(strategy) => StrategyModel::T2TrendFriend(strategy@),
        }
    }
}

impl StrategyModel {
    /// The positions of the strategy.
    pub open spec fn positions(self) -> ManagerView {
        match self {
            StrategyModel::Dummy(strategy) => strategy.positions,
            StrategyModel::T2TrendFriend(strategy) => strategy.positions,
        }
    }

    /// What making a strategy from its persisted parts gives. Only the type
    /// with rules can be made, and only from parameters and a state of its own
    /// kind; the type token and the persisted positions must be readable.
    pub open spec fn made(
        settings: StrategySettingsView,
        params: StrategyParams,
        state: StrategyState,
        robot_state: RobotStateView,
    ) -> Result<StrategyModel, Error> {
        match (state, params) {
            (
                StrategyState::T2TrendFriend(own_state),
                StrategyParams::T2TrendFriend(own_params),
            ) => match StrategyType::parsed(settings.strategy_type) {
                Err(error) => Err(error),
                Ok(StrategyType::T2TrendFriend) => match rehydrated(
                    match robot_state.positions {
                        Some(records) => records,
                        None => Seq::empty(),
                    },
                    settings.backtest,
                ) {
                    Err(error) => Err(error),
                    Ok(positions) => Ok(
                        StrategyModel::T2TrendFriend(
                            t2_trend_friend::StrategyView {
                                settings: StrategyOwnSettings {
                                    strategy_type: StrategyType::T2TrendFriend,
                                    backtest: settings.backtest,
                                },
                                params: own_params,
                                state: own_state,
                                positions: ManagerView {
                                    last_position_num: match robot_state.position_last_num {
                                        Some(number) => number,
                                        None => 0,
                                    },
                                    positions,
                                    candle: None,
                                    backtest: settings.backtest,
                                },
                                candles: None,
                            },
                        ),
                    ),
                },
                Ok(_) => Err(Error::NotImplemented),
            },
            _ => Err(Error::NotImplemented),
        }
    }

    /// The strategy with a batch of candles as its window.
    pub open spec fn batched(self, candles: Seq<Candle>) -> StrategyModel {
        match self {
            StrategyModel::Dummy(strategy) => StrategyModel::Dummy(
                dummy::StrategyView { candles: Some(candles), ..strategy },
            ),
            StrategyModel::T2TrendFriend(strategy) => StrategyModel::T2TrendFriend(
                t2_trend_friend::StrategyView { candles: Some(candles), ..strategy },
            ),
        }
    }

    /// The strategy after one more candle.
    pub open spec fn ingested(self, candle: Candle) -> StrategyModel {
        match self {
            StrategyModel::Dummy(strategy) => StrategyModel::Dummy(strategy.ingested(candle)),
            StrategyModel::T2TrendFriend(strategy) => StrategyModel::T2TrendFriend(
                strategy.ingested(candle),
            ),
        }
    }

    /// What one cycle does: the strategy after it, and the error that ended
    /// it if one did. A strategy without rules clears and refuses.
    pub open spec fn ran(self, indicators: Indicators, id: u128, now: Timestamp) -> (
        StrategyModel,
        Option<Error>,
    ) {
        match self {
            StrategyModel::Dummy(strategy) => (
                StrategyModel::Dummy(strategy.cleared()),
                Some(Error::NotImplemented),
            ),
            StrategyModel::T2TrendFriend(strategy) => (
                StrategyModel::T2TrendFriend(strategy.ran(indicators, id, now).0),
                strategy.ran(indicators, id, now).1,
            ),
        }
    }

    /// What a check between cycles does: the strategy after it, and the error
    /// that ended it if one did.
    pub open spec fn checked(self, now: Timestamp) -> (StrategyModel, Option<Error>) {
        match self {
            StrategyModel::Dummy(strategy) => (
                StrategyModel::Dummy(strategy.checked(now).0),
                strategy.checked(now).1,
            ),
            StrategyModel::T2TrendFriend(strategy) => (
                StrategyModel::T2TrendFriend(strategy.checked(now).0),
                strategy.checked(now).1,
            ),
        }
    }

    /// The parameters of the strategy.
    pub open spec fn params(self) -> StrategyParams {
        match self {
            StrategyModel::Dummy(strategy) => params_of(
                strategy.settings.strategy_type,
                strategy.params,
            ),
            StrategyModel::T2TrendFriend(strategy) => StrategyParams::T2TrendFriend(strategy.params),
        }
    }

    /// Whether `state` is the state that the strategy carries to its next
    /// cycle.
    pub open spec fn carries(self, state: StrategyState) -> bool {
        match self {
            StrategyModel::Dummy(strategy) => is_state_of(
                state,
                strategy.settings.strategy_type,
                strategy.state,
            ),
            StrategyModel::T2TrendFriend(strategy) => state matches StrategyState::T2TrendFriend(
                inner,
            ) && inner == strategy.state,
        }
    }
}

impl Strategy {
    /// Makes a strategy from its settings, its parameters, its state and what
    /// the robot persisted.
    pub fn new(
        strategy_settings: StrategySettings,
        strategy_params: StrategyParams,
        strategy_state: StrategyState,
        robot_state: RobotState,
    ) -> (r: Result<Strategy, Error>)
        ensures
            match StrategyModel::made(
                strategy_settings@,
                strategy_params,
                strategy_state,
                robot_state@,
            ) {
                Ok(model) => r matches Ok(strategy) && strategy@ == model,
                Err(error) => r matches Err(e) && e == error,
            },
    {
        let state = match strategy_state {
            StrategyState::T2TrendFriend(state) => state,
            _ => {
                return Err(Error::NotImplemented);
            },
        };
        let params = match strategy_params {
            StrategyParams::T2TrendFriend(params) => params,
            _ => {
                return Err(Error::NotImplemented);
            },
        };
        let strategy_type = StrategyType::from_str(&strategy_settings.strategy_type)?;
        let strategy_own_settings = StrategyOwnSettings {
            strategy_type,
            backtest: strategy_settings.backtest,
        };
        match strategy_type {
            StrategyType::T2TrendFriend => {
                let positions = PositionManager::new(
                    &robot_state.positions,
                    &robot_state.position_last_num,
                    strategy_settings.backtest,
                )?;
                Ok(
                    Strategy::T2TrendFriend(
                        t2_trend_friend::Strategy::new(
                            strategy_own_settings,
                            params,
                            state,
                            positions,
                        ),
                    ),
                )
            },
            _ => Err(Error::NotImplemented),
        }
    }

    /// Replaces the window of candles by a batch. An empty batch is refused
    /// with `EmptyCandleBatch` and changes nothing.
    pub fn handle_candles(&mut self, candles: Vec<Candle>) -> (r: Result<(), Error>)
        ensures
            candles@.len() == 0 ==> r == Err::<(), Error>(Error::EmptyCandleBatch) && final(self)@
                == old(self)@,
            candles@.len() > 0 ==> r is Ok && final(self)@ == old(self)@.batched(candles@),
    {
        match self {
            Strategy::Breakout(strategy) => strategy.handle_candles(candles),
            Strategy::BreakoutV2(strategy) => strategy.handle_candles(candles),
            Strategy::Channels(strategy) => strategy.handle_candles(candles),
            Strategy::CounterCandle(strategy) => strategy.handle_candles(candles),
            Strategy::DoubleReverseMM(strategy) => strategy.handle_candles(candles),
            Strategy::FxCash(strategy) => strategy.handle_candles(candles),
            Strategy::IRSTS(strategy) => strategy.handle_candles(candles),
            Strategy::Parabolic(strategy) => strategy.handle_candles(candles),
            Strategy::T2TrendFriend(strategy) => strategy.handle_candles(candles),
            Strategy::TrendlingLong(strategy) => strategy.handle_candles(candles),
            Strategy::TrendlingShort(strategy) => strategy.handle_candles(candles),
        }
    }

    /// Takes in one more candle: the window slides by one and every position
    /// receives the candle.
    pub fn handle_candle(&mut self, candle: Candle) -> (r: Result<(), Error>)
        ensures
            r is Ok,
            final(self)@ == old(self)@.ingested(candle),
    {
        match self {
            Strategy::Breakout(strategy) => strategy.handle_candle(candle),
            Strategy::BreakoutV2(strategy) => strategy.handle_candle(candle),
            Strategy::Channels(strategy) => strategy.handle_candle(candle),
            Strategy::CounterCandle(strategy) => strategy.handle_candle(candle),
            Strategy::DoubleReverseMM(strategy) => strategy.handle_candle(candle),
            Strategy::FxCash(strategy) => strategy.handle_candle(candle),
            Strategy::IRSTS(strategy) => strategy.handle_candle(candle),
            Strategy::Parabolic(strategy) => strategy.handle_candle(candle),
            Strategy::T2TrendFriend(strategy) => strategy.handle_candle(candle),
            Strategy::TrendlingLong(strategy) => strategy.handle_candle(candle),
            Strategy::TrendlingShort(strategy) => strategy.handle_candle(candle),
        }
    }

    /// Runs one cycle with the given indicator values. A position that the
    /// rules create gets the identifier `id`; a fill in a live run is dated
    /// `now`.
    pub fn run_with(&mut self, indicators: &Indicators, id: u128, now: Timestamp) -> (r: Result<
        (),
        Error,
    >)
        ensures
            final(self)@ == old(self)@.ran(*indicators, id, now).0,
            r == outcome(old(self)@.ran(*indicators, id, now).1),
    {
        match self {
            Strategy::Breakout(strategy) => strategy.run(),
            Strategy::BreakoutV2(strategy) => strategy.run(),
            Strategy::Channels(strategy) => strategy.run(),
            Strategy::CounterCandle(strategy) => strategy.run(),
            Strategy::DoubleReverseMM(strategy) => strategy.run(),
            Strategy::FxCash(strategy) => strategy.run(),
            Strategy::IRSTS(strategy) => strategy.run(),
            Strategy::Parabolic(strategy) => strategy.run(),
            Strategy::T2TrendFriend(strategy) => strategy.run_with(indicators, id, now),
            Strategy::TrendlingLong(strategy) => strategy.run(),
            Strategy::TrendlingShort(strategy) => strategy.run(),
        }
    }

    /// Runs one cycle with the given indicator values. A position that the
    /// rules create gets a fresh random identifier; a live run dates its fills
    /// by the wall clock.
    pub fn run(&mut self, indicators: &Indicators) -> (r: Result<(), Error>)
        ensures
            exists|id: u128, now: Timestamp|
                {
                    &&& final(self)@ == (#[trigger] old(self)@.ran(*indicators, id, now)).0
                    &&& r == outcome(old(self)@.ran(*indicators, id, now).1)
                },
    {
        let r = match self {
            Strategy::Breakout(strategy) => strategy.run(),
            Strategy::BreakoutV2(strategy) => strategy.run(),
            Strategy::Channels(strategy) => strategy.run(),
            Strategy::CounterCandle(strategy) => strategy.run(),
            Strategy::DoubleReverseMM(strategy) => strategy.run(),
            Strategy::FxCash(strategy) => strategy.run(),
            Strategy::IRSTS(strategy) => strategy.run(),
            Strategy::Parabolic(strategy) => strategy.run(),
            Strategy::T2TrendFriend(strategy) => strategy.run(indicators),
            Strategy::TrendlingLong(strategy) => strategy.run(),
            Strategy::TrendlingShort(strategy) => strategy.run(),
        };
        proof {
            match old(self)@ {
                StrategyModel::Dummy(strategy) => {
                    let id = 0u128;
                    let now = Timestamp { nanos: 0 };
                    assert(self@ == old(self)@.ran(*indicators, id, now).0);
                },
                StrategyModel::T2TrendFriend(strategy) => {
                    let (id, now) = choose|id: u128, now: Timestamp|
                        {
                            &&& self@ == StrategyModel::T2TrendFriend(
                                (#[trigger] strategy.ran(*indicators, id, now)).0,
                            )
                            &&& r == outcome(strategy.ran(*indicators, id, now).1)
                        };
                    assert(self@ == old(self)@.ran(*indicators, id, now).0);
                },
            }
        }
        r
    }

    /// Checks the pending orders between cycles, dating a fill `now` in a live
    /// run.
    pub fn check_at(&mut self, now: Timestamp) -> (r: Result<(), Error>)
        ensures
            final(self)@ == old(self)@.checked(now).0,
            r == outcome(old(self)@.checked(now).1),
    {
        match self {
            Strategy::Breakout(strategy) => strategy.check_at(now),
            Strategy::BreakoutV2(strategy) => strategy.check_at(now),
            Strategy::Channels(strategy) => strategy.check_at(now),
            Strategy::CounterCandle(strategy) => strategy.check_at(now),
            Strategy::DoubleReverseMM(strategy) => strategy.check_at(now),
            Strategy::FxCash(strategy) => strategy.check_at(now),
            Strategy::IRSTS(strategy) => strategy.check_at(now),
            Strategy::Parabolic(strategy) => strategy.check_at(now),
            Strategy::T2TrendFriend(strategy) => strategy.check_at(now),
            Strategy::TrendlingLong(strategy) => strategy.check_at(now),
            Strategy::TrendlingShort(strategy) => strategy.check_at(now),
        }
    }

    /// Checks the pending orders between cycles. A live run dates its fills by
    /// the wall clock.
    pub fn check(&mut self) -> (r: Result<(), Error>)
        ensures
            exists|now: Timestamp|
                {
                    &&& final(self)@ == (#[trigger] old(self)@.checked(now)).0
                    &&& r == outcome(old(self)@.checked(now).1)
                },
    {
        let now = self.clock();
        let r = self.check_at(now);
        r
    }

    /// The instant by which a live run dates what happens now: the reading of
    /// the wall clock. A back test dates by its candles, so no clock is read
    /// for it and the epoch is handed out in its place.
    fn clock(&self) -> (now: Timestamp)
        ensures
            self@.positions().backtest ==> now == Timestamp::epoch(),
    {
        match self {
            Strategy::Breakout(strategy) => strategy.positions().clock(),
            Strategy::BreakoutV2(strategy) => strategy.positions().clock(),
            Strategy::Channels(strategy) => strategy.positions().clock(),
            Strategy::CounterCandle(strategy) => strategy.positions().clock(),
            Strategy::DoubleReverseMM(strategy) => strategy.positions().clock(),
            Strategy::FxCash(strategy) => strategy.positions().clock(),
            Strategy::IRSTS(strategy) => strategy.positions().clock(),
            Strategy::Parabolic(strategy) => strategy.positions().clock(),
            Strategy::T2TrendFriend(strategy) => strategy.positions().clock(),
            Strategy::TrendlingLong(strategy) => strategy.positions().clock(),
            Strategy::TrendlingShort(strategy) => strategy.positions().clock(),
        }
    }

    /// The parameters of the strategy.
    pub fn strategy_params(&self) -> (params: StrategyParams)
        ensures
            params == self@.params(),
    {
        match self {
            Strategy::Breakout(strategy) => strategy.strategy_params(),
            Strategy::BreakoutV2(strategy) => strategy.strategy_params(),
            Strategy::Channels(strategy) => strategy.strategy_params(),
            Strategy::CounterCandle(strategy) => strategy.strategy_params(),
            Strategy::DoubleReverseMM(strategy) => strategy.strategy_params(),
            Strategy::FxCash(strategy) => strategy.strategy_params(),
            Strategy::IRSTS(strategy) => strategy.strategy_params(),
            Strategy::Parabolic(strategy) => strategy.strategy_params(),
            Strategy::T2TrendFriend(strategy) => strategy.strategy_params(),
            Strategy::TrendlingLong(strategy) => strategy.strategy_params(),
            Strategy::TrendlingShort(strategy) => strategy.strategy_params(),
        }
    }

    /// The state that the strategy carries to its next cycle.
    pub fn strategy_state(&self) -> (state: StrategyState)
        ensures
            self@.carries(state),
    {
        match self {
            Strategy::Breakout(strategy) => strategy.strategy_state(),
            Strategy::BreakoutV2(strategy) => strategy.strategy_state(),
            Strategy::Channels(strategy) => strategy.strategy_state(),
            Strategy::CounterCandle(strategy) => strategy.strategy_state(),
            Strategy::DoubleReverseMM(strategy) => strategy.strategy_state(),
            Strategy::FxCash(strategy) => strategy.strategy_state(),
            Strategy::IRSTS(strategy) => strategy.strategy_state(),
            Strategy::Parabolic(strategy) => strategy.strategy_state(),
            Strategy::T2TrendFriend(strategy) => strategy.strategy_state(),
            Strategy::TrendlingLong(strategy) => strategy.strategy_state(),
            Strategy::TrendlingShort(strategy) => strategy.strategy_state(),
        }
    }

    /// What the robot persists and reports, the reports timed `now` in a live
    /// run.
    pub fn robot_state_at(&self, now: Timestamp) -> (state: RobotState)
        ensures
            self@.positions().described_by(state@, now),
    {
        match self {
            Strategy::Breakout(strategy) => strategy.robot_state_at(now),
            Strategy::BreakoutV2(strategy) => strategy.robot_state_at(now),
            Strategy::Channels(strategy) => strategy.robot_state_at(now),
            Strategy::CounterCandle(strategy) => strategy.robot_state_at(now),
            Strategy::DoubleReverseMM(strategy) => strategy.robot_state_at(now),
            Strategy::FxCash(strategy) => strategy.robot_state_at(now),
            Strategy::IRSTS(strategy) => strategy.robot_state_at(now),
            Strategy::Parabolic(strategy) => strategy.robot_state_at(now),
            Strategy::T2TrendFriend(strategy) => strategy.robot_state_at(now),
            Strategy::TrendlingLong(strategy) => strategy.robot_state_at(now),
            Strategy::TrendlingShort(strategy) => strategy.robot_state_at(now),
        }
    }

    /// What the robot persists and reports. A live run times the reports by
    /// the wall clock.
    pub fn robot_state(&self) -> (state: RobotState)
        ensures
            exists|now: Timestamp| self@.positions().described_by(state@, now),
    {
        let now = self.clock();
        let state = self.robot_state_at(now);
        state
    }
}

} // verus!
