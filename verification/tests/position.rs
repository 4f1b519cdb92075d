use rs_api::candle::Candle;
use rs_api::error::Error;
use rs_api::ident::{format_id, parse_id};
use rs_api::position::Position;
use rs_api::records::{PositionInternalState, PositionState, SignalState};
use rs_api::signal::Signal;
use rs_api::state::{OrderType, PositionDirection, PositionStatus, SignalType, TradeAction};
use rs_api::timestamp::Timestamp;

const T0: i64 = 1_609_459_200_000_000_000;

const HALF_HOUR: i64 = 1_800_000_000_000;

fn candle(step: i64, open: i64, high: i64, low: i64, close: i64) -> Candle {
    Candle {
        time: (T0 + step * HALF_HOUR) / 1_000_000,
        timestamp: Timestamp { nanos: T0 + step * HALF_HOUR },
        timeframe: 30,
        open,
        high,
        low,
        close,
        volume: 1_000,
    }
}

fn position(candle: Option<Candle>, backtest: bool) -> Position {
    Position::with_id(7, &"p".to_string(), &"p_1".to_string(), &None, &candle, backtest)
}

fn alert(action: TradeAction, order_type: OrderType, price: i64) -> Signal {
    Signal {
        signal_type: SignalType::Alert,
        action,
        order_type,
        price,
        candle_timestamp: Timestamp { nanos: T0 },
    }
}

fn open_long(backtest: bool) -> Position {
    let mut p = position(Some(candle(0, 100, 110, 95, 105)), backtest);
    p.open_at(alert(TradeAction::Long, OrderType::Market, 100), Timestamp { nanos: T0 + 1 }).unwrap();
    p.clear_trades();
    p
}

fn open_short(backtest: bool) -> Position {
    let mut p = position(Some(candle(0, 100, 110, 95, 105)), backtest);
    p.open_at(alert(TradeAction::Short, OrderType::Market, 100), Timestamp { nanos: T0 + 1 })
        .unwrap();
    p.clear_trades();
    p
}

#[test]
fn new_position_is_empty() {
    let p = Position::new(&"p".to_string(), &"p_1".to_string(), &None, &None, &true);
    assert_eq!(*p.get_status(), PositionStatus::New);
    assert_eq!(*p.get_direction(), None);
    assert_eq!(p.get_prefix(), "p");
    assert_eq!(p.get_code(), "p_1");
    assert_eq!(*p.get_parent_id(), None);
    assert!(p.get_alerts().is_empty());
    assert!(p.get_trades().is_empty());
    assert!(p.is_active());
    assert!(!p.is_long());
    assert!(!p.is_short());
    assert_eq!(p.get_candle(), Err(Error::NoCandleAvailable));
    assert_eq!(p.get_candle_timestamp(), Err(Error::NoCandleAvailable));
    assert_eq!(p.get_internal().highest_high, None);
    assert_eq!(p.get_internal().lowest_low, None);
    assert_eq!(p.get_internal().stop, None);
}

#[test]
fn new_positions_get_different_ids() {
    let a = Position::new(&"p".to_string(), &"p_1".to_string(), &None, &None, &true);
    let b = Position::new(&"p".to_string(), &"p_2".to_string(), &None, &None, &true);
    assert_ne!(a.get_id(), b.get_id());
}

#[test]
fn child_position_names_its_parent() {
    let parent = Some("p_1".to_string());
    let p = Position::with_id(9, &"h".to_string(), &"h_2".to_string(), &parent, &None, false);
    assert_eq!(*p.get_parent_id(), Some("p_1".to_string()));
    assert_eq!(p.state().parent_id, Some("p_1".to_string()));
}

#[test]
fn market_buy_in_backtest_fills_at_the_open() {
    let mut p = position(None, true);
    p.handle_candle(&Some(candle(0, 90, 96, 88, 95)));
    p.buy_at_market().unwrap();
    assert_eq!(p.get_alerts().len(), 1);
    assert_eq!(p.get_alerts()[0], alert(TradeAction::Long, OrderType::Market, 95));
    p.handle_candle(&Some(candle(1, 100, 110, 95, 105)));
    p.check_alerts().unwrap();
    assert_eq!(*p.get_status(), PositionStatus::Open);
    assert_eq!(*p.get_direction(), Some(PositionDirection::Long));
    assert!(p.is_long());
    assert!(p.get_alerts().is_empty());
    assert_eq!(p.get_trades().len(), 1);
    let trade = p.get_trades()[0];
    assert_eq!(trade.signal_type, SignalType::Trade);
    assert_eq!(trade.action, TradeAction::Long);
    assert_eq!(trade.order_type, OrderType::Market);
    assert_eq!(trade.price, 100);
    assert_eq!(trade.candle_timestamp, Timestamp { nanos: T0 + HALF_HOUR });
    let state = p.state();
    assert_eq!(state.status, "open");
    assert_eq!(state.entry_status, Some("closed".to_string()));
    assert_eq!(state.entry_price, Some(100));
    assert_eq!(state.entry_action, Some("long".to_string()));
    assert_eq!(state.entry_order_type, Some("market".to_string()));
    assert_eq!(state.entry_date, Some("2021-01-01T00:30:00Z".to_string()));
    assert_eq!(state.entry_candle_timestamp, Some("2021-01-01T00:00:00Z".to_string()));
    assert_eq!(state.direction, Some("long".to_string()));
    assert_eq!(state.exit_status, None);
}

#[test]
fn open_records_the_entry_and_one_trade() {
    let mut p = position(Some(candle(0, 100, 110, 95, 105)), false);
    let now = Timestamp { nanos: T0 + 42 };
    p.open_at(alert(TradeAction::Short, OrderType::Limit, 108), now).unwrap();
    assert_eq!(*p.get_status(), PositionStatus::Open);
    assert_eq!(*p.get_direction(), Some(PositionDirection::Short));
    assert!(p.is_short());
    assert_eq!(p.get_trades().len(), 1);
    assert_eq!(p.get_trades()[0].price, 108);
    assert_eq!(p.get_trades()[0].signal_type, SignalType::Trade);
    let state = p.state();
    assert_eq!(state.entry_status, Some("closed".to_string()));
    assert_eq!(state.entry_date, Some(now.format()));
    assert_eq!(state.entry_order_type, Some("limit".to_string()));
}

#[test]
fn open_with_the_clock_dates_the_entry_now() {
    let mut p = position(Some(candle(0, 100, 110, 95, 105)), false);
    let before = Timestamp::now();
    p.open(alert(TradeAction::Long, OrderType::Market, 100)).unwrap();
    let after = Timestamp::now();
    let dated = Timestamp::parse(&p.state().entry_date.unwrap()).unwrap();
    assert!(before.nanos <= dated.nanos && dated.nanos <= after.nanos);
}

#[test]
fn open_twice_fails_with_already_open() {
    let mut p = open_long(true);
    let before = p.state();
    let r = p.open_at(alert(TradeAction::Long, OrderType::Market, 1), Timestamp { nanos: 0 });
    assert_eq!(r, Err(Error::AlreadyOpen));
    assert_eq!(p.state().entry_price, before.entry_price);
    assert!(p.get_trades().is_empty());
}

#[test]
fn open_with_a_closing_action_is_an_invalid_transition() {
    let mut p = position(Some(candle(0, 100, 110, 95, 105)), true);
    let r = p.open_at(alert(TradeAction::CloseLong, OrderType::Market, 1), Timestamp { nanos: 0 });
    assert_eq!(r, Err(Error::InvalidTransition));
    assert_eq!(*p.get_status(), PositionStatus::New);
    assert_eq!(*p.get_direction(), None);
    assert_eq!(p.state().entry_status, None);
    assert!(p.get_trades().is_empty());
}

#[test]
fn open_without_a_candle_fails() {
    let mut p = position(None, true);
    let r = p.open(alert(TradeAction::Long, OrderType::Market, 1));
    assert_eq!(r, Err(Error::NoCandleAvailable));
    assert_eq!(*p.get_status(), PositionStatus::New);
}

#[test]
fn close_before_open_fails_with_not_open_yet() {
    let mut p = position(Some(candle(0, 100, 110, 95, 105)), true);
    let r = p.close(alert(TradeAction::CloseLong, OrderType::Market, 1));
    assert_eq!(r, Err(Error::NotOpenYet));
    assert_eq!(*p.get_status(), PositionStatus::New);
}

#[test]
fn close_twice_fails_with_already_closed() {
    let mut p = open_long(true);
    p.close(alert(TradeAction::CloseLong, OrderType::Market, 104)).unwrap();
    assert_eq!(*p.get_status(), PositionStatus::Closed);
    assert!(!p.is_active());
    assert_eq!(p.get_trades().len(), 1);
    let r = p.close(alert(TradeAction::CloseLong, OrderType::Market, 103));
    assert_eq!(r, Err(Error::AlreadyClosed));
    assert_eq!(p.state().exit_price, Some(104));
    assert_eq!(p.get_trades().len(), 1);
}

#[test]
fn close_with_an_opening_action_is_an_invalid_transition() {
    let mut p = open_long(true);
    let r = p.close_at(alert(TradeAction::Long, OrderType::Market, 1), Timestamp { nanos: 0 });
    assert_eq!(r, Err(Error::InvalidTransition));
    assert_eq!(*p.get_status(), PositionStatus::Open);
}

#[test]
fn close_records_the_exit() {
    let mut p = open_long(false);
    p.handle_candle(&Some(candle(3, 120, 125, 118, 121)));
    let now = Timestamp { nanos: T0 + 77 };
    p.close_at(alert(TradeAction::CloseLong, OrderType::Stop, 119), now).unwrap();
    let state = p.state();
    assert_eq!(state.status, "closed");
    assert_eq!(state.exit_status, Some("closed".to_string()));
    assert_eq!(state.exit_price, Some(119));
    assert_eq!(state.exit_order_type, Some("stop".to_string()));
    assert_eq!(state.exit_action, Some("closeLong".to_string()));
    assert_eq!(state.exit_date, Some(now.format()));
    assert_eq!(state.exit_candle_timestamp, Some("2021-01-01T00:00:00Z".to_string()));
    assert_eq!(state.direction, Some("long".to_string()));
    assert_eq!(p.get_trades().len(), 1);
    assert_eq!(p.get_trades()[0].candle_timestamp, Timestamp { nanos: T0 + 3 * HALF_HOUR });
}

#[test]
fn entry_orders_are_refused_once_open() {
    let mut p = open_long(true);
    assert_eq!(p.buy_at_market(), Err(Error::AlreadyOpen));
    assert_eq!(p.buy_at_market_price(1), Err(Error::AlreadyOpen));
    assert_eq!(p.buy_at_stop(), Err(Error::AlreadyOpen));
    assert_eq!(p.buy_at_stop_price(1), Err(Error::AlreadyOpen));
    assert_eq!(p.buy_at_limit(), Err(Error::AlreadyOpen));
    assert_eq!(p.buy_at_limit_price(1), Err(Error::AlreadyOpen));
    assert_eq!(p.short_at_market(), Err(Error::AlreadyOpen));
    assert_eq!(p.short_at_market_price(1), Err(Error::AlreadyOpen));
    assert_eq!(p.short_at_stop(), Err(Error::AlreadyOpen));
    assert_eq!(p.short_at_stop_price(1), Err(Error::AlreadyOpen));
    assert_eq!(p.short_at_limit(), Err(Error::AlreadyOpen));
    assert_eq!(p.short_at_limit_price(1), Err(Error::AlreadyOpen));
    assert!(p.get_alerts().is_empty());
}

#[test]
fn exit_orders_are_refused_before_open() {
    let mut p = position(Some(candle(0, 100, 110, 95, 105)), true);
    assert_eq!(p.sell_at_market(), Err(Error::NotOpenYet));
    assert_eq!(p.sell_at_market_price(1), Err(Error::NotOpenYet));
    assert_eq!(p.sell_at_stop(), Err(Error::NotOpenYet));
    assert_eq!(p.sell_at_stop_price(1), Err(Error::NotOpenYet));
    assert_eq!(p.sell_at_limit(), Err(Error::NotOpenYet));
    assert_eq!(p.sell_at_limit_price(1), Err(Error::NotOpenYet));
    assert_eq!(p.sell_at_trailing_stop(), Err(Error::NotOpenYet));
    assert_eq!(p.sell_at_trailing_stop_price(1), Err(Error::NotOpenYet));
    assert_eq!(p.cover_at_market(), Err(Error::NotOpenYet));
    assert_eq!(p.cover_at_market_price(1), Err(Error::NotOpenYet));
    assert_eq!(p.cover_at_stop(), Err(Error::NotOpenYet));
    assert_eq!(p.cover_at_stop_price(1), Err(Error::NotOpenYet));
    assert_eq!(p.cover_at_limit(), Err(Error::NotOpenYet));
    assert_eq!(p.cover_at_limit_price(1), Err(Error::NotOpenYet));
    assert_eq!(p.cover_at_trailing_stop(), Err(Error::NotOpenYet));
    assert_eq!(p.cover_at_trailing_stop_price(1), Err(Error::NotOpenYet));
    assert!(p.get_alerts().is_empty());
    assert_eq!(p.get_internal().stop, None);
}

#[test]
fn exit_orders_are_refused_once_closed() {
    let mut p = open_long(true);
    p.close(alert(TradeAction::CloseLong, OrderType::Market, 104)).unwrap();
    assert_eq!(p.sell_at_market(), Err(Error::AlreadyClosed));
    assert_eq!(p.sell_at_stop_price(1), Err(Error::AlreadyClosed));
    assert_eq!(p.sell_at_limit_price(1), Err(Error::AlreadyClosed));
    assert_eq!(p.sell_at_trailing_stop_price(1), Err(Error::AlreadyClosed));
    assert_eq!(p.cover_at_market_price(1), Err(Error::AlreadyClosed));
    assert_eq!(p.buy_at_market(), Err(Error::AlreadyOpen));
}

#[test]
fn orders_need_a_candle() {
    let mut p = position(None, true);
    assert_eq!(p.buy_at_market(), Err(Error::NoCandleAvailable));
    assert_eq!(p.buy_at_market_price(5), Err(Error::NoCandleAvailable));
    assert_eq!(p.short_at_limit(), Err(Error::NoCandleAvailable));
    assert_eq!(p.sell_at_market(), Err(Error::NoCandleAvailable));
    assert_eq!(p.sell_at_market_price(5), Err(Error::NotOpenYet));
    assert!(p.get_alerts().is_empty());
}

#[test]
fn each_order_method_appends_one_alert() {
    let bar = candle(0, 100, 110, 95, 105);
    let mut p = position(Some(bar), true);
    p.buy_at_market().unwrap();
    p.buy_at_market_price(101).unwrap();
    p.buy_at_stop().unwrap();
    p.buy_at_stop_price(102).unwrap();
    p.buy_at_limit().unwrap();
    p.buy_at_limit_price(103).unwrap();
    p.short_at_market().unwrap();
    p.short_at_market_price(104).unwrap();
    p.short_at_stop().unwrap();
    p.short_at_stop_price(105).unwrap();
    p.short_at_limit().unwrap();
    p.short_at_limit_price(106).unwrap();
    let expected = [
        alert(TradeAction::Long, OrderType::Market, 105),
        alert(TradeAction::Long, OrderType::Market, 101),
        alert(TradeAction::Long, OrderType::Stop, 100),
        alert(TradeAction::Long, OrderType::Stop, 102),
        alert(TradeAction::Long, OrderType::Limit, 100),
        alert(TradeAction::Long, OrderType::Limit, 103),
        alert(TradeAction::Short, OrderType::Market, 105),
        alert(TradeAction::Short, OrderType::Market, 104),
        alert(TradeAction::Short, OrderType::Stop, 100),
        alert(TradeAction::Short, OrderType::Stop, 105),
        alert(TradeAction::Short, OrderType::Limit, 100),
        alert(TradeAction::Short, OrderType::Limit, 106),
    ];
    assert_eq!(p.get_alerts().as_slice(), expected.as_slice());

    let mut q = open_long(true);
    q.sell_at_market().unwrap();
    q.sell_at_market_price(101).unwrap();
    q.sell_at_stop().unwrap();
    q.sell_at_stop_price(102).unwrap();
    q.sell_at_limit().unwrap();
    q.sell_at_limit_price(103).unwrap();
    q.cover_at_market().unwrap();
    q.cover_at_market_price(104).unwrap();
    q.cover_at_stop().unwrap();
    q.cover_at_stop_price(105).unwrap();
    q.cover_at_limit().unwrap();
    q.cover_at_limit_price(106).unwrap();
    let expected = [
        alert(TradeAction::CloseLong, OrderType::Market, 105),
        alert(TradeAction::CloseLong, OrderType::Market, 101),
        alert(TradeAction::CloseLong, OrderType::Stop, 100),
        alert(TradeAction::CloseLong, OrderType::Stop, 102),
        alert(TradeAction::CloseLong, OrderType::Limit, 100),
        alert(TradeAction::CloseLong, OrderType::Limit, 103),
        alert(TradeAction::CloseShort, OrderType::Market, 105),
        alert(TradeAction::CloseShort, OrderType::Market, 104),
        alert(TradeAction::CloseShort, OrderType::Stop, 100),
        alert(TradeAction::CloseShort, OrderType::Stop, 105),
        alert(TradeAction::CloseShort, OrderType::Limit, 100),
        alert(TradeAction::CloseShort, OrderType::Limit, 106),
    ];
    assert_eq!(q.get_alerts().as_slice(), expected.as_slice());
}

#[test]
fn trailing_stop_for_a_long_only_rises() {
    let mut p = open_long(true);
    p.sell_at_trailing_stop_price(105).unwrap();
    assert_eq!(p.get_internal().stop, Some(105));
    assert_eq!(*p.get_alerts().last().unwrap(), alert(TradeAction::CloseLong, OrderType::Stop, 105));
    p.sell_at_trailing_stop_price(110).unwrap();
    assert_eq!(p.get_internal().stop, Some(110));
    assert_eq!(p.get_alerts().last().unwrap().price, 110);
    p.sell_at_trailing_stop_price(108).unwrap();
    assert_eq!(p.get_internal().stop, Some(110));
    assert_eq!(p.get_alerts().last().unwrap().price, 110);
    assert_eq!(p.get_alerts().len(), 3);
    assert_eq!(p.state().internal_state.stop, Some(110));
}

#[test]
fn trailing_stop_for_a_short_only_falls() {
    let mut p = open_short(true);
    p.cover_at_trailing_stop_price(105).unwrap();
    assert_eq!(p.get_internal().stop, Some(105));
    p.cover_at_trailing_stop_price(110).unwrap();
    assert_eq!(p.get_internal().stop, Some(105));
    assert_eq!(*p.get_alerts().last().unwrap(), alert(TradeAction::CloseShort, OrderType::Stop, 105));
    p.cover_at_trailing_stop_price(99).unwrap();
    assert_eq!(p.get_internal().stop, Some(99));
    assert_eq!(p.get_alerts().last().unwrap().price, 99);
}

#[test]
fn trailing_stop_without_a_price_starts_at_the_open() {
    let mut p = open_long(true);
    p.handle_candle(&Some(candle(1, 111, 115, 109, 112)));
    p.sell_at_trailing_stop().unwrap();
    assert_eq!(p.get_internal().stop, Some(111));
    let mut q = open_short(true);
    q.handle_candle(&Some(candle(1, 91, 95, 89, 92)));
    q.cover_at_trailing_stop().unwrap();
    assert_eq!(q.get_internal().stop, Some(91));
}

#[test]
fn extremes_are_tracked_only_while_open() {
    let mut p = position(None, true);
    p.handle_candle(&Some(candle(0, 100, 130, 70, 105)));
    assert_eq!(p.get_internal().highest_high, None);
    assert_eq!(p.get_internal().lowest_low, None);
    p.open(alert(TradeAction::Long, OrderType::Market, 100)).unwrap();
    p.handle_candle(&Some(candle(1, 100, 110, 95, 105)));
    assert_eq!(p.get_internal().highest_high, Some(110));
    assert_eq!(p.get_internal().lowest_low, Some(95));
    p.handle_candle(&Some(candle(2, 100, 108, 90, 105)));
    assert_eq!(p.get_internal().highest_high, Some(110));
    assert_eq!(p.get_internal().lowest_low, Some(90));
    p.handle_candle(&Some(candle(3, 100, 120, 99, 105)));
    assert_eq!(p.get_internal().highest_high, Some(120));
    assert_eq!(p.get_internal().lowest_low, Some(90));
    p.handle_candle(&None);
    assert_eq!(p.get_internal().highest_high, Some(120));
    assert_eq!(p.get_candle(), Err(Error::NoCandleAvailable));
    p.handle_candle(&Some(candle(4, 100, 121, 99, 105)));
    p.close(alert(TradeAction::CloseLong, OrderType::Market, 100)).unwrap();
    p.handle_candle(&Some(candle(5, 100, 500, 1, 105)));
    assert_eq!(p.get_internal().highest_high, Some(121));
    assert_eq!(p.get_internal().lowest_low, Some(90));
}

fn fill(p: &Position, order_type: OrderType, action: TradeAction, price: i64) -> Option<i64> {
    let signal = alert(action, order_type, price);
    match order_type {
        OrderType::Market => p.check_market_alert(&signal).unwrap(),
        OrderType::Stop => p.check_stop_alert(&signal).unwrap(),
        OrderType::Limit => p.check_limit_alert(&signal).unwrap(),
    }
}

#[test]
fn market_orders_always_fill() {
    let bar = Some(candle(0, 100, 110, 95, 105));
    let live = position(bar, false);
    assert_eq!(fill(&live, OrderType::Market, TradeAction::Long, 103), Some(105));
    assert_eq!(fill(&live, OrderType::Market, TradeAction::Long, 107), Some(107));
    assert_eq!(fill(&live, OrderType::Market, TradeAction::CloseShort, 200), Some(200));
    assert_eq!(fill(&live, OrderType::Market, TradeAction::Short, 103), Some(103));
    assert_eq!(fill(&live, OrderType::Market, TradeAction::Short, 107), Some(105));
    assert_eq!(fill(&live, OrderType::Market, TradeAction::CloseLong, 1), Some(1));
    let test = position(bar, true);
    for action in
        [TradeAction::Long, TradeAction::Short, TradeAction::CloseLong, TradeAction::CloseShort]
    {
        assert_eq!(fill(&test, OrderType::Market, action, 1), Some(100));
        assert_eq!(fill(&test, OrderType::Market, action, 1_000), Some(100));
    }
}

#[test]
fn stop_orders_fill_when_touched() {
    let bar = Some(candle(0, 100, 110, 95, 105));
    let live = position(bar, false);
    let test = position(bar, true);
    for action in [TradeAction::Long, TradeAction::CloseShort] {
        assert_eq!(fill(&live, OrderType::Stop, action, 111), None);
        assert_eq!(fill(&live, OrderType::Stop, action, 110), Some(110));
        assert_eq!(fill(&live, OrderType::Stop, action, 102), Some(105));
        assert_eq!(fill(&live, OrderType::Stop, action, 90), Some(105));
        assert_eq!(fill(&test, OrderType::Stop, action, 111), None);
        assert_eq!(fill(&test, OrderType::Stop, action, 110), Some(110));
        assert_eq!(fill(&test, OrderType::Stop, action, 102), Some(102));
        assert_eq!(fill(&test, OrderType::Stop, action, 90), Some(100));
    }
    for action in [TradeAction::Short, TradeAction::CloseLong] {
        assert_eq!(fill(&live, OrderType::Stop, action, 94), None);
        assert_eq!(fill(&live, OrderType::Stop, action, 95), Some(95));
        assert_eq!(fill(&live, OrderType::Stop, action, 102), Some(102));
        assert_eq!(fill(&live, OrderType::Stop, action, 120), Some(105));
        assert_eq!(fill(&test, OrderType::Stop, action, 94), None);
        assert_eq!(fill(&test, OrderType::Stop, action, 95), Some(95));
        assert_eq!(fill(&test, OrderType::Stop, action, 102), Some(100));
        assert_eq!(fill(&test, OrderType::Stop, action, 120), Some(100));
    }
}

#[test]
fn limit_orders_fill_when_touched_from_the_other_side() {
    let bar = Some(candle(0, 100, 110, 95, 105));
    let live = position(bar, false);
    let test = position(bar, true);
    for action in [TradeAction::Long, TradeAction::CloseShort] {
        assert_eq!(fill(&live, OrderType::Limit, action, 94), None);
        assert_eq!(fill(&live, OrderType::Limit, action, 95), Some(95));
        assert_eq!(fill(&live, OrderType::Limit, action, 102), Some(102));
        assert_eq!(fill(&live, OrderType::Limit, action, 120), Some(105));
        assert_eq!(fill(&test, OrderType::Limit, action, 94), None);
        assert_eq!(fill(&test, OrderType::Limit, action, 102), Some(100));
        assert_eq!(fill(&test, OrderType::Limit, action, 97), Some(97));
    }
    for action in [TradeAction::Short, TradeAction::CloseLong] {
        assert_eq!(fill(&live, OrderType::Limit, action, 111), None);
        assert_eq!(fill(&live, OrderType::Limit, action, 110), Some(110));
        assert_eq!(fill(&live, OrderType::Limit, action, 102), Some(105));
        assert_eq!(fill(&test, OrderType::Limit, action, 111), None);
        assert_eq!(fill(&test, OrderType::Limit, action, 102), Some(102));
        assert_eq!(fill(&test, OrderType::Limit, action, 90), Some(100));
    }
}

#[test]
fn stop_and_limit_are_touched_from_opposite_sides() {
    let p = position(Some(candle(0, 100, 110, 95, 105)), true);
    for price in 90..=115 {
        let stop = fill(&p, OrderType::Stop, TradeAction::Long, price).is_some();
        let limit = fill(&p, OrderType::Limit, TradeAction::Long, price).is_some();
        assert_eq!(stop, 110 >= price);
        assert_eq!(limit, 95 <= price);
        assert_eq!(stop && limit, (95..=110).contains(&price));
        let stop = fill(&p, OrderType::Stop, TradeAction::Short, price).is_some();
        let limit = fill(&p, OrderType::Limit, TradeAction::Short, price).is_some();
        assert_eq!(stop, 95 <= price);
        assert_eq!(limit, 110 >= price);
    }
}

#[test]
fn fill_checks_need_a_candle() {
    let p = position(None, true);
    let signal = alert(TradeAction::Long, OrderType::Market, 1);
    assert_eq!(p.check_market_alert(&signal), Err(Error::NoCandleAvailable));
    assert_eq!(p.check_stop_alert(&signal), Err(Error::NoCandleAvailable));
    assert_eq!(p.check_limit_alert(&signal), Err(Error::NoCandleAvailable));
}

#[test]
fn check_alerts_fills_the_oldest_touched_order_and_drops_the_rest() {
    let mut p = position(Some(candle(0, 100, 110, 95, 105)), true);
    p.buy_at_stop_price(120).unwrap();
    p.buy_at_limit_price(97).unwrap();
    p.short_at_market().unwrap();
    p.buy_at_market().unwrap();
    p.check_alerts().unwrap();
    assert_eq!(*p.get_status(), PositionStatus::Open);
    assert_eq!(*p.get_direction(), Some(PositionDirection::Long));
    assert!(p.get_alerts().is_empty());
    assert_eq!(p.get_trades().len(), 1);
    assert_eq!(p.get_trades()[0].order_type, OrderType::Limit);
    assert_eq!(p.get_trades()[0].price, 97);
    assert_eq!(p.state().entry_price, Some(97));
}

#[test]
fn check_alerts_without_a_touch_changes_nothing() {
    let mut p = position(Some(candle(0, 100, 110, 95, 105)), true);
    p.buy_at_stop_price(120).unwrap();
    p.short_at_stop_price(80).unwrap();
    p.buy_at_limit_price(90).unwrap();
    let result = p.check_alerts_at(Timestamp { nanos: 3 });
    assert_eq!(result, Ok(()));
    assert_eq!(*p.get_status(), PositionStatus::New);
    assert_eq!(p.get_alerts().len(), 3);
    assert!(p.get_trades().is_empty());
}

#[test]
fn check_alerts_without_alerts_is_fine_even_without_a_candle() {
    let mut p = position(None, true);
    assert_eq!(p.check_alerts(), Ok(()));
    assert_eq!(*p.get_status(), PositionStatus::New);
}

#[test]
fn check_alerts_with_alerts_needs_a_candle() {
    let mut p = position(Some(candle(0, 100, 110, 95, 105)), true);
    p.buy_at_market().unwrap();
    p.handle_candle(&None);
    assert_eq!(p.check_alerts(), Err(Error::NoCandleAvailable));
    assert_eq!(p.get_alerts().len(), 1);
    assert_eq!(*p.get_status(), PositionStatus::New);
}

#[test]
fn check_alerts_passes_on_the_refusal_of_a_fill() {
    let mut p = position(Some(candle(0, 100, 110, 95, 105)), true);
    p.buy_at_market().unwrap();
    p.buy_at_market().unwrap();
    p.open(alert(TradeAction::Long, OrderType::Market, 100)).unwrap();
    assert_eq!(p.check_alerts(), Err(Error::AlreadyOpen));
    assert_eq!(p.get_alerts().len(), 2);
    assert_eq!(p.get_trades().len(), 1);
}

#[test]
fn check_alerts_never_fills_twice_against_one_candle() {
    let mut p = position(Some(candle(0, 100, 110, 95, 105)), true);
    p.buy_at_market().unwrap();
    p.check_alerts().unwrap();
    p.sell_at_market().unwrap();
    p.sell_at_market().unwrap();
    p.check_alerts().unwrap();
    assert_eq!(*p.get_status(), PositionStatus::Closed);
    assert_eq!(p.get_trades().len(), 2);
    assert!(p.get_alerts().is_empty());
    assert_eq!(p.check_alerts(), Ok(()));
    assert_eq!(p.get_trades().len(), 2);
}

#[test]
fn check_alert_reports_whether_it_filled() {
    let mut p = position(Some(candle(0, 100, 110, 95, 105)), true);
    let missed = alert(TradeAction::Long, OrderType::Stop, 111);
    assert_eq!(p.check_alert(&missed, Timestamp { nanos: 0 }), Ok(false));
    assert_eq!(*p.get_status(), PositionStatus::New);
    let hit = alert(TradeAction::Long, OrderType::Stop, 104);
    assert_eq!(p.check_alert(&hit, Timestamp { nanos: 0 }), Ok(true));
    assert_eq!(*p.get_status(), PositionStatus::Open);
    assert_eq!(p.state().entry_price, Some(104));
    let exit = alert(TradeAction::CloseLong, OrderType::Limit, 108);
    assert_eq!(p.check_alert(&exit, Timestamp { nanos: 0 }), Ok(true));
    assert_eq!(*p.get_status(), PositionStatus::Closed);
    assert_eq!(p.state().exit_price, Some(108));
}

#[test]
fn clearing_drops_alerts_and_trades() {
    let mut p = position(Some(candle(0, 100, 110, 95, 105)), true);
    p.buy_at_stop_price(200).unwrap();
    p.open(alert(TradeAction::Long, OrderType::Market, 100)).unwrap();
    assert_eq!(p.get_alerts().len(), 1);
    assert_eq!(p.get_trades().len(), 1);
    p.clear_alerts();
    assert!(p.get_alerts().is_empty());
    assert_eq!(p.get_trades().len(), 1);
    p.clear_trades();
    assert!(p.get_trades().is_empty());
    assert_eq!(*p.get_status(), PositionStatus::Open);
}

fn same_state(a: &PositionState, b: &PositionState) -> bool {
    a.id == b.id
        && a.prefix == b.prefix
        && a.code == b.code
        && a.parent_id == b.parent_id
        && a.direction == b.direction
        && a.status == b.status
        && a.entry_status == b.entry_status
        && a.entry_price == b.entry_price
        && a.entry_date == b.entry_date
        && a.entry_order_type == b.entry_order_type
        && a.entry_action == b.entry_action
        && a.entry_candle_timestamp == b.entry_candle_timestamp
        && a.exit_status == b.exit_status
        && a.exit_price == b.exit_price
        && a.exit_date == b.exit_date
        && a.exit_order_type == b.exit_order_type
        && a.exit_action == b.exit_action
        && a.exit_candle_timestamp == b.exit_candle_timestamp
        && a.internal_state == b.internal_state
        && a.alerts.len() == b.alerts.len()
        && a.alerts.iter().zip(b.alerts.iter()).all(|(x, y)| {
            x.signal_type == y.signal_type
                && x.action == y.action
                && x.order_type == y.order_type
                && x.price == y.price
                && x.candle_timestamp == y.candle_timestamp
        })
}

#[test]
fn state_round_trips() {
    let mut positions = vec![position(None, true), open_long(false), open_short(true)];
    let mut closed = open_long(true);
    closed.handle_candle(&Some(candle(5, 100, 120, 80, 90)));
    closed.sell_at_trailing_stop_price(95).unwrap();
    closed.sell_at_limit_price(119).unwrap();
    positions.push(
        Position::from_state(closed.state(), &Some(candle(5, 100, 120, 80, 90)), &true).unwrap(),
    );
    closed.check_alerts().unwrap();
    positions.push(closed);
    for p in positions {
        let state = p.state();
        let restored = Position::from_state(state.clone(), &None, &false).unwrap();
        assert!(same_state(&restored.state(), &state));
        assert_eq!(restored.get_id(), p.get_id());
        assert_eq!(restored.get_status(), p.get_status());
        assert_eq!(restored.get_direction(), p.get_direction());
        assert_eq!(restored.get_alerts(), p.get_alerts());
        assert_eq!(restored.get_internal(), p.get_internal());
        assert!(restored.get_trades().is_empty());
        assert_eq!(restored.get_candle(), Err(Error::NoCandleAvailable));
    }
}

#[test]
fn state_writes_every_field() {
    let mut p = open_long(true);
    p.handle_candle(&Some(candle(1, 101, 111, 96, 106)));
    p.sell_at_stop_price(97).unwrap();
    let state = p.state();
    assert_eq!(state.id, "00000000-0000-0000-0000-000000000007");
    assert_eq!(state.prefix, "p");
    assert_eq!(state.code, "p_1");
    assert_eq!(state.parent_id, None);
    assert_eq!(state.direction, Some("long".to_string()));
    assert_eq!(state.status, "open");
    assert_eq!(state.entry_date, Some("2021-01-01T00:00:00Z".to_string()));
    assert_eq!(state.exit_status, None);
    assert_eq!(state.exit_price, None);
    assert_eq!(state.exit_date, None);
    assert_eq!(state.exit_order_type, None);
    assert_eq!(state.exit_action, None);
    assert_eq!(state.exit_candle_timestamp, None);
    assert_eq!(state.alerts.len(), 1);
    assert_eq!(state.alerts[0].signal_type, "alert");
    assert_eq!(state.alerts[0].action, "closeLong");
    assert_eq!(state.alerts[0].order_type, "stop");
    assert_eq!(state.alerts[0].price, 97);
    assert_eq!(state.alerts[0].candle_timestamp, "2021-01-01T00:30:00Z");
    assert_eq!(
        state.internal_state,
        PositionInternalState { highest_high: Some(111), lowest_low: Some(96), stop: None }
    );
}

fn blank_state() -> PositionState {
    PositionState {
        id: format_id(11),
        prefix: "p".to_string(),
        code: "p_3".to_string(),
        parent_id: None,
        direction: None,
        status: "new".to_string(),
        entry_status: None,
        entry_price: None,
        entry_date: None,
        entry_order_type: None,
        entry_action: None,
        entry_candle_timestamp: None,
        exit_status: None,
        exit_price: None,
        exit_date: None,
        exit_order_type: None,
        exit_action: None,
        exit_candle_timestamp: None,
        alerts: Vec::new(),
        internal_state: PositionInternalState { highest_high: None, lowest_low: None, stop: None },
    }
}

fn restore(state: PositionState) -> Result<PositionState, Error> {
    Position::from_state(state, &None, &true).map(|p| p.state())
}

#[test]
fn from_state_reads_a_blank_position() {
    let p = Position::from_state(blank_state(), &Some(candle(0, 1, 2, 0, 1)), &true).unwrap();
    assert_eq!(p.get_id(), 11);
    assert_eq!(p.get_code(), "p_3");
    assert_eq!(*p.get_status(), PositionStatus::New);
    assert_eq!(p.get_candle().map(|c| c.close), Ok(1));
}

#[test]
fn from_state_refuses_what_it_cannot_read() {
    let mut state = blank_state();
    state.id = "11".to_string();
    assert_eq!(restore(state).err(), Some(Error::InvalidId));
    let mut state = blank_state();
    state.status = "fresh".to_string();
    assert_eq!(restore(state).err(), Some(Error::InvalidEnumValue));
    let mut state = blank_state();
    state.direction = Some("up".to_string());
    assert_eq!(restore(state).err(), Some(Error::InvalidEnumValue));
    let mut state = blank_state();
    state.entry_status = Some("done".to_string());
    assert_eq!(restore(state).err(), Some(Error::InvalidEnumValue));
    let mut state = blank_state();
    state.entry_order_type = Some("iceberg".to_string());
    assert_eq!(restore(state).err(), Some(Error::InvalidEnumValue));
    let mut state = blank_state();
    state.entry_action = Some("closeLong".to_string());
    assert_eq!(restore(state).err(), Some(Error::InvalidEnumValue));
    let mut state = blank_state();
    state.exit_action = Some("long".to_string());
    assert_eq!(restore(state).err(), Some(Error::InvalidEnumValue));
    let mut state = blank_state();
    state.entry_date = Some("soon".to_string());
    assert_eq!(restore(state).err(), Some(Error::InvalidTimestamp));
    let mut state = blank_state();
    state.exit_candle_timestamp = Some("2021-02-30T00:00:00Z".to_string());
    assert_eq!(restore(state).err(), Some(Error::InvalidTimestamp));
}

#[test]
fn from_state_reports_the_first_unreadable_field() {
    let mut state = blank_state();
    state.exit_date = Some("never".to_string());
    state.entry_action = Some("closeShort".to_string());
    assert_eq!(restore(state).err(), Some(Error::InvalidEnumValue));
    let mut state = blank_state();
    state.entry_date = Some("never".to_string());
    state.entry_action = Some("closeShort".to_string());
    state.id = "".to_string();
    assert_eq!(restore(state).err(), Some(Error::InvalidId));
    let mut state = blank_state();
    state.entry_date = Some("never".to_string());
    state.entry_action = Some("closeShort".to_string());
    assert_eq!(restore(state).err(), Some(Error::InvalidTimestamp));
}

fn signal_state(signal_type: &str, action: &str, order_type: &str, stamp: &str) -> SignalState {
    SignalState {
        signal_type: signal_type.to_string(),
        action: action.to_string(),
        order_type: order_type.to_string(),
        price: 12,
        candle_timestamp: stamp.to_string(),
    }
}

#[test]
fn from_state_reads_the_alerts_in_order() {
    let mut state = blank_state();
    state.alerts = vec![
        signal_state("alert", "long", "stop", "2021-01-01T00:00:00Z"),
        signal_state("alert", "short", "limit", "2021-01-01T00:30:00Z"),
    ];
    let p = Position::from_state(state, &None, &true).unwrap();
    assert_eq!(p.get_alerts().len(), 2);
    assert_eq!(p.get_alerts()[0], alert(TradeAction::Long, OrderType::Stop, 12));
    assert_eq!(p.get_alerts()[1].action, TradeAction::Short);
    assert_eq!(p.get_alerts()[1].candle_timestamp, Timestamp { nanos: T0 + HALF_HOUR });
    let mut state = blank_state();
    state.alerts = vec![
        signal_state("alert", "long", "stop", "2021-01-01T00:00:00Z"),
        signal_state("alert", "short", "limit", "later"),
        signal_state("alarm", "short", "limit", "2021-01-01T00:30:00Z"),
    ];
    assert_eq!(restore(state).err(), Some(Error::InvalidTimestamp));
}

#[test]
fn signal_state_round_trips() {
    let signal = Signal {
        signal_type: SignalType::Trade,
        action: TradeAction::CloseShort,
        order_type: OrderType::Limit,
        price: -5,
        candle_timestamp: Timestamp { nanos: T0 },
    };
    let state = signal.state();
    assert_eq!(state.signal_type, "trade");
    assert_eq!(state.action, "closeShort");
    assert_eq!(state.order_type, "limit");
    assert_eq!(state.price, -5);
    assert_eq!(state.candle_timestamp, "2021-01-01T00:00:00Z");
    assert_eq!(Signal::from_state(state), Ok(signal));
}

#[test]
fn signal_from_state_refuses_what_it_cannot_read() {
    let good = "2021-01-01T00:00:00Z";
    assert_eq!(
        Signal::from_state(signal_state("order", "long", "stop", good)),
        Err(Error::InvalidEnumValue)
    );
    assert_eq!(
        Signal::from_state(signal_state("alert", "buy", "stop", good)),
        Err(Error::InvalidEnumValue)
    );
    assert_eq!(
        Signal::from_state(signal_state("alert", "long", "stopLimit", good)),
        Err(Error::InvalidEnumValue)
    );
    assert_eq!(
        Signal::from_state(signal_state("alert", "long", "stop", "01/01/2021")),
        Err(Error::InvalidTimestamp)
    );
    assert_eq!(
        Signal::from_state(signal_state("order", "long", "stop", "01/01/2021")),
        Err(Error::InvalidEnumValue)
    );
}

#[test]
fn alerts_and_trades_are_projected_to_records() {
    let mut p = open_long(true);
    p.sell_at_stop_price(90).unwrap();
    p.sell_at_limit_price(130).unwrap();
    let alerts = p.alerts_state();
    assert_eq!(alerts.len(), 2);
    assert_eq!(alerts[0].order_type, "stop");
    assert_eq!(alerts[1].order_type, "limit");
    assert_eq!(alerts[1].price, 130);
    assert!(p.trades_state().is_empty());
    p.handle_candle(&Some(candle(1, 100, 131, 95, 105)));
    p.check_alerts().unwrap();
    let trades = p.trades_state();
    assert_eq!(trades.len(), 1);
    assert_eq!(trades[0].signal_type, "trade");
    assert_eq!(trades[0].action, "closeLong");
    assert_eq!(trades[0].price, 130);
    assert_eq!(trades[0].candle_timestamp, "2021-01-01T00:30:00Z");
}

#[test]
fn events_name_the_position_and_get_fresh_ids() {
    let parent = Some("p_1".to_string());
    let mut p = Position::with_id(
        0xabc,
        &"h".to_string(),
        &"h_2".to_string(),
        &parent,
        &Some(candle(0, 100, 110, 95, 105)),
        true,
    );
    p.buy_at_stop_price(200).unwrap();
    p.buy_at_limit_price(50).unwrap();
    let events = p.alert_events();
    assert_eq!(events.len(), 2);
    for event in &events {
        assert_eq!(event.position_id, "00000000-0000-0000-0000-000000000abc");
        assert_eq!(event.position_prefix, "h");
        assert_eq!(event.position_code, "h_2");
        assert_eq!(event.position_parent_id, Some("p_1".to_string()));
        assert_eq!(event.signal_type, "alert");
        assert_eq!(event.action, "long");
        assert_eq!(event.candle_timestamp, "2021-01-01T00:00:00Z");
        assert_eq!(event.timestamp, "2021-01-01T00:00:00Z");
        assert!(parse_id(&event.id).is_ok());
    }
    assert_eq!(events[0].order_type, "stop");
    assert_eq!(events[0].price, 200);
    assert_eq!(events[1].order_type, "limit");
    assert_eq!(events[1].price, 50);
    assert_ne!(events[0].id, events[1].id);
    assert_ne!(p.alert_events()[0].id, events[0].id);
    assert!(p.trade_events().is_empty());
}

#[test]
fn events_of_a_live_run_are_timed_by_the_clock() {
    let mut p = position(Some(candle(0, 100, 110, 95, 105)), false);
    p.open_at(alert(TradeAction::Long, OrderType::Market, 100), Timestamp { nanos: 5 }).unwrap();
    let now = Timestamp { nanos: T0 + 9 * HALF_HOUR };
    let events = p.trade_events_at(now);
    assert_eq!(events.len(), 1);
    assert_eq!(events[0].timestamp, "2021-01-01T04:30:00Z");
    assert_eq!(events[0].candle_timestamp, "2021-01-01T00:00:00Z");
    assert_eq!(events[0].signal_type, "trade");
    let before = Timestamp::now();
    let events = p.trade_events();
    let after = Timestamp::now();
    let timed = Timestamp::parse(&events[0].timestamp).unwrap();
    assert!(before.nanos <= timed.nanos && timed.nanos <= after.nanos);
}

#[test]
fn one_event_is_built_from_its_parts() {
    let p = position(Some(candle(0, 100, 110, 95, 105)), false);
    let signal = alert(TradeAction::CloseShort, OrderType::Limit, 33);
    let event = p.event(&signal, 0xfeed, Timestamp { nanos: T0 + HALF_HOUR });
    assert_eq!(event.id, "00000000-0000-0000-0000-00000000feed");
    assert_eq!(event.timestamp, "2021-01-01T00:30:00Z");
    assert_eq!(event.position_id, "00000000-0000-0000-0000-000000000007");
    assert_eq!(event.action, "closeShort");
    assert_eq!(event.order_type, "limit");
    assert_eq!(event.price, 33);
}
