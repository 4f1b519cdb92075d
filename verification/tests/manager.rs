use rs_api::candle::Candle;
use rs_api::error::Error;
use rs_api::ident::{format_id, parse_id};
use rs_api::manager::PositionManager;
use rs_api::records::{PositionInternalState, PositionState};
use rs_api::state::{PositionDirection, PositionStatus};
use rs_api::timestamp::Timestamp;

const T0: i64 = 1_609_459_200_000_000_000;

const HALF_HOUR: i64 = 1_800_000_000_000;

fn candle(step: i64, open: i64, high: i64, low: i64, close: i64) -> Candle {
    Candle {
        time: (T0 + step * HALF_HOUR) / 1_000_000,
        timestamp: Timestamp { nanos: T0 + step * HALF_HOUR },
        timeframe: 30,
        open,
        high,
        low,
        close,
        volume: 1_000,
    }
}

fn manager(backtest: bool) -> PositionManager {
    PositionManager::new(&None, &None, backtest).unwrap()
}

fn record(id: u128, prefix: &str, code: &str, status: &str) -> PositionState {
    let open = status != "new";
    let closed = status == "closed";
    let stamp = Some("2021-01-01T00:00:00Z".to_string());
    PositionState {
        id: format_id(id),
        prefix: prefix.to_string(),
        code: code.to_string(),
        parent_id: None,
        direction: if open { Some("long".to_string()) } else { None },
        status: status.to_string(),
        entry_status: if open { Some("closed".to_string()) } else { None },
        entry_price: if open { Some(100) } else { None },
        entry_date: if open { stamp.clone() } else { None },
        entry_order_type: if open { Some("market".to_string()) } else { None },
        entry_action: if open { Some("long".to_string()) } else { None },
        entry_candle_timestamp: if open { stamp.clone() } else { None },
        exit_status: if closed { Some("closed".to_string()) } else { None },
        exit_price: if closed { Some(110) } else { None },
        exit_date: if closed { stamp.clone() } else { None },
        exit_order_type: if closed { Some("market".to_string()) } else { None },
        exit_action: if closed { Some("closeLong".to_string()) } else { None },
        exit_candle_timestamp: if closed { stamp } else { None },
        alerts: Vec::new(),
        internal_state: PositionInternalState { highest_high: None, lowest_low: None, stop: None },
    }
}

#[test]
fn new_manager_is_empty() {
    let m = manager(true);
    assert_eq!(m.len(), 0);
    assert_eq!(m.position_last_num(), 0);
    assert_eq!(*m.get_candle(), None);
    assert!(m.is_backtest());
    assert!(!m.has_active_position());
    assert!(m.positions_state().is_empty());
    assert!(m.alerts_state().is_empty());
    assert!(m.trades_state().is_empty());
    assert!(m.alert_events().is_empty());
    assert!(m.trade_events().is_empty());
}

#[test]
fn create_twice_gives_p_1_and_p_2() {
    let mut m = manager(true);
    assert_eq!(m.create().unwrap().get_code(), "p_1");
    assert!(m.has_active_position());
    assert_eq!(m.create_position_ext(None, None).unwrap().get_code(), "p_2");
    assert!(m.has_active_position());
    assert_eq!(m.position_last_num(), 2);
    assert_eq!(m.len(), 2);
    let states = m.positions_state();
    assert_eq!(states[0].code, "p_1");
    assert_eq!(states[1].code, "p_2");
    assert_eq!(states[0].prefix, "p");
    assert_eq!(states[0].status, "new");
    assert_ne!(states[0].id, states[1].id);
}

#[test]
fn create_uses_the_prefix_and_the_parent() {
    let mut m = manager(true);
    m.handle_candle(&candle(0, 100, 110, 95, 105));
    m.create().unwrap();
    let hedge =
        m.create_position_ext(Some("hedge".to_string()), Some("p_1".to_string())).unwrap();
    assert_eq!(hedge.get_code(), "hedge_2");
    assert_eq!(hedge.get_prefix(), "hedge");
    assert_eq!(*hedge.get_parent_id(), Some("p_1".to_string()));
    assert_eq!(hedge.get_candle().map(|c| c.close), Ok(105));
    assert!(m.has_active_position_prefix(&"hedge".to_string()));
    assert!(!m.has_active_position_prefix(&"other".to_string()));
}

#[test]
fn create_with_id_uses_the_id() {
    let mut m = manager(false);
    let p = m.create_with_id(99, None, None).unwrap();
    assert_eq!(p.get_id(), 99);
    assert_eq!(m.positions_state()[0].id, "00000000-0000-0000-0000-000000000063");
}

#[test]
fn created_position_can_be_changed_through_the_handle() {
    let mut m = manager(true);
    m.handle_candle(&candle(0, 100, 110, 95, 105));
    m.create().unwrap().buy_at_market().unwrap();
    assert_eq!(m.alerts_state().len(), 1);
    assert_eq!(m.alerts_state()[0].price, 105);
}

#[test]
fn sequence_counter_is_seeded_and_never_reused() {
    let mut m = PositionManager::new(&None, &Some(41), true).unwrap();
    assert_eq!(m.create().unwrap().get_code(), "p_42");
    m.handle_candle(&candle(0, 100, 110, 95, 105));
    m.get_active_position().unwrap().buy_at_market().unwrap();
    m.check_alerts().unwrap();
    m.get_active_position().unwrap().sell_at_market().unwrap();
    m.check_alerts().unwrap();
    m.clear_closed_positions();
    assert_eq!(m.len(), 0);
    assert_eq!(m.create().unwrap().get_code(), "p_43");
    assert_eq!(m.position_last_num(), 43);
}

#[test]
fn sequence_counter_at_its_end_creates_nothing() {
    let mut m = PositionManager::new(&None, &Some(u32::MAX), true).unwrap();
    assert_eq!(m.create().err(), Some(Error::SequenceExhausted));
    assert_eq!(m.len(), 0);
    assert_eq!(m.position_last_num(), u32::MAX);
}

#[test]
fn taken_code_creates_nothing() {
    let records = Some(vec![record(1, "p", "p_5", "new")]);
    let mut m = PositionManager::new(&records, &Some(4), true).unwrap();
    assert_eq!(m.create().err(), Some(Error::DuplicateCode));
    assert_eq!(m.len(), 1);
    assert_eq!(m.position_last_num(), 4);
    assert_eq!(m.create_position_ext(Some("q".to_string()), None).unwrap().get_code(), "q_5");
    assert_eq!(m.position_last_num(), 5);
}

#[test]
fn manager_is_rehydrated_in_the_order_of_the_records() {
    let records = Some(vec![
        record(1, "p", "p_1", "closed"),
        record(2, "h", "h_2", "open"),
        record(3, "p", "p_3", "new"),
    ]);
    let m = PositionManager::new(&records, &Some(3), false).unwrap();
    assert_eq!(m.len(), 3);
    assert_eq!(m.position_last_num(), 3);
    assert!(!m.is_backtest());
    let states = m.positions_state();
    assert_eq!(states[0].code, "p_1");
    assert_eq!(states[1].code, "h_2");
    assert_eq!(states[2].code, "p_3");
    assert_eq!(states[1].status, "open");
    assert_eq!(states[1].entry_price, Some(100));
}

#[test]
fn later_record_replaces_an_earlier_one_with_the_same_code() {
    let records = Some(vec![
        record(1, "p", "p_1", "new"),
        record(2, "p", "p_2", "new"),
        record(3, "p", "p_1", "open"),
    ]);
    let m = PositionManager::new(&records, &Some(2), true).unwrap();
    assert_eq!(m.len(), 2);
    let states = m.positions_state();
    assert_eq!(states[0].code, "p_1");
    assert_eq!(states[0].status, "open");
    assert_eq!(parse_id(&states[0].id), Ok(3));
    assert_eq!(states[1].code, "p_2");
}

#[test]
fn unreadable_record_makes_no_manager() {
    let mut bad = record(2, "p", "p_2", "new");
    bad.status = "unknown".to_string();
    let records = Some(vec![record(1, "p", "p_1", "new"), bad]);
    assert_eq!(PositionManager::new(&records, &None, true).err(), Some(Error::InvalidEnumValue));
    let mut bad = record(2, "p", "p_2", "new");
    bad.id = "2".to_string();
    assert_eq!(
        PositionManager::new(&Some(vec![bad]), &None, true).err(),
        Some(Error::InvalidId)
    );
    let mut bad = record(2, "p", "p_2", "open");
    bad.entry_date = Some("today".to_string());
    assert_eq!(
        PositionManager::new(&Some(vec![bad]), &None, true).err(),
        Some(Error::InvalidTimestamp)
    );
}

#[test]
fn positions_state_round_trips_through_new() {
    let mut m = manager(true);
    m.handle_candle(&candle(0, 100, 110, 95, 105));
    m.create().unwrap().buy_at_market().unwrap();
    m.create_position_ext(Some("h".to_string()), Some("p_1".to_string()))
        .unwrap()
        .short_at_limit_price(109)
        .unwrap();
    m.check_alerts().unwrap();
    let states = m.positions_state();
    let again = PositionManager::new(&Some(states.clone()), &Some(m.position_last_num()), true)
        .unwrap();
    let restored = again.positions_state();
    assert_eq!(restored.len(), 2);
    for (a, b) in restored.iter().zip(states.iter()) {
        assert_eq!(a.id, b.id);
        assert_eq!(a.code, b.code);
        assert_eq!(a.status, b.status);
        assert_eq!(a.direction, b.direction);
        assert_eq!(a.entry_price, b.entry_price);
        assert_eq!(a.entry_date, b.entry_date);
        assert_eq!(a.parent_id, b.parent_id);
    }
    assert_eq!(again.position_last_num(), 2);
    assert!(again.trades_state().is_empty());
}

#[test]
fn candle_is_handed_to_every_position() {
    let records = Some(vec![record(1, "p", "p_1", "open"), record(2, "h", "h_2", "new")]);
    let mut m = PositionManager::new(&records, &Some(2), true).unwrap();
    m.handle_candle(&candle(1, 100, 110, 95, 105));
    m.handle_candle(&candle(2, 100, 108, 90, 105));
    assert_eq!(m.get_candle().map(|c| c.low), Some(90));
    let states = m.positions_state();
    assert_eq!(states[0].internal_state.highest_high, Some(110));
    assert_eq!(states[0].internal_state.lowest_low, Some(90));
    assert_eq!(states[1].internal_state.highest_high, None);
}

#[test]
fn has_active_position_looks_at_the_prefix_only() {
    let records = Some(vec![record(1, "p", "p_1", "closed")]);
    let mut m = PositionManager::new(&records, &Some(1), true).unwrap();
    assert!(m.has_active_position());
    assert_eq!(m.get_active_position().err(), Some(Error::NoActivePosition));
    m.clear_closed_positions();
    assert!(!m.has_active_position());
}

#[test]
fn active_position_is_the_oldest_new_or_open_one_of_the_default_slot() {
    let records = Some(vec![
        record(1, "p", "p_1", "closed"),
        record(2, "h", "h_2", "open"),
        record(3, "p", "p_3", "open"),
        record(4, "p", "p_4", "new"),
    ]);
    let mut m = PositionManager::new(&records, &Some(4), true).unwrap();
    let active = m.get_active_position().unwrap();
    assert_eq!(active.get_code(), "p_3");
    assert_eq!(*active.get_status(), PositionStatus::Open);
    assert_eq!(*active.get_direction(), Some(PositionDirection::Long));
}

#[test]
fn no_active_position_is_an_error() {
    let mut m = manager(true);
    assert_eq!(m.get_active_position().err(), Some(Error::NoActivePosition));
    m.create_position_ext(Some("h".to_string()), None).unwrap();
    assert_eq!(m.get_active_position().err(), Some(Error::NoActivePosition));
}

#[test]
fn only_closed_positions_are_cleared() {
    let records = Some(vec![
        record(1, "p", "p_1", "closed"),
        record(2, "h", "h_2", "open"),
        record(3, "p", "p_3", "closed"),
        record(4, "p", "p_4", "new"),
        record(5, "p", "p_5", "closed"),
    ]);
    let mut m = PositionManager::new(&records, &Some(5), true).unwrap();
    m.clear_closed_positions();
    let codes: Vec<String> = m.positions_state().into_iter().map(|s| s.code).collect();
    assert_eq!(codes, vec!["h_2".to_string(), "p_4".to_string()]);
    m.clear_closed_positions();
    assert_eq!(m.len(), 2);
    assert_eq!(m.position_last_num(), 5);
}

#[test]
fn check_alerts_resolves_each_position_on_its_own() {
    let mut m = manager(true);
    m.handle_candle(&candle(0, 100, 110, 95, 105));
    m.create().unwrap().buy_at_stop_price(120).unwrap();
    let second = m.create().unwrap();
    second.buy_at_market().unwrap();
    second.buy_at_market().unwrap();
    m.create().unwrap().short_at_limit_price(109).unwrap();
    m.handle_candle(&candle(1, 101, 111, 96, 106));
    m.check_alerts().unwrap();
    let states = m.positions_state();
    assert_eq!(states[0].status, "new");
    assert_eq!(states[0].alerts.len(), 1);
    assert_eq!(states[1].status, "open");
    assert_eq!(states[1].entry_price, Some(101));
    assert!(states[1].alerts.is_empty());
    assert_eq!(states[2].status, "open");
    assert_eq!(states[2].direction, Some("short".to_string()));
    assert_eq!(states[2].entry_price, Some(109));
    let trades = m.trades_state();
    assert_eq!(trades.len(), 2);
    assert_eq!(trades[0].price, 101);
    assert_eq!(trades[1].price, 109);
    m.check_alerts().unwrap();
    assert_eq!(m.trades_state().len(), 2);
}

#[test]
fn check_alerts_stops_at_the_first_error_and_keeps_what_was_done() {
    let mut m = manager(true);
    m.handle_candle(&candle(0, 100, 110, 95, 105));
    m.create().unwrap().buy_at_market().unwrap();
    let second = m.create().unwrap();
    second.buy_at_market().unwrap();
    second.buy_at_market().unwrap();
    second.check_alerts().unwrap();
    second.clear_trades();
    second.sell_at_market().unwrap();
    second.sell_at_market().unwrap();
    second.check_alerts().unwrap();
    second.clear_trades();
    assert_eq!(*second.get_status(), PositionStatus::Closed);
    m.create().unwrap().buy_at_market().unwrap();
    let records = m.positions_state();
    let mut stale = records[1].clone();
    stale.alerts = records[0].alerts.clone();
    let rebuilt = vec![records[0].clone(), stale, records[2].clone()];
    let mut m = PositionManager::new(&Some(rebuilt), &Some(3), true).unwrap();
    m.handle_candle(&candle(1, 101, 111, 96, 106));
    assert_eq!(m.check_alerts(), Err(Error::AlreadyOpen));
    let states = m.positions_state();
    assert_eq!(states[0].status, "open");
    assert_eq!(states[0].entry_price, Some(101));
    assert_eq!(states[1].status, "closed");
    assert_eq!(states[1].alerts.len(), 1);
    assert_eq!(states[2].status, "new");
    assert_eq!(states[2].alerts.len(), 1);
    assert_eq!(m.trades_state().len(), 1);
}

#[test]
fn alerts_and_trades_are_cleared_on_every_position() {
    let mut m = manager(true);
    m.handle_candle(&candle(0, 100, 110, 95, 105));
    m.create().unwrap().buy_at_market().unwrap();
    m.create().unwrap().buy_at_stop_price(500).unwrap();
    m.check_alerts().unwrap();
    m.get_active_position().unwrap().sell_at_limit_price(400).unwrap();
    assert_eq!(m.alerts_state().len(), 2);
    assert_eq!(m.trades_state().len(), 1);
    m.clear_trades();
    assert!(m.trades_state().is_empty());
    assert_eq!(m.alerts_state().len(), 2);
    m.clear_alerts();
    assert!(m.alerts_state().is_empty());
    assert_eq!(m.len(), 2);
}

#[test]
fn clear_all_starts_a_cycle_afresh() {
    let records = Some(vec![record(1, "p", "p_1", "closed"), record(2, "p", "p_2", "open")]);
    let mut m = PositionManager::new(&records, &Some(2), true).unwrap();
    m.handle_candle(&candle(0, 100, 110, 95, 105));
    m.get_active_position().unwrap().sell_at_stop_price(1).unwrap();
    m.clear_all();
    assert_eq!(m.len(), 1);
    assert!(m.alerts_state().is_empty());
    assert!(m.trades_state().is_empty());
    assert_eq!(m.positions_state()[0].code, "p_2");
}

#[test]
fn events_are_reported_position_by_position() {
    let mut m = manager(true);
    m.handle_candle(&candle(0, 100, 110, 95, 105));
    let first = m.create().unwrap();
    first.buy_at_stop_price(200).unwrap();
    first.buy_at_limit_price(50).unwrap();
    m.create_position_ext(Some("h".to_string()), Some("p_1".to_string()))
        .unwrap()
        .short_at_market()
        .unwrap();
    let alerts = m.alert_events();
    assert_eq!(alerts.len(), 3);
    assert_eq!(alerts[0].position_code, "p_1");
    assert_eq!(alerts[0].order_type, "stop");
    assert_eq!(alerts[1].position_code, "p_1");
    assert_eq!(alerts[1].order_type, "limit");
    assert_eq!(alerts[2].position_code, "h_2");
    assert_eq!(alerts[2].position_parent_id, Some("p_1".to_string()));
    assert_eq!(alerts[2].timestamp, "2021-01-01T00:00:00Z");
    assert_ne!(alerts[0].id, alerts[1].id);
    assert_ne!(alerts[1].id, alerts[2].id);
    m.handle_candle(&candle(1, 101, 111, 96, 106));
    m.check_alerts().unwrap();
    let trades = m.trade_events();
    assert_eq!(trades.len(), 1);
    assert_eq!(trades[0].position_code, "h_2");
    assert_eq!(trades[0].signal_type, "trade");
    assert_eq!(trades[0].action, "short");
    assert_eq!(trades[0].price, 101);
    assert_eq!(trades[0].timestamp, "2021-01-01T00:30:00Z");
    assert_eq!(trades[0].candle_timestamp, "2021-01-01T00:30:00Z");
    assert_eq!(m.alert_events().len(), 2);
}

#[test]
fn events_of_a_live_manager_are_timed_as_told() {
    let mut m = manager(false);
    m.handle_candle(&candle(0, 100, 110, 95, 105));
    m.create().unwrap().buy_at_market().unwrap();
    let now = Timestamp { nanos: T0 + 3 * HALF_HOUR };
    let alerts = m.alert_events_at(now);
    assert_eq!(alerts[0].timestamp, "2021-01-01T01:30:00Z");
    m.check_alerts_at(now).unwrap();
    assert_eq!(m.positions_state()[0].entry_date, Some("2021-01-01T01:30:00Z".to_string()));
    assert_eq!(m.positions_state()[0].entry_price, Some(105));
    let trades = m.trade_events_at(now);
    assert_eq!(trades[0].timestamp, "2021-01-01T01:30:00Z");
}

#[test]
fn back_test_never_depends_on_the_clock() {
    let mut states = Vec::new();
    for nanos in [0, T0, i64::MAX] {
        let mut m = manager(true);
        m.handle_candle(&candle(0, 100, 110, 95, 105));
        m.create_with_id(1, None, None).unwrap().buy_at_market().unwrap();
        m.create_with_id(2, None, None).unwrap().short_at_limit_price(109).unwrap();
        m.handle_candle(&candle(1, 101, 111, 96, 106));
        m.check_alerts_at(Timestamp { nanos }).unwrap();
        states.push(m.positions_state());
    }
    assert_eq!(states[0], states[1]);
    assert_eq!(states[1], states[2]);
    assert_eq!(states[0][0].entry_date, Some("2021-01-01T00:30:00Z".to_string()));
}
