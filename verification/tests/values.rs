use rs_api::code::format_code;
use rs_api::error::Error;
use rs_api::ident::{format_id, fresh_id, parse_id};
use rs_api::state::{
    OrderDirection, OrderType, PositionDirection, PositionStatus, SignalType, TradeAction,
};
use rs_api::strategy::StrategyType;
use rs_api::timestamp::Timestamp;

fn text(s: &str) -> String {
    s.to_string()
}

#[test]
fn direction_tokens_round_trip() {
    for direction in [PositionDirection::Long, PositionDirection::Short] {
        let token = direction.to_str();
        assert_eq!(PositionDirection::from_str(&token), Ok(Some(direction)));
    }
    assert_eq!(PositionDirection::Long.to_str(), Some(text("long")));
    assert_eq!(PositionDirection::Short.to_str(), Some(text("short")));
}

#[test]
fn absent_token_is_no_value() {
    assert_eq!(PositionDirection::from_str(&None), Ok(None));
    assert_eq!(PositionStatus::from_str(&None), Ok(None));
    assert_eq!(OrderType::from_str(&None), Ok(None));
    assert_eq!(TradeAction::from_str(&None), Ok(None));
    assert_eq!(TradeAction::entry_from_str(&None), Ok(None));
    assert_eq!(TradeAction::exit_from_str(&None), Ok(None));
}

#[test]
fn unknown_token_is_an_error_never_a_default() {
    assert_eq!(PositionDirection::from_str(&Some(text("up"))), Err(Error::InvalidEnumValue));
    assert_eq!(PositionDirection::parse(&text("Long")), Err(Error::InvalidEnumValue));
    assert_eq!(PositionStatus::from_str(&Some(text(""))), Err(Error::InvalidEnumValue));
    assert_eq!(PositionStatus::parse(&text("opened")), Err(Error::InvalidEnumValue));
    assert_eq!(OrderType::from_str(&Some(text("trailing"))), Err(Error::InvalidEnumValue));
    assert_eq!(OrderDirection::from_str(&text("hold")), Err(Error::InvalidEnumValue));
    assert_eq!(TradeAction::from_str(&Some(text("closelong"))), Err(Error::InvalidEnumValue));
    assert_eq!(SignalType::from_str(&text("fill")), Err(Error::InvalidEnumValue));
    assert_eq!(StrategyType::from_str(&text("t2")), Err(Error::InvalidEnumValue));
}

#[test]
fn status_tokens_round_trip() {
    let expected = [
        (PositionStatus::New, "new"),
        (PositionStatus::Open, "open"),
        (PositionStatus::Closed, "closed"),
    ];
    for (status, token) in expected {
        assert_eq!(status.to_str(), Some(text(token)));
        assert_eq!(PositionStatus::parse(&text(token)), Ok(status));
        assert_eq!(PositionStatus::from_str(&Some(text(token))), Ok(Some(status)));
    }
}

#[test]
fn order_type_tokens_round_trip() {
    let expected =
        [(OrderType::Market, "market"), (OrderType::Limit, "limit"), (OrderType::Stop, "stop")];
    for (order_type, token) in expected {
        assert_eq!(order_type.to_str(), Some(text(token)));
        assert_eq!(OrderType::parse(&text(token)), Ok(order_type));
    }
}

#[test]
fn order_direction_tokens_round_trip() {
    assert_eq!(OrderDirection::Buy.to_str(), text("buy"));
    assert_eq!(OrderDirection::Sell.to_str(), text("sell"));
    assert_eq!(OrderDirection::from_str(&text("buy")), Ok(OrderDirection::Buy));
    assert_eq!(OrderDirection::from_str(&text("sell")), Ok(OrderDirection::Sell));
}

#[test]
fn signal_type_tokens_round_trip() {
    assert_eq!(SignalType::Alert.to_str(), text("alert"));
    assert_eq!(SignalType::Trade.to_str(), text("trade"));
    assert_eq!(SignalType::from_str(&text("alert")), Ok(SignalType::Alert));
    assert_eq!(SignalType::from_str(&text("trade")), Ok(SignalType::Trade));
}

#[test]
fn action_tokens_round_trip() {
    let expected = [
        (TradeAction::Long, "long"),
        (TradeAction::Short, "short"),
        (TradeAction::CloseLong, "closeLong"),
        (TradeAction::CloseShort, "closeShort"),
    ];
    for (action, token) in expected {
        assert_eq!(action.to_str(), Some(text(token)));
        assert_eq!(TradeAction::parse(&text(token)), Ok(action));
        assert_eq!(TradeAction::from_str(&Some(text(token))), Ok(Some(action)));
    }
}

#[test]
fn entry_and_exit_actions_are_read_apart() {
    assert_eq!(TradeAction::entry_from_str(&Some(text("long"))), Ok(Some(TradeAction::Long)));
    assert_eq!(TradeAction::entry_from_str(&Some(text("short"))), Ok(Some(TradeAction::Short)));
    assert_eq!(
        TradeAction::entry_from_str(&Some(text("closeLong"))),
        Err(Error::InvalidEnumValue)
    );
    assert_eq!(
        TradeAction::exit_from_str(&Some(text("closeLong"))),
        Ok(Some(TradeAction::CloseLong))
    );
    assert_eq!(
        TradeAction::exit_from_str(&Some(text("closeShort"))),
        Ok(Some(TradeAction::CloseShort))
    );
    assert_eq!(TradeAction::exit_from_str(&Some(text("long"))), Err(Error::InvalidEnumValue));
    assert_eq!(TradeAction::exit_from_str(&Some(text("sideways"))), Err(Error::InvalidEnumValue));
}

#[test]
fn strategy_type_tokens_round_trip() {
    let expected = [
        (StrategyType::Breakout, "breakout"),
        (StrategyType::BreakoutV2, "breakout_v2"),
        (StrategyType::Channels, "channels"),
        (StrategyType::CounterCandle, "counter_candle"),
        (StrategyType::DoubleReverseMM, "double_reverse_mm"),
        (StrategyType::FxCash, "fx_cash"),
        (StrategyType::IRSTS, "irsts"),
        (StrategyType::Parabolic, "parabolic"),
        (StrategyType::T2TrendFriend, "t2_trend_friend"),
        (StrategyType::TrendlingLong, "trendling_long"),
        (StrategyType::TrendlingShort, "trendling_short"),
    ];
    for (strategy_type, token) in expected {
        assert_eq!(strategy_type.as_str(), text(token));
        assert_eq!(StrategyType::from_str(&text(token)), Ok(strategy_type));
    }
}

#[test]
fn timestamp_is_written_as_iso_text() {
    assert_eq!(Timestamp { nanos: 0 }.format(), "1970-01-01T00:00:00Z");
    assert_eq!(Timestamp { nanos: 1_609_459_200_000_000_000 }.format(), "2021-01-01T00:00:00Z");
    assert_eq!(
        Timestamp { nanos: 1_609_459_200_123_000_000 }.format(),
        "2021-01-01T00:00:00.123Z"
    );
    assert_eq!(Timestamp { nanos: -1 }.format(), "1969-12-31T23:59:59.999999999Z");
}

#[test]
fn timestamp_is_read_from_iso_text() {
    assert_eq!(
        Timestamp::parse("2021-01-01T00:00:00Z"),
        Ok(Timestamp { nanos: 1_609_459_200_000_000_000 })
    );
    assert_eq!(
        Timestamp::parse("2021-01-01T00:30:00.000Z"),
        Ok(Timestamp { nanos: 1_609_461_000_000_000_000 })
    );
    assert_eq!(
        Timestamp::parse("2021-01-01 02:00:00+02:00"),
        Ok(Timestamp { nanos: 1_609_459_200_000_000_000 })
    );
}

#[test]
fn timestamp_that_cannot_be_read_is_an_error() {
    assert_eq!(Timestamp::parse(""), Err(Error::InvalidTimestamp));
    assert_eq!(Timestamp::parse("yesterday"), Err(Error::InvalidTimestamp));
    assert_eq!(Timestamp::parse("2021-13-01T00:00:00Z"), Err(Error::InvalidTimestamp));
    assert_eq!(Timestamp::parse("2021-01-01"), Err(Error::InvalidTimestamp));
    assert_eq!(Timestamp::parse("3000-01-01T00:00:00Z"), Err(Error::InvalidTimestamp));
}

#[test]
fn timestamp_round_trips_through_text() {
    for nanos in [i64::MIN, -1_000_000_007, -1, 0, 1, 1_609_459_200_000_000_000, i64::MAX] {
        let instant = Timestamp { nanos };
        assert_eq!(Timestamp::parse(&instant.format()), Ok(instant));
    }
}

#[test]
fn instant_from_parts_saturates() {
    assert_eq!(Timestamp::from_parts(0, 0), Timestamp { nanos: 0 });
    assert_eq!(Timestamp::from_parts(1_609_459_200, 5), Timestamp { nanos: 1_609_459_200_000_000_005 });
    assert_eq!(Timestamp::from_parts(-1, 999_999_999), Timestamp { nanos: -1 });
    assert_eq!(Timestamp::from_parts(9_223_372_036, 854_775_807), Timestamp { nanos: i64::MAX });
    assert_eq!(Timestamp::from_parts(9_223_372_036, 854_775_808), Timestamp { nanos: i64::MAX });
    assert_eq!(Timestamp::from_parts(i64::MAX, u32::MAX), Timestamp { nanos: i64::MAX });
    assert_eq!(Timestamp::from_parts(-9_223_372_037, 145_224_192), Timestamp { nanos: i64::MIN });
    assert_eq!(Timestamp::from_parts(-9_223_372_037, 145_224_191), Timestamp { nanos: i64::MIN });
    assert_eq!(Timestamp::from_parts(i64::MIN, 0), Timestamp { nanos: i64::MIN });
}

#[test]
fn clock_reads_a_time_of_this_century() {
    let now = Timestamp::now();
    assert!(now.nanos > 1_600_000_000_000_000_000);
}

#[test]
fn id_is_written_as_hyphenated_text() {
    assert_eq!(format_id(0), "00000000-0000-0000-0000-000000000000");
    assert_eq!(
        format_id(0xa1a2a3a4b1b2c1c2d1d2d3d4d5d6d7d8),
        "a1a2a3a4-b1b2-c1c2-d1d2-d3d4d5d6d7d8"
    );
    assert_eq!(format_id(u128::MAX), "ffffffff-ffff-ffff-ffff-ffffffffffff");
    assert_eq!(format_id(0x0123456789abcdef0fedcba987654321), "01234567-89ab-cdef-0fed-cba987654321");
}

#[test]
fn id_is_read_from_text() {
    assert_eq!(
        parse_id("a1a2a3a4-b1b2-c1c2-d1d2-d3d4d5d6d7d8"),
        Ok(0xa1a2a3a4b1b2c1c2d1d2d3d4d5d6d7d8)
    );
    assert_eq!(
        parse_id("A1A2A3A4B1B2C1C2D1D2D3D4D5D6D7D8"),
        Ok(0xa1a2a3a4b1b2c1c2d1d2d3d4d5d6d7d8)
    );
    assert_eq!(parse_id("not-an-id"), Err(Error::InvalidId));
    assert_eq!(parse_id(""), Err(Error::InvalidId));
}

#[test]
fn id_round_trips_through_text() {
    for id in [0u128, 1, 0x8000_0000_0000_0000_0000_0000_0000_0000, u128::MAX, fresh_id()] {
        assert_eq!(parse_id(&format_id(id)), Ok(id));
    }
}

#[test]
fn fresh_ids_differ() {
    assert_ne!(fresh_id(), fresh_id());
}

#[test]
fn fresh_id_is_a_random_uuid() {
    for _ in 0..32 {
        let id = fresh_id();
        assert_eq!(
            id & 0x0000_0000_0000_f000_c000_0000_0000_0000,
            0x0000_0000_0000_4000_8000_0000_0000_0000
        );
        let text = format_id(id);
        assert_eq!(&text[14..15], "4");
        assert!(["8", "9", "a", "b"].contains(&&text[19..20]));
    }
}

#[test]
fn code_is_prefix_underscore_number() {
    assert_eq!(format_code(&text("p"), 1), "p_1");
    assert_eq!(format_code(&text("p"), 0), "p_0");
    assert_eq!(format_code(&text("hedge"), 10), "hedge_10");
    assert_eq!(format_code(&text("a_b"), 907), "a_b_907");
    assert_eq!(format_code(&text(""), u32::MAX), "_4294967295");
}

#[test]
fn every_error_has_a_message() {
    assert_eq!(Error::AlreadyOpen.message(), "Position is already open");
    assert_eq!(Error::NotOpenYet.message(), "Position is not open");
    assert_eq!(Error::AlreadyClosed.message(), "Position is already closed");
    assert_eq!(Error::NoActivePosition.message(), "No active position");
    assert_eq!(Error::NoCandleAvailable.message(), "No candle found");
    assert_eq!(Error::EmptyCandleBatch.message(), "candles is empty");
    assert_eq!(Error::NotImplemented.message(), "Strategy not implemented");
    for error in [
        Error::InvalidTransition,
        Error::InvalidEnumValue,
        Error::InvalidTimestamp,
        Error::InvalidId,
        Error::SequenceExhausted,
        Error::DuplicateCode,
        Error::MissingIndicator,
    ] {
        assert!(!error.message().is_empty());
    }
}
