//! The enumerations of the position model and their wire tokens.
//!
//! Each enumeration is written to the wire as a short token. Reading is
//! exhaustive: a token that names no variant is an error, never a default.

use vstd::prelude::*;
use vstd::string::StringExecFns;
use crate::error::Error;

verus! {

/// The side of the market a position is on.
#[derive(Clone, Copy, Debug, PartialEq, Eq, Structural)]
pub enum PositionDirection {
    Long,
    Short,
}

impl PositionDirection {
    /// The wire token of the direction.
    pub open spec fn token(self) -> Seq<char> {
        match self {
            PositionDirection::Long => "long"@,
            PositionDirection::Short => "short"@,
        }
    }

    /// The direction that a wire token names, if it names one.
    pub open spec fn from_token(token: Seq<char>) -> Option<PositionDirection> {
        if token == "long"@ {
            Some(PositionDirection::Long)
        } else if token == "short"@ {
            Some(PositionDirection::Short)
        } else {
            None
        }
    }

    /// What reading a wire token gives: the direction it names, or the error.
    pub open spec fn parsed(token: Seq<char>) -> Result<PositionDirection, Error> {
        match Self::from_token(token) {
            Some(value) => Ok(value),
            None => Err(Error::InvalidEnumValue),
        }
    }

    /// What reading an optional wire token gives: nothing for an absent token,
    /// the direction for a token that names one, the error for any other.
    pub open spec fn parsed_optional(token: Option<Seq<char>>) -> Result<Option<PositionDirection>, Error> {
        match token {
            None => Ok(None),
            Some(text) => match Self::from_token(text) {
                Some(value) => Ok(Some(value)),
                None => Err(Error::InvalidEnumValue),
            },
        }
    }

    /// Reads a direction from its wire token.
    pub fn parse(token: &String) -> (r: Result<PositionDirection, Error>)
        ensures
            r == Self::parsed(token@),
    {
        if *token == String::from_str("long") {
            Ok(PositionDirection::Long)
        } else if *token == String::from_str("short") {
            Ok(PositionDirection::Short)
        } else {
            Err(Error::InvalidEnumValue)
        }
    }

    /// Reads an optional direction: an absent token is no direction, an unknown
    /// token is an error.
    pub fn from_str(token: &Option<String>) -> (r: Result<Option<PositionDirection>, Error>)
        ensures
            r == Self::parsed_optional(token.deep_view()),
    {
        match token {
            None => Ok(None),
            Some(text) => match Self::parse(text) {
                Ok(value) => Ok(Some(value)),
                Err(error) => Err(error),
            },
        }
    }

    /// Writes the wire token of the direction.
    pub fn to_str(&self) -> (r: Option<String>)
        ensures
            r.deep_view() == Some(self.token()),
    {
        match self {
            PositionDirection::Long => Some(String::from_str("long")),
            PositionDirection::Short => Some(String::from_str("short")),
        }
    }
}

/// Reading the token that was written for a direction gives that direction back.
pub proof fn lemma_position_direction_token_round_trip(value: PositionDirection)
    ensures
        PositionDirection::from_token(value.token()) == Some(value),
{
    reveal_strlit("long");
    reveal_strlit("short");
    assert("long"@.len() == 4);
    assert("short"@.len() == 5);
}

/// A phase of a position's life, or of its entry or exit.
#[derive(Clone, Copy, Debug, PartialEq, Eq, Structural)]
pub enum PositionStatus {
    New,
    Open,
    Closed,
}

impl PositionStatus {
    /// The wire token of the status.
    pub open spec fn token(self) -> Seq<char> {
        match self {
            PositionStatus::New => "new"@,
            PositionStatus::Open => "open"@,
            PositionStatus::Closed => "closed"@,
        }
    }

    /// The status that a wire token names, if it names one.
    pub open spec fn from_token(token: Seq<char>) -> Option<PositionStatus> {
        if token == "new"@ {
            Some(PositionStatus::New)
        } else if token == "open"@ {
            Some(PositionStatus::Open)
        } else if token == "closed"@ {
            Some(PositionStatus::Closed)
        } else {
            None
        }
    }

    /// What reading a wire token gives: the status it names, or the error.
    pub open spec fn parsed(token: Seq<char>) -> Result<PositionStatus, Error> {
        match Self::from_token(token) {
            Some(value) => Ok(value),
            None => Err(Error::InvalidEnumValue),
        }
    }

    /// What reading an optional wire token gives: nothing for an absent token,
    /// the status for a token that names one, the error for any other.
    pub open spec fn parsed_optional(token: Option<Seq<char>>) -> Result<Option<PositionStatus>, Error> {
        match token {
            None => Ok(None),
            Some(text) => match Self::from_token(text) {
                Some(value) => Ok(Some(value)),
                None => Err(Error::InvalidEnumValue),
            },
        }
    }

    /// Reads a status from its wire token.
    pub fn parse(token: &String) -> (r: Result<PositionStatus, Error>)
        ensures
            r == Self::parsed(token@),
    {
        if *token == String::from_str("new") {
            Ok(PositionStatus::New)
        } else if *token == String::from_str("open") {
            Ok(PositionStatus::Open)
        } else if *token == String::from_str("closed") {
            Ok(PositionStatus::Closed)
        } else {
            Err(Error::InvalidEnumValue)
        }
    }

    /// Reads an optional status: an absent token is no status, an unknown
    /// token is an error.
    pub fn from_str(token: &Option<String>) -> (r: Result<Option<PositionStatus>, Error>)
        ensures
            r == Self::parsed_optional(token.deep_view()),
    {
        match token {
            None => Ok(None),
            Some(text) => match Self::parse(text) {
                Ok(value) => Ok(Some(value)),
                Err(error) => Err(error),
            },
        }
    }

    /// Writes the wire token of the status.
    pub fn to_str(&self) -> (r: Option<String>)
        ensures
            r.deep_view() == Some(self.token()),
    {
        match self {
            PositionStatus::New => Some(String::from_str("new")),
            PositionStatus::Open => Some(String::from_str("open")),
            PositionStatus::Closed => Some(String::from_str("closed")),
        }
    }
}

/// Reading the token that was written for a status gives that status back.
pub proof fn lemma_position_status_token_round_trip(value: PositionStatus)
    ensures
        PositionStatus::from_token(value.token()) == Some(value),
{
    reveal_strlit("new");
    reveal_strlit("open");
    reveal_strlit("closed");
    assert("new"@.len() == 3);
    assert("open"@.len() == 4);
    assert("closed"@.len() == 6);
}

/// The rule by which an order fills.
#[derive(Clone, Copy, Debug, PartialEq, Eq, Structural)]
pub enum OrderType {
    Market,
    Limit,
    Stop,
}

impl OrderType {
    /// The wire token of the order type.
    pub open spec fn token(self) -> Seq<char> {
        match self {
            OrderType::Market => "market"@,
            OrderType::Limit => "limit"@,
            OrderType::Stop => "stop"@,
        }
    }

    /// The order type that a wire token names, if it names one.
    pub open spec fn from_token(token: Seq<char>) -> Option<OrderType> {
        if token == "market"@ {
            Some(OrderType::Market)
        } else if token == "limit"@ {
            Some(OrderType::Limit)
        } else if token == "stop"@ {
            Some(OrderType::Stop)
        } else {
            None
        }
    }

    /// What reading a wire token gives: the order type it names, or the error.
    pub open spec fn parsed(token: Seq<char>) -> Result<OrderType, Error> {
        match Self::from_token(token) {
            Some(value) => Ok(value),
            None => Err(Error::InvalidEnumValue),
        }
    }

    /// What reading an optional wire token gives: nothing for an absent token,
    /// the order type for a token that names one, the error for any other.
    pub open spec fn parsed_optional(token: Option<Seq<char>>) -> Result<Option<OrderType>, Error> {
        match token {
            None => Ok(None),
            Some(text) => match Self::from_token(text) {
                Some(value) => Ok(Some(value)),
                None => Err(Error::InvalidEnumValue),
            },
        }
    }

    /// Reads a order type from its wire token.
    pub fn parse(token: &String) -> (r: Result<OrderType, Error>)
        ensures
            r == Self::parsed(token@),
    {
        if *token == String::from_str("market") {
            Ok(OrderType::Market)
        } else if *token == String::from_str("limit") {
            Ok(OrderType::Limit)
        } else if *token == String::from_str("stop") {
            Ok(OrderType::Stop)
        } else {
            Err(Error::InvalidEnumValue)
        }
    }

    /// Reads an optional order type: an absent token is no order type, an unknown
    /// token is an error.
    pub fn from_str(token: &Option<String>) -> (r: Result<Option<OrderType>, Error>)
        ensures
            r == Self::parsed_optional(token.deep_view()),
    {
        match token {
            None => Ok(None),
            Some(text) => match Self::parse(text) {
                Ok(value) => Ok(Some(value)),
                Err(error) => Err(error),
            },
        }
    }

    /// Writes the wire token of the order type.
    pub fn to_str(&self) -> (r: Option<String>)
        ensures
            r.deep_view() == Some(self.token()),
    {
        match self {
            OrderType::Market => Some(String::from_str("market")),
            OrderType::Limit => Some(String::from_str("limit")),
            OrderType::Stop => Some(String::from_str("stop")),
        }
    }
}

/// Reading the token that was written for a order type gives that order type back.
pub proof fn lemma_order_type_token_round_trip(value: OrderType)
    ensures
        OrderType::from_token(value.token()) == Some(value),
{
    reveal_strlit("market");
    reveal_strlit("limit");
    reveal_strlit("stop");
    assert("market"@.len() == 6);
    assert("limit"@.len() == 5);
    assert("stop"@.len() == 4);
}

/// The side of an order.
#[derive(Clone, Copy, Debug, PartialEq, Eq, Structural)]
pub enum OrderDirection {
    Buy,
    Sell,
}

impl OrderDirection {
    /// The wire token of the order direction.
    pub open spec fn token(self) -> Seq<char> {
        match self {
            OrderDirection::Buy => "buy"@,
            OrderDirection::Sell => "sell"@,
        }
    }

    /// The order direction that a wire token names, if it names one.
    pub open spec fn from_token(token: Seq<char>) -> Option<OrderDirection> {
        if token == "buy"@ {
            Some(OrderDirection::Buy)
        } else if token == "sell"@ {
            Some(OrderDirection::Sell)
        } else {
            None
        }
    }

    /// What reading a wire token gives: the order direction it names, or the error.
    pub open spec fn parsed(token: Seq<char>) -> Result<OrderDirection, Error> {
        match Self::from_token(token) {
            Some(value) => Ok(value),
            None => Err(Error::InvalidEnumValue),
        }
    }

    /// Reads a order direction from its wire token.
    pub fn from_str(token: &String) -> (r: Result<OrderDirection, Error>)
        ensures
            r == Self::parsed(token@),
    {
        if *token == String::from_str("buy") {
            Ok(OrderDirection::Buy)
        } else if *token == String::from_str("sell") {
            Ok(OrderDirection::Sell)
        } else {
            Err(Error::InvalidEnumValue)
        }
    }

    /// Writes the wire token of the order direction.
    pub fn to_str(&self) -> (r: String)
        ensures
            r@ == self.token(),
    {
        match self {
            OrderDirection::Buy => String::from_str("buy"),
            OrderDirection::Sell => String::from_str("sell"),
        }
    }
}

/// Reading the token that was written for a order direction gives that order direction back.
pub proof fn lemma_order_direction_token_round_trip(value: OrderDirection)
    ensures
        OrderDirection::from_token(value.token()) == Some(value),
{
    reveal_strlit("buy");
    reveal_strlit("sell");
    assert("buy"@.len() == 3);
    assert("sell"@.len() == 4);
}

/// What an order does to a position.
#[derive(Clone, Copy, Debug, PartialEq, Eq, Structural)]
pub enum TradeAction {
    Long,
    Short,
    CloseLong,
    CloseShort,
}

impl TradeAction {
    /// The wire token of the action.
    pub open spec fn token(self) -> Seq<char> {
        match self {
            TradeAction::Long => "long"@,
            TradeAction::Short => "short"@,
            TradeAction::CloseLong => "closeLong"@,
            TradeAction::CloseShort => "closeShort"@,
        }
    }

    /// The action that a wire token names, if it names one.
    pub open spec fn from_token(token: Seq<char>) -> Option<TradeAction> {
        if token == "long"@ {
            Some(TradeAction::Long)
        } else if token == "short"@ {
            Some(TradeAction::Short)
        } else if token == "closeLong"@ {
            Some(TradeAction::CloseLong)
        } else if token == "closeShort"@ {
            Some(TradeAction::CloseShort)
        } else {
            None
        }
    }

    /// What reading a wire token gives: the action it names, or the error.
    pub open spec fn parsed(token: Seq<char>) -> Result<TradeAction, Error> {
        match Self::from_token(token) {
            Some(value) => Ok(value),
            None => Err(Error::InvalidEnumValue),
        }
    }

    /// What reading an optional wire token gives: nothing for an absent token,
    /// the action for a token that names one, the error for any other.
    pub open spec fn parsed_optional(token: Option<Seq<char>>) -> Result<Option<TradeAction>, Error> {
        match token {
            None => Ok(None),
            Some(text) => match Self::from_token(text) {
                Some(value) => Ok(Some(value)),
                None => Err(Error::InvalidEnumValue),
            },
        }
    }

    /// Reads a action from its wire token.
    pub fn parse(token: &String) -> (r: Result<TradeAction, Error>)
        ensures
            r == Self::parsed(token@),
    {
        if *token == String::from_str("long") {
            Ok(TradeAction::Long)
        } else if *token == String::from_str("short") {
            Ok(TradeAction::Short)
        } else if *token == String::from_str("closeLong") {
            Ok(TradeAction::CloseLong)
        } else if *token == String::from_str("closeShort") {
            Ok(TradeAction::CloseShort)
        } else {
            Err(Error::InvalidEnumValue)
        }
    }

    /// Reads an optional action: an absent token is no action, an unknown
    /// token is an error.
    pub fn from_str(token: &Option<String>) -> (r: Result<Option<TradeAction>, Error>)
        ensures
            r == Self::parsed_optional(token.deep_view()),
    {
        match token {
            None => Ok(None),
            Some(text) => match Self::parse(text) {
                Ok(value) => Ok(Some(value)),
                Err(error) => Err(error),
            },
        }
    }

    /// Writes the wire token of the action.
    pub fn to_str(&self) -> (r: Option<String>)
        ensures
            r.deep_view() == Some(self.token()),
    {
        match self {
            TradeAction::Long => Some(String::from_str("long")),
            TradeAction::Short => Some(String::from_str("short")),
            TradeAction::CloseLong => Some(String::from_str("closeLong")),
            TradeAction::CloseShort => Some(String::from_str("closeShort")),
        }
    }

    /// Whether the action opens a position.
    pub open spec fn is_entry(self) -> bool {
        self == TradeAction::Long || self == TradeAction::Short
    }

    /// Whether the action closes a position.
    pub open spec fn is_exit(self) -> bool {
        self == TradeAction::CloseLong || self == TradeAction::CloseShort
    }

    /// Whether the action is on the buying side: it opens a long position or
    /// closes a short one.
    pub open spec fn is_buy_side(self) -> bool {
        self == TradeAction::Long || self == TradeAction::CloseShort
    }

    /// What reading an optional entry action gives: as `parsed_optional`, but
    /// only the tokens of entry actions are known.
    pub open spec fn parsed_entry(token: Option<Seq<char>>) -> Result<Option<TradeAction>, Error> {
        match Self::parsed_optional(token) {
            Ok(Some(action)) => if action.is_entry() {
                Ok(Some(action))
            } else {
                Err(Error::InvalidEnumValue)
            },
            other => other,
        }
    }

    /// What reading an optional exit action gives: as `parsed_optional`, but
    /// only the tokens of exit actions are known.
    pub open spec fn parsed_exit(token: Option<Seq<char>>) -> Result<Option<TradeAction>, Error> {
        match Self::parsed_optional(token) {
            Ok(Some(action)) => if action.is_exit() {
                Ok(Some(action))
            } else {
                Err(Error::InvalidEnumValue)
            },
            other => other,
        }
    }

    /// Reads an optional entry action.
    pub fn entry_from_str(token: &Option<String>) -> (r: Result<Option<TradeAction>, Error>)
        ensures
            r == Self::parsed_entry(token.deep_view()),
    {
        match Self::from_str(token) {
            Ok(Some(TradeAction::Long)) => Ok(Some(TradeAction::Long)),
            Ok(Some(TradeAction::Short)) => Ok(Some(TradeAction::Short)),
            Ok(Some(_)) => Err(Error::InvalidEnumValue),
            Ok(None) => Ok(None),
            Err(error) => Err(error),
        }
    }

    /// Reads an optional exit action.
    pub fn exit_from_str(token: &Option<String>) -> (r: Result<Option<TradeAction>, Error>)
        ensures
            r == Self::parsed_exit(token.deep_view()),
    {
        match Self::from_str(token) {
            Ok(Some(TradeAction::CloseLong)) => Ok(Some(TradeAction::CloseLong)),
            Ok(Some(TradeAction::CloseShort)) => Ok(Some(TradeAction::CloseShort)),
            Ok(Some(_)) => Err(Error::InvalidEnumValue),
            Ok(None) => Ok(None),
            Err(error) => Err(error),
        }
    }
}

/// Reading the token that was written for a action gives that action back.
pub proof fn lemma_trade_action_token_round_trip(value: TradeAction)
    ensures
        TradeAction::from_token(value.token()) == Some(value),
{
    reveal_strlit("long");
    reveal_strlit("short");
    reveal_strlit("closeLong");
    reveal_strlit("closeShort");
    assert("long"@.len() == 4);
    assert("short"@.len() == 5);
    assert("closeLong"@.len() == 9);
    assert("closeShort"@.len() == 10);
}

/// Whether a signal is a pending order or a confirmed fill.
#[derive(Clone, Copy, Debug, PartialEq, Eq, Structural)]
pub enum SignalType {
    Alert,
    Trade,
}

impl SignalType {
    /// The wire token of the signal type.
    pub open spec fn token(self) -> Seq<char> {
        match self {
            SignalType::Alert => "alert"@,
            SignalType::Trade => "trade"@,
        }
    }

    /// The signal type that a wire token names, if it names one.
    pub open spec fn from_token(token: Seq<char>) -> Option<SignalType> {
        if token == "alert"@ {
            Some(SignalType::Alert)
        } else if token == "trade"@ {
            Some(SignalType::Trade)
        } else {
            None
        }
    }

    /// What reading a wire token gives: the signal type it names, or the error.
    pub open spec fn parsed(token: Seq<char>) -> Result<SignalType, Error> {
        match Self::from_token(token) {
            Some(value) => Ok(value),
            None => Err(Error::InvalidEnumValue),
        }
    }

    /// Reads a signal type from its wire token.
    pub fn from_str(token: &String) -> (r: Result<SignalType, Error>)
        ensures
            r == Self::parsed(token@),
    {
        if *token == String::from_str("alert") {
            Ok(SignalType::Alert)
        } else if *token == String::from_str("trade") {
            Ok(SignalType::Trade)
        } else {
            Err(Error::InvalidEnumValue)
        }
    }

    /// Writes the wire token of the signal type.
    pub fn to_str(&self) -> (r: String)
        ensures
            r@ == self.token(),
    {
        match self {
            SignalType::Alert => String::from_str("alert"),
            SignalType::Trade => String::from_str("trade"),
        }
    }
}

/// Reading the token that was written for a signal type gives that signal type back.
pub proof fn lemma_signal_type_token_round_trip(value: SignalType)
    ensures
        SignalType::from_token(value.token()) == Some(value),
{
    reveal_strlit("alert");
    reveal_strlit("trade");
    assert("alert"@.len() == 5);
    assert("trade"@.len() == 5);
    assert("alert"@[0] != "trade"@[0]);
}

} // verus!
