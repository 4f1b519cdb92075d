//! A candle-driven position and order state machine for simple
//! indicator-based trading strategies.

pub mod candle;
pub mod code;
pub mod error;
pub mod ident;
pub mod indicator;
pub mod manager;
pub mod model;
pub mod position;
pub mod records;
pub mod robot;
pub mod signal;
pub mod state;
pub mod strategy;
pub mod timestamp;
