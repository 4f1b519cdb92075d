//! What the strategies consume of their indicators. The indicators themselves
//! are computed outside this library and handed in as values.

use vstd::prelude::*;
use crate::candle::Price;

verus! {

/// One value of a simple moving average.
#[derive(Clone, Copy, Debug, PartialEq, Eq, Structural)]
pub struct SMAResult {
    /// The average, in ticks.
    pub result: Price,
    /// Opening time of the candle that the value was computed at, in
    /// milliseconds from the Unix epoch.
    pub time: i64,
}

} // verus!
