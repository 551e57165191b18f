//! System times stored as values: whole seconds since the Unix epoch.
use vstd::prelude::*;
use crate::error::Error;
use super::value::{Value, ValueView};

verus! {

/// A system time at or after the Unix epoch, in whole seconds since it.
#[derive(Debug, Clone, Copy, PartialEq, Eq, Structural)]
pub struct UnixTime {
    /// Whole seconds since the Unix epoch
    pub secs: u64,
}

/// The value a system time is stored as.
pub open spec fn time_value(t: UnixTime) -> ValueView {
    ValueView::Datetime(t.secs)
}

/// The seconds since the epoch that a timestamp or integer value stands for; an
/// integer is taken as an unsigned number.
pub open spec fn value_seconds(v: ValueView) -> u64 {
    match v {
        ValueView::Datetime(d) => d,
        ValueView::Integer(i) => i as u64,
        _ => 0,
    }
}

/// The system time a timestamp or integer value stands for.
pub open spec fn value_time(v: ValueView) -> UnixTime {
    UnixTime { secs: value_seconds(v) }
}

/// The timestamp value of a system time: its whole seconds since the epoch.
pub fn system_time_to_value(t: &UnixTime) -> (res: Value)
    ensures
        res@ == time_value(*t),
{
    Value::Datetime(t.secs)
}

/// The seconds since the epoch that a timestamp or integer value stands for.
pub fn seconds_of_value(value: &Value) -> (res: u64)
    requires
        value@ is Datetime || value@ is Integer,
    ensures
        res == value_seconds(value@),
{
    match value {
        Value::Datetime(d) => *d,
        Value::Integer(i) => *i as u64,
        _ => 0,
    }
}

/// The system time of a timestamp or integer value: the time [`value_seconds`]
/// seconds after the epoch.
pub fn system_time_from_value(value: &Value) -> (res: Result<UnixTime, Error>)
    requires
        value@ is Datetime || value@ is Integer,
    ensures
        res == Ok::<UnixTime, Error>(value_time(value@)),
{
    Ok(UnixTime { secs: seconds_of_value(value) })
}

/// A system time read back from the value it is stored as is the same time.
pub proof fn lemma_time_round_trip(t: UnixTime)
    ensures
        value_time(time_value(t)) == t,
{
}

} // verus!
