use vstd::prelude::*;

verus! {

/// A reading that is either a usable number or the sensor's "out of range" marker.
#[derive(Debug, PartialEq, Clone, Copy)]
pub enum Value<T> {
    Valid(T),
    OutOfRange,
}

impl<T> Value<T> {
    /// The number carried by a valid reading; `None` when it is out of range.
    pub fn into_raw(self) -> (r: Option<T>)
        ensures
            r == (match self {
                Value::Valid(v) => Some(v),
                Value::OutOfRange => None,
            }),
    {
        match self {
            Value::Valid(value) => Some(value),
            Value::OutOfRange => None,
        }
    }
}

/// A channel's name paired with the statistic computed for it.
#[derive(Debug, PartialEq, Clone)]
pub struct ChannelValue<T> {
    pub channel: String,
    pub value: Value<T>,
}

} // verus!
