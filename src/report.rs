use vstd::prelude::*;
use crate::measurement::Measurement;

verus! {

/// `x` saturated to the range of `i32`.
pub open spec fn saturate_i32(x: int) -> i32 {
    if x < i32::MIN {
        i32::MIN
    } else if x > i32::MAX {
        i32::MAX
    } else {
        x as i32
    }
}

/// The payload sent for a measurement: the same fields, the solids saturated to `i32`.
pub open spec fn message_of(m: Measurement) -> Message {
    Message { timestamp: m.timestamp, temperature: m.temperature, tds: saturate_i32(m.tds as int) }
}

/// The payload a network client receives for a measurement.
#[derive(Debug, Clone, Copy, PartialEq, Eq, Structural)]
pub struct Message {
    pub timestamp: i64,
    /// Temperature in tenths of a degree Celsius.
    pub temperature: i16,
    /// Dissolved solids in ppm, saturated to the range of `i32`.
    pub tds: i32,
}

impl From<Measurement> for Message {
    fn from(value: Measurement) -> (r: Message) {
        let tds: i32 = if value.tds < i32::MIN as i64 {
            i32::MIN
        } else if value.tds > i32::MAX as i64 {
            i32::MAX
        } else {
            value.tds as i32
        };
        Message { timestamp: value.timestamp, temperature: value.temperature, tds }
    }
}

impl vstd::std_specs::convert::FromSpecImpl<Measurement> for Message {
    open spec fn obeys_from_spec() -> bool {
        true
    }

    open spec fn from_spec(v: Measurement) -> Message {
        message_of(v)
    }
}

/// The answer to a client that asks for the latest measurement.
#[derive(Debug, Clone, Copy, PartialEq, Eq, Structural)]
pub enum Reply {
    /// A measurement was published: it is sent.
    Data(Message),
    /// Nothing was published yet: an empty answer, distinct from any reading.
    NoContent,
}

/// HTTP status of a successful answer with a body.
pub const STATUS_OK: u16 = 200;

/// HTTP status of an answer without a body.
pub const STATUS_NO_CONTENT: u16 = 204;

impl Reply {
    /// The answer for the latest published measurement.
    pub fn for_latest(latest: Option<Measurement>) -> (r: Reply)
        ensures
            r == match latest {
                Some(m) => Reply::Data(message_of(m)),
                None => Reply::NoContent,
            },
    {
        match latest {
            Some(m) => Reply::Data(Message::from(m)),
            None => Reply::NoContent,
        }
    }

    /// The HTTP status that carries the answer.
    pub fn status(&self) -> (r: u16)
        ensures
            r == match self {
                Reply::Data(_) => STATUS_OK,
                Reply::NoContent => STATUS_NO_CONTENT,
            },
    {
        match self {
            Reply::Data(_) => STATUS_OK,
            Reply::NoContent => STATUS_NO_CONTENT,
        }
    }
}

} // verus!
