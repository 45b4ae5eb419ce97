//! The values that a job carries: custom values, payloads and priorities.
use vstd::prelude::*;

use crate::double::Double;
use crate::pb;
use crate::pb::primitive_value::Value;
use crate::text::{self, decimal_string};

verus! {

/// A JSON-primitive value stored in a job's custom metadata map.
#[derive(Debug, PartialEq)]
pub enum Primitive {
    /// A UTF-8 string.
    String(String),
    /// A 64-bit signed integer.
    Int(i64),
    /// A 64-bit float.
    Double(Double),
    /// A boolean.
    Bool(bool),
}

impl Clone for Primitive {
    fn clone(&self) -> (r: Self)
        ensures
            r == *self,
    {
        match self {
            Primitive::String(s) => Primitive::String(s.clone()),
            Primitive::Int(i) => Primitive::Int(*i),
            Primitive::Double(d) => Primitive::Double(*d),
            Primitive::Bool(b) => Primitive::Bool(*b),
        }
    }
}

impl From<&str> for Primitive {
    fn from(v: &str) -> (r: Self)
        ensures
            r matches Primitive::String(s) && s@ == v@,
    {
        Primitive::String(v.to_owned())
    }
}

impl vstd::std_specs::convert::FromSpecImpl<&str> for Primitive {
    open spec fn obeys_from_spec() -> bool {
        false
    }

    open spec fn from_spec(v: &str) -> Self {
        arbitrary()
    }
}

impl From<String> for Primitive {
    fn from(v: String) -> (r: Self) {
        Primitive::String(v)
    }
}

impl vstd::std_specs::convert::FromSpecImpl<String> for Primitive {
    open spec fn obeys_from_spec() -> bool {
        true
    }

    open spec fn from_spec(v: String) -> Self {
        Primitive::String(v)
    }
}

impl From<i64> for Primitive {
    fn from(v: i64) -> (r: Self) {
        Primitive::Int(v)
    }
}

impl vstd::std_specs::convert::FromSpecImpl<i64> for Primitive {
    open spec fn obeys_from_spec() -> bool {
        true
    }

    open spec fn from_spec(v: i64) -> Self {
        Primitive::Int(v)
    }
}

impl From<i32> for Primitive {
    fn from(v: i32) -> (r: Self) {
        Primitive::Int(v as i64)
    }
}

impl vstd::std_specs::convert::FromSpecImpl<i32> for Primitive {
    open spec fn obeys_from_spec() -> bool {
        true
    }

    open spec fn from_spec(v: i32) -> Self {
        Primitive::Int(v as i64)
    }
}

impl From<Double> for Primitive {
    fn from(v: Double) -> (r: Self) {
        Primitive::Double(v)
    }
}

impl vstd::std_specs::convert::FromSpecImpl<Double> for Primitive {
    open spec fn obeys_from_spec() -> bool {
        true
    }

    open spec fn from_spec(v: Double) -> Self {
        Primitive::Double(v)
    }
}

impl From<bool> for Primitive {
    fn from(v: bool) -> (r: Self) {
        Primitive::Bool(v)
    }
}

impl vstd::std_specs::convert::FromSpecImpl<bool> for Primitive {
    open spec fn obeys_from_spec() -> bool {
        true
    }

    open spec fn from_spec(v: bool) -> Self {
        Primitive::Bool(v)
    }
}

/// The wire form of a custom value.
pub open spec fn primitive_to_wire(p: Primitive) -> pb::PrimitiveValue {
    let value = match p {
        Primitive::String(s) => Value::StringValue(s),
        Primitive::Int(i) => Value::IntValue(i),
        Primitive::Double(d) => Value::DoubleValue(d),
        Primitive::Bool(b) => Value::BoolValue(b),
    };
    pb::PrimitiveValue { value: Some(value) }
}

/// The custom value that a wire value stands for, if it is set.
pub open spec fn primitive_from_wire(v: pb::PrimitiveValue) -> Option<Primitive> {
    match v.value {
        Some(Value::StringValue(s)) => Some(Primitive::String(s)),
        Some(Value::IntValue(i)) => Some(Primitive::Int(i)),
        Some(Value::DoubleValue(d)) => Some(Primitive::Double(d)),
        Some(Value::BoolValue(b)) => Some(Primitive::Bool(b)),
        None => None,
    }
}

impl From<Primitive> for pb::PrimitiveValue {
    fn from(p: Primitive) -> (r: Self) {
        let value = match p {
            Primitive::String(s) => Value::StringValue(s),
            Primitive::Int(i) => Value::IntValue(i),
            Primitive::Double(d) => Value::DoubleValue(d),
            Primitive::Bool(b) => Value::BoolValue(b),
        };
        pb::PrimitiveValue { value: Some(value) }
    }
}

impl vstd::std_specs::convert::FromSpecImpl<Primitive> for pb::PrimitiveValue {
    open spec fn obeys_from_spec() -> bool {
        true
    }

    open spec fn from_spec(p: Primitive) -> Self {
        primitive_to_wire(p)
    }
}

/// Reads a custom value from the wire; `None` where it is not set.
pub fn primitive_from_pb(v: pb::PrimitiveValue) -> (r: Option<Primitive>)
    ensures
        r == primitive_from_wire(v),
{
    match v.value {
        Some(Value::StringValue(s)) => Some(Primitive::String(s)),
        Some(Value::DoubleValue(d)) => Some(Primitive::Double(d)),
        Some(Value::IntValue(i)) => Some(Primitive::Int(i)),
        Some(Value::BoolValue(b)) => Some(Primitive::Bool(b)),
        None => None,
    }
}

/// A custom value survives the wire, and so does every wire value that is set.
pub proof fn primitive_round_trip(p: Primitive, v: pb::PrimitiveValue)
    ensures
        primitive_from_wire(primitive_to_wire(p)) == Some(p),
        primitive_from_wire(v) is Some <==> v.value is Some,
        primitive_from_wire(v) matches Some(q) ==> primitive_to_wire(q) == v,
{
}

/// The opaque body of a job, plus an encoding hint.
///
/// The queue never interprets `data`; it only carries the bytes. `encoding`
/// (for example `"application/json"` or `"text/plain"`) is a hint the producer
/// sets and the worker reads to decide how to deserialize the bytes.
#[derive(Debug, PartialEq, Eq)]
pub struct Payload {
    /// The raw payload bytes.
    pub data: Vec<u8>,
    /// Encoding hint for the worker (e.g. a MIME type).
    pub encoding: String,
}

impl Payload {
    /// Creates a payload from its bytes and an encoding hint.
    pub fn new(data: Vec<u8>, encoding: &str) -> (p: Self)
        ensures
            p.data == data,
            p.encoding@ == encoding@,
    {
        Payload { data, encoding: encoding.to_owned() }
    }
}

impl Clone for Payload {
    fn clone(&self) -> (r: Self)
        ensures
            r.data@ == self.data@,
            r.encoding@ == self.encoding@,
    {
        Payload { data: self.data.clone(), encoding: self.encoding.clone() }
    }
}

/// The wire form of a payload.
pub open spec fn payload_to_wire(p: Payload) -> pb::Payload {
    pb::Payload { data: p.data, encoding: p.encoding }
}

/// The payload that a wire payload stands for.
pub open spec fn payload_from_wire(p: pb::Payload) -> Payload {
    Payload { data: p.data, encoding: p.encoding }
}

impl From<Payload> for pb::Payload {
    fn from(p: Payload) -> (r: Self) {
        pb::Payload { data: p.data, encoding: p.encoding }
    }
}

impl vstd::std_specs::convert::FromSpecImpl<Payload> for pb::Payload {
    open spec fn obeys_from_spec() -> bool {
        true
    }

    open spec fn from_spec(p: Payload) -> Self {
        payload_to_wire(p)
    }
}

impl From<pb::Payload> for Payload {
    fn from(p: pb::Payload) -> (r: Self) {
        Payload { data: p.data, encoding: p.encoding }
    }
}

impl vstd::std_specs::convert::FromSpecImpl<pb::Payload> for Payload {
    open spec fn obeys_from_spec() -> bool {
        true
    }

    open spec fn from_spec(p: pb::Payload) -> Self {
        payload_from_wire(p)
    }
}

/// A payload survives the wire in both directions.
pub proof fn payload_round_trip(p: Payload, w: pb::Payload)
    ensures
        payload_from_wire(payload_to_wire(p)) == p,
        payload_to_wire(payload_from_wire(w)) == w,
{
}

/// A job priority in the range `0..=9`, where higher values are dequeued first.
///
/// No value outside the range can be written. Construct one with
/// [`Priority::new`], the `TryFrom<u8>` impl, or by its name.
#[derive(Debug, Clone, Copy, PartialEq, Eq, Hash, Structural)]
pub enum Priority {
    /// Priority `0` (lowest).
    P0,
    /// Priority `1`.
    P1,
    /// Priority `2`.
    P2,
    /// Priority `3`.
    P3,
    /// Priority `4`.
    P4,
    /// Priority `5`.
    P5,
    /// Priority `6`.
    P6,
    /// Priority `7`.
    P7,
    /// Priority `8`.
    P8,
    /// Priority `9` (highest).
    P9,
}

/// Returned by [`Priority::new`] when the value is greater than 9.
#[derive(Debug)]
pub struct PriorityOutOfRange(pub u8);

impl PriorityOutOfRange {
    /// The message of this error.
    pub open spec fn message(self) -> Seq<char> {
        "priority must be 0-9, got "@ + text::decimal(self.0 as nat)
    }

    /// Writes the message of this error.
    pub fn to_string(&self) -> (s: String)
        ensures
            s@ == self.message(),
    {
        "priority must be 0-9, got ".to_owned().concat(decimal_string(self.0 as u64).as_str())
    }
}

impl View for Priority {
    type V = u8;

    open spec fn view(&self) -> u8 {
        match self {
            Priority::P0 => 0,
            Priority::P1 => 1,
            Priority::P2 => 2,
            Priority::P3 => 3,
            Priority::P4 => 4,
            Priority::P5 => 5,
            Priority::P6 => 6,
            Priority::P7 => 7,
            Priority::P8 => 8,
            Priority::P9 => 9,
        }
    }
}

impl Priority {
    /// The lowest priority (`0`).
    pub const MIN: Priority = Priority::P0;

    /// The highest priority (`9`).
    pub const MAX: Priority = Priority::P9;

    /// Creates a priority, returning [`PriorityOutOfRange`] if `value > 9`.
    pub fn new(value: u8) -> (r: Result<Self, PriorityOutOfRange>)
        ensures
            r == priority_of(value),
            r is Ok <==> value <= 9,
            r matches Ok(p) ==> p@ == value,
            r matches Err(e) ==> e.0 == value,
    {
        match value {
            0 => Ok(Priority::P0),
            1 => Ok(Priority::P1),
            2 => Ok(Priority::P2),
            3 => Ok(Priority::P3),
            4 => Ok(Priority::P4),
            5 => Ok(Priority::P5),
            6 => Ok(Priority::P6),
            7 => Ok(Priority::P7),
            8 => Ok(Priority::P8),
            9 => Ok(Priority::P9),
            _ => Err(PriorityOutOfRange(value)),
        }
    }

    /// Returns the priority as a `u8` in `0..=9`.
    pub fn get(&self) -> (v: u8)
        ensures
            v == self@,
            v <= 9,
    {
        match self {
            Priority::P0 => 0,
            Priority::P1 => 1,
            Priority::P2 => 2,
            Priority::P3 => 3,
            Priority::P4 => 4,
            Priority::P5 => 5,
            Priority::P6 => 6,
            Priority::P7 => 7,
            Priority::P8 => 8,
            Priority::P9 => 9,
        }
    }
}

/// Every priority is in range, and making a priority of its value gives the
/// same one back. A value makes a priority exactly when it is at most nine.
pub proof fn priority_round_trip(p: Priority, v: u8)
    ensures
        p@ <= 9,
        priority_of(p@) == Ok::<Priority, PriorityOutOfRange>(p),
        priority_of(v) is Ok <==> v <= 9,
        priority_of(v) matches Ok(q) ==> q@ == v,
{
}

/// What making a priority of `v` gives.
pub open spec fn priority_of(v: u8) -> Result<Priority, PriorityOutOfRange> {
    match v {
        0 => Ok(Priority::P0),
        1 => Ok(Priority::P1),
        2 => Ok(Priority::P2),
        3 => Ok(Priority::P3),
        4 => Ok(Priority::P4),
        5 => Ok(Priority::P5),
        6 => Ok(Priority::P6),
        7 => Ok(Priority::P7),
        8 => Ok(Priority::P8),
        9 => Ok(Priority::P9),
        _ => Err(PriorityOutOfRange(v)),
    }
}

impl TryFrom<u8> for Priority {
    type Error = PriorityOutOfRange;

    fn try_from(v: u8) -> (r: Result<Self, PriorityOutOfRange>) {
        Priority::new(v)
    }
}

impl vstd::std_specs::convert::TryFromSpecImpl<u8> for Priority {
    open spec fn obeys_try_from_spec() -> bool {
        true
    }

    open spec fn try_from_spec(v: u8) -> Result<Self, PriorityOutOfRange> {
        priority_of(v)
    }
}

} // verus!
