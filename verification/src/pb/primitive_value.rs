//! The alternatives of a custom value on the wire.
use vstd::prelude::*;

use crate::double::Double;

verus! {

/// A custom value on the wire.
#[derive(Debug, Clone, PartialEq)]
pub enum Value {
    StringValue(String),
    IntValue(i64),
    DoubleValue(Double),
    BoolValue(bool),
}

} // verus!
