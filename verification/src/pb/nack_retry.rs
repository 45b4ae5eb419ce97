//! The ways to retry a failed job, on the wire.
use vstd::prelude::*;

use crate::pb;

verus! {

/// How a failed job is retried.
#[derive(Debug, Clone, PartialEq, Eq)]
pub enum Strategy {
    Default,
    Delay(pb::ProtoDuration),
    DeadLetter,
}

} // verus!
