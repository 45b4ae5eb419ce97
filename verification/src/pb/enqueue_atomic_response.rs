//! The outcomes of an atomic batch, on the wire.
use vstd::prelude::*;

use crate::pb;

verus! {

/// What became of an atomic batch.
#[derive(Debug, Clone, PartialEq, Eq)]
pub enum Outcome {
    Success(pb::EnqueueAtomicSuccess),
    Rejection(pb::EnqueueAtomicRejection),
}

} // verus!
