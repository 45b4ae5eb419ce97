//! The outcomes of one job of a batch, on the wire.
use vstd::prelude::*;

use crate::pb;

verus! {

/// What became of a job of a batch.
#[derive(Debug, Clone, PartialEq, Eq)]
pub enum Outcome {
    Success(pb::EnqueueResponse),
    Rejection(pb::JobRejection),
}

} // verus!
