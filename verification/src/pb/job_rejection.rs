//! The reasons for which a job is refused, on the wire.
use vstd::prelude::*;

use crate::pb;

verus! {

/// Why a job was refused.
#[derive(Debug, Clone, PartialEq, Eq)]
pub enum Reason {
    UnknownQueue(pb::UnknownQueue),
    PayloadTooLarge(pb::PayloadTooLarge),
    EncodingNotAllowed(pb::EncodingNotAllowed),
    JobTypeNotAllowed(pb::JobTypeNotAllowed),
    CustomEntriesTooMany(pb::CustomEntriesTooMany),
    CustomMapTooLarge(pb::CustomMapTooLarge),
    CustomKeyTooLong(pb::CustomKeyTooLong),
    QueueNameTooLong(pb::QueueNameTooLong),
    JobTypeNameTooLong(pb::JobTypeNameTooLong),
    IdempotencyKeyTooLong(pb::IdempotencyKeyTooLong),
    ScheduledTooFar(pb::ScheduledTooFar),
    InvalidRequest(pb::InvalidRequest),
}

} // verus!
