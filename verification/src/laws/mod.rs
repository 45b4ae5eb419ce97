//! What the library promises as a whole.
//!
//! Each law speaks of what goes into a call and what comes out of it, in terms
//! of plain values.
pub mod configuring;
pub mod enqueuing;
pub mod failing;
pub mod keeping;
pub mod leases;
pub mod reserving;
pub mod running;
pub mod settling;
pub mod telling;
pub mod tracing;
