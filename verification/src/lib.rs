//! The part of a Bulletproofs range-proof library that is decided on plain
//! values, verified with Verus.
//!
//! * [`errors`] holds the two layers of errors, what each turns into at the
//!   boundary between the layers, and the text of each.
//! * [`validation`] holds the checks that raise those errors: on bit sizes,
//!   aggregation sizes and generator capacities, on the number of messages
//!   a dealer holds, and on the verdicts over proof shares.
//! * [`range`] holds the range statement on integers: a value and its bits.
//!
//! Curve points, scalars and transcripts do not occur here.

pub mod errors;
pub mod range;
pub mod validation;

pub use crate::errors::{MPCError, ProofError, R1CSError};
