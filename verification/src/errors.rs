//! Errors related to proving and verifying proofs.
//!
//! There are two layers. [`MPCError`] belongs to the multiparty protocol in
//! which several parties build one aggregated proof; [`ProofError`] is what
//! callers of single-party proving, verification and rewinding see. The
//! single-party prover runs the multiparty protocol with itself, so every
//! [`MPCError`] has a [`ProofError`] it turns into.
//!
//! Each error type has a mathematical view, in which text is a sequence of
//! characters and a list of party indexes is a sequence of integers. The
//! contracts below are stated over these views.

use vstd::prelude::*;

verus! {

/// Represents an error in proof creation, verification, or parsing.
#[derive(Debug, Eq, PartialEq)]
pub enum ProofError {
    /// This error occurs when a proof failed to verify.
    VerificationError {  },
    /// This error occurs when the proof encoding is malformed.
    FormatError {  },
    /// This error occurs during proving if the number of blinding
    /// factors does not match the number of values.
    WrongNumBlindingFactors {  },
    /// This error occurs when attempting to create a proof with
    /// bitsize other than 8, 16, 32, or 64.
    InvalidBitsize {  },
    /// This error occurs when attempting to create an aggregated
    /// proof with non-power-of-two aggregation size.
    InvalidAggregation {  },
    /// This error occurs when there are insufficient generators for the proof.
    InvalidGeneratorsLength {  },
    /// This error results from an internal error during proving.
    ///
    /// The single-party prover is implemented by performing
    /// multiparty computation with ourselves.  However, because the
    /// MPC protocol is not exposed by the single-party API, we
    /// consider its errors to be internal errors.
    ProvingError { reason: String },
    /// This error results from trying to rewind a proof with the wrong rewind nonce.
    InvalidCommitmentExtracted {  },
    /// This error results from trying to rewind a proof with an invalid rewind key separator.
    InvalidRewindKeySeparator {  },
}

/// What a [`ProofError`] is, with the reason as a sequence of characters.
pub enum ProofErrorView {
    VerificationError,
    FormatError,
    WrongNumBlindingFactors,
    InvalidBitsize,
    InvalidAggregation,
    InvalidGeneratorsLength,
    ProvingError { reason: Seq<char> },
    InvalidCommitmentExtracted,
    InvalidRewindKeySeparator,
}

impl View for ProofError {
    type V = ProofErrorView;

    open spec fn view(&self) -> ProofErrorView {
        match *self {
            ProofError::VerificationError {  } => ProofErrorView::VerificationError,
            ProofError::FormatError {  } => ProofErrorView::FormatError,
            ProofError::WrongNumBlindingFactors {  } => ProofErrorView::WrongNumBlindingFactors,
            ProofError::InvalidBitsize {  } => ProofErrorView::InvalidBitsize,
            ProofError::InvalidAggregation {  } => ProofErrorView::InvalidAggregation,
            ProofError::InvalidGeneratorsLength {  } => ProofErrorView::InvalidGeneratorsLength,
            ProofError::ProvingError { reason } => ProofErrorView::ProvingError { reason: reason@ },
            ProofError::InvalidCommitmentExtracted {  } => ProofErrorView::InvalidCommitmentExtracted,
            ProofError::InvalidRewindKeySeparator {  } => ProofErrorView::InvalidRewindKeySeparator,
        }
    }
}

/// Represents an error during the multiparty computation protocol for
/// proof aggregation.
///
/// This is a separate type from the `ProofError` to allow a layered
/// API: although the MPC protocol is used internally for single-party
/// proving, its API should not expose the complexity of the MPC
/// protocol.
#[derive(Debug, Eq, PartialEq)]
pub enum MPCError {
    /// This error occurs when the dealer gives a zero challenge,
    /// which would annihilate the blinding factors.
    MaliciousDealer {  },
    /// This error occurs when attempting to create a proof with
    /// bitsize other than 8, 16, 32, or 64.
    MPCInvalidBitsize {  },
    /// This error occurs when attempting to create an aggregated
    /// proof with non-power-of-two aggregation size.
    MPCInvalidAggregation {  },
    /// This error occurs when there are insufficient generators for the proof.
    MPCInvalidGeneratorsLength {  },
    /// This error occurs when the dealer is given the wrong number of
    /// value commitments.
    WrongNumBitCommitments {  },
    /// This error occurs when the dealer is given the wrong number of
    /// polynomial commitments.
    WrongNumPolyCommitments {  },
    /// This error occurs when the dealer is given the wrong number of
    /// proof shares.
    WrongNumProofShares {  },
    /// This error occurs when one or more parties submit malformed
    /// proof shares.
    MalformedProofShares {
        /// A vector with the indexes of the parties whose shares were malformed.
        bad_shares: Vec<usize>,
    },
}

/// What an [`MPCError`] is, with the indexes as a sequence.
pub enum MPCErrorView {
    MaliciousDealer,
    MPCInvalidBitsize,
    MPCInvalidAggregation,
    MPCInvalidGeneratorsLength,
    WrongNumBitCommitments,
    WrongNumPolyCommitments,
    WrongNumProofShares,
    MalformedProofShares { bad_shares: Seq<usize> },
}

impl View for MPCError {
    type V = MPCErrorView;

    open spec fn view(&self) -> MPCErrorView {
        match *self {
            MPCError::MaliciousDealer {  } => MPCErrorView::MaliciousDealer,
            MPCError::MPCInvalidBitsize {  } => MPCErrorView::MPCInvalidBitsize,
            MPCError::MPCInvalidAggregation {  } => MPCErrorView::MPCInvalidAggregation,
            MPCError::MPCInvalidGeneratorsLength {  } => MPCErrorView::MPCInvalidGeneratorsLength,
            MPCError::WrongNumBitCommitments {  } => MPCErrorView::WrongNumBitCommitments,
            MPCError::WrongNumPolyCommitments {  } => MPCErrorView::WrongNumPolyCommitments,
            MPCError::WrongNumProofShares {  } => MPCErrorView::WrongNumProofShares,
            MPCError::MalformedProofShares { bad_shares } => MPCErrorView::MalformedProofShares {
                bad_shares: bad_shares@,
            },
        }
    }
}

/// Represents an error during the proving or verifying of a constraint system.
#[derive(Clone, Copy, Debug, Eq, PartialEq)]
pub enum R1CSError {
    /// Occurs when there are insufficient generators for the proof.
    InvalidGeneratorsLength,
    /// This error occurs when the proof encoding is malformed.
    FormatError,
    /// Occurs when verification of a constraint-system proof fails.
    VerificationError,
    /// Occurs when trying to use a missing variable assignment.
    /// Used by gadgets that build the constraint system to signal that
    /// a variable assignment is not provided when the prover needs it.
    MissingAssignment,
}

impl ProofErrorView {
    /// The text shown for this error.
    pub open spec fn message(self) -> Seq<char> {
        match self {
            ProofErrorView::VerificationError => "Proof verification failed."@,
            ProofErrorView::FormatError => "Proof data could not be parsed."@,
            ProofErrorView::WrongNumBlindingFactors => "Wrong number of blinding factors supplied."@,
            ProofErrorView::InvalidBitsize => "Invalid bitsize, must have n = 8,16,32,64."@,
            ProofErrorView::InvalidAggregation => "Invalid aggregation size, m must be a power of 2."@,
            ProofErrorView::InvalidGeneratorsLength => "Invalid generators size, too few generators for proof"@,
            ProofErrorView::ProvingError { reason } => "Internal error during proof creation: `"@
                + reason,
            ProofErrorView::InvalidCommitmentExtracted => "Rewinding the proof failed, invalid commitment extracted"@,
            ProofErrorView::InvalidRewindKeySeparator => "Trying to rewind a proof with the wrong rewind key separator"@,
        }
    }

    /// The proof-level error that a multiparty error becomes at the
    /// single-party boundary: the three parameter errors keep their meaning,
    /// every other error becomes a `ProvingError` whose reason is the
    /// multiparty error's text.
    pub open spec fn from_mpc(e: MPCErrorView) -> ProofErrorView {
        match e {
            MPCErrorView::MPCInvalidBitsize => ProofErrorView::InvalidBitsize,
            MPCErrorView::MPCInvalidAggregation => ProofErrorView::InvalidAggregation,
            MPCErrorView::MPCInvalidGeneratorsLength => ProofErrorView::InvalidGeneratorsLength,
            _ => ProofErrorView::ProvingError { reason: e.message() },
        }
    }
}

impl MPCErrorView {
    /// The text shown for this error.
    pub open spec fn message(self) -> Seq<char> {
        match self {
            MPCErrorView::MaliciousDealer => "Dealer gave a malicious challenge value."@,
            MPCErrorView::MPCInvalidBitsize => "Invalid bitsize, must have n = 8,16,32,64"@,
            MPCErrorView::MPCInvalidAggregation => "Invalid aggregation size, m must be a power of 2"@,
            MPCErrorView::MPCInvalidGeneratorsLength => "Invalid generators size, too few generators for proof"@,
            MPCErrorView::WrongNumBitCommitments => "Wrong number of value commitment"@,
            MPCErrorView::WrongNumPolyCommitments => "Wrong number of value commitments"@,
            MPCErrorView::WrongNumProofShares => "Wrong number of proof shares"@,
            MPCErrorView::MalformedProofShares { bad_shares } => "Malformed proof shares from parties"@,
        }
    }
}

impl Clone for ProofError {
    fn clone(&self) -> (r: ProofError)
        ensures
            r@ == self@,
    {
        match self {
            ProofError::VerificationError {  } => ProofError::VerificationError {  },
            ProofError::FormatError {  } => ProofError::FormatError {  },
            ProofError::WrongNumBlindingFactors {  } => ProofError::WrongNumBlindingFactors {  },
            ProofError::InvalidBitsize {  } => ProofError::InvalidBitsize {  },
            ProofError::InvalidAggregation {  } => ProofError::InvalidAggregation {  },
            ProofError::InvalidGeneratorsLength {  } => ProofError::InvalidGeneratorsLength {  },
            ProofError::ProvingError { reason } => ProofError::ProvingError { reason: reason.clone() },
            ProofError::InvalidCommitmentExtracted {  } => ProofError::InvalidCommitmentExtracted {  },
            ProofError::InvalidRewindKeySeparator {  } => ProofError::InvalidRewindKeySeparator {  },
        }
    }
}

impl Clone for MPCError {
    fn clone(&self) -> (r: MPCError)
        ensures
            r@ == self@,
    {
        match self {
            MPCError::MaliciousDealer {  } => MPCError::MaliciousDealer {  },
            MPCError::MPCInvalidBitsize {  } => MPCError::MPCInvalidBitsize {  },
            MPCError::MPCInvalidAggregation {  } => MPCError::MPCInvalidAggregation {  },
            MPCError::MPCInvalidGeneratorsLength {  } => MPCError::MPCInvalidGeneratorsLength {  },
            MPCError::WrongNumBitCommitments {  } => MPCError::WrongNumBitCommitments {  },
            MPCError::WrongNumPolyCommitments {  } => MPCError::WrongNumPolyCommitments {  },
            MPCError::WrongNumProofShares {  } => MPCError::WrongNumProofShares {  },
            MPCError::MalformedProofShares { bad_shares } => MPCError::MalformedProofShares {
                bad_shares: bad_shares.clone(),
            },
        }
    }
}

impl ProofError {
    /// Renders the error as text.
    pub fn to_string(&self) -> (s: String)
        ensures
            s@ == self@.message(),
    {
        match self {
            ProofError::VerificationError {  } => "Proof verification failed.".to_owned(),
            ProofError::FormatError {  } => "Proof data could not be parsed.".to_owned(),
            ProofError::WrongNumBlindingFactors {  } => "Wrong number of blinding factors supplied.".to_owned(),
            ProofError::InvalidBitsize {  } => "Invalid bitsize, must have n = 8,16,32,64.".to_owned(),
            ProofError::InvalidAggregation {  } => "Invalid aggregation size, m must be a power of 2.".to_owned(),
            ProofError::InvalidGeneratorsLength {  } => "Invalid generators size, too few generators for proof".to_owned(),
            ProofError::ProvingError { reason } => "Internal error during proof creation: `".to_owned().concat(
                reason.as_str(),
            ),
            ProofError::InvalidCommitmentExtracted {  } => "Rewinding the proof failed, invalid commitment extracted".to_owned(),
            ProofError::InvalidRewindKeySeparator {  } => "Trying to rewind a proof with the wrong rewind key separator".to_owned(),
        }
    }
}

impl MPCError {
    /// Renders the error as text.
    pub fn to_string(&self) -> (s: String)
        ensures
            s@ == self@.message(),
    {
        match self {
            MPCError::MaliciousDealer {  } => "Dealer gave a malicious challenge value.".to_owned(),
            MPCError::MPCInvalidBitsize {  } => "Invalid bitsize, must have n = 8,16,32,64".to_owned(),
            MPCError::MPCInvalidAggregation {  } => "Invalid aggregation size, m must be a power of 2".to_owned(),
            MPCError::MPCInvalidGeneratorsLength {  } => "Invalid generators size, too few generators for proof".to_owned(),
            MPCError::WrongNumBitCommitments {  } => "Wrong number of value commitment".to_owned(),
            MPCError::WrongNumPolyCommitments {  } => "Wrong number of value commitments".to_owned(),
            MPCError::WrongNumProofShares {  } => "Wrong number of proof shares".to_owned(),
            MPCError::MalformedProofShares { .. } => "Malformed proof shares from parties".to_owned(),
        }
    }
}

impl From<MPCError> for ProofError {
    /// Turns a multiparty error into the proof-level error that callers of
    /// the single-party interface see.
    fn from(e: MPCError) -> (r: ProofError)
        ensures
            r@ == ProofErrorView::from_mpc(e@),
    {
        match e {
            MPCError::MPCInvalidBitsize {  } => ProofError::InvalidBitsize {  },
            MPCError::MPCInvalidAggregation {  } => ProofError::InvalidAggregation {  },
            MPCError::MPCInvalidGeneratorsLength {  } => ProofError::InvalidGeneratorsLength {  },
            _ => ProofError::ProvingError { reason: e.to_string() },
        }
    }
}

/// Two strings with the same characters need not be the same value to the
/// verifier, so the conversion is specified by the `ensures` of `from`, over
/// views, and not by a `from_spec` that would have to name one string.
impl vstd::std_specs::convert::FromSpecImpl<MPCError> for ProofError {
    open spec fn obeys_from_spec() -> bool {
        false
    }

    open spec fn from_spec(e: MPCError) -> ProofError {
        ProofError::ProvingError { reason: arbitrary() }
    }
}

impl R1CSError {
    /// The text shown for this error.
    pub open spec fn message(self) -> Seq<char> {
        match self {
            R1CSError::InvalidGeneratorsLength => "Invalid generators size, too few generators for proof"@,
            R1CSError::FormatError => "Proof data could not be parsed."@,
            R1CSError::VerificationError => "R1CSProof did not verify correctly."@,
            R1CSError::MissingAssignment => "Variable does not have a value assignment."@,
        }
    }

    /// Whether a proof error has a counterpart among the constraint-system
    /// errors.
    pub open spec fn expressible(e: ProofErrorView) -> bool {
        e is InvalidGeneratorsLength || e is FormatError || e is VerificationError
    }

    /// The counterpart of an expressible proof error.
    pub open spec fn from_proof(e: ProofErrorView) -> R1CSError
        recommends
            Self::expressible(e),
    {
        match e {
            ProofErrorView::InvalidGeneratorsLength => R1CSError::InvalidGeneratorsLength,
            ProofErrorView::FormatError => R1CSError::FormatError,
            _ => R1CSError::VerificationError,
        }
    }

    /// Renders the error as text.
    pub fn to_string(&self) -> (s: String)
        ensures
            s@ == self.message(),
    {
        match self {
            R1CSError::InvalidGeneratorsLength => "Invalid generators size, too few generators for proof".to_owned(),
            R1CSError::FormatError => "Proof data could not be parsed.".to_owned(),
            R1CSError::VerificationError => "R1CSProof did not verify correctly.".to_owned(),
            R1CSError::MissingAssignment => "Variable does not have a value assignment.".to_owned(),
        }
    }

    /// Turns a proof error raised while proving or verifying a constraint
    /// system into a constraint-system error. Only the three errors that can
    /// arise there have a counterpart.
    pub fn from(e: ProofError) -> (r: R1CSError)
        requires
            Self::expressible(e@),
        ensures
            r == Self::from_proof(e@),
    {
        match e {
            ProofError::InvalidGeneratorsLength {  } => R1CSError::InvalidGeneratorsLength,
            ProofError::FormatError {  } => R1CSError::FormatError,
            _ => R1CSError::VerificationError,
        }
    }

    /// Turns a proof error into its constraint-system counterpart where it
    /// has one, and hands it back unchanged where it has none.
    pub fn try_from(e: ProofError) -> (r: Result<R1CSError, ProofError>)
        ensures
            Self::expressible(e@) ==> r == Ok::<R1CSError, ProofError>(Self::from_proof(e@)),
            !Self::expressible(e@) ==> r == Err::<R1CSError, ProofError>(e),
    {
        match e {
            ProofError::InvalidGeneratorsLength {  } => Ok(R1CSError::InvalidGeneratorsLength),
            ProofError::FormatError {  } => Ok(R1CSError::FormatError),
            ProofError::VerificationError {  } => Ok(R1CSError::VerificationError),
            other => Err(other),
        }
    }
}

} // verus!
