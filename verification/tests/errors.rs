use bulletproofs::errors::{MPCError, ProofError, R1CSError};

fn all_mpc_errors() -> Vec<MPCError> {
    vec![
        MPCError::MaliciousDealer {},
        MPCError::MPCInvalidBitsize {},
        MPCError::MPCInvalidAggregation {},
        MPCError::MPCInvalidGeneratorsLength {},
        MPCError::WrongNumBitCommitments {},
        MPCError::WrongNumPolyCommitments {},
        MPCError::WrongNumProofShares {},
        MPCError::MalformedProofShares { bad_shares: vec![1, 3] },
    ]
}

#[test]
fn proof_error_texts() {
    assert_eq!(ProofError::VerificationError {}.to_string(), "Proof verification failed.");
    assert_eq!(ProofError::FormatError {}.to_string(), "Proof data could not be parsed.");
    assert_eq!(
        ProofError::WrongNumBlindingFactors {}.to_string(),
        "Wrong number of blinding factors supplied."
    );
    assert_eq!(
        ProofError::InvalidBitsize {}.to_string(),
        "Invalid bitsize, must have n = 8,16,32,64."
    );
    assert_eq!(
        ProofError::InvalidAggregation {}.to_string(),
        "Invalid aggregation size, m must be a power of 2."
    );
    assert_eq!(
        ProofError::InvalidGeneratorsLength {}.to_string(),
        "Invalid generators size, too few generators for proof"
    );
    assert_eq!(
        ProofError::InvalidCommitmentExtracted {}.to_string(),
        "Rewinding the proof failed, invalid commitment extracted"
    );
    assert_eq!(
        ProofError::InvalidRewindKeySeparator {}.to_string(),
        "Trying to rewind a proof with the wrong rewind key separator"
    );
}

#[test]
fn proving_error_text_carries_reason() {
    let e = ProofError::ProvingError { reason: String::from("out of luck") };
    assert_eq!(e.to_string(), "Internal error during proof creation: `out of luck");
    let empty = ProofError::ProvingError { reason: String::new() };
    assert_eq!(empty.to_string(), "Internal error during proof creation: `");
}

#[test]
fn mpc_error_texts() {
    let texts: Vec<String> = all_mpc_errors().iter().map(|e| e.to_string()).collect();
    assert_eq!(
        texts,
        vec![
            "Dealer gave a malicious challenge value.",
            "Invalid bitsize, must have n = 8,16,32,64",
            "Invalid aggregation size, m must be a power of 2",
            "Invalid generators size, too few generators for proof",
            "Wrong number of value commitment",
            "Wrong number of value commitments",
            "Wrong number of proof shares",
            "Malformed proof shares from parties",
        ]
    );
}

#[test]
fn r1cs_error_texts() {
    assert_eq!(
        R1CSError::InvalidGeneratorsLength.to_string(),
        "Invalid generators size, too few generators for proof"
    );
    assert_eq!(R1CSError::FormatError.to_string(), "Proof data could not be parsed.");
    assert_eq!(R1CSError::VerificationError.to_string(), "R1CSProof did not verify correctly.");
    assert_eq!(
        R1CSError::MissingAssignment.to_string(),
        "Variable does not have a value assignment."
    );
}

#[test]
fn parameter_errors_map_one_to_one() {
    assert_eq!(ProofError::from(MPCError::MPCInvalidBitsize {}), ProofError::InvalidBitsize {});
    assert_eq!(
        ProofError::from(MPCError::MPCInvalidAggregation {}),
        ProofError::InvalidAggregation {}
    );
    assert_eq!(
        ProofError::from(MPCError::MPCInvalidGeneratorsLength {}),
        ProofError::InvalidGeneratorsLength {}
    );
}

#[test]
fn other_mpc_errors_become_proving_errors() {
    assert_eq!(
        ProofError::from(MPCError::MaliciousDealer {}),
        ProofError::ProvingError { reason: String::from("Dealer gave a malicious challenge value.") }
    );
    assert_eq!(
        ProofError::from(MPCError::WrongNumBitCommitments {}),
        ProofError::ProvingError { reason: String::from("Wrong number of value commitment") }
    );
    assert_eq!(
        ProofError::from(MPCError::WrongNumPolyCommitments {}),
        ProofError::ProvingError { reason: String::from("Wrong number of value commitments") }
    );
    assert_eq!(
        ProofError::from(MPCError::WrongNumProofShares {}),
        ProofError::ProvingError { reason: String::from("Wrong number of proof shares") }
    );
    assert_eq!(
        ProofError::from(MPCError::MalformedProofShares { bad_shares: vec![0, 2] }),
        ProofError::ProvingError { reason: String::from("Malformed proof shares from parties") }
    );
}

#[test]
fn every_mpc_error_converts_and_reason_is_its_text() {
    for e in all_mpc_errors() {
        let text = e.to_string();
        match ProofError::from(e.clone()) {
            ProofError::InvalidBitsize {} => assert_eq!(e, MPCError::MPCInvalidBitsize {}),
            ProofError::InvalidAggregation {} => assert_eq!(e, MPCError::MPCInvalidAggregation {}),
            ProofError::InvalidGeneratorsLength {} => {
                assert_eq!(e, MPCError::MPCInvalidGeneratorsLength {})
            }
            ProofError::ProvingError { reason } => assert_eq!(reason, text),
            other => panic!("unexpected conversion {:?}", other),
        }
    }
}

#[test]
fn into_follows_from() {
    let e: ProofError = MPCError::MPCInvalidBitsize {}.into();
    assert_eq!(e, ProofError::InvalidBitsize {});
    let f: ProofError = MPCError::MaliciousDealer {}.into();
    assert_eq!(
        f.to_string(),
        "Internal error during proof creation: `Dealer gave a malicious challenge value."
    );
}

#[test]
fn r1cs_from_expressible_errors() {
    assert_eq!(
        R1CSError::from(ProofError::InvalidGeneratorsLength {}),
        R1CSError::InvalidGeneratorsLength
    );
    assert_eq!(R1CSError::from(ProofError::FormatError {}), R1CSError::FormatError);
    assert_eq!(R1CSError::from(ProofError::VerificationError {}), R1CSError::VerificationError);
}

#[test]
fn r1cs_try_from_tells_the_cases_apart() {
    assert_eq!(
        R1CSError::try_from(ProofError::InvalidGeneratorsLength {}),
        Ok(R1CSError::InvalidGeneratorsLength)
    );
    assert_eq!(R1CSError::try_from(ProofError::FormatError {}), Ok(R1CSError::FormatError));
    assert_eq!(
        R1CSError::try_from(ProofError::VerificationError {}),
        Ok(R1CSError::VerificationError)
    );
    let rest = vec![
        ProofError::WrongNumBlindingFactors {},
        ProofError::InvalidBitsize {},
        ProofError::InvalidAggregation {},
        ProofError::ProvingError { reason: String::from("r") },
        ProofError::InvalidCommitmentExtracted {},
        ProofError::InvalidRewindKeySeparator {},
    ];
    for e in rest {
        assert_eq!(R1CSError::try_from(e.clone()), Err(e));
    }
}

#[test]
fn clones_are_equal() {
    for e in all_mpc_errors() {
        assert_eq!(e.clone(), e);
    }
    let p = ProofError::ProvingError { reason: String::from("why") };
    assert_eq!(p.clone(), p);
    assert_eq!(ProofError::FormatError {}.clone(), ProofError::FormatError {});
    assert_ne!(ProofError::FormatError {}, ProofError::VerificationError {});
}
