use bulletproofs::errors::{MPCError, ProofError};
use bulletproofs::validation::{
    check_message_count, check_parameters, check_proof_parameters, check_proof_shares,
    check_proving_input, check_rounds, is_power_of_two, is_valid_bitsize, Round,
};

#[test]
fn bitsizes() {
    for n in [8usize, 16, 32, 64] {
        assert!(is_valid_bitsize(n));
    }
    for n in [0usize, 1, 7, 9, 15, 24, 33, 63, 65, 128, usize::MAX] {
        assert!(!is_valid_bitsize(n));
    }
}

#[test]
fn powers_of_two() {
    assert!(!is_power_of_two(0));
    let mut p: usize = 1;
    for _ in 0..(usize::BITS - 1) {
        assert!(is_power_of_two(p));
        p *= 2;
    }
    assert!(is_power_of_two(p));
    for m in [3usize, 5, 6, 7, 9, 12, 1000, usize::MAX, usize::MAX / 2 + 2] {
        assert!(!is_power_of_two(m));
    }
}

#[test]
fn powers_of_two_agree_with_std() {
    for m in 0usize..5000 {
        assert_eq!(is_power_of_two(m), m.is_power_of_two());
    }
}

#[test]
fn parameters_accepted() {
    assert_eq!(check_parameters(64, 1, 64, 1), Ok(()));
    assert_eq!(check_parameters(8, 16, 64, 16), Ok(()));
    assert_eq!(check_parameters(32, 4, 32, 4), Ok(()));
}

#[test]
fn parameters_rejected_in_order() {
    assert_eq!(check_parameters(7, 3, 0, 0), Err(MPCError::MPCInvalidBitsize {}));
    assert_eq!(check_parameters(8, 3, 0, 0), Err(MPCError::MPCInvalidAggregation {}));
    assert_eq!(check_parameters(8, 0, 64, 16), Err(MPCError::MPCInvalidAggregation {}));
    assert_eq!(check_parameters(64, 2, 32, 2), Err(MPCError::MPCInvalidGeneratorsLength {}));
    assert_eq!(check_parameters(32, 2, 64, 1), Err(MPCError::MPCInvalidGeneratorsLength {}));
}

#[test]
fn proof_parameters_speak_proof_vocabulary() {
    assert_eq!(check_proof_parameters(16, 2, 16, 2), Ok(()));
    assert_eq!(check_proof_parameters(17, 2, 64, 2), Err(ProofError::InvalidBitsize {}));
    assert_eq!(check_proof_parameters(16, 6, 64, 8), Err(ProofError::InvalidAggregation {}));
    assert_eq!(check_proof_parameters(16, 8, 64, 4), Err(ProofError::InvalidGeneratorsLength {}));
}

#[test]
fn proving_input() {
    assert_eq!(check_proving_input(8, 4, 4, 8, 4), Ok(()));
    assert_eq!(check_proving_input(9, 4, 3, 0, 0), Err(ProofError::WrongNumBlindingFactors {}));
    assert_eq!(check_proving_input(9, 4, 4, 8, 4), Err(ProofError::InvalidBitsize {}));
    assert_eq!(check_proving_input(8, 3, 3, 8, 4), Err(ProofError::InvalidAggregation {}));
    assert_eq!(check_proving_input(8, 4, 4, 8, 2), Err(ProofError::InvalidGeneratorsLength {}));
}

#[test]
fn message_counts() {
    for round in [Round::BitCommitments, Round::PolyCommitments, Round::ProofShares] {
        assert_eq!(check_message_count(round, 4, 4), Ok(()));
        assert_eq!(check_message_count(round, 0, 0), Ok(()));
    }
    assert_eq!(
        check_message_count(Round::BitCommitments, 4, 3),
        Err(MPCError::WrongNumBitCommitments {})
    );
    assert_eq!(
        check_message_count(Round::PolyCommitments, 4, 5),
        Err(MPCError::WrongNumPolyCommitments {})
    );
    assert_eq!(
        check_message_count(Round::ProofShares, 1, 0),
        Err(MPCError::WrongNumProofShares {})
    );
}

#[test]
fn proof_shares_all_good() {
    assert_eq!(check_proof_shares(4, &vec![true, true, true, true]), Ok(()));
    assert_eq!(check_proof_shares(1, &vec![true]), Ok(()));
    assert_eq!(check_proof_shares(0, &vec![]), Ok(()));
}

#[test]
fn proof_shares_wrong_count_comes_first() {
    assert_eq!(
        check_proof_shares(4, &vec![false, true, true]),
        Err(MPCError::WrongNumProofShares {})
    );
    assert_eq!(check_proof_shares(2, &vec![true, true, true]), Err(MPCError::WrongNumProofShares {}));
}

#[test]
fn one_bad_share_is_named_alone() {
    for m in [1usize, 2, 4, 8, 16] {
        for j in 0..m {
            let mut verdicts = vec![true; m];
            verdicts[j] = false;
            assert_eq!(
                check_proof_shares(m, &verdicts),
                Err(MPCError::MalformedProofShares { bad_shares: vec![j] })
            );
        }
    }
}

#[test]
fn bad_shares_come_in_rising_order() {
    assert_eq!(
        check_proof_shares(8, &vec![false, true, false, false, true, true, true, false]),
        Err(MPCError::MalformedProofShares { bad_shares: vec![0, 2, 3, 7] })
    );
    assert_eq!(
        check_proof_shares(2, &vec![false, false]),
        Err(MPCError::MalformedProofShares { bad_shares: vec![0, 1] })
    );
}

#[test]
fn rounds_of_the_inner_product_argument() {
    assert_eq!(check_rounds(8, 3), Ok(()));
    assert_eq!(check_rounds(1, 0), Ok(()));
    assert_eq!(check_rounds(2, 1), Ok(()));
    assert_eq!(check_rounds(64, 6), Ok(()));
    let mut n: usize = 1;
    for k in 0..=10 {
        assert_eq!(check_rounds(n, k), Ok(()));
        assert_eq!(check_rounds(n, k + 1), Err(ProofError::FormatError {}));
        n *= 2;
    }
}

#[test]
fn rounds_that_do_not_fit() {
    assert_eq!(check_rounds(8, 2), Err(ProofError::FormatError {}));
    assert_eq!(check_rounds(8, 4), Err(ProofError::FormatError {}));
    assert_eq!(check_rounds(0, 0), Err(ProofError::FormatError {}));
    assert_eq!(check_rounds(6, 2), Err(ProofError::FormatError {}));
    assert_eq!(check_rounds(1, usize::MAX), Err(ProofError::FormatError {}));
    assert_eq!(check_rounds(usize::MAX, usize::BITS as usize), Err(ProofError::FormatError {}));
    assert_eq!(check_rounds(1 << (usize::BITS - 1), (usize::BITS - 1) as usize), Ok(()));
}
