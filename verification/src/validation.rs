//! The checks on plain numbers that guard proving and verification: which
//! bit sizes and aggregation sizes a range proof may have, how many
//! generators it needs, how many messages a dealer must hold before a round
//! of the multiparty protocol closes, and which parties are named when proof
//! shares are rejected.
//!
//! Nothing here touches curve arithmetic. A caller that holds the curve
//! points and scalars hands over counts and verdicts, and gets back either
//! leave to go on or the error that the protocol prescribes.

use crate::errors::{MPCError, MPCErrorView, ProofError, ProofErrorView};
use vstd::arithmetic::power2::{lemma_pow2_strictly_increases, lemma_pow2_unfold, pow2};
use vstd::prelude::*;

verus! {

/// A range proof shows that a value lies in `[0, 2^n)` for a bit size `n`
/// of 8, 16, 32 or 64.
pub open spec fn valid_bitsize(n: int) -> bool {
    n == 8 || n == 16 || n == 32 || n == 64
}

/// Whether `m` is `2^k` for some natural number `k`.
pub open spec fn power_of_two(m: int) -> bool {
    exists|k: nat| m == #[trigger] pow2(k)
}

/// Whether generators made for `party_capacity` parties, `gens_capacity` of
/// them for each party, serve `m` parties that each prove `n` bits: every
/// party needs a share of its own, and every share must hold `n` generators.
pub open spec fn enough_generators(n: int, m: int, gens_capacity: int, party_capacity: int) -> bool {
    n <= gens_capacity && m <= party_capacity
}

/// What is wrong with the parameters of an aggregated proof of `m` values
/// of `n` bits each, if anything. The bit size is judged first, then the
/// aggregation size, then the generators.
pub open spec fn parameter_error(
    n: int,
    m: int,
    gens_capacity: int,
    party_capacity: int,
) -> Option<MPCErrorView> {
    if !valid_bitsize(n) {
        Some(MPCErrorView::MPCInvalidBitsize)
    } else if !power_of_two(m) {
        Some(MPCErrorView::MPCInvalidAggregation)
    } else if !enough_generators(n, m, gens_capacity, party_capacity) {
        Some(MPCErrorView::MPCInvalidGeneratorsLength)
    } else {
        None
    }
}

/// Tells whether `n` is an accepted bit size.
pub fn is_valid_bitsize(n: usize) -> (b: bool)
    ensures
        b == valid_bitsize(n as int),
{
    n == 8 || n == 16 || n == 32 || n == 64
}

/// Tells whether `m` is a power of two. Zero is none.
pub fn is_power_of_two(m: usize) -> (b: bool)
    ensures
        b == power_of_two(m as int),
{
    let mut p: usize = 1;
    let ghost mut k: nat = 0;
    proof {
        vstd::arithmetic::power2::lemma2_to64();
    }
    while p < m && p <= m / 2
        invariant
            1 <= p,
            p == pow2(k),
            forall|j: nat| j < k ==> #[trigger] pow2(j) < m,
        decreases m - p,
    {
        proof {
            lemma_pow2_unfold(k + 1);
            assert forall|j: nat| j < k + 1 implies #[trigger] pow2(j) < m by {
                if j < k {
                } else {
                    assert(j == k);
                }
            }
            k = k + 1;
        }
        p = p * 2;
    }
    proof {
        if p == m {
            assert(m == pow2(k));
        } else {
            assert forall|j: nat| m != #[trigger] pow2(j) by {
                if j < k {
                } else if j == k {
                } else {
                    lemma_pow2_strictly_increases(k + 1, j + 1);
                    lemma_pow2_unfold(k + 1);
                    if j > k + 1 {
                        lemma_pow2_strictly_increases(k + 1, j);
                    }
                }
            }
        }
    }
    p == m
}

/// Judges the parameters of an aggregated proof of `m` values of `n` bits
/// each against generators of the given capacities.
pub fn check_parameters(n: usize, m: usize, gens_capacity: usize, party_capacity: usize) -> (r:
    Result<(), MPCError>)
    ensures
        match parameter_error(n as int, m as int, gens_capacity as int, party_capacity as int) {
            Some(e) => r is Err && r->Err_0@ == e,
            None => r is Ok,
        },
{
    if !is_valid_bitsize(n) {
        Err(MPCError::MPCInvalidBitsize {  })
    } else if !is_power_of_two(m) {
        Err(MPCError::MPCInvalidAggregation {  })
    } else if gens_capacity < n || party_capacity < m {
        Err(MPCError::MPCInvalidGeneratorsLength {  })
    } else {
        Ok(())
    }
}

/// What stands wrong with the input of a prover at the proof level, where
/// the multiparty vocabulary does not show.
pub open spec fn proof_parameter_error(
    n: int,
    m: int,
    gens_capacity: int,
    party_capacity: int,
) -> Option<ProofErrorView> {
    match parameter_error(n, m, gens_capacity, party_capacity) {
        Some(e) => Some(ProofErrorView::from_mpc(e)),
        None => None,
    }
}

/// What is wrong with a request to prove `values` values under `blindings`
/// blinding factors, if anything. The two counts are compared first.
pub open spec fn proving_input_error(
    n: int,
    values: int,
    blindings: int,
    gens_capacity: int,
    party_capacity: int,
) -> Option<ProofErrorView> {
    if values != blindings {
        Some(ProofErrorView::WrongNumBlindingFactors)
    } else {
        proof_parameter_error(n, values, gens_capacity, party_capacity)
    }
}

/// Judges the parameters of an aggregated proof as [`check_parameters`]
/// does, and reports in the vocabulary of the proof level.
pub fn check_proof_parameters(
    n: usize,
    m: usize,
    gens_capacity: usize,
    party_capacity: usize,
) -> (r: Result<(), ProofError>)
    ensures
        match proof_parameter_error(n as int, m as int, gens_capacity as int, party_capacity as int) {
            Some(e) => r is Err && r->Err_0@ == e,
            None => r is Ok,
        },
{
    match check_parameters(n, m, gens_capacity, party_capacity) {
        Ok(()) => Ok(()),
        Err(e) => Err(ProofError::from(e)),
    }
}

/// Judges a request to prove `values` values of `n` bits each under
/// `blindings` blinding factors.
pub fn check_proving_input(
    n: usize,
    values: usize,
    blindings: usize,
    gens_capacity: usize,
    party_capacity: usize,
) -> (r: Result<(), ProofError>)
    ensures
        match proving_input_error(
            n as int,
            values as int,
            blindings as int,
            gens_capacity as int,
            party_capacity as int,
        ) {
            Some(e) => r is Err && r->Err_0@ == e,
            None => r is Ok,
        },
{
    if values != blindings {
        Err(ProofError::WrongNumBlindingFactors {  })
    } else {
        check_proof_parameters(n, values, gens_capacity, party_capacity)
    }
}

/// The three rounds in which a dealer collects one message from each party.
#[derive(Clone, Copy, Debug, PartialEq, Eq)]
pub enum Round {
    /// The parties commit to the bits of their values.
    BitCommitments,
    /// The parties commit to the coefficients of their polynomials.
    PolyCommitments,
    /// The parties hand in their shares of the proof.
    ProofShares,
}

impl Round {
    /// The error of a dealer that closes this round with the wrong number of
    /// messages.
    pub open spec fn count_error(self) -> MPCErrorView {
        match self {
            Round::BitCommitments => MPCErrorView::WrongNumBitCommitments,
            Round::PolyCommitments => MPCErrorView::WrongNumPolyCommitments,
            Round::ProofShares => MPCErrorView::WrongNumProofShares,
        }
    }
}

/// A dealer for `m` parties closes a round only with exactly `m` messages.
pub fn check_message_count(round: Round, m: usize, received: usize) -> (r: Result<(), MPCError>)
    ensures
        received == m ==> r is Ok,
        received != m ==> r is Err && r->Err_0@ == round.count_error(),
{
    if received == m {
        Ok(())
    } else {
        match round {
            Round::BitCommitments => Err(MPCError::WrongNumBitCommitments {  }),
            Round::PolyCommitments => Err(MPCError::WrongNumPolyCommitments {  }),
            Round::ProofShares => Err(MPCError::WrongNumProofShares {  }),
        }
    }
}

/// The indexes of the parties whose proof shares failed their check, in
/// rising order. `verdicts[i]` tells whether the share of party `i` passed.
pub open spec fn bad_shares(verdicts: Seq<bool>) -> Seq<usize>
    decreases verdicts.len(),
{
    if verdicts.len() == 0 {
        Seq::empty()
    } else if verdicts.last() {
        bad_shares(verdicts.drop_last())
    } else {
        bad_shares(verdicts.drop_last()).push((verdicts.len() - 1) as usize)
    }
}

/// The outcome of the last round for a dealer of `m` parties that holds one
/// verdict for each share it received: the count is judged first, then the
/// verdicts.
pub open spec fn proof_shares_error(m: int, verdicts: Seq<bool>) -> Option<MPCErrorView> {
    if verdicts.len() != m {
        Some(MPCErrorView::WrongNumProofShares)
    } else if bad_shares(verdicts).len() > 0 {
        Some(MPCErrorView::MalformedProofShares { bad_shares: bad_shares(verdicts) })
    } else {
        None
    }
}

/// Closes the last round: a dealer may assemble the aggregated proof only
/// if it holds `m` shares and every one of them passed its check. Otherwise
/// the parties to blame are named.
pub fn check_proof_shares(m: usize, verdicts: &Vec<bool>) -> (r: Result<(), MPCError>)
    ensures
        match proof_shares_error(m as int, verdicts@) {
            Some(e) => r is Err && r->Err_0@ == e,
            None => r is Ok,
        },
{
    if verdicts.len() != m {
        return Err(MPCError::WrongNumProofShares {  });
    }
    let mut bad: Vec<usize> = Vec::new();
    let mut i: usize = 0;
    while i < verdicts.len()
        invariant
            i <= verdicts.len(),
            bad@ == bad_shares(verdicts@.take(i as int)),
        decreases verdicts.len() - i,
    {
        proof {
            let next = verdicts@.take(i + 1);
            assert(next.drop_last() == verdicts@.take(i as int));
            assert(next.last() == verdicts@[i as int]);
        }
        if !verdicts[i] {
            bad.push(i);
        }
        i = i + 1;
    }
    proof {
        assert(verdicts@.take(i as int) == verdicts@);
    }
    if bad.len() > 0 {
        Err(MPCError::MalformedProofShares { bad_shares: bad })
    } else {
        Ok(())
    }
}

/// The inner-product argument halves vectors of length `n` once per round
/// until one element is left, so a proof for length `n` holds `pairs` pairs
/// of cross terms exactly when `n` is `2^pairs`.
pub open spec fn rounds_fit(n: int, pairs: nat) -> bool {
    n == pow2(pairs)
}

/// Judges the number of pairs of cross terms in an inner-product proof for
/// vectors of length `n`.
pub fn check_rounds(n: usize, pairs: usize) -> (r: Result<(), ProofError>)
    ensures
        rounds_fit(n as int, pairs as nat) ==> r is Ok,
        !rounds_fit(n as int, pairs as nat) ==> r is Err && r->Err_0@
            == ProofErrorView::FormatError,
{
    let mut p: usize = 1;
    let mut i: usize = 0;
    proof {
        vstd::arithmetic::power2::lemma2_to64();
    }
    while i < pairs
        invariant
            i <= pairs,
            p == pow2(i as nat),
        decreases pairs - i,
    {
        proof {
            lemma_pow2_unfold((i + 1) as nat);
        }
        if p > usize::MAX / 2 {
            proof {
                if i + 1 < pairs {
                    lemma_pow2_strictly_increases((i + 1) as nat, pairs as nat);
                }
            }
            return Err(ProofError::FormatError {  });
        }
        p = p * 2;
        i = i + 1;
    }
    if p == n {
        Ok(())
    } else {
        Err(ProofError::FormatError {  })
    }
}

/// The parameter errors keep their meaning at the proof level: whatever is
/// wrong with the parameters is reported as the proof-level error of the
/// same kind, and never as an internal proving error.
pub proof fn lemma_parameter_errors_keep_meaning(
    n: int,
    m: int,
    gens_capacity: int,
    party_capacity: int,
)
    ensures
        !valid_bitsize(n) <==> proof_parameter_error(n, m, gens_capacity, party_capacity) == Some(
            ProofErrorView::InvalidBitsize,
        ),
        valid_bitsize(n) && !power_of_two(m) <==> proof_parameter_error(
            n,
            m,
            gens_capacity,
            party_capacity,
        ) == Some(ProofErrorView::InvalidAggregation),
        valid_bitsize(n) && power_of_two(m) && !enough_generators(
            n,
            m,
            gens_capacity,
            party_capacity,
        ) <==> proof_parameter_error(n, m, gens_capacity, party_capacity) == Some(
            ProofErrorView::InvalidGeneratorsLength,
        ),
        valid_bitsize(n) && power_of_two(m) && enough_generators(
            n,
            m,
            gens_capacity,
            party_capacity,
        ) <==> proof_parameter_error(n, m, gens_capacity, party_capacity) is None,
{
}

/// Party `i` works with the generators at the positions from
/// `i * gens_capacity` on. Where the generators are enough for `m` parties
/// of `n` bits, the positions that two different parties use never overlap,
/// all of them lie inside the tables, and `m * n` is at most the number of
/// generators in a table.
pub proof fn lemma_shares_are_disjoint(
    n: int,
    m: int,
    gens_capacity: int,
    party_capacity: int,
    i: int,
    j: int,
)
    requires
        0 <= n,
        enough_generators(n, m, gens_capacity, party_capacity),
        0 <= i < j < m,
    ensures
        i * gens_capacity + n <= j * gens_capacity,
        j * gens_capacity + n <= party_capacity * gens_capacity,
        m * n <= party_capacity * gens_capacity,
{
    assert(i * gens_capacity + gens_capacity <= j * gens_capacity) by (nonlinear_arith)
        requires
            i + 1 <= j,
            0 <= gens_capacity,
    ;
    assert(j * gens_capacity + gens_capacity <= party_capacity * gens_capacity)
        by (nonlinear_arith)
        requires
            j + 1 <= party_capacity,
            0 <= gens_capacity,
    ;
    assert(m * n <= party_capacity * gens_capacity) by (nonlinear_arith)
        requires
            0 <= n <= gens_capacity,
            0 <= m <= party_capacity,
    ;
}

/// The list of bad shares names exactly the parties whose share failed:
/// every entry is the index of a failed share, every failed share is
/// entered, and the entries rise, so none is entered twice.
pub proof fn lemma_bad_shares_names_the_failed(verdicts: Seq<bool>)
    requires
        verdicts.len() <= usize::MAX,
    ensures
        forall|k: int|
            0 <= k < bad_shares(verdicts).len() ==> (#[trigger] bad_shares(verdicts)[k])
                < verdicts.len() && !verdicts[bad_shares(verdicts)[k] as int],
        forall|i: int|
            0 <= i < verdicts.len() && !verdicts[i] ==> bad_shares(verdicts).contains(i as usize),
        forall|k: int, l: int|
            0 <= k < l < bad_shares(verdicts).len() ==> bad_shares(verdicts)[k] < bad_shares(
                verdicts,
            )[l],
    decreases verdicts.len(),
{
    if verdicts.len() > 0 {
        let front = verdicts.drop_last();
        let last = (verdicts.len() - 1) as usize;
        lemma_bad_shares_names_the_failed(front);
        let bad = bad_shares(verdicts);
        assert forall|i: int| 0 <= i < verdicts.len() && !verdicts[i] implies bad.contains(
            i as usize,
        ) by {
            if i < front.len() {
                assert(!front[i]);
                let k = choose|k: int|
                    0 <= k < bad_shares(front).len() && bad_shares(front)[k] == i as usize;
                assert(bad[k] == i as usize);
            } else {
                assert(bad[bad.len() - 1] == last);
            }
        }
    }
}

/// A dealer may assemble the proof exactly when it holds the right number
/// of shares and every share passed its check.
pub proof fn lemma_assembly_needs_every_share(m: int, verdicts: Seq<bool>)
    requires
        verdicts.len() <= usize::MAX,
    ensures
        proof_shares_error(m, verdicts) is None <==> verdicts.len() == m && forall|i: int|
            0 <= i < verdicts.len() ==> verdicts[i],
{
    lemma_bad_shares_names_the_failed(verdicts);
    let bad = bad_shares(verdicts);
    if bad.len() > 0 {
        assert(!verdicts[bad[0] as int]);
    }
    if exists|i: int| 0 <= i < verdicts.len() && !verdicts[i] {
        let i = choose|i: int| 0 <= i < verdicts.len() && !verdicts[i];
        assert(bad.contains(i as usize));
    }
}

/// Where the share of party `j` alone fails its check, the dealer refuses
/// to assemble a proof and names party `j` and nobody else.
pub proof fn lemma_one_bad_share_is_named_alone(verdicts: Seq<bool>, j: int)
    requires
        verdicts.len() <= usize::MAX,
        0 <= j < verdicts.len(),
        forall|i: int| 0 <= i < verdicts.len() ==> (verdicts[i] <==> i != j),
    ensures
        proof_shares_error(verdicts.len() as int, verdicts) == Some(
            MPCErrorView::MalformedProofShares { bad_shares: seq![j as usize] },
        ),
{
    lemma_bad_shares_names_the_failed(verdicts);
    let bad = bad_shares(verdicts);
    assert(!verdicts[j]);
    assert(bad.contains(j as usize));
    assert forall|k: int| 0 <= k < bad.len() implies bad[k] == j as usize by {
        assert(!verdicts[bad[k] as int]);
    }
    if bad.len() > 1 {
        assert(bad[0] < bad[1]);
    }
    assert(bad =~= seq![j as usize]);
}

} // verus!
