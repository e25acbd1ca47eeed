//! The range statement on integers.
//!
//! A range proof for bit size `n` commits to a vector of `n` bits and shows
//! that the bits, weighted by the powers of two, add up to the committed
//! value. This module holds the part of that which is plain arithmetic: how
//! a prover takes a value apart into bits, what value a vector of bits
//! stands for, and why the two agree exactly for the values in `[0, 2^n)`.

use vstd::arithmetic::div_mod::{
    lemma_breakdown,
    lemma_div_denominator,
    lemma_mod_bound,
    lemma_small_mod,
};
use vstd::arithmetic::power2::{lemma_pow2_pos, lemma_pow2_unfold, pow2};
use vstd::prelude::*;

verus! {

/// Bit `i` of `v`, counted from the least significant.
pub open spec fn bit_of(v: nat, i: nat) -> bool {
    (v / pow2(i)) % 2 == 1
}

/// The lowest `n` bits of `v`, least significant first.
pub open spec fn bits_of(v: nat, n: nat) -> Seq<bool> {
    Seq::new(n, |i: int| bit_of(v, i as nat))
}

/// The value that a vector of bits stands for: the sum of `2^i` over the
/// positions `i` that hold a one.
pub open spec fn value_of(bits: Seq<bool>) -> nat
    decreases bits.len(),
{
    if bits.len() == 0 {
        0
    } else {
        value_of(bits.drop_last()) + if bits.last() {
            pow2((bits.len() - 1) as nat)
        } else {
            0
        }
    }
}

/// Takes `v` apart into its lowest `n` bits, least significant first. A
/// value of `2^n` or more is not refused: its higher bits are left out.
pub fn bit_decomposition(v: u64, n: usize) -> (bits: Vec<bool>)
    ensures
        bits@ == bits_of(v as nat, n as nat),
{
    let mut bits: Vec<bool> = Vec::new();
    let mut rest: u64 = v;
    let mut i: usize = 0;
    proof {
        vstd::arithmetic::power2::lemma2_to64();
    }
    while i < n
        invariant
            i <= n,
            rest == v as nat / pow2(i as nat),
            bits@ == bits_of(v as nat, i as nat),
        decreases n - i,
    {
        proof {
            lemma_pow2_pos(i as nat);
            lemma_pow2_unfold((i + 1) as nat);
            lemma_div_denominator(v as int, pow2(i as nat) as int, 2);
        }
        bits.push(rest % 2 == 1);
        rest = rest / 2;
        i = i + 1;
        assert(bits@ =~= bits_of(v as nat, i as nat));
    }
    bits
}

/// The lowest `n` bits of `v` stand for the remainder of `v` modulo `2^n`.
pub proof fn lemma_bits_stand_for_remainder(v: nat, n: nat)
    ensures
        value_of(bits_of(v, n)) == v % pow2(n),
    decreases n,
{
    vstd::arithmetic::power2::lemma2_to64();
    if n > 0 {
        let m = (n - 1) as nat;
        lemma_bits_stand_for_remainder(v, m);
        assert(bits_of(v, n).drop_last() =~= bits_of(v, m));
        assert(bits_of(v, n).last() == bit_of(v, m));
        lemma_pow2_pos(m);
        lemma_pow2_unfold(n);
        lemma_breakdown(v as int, pow2(m) as int, 2);
        let top = (v / pow2(m)) % 2;
        assert(pow2(m) * top == if bit_of(v, m) {
            pow2(m)
        } else {
            0
        }) by (nonlinear_arith)
            requires
                top == 0 || top == 1,
                bit_of(v, m) <==> top == 1,
        ;
    }
}

/// The range statement: the lowest `n` bits of `v` stand for `v` itself
/// exactly when `v` lies in `[0, 2^n)`.
pub proof fn lemma_bits_stand_for_value_in_range(v: nat, n: nat)
    ensures
        value_of(bits_of(v, n)) == v <==> v < pow2(n),
{
    lemma_bits_stand_for_remainder(v, n);
    lemma_pow2_pos(n);
    lemma_mod_bound(v as int, pow2(n) as int);
    if v < pow2(n) {
        lemma_small_mod(v, pow2(n));
    }
}

/// Whatever `n` bits a prover commits to, they stand for a value in
/// `[0, 2^n)`.
pub proof fn lemma_bits_stand_for_small_value(bits: Seq<bool>)
    ensures
        value_of(bits) < pow2(bits.len()),
    decreases bits.len(),
{
    vstd::arithmetic::power2::lemma2_to64();
    if bits.len() > 0 {
        lemma_bits_stand_for_small_value(bits.drop_last());
        lemma_pow2_unfold(bits.len());
    }
}

/// Two vectors of bits of one length that stand for the same value are the
/// same vector.
pub proof fn lemma_value_determines_bits(a: Seq<bool>, b: Seq<bool>)
    requires
        a.len() == b.len(),
        value_of(a) == value_of(b),
    ensures
        a == b,
    decreases a.len(),
{
    if a.len() > 0 {
        lemma_bits_stand_for_small_value(a.drop_last());
        lemma_bits_stand_for_small_value(b.drop_last());
        lemma_value_determines_bits(a.drop_last(), b.drop_last());
        assert(a =~= a.drop_last().push(a.last()));
        assert(b =~= b.drop_last().push(b.last()));
    } else {
        assert(a =~= b);
    }
}

/// The bits that a value in `[0, 2^n)` is taken apart into are the only
/// `n` bits that stand for it.
pub proof fn lemma_decomposition_is_unique(v: nat, bits: Seq<bool>)
    requires
        value_of(bits) == v,
    ensures
        bits == bits_of(v, bits.len()),
{
    lemma_bits_stand_for_small_value(bits);
    lemma_bits_stand_for_value_in_range(v, bits.len());
    lemma_value_determines_bits(bits, bits_of(v, bits.len()));
}

} // verus!
