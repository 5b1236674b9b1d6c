//! The fixation calculator: how many leading grapheme clusters of an eligible
//! word are emphasized. The fixation ratio is a number of tenths (three tenths,
//! five tenths or seven tenths for the three intensity levels), and the
//! boundary is the ratio times the word's grapheme-cluster count, rounded up.

use vstd::arithmetic::div_mod::lemma_div_is_ordered;
use vstd::arithmetic::div_mod::lemma_fundamental_div_mod;
use vstd::prelude::*;

verus! {

/// The emphasis boundary of a word of `n` grapheme clusters under a fixation
/// ratio of `tenths` tenths: the ratio times `n`, rounded up to the next
/// integer. Clusters at indices below the boundary form the emphasized zone.
pub open spec fn boundary_of(n: nat, tenths: nat) -> nat {
    (n * tenths + 9) / 10
}

/// Computes the emphasis boundary `ceil(n * tenths / 10)`. The result is the
/// least count of leading clusters whose share of the word is at least the
/// fixation ratio: it never exceeds the word's length, and it is zero exactly
/// on an empty word.
pub fn emphasis_boundary(n: usize, tenths: usize) -> (b: usize)
    requires
        1 <= tenths <= 10,
    ensures
        b == boundary_of(n as nat, tenths as nat),
        b <= n,
        10 * (b as int) >= n * tenths,
        b > 0 ==> 10 * (b as int - 1) < n * tenths,
        b == 0 <==> n == 0,
{
    proof {
        let ni = n as int;
        let ti = tenths as int;
        assert(ni * ti <= ni * 10) by (nonlinear_arith)
            requires
                0 <= ni && ti <= 10,
        ;
        assert(0 <= ni * ti) by (nonlinear_arith)
            requires
                0 <= ni && 0 <= ti,
        ;
        lemma_div_is_ordered(ni * ti + 9, ni * 10 + 9, 10);
        assert((ni * 10 + 9) / 10 == ni) by {
            lemma_fundamental_div_mod(ni * 10 + 9, 10);
            assert((ni * 10 + 9) % 10 == 9) by (nonlinear_arith);
        };
        lemma_fundamental_div_mod(ni * ti + 9, 10);
        assert(0 <= (ni * ti + 9) % 10 < 10) by (nonlinear_arith);
        if n > 0 {
            assert(ni * ti >= 1) by (nonlinear_arith)
                requires
                    ni >= 1 && ti >= 1,
            ;
            lemma_div_is_ordered(10, ni * ti + 9, 10);
        }
    }
    let prod: u128 = (n as u128) * (tenths as u128);
    let b128: u128 = (prod + 9) / 10;
    b128 as usize
}

} // verus!
