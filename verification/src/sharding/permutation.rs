//! Number theory behind the Maglev permutations: for a prime table size `m`,
//! every sequence `(offset + j * skip) % m` with `1 <= skip < m` visits each
//! slot exactly once in its first `m` positions.
use vstd::prelude::*;
use vstd::arithmetic::div_mod::{
    lemma_fundamental_div_mod, lemma_mod_equivalence, lemma_mod_multiples_basic,
};
use vstd::set_lib::{lemma_int_range, lemma_map_size, lemma_subset_equality, set_int_range};

verus! {

/// `m` has no divisor strictly between 1 and itself.
pub open spec fn is_prime(m: int) -> bool {
    &&& m >= 2
    &&& forall|d: int| 2 <= d < m ==> #[trigger] (m % d) != 0
}

/// The Maglev table size is prime.
pub proof fn lemma_65537_is_prime()
    ensures
        is_prime(65537),
{
    assert(forall|d: u32| 2 <= d && d <= 256 ==> #[trigger] (65537u32 % d) != 0) by (bit_vector);
    assert forall|d: int| 2 <= d < 65537 implies #[trigger] (65537int % d) != 0 by {
        if d <= 256 {
            let e = d as u32;
            assert(65537u32 % e != 0);
        } else if 65537int % d == 0 {
            let q = 65537int / d;
            lemma_fundamental_div_mod(65537, d);
            assert(d * q == 65537);
            assert(q >= 2 && q <= 256) by (nonlinear_arith)
                requires
                    d * q == 65537,
                    257 <= d < 65537,
            ;
            assert(65537int % q == 0) by {
                lemma_mod_multiples_basic(d, q);
                assert(d * q == 65537);
            }
            let e = q as u32;
            assert(65537u32 % e != 0);
        }
    }
}

/// Position `j` of the permutation with the given offset and skip.
pub open spec fn perm_slot(offset: int, skip: int, j: int, m: int) -> int {
    (offset + j * skip) % m
}

/// For a prime `m`, no product of two numbers in `(0, m)` is a multiple of `m`.
proof fn lemma_product_not_multiple(m: int, d: int, s: int)
    requires
        is_prime(m),
        0 < d < m,
        0 < s < m,
    ensures
        (d * s) % m != 0,
    decreases d,
{
    if (d * s) % m == 0 {
        let r = m % d;
        lemma_fundamental_div_mod(m, d);
        let q = m / d;
        if r == 0 {
            if d == 1 {
                assert(s % m == s) by {
                    vstd::arithmetic::div_mod::lemma_small_mod(s as nat, m as nat);
                }
                assert(d * s == s);
            } else {
                assert(m % d != 0);
            }
        } else {
            let k = (d * s) / m;
            lemma_fundamental_div_mod(d * s, m);
            assert(d * s == m * k);
            assert(r * s == m * (s - q * k)) by (nonlinear_arith)
                requires
                    m == d * q + r,
                    d * s == m * k,
            ;
            assert((r * s) % m == 0) by {
                lemma_mod_multiples_basic(s - q * k, m);
                assert((s - q * k) * m == m * (s - q * k)) by (nonlinear_arith);
            }
            assert(0 < r < d) by {
                vstd::arithmetic::div_mod::lemma_mod_pos_bound(m, d);
            }
            lemma_product_not_multiple(m, r, s);
        }
    }
}

/// Distinct positions below `m` land on distinct slots.
pub proof fn lemma_perm_injective(offset: int, skip: int, m: int, j1: int, j2: int)
    requires
        is_prime(m),
        0 < skip < m,
        0 <= j1 < m,
        0 <= j2 < m,
        j1 != j2,
    ensures
        perm_slot(offset, skip, j1, m) != perm_slot(offset, skip, j2, m),
{
    let (lo, hi) = if j1 < j2 { (j1, j2) } else { (j2, j1) };
    lemma_mod_equivalence(offset + hi * skip, offset + lo * skip, m);
    assert((offset + hi * skip) - (offset + lo * skip) == (hi - lo) * skip) by (nonlinear_arith);
    lemma_product_not_multiple(m, hi - lo, skip);
}

/// Every slot below `m` is reached at some position below `m`.
pub proof fn lemma_perm_surjective(offset: int, skip: int, m: int, c: int)
    requires
        is_prime(m),
        0 < skip < m,
        0 <= c < m,
    ensures
        exists|j: int| 0 <= j < m && #[trigger] perm_slot(offset, skip, j, m) == c,
{
    let f = |j: int| perm_slot(offset, skip, j, m);
    let dom = set_int_range(0, m);
    lemma_int_range(0, m);
    assert(vstd::relations::injective_on(f, dom)) by {
        assert forall|x: int, y: int| dom.contains(x) && dom.contains(y) && #[trigger] f(x) == #[trigger] f(y)
            implies x == y by {
            if x != y {
                lemma_perm_injective(offset, skip, m, x, y);
            }
        }
    }
    let img = dom.map(f);
    lemma_map_size(dom, img, f);
    assert(img.subset_of(dom)) by {
        assert forall|y: int| img.contains(y) implies dom.contains(y) by {
            let x = choose|x: int| dom.contains(x) && f(x) == y;
            vstd::arithmetic::div_mod::lemma_mod_bound(offset + x * skip, m);
        }
    }
    lemma_subset_equality(img, dom);
    assert(img.contains(c));
    let j = choose|j: int| dom.contains(j) && f(j) == c;
    assert(perm_slot(offset, skip, j, m) == c);
}

} // verus!
