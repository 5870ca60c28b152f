//! Arithmetic in the Goldilocks prime field, on canonical `u64` values.
//!
//! A field element is a `u64` strictly below `GOLDILOCKS_ORDER`; every
//! operation reduces its result back into that range. The specification
//! functions state each operation directly as integer arithmetic modulo the
//! field order.

use vstd::prelude::*;

verus! {

/// The Goldilocks prime, 2^64 - 2^32 + 1.
pub const GOLDILOCKS_ORDER: u64 = 0xffff_ffff_0000_0001;

/// A canonical field element: a machine word strictly below the field order.
pub open spec fn is_elem(x: u64) -> bool {
    x < GOLDILOCKS_ORDER
}

/// Field addition, as mathematics: sum reduced modulo the order.
pub open spec fn fadd(a: u64, b: u64) -> u64 {
    ((a + b) % (GOLDILOCKS_ORDER as int)) as u64
}

/// Field subtraction, as mathematics: difference reduced modulo the order
/// (ghost `%` is Euclidean, so the result is already non-negative).
pub open spec fn fsub(a: u64, b: u64) -> u64 {
    ((a - b) % (GOLDILOCKS_ORDER as int)) as u64
}

/// Field multiplication, as mathematics: product reduced modulo the order.
pub open spec fn fmul(a: u64, b: u64) -> u64 {
    ((a * b) % (GOLDILOCKS_ORDER as int)) as u64
}

/// Adds two field elements.
pub fn f_add(a: u64, b: u64) -> (r: u64)
    requires
        is_elem(a),
        is_elem(b),
    ensures
        r == fadd(a, b),
        is_elem(r),
{
    let s: u128 = a as u128 + b as u128;
    (s % (GOLDILOCKS_ORDER as u128)) as u64
}

/// Subtracts one field element from another.
pub fn f_sub(a: u64, b: u64) -> (r: u64)
    requires
        is_elem(a),
        is_elem(b),
    ensures
        r == fsub(a, b),
        is_elem(r),
{
    if a >= b {
        a - b
    } else {
        let r = a + (GOLDILOCKS_ORDER - b);
        proof {
            assert((a - b) % (GOLDILOCKS_ORDER as int)
                == a + (GOLDILOCKS_ORDER - b)) by {
                vstd::arithmetic::div_mod::lemma_small_mod(
                    (a + (GOLDILOCKS_ORDER - b)) as nat,
                    GOLDILOCKS_ORDER as nat,
                );
                vstd::arithmetic::div_mod::lemma_mod_add_multiples_vanish(
                    a - b,
                    GOLDILOCKS_ORDER as int,
                );
            }
        }
        r
    }
}

/// Multiplies two field elements.
pub fn f_mul(a: u64, b: u64) -> (r: u64)
    requires
        is_elem(a),
        is_elem(b),
    ensures
        r == fmul(a, b),
        is_elem(r),
{
    proof {
        vstd::arithmetic::mul::lemma_mul_upper_bound(
            a as int,
            0xffff_ffff_ffff_ffff,
            b as int,
            0xffff_ffff_ffff_ffff,
        );
    }
    let p: u128 = a as u128 * b as u128;
    (p % (GOLDILOCKS_ORDER as u128)) as u64
}

/// Shifting a value by a nonzero field element and subtracting the original
/// leaves a nonzero difference: the field detects any nonzero corruption.
pub proof fn lemma_fsub_shift_nonzero(v: u64, delta: u64)
    requires
        is_elem(v),
        0 < delta,
        is_elem(delta),
    ensures
        fsub(v, fadd(v, delta)) == GOLDILOCKS_ORDER - delta,
{
    let p = GOLDILOCKS_ORDER as int;
    let w = fadd(v, delta) as int;
    if v + delta < p {
        vstd::arithmetic::div_mod::lemma_small_mod((v + delta) as nat, GOLDILOCKS_ORDER as nat);
        assert(w == v + delta);
        vstd::arithmetic::div_mod::lemma_mod_add_multiples_vanish(v - w, p);
        vstd::arithmetic::div_mod::lemma_small_mod((p + v - w) as nat, GOLDILOCKS_ORDER as nat);
    } else {
        vstd::arithmetic::div_mod::lemma_mod_sub_multiples_vanish(v + delta, p);
        vstd::arithmetic::div_mod::lemma_small_mod(
            (v + delta - p) as nat,
            GOLDILOCKS_ORDER as nat,
        );
        assert(w == v + delta - p);
        vstd::arithmetic::div_mod::lemma_small_mod((p - delta) as nat, GOLDILOCKS_ORDER as nat);
        assert(fsub(v, fadd(v, delta)) == (v - w) % p);
        assert(v - w == p - delta);
    }
}

/// Doubles a field element.
pub fn f_double(a: u64) -> (r: u64)
    requires
        is_elem(a),
    ensures
        r == fadd(a, a),
        is_elem(r),
{
    f_add(a, a)
}

} // verus!
