//! Integers modulo the prime `2^31 - 1`: a scalar whose arithmetic is exact.
//!
//! With this scalar the group laws hold to the last digit, so a computation
//! can be held against its expected value without a tolerance. Division
//! multiplies by the inverse of the divisor; a divisor without an inverse
//! gives zero.

use crate::scalar::{ExactScalar, Scalar};
use vstd::arithmetic::div_mod::{
    lemma_add_mod_noop, lemma_fundamental_div_mod, lemma_mod_multiples_basic, lemma_mod_self_0,
    lemma_mul_mod_noop_general, lemma_small_mod, lemma_sub_mod_noop,
};
use vstd::arithmetic::mul::{
    lemma_mul_is_associative, lemma_mul_is_commutative, lemma_mul_is_distributive_add,
};
use vstd::prelude::*;

verus! {

/// The modulus `2^31 - 1`.
pub const MODULUS: u32 = 2147483647;

/// A residue class modulo [`MODULUS`]. The class is canonical where `value`
/// is less than the modulus; every operation takes any value for the class
/// it lies in and returns a canonical one.
#[derive(Debug, Clone, Copy, PartialEq, Eq)]
pub struct Residue {
    pub value: u32,
}

/// Whether `x` is the least natural number with `b * x = 1` modulo the
/// modulus.
pub open spec fn is_inverse_of(x: int, b: int) -> bool {
    0 <= x < MODULUS && (b * x) % (MODULUS as int) == 1
}

/// The inverse of `b` modulo the modulus, or zero where `b` has none.
pub open spec fn inverse_spec(b: int) -> int {
    if exists|x: int| is_inverse_of(x, b) {
        choose|x: int| is_inverse_of(x, b)
    } else {
        0
    }
}

/// Whether `d` divides both `x` and `y`.
pub open spec fn common_divisor(d: int, x: int, y: int) -> bool {
    d > 0 && x % d == 0 && y % d == 0
}

/// A number has at most one inverse.
proof fn lemma_inverse_unique(b: int, x: int, y: int)
    requires
        is_inverse_of(x, b),
        is_inverse_of(y, b),
    ensures
        x == y,
{
    let p = MODULUS as int;
    // x = x * (b * y) = (x * b) * y = y, modulo p
    lemma_mul_mod_noop_general(x, b * y, p);
    lemma_mul_is_associative(x, b, y);
    lemma_mul_mod_noop_general(x * b, y, p);
    lemma_mul_is_commutative(x, b);
    lemma_small_mod(x as nat, p as nat);
    lemma_small_mod(y as nat, p as nat);
    assert((x * (b * y)) % p == (x * 1) % p);
    assert(((x * b) * y) % p == (1 * y) % p);
}

/// The inverse of a number that has one is that one.
proof fn lemma_inverse_found(b: int, x: int)
    requires
        is_inverse_of(x, b),
    ensures
        inverse_spec(b) == x,
{
    lemma_inverse_unique(b, x, inverse_spec(b));
}

/// A number that shares a divisor over one with the modulus has no inverse.
proof fn lemma_no_inverse(b: int, g: int, x: int)
    requires
        g >= 2,
        (MODULUS as int) % g == 0,
        b % g == 0,
    ensures
        !is_inverse_of(x, b),
{
    let p = MODULUS as int;
    if (b * x) % p == 1 {
        let k = (b * x) / p;
        let u = b / g;
        let w = p / g;
        lemma_fundamental_div_mod(b * x, p);
        lemma_fundamental_div_mod(b, g);
        lemma_fundamental_div_mod(p, g);
        assert(g * (u * x - w * k) == 1) by (nonlinear_arith)
            requires
                b * x == p * k + 1,
                b == g * u,
                p == g * w,
        ;
        assert(false) by (nonlinear_arith)
            requires
                g >= 2,
                g * (u * x - w * k) == 1,
        ;
    }
}

/// What divides `y` and the remainder of `x` by `y` divides `x`.
proof fn lemma_divisor_of_remainder(d: int, x: int, y: int)
    requires
        y > 0,
        x >= 0,
        common_divisor(d, y, x % y),
    ensures
        common_divisor(d, x, y),
{
    let q = x / y;
    let r = x % y;
    lemma_fundamental_div_mod(x, y);
    lemma_fundamental_div_mod(y, d);
    lemma_fundamental_div_mod(r, d);
    let yd = y / d;
    let rd = r / d;
    assert(x == (yd * q + rd) * d) by (nonlinear_arith)
        requires
            x == y * q + r,
            y == d * yd,
            r == d * rd,
    ;
    lemma_mod_multiples_basic(yd * q + rd, d);
}

/// One step of the search for an inverse keeps the coefficients in step
/// with the remainders: where `s0 * b = r0` and `s1 * b = r1` modulo `p`,
/// there `(s0 - q * s1) * b = r0 - q * r1`.
proof fn lemma_coefficient_step(b: int, s0: int, s1: int, r0: int, r1: int, q: int)
    requires
        (s0 * b) % (MODULUS as int) == r0 % (MODULUS as int),
        (s1 * b) % (MODULUS as int) == r1 % (MODULUS as int),
    ensures
        (((s0 + MODULUS - ((q % (MODULUS as int)) * s1) % (MODULUS as int)) % (MODULUS as int)) * b)
            % (MODULUS as int) == (r0 - q * r1) % (MODULUS as int),
{
    let p = MODULUS as int;
    let qs = ((q % p) * s1) % p;
    let s2 = (s0 + p - qs) % p;
    // s2 * b = (s0 + p - qs) * b
    lemma_mul_mod_noop_general(s0 + p - qs, b, p);
    assert((s2 * b) % p == ((s0 + p - qs) * b) % p);
    // (s0 + p - qs) * b = s0 * b + p * b - qs * b
    assert((s0 + p - qs) * b == s0 * b + b * p - qs * b) by (nonlinear_arith);
    // qs * b = q * (s1 * b) = q * r1
    lemma_mul_mod_noop_general(q, s1, p);
    lemma_mul_mod_noop_general((q % p) * s1, b, p);
    lemma_mul_mod_noop_general(q * s1, b, p);
    lemma_mul_is_associative(q, s1, b);
    lemma_mul_mod_noop_general(q, s1 * b, p);
    lemma_mul_mod_noop_general(q, r1, p);
    assert((qs * b) % p == (q * r1) % p);
    // put together
    lemma_mod_multiples_basic(b, p);
    lemma_add_mod_noop(s0 * b, b * p, p);
    lemma_sub_mod_noop(s0 * b + b * p, qs * b, p);
    lemma_sub_mod_noop(r0, q * r1, p);
    assert((s0 * b + b * p) % p == r0 % p);
}

impl Residue {
    /// The canonical residue of the integer `x`.
    pub open spec fn of_int(x: int) -> Residue {
        Residue { value: (x % (MODULUS as int)) as u32 }
    }

    /// The canonical residue of `value`.
    pub fn new(value: u32) -> (res: Residue)
        ensures
            res == Residue::of_int(value as int),
    {
        Residue { value: value % MODULUS }
    }

    /// The canonical residue of a signed integer: `-1` is `MODULUS - 1`.
    pub fn from_int(value: i32) -> (res: Residue)
        ensures
            res == Residue::of_int(value as int),
    {
        if value >= 0 {
            Residue { value: (value as u32) % MODULUS }
        } else {
            let below: u32 = (-(value + 1)) as u32;
            Residue { value: MODULUS - 1 - below % MODULUS }
        }
    }

    /// The least natural number of the class.
    pub fn value(&self) -> (res: u32)
        ensures
            res == Residue::of_int(self.value as int).value,
    {
        self.value % MODULUS
    }

    /// The inverse of the class, or zero where it has none. The search is
    /// Euclid's: it keeps `s0 * b = r0` and `s1 * b = r1` modulo the modulus
    /// while it reduces the pair `(r0, r1)` to `(gcd, 0)`.
    pub fn inverse(&self) -> (res: Residue)
        ensures
            res.value == inverse_spec(self.value as int),
    {
        let b = self.value;
        let p: u64 = MODULUS as u64;
        let b0: u64 = b as u64;
        let mut r0: u64 = p;
        let mut r1: u64 = b0 % p;
        let mut s0: u64 = 0;
        let mut s1: u64 = 1;
        proof {
            assert forall|d: int| #[trigger] common_divisor(d, r0 as int, r1 as int) implies
                common_divisor(
                d,
                p as int,
                b0 as int,
            ) by {
                lemma_divisor_of_remainder(d, b0 as int, p as int);
            }
        }
        while r1 != 0
            invariant
                p == MODULUS,
                b0 == b,
                r1 < r0 <= p,
                s0 < p,
                s1 < p,
                (s0 * b0) % (p as int) == r0 % p,
                (s1 * b0) % (p as int) == r1 % p,
                forall|d: int| #[trigger]
                    common_divisor(d, r0 as int, r1 as int) ==> common_divisor(
                        d,
                        p as int,
                        b0 as int,
                    ),
            decreases r1,
        {
            let q = r0 / r1;
            let r2 = r0 % r1;
            assert((q % p) * s1 < p * p) by (nonlinear_arith)
                requires
                    q % p < p,
                    s1 < p,
            ;
            let qs = ((q % p) * s1) % p;
            let s2 = (s0 + p - qs) % p;
            proof {
                lemma_coefficient_step(
                    b0 as int,
                    s0 as int,
                    s1 as int,
                    r0 as int,
                    r1 as int,
                    q as int,
                );
                lemma_fundamental_div_mod(r0 as int, r1 as int);
                assert(r0 - q * r1 == r2) by (nonlinear_arith)
                    requires
                        r0 == r1 * q + r2,
                ;
                assert forall|d: int| #[trigger] common_divisor(d, r1 as int, r2 as int) implies
                    common_divisor(
                    d,
                    p as int,
                    b0 as int,
                ) by {
                    lemma_divisor_of_remainder(d, r0 as int, r1 as int);
                }
            }
            r0 = r1;
            r1 = r2;
            s0 = s1;
            s1 = s2;
        }
        if r0 == 1 {
            proof {
                lemma_mul_is_commutative(s0 as int, b0 as int);
                lemma_inverse_found(b as int, s0 as int);
            }
            Residue { value: s0 as u32 }
        } else {
            proof {
                lemma_mod_self_0(r0 as int);
                assert(common_divisor(r0 as int, r0 as int, r1 as int));
                assert forall|x: int| !is_inverse_of(x, b as int) by {
                    lemma_no_inverse(b as int, r0 as int, x);
                }
            }
            Residue { value: 0 }
        }
    }
}

impl Scalar for Residue {
    open spec fn zero_spec() -> Self {
        Residue { value: 0 }
    }

    open spec fn one_spec() -> Self {
        Residue { value: 1 }
    }

    open spec fn half_spec() -> Self {
        Residue { value: 1073741824 }
    }

    open spec fn from_count_spec(n: usize) -> Self {
        Residue::of_int(n as int)
    }

    open spec fn add_spec(self, rhs: Self) -> Self {
        Residue::of_int(self.value + rhs.value)
    }

    open spec fn sub_spec(self, rhs: Self) -> Self {
        Residue::of_int(self.value - rhs.value)
    }

    open spec fn mul_spec(self, rhs: Self) -> Self {
        Residue::of_int(self.value * rhs.value)
    }

    open spec fn div_spec(self, rhs: Self) -> Self {
        Residue::of_int(self.value * inverse_spec(rhs.value as int))
    }

    open spec fn neg_spec(self) -> Self {
        Residue::of_int(-self.value)
    }

    fn zero() -> (r: Self)
        ensures
            r.value == 0,
    {
        Residue { value: 0 }
    }

    fn one() -> (r: Self)
        ensures
            r.value == 1,
    {
        Residue { value: 1 }
    }

    fn half() -> (r: Self)
        ensures
            r.value == (MODULUS + 1) / 2,
    {
        Residue { value: 1073741824 }
    }

    fn from_count(n: usize) -> (r: Self)
        ensures
            r.value == n % (MODULUS as usize),
    {
        Residue { value: ((n as u64) % (MODULUS as u64)) as u32 }
    }

    fn add(self, rhs: Self) -> (r: Self)
        ensures
            r.value == (self.value + rhs.value) % (MODULUS as int),
    {
        Residue { value: ((self.value as u64 + rhs.value as u64) % (MODULUS as u64)) as u32 }
    }

    fn sub(self, rhs: Self) -> (r: Self)
        ensures
            r.value == (self.value - rhs.value) % (MODULUS as int),
    {
        let p = MODULUS as u64;
        let a = self.value as u64 % p;
        let b = rhs.value as u64 % p;
        Residue { value: ((a + p - b) % p) as u32 }
    }

    fn mul(self, rhs: Self) -> (r: Self)
        ensures
            r.value == (self.value * rhs.value) % (MODULUS as int),
    {
        assert(self.value * rhs.value <= 0xffff_ffff * 0xffff_ffff) by (nonlinear_arith)
            requires
                self.value <= 0xffff_ffff,
                rhs.value <= 0xffff_ffff,
        ;
        Residue { value: ((self.value as u64 * rhs.value as u64) % (MODULUS as u64)) as u32 }
    }

    fn div(self, rhs: Self) -> (r: Self)
        ensures
            r.value == (self.value * inverse_spec(rhs.value as int)) % (MODULUS as int),
    {
        self.mul(rhs.inverse())
    }

    fn neg(self) -> (r: Self)
        ensures
            r.value == (-self.value) % (MODULUS as int),
    {
        let p = MODULUS as u64;
        Residue { value: ((p - self.value as u64 % p) % p) as u32 }
    }
}

impl ExactScalar for Residue {
    open spec fn is_exact(self) -> bool {
        self.value < MODULUS
    }

    proof fn constants_exact() {
    }

    proof fn results_exact(a: Self, b: Self) {
    }

    proof fn add_commutes(a: Self, b: Self) {
    }

    proof fn add_associates(a: Self, b: Self, c: Self) {
    }

    proof fn add_zero(a: Self) {
    }

    proof fn add_negation(a: Self) {
    }

    proof fn sub_is_add_negation(a: Self, b: Self) {
    }

    proof fn mul_commutes(a: Self, b: Self) {
        lemma_mul_is_commutative(a.value as int, b.value as int);
    }

    proof fn mul_associates(a: Self, b: Self, c: Self) {
        let p = MODULUS as int;
        let (x, y, z) = (a.value as int, b.value as int, c.value as int);
        lemma_mul_mod_noop_general(x * y, z, p);
        lemma_mul_mod_noop_general(x, y * z, p);
        lemma_mul_is_associative(x, y, z);
    }

    proof fn mul_one(a: Self) {
    }

    proof fn mul_distributes(a: Self, b: Self, c: Self) {
        let p = MODULUS as int;
        let (x, y, z) = (a.value as int, b.value as int, c.value as int);
        lemma_mul_mod_noop_general(x, y + z, p);
        lemma_mul_is_distributive_add(x, y, z);
        lemma_add_mod_noop(x * y, x * z, p);
    }

    proof fn half_doubles() {
    }

    proof fn div_one(a: Self) {
        lemma_inverse_found(1, 1);
    }

    proof fn count_one() {
    }
}

} // verus!
