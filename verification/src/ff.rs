use vstd::arithmetic::div_mod::{
    lemma_add_mod_noop, lemma_add_mod_noop_right, lemma_mod_add_multiples_vanish,
    lemma_mod_bound, lemma_mod_self_0, lemma_mul_mod_noop, lemma_mul_mod_noop_left,
    lemma_mul_mod_noop_right, lemma_small_mod,
};
use vstd::arithmetic::mul::{
    lemma_mul_is_associative, lemma_mul_is_commutative, lemma_mul_upper_bound,
};
use vstd::prelude::*;

verus! {

/// Prime modulus of the Kyber base field.
pub const KYBER_Q: u32 = 7681;

/// Prime modulus of the Dilithium base field.
pub const DLITHIUM_Q: u32 = 8380417;

/// One residue class modulo the prime `Q`, stored as its canonical
/// representative: the unique value in `[0, Q)`. Elements of different
/// moduli are distinct types and cannot be mixed in an operation.
pub struct FiniteField<const Q: u32>(u32);

impl<const Q: u32> PartialEq for FiniteField<Q> {
    /// Structural equality on the canonical representatives.
    fn eq(&self, other: &Self) -> (r: bool) {
        self.0 == other.0
    }
}

impl<const Q: u32> vstd::std_specs::cmp::PartialEqSpecImpl for FiniteField<Q> {
    open spec fn obeys_eq_spec() -> bool {
        true
    }

    open spec fn eq_spec(&self, other: &Self) -> bool {
        self@ == other@
    }
}

impl<const Q: u32> Eq for FiniteField<Q> {}

impl<const Q: u32> View for FiniteField<Q> {
    type V = int;

    closed spec fn view(&self) -> int {
        self.0 as int
    }
}

/// Canonical representative of `x` modulo `q`.
pub open spec fn spec_new(q: int, x: int) -> int {
    x % q
}

/// Canonical representative of the additive inverse of `x` modulo `q`.
pub open spec fn spec_minus(q: int, x: int) -> int {
    (q - x % q) % q
}

/// Canonical representative of the sum of two residues modulo `q`.
pub open spec fn spec_add(q: int, a: int, b: int) -> int {
    (a + b) % q
}

/// Canonical representative of the product of two residues modulo `q`.
pub open spec fn spec_mul(q: int, a: int, b: int) -> int {
    (a * b) % q
}

impl<const Q: u32> FiniteField<Q> {
    /// Canonical form: the stored representative lies in `[0, Q)`.
    pub open spec fn inv(&self) -> bool {
        0 <= self@ < Q
    }

    /// The element `x mod Q`, for any `x`, reduced to canonical form.
    pub fn new(x: u32) -> (r: Self)
        requires
            Q > 1,
        ensures
            r@ == spec_new(Q as int, x as int),
            r.inv(),
    {
        proof {
            lemma_mod_bound(x as int, Q as int);
        }
        Self(x % Q)
    }

    /// The additive inverse of `x mod Q`, reduced to canonical form:
    /// in particular the canonical zero, not `Q`, when `x mod Q == 0`.
    pub fn minus(x: u32) -> (r: Self)
        requires
            Q > 1,
        ensures
            r@ == spec_minus(Q as int, x as int),
            r.inv(),
    {
        let i: u32 = x % Q;
        if i == 0 {
            proof {
                lemma_mod_self_0(Q as int);
            }
            Self(0)
        } else {
            proof {
                lemma_mod_bound(x as int, Q as int);
                lemma_small_mod((Q - i) as nat, Q as nat);
            }
            Self(Q - i)
        }
    }

    /// The additive identity of the field.
    pub fn zero() -> (r: Self)
        requires
            Q > 1,
        ensures
            r@ == 0,
            r.inv(),
    {
        proof {
            lemma_small_mod(0nat, Q as nat);
        }
        Self::new(0)
    }

    /// The multiplicative identity of the field.
    pub fn one() -> (r: Self)
        requires
            Q > 1,
        ensures
            r@ == 1,
            r.inv(),
    {
        proof {
            lemma_small_mod(1nat, Q as nat);
        }
        Self::new(1)
    }

    /// The canonical sum of two elements. The operands are summed in a
    /// doubled width before reduction, so no modulus below `u32::MAX`
    /// can make the intermediate sum overflow.
    pub fn add(self, rhs: Self) -> (r: Self)
        requires
            Q > 1,
        ensures
            r@ == spec_add(Q as int, self@, rhs@),
            r.inv(),
    {
        let wide: u64 = self.0 as u64 + rhs.0 as u64;
        proof {
            lemma_mod_bound(wide as int, Q as int);
        }
        Self((wide % (Q as u64)) as u32)
    }

    /// The canonical product of two elements. The operands are widened
    /// to double the storage width before multiplying, since the product
    /// of two near-maximal residues can exceed the storage width even
    /// when the modulus itself is small.
    pub fn mul(self, rhs: Self) -> (r: Self)
        requires
            Q > 1,
        ensures
            r@ == spec_mul(Q as int, self@, rhs@),
            r.inv(),
    {
        proof {
            lemma_mul_upper_bound(self.0 as int, u32::MAX as int, rhs.0 as int, u32::MAX as int);
        }
        let wide: u64 = (self.0 as u64) * (rhs.0 as u64);
        proof {
            lemma_mod_bound(wide as int, Q as int);
        }
        Self((wide % (Q as u64)) as u32)
    }
}

/// Reduction correctness: for every modulus `q`, the modulus itself
/// reduces to zero, the modulus plus one reduces to one, and the modulus
/// minus one is the additive inverse of one.
pub proof fn lemma_reduction_correct(q: int)
    requires
        q > 1,
    ensures
        spec_new(q, q) == 0,
        spec_new(q, q + 1) == 1,
        spec_new(q, q - 1) == spec_minus(q, 1),
{
    lemma_mod_self_0(q);
    lemma_mod_add_multiples_vanish(1, q);
    lemma_small_mod(1nat, q as nat);
    lemma_small_mod((q - 1) as nat, q as nat);
}

/// Negation round-trip: for every input `x`, the element of `x` plus the
/// additive inverse of `x` is zero.
pub proof fn lemma_minus_roundtrip(q: int, x: int)
    requires
        q > 1,
    ensures
        spec_add(q, spec_new(q, x), spec_minus(q, x)) == 0,
{
    lemma_mod_bound(x, q);
    lemma_mod_self_0(q);
    if x % q == 0 {
        lemma_small_mod(0nat, q as nat);
    } else {
        lemma_small_mod((q - x % q) as nat, q as nat);
    }
}

/// Additive identity: adding zero leaves every element unchanged.
pub proof fn lemma_add_zero(q: int, x: int)
    requires
        q > 1,
    ensures
        spec_add(q, spec_new(q, x), 0) == spec_new(q, x),
{
    lemma_mod_bound(x, q);
    lemma_small_mod((x % q) as nat, q as nat);
}

/// Multiplicative identity and annihilator: multiplying by one leaves
/// every element unchanged, and multiplying by zero yields zero.
pub proof fn lemma_mul_one_zero(q: int, x: int)
    requires
        q > 1,
    ensures
        spec_mul(q, spec_new(q, x), 1) == spec_new(q, x),
        spec_mul(q, spec_new(q, x), 0) == 0,
{
    lemma_mod_bound(x, q);
    lemma_small_mod((x % q) as nat, q as nat);
    lemma_small_mod(0nat, q as nat);
}

/// Commutativity: field addition and multiplication do not depend on the
/// order of their operands.
pub proof fn lemma_commutative(q: int, a: int, b: int)
    requires
        q > 1,
    ensures
        spec_add(q, a, b) == spec_add(q, b, a),
        spec_mul(q, a, b) == spec_mul(q, b, a),
{
    lemma_mul_is_commutative(a, b);
}

/// Associativity: reducing after each step of a chained addition or
/// multiplication gives the same element as grouping the other way.
pub proof fn lemma_associative(q: int, a: int, b: int, c: int)
    requires
        q > 1,
    ensures
        spec_add(q, spec_add(q, a, b), c) == spec_add(q, a, spec_add(q, b, c)),
        spec_mul(q, spec_mul(q, a, b), c) == spec_mul(q, a, spec_mul(q, b, c)),
{
    lemma_add_mod_noop_right(c, a + b, q);
    lemma_add_mod_noop_right(a, b + c, q);
    lemma_mul_mod_noop_left(a * b, c, q);
    lemma_mul_mod_noop_right(a, b * c, q);
    lemma_mul_is_associative(a, b, c);
}

/// Agreement with a wide-integer reference: constructing an element from
/// a sum or product of raw inputs equals adding or multiplying the
/// elements constructed from those inputs.
pub proof fn lemma_wide_reference(q: int, a: int, b: int)
    requires
        q > 1,
    ensures
        spec_add(q, spec_new(q, a), spec_new(q, b)) == spec_new(q, a + b),
        spec_mul(q, spec_new(q, a), spec_new(q, b)) == spec_new(q, a * b),
{
    lemma_add_mod_noop(a, b, q);
    lemma_mul_mod_noop(a, b, q);
}

/// The Kyber base field: residues modulo 7681.
pub type KyberFf = FiniteField<KYBER_Q>;

/// The Dilithium base field: residues modulo 8380417.
pub type DlithiumFf = FiniteField<DLITHIUM_Q>;

} // verus!
