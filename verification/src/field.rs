//! The base field: integers modulo the 128-bit STARK-friendly prime
//! 2^128 - 45 * 2^40 + 1, held in canonical form. Addition and subtraction
//! are implemented and verified here; multiplication and exponentiation are
//! delegated to the proving engine's field type through trusted wrappers
//! whose contracts state the modular result exactly.

use vstd::prelude::*;
use vstd::arithmetic::div_mod::{lemma_small_mod, lemma_mod_multiples_vanish};
use winterfell::math::fields::f128::BaseElement;
use winterfell::math::FieldElement;
use winterfell::math::StarkField;

verus! {

/// The field modulus, 2^128 - 45 * 2^40 + 1.
pub const MODULUS: u128 = 340282366920938463463374557953744961537;

/// A field element in canonical form: a residue in the range [0, MODULUS).
#[derive(Clone, Copy, Debug, PartialEq, Eq, Structural)]
pub struct Felt {
    v: u128,
}

impl View for Felt {
    type V = int;

    closed spec fn view(&self) -> int {
        self.v as int
    }
}

/// Addition modulo MODULUS.
pub open spec fn f_add(a: int, b: int) -> int {
    (a + b) % (MODULUS as int)
}

/// Subtraction modulo MODULUS.
pub open spec fn f_sub(a: int, b: int) -> int {
    (a - b) % (MODULUS as int)
}

/// Multiplication modulo MODULUS.
pub open spec fn f_mul(a: int, b: int) -> int {
    (a * b) % (MODULUS as int)
}

/// The cube map, the forward S-box of the permutation.
pub open spec fn f_cube(a: int) -> int {
    f_mul(f_mul(a, a), a)
}

/// Exponentiation modulo MODULUS, with the convention that any base raised
/// to the power zero is one.
pub open spec fn f_pow(a: int, e: nat) -> int
    decreases e,
{
    if e == 0 {
        1
    } else {
        f_mul(a, f_pow(a, (e - 1) as nat))
    }
}

impl Felt {
    /// A canonical residue.
    pub open spec fn wf(self) -> bool {
        0 <= self@ < MODULUS as int
    }

    /// The zero element.
    pub fn zero() -> (r: Felt)
        ensures
            r.wf(),
            r@ == 0,
    {
        Felt { v: 0 }
    }

    /// The one element.
    pub fn one() -> (r: Felt)
        ensures
            r.wf(),
            r@ == 1,
    {
        Felt { v: 1 }
    }

    /// Builds a field element from an integer, reducing it modulo MODULUS.
    pub fn from_u128(v: u128) -> (r: Felt)
        ensures
            r.wf(),
            r@ == (v as int) % (MODULUS as int),
            v < MODULUS ==> r@ == v as int,
    {
        proof {
            if v < MODULUS {
                lemma_small_mod(v as nat, MODULUS as nat);
            }
        }
        Felt { v: v % MODULUS }
    }

    /// Builds a field element from a small integer, which is already canonical.
    pub fn from_u64(v: u64) -> (r: Felt)
        ensures
            r.wf(),
            r@ == v as int,
    {
        proof {
            lemma_small_mod(v as nat, MODULUS as nat);
        }
        Felt { v: (v as u128) % MODULUS }
    }

    /// The canonical representative.
    pub fn as_u128(self) -> (r: u128)
        ensures
            r as int == self@,
    {
        self.v
    }

    /// Addition in the field.
    pub fn add(self, rhs: Felt) -> (r: Felt)
        requires
            self.wf(),
            rhs.wf(),
        ensures
            r.wf(),
            r@ == f_add(self@, rhs@),
    {
        if rhs.v != 0 && self.v >= MODULUS - rhs.v {
            let out = Felt { v: self.v - (MODULUS - rhs.v) };
            proof {
                let m: int = MODULUS as int;
                lemma_mod_multiples_vanish(-1, self@ + rhs@ - m, m);
                lemma_small_mod((self@ + rhs@ - m) as nat, MODULUS as nat);
            }
            out
        } else {
            let out = Felt { v: self.v + rhs.v };
            proof {
                lemma_small_mod((self@ + rhs@) as nat, MODULUS as nat);
            }
            out
        }
    }

    /// Subtraction in the field.
    pub fn sub(self, rhs: Felt) -> (r: Felt)
        requires
            self.wf(),
            rhs.wf(),
        ensures
            r.wf(),
            r@ == f_sub(self@, rhs@),
    {
        if self.v >= rhs.v {
            let out = Felt { v: self.v - rhs.v };
            proof {
                lemma_small_mod((self@ - rhs@) as nat, MODULUS as nat);
            }
            out
        } else {
            let out = Felt { v: self.v + (MODULUS - rhs.v) };
            proof {
                let m: int = MODULUS as int;
                lemma_mod_multiples_vanish(1, self@ - rhs@, m);
                lemma_small_mod((self@ - rhs@ + m) as nat, MODULUS as nat);
            }
            out
        }
    }

    /// Multiplication in the field.
    ///
    /// Relies on winter_math's f128 `Mul`: the product of two canonical
    /// residues is their modular product, again in canonical form.
    #[verifier::external_body]
    pub fn mul(self, rhs: Felt) -> (r: Felt)
        requires
            self.wf(),
            rhs.wf(),
        ensures
            r.wf(),
            r@ == f_mul(self@, rhs@),
    {
        Felt { v: (BaseElement::new(self.v) * BaseElement::new(rhs.v)).as_int() }
    }

    /// Exponentiation in the field.
    ///
    /// Relies on winter_math's f128 `FieldElement::exp`: square-and-multiply
    /// exponentiation of a canonical residue, with any base to the power
    /// zero giving one.
    #[verifier::external_body]
    pub fn exp(self, power: u128) -> (r: Felt)
        requires
            self.wf(),
        ensures
            r.wf(),
            r@ == f_pow(self@, power as nat),
    {
        Felt { v: BaseElement::new(self.v).exp(power).as_int() }
    }

    /// Equality of canonical values.
    pub fn felt_eq(self, rhs: Felt) -> (r: bool)
        ensures
            r == (self@ == rhs@),
    {
        self.v == rhs.v
    }

    /// The cube of a field element, the forward S-box.
    pub fn cube(self) -> (r: Felt)
        requires
            self.wf(),
        ensures
            r.wf(),
            r@ == f_cube(self@),
    {
        self.mul(self).mul(self)
    }

}

/// Two canonical residues whose field difference is zero are equal.
pub proof fn lemma_f_sub_zero(a: int, b: int)
    requires
        0 <= a < MODULUS as int,
        0 <= b < MODULUS as int,
        f_sub(a, b) == 0,
    ensures
        a == b,
{
    let m: int = MODULUS as int;
    if a >= b {
        lemma_small_mod((a - b) as nat, MODULUS as nat);
    } else {
        lemma_mod_multiples_vanish(1, a - b, m);
        lemma_small_mod((a - b + m) as nat, MODULUS as nat);
    }
}

} // verus!
