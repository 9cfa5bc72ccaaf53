//! Elements of the BLS12-381 scalar field, held as four canonical 64-bit
//! limbs. The arithmetic itself is done by `ark-ff`.

use ark_bls12_381::Fr;
use ark_ff::{BigInteger256, PrimeField};
use ark_std::rand::rngs::StdRng;
use ark_std::UniformRand;
use vstd::arithmetic::power::pow;
use vstd::prelude::*;

verus! {

#[verifier::external_type_specification]
#[verifier::external_body]
pub struct ExStdRng(StdRng);

/// 2^64.
pub open spec fn limb_base() -> nat {
    0x1_0000_0000_0000_0000
}

/// The integer whose little-endian 64-bit limbs are `l0, l1, l2, l3`.
pub open spec fn limbs_value(l0: u64, l1: u64, l2: u64, l3: u64) -> nat {
    (l0 + limb_base() * (l1 + limb_base() * (l2 + limb_base() * l3))) as nat
}

/// The order `r` of the BLS12-381 scalar field.
pub open spec fn modulus() -> nat {
    limbs_value(0xffffffff00000001, 0x53bda402fffe5bfe, 0x3339d80809a1d805, 0x73eda753299d7d48)
}

/// An element of the scalar field, in canonical (non-Montgomery) form.
#[derive(Clone, Copy, Debug, PartialEq, Eq, Structural)]
pub struct Scalar {
    pub l0: u64,
    pub l1: u64,
    pub l2: u64,
    pub l3: u64,
}

/// An absent value, or a canonical one.
pub open spec fn opt_wf(v: Option<Scalar>) -> bool {
    match v {
        Some(s) => s.wf(),
        None => true,
    }
}

impl Scalar {
    /// The integer this element stands for.
    pub open spec fn value(&self) -> nat {
        limbs_value(self.l0, self.l1, self.l2, self.l3)
    }

    /// Canonical: the integer lies below the field order.
    pub open spec fn wf(&self) -> bool {
        self.value() < modulus()
    }

    pub fn zero() -> (r: Scalar)
        ensures
            r.wf(),
            r.value() == 0,
    {
        Scalar { l0: 0, l1: 0, l2: 0, l3: 0 }
    }

    pub fn from_u64(v: u64) -> (r: Scalar)
        ensures
            r.wf(),
            r.value() == v,
    {
        Scalar { l0: v, l1: 0, l2: 0, l3: 0 }
    }

    /// Relies on `Fr::from_repr`, `+` on `Fr` and `Fr::into_repr`: the sum
    /// reduced modulo the field order.
    #[verifier::external_body]
    pub(crate) fn add(&self, other: &Scalar) -> (r: Scalar)
        requires
            self.wf(),
            other.wf(),
        ensures
            r.wf(),
            r.value() == (self.value() + other.value()) % modulus(),
    {
        let x = Fr::from_repr(BigInteger256([self.l0, self.l1, self.l2, self.l3])).unwrap();
        let y = Fr::from_repr(BigInteger256([other.l0, other.l1, other.l2, other.l3])).unwrap();
        let z = (x + y).into_repr().0;
        Scalar { l0: z[0], l1: z[1], l2: z[2], l3: z[3] }
    }

    /// Relies on `Fr::from_repr`, `-` on `Fr` and `Fr::into_repr`: the
    /// difference reduced modulo the field order.
    #[verifier::external_body]
    pub(crate) fn sub(&self, other: &Scalar) -> (r: Scalar)
        requires
            self.wf(),
            other.wf(),
        ensures
            r.wf(),
            r.value() == (self.value() - other.value()) % (modulus() as int),
    {
        let x = Fr::from_repr(BigInteger256([self.l0, self.l1, self.l2, self.l3])).unwrap();
        let y = Fr::from_repr(BigInteger256([other.l0, other.l1, other.l2, other.l3])).unwrap();
        let z = (x - y).into_repr().0;
        Scalar { l0: z[0], l1: z[1], l2: z[2], l3: z[3] }
    }

    /// Relies on `Fr::from_repr`, `*` on `Fr` and `Fr::into_repr`: the
    /// product reduced modulo the field order.
    #[verifier::external_body]
    pub(crate) fn mul(&self, other: &Scalar) -> (r: Scalar)
        requires
            self.wf(),
            other.wf(),
        ensures
            r.wf(),
            r.value() == (self.value() * other.value()) % modulus(),
    {
        let x = Fr::from_repr(BigInteger256([self.l0, self.l1, self.l2, self.l3])).unwrap();
        let y = Fr::from_repr(BigInteger256([other.l0, other.l1, other.l2, other.l3])).unwrap();
        let z = (x * y).into_repr().0;
        Scalar { l0: z[0], l1: z[1], l2: z[2], l3: z[3] }
    }

    /// Relies on `Field::pow` with a one-limb exponent: the power reduced
    /// modulo the field order (`x^0` is one).
    #[verifier::external_body]
    pub(crate) fn pow(&self, exponent: u64) -> (r: Scalar)
        requires
            self.wf(),
        ensures
            r.wf(),
            r.value() == pow(self.value() as int, exponent as nat) % (modulus() as int),
    {
        let x = Fr::from_repr(BigInteger256([self.l0, self.l1, self.l2, self.l3])).unwrap();
        let z = ark_ff::Field::pow(&x, [exponent]).into_repr().0;
        Scalar { l0: z[0], l1: z[1], l2: z[2], l3: z[3] }
    }

    /// Relies on `UniformRand::rand` for `Fr`: a field element drawn from
    /// the generator's stream; nothing is known of which one.
    #[verifier::external_body]
    pub(crate) fn random(rng: &mut StdRng) -> (r: Scalar)
        ensures
            r.wf(),
    {
        let z = Fr::rand(rng).into_repr().0;
        Scalar { l0: z[0], l1: z[1], l2: z[2], l3: z[3] }
    }
}

} // verus!
