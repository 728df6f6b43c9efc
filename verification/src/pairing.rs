//! The bilinear group behind the scheme: the BLS12-381 scalar field `Fr`,
//! the two source groups, the target group and the pairing, as arkworks
//! provides them.
//!
//! Scalars appear directly as `ark_bls12_381::Fr`. A point of either source
//! group and an element of the target group are carried in opaque wrapper
//! types: their inner arkworks types take bounds that cannot be declared
//! here, so the wrappers hide them whole. Every operation the scheme uses is
//! reached through one small trusted function whose contract names the
//! operation's result; everything the library proves about keys, signatures
//! and encodings is stated over those names.

use vstd::prelude::*;

use ark_bls12_381::{Bls12_381, Fq12, Fr, G1Projective, G2Projective};
use ark_ec::{PairingEngine, ProjectiveCurve};
use ark_ff::{Field, One, UniformRand, Zero};
use ark_serialize::{CanonicalDeserialize, CanonicalSerialize};
use rand::rngs::{StdRng, ThreadRng};

verus! {

#[verifier::external_type_specification]
#[verifier::external_body]
#[verifier::reject_recursive_types(P)]
pub struct ExFp256<P>(ark_ff::Fp256<P>);

#[verifier::external_type_specification]
#[verifier::external_body]
pub struct ExFrParameters(ark_bls12_381::FrParameters);

#[verifier::external_type_specification]
#[verifier::external_body]
pub struct ExThreadRng(ThreadRng);

#[verifier::external_type_specification]
#[verifier::external_body]
pub struct ExStdRng(StdRng);

/// A point of the first source group of the pairing.
#[verifier::external_body]
pub struct G1Point {
    inner: G1Projective,
}

/// A point of the second source group of the pairing.
#[verifier::external_body]
pub struct G2Point {
    inner: G2Projective,
}

/// An element of the target group, produced only by the pairing.
#[verifier::external_body]
pub struct GtElement {
    inner: Fq12,
}

/// The byte width of one canonical compressed G2 point, as this curve
/// binding advertises it.
pub const G2_ENCODED_WIDTH: usize = 96;

/// Whether a scalar is the zero of the field: the value of `Zero::is_zero`.
pub uninterp spec fn scalar_is_zero(x: Fr) -> bool;

/// Whether two scalars are the same field element: the value of
/// `PartialEq::eq` on `Fr`.
pub uninterp spec fn scalar_eq(a: Fr, b: Fr) -> bool;

/// The multiplicative inverse of a non-zero scalar: the value inside the
/// `Some` that `Field::inverse` returns.
pub uninterp spec fn scalar_inverse(x: Fr) -> Fr;

/// The first source group's scalar multiplication: the value of
/// `MulAssign<Fr>` on a G1 point.
pub uninterp spec fn g1_mul(p: G1Point, k: Fr) -> G1Point;

/// The first source group's addition: the value of `AddAssign` on G1 points.
pub uninterp spec fn g1_plus(a: G1Point, b: G1Point) -> G1Point;

/// Whether a G1 point is the identity of the group: the value of
/// `Zero::is_zero`.
pub uninterp spec fn g1_is_identity(p: G1Point) -> bool;

/// The fixed G1 generator scaled by a scalar: what
/// `prime_subgroup_generator` followed by `MulAssign<Fr>` yields.
pub uninterp spec fn g1_base_mul(k: Fr) -> G1Point;

/// Whether two projective G1 points stand for the same group element: the
/// value of `PartialEq::eq` on `G1Projective`.
pub uninterp spec fn g1_points_agree(a: G1Point, b: G1Point) -> bool;

/// The second source group's scalar multiplication, as `g1_mul`.
pub uninterp spec fn g2_mul(p: G2Point, k: Fr) -> G2Point;

/// The fixed G2 generator scaled by a scalar, as `g1_base_mul`.
pub uninterp spec fn g2_base_mul(k: Fr) -> G2Point;

/// Whether two projective G2 points stand for the same group element: the
/// value of `PartialEq::eq` on `G2Projective`.
pub uninterp spec fn g2_points_agree(a: G2Point, b: G2Point) -> bool;

/// Whether a G2 point lies on the curve and in the prime-order subgroup:
/// what `is_in_correct_subgroup_assuming_on_curve` checks for a curve
/// point. Generator multiples lie in it, and parsing admits no point
/// outside it.
pub uninterp spec fn g2_in_prime_group(p: G2Point) -> bool;

/// The canonical compressed encoding of a G2 point: the bytes that
/// `CanonicalSerialize::serialize` writes.
pub uninterp spec fn g2_bytes(p: G2Point) -> Seq<u8>;

/// What `CanonicalDeserialize::deserialize` makes of a byte string read as
/// a compressed G2 point: the point, or `None` where the bytes are
/// rejected.
pub uninterp spec fn g2_try_parse(bytes: Seq<u8>) -> Option<G2Point>;

/// The pairing of a G1 point with a G2 point: the value of
/// `Bls12_381::pairing`.
pub uninterp spec fn pairing(p: G1Point, q: G2Point) -> GtElement;

/// The pairing of a G1 point with the fixed G2 generator.
pub uninterp spec fn pairing_with_g2_base(p: G1Point) -> GtElement;

/// The pairing of the fixed G1 generator with a G2 point.
pub uninterp spec fn pairing_with_g1_base(q: G2Point) -> GtElement;

/// The target group's operation: the value of `MulAssign` on `Fq12`.
pub uninterp spec fn gt_times(a: GtElement, b: GtElement) -> GtElement;

/// Whether two target group elements are equal: the value of
/// `PartialEq::eq` on `Fq12`.
pub uninterp spec fn gt_eq(a: GtElement, b: GtElement) -> bool;

/// Relies on ark_ff's `Zero::is_zero` for the BLS12-381 scalar field.
#[verifier::external_body]
pub(crate) fn scalar_is_zero_check(x: &Fr) -> (r: bool)
    ensures
        r == scalar_is_zero(*x),
{
    x.is_zero()
}

/// Relies on ark_ff's derived `PartialEq` for scalar field elements, which
/// compares the canonical representations; identical values compare equal.
#[verifier::external_body]
pub(crate) fn scalar_equal(a: &Fr, b: &Fr) -> (r: bool)
    ensures
        r == scalar_eq(*a, *b),
        a == b ==> r,
{
    a == b
}

/// Relies on ark_ff's `Field::inverse`: it returns `None` exactly on the
/// zero scalar, and the multiplicative inverse of any other.
#[verifier::external_body]
pub(crate) fn scalar_invert(x: &Fr) -> (r: Option<Fr>)
    ensures
        r is Some <==> !scalar_is_zero(*x),
        r is Some ==> r->0 == scalar_inverse(*x),
{
    x.inverse()
}

/// Relies on ark_ff's `One::one`: the multiplicative identity of a field is
/// not its zero.
#[verifier::external_body]
pub(crate) fn scalar_one() -> (r: Fr)
    ensures
        !scalar_is_zero(r),
{
    Fr::one()
}

/// Relies on zeroize's `Zeroize` for scalar field elements: it overwrites
/// the scalar with zero through a write the compiler may not elide.
#[verifier::external_body]
pub(crate) fn scalar_zeroize(x: &mut Fr)
    ensures
        scalar_is_zero(*final(x)),
{
    zeroize::Zeroize::zeroize(x);
}

/// Relies on ark_ec's `MulAssign<Fr>` for G1: scalar multiplication in the
/// group, a function of the point and the scalar; it keeps the identity.
#[verifier::external_body]
pub(crate) fn g1_scale(p: &G1Point, k: &Fr) -> (r: G1Point)
    ensures
        r == g1_mul(*p, *k),
        g1_is_identity(*p) ==> g1_is_identity(r),
{
    let mut q = p.inner;
    q *= *k;
    G1Point { inner: q }
}

/// Relies on the `Copy` of arkworks' projective points: an identical copy.
#[verifier::external_body]
pub(crate) fn g1_copy(p: &G1Point) -> (r: G1Point)
    ensures
        r == *p,
{
    G1Point { inner: p.inner }
}

/// Relies on the `Copy` of arkworks' projective points: an identical copy.
#[verifier::external_body]
pub(crate) fn g2_copy(p: &G2Point) -> (r: G2Point)
    ensures
        r == *p,
{
    G2Point { inner: p.inner }
}

/// Relies on ark_ec's `AddAssign` for G1: addition in the group.
#[verifier::external_body]
pub(crate) fn g1_add_point(a: &G1Point, b: &G1Point) -> (r: G1Point)
    ensures
        r == g1_plus(*a, *b),
{
    let mut q = a.inner;
    q += b.inner;
    G1Point { inner: q }
}

/// Relies on ark_ec's `Zero::zero` for G1: it returns the identity point.
#[verifier::external_body]
pub(crate) fn g1_zero_point() -> (r: G1Point)
    ensures
        g1_is_identity(r),
{
    G1Point { inner: G1Projective::zero() }
}

/// Relies on ark_ec's `prime_subgroup_generator` for G1, a fixed point that
/// is not the identity.
#[verifier::external_body]
pub(crate) fn g1_base_point() -> (r: G1Point)
    ensures
        !g1_is_identity(r),
{
    G1Point { inner: G1Projective::prime_subgroup_generator() }
}

/// Relies on ark_ec's `prime_subgroup_generator` for G1, a fixed point, and
/// `MulAssign<Fr>`: the generator scaled by the scalar, a function of the
/// scalar alone.
#[verifier::external_body]
pub(crate) fn g1_base_scale(k: &Fr) -> (r: G1Point)
    ensures
        r == g1_base_mul(*k),
{
    let mut q = G1Projective::prime_subgroup_generator();
    q *= *k;
    G1Point { inner: q }
}

/// Relies on ark_ec's `PartialEq` for projective G1 points: equality of the
/// group elements they stand for; identical values compare equal.
#[verifier::external_body]
pub(crate) fn g1_point_eq(a: &G1Point, b: &G1Point) -> (r: bool)
    ensures
        r == g1_points_agree(*a, *b),
        a == b ==> r,
{
    a.inner == b.inner
}

/// Relies on ark_ff's `UniformRand` for G1 points, driven by the given
/// rand RNG: nothing is promised of the point drawn.
#[verifier::external_body]
fn sample_g1_thread_rng(rng: &mut ThreadRng) -> G1Point {
    G1Point { inner: G1Projective::rand(rng) }
}

/// Relies on ark_ff's `UniformRand` for G1 points, as
/// `sample_g1_thread_rng`.
#[verifier::external_body]
fn sample_g1_std_rng(rng: &mut StdRng) -> G1Point {
    G1Point { inner: G1Projective::rand(rng) }
}

/// Relies on ark_ec's `MulAssign<Fr>` for G2, as `g1_scale`.
#[verifier::external_body]
pub(crate) fn g2_scale(p: &G2Point, k: &Fr) -> (r: G2Point)
    ensures
        r == g2_mul(*p, *k),
{
    let mut q = p.inner;
    q *= *k;
    G2Point { inner: q }
}

/// Relies on ark_ec's `prime_subgroup_generator` for G2, a fixed point of
/// the prime-order subgroup, and `MulAssign<Fr>`, which stays inside that
/// subgroup.
#[verifier::external_body]
pub(crate) fn g2_base_scale(k: &Fr) -> (r: G2Point)
    ensures
        r == g2_base_mul(*k),
        g2_in_prime_group(r),
{
    let mut q = G2Projective::prime_subgroup_generator();
    q *= *k;
    G2Point { inner: q }
}

/// Relies on ark_ec's `PartialEq` for projective G2 points: equality of the
/// group elements they stand for; identical values compare equal.
#[verifier::external_body]
pub(crate) fn g2_point_eq(a: &G2Point, b: &G2Point) -> (r: bool)
    ensures
        r == g2_points_agree(*a, *b),
        a == b ==> r,
{
    a.inner == b.inner
}

/// Relies on ark_serialize's `CanonicalSerialize` for G2 points in
/// compressed form: exactly `G2_ENCODED_WIDTH` bytes, a function of the
/// group element, and never an error, since the flag bits fit the spare
/// bits of the final byte and the writer is an in-memory `Vec`; and on
/// `CanonicalDeserialize` reading those bytes back as an equal point
/// whenever the point lies in the prime-order subgroup.
#[verifier::external_body]
pub(crate) fn g2_point_to_bytes(p: &G2Point) -> (r: Vec<u8>)
    ensures
        r@ == g2_bytes(*p),
        r@.len() == G2_ENCODED_WIDTH,
        g2_in_prime_group(*p) ==> {
            &&& g2_try_parse(r@) is Some
            &&& g2_points_agree(g2_try_parse(r@)->0, *p)
        },
{
    let affine = p.inner.into_affine();
    let mut buffer: Vec<u8> = Vec::new();
    affine.serialize(&mut buffer).expect("writing to a Vec cannot fail");
    buffer
}

/// Relies on ark_serialize's `CanonicalDeserialize` for G2 points in
/// compressed form: the outcome is a function of the bytes; a point is
/// returned only when it lies on the curve and in the prime-order
/// subgroup.
#[verifier::external_body]
pub(crate) fn g2_point_from_bytes(bytes: &[u8]) -> (r: Option<G2Point>)
    ensures
        r == g2_try_parse(bytes@),
        r is Some ==> g2_in_prime_group(r->0),
{
    match ark_bls12_381::G2Affine::deserialize(bytes) {
        Ok(affine) => Some(G2Point { inner: affine.into() }),
        Err(_) => None,
    }
}

/// Relies on `Bls12_381::pairing`: a function of the two points.
#[verifier::external_body]
pub(crate) fn compute_pairing(p: &G1Point, q: &G2Point) -> (r: GtElement)
    ensures
        r == pairing(*p, *q),
{
    GtElement { inner: Bls12_381::pairing(p.inner, q.inner) }
}

/// Relies on `Bls12_381::pairing` and G2's fixed
/// `prime_subgroup_generator`.
#[verifier::external_body]
pub(crate) fn pair_with_g2_base(p: &G1Point) -> (r: GtElement)
    ensures
        r == pairing_with_g2_base(*p),
{
    GtElement { inner: Bls12_381::pairing(p.inner, G2Projective::prime_subgroup_generator()) }
}

/// Relies on `Bls12_381::pairing` and G1's fixed
/// `prime_subgroup_generator`.
#[verifier::external_body]
pub(crate) fn pair_with_g1_base(q: &G2Point) -> (r: GtElement)
    ensures
        r == pairing_with_g1_base(*q),
{
    GtElement { inner: Bls12_381::pairing(G1Projective::prime_subgroup_generator(), q.inner) }
}

/// Relies on ark_ff's `MulAssign` for `Fq12`: the operation of the
/// pairing's target group.
#[verifier::external_body]
pub(crate) fn gt_combine(a: &GtElement, b: &GtElement) -> (r: GtElement)
    ensures
        r == gt_times(*a, *b),
{
    let mut x = a.inner;
    x *= b.inner;
    GtElement { inner: x }
}

/// Relies on ark_ff's `PartialEq` for `Fq12` elements, which compares the
/// canonical representations; identical values compare equal.
#[verifier::external_body]
pub(crate) fn gt_equal(a: &GtElement, b: &GtElement) -> (r: bool)
    ensures
        r == gt_eq(*a, *b),
        a == b ==> r,
{
    a.inner == b.inner
}

/// Relies on ark_ff's `UniformRand` for the scalar field, driven by rand's
/// thread-local CSPRNG: nothing is promised of the scalar drawn.
#[verifier::external_body]
fn sample_scalar_thread_rng(rng: &mut ThreadRng) -> Fr {
    Fr::rand(rng)
}

/// Relies on ark_ff's `UniformRand` for the scalar field, driven by rand's
/// seedable `StdRng`: nothing is promised of the scalar drawn.
#[verifier::external_body]
fn sample_scalar_std_rng(rng: &mut StdRng) -> Fr {
    Fr::rand(rng)
}

/// A caller-supplied source of randomness. Every operation of the library
/// that consumes randomness takes one by exclusive reference for the
/// duration of the call, and neither caches nor reseeds it.
pub trait EntropySource {
    /// Draw one scalar, uniformly. Nothing is assumed of the value: callers
    /// test what they need of it.
    fn sample_scalar(&mut self) -> Fr;

    /// Draw one point of the first source group, uniformly. Nothing is
    /// assumed of the value.
    fn sample_g1_point(&mut self) -> G1Point;
}

impl EntropySource for ThreadRng {
    fn sample_scalar(&mut self) -> Fr {
        sample_scalar_thread_rng(self)
    }

    fn sample_g1_point(&mut self) -> G1Point {
        sample_g1_thread_rng(self)
    }
}

impl EntropySource for StdRng {
    fn sample_scalar(&mut self) -> Fr {
        sample_scalar_std_rng(self)
    }

    fn sample_g1_point(&mut self) -> G1Point {
        sample_g1_std_rng(self)
    }
}

/// Draw a scalar that is not zero. A uniform draw is zero with negligible
/// probability; after a bounded number of rejected draws the multiplicative
/// identity is used, so the result is non-zero without an unbounded loop.
pub fn sample_nonzero_scalar<S: EntropySource>(rng: &mut S) -> (r: Fr)
    ensures
        !scalar_is_zero(r),
{
    let mut tries: usize = 0;
    while tries < 128
        invariant
            tries <= 128,
        decreases 128 - tries,
    {
        let candidate = rng.sample_scalar();
        if !scalar_is_zero_check(&candidate) {
            return candidate;
        }
        tries = tries + 1;
    }
    scalar_one()
}

impl G1Point {
    /// Draw a uniformly random point of the first source group.
    pub fn random<S: EntropySource>(rng: &mut S) -> G1Point {
        rng.sample_g1_point()
    }

    /// The fixed generator of the first source group; not the identity.
    pub fn generator() -> (r: G1Point)
        ensures
            !g1_is_identity(r),
    {
        g1_base_point()
    }

    /// An identical copy of the point.
    pub fn duplicate(&self) -> (r: G1Point)
        ensures
            r == *self,
    {
        g1_copy(self)
    }

    /// The sum of this point and another, in the group.
    pub fn plus(&self, other: &G1Point) -> (r: G1Point)
        ensures
            r == g1_plus(*self, *other),
    {
        g1_add_point(self, other)
    }
}

impl G2Point {
    /// An identical copy of the point.
    pub fn duplicate(&self) -> (r: G2Point)
        ensures
            r == *self,
    {
        g2_copy(self)
    }
}

impl PartialEq for G1Point {
    fn eq(&self, other: &G1Point) -> (r: bool) {
        g1_point_eq(self, other)
    }
}

impl vstd::std_specs::cmp::PartialEqSpecImpl for G1Point {
    open spec fn obeys_eq_spec() -> bool {
        true
    }

    open spec fn eq_spec(&self, other: &G1Point) -> bool {
        g1_points_agree(*self, *other)
    }
}

impl PartialEq for G2Point {
    fn eq(&self, other: &G2Point) -> (r: bool) {
        g2_point_eq(self, other)
    }
}

impl vstd::std_specs::cmp::PartialEqSpecImpl for G2Point {
    open spec fn obeys_eq_spec() -> bool {
        true
    }

    open spec fn eq_spec(&self, other: &G2Point) -> bool {
        g2_points_agree(*self, *other)
    }
}

} // verus!
