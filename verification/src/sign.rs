//! The signing side of the scheme: signatures, signing keys, and the two
//! flavours of change of representation.

use vstd::prelude::*;

use ark_bls12_381::Fr;

use crate::errors::SpsEqSignatureError;
use crate::pairing::{
    g1_add_point, g1_base_mul, g1_is_identity, g1_mul, g1_plus, g1_scale, g1_zero_point, g2_base_mul,
    g2_mul, g2_scale, sample_nonzero_scalar, scalar_eq, scalar_equal, scalar_inverse, scalar_invert,
    scalar_is_zero, scalar_is_zero_check, scalar_zeroize, EntropySource, G1Point, G2Point,
};

verus! {

/// SPS-EQ signature: the triple `(Z, Y, Yp)` over the two source groups.
#[allow(non_snake_case)]
pub struct SpsEqSignature {
    /// Z point
    pub Z: G1Point,
    /// Y point
    pub Y: G1Point,
    /// Yp point
    pub Yp: G2Point,
}

/// The message vector scaled pointwise: component `i` is `f * msg[i]`.
pub open spec fn scaled_message(msg: Seq<G1Point>, f: Fr) -> Seq<G1Point> {
    Seq::new(msg.len(), |i: int| g1_mul(msg[i], f))
}

/// The running sum `acc + keys[0] * msg[0] + keys[1] * msg[1] + ...`, taken
/// as far as both sequences reach.
pub open spec fn weighted_accumulate(acc: G1Point, keys: Seq<Fr>, msg: Seq<G1Point>) -> G1Point
    decreases keys.len(),
{
    if keys.len() == 0 || msg.len() == 0 {
        acc
    } else {
        weighted_accumulate(
            g1_plus(acc, g1_mul(msg[0], keys[0])),
            keys.skip(1),
            msg.skip(1),
        )
    }
}

/// What signing promises: for the non-zero blinding scalar `y` and an
/// identity point `z0` (the accumulator's seed), the signature is
/// `Z = y * (z0 + sum keys[i] * msg[i])`, `Y = (1/y) * g1` and
/// `Yp = (1/y) * g2`.
pub open spec fn signs_with(
    signature: SpsEqSignature,
    keys: Seq<Fr>,
    msg: Seq<G1Point>,
    y: Fr,
    z0: G1Point,
) -> bool {
    &&& !scalar_is_zero(y)
    &&& g1_is_identity(z0)
    &&& signature.Z == g1_mul(weighted_accumulate(z0, keys, msg), y)
    &&& signature.Y == g1_base_mul(scalar_inverse(y))
    &&& signature.Yp == g2_base_mul(scalar_inverse(y))
}

/// What a change of representation promises: for the non-zero representative
/// randomizer `f` and the non-zero signature randomizer `u`, the new message
/// is the old one scaled by `f`, and the new signature is
/// `(u * f * Z, (1/u) * Y, (1/u) * Yp)`.
pub open spec fn repr_changed_with(
    new_sig: SpsEqSignature,
    old_sig: SpsEqSignature,
    new_msg: Seq<G1Point>,
    old_msg: Seq<G1Point>,
    f: Fr,
    u: Fr,
) -> bool {
    &&& !scalar_is_zero(f)
    &&& !scalar_is_zero(u)
    &&& new_msg == scaled_message(old_msg, f)
    &&& new_sig.Z == g1_mul(g1_mul(old_sig.Z, u), f)
    &&& new_sig.Y == g1_mul(old_sig.Y, scalar_inverse(u))
    &&& new_sig.Yp == g2_mul(old_sig.Yp, scalar_inverse(u))
}

impl SpsEqSignature {
    /// Mutably changes the representation of the signature and a message,
    /// returning the new message. The function makes no assumption on the
    /// relation between the message and the signature: it was valid on the
    /// old message under some key exactly when the result is valid on the
    /// new one, and it never verifies either pair.
    pub fn change_repr<S: EntropySource>(
        &mut self,
        message: &[G1Point],
        rng: &mut S,
    ) -> (new_message: Vec<G1Point>)
        ensures
            exists|f: Fr, u: Fr|
                repr_changed_with(*final(self), *old(self), new_message@, message@, f, u),
    {
        let mut rnd_f = sample_nonzero_scalar(rng);
        let mut rnd_u = sample_nonzero_scalar(rng);

        let rnd_signature = Self::rnd_signature(&*self, &rnd_u, &rnd_f);
        self.Z = rnd_signature.Z;
        self.Y = rnd_signature.Y;
        self.Yp = rnd_signature.Yp;

        let new_message = Self::rnd_message(message, &rnd_f);
        proof {
            assert(repr_changed_with(*self, *old(self), new_message@, message@, rnd_f, rnd_u));
        }
        scalar_zeroize(&mut rnd_f);
        scalar_zeroize(&mut rnd_u);
        new_message
    }

    /// Generates a new representation of the signature and message, and
    /// returns both, consuming the old signature. As with `change_repr`,
    /// nothing is assumed of the relation between message and signature.
    pub fn generate_new_repr<S: EntropySource>(
        self,
        message: &[G1Point],
        rng: &mut S,
    ) -> (r: (SpsEqSignature, Vec<G1Point>))
        ensures
            exists|f: Fr, u: Fr| repr_changed_with(r.0, self, r.1@, message@, f, u),
    {
        let mut rnd_f = sample_nonzero_scalar(rng);
        let mut rnd_u = sample_nonzero_scalar(rng);

        let rnd_signature = Self::rnd_signature(&self, &rnd_u, &rnd_f);
        let rnd_message = Self::rnd_message(message, &rnd_f);

        let result = (rnd_signature, rnd_message);
        proof {
            assert(repr_changed_with(result.0, self, result.1@, message@, rnd_f, rnd_u));
        }
        scalar_zeroize(&mut rnd_f);
        scalar_zeroize(&mut rnd_u);
        result
    }

    /// The message scaled pointwise by `rnd_f`.
    fn rnd_message(message: &[G1Point], rnd_f: &Fr) -> (r: Vec<G1Point>)
        ensures
            r@ == scaled_message(message@, *rnd_f),
    {
        let mut scaled: Vec<G1Point> = Vec::new();
        let n = message.len();
        let mut i: usize = 0;
        while i < n
            invariant
                i <= n,
                n == message@.len(),
                scaled@.len() == i,
                forall|j: int| 0 <= j < i ==> scaled@[j] == g1_mul(message@[j], *rnd_f),
            decreases n - i,
        {
            let term = g1_scale(&message[i], rnd_f);
            scaled.push(term);
            i = i + 1;
        }
        proof {
            assert(scaled@ =~= scaled_message(message@, *rnd_f));
        }
        scaled
    }

    /// The signature scaled by `rnd_u` and `rnd_f`: `Z` by both, `Y` and
    /// `Yp` by the inverse of `rnd_u`.
    fn rnd_signature(signature: &SpsEqSignature, rnd_u: &Fr, rnd_f: &Fr) -> (r: SpsEqSignature)
        requires
            !scalar_is_zero(*rnd_u),
        ensures
            r.Z == g1_mul(g1_mul(signature.Z, *rnd_u), *rnd_f),
            r.Y == g1_mul(signature.Y, scalar_inverse(*rnd_u)),
            r.Yp == g2_mul(signature.Yp, scalar_inverse(*rnd_u)),
    {
        let mut rnd_u_inverse = scalar_invert(rnd_u).unwrap();

        let scaled_z = g1_scale(&g1_scale(&signature.Z, rnd_u), rnd_f);
        let scaled_y = g1_scale(&signature.Y, &rnd_u_inverse);
        let scaled_yp = g2_scale(&signature.Yp, &rnd_u_inverse);
        scalar_zeroize(&mut rnd_u_inverse);

        SpsEqSignature { Z: scaled_z, Y: scaled_y, Yp: scaled_yp }
    }
}

/// SPS-EQ signing key: an ordered vector of non-zero secret scalars.
#[derive(Clone, Debug)]
pub struct SigningKey {
    /// Capacity supported by the signing key
    signature_capacity: usize,
    /// Secret keys
    secret_keys: Vec<Fr>,
}

impl View for SigningKey {
    type V = Seq<Fr>;

    closed spec fn view(&self) -> Seq<Fr> {
        self.secret_keys@
    }
}

impl SigningKey {
    /// The capacity the key advertises.
    pub closed spec fn spec_capacity(&self) -> usize {
        self.signature_capacity
    }

    /// The signature capacity: the length of message vector the key signs.
    pub fn capacity(&self) -> (r: usize)
        ensures
            r == self.spec_capacity(),
    {
        self.signature_capacity
    }

    /// The key's invariant: the advertised capacity is the number of
    /// scalars, there is at least one, and none is zero.
    pub open spec fn wf(&self) -> bool {
        &&& self.spec_capacity() == self@.len()
        &&& 1 <= self@.len()
        &&& forall|i: int| 0 <= i < self@.len() ==> !scalar_is_zero(#[trigger] self@[i])
    }

    /// Generate a cryptographically random signing key of the given
    /// capacity: each scalar is drawn independently and is not zero.
    pub fn new<S: EntropySource>(signature_capacity: usize, rng: &mut S) -> (r: SigningKey)
        requires
            1 <= signature_capacity,
        ensures
            r.wf(),
            r.spec_capacity() == signature_capacity,
    {
        let mut secret_keys: Vec<Fr> = Vec::new();
        while secret_keys.len() < signature_capacity
            invariant
                secret_keys@.len() <= signature_capacity,
                forall|i: int|
                    0 <= i < secret_keys@.len() ==> !scalar_is_zero(#[trigger] secret_keys@[i]),
            decreases signature_capacity - secret_keys.len(),
        {
            let scalar = sample_nonzero_scalar(rng);
            secret_keys.push(scalar);
        }
        SigningKey { signature_capacity, secret_keys }
    }

    /// Build a signing key from a given scalar vector. Fails with
    /// `InvalidSecretKeyVector` exactly when the vector is empty or one of
    /// its scalars is zero; otherwise the key holds the vector as given.
    pub fn from(sks: Vec<Fr>) -> (r: Result<SigningKey, SpsEqSignatureError>)
        ensures
            r is Ok <==> 1 <= sks@.len() && (forall|i: int|
                0 <= i < sks@.len() ==> !scalar_is_zero(#[trigger] sks@[i])),
            r is Ok ==> {
                &&& r->Ok_0.wf()
                &&& r->Ok_0@ == sks@
                &&& r->Ok_0.spec_capacity() == sks@.len()
            },
            r is Err ==> r->Err_0 == SpsEqSignatureError::InvalidSecretKeyVector,
    {
        let signature_capacity = sks.len();
        if signature_capacity == 0 {
            return Err(SpsEqSignatureError::InvalidSecretKeyVector);
        }
        let mut i: usize = 0;
        while i < signature_capacity
            invariant
                i <= signature_capacity,
                signature_capacity == sks@.len(),
                forall|j: int| 0 <= j < i ==> !scalar_is_zero(#[trigger] sks@[j]),
            decreases signature_capacity - i,
        {
            if scalar_is_zero_check(&sks[i]) {
                return Err(SpsEqSignatureError::InvalidSecretKeyVector);
            }
            i = i + 1;
        }
        Ok(SigningKey { signature_capacity, secret_keys: sks })
    }

    /// A read-only view of the secret scalars, in order. Only the owner of
    /// the key can reach them.
    pub fn scalars(&self) -> (r: &Vec<Fr>)
        ensures
            r@ == self@,
    {
        &self.secret_keys
    }

    /// Sign a message, a vector of points of the first source group. The
    /// length is not checked against the capacity: a mismatched message
    /// yields a signature that no length-honest verifier accepts; the sum
    /// runs as far as both vectors reach.
    pub fn sign<S: EntropySource>(&self, messages: &[G1Point], rng: &mut S) -> (signature:
        SpsEqSignature)
        ensures
            exists|y: Fr, z0: G1Point| signs_with(signature, self@, messages@, y, z0),
    {
        let mut randomness = sample_nonzero_scalar(rng);
        let mut randomness_inverse = scalar_invert(&randomness).unwrap();

        let mut acc = g1_zero_point();
        let ghost seed = acc;

        let key_count = self.secret_keys.len();
        let message_count = messages.len();
        let count = if key_count < message_count {
            key_count
        } else {
            message_count
        };

        proof {
            assert(self@.skip(0) =~= self@);
            assert(messages@.skip(0) =~= messages@);
        }
        let mut i: usize = 0;
        while i < count
            invariant
                i <= count,
                count <= self@.len(),
                count <= messages@.len(),
                count == if self@.len() < messages@.len() {
                    self@.len()
                } else {
                    messages@.len()
                },
                weighted_accumulate(seed, self@, messages@) == weighted_accumulate(
                    acc,
                    self@.skip(i as int),
                    messages@.skip(i as int),
                ),
            decreases count - i,
        {
            let term = g1_scale(&messages[i], &self.secret_keys[i]);
            let next = g1_add_point(&acc, &term);
            proof {
                assert(self@.skip(i as int).skip(1) =~= self@.skip(i + 1));
                assert(messages@.skip(i as int).skip(1) =~= messages@.skip(i + 1));
                assert(self@.skip(i as int)[0] == self@[i as int]);
                assert(messages@.skip(i as int)[0] == messages@[i as int]);
            }
            acc = next;
            i = i + 1;
        }

        let capital_z = g1_scale(&acc, &randomness);
        let capital_y = crate::pairing::g1_base_scale(&randomness_inverse);
        let capital_yp = crate::pairing::g2_base_scale(&randomness_inverse);

        let signature = SpsEqSignature { Z: capital_z, Y: capital_y, Yp: capital_yp };
        proof {
            assert(signs_with(signature, self@, messages@, randomness, seed));
        }
        scalar_zeroize(&mut randomness);
        scalar_zeroize(&mut randomness_inverse);
        signature
    }

    /// Overwrite every secret scalar with zero. The capacity and the length
    /// are kept; the key no longer satisfies its invariant and is only fit
    /// for destruction.
    pub fn zeroize(&mut self)
        ensures
            final(self)@.len() == old(self)@.len(),
            final(self).spec_capacity() == old(self).spec_capacity(),
            forall|i: int|
                0 <= i < final(self)@.len() ==> scalar_is_zero(#[trigger] final(self)@[i]),
    {
        let n = self.secret_keys.len();
        let mut i: usize = 0;
        while i < n
            invariant
                i <= n,
                n == self.secret_keys@.len(),
                self.secret_keys@.len() == old(self).secret_keys@.len(),
                self.signature_capacity == old(self).signature_capacity,
                forall|j: int|
                    0 <= j < i ==> scalar_is_zero(#[trigger] self.secret_keys@[j]),
            decreases n - i,
        {
            scalar_zeroize(&mut self.secret_keys[i]);
            i = i + 1;
        }
    }
}

impl PartialEq for SigningKey {
    /// Component-wise equality of the secret scalar vectors.
    fn eq(&self, other: &SigningKey) -> (r: bool) {
        let n = self.secret_keys.len();
        if n != other.secret_keys.len() {
            return false;
        }
        let mut i: usize = 0;
        while i < n
            invariant
                i <= n,
                n == self.secret_keys@.len(),
                n == other.secret_keys@.len(),
                forall|j: int| 0 <= j < i ==> scalar_eq(#[trigger] self.secret_keys@[j], other.secret_keys@[j]),
            decreases n - i,
        {
            if !scalar_equal(&self.secret_keys[i], &other.secret_keys[i]) {
                return false;
            }
            i = i + 1;
        }
        true
    }
}

impl vstd::std_specs::cmp::PartialEqSpecImpl for SigningKey {
    open spec fn obeys_eq_spec() -> bool {
        true
    }

    open spec fn eq_spec(&self, other: &SigningKey) -> bool {
        &&& self@.len() == other@.len()
        &&& forall|i: int| 0 <= i < self@.len() ==> scalar_eq(#[trigger] self@[i], other@[i])
    }
}

} // verus!
