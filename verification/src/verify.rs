//! The verifying side: public keys, the two pairing checks, and the
//! canonical byte encoding of public material.

use vstd::prelude::*;
use vstd::slice::slice_subrange;
use vstd::std_specs::cmp::PartialEqSpec;

use crate::encoding::{
    be_bytes_of, be_bytes_to_u64, be_value, lemma_be_bytes_of_len, lemma_be_round_trip,
    lemma_pow256_values, pow256, u64_to_be_bytes,
};
use crate::errors::SpsEqSignatureError;
use crate::pairing::{
    compute_pairing, g2_base_mul, g2_base_scale, g2_bytes, g2_in_prime_group, g2_point_eq,
    g2_point_from_bytes, g2_point_to_bytes, g2_points_agree, g2_try_parse, gt_combine, gt_eq,
    G2_ENCODED_WIDTH,
    gt_equal, gt_times, pair_with_g1_base, pair_with_g2_base, pairing, pairing_with_g1_base,
    pairing_with_g2_base, G1Point, G2Point, GtElement,
};
use crate::sign::{SigningKey, SpsEqSignature};

verus! {

/// SPS-EQ public key: one point of the second source group for each secret
/// scalar, the fixed generator scaled by it.
pub struct PublicKey {
    /// Capacity supported by the signing key
    signature_capacity: usize,
    /// Public keys
    public_keys: Vec<G2Point>,
}

impl View for PublicKey {
    type V = Seq<G2Point>;

    closed spec fn view(&self) -> Seq<G2Point> {
        self.public_keys@
    }
}

/// The product `e(msg[0], keys[0]) * ... * e(msg[n-1], keys[n-1])` in the
/// target group, as the verifier accumulates it.
pub open spec fn pairing_product(msg: Seq<G1Point>, keys: Seq<G2Point>, n: int) -> GtElement
    recommends
        1 <= n <= msg.len(),
        n <= keys.len(),
    decreases n,
{
    if n <= 1 {
        pairing(msg[0], keys[0])
    } else {
        gt_times(pairing_product(msg, keys, n - 1), pairing(msg[n - 1], keys[n - 1]))
    }
}

/// The two pairing equations of the scheme: the product of the message
/// pairings equals `e(Z, Yp)`, and `e(Y, g2)` equals `e(g1, Yp)`.
pub open spec fn signature_accepted(
    keys: Seq<G2Point>,
    msg: Seq<G1Point>,
    signature: SpsEqSignature,
) -> bool
    recommends
        1 <= keys.len() == msg.len(),
{
    &&& gt_eq(
        pairing_product(msg, keys, msg.len() as int),
        pairing(signature.Z, signature.Yp),
    )
    &&& gt_eq(pairing_with_g2_base(signature.Y), pairing_with_g1_base(signature.Yp))
}

/// Whether `pk` is the public key of `sk`: equal capacities, and one
/// generator multiple per secret scalar.
pub open spec fn is_public_key_of(pk: PublicKey, sk: SigningKey) -> bool {
    &&& pk.spec_capacity() == sk.spec_capacity()
    &&& pk@.len() == sk@.len()
    &&& forall|i: int| 0 <= i < sk@.len() ==> #[trigger] pk@[i] == g2_base_mul(sk@[i])
}

/// The first `n` points' canonical encodings, concatenated in order.
pub open spec fn serialized_points(keys: Seq<G2Point>, n: int) -> Seq<u8>
    recommends
        n <= keys.len(),
    decreases n,
{
    if n <= 0 {
        Seq::empty()
    } else {
        serialized_points(keys, n - 1) + g2_bytes(keys[n - 1])
    }
}

/// The byte encoding of a public key: the capacity as eight big-endian
/// bytes, then each point's canonical 96-byte compressed form, in order.
pub open spec fn public_key_encoding(keys: Seq<G2Point>, cap: nat) -> Seq<u8> {
    be_bytes_of(cap, 8) + serialized_points(keys, keys.len() as int)
}

/// The capacity a byte string embeds: its first eight bytes, big-endian.
pub open spec fn embedded_capacity(bytes: Seq<u8>) -> nat {
    be_value(bytes.take(8))
}

/// Well-framed bytes: the eight-byte header is present, the embedded
/// capacity is positive, and what follows is exactly 96 bytes per point.
pub open spec fn well_framed(bytes: Seq<u8>) -> bool {
    &&& bytes.len() >= 8
    &&& (bytes.len() - 8) % 96 == 0
    &&& 1 <= embedded_capacity(bytes)
    &&& bytes.len() == 8 + 96 * embedded_capacity(bytes)
}

/// The 96 bytes of the `i`-th point of an encoding.
pub open spec fn point_chunk(bytes: Seq<u8>, i: int) -> Seq<u8> {
    bytes.subrange(8 + 96 * i, 8 + 96 * i + 96)
}

/// Every point chunk of the byte string parses as a G2 point.
pub open spec fn all_chunks_parse(bytes: Seq<u8>) -> bool {
    forall|i: int|
        0 <= i < embedded_capacity(bytes) ==> (#[trigger] g2_try_parse(point_chunk(bytes, i)))
            is Some
}

/// Exactly the byte strings the decoder accepts.
pub open spec fn decode_accepts(bytes: Seq<u8>) -> bool {
    well_framed(bytes) && all_chunks_parse(bytes)
}

impl PublicKey {
    /// The capacity the key advertises.
    pub closed spec fn spec_capacity(&self) -> usize {
        self.signature_capacity
    }

    /// The signature capacity: the length of message vector the key checks.
    pub fn capacity(&self) -> (r: usize)
        ensures
            r == self.spec_capacity(),
    {
        self.signature_capacity
    }

    /// The key's invariant: the advertised capacity is the number of
    /// points, there is at least one, and all lie in the prime-order
    /// subgroup.
    pub open spec fn wf(&self) -> bool {
        &&& self.spec_capacity() == self@.len()
        &&& 1 <= self@.len()
        &&& forall|i: int| 0 <= i < self@.len() ==> g2_in_prime_group(#[trigger] self@[i])
    }

    /// A read-only view of the public points, in order.
    pub fn points(&self) -> (r: &Vec<G2Point>)
        ensures
            r@ == self@,
    {
        &self.public_keys
    }

    /// Derive the public key of a signing key: component `i` is the fixed
    /// G2 generator scaled by the `i`-th secret scalar.
    pub fn from(signing_key: &SigningKey) -> (r: PublicKey)
        requires
            signing_key.wf(),
        ensures
            r.wf(),
            is_public_key_of(r, *signing_key),
    {
        let scalars = signing_key.scalars();
        let signature_capacity = signing_key.capacity();
        let mut public_keys: Vec<G2Point> = Vec::new();
        let mut i: usize = 0;
        while i < signature_capacity
            invariant
                i <= signature_capacity,
                signature_capacity == signing_key.spec_capacity(),
                signature_capacity == signing_key@.len(),
                scalars@ == signing_key@,
                public_keys@.len() == i,
                forall|j: int|
                    0 <= j < i ==> #[trigger] public_keys@[j] == g2_base_mul(signing_key@[j]),
                forall|j: int|
                    0 <= j < i ==> g2_in_prime_group(#[trigger] public_keys@[j]),
            decreases signature_capacity - i,
        {
            let point = g2_base_scale(&scalars[i]);
            public_keys.push(point);
            i = i + 1;
        }
        PublicKey { signature_capacity, public_keys }
    }

    /// Verify a signature over a message. Fails with `UnmatchedCapacity`
    /// exactly when the message length differs from the capacity, with
    /// `InvalidSignature` exactly when a pairing equation does not hold,
    /// and succeeds otherwise.
    pub fn verify(&self, messages: &[G1Point], signature: &SpsEqSignature) -> (r: Result<
        (),
        SpsEqSignatureError,
    >)
        requires
            self.wf(),
        ensures
            r is Ok <==> messages@.len() == self.spec_capacity() && signature_accepted(
                self@,
                messages@,
                *signature,
            ),
            r is Err ==> r->Err_0 == (if messages@.len() != self.spec_capacity() {
                SpsEqSignatureError::UnmatchedCapacity
            } else {
                SpsEqSignatureError::InvalidSignature
            }),
    {
        if self.signature_capacity != messages.len() {
            return Err(SpsEqSignatureError::UnmatchedCapacity);
        }

        let mut check_1 = compute_pairing(&messages[0], &self.public_keys[0]);
        let mut i: usize = 1;
        while i < messages.len()
            invariant
                1 <= i <= messages@.len(),
                messages@.len() == self@.len(),
                check_1 == pairing_product(messages@, self@, i as int),
            decreases messages@.len() - i,
        {
            let term = compute_pairing(&messages[i], &self.public_keys[i]);
            check_1 = gt_combine(&check_1, &term);
            i = i + 1;
        }

        let expected_check_1 = compute_pairing(&signature.Z, &signature.Yp);
        if !gt_equal(&check_1, &expected_check_1) {
            return Err(SpsEqSignatureError::InvalidSignature);
        }

        let check_2 = pair_with_g2_base(&signature.Y);
        let expected_check_2 = pair_with_g1_base(&signature.Yp);
        if !gt_equal(&check_2, &expected_check_2) {
            return Err(SpsEqSignatureError::InvalidSignature);
        }

        Ok(())
    }

    /// Convert the key to bytes: eight big-endian bytes of capacity, then
    /// each point's canonical compressed 96 bytes, in order. The call always
    /// succeeds: the writer is an in-memory vector, which cannot fail. The
    /// `Result` stays in the signature for callers that hold a key behind a
    /// fallible sink.
    pub fn to_bytes(&self) -> (r: Result<Vec<u8>, SpsEqSignatureError>)
        requires
            self.wf(),
        ensures
            r is Ok,
            r->Ok_0@ == public_key_encoding(self@, self.spec_capacity() as nat),
            forall|i: int|
                0 <= i < self@.len() ==> {
                    &&& (#[trigger] g2_bytes(self@[i])).len() == 96
                    &&& g2_try_parse(g2_bytes(self@[i])) is Some
                    &&& g2_points_agree(g2_try_parse(g2_bytes(self@[i]))->0, self@[i])
                },
    {
        let mut writer = u64_to_be_bytes(self.signature_capacity as u64, 8);
        let point_count = self.public_keys.len();
        let mut i: usize = 0;
        while i < point_count
            invariant
                i <= point_count,
                point_count == self@.len(),
                self.wf(),
                writer@ == be_bytes_of(self.spec_capacity() as nat, 8) + serialized_points(
                    self@,
                    i as int,
                ),
                forall|j: int|
                    0 <= j < i ==> {
                        &&& (#[trigger] g2_bytes(self@[j])).len() == 96
                        &&& g2_try_parse(g2_bytes(self@[j])) is Some
                        &&& g2_points_agree(g2_try_parse(g2_bytes(self@[j]))->0, self@[j])
                    },
            decreases point_count - i,
        {
            let mut point_bytes = g2_point_to_bytes(&self.public_keys[i]);
            writer.append(&mut point_bytes);
            i = i + 1;
        }
        Ok(writer)
    }

    /// Create a public key from bytes. Accepts exactly the well-framed byte
    /// strings whose chunks the backend parses as subgroup points — among
    /// them everything `to_bytes` produces. Fails with `UnmatchedCapacity`
    /// when a well-aligned byte string embeds a capacity that disagrees with
    /// its point count, and with `InvalidEncoding` on any other malformed
    /// input.
    pub fn from_bytes(bytes: &[u8]) -> (r: Result<PublicKey, SpsEqSignatureError>)
        ensures
            r is Ok <==> decode_accepts(bytes@),
            r is Ok ==> {
                &&& r->Ok_0.wf()
                &&& r->Ok_0.spec_capacity() as nat == embedded_capacity(bytes@)
                &&& r->Ok_0@.len() as nat == embedded_capacity(bytes@)
                &&& forall|i: int|
                    0 <= i < r->Ok_0@.len() ==> Some(#[trigger] r->Ok_0@[i]) == g2_try_parse(
                        point_chunk(bytes@, i),
                    )
            },
            r is Err ==> r->Err_0 == (if bytes@.len() >= 8 && (bytes@.len() - 8) % 96 == 0
                && bytes@.len() != 8 + 96 * embedded_capacity(bytes@) {
                SpsEqSignatureError::UnmatchedCapacity
            } else {
                SpsEqSignatureError::InvalidEncoding
            }),
    {
        if bytes.len() < 8 {
            return Err(SpsEqSignatureError::InvalidEncoding);
        }
        let embedded = be_bytes_to_u64(bytes);
        let remainder = bytes.len() - 8;
        if remainder % G2_ENCODED_WIDTH != 0 {
            return Err(SpsEqSignatureError::InvalidEncoding);
        }
        let point_count = remainder / G2_ENCODED_WIDTH;
        proof {
            assert(96 * (remainder as int / 96) == remainder as int);
        }
        if point_count as u64 != embedded {
            proof {
                assert(bytes@.len() != 8 + 96 * embedded_capacity(bytes@));
            }
            return Err(SpsEqSignatureError::UnmatchedCapacity);
        }
        if point_count == 0 {
            return Err(SpsEqSignatureError::InvalidEncoding);
        }

        let mut public_keys: Vec<G2Point> = Vec::new();
        let mut i: usize = 0;
        while i < point_count
            invariant
                i <= point_count,
                point_count as nat == embedded_capacity(bytes@),
                bytes@.len() == 8 + 96 * point_count,
                bytes@.len() <= usize::MAX,
                public_keys@.len() == i,
                forall|j: int|
                    0 <= j < i ==> Some(#[trigger] public_keys@[j]) == g2_try_parse(
                        point_chunk(bytes@, j),
                    ),
                forall|j: int| 0 <= j < i ==> g2_in_prime_group(#[trigger] public_keys@[j]),
            decreases point_count - i,
        {
            proof {
                assert(8 + 96 * (i as int) + 96 <= bytes@.len());
            }
            let start = 8 + G2_ENCODED_WIDTH * i;
            let chunk = slice_subrange(bytes, start, start + G2_ENCODED_WIDTH);
            match g2_point_from_bytes(chunk) {
                Some(point) => {
                    public_keys.push(point);
                },
                None => {
                    proof {
                        assert(!all_chunks_parse(bytes@)) by {
                            assert(g2_try_parse(point_chunk(bytes@, i as int)) is None);
                        }
                    }
                    return Err(SpsEqSignatureError::InvalidEncoding);
                },
            }
            i = i + 1;
        }

        proof {
            assert forall|j: int|
                0 <= j < embedded_capacity(bytes@) implies (#[trigger] g2_try_parse(
                point_chunk(bytes@, j),
            )) is Some by {
                assert(Some(public_keys@[j]) == g2_try_parse(point_chunk(bytes@, j)));
            }
            assert(decode_accepts(bytes@));
        }
        Ok(PublicKey { signature_capacity: point_count, public_keys })
    }
}

impl PartialEq for PublicKey {
    /// Component-wise equality of the point vectors.
    fn eq(&self, other: &PublicKey) -> (r: bool) {
        let n = self.public_keys.len();
        if n != other.public_keys.len() {
            return false;
        }
        let mut i: usize = 0;
        while i < n
            invariant
                i <= n,
                n == self.public_keys@.len(),
                n == other.public_keys@.len(),
                forall|j: int|
                    0 <= j < i ==> g2_points_agree(
                        #[trigger] self.public_keys@[j],
                        other.public_keys@[j],
                    ),
            decreases n - i,
        {
            if !g2_point_eq(&self.public_keys[i], &other.public_keys[i]) {
                return false;
            }
            i = i + 1;
        }
        true
    }
}

impl vstd::std_specs::cmp::PartialEqSpecImpl for PublicKey {
    open spec fn obeys_eq_spec() -> bool {
        true
    }

    open spec fn eq_spec(&self, other: &PublicKey) -> bool {
        &&& self@.len() == other@.len()
        &&& forall|i: int| 0 <= i < self@.len() ==> g2_points_agree(#[trigger] self@[i], other@[i])
    }
}

/// Key derivation is deterministic: two public keys derived from one
/// signing key have the same capacity and equal point sequences.
pub proof fn lemma_key_derivation_deterministic(sk: SigningKey, pk1: PublicKey, pk2: PublicKey)
    requires
        is_public_key_of(pk1, sk),
        is_public_key_of(pk2, sk),
    ensures
        pk1@ == pk2@,
        pk1.spec_capacity() == pk2.spec_capacity(),
{
    assert(pk1@ =~= pk2@);
}

/// The encodings of the first `n` points, each 96 bytes wide, hold
/// `96 * n` bytes.
proof fn lemma_serialized_points_len(keys: Seq<G2Point>, n: int)
    requires
        0 <= n <= keys.len(),
        forall|j: int| 0 <= j < n ==> (#[trigger] g2_bytes(keys[j])).len() == 96,
    ensures
        serialized_points(keys, n).len() == 96 * n,
    decreases n,
{
    if n > 0 {
        lemma_serialized_points_len(keys, n - 1);
    }
}

/// Within the concatenated point encodings, the `i`-th 96-byte slice is the
/// `i`-th point's encoding.
proof fn lemma_serialized_points_chunk(keys: Seq<G2Point>, n: int, i: int)
    requires
        0 <= i < n <= keys.len(),
        forall|j: int| 0 <= j < n ==> (#[trigger] g2_bytes(keys[j])).len() == 96,
    ensures
        serialized_points(keys, n).subrange(96 * i, 96 * i + 96) == g2_bytes(keys[i]),
    decreases n,
{
    lemma_serialized_points_len(keys, n - 1);
    if i == n - 1 {
        assert(serialized_points(keys, n).subrange(96 * i, 96 * i + 96) =~= g2_bytes(keys[i]));
    } else {
        lemma_serialized_points_chunk(keys, n - 1, i);
        assert(serialized_points(keys, n).subrange(96 * i, 96 * i + 96) =~= serialized_points(
            keys,
            n - 1,
        ).subrange(96 * i, 96 * i + 96));
    }
}

/// The encoding round trip: the bytes `to_bytes` returns are accepted by
/// the decoder, embed the capacity that was written, and every chunk parses
/// back to a point equal, as a group element, to the point it encodes.
pub proof fn lemma_encoding_round_trip(pk: PublicKey, bytes: Seq<u8>)
    requires
        pk.wf(),
        bytes == public_key_encoding(pk@, pk.spec_capacity() as nat),
        forall|i: int|
            0 <= i < pk@.len() ==> {
                &&& (#[trigger] g2_bytes(pk@[i])).len() == 96
                &&& g2_try_parse(g2_bytes(pk@[i])) is Some
                &&& g2_points_agree(g2_try_parse(g2_bytes(pk@[i]))->0, pk@[i])
            },
    ensures
        decode_accepts(bytes),
        embedded_capacity(bytes) == pk.spec_capacity() as nat,
        forall|i: int|
            0 <= i < pk@.len() ==> {
                &&& (#[trigger] g2_try_parse(point_chunk(bytes, i))) is Some
                &&& g2_points_agree(g2_try_parse(point_chunk(bytes, i))->0, pk@[i])
            },
{
    let cap = pk.spec_capacity() as nat;
    let header = be_bytes_of(cap, 8);
    let body = serialized_points(pk@, pk@.len() as int);
    lemma_be_bytes_of_len(cap, 8);
    lemma_serialized_points_len(pk@, pk@.len() as int);
    assert(bytes.len() == 8 + 96 * cap);

    // The embedded capacity is the one that was written.
    assert(bytes.take(8) =~= header);
    lemma_be_round_trip(cap, 8);
    lemma_pow256_values();
    assert(cap < pow256(8));
    vstd::arithmetic::div_mod::lemma_small_mod(cap, pow256(8));
    assert(embedded_capacity(bytes) == cap);

    // The remainder is 96-byte aligned.
    vstd::arithmetic::div_mod::lemma_mod_multiples_basic(cap as int, 96);
    assert((bytes.len() - 8) % 96 == 0);

    // Each chunk is the corresponding point's encoding.
    assert forall|i: int| 0 <= i < pk@.len() implies {
        &&& (#[trigger] g2_try_parse(point_chunk(bytes, i))) is Some
        &&& g2_points_agree(g2_try_parse(point_chunk(bytes, i))->0, pk@[i])
    } by {
        lemma_serialized_points_chunk(pk@, pk@.len() as int, i);
        assert(point_chunk(bytes, i) =~= body.subrange(96 * i, 96 * i + 96));
        assert(point_chunk(bytes, i) == g2_bytes(pk@[i]));
    }
}

/// The encoding round trip, stated on the keys themselves: a public key
/// decoded from the bytes `to_bytes` produced equals the encoded key — the
/// capacities are the same and the point vectors agree component-wise, which
/// is what the key's `==` compares.
pub proof fn lemma_decoded_key_equals_encoded(pk: PublicKey, bytes: Seq<u8>, decoded: PublicKey)
    requires
        pk.wf(),
        bytes == public_key_encoding(pk@, pk.spec_capacity() as nat),
        forall|i: int|
            0 <= i < pk@.len() ==> {
                &&& (#[trigger] g2_bytes(pk@[i])).len() == 96
                &&& g2_try_parse(g2_bytes(pk@[i])) is Some
                &&& g2_points_agree(g2_try_parse(g2_bytes(pk@[i]))->0, pk@[i])
            },
        decoded.spec_capacity() as nat == embedded_capacity(bytes),
        decoded@.len() as nat == embedded_capacity(bytes),
        forall|i: int|
            0 <= i < decoded@.len() ==> Some(#[trigger] decoded@[i]) == g2_try_parse(
                point_chunk(bytes, i),
            ),
    ensures
        decoded.spec_capacity() == pk.spec_capacity(),
        decoded.eq_spec(&pk),
{
    lemma_encoding_round_trip(pk, bytes);
    assert forall|i: int| 0 <= i < decoded@.len() implies g2_points_agree(
        #[trigger] decoded@[i],
        pk@[i],
    ) by {
        assert(Some(decoded@[i]) == g2_try_parse(point_chunk(bytes, i)));
    }
}

/// Every strict prefix of an encoding is rejected by the decoder.
pub proof fn lemma_truncated_encoding_rejected(pk: PublicKey, bytes: Seq<u8>, n: int)
    requires
        pk.wf(),
        bytes == public_key_encoding(pk@, pk.spec_capacity() as nat),
        forall|i: int| 0 <= i < pk@.len() ==> (#[trigger] g2_bytes(pk@[i])).len() == 96,
        0 <= n < bytes.len(),
    ensures
        !decode_accepts(bytes.take(n)),
{
    let cap = pk.spec_capacity() as nat;
    lemma_be_bytes_of_len(cap, 8);
    lemma_serialized_points_len(pk@, pk@.len() as int);
    assert(bytes.len() == 8 + 96 * cap);
    let prefix = bytes.take(n);
    if n < 8 {
        assert(!well_framed(prefix));
    } else {
        assert(prefix.take(8) =~= bytes.take(8));
        assert(embedded_capacity(prefix) == embedded_capacity(bytes));
        assert(bytes.take(8) =~= be_bytes_of(cap, 8));
        lemma_be_round_trip(cap, 8);
        lemma_pow256_values();
        vstd::arithmetic::div_mod::lemma_small_mod(cap, pow256(8));
        assert(embedded_capacity(prefix) == cap);
        assert(prefix.len() != 8 + 96 * embedded_capacity(prefix));
        assert(!well_framed(prefix));
    }
}

} // verus!
