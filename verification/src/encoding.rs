//! The big-endian header of the public-key encoding: a 64-bit length,
//! written and read as eight bytes, most significant first.

use vstd::prelude::*;

verus! {

/// 256 to the power `n`.
pub open spec fn pow256(n: nat) -> nat
    decreases n,
{
    if n == 0 {
        1
    } else {
        256 * pow256((n - 1) as nat)
    }
}

/// The number a byte string stands for when read big-endian.
pub open spec fn be_value(bytes: Seq<u8>) -> nat
    decreases bytes.len(),
{
    if bytes.len() == 0 {
        0
    } else {
        (be_value(bytes.drop_last()) * 256 + bytes.last()) as nat
    }
}

/// The `len` lowest base-256 digits of `value`, most significant first.
pub open spec fn be_bytes_of(value: nat, len: nat) -> Seq<u8>
    decreases len,
{
    if len == 0 {
        Seq::empty()
    } else {
        be_bytes_of(value / 256, (len - 1) as nat).push((value % 256) as u8)
    }
}

/// A big-endian byte string of length `len` always stands for `len` digits.
pub proof fn lemma_be_bytes_of_len(value: nat, len: nat)
    ensures
        be_bytes_of(value, len).len() == len,
    decreases len,
{
    if len > 0 {
        lemma_be_bytes_of_len(value / 256, (len - 1) as nat);
    }
}

/// Reading the written digits back gives the value, reduced to the digits
/// that were kept.
pub proof fn lemma_be_round_trip(value: nat, len: nat)
    ensures
        be_value(be_bytes_of(value, len)) == value % pow256(len),
    decreases len,
{
    if len == 0 {
        assert(pow256(0) == 1);
        assert(value % 1 == 0) by (nonlinear_arith);
    } else {
        let prefix = be_bytes_of(value / 256, (len - 1) as nat);
        lemma_be_bytes_of_len(value / 256, (len - 1) as nat);
        assert(prefix.push((value % 256) as u8).drop_last() =~= prefix);
        lemma_be_round_trip(value / 256, (len - 1) as nat);
        assert(pow256(len) == 256 * pow256((len - 1) as nat));
        lemma_pow256_at_least_one((len - 1) as nat);
        vstd::arithmetic::div_mod::lemma_mod_breakdown(
            value as int,
            256,
            pow256((len - 1) as nat) as int,
        );
    }
}

/// The powers of 256 that the eight-byte header can reach.
pub proof fn lemma_pow256_values()
    ensures
        pow256(7) == 0x100000000000000,
        pow256(8) == 0x10000000000000000,
{
    assert(pow256(0) == 1);
    assert(pow256(1) == 256);
    assert(pow256(2) == 0x10000);
    assert(pow256(3) == 0x1000000);
    assert(pow256(4) == 0x100000000);
    assert(pow256(5) == 0x10000000000);
    assert(pow256(6) == 0x1000000000000);
    assert(pow256(7) == 0x100000000000000);
    assert(pow256(8) == 0x10000000000000000);
}

/// Powers of 256 do not shrink as the exponent grows.
pub proof fn lemma_pow256_increases(a: nat, b: nat)
    requires
        a <= b,
    ensures
        pow256(a) <= pow256(b),
    decreases b,
{
    if a < b {
        lemma_pow256_increases(a, (b - 1) as nat);
        assert(pow256((b - 1) as nat) >= 1) by {
            lemma_pow256_at_least_one((b - 1) as nat);
        }
    }
}

/// Every power of 256 is positive.
pub proof fn lemma_pow256_at_least_one(n: nat)
    ensures
        pow256(n) >= 1,
    decreases n,
{
    if n > 0 {
        lemma_pow256_at_least_one((n - 1) as nat);
    }
}

/// Write `value` as `len` big-endian bytes.
pub(crate) fn u64_to_be_bytes(value: u64, len: usize) -> (r: Vec<u8>)
    ensures
        r@ == be_bytes_of(value as nat, len as nat),
        r@.len() == len,
    decreases len,
{
    proof {
        lemma_be_bytes_of_len(value as nat, len as nat);
    }
    if len == 0 {
        Vec::new()
    } else {
        let mut prefix = u64_to_be_bytes(value / 256, len - 1);
        prefix.push((value % 256) as u8);
        prefix
    }
}

/// Read the first eight bytes as a big-endian number.
pub(crate) fn be_bytes_to_u64(bytes: &[u8]) -> (r: u64)
    requires
        bytes@.len() >= 8,
    ensures
        r as nat == be_value(bytes@.take(8)),
{
    let mut acc: u64 = 0;
    let mut i: usize = 0;
    proof {
        lemma_pow256_values();
        assert(bytes@.take(0) =~= Seq::<u8>::empty());
    }
    while i < 8
        invariant
            i <= 8,
            bytes@.len() >= 8,
            acc as nat == be_value(bytes@.take(i as int)),
            (acc as nat) < pow256(i as nat),
            pow256(7) == 0x100000000000000,
            pow256(8) == 0x10000000000000000,
        decreases 8 - i,
    {
        proof {
            lemma_pow256_increases(i as nat, 7);
            assert(bytes@.take(i + 1).drop_last() =~= bytes@.take(i as int));
            assert(bytes@.take(i + 1).last() == bytes@[i as int]);
            assert(pow256((i + 1) as nat) == 256 * pow256(i as nat));
        }
        acc = acc * 256 + (bytes[i] as u64);
        i = i + 1;
    }
    acc
}

} // verus!
