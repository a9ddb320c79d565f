//! The P-384 signing key that the certificate store signs with. Nothing in
//! this file is proved but the last function: the items before it state
//! what the `ecdsa` and `p384` crates do.

use vstd::arithmetic::power2::{lemma2_to64, lemma_pow2_adds, pow2};
use vstd::prelude::*;

verus! {

/// The order of the group of P-384: the number of its scalars.
pub open spec fn p384_order() -> nat {
    0xffffffffffffffffffffffffffffffffffffffffffffffffc7634d81f4372ddf581a0db248b0a77aecec196accc52973nat
}

/// The number that bytes stand for, the most significant byte first.
pub open spec fn be_value(bytes: Seq<u8>) -> nat
    decreases bytes.len(),
{
    if bytes.len() == 0 {
        0
    } else {
        be_value(bytes.drop_last()) * 256 + bytes.last() as nat
    }
}

/// Whether 48 bytes are a scalar that can be a signing key: the number
/// they stand for is not zero and is below the order of the group.
pub open spec fn p384_scalar_in_range(scalar: Seq<u8>) -> bool {
    0 < be_value(scalar) < p384_order()
}

/// 256 to the power `n`.
pub open spec fn pow256(n: nat) -> nat
    decreases n,
{
    if n == 0 {
        1
    } else {
        256 * pow256((n - 1) as nat)
    }
}

/// 256 to the power `n` is 2 to the power `8 * n`.
pub proof fn lemma_pow256_is_pow2(n: nat)
    ensures
        pow256(n) == pow2(8 * n),
    decreases n,
{
    lemma2_to64();
    if n > 0 {
        lemma_pow256_is_pow2((n - 1) as nat);
        lemma_pow2_adds(8, (8 * (n - 1)) as nat);
        assert(8 + 8 * (n - 1) == 8 * n);
    }
}

/// The number that bytes stand for is below 256 to the power of their
/// count.
pub proof fn lemma_be_value_bound(bytes: Seq<u8>)
    ensures
        be_value(bytes) < pow256(bytes.len()),
    decreases bytes.len(),
{
    if bytes.len() > 0 {
        lemma_be_value_bound(bytes.drop_last());
    }
}

/// Of bytes that begin with the byte 1, the number is that power of 256
/// which the place of the first byte stands for, and what the other bytes
/// stand for on top.
pub proof fn lemma_be_value_leading_one(bytes: Seq<u8>)
    requires
        bytes.len() > 0,
        bytes[0] == 1,
    ensures
        be_value(bytes) == pow256((bytes.len() - 1) as nat) + be_value(bytes.drop_first()),
    decreases bytes.len(),
{
    let init = bytes.drop_last();
    let rest = bytes.drop_first();
    assert(be_value(bytes) == be_value(init) * 256 + bytes.last() as nat);
    if bytes.len() == 1 {
        assert(init.len() == 0);
        assert(rest.len() == 0);
        assert(be_value(init) == 0);
        assert(be_value(rest) == 0);
        assert(pow256(0) == 1);
    } else {
        lemma_be_value_leading_one(init);
        assert(init.drop_first() =~= rest.drop_last());
        assert(rest.last() == bytes.last());
        assert(be_value(rest) == be_value(rest.drop_last()) * 256 + rest.last() as nat);
        assert(pow256((bytes.len() - 1) as nat) == 256 * pow256((bytes.len() - 2) as nat));
    }
}

/// 48 bytes that begin with the byte 1 are a scalar in range.
pub proof fn lemma_leading_one_in_range(scalar: Seq<u8>)
    requires
        scalar.len() == 48,
        scalar[0] == 1,
    ensures
        p384_scalar_in_range(scalar),
{
    lemma_be_value_leading_one(scalar);
    lemma_be_value_bound(scalar.drop_first());
    lemma_pow256_is_pow2(47);
    lemma2_to64();
    lemma_pow2_adds(64, 64);
    lemma_pow2_adds(128, 128);
    lemma_pow2_adds(256, 64);
    lemma_pow2_adds(320, 32);
    lemma_pow2_adds(352, 24);
    assert(pow2(128) == 0x1_0000_0000_0000_0000_0000_0000_0000_0000nat);
    assert(pow2(256)
        == 0x1_0000_0000_0000_0000_0000_0000_0000_0000_0000_0000_0000_0000_0000_0000_0000_0000nat);
    assert(pow2(320)
        == 0x1_0000_0000_0000_0000_0000_0000_0000_0000_0000_0000_0000_0000_0000_0000_0000_0000_0000_0000_0000_0000nat);
    assert(pow2(352)
        == 0x1_0000_0000_0000_0000_0000_0000_0000_0000_0000_0000_0000_0000_0000_0000_0000_0000_0000_0000_0000_0000_0000_0000nat);
    assert(pow2(376)
        == 0x100_0000_0000_0000_0000_0000_0000_0000_0000_0000_0000_0000_0000_0000_0000_0000_0000_0000_0000_0000_0000_0000_0000_0000nat);
}

/// A P-384 signing key: `ecdsa::SigningKey<p384::NistP384>`.
#[verifier::external_body]
pub struct P384SigningKey {
    inner: ecdsa::SigningKey<p384::NistP384>,
}

/// The scalar of a signing key, as the 48 bytes it was made from.
pub uninterp spec fn p384_key_scalar(key: P384SigningKey) -> Seq<u8>;

/// The signature of a message under the key of a scalar, as the `ecdsa`
/// crate computes it: the message is hashed with SHA-384, the nonce comes
/// from the key and the hash alone, and the signature is `r` then `s`.
/// There is none in the rare case that `r` or `s` comes out as zero.
pub uninterp spec fn p384_signature(scalar: Seq<u8>, message: Seq<u8>) -> Option<Seq<u8>>;

/// `ecdsa::SigningKey::from_slice` for P-384, on 48 bytes: a key of the
/// scalar, where the scalar is in range, and nothing where it is not.
#[verifier::external_body]
pub(crate) fn p384_signing_key(scalar: &[u8; 48]) -> (key: Option<P384SigningKey>)
    ensures
        key is Some <==> p384_scalar_in_range(scalar@),
        key is Some ==> p384_key_scalar(key->Some_0) == scalar@,
{
    match ecdsa::SigningKey::<p384::NistP384>::from_slice(scalar.as_slice()) {
        Ok(inner) => Some(P384SigningKey { inner }),
        Err(_) => None,
    }
}

/// `ecdsa::signature::Signer::try_sign` for a P-384 key, with
/// `ecdsa::Signature::to_bytes`: the signature of the message under the
/// key, 96 bytes, where there is one.
#[verifier::external_body]
pub(crate) fn p384_sign(key: &P384SigningKey, message: &[u8]) -> (signature: Option<Vec<u8>>)
    ensures
        signature is Some <==> p384_signature(p384_key_scalar(*key), message@) is Some,
        signature is Some ==> signature->Some_0@ == p384_signature(
            p384_key_scalar(*key),
            message@,
        )->Some_0,
        signature is Some ==> signature->Some_0@.len() == 96,
{
    let signed: Result<ecdsa::Signature<p384::NistP384>, ecdsa::Error> =
        ecdsa::signature::Signer::try_sign(&key.inner, message);
    match signed {
        Ok(signature) => Some(signature.to_bytes().to_vec()),
        Err(_) => None,
    }
}

} // verus!
