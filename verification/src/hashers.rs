//! The streaming SHA-2 hashers and HMAC states that the software controller
//! computes with. Nothing in this file is proved: each item states what the
//! `sha2` and `hmac` crates do, and the rest of the library builds on that.
//!
//! A hasher is described by the bytes it has absorbed so far, an HMAC state
//! additionally by the key it was made with. What comes out at the end is a
//! function of those alone, and has a name here rather than a definition.

use vstd::prelude::*;

verus! {

#[verifier::external_type_specification]
#[verifier::external_body]
pub struct ExSha256(sha2::Sha256);

#[verifier::external_type_specification]
#[verifier::external_body]
pub struct ExSha384(sha2::Sha384);

#[verifier::external_type_specification]
#[verifier::external_body]
pub struct ExSha512(sha2::Sha512);

#[verifier::external_type_specification]
#[verifier::external_body]
pub struct ExInvalidLength(hmac::digest::InvalidLength);

/// A running HMAC-SHA-256 computation: `hmac::Hmac<sha2::Sha256>`.
#[verifier::external_body]
#[derive(Debug)]
pub struct HmacSha256State {
    inner: hmac::Hmac<sha2::Sha256>,
}

/// A running HMAC-SHA-384 computation: `hmac::Hmac<sha2::Sha384>`.
#[verifier::external_body]
#[derive(Debug)]
pub struct HmacSha384State {
    inner: hmac::Hmac<sha2::Sha384>,
}

/// A running HMAC-SHA-512 computation: `hmac::Hmac<sha2::Sha512>`.
#[verifier::external_body]
#[derive(Debug)]
pub struct HmacSha512State {
    inner: hmac::Hmac<sha2::Sha512>,
}

/// The bytes a SHA-256 hasher has absorbed since it was made, in order.
pub uninterp spec fn sha256_absorbed(h: sha2::Sha256) -> Seq<u8>;

/// The bytes a SHA-384 hasher has absorbed since it was made, in order.
pub uninterp spec fn sha384_absorbed(h: sha2::Sha384) -> Seq<u8>;

/// The bytes a SHA-512 hasher has absorbed since it was made, in order.
pub uninterp spec fn sha512_absorbed(h: sha2::Sha512) -> Seq<u8>;

/// The SHA-256 digest of a message, as the `sha2` crate computes it.
pub uninterp spec fn sha256_digest(message: Seq<u8>) -> Seq<u8>;

/// The SHA-384 digest of a message, as the `sha2` crate computes it.
pub uninterp spec fn sha384_digest(message: Seq<u8>) -> Seq<u8>;

/// The SHA-512 digest of a message, as the `sha2` crate computes it.
pub uninterp spec fn sha512_digest(message: Seq<u8>) -> Seq<u8>;

/// The key an HMAC-SHA-256 state was made with.
pub uninterp spec fn hmac_sha256_key(s: HmacSha256State) -> Seq<u8>;

/// The key an HMAC-SHA-384 state was made with.
pub uninterp spec fn hmac_sha384_key(s: HmacSha384State) -> Seq<u8>;

/// The key an HMAC-SHA-512 state was made with.
pub uninterp spec fn hmac_sha512_key(s: HmacSha512State) -> Seq<u8>;

/// The message bytes an HMAC-SHA-256 state has absorbed, in order.
pub uninterp spec fn hmac_sha256_absorbed(s: HmacSha256State) -> Seq<u8>;

/// The message bytes an HMAC-SHA-384 state has absorbed, in order.
pub uninterp spec fn hmac_sha384_absorbed(s: HmacSha384State) -> Seq<u8>;

/// The message bytes an HMAC-SHA-512 state has absorbed, in order.
pub uninterp spec fn hmac_sha512_absorbed(s: HmacSha512State) -> Seq<u8>;

/// The HMAC-SHA-256 tag of a message under a key, as the `hmac` crate computes it.
pub uninterp spec fn hmac_sha256_tag(key: Seq<u8>, message: Seq<u8>) -> Seq<u8>;

/// The HMAC-SHA-384 tag of a message under a key, as the `hmac` crate computes it.
pub uninterp spec fn hmac_sha384_tag(key: Seq<u8>, message: Seq<u8>) -> Seq<u8>;

/// The HMAC-SHA-512 tag of a message under a key, as the `hmac` crate computes it.
pub uninterp spec fn hmac_sha512_tag(key: Seq<u8>, message: Seq<u8>) -> Seq<u8>;

/// `sha2::Digest::new` for `Sha256`: a hasher that has absorbed nothing.
#[verifier::external_body]
pub(crate) fn sha256_new() -> (h: sha2::Sha256)
    ensures
        sha256_absorbed(h) == Seq::<u8>::empty(),
{
    sha2::Digest::new()
}

/// `sha2::Digest::update` for `Sha256`: the hasher absorbs `data` after
/// what it had absorbed before.
#[verifier::external_body]
pub(crate) fn sha256_update(h: &mut sha2::Sha256, data: &[u8])
    ensures
        sha256_absorbed(*final(h)) == sha256_absorbed(*old(h)) + data@,
{
    sha2::Digest::update(h, data)
}

/// `sha2::Digest::finalize` for `Sha256`: the 32-byte digest of everything
/// the hasher absorbed.
#[verifier::external_body]
pub(crate) fn sha256_finalize(h: sha2::Sha256) -> (out: Vec<u8>)
    ensures
        out@ == sha256_digest(sha256_absorbed(h)),
        out@.len() == 32,
{
    sha2::Digest::finalize(h).to_vec()
}

/// `sha2::Digest::new` for `Sha384`: a hasher that has absorbed nothing.
#[verifier::external_body]
pub(crate) fn sha384_new() -> (h: sha2::Sha384)
    ensures
        sha384_absorbed(h) == Seq::<u8>::empty(),
{
    sha2::Digest::new()
}

/// `sha2::Digest::update` for `Sha384`: the hasher absorbs `data` after
/// what it had absorbed before.
#[verifier::external_body]
pub(crate) fn sha384_update(h: &mut sha2::Sha384, data: &[u8])
    ensures
        sha384_absorbed(*final(h)) == sha384_absorbed(*old(h)) + data@,
{
    sha2::Digest::update(h, data)
}

/// `sha2::Digest::finalize` for `Sha384`: the 48-byte digest of everything
/// the hasher absorbed.
#[verifier::external_body]
pub(crate) fn sha384_finalize(h: sha2::Sha384) -> (out: Vec<u8>)
    ensures
        out@ == sha384_digest(sha384_absorbed(h)),
        out@.len() == 48,
{
    sha2::Digest::finalize(h).to_vec()
}

/// `sha2::Digest::new` for `Sha512`: a hasher that has absorbed nothing.
#[verifier::external_body]
pub(crate) fn sha512_new() -> (h: sha2::Sha512)
    ensures
        sha512_absorbed(h) == Seq::<u8>::empty(),
{
    sha2::Digest::new()
}

/// `sha2::Digest::update` for `Sha512`: the hasher absorbs `data` after
/// what it had absorbed before.
#[verifier::external_body]
pub(crate) fn sha512_update(h: &mut sha2::Sha512, data: &[u8])
    ensures
        sha512_absorbed(*final(h)) == sha512_absorbed(*old(h)) + data@,
{
    sha2::Digest::update(h, data)
}

/// `sha2::Digest::finalize` for `Sha512`: the 64-byte digest of everything
/// the hasher absorbed.
#[verifier::external_body]
pub(crate) fn sha512_finalize(h: sha2::Sha512) -> (out: Vec<u8>)
    ensures
        out@ == sha512_digest(sha512_absorbed(h)),
        out@.len() == 64,
{
    sha2::Digest::finalize(h).to_vec()
}

/// `hmac::KeyInit::new_from_slice` for `Hmac<Sha256>`: HMAC takes a key of
/// any length, so the call succeeds; the state holds the key and has
/// absorbed nothing.
#[verifier::external_body]
pub(crate) fn hmac_sha256_new(key: &[u8]) -> (r: Result<HmacSha256State, hmac::digest::InvalidLength>)
    ensures
        r is Ok,
        hmac_sha256_key(r->Ok_0) == key@,
        hmac_sha256_absorbed(r->Ok_0) == Seq::<u8>::empty(),
{
    match <hmac::Hmac<sha2::Sha256> as hmac::KeyInit>::new_from_slice(key) {
        Ok(inner) => Ok(HmacSha256State { inner }),
        Err(e) => Err(e),
    }
}

/// `hmac::Mac::update` for `Hmac<Sha256>`: the state absorbs `data` after
/// what it had absorbed before, and keeps its key.
#[verifier::external_body]
pub(crate) fn hmac_sha256_update(s: &mut HmacSha256State, data: &[u8])
    ensures
        hmac_sha256_absorbed(*final(s)) == hmac_sha256_absorbed(*old(s)) + data@,
        hmac_sha256_key(*final(s)) == hmac_sha256_key(*old(s)),
{
    hmac::Mac::update(&mut s.inner, data)
}

/// `hmac::Mac::finalize` for `Hmac<Sha256>`: the 32-byte tag of everything
/// the state absorbed, under its key.
#[verifier::external_body]
pub(crate) fn hmac_sha256_finalize(s: HmacSha256State) -> (out: Vec<u8>)
    ensures
        out@ == hmac_sha256_tag(hmac_sha256_key(s), hmac_sha256_absorbed(s)),
        out@.len() == 32,
{
    hmac::Mac::finalize(s.inner).into_bytes().to_vec()
}

/// `hmac::KeyInit::new_from_slice` for `Hmac<Sha384>`: HMAC takes a key of
/// any length, so the call succeeds; the state holds the key and has
/// absorbed nothing.
#[verifier::external_body]
pub(crate) fn hmac_sha384_new(key: &[u8]) -> (r: Result<HmacSha384State, hmac::digest::InvalidLength>)
    ensures
        r is Ok,
        hmac_sha384_key(r->Ok_0) == key@,
        hmac_sha384_absorbed(r->Ok_0) == Seq::<u8>::empty(),
{
    match <hmac::Hmac<sha2::Sha384> as hmac::KeyInit>::new_from_slice(key) {
        Ok(inner) => Ok(HmacSha384State { inner }),
        Err(e) => Err(e),
    }
}

/// `hmac::Mac::update` for `Hmac<Sha384>`: the state absorbs `data` after
/// what it had absorbed before, and keeps its key.
#[verifier::external_body]
pub(crate) fn hmac_sha384_update(s: &mut HmacSha384State, data: &[u8])
    ensures
        hmac_sha384_absorbed(*final(s)) == hmac_sha384_absorbed(*old(s)) + data@,
        hmac_sha384_key(*final(s)) == hmac_sha384_key(*old(s)),
{
    hmac::Mac::update(&mut s.inner, data)
}

/// `hmac::Mac::finalize` for `Hmac<Sha384>`: the 48-byte tag of everything
/// the state absorbed, under its key.
#[verifier::external_body]
pub(crate) fn hmac_sha384_finalize(s: HmacSha384State) -> (out: Vec<u8>)
    ensures
        out@ == hmac_sha384_tag(hmac_sha384_key(s), hmac_sha384_absorbed(s)),
        out@.len() == 48,
{
    hmac::Mac::finalize(s.inner).into_bytes().to_vec()
}

/// `hmac::KeyInit::new_from_slice` for `Hmac<Sha512>`: HMAC takes a key of
/// any length, so the call succeeds; the state holds the key and has
/// absorbed nothing.
#[verifier::external_body]
pub(crate) fn hmac_sha512_new(key: &[u8]) -> (r: Result<HmacSha512State, hmac::digest::InvalidLength>)
    ensures
        r is Ok,
        hmac_sha512_key(r->Ok_0) == key@,
        hmac_sha512_absorbed(r->Ok_0) == Seq::<u8>::empty(),
{
    match <hmac::Hmac<sha2::Sha512> as hmac::KeyInit>::new_from_slice(key) {
        Ok(inner) => Ok(HmacSha512State { inner }),
        Err(e) => Err(e),
    }
}

/// `hmac::Mac::update` for `Hmac<Sha512>`: the state absorbs `data` after
/// what it had absorbed before, and keeps its key.
#[verifier::external_body]
pub(crate) fn hmac_sha512_update(s: &mut HmacSha512State, data: &[u8])
    ensures
        hmac_sha512_absorbed(*final(s)) == hmac_sha512_absorbed(*old(s)) + data@,
        hmac_sha512_key(*final(s)) == hmac_sha512_key(*old(s)),
{
    hmac::Mac::update(&mut s.inner, data)
}

/// `hmac::Mac::finalize` for `Hmac<Sha512>`: the 64-byte tag of everything
/// the state absorbed, under its key.
#[verifier::external_body]
pub(crate) fn hmac_sha512_finalize(s: HmacSha512State) -> (out: Vec<u8>)
    ensures
        out@ == hmac_sha512_tag(hmac_sha512_key(s), hmac_sha512_absorbed(s)),
        out@.len() == 64,
{
    hmac::Mac::finalize(s.inner).into_bytes().to_vec()
}

} // verus!
