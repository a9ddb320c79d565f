//! The software controller: an engine that computes with the `sha2` and
//! `hmac` crates, and the HMAC helpers built on it.

use vstd::prelude::*;

use crate::algorithm::DigestAlgorithm;
use crate::engine::{Backend, ContextView, EngineFailure, HashEngine};
use crate::error::{CryptoError, HmacError};
use crate::hashers::{
    hmac_sha256_absorbed, hmac_sha256_finalize, hmac_sha256_key, hmac_sha256_new, hmac_sha256_tag,
    hmac_sha256_update, hmac_sha384_absorbed, hmac_sha384_finalize, hmac_sha384_key,
    hmac_sha384_new, hmac_sha384_tag, hmac_sha384_update, hmac_sha512_absorbed,
    hmac_sha512_finalize, hmac_sha512_key, hmac_sha512_new, hmac_sha512_tag, hmac_sha512_update,
    sha256_absorbed, sha256_finalize, sha256_new, sha256_update, sha384_absorbed, sha384_finalize,
    sha384_new, sha384_update, sha512_absorbed, sha512_finalize, sha512_new, sha512_update,
    HmacSha256State, HmacSha384State, HmacSha512State,
};
use crate::output::bytes_to_array;

verus! {

/// The longest key, in bytes, that the software controller takes.
pub const MAX_KEY_SIZE: usize = 128;

/// A key held by the controller, at most `MAX_KEY_SIZE` bytes long.
pub struct SecureOwnedKey {
    bytes: Vec<u8>,
}

impl View for SecureOwnedKey {
    type V = Seq<u8>;

    closed spec fn view(&self) -> Seq<u8> {
        self.bytes@
    }
}

impl SecureOwnedKey {
    /// Takes a copy of `key`, or refuses it with `InvalidKeyLength` when it
    /// is longer than `MAX_KEY_SIZE`.
    pub fn new(key: &[u8]) -> (r: Result<SecureOwnedKey, CryptoError>)
        ensures
            match r {
                Ok(k) => key@.len() <= MAX_KEY_SIZE && k@ == key@,
                Err(e) => key@.len() > MAX_KEY_SIZE && e == CryptoError::InvalidKeyLength,
            },
    {
        if key.len() > MAX_KEY_SIZE {
            return Err(CryptoError::InvalidKeyLength);
        }
        let mut bytes: Vec<u8> = Vec::new();
        let mut i: usize = 0;
        while i < key.len()
            invariant
                i <= key@.len(),
                bytes@ == key@.take(i as int),
            decreases key@.len() - i,
        {
            bytes.push(key[i]);
            assert(key@.take(i as int).push(key@[i as int]) =~= key@.take(i + 1));
            i += 1;
        }
        assert(key@.take(key@.len() as int) =~= key@);
        Ok(SecureOwnedKey { bytes })
    }

    /// The key bytes.
    pub fn as_bytes(&self) -> (bytes: &[u8])
        ensures
            bytes@ == self@,
    {
        self.bytes.as_slice()
    }
}

/// The software controller. It holds no state of its own: a context that is
/// begun on it carries the whole computation.
#[derive(Debug)]
pub struct RustCryptoController;

impl RustCryptoController {
    pub fn new() -> (controller: RustCryptoController) {
        RustCryptoController
    }
}

/// An HMAC-SHA-256 computation in progress on the software controller.
#[derive(Debug)]
pub struct MacContext256 {
    mac: HmacSha256State,
    controller: RustCryptoController,
}

/// An HMAC-SHA-384 computation in progress on the software controller.
#[derive(Debug)]
pub struct MacContext384 {
    mac: HmacSha384State,
    controller: RustCryptoController,
}

/// An HMAC-SHA-512 computation in progress on the software controller.
#[derive(Debug)]
pub struct MacContext512 {
    mac: HmacSha512State,
    controller: RustCryptoController,
}

impl MacContext256 {
    /// The key the computation was begun with.
    pub closed spec fn key(&self) -> Seq<u8> {
        hmac_sha256_key(self.mac)
    }

    /// The message bytes folded in so far.
    pub closed spec fn message(&self) -> Seq<u8> {
        hmac_sha256_absorbed(self.mac)
    }
}

impl MacContext384 {
    /// The key the computation was begun with.
    pub closed spec fn key(&self) -> Seq<u8> {
        hmac_sha384_key(self.mac)
    }

    /// The message bytes folded in so far.
    pub closed spec fn message(&self) -> Seq<u8> {
        hmac_sha384_absorbed(self.mac)
    }
}

impl MacContext512 {
    /// The key the computation was begun with.
    pub closed spec fn key(&self) -> Seq<u8> {
        hmac_sha512_key(self.mac)
    }

    /// The message bytes folded in so far.
    pub closed spec fn message(&self) -> Seq<u8> {
        hmac_sha512_absorbed(self.mac)
    }
}

/// Initialize an HMAC-SHA256 context with the given key. A key longer than
/// `MAX_KEY_SIZE` is refused with `InvalidKeyLength`; nothing else fails.
pub fn init_hmac_sha256(controller: RustCryptoController, key: &[u8]) -> (r: Result<MacContext256, HmacError>)
    ensures
        match r {
            Ok(ctx) => key@.len() <= MAX_KEY_SIZE && ctx.key() == key@ && ctx.message() == Seq::<u8>::empty(),
            Err(e) => key@.len() > MAX_KEY_SIZE && e == HmacError::InvalidKeyLength,
        },
{
    let secure_key = match SecureOwnedKey::new(key) {
        Ok(k) => k,
        Err(e) => {
            return Err(HmacError::from(e));
        },
    };
    match hmac_sha256_new(secure_key.as_bytes()) {
        Ok(mac) => Ok(MacContext256 { mac, controller }),
        Err(_) => Err(HmacError::HardwareFailure),
    }
}

/// Initialize an HMAC-SHA384 context with the given key. A key longer than
/// `MAX_KEY_SIZE` is refused with `InvalidKeyLength`; nothing else fails.
pub fn init_hmac_sha384(controller: RustCryptoController, key: &[u8]) -> (r: Result<MacContext384, HmacError>)
    ensures
        match r {
            Ok(ctx) => key@.len() <= MAX_KEY_SIZE && ctx.key() == key@ && ctx.message() == Seq::<u8>::empty(),
            Err(e) => key@.len() > MAX_KEY_SIZE && e == HmacError::InvalidKeyLength,
        },
{
    let secure_key = match SecureOwnedKey::new(key) {
        Ok(k) => k,
        Err(e) => {
            return Err(HmacError::from(e));
        },
    };
    match hmac_sha384_new(secure_key.as_bytes()) {
        Ok(mac) => Ok(MacContext384 { mac, controller }),
        Err(_) => Err(HmacError::HardwareFailure),
    }
}

/// Initialize an HMAC-SHA512 context with the given key. A key longer than
/// `MAX_KEY_SIZE` is refused with `InvalidKeyLength`; nothing else fails.
pub fn init_hmac_sha512(controller: RustCryptoController, key: &[u8]) -> (r: Result<MacContext512, HmacError>)
    ensures
        match r {
            Ok(ctx) => key@.len() <= MAX_KEY_SIZE && ctx.key() == key@ && ctx.message() == Seq::<u8>::empty(),
            Err(e) => key@.len() > MAX_KEY_SIZE && e == HmacError::InvalidKeyLength,
        },
{
    let secure_key = match SecureOwnedKey::new(key) {
        Ok(k) => k,
        Err(e) => {
            return Err(HmacError::from(e));
        },
    };
    match hmac_sha512_new(secure_key.as_bytes()) {
        Ok(mac) => Ok(MacContext512 { mac, controller }),
        Err(_) => Err(HmacError::HardwareFailure),
    }
}

/// Update an HMAC-SHA256 context with data. The software controller never
/// fails here.
pub fn update_hmac_sha256(context: MacContext256, data: &[u8]) -> (r: Result<MacContext256, HmacError>)
    ensures
        r matches Ok(next) && next.key() == context.key() && next.message() == context.message() + data@,
{
    let mut context = context;
    hmac_sha256_update(&mut context.mac, data);
    Ok(context)
}

/// Update an HMAC-SHA384 context with data. The software controller never
/// fails here.
pub fn update_hmac_sha384(context: MacContext384, data: &[u8]) -> (r: Result<MacContext384, HmacError>)
    ensures
        r matches Ok(next) && next.key() == context.key() && next.message() == context.message() + data@,
{
    let mut context = context;
    hmac_sha384_update(&mut context.mac, data);
    Ok(context)
}

/// Update an HMAC-SHA512 context with data. The software controller never
/// fails here.
pub fn update_hmac_sha512(context: MacContext512, data: &[u8]) -> (r: Result<MacContext512, HmacError>)
    ensures
        r matches Ok(next) && next.key() == context.key() && next.message() == context.message() + data@,
{
    let mut context = context;
    hmac_sha512_update(&mut context.mac, data);
    Ok(context)
}

/// Finalize an HMAC-SHA256 context and return the MAC with the controller.
pub fn finalize_hmac_sha256(context: MacContext256) -> (r: Result<([u8; 32], RustCryptoController), HmacError>)
    ensures
        r matches Ok(done) && done.0@ == hmac_sha256_tag(context.key(), context.message()),
{
    let MacContext256 { mac, controller } = context;
    let tag = hmac_sha256_finalize(mac);
    Ok((bytes_to_array::<32>(tag.as_slice()), controller))
}

/// Finalize an HMAC-SHA384 context and return the MAC with the controller.
pub fn finalize_hmac_sha384(context: MacContext384) -> (r: Result<([u8; 48], RustCryptoController), HmacError>)
    ensures
        r matches Ok(done) && done.0@ == hmac_sha384_tag(context.key(), context.message()),
{
    let MacContext384 { mac, controller } = context;
    let tag = hmac_sha384_finalize(mac);
    Ok((bytes_to_array::<48>(tag.as_slice()), controller))
}

/// Finalize an HMAC-SHA512 context and return the MAC with the controller.
pub fn finalize_hmac_sha512(context: MacContext512) -> (r: Result<([u8; 64], RustCryptoController), HmacError>)
    ensures
        r matches Ok(done) && done.0@ == hmac_sha512_tag(context.key(), context.message()),
{
    let MacContext512 { mac, controller } = context;
    let tag = hmac_sha512_finalize(mac);
    Ok((bytes_to_array::<64>(tag.as_slice()), controller))
}

/// One-shot HMAC-SHA256 computation.
pub fn hmac_sha256_oneshot(controller: RustCryptoController, key: &[u8], data: &[u8]) -> (r: Result<
    ([u8; 32], RustCryptoController),
    HmacError,
>)
    ensures
        match r {
            Ok(done) => key@.len() <= MAX_KEY_SIZE && done.0@ == hmac_sha256_tag(key@, data@),
            Err(e) => key@.len() > MAX_KEY_SIZE && e == HmacError::InvalidKeyLength,
        },
{
    let context = init_hmac_sha256(controller, key)?;
    let context = update_hmac_sha256(context, data)?;
    assert(context.message() =~= data@);
    finalize_hmac_sha256(context)
}

/// One-shot HMAC-SHA384 computation.
pub fn hmac_sha384_oneshot(controller: RustCryptoController, key: &[u8], data: &[u8]) -> (r: Result<
    ([u8; 48], RustCryptoController),
    HmacError,
>)
    ensures
        match r {
            Ok(done) => key@.len() <= MAX_KEY_SIZE && done.0@ == hmac_sha384_tag(key@, data@),
            Err(e) => key@.len() > MAX_KEY_SIZE && e == HmacError::InvalidKeyLength,
        },
{
    let context = init_hmac_sha384(controller, key)?;
    let context = update_hmac_sha384(context, data)?;
    assert(context.message() =~= data@);
    finalize_hmac_sha384(context)
}

/// One-shot HMAC-SHA512 computation.
pub fn hmac_sha512_oneshot(controller: RustCryptoController, key: &[u8], data: &[u8]) -> (r: Result<
    ([u8; 64], RustCryptoController),
    HmacError,
>)
    ensures
        match r {
            Ok(done) => key@.len() <= MAX_KEY_SIZE && done.0@ == hmac_sha512_tag(key@, data@),
            Err(e) => key@.len() > MAX_KEY_SIZE && e == HmacError::InvalidKeyLength,
        },
{
    let context = init_hmac_sha512(controller, key)?;
    let context = update_hmac_sha512(context, data)?;
    assert(context.message() =~= data@);
    finalize_hmac_sha512(context)
}

/// A computation in progress on the software controller, of any algorithm.
#[allow(inconsistent_fields)]
pub enum RustCryptoContext {
    Sha256 { hasher: sha2::Sha256, controller: RustCryptoController },
    Sha384 { hasher: sha2::Sha384, controller: RustCryptoController },
    Sha512 { hasher: sha2::Sha512, controller: RustCryptoController },
    HmacSha256(MacContext256),
    HmacSha384(MacContext384),
    HmacSha512(MacContext512),
}

impl View for RustCryptoContext {
    type V = ContextView;

    closed spec fn view(&self) -> ContextView {
        match self {
            RustCryptoContext::Sha256 { hasher, .. } => ContextView {
                algorithm: DigestAlgorithm::Sha256,
                key: Seq::empty(),
                message: sha256_absorbed(*hasher),
            },
            RustCryptoContext::Sha384 { hasher, .. } => ContextView {
                algorithm: DigestAlgorithm::Sha384,
                key: Seq::empty(),
                message: sha384_absorbed(*hasher),
            },
            RustCryptoContext::Sha512 { hasher, .. } => ContextView {
                algorithm: DigestAlgorithm::Sha512,
                key: Seq::empty(),
                message: sha512_absorbed(*hasher),
            },
            RustCryptoContext::HmacSha256(ctx) => ContextView {
                algorithm: DigestAlgorithm::HmacSha256,
                key: ctx.key(),
                message: ctx.message(),
            },
            RustCryptoContext::HmacSha384(ctx) => ContextView {
                algorithm: DigestAlgorithm::HmacSha384,
                key: ctx.key(),
                message: ctx.message(),
            },
            RustCryptoContext::HmacSha512(ctx) => ContextView {
                algorithm: DigestAlgorithm::HmacSha512,
                key: ctx.key(),
                message: ctx.message(),
            },
        }
    }
}

/// What the software controller reports for a failed HMAC step.
fn crypto_error(e: HmacError) -> (c: CryptoError)
    ensures
        c == (match e {
            HmacError::InvalidKeyLength => CryptoError::InvalidKeyLength,
            HmacError::HardwareFailure => CryptoError::HardwareFailure,
        }),
{
    match e {
        HmacError::InvalidKeyLength => CryptoError::InvalidKeyLength,
        HmacError::HardwareFailure => CryptoError::HardwareFailure,
    }
}

impl HashEngine for RustCryptoController {
    type Context = RustCryptoContext;

    type Error = CryptoError;

    open spec fn context_view(ctx: &RustCryptoContext) -> ContextView {
        ctx@
    }

    /// The software controller completes every step, so it has no failure
    /// to hand anything back with.
    open spec fn backend() -> Backend {
        Backend { reliable: true, hands_back: false }
    }

    fn begin(self, algorithm: DigestAlgorithm, key: &[u8]) -> (r: Result<
        RustCryptoContext,
        EngineFailure<RustCryptoController>,
    >) {
        match algorithm {
            DigestAlgorithm::Sha256 => Ok(
                RustCryptoContext::Sha256 { hasher: sha256_new(), controller: self },
            ),
            DigestAlgorithm::Sha384 => Ok(
                RustCryptoContext::Sha384 { hasher: sha384_new(), controller: self },
            ),
            DigestAlgorithm::Sha512 => Ok(
                RustCryptoContext::Sha512 { hasher: sha512_new(), controller: self },
            ),
            DigestAlgorithm::HmacSha256 => match init_hmac_sha256(self, key) {
                Ok(ctx) => Ok(RustCryptoContext::HmacSha256(ctx)),
                Err(e) => Err(EngineFailure { error: crypto_error(e), engine: None }),
            },
            DigestAlgorithm::HmacSha384 => match init_hmac_sha384(self, key) {
                Ok(ctx) => Ok(RustCryptoContext::HmacSha384(ctx)),
                Err(e) => Err(EngineFailure { error: crypto_error(e), engine: None }),
            },
            DigestAlgorithm::HmacSha512 => match init_hmac_sha512(self, key) {
                Ok(ctx) => Ok(RustCryptoContext::HmacSha512(ctx)),
                Err(e) => Err(EngineFailure { error: crypto_error(e), engine: None }),
            },
        }
    }

    fn update(ctx: RustCryptoContext, data: &[u8]) -> (r: Result<
        RustCryptoContext,
        EngineFailure<RustCryptoController>,
    >) {
        match ctx {
            RustCryptoContext::Sha256 { hasher, controller } => {
                let mut hasher = hasher;
                sha256_update(&mut hasher, data);
                Ok(RustCryptoContext::Sha256 { hasher, controller })
            },
            RustCryptoContext::Sha384 { hasher, controller } => {
                let mut hasher = hasher;
                sha384_update(&mut hasher, data);
                Ok(RustCryptoContext::Sha384 { hasher, controller })
            },
            RustCryptoContext::Sha512 { hasher, controller } => {
                let mut hasher = hasher;
                sha512_update(&mut hasher, data);
                Ok(RustCryptoContext::Sha512 { hasher, controller })
            },
            RustCryptoContext::HmacSha256(mac) => match update_hmac_sha256(mac, data) {
                Ok(next) => Ok(RustCryptoContext::HmacSha256(next)),
                Err(e) => Err(EngineFailure { error: crypto_error(e), engine: None }),
            },
            RustCryptoContext::HmacSha384(mac) => match update_hmac_sha384(mac, data) {
                Ok(next) => Ok(RustCryptoContext::HmacSha384(next)),
                Err(e) => Err(EngineFailure { error: crypto_error(e), engine: None }),
            },
            RustCryptoContext::HmacSha512(mac) => match update_hmac_sha512(mac, data) {
                Ok(next) => Ok(RustCryptoContext::HmacSha512(next)),
                Err(e) => Err(EngineFailure { error: crypto_error(e), engine: None }),
            },
        }
    }

    fn reset(ctx: RustCryptoContext) -> (r: RustCryptoContext) {
        match ctx {
            RustCryptoContext::Sha256 { hasher: _, controller } => RustCryptoContext::Sha256 {
                hasher: sha256_new(),
                controller,
            },
            RustCryptoContext::Sha384 { hasher: _, controller } => RustCryptoContext::Sha384 {
                hasher: sha384_new(),
                controller,
            },
            RustCryptoContext::Sha512 { hasher: _, controller } => RustCryptoContext::Sha512 {
                hasher: sha512_new(),
                controller,
            },
            other => other,
        }
    }

    fn finalize(ctx: RustCryptoContext) -> (r: Result<
        (Vec<u8>, RustCryptoController),
        EngineFailure<RustCryptoController>,
    >) {
        match ctx {
            RustCryptoContext::Sha256 { hasher, controller } => Ok((sha256_finalize(hasher), controller)),
            RustCryptoContext::Sha384 { hasher, controller } => Ok((sha384_finalize(hasher), controller)),
            RustCryptoContext::Sha512 { hasher, controller } => Ok((sha512_finalize(hasher), controller)),
            RustCryptoContext::HmacSha256(mac) => {
                let MacContext256 { mac, controller } = mac;
                Ok((hmac_sha256_finalize(mac), controller))
            },
            RustCryptoContext::HmacSha384(mac) => {
                let MacContext384 { mac, controller } = mac;
                Ok((hmac_sha384_finalize(mac), controller))
            },
            RustCryptoContext::HmacSha512(mac) => {
                let MacContext512 { mac, controller } = mac;
                Ok((hmac_sha512_finalize(mac), controller))
            },
        }
    }
}

} // verus!
