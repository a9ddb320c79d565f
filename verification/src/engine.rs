//! The hashing engine as the session manager sees it.
//!
//! An engine is a linear resource: beginning a context consumes the engine,
//! and finishing the context gives it back. While a context is out, nobody
//! else can begin one.

use vstd::prelude::*;

use crate::algorithm::DigestAlgorithm;
use crate::hashers::{
    hmac_sha256_tag, hmac_sha384_tag, hmac_sha512_tag, sha256_digest, sha384_digest, sha512_digest,
};

verus! {

/// What a computation in progress stands for: the algorithm it was begun
/// for, the key it was begun with (empty for a plain digest), and the
/// message bytes folded in so far.
pub struct ContextView {
    pub algorithm: DigestAlgorithm,
    pub key: Seq<u8>,
    pub message: Seq<u8>,
}

impl ContextView {
    /// A context that has just been begun. A plain digest keeps no key.
    pub open spec fn initial(algorithm: DigestAlgorithm, key: Seq<u8>) -> ContextView {
        ContextView {
            algorithm,
            key: if algorithm.spec_is_hmac() {
                key
            } else {
                Seq::empty()
            },
            message: Seq::empty(),
        }
    }

    /// The context after `data` has been folded in.
    pub open spec fn absorb(self, data: Seq<u8>) -> ContextView {
        ContextView { algorithm: self.algorithm, key: self.key, message: self.message + data }
    }

    /// The bytes that finishing the context yields: the digest of the
    /// message, or its tag under the key.
    pub open spec fn output(self) -> Seq<u8> {
        match self.algorithm {
            DigestAlgorithm::Sha256 => sha256_digest(self.message),
            DigestAlgorithm::Sha384 => sha384_digest(self.message),
            DigestAlgorithm::Sha512 => sha512_digest(self.message),
            DigestAlgorithm::HmacSha256 => hmac_sha256_tag(self.key, self.message),
            DigestAlgorithm::HmacSha384 => hmac_sha384_tag(self.key, self.message),
            DigestAlgorithm::HmacSha512 => hmac_sha512_tag(self.key, self.message),
        }
    }
}

/// What is known of a backend before it is used.
pub struct Backend {
    /// Whether the backend completes every step it is asked for.
    pub reliable: bool,
    /// Whether a step that fails hands the engine back with the failure.
    /// A backend that does not has lost its engine once a step has failed.
    pub hands_back: bool,
}

/// A step that the engine could not complete. The context it was asked to
/// work on is gone. The engine itself comes back when the backend could
/// recover it, and is lost otherwise.
pub struct EngineFailure<E: HashEngine> {
    pub error: E::Error,
    pub engine: Option<E>,
}

/// A hashing backend that computes one digest or tag at a time.
pub trait HashEngine: Sized {
    /// A computation in progress. It owns the engine it was begun on.
    type Context;

    /// What the backend reports when a step fails.
    type Error;

    /// What a context stands for.
    spec fn context_view(ctx: &Self::Context) -> ContextView;

    /// What this backend promises of itself.
    spec fn backend() -> Backend;

    /// Begins a computation. The key is only read for an HMAC.
    fn begin(self, algorithm: DigestAlgorithm, key: &[u8]) -> (r: Result<Self::Context, EngineFailure<Self>>)
        requires
            algorithm.key_len_ok(key@.len()),
        ensures
            r matches Ok(ctx) ==> Self::context_view(&ctx) == ContextView::initial(algorithm, key@),
            Self::backend().reliable ==> r is Ok,
            r matches Err(failure) ==> (failure.engine is Some <==> Self::backend().hands_back),
    ;

    /// Folds `data` into a computation.
    fn update(ctx: Self::Context, data: &[u8]) -> (r: Result<Self::Context, EngineFailure<Self>>)
        ensures
            r matches Ok(next) ==> Self::context_view(&next) == Self::context_view(&ctx).absorb(data@),
            Self::backend().reliable ==> r is Ok,
            r matches Err(failure) ==> (failure.engine is Some <==> Self::backend().hands_back),
    ;

    /// Starts a plain digest over: the context forgets its message.
    fn reset(ctx: Self::Context) -> (r: Self::Context)
        requires
            !Self::context_view(&ctx).algorithm.spec_is_hmac(),
        ensures
            Self::context_view(&r) == ContextView::initial(
                Self::context_view(&ctx).algorithm,
                Seq::empty(),
            ),
    ;

    /// Finishes a computation: the output bytes, and the engine, free again.
    fn finalize(ctx: Self::Context) -> (r: Result<(Vec<u8>, Self), EngineFailure<Self>>)
        ensures
            r matches Ok(done) ==> done.0@ == Self::context_view(&ctx).output() && done.0@.len()
                == Self::context_view(&ctx).algorithm.spec_output_bytes(),
            Self::backend().reliable ==> r is Ok,
            r matches Err(failure) ==> (failure.engine is Some <==> Self::backend().hands_back),
    ;
}

} // verus!
