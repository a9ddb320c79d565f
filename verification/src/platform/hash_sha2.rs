//! The hash platform that computes in software, with the `sha2` crate.

use vstd::prelude::*;

use crate::hashers::{
    sha384_absorbed, sha384_digest, sha384_finalize, sha384_new, sha384_update, sha512_absorbed,
    sha512_digest, sha512_finalize, sha512_new, sha512_update,
};
use crate::output::write_prefix;
use crate::platform::{SpdmHashAlgoType, SpdmHashError};

verus! {

/// The hash of `message` under an algorithm.
pub open spec fn spdm_digest(algo: SpdmHashAlgoType, message: Seq<u8>) -> Seq<u8> {
    match algo {
        SpdmHashAlgoType::SHA384 => sha384_digest(message),
        SpdmHashAlgoType::SHA512 => sha512_digest(message),
    }
}

/// A hash in progress.
#[allow(inconsistent_fields)]
pub enum HashContextEnum {
    Sha384(sha2::Sha384),
    Sha512(sha2::Sha512),
}

impl HashContextEnum {
    /// The algorithm of the hash.
    pub open spec fn algo(&self) -> SpdmHashAlgoType {
        match self {
            HashContextEnum::Sha384(_) => SpdmHashAlgoType::SHA384,
            HashContextEnum::Sha512(_) => SpdmHashAlgoType::SHA512,
        }
    }

    /// The bytes folded in so far.
    pub open spec fn message(&self) -> Seq<u8> {
        match self {
            HashContextEnum::Sha384(ctx) => sha384_absorbed(*ctx),
            HashContextEnum::Sha512(ctx) => sha512_absorbed(*ctx),
        }
    }

    /// Folds `data` in.
    pub fn update(self, data: &[u8]) -> (next: Self)
        ensures
            next.algo() == self.algo(),
            next.message() == self.message() + data@,
    {
        match self {
            HashContextEnum::Sha384(ctx) => {
                let mut ctx = ctx;
                sha384_update(&mut ctx, data);
                HashContextEnum::Sha384(ctx)
            },
            HashContextEnum::Sha512(ctx) => {
                let mut ctx = ctx;
                sha512_update(&mut ctx, data);
                HashContextEnum::Sha512(ctx)
            },
        }
    }

    /// Finishes the hash and writes it over the front of `out`, whose
    /// length it reports. A buffer that is too short for the hash is
    /// refused and left as it was.
    pub fn finalize(self, out: &mut [u8]) -> (r: Result<usize, SpdmHashError>)
        ensures
            r is Ok <==> old(out)@.len() >= self.algo().spec_hash_size(),
            r matches Ok(n) ==> n == self.algo().spec_hash_size() && final(out)@ == spdm_digest(
                self.algo(),
                self.message(),
            ) + old(out)@.skip(n as int),
            r is Err ==> final(out)@ == old(out)@,
    {
        match self {
            HashContextEnum::Sha384(ctx) => {
                let digest = sha384_finalize(ctx);
                if out.len() < 48 {
                    return Err(SpdmHashError::PlatformError);
                }
                write_prefix(out, digest.as_slice());
                Ok(48)
            },
            HashContextEnum::Sha512(ctx) => {
                let digest = sha512_finalize(ctx);
                if out.len() < 64 {
                    return Err(SpdmHashError::PlatformError);
                }
                write_prefix(out, digest.as_slice());
                Ok(64)
            },
        }
    }
}

/// Hash implementation that supports SHA-384 and SHA-512 in software.
pub struct Sha2Hash {
    context: Option<HashContextEnum>,
    algo: SpdmHashAlgoType,
}

impl Sha2Hash {
    /// The hash in progress, if there is one.
    pub closed spec fn context(&self) -> Option<HashContextEnum> {
        self.context
    }

    /// The algorithm of the hash that was started last.
    pub closed spec fn spec_algo(&self) -> SpdmHashAlgoType {
        self.algo
    }

    /// A hash in progress is of the algorithm that was started last.
    #[verifier::type_invariant]
    closed spec fn consistent(&self) -> bool {
        self.context matches Some(ctx) ==> ctx.algo() == self.algo
    }

    /// A platform with no hash in progress. Its algorithm is SHA-384 until
    /// a hash is started.
    pub fn new() -> (h: Self)
        ensures
            h.context() is None,
            h.spec_algo() == SpdmHashAlgoType::SHA384,
    {
        Sha2Hash { context: None, algo: SpdmHashAlgoType::SHA384 }
    }

    /// The algorithm of the hash that was started last.
    pub fn algo(&self) -> (a: SpdmHashAlgoType)
        ensures
            a == self.spec_algo(),
    {
        self.algo
    }

    /// A context that has folded nothing in.
    fn create_context(algo: SpdmHashAlgoType) -> (ctx: HashContextEnum)
        ensures
            ctx.algo() == algo,
            ctx.message() == Seq::<u8>::empty(),
    {
        match algo {
            SpdmHashAlgoType::SHA384 => HashContextEnum::Sha384(sha384_new()),
            SpdmHashAlgoType::SHA512 => HashContextEnum::Sha512(sha512_new()),
        }
    }

    /// Hashes `data` in one call and writes the hash over the front of
    /// `hash`. A buffer that is too short for the hash is refused and left
    /// as it was. A hash in progress is not touched.
    pub fn hash(&mut self, hash_algo: SpdmHashAlgoType, data: &[u8], hash: &mut [u8]) -> (r: Result<
        (),
        SpdmHashError,
    >)
        ensures
            *final(self) == *old(self),
            r is Ok <==> old(hash)@.len() >= hash_algo.spec_hash_size(),
            r is Ok ==> final(hash)@ == spdm_digest(hash_algo, data@) + old(hash)@.skip(
                hash_algo.spec_hash_size() as int,
            ),
            r is Err ==> final(hash)@ == old(hash)@,
    {
        if hash.len() < hash_algo.hash_size() {
            return Err(SpdmHashError::PlatformError);
        }
        let hasher = Self::create_context(hash_algo).update(data);
        assert(hasher.message() =~= data@);
        match hasher.finalize(hash) {
            Ok(_) => Ok(()),
            Err(e) => Err(e),
        }
    }

    /// Starts a hash, and folds `data` in if any are given. A hash that was
    /// in progress is dropped.
    pub fn init(&mut self, hash_algo: SpdmHashAlgoType, data: Option<&[u8]>) -> (r: Result<
        (),
        SpdmHashError,
    >)
        ensures
            r is Ok,
            final(self).spec_algo() == hash_algo,
            final(self).context() matches Some(ctx) && ctx.algo() == hash_algo && ctx.message() == (
            match data {
                Some(d) => d@,
                None => Seq::empty(),
            }),
    {
        self.context = None;
        self.algo = hash_algo;
        let mut context = Self::create_context(hash_algo);
        if let Some(d) = data {
            context = context.update(d);
            assert(context.message() =~= d@);
        }
        self.context = Some(context);
        Ok(())
    }

    /// Folds `data` into the hash in progress. Without one the call fails.
    pub fn update(&mut self, data: &[u8]) -> (r: Result<(), SpdmHashError>)
        ensures
            final(self).spec_algo() == old(self).spec_algo(),
            match old(self).context() {
                None => r is Err && final(self).context() is None,
                Some(before) => r is Ok && (final(self).context() matches Some(ctx) && ctx.algo()
                    == before.algo() && ctx.message() == before.message() + data@),
            },
    {
        proof {
            use_type_invariant(&*self);
        }
        let mut slot: Option<HashContextEnum> = None;
        core::mem::swap(&mut self.context, &mut slot);
        match slot {
            Some(context) => {
                self.context = Some(context.update(data));
                Ok(())
            },
            None => Err(SpdmHashError::PlatformError),
        }
    }

    /// Finishes the hash in progress and writes it over the front of
    /// `out`. Without a hash in progress, and with a buffer that is too
    /// short for the hash, the call fails and `out` is as it was. The hash
    /// in progress is gone afterwards in either case.
    pub fn finalize(&mut self, out: &mut [u8]) -> (r: Result<(), SpdmHashError>)
        ensures
            final(self).spec_algo() == old(self).spec_algo(),
            final(self).context() is None,
            r is Ok <==> old(self).context() is Some && old(out)@.len() >= old(
                self,
            ).spec_algo().spec_hash_size(),
            r is Ok ==> final(out)@ == spdm_digest(
                old(self).spec_algo(),
                old(self).context()->Some_0.message(),
            ) + old(out)@.skip(old(self).spec_algo().spec_hash_size() as int),
            r is Err ==> final(out)@ == old(out)@,
    {
        proof {
            use_type_invariant(&*self);
        }
        let mut slot: Option<HashContextEnum> = None;
        core::mem::swap(&mut self.context, &mut slot);
        let context = match slot {
            Some(context) => context,
            None => {
                return Err(SpdmHashError::PlatformError);
            },
        };
        if out.len() < self.algo.hash_size() {
            return Err(SpdmHashError::PlatformError);
        }
        match context.finalize(out) {
            Ok(_) => Ok(()),
            Err(e) => Err(e),
        }
    }

    /// Drops the hash in progress.
    pub fn reset(&mut self)
        ensures
            final(self).context() is None,
            final(self).spec_algo() == old(self).spec_algo(),
    {
        self.context = None;
    }
}

} // verus!
