//! The hash platform that computes on the digest server: a client of the
//! server that hashes messages of any length and hands digests out as
//! bytes.

use vstd::prelude::*;

use crate::algorithm::{DigestAlgorithm, MAX_DATA_SIZE};
use crate::engine::{Backend, HashEngine};
use crate::error::DigestError;
use crate::model::{
    finalize_outcome, init_outcome, oneshot_outcome, oneshot_output, reset_outcome,
    session_output, ServerView,
};
use crate::output::{lemma_be_bytes_of_be_words, words_to_be_bytes, write_prefix};
use crate::platform::{SpdmHashAlgoType, SpdmHashError};
use crate::server::ServerImpl;

verus! {

/// What updating a session with a message of any length does: the message
/// goes to the server in pieces of at most 1024 bytes. Without a session
/// nothing is done and the call fails. An empty message makes no piece, so
/// the server is not asked at all. Otherwise the session must own its
/// context; then either every piece is folded in, or the engine fails on
/// one of them and the session is left without a context.
pub open spec fn chunked_update_outcome(
    pre: ServerView,
    session: Option<u32>,
    data: Seq<u8>,
    backend: Backend,
    post: ServerView,
    ok: bool,
) -> bool {
    match session {
        None => !ok && post == pre,
        Some(id) => if data.len() == 0 {
            ok && post == pre
        } else if !pre.owns_context(id) {
            !ok && post == pre
        } else {
            ||| ok && post == pre.with_context(
                id,
                Some(pre.sessions[id].context->Some_0.absorb(data)),
            )
            ||| !backend.reliable && !ok && post == pre.with_context(id, None).after_failure(
                backend,
            )
        },
    }
}

/// What starting a hash does: the server starts a session of the
/// algorithm (`started`, leaving it in the state `mid`); where that fails
/// the call fails and the platform keeps the session it had; otherwise the
/// platform takes the new session, and folds the initial data in, if any
/// were given.
pub open spec fn start_outcome(
    pre: ServerView,
    algorithm: DigestAlgorithm,
    data: Option<Seq<u8>>,
    now: u64,
    backend: Backend,
    post: ServerView,
    session_before: Option<u32>,
    session_after: Option<u32>,
    ok: bool,
    started: Result<u32, DigestError>,
    mid: ServerView,
) -> bool {
    &&& init_outcome(pre, algorithm, Seq::empty(), now, backend, mid, started)
    &&& match started {
        Err(_) => !ok && post == mid && session_after == session_before,
        Ok(id) => session_after == Some(id) && match data {
            None => ok && post == mid,
            Some(d) => chunked_update_outcome(mid, Some(id), d, backend, post, ok),
        },
    }
}

/// The bytes of an optional buffer.
pub open spec fn optional_bytes(data: Option<&[u8]>) -> Option<Seq<u8>> {
    match data {
        Some(d) => Some(d@),
        None => None,
    }
}

/// Digest hash implementation that computes on the digest server.
pub struct DigestHash {
    session_id: Option<u32>,
    algo: SpdmHashAlgoType,
}

impl DigestHash {
    /// The session that a hash in progress runs in.
    pub closed spec fn session(&self) -> Option<u32> {
        self.session_id
    }

    /// The algorithm of the hash that was started last.
    pub closed spec fn spec_algo(&self) -> SpdmHashAlgoType {
        self.algo
    }

    /// A platform with no hash in progress. Its algorithm is SHA-384 until
    /// a hash is started.
    pub fn new() -> (h: Self)
        ensures
            h.session() is None,
            h.spec_algo() == SpdmHashAlgoType::SHA384,
    {
        DigestHash { session_id: None, algo: SpdmHashAlgoType::SHA384 }
    }

    /// The algorithm of the hash that was started last.
    pub fn algo(&self) -> (a: SpdmHashAlgoType)
        ensures
            a == self.spec_algo(),
    {
        self.algo
    }

    /// Hashes `data` in one call and writes the hash over the front of
    /// `hash`. The server refuses more than 1024 bytes. When the call
    /// fails, `hash` is as it was.
    pub fn hash<E: HashEngine>(
        &mut self,
        server: &mut ServerImpl<E>,
        hash_algo: SpdmHashAlgoType,
        data: &[u8],
        hash: &mut [u8],
    ) -> (r: Result<(), SpdmHashError>)
        requires
            old(hash)@.len() >= hash_algo.spec_hash_size(),
        ensures
            *final(self) == *old(self),
            exists|inner: Result<(), DigestError>|
                (r is Ok <==> inner is Ok) && #[trigger] oneshot_outcome(
                    old(server)@,
                    hash_algo.spec_algorithm(),
                    Seq::empty(),
                    data@,
                    E::backend(),
                    final(server)@,
                    inner,
                ),
            r is Ok ==> final(hash)@ == oneshot_output(
                hash_algo.spec_algorithm(),
                Seq::empty(),
                data@,
            ) + old(hash)@.skip(hash_algo.spec_hash_size() as int),
            r is Err ==> final(hash)@ == old(hash)@,
            old(server)@.wf() ==> final(server)@.wf(),
    {
        let ghost pre = server@;
        let ghost algorithm = hash_algo.spec_algorithm();
        let ghost expected = oneshot_output(algorithm, Seq::empty(), data@);
        match hash_algo {
            SpdmHashAlgoType::SHA384 => {
                let computed = server.digest_oneshot_sha384(data);
                assert(oneshot_outcome(
                    pre,
                    algorithm,
                    Seq::empty(),
                    data@,
                    E::backend(),
                    server@,
                    crate::model::status(computed),
                ));
                match computed {
                    Ok(digest) => {
                        let bytes = words_to_be_bytes(digest.as_slice());
                        proof {
                            lemma_be_bytes_of_be_words(expected);
                        }
                        write_prefix(hash, bytes.as_slice());
                        Ok(())
                    },
                    Err(_) => Err(SpdmHashError::PlatformError),
                }
            },
            SpdmHashAlgoType::SHA512 => {
                let computed = server.digest_oneshot_sha512(data);
                assert(oneshot_outcome(
                    pre,
                    algorithm,
                    Seq::empty(),
                    data@,
                    E::backend(),
                    server@,
                    crate::model::status(computed),
                ));
                match computed {
                    Ok(digest) => {
                        let bytes = words_to_be_bytes(digest.as_slice());
                        proof {
                            lemma_be_bytes_of_be_words(expected);
                        }
                        write_prefix(hash, bytes.as_slice());
                        Ok(())
                    },
                    Err(_) => Err(SpdmHashError::PlatformError),
                }
            },
        }
    }

    /// Starts a hash, and folds `data` in if any are given. A hash that was
    /// in progress is forgotten, not finished.
    pub fn init<E: HashEngine>(
        &mut self,
        server: &mut ServerImpl<E>,
        hash_algo: SpdmHashAlgoType,
        data: Option<&[u8]>,
        now: u64,
    ) -> (r: Result<(), SpdmHashError>)
        ensures
            final(self).spec_algo() == hash_algo,
            exists|started: Result<u32, DigestError>, mid: ServerView| #[trigger]
                start_outcome(
                    old(server)@,
                    hash_algo.spec_algorithm(),
                    optional_bytes(data),
                    now,
                    E::backend(),
                    final(server)@,
                    old(self).session(),
                    final(self).session(),
                    r is Ok,
                    started,
                    mid,
                ),
            old(server)@.wf() ==> final(server)@.wf(),
    {
        let ghost pre = server@;
        self.algo = hash_algo;
        let started = match hash_algo {
            SpdmHashAlgoType::SHA384 => server.init_sha384(now),
            SpdmHashAlgoType::SHA512 => server.init_sha512(now),
        };
        let ghost mid = server@;
        let session_id = match started {
            Ok(id) => id,
            Err(_) => {
                let r: Result<(), SpdmHashError> = Err(SpdmHashError::PlatformError);
                assert(start_outcome(
                    pre,
                    hash_algo.spec_algorithm(),
                    optional_bytes(data),
                    now,
                    E::backend(),
                    server@,
                    old(self).session(),
                    self.session(),
                    r is Ok,
                    started,
                    mid,
                ));
                return r;
            },
        };
        self.session_id = Some(session_id);
        let r = match data {
            Some(d) => self.update(server, d),
            None => Ok(()),
        };
        assert(start_outcome(
            pre,
            hash_algo.spec_algorithm(),
            optional_bytes(data),
            now,
            E::backend(),
            server@,
            old(self).session(),
            self.session(),
            r is Ok,
            started,
            mid,
        ));
        r
    }

    /// Folds `data` into the hash in progress, in pieces of at most 1024
    /// bytes.
    pub fn update<E: HashEngine>(&mut self, server: &mut ServerImpl<E>, data: &[u8]) -> (r: Result<
        (),
        SpdmHashError,
    >)
        ensures
            *final(self) == *old(self),
            chunked_update_outcome(
                old(server)@,
                old(self).session(),
                data@,
                E::backend(),
                final(server)@,
                r is Ok,
            ),
            old(server)@.wf() ==> final(server)@.wf(),
    {
        let ghost pre = server@;
        let session_id = match self.session_id {
            Some(id) => id,
            None => {
                assert(server@ == pre);
                return Err(SpdmHashError::PlatformError);
            },
        };
        let len: usize = data.len();
        let mut offset: usize = 0;
        while offset < len
            invariant
                offset <= len,
                len == data@.len(),
                pre == old(server)@,
                old(self).session() == Some(session_id),
                *self == *old(self),
                pre.wf() ==> server@.wf(),
                offset == 0 ==> server@ == pre,
                offset > 0 ==> pre.owns_context(session_id) && server@ == pre.with_context(
                    session_id,
                    Some(pre.sessions[session_id].context->Some_0.absorb(data@.take(offset as int))),
                ),
            decreases len - offset,
        {
            let end: usize = if len - offset > MAX_DATA_SIZE {
                offset + MAX_DATA_SIZE
            } else {
                len
            };
            let chunk = vstd::slice::slice_subrange(data, offset, end);
            let ghost cur = server@;
            let step = server.update(session_id, chunk);
            proof {
                assert(data@.take(offset as int) + chunk@ =~= data@.take(end as int));
                if offset > 0 {
                    assert(cur.owns_context(session_id));
                }
            }
            match step {
                Ok(()) => {
                    proof {
                        assert(cur.owns_context(session_id));
                        assert(pre.owns_context(session_id));
                        let ctx0 = pre.sessions[session_id].context->Some_0;
                        if offset == 0 {
                            assert(data@.take(0) =~= Seq::<u8>::empty());
                            assert(ctx0.message + chunk@ =~= ctx0.message + data@.take(end as int));
                        } else {
                            assert((ctx0.message + data@.take(offset as int)) + chunk@ =~= ctx0.message
                                + data@.take(end as int));
                        }
                        assert(server@.sessions =~= pre.with_context(
                            session_id,
                            Some(ctx0.absorb(data@.take(end as int))),
                        ).sessions);
                    }
                },
                Err(_) => {
                    proof {
                        assert(chunk@.len() <= MAX_DATA_SIZE);
                        assert(data@.len() > 0);
                        if cur.owns_context(session_id) {
                            assert(pre.owns_context(session_id));
                            assert(!E::backend().reliable);
                            assert(cur.with_context(session_id, None).sessions =~= pre.with_context(
                                session_id,
                                None,
                            ).sessions);
                            assert(cur.next_session_id == pre.next_session_id);
                            assert(server@ == pre.with_context(session_id, None).after_failure(
                                E::backend(),
                            ));
                        } else {
                            assert(offset == 0);
                            assert(server@ == pre);
                        }
                    }
                    return Err(SpdmHashError::PlatformError);
                },
            }
            offset = end;
        }
        proof {
            assert(data@.take(len as int) =~= data@);
        }
        Ok(())
    }

    /// Finishes the hash in progress and writes it over the front of
    /// `out`. When the call fails, `out` is as it was, and the platform
    /// keeps its session.
    pub fn finalize<E: HashEngine>(&mut self, server: &mut ServerImpl<E>, out: &mut [u8]) -> (r: Result<
        (),
        SpdmHashError,
    >)
        requires
            old(out)@.len() >= old(self).spec_algo().spec_hash_size(),
        ensures
            final(self).spec_algo() == old(self).spec_algo(),
            old(self).session() is None ==> r is Err && final(server)@ == old(server)@,
            old(self).session() matches Some(id) ==> exists|inner: Result<(), DigestError>|
                (r is Ok <==> inner is Ok) && #[trigger] finalize_outcome(
                    old(server)@,
                    id,
                    old(self).spec_algo().spec_algorithm(),
                    E::backend(),
                    final(server)@,
                    inner,
                ),
            r is Ok ==> final(self).session() is None && final(out)@ == session_output(
                old(server)@,
                old(self).session()->Some_0,
            ) + old(out)@.skip(old(self).spec_algo().spec_hash_size() as int),
            r is Err ==> final(self).session() == old(self).session() && final(out)@ == old(out)@,
            old(server)@.wf() ==> final(server)@.wf(),
    {
        let ghost pre = server@;
        let session_id = match self.session_id {
            Some(id) => id,
            None => {
                return Err(SpdmHashError::PlatformError);
            },
        };
        let ghost expected = session_output(pre, session_id);
        match self.algo {
            SpdmHashAlgoType::SHA384 => {
                let finished = server.finalize_sha384(session_id);
                assert(finalize_outcome(
                    pre,
                    session_id,
                    DigestAlgorithm::Sha384,
                    E::backend(),
                    server@,
                    crate::model::status(finished),
                ));
                match finished {
                    Ok(digest) => {
                        let bytes = words_to_be_bytes(digest.as_slice());
                        proof {
                            lemma_be_bytes_of_be_words(expected);
                        }
                        write_prefix(out, bytes.as_slice());
                    },
                    Err(_) => {
                        return Err(SpdmHashError::PlatformError);
                    },
                }
            },
            SpdmHashAlgoType::SHA512 => {
                let finished = server.finalize_sha512(session_id);
                assert(finalize_outcome(
                    pre,
                    session_id,
                    DigestAlgorithm::Sha512,
                    E::backend(),
                    server@,
                    crate::model::status(finished),
                ));
                match finished {
                    Ok(digest) => {
                        let bytes = words_to_be_bytes(digest.as_slice());
                        proof {
                            lemma_be_bytes_of_be_words(expected);
                        }
                        write_prefix(out, bytes.as_slice());
                    },
                    Err(_) => {
                        return Err(SpdmHashError::PlatformError);
                    },
                }
            },
        }
        self.session_id = None;
        Ok(())
    }

    /// Forgets the hash in progress. The server is asked to start the
    /// session over; the session stays in the server's table.
    pub fn reset<E: HashEngine>(&mut self, server: &mut ServerImpl<E>)
        ensures
            final(self).session() is None,
            final(self).spec_algo() == old(self).spec_algo(),
            match old(self).session() {
                None => final(server)@ == old(server)@,
                Some(id) => exists|inner: Result<(), DigestError>| #[trigger]
                    reset_outcome(old(server)@, id, E::backend(), final(server)@, inner),
            },
            old(server)@.wf() ==> final(server)@.wf(),
    {
        let ghost pre = server@;
        match self.session_id {
            Some(session_id) => {
                let answered = server.reset(session_id);
                assert(reset_outcome(pre, session_id, E::backend(), server@, answered));
            },
            None => {
            },
        }
        self.session_id = None;
    }
}

} // verus!
