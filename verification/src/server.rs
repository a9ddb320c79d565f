//! The session manager: it shares one hashing engine among the sessions of
//! many clients, admits sessions up to a fixed number, and moves the
//! engine's context into and out of the session that owns it.

use vstd::prelude::*;

use crate::algorithm::{DigestAlgorithm, MAX_DATA_SIZE, MAX_SESSIONS};
use crate::engine::{ContextView, EngineFailure, HashEngine};
use crate::error::DigestError;
use crate::model::{
    allocate_outcome, finalize_outcome, init_outcome, next_id, oneshot_outcome, oneshot_output,
    reset_outcome, session_output, status, update_outcome, ServerView, SessionView,
};
use crate::output::{be_words, bytes_to_array, words_from_be_bytes};
use crate::session::{SessionRecord, SessionTable};

verus! {

/// The id that is issued after `id`: one more, and zero after the largest.
pub fn following_id(id: u32) -> (next: u32)
    ensures
        next == next_id(id),
{
    id.wrapping_add(1)
}

/// The engine context that is checked out, and the session that owns it.
struct ActiveContext<E: HashEngine> {
    session_id: u32,
    context: E::Context,
}

/// What a caller can learn of a live session.
#[derive(Copy, Clone, Debug, PartialEq, Eq, Structural)]
pub struct Session {
    pub id: u32,
    pub algorithm: DigestAlgorithm,
    pub created_at: u64,
    /// Whether the session owns the engine context at present.
    pub has_context: bool,
}

/// The digest server. It owns the session table and the engine, and hands
/// the engine's one context to one session at a time.
pub struct ServerImpl<E: HashEngine> {
    sessions: SessionTable,
    next_session_id: u32,
    /// The engine while it is in the pool; `None` while a context is
    /// checked out, and for good once a backend failure has lost it.
    hardware: Option<E>,
    /// The context that is checked out, with its owner.
    current: Option<ActiveContext<E>>,
}

impl<E: HashEngine> View for ServerImpl<E> {
    type V = ServerView;

    closed spec fn view(&self) -> ServerView {
        ServerView {
            sessions: Map::new(
                |id: u32| self.sessions@.contains_key(id),
                |id: u32|
                    SessionView {
                        algorithm: self.sessions@[id].algorithm,
                        created_at: self.sessions@[id].created_at,
                        context: self.context_of(id),
                    },
            ),
            next_session_id: self.next_session_id,
            engine_free: self.hardware is Some,
        }
    }
}

impl<E: HashEngine> ServerImpl<E> {
    /// The context that session `id` owns, if it owns one.
    closed spec fn context_of(&self, id: u32) -> Option<ContextView> {
        match self.current {
            Some(active) => if active.session_id == id {
                Some(E::context_view(&active.context))
            } else {
                None
            },
            None => None,
        }
    }

    /// While a context is checked out, the engine is not in the pool, and
    /// the owner is a live session of the context's algorithm.
    #[verifier::type_invariant]
    closed spec fn inv(&self) -> bool {
        self.current matches Some(active) ==> self.hardware is None && self.sessions@.contains_key(
            active.session_id,
        ) && self.sessions@[active.session_id].algorithm == E::context_view(
            &active.context,
        ).algorithm
    }

    /// The invariant of the server, as its view shows it.
    proof fn lemma_view_wf(&self)
        requires
            self.inv(),
            self.sessions.bounded(),
        ensures
            self@.wf(),
            self@.sessions.dom() == self.sessions@.dom(),
    {
        assert(self@.sessions.dom() =~= self.sessions@.dom());
    }

    /// A server with no session, whose first session will get the id 1.
    pub fn new(hardware: E) -> (server: Self)
        ensures
            server@ == ServerView::initial(),
            server@.wf(),
    {
        let server = ServerImpl {
            sessions: SessionTable::new(),
            next_session_id: 1,
            hardware: Some(hardware),
            current: None,
        };
        proof {
            use_type_invariant(&server.sessions);
            server.lemma_view_wf();
            assert(server@.sessions =~= Map::<u32, SessionView>::empty());
        }
        server
    }

    /// Whether session `id` owns the checked-out context.
    fn owns_context(&self, id: u32) -> (owns: bool)
        ensures
            owns == self@.owns_context(id),
            owns == (self.current is Some && self.current->Some_0.session_id == id),
    {
        proof {
            use_type_invariant(self);
        }
        match &self.current {
            Some(active) => active.session_id == id,
            None => false,
        }
    }

    /// Looks a session up.
    pub fn get_session(&self, session_id: u32) -> (r: Result<Session, DigestError>)
        ensures
            match r {
                Ok(s) => self@.sessions.contains_key(session_id) && s.id == session_id
                    && s.algorithm == self@.sessions[session_id].algorithm && s.created_at
                    == self@.sessions[session_id].created_at && s.has_context
                    == self@.sessions[session_id].context is Some,
                Err(e) => !self@.sessions.contains_key(session_id) && e == DigestError::InvalidSession,
            },
    {
        match self.sessions.get(session_id) {
            Some(record) => Ok(
                Session {
                    id: session_id,
                    algorithm: record.algorithm,
                    created_at: record.created_at,
                    has_context: self.owns_context(session_id),
                },
            ),
            None => Err(DigestError::InvalidSession),
        }
    }

    /// The number of live sessions.
    pub fn session_count(&self) -> (n: usize)
        ensures
            n == self@.sessions.len(),
            n <= MAX_SESSIONS,
    {
        proof {
            use_type_invariant(self);
            use_type_invariant(&self.sessions);
            self.lemma_view_wf();
        }
        self.sessions.len()
    }

    /// Whether the engine is in the pool, ready to begin a context.
    pub fn engine_available(&self) -> (free: bool)
        ensures
            free == self@.engine_free,
    {
        self.hardware.is_some()
    }

    /// Allocate a new session for the given algorithm. The session has no
    /// context yet.
    pub fn allocate_session(&mut self, algorithm: DigestAlgorithm, now: u64) -> (r: Result<u32, DigestError>)
        ensures
            allocate_outcome(old(self)@, algorithm, now, final(self)@, r),
            final(self)@.wf(),
    {
        proof {
            use_type_invariant(&*self);
            use_type_invariant(&self.sessions);
            self.lemma_view_wf();
        }
        if self.sessions.is_full() {
            return Err(DigestError::TooManySessions);
        }
        let session_id = self.next_session_id;
        if self.owns_context(session_id) {
            // The id has come round to a session that is still live: the
            // new session takes its place, and its context goes with it.
            self.current = None;
        }
        self.next_session_id = following_id(session_id);
        let admitted = self.sessions.insert(session_id, SessionRecord { algorithm, created_at: now });
        proof {
            use_type_invariant(&*self);
            use_type_invariant(&self.sessions);
            self.lemma_view_wf();
            assert(admitted);
            assert(self@.sessions =~= old(self)@.sessions.insert(
                session_id,
                SessionView { algorithm, created_at: now, context: None },
            ));
        }
        Ok(session_id)
    }

    /// Takes the engine out of the pool, if it is there.
    fn take_engine(&mut self) -> (engine: Option<E>)
        ensures
            engine == old(self).hardware,
            final(self).hardware is None,
            final(self).sessions == old(self).sessions,
            final(self).next_session_id == old(self).next_session_id,
            final(self).current == old(self).current,
    {
        proof {
            use_type_invariant(&*self);
        }
        let mut engine: Option<E> = None;
        core::mem::swap(&mut self.hardware, &mut engine);
        engine
    }

    /// Takes the checked-out context away from its owner.
    fn take_current(&mut self) -> (current: Option<ActiveContext<E>>)
        ensures
            current == old(self).current,
            final(self).current is None,
            final(self).sessions == old(self).sessions,
            final(self).next_session_id == old(self).next_session_id,
            final(self).hardware == old(self).hardware,
    {
        proof {
            use_type_invariant(&*self);
        }
        let mut current: Option<ActiveContext<E>> = None;
        core::mem::swap(&mut self.current, &mut current);
        current
    }

    /// Starts a session of any algorithm. The key is only read for an HMAC.
    pub fn init_session(&mut self, algorithm: DigestAlgorithm, key: &[u8], now: u64) -> (r: Result<
        u32,
        DigestError,
    >)
        ensures
            init_outcome(old(self)@, algorithm, key@, now, E::backend(), final(self)@, r),
            final(self)@.wf(),
    {
        proof {
            use_type_invariant(&*self);
            use_type_invariant(&self.sessions);
            self.lemma_view_wf();
        }
        if !algorithm.accepts_key_len(key.len()) {
            return Err(DigestError::InvalidKeyLength);
        }
        if self.sessions.is_full() {
            return Err(DigestError::TooManySessions);
        }
        let engine = match self.take_engine() {
            Some(engine) => engine,
            None => {
                assert(self@ == old(self)@);
                return Err(DigestError::TooManySessions);
            },
        };
        match engine.begin(algorithm, key) {
            Err(failure) => {
                self.hardware = failure.engine;
                proof {
                    use_type_invariant(&*self);
                    use_type_invariant(&self.sessions);
                    self.lemma_view_wf();
                    assert(self@.sessions =~= old(self)@.sessions);
                }
                Err(DigestError::HardwareFailure)
            },
            Ok(context) => {
                let session_id = self.next_session_id;
                self.next_session_id = following_id(session_id);
                let admitted = self.sessions.insert(session_id, SessionRecord { algorithm, created_at: now });
                assert(admitted);
                self.current = Some(ActiveContext { session_id, context });
                proof {
                    use_type_invariant(&*self);
                    use_type_invariant(&self.sessions);
                    self.lemma_view_wf();
                    assert(self@.sessions =~= old(self)@.sessions.insert(
                        session_id,
                        SessionView {
                            algorithm,
                            created_at: now,
                            context: Some(ContextView::initial(algorithm, key@)),
                        },
                    ));
                }
                Ok(session_id)
            },
        }
    }

    /// Folds `data` into the computation of a session.
    pub fn update(&mut self, session_id: u32, data: &[u8]) -> (r: Result<(), DigestError>)
        ensures
            update_outcome(old(self)@, session_id, data@, E::backend(), final(self)@, r),
            final(self)@.wf(),
    {
        proof {
            use_type_invariant(&*self);
            use_type_invariant(&self.sessions);
            self.lemma_view_wf();
        }
        if self.sessions.get(session_id).is_none() {
            return Err(DigestError::InvalidSession);
        }
        if !self.owns_context(session_id) {
            return Err(DigestError::InvalidSession);
        }
        if data.len() > MAX_DATA_SIZE {
            return Err(DigestError::InvalidInputLength);
        }
        let active = match self.take_current() {
            Some(active) => active,
            None => {
                return Err(DigestError::InvalidSession);
            },
        };
        match E::update(active.context, data) {
            Ok(context) => {
                self.current = Some(ActiveContext { session_id, context });
                proof {
                    use_type_invariant(&*self);
                    use_type_invariant(&self.sessions);
                    self.lemma_view_wf();
                    assert(self@.sessions =~= old(self)@.with_context(
                        session_id,
                        Some(old(self)@.sessions[session_id].context->Some_0.absorb(data@)),
                    ).sessions);
                }
                Ok(())
            },
            Err(failure) => {
                self.hardware = failure.engine;
                proof {
                    use_type_invariant(&*self);
                    use_type_invariant(&self.sessions);
                    self.lemma_view_wf();
                    assert(self@.sessions =~= old(self)@.with_context(session_id, None).sessions);
                }
                Err(DigestError::HardwareFailure)
            },
        }
    }

    /// Finishes the computation of a session that was created for
    /// `algorithm`, and hands out the output bytes.
    pub fn finalize_session(&mut self, session_id: u32, algorithm: DigestAlgorithm) -> (r: Result<
        Vec<u8>,
        DigestError,
    >)
        ensures
            finalize_outcome(old(self)@, session_id, algorithm, E::backend(), final(self)@, status(r)),
            r matches Ok(out) ==> out@ == session_output(old(self)@, session_id) && out@.len()
                == algorithm.spec_output_bytes(),
            final(self)@.wf(),
    {
        proof {
            use_type_invariant(&*self);
            use_type_invariant(&self.sessions);
            self.lemma_view_wf();
        }
        let record = match self.sessions.get(session_id) {
            Some(record) => record,
            None => {
                return Err(DigestError::InvalidSession);
            },
        };
        if record.algorithm != algorithm {
            return Err(DigestError::UnsupportedAlgorithm);
        }
        // From here on the session is gone, whatever happens.
        let context = if self.owns_context(session_id) {
            match self.take_current() {
                Some(active) => Some(active.context),
                None => None,
            }
        } else {
            None
        };
        self.sessions.remove(session_id);
        proof {
            use_type_invariant(&*self);
            use_type_invariant(&self.sessions);
            self.lemma_view_wf();
            assert(self@.sessions =~= old(self)@.sessions.remove(session_id));
        }
        let context = match context {
            Some(context) => context,
            None => {
                return Err(DigestError::InvalidSession);
            },
        };
        match E::finalize(context) {
            Ok((out, engine)) => {
                self.hardware = Some(engine);
                proof {
                    use_type_invariant(&*self);
                    use_type_invariant(&self.sessions);
                    self.lemma_view_wf();
                    assert(self@.sessions =~= old(self)@.sessions.remove(session_id));
                }
                Ok(out)
            },
            Err(failure) => {
                self.hardware = failure.engine;
                proof {
                    use_type_invariant(&*self);
                    use_type_invariant(&self.sessions);
                    self.lemma_view_wf();
                    assert(self@.sessions =~= old(self)@.sessions.remove(session_id));
                }
                Err(DigestError::HardwareFailure)
            },
        }
    }

    /// Starts the computation of a plain digest session over, under the
    /// same id. A session that owns no context is begun afresh where the
    /// engine is in the pool, and gives up its slot where it is not.
    pub fn reset(&mut self, session_id: u32) -> (r: Result<(), DigestError>)
        ensures
            reset_outcome(old(self)@, session_id, E::backend(), final(self)@, r),
            final(self)@.wf(),
    {
        proof {
            use_type_invariant(&*self);
            use_type_invariant(&self.sessions);
            self.lemma_view_wf();
        }
        let record = match self.sessions.get(session_id) {
            Some(record) => record,
            None => {
                return Err(DigestError::InvalidSession);
            },
        };
        if record.algorithm.is_hmac() {
            return Err(DigestError::UnsupportedAlgorithm);
        }
        if self.owns_context(session_id) {
            let active = match self.take_current() {
                Some(active) => active,
                None => {
                    return Err(DigestError::InvalidSession);
                },
            };
            let context = E::reset(active.context);
            self.current = Some(ActiveContext { session_id, context });
            proof {
                use_type_invariant(&*self);
                use_type_invariant(&self.sessions);
                self.lemma_view_wf();
                assert(self@.sessions =~= old(self)@.with_context(
                    session_id,
                    Some(
                        ContextView::initial(old(self)@.sessions[session_id].algorithm, Seq::empty()),
                    ),
                ).sessions);
            }
            return Ok(());
        }
        let engine = match self.take_engine() {
            Some(engine) => engine,
            None => {
                // No engine is there to begin on: the session is abandoned.
                self.sessions.remove(session_id);
                proof {
                    use_type_invariant(&*self);
                    use_type_invariant(&self.sessions);
                    self.lemma_view_wf();
                    assert(self@.sessions =~= old(self)@.sessions.remove(session_id));
                }
                return Err(DigestError::InvalidSession);
            },
        };
        let key: [u8; 0] = [];
        assert(key@ =~= Seq::<u8>::empty());
        match engine.begin(record.algorithm, key.as_slice()) {
            Ok(context) => {
                self.current = Some(ActiveContext { session_id, context });
                proof {
                    use_type_invariant(&*self);
                    use_type_invariant(&self.sessions);
                    self.lemma_view_wf();
                    assert(self@.sessions =~= old(self)@.with_context(
                        session_id,
                        Some(
                            ContextView::initial(
                                old(self)@.sessions[session_id].algorithm,
                                Seq::empty(),
                            ),
                        ),
                    ).sessions);
                }
                Ok(())
            },
            Err(failure) => {
                self.hardware = failure.engine;
                proof {
                    use_type_invariant(&*self);
                    use_type_invariant(&self.sessions);
                    self.lemma_view_wf();
                    assert(self@.sessions =~= old(self)@.sessions);
                }
                Err(DigestError::HardwareFailure)
            },
        }
    }

    /// Computes a digest or a tag in one call, without a session.
    pub fn oneshot(&mut self, algorithm: DigestAlgorithm, key: &[u8], data: &[u8]) -> (r: Result<
        Vec<u8>,
        DigestError,
    >)
        ensures
            oneshot_outcome(old(self)@, algorithm, key@, data@, E::backend(), final(self)@, status(r)),
            r matches Ok(out) ==> out@ == oneshot_output(algorithm, key@, data@) && out@.len()
                == algorithm.spec_output_bytes(),
            final(self)@.wf(),
    {
        proof {
            use_type_invariant(&*self);
            use_type_invariant(&self.sessions);
            self.lemma_view_wf();
        }
        if !algorithm.accepts_key_len(key.len()) {
            return Err(DigestError::InvalidKeyLength);
        }
        if data.len() > MAX_DATA_SIZE {
            return Err(DigestError::InvalidInputLength);
        }
        let engine = match self.take_engine() {
            Some(engine) => engine,
            None => {
                assert(self@ == old(self)@);
                return Err(DigestError::TooManySessions);
            },
        };
        assert(self@.sessions =~= old(self)@.sessions);
        let context = match engine.begin(algorithm, key) {
            Ok(context) => context,
            Err(failure) => {
                return self.engine_failed(failure);
            },
        };
        let context = match E::update(context, data) {
            Ok(context) => context,
            Err(failure) => {
                return self.engine_failed(failure);
            },
        };
        match E::finalize(context) {
            Ok((out, engine)) => {
                self.hardware = Some(engine);
                proof {
                    use_type_invariant(&*self);
                    use_type_invariant(&self.sessions);
                    self.lemma_view_wf();
                    assert(self@.sessions =~= old(self)@.sessions);
                }
                Ok(out)
            },
            Err(failure) => self.engine_failed(failure),
        }
    }

    /// Starts a SHA-256 session.
    pub fn init_sha256(&mut self, now: u64) -> (r: Result<u32, DigestError>)
        ensures
            init_outcome(
                old(self)@,
                DigestAlgorithm::Sha256,
                Seq::empty(),
                now,
                E::backend(),
                final(self)@,
                r,
            ),
            final(self)@.wf(),
    {
        let key: [u8; 0] = [];
        assert(key@ =~= Seq::<u8>::empty());
        self.init_session(DigestAlgorithm::Sha256, key.as_slice(), now)
    }

    /// Starts a SHA-384 session.
    pub fn init_sha384(&mut self, now: u64) -> (r: Result<u32, DigestError>)
        ensures
            init_outcome(
                old(self)@,
                DigestAlgorithm::Sha384,
                Seq::empty(),
                now,
                E::backend(),
                final(self)@,
                r,
            ),
            final(self)@.wf(),
    {
        let key: [u8; 0] = [];
        assert(key@ =~= Seq::<u8>::empty());
        self.init_session(DigestAlgorithm::Sha384, key.as_slice(), now)
    }

    /// Starts a SHA-512 session.
    pub fn init_sha512(&mut self, now: u64) -> (r: Result<u32, DigestError>)
        ensures
            init_outcome(
                old(self)@,
                DigestAlgorithm::Sha512,
                Seq::empty(),
                now,
                E::backend(),
                final(self)@,
                r,
            ),
            final(self)@.wf(),
    {
        let key: [u8; 0] = [];
        assert(key@ =~= Seq::<u8>::empty());
        self.init_session(DigestAlgorithm::Sha512, key.as_slice(), now)
    }

    /// Starts an HMAC-SHA-256 session under `key`, which may be up to 64
    /// bytes long.
    pub fn init_hmac_sha256(&mut self, key: &[u8], now: u64) -> (r: Result<u32, DigestError>)
        ensures
            init_outcome(
                old(self)@,
                DigestAlgorithm::HmacSha256,
                key@,
                now,
                E::backend(),
                final(self)@,
                r,
            ),
            final(self)@.wf(),
    {
        self.init_session(DigestAlgorithm::HmacSha256, key, now)
    }

    /// Starts an HMAC-SHA-384 session under `key`, which may be up to 128
    /// bytes long.
    pub fn init_hmac_sha384(&mut self, key: &[u8], now: u64) -> (r: Result<u32, DigestError>)
        ensures
            init_outcome(
                old(self)@,
                DigestAlgorithm::HmacSha384,
                key@,
                now,
                E::backend(),
                final(self)@,
                r,
            ),
            final(self)@.wf(),
    {
        self.init_session(DigestAlgorithm::HmacSha384, key, now)
    }

    /// Starts an HMAC-SHA-512 session under `key`, which may be up to 128
    /// bytes long.
    pub fn init_hmac_sha512(&mut self, key: &[u8], now: u64) -> (r: Result<u32, DigestError>)
        ensures
            init_outcome(
                old(self)@,
                DigestAlgorithm::HmacSha512,
                key@,
                now,
                E::backend(),
                final(self)@,
                r,
            ),
            final(self)@.wf(),
    {
        self.init_session(DigestAlgorithm::HmacSha512, key, now)
    }

    /// Finishes a SHA-256 session: the digest as 8 words, each packing
    /// four digest bytes, the most significant first.
    pub fn finalize_sha256(&mut self, session_id: u32) -> (r: Result<[u32; 8], DigestError>)
        ensures
            finalize_outcome(
                old(self)@,
                session_id,
                DigestAlgorithm::Sha256,
                E::backend(),
                final(self)@,
                status(r),
            ),
            r matches Ok(digest) ==> digest@ == be_words(session_output(old(self)@, session_id))
                && session_output(old(self)@, session_id).len() == 32,
            final(self)@.wf(),
    {
        match self.finalize_session(session_id, DigestAlgorithm::Sha256) {
            Ok(out) => Ok(words_from_be_bytes::<8>(out.as_slice())),
            Err(e) => Err(e),
        }
    }

    /// Finishes a SHA-384 session: the digest as 12 words, each packing
    /// four digest bytes, the most significant first.
    pub fn finalize_sha384(&mut self, session_id: u32) -> (r: Result<[u32; 12], DigestError>)
        ensures
            finalize_outcome(
                old(self)@,
                session_id,
                DigestAlgorithm::Sha384,
                E::backend(),
                final(self)@,
                status(r),
            ),
            r matches Ok(digest) ==> digest@ == be_words(session_output(old(self)@, session_id))
                && session_output(old(self)@, session_id).len() == 48,
            final(self)@.wf(),
    {
        match self.finalize_session(session_id, DigestAlgorithm::Sha384) {
            Ok(out) => Ok(words_from_be_bytes::<12>(out.as_slice())),
            Err(e) => Err(e),
        }
    }

    /// Finishes a SHA-512 session: the digest as 16 words, each packing
    /// four digest bytes, the most significant first.
    pub fn finalize_sha512(&mut self, session_id: u32) -> (r: Result<[u32; 16], DigestError>)
        ensures
            finalize_outcome(
                old(self)@,
                session_id,
                DigestAlgorithm::Sha512,
                E::backend(),
                final(self)@,
                status(r),
            ),
            r matches Ok(digest) ==> digest@ == be_words(session_output(old(self)@, session_id))
                && session_output(old(self)@, session_id).len() == 64,
            final(self)@.wf(),
    {
        match self.finalize_session(session_id, DigestAlgorithm::Sha512) {
            Ok(out) => Ok(words_from_be_bytes::<16>(out.as_slice())),
            Err(e) => Err(e),
        }
    }

    /// Finishes an HMAC-SHA-256 session: the tag, 32 bytes.
    pub fn finalize_hmac_sha256(&mut self, session_id: u32) -> (r: Result<[u8; 32], DigestError>)
        ensures
            finalize_outcome(
                old(self)@,
                session_id,
                DigestAlgorithm::HmacSha256,
                E::backend(),
                final(self)@,
                status(r),
            ),
            r matches Ok(mac) ==> mac@ == session_output(old(self)@, session_id),
            final(self)@.wf(),
    {
        match self.finalize_session(session_id, DigestAlgorithm::HmacSha256) {
            Ok(out) => Ok(bytes_to_array::<32>(out.as_slice())),
            Err(e) => Err(e),
        }
    }

    /// Finishes an HMAC-SHA-384 session: the tag, 48 bytes.
    pub fn finalize_hmac_sha384(&mut self, session_id: u32) -> (r: Result<[u8; 48], DigestError>)
        ensures
            finalize_outcome(
                old(self)@,
                session_id,
                DigestAlgorithm::HmacSha384,
                E::backend(),
                final(self)@,
                status(r),
            ),
            r matches Ok(mac) ==> mac@ == session_output(old(self)@, session_id),
            final(self)@.wf(),
    {
        match self.finalize_session(session_id, DigestAlgorithm::HmacSha384) {
            Ok(out) => Ok(bytes_to_array::<48>(out.as_slice())),
            Err(e) => Err(e),
        }
    }

    /// Finishes an HMAC-SHA-512 session: the tag, 64 bytes.
    pub fn finalize_hmac_sha512(&mut self, session_id: u32) -> (r: Result<[u8; 64], DigestError>)
        ensures
            finalize_outcome(
                old(self)@,
                session_id,
                DigestAlgorithm::HmacSha512,
                E::backend(),
                final(self)@,
                status(r),
            ),
            r matches Ok(mac) ==> mac@ == session_output(old(self)@, session_id),
            final(self)@.wf(),
    {
        match self.finalize_session(session_id, DigestAlgorithm::HmacSha512) {
            Ok(out) => Ok(bytes_to_array::<64>(out.as_slice())),
            Err(e) => Err(e),
        }
    }

    /// The SHA-256 digest of `data` in one call, as 8 words.
    pub fn digest_oneshot_sha256(&mut self, data: &[u8]) -> (r: Result<[u32; 8], DigestError>)
        ensures
            oneshot_outcome(
                old(self)@,
                DigestAlgorithm::Sha256,
                Seq::empty(),
                data@,
                E::backend(),
                final(self)@,
                status(r),
            ),
            r matches Ok(digest) ==> digest@ == be_words(
                oneshot_output(DigestAlgorithm::Sha256, Seq::empty(), data@),
            ) && oneshot_output(DigestAlgorithm::Sha256, Seq::empty(), data@).len() == 32,
            final(self)@.wf(),
    {
        let key: [u8; 0] = [];
        assert(key@ =~= Seq::<u8>::empty());
        match self.oneshot(DigestAlgorithm::Sha256, key.as_slice(), data) {
            Ok(out) => Ok(words_from_be_bytes::<8>(out.as_slice())),
            Err(e) => Err(e),
        }
    }

    /// The SHA-384 digest of `data` in one call, as 12 words.
    pub fn digest_oneshot_sha384(&mut self, data: &[u8]) -> (r: Result<[u32; 12], DigestError>)
        ensures
            oneshot_outcome(
                old(self)@,
                DigestAlgorithm::Sha384,
                Seq::empty(),
                data@,
                E::backend(),
                final(self)@,
                status(r),
            ),
            r matches Ok(digest) ==> digest@ == be_words(
                oneshot_output(DigestAlgorithm::Sha384, Seq::empty(), data@),
            ) && oneshot_output(DigestAlgorithm::Sha384, Seq::empty(), data@).len() == 48,
            final(self)@.wf(),
    {
        let key: [u8; 0] = [];
        assert(key@ =~= Seq::<u8>::empty());
        match self.oneshot(DigestAlgorithm::Sha384, key.as_slice(), data) {
            Ok(out) => Ok(words_from_be_bytes::<12>(out.as_slice())),
            Err(e) => Err(e),
        }
    }

    /// The SHA-512 digest of `data` in one call, as 16 words.
    pub fn digest_oneshot_sha512(&mut self, data: &[u8]) -> (r: Result<[u32; 16], DigestError>)
        ensures
            oneshot_outcome(
                old(self)@,
                DigestAlgorithm::Sha512,
                Seq::empty(),
                data@,
                E::backend(),
                final(self)@,
                status(r),
            ),
            r matches Ok(digest) ==> digest@ == be_words(
                oneshot_output(DigestAlgorithm::Sha512, Seq::empty(), data@),
            ) && oneshot_output(DigestAlgorithm::Sha512, Seq::empty(), data@).len() == 64,
            final(self)@.wf(),
    {
        let key: [u8; 0] = [];
        assert(key@ =~= Seq::<u8>::empty());
        match self.oneshot(DigestAlgorithm::Sha512, key.as_slice(), data) {
            Ok(out) => Ok(words_from_be_bytes::<16>(out.as_slice())),
            Err(e) => Err(e),
        }
    }

    /// The HMAC-SHA-256 tag of `data` under `key` in one call.
    pub fn hmac_oneshot_sha256(&mut self, key: &[u8], data: &[u8]) -> (r: Result<[u8; 32], DigestError>)
        ensures
            oneshot_outcome(
                old(self)@,
                DigestAlgorithm::HmacSha256,
                key@,
                data@,
                E::backend(),
                final(self)@,
                status(r),
            ),
            r matches Ok(mac) ==> mac@ == oneshot_output(DigestAlgorithm::HmacSha256, key@, data@),
            final(self)@.wf(),
    {
        match self.oneshot(DigestAlgorithm::HmacSha256, key, data) {
            Ok(out) => Ok(bytes_to_array::<32>(out.as_slice())),
            Err(e) => Err(e),
        }
    }

    /// The HMAC-SHA-384 tag of `data` under `key` in one call.
    pub fn hmac_oneshot_sha384(&mut self, key: &[u8], data: &[u8]) -> (r: Result<[u8; 48], DigestError>)
        ensures
            oneshot_outcome(
                old(self)@,
                DigestAlgorithm::HmacSha384,
                key@,
                data@,
                E::backend(),
                final(self)@,
                status(r),
            ),
            r matches Ok(mac) ==> mac@ == oneshot_output(DigestAlgorithm::HmacSha384, key@, data@),
            final(self)@.wf(),
    {
        match self.oneshot(DigestAlgorithm::HmacSha384, key, data) {
            Ok(out) => Ok(bytes_to_array::<48>(out.as_slice())),
            Err(e) => Err(e),
        }
    }

    /// The HMAC-SHA-512 tag of `data` under `key` in one call.
    pub fn hmac_oneshot_sha512(&mut self, key: &[u8], data: &[u8]) -> (r: Result<[u8; 64], DigestError>)
        ensures
            oneshot_outcome(
                old(self)@,
                DigestAlgorithm::HmacSha512,
                key@,
                data@,
                E::backend(),
                final(self)@,
                status(r),
            ),
            r matches Ok(mac) ==> mac@ == oneshot_output(DigestAlgorithm::HmacSha512, key@, data@),
            final(self)@.wf(),
    {
        match self.oneshot(DigestAlgorithm::HmacSha512, key, data) {
            Ok(out) => Ok(bytes_to_array::<64>(out.as_slice())),
            Err(e) => Err(e),
        }
    }

    /// Puts back what a failed step left of the engine, and reports the
    /// failure.
    fn engine_failed(&mut self, failure: EngineFailure<E>) -> (r: Result<Vec<u8>, DigestError>)
        requires
            old(self).current is None,
            failure.engine is Some <==> E::backend().hands_back,
        ensures
            r == Err::<Vec<u8>, DigestError>(DigestError::HardwareFailure),
            final(self)@ == old(self)@.after_failure(E::backend()),
            final(self)@.wf(),
    {
        self.hardware = failure.engine;
        proof {
            use_type_invariant(&*self);
            use_type_invariant(&self.sessions);
            self.lemma_view_wf();
            assert(self@.sessions =~= old(self)@.sessions);
        }
        Err(DigestError::HardwareFailure)
    }
}

} // verus!
