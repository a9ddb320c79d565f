//! The session manager as a mathematical object: what its state is, and
//! what each operation may do to it.
//!
//! Every operation of the server is described by a relation between the
//! state before, the inputs, the state after and the result. Where the
//! engine decides whether a step succeeds, the relation admits both
//! outcomes; for an engine that completes every step (`reliable`), only the
//! successful one is left. After a failure the engine is in the pool again
//! exactly when the backend hands it back with its failures.

use vstd::prelude::*;

use crate::algorithm::{DigestAlgorithm, MAX_DATA_SIZE, MAX_SESSIONS};
use crate::engine::{Backend, ContextView};
use crate::error::DigestError;

verus! {

/// One live session.
pub struct SessionView {
    /// The algorithm the session was created for. It never changes.
    pub algorithm: DigestAlgorithm,
    /// The time the session was created at.
    pub created_at: u64,
    /// The engine context, while the session owns it.
    pub context: Option<ContextView>,
}

/// The state of the session manager.
pub struct ServerView {
    /// The live sessions, by id.
    pub sessions: Map<u32, SessionView>,
    /// The id that the next session will get.
    pub next_session_id: u32,
    /// Whether the engine is in the pool, ready to begin a context.
    pub engine_free: bool,
}

/// The id that follows `id`: one more, wrapping to zero after the largest.
pub open spec fn next_id(id: u32) -> u32 {
    if id == u32::MAX {
        0
    } else {
        (id + 1) as u32
    }
}

impl ServerView {
    /// The state of a server that has just been made: no session, the
    /// first id is 1, the engine is free.
    pub open spec fn initial() -> ServerView {
        ServerView { sessions: Map::empty(), next_session_id: 1, engine_free: true }
    }

    /// Whether session `id` is live and owns the engine context.
    pub open spec fn owns_context(self, id: u32) -> bool {
        self.sessions.contains_key(id) && self.sessions[id].context is Some
    }

    /// Whether no further session can be admitted.
    pub open spec fn is_full(self) -> bool {
        self.sessions.len() >= MAX_SESSIONS
    }

    /// What holds of every state the server can be in: the table is
    /// bounded; at most one session owns a context; while one does, the
    /// engine is not free; and a context is of its session's algorithm.
    pub open spec fn wf(self) -> bool {
        &&& self.sessions.dom().finite()
        &&& self.sessions.len() <= MAX_SESSIONS
        &&& forall|id: u32| #[trigger]
            self.owns_context(id) ==> !self.engine_free && self.sessions[id].context->Some_0.algorithm
                == self.sessions[id].algorithm
        &&& forall|a: u32, b: u32| #[trigger]
            self.owns_context(a) && #[trigger] self.owns_context(b) ==> a == b
    }

    /// The state with session `id` put in or replaced.
    pub open spec fn with_session(self, id: u32, session: SessionView) -> ServerView {
        ServerView {
            sessions: self.sessions.insert(id, session),
            next_session_id: self.next_session_id,
            engine_free: self.engine_free,
        }
    }

    /// The state with session `id` taken out.
    pub open spec fn without_session(self, id: u32) -> ServerView {
        ServerView {
            sessions: self.sessions.remove(id),
            next_session_id: self.next_session_id,
            engine_free: self.engine_free,
        }
    }

    /// The state with the context of session `id` replaced.
    pub open spec fn with_context(self, id: u32, context: Option<ContextView>) -> ServerView {
        self.with_session(
            id,
            SessionView {
                algorithm: self.sessions[id].algorithm,
                created_at: self.sessions[id].created_at,
                context,
            },
        )
    }

    /// The state after a step of the engine has failed: the context that
    /// was worked on is gone, and the engine is in the pool exactly when
    /// the backend handed it back.
    pub open spec fn after_failure(self, backend: Backend) -> ServerView {
        ServerView {
            sessions: self.sessions,
            next_session_id: self.next_session_id,
            engine_free: backend.hands_back,
        }
    }
}

/// A result without its value: whether the call succeeded, and if not, why.
pub open spec fn status<T>(r: Result<T, DigestError>) -> Result<(), DigestError> {
    match r {
        Ok(_) => Ok(()),
        Err(e) => Err(e),
    }
}

/// `allocate_session`: a full table refuses; otherwise the next id is
/// issued and a session without a context is recorded under it. A session
/// that was live under that id is replaced, and its context is gone.
pub open spec fn allocate_outcome(
    pre: ServerView,
    algorithm: DigestAlgorithm,
    now: u64,
    post: ServerView,
    r: Result<u32, DigestError>,
) -> bool {
    if pre.is_full() {
        r == Err::<u32, DigestError>(DigestError::TooManySessions) && post == pre
    } else {
        r == Ok::<u32, DigestError>(pre.next_session_id) && post == ServerView {
            sessions: pre.sessions.insert(
                pre.next_session_id,
                SessionView { algorithm, created_at: now, context: None },
            ),
            next_session_id: next_id(pre.next_session_id),
            engine_free: pre.engine_free,
        }
    }
}

/// `init_*`: the key is checked first, then the table and the engine; only
/// then is the engine asked to begin. For a plain digest the key is not
/// looked at.
pub open spec fn init_outcome(
    pre: ServerView,
    algorithm: DigestAlgorithm,
    key: Seq<u8>,
    now: u64,
    backend: Backend,
    post: ServerView,
    r: Result<u32, DigestError>,
) -> bool {
    if !algorithm.key_len_ok(key.len()) {
        r == Err::<u32, DigestError>(DigestError::InvalidKeyLength) && post == pre
    } else if pre.is_full() || !pre.engine_free {
        r == Err::<u32, DigestError>(DigestError::TooManySessions) && post == pre
    } else {
        ||| r == Ok::<u32, DigestError>(pre.next_session_id) && post == ServerView {
            sessions: pre.sessions.insert(
                pre.next_session_id,
                SessionView {
                    algorithm,
                    created_at: now,
                    context: Some(ContextView::initial(algorithm, key)),
                },
            ),
            next_session_id: next_id(pre.next_session_id),
            engine_free: false,
        }
        ||| !backend.reliable && r == Err::<u32, DigestError>(DigestError::HardwareFailure)
            && post == pre.after_failure(backend)
    }
}

/// `update`: the session must be live and own its context, and the data
/// must fit; then the engine folds the data in. When the engine fails, the
/// session stays in the table without a context, and the engine is in the
/// pool again if the backend handed it back.
pub open spec fn update_outcome(
    pre: ServerView,
    id: u32,
    data: Seq<u8>,
    backend: Backend,
    post: ServerView,
    r: Result<(), DigestError>,
) -> bool {
    if !pre.owns_context(id) {
        r == Err::<(), DigestError>(DigestError::InvalidSession) && post == pre
    } else if data.len() > MAX_DATA_SIZE {
        r == Err::<(), DigestError>(DigestError::InvalidInputLength) && post == pre
    } else {
        ||| r == Ok::<(), DigestError>(()) && post == pre.with_context(
            id,
            Some(pre.sessions[id].context->Some_0.absorb(data)),
        )
        ||| !backend.reliable && r == Err::<(), DigestError>(DigestError::HardwareFailure)
            && post == pre.with_context(id, None).after_failure(backend)
    }
}

/// `finalize_*`: an unknown id and a session of another algorithm leave
/// everything as it was. Otherwise the session leaves the table, whatever
/// follows: it fails for want of a context, or the engine finishes the
/// computation and is free again, or the engine fails, and is in the pool
/// again if the backend handed it back.
pub open spec fn finalize_outcome(
    pre: ServerView,
    id: u32,
    algorithm: DigestAlgorithm,
    backend: Backend,
    post: ServerView,
    r: Result<(), DigestError>,
) -> bool {
    if !pre.sessions.contains_key(id) {
        r == Err::<(), DigestError>(DigestError::InvalidSession) && post == pre
    } else if pre.sessions[id].algorithm != algorithm {
        r == Err::<(), DigestError>(DigestError::UnsupportedAlgorithm) && post == pre
    } else if pre.sessions[id].context is None {
        r == Err::<(), DigestError>(DigestError::InvalidSession) && post == pre.without_session(id)
    } else {
        ||| r == Ok::<(), DigestError>(()) && post == ServerView {
            sessions: pre.sessions.remove(id),
            next_session_id: pre.next_session_id,
            engine_free: true,
        }
        ||| !backend.reliable && r == Err::<(), DigestError>(DigestError::HardwareFailure)
            && post == pre.without_session(id).after_failure(backend)
    }
}

/// The bytes that finishing session `id` yields.
pub open spec fn session_output(pre: ServerView, id: u32) -> Seq<u8> {
    pre.sessions[id].context->Some_0.output()
}

/// `reset`: a plain digest session starts over under the same id. Where it
/// owns its context, that context forgets its message. Where it owns none,
/// the session is begun afresh if the engine is in the pool; if the engine
/// is not, the session cannot be revived: it is abandoned and its slot is
/// released. An unknown id and an HMAC session change nothing.
pub open spec fn reset_outcome(
    pre: ServerView,
    id: u32,
    backend: Backend,
    post: ServerView,
    r: Result<(), DigestError>,
) -> bool {
    if !pre.sessions.contains_key(id) {
        r == Err::<(), DigestError>(DigestError::InvalidSession) && post == pre
    } else if pre.sessions[id].algorithm.spec_is_hmac() {
        r == Err::<(), DigestError>(DigestError::UnsupportedAlgorithm) && post == pre
    } else if pre.sessions[id].context is Some {
        r == Ok::<(), DigestError>(()) && post == pre.with_context(
            id,
            Some(ContextView::initial(pre.sessions[id].algorithm, Seq::empty())),
        )
    } else if !pre.engine_free {
        r == Err::<(), DigestError>(DigestError::InvalidSession) && post == pre.without_session(id)
    } else {
        ||| r == Ok::<(), DigestError>(()) && post == ServerView {
            sessions: pre.with_context(
                id,
                Some(ContextView::initial(pre.sessions[id].algorithm, Seq::empty())),
            ).sessions,
            next_session_id: pre.next_session_id,
            engine_free: false,
        }
        ||| !backend.reliable && r == Err::<(), DigestError>(DigestError::HardwareFailure)
            && post == pre.after_failure(backend)
    }
}

/// One-shot operations: the key and the data are checked before the engine
/// is touched. No session is recorded and no id is used up.
pub open spec fn oneshot_outcome(
    pre: ServerView,
    algorithm: DigestAlgorithm,
    key: Seq<u8>,
    data: Seq<u8>,
    backend: Backend,
    post: ServerView,
    r: Result<(), DigestError>,
) -> bool {
    if !algorithm.key_len_ok(key.len()) {
        r == Err::<(), DigestError>(DigestError::InvalidKeyLength) && post == pre
    } else if data.len() > MAX_DATA_SIZE {
        r == Err::<(), DigestError>(DigestError::InvalidInputLength) && post == pre
    } else if !pre.engine_free {
        r == Err::<(), DigestError>(DigestError::TooManySessions) && post == pre
    } else {
        ||| r == Ok::<(), DigestError>(()) && post == pre
        ||| !backend.reliable && r == Err::<(), DigestError>(DigestError::HardwareFailure)
            && post == pre.after_failure(backend)
    }
}

/// The bytes that a one-shot operation yields.
pub open spec fn oneshot_output(algorithm: DigestAlgorithm, key: Seq<u8>, data: Seq<u8>) -> Seq<u8> {
    ContextView::initial(algorithm, key).absorb(data).output()
}

} // verus!
