//! What follows from the contracts of the server's operations.
//!
//! Each law speaks of the relations of `model`, which are what the
//! operations promise: a law about `init_outcome` is a law about every
//! call of `init_sha256` and its siblings.

use vstd::prelude::*;

use crate::algorithm::{DigestAlgorithm, MAX_DATA_SIZE, MAX_SESSIONS};
use crate::engine::{Backend, ContextView};
use crate::error::DigestError;
use crate::model::{
    allocate_outcome, finalize_outcome, init_outcome, next_id, oneshot_outcome, oneshot_output,
    reset_outcome, session_output, update_outcome, ServerView, SessionView,
};
use crate::output::be_words;

verus! {

/// A request to allocate a session: the algorithm, and the time.
pub struct Allocation {
    pub algorithm: DigestAlgorithm,
    pub now: u64,
}

/// The state of a new server after the given allocations, made in order
/// while the table has room.
pub open spec fn after_allocations(requests: Seq<Allocation>) -> ServerView
    decreases requests.len(),
{
    if requests.len() == 0 {
        ServerView::initial()
    } else {
        let pre = after_allocations(requests.drop_last());
        let last = requests.last();
        ServerView {
            sessions: pre.sessions.insert(
                pre.next_session_id,
                SessionView { algorithm: last.algorithm, created_at: last.now, context: None },
            ),
            next_session_id: next_id(pre.next_session_id),
            engine_free: pre.engine_free,
        }
    }
}

/// Up to the capacity, every allocation on a new server succeeds, and the
/// sessions get the ids 1, 2, and so on: after `n` allocations the table
/// holds exactly the ids from 1 to `n`.
pub proof fn lemma_allocations_fill_the_table(requests: Seq<Allocation>)
    requires
        requests.len() <= MAX_SESSIONS,
    ensures
        after_allocations(requests).wf(),
        after_allocations(requests).engine_free,
        after_allocations(requests).next_session_id == requests.len() + 1,
        after_allocations(requests).sessions.len() == requests.len(),
        forall|id: u32|
            after_allocations(requests).sessions.contains_key(id) <==> 1 <= id <= requests.len(),
        requests.len() > 0 ==> allocate_outcome(
            after_allocations(requests.drop_last()),
            requests.last().algorithm,
            requests.last().now,
            after_allocations(requests),
            Ok(requests.len() as u32),
        ),
    decreases requests.len(),
{
    if requests.len() > 0 {
        lemma_allocations_fill_the_table(requests.drop_last());
        let pre = after_allocations(requests.drop_last());
        let post = after_allocations(requests);
        assert(!pre.sessions.contains_key(pre.next_session_id));
        assert(post.sessions.dom() =~= pre.sessions.dom().insert(pre.next_session_id));
        assert forall|id: u32| #[trigger] post.owns_context(id) implies false by {
            if id != pre.next_session_id {
                assert(pre.owns_context(id));
            }
        }
    }
}

/// Capacity: once the maximum number of sessions has been allocated, no
/// session can be started, whatever the algorithm, and nothing changes.
/// (A key that is too long for the algorithm is refused for that reason
/// first; such keys are left out here.)
pub proof fn law_capacity(
    requests: Seq<Allocation>,
    algorithm: DigestAlgorithm,
    key: Seq<u8>,
    now: u64,
    backend: Backend,
    post: ServerView,
    r: Result<u32, DigestError>,
)
    requires
        requests.len() == MAX_SESSIONS,
        algorithm.key_len_ok(key.len()),
        init_outcome(after_allocations(requests), algorithm, key, now, backend, post, r),
    ensures
        r == Err::<u32, DigestError>(DigestError::TooManySessions),
        post == after_allocations(requests),
{
    lemma_allocations_fill_the_table(requests);
}

/// Capacity, of any state: a full table admits no session, neither by
/// `init_*` nor by `allocate_session`.
pub proof fn law_full_table_admits_nothing(
    pre: ServerView,
    algorithm: DigestAlgorithm,
    key: Seq<u8>,
    now: u64,
    backend: Backend,
    post: ServerView,
    r: Result<u32, DigestError>,
)
    requires
        pre.is_full(),
        algorithm.key_len_ok(key.len()) && init_outcome(pre, algorithm, key, now, backend, post, r)
            || allocate_outcome(pre, algorithm, now, post, r),
    ensures
        r == Err::<u32, DigestError>(DigestError::TooManySessions),
        post == pre,
{
}

/// Single-engine exclusivity: while one session owns the engine's context,
/// no other session can be started, even if the table has room, and no
/// one-shot operation can run. Nothing changes.
pub proof fn law_single_engine(
    pre: ServerView,
    owner: u32,
    algorithm: DigestAlgorithm,
    key: Seq<u8>,
    data: Seq<u8>,
    now: u64,
    backend: Backend,
    post: ServerView,
    started: Result<u32, DigestError>,
    post_oneshot: ServerView,
    computed: Result<(), DigestError>,
)
    requires
        pre.wf(),
        pre.owns_context(owner),
        algorithm.key_len_ok(key.len()),
        data.len() <= MAX_DATA_SIZE,
        init_outcome(pre, algorithm, key, now, backend, post, started),
        oneshot_outcome(pre, algorithm, key, data, backend, post_oneshot, computed),
    ensures
        started == Err::<u32, DigestError>(DigestError::TooManySessions),
        post == pre,
        computed == Err::<(), DigestError>(DigestError::TooManySessions),
        post_oneshot == pre,
{
}

/// At most one session owns a context at a time: a session that has just
/// been started is the only one that does.
pub proof fn law_one_context(
    pre: ServerView,
    algorithm: DigestAlgorithm,
    key: Seq<u8>,
    now: u64,
    backend: Backend,
    post: ServerView,
    id: u32,
    other: u32,
)
    requires
        pre.wf(),
        init_outcome(pre, algorithm, key, now, backend, post, Ok(id)),
        post.owns_context(other),
    ensures
        other == id,
        !post.engine_free,
{
    if other != id {
        assert(pre.owns_context(other));
    }
}

/// Round trip: where a one-shot operation and a session that is started,
/// updated once with the same message and finalized all succeed, they
/// yield the same bytes, in whatever states they ran.
pub proof fn law_round_trip(
    algorithm: DigestAlgorithm,
    key: Seq<u8>,
    message: Seq<u8>,
    now: u64,
    backend: Backend,
    t0: ServerView,
    t1: ServerView,
    s0: ServerView,
    s1: ServerView,
    s2: ServerView,
    s3: ServerView,
    id: u32,
)
    requires
        message.len() <= MAX_DATA_SIZE,
        oneshot_outcome(t0, algorithm, key, message, backend, t1, Ok(())),
        init_outcome(s0, algorithm, key, now, backend, s1, Ok(id)),
        update_outcome(s1, id, message, backend, s2, Ok(())),
        finalize_outcome(s2, id, algorithm, backend, s3, Ok(())),
    ensures
        session_output(s2, id) == oneshot_output(algorithm, key, message),
        be_words(session_output(s2, id)) == be_words(oneshot_output(algorithm, key, message)),
        t1 == t0,
{
    assert(s1.sessions[id].context == Some(ContextView::initial(algorithm, key)));
    assert(s1.owns_context(id));
    assert(s2.sessions[id].context == Some(ContextView::initial(algorithm, key).absorb(message)));
}

/// Round trip on an engine that completes every step: from a state with
/// room in the table and the engine free, starting a session, updating it
/// with a message of at most 1024 bytes and finalizing it all succeed, the
/// one-shot operation succeeds too, and both yield the same bytes. The
/// session is gone afterwards and the engine is free again.
pub proof fn law_round_trip_reliable(
    algorithm: DigestAlgorithm,
    key: Seq<u8>,
    message: Seq<u8>,
    now: u64,
    s0: ServerView,
    s1: ServerView,
    s2: ServerView,
    s3: ServerView,
    s4: ServerView,
    computed: Result<(), DigestError>,
    started: Result<u32, DigestError>,
    updated: Result<(), DigestError>,
    finished: Result<(), DigestError>,
    backend: Backend,
)
    requires
        backend.reliable,
        s0.wf(),
        !s0.is_full(),
        s0.engine_free,
        algorithm.key_len_ok(key.len()),
        message.len() <= MAX_DATA_SIZE,
        oneshot_outcome(s0, algorithm, key, message, backend, s1, computed),
        init_outcome(s1, algorithm, key, now, backend, s2, started),
        started is Ok ==> update_outcome(s2, started->Ok_0, message, backend, s3, updated),
        started is Ok ==> finalize_outcome(s3, started->Ok_0, algorithm, backend, s4, finished),
    ensures
        computed is Ok,
        started == Ok::<u32, DigestError>(s0.next_session_id),
        updated is Ok,
        finished is Ok,
        session_output(s3, started->Ok_0) == oneshot_output(algorithm, key, message),
        !s4.sessions.contains_key(started->Ok_0),
        s4.engine_free,
{
    let id = s0.next_session_id;
    assert(s2.sessions[id].context == Some(ContextView::initial(algorithm, key)));
    assert(s2.owns_context(id));
    assert(s3.sessions[id].context == Some(ContextView::initial(algorithm, key).absorb(message)));
    assert(s3.sessions.contains_key(id));
}

/// HMAC key bound, the limits: a key is within bound for HMAC-SHA-256 when
/// it is at most 64 bytes long, for HMAC-SHA-384 and HMAC-SHA-512 when it
/// is at most 128 bytes long. A plain digest takes no key and has no bound.
pub proof fn law_key_limits(len: nat)
    ensures
        DigestAlgorithm::HmacSha256.key_len_ok(len) <==> len <= 64,
        DigestAlgorithm::HmacSha384.key_len_ok(len) <==> len <= 128,
        DigestAlgorithm::HmacSha512.key_len_ok(len) <==> len <= 128,
        DigestAlgorithm::Sha256.key_len_ok(len),
        DigestAlgorithm::Sha384.key_len_ok(len),
        DigestAlgorithm::Sha512.key_len_ok(len),
{
}

/// HMAC key bound, too long: a key beyond the bound is refused with
/// `InvalidKeyLength` in every state, by `init_hmac_*` and by
/// `hmac_oneshot_*`, and nothing changes.
pub proof fn law_key_too_long(
    pre: ServerView,
    algorithm: DigestAlgorithm,
    key: Seq<u8>,
    data: Seq<u8>,
    now: u64,
    backend: Backend,
    post: ServerView,
    started: Result<u32, DigestError>,
    post_oneshot: ServerView,
    computed: Result<(), DigestError>,
)
    requires
        !algorithm.key_len_ok(key.len()),
        init_outcome(pre, algorithm, key, now, backend, post, started),
        oneshot_outcome(pre, algorithm, key, data, backend, post_oneshot, computed),
    ensures
        started == Err::<u32, DigestError>(DigestError::InvalidKeyLength),
        post == pre,
        computed == Err::<(), DigestError>(DigestError::InvalidKeyLength),
        post_oneshot == pre,
{
}

/// HMAC key bound, within: with room in the table and the engine free, a
/// key within the bound starts a session, unless the engine fails, which an
/// engine that completes every step does not. The session gets the next
/// id, and owns a context that has absorbed nothing.
pub proof fn law_key_accepted(
    pre: ServerView,
    algorithm: DigestAlgorithm,
    key: Seq<u8>,
    now: u64,
    backend: Backend,
    post: ServerView,
    r: Result<u32, DigestError>,
)
    requires
        pre.wf(),
        !pre.is_full(),
        pre.engine_free,
        algorithm.key_len_ok(key.len()),
        init_outcome(pre, algorithm, key, now, backend, post, r),
    ensures
        r == Ok::<u32, DigestError>(pre.next_session_id) || r == Err::<u32, DigestError>(
            DigestError::HardwareFailure,
        ),
        backend.reliable ==> r is Ok,
        r is Ok ==> post.owns_context(pre.next_session_id) && post.sessions[pre.next_session_id]
            == (SessionView {
            algorithm,
            created_at: now,
            context: Some(ContextView::initial(algorithm, key)),
        }),
        post.wf(),
{
    if r is Ok {
        let id = pre.next_session_id;
        assert(post.sessions.dom() =~= pre.sessions.dom().insert(id));
        assert forall|other: u32| #[trigger] post.owns_context(other) implies other == id by {
            if other != id {
                assert(pre.owns_context(other));
            }
        }
    } else {
        assert forall|other: u32| #[trigger] post.owns_context(other) implies false by {
            assert(pre.owns_context(other));
        }
    }
}

/// Session identity: two live sessions that differ in anything differ in
/// their ids.
pub proof fn law_live_ids_differ(state: ServerView, a: u32, b: u32)
    requires
        state.sessions.contains_key(a),
        state.sessions.contains_key(b),
        state.sessions[a] != state.sessions[b],
    ensures
        a != b,
{
}

/// Session identity: once a session has been finalized, whether that
/// succeeded or the engine failed, its id names no session: `update`,
/// `reset` and every `finalize_*` on it report `InvalidSession` and change
/// nothing.
pub proof fn law_finalized_id_is_invalid(
    pre: ServerView,
    id: u32,
    algorithm: DigestAlgorithm,
    backend: Backend,
    post: ServerView,
    finished: Result<(), DigestError>,
    data: Seq<u8>,
    again: DigestAlgorithm,
    after_update: ServerView,
    updated: Result<(), DigestError>,
    after_finalize: ServerView,
    finalized: Result<(), DigestError>,
    after_reset: ServerView,
    was_reset: Result<(), DigestError>,
)
    requires
        pre.owns_context(id),
        pre.sessions[id].algorithm == algorithm,
        finalize_outcome(pre, id, algorithm, backend, post, finished),
        update_outcome(post, id, data, backend, after_update, updated),
        finalize_outcome(post, id, again, backend, after_finalize, finalized),
        reset_outcome(post, id, backend, after_reset, was_reset),
    ensures
        !post.sessions.contains_key(id),
        updated == Err::<(), DigestError>(DigestError::InvalidSession),
        after_update == post,
        finalized == Err::<(), DigestError>(DigestError::InvalidSession),
        after_finalize == post,
        was_reset == Err::<(), DigestError>(DigestError::InvalidSession),
        after_reset == post,
{
}

/// Algorithm binding: a session is finalized only by the `finalize_*` of
/// the algorithm it was started for. Any other reports
/// `UnsupportedAlgorithm` and leaves the session, with its context, as it
/// was.
pub proof fn law_algorithm_binding(
    s0: ServerView,
    started_for: DigestAlgorithm,
    key: Seq<u8>,
    now: u64,
    backend: Backend,
    s1: ServerView,
    id: u32,
    finalized_as: DigestAlgorithm,
    s2: ServerView,
    r: Result<(), DigestError>,
)
    requires
        init_outcome(s0, started_for, key, now, backend, s1, Ok(id)),
        finalized_as != started_for,
        finalize_outcome(s1, id, finalized_as, backend, s2, r),
    ensures
        r == Err::<(), DigestError>(DigestError::UnsupportedAlgorithm),
        s2 == s1,
        s2.owns_context(id),
        s2.sessions[id].algorithm == started_for,
{
}

/// Algorithm binding, of any live session: the algorithm of a session
/// never changes. `update` keeps the session and its algorithm; `reset`
/// keeps the algorithm wherever it keeps the session.
pub proof fn law_algorithm_is_kept(
    pre: ServerView,
    id: u32,
    data: Seq<u8>,
    backend: Backend,
    after_update: ServerView,
    updated: Result<(), DigestError>,
    after_reset: ServerView,
    was_reset: Result<(), DigestError>,
)
    requires
        pre.sessions.contains_key(id),
        update_outcome(pre, id, data, backend, after_update, updated),
        reset_outcome(pre, id, backend, after_reset, was_reset),
    ensures
        after_update.sessions.contains_key(id),
        after_update.sessions[id].algorithm == pre.sessions[id].algorithm,
        after_update.sessions[id].created_at == pre.sessions[id].created_at,
        after_reset.sessions.contains_key(id) ==> after_reset.sessions[id].algorithm
            == pre.sessions[id].algorithm && after_reset.sessions[id].created_at
            == pre.sessions[id].created_at,
{
}

/// The invariants of the server hold after `allocate_session` if they held
/// before: the table stays within its bound, and no second context comes
/// into being.
pub proof fn law_allocate_keeps_invariants(
    pre: ServerView,
    algorithm: DigestAlgorithm,
    now: u64,
    post: ServerView,
    r: Result<u32, DigestError>,
)
    requires
        pre.wf(),
        allocate_outcome(pre, algorithm, now, post, r),
    ensures
        post.wf(),
{
    if r is Ok {
        let id = pre.next_session_id;
        assert(post.sessions.dom() =~= pre.sessions.dom().insert(id));
        assert forall|other: u32| #[trigger] post.owns_context(other) implies pre.owns_context(
            other,
        ) && other != id by {}
        assert forall|a: u32, b: u32| #[trigger]
            post.owns_context(a) && #[trigger] post.owns_context(b) implies a == b by {
            assert(pre.owns_context(a) && pre.owns_context(b));
        }
    }
}

/// The invariants of the server hold after `init_*` if they held before.
pub proof fn law_init_keeps_invariants(
    pre: ServerView,
    algorithm: DigestAlgorithm,
    key: Seq<u8>,
    now: u64,
    backend: Backend,
    post: ServerView,
    r: Result<u32, DigestError>,
)
    requires
        pre.wf(),
        init_outcome(pre, algorithm, key, now, backend, post, r),
    ensures
        post.wf(),
{
    if r is Ok {
        law_key_accepted(pre, algorithm, key, now, backend, post, r);
    } else if post != pre {
        assert forall|other: u32| #[trigger] post.owns_context(other) implies false by {
            assert(pre.owns_context(other));
        }
    }
}

/// The invariants of the server hold after `update` if they held before.
pub proof fn law_update_keeps_invariants(
    pre: ServerView,
    id: u32,
    data: Seq<u8>,
    backend: Backend,
    post: ServerView,
    r: Result<(), DigestError>,
)
    requires
        pre.wf(),
        update_outcome(pre, id, data, backend, post, r),
    ensures
        post.wf(),
{
    if post != pre {
        assert(pre.owns_context(id));
        assert(post.sessions.dom() =~= pre.sessions.dom());
        assert forall|other: u32| #[trigger] post.owns_context(other) implies other == id
            && !post.engine_free && post.sessions[other].context->Some_0.algorithm
            == post.sessions[other].algorithm by {
            if other != id {
                assert(pre.owns_context(other));
            }
        }
    }
}

/// The invariants of the server hold after `finalize_*` if they held
/// before.
pub proof fn law_finalize_keeps_invariants(
    pre: ServerView,
    id: u32,
    algorithm: DigestAlgorithm,
    backend: Backend,
    post: ServerView,
    r: Result<(), DigestError>,
)
    requires
        pre.wf(),
        finalize_outcome(pre, id, algorithm, backend, post, r),
    ensures
        post.wf(),
{
    if post != pre {
        assert(post.sessions.dom() =~= pre.sessions.dom().remove(id));
        assert forall|other: u32| #[trigger] post.owns_context(other) implies pre.owns_context(
            other,
        ) && other != id by {}
        assert forall|other: u32| #[trigger] post.owns_context(other) implies !post.engine_free
            && post.sessions[other].context->Some_0.algorithm
            == post.sessions[other].algorithm by {
            assert(pre.owns_context(other));
            if pre.owns_context(id) {
                assert(other == id);
            } else {
                assert(post.engine_free == pre.engine_free);
            }
        }
        assert forall|a: u32, b: u32| #[trigger]
            post.owns_context(a) && #[trigger] post.owns_context(b) implies a == b by {
            assert(pre.owns_context(a) && pre.owns_context(b));
        }
    }
}

/// The invariants of the server hold after `reset` if they held before.
pub proof fn law_reset_keeps_invariants(
    pre: ServerView,
    id: u32,
    backend: Backend,
    post: ServerView,
    r: Result<(), DigestError>,
)
    requires
        pre.wf(),
        reset_outcome(pre, id, backend, post, r),
    ensures
        post.wf(),
{
    if post != pre {
        if pre.owns_context(id) {
            assert(post.sessions.dom() =~= pre.sessions.dom());
            assert forall|other: u32| #[trigger] post.owns_context(other) implies other == id by {
                if other != id {
                    assert(pre.owns_context(other));
                }
            }
        } else if !pre.engine_free {
            assert(post.sessions.dom() =~= pre.sessions.dom().remove(id));
            assert forall|other: u32| #[trigger] post.owns_context(other) implies pre.owns_context(
                other,
            ) by {}
            assert forall|a: u32, b: u32| #[trigger]
                post.owns_context(a) && #[trigger] post.owns_context(b) implies a == b by {
                assert(pre.owns_context(a) && pre.owns_context(b));
            }
        } else if r is Ok {
            assert(post.sessions.dom() =~= pre.sessions.dom());
            assert forall|other: u32| #[trigger] post.owns_context(other) implies other == id by {
                if other != id {
                    assert(pre.owns_context(other));
                }
            }
        } else {
            assert forall|other: u32| #[trigger] post.owns_context(other) implies false by {
                assert(pre.owns_context(other));
            }
        }
    }
}

/// A session without a context does not outlast a `reset`: either it is
/// begun afresh, with a context that has absorbed nothing, or it is gone
/// from the table and its id names no session. It is begun afresh exactly
/// when the engine is in the pool and does not fail; it is gone exactly
/// when the engine is not in the pool. (An HMAC session is not reset at
/// all; it leaves through its `finalize_hmac_*`.)
pub proof fn law_reset_revives_or_releases(
    pre: ServerView,
    id: u32,
    backend: Backend,
    post: ServerView,
    r: Result<(), DigestError>,
)
    requires
        pre.wf(),
        pre.sessions.contains_key(id),
        !pre.sessions[id].algorithm.spec_is_hmac(),
        pre.sessions[id].context is None,
        reset_outcome(pre, id, backend, post, r),
    ensures
        r is Ok <==> post.owns_context(id),
        r is Ok ==> pre.engine_free && post.sessions[id] == (SessionView {
            algorithm: pre.sessions[id].algorithm,
            created_at: pre.sessions[id].created_at,
            context: Some(ContextView::initial(pre.sessions[id].algorithm, Seq::empty())),
        }),
        !pre.engine_free <==> !post.sessions.contains_key(id),
        !pre.engine_free ==> r == Err::<(), DigestError>(DigestError::InvalidSession) && post.sessions.len()
            == pre.sessions.len() - 1,
        pre.engine_free && backend.reliable ==> r is Ok,
{
}

/// The engine after a failure: whenever an operation reports
/// `HardwareFailure`, the engine is in the pool afterwards exactly when the
/// backend hands it back with its failures, and no session owns a context.
pub proof fn law_engine_after_failure(
    pre: ServerView,
    id: u32,
    algorithm: DigestAlgorithm,
    key: Seq<u8>,
    data: Seq<u8>,
    now: u64,
    backend: Backend,
    post: ServerView,
    started: Result<u32, DigestError>,
    other: Result<(), DigestError>,
    probe: u32,
)
    requires
        pre.wf(),
        started == Err::<u32, DigestError>(DigestError::HardwareFailure) && init_outcome(
            pre,
            algorithm,
            key,
            now,
            backend,
            post,
            started,
        ) || other == Err::<(), DigestError>(DigestError::HardwareFailure) && (update_outcome(
            pre,
            id,
            data,
            backend,
            post,
            other,
        ) || finalize_outcome(pre, id, algorithm, backend, post, other) || reset_outcome(
            pre,
            id,
            backend,
            post,
            other,
        ) || oneshot_outcome(pre, algorithm, key, data, backend, post, other)),
    ensures
        !backend.reliable,
        post.engine_free == backend.hands_back,
        !post.owns_context(probe),
{
    if post.owns_context(probe) {
        assert(pre.owns_context(probe));
    }
}

/// The invariants of the server hold after a one-shot operation if they
/// held before.
pub proof fn law_oneshot_keeps_invariants(
    pre: ServerView,
    algorithm: DigestAlgorithm,
    key: Seq<u8>,
    data: Seq<u8>,
    backend: Backend,
    post: ServerView,
    r: Result<(), DigestError>,
)
    requires
        pre.wf(),
        oneshot_outcome(pre, algorithm, key, data, backend, post, r),
    ensures
        post.wf(),
{
    if post != pre {
        assert forall|other: u32| #[trigger] post.owns_context(other) implies false by {
            assert(pre.owns_context(other));
        }
    }
}

/// A failed request leaves a session either as it was or gone: after
/// `update` fails the session is still there, after `finalize_*` fails it
/// is there exactly when the failure was a mismatch of algorithm.
pub proof fn law_failure_leaves_no_half_session(
    pre: ServerView,
    id: u32,
    data: Seq<u8>,
    algorithm: DigestAlgorithm,
    backend: Backend,
    after_update: ServerView,
    updated: Result<(), DigestError>,
    after_finalize: ServerView,
    finalized: Result<(), DigestError>,
)
    requires
        pre.sessions.contains_key(id),
        update_outcome(pre, id, data, backend, after_update, updated),
        finalize_outcome(pre, id, algorithm, backend, after_finalize, finalized),
    ensures
        after_update.sessions.contains_key(id),
        after_finalize.sessions.contains_key(id) <==> finalized == Err::<(), DigestError>(
            DigestError::UnsupportedAlgorithm,
        ),
        after_finalize.sessions.contains_key(id) ==> after_finalize == pre,
        forall|other: u32|
            other != id ==> (after_finalize.sessions.contains_key(other)
                <==> pre.sessions.contains_key(other)),
        forall|other: u32|
            other != id ==> (after_update.sessions.contains_key(other) <==> pre.sessions.contains_key(
                other,
            )),
{
}

} // verus!
