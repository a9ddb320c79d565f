//! The bounded table of live sessions.

use vstd::prelude::*;

use crate::algorithm::{DigestAlgorithm, MAX_SESSIONS};

verus! {

#[verifier::external_type_specification]
#[verifier::external_body]
pub struct ExFnvHasher(hash32::FnvHasher);

#[verifier::external_type_specification]
#[verifier::external_body]
#[verifier::reject_recursive_types(H)]
pub struct ExBuildHasherDefault<H>(hash32::BuildHasherDefault<H>);

#[verifier::external_type_specification]
#[verifier::external_body]
#[verifier::reject_recursive_types(K)]
#[verifier::reject_recursive_types(V)]
#[verifier::reject_recursive_types(S)]
pub struct ExIndexMap<K, V, S, const N: usize>(heapless::IndexMap<K, V, S, N>);

/// What the table keeps of a session: the algorithm it is bound to, and the
/// time it was created at.
#[derive(Copy, Clone, Debug, PartialEq, Eq, Structural)]
pub struct SessionRecord {
    pub algorithm: DigestAlgorithm,
    pub created_at: u64,
}

pub type SessionMap = heapless::FnvIndexMap<u32, SessionRecord, MAX_SESSIONS>;

/// The records a map holds, by session id.
pub uninterp spec fn session_map_contents(m: SessionMap) -> Map<u32, SessionRecord>;

/// `heapless::IndexMap::new`: an empty map.
#[verifier::external_body]
fn session_map_new() -> (m: SessionMap)
    ensures
        session_map_contents(m) == (Map::<u32, SessionRecord>::empty()),
{
    heapless::FnvIndexMap::new()
}

/// `heapless::IndexMap::len`: the number of records held, which the
/// capacity bounds.
#[verifier::external_body]
fn session_map_len(m: &SessionMap) -> (n: usize)
    ensures
        n == session_map_contents(*m).len(),
        n <= MAX_SESSIONS,
{
    m.len()
}

/// `heapless::IndexMap::get`: a copy of the record under `id`, if there is one.
#[verifier::external_body]
fn session_map_get(m: &SessionMap, id: u32) -> (r: Option<SessionRecord>)
    ensures
        r is Some <==> session_map_contents(*m).contains_key(id),
        r is Some ==> r->Some_0 == session_map_contents(*m)[id],
{
    m.get(&id).copied()
}

/// `heapless::IndexMap::insert`: a record under an id that is present
/// replaces the old one, which is handed back; a record under a new id is
/// added while there is room; in a full map a new id is refused, the pair
/// comes back and the map stays as it was.
#[verifier::external_body]
fn session_map_insert(m: &mut SessionMap, id: u32, record: SessionRecord) -> (r: Result<
    Option<SessionRecord>,
    (u32, SessionRecord),
>)
    ensures
        r is Err <==> !session_map_contents(*old(m)).contains_key(id) && session_map_contents(
            *old(m),
        ).len() >= MAX_SESSIONS,
        r is Err ==> r->Err_0 == (id, record) && session_map_contents(*final(m))
            == session_map_contents(*old(m)),
        r is Ok ==> session_map_contents(*final(m)) == session_map_contents(*old(m)).insert(
            id,
            record,
        ),
        r is Ok ==> (r->Ok_0 is Some <==> session_map_contents(*old(m)).contains_key(id)),
        r is Ok && r->Ok_0 is Some ==> r->Ok_0->Some_0 == session_map_contents(*old(m))[id],
    no_unwind
{
    m.insert(id, record)
}

/// `heapless::IndexMap::remove`: the record under `id` leaves the map and
/// is handed back, if there is one.
#[verifier::external_body]
fn session_map_remove(m: &mut SessionMap, id: u32) -> (r: Option<SessionRecord>)
    ensures
        r is Some <==> session_map_contents(*old(m)).contains_key(id),
        r is Some ==> r->Some_0 == session_map_contents(*old(m))[id],
        session_map_contents(*final(m)) == session_map_contents(*old(m)).remove(id),
    no_unwind
{
    m.remove(&id)
}

/// The live sessions, by id. At most `MAX_SESSIONS` are held at a time.
pub struct SessionTable {
    map: SessionMap,
}

impl View for SessionTable {
    type V = Map<u32, SessionRecord>;

    closed spec fn view(&self) -> Map<u32, SessionRecord> {
        session_map_contents(self.map)
    }
}

impl SessionTable {
    /// The table never holds more than `MAX_SESSIONS` records.
    #[verifier::type_invariant]
    pub open spec fn bounded(&self) -> bool {
        self@.dom().finite() && self@.len() <= MAX_SESSIONS
    }

    /// An empty table.
    pub fn new() -> (table: SessionTable)
        ensures
            table@ == Map::<u32, SessionRecord>::empty(),
    {
        SessionTable { map: session_map_new() }
    }

    /// The number of live sessions.
    pub fn len(&self) -> (n: usize)
        ensures
            self@.dom().finite(),
            n == self@.len(),
            n <= MAX_SESSIONS,
    {
        proof {
            use_type_invariant(self);
        }
        session_map_len(&self.map)
    }

    /// Whether no further session can be admitted.
    pub fn is_full(&self) -> (full: bool)
        ensures
            self@.dom().finite(),
            self@.len() <= MAX_SESSIONS,
            full == (self@.len() >= MAX_SESSIONS),
    {
        proof {
            use_type_invariant(self);
        }
        session_map_len(&self.map) >= MAX_SESSIONS
    }

    /// The record of a session, if it is live.
    pub fn get(&self, id: u32) -> (r: Option<SessionRecord>)
        ensures
            r == (if self@.contains_key(id) {
                Some(self@[id])
            } else {
                None
            }),
    {
        session_map_get(&self.map, id)
    }

    /// Puts a record under `id`. A record that was there is replaced. A new
    /// id is refused when the table is full, and the table stays as it was.
    pub fn insert(&mut self, id: u32, record: SessionRecord) -> (admitted: bool)
        ensures
            admitted == (old(self)@.contains_key(id) || old(self)@.len() < MAX_SESSIONS),
            admitted ==> final(self)@ == old(self)@.insert(id, record),
            !admitted ==> final(self)@ == old(self)@,
        no_unwind
    {
        proof {
            use_type_invariant(&*self);
        }
        let ghost before = session_map_contents(self.map);
        let r = session_map_insert(&mut self.map, id, record);
        proof {
            if r is Ok {
                assert(session_map_contents(self.map) == before.insert(id, record));
                if before.contains_key(id) {
                    assert(before.insert(id, record).dom() =~= before.dom());
                }
            }
        }
        match r {
            Ok(_) => true,
            Err(_) => false,
        }
    }

    /// Takes the record under `id` out of the table, if there is one.
    pub fn remove(&mut self, id: u32) -> (r: Option<SessionRecord>)
        ensures
            r == (if old(self)@.contains_key(id) {
                Some(old(self)@[id])
            } else {
                None
            }),
            final(self)@ == old(self)@.remove(id),
        no_unwind
    {
        proof {
            use_type_invariant(&*self);
        }
        session_map_remove(&mut self.map, id)
    }
}

} // verus!
