//! The room registry: the concurrent identifier-to-room map through which a
//! room is reachable exactly while its producer connection is alive.
//!
//! Insertion happens once, at producer connect; removal happens once, at
//! producer disconnect; a subscriber's join stands or falls with a lookup
//! here.

use crate::fanout::{spec_recv, SpecRecvOutcome};
use crate::room::Room;
use vstd::prelude::*;

verus! {

#[verifier::external_type_specification]
#[verifier::external_body]
#[verifier::reject_recursive_types(K)]
#[verifier::reject_recursive_types(V)]
#[verifier::reject_recursive_types(S)]
pub struct ExDashMap<K, V, S>(dashmap::DashMap<K, V, S>);

/// What the underlying map holds: its identifier-to-room contents.
pub uninterp spec fn registry_rooms(m: dashmap::DashMap<String, Room>) -> Map<Seq<char>, Room>;

/// A registry with no rooms in it.
pub open spec fn no_rooms() -> Map<Seq<char>, Room> {
    Map::empty()
}

/// The registry of live rooms, keyed by room identifier.
pub struct Registry {
    pub inner: dashmap::DashMap<String, Room>,
}

impl View for Registry {
    type V = Map<Seq<char>, Room>;

    open spec fn view(&self) -> Map<Seq<char>, Room> {
        registry_rooms(self.inner)
    }
}

impl Registry {
    /// Relies on `dashmap::DashMap::new`: a fresh map holds nothing.
    #[verifier::external_body]
    pub fn new() -> (r: Registry)
        ensures
            registry_rooms(r.inner) == no_rooms(),
    {
        Registry { inner: dashmap::DashMap::new() }
    }

    /// Relies on `dashmap::DashMap::insert`: the room is stored under the
    /// identifier, replacing whatever room held it before — the registry
    /// makes no collision check of its own, so a colliding identifier
    /// silently takes the earlier room's entry.
    #[verifier::external_body]
    pub fn insert(&mut self, id: String, room: Room)
        ensures
            registry_rooms(final(self).inner) == registry_rooms(old(self).inner).insert(id@, room),
    {
        self.inner.insert(id, room);
    }

    /// Relies on `dashmap::DashMap::contains_key`: whether a room is
    /// reachable under the identifier.  This is the join gate: a subscriber
    /// naming an identifier not present here is rejected.
    #[verifier::external_body]
    pub fn contains(&self, id: &String) -> (r: bool)
        ensures
            r == registry_rooms(self.inner).contains_key(id@),
    {
        self.inner.contains_key(id)
    }

    /// Relies on `dashmap::DashMap::remove`: the entry leaves the map and
    /// the stored room comes back to the caller; removing an absent
    /// identifier changes nothing and returns nothing.
    #[verifier::external_body]
    pub fn remove(&mut self, id: &String) -> (r: Option<Room>)
        ensures
            registry_rooms(final(self).inner) == registry_rooms(old(self).inner).remove(id@),
            r is Some <==> registry_rooms(old(self).inner).contains_key(id@),
            r matches Some(room) ==> room == registry_rooms(old(self).inner)[id@],
    {
        self.inner.remove(id).map(|kv| kv.1)
    }
}

/// Teardown propagation: when the producer bridge ends, it removes its room
/// from the registry and closes the fan-out — after that, no join under the
/// identifier can reach the room any more, and every subscriber that has
/// drained the log observes closure on its very next receive attempt rather
/// than waiting.
pub proof fn lemma_teardown(
    reg: Map<Seq<char>, Room>,
    id: Seq<char>,
    log: Seq<Seq<u8>>,
    capacity: nat,
    pos: nat,
)
    requires
        pos >= log.len(),
    ensures
        !reg.remove(id).contains_key(id),
        spec_recv(log, capacity, true, pos).0 == SpecRecvOutcome::Closed,
{
}

} // verus!
