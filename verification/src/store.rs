//! The capabilities of the peering sessions that are up, by peer address.

use crate::addr::IpAddress;
use crate::addr::PeerKey;
use crate::capabilities::CapabilityModel;
use crate::capabilities::CapabilitySet;
use vstd::prelude::*;

verus! {

/// The table of sessions: for the address of each peer whose session is up,
/// the capabilities of that session.
///
/// The table is a `hashbrown::HashMap`. Its type is bounded by an allocator
/// trait that cannot be declared to Verus, so the map stays out of Verus's
/// sight, and what it holds goes by [`store_entries`].
#[verifier::external_body]
pub struct CapabilityStore {
    map: hashbrown::HashMap<PeerKey, CapabilitySet>,
}

/// What a table of sessions holds, by the key of the peer address.
pub type Sessions = Map<PeerKey, CapabilityModel>;

/// The entries of a store.
pub uninterp spec fn store_entries(store: CapabilityStore) -> Sessions;

/// The table with no sessions.
pub open spec fn no_sessions() -> Sessions {
    Map::empty()
}

/// `hashbrown::HashMap::new`: an empty map.
#[verifier::external_body]
fn store_new() -> (store: CapabilityStore)
    ensures
        store_entries(store) == no_sessions(),
{
    CapabilityStore { map: hashbrown::HashMap::new() }
}

/// `hashbrown::HashMap::contains_key`: whether the map has an entry for the
/// key.
#[verifier::external_body]
fn store_contains_key(store: &CapabilityStore, key: &PeerKey) -> (found: bool)
    ensures
        found == store_entries(*store).contains_key(*key),
{
    store.map.contains_key(key)
}

/// `hashbrown::HashMap::get`: the value of the entry for the key, where there
/// is one.
#[verifier::external_body]
fn store_get<'a>(store: &'a CapabilityStore, key: &PeerKey) -> (found: Option<&'a CapabilitySet>)
    ensures
        found is Some <==> store_entries(*store).contains_key(*key),
        found matches Some(caps) ==> caps@ == store_entries(*store)[*key],
{
    store.map.get(key)
}

/// `hashbrown::HashMap::insert`: the map gets the entry, in place of the one
/// that it had for the key, if it had one; the other entries stay.
#[verifier::external_body]
fn store_insert(store: &mut CapabilityStore, key: PeerKey, caps: CapabilitySet)
    ensures
        store_entries(*final(store)) == store_entries(*old(store)).insert(key, caps@),
{
    store.map.insert(key, caps);
}

/// `hashbrown::HashMap::remove`: the map loses the entry for the key, if it
/// had one; the other entries stay.
#[verifier::external_body]
fn store_remove(store: &mut CapabilityStore, key: &PeerKey)
    ensures
        store_entries(*final(store)) == store_entries(*old(store)).remove(*key),
{
    store.map.remove(key);
}

/// `hashbrown::HashMap::clone`: a map with a clone of every entry. The clone
/// of a key is the key, and the clone of a set of capabilities has the same
/// view, as `CapabilitySet::clone` states.
#[verifier::external_body]
fn store_clone(store: &CapabilityStore) -> (copy: CapabilityStore)
    ensures
        store_entries(copy) == store_entries(*store),
{
    CapabilityStore { map: store.map.clone() }
}

/// The table once a session with the peer at `key` has come up with the
/// capabilities `caps`: a session that is up already keeps its capabilities.
pub open spec fn recorded(sessions: Sessions, key: PeerKey, caps: CapabilityModel) -> Sessions {
    if sessions.contains_key(key) {
        sessions
    } else {
        sessions.insert(key, caps)
    }
}

/// The table once the session with the peer at `key` has gone down.
pub open spec fn evicted(sessions: Sessions, key: PeerKey) -> Sessions {
    sessions.remove(key)
}

impl View for CapabilityStore {
    type V = Sessions;

    open spec fn view(&self) -> Sessions {
        store_entries(*self)
    }
}

impl Clone for CapabilityStore {
    fn clone(&self) -> (copy: CapabilityStore)
        ensures
            copy@ == self@,
    {
        store_clone(self)
    }
}

impl CapabilityStore {
    /// A table with no sessions.
    pub fn new() -> (store: CapabilityStore)
        ensures
            store@ == no_sessions(),
    {
        store_new()
    }

    /// Whether a session with the peer at `addr` is up.
    pub fn contains(&self, addr: &IpAddress) -> (found: bool)
        ensures
            found == self@.contains_key(addr.key()),
    {
        let key = addr.to_key();
        store_contains_key(self, &key)
    }

    /// Records that a session with the peer at `addr` has come up with the
    /// capabilities `caps`. Where one is up already, nothing changes.
    pub fn record(&mut self, addr: &IpAddress, caps: CapabilitySet)
        ensures
            final(self)@ == recorded(old(self)@, addr.key(), caps@),
    {
        let key = addr.to_key();
        if !store_contains_key(self, &key) {
            store_insert(self, key, caps);
        }
    }

    /// The capabilities of the session with the peer at `addr`, if one is up.
    pub fn lookup(&self, addr: &IpAddress) -> (found: Option<&CapabilitySet>)
        ensures
            found is Some <==> self@.contains_key(addr.key()),
            found matches Some(caps) ==> caps@ == self@[addr.key()],
    {
        let key = addr.to_key();
        store_get(self, &key)
    }

    /// Records that the session with the peer at `addr` has gone down.
    pub fn evict(&mut self, addr: &IpAddress)
        ensures
            final(self)@ == evicted(old(self)@, addr.key()),
    {
        let key = addr.to_key();
        store_remove(self, &key);
    }
}

/// A session is on record from the moment it comes up to the moment it goes
/// down, and at no other time: after `record` the peer has an entry, after
/// `evict` it has none, and neither touches the entry of another peer.
pub proof fn lemma_session_window(
    sessions: Sessions,
    key: PeerKey,
    other: PeerKey,
    caps: CapabilityModel,
)
    requires
        other != key,
    ensures
        recorded(sessions, key, caps).contains_key(key),
        !sessions.contains_key(key) ==> recorded(sessions, key, caps)[key] == caps,
        sessions.contains_key(key) ==> recorded(sessions, key, caps)[key] == sessions[key],
        !evicted(recorded(sessions, key, caps), key).contains_key(key),
        recorded(sessions, key, caps).contains_key(other) == sessions.contains_key(other),
        evicted(sessions, key).contains_key(other) == sessions.contains_key(other),
        !no_sessions().contains_key(key),
{
}

} // verus!
