//! The connection registry: live database connection actors looked up by
//! the name they were connected under.
//!
//! The registry is a concurrent map of the `dashmap` crate from the
//! connection name to the actor's numeric handle; the embedding host
//! resolves the handle to the actor's queue. Registering a name again
//! replaces the entry (last writer wins), it never mutates one in place.

use vstd::prelude::*;

verus! {

/// The entries of the registry map: connection name to actor handle.
pub uninterp spec fn registry_entries(m: dashmap::DashMap<String, u64>) -> Map<Seq<char>, u64>;

/// Relies on `dashmap::DashMap::new`: a fresh map holds no entry.
#[verifier::external_body]
fn registry_new() -> (m: dashmap::DashMap<String, u64>)
    ensures
        registry_entries(m).dom() == Set::<Seq<char>>::empty(),
{
    dashmap::DashMap::new()
}

/// Relies on `dashmap::DashMap::insert`: after the call the name maps to
/// the given handle, replacing any earlier entry.
#[verifier::external_body]
fn registry_insert(m: &mut dashmap::DashMap<String, u64>, name: String, id: u64)
    ensures
        registry_entries(*final(m)) == registry_entries(*old(m)).insert(name@, id),
{
    m.insert(name, id);
}

/// Relies on `dashmap::DashMap::get`: the handle stored under the name,
/// if the name is present.
#[verifier::external_body]
fn registry_get(m: &dashmap::DashMap<String, u64>, name: &String) -> (r: Option<u64>)
    ensures
        r == if registry_entries(*m).dom().contains(name@) {
            Some(registry_entries(*m)[name@])
        } else {
            None
        },
{
    m.get(name).map(|entry| *entry.value())
}

/// The registry of live connection actors, by connection name.
pub struct ActorRegistry {
    map: dashmap::DashMap<String, u64>,
}

impl ActorRegistry {
    /// The current name-to-handle entries.
    pub closed spec fn entries(self) -> Map<Seq<char>, u64> {
        registry_entries(self.map)
    }

    pub fn new() -> (r: ActorRegistry)
        ensures
            r.entries().dom() == Set::<Seq<char>>::empty(),
    {
        ActorRegistry { map: registry_new() }
    }

    /// Publishes a freshly connected actor under its name; a later
    /// connect under the same name replaces the entry.
    pub fn register(&mut self, name: String, id: u64)
        ensures
            final(self).entries() == old(self).entries().insert(name@, id),
    {
        registry_insert(&mut self.map, name, id);
    }

    /// Looks a connection up by name: its handle exactly when the name
    /// was registered, nothing otherwise.
    pub fn find(&self, name: &String) -> (r: Option<u64>)
        ensures
            r == if self.entries().dom().contains(name@) {
                Some(self.entries()[name@])
            } else {
                None
            },
    {
        registry_get(&self.map, name)
    }
}

} // verus!
