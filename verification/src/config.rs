//! The configuration store: a single mutable base-URL string, created once at
//! process start from an environment-supplied value or a fixed default, then
//! read and overwritten through its accessors.
//!
//! Mutual exclusion between concurrent callers is supplied by the embedding
//! runtime (the store is placed under a lock there); the operations here are
//! the critical sections' bodies, each touching the value exactly once.

use vstd::prelude::*;

verus! {

/// The value a freshly initialized store holds: the environment-supplied
/// value when one is present (taken exactly, with no trimming or other
/// transformation), otherwise the given default.
pub open spec fn seed_value(env_value: Option<Seq<char>>, default_value: Seq<char>) -> Seq<char> {
    match env_value {
        Some(v) => v,
        None => default_value,
    }
}

/// What one `set` of `new_value` leaves in the store: the whole new value,
/// independent of what was there before.
pub open spec fn set_outcome(old_value: Seq<char>, new_value: Seq<char>) -> Seq<char> {
    new_value
}

/// The store's value after a sequence of serialized `set` calls (the guarding
/// lock applies concurrent calls in some total order), each overwriting what
/// the previous one left.
pub open spec fn value_after_sets(initial: Seq<char>, writes: Seq<Seq<char>>) -> Seq<char>
    decreases writes.len(),
{
    if writes.len() == 0 {
        initial
    } else {
        set_outcome(value_after_sets(initial, writes.drop_last()), writes.last())
    }
}

/// The single shared mutable holder of the base URL string. The value is
/// stored as given and never validated or parsed.
pub struct ConfigStore {
    base_url: String,
}

impl View for ConfigStore {
    type V = Seq<char>;

    closed spec fn view(&self) -> Seq<char> {
        self.base_url@
    }
}

impl ConfigStore {
    /// Creates the store. `env_value` is the seeding environment variable's
    /// value as the host reported it (`None` when the variable is absent);
    /// absence is not an error, the default is used instead.
    pub fn initialize(env_value: Option<String>, default_value: String) -> (store: ConfigStore)
        ensures
            store@ == seed_value(env_value.deep_view(), default_value@),
    {
        let base_url = match env_value {
            Some(v) => v,
            None => default_value,
        };
        ConfigStore { base_url }
    }

    /// Overwrites the stored value with exactly `url`: the store afterwards
    /// holds the whole new string, never a mixture of old and new.
    pub fn set(&mut self, url: String)
        ensures
            final(self)@ == set_outcome(old(self)@, url@),
    {
        self.base_url = url;
    }

    /// Copies the current value out, unchanged.
    pub fn get(&self) -> (r: String)
        ensures
            r@ == self@,
    {
        self.base_url.clone()
    }
}

/// After a `set` of `v` succeeds, a `get` that follows (with no other write
/// in between) returns exactly `v`: `set` leaves the store's value equal to
/// `v`, and `get` hands that value back unchanged.
pub proof fn lemma_set_then_get(store_after_set: ConfigStore, v: String, got: String)
    requires
        store_after_set@ == v@,
        got@ == store_after_set@,
    ensures
        got@ == v@,
{
}

/// Two `set` calls running concurrently are applied by the guarding lock in
/// one of the two total orders, and either order leaves the store holding
/// exactly one of the two written values in full — never a mixture of the
/// two, and never a third value.
pub proof fn lemma_two_sets_leave_one_value(initial: Seq<char>, v1: Seq<char>, v2: Seq<char>)
    ensures
        value_after_sets(initial, seq![v1, v2]) == v2,
        value_after_sets(initial, seq![v2, v1]) == v1,
{
    assert(seq![v1, v2].last() == v2);
    assert(seq![v2, v1].last() == v1);
}

/// The one failure the command layer can report: the synchronization
/// primitive guarding the store has become unusable (a prior holder
/// terminated abnormally while holding it). Nothing in this library can put
/// the store into that state; the embedding runtime maps its lock's error to
/// this value.
pub enum ConfigError {
    LockUnavailable,
}

impl ConfigError {
    /// The human-readable message surfaced to the invoking UI layer.
    pub fn message(&self) -> (r: &'static str)
        ensures
            r@ == "Failed to lock API config"@,
    {
        match self {
            ConfigError::LockUnavailable => "Failed to lock API config",
        }
    }
}

} // verus!
