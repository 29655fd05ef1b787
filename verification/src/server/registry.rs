//! A registry of providers, keyed by text.
//!
//! Keys are compared character by character.  A key occurs at most once:
//! registering under a key that is taken replaces the provider that was
//! there, and the key keeps its place.

use vstd::prelude::*;

verus! {

/// The place of `key` among `entries`, if it has one.
pub open spec fn spec_position<P>(entries: Seq<(Seq<char>, P)>, key: Seq<char>) -> Option<int>
    decreases entries.len(),
{
    if entries.len() == 0 {
        None
    } else if entries.last().0 == key {
        Some(entries.len() - 1)
    } else {
        spec_position(entries.drop_last(), key)
    }
}

/// `entries` after `provider` was registered under `key`: the last write
/// wins.
pub open spec fn spec_register<P>(
    entries: Seq<(Seq<char>, P)>,
    key: Seq<char>,
    provider: P,
) -> Seq<(Seq<char>, P)> {
    match spec_position(entries, key) {
        Some(i) => entries.update(i, (key, provider)),
        None => entries.push((key, provider)),
    }
}

/// The provider that `key` leads to among `entries`, if it leads to one.
pub open spec fn spec_provider<P>(entries: Seq<(Seq<char>, P)>, key: Seq<char>) -> Option<P> {
    match spec_position(entries, key) {
        Some(i) => Some(entries[i].1),
        None => None,
    }
}

/// The keys of `entries`, in their order.
pub open spec fn spec_keys<P>(entries: Seq<(Seq<char>, P)>) -> Seq<Seq<char>> {
    Seq::new(entries.len(), |i: int| entries[i].0)
}

/// No key occurs twice among `entries`.
pub open spec fn distinct_keys<P>(entries: Seq<(Seq<char>, P)>) -> bool {
    forall|i: int, j: int|
        0 <= i < entries.len() && 0 <= j < entries.len() && i != j ==> entries[i].0
            != entries[j].0
}

/// What [`spec_position`] finds is a place where the key stands, and it
/// finds a place whenever the key stands somewhere.
pub proof fn lemma_position<P>(entries: Seq<(Seq<char>, P)>, key: Seq<char>)
    ensures
        match spec_position(entries, key) {
            Some(i) => 0 <= i < entries.len() && entries[i].0 == key,
            None => forall|j: int| 0 <= j < entries.len() ==> entries[j].0 != key,
        },
    decreases entries.len(),
{
    if entries.len() > 0 && entries.last().0 != key {
        let rest = entries.drop_last();
        lemma_position(rest, key);
        assert forall|j: int| 0 <= j < rest.len() implies rest[j] == entries[j] by {}
    }
}

/// Where keys are distinct, the place of a key is the one place where it
/// stands.
pub proof fn lemma_position_unique<P>(entries: Seq<(Seq<char>, P)>, key: Seq<char>, i: int)
    requires
        distinct_keys(entries),
        0 <= i < entries.len(),
        entries[i].0 == key,
    ensures
        spec_position(entries, key) == Some(i),
{
    lemma_position(entries, key);
}

/// Registering keeps the keys distinct.
pub proof fn lemma_register_distinct<P>(entries: Seq<(Seq<char>, P)>, key: Seq<char>, provider: P)
    requires
        distinct_keys(entries),
    ensures
        distinct_keys(spec_register(entries, key, provider)),
{
    lemma_position(entries, key);
}

/// After a registration the key leads to the new provider, and every other
/// key leads where it led before: the last write wins.
pub proof fn lemma_register_lookup<P>(
    entries: Seq<(Seq<char>, P)>,
    key: Seq<char>,
    provider: P,
    other: Seq<char>,
)
    requires
        distinct_keys(entries),
    ensures
        spec_provider(spec_register(entries, key, provider), other) == if other == key {
            Some(provider)
        } else {
            spec_provider(entries, other)
        },
{
    let after = spec_register(entries, key, provider);
    lemma_position(entries, key);
    lemma_position(entries, other);
    lemma_position(after, other);
    lemma_register_distinct(entries, key, provider);
    match spec_position(after, other) {
        Some(i) => {
            if other != key {
                assert(after[i].0 == other);
                assert(entries[i].0 == other);
                lemma_position_unique(entries, other, i);
            }
        },
        None => {
            if other == key {
                match spec_position(entries, key) {
                    Some(j) => {
                        assert(after[j].0 == key);
                    },
                    None => {
                        assert(after[entries.len() as int].0 == key);
                    },
                }
            } else {
                match spec_position(entries, other) {
                    Some(j) => {
                        assert(after[j].0 == other);
                    },
                    None => {},
                }
            }
        },
    }
}

/// Registering under a key that is taken changes neither the keys nor
/// their order; registering under a new key adds it at the end.
pub proof fn lemma_register_keys<P>(entries: Seq<(Seq<char>, P)>, key: Seq<char>, provider: P)
    ensures
        spec_keys(spec_register(entries, key, provider)) == if spec_position(entries, key)
            is Some {
            spec_keys(entries)
        } else {
            spec_keys(entries).push(key)
        },
{
    lemma_position(entries, key);
    let after = spec_register(entries, key, provider);
    if spec_position(entries, key) is Some {
        assert(spec_keys(after) =~= spec_keys(entries));
    } else {
        assert(spec_keys(after) =~= spec_keys(entries).push(key));
    }
}

/// The keys and providers that a list of entries holds.
pub open spec fn entries_view<P>(entries: Vec<(String, P)>) -> Seq<(Seq<char>, P)> {
    Seq::new(entries.len() as nat, |i: int| (entries[i].0@, entries[i].1))
}

/// Providers by key.
pub struct Registry<P> {
    entries: Vec<(String, P)>,
}

impl<P> Registry<P> {
    /// The invariant of the registry: no key is registered twice.
    #[verifier::type_invariant]
    pub open spec fn keys_are_distinct(self) -> bool {
        distinct_keys(self.entries())
    }

    /// The registered keys with their providers, in the order in which the
    /// keys were first registered.
    pub closed spec fn entries(self) -> Seq<(Seq<char>, P)> {
        entries_view(self.entries)
    }

    /// The registered keys, in the order in which they were first
    /// registered.
    pub open spec fn keys(self) -> Seq<Seq<char>> {
        spec_keys(self.entries())
    }

    /// A registry with nothing in it.
    pub fn new() -> (r: Registry<P>)
        ensures
            r.entries() == Seq::<(Seq<char>, P)>::empty(),
            distinct_keys(r.entries()),
    {
        let r = Registry { entries: Vec::new() };
        assert(r.entries() =~= Seq::<(Seq<char>, P)>::empty());
        r
    }

    /// How many keys are registered.  No key is registered twice.
    pub fn len(&self) -> (n: usize)
        ensures
            n == self.entries().len(),
            distinct_keys(self.entries()),
    {
        proof {
            use_type_invariant(self);
        }
        self.entries.len()
    }

    /// The place of `key`, if it is registered.
    pub fn find(&self, key: &str) -> (r: Option<usize>)
        ensures
            match r {
                Some(i) => spec_position(self.entries(), key@) == Some(i as int),
                None => spec_position(self.entries(), key@) is None,
            },
    {
        let wanted: String = key.to_owned();
        let mut n: usize = self.entries.len();
        let ghost all = self.entries();
        proof {
            assert(all.take(n as int) =~= all);
        }
        while n > 0
            invariant
                n <= self.entries.len(),
                wanted@ == key@,
                all == self.entries(),
                spec_position(all, key@) == spec_position(all.take(n as int), key@),
            decreases n,
        {
            n = n - 1;
            proof {
                let part = all.take(n + 1);
                assert(part.last() == all[n as int]);
                assert(part.drop_last() =~= all.take(n as int));
            }
            if self.entries[n].0 == wanted {
                return Some(n);
            }
        }
        None
    }

    /// The key at place `i`.
    pub fn key(&self, i: usize) -> (r: &String)
        requires
            i < self.entries().len(),
        ensures
            r@ == self.entries()[i as int].0,
    {
        &self.entries[i].0
    }

    /// The provider at place `i`.
    pub fn provider(&self, i: usize) -> (r: &P)
        requires
            i < self.entries().len(),
        ensures
            *r == self.entries()[i as int].1,
    {
        &self.entries[i].1
    }

    /// The provider registered under `key`, if there is one.
    pub fn lookup(&self, key: &str) -> (r: Option<&P>)
        ensures
            match r {
                Some(p) => spec_provider(self.entries(), key@) == Some(*p),
                None => spec_provider(self.entries(), key@) is None,
            },
    {
        match self.find(key) {
            Some(i) => {
                proof {
                    lemma_position(self.entries(), key@);
                }
                Some(&self.entries[i].1)
            },
            None => None,
        }
    }

    /// Registers `provider` under `key`.  A provider that was registered
    /// under the same key is replaced.
    pub fn register(&mut self, key: String, provider: P)
        ensures
            final(self).entries() == spec_register(old(self).entries(), key@, provider),
            distinct_keys(final(self).entries()),
    {
        let ghost before = self.entries();
        proof {
            use_type_invariant(&*self);
            lemma_position(before, key@);
            lemma_register_distinct(before, key@, provider);
        }
        let place = self.find(key.as_str());
        let mut entries: Vec<(String, P)> = Vec::new();
        std::mem::swap(&mut self.entries, &mut entries);
        match place {
            Some(i) => {
                entries.set(i, (key, provider));
            },
            None => {
                entries.push((key, provider));
            },
        }
        assert(entries_view(entries) =~= spec_register(before, key@, provider));
        self.entries = entries;
    }
}

} // verus!
