//! The dependency store: a keyed registry of singleton values that mutators
//! read while they edit a UI value.
//!
//! The store is owned by the host application and outlives every mutator
//! invocation.  Mutators address an entry by its key and receive the value
//! read-only; a key that is absent at apply time is a fatal lookup error,
//! reported as [`UiError::MissingDependency`] rather than a panic.

use vstd::prelude::*;

verus! {

/// The errors this library reports.
#[derive(Clone, Copy, Debug, PartialEq, Eq, Structural)]
pub enum UiError {
    /// A mutator asked the dependency store for a key that holds no entry
    /// of the requested kind.
    MissingDependency(u64),
}

/// One singleton value a mutator may depend on.
#[derive(Clone, Copy, Debug, PartialEq, Eq, Structural)]
pub enum DepValue {
    /// A size, for width and height mutators.
    Size(crate::style::Val),
    /// A color, for background and text-color mutators.
    Color(crate::style::Color),
    /// A plain number, for font sizes and asset handles.
    Number(u64),
}

/// A keyed registry of singleton dependency values.
#[derive(Clone, Debug)]
pub struct DepStore {
    pub entries: Vec<(u64, DepValue)>,
}

/// The value the first entry of `entries` with key `key` holds, if any.
pub open spec fn lookup_at(entries: Seq<(u64, DepValue)>, key: u64) -> Option<DepValue>
    decreases entries.len(),
{
    if entries.len() == 0 {
        None
    } else if entries[0].0 == key {
        Some(entries[0].1)
    } else {
        lookup_at(entries.drop_first(), key)
    }
}

impl DepStore {
    /// The singleton value registered under `key`, if any.
    pub open spec fn spec_lookup(self, key: u64) -> Option<DepValue> {
        lookup_at(self.entries@, key)
    }

    /// Every key owns at most one entry: the registry stores singletons.
    pub open spec fn wf(self) -> bool {
        forall|i: int, j: int|
            0 <= i < j < self.entries@.len() ==> self.entries@[i].0 != self.entries@[j].0
    }

    /// An empty store, with nothing registered.
    pub fn new() -> (r: DepStore)
        ensures
            r.wf(),
            forall|key: u64| r.spec_lookup(key) is None,
    {
        let r = DepStore { entries: Vec::new() };
        proof {
            assert forall|key: u64| r.spec_lookup(key) is None by {
                reveal_with_fuel(lookup_at, 1);
            }
        }
        r
    }

    /// Registers `value` as the singleton under `key`.
    pub fn insert(&mut self, key: u64, value: DepValue)
        requires
            old(self).wf(),
            old(self).spec_lookup(key) is None,
        ensures
            final(self).wf(),
            forall|k: u64|
                final(self).spec_lookup(k) == if k == key {
                    Some(value)
                } else {
                    old(self).spec_lookup(k)
                },
    {
        proof {
            lemma_lookup_none_no_key(self.entries@, key);
        }
        self.entries.push((key, value));
        proof {
            assert forall|k: u64|
                final(self).spec_lookup(k) == if k == key {
                    Some(value)
                } else {
                    old(self).spec_lookup(k)
                } by {
                lemma_lookup_push(old(self).entries@, key, value, k);
            }
        }
    }

    /// The singleton registered under `key`, or the missing-dependency error.
    pub fn get(&self, key: u64) -> (r: Result<DepValue, UiError>)
        ensures
            r == match self.spec_lookup(key) {
                Some(v) => Result::<DepValue, UiError>::Ok(v),
                None => Result::<DepValue, UiError>::Err(UiError::MissingDependency(key)),
            },
    {
        let n = self.entries.len();
        let mut i: usize = 0;
        proof {
            assert(self.entries@.skip(0) =~= self.entries@);
        }
        while i < n
            invariant
                i <= n,
                n == self.entries@.len(),
                lookup_at(self.entries@, key) == lookup_at(self.entries@.skip(i as int), key),
            decreases n - i,
        {
            let (k, v) = self.entries[i];
            if k == key {
                proof {
                    assert(self.entries@.skip(i as int)[0] == self.entries@[i as int]);
                }
                return Ok(v);
            }
            proof {
                assert(self.entries@.skip(i as int).drop_first() =~= self.entries@.skip(
                    i as int + 1,
                ));
            }
            i = i + 1;
        }
        proof {
            assert(self.entries@.skip(n as int) =~= Seq::<(u64, DepValue)>::empty());
        }
        Err(UiError::MissingDependency(key))
    }
}

/// When a lookup misses, no entry carries the key.
proof fn lemma_lookup_none_no_key(entries: Seq<(u64, DepValue)>, key: u64)
    requires
        lookup_at(entries, key) is None,
    ensures
        forall|i: int| 0 <= i < entries.len() ==> entries[i].0 != key,
    decreases entries.len(),
{
    if entries.len() > 0 {
        lemma_lookup_none_no_key(entries.drop_first(), key);
        assert forall|i: int| 0 <= i < entries.len() implies entries[i].0 != key by {
            if i > 0 {
                assert(entries.drop_first()[i - 1] == entries[i]);
            }
        }
    }
}

/// How appending one entry changes every lookup.
proof fn lemma_lookup_push(entries: Seq<(u64, DepValue)>, key: u64, value: DepValue, k: u64)
    ensures
        lookup_at(entries.push((key, value)), k) == if lookup_at(entries, k) is Some {
            lookup_at(entries, k)
        } else if k == key {
            Some(value)
        } else {
            None
        },
    decreases entries.len(),
{
    if entries.len() == 0 {
        assert(entries.push((key, value)).drop_first() =~= Seq::<(u64, DepValue)>::empty());
    } else {
        assert(entries.push((key, value)).drop_first() =~= entries.drop_first().push(
            (key, value),
        ));
        lemma_lookup_push(entries.drop_first(), key, value, k);
    }
}

} // verus!
