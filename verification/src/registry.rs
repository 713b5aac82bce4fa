//! Keyed collection of per-subject metering state.
//!
//! The registry maps a subject key (a string: a pod name, or one of the
//! well-known buckets) to that subject's `(meter, divider)` pair. It is
//! modelled as a finite map from key characters to entries; operations
//! state exactly which key changes, so a lookup of any other key is
//! unaffected by an update.

use vstd::prelude::*;
use crate::divider::FrequencyDivider;
use crate::meter::EventRateMeter;

verus! {

/// One subject's metering state: the rate meter (which owns the anomaly
/// state) and the frequency divider that paces remediation.
#[derive(Clone, Copy, Debug)]
pub struct MeterEntry {
    /// Sliding-window rate meter.
    pub meter: EventRateMeter,
    /// Down-sampler gating external actions.
    pub divider: FrequencyDivider,
}

impl MeterEntry {
    /// Both halves are well formed.
    pub open spec fn wf(self) -> bool {
        &&& self.meter.wf()
        &&& self.divider.wf()
    }
}

/// No key occurs twice.
pub open spec fn keys_unique(s: Seq<(String, MeterEntry)>) -> bool {
    forall|i: int, j: int| 0 <= i < j < s.len() ==> s[i].0@ != s[j].0@
}

/// The map an association list denotes (later occurrences win; with unique
/// keys the only occurrence wins).
pub open spec fn map_of(s: Seq<(String, MeterEntry)>) -> Map<Seq<char>, MeterEntry>
    decreases s.len(),
{
    if s.len() == 0 {
        Map::empty()
    } else {
        map_of(s.drop_last()).insert(s.last().0@, s.last().1)
    }
}

/// Mapping from subject key to metering entry.
pub struct MeterRegistry {
    entries: Vec<(String, MeterEntry)>,
}

impl View for MeterRegistry {
    type V = Map<Seq<char>, MeterEntry>;

    closed spec fn view(&self) -> Map<Seq<char>, MeterEntry> {
        map_of(self.entries@)
    }
}

impl MeterRegistry {
    /// Keys are unique and every entry is well formed.
    pub closed spec fn wf(&self) -> bool {
        &&& keys_unique(self.entries@)
        &&& forall|i: int| 0 <= i < self.entries@.len() ==> (#[trigger] self.entries@[i]).1.wf()
    }

    /// An empty registry.
    pub fn new() -> (r: MeterRegistry)
        ensures
            r@ == Map::<Seq<char>, MeterEntry>::empty(),
            r.wf(),
    {
        MeterRegistry { entries: Vec::new() }
    }

    /// Whether `key` has an entry.
    pub fn contains(&self, key: &String) -> (b: bool)
        requires
            self.wf(),
        ensures
            b == self@.dom().contains(key@),
    {
        let n = self.entries.len();
        let mut i: usize = 0;
        while i < n
            invariant
                n == self.entries@.len(),
                0 <= i <= n,
                forall|j: int| 0 <= j < i ==> (#[trigger] self.entries@[j]).0@ != key@,
            decreases n - i,
        {
            if self.entries[i].0 == *key {
                proof {
                    lemma_map_of_contains(self.entries@, i as int);
                }
                return true;
            }
            i = i + 1;
        }
        proof {
            lemma_map_of_absent(self.entries@, key@);
        }
        false
    }

    /// The entry under `key`, if any.
    pub fn get(&self, key: &String) -> (e: Option<MeterEntry>)
        requires
            self.wf(),
        ensures
            e is Some <==> self@.dom().contains(key@),
            e is Some ==> e->0 == self@[key@] && e->0.wf(),
    {
        let n = self.entries.len();
        let mut i: usize = 0;
        while i < n
            invariant
                n == self.entries@.len(),
                0 <= i <= n,
                self.wf(),
                forall|j: int| 0 <= j < i ==> (#[trigger] self.entries@[j]).0@ != key@,
            decreases n - i,
        {
            if self.entries[i].0 == *key {
                proof {
                    lemma_map_of_contains(self.entries@, i as int);
                    lemma_map_of_get(self.entries@, i as int);
                }
                return Some(self.entries[i].1);
            }
            i = i + 1;
        }
        proof {
            lemma_map_of_absent(self.entries@, key@);
        }
        None
    }

    /// Insert an entry under `key`, or replace the one already there.
    pub fn put(&mut self, key: &String, e: MeterEntry)
        requires
            old(self).wf(),
            e.wf(),
        ensures
            final(self)@ == old(self)@.insert(key@, e),
            final(self).wf(),
    {
        let n = self.entries.len();
        let mut i: usize = 0;
        while i < n
            invariant
                n == self.entries@.len(),
                0 <= i <= n,
                self == old(self),
                old(self).wf(),
                e.wf(),
                forall|j: int| 0 <= j < i ==> (#[trigger] self.entries@[j]).0@ != key@,
            decreases n - i,
        {
            if self.entries[i].0 == *key {
                let k2 = key.clone();
                proof {
                    lemma_map_of_update(self.entries@, i as int, k2, e);
                }
                self.entries[i] = (k2, e);
                proof {
                    assert forall|j: int| 0 <= j < self.entries@.len() implies (
                    #[trigger] self.entries@[j]).1.wf() by {
                        if j != i {
                            assert(self.entries@[j] == old(self).entries@[j]);
                        }
                    }
                }
                return;
            }
            i = i + 1;
        }
        self.entries.push((key.clone(), e));
        proof {
            assert(self.entries@.drop_last() =~= old(self).entries@);
        }
    }

    /// Look up `key`, inserting `seed` first when the key is absent; the
    /// entry now under `key` is returned either way.
    pub fn get_or_insert(&mut self, key: &String, seed: MeterEntry) -> (e: MeterEntry)
        requires
            old(self).wf(),
            seed.wf(),
        ensures
            final(self).wf(),
            old(self)@.dom().contains(key@) ==> final(self)@ == old(self)@ && e == old(
                self,
            )@[key@],
            !old(self)@.dom().contains(key@) ==> final(self)@ == old(self)@.insert(key@, seed)
                && e == seed,
            final(self)@.dom().contains(key@),
            e == final(self)@[key@],
    {
        match self.get(key) {
            Some(x) => x,
            None => {
                self.put(key, seed);
                seed
            },
        }
    }
}

/// A listed key is in the denoted map's domain.
proof fn lemma_map_of_contains(s: Seq<(String, MeterEntry)>, i: int)
    requires
        0 <= i < s.len(),
    ensures
        map_of(s).dom().contains(s[i].0@),
    decreases s.len(),
{
    if i < s.len() - 1 {
        lemma_map_of_contains(s.drop_last(), i);
    }
}

/// A key no pair carries is outside the denoted map's domain.
proof fn lemma_map_of_absent(s: Seq<(String, MeterEntry)>, k: Seq<char>)
    requires
        forall|i: int| 0 <= i < s.len() ==> (#[trigger] s[i]).0@ != k,
    ensures
        !map_of(s).dom().contains(k),
    decreases s.len(),
{
    if s.len() > 0 {
        lemma_map_of_absent(s.drop_last(), k);
    }
}

/// With unique keys, the denoted map sends each listed key to its entry.
proof fn lemma_map_of_get(s: Seq<(String, MeterEntry)>, i: int)
    requires
        keys_unique(s),
        0 <= i < s.len(),
    ensures
        map_of(s)[s[i].0@] == s[i].1,
    decreases s.len(),
{
    if i < s.len() - 1 {
        lemma_map_of_get(s.drop_last(), i);
    }
}

/// Replacing the entry at a listed key (under a key with the same
/// characters) denotes a map insert at that key.
proof fn lemma_map_of_update(s: Seq<(String, MeterEntry)>, i: int, k2: String, e: MeterEntry)
    requires
        keys_unique(s),
        0 <= i < s.len(),
        k2@ == s[i].0@,
    ensures
        map_of(s.update(i, (k2, e))) == map_of(s).insert(s[i].0@, e),
        keys_unique(s.update(i, (k2, e))),
    decreases s.len(),
{
    let su = s.update(i, (k2, e));
    if i == s.len() - 1 {
        assert(su.drop_last() =~= s.drop_last());
        assert(map_of(su) =~= map_of(s).insert(s[i].0@, e));
    } else {
        assert(su.drop_last() =~= s.drop_last().update(i, (k2, e)));
        lemma_map_of_update(s.drop_last(), i, k2, e);
        assert(map_of(su) == map_of(s.drop_last()).insert(s[i].0@, e).insert(
            s.last().0@,
            s.last().1,
        ));
        assert(map_of(su) =~= map_of(s).insert(s[i].0@, e));
    }
}

} // verus!
