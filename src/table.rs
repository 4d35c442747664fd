use std::collections::HashMap;
use std::hash::Hash;
use vstd::prelude::*;
use vstd::std_specs::hash::obeys_key_model;

verus! {

broadcast use vstd::std_specs::hash::group_hash_axioms;

/// Why a table operation was refused.
#[derive(Debug, PartialEq, Eq, Structural, Clone, Copy)]
pub enum TableError {
    /// The key is new and the table already holds as many entries as it may.
    CapacityExceeded,
    /// The key to remove is not in the table.
    NotFound,
}

/// A bounded key-value table with unique keys.
pub struct RuleTable<K, V> {
    map: HashMap<K, V>,
    capacity: usize,
}

/// The table after inserting `k -> v` into `m` as a table of capacity `cap`
/// does: an existing key is overwritten, a new key is added only while there
/// is room.
pub open spec fn put<K, V>(m: Map<K, V>, cap: nat, k: K, v: V) -> Map<K, V> {
    if m.contains_key(k) || m.len() < cap {
        m.insert(k, v)
    } else {
        m
    }
}

/// The table that results from putting each entry of `entries` in turn into `m`.
pub open spec fn put_all<K, V>(m: Map<K, V>, cap: nat, entries: Seq<(K, V)>) -> Map<K, V>
    decreases entries.len(),
{
    if entries.len() == 0 {
        m
    } else {
        let last = entries.last();
        put(put_all(m, cap, entries.drop_last()), cap, last.0, last.1)
    }
}

/// Whether putting each entry of `entries` in turn into `m` finds room for
/// every one of them.
pub open spec fn all_fit<K, V>(m: Map<K, V>, cap: nat, entries: Seq<(K, V)>) -> bool
    decreases entries.len(),
{
    if entries.len() == 0 {
        true
    } else {
        let before = put_all(m, cap, entries.drop_last());
        &&& all_fit(m, cap, entries.drop_last())
        &&& (before.contains_key(entries.last().0) || before.len() < cap)
    }
}

/// The count in `m` after one increment of `k`: the old count plus one
/// (staying at the largest value once reached), or a new count of one while
/// there is room.
pub open spec fn bump<K>(m: Map<K, u64>, cap: nat, k: K) -> Map<K, u64> {
    if m.contains_key(k) {
        m.insert(k, if m[k] == u64::MAX { u64::MAX } else { (m[k] + 1) as u64 })
    } else {
        put(m, cap, k, 1)
    }
}

/// `n` increments of `k` in turn.
pub open spec fn bump_n<K>(m: Map<K, u64>, cap: nat, k: K, n: nat) -> Map<K, u64>
    decreases n,
{
    if n == 0 {
        m
    } else {
        bump(bump_n(m, cap, k, (n - 1) as nat), cap, k)
    }
}

impl<K, V> View for RuleTable<K, V> {
    type V = Map<K, V>;

    closed spec fn view(&self) -> Map<K, V> {
        self.map@
    }
}

impl<K: Copy + Eq + Hash, V: Copy> RuleTable<K, V> {
    /// The most entries the table may hold.
    pub closed spec fn cap(&self) -> nat {
        self.capacity as nat
    }

    /// The table's invariant: keys behave as values and the table is within
    /// its capacity.
    pub closed spec fn wf(&self) -> bool {
        &&& obeys_key_model::<K>()
        &&& vstd::std_specs::hash::builds_valid_hashers::<std::hash::RandomState>()
        &&& self.map@.dom().finite()
        &&& self.map@.len() <= self.capacity
    }

    /// An empty table that holds at most `capacity` entries.
    pub fn new(capacity: usize) -> (r: Self)
        requires
            obeys_key_model::<K>(),
        ensures
            r.wf(),
            r@ == Map::<K, V>::empty(),
            r.cap() == capacity,
    {
        RuleTable { map: HashMap::new(), capacity }
    }

    /// The number of entries.
    pub fn len(&self) -> (r: usize)
        requires
            self.wf(),
        ensures
            r == self@.len(),
    {
        self.map.len()
    }

    /// The most entries the table may hold.
    pub fn capacity(&self) -> (r: usize)
        ensures
            r == self.cap(),
    {
        self.capacity
    }

    /// The value stored under `k`, if any.
    pub fn get(&self, k: K) -> (r: Option<V>)
        requires
            self.wf(),
        ensures
            r == (if self@.contains_key(k) { Some(self@[k]) } else { None::<V> }),
    {
        match self.map.get(&k) {
            Some(v) => Some(*v),
            None => None,
        }
    }

    /// Whether `k` has an entry.
    pub fn contains(&self, k: K) -> (r: bool)
        requires
            self.wf(),
        ensures
            r == self@.contains_key(k),
    {
        self.map.contains_key(&k)
    }

    /// Stores `v` under `k`. Storing a key that is already present overwrites
    /// its value and succeeds, even when the table is full; a new key is
    /// refused when the table is full.
    pub fn insert(&mut self, k: K, v: V) -> (r: Result<(), TableError>)
        requires
            old(self).wf(),
        ensures
            final(self).wf(),
            final(self).cap() == old(self).cap(),
            final(self)@ == put(old(self)@, old(self).cap(), k, v),
            r is Ok <==> (old(self)@.contains_key(k) || old(self)@.len() < old(self).cap()),
            r is Err ==> r == Err::<(), TableError>(TableError::CapacityExceeded),
    {
        if self.map.contains_key(&k) || self.map.len() < self.capacity {
            self.map.insert(k, v);
            Ok(())
        } else {
            Err(TableError::CapacityExceeded)
        }
    }

    /// Removes the entry of `k`; fails when there is none.
    pub fn remove(&mut self, k: K) -> (r: Result<(), TableError>)
        requires
            old(self).wf(),
        ensures
            final(self).wf(),
            final(self).cap() == old(self).cap(),
            final(self)@ == old(self)@.remove(k),
            r is Ok <==> old(self)@.contains_key(k),
            r is Err ==> r == Err::<(), TableError>(TableError::NotFound),
    {
        match self.map.remove(&k) {
            Some(_) => Ok(()),
            None => Err(TableError::NotFound),
        }
    }

    /// Removes every entry.
    pub fn clear(&mut self)
        requires
            old(self).wf(),
        ensures
            final(self).wf(),
            final(self).cap() == old(self).cap(),
            final(self)@ == Map::<K, V>::empty(),
    {
        self.map.clear();
    }

    /// Empties the table, then puts each entry in turn. Readers between the
    /// steps may see the table partly filled. Fails when some new key found
    /// the table full; the entries put before and after it stay.
    pub fn replace_all(&mut self, entries: &Vec<(K, V)>) -> (r: Result<(), TableError>)
        requires
            old(self).wf(),
        ensures
            final(self).wf(),
            final(self).cap() == old(self).cap(),
            final(self)@ == put_all(Map::<K, V>::empty(), old(self).cap(), entries@),
            r is Ok <==> all_fit(Map::<K, V>::empty(), old(self).cap(), entries@),
            r is Err ==> r == Err::<(), TableError>(TableError::CapacityExceeded),
    {
        self.clear();
        let mut result: Result<(), TableError> = Ok(());
        let mut i: usize = 0;
        while i < entries.len()
            invariant
                self.wf(),
                self.cap() == old(self).cap(),
                i <= entries@.len(),
                self@ == put_all(Map::<K, V>::empty(), self.cap(), entries@.subrange(0, i as int)),
                result is Err ==> result == Err::<(), TableError>(TableError::CapacityExceeded),
                result is Ok <==> all_fit(Map::<K, V>::empty(), self.cap(), entries@.subrange(0, i as int)),
            decreases entries.len() - i,
        {
            let (k, v) = entries[i];
            if self.insert(k, v).is_err() {
                result = Err(TableError::CapacityExceeded);
            }
            assert(entries@.subrange(0, i + 1).drop_last() =~= entries@.subrange(0, i as int));
            i = i + 1;
        }
        assert(entries@.subrange(0, entries@.len() as int) =~= entries@);
        result
    }

    /// A copy of every entry.
    pub fn snapshot(&self) -> (r: HashMap<K, V>)
        requires
            self.wf(),
        ensures
            r@ == self@,
    {
        self.map.clone()
    }
}

impl<K: Copy + Eq + Hash> RuleTable<K, u64> {
    /// Counts one more event for `k`: adds one to its count (a count at the
    /// largest value stays there), or starts it at one. A new key that finds
    /// the table full is not counted.
    pub fn increment(&mut self, k: K)
        requires
            old(self).wf(),
        ensures
            final(self).wf(),
            final(self).cap() == old(self).cap(),
            final(self)@ == bump(old(self)@, old(self).cap(), k),
    {
        match self.map.get(&k) {
            Some(n) => {
                let next = n.saturating_add(1);
                self.map.insert(k, next);
            },
            None => {
                let _ = self.insert(k, 1);
            },
        }
    }
}

/// Putting the same entry twice leaves the table as putting it once does,
/// and once the first put has found room the second finds the key present,
/// so it succeeds too.
pub proof fn lemma_put_twice<K, V>(m: Map<K, V>, cap: nat, k: K, v: V)
    ensures
        put(put(m, cap, k, v), cap, k, v) == put(m, cap, k, v),
        (m.contains_key(k) || m.len() < cap) ==> put(m, cap, k, v).contains_key(k),
{
    if m.contains_key(k) || m.len() < cap {
        assert(m.insert(k, v).insert(k, v) =~= m.insert(k, v));
    }
}

/// An increment never lowers a count nor drops a key.
pub proof fn lemma_bump_monotonic<K>(m: Map<K, u64>, cap: nat, k: K, j: K)
    requires
        m.contains_key(j),
    ensures
        bump(m, cap, k).contains_key(j),
        bump(m, cap, k)[j] >= m[j],
{
}

/// `n` increments of a key, each finding room, bring its count from absent
/// to exactly `n`, or add exactly `n` to an existing count that does not
/// reach the largest value.
pub proof fn lemma_bump_n<K>(m: Map<K, u64>, cap: nat, k: K, n: nat)
    requires
        m.dom().finite(),
        m.contains_key(k) ==> m[k] + n <= u64::MAX,
        !m.contains_key(k) ==> m.len() < cap && n <= u64::MAX,
    ensures
        n > 0 ==> bump_n(m, cap, k, n).contains_key(k),
        n > 0 ==> bump_n(m, cap, k, n)[k] == (if m.contains_key(k) { m[k] + n } else { n as int }),
        bump_n(m, cap, k, n).dom().finite(),
    decreases n,
{
    if n > 0 {
        lemma_bump_n(m, cap, k, (n - 1) as nat);
    }
}

} // verus!
