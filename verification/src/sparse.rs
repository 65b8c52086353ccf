//! A sparse map from keys to positive amounts: a key that is absent stands for
//! the amount zero, and an amount that reaches zero leaves the map.

use vstd::prelude::*;

verus! {

/// A key of a sparse map: a copyable value whose executable comparison agrees
/// with equality in specifications.
pub trait Key: Copy {
    /// Whether `self` and `other` are the same key.
    fn same(&self, other: &Self) -> (r: bool)
        ensures
            r == (*self == *other),
    ;
}

/// The amount that `m` holds for `k`: zero where `k` is absent.
pub open spec fn amount_at<K>(m: Map<K, int>, k: K) -> int {
    if m.contains_key(k) {
        m[k]
    } else {
        0
    }
}

/// `m` after the amount of `k` is set to `v`: an amount of zero removes the
/// entry.
pub open spec fn put<K>(m: Map<K, int>, k: K, v: int) -> Map<K, int> {
    if v == 0 {
        m.remove(k)
    } else {
        m.insert(k, v)
    }
}

/// Every amount that `m` holds is positive and fits in an `i128`.
pub open spec fn is_sparse<K>(m: Map<K, int>) -> bool {
    forall|k: K| m.contains_key(k) ==> 0 < #[trigger] m[k] <= i128::MAX
}

/// The sum of all amounts that a finite map holds.
pub open spec fn total<K>(m: Map<K, int>) -> int
    decreases m.dom().len(),
{
    if m.dom().finite() && m.dom().len() > 0 {
        let k = m.dom().choose();
        m[k] + total(m.remove(k))
    } else {
        0
    }
}

/// Any entry can be split off the sum.
pub proof fn lemma_total_remove<K>(m: Map<K, int>, k: K)
    requires
        m.dom().finite(),
        m.contains_key(k),
    ensures
        total(m) == m[k] + total(m.remove(k)),
    decreases m.dom().len(),
{
    let c = m.dom().choose();
    if c != k {
        lemma_total_remove(m.remove(c), k);
        lemma_total_remove(m.remove(k), c);
        assert(m.remove(c).remove(k) =~= m.remove(k).remove(c));
    }
}

/// Setting one amount changes the sum by the difference to the amount that
/// was there.
pub proof fn lemma_total_put<K>(m: Map<K, int>, k: K, v: int)
    requires
        m.dom().finite(),
    ensures
        put(m, k, v).dom().finite(),
        total(put(m, k, v)) == total(m) - amount_at(m, k) + v,
{
    if m.contains_key(k) {
        lemma_total_remove(m, k);
    } else {
        assert(m.remove(k) =~= m);
    }
    if v != 0 {
        let n = m.insert(k, v);
        lemma_total_remove(n, k);
        assert(n.remove(k) =~= m.remove(k));
    }
}

/// A sum of positive amounts is not negative.
pub proof fn lemma_total_nonnegative<K>(m: Map<K, int>)
    requires
        m.dom().finite(),
        is_sparse(m),
    ensures
        total(m) >= 0,
    decreases m.dom().len(),
{
    if m.dom().len() > 0 {
        let c = m.dom().choose();
        lemma_total_nonnegative(m.remove(c));
    }
}

/// No single amount exceeds the sum.
pub proof fn lemma_total_covers<K>(m: Map<K, int>, k: K)
    requires
        m.dom().finite(),
        is_sparse(m),
    ensures
        0 <= amount_at(m, k) <= total(m),
{
    lemma_total_nonnegative(m);
    if m.contains_key(k) {
        lemma_total_remove(m, k);
        lemma_total_nonnegative(m.remove(k));
    }
}

/// No two amounts of different keys together exceed the sum.
pub proof fn lemma_total_covers_two<K>(m: Map<K, int>, a: K, b: K)
    requires
        m.dom().finite(),
        is_sparse(m),
        a != b,
    ensures
        amount_at(m, a) + amount_at(m, b) <= total(m),
{
    if m.contains_key(a) {
        lemma_total_remove(m, a);
        lemma_total_covers(m.remove(a), b);
    } else {
        lemma_total_covers(m, b);
    }
}

/// What an operation asks of the store for one entry, once the entry's new
/// amount is known.
#[derive(Clone, Copy, Debug, PartialEq, Eq, Structural)]
pub enum EntryUpdate {
    /// The amount is zero: the entry is removed.
    Remove,
    /// The entry is written with this amount, and its lease is renewed.
    Store(i128),
}

impl EntryUpdate {
    /// The amount that the entry stands for after the update.
    pub open spec fn stored(self) -> int {
        match self {
            EntryUpdate::Remove => 0,
            EntryUpdate::Store(value) => value as int,
        }
    }

    /// The amount that the entry stands for after the update: zero where it
    /// is removed.
    pub fn amount(&self) -> (value: i128)
        ensures
            value == self.stored(),
    {
        match self {
            EntryUpdate::Remove => 0,
            EntryUpdate::Store(value) => *value,
        }
    }
}

/// The update that an amount calls for: no zero is ever stored, and every
/// entry that stays is written and kept alive.
pub open spec fn update_for(value: int) -> EntryUpdate {
    if value == 0 {
        EntryUpdate::Remove
    } else {
        EntryUpdate::Store(value as i128)
    }
}

/// `m` after `update` is applied to the entry of `k`.
pub open spec fn apply_update<K>(m: Map<K, int>, k: K, update: EntryUpdate) -> Map<K, int> {
    match update {
        EntryUpdate::Remove => m.remove(k),
        EntryUpdate::Store(value) => m.insert(k, value as int),
    }
}

/// Decides what happens to an entry whose new amount is `value`.
pub fn entry_update(value: i128) -> (update: EntryUpdate)
    ensures
        update == update_for(value as int),
{
    if value == 0 {
        EntryUpdate::Remove
    } else {
        EntryUpdate::Store(value)
    }
}

/// One stored amount.
struct Entry<K> {
    key: K,
    value: i128,
}

/// A sparse map that keeps its entries in a vector. Its view is the
/// mathematical map from each stored key to its amount.
#[verifier::reject_recursive_types(K)]
pub struct SparseMap<K: Key> {
    entries: Vec<Entry<K>>,
    contents: Ghost<Map<K, int>>,
}

impl<K: Key> View for SparseMap<K> {
    type V = Map<K, int>;

    closed spec fn view(&self) -> Map<K, int> {
        self.contents@
    }
}

impl<K: Key> SparseMap<K> {
    /// The vector holds each key of the view once, with its amount, and no
    /// amount that is zero or negative.
    pub closed spec fn wf(&self) -> bool {
        &&& self.contents@.dom().finite()
        &&& forall|i: int|
            0 <= i < self.entries@.len() ==> {
                let e = #[trigger] self.entries@[i];
                e.value > 0 && self.contents@.contains_key(e.key) && self.contents@[e.key]
                    == e.value
            }
        &&& forall|i: int, j: int|
            0 <= i < j < self.entries@.len() ==> (#[trigger] self.entries@[i]).key != (
            #[trigger] self.entries@[j]).key
        &&& forall|k: K| #[trigger]
            self.contents@.contains_key(k) ==> exists|i: int|
                0 <= i < self.entries@.len() && (#[trigger] self.entries@[i]).key == k
    }

    /// What well-formedness says of the view.
    pub proof fn lemma_view(&self)
        requires
            self.wf(),
        ensures
            self@.dom().finite(),
            is_sparse(self@),
    {
        assert forall|k: K| self@.contains_key(k) implies 0 < #[trigger] self@[k]
            <= i128::MAX by {
            let i = choose|i: int|
                0 <= i < self.entries@.len() && (#[trigger] self.entries@[i]).key == k;
            assert(self.entries@[i].value > 0);
        }
    }

    /// The map without entries.
    pub fn new() -> (s: Self)
        ensures
            s.wf(),
            s@ == Map::<K, int>::empty(),
    {
        SparseMap { entries: Vec::new(), contents: Ghost(Map::empty()) }
    }

    /// Where `key` is stored, if it is.
    fn position(&self, key: &K) -> (r: Option<usize>)
        requires
            self.wf(),
        ensures
            match r {
                Some(i) => i < self.entries@.len() && self.entries@[i as int].key == *key,
                None => !self@.contains_key(*key),
            },
    {
        let mut i: usize = 0;
        while i < self.entries.len()
            invariant
                self.wf(),
                i <= self.entries@.len(),
                forall|j: int| 0 <= j < i ==> (#[trigger] self.entries@[j]).key != *key,
            decreases self.entries@.len() - i,
        {
            if self.entries[i].key.same(key) {
                return Some(i);
            }
            i += 1;
        }
        None
    }

    /// The amount held for `key`; zero where there is no entry.
    pub fn get(&self, key: &K) -> (v: i128)
        requires
            self.wf(),
        ensures
            v == amount_at(self@, *key),
            v >= 0,
    {
        match self.position(key) {
            Some(i) => self.entries[i].value,
            None => 0,
        }
    }

    /// Sets the amount held for `key`. The entry is created where it is
    /// missing and removed where the amount is zero.
    pub fn set(&mut self, key: K, value: i128)
        requires
            old(self).wf(),
            value >= 0,
        ensures
            final(self).wf(),
            final(self)@ == put(old(self)@, key, value as int),
    {
        self.apply(key, entry_update(value));
    }

    /// Applies an update to the entry of `key`: the entry is removed, or it is
    /// written, and created where it is missing.
    pub fn apply(&mut self, key: K, update: EntryUpdate)
        requires
            old(self).wf(),
            update matches EntryUpdate::Store(value) ==> value > 0,
        ensures
            final(self).wf(),
            final(self)@ == apply_update(old(self)@, key, update),
    {
        let found = self.position(&key);
        let ghost before = self.entries@;
        match update {
            EntryUpdate::Remove => {
                match found {
                    Some(i) => {
                        self.entries.swap_remove(i);
                        self.contents = Ghost(self.contents@.remove(key));
                        proof {
                            let after = self.entries@;
                            assert forall|j: int| 0 <= j < after.len() implies {
                                let e = #[trigger] after[j];
                                e.value > 0 && self.contents@.contains_key(e.key)
                                    && self.contents@[e.key] == e.value
                            } by {
                                if j == i {
                                    assert(after[j] == before[before.len() - 1]);
                                } else {
                                    assert(after[j] == before[j]);
                                }
                            }
                            assert forall|a: int, b: int|
                                0 <= a < b < after.len() implies (#[trigger] after[a]).key != (
                            #[trigger] after[b]).key by {
                                let a0 = if a == i { before.len() - 1 } else { a };
                                let b0 = if b == i { before.len() - 1 } else { b };
                                assert(after[a] == before[a0]);
                                assert(after[b] == before[b0]);
                            }
                            assert forall|k: K| #[trigger]
                                self.contents@.contains_key(k) implies exists|j: int|
                                0 <= j < after.len() && (#[trigger] after[j]).key == k by {
                                let j0 = choose|j: int|
                                    0 <= j < before.len() && (#[trigger] before[j]).key == k;
                                let j = if j0 == before.len() - 1 { i as int } else { j0 };
                                assert(after[j] == before[j0]);
                            }
                        }
                    },
                    None => {
                        assert(self.contents@.remove(key) =~= self.contents@);
                    },
                }
            },
            EntryUpdate::Store(amount) => {
                match found {
                    Some(i) => {
                        self.entries.set(i, Entry { key, value: amount });
                    },
                    None => {
                        self.entries.push(Entry { key, value: amount });
                    },
                }
                self.contents = Ghost(self.contents@.insert(key, amount as int));
                proof {
                    let after = self.entries@;
                    let at = match found {
                        Some(i) => i as int,
                        None => before.len() as int,
                    };
                    assert(after[at].key == key);
                    assert forall|j: int| 0 <= j < after.len() implies {
                        let e = #[trigger] after[j];
                        e.value > 0 && self.contents@.contains_key(e.key)
                            && self.contents@[e.key] == e.value
                    } by {
                        if j != at {
                            assert(after[j] == before[j]);
                        }
                    }
                    assert forall|a: int, b: int| 0 <= a < b < after.len() implies (
                    #[trigger] after[a]).key != (#[trigger] after[b]).key by {
                        if a < before.len() {
                            assert(after[a].key == before[a].key);
                        }
                        if b < before.len() {
                            assert(after[b].key == before[b].key);
                        }
                    }
                    assert forall|k: K| #[trigger]
                        self.contents@.contains_key(k) implies exists|j: int|
                        0 <= j < after.len() && (#[trigger] after[j]).key == k by {
                        if k != key {
                            let j0 = choose|j: int|
                                0 <= j < before.len() && (#[trigger] before[j]).key == k;
                            assert(after[j0].key == before[j0].key);
                        }
                    }
                }
            },
        }
    }
}

} // verus!
