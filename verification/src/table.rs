//! A small association table: a `Vec` of key/value rows whose abstract
//! meaning is a finite `Map` from key views to value views.
//!
//! Rows are kept in insertion order; when a key occurs more than once the
//! row nearest the end decides its value, so the table needs no invariant.
use vstd::prelude::*;

verus! {

/// Keys whose equality can be tested in executable code, agreeing with
/// equality of their views.
pub trait KeyEq: View + Sized {
    fn key_eq(&self, other: &Self) -> (same: bool)
        ensures
            same == (self@ == other@),
    ;
}

impl KeyEq for u32 {
    fn key_eq(&self, other: &Self) -> (same: bool) {
        *self == *other
    }
}

impl KeyEq for u64 {
    fn key_eq(&self, other: &Self) -> (same: bool) {
        *self == *other
    }
}

impl KeyEq for String {
    fn key_eq(&self, other: &Self) -> (same: bool) {
        *self == *other
    }
}

/// The map that a sequence of rows stands for: later rows override earlier ones.
pub open spec fn rows_map<K: View, V: View>(rows: Seq<(K, V)>) -> Map<K::V, V::V>
    decreases rows.len(),
{
    if rows.len() == 0 {
        Map::empty()
    } else {
        rows_map(rows.drop_last()).insert(rows.last().0@, rows.last().1@)
    }
}

/// `i` is the last row of `rows` whose key is `k`.
pub open spec fn last_row_of<K: View, V>(rows: Seq<(K, V)>, k: K::V, i: int) -> bool {
    &&& 0 <= i < rows.len()
    &&& rows[i].0@ == k
    &&& forall|j: int| i < j < rows.len() ==> #[trigger] rows[j].0@ != k
}

pub proof fn lemma_rows_map_last<K: View, V: View>(rows: Seq<(K, V)>, k: K::V, i: int)
    requires
        last_row_of(rows, k, i),
    ensures
        rows_map(rows).dom().contains(k),
        rows_map(rows)[k] == rows[i].1@,
    decreases rows.len(),
{
    if i < rows.len() - 1 {
        let dl = rows.drop_last();
        assert(rows[rows.len() - 1].0@ != k);
        assert forall|j: int| i < j < dl.len() implies #[trigger] dl[j].0@ != k by {
            assert(dl[j] == rows[j]);
        }
        lemma_rows_map_last(dl, k, i);
    }
}

pub proof fn lemma_rows_map_absent<K: View, V: View>(rows: Seq<(K, V)>, k: K::V)
    requires
        forall|j: int| 0 <= j < rows.len() ==> #[trigger] rows[j].0@ != k,
    ensures
        !rows_map(rows).dom().contains(k),
    decreases rows.len(),
{
    if rows.len() > 0 {
        let dl = rows.drop_last();
        assert forall|j: int| 0 <= j < dl.len() implies #[trigger] dl[j].0@ != k by {
            assert(dl[j] == rows[j]);
        }
        assert(rows[rows.len() - 1].0@ != k);
        lemma_rows_map_absent(dl, k);
    }
}

pub proof fn lemma_rows_map_update<K: View, V: View>(rows: Seq<(K, V)>, i: int, row: (K, V))
    requires
        last_row_of(rows, row.0@, i),
    ensures
        rows_map(rows.update(i, row)) =~= rows_map(rows).insert(row.0@, row.1@),
    decreases rows.len(),
{
    let u = rows.update(i, row);
    let dl = rows.drop_last();
    if i == rows.len() - 1 {
        assert(u.drop_last() =~= dl);
    } else {
        assert(u.drop_last() =~= dl.update(i, row));
        assert forall|j: int| i < j < dl.len() implies #[trigger] dl[j].0@ != row.0@ by {
            assert(dl[j] == rows[j]);
        }
        assert(rows[rows.len() - 1].0@ != row.0@);
        lemma_rows_map_update(dl, i, row);
        assert(u.last() == rows.last());
    }
}

pub proof fn lemma_rows_map_remove<K: View, V: View>(rows: Seq<(K, V)>, i: int, k: K::V)
    requires
        0 <= i < rows.len(),
        rows[i].0@ == k,
    ensures
        rows_map(rows.remove(i)).remove(k) =~= rows_map(rows).remove(k),
    decreases rows.len(),
{
    let r = rows.remove(i);
    let dl = rows.drop_last();
    if i == rows.len() - 1 {
        assert(r =~= dl);
    } else {
        assert(r.drop_last() =~= dl.remove(i));
        assert(r.last() == rows.last());
        assert(dl[i] == rows[i]);
        lemma_rows_map_remove(dl, i, k);
        let m1 = rows_map(dl.remove(i));
        let m0 = rows_map(dl);
        let last = rows.last();
        assert(rows_map(r) == m1.insert(last.0@, last.1@));
        assert(rows_map(rows) == m0.insert(last.0@, last.1@));
        if last.0@ == k {
            assert(m1.insert(last.0@, last.1@).remove(k) =~= m1.remove(k));
            assert(m0.insert(last.0@, last.1@).remove(k) =~= m0.remove(k));
        } else {
            assert(m1.insert(last.0@, last.1@).remove(k) =~= m1.remove(k).insert(last.0@, last.1@));
            assert(m0.insert(last.0@, last.1@).remove(k) =~= m0.remove(k).insert(last.0@, last.1@));
        }
    }
}

/// Rows of keys and values; its view is the map they stand for.
pub struct Table<K, V> {
    pub rows: Vec<(K, V)>,
}

impl<K: View, V: View> View for Table<K, V> {
    type V = Map<K::V, V::V>;

    open spec fn view(&self) -> Map<K::V, V::V> {
        rows_map(self.rows@)
    }
}

impl<K: KeyEq, V: View> Table<K, V> {
    /// An empty table.
    pub fn new() -> (t: Self)
        ensures
            t@ == Map::<K::V, V::V>::empty(),
    {
        Table { rows: Vec::new() }
    }

    /// The last row whose key is `k`, if any.
    fn find(&self, k: &K) -> (r: Option<usize>)
        ensures
            r matches Some(i) ==> last_row_of(self.rows@, k@, i as int),
            r is None ==> forall|j: int| 0 <= j < self.rows@.len() ==> #[trigger] self.rows@[j].0@ != k@,
    {
        let mut i = self.rows.len();
        while i > 0
            invariant
                i <= self.rows@.len(),
                forall|j: int| i <= j < self.rows@.len() ==> #[trigger] self.rows@[j].0@ != k@,
            decreases i,
        {
            i = i - 1;
            if self.rows[i].0.key_eq(k) {
                return Some(i);
            }
        }
        None
    }

    /// Whether a row with key `k` is present.
    pub fn contains_key(&self, k: &K) -> (b: bool)
        ensures
            b == self@.dom().contains(k@),
    {
        match self.find(k) {
            Some(i) => {
                proof {
                    lemma_rows_map_last(self.rows@, k@, i as int);
                }
                true
            },
            None => {
                proof {
                    lemma_rows_map_absent(self.rows@, k@);
                }
                false
            },
        }
    }

    /// The value stored under `k`, if any.
    pub fn get(&self, k: &K) -> (r: Option<&V>)
        ensures
            r is Some == self@.dom().contains(k@),
            r matches Some(v) ==> v@ == self@[k@],
    {
        match self.find(k) {
            Some(i) => {
                proof {
                    lemma_rows_map_last(self.rows@, k@, i as int);
                }
                Some(&self.rows[i].1)
            },
            None => {
                proof {
                    lemma_rows_map_absent(self.rows@, k@);
                }
                None
            },
        }
    }

    /// Stores `v` under `k`, replacing what was there.
    pub fn insert(&mut self, k: K, v: V)
        ensures
            final(self)@ == old(self)@.insert(k@, v@),
    {
        match self.find(&k) {
            Some(i) => {
                proof {
                    lemma_rows_map_update(self.rows@, i as int, (k, v));
                }
                self.rows.set(i, (k, v));
            },
            None => {
                let ghost pre = self.rows@;
                self.rows.push((k, v));
                proof {
                    assert(self.rows@.drop_last() =~= pre);
                }
            },
        }
    }

    /// Removes whatever is stored under `k`.
    pub fn remove(&mut self, k: &K)
        ensures
            final(self)@ == old(self)@.remove(k@),
    {
        let ghost goal = old(self)@.remove(k@);
        loop
            invariant
                rows_map(self.rows@).remove(k@) == goal,
            ensures
                rows_map(self.rows@) == goal,
            decreases self.rows@.len(),
        {
            match self.find(k) {
                Some(i) => {
                    proof {
                        lemma_rows_map_remove(self.rows@, i as int, k@);
                    }
                    self.rows.remove(i);
                },
                None => {
                    proof {
                        lemma_rows_map_absent(self.rows@, k@);
                        assert(rows_map(self.rows@).remove(k@) =~= rows_map(self.rows@));
                    }
                    break;
                },
            }
        }
    }
}

} // verus!
