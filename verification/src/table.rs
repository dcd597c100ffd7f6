//! A table: rows of one kind in the order in which they were stored, and the
//! counter from which the next identity key is taken.

use vstd::prelude::*;
use crate::error::DbError;
use crate::record::{
    find_by_id, find_by_key, first_with_key, has_id, is_listing, lemma_first_with_key,
    lemma_position_of_id, position_of_id, rank, row_of_id, sorted, views_of, Record,
};

verus! {

/// A table of rows of kind `T`.
pub struct Table<T: Record> {
    rows: Vec<T>,
    last_id: i32,
}

/// What a table is in contracts: the views of its rows in storage order, and
/// the last identity key it has handed out (0 before the first).
pub struct TableView<T: Record> {
    pub rows: Seq<T::V>,
    pub last_id: int,
}

/// Every row has an identity key, and the keys ascend strictly.
pub open spec fn ids_ascend<T: Record>(rows: Seq<T::V>) -> bool {
    &&& forall|i: int| 0 <= i < rows.len() ==> (#[trigger] T::id_of(rows[i])) is Some
    &&& forall|i: int, j: int|
        0 <= i < j < rows.len() ==> rank(T::id_of(rows[i])) < rank(T::id_of(rows[j]))
}

impl<T: Record> TableView<T> {
    /// The table before anything was stored in it.
    pub open spec fn empty() -> TableView<T> {
        TableView { rows: Seq::empty(), last_id: 0 }
    }

    /// The table is valid: every row has an identity key, the keys ascend
    /// strictly in storage order, and none is beyond the last one handed out.
    pub open spec fn wf(self) -> bool {
        &&& 0 <= self.last_id <= i32::MAX
        &&& ids_ascend::<T>(self.rows)
        &&& forall|i: int|
            0 <= i < self.rows.len() ==> rank(#[trigger] T::id_of(self.rows[i])) <= self.last_id
    }

    /// The table that holds the given rows and has handed out no identity
    /// key beyond that of the last one.
    pub open spec fn loaded(rows: Seq<T::V>) -> TableView<T> {
        TableView {
            rows,
            last_id: if rows.len() > 0 && rank(T::id_of(rows.last())) > 0 {
                rank(T::id_of(rows.last()))
            } else {
                0
            },
        }
    }

    /// The identity key that the next stored row gets.
    pub open spec fn next_id(self) -> i32 {
        (self.last_id + 1) as i32
    }

    /// The table after `payload` was stored: it stands last, under the next
    /// identity key, whatever key it came with.
    pub open spec fn inserted(self, payload: T::V) -> TableView<T> {
        TableView {
            rows: self.rows.push(T::with_id(payload, Some(self.next_id()))),
            last_id: self.last_id + 1,
        }
    }

    /// The table after the row with identity key `id` was overwritten by
    /// `payload`: the row keeps its place and its identity key. A table
    /// without such a row stays as it is.
    pub open spec fn replaced(self, id: i32, payload: T::V) -> TableView<T> {
        match position_of_id::<T>(self.rows, id) {
            Some(i) => TableView {
                rows: self.rows.update(i, T::with_id(payload, Some(id))),
                last_id: self.last_id,
            },
            None => self,
        }
    }

    /// The table after the row with identity key `id` was removed. A table
    /// without such a row stays as it is.
    pub open spec fn removed(self, id: i32) -> TableView<T> {
        match position_of_id::<T>(self.rows, id) {
            Some(i) => TableView { rows: self.rows.remove(i), last_id: self.last_id },
            None => self,
        }
    }
}

impl<T: Record> TableView<T> {
    /// In a valid table every row has an identity key.
    pub proof fn lemma_rows_have_ids(self, row: T::V)
        requires
            self.wf(),
            self.rows.contains(row),
        ensures
            T::id_of(row) is Some,
    {
    }
}

impl<T: Record> View for Table<T> {
    type V = TableView<T>;

    closed spec fn view(&self) -> TableView<T> {
        TableView { rows: views_of(self.rows@), last_id: self.last_id as int }
    }
}

impl<T: Record> Table<T> {
    /// A table without rows.
    pub fn new() -> (t: Self)
        ensures
            t@ == TableView::<T>::empty(),
            t@.wf(),
    {
        let t = Table { rows: Vec::new(), last_id: 0 };
        assert(t@.rows =~= Seq::empty());
        t
    }

    /// The table that holds the given rows, as they were read from where
    /// they are kept. There is one if every row has an identity key and the
    /// keys ascend strictly; the next row stored gets the key after the last.
    pub fn from_rows(rows: Vec<T>) -> (r: Option<Self>)
        ensures
            r is Some <==> ids_ascend::<T>(views_of(rows@)),
            r is Some ==> r->0@ == TableView::<T>::loaded(views_of(rows@)) && r->0@.wf(),
    {
        let n: usize = rows.len();
        let mut last: i32 = 0;
        let mut i: usize = 0;
        let ghost all = views_of(rows@);
        while i < n
            invariant
                i <= n,
                n == rows@.len(),
                all == views_of(rows@),
                ids_ascend::<T>(all.take(i as int)),
                i > 0 ==> Some(last) == T::id_of(all[i - 1]),
                i == 0 ==> last == 0,
            decreases n - i,
        {
            let ghost seen = all.take(i as int);
            match rows[i].id() {
                None => {
                    assert(T::id_of(all[i as int]) is None);
                    return None;
                },
                Some(v) => {
                    if i > 0 && v <= last {
                        assert(!(rank(T::id_of(all[i - 1])) < rank(T::id_of(all[i as int]))));
                        return None;
                    }
                    last = v;
                },
            }
            proof {
                let next = all.take(i + 1);
                assert forall|a: int, b: int| 0 <= a < b < next.len() implies rank(
                    T::id_of(next[a]),
                ) < rank(T::id_of(next[b])) by {
                    assert(next[a] == seen[a]);
                    if b < i {
                        assert(next[b] == seen[b]);
                    } else if a < i - 1 {
                        assert(rank(T::id_of(seen[a])) < rank(T::id_of(seen[i - 1])));
                    }
                }
                assert forall|a: int| 0 <= a < next.len() implies (#[trigger] T::id_of(
                    next[a],
                )) is Some by {
                    if a < i {
                        assert(next[a] == seen[a]);
                    }
                }
            }
            i = i + 1;
        }
        assert(all.take(n as int) =~= all);
        let last_id: i32 = if last > 0 {
            last
        } else {
            0
        };
        let t = Table { rows, last_id };
        proof {
            assert forall|a: int| 0 <= a < all.len() implies rank(#[trigger] T::id_of(all[a]))
                <= last_id by {
                if a < all.len() - 1 {
                    assert(rank(T::id_of(all[a])) < rank(T::id_of(all[all.len() - 1])));
                }
            }
        }
        Some(t)
    }

    /// The number of rows.
    pub fn len(&self) -> (n: usize)
        ensures
            n == self@.rows.len(),
    {
        self.rows.len()
    }

    /// The row at position `i` in storage order.
    pub fn row(&self, i: usize) -> (r: &T)
        requires
            i < self@.rows.len(),
        ensures
            r@ == self@.rows[i as int],
    {
        &self.rows[i]
    }

    /// The rows in ascending order of natural key, rows of one natural key
    /// in ascending order of identity key.
    pub fn list(&self) -> (out: Vec<T>)
        ensures
            is_listing::<T>(views_of(out@), self@.rows),
    {
        sorted(&self.rows)
    }

    /// The first row in storage order whose natural key is `key`.
    pub fn first_by_key(&self, key: &str) -> (r: Result<T, DbError>)
        ensures
            match r {
                Ok(row) => first_with_key::<T>(self@.rows, key@) == Some(row@),
                Err(e) => e == DbError::NotFound && first_with_key::<T>(self@.rows, key@) is None,
            },
    {
        match find_by_key(&self.rows, key) {
            Some(i) => {
                proof {
                    lemma_first_with_key::<T>(self@.rows, key@, i as int);
                }
                Ok(self.rows[i].copy())
            },
            None => Err(DbError::NotFound),
        }
    }

    /// The row whose identity key is `id`.
    pub fn by_id(&self, id: i32) -> (r: Result<T, DbError>)
        ensures
            match r {
                Ok(row) => row_of_id::<T>(self@.rows, id) == Some(row@),
                Err(e) => e == DbError::NotFound && row_of_id::<T>(self@.rows, id) is None,
            },
    {
        match find_by_id(&self.rows, id) {
            Some(i) => {
                proof {
                    lemma_position_of_id::<T>(self@.rows, id, i as int);
                }
                Ok(self.rows[i].copy())
            },
            None => Err(DbError::NotFound),
        }
    }

    /// Stores `payload` as a new row under the next identity key and returns
    /// the stored row. Fails, and changes nothing, when the last identity
    /// key has been handed out.
    pub fn insert(&mut self, payload: &T) -> (r: Result<T, DbError>)
        requires
            old(self)@.wf(),
        ensures
            final(self)@.wf(),
            match r {
                Ok(row) => {
                    &&& old(self)@.last_id < i32::MAX
                    &&& final(self)@ == old(self)@.inserted(payload@)
                    &&& row@ == T::with_id(payload@, Some(old(self)@.next_id()))
                },
                Err(e) => {
                    &&& e == DbError::StorageUnavailable
                    &&& old(self)@.last_id == i32::MAX
                    &&& final(self)@ == old(self)@
                },
            },
    {
        if self.last_id == i32::MAX {
            return Err(DbError::StorageUnavailable);
        }
        let id: i32 = self.last_id + 1;
        let row = payload.stamped(id);
        let kept = row.copy();
        let ghost before = self@;
        self.rows.push(row);
        self.last_id = id;
        proof {
            T::lemma_with_id(payload@, Some(id));
            assert(self@.rows =~= before.rows.push(T::with_id(payload@, Some(id))));
        }
        Ok(kept)
    }

    /// Overwrites the row whose identity key is `id` by `payload` and
    /// returns the row as it is stored then: with the fields of `payload`
    /// and the identity key `id`. Fails, and changes nothing, when no row
    /// has that key.
    pub fn replace(&mut self, id: i32, payload: &T) -> (r: Result<T, DbError>)
        requires
            old(self)@.wf(),
        ensures
            final(self)@.wf(),
            final(self)@ == old(self)@.replaced(id, payload@),
            match r {
                Ok(row) => has_id::<T>(old(self)@.rows, id) && row@ == T::with_id(
                    payload@,
                    Some(id),
                ),
                Err(e) => e == DbError::NotFound && !has_id::<T>(old(self)@.rows, id),
            },
    {
        match find_by_id(&self.rows, id) {
            Some(i) => {
                let row = payload.stamped(id);
                let kept = row.copy();
                let ghost before = self@;
                self.rows[i] = row;
                proof {
                    lemma_position_of_id::<T>(before.rows, id, i as int);
                    T::lemma_with_id(payload@, Some(id));
                    assert(self@.rows =~= before.rows.update(
                        i as int,
                        T::with_id(payload@, Some(id)),
                    ));
                }
                Ok(kept)
            },
            None => Err(DbError::NotFound),
        }
    }

    /// Removes the row whose identity key is `id` and returns how many rows
    /// that were: 1, or 0 when no row has that key.
    pub fn remove(&mut self, id: i32) -> (n: usize)
        requires
            old(self)@.wf(),
        ensures
            final(self)@.wf(),
            final(self)@ == old(self)@.removed(id),
            n == (if has_id::<T>(old(self)@.rows, id) { 1usize } else { 0usize }),
    {
        match find_by_id(&self.rows, id) {
            Some(i) => {
                let ghost before = self@;
                self.rows.remove(i);
                proof {
                    lemma_position_of_id::<T>(before.rows, id, i as int);
                    assert(self@.rows =~= before.rows.remove(i as int));
                }
                1
            },
            None => 0,
        }
    }
}

} // verus!
