//! What every kind of row has in common: an identity key that the store
//! assigns, and a natural key (a name or a title) by which rows are looked up
//! and listed. The functions here work on plain vectors of rows.

use vstd::prelude::*;
use vstd::seq_lib::*;
use crate::text::{lemma_lex_lt_asymmetric, lemma_lex_lt_transitive, lex_lt, place, same_text, Place};

verus! {

/// A row with an identity key and a natural key. All statements are made
/// over the row's view.
pub trait Record: View + Sized {
    /// The natural key of a row: the text by which it is found and listed.
    spec fn key_of(v: Self::V) -> Seq<char>;

    /// The identity key of a row, absent until the row is stored.
    spec fn id_of(v: Self::V) -> Option<i32>;

    /// The row with its identity key replaced and every other field kept.
    spec fn with_id(v: Self::V, id: Option<i32>) -> Self::V;

    /// Replacing the identity key changes the identity key and nothing
    /// else: the natural key stays, the old identity key is forgotten, and
    /// putting back the key a row already has gives the same row.
    proof fn lemma_with_id(v: Self::V, id: Option<i32>)
        ensures
            Self::id_of(Self::with_id(v, id)) == id,
            Self::key_of(Self::with_id(v, id)) == Self::key_of(v),
            Self::with_id(v, Self::id_of(v)) == v,
            forall|other: Option<i32>|
                Self::with_id(#[trigger] Self::with_id(v, other), id) == Self::with_id(v, id),
    ;

    /// The natural key.
    fn key(&self) -> (k: &str)
        ensures
            k@ == Self::key_of(self@),
    ;

    /// The identity key.
    fn id(&self) -> (r: Option<i32>)
        ensures
            r == Self::id_of(self@),
    ;

    /// A copy of the row.
    fn copy(&self) -> (r: Self)
        ensures
            r@ == self@,
    ;

    /// A copy of the row that carries the identity key `id`.
    fn stamped(&self, id: i32) -> (r: Self)
        ensures
            r@ == Self::with_id(self@, Some(id)),
    ;
}

/// The views of a sequence of rows, in the same order.
pub open spec fn views_of<T: View>(rows: Seq<T>) -> Seq<T::V> {
    Seq::new(rows.len(), |i: int| rows[i]@)
}

/// The place of an identity key among identity keys: an absent key comes
/// first, then the keys by their number.
pub open spec fn rank(id: Option<i32>) -> int {
    match id {
        Some(v) => v as int,
        None => -0x8000_0001,
    }
}

/// `a` comes strictly before `b` in a listing: by natural key, and among
/// rows of one natural key by identity key.
pub open spec fn strictly_before<T: Record>(a: T::V, b: T::V) -> bool {
    lex_lt(T::key_of(a), T::key_of(b)) || (T::key_of(a) == T::key_of(b) && rank(T::id_of(a))
        < rank(T::id_of(b)))
}

/// `a` may stand before `b` in a listing.
pub open spec fn in_order<T: Record>(a: T::V, b: T::V) -> bool {
    lex_lt(T::key_of(a), T::key_of(b)) || (T::key_of(a) == T::key_of(b) && rank(T::id_of(a))
        <= rank(T::id_of(b)))
}

/// The rows ascend by natural key, and rows of one natural key by identity
/// key.
pub open spec fn is_sorted<T: Record>(rows: Seq<T::V>) -> bool {
    forall|i: int, j: int| 0 <= i < j < rows.len() ==> in_order::<T>(rows[i], rows[j])
}

/// `out` is the listing of `rows`: the same rows, each as often as in
/// `rows`, in ascending order.
pub open spec fn is_listing<T: Record>(out: Seq<T::V>, rows: Seq<T::V>) -> bool {
    &&& is_sorted::<T>(out)
    &&& out.to_multiset() == rows.to_multiset()
}

/// Row `i` is the first of `rows` whose natural key is `key`.
pub open spec fn is_first_with_key<T: Record>(rows: Seq<T::V>, key: Seq<char>, i: int) -> bool {
    &&& 0 <= i < rows.len()
    &&& T::key_of(rows[i]) == key
    &&& forall|j: int| 0 <= j < i ==> T::key_of(rows[j]) != key
}

/// Some row has the natural key `key`.
pub open spec fn has_key<T: Record>(rows: Seq<T::V>, key: Seq<char>) -> bool {
    exists|i: int| 0 <= i < rows.len() && T::key_of(rows[i]) == key
}

/// The first row whose natural key is `key`, where there is one.
pub open spec fn first_with_key<T: Record>(rows: Seq<T::V>, key: Seq<char>) -> Option<T::V> {
    if has_key::<T>(rows, key) {
        Some(rows[choose|i: int| is_first_with_key::<T>(rows, key, i)])
    } else {
        None
    }
}

/// Row `i` is the first of `rows` whose identity key is `id`.
pub open spec fn is_first_with_id<T: Record>(rows: Seq<T::V>, id: i32, i: int) -> bool {
    &&& 0 <= i < rows.len()
    &&& T::id_of(rows[i]) == Some(id)
    &&& forall|j: int| 0 <= j < i ==> T::id_of(rows[j]) != Some(id)
}

/// Some row has the identity key `id`.
pub open spec fn has_id<T: Record>(rows: Seq<T::V>, id: i32) -> bool {
    exists|i: int| 0 <= i < rows.len() && T::id_of(rows[i]) == Some(id)
}

/// The position of the first row whose identity key is `id`, where there is
/// one.
pub open spec fn position_of_id<T: Record>(rows: Seq<T::V>, id: i32) -> Option<int> {
    if has_id::<T>(rows, id) {
        Some(choose|i: int| is_first_with_id::<T>(rows, id, i))
    } else {
        None
    }
}

/// The first row whose identity key is `id`, where there is one.
pub open spec fn row_of_id<T: Record>(rows: Seq<T::V>, id: i32) -> Option<T::V> {
    match position_of_id::<T>(rows, id) {
        Some(i) => Some(rows[i]),
        None => None,
    }
}

/// A first match is the only first match, and it is the one that
/// `first_with_key` names.
pub proof fn lemma_first_with_key<T: Record>(rows: Seq<T::V>, key: Seq<char>, i: int)
    requires
        is_first_with_key::<T>(rows, key, i),
    ensures
        has_key::<T>(rows, key),
        first_with_key::<T>(rows, key) == Some(rows[i]),
{
    let j = choose|j: int| is_first_with_key::<T>(rows, key, j);
    if j < i {
        assert(T::key_of(rows[j]) != key);
    } else if i < j {
        assert(T::key_of(rows[i]) != key);
    }
}

/// A first match is the only first match, and it is the one that
/// `position_of_id` names.
pub proof fn lemma_position_of_id<T: Record>(rows: Seq<T::V>, id: i32, i: int)
    requires
        is_first_with_id::<T>(rows, id, i),
    ensures
        has_id::<T>(rows, id),
        position_of_id::<T>(rows, id) == Some(i),
        row_of_id::<T>(rows, id) == Some(rows[i]),
{
    let j = choose|j: int| is_first_with_id::<T>(rows, id, j);
    if j < i {
        assert(T::id_of(rows[j]) != Some(id));
    } else if i < j {
        assert(T::id_of(rows[i]) != Some(id));
    }
}

/// Where some row has the natural key, one of them is the first.
proof fn lemma_first_with_key_exists<T: Record>(rows: Seq<T::V>, key: Seq<char>, i: int)
    requires
        0 <= i < rows.len(),
        T::key_of(rows[i]) == key,
    ensures
        exists|j: int| is_first_with_key::<T>(rows, key, j),
    decreases i,
{
    if exists|j: int| 0 <= j < i && T::key_of(rows[j]) == key {
        let j = choose|j: int| 0 <= j < i && T::key_of(rows[j]) == key;
        lemma_first_with_key_exists::<T>(rows, key, j);
    } else {
        assert(is_first_with_key::<T>(rows, key, i));
    }
}

/// Where some row has the identity key, one of them is the first.
proof fn lemma_first_with_id_exists<T: Record>(rows: Seq<T::V>, id: i32, i: int)
    requires
        0 <= i < rows.len(),
        T::id_of(rows[i]) == Some(id),
    ensures
        exists|j: int| is_first_with_id::<T>(rows, id, j),
    decreases i,
{
    if exists|j: int| 0 <= j < i && T::id_of(rows[j]) == Some(id) {
        let j = choose|j: int| 0 <= j < i && T::id_of(rows[j]) == Some(id);
        lemma_first_with_id_exists::<T>(rows, id, j);
    } else {
        assert(is_first_with_id::<T>(rows, id, i));
    }
}

/// What `first_with_key` finds is a row of the table, it has the natural
/// key that was asked for, and no row before it has.
pub proof fn lemma_first_with_key_found<T: Record>(rows: Seq<T::V>, key: Seq<char>)
    requires
        has_key::<T>(rows, key),
    ensures
        first_with_key::<T>(rows, key) is Some,
        rows.contains(first_with_key::<T>(rows, key)->0),
        T::key_of(first_with_key::<T>(rows, key)->0) == key,
        exists|i: int| #[trigger]
            is_first_with_key::<T>(rows, key, i) && rows[i] == first_with_key::<T>(rows, key)->0,
{
    let i = choose|i: int| 0 <= i < rows.len() && T::key_of(rows[i]) == key;
    lemma_first_with_key_exists::<T>(rows, key, i);
    let j = choose|j: int| is_first_with_key::<T>(rows, key, j);
    assert(is_first_with_key::<T>(rows, key, j) && rows[j] == first_with_key::<T>(rows, key)->0);
}

/// What `row_of_id` finds is a row of the table, at the position that
/// `position_of_id` names, and it has the identity key that was asked for.
pub proof fn lemma_row_of_id_found<T: Record>(rows: Seq<T::V>, id: i32)
    requires
        has_id::<T>(rows, id),
    ensures
        position_of_id::<T>(rows, id) is Some,
        is_first_with_id::<T>(rows, id, position_of_id::<T>(rows, id)->0),
        row_of_id::<T>(rows, id) == Some(rows[position_of_id::<T>(rows, id)->0]),
        rows.contains(row_of_id::<T>(rows, id)->0),
        T::id_of(row_of_id::<T>(rows, id)->0) == Some(id),
{
    let i = choose|i: int| 0 <= i < rows.len() && T::id_of(rows[i]) == Some(id);
    lemma_first_with_id_exists::<T>(rows, id, i);
}

/// A row that comes strictly before a second, which may stand before a
/// third, may stand before the third.
pub proof fn lemma_in_order_after<T: Record>(a: T::V, b: T::V, c: T::V)
    requires
        strictly_before::<T>(a, b),
        in_order::<T>(b, c),
    ensures
        in_order::<T>(a, c),
{
    let ka = T::key_of(a);
    let kb = T::key_of(b);
    let kc = T::key_of(c);
    if lex_lt(ka, kb) {
        lemma_lex_lt_transitive(ka, kb, kc);
    }
}

/// Whether one identity key stands strictly before another.
fn id_before(a: Option<i32>, b: Option<i32>) -> (r: bool)
    ensures
        r == (rank(a) < rank(b)),
{
    match (a, b) {
        (None, None) => false,
        (None, Some(_)) => true,
        (Some(_), None) => false,
        (Some(x), Some(y)) => x < y,
    }
}

/// Whether row `a` comes strictly before row `b` in a listing.
pub fn comes_before<T: Record>(a: &T, b: &T) -> (r: bool)
    ensures
        r == strictly_before::<T>(a@, b@),
        !r ==> in_order::<T>(b@, a@),
{
    match place(a.key(), b.key()) {
        Place::Before => true,
        Place::Same => id_before(a.id(), b.id()),
        Place::After => {
            proof {
                lemma_lex_lt_asymmetric(T::key_of(b@), T::key_of(a@));
            }
            false
        },
    }
}

/// Lists the rows in ascending order of their natural key, rows of one
/// natural key in ascending order of their identity key.
pub fn sorted<T: Record>(rows: &Vec<T>) -> (out: Vec<T>)
    ensures
        is_listing::<T>(views_of(out@), views_of(rows@)),
{
    let mut out: Vec<T> = Vec::new();
    let mut i: usize = 0;
    assert(views_of(rows@).take(0) =~= views_of(out@));
    while i < rows.len()
        invariant
            i <= rows.len(),
            is_sorted::<T>(views_of(out@)),
            views_of(out@).to_multiset() == views_of(rows@).take(i as int).to_multiset(),
        decreases rows.len() - i,
    {
        let row = rows[i].copy();
        let mut k: usize = 0;
        while k < out.len() && !comes_before(&row, &out[k])
            invariant
                k <= out.len(),
                forall|j: int| 0 <= j < k ==> in_order::<T>(#[trigger] out@[j]@, row@),
            decreases out.len() - k,
        {
            k = k + 1;
        }
        let ghost before = views_of(out@);
        out.insert(k, row);
        proof {
            let after = views_of(out@);
            assert(after =~= before.insert(k as int, row@));
            assert forall|a: int, b: int| 0 <= a < b < after.len() implies in_order::<T>(
                after[a],
                after[b],
            ) by {
                if b == k {
                    assert(after[a] == before[a]);
                } else if a == k {
                    assert(after[b] == before[b - 1]);
                    if b - 1 > k {
                        assert(in_order::<T>(before[k as int], before[b - 1]));
                    }
                    lemma_in_order_after::<T>(row@, before[k as int], before[b - 1]);
                } else {
                    let a0 = if a < k { a } else { a - 1 };
                    let b0 = if b < k { b } else { b - 1 };
                    assert(after[a] == before[a0]);
                    assert(after[b] == before[b0]);
                    assert(in_order::<T>(before[a0], before[b0]));
                }
            }
            to_multiset_insert(before, k as int, row@);
            let seen = views_of(rows@).take(i as int);
            assert(views_of(rows@).take(i as int + 1) =~= seen.push(rows@[i as int]@));
            to_multiset_build(seen, rows@[i as int]@);
        }
        i = i + 1;
    }
    assert(views_of(rows@).take(rows.len() as int) =~= views_of(rows@));
    out
}

/// Finds the first row whose natural key is `key`.
pub fn find_by_key<T: Record>(rows: &Vec<T>, key: &str) -> (r: Option<usize>)
    ensures
        match r {
            Some(i) => is_first_with_key::<T>(views_of(rows@), key@, i as int),
            None => !has_key::<T>(views_of(rows@), key@),
        },
{
    let mut i: usize = 0;
    while i < rows.len()
        invariant
            i <= rows.len(),
            forall|j: int| 0 <= j < i ==> T::key_of(#[trigger] views_of(rows@)[j]) != key@,
        decreases rows.len() - i,
    {
        if same_text(rows[i].key(), key) {
            return Some(i);
        }
        i = i + 1;
    }
    None
}

/// Finds the first row whose identity key is `id`.
pub fn find_by_id<T: Record>(rows: &Vec<T>, id: i32) -> (r: Option<usize>)
    ensures
        match r {
            Some(i) => is_first_with_id::<T>(views_of(rows@), id, i as int),
            None => !has_id::<T>(views_of(rows@), id),
        },
{
    let mut i: usize = 0;
    while i < rows.len()
        invariant
            i <= rows.len(),
            forall|j: int| 0 <= j < i ==> T::id_of(#[trigger] views_of(rows@)[j]) != Some(id),
        decreases rows.len() - i,
    {
        let found = match rows[i].id() {
            Some(v) => v == id,
            None => false,
        };
        if found {
            return Some(i);
        }
        i = i + 1;
    }
    None
}

} // verus!
