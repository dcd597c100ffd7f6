//! What holds of the store whatever it contains: how storing, listing,
//! reading back, overwriting and deleting fit together.

use vstd::prelude::*;
use vstd::seq_lib::*;
use crate::db::CatalogView;
use crate::models::{Genre, Partition, PartitionView, Person, ShowPartition, ShowPartitionView};
use crate::record::{
    first_with_key, has_id, in_order, is_first_with_id, is_first_with_key, is_listing,
    lemma_first_with_key_found, lemma_position_of_id, lemma_row_of_id_found, position_of_id, rank,
    row_of_id, strictly_before, Record,
};
use crate::table::{ids_ascend, TableView};
use crate::text::{lemma_lex_lt_asymmetric, lex_lt};

verus! {

/// A listing of rows whose identity keys differ holds each of the rows
/// once, and nothing else.
pub proof fn lemma_listing_of_distinct_rows<T: Record>(listing: Seq<T::V>, rows: Seq<T::V>)
    requires
        ids_ascend::<T>(rows),
        is_listing::<T>(listing, rows),
    ensures
        listing.len() == rows.len(),
        listing.no_duplicates(),
        forall|x: T::V| listing.contains(x) <==> rows.contains(x),
        forall|x: T::V| rows.contains(x) ==> listing.to_multiset().count(x) == 1,
{
    assert(rows.no_duplicates()) by {
        assert forall|i: int, j: int|
            0 <= i < rows.len() && 0 <= j < rows.len() && i != j implies rows[i] != rows[j] by {
            if i < j {
                assert(rank(T::id_of(rows[i])) < rank(T::id_of(rows[j])));
            } else {
                assert(rank(T::id_of(rows[j])) < rank(T::id_of(rows[i])));
            }
        }
    }
    rows.lemma_multiset_has_no_duplicates();
    listing.lemma_multiset_has_no_duplicates_conv();
    to_multiset_len(listing);
    to_multiset_len(rows);
    assert forall|x: T::V| listing.contains(x) <==> rows.contains(x) by {
        to_multiset_contains(listing, x);
        to_multiset_contains(rows, x);
    }
    assert forall|x: T::V| rows.contains(x) implies listing.to_multiset().count(x) == 1 by {
        to_multiset_contains(rows, x);
    }
}

/// Of two rows at most one comes strictly before the other, and a row that
/// comes strictly before another differs from it in natural key or in
/// identity key.
pub proof fn lemma_strictly_before_asymmetric<T: Record>(a: T::V, b: T::V)
    requires
        strictly_before::<T>(a, b),
    ensures
        !strictly_before::<T>(b, a),
        a != b,
{
    let ka = T::key_of(a);
    let kb = T::key_of(b);
    if lex_lt(ka, kb) {
        lemma_lex_lt_asymmetric(ka, kb);
    }
    if lex_lt(kb, ka) {
        lemma_lex_lt_asymmetric(kb, ka);
    }
}

/// Each row comes strictly before every later one.
pub open spec fn is_strictly_sorted<T: Record>(rows: Seq<T::V>) -> bool {
    forall|i: int, j: int| 0 <= i < j < rows.len() ==> strictly_before::<T>(rows[i], rows[j])
}

/// Two strictly ascending sequences of the same rows are the same sequence.
pub proof fn lemma_strictly_sorted_is_unique<T: Record>(a: Seq<T::V>, b: Seq<T::V>)
    requires
        is_strictly_sorted::<T>(a),
        is_strictly_sorted::<T>(b),
        a.to_multiset() == b.to_multiset(),
    ensures
        a == b,
    decreases a.len(),
{
    to_multiset_len(a);
    to_multiset_len(b);
    if a.len() == 0 {
        assert(a =~= b);
    } else {
        to_multiset_contains(a, a[0]);
        to_multiset_contains(b, a[0]);
        to_multiset_contains(a, b[0]);
        to_multiset_contains(b, b[0]);
        assert(a.contains(a[0]));
        assert(b.contains(b[0]));
        let j = choose|j: int| 0 <= j < b.len() && b[j] == a[0];
        let i = choose|i: int| 0 <= i < a.len() && a[i] == b[0];
        if i > 0 && j > 0 {
            assert(strictly_before::<T>(a[0], a[i]));
            assert(strictly_before::<T>(b[0], b[j]));
            lemma_strictly_before_asymmetric::<T>(a[0], b[0]);
        }
        assert(a[0] == b[0]);
        let at = a.remove(0);
        let bt = b.remove(0);
        to_multiset_remove(a, 0);
        to_multiset_remove(b, 0);
        assert forall|x: int, y: int| 0 <= x < y < at.len() implies strictly_before::<T>(
            at[x],
            at[y],
        ) by {
            assert(at[x] == a[x + 1] && at[y] == a[y + 1]);
        }
        assert forall|x: int, y: int| 0 <= x < y < bt.len() implies strictly_before::<T>(
            bt[x],
            bt[y],
        ) by {
            assert(bt[x] == b[x + 1] && bt[y] == b[y + 1]);
        }
        lemma_strictly_sorted_is_unique::<T>(at, bt);
        assert forall|k: int| 0 <= k < a.len() implies a[k] == b[k] by {
            if k > 0 {
                assert(a[k] == at[k - 1]);
                assert(b[k] == bt[k - 1]);
            }
        }
        assert(a =~= b);
    }
}

/// Rows whose identity keys differ have one listing and no other: the
/// order of a listing leaves nothing open.
pub proof fn law_listing_is_unique<T: Record>(rows: Seq<T::V>, a: Seq<T::V>, b: Seq<T::V>)
    requires
        ids_ascend::<T>(rows),
        is_listing::<T>(a, rows),
        is_listing::<T>(b, rows),
    ensures
        a == b,
{
    lemma_listing_is_strict::<T>(rows, a);
    lemma_listing_is_strict::<T>(rows, b);
    lemma_strictly_sorted_is_unique::<T>(a, b);
}

/// In a listing of rows whose identity keys differ, each row comes strictly
/// before every later one.
pub proof fn lemma_listing_is_strict<T: Record>(rows: Seq<T::V>, listing: Seq<T::V>)
    requires
        ids_ascend::<T>(rows),
        is_listing::<T>(listing, rows),
    ensures
        is_strictly_sorted::<T>(listing),
{
    lemma_listing_of_distinct_rows::<T>(listing, rows);
    assert forall|i: int, j: int| 0 <= i < j < listing.len() implies strictly_before::<T>(
        listing[i],
        listing[j],
    ) by {
        assert(in_order::<T>(listing[i], listing[j]));
        assert(listing.contains(listing[i]));
        assert(listing.contains(listing[j]));
        let p = choose|p: int| 0 <= p < rows.len() && rows[p] == listing[i];
        let q = choose|q: int| 0 <= q < rows.len() && rows[q] == listing[j];
        if p < q {
            assert(rank(T::id_of(rows[p])) < rank(T::id_of(rows[q])));
        } else if q < p {
            assert(rank(T::id_of(rows[q])) < rank(T::id_of(rows[p])));
        }
    }
}

/// Storing, then listing: the stored row stands in the listing exactly
/// once, and at its place in the order: every row before it comes strictly
/// before it, and it comes strictly before every row after it.
pub proof fn law_stored_row_is_listed_once<T: Record>(
    table: TableView<T>,
    payload: T::V,
    listing: Seq<T::V>,
)
    requires
        table.wf(),
        table.last_id < i32::MAX,
        is_listing::<T>(listing, table.inserted(payload).rows),
    ensures
        table.inserted(payload).wf(),
        listing.to_multiset().count(T::with_id(payload, Some(table.next_id()))) == 1,
        exists|k: int|
            {
                &&& 0 <= k < listing.len()
                &&& #[trigger] listing[k] == T::with_id(payload, Some(table.next_id()))
                &&& forall|i: int| 0 <= i < k ==> strictly_before::<T>(listing[i], listing[k])
                &&& forall|j: int|
                    k < j < listing.len() ==> strictly_before::<T>(listing[k], listing[j])
            },
{
    let row = T::with_id(payload, Some(table.next_id()));
    let after = table.inserted(payload);
    T::lemma_with_id(payload, Some(table.next_id()));
    assert(after.rows.last() == row);
    assert(after.rows.contains(row));
    lemma_listing_of_distinct_rows::<T>(listing, after.rows);
    lemma_listing_is_strict::<T>(after.rows, listing);
    let k = choose|k: int| 0 <= k < listing.len() && listing[k] == row;
    assert(listing[k] == row);
}

/// Storing, then reading back by the assigned identity key: the row that
/// is read is the input in every field but the identity key.
pub proof fn law_stored_row_reads_back<T: Record>(table: TableView<T>, payload: T::V)
    requires
        table.wf(),
        table.last_id < i32::MAX,
    ensures
        row_of_id::<T>(table.inserted(payload).rows, table.next_id()) == Some(
            T::with_id(payload, Some(table.next_id())),
        ),
        T::with_id(
            row_of_id::<T>(table.inserted(payload).rows, table.next_id())->0,
            T::id_of(payload),
        ) == payload,
{
    let id = table.next_id();
    let after = table.inserted(payload);
    T::lemma_with_id(payload, Some(id));
    T::lemma_with_id(payload, T::id_of(payload));
    assert(is_first_with_id::<T>(after.rows, id, table.rows.len() as int));
    lemma_position_of_id::<T>(after.rows, id, table.rows.len() as int);
}

/// An identity key that no row has: overwriting and deleting under it
/// change nothing.
pub proof fn law_absent_key_changes_nothing<T: Record>(table: TableView<T>, id: i32, payload: T::V)
    requires
        !has_id::<T>(table.rows, id),
    ensures
        table.replaced(id, payload) == table,
        table.removed(id) == table,
{
}

/// Deleting keeps a table valid and touches no row but the one with the
/// identity key; afterwards no row has that key.
pub proof fn law_delete_touches_one_row<T: Record>(table: TableView<T>, id: i32)
    requires
        table.wf(),
    ensures
        table.removed(id).wf(),
        !has_id::<T>(table.removed(id).rows, id),
        forall|other: i32|
            other != id ==> #[trigger] row_of_id::<T>(table.removed(id).rows, other) == row_of_id::<
                T,
            >(table.rows, other),
{
    if has_id::<T>(table.rows, id) {
        lemma_row_of_id_found::<T>(table.rows, id);
        let i = position_of_id::<T>(table.rows, id)->0;
        let removed = table.removed(id).rows;
        assert forall|k: int| 0 <= k < removed.len() implies T::id_of(#[trigger] removed[k])
            != Some(id) by {
            if k < i {
                assert(removed[k] == table.rows[k]);
            } else {
                assert(removed[k] == table.rows[k + 1]);
                assert(rank(T::id_of(table.rows[i])) < rank(T::id_of(table.rows[k + 1])));
            }
        }
        assert forall|other: i32| other != id implies #[trigger] row_of_id::<T>(removed, other)
            == row_of_id::<T>(table.rows, other) by {
            if has_id::<T>(table.rows, other) {
                lemma_row_of_id_found::<T>(table.rows, other);
                let j = position_of_id::<T>(table.rows, other)->0;
                let j2 = if j < i {
                    j
                } else {
                    j - 1
                };
                assert(removed[j2] == table.rows[j]);
                assert forall|m: int| 0 <= m < j2 implies T::id_of(removed[m]) != Some(other) by {
                    if m < i {
                        assert(removed[m] == table.rows[m]);
                    } else {
                        assert(removed[m] == table.rows[m + 1]);
                    }
                }
                assert(is_first_with_id::<T>(removed, other, j2));
                lemma_position_of_id::<T>(removed, other, j2);
            } else {
                if has_id::<T>(removed, other) {
                    let m = choose|m: int|
                        0 <= m < removed.len() && T::id_of(removed[m]) == Some(other);
                    if m < i {
                        assert(removed[m] == table.rows[m]);
                    } else {
                        assert(removed[m] == table.rows[m + 1]);
                    }
                }
            }
        }
    }
}

/// Overwriting keeps a table valid and touches no row but the one with the
/// identity key, which then holds the new fields under its old key.
pub proof fn law_overwrite_touches_one_row<T: Record>(table: TableView<T>, id: i32, payload: T::V)
    requires
        table.wf(),
    ensures
        table.replaced(id, payload).wf(),
        table.replaced(id, payload).rows.len() == table.rows.len(),
        forall|other: i32|
            other != id ==> #[trigger] row_of_id::<T>(table.replaced(id, payload).rows, other)
                == row_of_id::<T>(table.rows, other),
        has_id::<T>(table.rows, id) ==> row_of_id::<T>(table.replaced(id, payload).rows, id)
            == Some(T::with_id(payload, Some(id))),
{
    T::lemma_with_id(payload, Some(id));
    if has_id::<T>(table.rows, id) {
        lemma_row_of_id_found::<T>(table.rows, id);
        let i = position_of_id::<T>(table.rows, id)->0;
        let replaced = table.replaced(id, payload).rows;
        assert(is_first_with_id::<T>(replaced, id, i));
        lemma_position_of_id::<T>(replaced, id, i);
        assert forall|other: i32| other != id implies #[trigger] row_of_id::<T>(replaced, other)
            == row_of_id::<T>(table.rows, other) by {
            if has_id::<T>(table.rows, other) {
                lemma_row_of_id_found::<T>(table.rows, other);
                let j = position_of_id::<T>(table.rows, other)->0;
                assert(is_first_with_id::<T>(replaced, other, j));
                lemma_position_of_id::<T>(replaced, other, j);
            } else {
                if has_id::<T>(replaced, other) {
                    let m = choose|m: int|
                        0 <= m < replaced.len() && T::id_of(replaced[m]) == Some(other);
                    assert(replaced[m] == table.rows[m]);
                }
            }
        }
    }
}

/// In a valid table the row at a position is the row that is found under
/// its identity key.
pub proof fn lemma_row_is_found_by_its_id<T: Record>(table: TableView<T>, i: int)
    requires
        table.wf(),
        0 <= i < table.rows.len(),
    ensures
        T::id_of(table.rows[i]) is Some,
        row_of_id::<T>(table.rows, T::id_of(table.rows[i])->0) == Some(table.rows[i]),
{
    let id = T::id_of(table.rows[i])->0;
    assert forall|j: int| 0 <= j < i implies T::id_of(table.rows[j]) != Some(id) by {
        assert(rank(T::id_of(table.rows[j])) < rank(T::id_of(table.rows[i])));
    }
    assert(is_first_with_id::<T>(table.rows, id, i));
    lemma_position_of_id::<T>(table.rows, id, i);
}

/// The join of the first `n` partitions ascends by identity key, and stays
/// below the keys of the partitions from `n` on.
proof fn lemma_selected_prefix(c: CatalogView, person: Option<i32>, genre: Option<i32>, n: int)
    requires
        c.partitions.wf(),
        0 <= n <= c.partitions.rows.len(),
    ensures
        ids_ascend::<ShowPartition>(
            c.partitions.rows.take(n).filter_map(c.projection(person, genre)),
        ),
        forall|k: int, m: int|
            0 <= k < c.partitions.rows.take(n).filter_map(c.projection(person, genre)).len() && n
                <= m < c.partitions.rows.len() ==> rank(
                (#[trigger] c.partitions.rows.take(n).filter_map(c.projection(person, genre))[k]).id,
            ) < rank(#[trigger] Partition::id_of(c.partitions.rows[m])),
    decreases n,
{
    let rows = c.partitions.rows;
    let f = c.projection(person, genre);
    if n == 0 {
        assert(rows.take(0).filter_map(f) =~= Seq::empty());
    } else {
        lemma_selected_prefix(c, person, genre, n - 1);
        rows.lemma_filter_map_take_succ(f, n - 1);
        let before = rows.take(n - 1).filter_map(f);
        let now = rows.take(n).filter_map(f);
        assert forall|k: int| 0 <= k < now.len() implies (#[trigger] ShowPartition::id_of(
            now[k],
        )) is Some && (forall|m: int|
            n <= m < rows.len() ==> rank(now[k].id) < rank(
                #[trigger] Partition::id_of(rows[m]),
            )) by {
            if k < before.len() {
                assert(now[k] == before[k]);
                assert(rank(before[k].id) < rank(Partition::id_of(rows[n - 1])));
            } else {
                assert(now[k].id == rows[n - 1].id);
            }
            assert forall|m: int| n <= m < rows.len() implies rank(now[k].id) < rank(
                #[trigger] Partition::id_of(rows[m]),
            ) by {
                assert(rank(Partition::id_of(rows[n - 1])) < rank(Partition::id_of(rows[m])));
            }
        }
        assert forall|i: int, j: int| 0 <= i < j < now.len() implies rank(
            ShowPartition::id_of(now[i]),
        ) < rank(ShowPartition::id_of(now[j])) by {
            assert(now[i] == before[i]);
            if j < before.len() {
                assert(now[j] == before[j]);
            } else {
                assert(now[j].id == rows[n - 1].id);
                assert(rank(before[i].id) < rank(Partition::id_of(rows[n - 1])));
            }
        }
    }
}

/// The rows of a join have the identity keys of their partitions, in
/// ascending order.
pub proof fn lemma_selected_ids_ascend(c: CatalogView, person: Option<i32>, genre: Option<i32>)
    requires
        c.partitions.wf(),
    ensures
        ids_ascend::<ShowPartition>(c.selected(person, genre)),
{
    let n = c.partitions.rows.len() as int;
    lemma_selected_prefix(c, person, genre, n);
    assert(c.partitions.rows.take(n) =~= c.partitions.rows);
}

/// The partitions as they are shown have one listing and no other.
pub proof fn law_shown_listing_is_unique(
    c: CatalogView,
    a: Seq<ShowPartitionView>,
    b: Seq<ShowPartitionView>,
)
    requires
        c.wf(),
        is_listing::<ShowPartition>(a, c.joined()),
        is_listing::<ShowPartition>(b, c.joined()),
    ensures
        a == b,
{
    lemma_selected_ids_ascend(c, None, None);
    law_listing_is_unique::<ShowPartition>(c.joined(), a, b);
}

/// Deleting does not cascade. Deleting a partition leaves the persons and
/// the genres as they are. Deleting a person or a genre leaves the
/// partitions as they are: a partition that refers to the deleted row stays
/// in its table with its reference, and is no longer shown.
pub proof fn law_delete_does_not_cascade(c: CatalogView, id: i32, p: PartitionView)
    requires
        c.wf(),
    ensures
        c.with_partitions(c.partitions.removed(id)).persons == c.persons,
        c.with_partitions(c.partitions.removed(id)).genres == c.genres,
        c.with_persons(c.persons.removed(id)).partitions == c.partitions,
        c.with_persons(c.persons.removed(id)).genres == c.genres,
        c.with_genres(c.genres.removed(id)).partitions == c.partitions,
        c.with_genres(c.genres.removed(id)).persons == c.persons,
        p.person_id == id ==> c.with_persons(c.persons.removed(id)).show(p) is None,
        p.genre_id == id ==> c.with_genres(c.genres.removed(id)).show(p) is None,
{
    law_delete_touches_one_row::<Person>(c.persons, id);
    law_delete_touches_one_row::<Genre>(c.genres, id);
}

/// Storing a partition, then listing the partitions as they are shown:
/// the new partition stands in the listing exactly once, under its new
/// identity key, with the title, the full name and the name it was stored
/// for.
pub proof fn law_created_partition_is_shown_once(
    c: CatalogView,
    title: Seq<char>,
    full_name: Seq<char>,
    name: Seq<char>,
    listing: Seq<ShowPartitionView>,
)
    requires
        c.wf(),
        c.resolved(title, full_name, name) is Some,
        c.partitions.last_id < i32::MAX,
        is_listing::<ShowPartition>(
            listing,
            c.with_partitions(
                c.partitions.inserted(c.resolved(title, full_name, name)->0),
            ).joined(),
        ),
    ensures
        listing.to_multiset().count(
            (ShowPartitionView { id: Some(c.partitions.next_id()), title, full_name, name }),
        ) == 1,
{
    let nid = c.partitions.next_id();
    let payload = c.resolved(title, full_name, name)->0;
    let after = c.with_partitions(c.partitions.inserted(payload));
    let newp = Partition::with_id(payload, Some(nid));
    let shown = ShowPartitionView { id: Some(nid), title, full_name, name };
    let f = after.projection(None, None);
    let n = c.partitions.rows.len() as int;
    // the new partition is shown, with the names it was resolved from
    lemma_first_with_key_found::<Person>(c.persons.rows, full_name);
    lemma_first_with_key_found::<Genre>(c.genres.rows, name);
    let pi = choose|i: int| #[trigger]
        is_first_with_key::<Person>(c.persons.rows, full_name, i) && c.persons.rows[i]
            == first_with_key::<Person>(c.persons.rows, full_name)->0;
    let gi = choose|i: int| #[trigger]
        is_first_with_key::<Genre>(c.genres.rows, name, i) && c.genres.rows[i] == first_with_key::<
            Genre,
        >(c.genres.rows, name)->0;
    lemma_row_is_found_by_its_id::<Person>(c.persons, pi);
    lemma_row_is_found_by_its_id::<Genre>(c.genres, gi);
    assert(f(newp) == Some(shown));
    // the join after storing is the join before, and then the new row
    after.partitions.rows.lemma_filter_map_take_succ(f, n);
    assert(after.partitions.rows.take(n) =~= c.partitions.rows);
    assert(after.partitions.rows.take(n + 1) =~= after.partitions.rows);
    let earlier = c.partitions.rows.filter_map(f);
    assert(after.joined() =~= earlier.push(shown));
    // no earlier row of the join has the new identity key
    if earlier.contains(shown) {
        c.partitions.rows.lemma_filter_map_contains(f, shown);
        let t = choose|t: PartitionView| #[trigger]
            c.partitions.rows.contains(t) && f(t) == Some(shown);
        let j = choose|j: int| 0 <= j < c.partitions.rows.len() && c.partitions.rows[j] == t;
        assert(rank(Partition::id_of(c.partitions.rows[j])) <= c.partitions.last_id);
    }
    to_multiset_contains(earlier, shown);
    to_multiset_build(earlier, shown);
}

} // verus!
