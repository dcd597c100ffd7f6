//! The store and every way of reading from and writing to it. The store
//! holds three tables: persons, genres, and the partitions that refer to
//! them. It is the only part of the catalog that touches the tables.
//!
//! Where several rows have the natural key that is asked for, the first in
//! storage order answers: the one with the smallest identity key. Nothing
//! keeps a partition's person or genre from being deleted; such a partition
//! stays in its table, and is left out wherever partitions are shown with
//! their person and genre.

use vstd::prelude::*;
use crate::error::DbError;
use crate::models::{
    Genre, Partition, PartitionView, Person, ShowPartition, ShowPartitionView,
};
use crate::record::{
    find_by_key, first_with_key, has_id, has_key, is_listing,
    lemma_first_with_key, lemma_first_with_key_found, row_of_id, sorted, views_of, Record,
};
use crate::table::{ids_ascend, Table, TableView};
use crate::text::{trim, trimmed};

verus! {

/// The store: the tables of persons, genres and partitions.
pub struct Catalog {
    persons: Table<Person>,
    genres: Table<Genre>,
    partitions: Table<Partition>,
}

/// What the store is in contracts.
pub struct CatalogView {
    pub persons: TableView<Person>,
    pub genres: TableView<Genre>,
    pub partitions: TableView<Partition>,
}

impl View for Catalog {
    type V = CatalogView;

    closed spec fn view(&self) -> CatalogView {
        CatalogView {
            persons: self.persons@,
            genres: self.genres@,
            partitions: self.partitions@,
        }
    }
}

impl CatalogView {
    /// The store before anything was stored in it.
    pub open spec fn empty() -> CatalogView {
        CatalogView {
            persons: TableView::empty(),
            genres: TableView::empty(),
            partitions: TableView::empty(),
        }
    }

    /// The store is valid: each of its tables is.
    pub open spec fn wf(self) -> bool {
        &&& self.persons.wf()
        &&& self.genres.wf()
        &&& self.partitions.wf()
    }

    /// The partition as it is shown: with the full name of its person and
    /// the name of its genre. A partition whose person or genre is not in
    /// the store is not shown.
    pub open spec fn show(self, p: PartitionView) -> Option<ShowPartitionView> {
        match (
            row_of_id::<Person>(self.persons.rows, p.person_id),
            row_of_id::<Genre>(self.genres.rows, p.genre_id),
        ) {
            (Some(person), Some(genre)) => Some(
                ShowPartitionView {
                    id: p.id,
                    title: p.title,
                    full_name: person.full_name,
                    name: genre.name,
                },
            ),
            _ => None,
        }
    }

    /// The partition as it is shown, if it is one of the person `person`
    /// (where one is given) and of the genre `genre` (where one is given).
    pub open spec fn show_if(
        self,
        p: PartitionView,
        person: Option<i32>,
        genre: Option<i32>,
    ) -> Option<ShowPartitionView> {
        if (person is Some ==> p.person_id == person->0) && (genre is Some ==> p.genre_id
            == genre->0) {
            self.show(p)
        } else {
            None
        }
    }

    /// `show_if` as a function of the partition alone: what the join makes
    /// of each partition.
    pub open spec fn projection(self, person: Option<i32>, genre: Option<i32>) -> spec_fn(
        PartitionView,
    ) -> Option<ShowPartitionView> {
        |p: PartitionView| self.show_if(p, person, genre)
    }

    /// The join of the three tables, in the storage order of the
    /// partitions, restricted to the partitions of one person or of one
    /// genre where one is given.
    pub open spec fn selected(self, person: Option<i32>, genre: Option<i32>) -> Seq<
        ShowPartitionView,
    > {
        self.partitions.rows.filter_map(self.projection(person, genre))
    }

    /// The join of the three tables: every partition whose person and genre
    /// are in the store, in the storage order of the partitions.
    pub open spec fn joined(self) -> Seq<ShowPartitionView> {
        self.selected(None, None)
    }

    /// The partitions of the first person whose full name is `author`, as
    /// they are shown, in the storage order of the partitions. There are
    /// none to speak of when no person has that name.
    pub open spec fn by_author(self, author: Seq<char>) -> Option<Seq<ShowPartitionView>> {
        match first_with_key::<Person>(self.persons.rows, author) {
            Some(person) => Some(self.selected(person.id, None)),
            None => None,
        }
    }

    /// The partitions of the first genre whose name is `genre`, as they are
    /// shown, in the storage order of the partitions. There are none to
    /// speak of when no genre has that name.
    pub open spec fn by_genre(self, genre: Seq<char>) -> Option<Seq<ShowPartitionView>> {
        match first_with_key::<Genre>(self.genres.rows, genre) {
            Some(kind) => Some(self.selected(None, kind.id)),
            None => None,
        }
    }

    /// The partition that stands for a title, the full name of a person and
    /// the name of a genre: it refers to the first person with that full
    /// name and to the first genre with that name, and has no identity key
    /// yet. There is none when the person or the genre is missing.
    pub open spec fn resolved(self, title: Seq<char>, full_name: Seq<char>, name: Seq<char>)
        -> Option<PartitionView> {
        match (
            first_with_key::<Person>(self.persons.rows, full_name),
            first_with_key::<Genre>(self.genres.rows, name),
        ) {
            (Some(person), Some(genre)) => Some(
                PartitionView {
                    id: None,
                    person_id: person.id->0,
                    title,
                    genre_id: genre.id->0,
                },
            ),
            _ => None,
        }
    }

    /// The partition that stands for a shown partition that is handed in to
    /// be stored. The full name is taken without the white space around it.
    pub open spec fn resolved_payload(self, s: ShowPartitionView) -> Option<PartitionView> {
        self.resolved(s.title, trimmed(s.full_name), s.name)
    }

    /// The store with another table of persons.
    pub open spec fn with_persons(self, persons: TableView<Person>) -> CatalogView {
        CatalogView { persons, ..self }
    }

    /// The store with another table of genres.
    pub open spec fn with_genres(self, genres: TableView<Genre>) -> CatalogView {
        CatalogView { genres, ..self }
    }

    /// The store with another table of partitions.
    pub open spec fn with_partitions(self, partitions: TableView<Partition>) -> CatalogView {
        CatalogView { partitions, ..self }
    }
}

/// Every row of a join has the title of a partition.
pub proof fn lemma_selected_titles(
    c: CatalogView,
    person: Option<i32>,
    genre: Option<i32>,
    title: Seq<char>,
)
    requires
        has_key::<ShowPartition>(c.selected(person, genre), title),
    ensures
        has_key::<Partition>(c.partitions.rows, title),
{
    let rows = c.selected(person, genre);
    let i = choose|i: int| 0 <= i < rows.len() && rows[i].title == title;
    assert(rows.contains(rows[i]));
    c.partitions.rows.lemma_filter_map_contains(c.projection(person, genre), rows[i]);
    let p = choose|p: PartitionView| #[trigger]
        c.partitions.rows.contains(p) && c.projection(person, genre)(p) == Some(rows[i]);
    let j = choose|j: int| 0 <= j < c.partitions.rows.len() && c.partitions.rows[j] == p;
    assert(c.partitions.rows[j].title == title);
}

impl Catalog {
    /// A store without rows.
    pub fn new() -> (conn: Self)
        ensures
            conn@ == CatalogView::empty(),
            conn@.wf(),
    {
        Catalog { persons: Table::new(), genres: Table::new(), partitions: Table::new() }
    }

    /// The store that holds the given rows, as they were read from where
    /// they are kept. There is one if in each table every row has an
    /// identity key and the keys ascend strictly.
    pub fn from_rows(persons: Vec<Person>, genres: Vec<Genre>, partitions: Vec<Partition>) -> (r:
        Option<Self>)
        ensures
            r is Some <==> {
                &&& ids_ascend::<Person>(views_of(persons@))
                &&& ids_ascend::<Genre>(views_of(genres@))
                &&& ids_ascend::<Partition>(views_of(partitions@))
            },
            r is Some ==> r->0@.wf() && r->0@ == (CatalogView {
                persons: TableView::loaded(views_of(persons@)),
                genres: TableView::loaded(views_of(genres@)),
                partitions: TableView::loaded(views_of(partitions@)),
            }),
    {
        let persons = match Table::from_rows(persons) {
            Some(t) => t,
            None => {
                return None;
            },
        };
        let genres = match Table::from_rows(genres) {
            Some(t) => t,
            None => {
                return None;
            },
        };
        let partitions = match Table::from_rows(partitions) {
            Some(t) => t,
            None => {
                return None;
            },
        };
        Some(Catalog { persons, genres, partitions })
    }

    /// The table of persons.
    pub fn persons(&self) -> (t: &Table<Person>)
        ensures
            t@ == self@.persons,
    {
        &self.persons
    }

    /// The table of genres.
    pub fn genres(&self) -> (t: &Table<Genre>)
        ensures
            t@ == self@.genres,
    {
        &self.genres
    }

    /// The table of partitions.
    pub fn partitions(&self) -> (t: &Table<Partition>)
        ensures
            t@ == self@.partitions,
    {
        &self.partitions
    }

    /// Joins the partitions with their persons and genres, in the storage
    /// order of the partitions.
    fn select(&self, person: Option<i32>, genre: Option<i32>) -> (out: Vec<ShowPartition>)
        ensures
            views_of(out@) == self@.selected(person, genre),
    {
        let mut out: Vec<ShowPartition> = Vec::new();
        let n: usize = self.partitions.len();
        let mut i: usize = 0;
        let ghost rows = self@.partitions.rows;
        let ghost f = self@.projection(person, genre);
        assert(rows.take(0).filter_map(f) =~= views_of(out@));
        while i < n
            invariant
                i <= n,
                n == rows.len(),
                rows == self@.partitions.rows,
                f == self@.projection(person, genre),
                views_of(out@) == rows.take(i as int).filter_map(f),
            decreases n - i,
        {
            let p = self.partitions.row(i);
            let of_person = match person {
                Some(x) => p.person_id == x,
                None => true,
            };
            let of_genre = match genre {
                Some(x) => p.genre_id == x,
                None => true,
            };
            let ghost before = views_of(out@);
            proof {
                rows.lemma_filter_map_take_succ(f, i as int);
            }
            if of_person && of_genre {
                match self.persons.by_id(p.person_id) {
                    Ok(owner) => match self.genres.by_id(p.genre_id) {
                        Ok(kind) => {
                            let row = ShowPartition {
                                id: p.id,
                                title: p.title.clone(),
                                full_name: owner.full_name,
                                name: kind.name,
                            };
                            out.push(row);
                            assert(views_of(out@) =~= before + seq![f(rows[i as int])->0]);
                        },
                        Err(_) => {},
                    },
                    Err(_) => {},
                }
            }
            i = i + 1;
        }
        assert(rows.take(n as int) =~= rows);
        out
    }
}

/// Lists the partitions as they are stored, in ascending order of title.
pub fn get_list_raw_partitions(conn: &Catalog) -> (r: Result<Vec<Partition>, DbError>)
    ensures
        r is Ok,
        is_listing::<Partition>(views_of(r->Ok_0@), conn@.partitions.rows),
{
    Ok(conn.partitions.list())
}

/// Lists the partitions as they are shown, in ascending order of title. A
/// partition whose person or genre is missing is left out.
pub fn get_list_show_partitions(conn: &Catalog) -> (r: Result<Vec<ShowPartition>, DbError>)
    ensures
        r is Ok,
        is_listing::<ShowPartition>(views_of(r->Ok_0@), conn@.joined()),
{
    let rows = conn.select(None, None);
    Ok(sorted(&rows))
}

/// Lists the genres in ascending order of name.
pub fn get_list_genres(conn: &Catalog) -> (r: Result<Vec<Genre>, DbError>)
    ensures
        r is Ok,
        is_listing::<Genre>(views_of(r->Ok_0@), conn@.genres.rows),
{
    Ok(conn.genres.list())
}

/// Lists the persons in ascending order of full name.
pub fn get_list_persons(conn: &Catalog) -> (r: Result<Vec<Person>, DbError>)
    ensures
        r is Ok,
        is_listing::<Person>(views_of(r->Ok_0@), conn@.persons.rows),
{
    Ok(conn.persons.list())
}

/// Finds the first person whose full name is `person_full_name`.
pub fn get_person_by_name(conn: &Catalog, person_full_name: String) -> (r: Result<
    Person,
    DbError,
>)
    ensures
        match r {
            Ok(row) => first_with_key::<Person>(conn@.persons.rows, person_full_name@) == Some(
                row@,
            ),
            Err(e) => e == DbError::NotFound && !has_key::<Person>(
                conn@.persons.rows,
                person_full_name@,
            ),
        },
{
    conn.persons.first_by_key(person_full_name.as_str())
}

/// Finds the first genre whose name is `genre_name`.
pub fn get_genre_by_name(conn: &Catalog, genre_name: String) -> (r: Result<Genre, DbError>)
    ensures
        match r {
            Ok(row) => first_with_key::<Genre>(conn@.genres.rows, genre_name@) == Some(row@),
            Err(e) => e == DbError::NotFound && !has_key::<Genre>(conn@.genres.rows, genre_name@),
        },
{
    conn.genres.first_by_key(genre_name.as_str())
}

/// Finds the first partition, as it is stored, whose title is
/// `partition_title`.
pub fn get_raw_partition_by_title(conn: &Catalog, partition_title: String) -> (r: Result<
    Partition,
    DbError,
>)
    ensures
        match r {
            Ok(row) => first_with_key::<Partition>(conn@.partitions.rows, partition_title@)
                == Some(row@),
            Err(e) => e == DbError::NotFound && !has_key::<Partition>(
                conn@.partitions.rows,
                partition_title@,
            ),
        },
{
    conn.partitions.first_by_key(partition_title.as_str())
}

/// Finds the first partition, as it is shown, whose title is
/// `partition_title`. The table of partitions is asked first, so that a
/// title that no partition has is answered without joining. A title that
/// only partitions without person or genre have is not found either.
pub fn get_partition_by_title(conn: &Catalog, partition_title: String) -> (r: Result<
    ShowPartition,
    DbError,
>)
    ensures
        match r {
            Ok(row) => first_with_key::<ShowPartition>(conn@.joined(), partition_title@) == Some(
                row@,
            ),
            Err(e) => e == DbError::NotFound && !has_key::<ShowPartition>(
                conn@.joined(),
                partition_title@,
            ),
        },
{
    let raw_partition = get_raw_partition_by_title(conn, partition_title.clone());
    match raw_partition {
        Ok(_) => {
            let rows = conn.select(None, None);
            match find_by_key(&rows, partition_title.as_str()) {
                Some(i) => {
                    proof {
                        lemma_first_with_key::<ShowPartition>(
                            conn@.joined(),
                            partition_title@,
                            i as int,
                        );
                    }
                    Ok(rows[i].clone())
                },
                None => Err(DbError::NotFound),
            }
        },
        Err(e) => {
            proof {
                if has_key::<ShowPartition>(conn@.joined(), partition_title@) {
                    lemma_selected_titles(conn@, None, None, partition_title@);
                }
            }
            Err(e)
        },
    }
}

/// Lists the partitions of the first person whose full name is
/// `partition_author`, as they are shown, in the storage order of the
/// partitions. Fails when no person has that name.
pub fn get_partition_by_author(conn: &Catalog, partition_author: String) -> (r: Result<
    Vec<ShowPartition>,
    DbError,
>)
    requires
        conn@.wf(),
    ensures
        match r {
            Ok(rows) => conn@.by_author(partition_author@) == Some(views_of(rows@)),
            Err(e) => e == DbError::NotFound && conn@.by_author(partition_author@) is None,
        },
{
    match get_person_by_name(conn, partition_author) {
        Ok(pers) => {
            assert(pers.id is Some) by {
                lemma_first_with_key_found::<Person>(conn@.persons.rows, partition_author@);
                conn@.persons.lemma_rows_have_ids(pers@);
            }
            Ok(conn.select(pers.id, None))
        },
        Err(e) => Err(e),
    }
}

/// Lists the partitions of the first genre whose name is `partition_genre`,
/// as they are shown, in the storage order of the partitions. Fails when no
/// genre has that name.
pub fn get_partition_by_genre(conn: &Catalog, partition_genre: String) -> (r: Result<
    Vec<ShowPartition>,
    DbError,
>)
    requires
        conn@.wf(),
    ensures
        match r {
            Ok(rows) => conn@.by_genre(partition_genre@) == Some(views_of(rows@)),
            Err(e) => e == DbError::NotFound && conn@.by_genre(partition_genre@) is None,
        },
{
    match get_genre_by_name(conn, partition_genre) {
        Ok(genre) => {
            assert(genre.id is Some) by {
                lemma_first_with_key_found::<Genre>(conn@.genres.rows, partition_genre@);
                conn@.genres.lemma_rows_have_ids(genre@);
            }
            Ok(conn.select(None, genre.id))
        },
        Err(e) => Err(e),
    }
}

/// Removes the person whose identity key is `person_id` and says how many
/// rows that were: 1, or 0 when there is no such person. The genres and the
/// partitions stay as they are, also the partitions of that person.
pub fn delete_one_person(conn: &mut Catalog, person_id: i32) -> (r: Result<usize, DbError>)
    requires
        old(conn)@.wf(),
    ensures
        final(conn)@.wf(),
        final(conn)@ == old(conn)@.with_persons(old(conn)@.persons.removed(person_id)),
        r == Ok::<usize, DbError>(
            if has_id::<Person>(old(conn)@.persons.rows, person_id) {
                1usize
            } else {
                0usize
            },
        ),
{
    Ok(conn.persons.remove(person_id))
}

/// Removes the genre whose identity key is `genre_id` and says how many rows
/// that were: 1, or 0 when there is no such genre. The persons and the
/// partitions stay as they are, also the partitions of that genre.
pub fn delete_one_genre(conn: &mut Catalog, genre_id: i32) -> (r: Result<usize, DbError>)
    requires
        old(conn)@.wf(),
    ensures
        final(conn)@.wf(),
        final(conn)@ == old(conn)@.with_genres(old(conn)@.genres.removed(genre_id)),
        r == Ok::<usize, DbError>(
            if has_id::<Genre>(old(conn)@.genres.rows, genre_id) {
                1usize
            } else {
                0usize
            },
        ),
{
    Ok(conn.genres.remove(genre_id))
}

/// Removes the partition whose identity key is `partition_id` and says how
/// many rows that were: 1, or 0 when there is no such partition. The persons
/// and the genres stay as they are.
pub fn delete_one_partition(conn: &mut Catalog, partition_id: i32) -> (r: Result<
    usize,
    DbError,
>)
    requires
        old(conn)@.wf(),
    ensures
        final(conn)@.wf(),
        final(conn)@ == old(conn)@.with_partitions(old(conn)@.partitions.removed(partition_id)),
        r == Ok::<usize, DbError>(
            if has_id::<Partition>(old(conn)@.partitions.rows, partition_id) {
                1usize
            } else {
                0usize
            },
        ),
{
    Ok(conn.partitions.remove(partition_id))
}

/// Stores a new person and returns the stored row. The store assigns the
/// identity key, whatever key `person` came with. Fails, and changes
/// nothing, when the table has handed out its last identity key.
pub fn create_person(conn: &mut Catalog, person: Person) -> (r: Result<Person, DbError>)
    requires
        old(conn)@.wf(),
    ensures
        final(conn)@.wf(),
        match r {
            Ok(row) => {
                &&& old(conn)@.persons.last_id < i32::MAX
                &&& final(conn)@ == old(conn)@.with_persons(
                    old(conn)@.persons.inserted(person@),
                )
                &&& row@ == Person::with_id(person@, Some(old(conn)@.persons.next_id()))
            },
            Err(e) => {
                &&& e == DbError::StorageUnavailable
                &&& old(conn)@.persons.last_id == i32::MAX
                &&& final(conn)@ == old(conn)@
            },
        },
{
    conn.persons.insert(&person)
}

/// Stores a new genre and returns the stored row. The store assigns the
/// identity key, whatever key `genre` came with. Fails, and changes nothing,
/// when the table has handed out its last identity key.
pub fn create_genre(conn: &mut Catalog, genre: Genre) -> (r: Result<Genre, DbError>)
    requires
        old(conn)@.wf(),
    ensures
        final(conn)@.wf(),
        match r {
            Ok(row) => {
                &&& old(conn)@.genres.last_id < i32::MAX
                &&& final(conn)@ == old(conn)@.with_genres(old(conn)@.genres.inserted(genre@))
                &&& row@ == Genre::with_id(genre@, Some(old(conn)@.genres.next_id()))
            },
            Err(e) => {
                &&& e == DbError::StorageUnavailable
                &&& old(conn)@.genres.last_id == i32::MAX
                &&& final(conn)@ == old(conn)@
            },
        },
{
    conn.genres.insert(&genre)
}

/// Works out the partition that stands for a title, the full name of a
/// person and the name of a genre: the partition that refers to the first
/// person with that full name and to the first genre with that name. Fails
/// when the person or the genre is missing.
pub fn resolve_partition(conn: &Catalog, title: &str, full_name: &str, name: &str) -> (r: Result<
    Partition,
    DbError,
>)
    requires
        conn@.wf(),
    ensures
        match r {
            Ok(p) => conn@.resolved(title@, full_name@, name@) == Some(p@),
            Err(e) => e == DbError::NotFound && conn@.resolved(title@, full_name@, name@) is None,
        },
{
    let pers = match conn.persons.first_by_key(full_name) {
        Ok(pers) => pers,
        Err(e) => {
            return Err(e);
        },
    };
    let g = match conn.genres.first_by_key(name) {
        Ok(g) => g,
        Err(e) => {
            return Err(e);
        },
    };
    proof {
        lemma_first_with_key_found::<Person>(conn@.persons.rows, full_name@);
        lemma_first_with_key_found::<Genre>(conn@.genres.rows, name@);
        conn@.persons.lemma_rows_have_ids(pers@);
        conn@.genres.lemma_rows_have_ids(g@);
    }
    let person_id: i32 = pers.id.unwrap();
    let genre_id: i32 = g.id.unwrap();
    Ok(Partition { id: None, person_id, title: title.to_string(), genre_id })
}

/// Stores the partition that stands for `partition`: its title, the person
/// and the genre resolved by `resolve_partition`, under the next identity
/// key. Returns the stored row. Fails, and changes nothing, when the person
/// or the genre is missing, or when the table has handed out its last
/// identity key.
pub fn insert_resolved(conn: &mut Catalog, title: &str, full_name: &str, name: &str) -> (r:
    Result<Partition, DbError>)
    requires
        old(conn)@.wf(),
    ensures
        final(conn)@.wf(),
        match r {
            Ok(row) => {
                &&& old(conn)@.resolved(title@, full_name@, name@) is Some
                &&& old(conn)@.partitions.last_id < i32::MAX
                &&& final(conn)@ == old(conn)@.with_partitions(
                    old(conn)@.partitions.inserted(
                        old(conn)@.resolved(title@, full_name@, name@)->0,
                    ),
                )
                &&& row@ == Partition::with_id(
                    old(conn)@.resolved(title@, full_name@, name@)->0,
                    Some(old(conn)@.partitions.next_id()),
                )
            },
            Err(e) => {
                &&& final(conn)@ == old(conn)@
                &&& e == DbError::NotFound <==> old(conn)@.resolved(title@, full_name@, name@)
                    is None
                &&& e == DbError::StorageUnavailable <==> {
                    &&& old(conn)@.resolved(title@, full_name@, name@) is Some
                    &&& old(conn)@.partitions.last_id == i32::MAX
                }
            },
        },
{
    match resolve_partition(conn, title, full_name, name) {
        Ok(partition) => conn.partitions.insert(&partition),
        Err(e) => Err(e),
    }
}

/// Stores a new partition from the shape in which partitions are shown: the
/// person is the first whose full name is `show_partition.full_name` without
/// the white space around it, the genre the first whose name is
/// `show_partition.name`. Returns the stored row. Fails, and changes
/// nothing, when the person or the genre is missing, or when the table has
/// handed out its last identity key.
pub fn create_partition(conn: &mut Catalog, show_partition: ShowPartition) -> (r: Result<
    Partition,
    DbError,
>)
    requires
        old(conn)@.wf(),
    ensures
        final(conn)@.wf(),
        match r {
            Ok(row) => {
                &&& old(conn)@.resolved_payload(show_partition@) is Some
                &&& old(conn)@.partitions.last_id < i32::MAX
                &&& final(conn)@ == old(conn)@.with_partitions(
                    old(conn)@.partitions.inserted(old(conn)@.resolved_payload(show_partition@)->0),
                )
                &&& row@ == Partition::with_id(
                    old(conn)@.resolved_payload(show_partition@)->0,
                    Some(old(conn)@.partitions.next_id()),
                )
            },
            Err(e) => {
                &&& final(conn)@ == old(conn)@
                &&& e == DbError::NotFound <==> old(conn)@.resolved_payload(show_partition@)
                    is None
                &&& e == DbError::StorageUnavailable <==> {
                    &&& old(conn)@.resolved_payload(show_partition@) is Some
                    &&& old(conn)@.partitions.last_id == i32::MAX
                }
            },
        },
{
    let nom = trim(show_partition.full_name.as_str());
    insert_resolved(
        conn,
        show_partition.title.as_str(),
        nom.as_str(),
        show_partition.name.as_str(),
    )
}

/// Overwrites the person whose identity key is `pers_id` by `person` and
/// returns the row as it is stored then. The row keeps its identity key.
/// Fails with `NotFound`, and changes nothing, when there is no such person.
pub fn update_person(pers_id: i32, person: Person, conn: &mut Catalog) -> (r: Result<
    Person,
    DbError,
>)
    requires
        old(conn)@.wf(),
    ensures
        final(conn)@.wf(),
        final(conn)@ == old(conn)@.with_persons(old(conn)@.persons.replaced(pers_id, person@)),
        match r {
            Ok(row) => has_id::<Person>(old(conn)@.persons.rows, pers_id) && row@
                == Person::with_id(person@, Some(pers_id)),
            Err(e) => e == DbError::NotFound && !has_id::<Person>(
                old(conn)@.persons.rows,
                pers_id,
            ),
        },
{
    conn.persons.replace(pers_id, &person)
}

/// Overwrites the genre whose identity key is `genre_id` by `genre` and
/// returns the row as it is stored then. The row keeps its identity key.
/// Fails with `NotFound`, and changes nothing, when there is no such genre.
pub fn update_genre(genre_id: i32, genre: Genre, conn: &mut Catalog) -> (r: Result<
    Genre,
    DbError,
>)
    requires
        old(conn)@.wf(),
    ensures
        final(conn)@.wf(),
        final(conn)@ == old(conn)@.with_genres(old(conn)@.genres.replaced(genre_id, genre@)),
        match r {
            Ok(row) => has_id::<Genre>(old(conn)@.genres.rows, genre_id) && row@
                == Genre::with_id(genre@, Some(genre_id)),
            Err(e) => e == DbError::NotFound && !has_id::<Genre>(old(conn)@.genres.rows, genre_id),
        },
{
    conn.genres.replace(genre_id, &genre)
}

/// Overwrites the partition whose identity key is `part_id` by `partition`
/// and returns the row as it is stored then. The row keeps its identity
/// key. Fails with `NotFound`, and changes nothing, when there is no such
/// partition.
pub fn update_partition(part_id: i32, partition: Partition, conn: &mut Catalog) -> (r: Result<
    Partition,
    DbError,
>)
    requires
        old(conn)@.wf(),
    ensures
        final(conn)@.wf(),
        final(conn)@ == old(conn)@.with_partitions(
            old(conn)@.partitions.replaced(part_id, partition@),
        ),
        match r {
            Ok(row) => has_id::<Partition>(old(conn)@.partitions.rows, part_id) && row@
                == Partition::with_id(partition@, Some(part_id)),
            Err(e) => e == DbError::NotFound && !has_id::<Partition>(
                old(conn)@.partitions.rows,
                part_id,
            ),
        },
{
    conn.partitions.replace(part_id, &partition)
}

/// Finds the person whose identity key is `id`.
pub fn get_one_person_id(conn: &Catalog, id: i32) -> (r: Result<Person, DbError>)
    ensures
        match r {
            Ok(row) => row_of_id::<Person>(conn@.persons.rows, id) == Some(row@),
            Err(e) => e == DbError::NotFound && !has_id::<Person>(conn@.persons.rows, id),
        },
{
    conn.persons.by_id(id)
}

} // verus!
