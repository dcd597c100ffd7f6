//! The rows of the catalog: persons, genres, partitions, and the joined row
//! under which a partition is shown.

use vstd::prelude::*;
use crate::record::Record;
use crate::text::same_text;

verus! {

/// A composer or musician.
#[derive(Debug)]
pub struct Person {
    /// The identity key, absent until the store has assigned one.
    pub id: Option<i32>,
    /// The full name, by which a person is found.
    pub full_name: String,
}

/// What a person is in contracts.
pub struct PersonView {
    pub id: Option<i32>,
    pub full_name: Seq<char>,
}

impl View for Person {
    type V = PersonView;

    open spec fn view(&self) -> PersonView {
        PersonView {
            id: self.id,
            full_name: self.full_name@,
        }
    }
}

impl Clone for Person {
    fn clone(&self) -> (r: Self)
        ensures
            r@ == self@,
    {
        Person {
            id: self.id,
            full_name: self.full_name.clone(),
        }
    }
}

impl Person {
    /// Whether two persons match: they do when their full names are equal,
    /// whatever their identity keys.
    pub fn compare(&self, pers: &Person) -> (r: bool)
        ensures
            r == (self@.full_name == pers@.full_name),
    {
        same_text(self.full_name.as_str(), pers.full_name.as_str())
    }
}

impl Record for Person {
    open spec fn key_of(v: PersonView) -> Seq<char> {
        v.full_name
    }

    open spec fn id_of(v: PersonView) -> Option<i32> {
        v.id
    }

    open spec fn with_id(v: PersonView, id: Option<i32>) -> PersonView {
        PersonView { id, ..v }
    }

    proof fn lemma_with_id(v: PersonView, id: Option<i32>) {
    }

    fn key(&self) -> (k: &str) {
        self.full_name.as_str()
    }

    fn id(&self) -> (r: Option<i32>) {
        self.id
    }

    fn copy(&self) -> (r: Self) {
        self.clone()
    }

    fn stamped(&self, id: i32) -> (r: Self) {
        Person {
            id: Some(id),
            full_name: self.full_name.clone(),
        }
    }
}

/// A musical genre.
#[derive(Debug)]
pub struct Genre {
    /// The identity key, absent until the store has assigned one.
    pub id: Option<i32>,
    /// The name, by which a genre is found.
    pub name: String,
}

/// What a genre is in contracts.
pub struct GenreView {
    pub id: Option<i32>,
    pub name: Seq<char>,
}

impl View for Genre {
    type V = GenreView;

    open spec fn view(&self) -> GenreView {
        GenreView {
            id: self.id,
            name: self.name@,
        }
    }
}

impl Clone for Genre {
    fn clone(&self) -> (r: Self)
        ensures
            r@ == self@,
    {
        Genre {
            id: self.id,
            name: self.name.clone(),
        }
    }
}

impl PartialEq for Genre {
    fn eq(&self, other: &Genre) -> (r: bool) {
        self.id == other.id && same_text(self.name.as_str(), other.name.as_str())
    }
}

impl vstd::std_specs::cmp::PartialEqSpecImpl for Genre {
    open spec fn obeys_eq_spec() -> bool {
        true
    }

    open spec fn eq_spec(&self, other: &Genre) -> bool {
        self@ == other@
    }
}

impl Record for Genre {
    open spec fn key_of(v: GenreView) -> Seq<char> {
        v.name
    }

    open spec fn id_of(v: GenreView) -> Option<i32> {
        v.id
    }

    open spec fn with_id(v: GenreView, id: Option<i32>) -> GenreView {
        GenreView { id, ..v }
    }

    proof fn lemma_with_id(v: GenreView, id: Option<i32>) {
    }

    fn key(&self) -> (k: &str) {
        self.name.as_str()
    }

    fn id(&self) -> (r: Option<i32>) {
        self.id
    }

    fn copy(&self) -> (r: Self) {
        self.clone()
    }

    fn stamped(&self, id: i32) -> (r: Self) {
        Genre {
            id: Some(id),
            name: self.name.clone(),
        }
    }
}

/// A musical score, which refers to one person and one genre by their
/// identity keys.
#[derive(Debug)]
pub struct Partition {
    /// The identity key, absent until the store has assigned one.
    pub id: Option<i32>,
    /// The identity key of the person.
    pub person_id: i32,
    /// The title, by which a partition is found.
    pub title: String,
    /// The identity key of the genre.
    pub genre_id: i32,
}

/// What a partition is in contracts.
pub struct PartitionView {
    pub id: Option<i32>,
    pub person_id: i32,
    pub title: Seq<char>,
    pub genre_id: i32,
}

impl View for Partition {
    type V = PartitionView;

    open spec fn view(&self) -> PartitionView {
        PartitionView {
            id: self.id,
            person_id: self.person_id,
            title: self.title@,
            genre_id: self.genre_id,
        }
    }
}

impl Clone for Partition {
    fn clone(&self) -> (r: Self)
        ensures
            r@ == self@,
    {
        Partition {
            id: self.id,
            person_id: self.person_id,
            title: self.title.clone(),
            genre_id: self.genre_id,
        }
    }
}

impl Record for Partition {
    open spec fn key_of(v: PartitionView) -> Seq<char> {
        v.title
    }

    open spec fn id_of(v: PartitionView) -> Option<i32> {
        v.id
    }

    open spec fn with_id(v: PartitionView, id: Option<i32>) -> PartitionView {
        PartitionView { id, ..v }
    }

    proof fn lemma_with_id(v: PartitionView, id: Option<i32>) {
    }

    fn key(&self) -> (k: &str) {
        self.title.as_str()
    }

    fn id(&self) -> (r: Option<i32>) {
        self.id
    }

    fn copy(&self) -> (r: Self) {
        self.clone()
    }

    fn stamped(&self, id: i32) -> (r: Self) {
        Partition {
            id: Some(id),
            person_id: self.person_id,
            title: self.title.clone(),
            genre_id: self.genre_id,
        }
    }
}

/// A partition as it is shown: with the full name of its person and the name
/// of its genre in place of their keys. It is read from the store by joining
/// the three tables, and it is the shape in which a new partition is handed in.
#[derive(Debug)]
pub struct ShowPartition {
    /// The identity key, absent until the store has assigned one.
    pub id: Option<i32>,
    /// The title of the partition.
    pub title: String,
    /// The full name of the partition's person.
    pub full_name: String,
    /// The name of the partition's genre.
    pub name: String,
}

/// What a shown partition is in contracts.
pub struct ShowPartitionView {
    pub id: Option<i32>,
    pub title: Seq<char>,
    pub full_name: Seq<char>,
    pub name: Seq<char>,
}

impl View for ShowPartition {
    type V = ShowPartitionView;

    open spec fn view(&self) -> ShowPartitionView {
        ShowPartitionView {
            id: self.id,
            title: self.title@,
            full_name: self.full_name@,
            name: self.name@,
        }
    }
}

impl Clone for ShowPartition {
    fn clone(&self) -> (r: Self)
        ensures
            r@ == self@,
    {
        ShowPartition {
            id: self.id,
            title: self.title.clone(),
            full_name: self.full_name.clone(),
            name: self.name.clone(),
        }
    }
}

impl Record for ShowPartition {
    open spec fn key_of(v: ShowPartitionView) -> Seq<char> {
        v.title
    }

    open spec fn id_of(v: ShowPartitionView) -> Option<i32> {
        v.id
    }

    open spec fn with_id(v: ShowPartitionView, id: Option<i32>) -> ShowPartitionView {
        ShowPartitionView { id, ..v }
    }

    proof fn lemma_with_id(v: ShowPartitionView, id: Option<i32>) {
    }

    fn key(&self) -> (k: &str) {
        self.title.as_str()
    }

    fn id(&self) -> (r: Option<i32>) {
        self.id
    }

    fn copy(&self) -> (r: Self) {
        self.clone()
    }

    fn stamped(&self, id: i32) -> (r: Self) {
        ShowPartition {
            id: Some(id),
            title: self.title.clone(),
            full_name: self.full_name.clone(),
            name: self.name.clone(),
        }
    }
}

} // verus!
