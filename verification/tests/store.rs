use score_catalog::db::{
    create_genre, create_partition, create_person, delete_one_genre, delete_one_partition,
    delete_one_person, get_genre_by_name, get_list_genres, get_list_persons,
    get_list_raw_partitions, get_list_show_partitions, get_one_person_id,
    get_partition_by_author, get_partition_by_genre, get_partition_by_title, get_person_by_name,
    get_raw_partition_by_title, insert_resolved, resolve_partition, update_genre,
    update_partition, update_person, Catalog,
};
use score_catalog::error::DbError;
use score_catalog::models::{Genre, Partition, Person, ShowPartition};
use score_catalog::record::{comes_before, find_by_id, find_by_key, sorted, Record};
use score_catalog::table::Table;

fn person(name: &str) -> Person {
    Person { id: None, full_name: name.to_string() }
}

fn genre(name: &str) -> Genre {
    Genre { id: None, name: name.to_string() }
}

fn show(title: &str, full_name: &str, name: &str) -> ShowPartition {
    ShowPartition {
        id: None,
        title: title.to_string(),
        full_name: full_name.to_string(),
        name: name.to_string(),
    }
}

fn shown(rows: &[ShowPartition]) -> Vec<(Option<i32>, String, String, String)> {
    rows.iter().map(|r| (r.id, r.title.clone(), r.full_name.clone(), r.name.clone())).collect()
}

fn row(id: i32, title: &str, full_name: &str, name: &str) -> (Option<i32>, String, String, String) {
    (Some(id), title.to_string(), full_name.to_string(), name.to_string())
}

fn raw(rows: &[Partition]) -> Vec<(Option<i32>, i32, String, i32)> {
    rows.iter().map(|r| (r.id, r.person_id, r.title.clone(), r.genre_id)).collect()
}

fn persons_of(conn: &Catalog) -> Vec<(Option<i32>, String)> {
    get_list_persons(conn).unwrap().into_iter().map(|p| (p.id, p.full_name)).collect()
}

fn genres_of(conn: &Catalog) -> Vec<(Option<i32>, String)> {
    get_list_genres(conn).unwrap().into_iter().map(|g| (g.id, g.name)).collect()
}

/// Ada Lovelace (1), Clara Schumann (2); Sonata (1), Fugue (2);
/// Opus 1 (1) by Ada, a Sonata; Carnaval (2) by Clara, a Fugue.
fn small_catalog() -> Catalog {
    let mut conn = Catalog::new();
    create_person(&mut conn, person("Ada Lovelace")).unwrap();
    create_person(&mut conn, person("Clara Schumann")).unwrap();
    create_genre(&mut conn, genre("Sonata")).unwrap();
    create_genre(&mut conn, genre("Fugue")).unwrap();
    create_partition(&mut conn, show("Opus 1", "Ada Lovelace", "Sonata")).unwrap();
    create_partition(&mut conn, show("Carnaval", "Clara Schumann", "Fugue")).unwrap();
    conn
}

#[test]
fn new_catalog_is_empty() {
    let conn = Catalog::new();
    assert!(get_list_persons(&conn).unwrap().is_empty());
    assert!(get_list_genres(&conn).unwrap().is_empty());
    assert!(get_list_raw_partitions(&conn).unwrap().is_empty());
    assert!(get_list_show_partitions(&conn).unwrap().is_empty());
    assert_eq!(conn.persons().len(), 0);
}

#[test]
fn persons_are_listed_by_full_name() {
    let mut conn = Catalog::new();
    create_person(&mut conn, person("Clara Schumann")).unwrap();
    create_person(&mut conn, person("Ada Lovelace")).unwrap();
    create_person(&mut conn, person("Bela Bartok")).unwrap();
    assert_eq!(
        persons_of(&conn),
        vec![
            (Some(2), "Ada Lovelace".to_string()),
            (Some(3), "Bela Bartok".to_string()),
            (Some(1), "Clara Schumann".to_string()),
        ]
    );
}

#[test]
fn genres_are_listed_by_name() {
    let mut conn = Catalog::new();
    for name in ["Sonata", "Fugue", "Waltz", "Etude"] {
        create_genre(&mut conn, genre(name)).unwrap();
    }
    assert_eq!(
        genres_of(&conn),
        vec![
            (Some(4), "Etude".to_string()),
            (Some(2), "Fugue".to_string()),
            (Some(1), "Sonata".to_string()),
            (Some(3), "Waltz".to_string()),
        ]
    );
}

#[test]
fn rows_of_one_name_are_listed_by_identity_key() {
    let mut conn = Catalog::new();
    create_person(&mut conn, person("Bach")).unwrap();
    create_person(&mut conn, person("Abel")).unwrap();
    create_person(&mut conn, person("Bach")).unwrap();
    create_person(&mut conn, person("Bach")).unwrap();
    assert_eq!(
        persons_of(&conn),
        vec![
            (Some(2), "Abel".to_string()),
            (Some(1), "Bach".to_string()),
            (Some(3), "Bach".to_string()),
            (Some(4), "Bach".to_string()),
        ]
    );
}

#[test]
fn created_person_is_listed_exactly_once_at_its_place() {
    let mut conn = small_catalog();
    let created = create_person(&mut conn, person("Bela Bartok")).unwrap();
    assert_eq!(created.id, Some(3));
    assert_eq!(created.full_name, "Bela Bartok");
    let listing = persons_of(&conn);
    assert_eq!(
        listing,
        vec![
            (Some(1), "Ada Lovelace".to_string()),
            (Some(3), "Bela Bartok".to_string()),
            (Some(2), "Clara Schumann".to_string()),
        ]
    );
    assert_eq!(listing.iter().filter(|p| p.0 == Some(3)).count(), 1);
}

#[test]
fn created_genre_is_listed_exactly_once_at_its_place() {
    let mut conn = small_catalog();
    let created = create_genre(&mut conn, genre("Nocturne")).unwrap();
    assert_eq!((created.id, created.name.as_str()), (Some(3), "Nocturne"));
    assert_eq!(
        genres_of(&conn),
        vec![
            (Some(2), "Fugue".to_string()),
            (Some(3), "Nocturne".to_string()),
            (Some(1), "Sonata".to_string()),
        ]
    );
}

#[test]
fn created_partition_is_listed_exactly_once_at_its_place() {
    let mut conn = small_catalog();
    let created = create_partition(&mut conn, show("Etude 3", "Clara Schumann", "Sonata")).unwrap();
    assert_eq!(raw(&[created]), vec![(Some(3), 2, "Etude 3".to_string(), 1)]);
    assert_eq!(
        raw(&get_list_raw_partitions(&conn).unwrap()),
        vec![
            (Some(2), 2, "Carnaval".to_string(), 2),
            (Some(3), 2, "Etude 3".to_string(), 1),
            (Some(1), 1, "Opus 1".to_string(), 1),
        ]
    );
    assert_eq!(
        shown(&get_list_show_partitions(&conn).unwrap()),
        vec![
            row(2, "Carnaval", "Clara Schumann", "Fugue"),
            row(3, "Etude 3", "Clara Schumann", "Sonata"),
            row(1, "Opus 1", "Ada Lovelace", "Sonata"),
        ]
    );
}

#[test]
fn store_assigns_the_identity_key_whatever_the_payload_says() {
    let mut conn = Catalog::new();
    let first = create_genre(&mut conn, genre("Sonata")).unwrap();
    let second = create_genre(&mut conn, Genre { id: Some(40), name: "Fugue".to_string() }).unwrap();
    assert_eq!(first.id, Some(1));
    assert_eq!(second.id, Some(2));
    assert_eq!(second.name, "Fugue");
}

#[test]
fn identity_keys_are_not_handed_out_twice() {
    let mut conn = Catalog::new();
    create_person(&mut conn, person("Ada Lovelace")).unwrap();
    create_person(&mut conn, person("Clara Schumann")).unwrap();
    assert_eq!(delete_one_person(&mut conn, 2), Ok(1));
    let next = create_person(&mut conn, person("Bela Bartok")).unwrap();
    assert_eq!(next.id, Some(3));
}

#[test]
fn person_is_found_by_full_name() {
    let conn = small_catalog();
    let found = get_person_by_name(&conn, "Clara Schumann".to_string()).unwrap();
    assert_eq!((found.id, found.full_name.as_str()), (Some(2), "Clara Schumann"));
}

#[test]
fn lookup_is_exact() {
    let conn = small_catalog();
    assert_eq!(get_person_by_name(&conn, "clara schumann".to_string()).err(), Some(DbError::NotFound));
    assert_eq!(get_person_by_name(&conn, "Clara".to_string()).err(), Some(DbError::NotFound));
    assert_eq!(get_person_by_name(&conn, " Clara Schumann".to_string()).err(), Some(DbError::NotFound));
    assert_eq!(get_genre_by_name(&conn, "Sonata ".to_string()).err(), Some(DbError::NotFound));
}

#[test]
fn missing_natural_key_is_not_found() {
    let conn = small_catalog();
    assert_eq!(get_person_by_name(&conn, "Nobody".to_string()).err(), Some(DbError::NotFound));
    assert_eq!(get_genre_by_name(&conn, "Polka".to_string()).err(), Some(DbError::NotFound));
    assert_eq!(
        get_raw_partition_by_title(&conn, "Nonexistent".to_string()).err(),
        Some(DbError::NotFound)
    );
    assert_eq!(
        get_partition_by_title(&conn, "Nonexistent".to_string()).err(),
        Some(DbError::NotFound)
    );
}

#[test]
fn first_match_is_the_row_stored_first() {
    let mut conn = Catalog::new();
    create_genre(&mut conn, genre("Sonata")).unwrap();
    create_genre(&mut conn, genre("Fugue")).unwrap();
    create_genre(&mut conn, genre("Sonata")).unwrap();
    let found = get_genre_by_name(&conn, "Sonata".to_string()).unwrap();
    assert_eq!(found.id, Some(1));
    delete_one_genre(&mut conn, 1).unwrap();
    let found = get_genre_by_name(&conn, "Sonata".to_string()).unwrap();
    assert_eq!(found.id, Some(3));
}

#[test]
fn genre_is_found_by_name() {
    let conn = small_catalog();
    let found = get_genre_by_name(&conn, "Fugue".to_string()).unwrap();
    assert_eq!(found, Genre { id: Some(2), name: "Fugue".to_string() });
}

#[test]
fn raw_partition_is_found_by_title() {
    let conn = small_catalog();
    let found = get_raw_partition_by_title(&conn, "Carnaval".to_string()).unwrap();
    assert_eq!(raw(&[found]), vec![(Some(2), 2, "Carnaval".to_string(), 2)]);
}

#[test]
fn shown_partition_is_found_by_title() {
    let conn = small_catalog();
    let found = get_partition_by_title(&conn, "Opus 1".to_string()).unwrap();
    assert_eq!(shown(&[found]), vec![row(1, "Opus 1", "Ada Lovelace", "Sonata")]);
}

#[test]
fn partitions_are_found_by_author_in_storage_order() {
    let mut conn = small_catalog();
    create_partition(&mut conn, show("Album", "Ada Lovelace", "Fugue")).unwrap();
    let found = get_partition_by_author(&conn, "Ada Lovelace".to_string()).unwrap();
    assert_eq!(
        shown(&found),
        vec![row(1, "Opus 1", "Ada Lovelace", "Sonata"), row(3, "Album", "Ada Lovelace", "Fugue")]
    );
}

#[test]
fn partitions_are_found_by_genre_in_storage_order() {
    let mut conn = small_catalog();
    create_partition(&mut conn, show("Album", "Clara Schumann", "Sonata")).unwrap();
    let found = get_partition_by_genre(&conn, "Sonata".to_string()).unwrap();
    assert_eq!(
        shown(&found),
        vec![row(1, "Opus 1", "Ada Lovelace", "Sonata"), row(3, "Album", "Clara Schumann", "Sonata")]
    );
}

#[test]
fn author_without_partitions_has_an_empty_list() {
    let mut conn = small_catalog();
    create_person(&mut conn, person("Bela Bartok")).unwrap();
    assert!(get_partition_by_author(&conn, "Bela Bartok".to_string()).unwrap().is_empty());
}

#[test]
fn unknown_author_or_genre_is_not_found() {
    let conn = small_catalog();
    assert_eq!(
        get_partition_by_author(&conn, "Nobody".to_string()).err(),
        Some(DbError::NotFound)
    );
    assert_eq!(get_partition_by_genre(&conn, "Polka".to_string()).err(), Some(DbError::NotFound));
}

#[test]
fn author_of_a_shared_name_is_the_first_person_of_that_name() {
    let mut conn = Catalog::new();
    create_person(&mut conn, person("Bach")).unwrap();
    create_person(&mut conn, person("Bach")).unwrap();
    create_genre(&mut conn, genre("Fugue")).unwrap();
    create_partition(&mut conn, show("First", "Bach", "Fugue")).unwrap();
    update_partition(
        1,
        Partition { id: None, person_id: 2, title: "Second".to_string(), genre_id: 1 },
        &mut conn,
    )
    .unwrap();
    // the only partition now belongs to the second Bach
    assert!(get_partition_by_author(&conn, "Bach".to_string()).unwrap().is_empty());
    assert_eq!(
        shown(&get_list_show_partitions(&conn).unwrap()),
        vec![row(1, "Second", "Bach", "Fugue")]
    );
}

#[test]
fn create_partition_resolves_names_to_keys() {
    let mut conn = small_catalog();
    let created = create_partition(&mut conn, show("Kinderszenen", "Clara Schumann", "Sonata")).unwrap();
    assert_eq!(raw(&[created]), vec![(Some(3), 2, "Kinderszenen".to_string(), 1)]);
}

#[test]
fn create_partition_trims_the_full_name_only() {
    let mut conn = small_catalog();
    let created = create_partition(&mut conn, show("Etude", "  Ada Lovelace\t", "Fugue")).unwrap();
    assert_eq!(raw(&[created]), vec![(Some(3), 1, "Etude".to_string(), 2)]);
    // the name of the genre is taken as it stands
    assert_eq!(
        create_partition(&mut conn, show("Etude", "Ada Lovelace", " Fugue")).err(),
        Some(DbError::NotFound)
    );
    // and so is the title
    let padded = create_partition(&mut conn, show(" Etude ", "Ada Lovelace", "Fugue")).unwrap();
    assert_eq!(padded.title, " Etude ");
}

#[test]
fn create_partition_fails_without_person() {
    let mut conn = small_catalog();
    let outcome = create_partition(&mut conn, show("Opus 2", "Nobody", "Sonata"));
    assert_eq!(outcome.err(), Some(DbError::NotFound));
    assert_eq!(get_list_raw_partitions(&conn).unwrap().len(), 2);
}

#[test]
fn create_partition_fails_without_genre() {
    let mut conn = small_catalog();
    let outcome = create_partition(&mut conn, show("Opus 2", "Ada Lovelace", "Polka"));
    assert_eq!(outcome.err(), Some(DbError::NotFound));
    assert_eq!(get_list_raw_partitions(&conn).unwrap().len(), 2);
    assert_eq!(conn.partitions().len(), 2);
}

#[test]
fn resolve_partition_takes_names_as_they_stand() {
    let conn = small_catalog();
    let resolved = resolve_partition(&conn, "Opus 9", "Clara Schumann", "Sonata").unwrap();
    assert_eq!(raw(&[resolved]), vec![(None, 2, "Opus 9".to_string(), 1)]);
    assert_eq!(
        resolve_partition(&conn, "Opus 9", " Clara Schumann", "Sonata").err(),
        Some(DbError::NotFound)
    );
    assert_eq!(
        resolve_partition(&conn, "Opus 9", "Clara Schumann", "Polka").err(),
        Some(DbError::NotFound)
    );
}

#[test]
fn insert_resolved_stores_under_the_next_key() {
    let mut conn = small_catalog();
    let stored = insert_resolved(&mut conn, "Opus 9", "Ada Lovelace", "Fugue").unwrap();
    assert_eq!(raw(&[stored]), vec![(Some(3), 1, "Opus 9".to_string(), 2)]);
    assert_eq!(insert_resolved(&mut conn, "Opus 9", "Nobody", "Fugue").err(), Some(DbError::NotFound));
    assert_eq!(conn.partitions().len(), 3);
}

#[test]
fn update_overwrites_all_columns_but_the_key() {
    let mut conn = small_catalog();
    let updated =
        update_person(2, Person { id: Some(77), full_name: "Clara Wieck".to_string() }, &mut conn)
            .unwrap();
    assert_eq!((updated.id, updated.full_name.as_str()), (Some(2), "Clara Wieck"));
    assert_eq!(
        persons_of(&conn),
        vec![(Some(1), "Ada Lovelace".to_string()), (Some(2), "Clara Wieck".to_string())]
    );
    let updated = update_genre(1, genre("Rondo"), &mut conn).unwrap();
    assert_eq!(updated, Genre { id: Some(1), name: "Rondo".to_string() });
    let updated = update_partition(
        1,
        Partition { id: None, person_id: 2, title: "Opus 1b".to_string(), genre_id: 2 },
        &mut conn,
    )
    .unwrap();
    assert_eq!(raw(&[updated]), vec![(Some(1), 2, "Opus 1b".to_string(), 2)]);
    assert_eq!(
        shown(&get_list_show_partitions(&conn).unwrap()),
        vec![row(2, "Carnaval", "Clara Wieck", "Fugue"), row(1, "Opus 1b", "Clara Wieck", "Fugue")]
    );
}

#[test]
fn update_of_a_missing_key_is_not_found_and_changes_nothing() {
    let mut conn = small_catalog();
    assert_eq!(update_person(9, person("Nobody"), &mut conn).err(), Some(DbError::NotFound));
    assert_eq!(update_genre(0, genre("Polka"), &mut conn).err(), Some(DbError::NotFound));
    assert_eq!(
        update_partition(
            -1,
            Partition { id: None, person_id: 1, title: "x".to_string(), genre_id: 1 },
            &mut conn
        )
        .err(),
        Some(DbError::NotFound)
    );
    assert_eq!(
        persons_of(&conn),
        vec![(Some(1), "Ada Lovelace".to_string()), (Some(2), "Clara Schumann".to_string())]
    );
    assert_eq!(
        genres_of(&conn),
        vec![(Some(2), "Fugue".to_string()), (Some(1), "Sonata".to_string())]
    );
    assert_eq!(
        raw(&get_list_raw_partitions(&conn).unwrap()),
        vec![(Some(2), 2, "Carnaval".to_string(), 2), (Some(1), 1, "Opus 1".to_string(), 1)]
    );
}

#[test]
fn delete_removes_one_row() {
    let mut conn = small_catalog();
    assert_eq!(delete_one_partition(&mut conn, 1), Ok(1));
    assert_eq!(
        raw(&get_list_raw_partitions(&conn).unwrap()),
        vec![(Some(2), 2, "Carnaval".to_string(), 2)]
    );
    assert_eq!(delete_one_genre(&mut conn, 1), Ok(1));
    assert_eq!(genres_of(&conn), vec![(Some(2), "Fugue".to_string())]);
    assert_eq!(delete_one_person(&mut conn, 1), Ok(1));
    assert_eq!(persons_of(&conn), vec![(Some(2), "Clara Schumann".to_string())]);
}

#[test]
fn delete_of_a_missing_key_affects_no_row() {
    let mut conn = small_catalog();
    assert_eq!(delete_one_person(&mut conn, 3), Ok(0));
    assert_eq!(delete_one_genre(&mut conn, 0), Ok(0));
    assert_eq!(delete_one_partition(&mut conn, i32::MIN), Ok(0));
    assert_eq!(persons_of(&conn).len(), 2);
    assert_eq!(genres_of(&conn).len(), 2);
    assert_eq!(get_list_raw_partitions(&conn).unwrap().len(), 2);
    // deleting twice: the second time there is nothing left to delete
    assert_eq!(delete_one_person(&mut conn, 1), Ok(1));
    assert_eq!(delete_one_person(&mut conn, 1), Ok(0));
}

#[test]
fn deleting_a_partition_keeps_its_person_and_genre() {
    let mut conn = small_catalog();
    assert_eq!(delete_one_partition(&mut conn, 1), Ok(1));
    assert_eq!(
        persons_of(&conn),
        vec![(Some(1), "Ada Lovelace".to_string()), (Some(2), "Clara Schumann".to_string())]
    );
    assert_eq!(
        genres_of(&conn),
        vec![(Some(2), "Fugue".to_string()), (Some(1), "Sonata".to_string())]
    );
}

#[test]
fn deleting_a_person_leaves_the_partition_with_a_dangling_reference() {
    let mut conn = Catalog::new();
    create_person(&mut conn, person("Ada")).unwrap();
    create_genre(&mut conn, genre("Sonata")).unwrap();
    create_partition(&mut conn, show("Opus 1", "Ada", "Sonata")).unwrap();
    assert_eq!(delete_one_person(&mut conn, 1), Ok(1));
    // the partition row is still there, and still refers to person 1
    assert_eq!(
        raw(&get_list_raw_partitions(&conn).unwrap()),
        vec![(Some(1), 1, "Opus 1".to_string(), 1)]
    );
    let found = get_raw_partition_by_title(&conn, "Opus 1".to_string()).unwrap();
    assert_eq!(found.person_id, 1);
    // the genre is untouched
    assert_eq!(genres_of(&conn), vec![(Some(1), "Sonata".to_string())]);
    // without its person the partition is not shown
    assert!(get_list_show_partitions(&conn).unwrap().is_empty());
    assert_eq!(get_partition_by_title(&conn, "Opus 1".to_string()).err(), Some(DbError::NotFound));
    assert!(get_partition_by_genre(&conn, "Sonata".to_string()).unwrap().is_empty());
}

#[test]
fn deleting_a_genre_leaves_the_partition_with_a_dangling_reference() {
    let mut conn = small_catalog();
    assert_eq!(delete_one_genre(&mut conn, 1), Ok(1));
    assert_eq!(get_list_raw_partitions(&conn).unwrap().len(), 2);
    assert_eq!(
        shown(&get_list_show_partitions(&conn).unwrap()),
        vec![row(2, "Carnaval", "Clara Schumann", "Fugue")]
    );
    assert!(get_partition_by_author(&conn, "Ada Lovelace".to_string()).unwrap().is_empty());
}

#[test]
fn a_new_person_does_not_adopt_a_dangling_partition() {
    let mut conn = Catalog::new();
    create_person(&mut conn, person("Ada")).unwrap();
    create_genre(&mut conn, genre("Sonata")).unwrap();
    create_partition(&mut conn, show("Opus 1", "Ada", "Sonata")).unwrap();
    delete_one_person(&mut conn, 1).unwrap();
    let next = create_person(&mut conn, person("Bela")).unwrap();
    assert_eq!(next.id, Some(2));
    assert!(get_list_show_partitions(&conn).unwrap().is_empty());
}

#[test]
fn shown_title_skips_partitions_without_person() {
    let mut conn = Catalog::new();
    create_person(&mut conn, person("Ada")).unwrap();
    create_person(&mut conn, person("Bela")).unwrap();
    create_genre(&mut conn, genre("Sonata")).unwrap();
    create_partition(&mut conn, show("Opus 1", "Ada", "Sonata")).unwrap();
    create_partition(&mut conn, show("Opus 1", "Bela", "Sonata")).unwrap();
    delete_one_person(&mut conn, 1).unwrap();
    let raw_first = get_raw_partition_by_title(&conn, "Opus 1".to_string()).unwrap();
    assert_eq!(raw_first.id, Some(1));
    let found = get_partition_by_title(&conn, "Opus 1".to_string()).unwrap();
    assert_eq!(shown(&[found]), vec![row(2, "Opus 1", "Bela", "Sonata")]);
}

#[test]
fn created_person_reads_back_by_its_key() {
    let mut conn = small_catalog();
    let created = create_person(&mut conn, person("Bela Bartok")).unwrap();
    let read = get_one_person_id(&conn, created.id.unwrap()).unwrap();
    assert_eq!(read.id, Some(3));
    assert_eq!(read.full_name, "Bela Bartok");
    assert!(read.compare(&person("Bela Bartok")));
}

#[test]
fn created_genre_and_partition_read_back_by_their_keys() {
    let mut conn = small_catalog();
    let created = create_genre(&mut conn, genre("Nocturne")).unwrap();
    let read = conn.genres().by_id(created.id.unwrap()).unwrap();
    assert_eq!(read, Genre { id: Some(3), name: "Nocturne".to_string() });
    let created = create_partition(&mut conn, show("Opus 9", "Ada Lovelace", "Nocturne")).unwrap();
    let read = conn.partitions().by_id(created.id.unwrap()).unwrap();
    assert_eq!(raw(&[read]), vec![(Some(3), 1, "Opus 9".to_string(), 3)]);
}

#[test]
fn missing_identity_key_is_not_found() {
    let conn = small_catalog();
    assert_eq!(get_one_person_id(&conn, 3).err(), Some(DbError::NotFound));
    assert_eq!(get_one_person_id(&conn, 0).err(), Some(DbError::NotFound));
    assert_eq!(conn.genres().by_id(-5).err(), Some(DbError::NotFound));
}

#[test]
fn table_that_has_handed_out_its_last_key_takes_no_row() {
    let rows = vec![Person { id: Some(i32::MAX), full_name: "Last".to_string() }];
    let mut conn = Catalog::from_rows(rows, vec![], vec![]).unwrap();
    assert_eq!(
        create_person(&mut conn, person("One more")).err(),
        Some(DbError::StorageUnavailable)
    );
    assert_eq!(persons_of(&conn), vec![(Some(i32::MAX), "Last".to_string())]);
    // the other tables still take rows
    assert_eq!(create_genre(&mut conn, genre("Sonata")).unwrap().id, Some(1));
}

#[test]
fn from_rows_takes_rows_with_ascending_keys() {
    let persons = vec![
        Person { id: Some(3), full_name: "Clara".to_string() },
        Person { id: Some(7), full_name: "Ada".to_string() },
    ];
    let genres = vec![Genre { id: Some(-2), name: "Sonata".to_string() }];
    let partitions =
        vec![Partition { id: Some(5), person_id: 7, title: "Opus 1".to_string(), genre_id: -2 }];
    let mut conn = Catalog::from_rows(persons, genres, partitions).unwrap();
    assert_eq!(
        shown(&get_list_show_partitions(&conn).unwrap()),
        vec![row(5, "Opus 1", "Ada", "Sonata")]
    );
    assert_eq!(create_person(&mut conn, person("Bela")).unwrap().id, Some(8));
    assert_eq!(create_genre(&mut conn, genre("Fugue")).unwrap().id, Some(1));
    assert_eq!(
        create_partition(&mut conn, show("Opus 2", "Bela", "Fugue")).unwrap().id,
        Some(6)
    );
}

#[test]
fn from_rows_refuses_rows_without_key_or_out_of_order() {
    let no_key = vec![person("Ada")];
    assert!(Catalog::from_rows(no_key, vec![], vec![]).is_none());
    let twice = vec![
        Genre { id: Some(1), name: "Sonata".to_string() },
        Genre { id: Some(1), name: "Fugue".to_string() },
    ];
    assert!(Catalog::from_rows(vec![], twice, vec![]).is_none());
    let descending = vec![
        Partition { id: Some(2), person_id: 1, title: "b".to_string(), genre_id: 1 },
        Partition { id: Some(1), person_id: 1, title: "a".to_string(), genre_id: 1 },
    ];
    assert!(Catalog::from_rows(vec![], vec![], descending).is_none());
    assert!(Table::<Person>::from_rows(vec![]).is_some());
}

#[test]
fn table_serves_rows_of_any_kind() {
    let mut table: Table<Genre> = Table::new();
    assert_eq!(table.len(), 0);
    let stored = table.insert(&genre("Waltz")).unwrap();
    assert_eq!(stored, Genre { id: Some(1), name: "Waltz".to_string() });
    table.insert(&genre("Etude")).unwrap();
    assert_eq!(table.len(), 2);
    assert_eq!(table.row(1).name, "Etude");
    assert_eq!(table.first_by_key("Waltz").unwrap().id, Some(1));
    assert_eq!(table.first_by_key("Polka").err(), Some(DbError::NotFound));
    let names: Vec<String> = table.list().into_iter().map(|g| g.name).collect();
    assert_eq!(names, vec!["Etude", "Waltz"]);
    assert_eq!(table.replace(2, &genre("Fugue")).unwrap(), Genre { id: Some(2), name: "Fugue".to_string() });
    assert_eq!(table.replace(3, &genre("Fugue")).err(), Some(DbError::NotFound));
    assert_eq!(table.remove(1), 1);
    assert_eq!(table.remove(1), 0);
    assert_eq!(table.len(), 1);
}

#[test]
fn sorted_orders_rows_without_keys_first_among_equals() {
    let rows = vec![
        Genre { id: Some(2), name: "b".to_string() },
        Genre { id: Some(1), name: "b".to_string() },
        Genre { id: None, name: "b".to_string() },
        Genre { id: Some(9), name: "a".to_string() },
    ];
    let out = sorted(&rows);
    let ids: Vec<Option<i32>> = out.iter().map(|g| g.id).collect();
    assert_eq!(ids, vec![Some(9), None, Some(1), Some(2)]);
    assert!(comes_before(&rows[3], &rows[0]));
    assert!(comes_before(&rows[1], &rows[0]));
    assert!(!comes_before(&rows[0], &rows[0]));
    assert!(sorted(&Vec::<Genre>::new()).is_empty());
}

#[test]
fn find_gives_the_first_position() {
    let rows = vec![
        Genre { id: Some(4), name: "b".to_string() },
        Genre { id: Some(5), name: "a".to_string() },
        Genre { id: Some(4), name: "a".to_string() },
    ];
    assert_eq!(find_by_key(&rows, "a"), Some(1));
    assert_eq!(find_by_key(&rows, "c"), None);
    assert_eq!(find_by_id(&rows, 4), Some(0));
    assert_eq!(find_by_id(&rows, 6), None);
}

#[test]
fn record_gives_keys_and_stamped_copies() {
    let p = Partition { id: None, person_id: 3, title: "Opus 1".to_string(), genre_id: 4 };
    assert_eq!(p.key(), "Opus 1");
    assert_eq!(p.id(), None);
    let q = p.stamped(8);
    assert_eq!(raw(&[q]), vec![(Some(8), 3, "Opus 1".to_string(), 4)]);
    let s = show("Opus 1", "Ada", "Sonata").stamped(2);
    assert_eq!(shown(&[s.copy()]), vec![row(2, "Opus 1", "Ada", "Sonata")]);
    assert_eq!(s.key(), "Opus 1");
    assert_eq!(person("Ada").key(), "Ada");
    assert_eq!(genre("Sonata").stamped(1), Genre { id: Some(1), name: "Sonata".to_string() });
}

#[test]
fn compare_goes_by_full_name_alone() {
    let a = Person { id: Some(1), full_name: "Ada Lovelace".to_string() };
    let b = Person { id: Some(2), full_name: "Ada Lovelace".to_string() };
    let c = Person { id: Some(1), full_name: "Ada Byron".to_string() };
    assert!(a.compare(&b));
    assert!(b.compare(&a));
    assert!(!a.compare(&c));
    assert!(a.compare(&a.clone()));
}

#[test]
fn genres_are_equal_field_by_field() {
    let a = Genre { id: Some(1), name: "Sonata".to_string() };
    assert_eq!(a, a.clone());
    assert_ne!(a, Genre { id: Some(2), name: "Sonata".to_string() });
    assert_ne!(a, Genre { id: Some(1), name: "Fugue".to_string() });
    assert_ne!(a, Genre { id: None, name: "Sonata".to_string() });
}

#[test]
fn db_error_has_a_message() {
    assert_eq!(DbError::NotFound.message(), "Record not found");
    assert_eq!(DbError::StorageUnavailable.message(), "Fail to access database.");
}
