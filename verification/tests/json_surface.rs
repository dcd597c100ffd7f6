use score_catalog::db::{create_person, Catalog};
use score_catalog::error::DbError;
use score_catalog::handle_json::{
    about, add_person, all_persons, delete_person, get_person_id, new_person, not_found,
    person_added, person_deleted, start,
};
use score_catalog::answers::{FlashKind, Model};
use score_catalog::models::Person;

fn person(name: &str) -> Person {
    Person { id: None, full_name: name.to_string() }
}

fn two_persons() -> Catalog {
    let mut conn = Catalog::new();
    create_person(&mut conn, person("Clara Schumann")).unwrap();
    create_person(&mut conn, person("Ada Lovelace")).unwrap();
    conn
}

#[test]
fn json_all_persons_gives_the_list_in_order() {
    let conn = two_persons();
    let list: Vec<(Option<i32>, String)> =
        all_persons(&conn).into_iter().map(|p| (p.id, p.full_name)).collect();
    assert_eq!(
        list,
        vec![(Some(2), "Ada Lovelace".to_string()), (Some(1), "Clara Schumann".to_string())]
    );
}

#[test]
fn json_get_person_by_key() {
    let conn = two_persons();
    let found = get_person_id(&conn, 1).unwrap();
    assert_eq!((found.id, found.full_name.as_str()), (Some(1), "Clara Schumann"));
    assert_eq!(get_person_id(&conn, 3).err(), Some(DbError::NotFound));
}

#[test]
fn json_delete_person_looks_the_person_up_first() {
    let mut conn = two_persons();
    let answer = delete_person(1, &mut conn);
    assert_eq!(
        (answer.kind, answer.to.as_str(), answer.message.as_str()),
        (FlashKind::Success, "/persons", "Person succesfully deleted")
    );
    assert_eq!(all_persons(&conn).len(), 1);
    let answer = delete_person(1, &mut conn);
    assert_eq!(
        (answer.kind, answer.to.as_str(), answer.message.as_str()),
        (FlashKind::Error, "/persons", "Record not found")
    );
    assert_eq!(all_persons(&conn).len(), 1);
}

#[test]
fn json_add_person_starts_from_an_empty_person() {
    let t = add_person();
    assert_eq!((t.name.as_str(), t.status), ("add_person", 200));
    match &t.model {
        Model::Form(title, p) => {
            assert_eq!(title, "Ajouter une Personne");
            assert_eq!(p.id, None);
            assert_eq!(p.full_name, "");
        }
        other => panic!("not a form: {:?}", other),
    }
}

#[test]
fn json_new_person_stores_the_person() {
    let mut conn = two_persons();
    let answer = new_person(person("Bela Bartok"), &mut conn);
    assert_eq!(
        (answer.kind, answer.to.as_str(), answer.message.as_str()),
        (FlashKind::Success, "/persons", "Person succesfully added")
    );
    assert_eq!(get_person_id(&conn, 3).unwrap().full_name, "Bela Bartok");
}

#[test]
fn json_new_person_in_a_full_table_leads_back_to_the_form() {
    let rows = vec![Person { id: Some(i32::MAX), full_name: "Last".to_string() }];
    let mut conn = Catalog::from_rows(rows, vec![], vec![]).unwrap();
    let answer = new_person(person("One more"), &mut conn);
    assert_eq!(
        (answer.kind, answer.to.as_str(), answer.message.as_str()),
        (FlashKind::Error, "/persons/add", "Person not inserted")
    );
    assert_eq!(all_persons(&conn).len(), 1);
}

#[test]
fn json_fixed_pages() {
    let t = start();
    assert_eq!((t.name.as_str(), t.status), ("start", 200));
    assert!(matches!(&t.model, Model::Title(title) if title == "Start"));
    let t = about();
    assert_eq!((t.name.as_str(), t.status), ("about", 200));
    assert!(matches!(&t.model, Model::Title(title) if title == "About"));
    let t = not_found("/nowhere");
    assert_eq!((t.name.as_str(), t.status), ("error/404", 404));
    assert!(matches!(&t.model, Model::Path(path) if path == "/nowhere"));
}

#[test]
fn json_person_deleted_answers_for_every_outcome() {
    let a = person_deleted(Ok(1));
    assert_eq!(
        (a.kind, a.to.as_str(), a.message.as_str()),
        (FlashKind::Success, "/persons", "Person succesfully deleted")
    );
    let a = person_deleted(Ok(0));
    assert_eq!(
        (a.kind, a.to.as_str(), a.message.as_str()),
        (FlashKind::Error, "/persons", "Record not found")
    );
    let a = person_deleted(Err(DbError::StorageUnavailable));
    assert_eq!(
        (a.kind, a.to.as_str(), a.message.as_str()),
        (FlashKind::Error, "/persons", "Fail to access database.")
    );
}

#[test]
fn json_person_added_answers_for_every_outcome() {
    let ok: Result<Person, DbError> = Ok(person("Ada"));
    let a = person_added(&ok);
    assert_eq!(
        (a.kind, a.to.as_str(), a.message.as_str()),
        (FlashKind::Success, "/persons", "Person succesfully added")
    );
    let down: Result<Person, DbError> = Err(DbError::StorageUnavailable);
    let a = person_added(&down);
    assert_eq!(
        (a.kind, a.to.as_str(), a.message.as_str()),
        (FlashKind::Error, "/persons/add", "Person not inserted")
    );
}
