//! The answers of the small surface that serves persons as data: lists and
//! single rows are handed out as values, to be encoded by whoever sends
//! them.

use vstd::prelude::*;
use crate::db::{
    create_person, delete_one_person, get_list_persons, get_one_person_id, Catalog,
};
use crate::error::{DbError, Failure};
use crate::answers::{
    or_not_found, row_view, titled_page, FlashKind, FlashRedirect, FlashRedirectView, Model,
    ModelView, Template, TemplateView,
};
use crate::models::{Person, PersonView};
use crate::record::{has_id, is_listing, row_of_id, views_of};

verus! {

/// The landing page.
pub fn start() -> (r: Template)
    ensures
        r@ == TemplateView::titled("start"@, "Start"@),
{
    titled_page("start", "Start")
}

/// All persons in ascending order of full name.
pub fn all_persons(conn: &Catalog) -> (r: Vec<Person>)
    ensures
        is_listing::<Person>(views_of(r@), conn@.persons.rows),
{
    match get_list_persons(conn) {
        Ok(persons) => persons,
        Err(_) => Vec::new(),
    }
}

/// The person whose identity key is `id`.
pub fn get_person_id(conn: &Catalog, id: i32) -> (r: Result<Person, DbError>)
    ensures
        row_view(r) == or_not_found(row_of_id::<Person>(conn@.persons.rows, id)),
{
    get_one_person_id(conn, id)
}

/// The answer to a request to delete a person, for what the store
/// answered: the way back to the list of persons, with the good news, or
/// with the report of the failure. A store that deleted no row did not find
/// the person.
pub fn person_deleted(outcome: Result<usize, DbError>) -> (r: FlashRedirect)
    ensures
        r@ == match outcome {
            Ok(n) => if n == 0 {
                FlashRedirectView::error("/persons"@, Failure::NotFound.message_of())
            } else {
                FlashRedirectView::success("/persons"@, "Person succesfully deleted"@)
            },
            Err(e) => FlashRedirectView::error("/persons"@, Failure::of(e).message_of()),
        },
{
    let failed = match outcome {
        Ok(n) => if n == 0 {
            Some(Failure::NotFound)
        } else {
            None
        },
        Err(e) => Some(Failure::from_db(e)),
    };
    match failed {
        None => FlashRedirect {
            kind: FlashKind::Success,
            to: "/persons".to_string(),
            message: "Person succesfully deleted".to_string(),
        },
        Some(f) => FlashRedirect {
            kind: FlashKind::Error,
            to: "/persons".to_string(),
            message: f.message(),
        },
    }
}

/// Deletes the person whose identity key is `id`, after looking it up, and
/// leads back to the list of persons: with the good news, or, where there
/// is no such person, with the report that it was not found.
pub fn delete_person(id: i32, conn: &mut Catalog) -> (r: FlashRedirect)
    requires
        old(conn)@.wf(),
    ensures
        final(conn)@.wf(),
        final(conn)@ == old(conn)@.with_persons(old(conn)@.persons.removed(id)),
        r@ == if has_id::<Person>(old(conn)@.persons.rows, id) {
            FlashRedirectView::success("/persons"@, "Person succesfully deleted"@)
        } else {
            FlashRedirectView::error("/persons"@, Failure::NotFound.message_of())
        },
{
    let outcome = match get_one_person_id(conn, id) {
        Ok(_) => delete_one_person(conn, id),
        Err(_) => Err(DbError::NotFound),
    };
    person_deleted(outcome)
}

/// The page with the form for a new person. The form starts from a person
/// without identity key and with an empty full name.
pub fn add_person() -> (r: Template)
    ensures
        r@ == (TemplateView {
            name: "add_person"@,
            status: 200,
            model: ModelView::Form(
                "Ajouter une Personne"@,
                (PersonView { id: None, full_name: Seq::empty() }),
            ),
        }),
{
    let p = Person { id: None, full_name: String::new() };
    Template {
        name: "add_person".to_string(),
        status: 200,
        model: Model::Form("Ajouter une Personne".to_string(), p),
    }
}

/// The answer to a request to store a person, for what the store answered:
/// the way to the list of persons with the good news, or the way back to the
/// form with the report that nothing was stored.
pub fn person_added<T>(outcome: &Result<T, DbError>) -> (r: FlashRedirect)
    ensures
        r@ == if *outcome is Ok {
            FlashRedirectView::success("/persons"@, "Person succesfully added"@)
        } else {
            FlashRedirectView::error("/persons/add"@, "Person not inserted"@)
        },
{
    match outcome {
        Ok(_) => FlashRedirect {
            kind: FlashKind::Success,
            to: "/persons".to_string(),
            message: "Person succesfully added".to_string(),
        },
        Err(_) => FlashRedirect {
            kind: FlashKind::Error,
            to: "/persons/add".to_string(),
            message: "Person not inserted".to_string(),
        },
    }
}

/// Stores a new person. Where that worked, the answer leads to the list of
/// persons with the good news; where the store could not take the row, it
/// leads back to the form with the report that nothing was stored.
pub fn new_person(person: Person, conn: &mut Catalog) -> (r: FlashRedirect)
    requires
        old(conn)@.wf(),
    ensures
        final(conn)@.wf(),
        old(conn)@.persons.last_id < i32::MAX ==> {
            &&& final(conn)@ == old(conn)@.with_persons(old(conn)@.persons.inserted(person@))
            &&& r@ == FlashRedirectView::success("/persons"@, "Person succesfully added"@)
        },
        old(conn)@.persons.last_id == i32::MAX ==> {
            &&& final(conn)@ == old(conn)@
            &&& r@ == FlashRedirectView::error("/persons/add"@, "Person not inserted"@)
        },
{
    let outcome = create_person(conn, person);
    person_added(&outcome)
}

/// The page for a request that no route answers: it shows the path that was
/// asked for.
pub fn not_found(path: &str) -> (r: Template)
    ensures
        r@ == (TemplateView { name: "error/404"@, status: 404, model: ModelView::Path(path@) }),
{
    Template { name: "error/404".to_string(), status: 404, model: Model::Path(path.to_string()) }
}

/// The page about the catalog.
pub fn about() -> (r: Template)
    ensures
        r@ == TemplateView::titled("about"@, "About"@),
{
    titled_page("about", "About")
}

} // verus!
