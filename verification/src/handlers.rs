//! One function per request. Each asks the store for what the request
//! needs, or changes it as the request says, and gives the answer: a page,
//! or the way to another page with a message.

use vstd::prelude::*;
use crate::answers::{
    added, answer_view, deleted, deleted_answer, failure_of, flash_of, flash_view, genre_found,
    modified, or_not_found, page, partition_found, partitions_found, person_found, titled_page,
    Context, ContextView, Entity, FlashRedirect, FlashRedirectView, Model, ModelView, Template,
    TemplateView,
};
use crate::db::{
    create_genre, create_partition, create_person, delete_one_genre, delete_one_partition,
    delete_one_person, get_list_genres, get_list_persons, get_list_show_partitions,
    resolve_partition, Catalog, CatalogView,
};
use crate::error::{DbError, Failure};
use crate::models::{Genre, GenreView, Partition, Person, PersonView, ShowPartition};
use crate::laws::law_overwrite_touches_one_row;
use crate::record::{first_with_key, has_id, is_listing, row_of_id, views_of, Record};
use crate::text::trimmed;

verus! {

impl Context {
    /// The content of the page of persons: all persons in ascending order
    /// of full name, under the message `flash`.
    pub fn raw_pers(conn: &Catalog, flash: Option<(String, String)>) -> (r: Context)
        ensures
            is_listing::<Person>(r@.persons, conn@.persons.rows),
            r@ == ContextView::of_persons(Ok(r@.persons), flash_view(flash)),
    {
        Context::of_persons(get_list_persons(conn), flash)
    }

    /// The content of the page of genres: all genres in ascending order of
    /// name, under the message `flash`.
    pub fn raw_genres(conn: &Catalog, flash: Option<(String, String)>) -> (r: Context)
        ensures
            is_listing::<Genre>(r@.genres, conn@.genres.rows),
            r@ == ContextView::of_genres(Ok(r@.genres), flash_view(flash)),
    {
        Context::of_genres(get_list_genres(conn), flash)
    }

    /// The content of the page of partitions: all persons, all genres, and
    /// all partitions as they are shown, each in ascending order of its
    /// natural key, under the message `flash`.
    pub fn raw_partitions(conn: &Catalog, flash: Option<(String, String)>) -> (r: Context)
        ensures
            is_listing::<Person>(r@.persons, conn@.persons.rows),
            is_listing::<Genre>(r@.genres, conn@.genres.rows),
            is_listing::<ShowPartition>(r@.partitions, conn@.joined()),
            r@ == ContextView::of_partitions(
                Ok(r@.persons),
                Ok(r@.genres),
                Ok(r@.partitions),
                flash_view(flash),
            ),
    {
        let persons = get_list_persons(conn);
        let genres = get_list_genres(conn);
        Context::of_partitions(persons, genres, get_list_show_partitions(conn), flash)
    }
}

/// The landing page.
pub fn start() -> (r: Template)
    ensures
        r@ == TemplateView::titled("start"@, "Start"@),
{
    titled_page("start", "Start")
}

/// The page that lists the genres in ascending order of name.
pub fn all_genres(conn: &Catalog) -> (r: Template)
    ensures
        is_listing::<Genre>(r@.context().genres, conn@.genres.rows),
        r@ == TemplateView::page(
            "genres"@,
            ContextView::of_genres(
                Ok(r@.context().genres),
                Some(("pas d'erreur"@, "liste des genres trouvée"@)),
            ),
        ),
{
    let flash = flash_of("pas d'erreur", "liste des genres trouvée");
    page("genres".to_string(), Context::raw_genres(conn, flash))
}

/// The page that lists the persons in ascending order of full name.
pub fn all_persons(conn: &Catalog) -> (r: Template)
    ensures
        is_listing::<Person>(r@.context().persons, conn@.persons.rows),
        r@ == TemplateView::page(
            "persons"@,
            ContextView::of_persons(
                Ok(r@.context().persons),
                Some(("pas d'erreur"@, "liste des personnes trouvée"@)),
            ),
        ),
{
    let flash = flash_of("pas d'erreur", "liste des personnes trouvée");
    page("persons".to_string(), Context::raw_pers(conn, flash))
}

/// The page that lists the partitions as they are shown, in ascending
/// order of title, together with all persons and all genres.
pub fn all_partitions(conn: &Catalog) -> (r: Template)
    ensures
        is_listing::<Person>(r@.context().persons, conn@.persons.rows),
        is_listing::<Genre>(r@.context().genres, conn@.genres.rows),
        is_listing::<ShowPartition>(r@.context().partitions, conn@.joined()),
        r@ == TemplateView::page(
            "partitions"@,
            ContextView::of_partitions(
                Ok(r@.context().persons),
                Ok(r@.context().genres),
                Ok(r@.context().partitions),
                Some(("pas d'erreur"@, "liste des partitions trouvée"@)),
            ),
        ),
{
    let flash = flash_of("pas d'erreur", "liste des partitions trouvée");
    page("partitions".to_string(), Context::raw_partitions(conn, flash))
}

/// Deletes the person whose identity key is `id`. Where there was such a
/// person, the answer leads back to the list of persons with the good news;
/// where there was none, the list page reports that nothing was deleted.
/// The genres and the partitions stay as they are.
pub fn delete_person(id: i32, conn: &mut Catalog) -> (r: Result<FlashRedirect, Template>)
    requires
        old(conn)@.wf(),
    ensures
        final(conn)@.wf(),
        final(conn)@ == old(conn)@.with_persons(old(conn)@.persons.removed(id)),
        answer_view(r) == deleted_answer(
            Entity::Person,
            Ok(if has_id::<Person>(old(conn)@.persons.rows, id) { 1usize } else { 0usize }),
        ),
{
    deleted(Entity::Person, delete_one_person(conn, id))
}

/// Deletes the genre whose identity key is `id`. Where there was such a
/// genre, the answer leads back to the list of genres with the good news;
/// where there was none, the list page reports that nothing was deleted.
/// The persons and the partitions stay as they are.
pub fn delete_genre(id: i32, conn: &mut Catalog) -> (r: Result<FlashRedirect, Template>)
    requires
        old(conn)@.wf(),
    ensures
        final(conn)@.wf(),
        final(conn)@ == old(conn)@.with_genres(old(conn)@.genres.removed(id)),
        answer_view(r) == deleted_answer(
            Entity::Genre,
            Ok(if has_id::<Genre>(old(conn)@.genres.rows, id) { 1usize } else { 0usize }),
        ),
{
    deleted(Entity::Genre, delete_one_genre(conn, id))
}

/// Deletes the partition whose identity key is `id`. Where there was such
/// a partition, the answer leads back to the list of partitions with the
/// good news; where there was none, the list page reports that nothing was
/// deleted. The persons and the genres stay as they are.
pub fn delete_partition(id: i32, conn: &mut Catalog) -> (r: Result<FlashRedirect, Template>)
    requires
        old(conn)@.wf(),
    ensures
        final(conn)@.wf(),
        final(conn)@ == old(conn)@.with_partitions(old(conn)@.partitions.removed(id)),
        answer_view(r) == deleted_answer(
            Entity::Partition,
            Ok(
                if has_id::<Partition>(old(conn)@.partitions.rows, id) {
                    1usize
                } else {
                    0usize
                },
            ),
        ),
{
    deleted(Entity::Partition, delete_one_partition(conn, id))
}

/// Stores a new person and leads back to the list of persons: with the
/// good news, or, where the store could not take the row, with the report
/// of that and nothing changed.
pub fn new_person(person: Person, conn: &mut Catalog) -> (r: FlashRedirect)
    requires
        old(conn)@.wf(),
    ensures
        final(conn)@.wf(),
        old(conn)@.persons.last_id < i32::MAX ==> {
            &&& final(conn)@ == old(conn)@.with_persons(old(conn)@.persons.inserted(person@))
            &&& r@ == FlashRedirectView::added(Entity::Person, None)
        },
        old(conn)@.persons.last_id == i32::MAX ==> {
            &&& final(conn)@ == old(conn)@
            &&& r@ == FlashRedirectView::added(
                Entity::Person,
                Some(DbError::StorageUnavailable),
            )
        },
{
    let outcome = create_person(conn, person);
    added(Entity::Person, &outcome)
}

/// Stores a new genre and leads back to the list of genres: with the good
/// news, or, where the store could not take the row, with the report of that
/// and nothing changed.
pub fn new_genre(genre: Genre, conn: &mut Catalog) -> (r: FlashRedirect)
    requires
        old(conn)@.wf(),
    ensures
        final(conn)@.wf(),
        old(conn)@.genres.last_id < i32::MAX ==> {
            &&& final(conn)@ == old(conn)@.with_genres(old(conn)@.genres.inserted(genre@))
            &&& r@ == FlashRedirectView::added(Entity::Genre, None)
        },
        old(conn)@.genres.last_id == i32::MAX ==> {
            &&& final(conn)@ == old(conn)@
            &&& r@ == FlashRedirectView::added(Entity::Genre, Some(DbError::StorageUnavailable))
        },
{
    let outcome = create_genre(conn, genre);
    added(Entity::Genre, &outcome)
}

/// What storing the partition for a title, a full name and a name does to
/// the store, and with which failure it ends, if it fails.
pub open spec fn partition_stored(
    before: CatalogView,
    title: Seq<char>,
    full_name: Seq<char>,
    name: Seq<char>,
) -> (CatalogView, Option<DbError>) {
    match before.resolved(title, full_name, name) {
        None => (before, Some(DbError::NotFound)),
        Some(p) => if before.partitions.last_id < i32::MAX {
            (before.with_partitions(before.partitions.inserted(p)), None)
        } else {
            (before, Some(DbError::StorageUnavailable))
        },
    }
}

/// Stores a new partition from the form in which partitions are shown and
/// leads back to the list of partitions: with the good news, or with the
/// report of the failure and nothing changed. The person is looked up under
/// the full name without the white space around it.
pub fn new_partition(data: ShowPartition, conn: &mut Catalog) -> (r: FlashRedirect)
    requires
        old(conn)@.wf(),
    ensures
        final(conn)@.wf(),
        final(conn)@ == partition_stored(
            old(conn)@,
            data@.title,
            trimmed(data@.full_name),
            data@.name,
        ).0,
        r@ == FlashRedirectView::added(
            Entity::Partition,
            partition_stored(old(conn)@, data@.title, trimmed(data@.full_name), data@.name).1,
        ),
{
    let outcome = create_partition(conn, data);
    added(Entity::Partition, &outcome)
}

/// Overwrites the person whose identity key is `id` and leads back to the
/// list of persons: with the good news, or, where there is no such person,
/// with the report that it was not found and nothing changed.
pub fn update_person(id: i32, person: Person, conn: &mut Catalog) -> (r: FlashRedirect)
    requires
        old(conn)@.wf(),
    ensures
        final(conn)@.wf(),
        final(conn)@ == old(conn)@.with_persons(old(conn)@.persons.replaced(id, person@)),
        r@ == FlashRedirectView::modified(
            Entity::Person,
            if has_id::<Person>(old(conn)@.persons.rows, id) {
                None
            } else {
                Some(Failure::NotFound)
            },
        ),
{
    let outcome = crate::db::update_person(id, person, conn);
    modified(Entity::Person, failure_of(&outcome))
}

/// Overwrites the genre whose identity key is `id` and leads back to the
/// list of genres: with the good news, or, where there is no such genre,
/// with the report that it was not found and nothing changed.
pub fn update_genre(id: i32, genre: Genre, conn: &mut Catalog) -> (r: FlashRedirect)
    requires
        old(conn)@.wf(),
    ensures
        final(conn)@.wf(),
        final(conn)@ == old(conn)@.with_genres(old(conn)@.genres.replaced(id, genre@)),
        r@ == FlashRedirectView::modified(
            Entity::Genre,
            if has_id::<Genre>(old(conn)@.genres.rows, id) {
                None
            } else {
                Some(Failure::NotFound)
            },
        ),
{
    let outcome = crate::db::update_genre(id, genre, conn);
    modified(Entity::Genre, failure_of(&outcome))
}

/// What overwriting the partition with identity key `id` by the partition
/// for a title, a full name and a name does to the store, and with which
/// failure it ends, if it fails: the person or the genre is missing, or no
/// partition has that identity key.
pub open spec fn partition_overwritten(
    before: CatalogView,
    id: i32,
    title: Seq<char>,
    full_name: Seq<char>,
    name: Seq<char>,
) -> (CatalogView, Option<Failure>) {
    match before.resolved(title, full_name, name) {
        None => (before, Some(Failure::ValidationGap)),
        Some(p) => (
            before.with_partitions(before.partitions.replaced(id, p)),
            if has_id::<Partition>(before.partitions.rows, id) {
                None
            } else {
                Some(Failure::NotFound)
            },
        ),
    }
}

/// Overwrites the partition whose identity key is `id` by the partition
/// that stands for `show_partition`, and returns the row as it is stored
/// then. The person and the genre are looked up under the full name and
/// the name as they stand in `show_partition`. Fails, and changes nothing,
/// when the person or the genre is missing, or when no partition has that
/// identity key.
pub fn overwrite_partition(id: i32, show_partition: &ShowPartition, conn: &mut Catalog) -> (r:
    Result<Partition, Failure>)
    requires
        old(conn)@.wf(),
    ensures
        final(conn)@.wf(),
        final(conn)@ == partition_overwritten(
            old(conn)@,
            id,
            show_partition@.title,
            show_partition@.full_name,
            show_partition@.name,
        ).0,
        match r {
            Ok(row) => {
                &&& partition_overwritten(
                    old(conn)@,
                    id,
                    show_partition@.title,
                    show_partition@.full_name,
                    show_partition@.name,
                ).1 is None
                &&& Some(row@) == row_of_id::<Partition>(final(conn)@.partitions.rows, id)
            },
            Err(f) => partition_overwritten(
                old(conn)@,
                id,
                show_partition@.title,
                show_partition@.full_name,
                show_partition@.name,
            ).1 == Some(f),
        },
{
    let resolved = resolve_partition(
        conn,
        show_partition.title.as_str(),
        show_partition.full_name.as_str(),
        show_partition.name.as_str(),
    );
    match resolved {
        Ok(found) => {
            let partition = Partition {
                id: Some(id),
                person_id: found.person_id,
                title: found.title,
                genre_id: found.genre_id,
            };
            assert(Partition::with_id(partition@, Some(id)) == Partition::with_id(
                found@,
                Some(id),
            ));
            proof {
                law_overwrite_touches_one_row::<Partition>(old(conn)@.partitions, id, partition@);
            }
            match crate::db::update_partition(id, partition, conn) {
                Ok(row) => Ok(row),
                Err(e) => Err(Failure::from_db(e)),
            }
        },
        Err(e) => Err(Failure::from_partition_write(e)),
    }
}

/// Overwrites the partition whose identity key is `id` from the form in
/// which partitions are shown, and leads back to the list of partitions:
/// with the good news, or with the report of the failure and nothing
/// changed. The person and the genre are looked up under the full name and
/// the name as they stand in the form.
pub fn update_partition(id: i32, show_partition: ShowPartition, conn: &mut Catalog) -> (r:
    FlashRedirect)
    requires
        old(conn)@.wf(),
    ensures
        final(conn)@.wf(),
        final(conn)@ == partition_overwritten(
            old(conn)@,
            id,
            show_partition@.title,
            show_partition@.full_name,
            show_partition@.name,
        ).0,
        r@ == FlashRedirectView::modified(
            Entity::Partition,
            partition_overwritten(
                old(conn)@,
                id,
                show_partition@.title,
                show_partition@.full_name,
                show_partition@.name,
            ).1,
        ),
{
    match overwrite_partition(id, &show_partition, conn) {
        Ok(_) => modified(Entity::Partition, None),
        Err(f) => modified(Entity::Partition, Some(f)),
    }
}

/// Searches the first person whose full name is `name` and answers with the
/// page of persons: with that person, or with the report that it was not
/// found.
pub fn get_person_by_name(name: String, conn: &Catalog) -> (r: Template)
    ensures
        r@ == TemplateView::person_found(
            or_not_found(first_with_key::<Person>(conn@.persons.rows, name@)),
        ),
{
    person_found(crate::db::get_person_by_name(conn, name))
}

/// Searches the first genre whose name is `name` and answers with the page
/// of genres: with that genre, or with the report that it was not found.
pub fn get_genre_by_type(name: String, conn: &Catalog) -> (r: Template)
    ensures
        r@ == TemplateView::genre_found(
            or_not_found(first_with_key::<Genre>(conn@.genres.rows, name@)),
        ),
{
    genre_found(crate::db::get_genre_by_name(conn, name))
}

/// Searches the first partition, as it is shown, whose title is `title`
/// and answers with the page of partitions: with that partition beside all
/// persons and all genres, or saying that no partition was found.
pub fn get_partition_by_title(title: String, conn: &Catalog) -> (r: Template)
    ensures
        exists|persons: Seq<PersonView>, genres: Seq<GenreView>|
            {
                &&& is_listing::<Person>(persons, conn@.persons.rows)
                &&& is_listing::<Genre>(genres, conn@.genres.rows)
                &&& r@ == TemplateView::partition_found(
                    or_not_found(first_with_key::<ShowPartition>(conn@.joined(), title@)),
                    Ok(persons),
                    Ok(genres),
                )
            },
{
    let persons = get_list_persons(conn);
    let genres = get_list_genres(conn);
    let ghost shown_persons = views_of(persons->Ok_0@);
    let ghost shown_genres = views_of(genres->Ok_0@);
    let r = partition_found(crate::db::get_partition_by_title(conn, title), persons, genres);
    assert(is_listing::<Person>(shown_persons, conn@.persons.rows) && is_listing::<Genre>(
        shown_genres,
        conn@.genres.rows,
    ) && r@ == TemplateView::partition_found(
        or_not_found(first_with_key::<ShowPartition>(conn@.joined(), title@)),
        Ok(shown_persons),
        Ok(shown_genres),
    ));
    r
}

/// Searches the partitions of the first person whose full name is `author`
/// and answers with the page of partitions: with those partitions, in their
/// storage order, beside all persons and all genres; or, where there is no
/// such person, saying that no partition was found.
pub fn get_partition_by_author(author: String, conn: &Catalog) -> (r: Template)
    requires
        conn@.wf(),
    ensures
        exists|persons: Seq<PersonView>, genres: Seq<GenreView>|
            {
                &&& is_listing::<Person>(persons, conn@.persons.rows)
                &&& is_listing::<Genre>(genres, conn@.genres.rows)
                &&& r@ == TemplateView::partitions_found(
                    or_not_found(conn@.by_author(author@)),
                    Ok(persons),
                    Ok(genres),
                )
            },
{
    let persons = get_list_persons(conn);
    let genres = get_list_genres(conn);
    let ghost shown_persons = views_of(persons->Ok_0@);
    let ghost shown_genres = views_of(genres->Ok_0@);
    let partitions = crate::db::get_partition_by_author(conn, author);
    let r = partitions_found(partitions, persons, genres);
    assert(is_listing::<Person>(shown_persons, conn@.persons.rows) && is_listing::<Genre>(
        shown_genres,
        conn@.genres.rows,
    ) && r@ == TemplateView::partitions_found(
        or_not_found(conn@.by_author(author@)),
        Ok(shown_persons),
        Ok(shown_genres),
    ));
    r
}

/// Searches the partitions of the first genre whose name is `genre` and
/// answers with the page of partitions: with those partitions, in their
/// storage order, beside all persons and all genres; or, where there is no
/// such genre, saying that no partition was found.
pub fn get_partition_by_genre(genre: String, conn: &Catalog) -> (r: Template)
    requires
        conn@.wf(),
    ensures
        exists|persons: Seq<PersonView>, genres: Seq<GenreView>|
            {
                &&& is_listing::<Person>(persons, conn@.persons.rows)
                &&& is_listing::<Genre>(genres, conn@.genres.rows)
                &&& r@ == TemplateView::partitions_found(
                    or_not_found(conn@.by_genre(genre@)),
                    Ok(persons),
                    Ok(genres),
                )
            },
{
    let persons = get_list_persons(conn);
    let genres = get_list_genres(conn);
    let ghost shown_persons = views_of(persons->Ok_0@);
    let ghost shown_genres = views_of(genres->Ok_0@);
    let partitions = crate::db::get_partition_by_genre(conn, genre);
    let r = partitions_found(partitions, persons, genres);
    assert(is_listing::<Person>(shown_persons, conn@.persons.rows) && is_listing::<Genre>(
        shown_genres,
        conn@.genres.rows,
    ) && r@ == TemplateView::partitions_found(
        or_not_found(conn@.by_genre(genre@)),
        Ok(shown_persons),
        Ok(shown_genres),
    ));
    r
}

/// The page for a request that no route answers: it shows the path that was
/// asked for.
pub fn not_found(path: &str) -> (r: Template)
    ensures
        r@ == (TemplateView { name: "error/404"@, status: 404, model: ModelView::Path(path@) }),
{
    Template { name: "error/404".to_string(), status: 404, model: Model::Path(path.to_string()) }
}

/// The page about the catalog.
pub fn about() -> (r: Template)
    ensures
        r@ == TemplateView::titled("about"@, "A propos de ..."@),
{
    titled_page("about", "A propos de ...")
}

} // verus!
