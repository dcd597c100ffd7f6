//! The answers to requests, as values: which page is rendered with which
//! content, or to which page the user is sent with which message. Nothing
//! here renders or sends, and nothing here asks the store: every function
//! takes what the store answered and says what the user gets.

use vstd::prelude::*;
use crate::error::{DbError, Failure};
use crate::models::{
    Genre, GenreView, Person, PersonView, ShowPartition, ShowPartitionView,
};
use crate::record::views_of;

verus! {

/// What a page shows: a message, a title, and the rows of whichever tables
/// the page is about.
#[derive(Debug)]
pub struct Context {
    /// The message at the top of the page: its kind and its text.
    pub flash: Option<(String, String)>,
    /// The title of the page.
    pub title: String,
    /// The partitions to show.
    pub partitions: Vec<ShowPartition>,
    /// The persons to show.
    pub persons: Vec<Person>,
    /// The genres to show.
    pub genres: Vec<Genre>,
}

/// What a page's content is in contracts.
pub struct ContextView {
    pub flash: Option<(Seq<char>, Seq<char>)>,
    pub title: Seq<char>,
    pub partitions: Seq<ShowPartitionView>,
    pub persons: Seq<PersonView>,
    pub genres: Seq<GenreView>,
}

/// What a message is in contracts.
pub open spec fn flash_view(flash: Option<(String, String)>) -> Option<(Seq<char>, Seq<char>)> {
    match flash {
        Some((kind, text)) => Some((kind@, text@)),
        None => None,
    }
}

impl View for Context {
    type V = ContextView;

    open spec fn view(&self) -> ContextView {
        ContextView {
            flash: flash_view(self.flash),
            title: self.title@,
            partitions: views_of(self.partitions@),
            persons: views_of(self.persons@),
            genres: views_of(self.genres@),
        }
    }
}

impl ContextView {
    /// The content of a page that reports an error and shows nothing else.
    pub open spec fn error(kind: Seq<char>, text: Seq<char>) -> ContextView {
        ContextView {
            flash: Some((kind, text)),
            title: "Erreur !"@,
            partitions: Seq::empty(),
            persons: Seq::empty(),
            genres: Seq::empty(),
        }
    }

    /// The content of a page whose rows could not be read from the store.
    pub open spec fn unavailable(persons: Seq<PersonView>, genres: Seq<GenreView>) -> ContextView {
        ContextView {
            flash: Some(("error"@, "Fail to access database."@)),
            title: ""@,
            partitions: Seq::empty(),
            persons,
            genres,
        }
    }

    /// The content of the page of persons for what the store answered when
    /// asked for them.
    pub open spec fn of_persons(
        list: Result<Seq<PersonView>, DbError>,
        flash: Option<(Seq<char>, Seq<char>)>,
    ) -> ContextView {
        match list {
            Ok(persons) => ContextView {
                flash,
                title: "Liste des Personnes"@,
                partitions: Seq::empty(),
                persons,
                genres: Seq::empty(),
            },
            Err(_) => ContextView::unavailable(Seq::empty(), Seq::empty()),
        }
    }

    /// The content of the page of genres for what the store answered when
    /// asked for them.
    pub open spec fn of_genres(
        list: Result<Seq<GenreView>, DbError>,
        flash: Option<(Seq<char>, Seq<char>)>,
    ) -> ContextView {
        match list {
            Ok(genres) => ContextView {
                flash,
                title: "Liste des Genres"@,
                partitions: Seq::empty(),
                persons: Seq::empty(),
                genres,
            },
            Err(_) => ContextView::unavailable(Seq::empty(), Seq::empty()),
        }
    }

    /// The content of the page of partitions for what the store answered
    /// when asked for the persons, the genres and the partitions. Without
    /// the persons or the genres the page shows no rows at all.
    pub open spec fn of_partitions(
        persons: Result<Seq<PersonView>, DbError>,
        genres: Result<Seq<GenreView>, DbError>,
        list: Result<Seq<ShowPartitionView>, DbError>,
        flash: Option<(Seq<char>, Seq<char>)>,
    ) -> ContextView {
        match (persons, genres) {
            (Ok(persons), Ok(genres)) => match list {
                Ok(partitions) => ContextView {
                    flash,
                    title: "Liste des Partitions"@,
                    partitions,
                    persons,
                    genres,
                },
                Err(_) => ContextView::unavailable(persons, genres),
            },
            _ => ContextView::unavailable(Seq::empty(), Seq::empty()),
        }
    }

    /// The content of the page that says that no partition was found.
    pub open spec fn no_partition() -> ContextView {
        ContextView {
            flash: Some(("pas d'erreur"@, "Aucune partition trouvée"@)),
            title: "Aucune Partition trouvée"@,
            partitions: Seq::empty(),
            persons: Seq::empty(),
            genres: Seq::empty(),
        }
    }
}

/// What the store answered when asked for rows, in contracts.
pub open spec fn list_view<T: View>(list: Result<Vec<T>, DbError>) -> Result<Seq<T::V>, DbError> {
    match list {
        Ok(rows) => Ok(views_of(rows@)),
        Err(e) => Err(e),
    }
}

/// What the store answered when asked for one row, in contracts.
pub open spec fn row_view<T: View>(outcome: Result<T, DbError>) -> Result<T::V, DbError> {
    match outcome {
        Ok(row) => Ok(row@),
        Err(e) => Err(e),
    }
}

/// What a lookup answers: the row, or that it was not found.
pub open spec fn or_not_found<V>(found: Option<V>) -> Result<V, DbError> {
    match found {
        Some(v) => Ok(v),
        None => Err(DbError::NotFound),
    }
}

/// The failure, if any, in what the store answered.
pub open spec fn failure_in<T>(outcome: Result<T, DbError>) -> Option<DbError> {
    match outcome {
        Ok(_) => None,
        Err(e) => Some(e),
    }
}

/// A message of the kind `kind` with the text `text`.
pub fn flash_of(kind: &str, text: &str) -> (r: Option<(String, String)>)
    ensures
        flash_view(r) == Some((kind@, text@)),
{
    Some((kind.to_string(), text.to_string()))
}

impl Context {
    /// The content of a page that reports the error `msg` and shows nothing
    /// else.
    pub fn err(msg: &str) -> (r: Context)
        ensures
            r@ == ContextView::error("error"@, msg@),
    {
        let r = Context {
            flash: flash_of("error", msg),
            persons: Vec::new(),
            genres: Vec::new(),
            title: "Erreur !".to_string(),
            partitions: Vec::new(),
        };
        assert(r@.persons =~= Seq::empty() && r@.genres =~= Seq::empty() && r@.partitions
            =~= Seq::empty());
        r
    }

    /// The content of a page whose rows could not be read from the store.
    pub fn unavailable(persons: Vec<Person>, genres: Vec<Genre>) -> (r: Context)
        ensures
            r@ == ContextView::unavailable(views_of(persons@), views_of(genres@)),
    {
        let r = Context {
            flash: flash_of("error", "Fail to access database."),
            persons,
            genres,
            title: "".to_string(),
            partitions: Vec::new(),
        };
        assert(r@.partitions =~= Seq::empty());
        r
    }

    /// The content of the page of persons for what the store answered when
    /// asked for them: the persons under the message `flash`, or the report
    /// that the store could not be read.
    pub fn of_persons(list: Result<Vec<Person>, DbError>, flash: Option<(String, String)>) -> (r:
        Context)
        ensures
            r@ == ContextView::of_persons(list_view(list), flash_view(flash)),
    {
        match list {
            Ok(persons) => {
                let r = Context {
                    flash,
                    persons,
                    genres: Vec::new(),
                    title: "Liste des Personnes".to_string(),
                    partitions: Vec::new(),
                };
                assert(r@.genres =~= Seq::empty() && r@.partitions =~= Seq::empty());
                r
            },
            Err(_) => {
                let r = Context::unavailable(Vec::new(), Vec::new());
                assert(r@.persons =~= Seq::empty() && r@.genres =~= Seq::empty());
                r
            },
        }
    }

    /// The content of the page of genres for what the store answered when
    /// asked for them: the genres under the message `flash`, or the report
    /// that the store could not be read.
    pub fn of_genres(list: Result<Vec<Genre>, DbError>, flash: Option<(String, String)>) -> (r:
        Context)
        ensures
            r@ == ContextView::of_genres(list_view(list), flash_view(flash)),
    {
        match list {
            Ok(genres) => {
                let r = Context {
                    flash,
                    persons: Vec::new(),
                    genres,
                    title: "Liste des Genres".to_string(),
                    partitions: Vec::new(),
                };
                assert(r@.persons =~= Seq::empty() && r@.partitions =~= Seq::empty());
                r
            },
            Err(_) => {
                let r = Context::unavailable(Vec::new(), Vec::new());
                assert(r@.persons =~= Seq::empty() && r@.genres =~= Seq::empty());
                r
            },
        }
    }

    /// The content of the page of partitions for what the store answered
    /// when asked for the persons, the genres and the partitions as they are
    /// shown: all three under the message `flash`, or the report that the
    /// store could not be read.
    pub fn of_partitions(
        persons: Result<Vec<Person>, DbError>,
        genres: Result<Vec<Genre>, DbError>,
        list: Result<Vec<ShowPartition>, DbError>,
        flash: Option<(String, String)>,
    ) -> (r: Context)
        ensures
            r@ == ContextView::of_partitions(
                list_view(persons),
                list_view(genres),
                list_view(list),
                flash_view(flash),
            ),
    {
        match (persons, genres) {
            (Ok(persons), Ok(genres)) => match list {
                Ok(show_part) => Context {
                    flash,
                    persons,
                    genres,
                    title: "Liste des Partitions".to_string(),
                    partitions: show_part,
                },
                Err(_) => Context::unavailable(persons, genres),
            },
            _ => {
                let r = Context::unavailable(Vec::new(), Vec::new());
                assert(r@.persons =~= Seq::empty() && r@.genres =~= Seq::empty());
                r
            },
        }
    }
}

/// Whether a message that goes with a redirect reports success or failure.
#[derive(Clone, Copy, Debug, PartialEq, Eq, Structural)]
pub enum FlashKind {
    Success,
    Error,
}

/// The answer that sends the user to another page, with a message that is
/// shown there once.
#[derive(Debug)]
pub struct FlashRedirect {
    /// Whether the message reports success or failure.
    pub kind: FlashKind,
    /// The path of the page to go to.
    pub to: String,
    /// The text of the message.
    pub message: String,
}

/// What a redirect is in contracts.
pub struct FlashRedirectView {
    pub kind: FlashKind,
    pub to: Seq<char>,
    pub message: Seq<char>,
}

impl View for FlashRedirect {
    type V = FlashRedirectView;

    open spec fn view(&self) -> FlashRedirectView {
        FlashRedirectView { kind: self.kind, to: self.to@, message: self.message@ }
    }
}

impl FlashRedirectView {
    /// The redirect to `to` with the good news `message`.
    pub open spec fn success(to: Seq<char>, message: Seq<char>) -> FlashRedirectView {
        FlashRedirectView { kind: FlashKind::Success, to, message }
    }

    /// The redirect to `to` with the bad news `message`.
    pub open spec fn error(to: Seq<char>, message: Seq<char>) -> FlashRedirectView {
        FlashRedirectView { kind: FlashKind::Error, to, message }
    }

    /// The answer to a request to store a row of the kind `what`, for the
    /// failure of the store, if it failed.
    pub open spec fn added(what: Entity, failed: Option<DbError>) -> FlashRedirectView {
        match failed {
            None => FlashRedirectView::success(what.path_of(), what.added_text()),
            Some(e) => FlashRedirectView::error(
                what.path_of(),
                what.write_failure_of(e).message_of(),
            ),
        }
    }

    /// The answer to a request to overwrite a row of the kind `what`, for
    /// the failure of the store, if it failed.
    pub open spec fn modified(what: Entity, failed: Option<Failure>) -> FlashRedirectView {
        match failed {
            None => FlashRedirectView::success(what.path_of(), what.modified_text()),
            Some(f) => FlashRedirectView::error(what.path_of(), f.message_of()),
        }
    }
}

/// What a template is filled with.
#[derive(Debug)]
pub enum Model {
    /// A title and nothing else.
    Title(String),
    /// The path of a request that no route answers.
    Path(String),
    /// The content of a page of rows.
    Listing(Context),
    /// A title and the person that a form starts from.
    Form(String, Person),
}

/// What a template is filled with, in contracts.
pub enum ModelView {
    Title(Seq<char>),
    Path(Seq<char>),
    Listing(ContextView),
    Form(Seq<char>, PersonView),
}

impl View for Model {
    type V = ModelView;

    open spec fn view(&self) -> ModelView {
        match self {
            Model::Title(title) => ModelView::Title(title@),
            Model::Path(path) => ModelView::Path(path@),
            Model::Listing(context) => ModelView::Listing(context@),
            Model::Form(title, person) => ModelView::Form(title@, person@),
        }
    }
}

/// The answer that renders a page: the name of the template, the HTTP
/// status, and what the template is filled with.
#[derive(Debug)]
pub struct Template {
    /// The name of the template.
    pub name: String,
    /// The HTTP status of the answer.
    pub status: u16,
    /// What the template is filled with.
    pub model: Model,
}

/// What a rendered page is in contracts.
pub struct TemplateView {
    pub name: Seq<char>,
    pub status: u16,
    pub model: ModelView,
}

impl View for Template {
    type V = TemplateView;

    open spec fn view(&self) -> TemplateView {
        TemplateView { name: self.name@, status: self.status, model: self.model@ }
    }
}

impl TemplateView {
    /// A page that shows a title and nothing else.
    pub open spec fn titled(name: Seq<char>, title: Seq<char>) -> TemplateView {
        TemplateView { name, status: 200, model: ModelView::Title(title) }
    }

    /// A page of rows.
    pub open spec fn page(name: Seq<char>, context: ContextView) -> TemplateView {
        TemplateView { name, status: 200, model: ModelView::Listing(context) }
    }

    /// A page that reports a failure, under the status of that failure.
    pub open spec fn failed(name: Seq<char>, failure: Failure, context: ContextView)
        -> TemplateView {
        TemplateView { name, status: failure.status_of(), model: ModelView::Listing(context) }
    }

    /// The content of a page of rows.
    pub open spec fn context(self) -> ContextView {
        self.model->Listing_0
    }

    /// The answer to the search for a person: the page of persons with the
    /// one person found, or with the report of the failure.
    pub open spec fn person_found(outcome: Result<PersonView, DbError>) -> TemplateView {
        match outcome {
            Ok(p) => TemplateView::page(
                "persons"@,
                ContextView {
                    flash: Some(("pas d'erreur"@, "Personne trouvée"@)),
                    title: "Personne trouvée"@,
                    partitions: Seq::empty(),
                    persons: seq![p],
                    genres: Seq::empty(),
                },
            ),
            Err(e) => TemplateView::failed(
                "persons"@,
                Failure::of(e),
                ContextView::error("Erreur"@, e.message_of()),
            ),
        }
    }

    /// The answer to the search for a genre: the page of genres with the
    /// one genre found, or with the report of the failure.
    pub open spec fn genre_found(outcome: Result<GenreView, DbError>) -> TemplateView {
        match outcome {
            Ok(g) => TemplateView::page(
                "genres"@,
                ContextView {
                    flash: Some(("pas d'erreur"@, "Genre trouvé"@)),
                    title: "Genre trouvé"@,
                    partitions: Seq::empty(),
                    persons: Seq::empty(),
                    genres: seq![g],
                },
            ),
            Err(e) => TemplateView::failed(
                "genres"@,
                Failure::of(e),
                ContextView::error("Erreur"@, e.message_of()),
            ),
        }
    }

    /// The answer to a search for partitions that did not succeed: the page
    /// of partitions saying that no partition was found, under the status
    /// of a miss; or, where the store failed, the report of that.
    pub open spec fn partition_missed(e: DbError) -> TemplateView {
        match e {
            DbError::NotFound => TemplateView::failed(
                "partitions"@,
                Failure::NotFound,
                ContextView::no_partition(),
            ),
            _ => TemplateView::failed(
                "partitions"@,
                Failure::of(e),
                ContextView::error("Erreur"@, e.message_of()),
            ),
        }
    }

    /// The answer of the page of partitions where the persons or the genres
    /// could not be read.
    pub open spec fn partitions_unavailable() -> TemplateView {
        TemplateView::failed(
            "partitions"@,
            Failure::StorageUnavailable,
            ContextView::unavailable(Seq::empty(), Seq::empty()),
        )
    }

    /// The answer to the search for a partition by title: the page of
    /// partitions with the one partition found, beside all persons and all
    /// genres; or the page that says that none was found.
    pub open spec fn partition_found(
        outcome: Result<ShowPartitionView, DbError>,
        persons: Result<Seq<PersonView>, DbError>,
        genres: Result<Seq<GenreView>, DbError>,
    ) -> TemplateView {
        match (persons, genres) {
            (Ok(persons), Ok(genres)) => match outcome {
                Ok(p) => TemplateView::page(
                    "partitions"@,
                    ContextView {
                        flash: Some(("pas d'erreur"@, "Partition trouvée"@)),
                        title: "Partition trouvée"@,
                        partitions: seq![p],
                        persons,
                        genres,
                    },
                ),
                Err(e) => TemplateView::partition_missed(e),
            },
            _ => TemplateView::partitions_unavailable(),
        }
    }

    /// The answer to the search for the partitions of a person or of a
    /// genre: the page of partitions with those that were found, beside all
    /// persons and all genres; or, where the person or the genre does not
    /// exist, the page that says that no partition was found.
    pub open spec fn partitions_found(
        outcome: Result<Seq<ShowPartitionView>, DbError>,
        persons: Result<Seq<PersonView>, DbError>,
        genres: Result<Seq<GenreView>, DbError>,
    ) -> TemplateView {
        match (persons, genres) {
            (Ok(persons), Ok(genres)) => match outcome {
                Ok(partitions) => TemplateView::page(
                    "partitions"@,
                    ContextView {
                        flash: Some(("pas d'erreur"@, "partition trouvée"@)),
                        title: "Aucune Partition trouvée"@,
                        partitions,
                        persons,
                        genres,
                    },
                ),
                Err(e) => TemplateView::partition_missed(e),
            },
            _ => TemplateView::partitions_unavailable(),
        }
    }
}

/// What an answer that is a redirect or, failing that, a page is in
/// contracts.
pub open spec fn answer_view(r: Result<FlashRedirect, Template>) -> Result<
    FlashRedirectView,
    TemplateView,
> {
    match r {
        Ok(redirect) => Ok(redirect@),
        Err(page) => Err(page@),
    }
}

/// The three kinds of rows, as far as answers differ by them.
#[derive(Clone, Copy, Debug, PartialEq, Eq, Structural)]
pub enum Entity {
    Person,
    Genre,
    Partition,
}

impl Entity {
    /// The name of the template that lists the rows of this kind.
    pub open spec fn template_of(self) -> Seq<char> {
        match self {
            Entity::Person => "persons"@,
            Entity::Genre => "genres"@,
            Entity::Partition => "partitions"@,
        }
    }

    /// The path of the page that lists the rows of this kind.
    pub open spec fn path_of(self) -> Seq<char> {
        match self {
            Entity::Person => "/persons"@,
            Entity::Genre => "/genres"@,
            Entity::Partition => "/partitions"@,
        }
    }

    /// The message after a row of this kind was stored.
    pub open spec fn added_text(self) -> Seq<char> {
        match self {
            Entity::Person => "Person successfully added."@,
            Entity::Genre => "Genre successfully added."@,
            Entity::Partition => "Partition successfully added."@,
        }
    }

    /// The message after a row of this kind was overwritten.
    pub open spec fn modified_text(self) -> Seq<char> {
        match self {
            Entity::Person => "Person successfully modified."@,
            Entity::Genre => "Genre successfully modified."@,
            Entity::Partition => "Partition successfully modified."@,
        }
    }

    /// The message after a row of this kind was deleted.
    pub open spec fn deleted_text(self) -> Seq<char> {
        match self {
            Entity::Person => "Person successfully deleted"@,
            Entity::Genre => "Genre successfully deleted"@,
            Entity::Partition => "Partition successfully deleted"@,
        }
    }

    /// The message after a row of this kind could not be deleted.
    pub open spec fn delete_failed_text(self) -> Seq<char> {
        match self {
            Entity::Person => "Failed to delete person."@,
            Entity::Genre => "Failed to delete genre."@,
            Entity::Partition => "Failed to delete partition."@,
        }
    }

    /// The failure that a failed write of a row of this kind amounts to.
    pub open spec fn write_failure_of(self, e: DbError) -> Failure {
        match self {
            Entity::Partition => Failure::of_partition_write(e),
            _ => Failure::of(e),
        }
    }

    /// The name of the template that lists the rows of this kind.
    pub fn template(&self) -> (r: String)
        ensures
            r@ == self.template_of(),
    {
        match self {
            Entity::Person => "persons".to_string(),
            Entity::Genre => "genres".to_string(),
            Entity::Partition => "partitions".to_string(),
        }
    }

    /// The path of the page that lists the rows of this kind.
    pub fn path(&self) -> (r: String)
        ensures
            r@ == self.path_of(),
    {
        match self {
            Entity::Person => "/persons".to_string(),
            Entity::Genre => "/genres".to_string(),
            Entity::Partition => "/partitions".to_string(),
        }
    }
}

/// Why a request to delete was not carried out, if it was not: the store
/// failed, or it deleted no row.
pub open spec fn delete_failure(outcome: Result<usize, DbError>) -> Option<Failure> {
    match outcome {
        Ok(n) => if n == 0 {
            Some(Failure::ZeroRowsAffected)
        } else {
            None
        },
        Err(e) => Some(Failure::of(e)),
    }
}

/// The answer to a request to delete a row of the kind `what`, for what
/// the store answered: the way back to the list with the good news, or the
/// list page with the report that nothing was deleted.
pub open spec fn deleted_answer(what: Entity, outcome: Result<usize, DbError>) -> Result<
    FlashRedirectView,
    TemplateView,
> {
    match delete_failure(outcome) {
        None => Ok(FlashRedirectView::success(what.path_of(), what.deleted_text())),
        Some(f) => Err(
            TemplateView::failed(
                what.template_of(),
                f,
                ContextView::error("error"@, what.delete_failed_text()),
            ),
        ),
    }
}

/// A page of rows.
pub fn page(name: String, context: Context) -> (r: Template)
    ensures
        r@ == TemplateView::page(name@, context@),
{
    Template { name, status: 200, model: Model::Listing(context) }
}

/// A page that reports a failure, under the status of that failure.
pub fn failed_page(name: String, failure: Failure, context: Context) -> (r: Template)
    ensures
        r@ == TemplateView::failed(name@, failure, context@),
{
    Template { name, status: failure.status(), model: Model::Listing(context) }
}

/// A page that shows a title and nothing else.
pub fn titled_page(name: &str, title: &str) -> (r: Template)
    ensures
        r@ == TemplateView::titled(name@, title@),
{
    Template { name: name.to_string(), status: 200, model: Model::Title(title.to_string()) }
}

/// The answer to a request to delete a row of the kind `what`, for what
/// the store answered. A store that deleted no row did not do what was asked:
/// that is reported like a failure of the store.
pub fn deleted(what: Entity, outcome: Result<usize, DbError>) -> (r: Result<
    FlashRedirect,
    Template,
>)
    ensures
        answer_view(r) == deleted_answer(what, outcome),
{
    let failure = match outcome {
        Ok(n) => if n == 0 {
            Some(Failure::ZeroRowsAffected)
        } else {
            None
        },
        Err(e) => Some(Failure::from_db(e)),
    };
    match failure {
        None => {
            let message = match what {
                Entity::Person => "Person successfully deleted",
                Entity::Genre => "Genre successfully deleted",
                Entity::Partition => "Partition successfully deleted",
            };
            Ok(
                FlashRedirect {
                    kind: FlashKind::Success,
                    to: what.path(),
                    message: message.to_string(),
                },
            )
        },
        Some(f) => {
            let message = match what {
                Entity::Person => "Failed to delete person.",
                Entity::Genre => "Failed to delete genre.",
                Entity::Partition => "Failed to delete partition.",
            };
            Err(failed_page(what.template(), f, Context::err(message)))
        },
    }
}

/// The answer to a request to store a row of the kind `what`, for what the
/// store answered: the way back to the list, with the good news or with the
/// report of the failure. Where a partition could not be stored because a
/// row was not found, the input named a person or a genre that is missing.
pub fn added<T>(what: Entity, outcome: &Result<T, DbError>) -> (r: FlashRedirect)
    ensures
        r@ == FlashRedirectView::added(what, failure_in(*outcome)),
{
    match outcome {
        Ok(_) => {
            let message = match what {
                Entity::Person => "Person successfully added.",
                Entity::Genre => "Genre successfully added.",
                Entity::Partition => "Partition successfully added.",
            };
            FlashRedirect { kind: FlashKind::Success, to: what.path(), message: message.to_string() }
        },
        Err(e) => {
            let failure = match what {
                Entity::Partition => Failure::from_partition_write(*e),
                _ => Failure::from_db(*e),
            };
            FlashRedirect { kind: FlashKind::Error, to: what.path(), message: failure.message() }
        },
    }
}

/// Why the store did not do what it was asked, if it did not.
pub fn failure_of<T>(outcome: &Result<T, DbError>) -> (r: Option<Failure>)
    ensures
        r == match failure_in(*outcome) {
            Some(e) => Some(Failure::of(e)),
            None => None,
        },
{
    match outcome {
        Ok(_) => None,
        Err(e) => Some(Failure::from_db(*e)),
    }
}

/// The answer to a request to overwrite a row of the kind `what`: the way
/// back to the list, with the good news or with the report of the failure.
pub fn modified(what: Entity, failed: Option<Failure>) -> (r: FlashRedirect)
    ensures
        r@ == FlashRedirectView::modified(what, failed),
{
    match failed {
        None => {
            let message = match what {
                Entity::Person => "Person successfully modified.",
                Entity::Genre => "Genre successfully modified.",
                Entity::Partition => "Partition successfully modified.",
            };
            FlashRedirect { kind: FlashKind::Success, to: what.path(), message: message.to_string() }
        },
        Some(f) => FlashRedirect { kind: FlashKind::Error, to: what.path(), message: f.message() },
    }
}

/// The page that reports the failure of a search.
fn search_failed(what: Entity, e: DbError) -> (r: Template)
    ensures
        r@ == TemplateView::failed(
            what.template_of(),
            Failure::of(e),
            ContextView::error("Erreur"@, e.message_of()),
        ),
{
    let message = e.message();
    let context = Context {
        flash: flash_of("Erreur", message.as_str()),
        persons: Vec::new(),
        genres: Vec::new(),
        title: "Erreur !".to_string(),
        partitions: Vec::new(),
    };
    assert(context@.persons =~= Seq::empty() && context@.genres =~= Seq::empty()
        && context@.partitions =~= Seq::empty());
    failed_page(what.template(), Failure::from_db(e), context)
}

/// The answer to a search for partitions that did not succeed.
fn partition_missed(e: DbError) -> (r: Template)
    ensures
        r@ == TemplateView::partition_missed(e),
{
    match e {
        DbError::NotFound => {
            let context = Context {
                flash: flash_of("pas d'erreur", "Aucune partition trouvée"),
                persons: Vec::new(),
                genres: Vec::new(),
                title: "Aucune Partition trouvée".to_string(),
                partitions: Vec::new(),
            };
            assert(context@.persons =~= Seq::empty() && context@.genres =~= Seq::empty()
                && context@.partitions =~= Seq::empty());
            failed_page("partitions".to_string(), Failure::NotFound, context)
        },
        _ => search_failed(Entity::Partition, e),
    }
}

/// The answer of the page of partitions where the persons or the genres
/// could not be read.
fn partitions_unavailable() -> (r: Template)
    ensures
        r@ == TemplateView::partitions_unavailable(),
{
    let context = Context::unavailable(Vec::new(), Vec::new());
    assert(context@.persons =~= Seq::empty() && context@.genres =~= Seq::empty());
    failed_page("partitions".to_string(), Failure::StorageUnavailable, context)
}

/// The answer to the search for a person, for what the store answered.
pub fn person_found(outcome: Result<Person, DbError>) -> (r: Template)
    ensures
        r@ == TemplateView::person_found(row_view(outcome)),
{
    match outcome {
        Ok(p) => {
            let mut vec_pers: Vec<Person> = Vec::new();
            vec_pers.push(p);
            let context = Context {
                flash: flash_of("pas d'erreur", "Personne trouvée"),
                persons: vec_pers,
                genres: Vec::new(),
                title: "Personne trouvée".to_string(),
                partitions: Vec::new(),
            };
            assert(context@.persons =~= seq![p@] && context@.genres =~= Seq::empty()
                && context@.partitions =~= Seq::empty());
            page("persons".to_string(), context)
        },
        Err(e) => search_failed(Entity::Person, e),
    }
}

/// The answer to the search for a genre, for what the store answered.
pub fn genre_found(outcome: Result<Genre, DbError>) -> (r: Template)
    ensures
        r@ == TemplateView::genre_found(row_view(outcome)),
{
    match outcome {
        Ok(g) => {
            let mut vec_genres: Vec<Genre> = Vec::new();
            vec_genres.push(g);
            let context = Context {
                flash: flash_of("pas d'erreur", "Genre trouvé"),
                persons: Vec::new(),
                genres: vec_genres,
                title: "Genre trouvé".to_string(),
                partitions: Vec::new(),
            };
            assert(context@.persons =~= Seq::empty() && context@.genres =~= seq![g@]
                && context@.partitions =~= Seq::empty());
            page("genres".to_string(), context)
        },
        Err(e) => search_failed(Entity::Genre, e),
    }
}

/// The answer to the search for a partition by title, for what the store
/// answered when asked for the partition, the persons and the genres.
pub fn partition_found(
    outcome: Result<ShowPartition, DbError>,
    persons: Result<Vec<Person>, DbError>,
    genres: Result<Vec<Genre>, DbError>,
) -> (r: Template)
    ensures
        r@ == TemplateView::partition_found(
            row_view(outcome),
            list_view(persons),
            list_view(genres),
        ),
{
    match (persons, genres) {
        (Ok(persons), Ok(genres)) => match outcome {
            Ok(p) => {
                let mut vec_p: Vec<ShowPartition> = Vec::new();
                vec_p.push(p);
                let context = Context {
                    flash: flash_of("pas d'erreur", "Partition trouvée"),
                    persons,
                    genres,
                    title: "Partition trouvée".to_string(),
                    partitions: vec_p,
                };
                assert(context@.partitions =~= seq![p@]);
                page("partitions".to_string(), context)
            },
            Err(e) => partition_missed(e),
        },
        _ => partitions_unavailable(),
    }
}

/// The answer to the search for the partitions of a person or of a genre,
/// for what the store answered when asked for the partitions, the persons
/// and the genres.
pub fn partitions_found(
    outcome: Result<Vec<ShowPartition>, DbError>,
    persons: Result<Vec<Person>, DbError>,
    genres: Result<Vec<Genre>, DbError>,
) -> (r: Template)
    ensures
        r@ == TemplateView::partitions_found(
            list_view(outcome),
            list_view(persons),
            list_view(genres),
        ),
{
    match (persons, genres) {
        (Ok(persons), Ok(genres)) => match outcome {
            Ok(partitions) => {
                let context = Context {
                    flash: flash_of("pas d'erreur", "partition trouvée"),
                    persons,
                    genres,
                    title: "Aucune Partition trouvée".to_string(),
                    partitions,
                };
                page("partitions".to_string(), context)
            },
            Err(e) => partition_missed(e),
        },
        _ => partitions_unavailable(),
    }
}

} // verus!
