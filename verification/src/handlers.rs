//! The route handlers, as a conversation with the store.
//!
//! A handler never touches the store itself. It says what it wants to know
//! ([`Step::Ask`]), is resumed with what the store answered, and in the end
//! says what to send back ([`Step::Respond`]). Whoever owns the store runs
//! the conversation.

use vstd::prelude::*;

use crate::error::{DatabaseError, INTERNAL_SERVER_ERROR};
use crate::store::{outcome_view, Query, QueryView, Reply, ReplyView};
use crate::task::{views, Task, TaskView};
use crate::text::{decimal, decimal_text};

verus! {

/// The HTTP status of every request that was served.
pub const OK: u16 = 200;

/// A request, after the router and the form parser are done with it.
#[derive(Debug, PartialEq, Eq)]
pub enum Request {
    /// `GET /`
    Index,
    /// `POST /addtask`; the identifier of the form is not read.
    AddTask(Task),
    /// `GET /readtasks`
    ReadTasks,
    /// `PUT /edittask`
    EditTask(Task),
    /// `DELETE /deletetask/<id>`
    DeleteTask(i32),
}

/// What a [`Request`] is, mathematically.
pub enum RequestView {
    Index,
    AddTask(TaskView),
    ReadTasks,
    EditTask(TaskView),
    DeleteTask(int),
}

impl View for Request {
    type V = RequestView;

    open spec fn view(&self) -> RequestView {
        match *self {
            Request::Index => RequestView::Index,
            Request::AddTask(form) => RequestView::AddTask(form@),
            Request::ReadTasks => RequestView::ReadTasks,
            Request::EditTask(form) => RequestView::EditTask(form@),
            Request::DeleteTask(id) => RequestView::DeleteTask(id as int),
        }
    }
}

/// The body of a response, before it is serialised.
#[derive(Debug, PartialEq, Eq)]
pub enum Body {
    /// No body.
    Empty,
    /// Plain text.
    Text(String),
    /// One task.
    Task(Task),
    /// A list of tasks.
    Tasks(Vec<Task>),
}

/// What a [`Body`] is, mathematically.
pub enum BodyView {
    Empty,
    Text(Seq<char>),
    Task(TaskView),
    Tasks(Seq<TaskView>),
}

impl View for Body {
    type V = BodyView;

    open spec fn view(&self) -> BodyView {
        match *self {
            Body::Empty => BodyView::Empty,
            Body::Text(text) => BodyView::Text(text@),
            Body::Task(task) => BodyView::Task(task@),
            Body::Tasks(tasks) => BodyView::Tasks(views(tasks@)),
        }
    }
}

/// What goes back to the client.
#[derive(Debug, PartialEq, Eq)]
pub struct Response {
    pub status: u16,
    pub body: Body,
}

/// What a [`Response`] is, mathematically.
pub struct ResponseView {
    pub status: int,
    pub body: BodyView,
}

impl View for Response {
    type V = ResponseView;

    open spec fn view(&self) -> ResponseView {
        ResponseView { status: self.status as int, body: self.body@ }
    }
}

/// What a handler that has asked the store is waiting for.
#[derive(Debug, PartialEq, Eq)]
pub enum Pending {
    /// `add_task` waits for the row that was created.
    Insert,
    /// `read_tasks` waits for the listing.
    List,
    /// `edit_task` waits for the row that is to get the text `item`.
    Lookup { item: String },
    /// `edit_task` waits for the row as it was saved.
    Save,
    /// `delete_task` waits for the number of rows removed.
    Delete,
}

/// What a [`Pending`] is, mathematically.
pub enum PendingView {
    Insert,
    List,
    Lookup { item: Seq<char> },
    Save,
    Delete,
}

impl View for Pending {
    type V = PendingView;

    open spec fn view(&self) -> PendingView {
        match *self {
            Pending::Insert => PendingView::Insert,
            Pending::List => PendingView::List,
            Pending::Lookup { item } => PendingView::Lookup { item: item@ },
            Pending::Save => PendingView::Save,
            Pending::Delete => PendingView::Delete,
        }
    }
}

/// What a handler wants next.
#[derive(Debug, PartialEq, Eq)]
pub enum Step {
    /// Put `query` to the store, and resume the handler at `pending` with
    /// the outcome.
    Ask { pending: Pending, query: Query },
    /// Send the response; the request is done.
    Respond(Response),
}

/// What a [`Step`] is, mathematically.
pub enum StepView {
    Ask { pending: PendingView, query: QueryView },
    Respond(ResponseView),
}

impl View for Step {
    type V = StepView;

    open spec fn view(&self) -> StepView {
        match *self {
            Step::Ask { pending, query } => StepView::Ask { pending: pending@, query: query@ },
            Step::Respond(response) => StepView::Respond(response@),
        }
    }
}

/// The response to a request that was served.
pub open spec fn success(body: BodyView) -> ResponseView {
    ResponseView { status: OK as int, body }
}

/// The response to a request that failed: the status alone, whatever the
/// failure was.
pub open spec fn failure() -> ResponseView {
    ResponseView { status: INTERNAL_SERVER_ERROR as int, body: BodyView::Empty }
}

/// The text that confirms a deletion of `count` rows.
pub open spec fn deletion_text(count: nat) -> Seq<char> {
    decimal(count) + " task(s) deleted"@
}

/// The first step of each handler.
pub open spec fn begin_spec(request: RequestView) -> StepView {
    match request {
        RequestView::Index => StepView::Respond(success(BodyView::Text(crate::greeting()))),
        RequestView::AddTask(form) => StepView::Ask {
            pending: PendingView::Insert,
            query: QueryView::Insert { item: form.item },
        },
        RequestView::ReadTasks => StepView::Ask {
            pending: PendingView::List,
            query: QueryView::SelectAll,
        },
        RequestView::EditTask(form) => StepView::Ask {
            pending: PendingView::Lookup { item: form.item },
            query: QueryView::FindById { id: form.id },
        },
        RequestView::DeleteTask(id) => StepView::Ask {
            pending: PendingView::Delete,
            query: QueryView::DeleteById { id },
        },
    }
}

/// The step of a handler that waited at `pending` and got `outcome`.
///
/// A failure of the store ends the request with the failure response. So
/// does a lookup that found no row, and a reply that does not answer what
/// was asked.
pub open spec fn resume_spec(
    pending: PendingView,
    outcome: Result<ReplyView, DatabaseError>,
) -> StepView {
    match (pending, outcome) {
        (PendingView::Insert, Ok(ReplyView::Row(task))) => StepView::Respond(
            success(BodyView::Task(task)),
        ),
        (PendingView::List, Ok(ReplyView::Rows(tasks))) => StepView::Respond(
            success(BodyView::Tasks(tasks)),
        ),
        (PendingView::Lookup { item }, Ok(ReplyView::Found(Some(task)))) => StepView::Ask {
            pending: PendingView::Save,
            query: QueryView::Update { id: task.id, item },
        },
        (PendingView::Save, Ok(ReplyView::Row(task))) => StepView::Respond(
            success(BodyView::Task(task)),
        ),
        (PendingView::Delete, Ok(ReplyView::Deleted(count))) => StepView::Respond(
            success(BodyView::Text(deletion_text(count))),
        ),
        _ => StepView::Respond(failure()),
    }
}

/// The response to a request that was served, with the given body.
fn respond(body: Body) -> (step: Step)
    ensures
        step@ == StepView::Respond(success(body@)),
{
    Step::Respond(Response { status: OK, body })
}

/// The response to a request that failed.
fn fail(error: DatabaseError) -> (step: Step)
    ensures
        step@ == StepView::Respond(failure()),
{
    Step::Respond(Response { status: error.respond_to(), body: Body::Empty })
}

/// The text that confirms a deletion of `count` rows.
pub fn deletion_message(count: u64) -> (message: String)
    ensures
        message@ == deletion_text(count as nat),
{
    let mut message = decimal_text(count);
    message.append(" task(s) deleted");
    message
}

/// Handler of `POST /addtask`: asks the store for a row with the text of the
/// form. The identifier of the form is not read; the store assigns one.
pub fn add_task(task_form: Task) -> (step: Step)
    ensures
        step@ == begin_spec(RequestView::AddTask(task_form@)),
{
    Step::Ask { pending: Pending::Insert, query: Query::Insert { item: task_form.item } }
}

/// Handler of `GET /readtasks`: asks the store for every row in ascending
/// order of identifier.
pub fn read_tasks() -> (step: Step)
    ensures
        step@ == begin_spec(RequestView::ReadTasks),
{
    Step::Ask { pending: Pending::List, query: Query::SelectAll }
}

/// Handler of `PUT /edittask`: asks the store for the row with the identifier
/// of the form, and keeps the text of the form for when the row is found.
///
/// The edit is a lookup and then a save. Nothing guards the row between the
/// two: where the store serves other clients meanwhile, the save overwrites
/// what they wrote, or fails where they removed the row.
pub fn edit_task(task_form: Task) -> (step: Step)
    ensures
        step@ == begin_spec(RequestView::EditTask(task_form@)),
{
    Step::Ask {
        pending: Pending::Lookup { item: task_form.item },
        query: Query::FindById { id: task_form.id },
    }
}

/// Handler of `DELETE /deletetask/<id>`: asks the store to remove the row
/// with the identifier.
pub fn delete_task(id: i32) -> (step: Step)
    ensures
        step@ == begin_spec(RequestView::DeleteTask(id as int)),
{
    Step::Ask { pending: Pending::Delete, query: Query::DeleteById { id } }
}

/// Starts the handler of `request`.
pub fn begin(request: Request) -> (step: Step)
    ensures
        step@ == begin_spec(request@),
{
    match request {
        Request::Index => respond(Body::Text(String::from_str(crate::index()))),
        Request::AddTask(task_form) => add_task(task_form),
        Request::ReadTasks => read_tasks(),
        Request::EditTask(task_form) => edit_task(task_form),
        Request::DeleteTask(id) => delete_task(id),
    }
}

/// Resumes the handler that waited at `pending` with what the store gave.
pub fn resume(pending: Pending, outcome: Result<Reply, DatabaseError>) -> (step: Step)
    ensures
        step@ == resume_spec(pending@, outcome_view(outcome)),
{
    match outcome {
        Err(error) => fail(error),
        Ok(reply) => match (pending, reply) {
            (Pending::Insert, Reply::Row(task)) => respond(Body::Task(task)),
            (Pending::List, Reply::Rows(tasks)) => respond(Body::Tasks(tasks)),
            (Pending::Lookup { item }, Reply::Found(Some(task))) => Step::Ask {
                pending: Pending::Save,
                query: Query::Update { id: task.id, item },
            },
            (Pending::Lookup { .. }, Reply::Found(None)) => fail(DatabaseError::NotFound),
            (Pending::Save, Reply::Row(task)) => respond(Body::Task(task)),
            (Pending::Delete, Reply::Deleted(count)) => respond(
                Body::Text(deletion_message(count)),
            ),
            _ => fail(DatabaseError::Storage),
        },
    }
}

} // verus!
