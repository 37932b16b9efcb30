//! The service as a whole: each request, served against the in-memory
//! database.

use vstd::prelude::*;

use crate::handlers::{
    begin, begin_spec, deletion_text, failure, resume, resume_spec, success, BodyView,
    PendingView, Request, RequestView, Response, ResponseView, Step, StepView,
};
use crate::store::{execute_spec, model_wf, Database, DatabaseModel};
use crate::table::TableModel;
use crate::task::TaskView;

verus! {

/// What the service does with a request: the database afterwards, and the
/// response.
///
/// - `GET /` answers with the greeting.
/// - `POST /addtask` creates a row with the text of the form under the next
///   identifier and answers with the row.
/// - `GET /readtasks` answers with every row, in the order of the table.
/// - `PUT /edittask` replaces the text of the row that has the identifier of
///   the form and answers with the row as it now stands.
/// - `DELETE /deletetask/<id>` removes the row with the identifier and
///   answers with the number of rows removed, 1 or 0.
///
/// A request that the store cannot serve, and an edit of a row that is not
/// there, change nothing and are answered with the failure response.
pub open spec fn served(db: DatabaseModel, request: RequestView) -> (
    DatabaseModel,
    ResponseView,
) {
    match request {
        RequestView::Index => (db, success(BodyView::Text(crate::greeting()))),
        RequestView::AddTask(form) => match db {
            Some(table) if table.has_room() => (
                Some(table.insert(form.item)),
                success(BodyView::Task(TaskView { id: table.last_id + 1, item: form.item })),
            ),
            _ => (db, failure()),
        },
        RequestView::ReadTasks => match db {
            Some(table) => (db, success(BodyView::Tasks(table.rows))),
            None => (db, failure()),
        },
        RequestView::EditTask(form) => match db {
            Some(table) if table.has(form.id) => (
                Some(table.update(form.id, form.item)),
                success(BodyView::Task(form)),
            ),
            _ => (db, failure()),
        },
        RequestView::DeleteTask(id) => match db {
            Some(table) => (
                Some(table.delete(id)),
                success(
                    BodyView::Text(
                        deletion_text(
                            if table.has(id) {
                                1
                            } else {
                                0
                            },
                        ),
                    ),
                ),
            ),
            None => (db, failure()),
        },
    }
}

/// How many more times a handler at this step can ask the store.
pub open spec fn questions_left(step: StepView) -> nat {
    match step {
        StepView::Ask { pending: PendingView::Lookup { .. }, .. } => 2,
        StepView::Ask { .. } => 1,
        StepView::Respond(_) => 0,
    }
}

/// Where a conversation that stands at `step` ends: each statement that the
/// handler asks for is put to the store, until the handler responds.
pub open spec fn completed(db: DatabaseModel, step: StepView) -> (DatabaseModel, ResponseView)
    decreases questions_left(step),
{
    match step {
        StepView::Respond(response) => (db, response),
        StepView::Ask { pending, query } => {
            let (next, outcome) = execute_spec(db, query);
            completed(next, resume_spec(pending, outcome))
        },
    }
}

/// The conversation of each handler with the store ends as `served` says.
pub proof fn lemma_conversation(db: DatabaseModel, request: RequestView)
    requires
        model_wf(db),
    ensures
        completed(db, begin_spec(request)) == served(db, request),
{
    reveal_with_fuel(completed, 3);
}

/// Serves one request against the database.
pub fn serve(db: &mut Database, request: Request) -> (response: Response)
    requires
        old(db).wf(),
    ensures
        final(db).wf(),
        (final(db)@, response@) == served(old(db)@, request@),
{
    let ghost goal = served(db@, request@);
    proof {
        lemma_conversation(db@, request@);
    }
    let mut step = begin(request);
    loop
        invariant
            db.wf(),
            goal == served(old(db)@, request@),
            completed(db@, step@) == goal,
        decreases questions_left(step@),
    {
        match step {
            Step::Respond(response) => {
                return response;
            },
            Step::Ask { pending, query } => {
                let outcome = db.execute(query);
                step = resume(pending, outcome);
            },
        }
    }
}

/// What the migrations make of a database at launch: the `tasks` table is
/// created where it is absent, and left as it is where it is present.
pub open spec fn migrated(db: DatabaseModel) -> DatabaseModel {
    match db {
        Some(table) => db,
        None => Some(TableModel::empty()),
    }
}

/// Brings the schema up to date before the first request is served. A
/// failure of the migration does not stop the launch.
pub fn run_migrations(db: &mut Database)
    requires
        old(db).wf(),
    ensures
        final(db).wf(),
        final(db)@ == migrated(old(db)@),
{
    let _ = db.create_table(true);
}

} // verus!
