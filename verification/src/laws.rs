//! What holds of the service whatever the requests are.

use vstd::prelude::*;

use crate::handlers::{deletion_text, failure, success, BodyView, RequestView, ResponseView};
use crate::service::{migrated, served};
use crate::store::{model_wf, DatabaseModel};
use crate::table::{
    ascending, lemma_delete_find, lemma_delete_keeps_wf, lemma_delete_missing, lemma_find_at,
    lemma_insert_keeps_wf, lemma_update_find, lemma_update_keeps_wf,
};
use crate::task::TaskView;

verus! {

/// The database after the requests were served, one after the other.
pub open spec fn served_all(db: DatabaseModel, requests: Seq<RequestView>) -> DatabaseModel
    decreases requests.len(),
{
    if requests.len() == 0 {
        db
    } else {
        served(served_all(db, requests.drop_last()), requests.last()).0
    }
}

/// The response to `GET /readtasks`.
pub open spec fn listing(db: DatabaseModel) -> ResponseView {
    served(db, RequestView::ReadTasks).1
}

/// No request breaks the invariant of the database, creates or drops the
/// table, or lowers the last identifier assigned.
pub proof fn law_request_keeps_invariant(db: DatabaseModel, request: RequestView)
    requires
        model_wf(db),
    ensures
        model_wf(served(db, request).0),
        served(db, request).0 is Some <==> db is Some,
        db matches Some(table) ==> served(db, request).0->0.last_id >= table.last_id,
{
    if let Some(table) = db {
        match request {
            RequestView::AddTask(form) => {
                if table.has_room() {
                    lemma_insert_keeps_wf(table, form.item);
                }
            },
            RequestView::EditTask(form) => {
                lemma_update_keeps_wf(table, form.id, form.item);
            },
            RequestView::DeleteTask(id) => {
                lemma_delete_keeps_wf(table, id);
            },
            _ => {},
        }
    }
}

/// No sequence of requests breaks the invariant of the database, creates or
/// drops the table, or lowers the last identifier assigned.
pub proof fn law_requests_keep_invariant(db: DatabaseModel, requests: Seq<RequestView>)
    requires
        model_wf(db),
    ensures
        model_wf(served_all(db, requests)),
        served_all(db, requests) is Some <==> db is Some,
        db matches Some(table) ==> served_all(db, requests)->0.last_id >= table.last_id,
    decreases requests.len(),
{
    if requests.len() > 0 {
        law_requests_keep_invariant(db, requests.drop_last());
        law_request_keeps_invariant(served_all(db, requests.drop_last()), requests.last());
    }
}

/// Whatever requests were served before, in whatever order, a listing gives
/// the rows of the table in strictly ascending order of identifier; while
/// the table is absent it fails.
pub proof fn law_listing_ascends(db: DatabaseModel, requests: Seq<RequestView>)
    requires
        model_wf(db),
    ensures
        match served_all(db, requests) {
            Some(table) => {
                &&& listing(Some(table)) == success(BodyView::Tasks(table.rows))
                &&& ascending(table.rows)
            },
            None => listing(None) == failure(),
        },
{
    law_requests_keep_invariant(db, requests);
}

/// A task that was created is answered with the next identifier and the text
/// that was given, and a listing that follows gives the rows that were there
/// and then the new one.
pub proof fn law_created_task_is_listed(db: DatabaseModel, form: TaskView)
    requires
        model_wf(db),
        db matches Some(table) && table.has_room(),
    ensures
        ({
            let created = TaskView { id: db->0.last_id + 1, item: form.item };
            let (after, response) = served(db, RequestView::AddTask(form));
            &&& created.id >= 1
            &&& response == success(BodyView::Task(created))
            &&& listing(after) == success(BodyView::Tasks(db->0.rows.push(created)))
        }),
{
}

/// An identifier is not assigned twice: whatever requests are served after
/// a row has been in the table, removals among them, a task that is created
/// then gets an identifier above that of the row.
pub proof fn law_identifiers_are_not_reused(
    db: DatabaseModel,
    requests: Seq<RequestView>,
    form: TaskView,
    k: int,
)
    requires
        model_wf(db),
        db matches Some(table) && 0 <= k < table.rows.len(),
    ensures
        ({
            let after = served_all(db, requests);
            &&& after is Some
            &&& after->0.has_room() ==> served(after, RequestView::AddTask(form)).1 == success(
                BodyView::Task(TaskView { id: after->0.last_id + 1, item: form.item }),
            )
            &&& db->0.rows[k].id < after->0.last_id + 1
        }),
{
    law_requests_keep_invariant(db, requests);
}

/// After the text of a task was replaced, the task reads back with the new
/// text under the same identifier: the response gives it, it stands in a
/// listing that follows at the place of the old one, and no identifier in
/// the listing has changed.
pub proof fn law_edit_is_read_back(db: DatabaseModel, form: TaskView, k: int)
    requires
        model_wf(db),
        db matches Some(table) && 0 <= k < table.rows.len() && table.rows[k].id == form.id,
    ensures
        ({
            let (after, response) = served(db, RequestView::EditTask(form));
            &&& response == success(BodyView::Task(form))
            &&& after is Some
            &&& after->0.find(form.id) == Some(form)
            &&& listing(after) == success(BodyView::Tasks(after->0.rows))
            &&& after->0.rows.len() == db->0.rows.len()
            &&& after->0.rows[k] == form
            &&& forall|i: int|
                0 <= i < after->0.rows.len() ==> (#[trigger] after->0.rows[i]).id
                    == db->0.rows[i].id
            &&& forall|i: int|
                0 <= i < after->0.rows.len() && i != k ==> #[trigger] after->0.rows[i]
                    == db->0.rows[i]
        }),
{
    let table = db->0;
    lemma_find_at(table, k);
    lemma_update_keeps_wf(table, form.id, form.item);
    lemma_update_find(table, form.id, form.item, form.id);
    let after = table.update(form.id, form.item);
    assert forall|i: int| 0 <= i < after.rows.len() && i != k implies #[trigger] after.rows[i]
        == table.rows[i] by {
        if i < k {
            assert(table.rows[i].id < table.rows[k].id);
        } else {
            assert(table.rows[k].id < table.rows[i].id);
        }
    }
}

/// After a task was removed, no row has its identifier, in the table or in a
/// listing that follows; and a second removal of the same identifier is
/// served, removes 0 rows and changes nothing.
pub proof fn law_deleted_task_is_gone(db: DatabaseModel, id: int)
    requires
        model_wf(db),
        db is Some,
    ensures
        ({
            let (after, response) = served(db, RequestView::DeleteTask(id));
            &&& response == success(
                BodyView::Text(
                    deletion_text(
                        if db->0.has(id) {
                            1
                        } else {
                            0
                        },
                    ),
                ),
            )
            &&& after is Some
            &&& !after->0.has(id)
            &&& after->0.find(id) is None
            &&& listing(after) == success(BodyView::Tasks(after->0.rows))
            &&& forall|i: int|
                0 <= i < after->0.rows.len() ==> (#[trigger] after->0.rows[i]).id != id
            &&& served(after, RequestView::DeleteTask(id)) == (
                after,
                success(BodyView::Text(deletion_text(0))),
            )
        }),
{
    let table = db->0;
    lemma_delete_find(table, id, id);
    lemma_delete_missing(table.delete(id), id);
}

/// A removal or an edit that names an identifier that no row has changes
/// nothing: the removal is served and removes 0 rows, the edit fails.
pub proof fn law_missing_id_changes_nothing(db: DatabaseModel, form: TaskView)
    requires
        model_wf(db),
        db matches Some(table) && !table.has(form.id),
    ensures
        served(db, RequestView::DeleteTask(form.id)) == (
            db,
            success(BodyView::Text(deletion_text(0))),
        ),
        served(db, RequestView::EditTask(form)) == (db, failure()),
{
    lemma_delete_missing(db->0, form.id);
}

/// A request that fails changes nothing.
pub proof fn law_failure_changes_nothing(db: DatabaseModel, request: RequestView)
    requires
        served(db, request).1 == failure(),
    ensures
        served(db, request).0 == db,
{
}

/// Running the migrations leaves the table present, and running them again
/// changes nothing.
pub proof fn law_migrations_are_idempotent(db: DatabaseModel)
    ensures
        migrated(db) is Some,
        migrated(migrated(db)) == migrated(db),
        db is Some ==> migrated(db) == db,
{
}

/// A removal or an edit leaves every row alone but the one that it names:
/// each other identifier reads back as before.
pub proof fn law_other_rows_are_kept(db: DatabaseModel, form: TaskView, other: int)
    requires
        model_wf(db),
        db is Some,
        other != form.id,
    ensures
        served(db, RequestView::DeleteTask(form.id)).0->0.find(other) == db->0.find(other),
        served(db, RequestView::EditTask(form)).0->0.find(other) == db->0.find(other),
{
    let table = db->0;
    lemma_delete_find(table, form.id, other);
    lemma_update_find(table, form.id, form.item, other);
}

} // verus!
