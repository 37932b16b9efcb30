//! The store behind the service: the statements that it takes, what they
//! mean, and an in-memory database that carries them out.

use vstd::prelude::*;

use crate::error::DatabaseError;
use crate::table::{
    ascending, lemma_delete_keeps_wf, lemma_delete_missing, lemma_delete_present, lemma_find_at,
    lemma_insert_keeps_wf, lemma_update_keeps_wf, TableModel,
};
use crate::task::{clone_tasks, views, Task, TaskView};

verus! {

/// The database: `None` while the `tasks` table is absent.
pub type DatabaseModel = Option<TableModel>;

/// One statement for the store.
#[derive(Debug, PartialEq, Eq)]
pub enum Query {
    /// Create a row with this text.
    Insert { item: String },
    /// Give every row, in ascending order of identifier.
    SelectAll,
    /// Give the row with this identifier, if there is one.
    FindById { id: i32 },
    /// Replace the text of the row with this identifier.
    Update { id: i32, item: String },
    /// Remove the row with this identifier.
    DeleteById { id: i32 },
}

/// What a [`Query`] is, mathematically.
pub enum QueryView {
    Insert { item: Seq<char> },
    SelectAll,
    FindById { id: int },
    Update { id: int, item: Seq<char> },
    DeleteById { id: int },
}

impl View for Query {
    type V = QueryView;

    open spec fn view(&self) -> QueryView {
        match *self {
            Query::Insert { item } => QueryView::Insert { item: item@ },
            Query::SelectAll => QueryView::SelectAll,
            Query::FindById { id } => QueryView::FindById { id: id as int },
            Query::Update { id, item } => QueryView::Update { id: id as int, item: item@ },
            Query::DeleteById { id } => QueryView::DeleteById { id: id as int },
        }
    }
}

/// What the store answers to a statement that it carried out.
#[derive(Debug, PartialEq, Eq)]
pub enum Reply {
    /// The row that was created or changed.
    Row(Task),
    /// The rows of a listing.
    Rows(Vec<Task>),
    /// The row that was looked for, if there is one.
    Found(Option<Task>),
    /// How many rows were removed.
    Deleted(u64),
}

/// What a [`Reply`] is, mathematically.
pub enum ReplyView {
    Row(TaskView),
    Rows(Seq<TaskView>),
    Found(Option<TaskView>),
    Deleted(nat),
}

impl View for Reply {
    type V = ReplyView;

    open spec fn view(&self) -> ReplyView {
        match *self {
            Reply::Row(task) => ReplyView::Row(task@),
            Reply::Rows(tasks) => ReplyView::Rows(views(tasks@)),
            Reply::Found(Some(task)) => ReplyView::Found(Some(task@)),
            Reply::Found(None) => ReplyView::Found(None),
            Reply::Deleted(count) => ReplyView::Deleted(count as nat),
        }
    }
}

/// The view of what came back from the store: the reply, or the failure.
pub open spec fn outcome_view(outcome: Result<Reply, DatabaseError>) -> Result<
    ReplyView,
    DatabaseError,
> {
    match outcome {
        Ok(reply) => Ok(reply@),
        Err(error) => Err(error),
    }
}

/// The invariant of the database: its table, where present, is well formed.
pub open spec fn model_wf(db: DatabaseModel) -> bool {
    match db {
        Some(table) => table.wf(),
        None => true,
    }
}

/// What the store makes of a statement: the database afterwards, and the
/// reply or the failure.
///
/// Every statement fails while the table is absent. Creating a row fails
/// where no identifier is left, and replacing a text fails where no row has
/// the identifier; a failed statement changes nothing. Removing a row that
/// is not there is no failure: it removes 0 rows.
pub open spec fn execute_spec(db: DatabaseModel, query: QueryView) -> (
    DatabaseModel,
    Result<ReplyView, DatabaseError>,
) {
    match db {
        None => (db, Err(DatabaseError::Storage)),
        Some(table) => match query {
            QueryView::Insert { item } => if table.has_room() {
                (
                    Some(table.insert(item)),
                    Ok(ReplyView::Row(TaskView { id: table.last_id + 1, item })),
                )
            } else {
                (db, Err(DatabaseError::Storage))
            },
            QueryView::SelectAll => (db, Ok(ReplyView::Rows(table.rows))),
            QueryView::FindById { id } => (db, Ok(ReplyView::Found(table.find(id)))),
            QueryView::Update { id, item } => if table.has(id) {
                (Some(table.update(id, item)), Ok(ReplyView::Row(TaskView { id, item })))
            } else {
                (db, Err(DatabaseError::NotFound))
            },
            QueryView::DeleteById { id } => (
                Some(table.delete(id)),
                Ok(
                    ReplyView::Deleted(
                        if table.has(id) {
                            1
                        } else {
                            0
                        },
                    ),
                ),
            ),
        },
    }
}

/// An in-memory database that holds, or does not hold, the `tasks` table.
///
/// It does to its rows what [`execute_spec`] says, which is what the service
/// expects of any store that it is run against.
pub struct Database {
    present: bool,
    rows: Vec<Task>,
    last_id: i32,
}

impl View for Database {
    type V = DatabaseModel;

    closed spec fn view(&self) -> DatabaseModel {
        if self.present {
            Some(TableModel { rows: views(self.rows@), last_id: self.last_id as int })
        } else {
            None
        }
    }
}

impl Database {
    /// The invariant of the database: its table, where present, is well formed.
    pub open spec fn wf(&self) -> bool {
        model_wf(self@)
    }

    /// A database without the `tasks` table.
    pub fn new() -> (db: Database)
        ensures
            db@ is None,
            db.wf(),
    {
        Database { present: false, rows: Vec::new(), last_id: 0 }
    }

    /// Whether the `tasks` table is present.
    pub fn has_table(&self) -> (present: bool)
        ensures
            present == (self@ is Some),
    {
        self.present
    }

    /// Creates the `tasks` table, empty. Where it is present already, nothing
    /// changes; that is a failure unless `if_not_exists` is set.
    pub fn create_table(&mut self, if_not_exists: bool) -> (result: Result<(), DatabaseError>)
        requires
            old(self).wf(),
        ensures
            final(self).wf(),
            match old(self)@ {
                None => result == Ok::<(), DatabaseError>(()) && final(self)@ == Some(
                    TableModel::empty(),
                ),
                Some(table) => final(self)@ == old(self)@ && result == if if_not_exists {
                    Ok::<(), DatabaseError>(())
                } else {
                    Err::<(), DatabaseError>(DatabaseError::Storage)
                },
            },
    {
        if self.present {
            if if_not_exists {
                Ok(())
            } else {
                Err(DatabaseError::Storage)
            }
        } else {
            self.present = true;
            self.rows = Vec::new();
            self.last_id = 0;
            assert(views(self.rows@) =~= Seq::<TaskView>::empty());
            Ok(())
        }
    }

    /// Drops the `tasks` table with all its rows. Where it is absent, nothing
    /// changes; that is a failure unless `if_exists` is set.
    pub fn drop_table(&mut self, if_exists: bool) -> (result: Result<(), DatabaseError>)
        requires
            old(self).wf(),
        ensures
            final(self).wf(),
            final(self)@ is None,
            result == if old(self)@ is Some || if_exists {
                Ok::<(), DatabaseError>(())
            } else {
                Err::<(), DatabaseError>(DatabaseError::Storage)
            },
    {
        if self.present {
            self.present = false;
            Ok(())
        } else if if_exists {
            Ok(())
        } else {
            Err(DatabaseError::Storage)
        }
    }

    /// The index of the row with the identifier `id`.
    fn position(&self, id: i32) -> (found: Option<usize>)
        requires
            self.wf(),
            self@ is Some,
        ensures
            match found {
                Some(k) => {
                    &&& k < self.rows.len()
                    &&& self.rows[k as int].id == id
                    &&& self@->0.find(id as int) == Some(self.rows[k as int]@)
                },
                None => !self@->0.has(id as int),
            },
    {
        let ghost table = self@->0;
        let mut k: usize = 0;
        while k < self.rows.len()
            invariant
                k <= self.rows.len(),
                self@ == Some(table),
                ascending(table.rows),
                forall|i: int| 0 <= i < k ==> (#[trigger] table.rows[i]).id != id,
            decreases self.rows.len() - k,
        {
            if self.rows[k].id == id {
                proof {
                    assert(table.rows[k as int] == self.rows[k as int]@);
                    lemma_find_at(table, k as int);
                }
                return Some(k);
            }
            assert(table.rows[k as int] == self.rows[k as int]@);
            k += 1;
        }
        None
    }

    /// Creates a row with the text `item` under the next identifier, and
    /// returns the row. Fails, changing nothing, where the table is absent
    /// or no identifier is left.
    pub fn insert(&mut self, item: String) -> (result: Result<Task, DatabaseError>)
        requires
            old(self).wf(),
        ensures
            final(self).wf(),
            match old(self)@ {
                Some(table) if table.has_room() => {
                    &&& result matches Ok(task)
                    &&& task@ == TaskView { id: table.last_id + 1, item: item@ }
                    &&& final(self)@ == Some(table.insert(item@))
                },
                _ => result == Err::<Task, DatabaseError>(DatabaseError::Storage) && final(self)@
                    == old(self)@,
            },
    {
        if !self.present || self.last_id == i32::MAX {
            return Err(DatabaseError::Storage);
        }
        let ghost table = self@->0;
        let id: i32 = self.last_id + 1;
        let task = Task { id, item };
        self.last_id = id;
        self.rows.push(task.clone());
        proof {
            assert(views(self.rows@) =~= table.rows.push(task@));
            lemma_insert_keeps_wf(table, item@);
        }
        Ok(task)
    }

    /// Every row, in ascending order of identifier. Fails where the table is
    /// absent.
    pub fn select_all(&self) -> (result: Result<Vec<Task>, DatabaseError>)
        requires
            self.wf(),
        ensures
            match self@ {
                Some(table) => result matches Ok(rows) && views(rows@) == table.rows,
                None => result == Err::<Vec<Task>, DatabaseError>(DatabaseError::Storage),
            },
    {
        if !self.present {
            return Err(DatabaseError::Storage);
        }
        Ok(clone_tasks(&self.rows))
    }

    /// The row with the identifier `id`, or `None` where no row has it. Fails
    /// where the table is absent.
    pub fn find_by_id(&self, id: i32) -> (result: Result<Option<Task>, DatabaseError>)
        requires
            self.wf(),
        ensures
            match self@ {
                Some(table) => match table.find(id as int) {
                    Some(row) => result matches Ok(Some(task)) && task@ == row,
                    None => result == Ok::<Option<Task>, DatabaseError>(None),
                },
                None => result == Err::<Option<Task>, DatabaseError>(DatabaseError::Storage),
            },
    {
        if !self.present {
            return Err(DatabaseError::Storage);
        }
        match self.position(id) {
            Some(k) => Ok(Some(self.rows[k].clone())),
            None => Ok(None),
        }
    }

    /// Replaces the text of the row with the identifier `id` by `item`, and
    /// returns the row as it now stands. Fails, changing nothing, where the
    /// table is absent or no row has the identifier.
    pub fn update(&mut self, id: i32, item: String) -> (result: Result<Task, DatabaseError>)
        requires
            old(self).wf(),
        ensures
            final(self).wf(),
            match old(self)@ {
                Some(table) => if table.has(id as int) {
                    &&& result matches Ok(task)
                    &&& task@ == TaskView { id: id as int, item: item@ }
                    &&& final(self)@ == Some(table.update(id as int, item@))
                } else {
                    result == Err::<Task, DatabaseError>(DatabaseError::NotFound) && final(self)@
                        == old(self)@
                },
                None => result == Err::<Task, DatabaseError>(DatabaseError::Storage) && final(self)@
                    == old(self)@,
            },
    {
        if !self.present {
            return Err(DatabaseError::Storage);
        }
        let ghost table = self@->0;
        match self.position(id) {
            Some(k) => {
                let task = Task { id, item };
                self.rows.set(k, task.clone());
                proof {
                    // Row `k` is the only one with the identifier, so the
                    // others stand as they were.
                    let after = table.update(id as int, item@);
                    assert forall|i: int| 0 <= i < table.rows.len() implies views(self.rows@)[i]
                        == after.rows[i] by {
                        assert(table.rows[i] == old(self).rows[i]@);
                        if i < k {
                            assert(table.rows[i].id < table.rows[k as int].id);
                        } else if k < i {
                            assert(table.rows[k as int].id < table.rows[i].id);
                        }
                    }
                    assert(views(self.rows@) =~= after.rows);
                    lemma_update_keeps_wf(table, id as int, item@);
                }
                Ok(task)
            },
            None => Err(DatabaseError::NotFound),
        }
    }

    /// Removes the row with the identifier `id` and returns how many rows
    /// were removed: 1, or 0 where no row has the identifier. Fails where the
    /// table is absent.
    pub fn delete_by_id(&mut self, id: i32) -> (result: Result<u64, DatabaseError>)
        requires
            old(self).wf(),
        ensures
            final(self).wf(),
            match old(self)@ {
                Some(table) => {
                    &&& result == Ok::<u64, DatabaseError>(
                        if table.has(id as int) {
                            1u64
                        } else {
                            0u64
                        },
                    )
                    &&& final(self)@ == Some(table.delete(id as int))
                },
                None => result == Err::<u64, DatabaseError>(DatabaseError::Storage) && final(self)@
                    == old(self)@,
            },
    {
        if !self.present {
            return Err(DatabaseError::Storage);
        }
        let ghost table = self@->0;
        match self.position(id) {
            Some(k) => {
                self.rows.remove(k);
                proof {
                    assert(table.rows[k as int] == old(self).rows[k as int]@);
                    lemma_delete_present(table, id as int, k as int);
                    assert(views(self.rows@) =~= table.rows.remove(k as int));
                    lemma_delete_keeps_wf(table, id as int);
                }
                Ok(1)
            },
            None => {
                proof {
                    lemma_delete_missing(table, id as int);
                }
                Ok(0)
            },
        }
    }

    /// Carries out one statement.
    pub fn execute(&mut self, query: Query) -> (outcome: Result<Reply, DatabaseError>)
        requires
            old(self).wf(),
        ensures
            final(self).wf(),
            (final(self)@, outcome_view(outcome)) == execute_spec(old(self)@, query@),
    {
        match query {
            Query::Insert { item } => match self.insert(item) {
                Ok(task) => Ok(Reply::Row(task)),
                Err(error) => Err(error),
            },
            Query::SelectAll => match self.select_all() {
                Ok(tasks) => Ok(Reply::Rows(tasks)),
                Err(error) => Err(error),
            },
            Query::FindById { id } => match self.find_by_id(id) {
                Ok(found) => Ok(Reply::Found(found)),
                Err(error) => Err(error),
            },
            Query::Update { id, item } => match self.update(id, item) {
                Ok(task) => Ok(Reply::Row(task)),
                Err(error) => Err(error),
            },
            Query::DeleteById { id } => match self.delete_by_id(id) {
                Ok(count) => Ok(Reply::Deleted(count)),
                Err(error) => Err(error),
            },
        }
    }
}

} // verus!
