//! The contents of the `tasks` table, as mathematics: what the table holds,
//! what each statement makes of it, and what that keeps true.

use vstd::prelude::*;

use crate::task::TaskView;

verus! {

/// The contents of the `tasks` table.
pub struct TableModel {
    /// The rows, in the order in which a listing gives them.
    pub rows: Seq<TaskView>,
    /// The highest identifier that was ever assigned; 0 before the first.
    pub last_id: int,
}

/// Whether the identifiers of `rows` increase strictly from each row to the next.
pub open spec fn ascending(rows: Seq<TaskView>) -> bool {
    forall|i: int, j: int|
        #![trigger rows[i], rows[j]]
        0 <= i < j < rows.len() ==> rows[i].id < rows[j].id
}

impl TableModel {
    /// The table right after it was created.
    pub open spec fn empty() -> TableModel {
        TableModel { rows: Seq::empty(), last_id: 0 }
    }

    /// The invariant of the table: identifiers are positive, none exceeds the
    /// last one assigned, and the rows are held in strictly ascending order of
    /// identifier, so that no two rows share one.
    pub open spec fn wf(self) -> bool {
        &&& 0 <= self.last_id <= i32::MAX
        &&& forall|i: int|
            0 <= i < self.rows.len() ==> 1 <= (#[trigger] self.rows[i]).id <= self.last_id
        &&& ascending(self.rows)
    }

    /// Whether some row has the identifier `id`.
    pub open spec fn has(self, id: int) -> bool {
        exists|i: int| 0 <= i < self.rows.len() && (#[trigger] self.rows[i]).id == id
    }

    /// The row with the identifier `id`, if there is one.
    pub open spec fn find(self, id: int) -> Option<TaskView> {
        if self.has(id) {
            Some(
                self.rows[choose|i: int|
                    0 <= i < self.rows.len() && (#[trigger] self.rows[i]).id == id],
            )
        } else {
            None
        }
    }

    /// Whether another identifier can still be assigned.
    pub open spec fn has_room(self) -> bool {
        self.last_id < i32::MAX
    }

    /// The table after a row with the text `item` was created.
    pub open spec fn insert(self, item: Seq<char>) -> TableModel {
        TableModel {
            rows: self.rows.push(TaskView { id: self.last_id + 1, item }),
            last_id: self.last_id + 1,
        }
    }

    /// The table after the text of every row with the identifier `id` was
    /// replaced by `item`.
    pub open spec fn update(self, id: int, item: Seq<char>) -> TableModel {
        TableModel {
            rows: self.rows.map_values(
                |t: TaskView|
                    if t.id == id {
                        TaskView { id, item }
                    } else {
                        t
                    },
            ),
            last_id: self.last_id,
        }
    }

    /// The table after every row with the identifier `id` was removed.
    pub open spec fn delete(self, id: int) -> TableModel {
        TableModel { rows: self.rows.filter(|t: TaskView| t.id != id), last_id: self.last_id }
    }
}

/// Removing the rows with an identifier that no row has removes nothing.
pub proof fn lemma_delete_missing(table: TableModel, id: int)
    requires
        !table.has(id),
    ensures
        table.delete(id) == table,
    decreases table.rows.len(),
{
    reveal(Seq::filter);
    if table.rows.len() > 0 {
        let rest = TableModel { rows: table.rows.drop_last(), last_id: table.last_id };
        assert forall|i: int| 0 <= i < rest.rows.len() implies (#[trigger] rest.rows[i]).id
            != id by {
            assert(rest.rows[i] == table.rows[i]);
        }
        lemma_delete_missing(rest, id);
        assert(table.rows.drop_last().push(table.rows.last()) =~= table.rows);
    }
}

/// Where identifiers ascend, removing the rows with the identifier of row `k`
/// removes row `k` and no other.
pub proof fn lemma_delete_present(table: TableModel, id: int, k: int)
    requires
        ascending(table.rows),
        0 <= k < table.rows.len(),
        table.rows[k].id == id,
    ensures
        table.delete(id).rows == table.rows.remove(k),
        table.delete(id).last_id == table.last_id,
    decreases table.rows.len(),
{
    reveal(Seq::filter);
    let rest = TableModel { rows: table.rows.drop_last(), last_id: table.last_id };
    let last = table.rows.len() - 1;
    if k == last {
        // Every row before the last has a lower identifier, so only the last goes.
        assert forall|i: int| 0 <= i < rest.rows.len() implies (#[trigger] rest.rows[i]).id
            != id by {
            assert(table.rows[i].id < table.rows[k].id);
        }
        lemma_delete_missing(rest, id);
        assert(table.rows.remove(k) =~= table.rows.drop_last());
    } else {
        // The last row has a higher identifier and stays; row `k` goes from the rest.
        assert forall|i: int, j: int| 0 <= i < j < rest.rows.len() implies
            #[trigger] rest.rows[i].id < #[trigger] rest.rows[j].id by {
            assert(table.rows[i].id < table.rows[j].id);
        }
        lemma_delete_present(rest, id, k);
        assert(table.rows[k].id < table.rows[last].id);
        assert(table.rows.remove(k) =~= rest.rows.remove(k).push(table.rows.last()));
    }
}

/// Creating a row keeps the table well formed.
pub proof fn lemma_insert_keeps_wf(table: TableModel, item: Seq<char>)
    requires
        table.wf(),
        table.has_room(),
    ensures
        table.insert(item).wf(),
{
    let after = table.insert(item);
    assert forall|i: int| 0 <= i < after.rows.len() implies 1 <= (#[trigger] after.rows[i]).id
        <= after.last_id by {
        if i < table.rows.len() {
            assert(after.rows[i] == table.rows[i]);
        }
    }
    assert forall|i: int, j: int| 0 <= i < j < after.rows.len() implies
        #[trigger] after.rows[i].id < #[trigger] after.rows[j].id by {
        assert(after.rows[i] == table.rows[i]);
        if j < table.rows.len() {
            assert(after.rows[j] == table.rows[j]);
        }
    }
}

/// Replacing a text keeps the table well formed, and keeps the identifier
/// of every row.
pub proof fn lemma_update_keeps_wf(table: TableModel, id: int, item: Seq<char>)
    requires
        table.wf(),
    ensures
        table.update(id, item).wf(),
        table.update(id, item).rows.len() == table.rows.len(),
        forall|i: int|
            0 <= i < table.rows.len() ==> (#[trigger] table.update(id, item).rows[i]).id
                == table.rows[i].id,
{
    let after = table.update(id, item);
    assert forall|i: int| 0 <= i < after.rows.len() implies (#[trigger] after.rows[i]).id
        == table.rows[i].id && 1 <= after.rows[i].id <= after.last_id by {
        assert(1 <= table.rows[i].id <= table.last_id);
    }
    assert forall|i: int, j: int| 0 <= i < j < after.rows.len() implies
        #[trigger] after.rows[i].id < #[trigger] after.rows[j].id by {
        assert(table.rows[i].id < table.rows[j].id);
    }
}

/// Removing a row keeps the table well formed.
pub proof fn lemma_delete_keeps_wf(table: TableModel, id: int)
    requires
        table.wf(),
    ensures
        table.delete(id).wf(),
{
    if table.has(id) {
        let k = choose|i: int| 0 <= i < table.rows.len() && (#[trigger] table.rows[i]).id == id;
        lemma_delete_present(table, id, k);
        let after = table.delete(id);
        // Row `i` of what is left was row `i` before, or row `i + 1`.
        assert forall|i: int| 0 <= i < after.rows.len() implies 1 <= (#[trigger] after.rows[i]).id
            <= after.last_id by {
            let a = if i < k { i } else { i + 1 };
            assert(after.rows[i] == table.rows[a]);
        }
        assert forall|i: int, j: int| 0 <= i < j < after.rows.len() implies
            #[trigger] after.rows[i].id < #[trigger] after.rows[j].id by {
            let a = if i < k { i } else { i + 1 };
            let b = if j < k { j } else { j + 1 };
            assert(after.rows[i] == table.rows[a]);
            assert(after.rows[j] == table.rows[b]);
            assert(table.rows[a].id < table.rows[b].id);
        }
    } else {
        lemma_delete_missing(table, id);
    }
}

/// Where identifiers ascend, `find` gives row `k` for the identifier of row `k`.
pub proof fn lemma_find_at(table: TableModel, k: int)
    requires
        ascending(table.rows),
        0 <= k < table.rows.len(),
    ensures
        table.has(table.rows[k].id),
        table.find(table.rows[k].id) == Some(table.rows[k]),
{
    let id = table.rows[k].id;
    let c = choose|i: int| 0 <= i < table.rows.len() && (#[trigger] table.rows[i]).id == id;
    // Two rows with one identifier would not ascend.
    assert(c == k) by {
        if c < k {
            assert(table.rows[c].id < table.rows[k].id);
        } else if k < c {
            assert(table.rows[k].id < table.rows[c].id);
        }
    }
}

/// After the text of the row `id` was replaced, that row reads back with the
/// new text, and every other identifier reads back as before.
pub proof fn lemma_update_find(table: TableModel, id: int, item: Seq<char>, other: int)
    requires
        table.wf(),
    ensures
        table.update(id, item).has(other) == table.has(other),
        table.update(id, item).find(other) == if other == id && table.has(id) {
            Some(TaskView { id, item })
        } else {
            table.find(other)
        },
{
    let after = table.update(id, item);
    lemma_update_keeps_wf(table, id, item);
    if table.has(other) {
        let k = choose|i: int|
            0 <= i < table.rows.len() && (#[trigger] table.rows[i]).id == other;
        assert(after.rows[k].id == other);
        lemma_find_at(table, k);
        lemma_find_at(after, k);
    } else if after.has(other) {
        let k = choose|i: int|
            0 <= i < after.rows.len() && (#[trigger] after.rows[i]).id == other;
        assert(table.rows[k].id == other);
    }
}

/// After the row `id` was removed, no row has that identifier, and every
/// other identifier reads back as before.
pub proof fn lemma_delete_find(table: TableModel, id: int, other: int)
    requires
        table.wf(),
    ensures
        table.delete(id).has(other) == (other != id && table.has(other)),
        table.delete(id).find(other) == if other == id {
            None
        } else {
            table.find(other)
        },
{
    let after = table.delete(id);
    lemma_delete_keeps_wf(table, id);
    if table.has(id) {
        let k = choose|i: int| 0 <= i < table.rows.len() && (#[trigger] table.rows[i]).id == id;
        lemma_delete_present(table, id, k);
        if after.has(other) {
            // The row that is left with `other` was in the table, and is not row `k`.
            let j = choose|i: int|
                0 <= i < after.rows.len() && (#[trigger] after.rows[i]).id == other;
            let at = if j < k { j } else { j + 1 };
            assert(after.rows[j] == table.rows[at]);
            if at < k {
                assert(table.rows[at].id < table.rows[k].id);
            } else {
                assert(table.rows[k].id < table.rows[at].id);
            }
            lemma_find_at(table, at);
            lemma_find_at(after, j);
        }
        if other != id && table.has(other) {
            // The row with `other` is not row `k`, so it is left.
            let at = choose|i: int|
                0 <= i < table.rows.len() && (#[trigger] table.rows[i]).id == other;
            let j = if at < k { at } else { at - 1 };
            assert(after.rows[j] == table.rows[at]);
        }
    } else {
        lemma_delete_missing(table, id);
    }
}

} // verus!
