//! The `items` table as the statements see it, and a table held in memory
//! that behaves so.
//!
//! [`TableView`] says what each storage operation does to the rows and what
//! it hands back. [`ItemTable`] is an executable table proved to do exactly
//! that; it can stand in for the database wherever none is at hand.

use vstd::prelude::*;
use crate::models::{item_views, optional_item_view, row_item, Item, ItemView, StorageError};

verus! {

/// The rows of the table, lowest id first, and the last id handed out.
pub struct TableView {
    pub rows: Seq<ItemView>,
    pub last_id: int,
}

impl TableView {
    /// Ids are positive, were handed out at some point, and grow along the
    /// rows, so no two rows share one.
    pub open spec fn wf(self) -> bool {
        &&& 0 <= self.last_id <= i32::MAX
        &&& forall|i: int|
            0 <= i < self.rows.len() ==> 1 <= (#[trigger] self.rows[i]).id <= self.last_id
        &&& forall|i: int, j: int|
            0 <= i < j < self.rows.len() ==> (#[trigger] self.rows[i]).id < (
            #[trigger] self.rows[j]).id
    }

    /// A table without rows in which no id was handed out yet.
    pub open spec fn empty() -> TableView {
        TableView { rows: Seq::empty(), last_id: 0 }
    }

    /// Whether some row has this id.
    pub open spec fn contains(self, id: int) -> bool {
        exists|i: int| 0 <= i < self.rows.len() && (#[trigger] self.rows[i]).id == id
    }

    /// Where the row with this id stands, if there is one.
    pub open spec fn position(self, id: int) -> int {
        choose|i: int| 0 <= i < self.rows.len() && (#[trigger] self.rows[i]).id == id
    }

    /// The row with this id, or `None` if there is none.
    pub open spec fn get(self, id: int) -> Option<ItemView> {
        if self.contains(id) {
            Some(self.rows[self.position(id)])
        } else {
            None
        }
    }

    /// Whether an id is left to hand out.
    pub open spec fn can_insert(self) -> bool {
        self.last_id < i32::MAX
    }

    /// The row that an insert adds: the inputs under the next id.
    pub open spec fn next_row(self, name: Seq<char>, description: Seq<char>) -> ItemView {
        ItemView { id: self.last_id + 1, name, description }
    }

    /// The table after an insert.
    pub open spec fn insert(self, name: Seq<char>, description: Seq<char>) -> TableView {
        TableView {
            rows: self.rows.push(self.next_row(name, description)),
            last_id: self.last_id + 1,
        }
    }

    /// The table after an update of the row with this id: that row has the
    /// new name and description, under the same id. Without such a row the
    /// table is unchanged.
    pub open spec fn update(self, id: int, name: Seq<char>, description: Seq<char>) -> TableView {
        if self.contains(id) {
            TableView {
                rows: self.rows.update(self.position(id), ItemView { id, name, description }),
                last_id: self.last_id,
            }
        } else {
            self
        }
    }

    /// The table after a delete of the row with this id. Without such a row
    /// the table is unchanged.
    pub open spec fn delete(self, id: int) -> TableView {
        if self.contains(id) {
            TableView { rows: self.rows.remove(self.position(id)), last_id: self.last_id }
        } else {
            self
        }
    }

    /// How many rows a delete of this id removes: one or none.
    pub open spec fn affected_by_delete(self, id: int) -> nat {
        if self.contains(id) {
            1
        } else {
            0
        }
    }

    /// The table after a delete of every row. Ids handed out stay used.
    pub open spec fn clear(self) -> TableView {
        TableView { rows: Seq::empty(), last_id: self.last_id }
    }
}

/// In a well-formed table the row at `i` is the one its id is found at.
pub proof fn lemma_position(table: TableView, i: int)
    requires
        table.wf(),
        0 <= i < table.rows.len(),
    ensures
        table.contains(table.rows[i].id),
        table.position(table.rows[i].id) == i,
        table.get(table.rows[i].id) == Some(table.rows[i]),
{
    let id = table.rows[i].id;
    let found = table.position(id);
    assert(0 <= found < table.rows.len() && table.rows[found].id == id);
    if found < i {
        assert(table.rows[found].id < table.rows[i].id);
    } else if i < found {
        assert(table.rows[i].id < table.rows[found].id);
    }
}

/// Every operation keeps a well-formed table well-formed.
pub proof fn lemma_operations_keep_wf(
    table: TableView,
    id: int,
    name: Seq<char>,
    description: Seq<char>,
)
    requires
        table.wf(),
    ensures
        TableView::empty().wf(),
        table.can_insert() ==> table.insert(name, description).wf(),
        table.update(id, name, description).wf(),
        table.delete(id).wf(),
        table.clear().wf(),
{
    if table.contains(id) {
        let at = table.position(id);
        assert(0 <= at < table.rows.len() && table.rows[at].id == id);
        let updated = table.update(id, name, description);
        assert forall|i: int, j: int| 0 <= i < j < updated.rows.len() implies (
        #[trigger] updated.rows[i]).id < (#[trigger] updated.rows[j]).id by {
            assert(table.rows[i].id < table.rows[j].id);
        }
        let deleted = table.delete(id);
        assert forall|i: int| 0 <= i < deleted.rows.len() implies 1 <= (
        #[trigger] deleted.rows[i]).id <= deleted.last_id by {
            if i < at {
                assert(deleted.rows[i] == table.rows[i]);
            } else {
                assert(deleted.rows[i] == table.rows[i + 1]);
            }
        }
        assert forall|i: int, j: int| 0 <= i < j < deleted.rows.len() implies (
        #[trigger] deleted.rows[i]).id < (#[trigger] deleted.rows[j]).id by {
            let from_i = if i < at { i } else { i + 1 };
            let from_j = if j < at { j } else { j + 1 };
            assert(deleted.rows[i] == table.rows[from_i]);
            assert(deleted.rows[j] == table.rows[from_j]);
            assert(table.rows[from_i].id < table.rows[from_j].id);
        }
    }
    if table.can_insert() {
        let inserted = table.insert(name, description);
        assert forall|i: int, j: int| 0 <= i < j < inserted.rows.len() implies (
        #[trigger] inserted.rows[i]).id < (#[trigger] inserted.rows[j]).id by {
            assert(inserted.rows[i] == table.rows[i]);
            if j < table.rows.len() {
                assert(inserted.rows[j] == table.rows[j]);
            }
        }
    }
}

/// A table of items held in memory.
pub struct ItemTable {
    rows: Vec<Item>,
    last_id: i32,
}

impl View for ItemTable {
    type V = TableView;

    closed spec fn view(&self) -> TableView {
        TableView { rows: item_views(self.rows@), last_id: self.last_id as int }
    }
}

impl ItemTable {
    /// A table without rows.
    pub fn new() -> (table: Self)
        ensures
            table@ == TableView::empty(),
            table@.wf(),
    {
        let table = ItemTable { rows: Vec::new(), last_id: 0 };
        assert(table@.rows =~= Seq::<ItemView>::empty());
        table
    }

    /// A table without rows in which the ids up to `last_id` count as handed
    /// out already (none, if `last_id` is not positive).
    pub fn empty_after(last_id: i32) -> (table: Self)
        ensures
            table@ == (TableView {
                rows: Seq::empty(),
                last_id: if last_id < 0 {
                    0
                } else {
                    last_id as int
                },
            }),
            table@.wf(),
    {
        let table = ItemTable { rows: Vec::new(), last_id: if last_id < 0 { 0 } else { last_id } };
        assert(table@.rows =~= Seq::<ItemView>::empty());
        table
    }

    /// Where the row with this id stands.
    fn find(&self, id: i32) -> (found: Option<usize>)
        requires
            self@.wf(),
        ensures
            match found {
                Some(at) => self@.contains(id as int) && at == self@.position(id as int) && at
                    < self.rows.len(),
                None => !self@.contains(id as int),
            },
    {
        let mut at: usize = 0;
        while at < self.rows.len()
            invariant
                at <= self.rows.len(),
                self@.wf(),
                forall|i: int| 0 <= i < at ==> (#[trigger] self@.rows[i]).id != id,
            decreases self.rows.len() - at,
        {
            if self.rows[at].id == id {
                proof {
                    assert(self@.rows[at as int] == self.rows[at as int]@);
                    lemma_position(self@, at as int);
                }
                return Some(at);
            }
            assert(self@.rows[at as int] == self.rows[at as int]@);
            at += 1;
        }
        None
    }

    /// Adds a row with the next id and hands it back as `(id, name,
    /// description)`. When no id is left the statement is refused and the
    /// table stays as it was.
    pub fn insert(&mut self, name: String, description: String) -> (result: Result<
        (i32, String, String),
        StorageError,
    >)
        requires
            old(self)@.wf(),
        ensures
            final(self)@.wf(),
            match result {
                Ok(row) => old(self)@.can_insert() && row_item(row) == old(self)@.next_row(
                    name@,
                    description@,
                ) && final(self)@ == old(self)@.insert(name@, description@),
                Err(error) => !old(self)@.can_insert() && error == StorageError::Statement
                    && final(self)@ == old(self)@,
            },
    {
        if self.last_id == i32::MAX {
            return Err(StorageError::Statement);
        }
        let id: i32 = self.last_id + 1;
        let item = Item { id, name: name.clone(), description: description.clone() };
        proof {
            lemma_operations_keep_wf(old(self)@, 0, name@, description@);
        }
        self.last_id = id;
        self.rows.push(item);
        assert(self@.rows =~= old(self)@.insert(name@, description@).rows);
        Ok((id, name, description))
    }

    /// Every row, lowest id first.
    pub fn list_all(&self) -> (items: Vec<Item>)
        ensures
            item_views(items@) == self@.rows,
    {
        let mut items: Vec<Item> = Vec::new();
        let mut at: usize = 0;
        while at < self.rows.len()
            invariant
                at <= self.rows.len(),
                items.len() == at,
                forall|i: int| 0 <= i < at ==> (#[trigger] items[i])@ == self.rows[i]@,
            decreases self.rows.len() - at,
        {
            items.push(self.rows[at].clone());
            at += 1;
        }
        assert(item_views(items@) =~= self@.rows);
        items
    }

    /// The row with this id, or `None` if there is none.
    pub fn get_by_id(&self, id: i32) -> (found: Option<Item>)
        requires
            self@.wf(),
        ensures
            optional_item_view(found) == self@.get(id as int),
    {
        match self.find(id) {
            Some(at) => Some(self.rows[at].clone()),
            None => None,
        }
    }

    /// Gives the row with this id a new name and description and hands back
    /// the row as it then stands, or `None` if there is no such row.
    pub fn update_by_id(&mut self, id: i32, name: String, description: String) -> (updated: Option<
        Item,
    >)
        requires
            old(self)@.wf(),
        ensures
            final(self)@.wf(),
            final(self)@ == old(self)@.update(id as int, name@, description@),
            optional_item_view(updated) == final(self)@.get(id as int),
    {
        match self.find(id) {
            Some(at) => {
                let item = Item { id, name: name.clone(), description: description.clone() };
                proof {
                    lemma_operations_keep_wf(old(self)@, id as int, name@, description@);
                    assert(item_views(old(self).rows@.update(at as int, item))
                        =~= old(self)@.update(id as int, name@, description@).rows);
                }
                self.rows.set(at, item);
                proof {
                    lemma_position(self@, at as int);
                }
                Some(Item { id, name, description })
            },
            None => None,
        }
    }

    /// Removes the row with this id and reports how many rows went away:
    /// one, or none if there was no such row.
    pub fn delete_by_id(&mut self, id: i32) -> (rows_affected: u64)
        requires
            old(self)@.wf(),
        ensures
            final(self)@.wf(),
            final(self)@ == old(self)@.delete(id as int),
            rows_affected == old(self)@.affected_by_delete(id as int),
    {
        match self.find(id) {
            Some(at) => {
                proof {
                    lemma_operations_keep_wf(old(self)@, id as int, Seq::empty(), Seq::empty());
                    assert(item_views(old(self).rows@.remove(at as int)) =~= old(self)@.delete(
                        id as int,
                    ).rows);
                }
                self.rows.remove(at);
                1
            },
            None => 0,
        }
    }

    /// Removes every row and reports how many went away.
    pub fn delete_all(&mut self) -> (rows_affected: u64)
        requires
            old(self)@.wf(),
        ensures
            final(self)@.wf(),
            final(self)@ == old(self)@.clear(),
            rows_affected == old(self)@.rows.len(),
    {
        proof {
            lemma_operations_keep_wf(old(self)@, 0, Seq::empty(), Seq::empty());
        }
        let rows_affected: u64 = self.rows.len() as u64;
        self.rows.clear();
        assert(self@.rows =~= Seq::<ItemView>::empty());
        rows_affected
    }
}

} // verus!
