//! What holds of the service as a whole, whichever table it runs against:
//! each law follows a request through storage, service and handler.

use vstd::prelude::*;
use crate::handlers::{
    create_item_response, delete_all_response, delete_item_response, failure_response,
    get_item_response, get_items_response, not_found_response, update_item_response, BodyView,
    ResponseView, StatusCode,
};
use crate::models::{ItemView, RequestItemView, StorageError};
use crate::services::deleted_result;
use crate::table::{lemma_operations_keep_wf, lemma_position, TableView};

verus! {

/// The table after inserting the requests one after the other.
pub open spec fn insert_each(table: TableView, requests: Seq<RequestItemView>) -> TableView
    decreases requests.len(),
{
    if requests.len() == 0 {
        table
    } else {
        insert_each(table, requests.drop_last()).insert(
            requests.last().name,
            requests.last().description,
        )
    }
}

/// Round trip: an item created with a name and a description gets a positive
/// id that no row had before, and a read of that id gives the same item
/// back, so the 201 and the following 200 carry the same body.
pub proof fn law_round_trip(table: TableView, name: Seq<char>, description: Seq<char>)
    requires
        table.wf(),
        table.can_insert(),
    ensures
        ({
            let created = table.next_row(name, description);
            let after = table.insert(name, description);
            &&& after.wf()
            &&& created.name == name
            &&& created.description == description
            &&& created.id >= 1
            &&& !table.contains(created.id)
            &&& after.get(created.id) == Some(created)
            &&& create_item_response(Ok(created)) == (ResponseView {
                status: StatusCode::Created,
                body: BodyView::Item(created),
            })
            &&& get_item_response(Ok(after.get(created.id))) == (ResponseView {
                status: StatusCode::Success,
                body: BodyView::Item(created),
            })
        }),
{
    let after = table.insert(name, description);
    lemma_operations_keep_wf(table, 0, name, description);
    lemma_position(after, table.rows.len() as int);
}

/// A read of an id gives what stood there before an insert: creating an item
/// leaves every other item as it was.
pub proof fn law_insert_keeps_others(
    table: TableView,
    name: Seq<char>,
    description: Seq<char>,
    id: int,
)
    requires
        table.wf(),
        table.can_insert(),
        id != table.last_id + 1,
    ensures
        table.insert(name, description).get(id) == table.get(id),
{
    let after = table.insert(name, description);
    lemma_operations_keep_wf(table, 0, name, description);
    if table.contains(id) {
        let at = table.position(id);
        assert(after.rows[at] == table.rows[at]);
        lemma_position(after, at);
        lemma_position(table, at);
    } else if after.contains(id) {
        let at = after.position(id);
        assert(at < table.rows.len());
        assert(table.rows[at] == after.rows[at]);
    }
}

/// Deleting the same id twice: the first delete removes the row if it is
/// there, and then answers 204; the second finds nothing and answers 404.
/// After a delete the id is not found, whether it was there or not.
pub proof fn law_delete_twice(table: TableView, id: int)
    requires
        table.wf(),
    ensures
        ({
            let once = table.delete(id);
            let first = deleted_result(Ok(table.affected_by_delete(id) as u64));
            let second = deleted_result(Ok(once.affected_by_delete(id) as u64));
            &&& once.wf()
            &&& !once.contains(id)
            &&& once.get(id) is None
            &&& once.delete(id) == once
            &&& first == Ok::<bool, StorageError>(table.contains(id))
            &&& second == Ok::<bool, StorageError>(false)
            &&& table.contains(id) ==> delete_item_response(first).status == StatusCode::NoContent
            &&& delete_item_response(second) == not_found_response()
            &&& get_item_response(Ok(once.get(id))) == not_found_response()
        }),
{
    lemma_operations_keep_wf(table, id, Seq::empty(), Seq::empty());
    let once = table.delete(id);
    if table.contains(id) {
        let at = table.position(id);
        if once.contains(id) {
            let again = once.position(id);
            let from = if again < at { again } else { again + 1 };
            assert(once.rows[again] == table.rows[from]);
            lemma_position(table, from);
        }
    }
}

/// Update preserves identity: an update changes no id and adds or removes no
/// row; if the id is there, a read afterwards gives the new name and
/// description under that same id, and every other row reads as before.
pub proof fn law_update_preserves_identity(
    table: TableView,
    id: int,
    name: Seq<char>,
    description: Seq<char>,
    other: int,
)
    requires
        table.wf(),
    ensures
        ({
            let after = table.update(id, name, description);
            &&& after.wf()
            &&& after.last_id == table.last_id
            &&& after.rows.len() == table.rows.len()
            &&& forall|i: int|
                0 <= i < table.rows.len() ==> (#[trigger] after.rows[i]).id == table.rows[i].id
            &&& after.contains(other) == table.contains(other)
            &&& table.contains(id) ==> after.get(id) == Some(ItemView { id, name, description })
            &&& table.contains(id) ==> update_item_response(Ok(after.get(id))) == (ResponseView {
                status: StatusCode::Success,
                body: BodyView::Item(ItemView { id, name, description }),
            })
            &&& other != id ==> after.get(other) == table.get(other)
        }),
{
    lemma_operations_keep_wf(table, id, name, description);
    let after = table.update(id, name, description);
    if table.contains(id) {
        let at = table.position(id);
        lemma_position(after, at);
        if table.contains(other) {
            let there = table.position(other);
            assert(after.rows[there].id == other);
            lemma_position(after, there);
            lemma_position(table, there);
        } else if after.contains(other) {
            let there = after.position(other);
            assert(table.rows[there].id == other);
        }
    }
}

/// Inserting `requests.len()` items adds that many rows and hands out that
/// many ids, as long as ids are left.
pub proof fn lemma_insert_each(table: TableView, requests: Seq<RequestItemView>)
    requires
        table.wf(),
        table.last_id + requests.len() <= i32::MAX,
    ensures
        insert_each(table, requests).wf(),
        insert_each(table, requests).rows.len() == table.rows.len() + requests.len(),
        insert_each(table, requests).last_id == table.last_id + requests.len(),
    decreases requests.len(),
{
    if requests.len() > 0 {
        lemma_insert_each(table, requests.drop_last());
        lemma_operations_keep_wf(
            insert_each(table, requests.drop_last()),
            0,
            requests.last().name,
            requests.last().description,
        );
    }
}

/// Delete-all count accuracy: after any number of inserts, a delete of every
/// item reports as many rows as the table held before them plus the number
/// of inserts (from an empty table: exactly the number of inserts), and the
/// list that follows is empty.
pub proof fn law_delete_all_counts(table: TableView, requests: Seq<RequestItemView>)
    requires
        table.wf(),
        table.last_id + requests.len() <= i32::MAX,
    ensures
        ({
            let filled = insert_each(table, requests);
            let count = filled.rows.len();
            &&& count == table.rows.len() + requests.len()
            &&& table.rows.len() == 0 ==> count == requests.len()
            &&& count <= u64::MAX
            &&& delete_all_response(Ok(count as u64)) == (ResponseView {
                status: StatusCode::Success,
                body: BodyView::Deleted { count },
            })
            &&& filled.clear().wf()
            &&& filled.clear().rows.len() == 0
            &&& get_items_response(Ok(filled.clear().rows)) == (ResponseView {
                status: StatusCode::Success,
                body: BodyView::Items(Seq::empty()),
            })
        }),
{
    lemma_insert_each(table, requests);
    let filled = insert_each(table, requests);
    lemma_operations_keep_wf(filled, 0, Seq::empty(), Seq::empty());
    lemma_rows_bounded(filled);
}

/// A well-formed table holds at most as many rows as ids were handed out.
pub proof fn lemma_rows_bounded(table: TableView)
    requires
        table.wf(),
    ensures
        table.rows.len() <= table.last_id,
    decreases table.rows.len(),
{
    if table.rows.len() > 0 {
        let shorter = TableView { rows: table.rows.drop_last(), last_id: table.last_id - 1 };
        let last = table.rows.len() - 1;
        assert(1 <= table.rows[last].id <= table.last_id);
        assert forall|i: int| 0 <= i < shorter.rows.len() implies 1 <= (
        #[trigger] shorter.rows[i]).id <= shorter.last_id by {
            assert(table.rows[i].id < table.rows[last].id);
        }
        assert forall|i: int, j: int| 0 <= i < j < shorter.rows.len() implies (
        #[trigger] shorter.rows[i]).id < (#[trigger] shorter.rows[j]).id by {
            assert(table.rows[i].id < table.rows[j].id);
        }
        lemma_rows_bounded(shorter);
    }
}

/// Not found on an absent id: read, update and delete of an id that no row
/// has leave the table as it is and answer 404, not an error.
pub proof fn law_absent_id_not_found(
    table: TableView,
    id: int,
    name: Seq<char>,
    description: Seq<char>,
)
    requires
        !table.contains(id),
    ensures
        table.get(id) is None,
        get_item_response(Ok(table.get(id))) == not_found_response(),
        table.update(id, name, description) == table,
        update_item_response(Ok(table.update(id, name, description).get(id)))
            == not_found_response(),
        table.delete(id) == table,
        table.affected_by_delete(id) == 0,
        delete_item_response(deleted_result(Ok(table.affected_by_delete(id) as u64)))
            == not_found_response(),
{
}

/// Not found on an id that was never handed out: such an id is in no row of
/// a well-formed table, so read, update and delete of it answer 404 and
/// change nothing.
pub proof fn law_unassigned_id_not_found(
    table: TableView,
    id: int,
    name: Seq<char>,
    description: Seq<char>,
)
    requires
        table.wf(),
        id < 1 || id > table.last_id,
    ensures
        !table.contains(id),
        get_item_response(Ok(table.get(id))) == not_found_response(),
        table.update(id, name, description) == table,
        update_item_response(Ok(table.update(id, name, description).get(id)))
            == not_found_response(),
        table.delete(id) == table,
        delete_item_response(deleted_result(Ok(table.affected_by_delete(id) as u64)))
            == not_found_response(),
{
    law_absent_id_not_found(table, id, name, description);
}

/// Any storage error becomes the same 500 with an empty body, for every
/// operation and whatever the cause.
pub proof fn law_storage_error_is_500(error: StorageError)
    ensures
        failure_response().status == StatusCode::InternalServerError,
        failure_response().body == BodyView::Empty,
        create_item_response(Err(error)) == failure_response(),
        get_items_response(Err(error)) == failure_response(),
        get_item_response(Err(error)) == failure_response(),
        update_item_response(Err(error)) == failure_response(),
        delete_item_response(Err(error)) == failure_response(),
        delete_all_response(Err(error)) == failure_response(),
{
}

} // verus!
