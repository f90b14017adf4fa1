//! The item service: the seam between the HTTP handlers and storage.
//!
//! The service performs no I/O itself. For each operation it says which
//! statement is to be run, and it turns what the database handed back into a
//! domain result. Whoever owns the connection runs the statement in between.

use vstd::prelude::*;
use crate::models::{item_result_view, row_item, Item, ItemView, RequestItem, StorageError};
use crate::statement::{Statement, StatementView};

verus! {

/// The service, holding the connection pool it was built with. The pool is
/// carried, never looked into.
pub struct ItemService<P> {
    db_pool: P,
}

impl<P: Clone> Clone for ItemService<P> {
    /// A second handle on the same service: the pool is cloned as its own
    /// `clone` does it.
    fn clone(&self) -> (copy: Self)
        ensures
            call_ensures(P::clone, (&self.spec_pool(),), copy.spec_pool()),
    {
        ItemService { db_pool: self.db_pool.clone() }
    }
}

/// What [`ItemService::created`] makes of the outcome of an insert.
pub open spec fn created_result(outcome: Result<(i32, String, String), StorageError>) -> Result<
    ItemView,
    StorageError,
> {
    match outcome {
        Ok(row) => Ok(row_item(row)),
        Err(error) => Err(error),
    }
}

/// What [`ItemService::deleted`] makes of the outcome of a delete: a row was
/// removed exactly when the database reports at least one affected row.
pub open spec fn deleted_result(outcome: Result<u64, StorageError>) -> Result<bool, StorageError> {
    match outcome {
        Ok(rows_affected) => Ok(rows_affected > 0),
        Err(error) => Err(error),
    }
}

impl<P> ItemService<P> {
    /// The pool this service was built with.
    pub closed spec fn spec_pool(&self) -> P {
        self.db_pool
    }

    /// Wraps a connection pool.
    pub fn new(db_pool: P) -> (service: Self)
        ensures
            service.spec_pool() == db_pool,
    {
        ItemService { db_pool }
    }

    /// The pool to run statements on.
    pub fn pool(&self) -> (pool: &P)
        ensures
            *pool == self.spec_pool(),
    {
        &self.db_pool
    }

    /// The statement that creates an item from `request`: an insert that
    /// binds the name, then the description.
    pub fn create_item(&self, request: &RequestItem) -> (statement: Statement)
        ensures
            statement@ == (StatementView::Insert {
                name: request.name@,
                description: request.description@,
            }),
    {
        Statement::Insert { name: request.name.clone(), description: request.description.clone() }
    }

    /// The item that an insert created, from the row `(id, name,
    /// description)` it returned. A storage error is passed on unchanged.
    pub fn created(&self, outcome: Result<(i32, String, String), StorageError>) -> (result: Result<
        Item,
        StorageError,
    >)
        ensures
            item_result_view(result) == created_result(outcome),
    {
        match outcome {
            Ok(row) => Ok(Item { id: row.0, name: row.1, description: row.2 }),
            Err(error) => Err(error),
        }
    }

    /// The statement that lists every item.
    pub fn get_items(&self) -> (statement: Statement)
        ensures
            statement@ == StatementView::SelectAll,
    {
        Statement::SelectAll
    }

    /// The statement that reads the item with the given id.
    pub fn get_item(&self, id: i32) -> (statement: Statement)
        ensures
            statement@ == (StatementView::SelectById { id: id as int }),
    {
        Statement::SelectById { id }
    }

    /// The statement that gives the item with the given id the name and
    /// description of `request`. The id itself is only matched, never set.
    pub fn update_item(&self, id: i32, request: &RequestItem) -> (statement: Statement)
        ensures
            statement@ == (StatementView::Update {
                id: id as int,
                name: request.name@,
                description: request.description@,
            }),
    {
        Statement::Update {
            id,
            name: request.name.clone(),
            description: request.description.clone(),
        }
    }

    /// The statement that removes the item with the given id.
    pub fn delete_item(&self, id: i32) -> (statement: Statement)
        ensures
            statement@ == (StatementView::DeleteById { id: id as int }),
    {
        Statement::DeleteById { id }
    }

    /// Whether a delete removed a row, from the number of rows the database
    /// reports as affected. A storage error is passed on unchanged.
    pub fn deleted(&self, outcome: Result<u64, StorageError>) -> (result: Result<bool, StorageError>)
        ensures
            result == deleted_result(outcome),
    {
        match outcome {
            Ok(rows_affected) => Ok(rows_affected > 0),
            Err(error) => Err(error),
        }
    }

    /// The statement that removes every item.
    pub fn delete_all_items(&self) -> (statement: Statement)
        ensures
            statement@ == StatementView::DeleteAll,
    {
        Statement::DeleteAll
    }
}

} // verus!
