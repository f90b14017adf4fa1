//! The item resource and the payloads that travel with it.

use vstd::prelude::*;

verus! {

/// One stored item. The `id` is assigned by storage and never changes.
#[derive(Debug, PartialEq, Eq)]
pub struct Item {
    pub id: i32,
    pub name: String,
    pub description: String,
}

/// Mathematical value of an [`Item`].
pub struct ItemView {
    pub id: int,
    pub name: Seq<char>,
    pub description: Seq<char>,
}

impl View for Item {
    type V = ItemView;

    open spec fn view(&self) -> ItemView {
        ItemView { id: self.id as int, name: self.name@, description: self.description@ }
    }
}

impl Clone for Item {
    fn clone(&self) -> (copy: Self)
        ensures
            copy@ == self@,
    {
        Item { id: self.id, name: self.name.clone(), description: self.description.clone() }
    }
}

/// What a client sends to create or update an item. It carries no id: on
/// create storage assigns one, on update the id comes from the request path.
#[derive(Debug, PartialEq, Eq)]
pub struct RequestItem {
    pub name: String,
    pub description: String,
}

/// Mathematical value of a [`RequestItem`].
pub struct RequestItemView {
    pub name: Seq<char>,
    pub description: Seq<char>,
}

impl View for RequestItem {
    type V = RequestItemView;

    open spec fn view(&self) -> RequestItemView {
        RequestItemView { name: self.name@, description: self.description@ }
    }
}

/// Result of removing every item: how many rows went away.
#[derive(Clone, Copy, Debug, PartialEq, Eq)]
pub struct DeleteAllResponse {
    pub count: u64,
}

/// A failure of the storage layer, as opposed to an absent row.
#[derive(Clone, Copy, Debug, PartialEq, Eq)]
pub enum StorageError {
    /// The database could not be reached.
    Connectivity,
    /// The database refused or failed the statement.
    Statement,
}

/// A request that could not be understood. It is turned away before any
/// statement is planned.
#[derive(Clone, Copy, Debug, PartialEq, Eq)]
pub enum RequestError {
    /// The body is not a JSON object with a name and a description.
    MalformedBody,
    /// The id in the path is not a 32-bit integer.
    MalformedId,
}

/// The values of a sequence of items, in the same order.
pub open spec fn item_views(items: Seq<Item>) -> Seq<ItemView> {
    items.map_values(|item: Item| item@)
}

/// The item that a returned row `(id, name, description)` stands for.
pub open spec fn row_item(row: (i32, String, String)) -> ItemView {
    ItemView { id: row.0 as int, name: row.1@, description: row.2@ }
}

/// The value of an outcome that carries one item.
pub open spec fn item_result_view(result: Result<Item, StorageError>) -> Result<
    ItemView,
    StorageError,
> {
    match result {
        Ok(item) => Ok(item@),
        Err(error) => Err(error),
    }
}

/// The value of an item that may be absent.
pub open spec fn optional_item_view(found: Option<Item>) -> Option<ItemView> {
    match found {
        Some(item) => Some(item@),
        None => None,
    }
}

/// The value of an outcome that carries an item or its absence.
pub open spec fn optional_item_result_view(result: Result<Option<Item>, StorageError>) -> Result<
    Option<ItemView>,
    StorageError,
> {
    match result {
        Ok(found) => Ok(optional_item_view(found)),
        Err(error) => Err(error),
    }
}

/// The value of an outcome that carries a list of items.
pub open spec fn items_result_view(result: Result<Vec<Item>, StorageError>) -> Result<
    Seq<ItemView>,
    StorageError,
> {
    match result {
        Ok(items) => Ok(item_views(items@)),
        Err(error) => Err(error),
    }
}

} // verus!
