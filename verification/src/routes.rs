//! The routing table: which method and path reach which operation.

use vstd::prelude::*;
use crate::services::ItemService;

verus! {

/// The request methods the service answers.
#[derive(Clone, Copy, Debug, PartialEq, Eq)]
pub enum Method {
    Get,
    Post,
    Put,
    Delete,
}

/// The operations of the service, one per handler.
#[derive(Clone, Copy, Debug, PartialEq, Eq)]
pub enum Operation {
    Root,
    CreateItem,
    GetItems,
    GetItem,
    UpdateItem,
    DeleteItem,
    DeleteAll,
}

/// One binding of a method and a path pattern to an operation. In a pattern
/// `{id}` stands for the id of an item.
#[derive(Clone, Copy, Debug, PartialEq, Eq)]
pub struct Route {
    pub method: Method,
    pub path: &'static str,
    pub operation: Operation,
}

/// Mathematical value of a [`Route`].
pub struct RouteView {
    pub method: Method,
    pub path: Seq<char>,
    pub operation: Operation,
}

impl View for Route {
    type V = RouteView;

    open spec fn view(&self) -> RouteView {
        RouteView { method: self.method, path: self.path@, operation: self.operation }
    }
}

/// The values of a sequence of routes, in the same order.
pub open spec fn route_views(routes: Seq<Route>) -> Seq<RouteView> {
    routes.map_values(|route: Route| route@)
}

/// The bindings of the service and the one service instance that every
/// handler is given.
pub struct ItemRouter<P> {
    pub routes: Vec<Route>,
    pub service: ItemService<P>,
}

impl Operation {
    /// The method this operation is reached by.
    pub open spec fn spec_method(self) -> Method {
        match self {
            Operation::Root => Method::Get,
            Operation::CreateItem => Method::Post,
            Operation::GetItems => Method::Get,
            Operation::GetItem => Method::Get,
            Operation::UpdateItem => Method::Put,
            Operation::DeleteItem => Method::Delete,
            Operation::DeleteAll => Method::Delete,
        }
    }

    /// The path pattern this operation is reached at.
    pub open spec fn spec_path(self) -> Seq<char> {
        match self {
            Operation::Root => "/"@,
            Operation::CreateItem => "/item"@,
            Operation::GetItems => "/items"@,
            Operation::GetItem => "/items/{id}"@,
            Operation::UpdateItem => "/items/{id}"@,
            Operation::DeleteItem => "/items/{id}"@,
            Operation::DeleteAll => "/items"@,
        }
    }

    /// The binding of this operation.
    pub open spec fn spec_route(self) -> RouteView {
        RouteView { method: self.spec_method(), path: self.spec_path(), operation: self }
    }

    /// The method this operation is reached by.
    pub fn method(&self) -> (method: Method)
        ensures
            method == self.spec_method(),
    {
        match self {
            Operation::Root => Method::Get,
            Operation::CreateItem => Method::Post,
            Operation::GetItems => Method::Get,
            Operation::GetItem => Method::Get,
            Operation::UpdateItem => Method::Put,
            Operation::DeleteItem => Method::Delete,
            Operation::DeleteAll => Method::Delete,
        }
    }

    /// The path pattern this operation is reached at.
    pub fn path(&self) -> (path: &'static str)
        ensures
            path@ == self.spec_path(),
    {
        match self {
            Operation::Root => "/",
            Operation::CreateItem => "/item",
            Operation::GetItems => "/items",
            Operation::GetItem => "/items/{id}",
            Operation::UpdateItem => "/items/{id}",
            Operation::DeleteItem => "/items/{id}",
            Operation::DeleteAll => "/items",
        }
    }

    /// The binding of this operation.
    pub fn route(&self) -> (route: Route)
        ensures
            route@ == self.spec_route(),
    {
        Route { method: self.method(), path: self.path(), operation: *self }
    }
}

/// The routing table: every operation, bound once.
pub open spec fn route_table() -> Seq<RouteView> {
    seq![
        Operation::Root.spec_route(),
        Operation::CreateItem.spec_route(),
        Operation::GetItems.spec_route(),
        Operation::DeleteAll.spec_route(),
        Operation::GetItem.spec_route(),
        Operation::DeleteItem.spec_route(),
        Operation::UpdateItem.spec_route(),
    ]
}

/// Builds the router: the service around `db_pool`, and the routing table.
pub fn item_routes<P>(db_pool: P) -> (router: ItemRouter<P>)
    ensures
        route_views(router.routes@) == route_table(),
        router.service.spec_pool() == db_pool,
{
    let service = ItemService::new(db_pool);
    let mut routes: Vec<Route> = Vec::new();
    routes.push(Operation::Root.route());
    routes.push(Operation::CreateItem.route());
    routes.push(Operation::GetItems.route());
    routes.push(Operation::DeleteAll.route());
    routes.push(Operation::GetItem.route());
    routes.push(Operation::DeleteItem.route());
    routes.push(Operation::UpdateItem.route());
    assert(route_views(routes@) =~= route_table());
    ItemRouter { routes, service }
}

/// Each operation stands in the routing table exactly once.
pub proof fn lemma_each_operation_bound_once(operation: Operation)
    ensures
        exists|i: int|
            0 <= i < route_table().len() && #[trigger] route_table()[i].operation == operation,
        forall|i: int, j: int|
            0 <= i < route_table().len() && 0 <= j < route_table().len()
                && #[trigger] route_table()[i].operation == operation
                && #[trigger] route_table()[j].operation == operation ==> i == j,
{
    let table = route_table();
    match operation {
        Operation::Root => assert(table[0].operation == operation),
        Operation::CreateItem => assert(table[1].operation == operation),
        Operation::GetItems => assert(table[2].operation == operation),
        Operation::DeleteAll => assert(table[3].operation == operation),
        Operation::GetItem => assert(table[4].operation == operation),
        Operation::DeleteItem => assert(table[5].operation == operation),
        Operation::UpdateItem => assert(table[6].operation == operation),
    }
}

/// No two bindings of the routing table share both method and path: a
/// request reaches at most one operation.
pub proof fn lemma_routes_unambiguous(i: int, j: int)
    requires
        0 <= i < route_table().len(),
        0 <= j < route_table().len(),
        route_table()[i].method == route_table()[j].method,
        route_table()[i].path == route_table()[j].path,
    ensures
        i == j,
{
    reveal_strlit("/");
    reveal_strlit("/item");
    reveal_strlit("/items");
    reveal_strlit("/items/{id}");
    let table = route_table();
    assert(table.len() == 7);
    assert("/"@.len() == 1);
    assert("/item"@.len() == 5);
    assert("/items"@.len() == 6);
    assert("/items/{id}"@.len() == 11);
}

} // verus!
