//! The HTTP handlers: from the outcome of a service operation to the
//! response that is sent.
//!
//! An absent row is a normal outcome and becomes 404. Any storage error
//! becomes 500 with an empty body, whatever its cause. A request that could
//! not be understood becomes 400 and never reaches storage.

use vstd::prelude::*;
use crate::models::{
    item_result_view, item_views, items_result_view, optional_item_result_view, DeleteAllResponse,
    Item, ItemView, RequestError, StorageError,
};

verus! {

/// The status codes this service answers with.
#[derive(Clone, Copy, Debug, PartialEq, Eq)]
pub enum StatusCode {
    /// 200
    Success,
    /// 201
    Created,
    /// 204
    NoContent,
    /// 400
    BadRequest,
    /// 404
    NotFound,
    /// 500
    InternalServerError,
}

impl StatusCode {
    /// The number that goes on the wire.
    pub open spec fn number(self) -> int {
        match self {
            StatusCode::Success => 200,
            StatusCode::Created => 201,
            StatusCode::NoContent => 204,
            StatusCode::BadRequest => 400,
            StatusCode::NotFound => 404,
            StatusCode::InternalServerError => 500,
        }
    }

    /// The number that goes on the wire.
    pub fn code(&self) -> (code: u16)
        ensures
            code == self.number(),
    {
        match self {
            StatusCode::Success => 200,
            StatusCode::Created => 201,
            StatusCode::NoContent => 204,
            StatusCode::BadRequest => 400,
            StatusCode::NotFound => 404,
            StatusCode::InternalServerError => 500,
        }
    }
}

/// What a response carries. Everything but `Empty` is sent as JSON.
#[derive(Debug, PartialEq, Eq)]
pub enum Body {
    Empty,
    Item(Item),
    Items(Vec<Item>),
    Deleted(DeleteAllResponse),
}

/// Mathematical value of a [`Body`].
pub enum BodyView {
    Empty,
    Item(ItemView),
    Items(Seq<ItemView>),
    Deleted { count: nat },
}

impl View for Body {
    type V = BodyView;

    open spec fn view(&self) -> BodyView {
        match self {
            Body::Empty => BodyView::Empty,
            Body::Item(item) => BodyView::Item(item@),
            Body::Items(items) => BodyView::Items(item_views(items@)),
            Body::Deleted(response) => BodyView::Deleted { count: response.count as nat },
        }
    }
}

/// A response: a status and a body.
#[derive(Debug, PartialEq, Eq)]
pub struct Response {
    pub status: StatusCode,
    pub body: Body,
}

/// Mathematical value of a [`Response`].
pub struct ResponseView {
    pub status: StatusCode,
    pub body: BodyView,
}

impl View for Response {
    type V = ResponseView;

    open spec fn view(&self) -> ResponseView {
        ResponseView { status: self.status, body: self.body@ }
    }
}

/// The response to any storage error: 500, nothing else.
pub open spec fn failure_response() -> ResponseView {
    ResponseView { status: StatusCode::InternalServerError, body: BodyView::Empty }
}

/// The response to a request for a row that is not there: 404, nothing else.
pub open spec fn not_found_response() -> ResponseView {
    ResponseView { status: StatusCode::NotFound, body: BodyView::Empty }
}

/// The response to a request that could not be understood: 400, nothing
/// else, whichever part of it was malformed.
pub open spec fn bad_request_response() -> ResponseView {
    ResponseView { status: StatusCode::BadRequest, body: BodyView::Empty }
}

/// Response to creating an item: 201 with the created item.
pub open spec fn create_item_response(outcome: Result<ItemView, StorageError>) -> ResponseView {
    match outcome {
        Ok(item) => ResponseView { status: StatusCode::Created, body: BodyView::Item(item) },
        Err(_) => failure_response(),
    }
}

/// Response to listing the items: 200 with all of them, in the order given.
pub open spec fn get_items_response(outcome: Result<Seq<ItemView>, StorageError>) -> ResponseView {
    match outcome {
        Ok(items) => ResponseView { status: StatusCode::Success, body: BodyView::Items(items) },
        Err(_) => failure_response(),
    }
}

/// Response to reading one item: 200 with the item, or 404.
pub open spec fn get_item_response(outcome: Result<Option<ItemView>, StorageError>) -> ResponseView {
    match outcome {
        Ok(Some(item)) => ResponseView { status: StatusCode::Success, body: BodyView::Item(item) },
        Ok(None) => not_found_response(),
        Err(_) => failure_response(),
    }
}

/// Response to updating one item: 200 with the item as updated, or 404.
pub open spec fn update_item_response(outcome: Result<Option<ItemView>, StorageError>) -> ResponseView {
    match outcome {
        Ok(Some(item)) => ResponseView { status: StatusCode::Success, body: BodyView::Item(item) },
        Ok(None) => not_found_response(),
        Err(_) => failure_response(),
    }
}

/// Response to deleting one item: 204 if a row went away, 404 if none did.
pub open spec fn delete_item_response(outcome: Result<bool, StorageError>) -> ResponseView {
    match outcome {
        Ok(true) => ResponseView { status: StatusCode::NoContent, body: BodyView::Empty },
        Ok(false) => not_found_response(),
        Err(_) => failure_response(),
    }
}

/// Response to deleting every item: 200 with the number of rows removed.
pub open spec fn delete_all_response(outcome: Result<u64, StorageError>) -> ResponseView {
    match outcome {
        Ok(count) => ResponseView {
            status: StatusCode::Success,
            body: BodyView::Deleted { count: count as nat },
        },
        Err(_) => failure_response(),
    }
}

/// The banner served at the root path.
pub fn root() -> (banner: &'static str)
    ensures
        banner@ == "Items API!"@,
{
    "Items API!"
}

/// Answers a request whose body or path id could not be decoded.
pub fn bad_request(error: RequestError) -> (response: Response)
    ensures
        response@ == bad_request_response(),
{
    match error {
        RequestError::MalformedBody | RequestError::MalformedId => Response {
            status: StatusCode::BadRequest,
            body: Body::Empty,
        },
    }
}

/// Answers a create request from the outcome of the service call.
pub fn create_item(outcome: Result<Item, StorageError>) -> (response: Response)
    ensures
        response@ == create_item_response(item_result_view(outcome)),
{
    match outcome {
        Ok(item) => Response { status: StatusCode::Created, body: Body::Item(item) },
        Err(_) => Response { status: StatusCode::InternalServerError, body: Body::Empty },
    }
}

/// Answers a list request from the outcome of the service call.
pub fn get_items(outcome: Result<Vec<Item>, StorageError>) -> (response: Response)
    ensures
        response@ == get_items_response(items_result_view(outcome)),
{
    match outcome {
        Ok(items) => Response { status: StatusCode::Success, body: Body::Items(items) },
        Err(_) => Response { status: StatusCode::InternalServerError, body: Body::Empty },
    }
}

/// Answers a read of one item from the outcome of the service call.
pub fn get_item(outcome: Result<Option<Item>, StorageError>) -> (response: Response)
    ensures
        response@ == get_item_response(optional_item_result_view(outcome)),
{
    match outcome {
        Ok(Some(item)) => Response { status: StatusCode::Success, body: Body::Item(item) },
        Ok(None) => Response { status: StatusCode::NotFound, body: Body::Empty },
        Err(_) => Response { status: StatusCode::InternalServerError, body: Body::Empty },
    }
}

/// Answers an update from the outcome of the service call.
pub fn update_item(outcome: Result<Option<Item>, StorageError>) -> (response: Response)
    ensures
        response@ == update_item_response(optional_item_result_view(outcome)),
{
    match outcome {
        Ok(Some(item)) => Response { status: StatusCode::Success, body: Body::Item(item) },
        Ok(None) => Response { status: StatusCode::NotFound, body: Body::Empty },
        Err(_) => Response { status: StatusCode::InternalServerError, body: Body::Empty },
    }
}

/// Answers a delete of one item from the outcome of the service call.
pub fn delete_item(outcome: Result<bool, StorageError>) -> (response: Response)
    ensures
        response@ == delete_item_response(outcome),
{
    match outcome {
        Ok(true) => Response { status: StatusCode::NoContent, body: Body::Empty },
        Ok(false) => Response { status: StatusCode::NotFound, body: Body::Empty },
        Err(_) => Response { status: StatusCode::InternalServerError, body: Body::Empty },
    }
}

/// Answers a delete of every item from the outcome of the service call.
pub fn delete_all(outcome: Result<u64, StorageError>) -> (response: Response)
    ensures
        response@ == delete_all_response(outcome),
{
    match outcome {
        Ok(count) => Response {
            status: StatusCode::Success,
            body: Body::Deleted(DeleteAllResponse { count }),
        },
        Err(_) => Response { status: StatusCode::InternalServerError, body: Body::Empty },
    }
}

} // verus!
