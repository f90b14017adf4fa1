use items_api::handlers::{
    bad_request, create_item, delete_all, delete_item, get_item, get_items, root, update_item,
    Body, Response, StatusCode,
};
use items_api::models::{DeleteAllResponse, Item, RequestError, StorageError};

fn lamp() -> Item {
    Item { id: 5, name: String::from("lamp"), description: String::from("brass") }
}

fn failure() -> Response {
    Response { status: StatusCode::InternalServerError, body: Body::Empty }
}

fn not_found() -> Response {
    Response { status: StatusCode::NotFound, body: Body::Empty }
}

#[test]
fn root_serves_the_banner() {
    assert_eq!(root(), "Items API!");
}

#[test]
fn status_codes_have_their_numbers() {
    assert_eq!(StatusCode::Success.code(), 200);
    assert_eq!(StatusCode::Created.code(), 201);
    assert_eq!(StatusCode::NoContent.code(), 204);
    assert_eq!(StatusCode::BadRequest.code(), 400);
    assert_eq!(StatusCode::NotFound.code(), 404);
    assert_eq!(StatusCode::InternalServerError.code(), 500);
}

#[test]
fn created_item_is_answered_with_201() {
    assert_eq!(
        create_item(Ok(lamp())),
        Response { status: StatusCode::Created, body: Body::Item(lamp()) }
    );
}

#[test]
fn failed_create_is_answered_with_500() {
    assert_eq!(create_item(Err(StorageError::Statement)), failure());
    assert_eq!(create_item(Err(StorageError::Connectivity)), failure());
}

#[test]
fn list_is_answered_with_200_in_the_given_order() {
    let second = Item { id: 8, name: String::from("desk"), description: String::from("oak") };
    let response = get_items(Ok(vec![lamp(), second.clone()]));
    assert_eq!(response, Response { status: StatusCode::Success, body: Body::Items(vec![lamp(), second]) });
}

#[test]
fn empty_list_is_answered_with_200() {
    assert_eq!(
        get_items(Ok(vec![])),
        Response { status: StatusCode::Success, body: Body::Items(vec![]) }
    );
}

#[test]
fn failed_list_is_answered_with_500() {
    assert_eq!(get_items(Err(StorageError::Connectivity)), failure());
    assert_eq!(get_items(Err(StorageError::Statement)), failure());
}

#[test]
fn found_item_is_answered_with_200() {
    assert_eq!(
        get_item(Ok(Some(lamp()))),
        Response { status: StatusCode::Success, body: Body::Item(lamp()) }
    );
}

#[test]
fn absent_item_is_answered_with_404() {
    assert_eq!(get_item(Ok(None)), not_found());
}

#[test]
fn failed_read_is_answered_with_500() {
    assert_eq!(get_item(Err(StorageError::Connectivity)), failure());
    assert_eq!(get_item(Err(StorageError::Statement)), failure());
}

#[test]
fn updated_item_is_answered_with_200() {
    assert_eq!(
        update_item(Ok(Some(lamp()))),
        Response { status: StatusCode::Success, body: Body::Item(lamp()) }
    );
}

#[test]
fn update_of_absent_item_is_answered_with_404() {
    assert_eq!(update_item(Ok(None)), not_found());
}

#[test]
fn failed_update_is_answered_with_500() {
    assert_eq!(update_item(Err(StorageError::Connectivity)), failure());
    assert_eq!(update_item(Err(StorageError::Statement)), failure());
}

#[test]
fn removed_item_is_answered_with_204() {
    assert_eq!(
        delete_item(Ok(true)),
        Response { status: StatusCode::NoContent, body: Body::Empty }
    );
}

#[test]
fn delete_of_absent_item_is_answered_with_404() {
    assert_eq!(delete_item(Ok(false)), not_found());
}

#[test]
fn failed_delete_is_answered_with_500() {
    assert_eq!(delete_item(Err(StorageError::Connectivity)), failure());
    assert_eq!(delete_item(Err(StorageError::Statement)), failure());
}

#[test]
fn delete_all_is_answered_with_200_and_the_count() {
    assert_eq!(
        delete_all(Ok(3)),
        Response { status: StatusCode::Success, body: Body::Deleted(DeleteAllResponse { count: 3 }) }
    );
    assert_eq!(
        delete_all(Ok(0)),
        Response { status: StatusCode::Success, body: Body::Deleted(DeleteAllResponse { count: 0 }) }
    );
}

#[test]
fn failed_delete_all_is_answered_with_500() {
    assert_eq!(delete_all(Err(StorageError::Connectivity)), failure());
    assert_eq!(delete_all(Err(StorageError::Statement)), failure());
}

#[test]
fn malformed_request_is_answered_with_400() {
    let rejected = Response { status: StatusCode::BadRequest, body: Body::Empty };
    assert_eq!(bad_request(RequestError::MalformedBody), rejected);
    assert_eq!(bad_request(RequestError::MalformedId), rejected);
}
