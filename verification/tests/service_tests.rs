use items_api::models::{Item, RequestItem, StorageError};
use items_api::services::ItemService;
use items_api::statement::Statement;

#[test]
fn service_keeps_its_pool() {
    let service = ItemService::new(String::from("pool"));
    assert_eq!(service.pool(), "pool");
    assert_eq!(service.clone().pool(), "pool");
}

#[test]
fn create_plans_an_insert_of_the_request() {
    let service = ItemService::new(());
    let request = RequestItem { name: String::from("a"), description: String::from("b") };
    assert_eq!(
        service.create_item(&request),
        Statement::Insert { name: String::from("a"), description: String::from("b") }
    );
}

#[test]
fn list_plans_a_select_of_all() {
    assert_eq!(ItemService::new(()).get_items(), Statement::SelectAll);
}

#[test]
fn read_plans_a_select_by_id() {
    assert_eq!(ItemService::new(()).get_item(12), Statement::SelectById { id: 12 });
}

#[test]
fn update_plans_an_update_with_the_path_id() {
    let service = ItemService::new(());
    let request = RequestItem { name: String::from("n"), description: String::from("d") };
    assert_eq!(
        service.update_item(9, &request),
        Statement::Update { id: 9, name: String::from("n"), description: String::from("d") }
    );
}

#[test]
fn delete_plans_a_delete_by_id() {
    assert_eq!(ItemService::new(()).delete_item(i32::MAX), Statement::DeleteById { id: i32::MAX });
}

#[test]
fn delete_all_plans_a_delete_of_all() {
    assert_eq!(ItemService::new(()).delete_all_items(), Statement::DeleteAll);
}

#[test]
fn created_reads_the_row_in_column_order() {
    let service = ItemService::new(());
    let row = (41, String::from("name"), String::from("description"));
    assert_eq!(
        service.created(Ok(row)),
        Ok(Item { id: 41, name: String::from("name"), description: String::from("description") })
    );
}

#[test]
fn created_passes_a_storage_error_on() {
    let service = ItemService::new(());
    assert_eq!(service.created(Err(StorageError::Connectivity)), Err(StorageError::Connectivity));
    assert_eq!(service.created(Err(StorageError::Statement)), Err(StorageError::Statement));
}

#[test]
fn deleted_is_true_from_one_affected_row_on() {
    let service = ItemService::new(());
    assert_eq!(service.deleted(Ok(0)), Ok(false));
    assert_eq!(service.deleted(Ok(1)), Ok(true));
    assert_eq!(service.deleted(Ok(2)), Ok(true));
    assert_eq!(service.deleted(Ok(u64::MAX)), Ok(true));
}

#[test]
fn deleted_passes_a_storage_error_on() {
    let service = ItemService::new(());
    assert_eq!(service.deleted(Err(StorageError::Connectivity)), Err(StorageError::Connectivity));
    assert_eq!(service.deleted(Err(StorageError::Statement)), Err(StorageError::Statement));
}
