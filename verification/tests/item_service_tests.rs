use menu_items::item_factory::ItemFactoryImpl;
use menu_items::item_repository::InMemoryItemRepository;
use menu_items::item_service::{
    ApplicationError, CreateItemModel, CreateItemsCommand, ItemServiceImpl,
};

fn new_service() -> ItemServiceImpl<InMemoryItemRepository, ItemFactoryImpl> {
    ItemServiceImpl::new(InMemoryItemRepository::new(), ItemFactoryImpl)
}

fn command_of(names: &[&str]) -> CreateItemsCommand {
    CreateItemsCommand {
        items: names
            .iter()
            .map(|name| CreateItemModel { name: name.to_string() })
            .collect(),
    }
}

#[test]
fn item_service_tests_should_delete_item() {
    let mut service = new_service();
    let created = service
        .create_items(1, command_of(&["name"]))
        .expect("Failed to create item");

    service
        .delete_item(1, created[0].id)
        .expect("Failed to delete item");

    let remaining = service.get_items(1).expect("Failed to get items");
    assert!(remaining.is_empty());
}

#[test]
fn item_service_tests_should_get_item() {
    let mut service = new_service();
    let created = service
        .create_items(1, command_of(&["name"]))
        .expect("Failed to create item");

    let item = service.get_item(1, created[0].id).expect("Failed to get item");

    assert_eq!(item.id, created[0].id);
    assert_eq!(item.table_id, 1);
    assert_eq!(item.name, "name");
    assert_eq!(item.preparation_time, created[0].preparation_time);
}

#[test]
fn should_get_resource_not_found_on_missing_item() {
    let mut service = new_service();
    service
        .create_items(1, command_of(&["name"]))
        .expect("Failed to create item");

    let result = service.get_item(1, 424242);

    assert_eq!(
        result.expect_err("Get item did not fail"),
        ApplicationError::ResourceNotFound
    );
}

#[test]
fn lookup_is_scoped_by_table_as_well() {
    let mut service = new_service();
    let created = service
        .create_items(1, command_of(&["name"]))
        .expect("Failed to create item");

    let result = service.get_item(2, created[0].id);

    assert_eq!(
        result.expect_err("Get item did not fail"),
        ApplicationError::ResourceNotFound
    );
}

#[test]
fn should_get_multiple_items() {
    let mut service = new_service();
    let created = service
        .create_items(1, command_of(&["first", "second"]))
        .expect("Failed to create item");

    let items = service.get_items(1).expect("Failed to get items");

    assert_eq!(items.len(), 2);
    assert_eq!(items[0].id, created[0].id);
    assert_eq!(items[0].table_id, 1);
    assert_eq!(items[0].name, "first");
    assert_eq!(items[0].preparation_time, created[0].preparation_time);
    assert_eq!(items[1].id, created[1].id);
    assert_eq!(items[1].table_id, 1);
    assert_eq!(items[1].name, "second");
    assert_eq!(items[1].preparation_time, created[1].preparation_time);
}

#[test]
fn should_get_single_items() {
    let mut service = new_service();
    let created = service
        .create_items(1, command_of(&["name"]))
        .expect("Failed to create item");

    let items = service.get_items(1).expect("Failed to get items");

    assert_eq!(items.len(), 1);
    assert_eq!(items[0].id, created[0].id);
    assert_eq!(items[0].table_id, 1);
    assert_eq!(items[0].name, "name");
    assert_eq!(items[0].preparation_time, created[0].preparation_time);
}

#[test]
fn should_get_empty_list_on_missing_items() {
    let service = new_service();

    let items = service.get_items(9).expect("Failed to get items");

    assert!(items.is_empty());
}

#[test]
fn should_create_single_item() {
    let mut service = new_service();

    let created = service
        .create_items(1, command_of(&["name"]))
        .expect("Failed to save items");

    assert_eq!(created.len(), 1);
    assert_eq!(created[0].table_id, 1);
    assert_eq!(created[0].name, "name");
    let listed = service.get_items(1).expect("Failed to get items");
    assert_eq!(listed.len(), 1);
    assert_eq!(listed[0].id, created[0].id);
}

#[test]
fn should_save_multiple_items() {
    let mut service = new_service();
    let before = chrono::Utc::now().timestamp_micros();

    let created = service
        .create_items(1, command_of(&["Pierogi", "Schabowy"]))
        .expect("Failed to save items");
    let after = chrono::Utc::now().timestamp_micros();

    assert_eq!(created.len(), 2);
    assert_eq!(created[0].table_id, 1);
    assert_eq!(created[0].name, "Pierogi");
    assert_eq!(created[1].table_id, 1);
    assert_eq!(created[1].name, "Schabowy");
    assert_ne!(created[0].id, created[1].id);
    for model in &created {
        assert!(model.preparation_time >= before + 300_000_000 - 1);
        assert!(model.preparation_time <= after + 900_000_000 + 1);
    }
    let listed = service.get_items(1).expect("Failed to get items");
    assert_eq!(listed.len(), 2);
    assert_eq!(listed[0].id, created[0].id);
    assert_eq!(listed[1].id, created[1].id);
}

#[test]
fn should_handle_validation_error() {
    let mut service = new_service();

    let result = service.create_items(1, command_of(&[]));

    assert_eq!(
        result.expect_err("Validation did not fail"),
        ApplicationError::ValidationError("Items list is empty.".to_string())
    );
    // nothing was persisted
    assert!(service.get_items(1).expect("Failed to get items").is_empty());
}

#[test]
fn should_handle_factory_error() {
    let mut service = new_service();

    let result = service.create_items(-1, command_of(&["name"]));

    assert_eq!(
        result.expect_err("Factory did not fail"),
        ApplicationError::ValidationError("Table id cannot be negative.".to_string())
    );
}

#[test]
fn first_failing_entry_rejects_whole_batch() {
    let mut service = new_service();

    let result = service.create_items(1, command_of(&["Pierogi", ""]));

    assert_eq!(
        result.expect_err("Validation did not fail"),
        ApplicationError::ValidationError("Name cannot be empty.".to_string())
    );
    // fail-fast: the valid entry was not persisted either
    assert!(service.get_items(1).expect("Failed to get items").is_empty());
}
