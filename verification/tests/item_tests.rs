use menu_items::item::{Item, ItemValidationError};
use menu_items::item_factory::{preparation_time_micros, ItemFactory, ItemFactoryImpl};

#[test]
fn should_create_item() {
    let id = uuid::Uuid::new_v4().as_u128();
    let table_id = 1;
    let name = "Pierogi".to_string();
    let preparation_time = chrono::Utc::now().timestamp_micros();

    let item = Item::try_new(id, table_id, name.clone(), preparation_time)
        .expect("Failed to create item");

    assert_eq!(item.id(), id);
    assert_eq!(item.table_id(), table_id);
    assert_eq!(item.name(), &name);
    assert_eq!(item.preparation_time(), preparation_time);
}

#[test]
fn should_not_create_item_with_empty_name() {
    let id = uuid::Uuid::new_v4().as_u128();
    let table_id = 1;
    let name = "".to_string();
    let preparation_time = chrono::Utc::now().timestamp_micros();

    let result = Item::try_new(id, table_id, name, preparation_time);

    assert_eq!(result, Err(ItemValidationError::EmptyName));
}

#[test]
fn should_not_create_item_with_negative_table_id() {
    let id = uuid::Uuid::new_v4().as_u128();
    let table_id = -1;
    let name = "Pierogi".to_string();
    let preparation_time = chrono::Utc::now().timestamp_micros();

    let result = Item::try_new(id, table_id, name, preparation_time);

    assert_eq!(result, Err(ItemValidationError::NegativeTableId));
}

#[test]
fn factory_creates_item_with_given_fields() {
    let factory = ItemFactoryImpl;
    let before = chrono::Utc::now().timestamp_micros();
    let item = factory
        .try_create(3, "Pierogi".to_string())
        .expect("Failed to create item");
    let after = chrono::Utc::now().timestamp_micros();

    assert_eq!(item.table_id(), 3);
    assert_eq!(item.name().as_str(), "Pierogi");
    // the preparation offset is five to fifteen minutes; one microsecond of
    // slack covers the rounding of the clock reading
    assert!(item.preparation_time() >= before + 300_000_000 - 1);
    assert!(item.preparation_time() <= after + 900_000_000 + 1);
}

#[test]
fn factory_rejects_empty_name() {
    let factory = ItemFactoryImpl;
    let result = factory.try_create(3, "".to_string());
    assert_eq!(result, Err(ItemValidationError::EmptyName));
}

#[test]
fn factory_rejects_negative_table_id() {
    let factory = ItemFactoryImpl;
    let result = factory.try_create(-7, "Pierogi".to_string());
    assert_eq!(result, Err(ItemValidationError::NegativeTableId));
}

#[test]
fn preparation_time_is_now_plus_offset() {
    assert_eq!(preparation_time_micros(0, 300), 300_000_000);
    assert_eq!(preparation_time_micros(1_000, 900), 900_001_000);
    assert_eq!(preparation_time_micros(5, 450), 450_000_005);
}

#[test]
fn validation_error_messages() {
    assert_eq!(
        ItemValidationError::EmptyName.message(),
        "Name cannot be empty."
    );
    assert_eq!(
        ItemValidationError::NegativeTableId.message(),
        "Table id cannot be negative."
    );
}
