use menu_items::errors::{ErrorResponse, ServerError};
use menu_items::item_service::ApplicationError;
use menu_items::response::{CreateItemsResponse, ItemSummary, ListItemsResponse};
use menu_items::item_service::ItemModel;

#[test]
fn status_codes_per_error_class() {
    assert_eq!(ServerError::InternalServerError.status_code(), 500);
    assert_eq!(
        ServerError::UnprocessableEntity("x".to_string()).status_code(),
        422
    );
    assert_eq!(ServerError::BadRequest("x".to_string()).status_code(), 400);
    assert_eq!(ServerError::NotFound.status_code(), 404);
}

#[test]
fn response_bodies_per_error_class() {
    assert_eq!(
        ServerError::InternalServerError.response_body().message,
        "Internal server"
    );
    assert_eq!(
        ServerError::UnprocessableEntity("bad body".to_string())
            .response_body()
            .message,
        "bad body"
    );
    assert_eq!(
        ServerError::BadRequest("bad request".to_string())
            .response_body()
            .message,
        "bad request"
    );
    assert_eq!(
        ServerError::NotFound.response_body().message,
        "Resource not found"
    );
}

#[test]
fn validation_error_maps_to_bad_request() {
    let error = ServerError::of_application_error(ApplicationError::ValidationError(
        "Name cannot be empty.".to_string(),
    ));

    assert_eq!(error.status_code(), 400);
    assert_eq!(error.response_body().message, "Name cannot be empty.");
}

#[test]
fn resource_not_found_maps_to_not_found() {
    let error = ServerError::of_application_error(ApplicationError::ResourceNotFound);

    assert_eq!(error.status_code(), 404);
}

#[test]
fn internal_error_maps_to_internal_server_error() {
    let error = ServerError::of_application_error(ApplicationError::InternalError);

    assert_eq!(error.status_code(), 500);
    // internal detail is never echoed back
    assert_eq!(error.response_body().message, "Internal server");
}

#[test]
fn default_error_response_is_empty() {
    assert_eq!(ErrorResponse::default().message, "");
}

#[test]
fn response_wrappers_keep_items_in_order() {
    let models = vec![
        ItemModel {
            id: 1,
            table_id: 1,
            name: "Pierogi".to_string(),
            preparation_time: 10,
        },
        ItemModel {
            id: 2,
            table_id: 1,
            name: "Schabowy".to_string(),
            preparation_time: 20,
        },
    ];

    let created = CreateItemsResponse::of_models(models);
    assert_eq!(created.items.len(), 2);
    assert_eq!(created.items[0].name, "Pierogi");
    assert_eq!(created.items[1].name, "Schabowy");

    let listed = ListItemsResponse::of_models(created.items);
    assert_eq!(listed.items.len(), 2);
    assert_eq!(listed.items[0].id, 1);
    assert_eq!(listed.items[1].id, 2);
}

#[test]
fn item_summary_holds_identifier_text_and_name() {
    let summary = ItemSummary {
        id: "01935dfe-97cf-73b2-be4c-15b3acfc607e".to_string(),
        name: "Pierogi".to_string(),
    };

    assert_eq!(summary.id, "01935dfe-97cf-73b2-be4c-15b3acfc607e");
    assert_eq!(summary.name, "Pierogi");
}
