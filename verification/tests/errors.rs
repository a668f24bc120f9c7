use petclinic::domain::owner::owners;
use petclinic::model::app_error::AppError;
use petclinic::model::error_response::fallback_message;
use petclinic::model::error_response::ErrorResponse;
use petclinic::service::owner_service::OwnerService;

#[test]
fn missing_resources_are_not_found() {
    let error = AppError::ResourceNotFound { resource: "owner".to_string(), id: 42 };
    assert_eq!(error.status_code(), 404);
    assert_eq!(error.message(), "Resource not found: owner with id: 42");
}

#[test]
fn id_mismatch_is_a_bad_request() {
    let error = AppError::ResourceIdMismatch {
        resource: "owner".to_string(),
        path_id: 7,
        body_id: 4294967295,
    };
    assert_eq!(error.status_code(), 400);
    assert_eq!(
        error.message(),
        "Resource ID mismatch: owner - Path ID 7 does not match Body ID 4294967295"
    );
}

#[test]
fn database_template_and_serialise_failures_are_server_errors() {
    let error = AppError::DbError("connection refused".to_string());
    assert_eq!(error.status_code(), 500);
    assert_eq!(error.message(), "Database error: connection refused");
    let error = AppError::TemplateError("missing template".to_string());
    assert_eq!(error.status_code(), 500);
    assert_eq!(error.message(), "Template error: missing template");
    let error = AppError::SerializeError("unsupported".to_string());
    assert_eq!(error.status_code(), 500);
    assert_eq!(error.message(), "XML serialize error: unsupported");
}

#[test]
fn ids_are_written_in_decimal() {
    for id in [0u32, 9, 10, 99, 100, 1234567890, u32::MAX] {
        let error = AppError::ResourceNotFound { resource: "pet".to_string(), id };
        assert_eq!(error.message(), format!("Resource not found: pet with id: {}", id));
    }
}

#[test]
fn the_envelope_carries_the_message_and_a_timestamp() {
    let response = ErrorResponse::new("Database error: down".to_string());
    assert_eq!(response.message(), "Database error: down");
    let stamp = response.timestamp();
    assert!(stamp.len() >= 20);
    assert_eq!(&stamp[4..5], "-");
    assert_eq!(&stamp[10..11], "T");
}

#[test]
fn a_failure_without_a_report_is_described_by_its_status_line() {
    assert_eq!(fallback_message(None, "404 Not Found"), "HTTP 404 Not Found");
    assert_eq!(fallback_message(Some("payload too large".to_string()), "413 Payload Too Large"), "payload too large");
}

#[test]
fn an_owner_that_the_query_did_not_find_is_reported_missing() {
    match OwnerService::fetch_owner_by_id(None, 12) {
        Ok(_) => panic!("no owner was found"),
        Err(error) => {
            assert_eq!(error.status_code(), 404);
            assert_eq!(error.message(), "Resource not found: owner with id: 12");
        }
    }
    let owner = owners::Model {
        id: 12,
        first_name: Some("Jean".to_string()),
        last_name: None,
        address: None,
        city: None,
        telephone: None,
    };
    let found = OwnerService::fetch_owner_by_id(Some(owner), 12).ok().unwrap();
    assert_eq!(found.id, 12);
    assert_eq!(found.first_name, Some("Jean".to_string()));
}

#[test]
fn a_join_without_rows_reports_the_owner_missing() {
    match OwnerService::fetch_owner_with_pets_and_types_and_visits_by_owner_id(Vec::new(), 3) {
        Ok(_) => panic!("no row was found"),
        Err(error) => assert_eq!(error.message(), "Resource not found: owner with id: 3"),
    }
}
