use tui_coach::utils::error::{AppError, AppResult};

#[test]
fn test_app_error_not_found_display() {
    let error = AppError::NotFound("user".to_string());
    assert_eq!(error.message(), "Not found: user");
}

#[test]
fn test_app_error_unauthorized_display() {
    let error = AppError::Unauthorized("invalid credentials".to_string());
    assert_eq!(error.message(), "Unauthorized: invalid credentials");
}

#[test]
fn test_app_error_validation_display() {
    let error = AppError::Validation("email format is invalid".to_string());
    assert_eq!(error.message(), "Validation error: email format is invalid");
}

#[test]
fn test_app_error_other_display() {
    let error = AppError::Other("something went wrong".to_string());
    assert_eq!(error.message(), "Error: something went wrong");
}

#[test]
fn test_app_error_database_display() {
    let error = AppError::Database("table is locked".to_string());
    assert_eq!(error.message(), "Database error: table is locked");
}

#[test]
fn test_app_error_io_display() {
    let error = AppError::Io("file not found".to_string());
    assert_eq!(error.message(), "IO error: file not found");
}

#[test]
fn test_app_error_debug_format() {
    let error = AppError::NotFound("resource".to_string());
    let debug_str = format!("{:?}", error);
    assert!(debug_str.contains("NotFound"));
    assert!(debug_str.contains("resource"));
}

#[test]
fn test_result_type_ok() {
    let result: AppResult<i32> = Ok(42);
    assert!(result.is_ok());
    assert_eq!(result.unwrap(), 42);
}

#[test]
fn test_result_type_err() {
    let result: AppResult<i32> = Err(AppError::Validation("test error".to_string()));
    assert!(result.is_err());
}
