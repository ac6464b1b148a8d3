use imessage_export::error::AppError;

#[test]
fn database_error_is_reported_under_its_heading() {
    let error = AppError::Table("unable to open database file".to_string());
    assert_eq!(error.message(), "Database error: unable to open database file");
}

#[test]
fn io_error_is_reported_under_its_heading() {
    let error = AppError::Io("No such file or directory (os error 2)".to_string());
    assert_eq!(error.message(), "IO error: No such file or directory (os error 2)");
}

#[test]
fn argument_error_is_reported_under_its_heading() {
    let error = AppError::Args("Invalid date format: x. Expected YYYY-MM-DD".to_string());
    assert_eq!(
        error.message(),
        "Argument error: Invalid date format: x. Expected YYYY-MM-DD"
    );
}

#[test]
fn error_without_detail_keeps_its_heading() {
    assert_eq!(AppError::Table(String::new()).message(), "Database error: ");
    assert_eq!(AppError::Io(String::new()).message(), "IO error: ");
    assert_eq!(AppError::Args(String::new()).message(), "Argument error: ");
}
