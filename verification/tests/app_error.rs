use ansi_term::Colour::Red;
use gitlab_rescue::app_error::AppError;

#[test]
fn test_app_error_from_stdio_error() {
    assert!(matches!(
        AppError::from(std::io::Error::new(std::io::ErrorKind::Other, "Error")),
        AppError::InvalidInput(_)
    ));
}

#[test]
fn test_invalid_input_error_display() {
    assert_eq!(
        AppError::InvalidInput("An error".to_owned()).to_string(),
        format!("{} An error", Red.bold().paint("[InvalidInputError]"))
    );
}

#[test]
fn test_api_error_display() {
    assert_eq!(
        AppError::Api("An error".to_owned()).to_string(),
        format!("{} An error", Red.bold().paint("[ApiError]"))
    );
}

#[test]
fn test_cli_error_display() {
    assert_eq!(
        AppError::Cli("An error".to_owned()).to_string(),
        format!("{} An error", Red.bold().paint("[CliError]"))
    );
}

#[test]
fn error_line_is_the_tag_in_bold_red_then_the_message() {
    assert_eq!(
        AppError::Api("not found".to_owned()).to_string(),
        "\u{1b}[1;31m[ApiError]\u{1b}[0m not found"
    );
    assert_eq!(
        AppError::Cli(String::new()).to_string(),
        "\u{1b}[1;31m[CliError]\u{1b}[0m "
    );
}

#[test]
fn error_from_io_error_keeps_the_text_of_the_io_error() {
    let error = AppError::from(std::io::Error::new(std::io::ErrorKind::Other, "disk is full"));
    assert_eq!(error, AppError::InvalidInput("disk is full".to_owned()));
    assert_eq!(error.message(), "disk is full");
}

#[test]
fn message_is_the_text_without_the_tag() {
    assert_eq!(AppError::InvalidInput("a".to_owned()).message(), "a");
    assert_eq!(AppError::Api("b".to_owned()).message(), "b");
    assert_eq!(AppError::Cli("c".to_owned()).message(), "c");
}

#[test]
fn clone_of_an_error_equals_the_error() {
    let error = AppError::Api("An error".to_owned());
    assert_eq!(error.clone(), error);
    assert_ne!(error.clone(), AppError::Cli("An error".to_owned()));
}
