use error_traits::log_err::{failure_message, record_text};
use error_traits::LogErr;

#[test]
fn failure_message_is_prefix_then_text() {
    assert_eq!(failure_message("some_log_prefix: ", "invalid digit"), "some_log_prefix: invalid digit");
    assert_eq!(failure_message("", "x"), "x");
    assert_eq!(failure_message("x", ""), "x");
    assert_eq!(failure_message("", ""), "");
    assert_eq!(failure_message("é: ", "ß"), "é: ß");
}

#[test]
fn log_err_without_logger_returns_input() {
    let failed: Result<u8, String> = Err("dropped".to_owned());
    assert_eq!(failed.clone().log_err("nobody listens: "), failed);
    let fine: Result<u8, String> = Ok(1);
    assert_eq!(fine.log_err("nobody listens: "), Ok(1));
}

#[test]
fn record_text_is_none_for_success() {
    let fine: Result<u8, String> = Ok(1);
    assert_eq!(record_text(&fine, "prefix: ", true), None);
    assert_eq!(record_text(&fine, "prefix: ", false), None);
}

#[test]
fn record_text_is_none_where_errors_are_not_admitted() {
    let failed: Result<u8, String> = Err("down".to_owned());
    assert_eq!(record_text(&failed, "prefix: ", false), None);
}

#[test]
fn record_text_is_prefix_then_rendered_failure() {
    let failed: Result<u8, String> = Err("down".to_owned());
    assert_eq!(record_text(&failed, "prefix: ", true), Some("prefix: down".to_owned()));
    let parsed = "foo".parse::<u16>();
    assert_eq!(
        record_text(&parsed, "some_log_prefix: error ", true),
        Some("some_log_prefix: error invalid digit found in string".to_owned())
    );
    let number: Result<(), i32> = Err(-4);
    assert_eq!(record_text(&number, "", true), Some("-4".to_owned()));
}
