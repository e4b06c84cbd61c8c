use svgwatch::error::{diagnostic_message, AppError};
use svgwatch::which::WhichError;

#[test]
fn invalid_utf8_names_the_file() {
    let e = AppError::InvalidUTF8(Some("dir/a.svg".to_string()));
    assert_eq!(e.message(), "Invalid UTF-8 sequence in file: dir/a.svg");
}

#[test]
fn invalid_utf8_without_a_file() {
    assert_eq!(
        AppError::InvalidUTF8(None).message(),
        "Invalid UTF-8 sequence in an unknown file"
    );
}

#[test]
fn io_failure_carries_its_cause() {
    assert_eq!(
        AppError::Io("permission denied".to_string()).message(),
        "I/O error: permission denied"
    );
}

#[test]
fn stem_and_parent_failures_are_worded_apart() {
    assert_eq!(
        AppError::FailedToRetrieveFileStem.message(),
        "Failed to retrieve file stem from path"
    );
    assert_eq!(
        AppError::FailedToRetrieveParentDir.message(),
        "Failed to retrieve parent directory from path"
    );
}

#[test]
fn renderer_text_is_decoded_and_trimmed() {
    let e = AppError::InkscapeError(b"  cannot open file\n".to_vec());
    assert_eq!(e.message(), "Inkscape error: cannot open file");
}

#[test]
fn renderer_text_may_be_empty() {
    assert_eq!(AppError::InkscapeError(Vec::new()).message(), "Inkscape error: ");
}

#[test]
fn renderer_text_keeps_unicode() {
    let e = AppError::InkscapeError("fehler: gr\u{fc}n\n".as_bytes().to_vec());
    assert_eq!(e.message(), "Inkscape error: fehler: gr\u{fc}n");
}

#[test]
fn renderer_bytes_are_spelled_out_when_not_utf8() {
    let e = AppError::InkscapeError(vec![255, 254, 10]);
    assert_eq!(e.message(), "Inkscape error with non-UTF8 output: [255, 254, 10]");
}

#[test]
fn diagnostic_is_worded_from_its_parts() {
    assert_eq!(diagnostic_message(Some("boom".to_string()), "ignored"), "Inkscape error: boom");
    assert_eq!(
        diagnostic_message(None, "[1, 2]"),
        "Inkscape error with non-UTF8 output: [1, 2]"
    );
}

#[test]
fn environment_failure_is_worded() {
    let e = WhichError::VarError("environment variable not found".to_string());
    assert_eq!(e.message(), "Environment variable error: environment variable not found");
}
