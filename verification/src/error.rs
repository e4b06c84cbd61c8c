//! Failures of handling one source file, and how each is worded.

use vstd::prelude::*;
use vstd::string::*;
use vstd::utf8::*;

verus! {

/// `text` without leading and trailing white space, as `str::trim` gives it.
pub uninterp spec fn trimmed(text: Seq<char>) -> Seq<char>;

/// The `Debug` rendering of a byte slice, as `core::fmt` writes it.
pub uninterp spec fn debug_bytes(bytes: Seq<u8>) -> Seq<char>;

/// Why a source file could not be handled.
#[derive(Debug, Clone, PartialEq, Eq)]
pub enum AppError {
    /// A path is not valid UTF-8; the path is given where it is known.
    InvalidUTF8(Option<String>),
    /// The filesystem or the child process failed; the text is the
    /// platform's own description.
    Io(String),
    /// The source path has no file stem.
    FailedToRetrieveFileStem,
    /// The source path has no parent directory.
    FailedToRetrieveParentDir,
    /// The renderer exited with a failure; the bytes are what it wrote to
    /// its standard error.
    InkscapeError(Vec<u8>),
}

/// Calls `core::str::from_utf8`. It succeeds exactly on well-formed UTF-8
/// and then yields the characters that the bytes encode.
#[verifier::external_body]
pub(crate) fn decode_text(bytes: &Vec<u8>) -> (text: Option<String>)
    ensures
        text is Some <==> valid_utf8(bytes@),
        text matches Some(t) ==> t@ == decode_utf8(bytes@),
{
    match core::str::from_utf8(bytes.as_slice()) {
        Ok(s) => Some(s.to_string()),
        Err(_) => None,
    }
}

/// Calls `str::trim`. The result is a function of the text alone; nothing
/// more is claimed of it.
#[verifier::external_body]
pub(crate) fn trim(text: &str) -> (inner: String)
    ensures
        inner@ == trimmed(text@),
{
    text.trim().to_string()
}

/// Formats a byte slice with its `Debug` implementation. The result is a
/// function of the bytes alone; nothing more is claimed of it.
#[verifier::external_body]
pub(crate) fn render_bytes(bytes: &Vec<u8>) -> (text: String)
    ensures
        text@ == debug_bytes(bytes@),
{
    format!("{:?}", bytes)
}

/// What the renderer's diagnostic output reads as: the decoded text without
/// surrounding white space where the bytes are UTF-8, the bytes themselves
/// spelled out otherwise.
pub open spec fn diagnostic_text(output: Seq<u8>) -> Seq<char> {
    if valid_utf8(output) {
        "Inkscape error: "@ + trimmed(decode_utf8(output))
    } else {
        "Inkscape error with non-UTF8 output: "@ + debug_bytes(output)
    }
}

/// The wording of each failure.
pub open spec fn message_text(e: AppError) -> Seq<char> {
    match e {
        AppError::InvalidUTF8(Some(path)) => "Invalid UTF-8 sequence in file: "@ + path@,
        AppError::InvalidUTF8(None) => "Invalid UTF-8 sequence in an unknown file"@,
        AppError::Io(cause) => "I/O error: "@ + cause@,
        AppError::FailedToRetrieveFileStem => "Failed to retrieve file stem from path"@,
        AppError::FailedToRetrieveParentDir => "Failed to retrieve parent directory from path"@,
        AppError::InkscapeError(output) => diagnostic_text(output@),
    }
}

/// Words the renderer's diagnostic from what decoding its output gave:
/// `decoded` is the trimmed text where the output was UTF-8, and `raw` is
/// the rendering of the bytes to fall back on.
pub fn diagnostic_message(decoded: Option<String>, raw: &str) -> (msg: String)
    ensures
        msg@ == match decoded {
            Some(t) => "Inkscape error: "@ + t@,
            None => "Inkscape error with non-UTF8 output: "@ + raw@,
        },
{
    match decoded {
        Some(t) => String::from_str("Inkscape error: ").concat(t.as_str()),
        None => String::from_str("Inkscape error with non-UTF8 output: ").concat(raw),
    }
}

impl AppError {
    /// The message that describes this failure to the user.
    pub fn message(&self) -> (msg: String)
        ensures
            msg@ == message_text(*self),
    {
        match self {
            AppError::InvalidUTF8(Some(path)) => {
                String::from_str("Invalid UTF-8 sequence in file: ").concat(path.as_str())
            },
            AppError::InvalidUTF8(None) => {
                String::from_str("Invalid UTF-8 sequence in an unknown file")
            },
            AppError::Io(cause) => String::from_str("I/O error: ").concat(cause.as_str()),
            AppError::FailedToRetrieveFileStem => {
                String::from_str("Failed to retrieve file stem from path")
            },
            AppError::FailedToRetrieveParentDir => {
                String::from_str("Failed to retrieve parent directory from path")
            },
            AppError::InkscapeError(output) => {
                match decode_text(output) {
                    Some(t) => {
                        let inner = trim(t.as_str());
                        diagnostic_message(Some(inner), "")
                    },
                    None => {
                        let raw = render_bytes(output);
                        diagnostic_message(None, raw.as_str())
                    },
                }
            },
        }
    }
}

} // verus!
