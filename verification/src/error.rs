//! The errors of the service, the HTTP reply each one turns into, and the
//! text each one is shown as.
use vstd::prelude::*;
use crate::text::{Utf8Failure, decimal, debug_bytes, lossy_text, push_decimal, push_debug_bytes, utf8_lossy};

verus! {

/// A failed file-system operation: whether it failed because the file does
/// not exist, and the operating system's description of the failure.
#[derive(Clone, Debug, PartialEq, Eq)]
pub struct IoFailure {
    pub not_found: bool,
    pub message: String,
}

/// A failed read of multipart form data: the HTTP status it calls for (as a
/// number and as its status line, e.g. `413 Payload Too Large`) and its
/// description.
#[derive(Clone, Debug, PartialEq, Eq)]
pub struct MultipartFailure {
    pub status: u16,
    pub status_text: String,
    pub message: String,
}

#[derive(Clone, Debug, PartialEq, Eq)]
pub enum PasteError {
    IOError(IoFailure),
    XattrNotFound(&'static str),
    ParseError(Vec<u8>),
    StrParseError(Utf8Failure),
    MagicError(String),
    PasteIdFromPath(Vec<u8>),
    MultipartError(MultipartFailure),
    Unauthorized,
    NoContent,
    NotFound,
    Time,
}

/// The HTTP reply to a failed request: status code and body.
#[derive(Clone, Debug, PartialEq, Eq)]
pub struct ErrorResponse {
    pub status: u16,
    pub body: String,
}

/// How a UTF-8 failure is described.
pub open spec fn utf8_failure_text(e: Utf8Failure) -> Seq<char> {
    match e.error_len {
        Some(n) => "invalid utf-8 sequence of "@ + decimal(n as nat) + " bytes from index "@
            + decimal(e.valid_up_to as nat),
        None => "incomplete utf-8 byte sequence from index "@ + decimal(e.valid_up_to as nat),
    }
}

/// The text of each error.
pub open spec fn error_message(e: PasteError) -> Seq<char> {
    match e {
        PasteError::IOError(io) => "io error: "@ + io.message@,
        PasteError::XattrNotFound(name) => "xattr field not found: "@ + name@,
        PasteError::ParseError(bytes) => "failed to parse: "@ + debug_bytes(bytes@),
        PasteError::StrParseError(u) => "failed to parse: "@ + utf8_failure_text(u),
        PasteError::MagicError(m) => "failed to guess mime type: "@ + m@,
        PasteError::PasteIdFromPath(p) => "failed to parse PasteId from path: "@ + lossy_text(p@),
        PasteError::MultipartError(m) => "failed to read multipart data: "@ + m.message@,
        PasteError::Unauthorized => "Unauthorized to operate on this paste"@,
        PasteError::NoContent => "paste did not contain any content"@,
        PasteError::NotFound => "NOT FOUND"@,
        PasteError::Time => "time did not work"@,
    }
}

/// The status code of the reply to each error.
pub open spec fn error_status(e: PasteError) -> u16 {
    match e {
        PasteError::MultipartError(m) => m.status,
        PasteError::NotFound => 404,
        PasteError::Unauthorized => 401,
        PasteError::NoContent => 400,
        PasteError::IOError(io) => if io.not_found {
            404
        } else {
            500
        },
        _ => 500,
    }
}

/// The body of the reply to each error: the status line for multipart
/// failures, the message for the errors a client can act on, `NOT FOUND`
/// for a missing file, and nothing otherwise.
pub open spec fn error_body(e: PasteError) -> Seq<char> {
    match e {
        PasteError::MultipartError(m) => m.status_text@,
        PasteError::NotFound => error_message(e),
        PasteError::Unauthorized => error_message(e),
        PasteError::NoContent => error_message(e),
        PasteError::IOError(io) => if io.not_found {
            "NOT FOUND\n"@
        } else {
            Seq::empty()
        },
        _ => Seq::empty(),
    }
}

impl PasteError {
    /// The text of the error (see `error_message`).
    pub fn message(&self) -> (r: String)
        ensures
            r@ == error_message(*self),
    {
        let mut r = String::new();
        match self {
            PasteError::IOError(io) => {
                r.append("io error: ");
                r.append(io.message.as_str());
            },
            PasteError::XattrNotFound(name) => {
                r.append("xattr field not found: ");
                r.append(name);
            },
            PasteError::ParseError(bytes) => {
                r.append("failed to parse: ");
                push_debug_bytes(&mut r, bytes.as_slice());
            },
            PasteError::StrParseError(u) => {
                r.append("failed to parse: ");
                match u.error_len {
                    Some(n) => {
                        r.append("invalid utf-8 sequence of ");
                        push_decimal(&mut r, n as u64);
                        r.append(" bytes from index ");
                        push_decimal(&mut r, u.valid_up_to as u64);
                    },
                    None => {
                        r.append("incomplete utf-8 byte sequence from index ");
                        push_decimal(&mut r, u.valid_up_to as u64);
                    },
                }
            },
            PasteError::MagicError(m) => {
                r.append("failed to guess mime type: ");
                r.append(m.as_str());
            },
            PasteError::PasteIdFromPath(p) => {
                r.append("failed to parse PasteId from path: ");
                let shown = utf8_lossy(p.as_slice());
                r.append(shown.as_str());
            },
            PasteError::MultipartError(m) => {
                r.append("failed to read multipart data: ");
                r.append(m.message.as_str());
            },
            PasteError::Unauthorized => {
                r.append("Unauthorized to operate on this paste");
            },
            PasteError::NoContent => {
                r.append("paste did not contain any content");
            },
            PasteError::NotFound => {
                r.append("NOT FOUND");
            },
            PasteError::Time => {
                r.append("time did not work");
            },
        }
        r
    }

    /// The HTTP reply to the error (see `error_status` and `error_body`).
    pub fn response(&self) -> (r: ErrorResponse)
        ensures
            r.status == error_status(*self),
            r.body@ == error_body(*self),
    {
        match self {
            PasteError::MultipartError(m) => ErrorResponse { status: m.status, body: m.status_text.clone() },
            PasteError::NotFound => ErrorResponse { status: 404, body: self.message() },
            PasteError::Unauthorized => ErrorResponse { status: 401, body: self.message() },
            PasteError::NoContent => ErrorResponse { status: 400, body: self.message() },
            PasteError::IOError(io) => {
                if io.not_found {
                    ErrorResponse { status: 404, body: String::from_str("NOT FOUND\n") }
                } else {
                    ErrorResponse { status: 500, body: String::new() }
                }
            },
            _ => ErrorResponse { status: 500, body: String::new() },
        }
    }
}

} // verus!
