use vstd::prelude::*;

verus! {

/// The kinds of failure a report request can end in.
#[derive(Clone, Copy, Debug, PartialEq, Eq, Structural)]
pub enum ErrorKind {
    /// The date argument is not a `YYYY-MM-DD` calendar date.
    InvalidDate,
    /// The store could not be opened.
    StorageUnavailable,
    /// A query, a row decoding or a stored timestamp failed.
    QueryError,
}

/// A failure with its kind, a short message and an optional detail text.
#[derive(Debug)]
pub struct DiaryError {
    pub kind: ErrorKind,
    pub message: String,
    pub detail: Option<String>,
}

/// The numeric code reported for a kind of failure.
pub open spec fn code_of(kind: ErrorKind) -> int {
    match kind {
        ErrorKind::InvalidDate => -32602,
        _ => -32603,
    }
}

impl DiaryError {
    /// Numeric code of the error: invalid argument, or internal failure.
    pub fn code(&self) -> (r: i32)
        ensures
            r == code_of(self.kind),
    {
        match self.kind {
            ErrorKind::InvalidDate => -32602,
            _ => -32603,
        }
    }

    /// The error for a date argument that is not a calendar date.
    pub fn invalid_date() -> (r: DiaryError)
        ensures
            r.kind == ErrorKind::InvalidDate,
            r.message@ == "Invalid date format"@,
            r.detail matches Some(d) && d@ == "Date must be in YYYY-MM-DD format"@,
    {
        DiaryError {
            kind: ErrorKind::InvalidDate,
            message: "Invalid date format".to_owned(),
            detail: Some("Date must be in YYYY-MM-DD format".to_owned()),
        }
    }

    /// An error of the given kind with a message and a detail text.
    pub fn with_detail(kind: ErrorKind, message: &str, detail: String) -> (r: DiaryError)
        ensures
            r.kind == kind,
            r.message@ == message@,
            r.detail == Some(detail),
    {
        DiaryError { kind, message: message.to_owned(), detail: Some(detail) }
    }
}

} // verus!
