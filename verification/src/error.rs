//! Error taxonomy of the library: authorization failures, missing
//! items, a library that is not yet loaded, and wrapped storage or
//! network failures.

use vstd::prelude::*;
use vstd::string::StringExecFns;

verus! {

/// Everything that can go wrong inside the core.
#[derive(Debug)]
pub enum AppError {
    /// Bad or missing token, or PIN mismatch. Deliberately uniform: the
    /// cause (missing header, malformed header, unknown token) is not
    /// distinguished.
    Unauthorized,
    /// A known kind of thing (item, cover, format file) is absent.
    NotFound,
    /// The library path has not been set yet.
    Unavailable,
    /// The named library directory has no catalog database.
    LibraryNotFound(String),
    /// A failure reported by the catalog or ledger storage.
    Database(String),
    /// A filesystem or network failure.
    Io(String),
    /// A failure with no better classification.
    Unknown(String),
    /// A failure reported by a collaborator as plain text.
    Other(String),
}

impl AppError {
    /// Short human-readable description, used as an HTTP body.
    pub fn message(&self) -> (r: String)
        ensures
            (self matches AppError::Unauthorized) ==> r@ == "Unauthorized"@,
            (self matches AppError::NotFound) ==> r@ == "Not found"@,
            (self matches AppError::Unavailable) ==> r@ == "Library path not set"@,
            self matches AppError::LibraryNotFound(p) ==> r@ == "Library not found: "@ + p@,
            self matches AppError::Database(p) ==> r@ == "Database error: "@ + p@,
            self matches AppError::Io(p) ==> r@ == "IO error: "@ + p@,
            self matches AppError::Unknown(p) ==> r@ == "Unknown error: "@ + p@,
            self matches AppError::Other(p) ==> r@ == "Other error: "@ + p@,
    {
        match self {
            AppError::Unauthorized => "Unauthorized".to_owned(),
            AppError::NotFound => "Not found".to_owned(),
            AppError::Unavailable => "Library path not set".to_owned(),
            AppError::LibraryNotFound(p) => {
                let mut m = "Library not found: ".to_owned();
                m.append(p.as_str());
                m
            },
            AppError::Database(p) => {
                let mut m = "Database error: ".to_owned();
                m.append(p.as_str());
                m
            },
            AppError::Io(p) => {
                let mut m = "IO error: ".to_owned();
                m.append(p.as_str());
                m
            },
            AppError::Unknown(p) => {
                let mut m = "Unknown error: ".to_owned();
                m.append(p.as_str());
                m
            },
            AppError::Other(p) => {
                let mut m = "Other error: ".to_owned();
                m.append(p.as_str());
                m
            },
        }
    }
}

impl From<String> for AppError {
    /// Plain text becomes an unclassified failure.
    fn from(s: String) -> (r: AppError) {
        AppError::Unknown(s)
    }
}

impl vstd::std_specs::convert::FromSpecImpl<String> for AppError {
    open spec fn obeys_from_spec() -> bool {
        true
    }

    open spec fn from_spec(s: String) -> AppError {
        AppError::Unknown(s)
    }
}

} // verus!
