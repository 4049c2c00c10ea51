//! The application's error kinds. Storage and I/O failures arrive as the
//! text the failing layer reported.
use vstd::prelude::*;

use vstd::string::StringExecFns;

verus! {

#[derive(Debug)]
pub enum AppError {
    Database(String),
    Io(String),
    NotFound(String),
    Unauthorized(String),
    Validation(String),
    Other(String),
}

pub type AppResult<T> = core::result::Result<T, AppError>;

impl AppError {
    /// The message shown for the error: its kind's prefix, then the detail.
    pub fn message(&self) -> (r: String)
        ensures
            r@ == (match *self {
                AppError::Database(ref m) => "Database error: "@ + m@,
                AppError::Io(ref m) => "IO error: "@ + m@,
                AppError::NotFound(ref m) => "Not found: "@ + m@,
                AppError::Unauthorized(ref m) => "Unauthorized: "@ + m@,
                AppError::Validation(ref m) => "Validation error: "@ + m@,
                AppError::Other(ref m) => "Error: "@ + m@,
            }),
    {
        let (prefix, detail): (&str, &String) = match self {
            AppError::Database(m) => ("Database error: ", m),
            AppError::Io(m) => ("IO error: ", m),
            AppError::NotFound(m) => ("Not found: ", m),
            AppError::Unauthorized(m) => ("Unauthorized: ", m),
            AppError::Validation(m) => ("Validation error: ", m),
            AppError::Other(m) => ("Error: ", m),
        };
        let mut r = prefix.to_owned();
        r.append(detail.as_str());
        r
    }
}

} // verus!
