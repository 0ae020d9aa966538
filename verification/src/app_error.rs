//! The errors of the program around the services: files, paths, the
//! database, and actions that the interface refuses.

use vstd::prelude::*;

verus! {

/// Why the program refused or failed a request. Each variant names what it
/// concerns; the cause, where there is one, is told as text.
#[derive(Debug, PartialEq, Eq)]
pub enum AppError {
    DatabaseNotFound { path: String },
    InvalidPath { path: String },
    CsvImportFailed { path: String },
    CsvExportFailed { path: String },
    DatabaseError(String),
    IOError(String),
    IllegalAction { action: String },
    Other(String),
}

impl AppError {
    /// The message that the program shows for the error.
    pub fn message(&self) -> (r: String)
        ensures
            r@ == (match self {
                AppError::DatabaseNotFound { .. } => "Database not found"@,
                AppError::InvalidPath { .. } => "Invalid path"@,
                AppError::CsvImportFailed { .. } => "CSV import failed"@,
                AppError::CsvExportFailed { .. } => "CSV export failed"@,
                AppError::DatabaseError(_) => "Database error"@,
                AppError::IOError(_) => "IO error"@,
                AppError::IllegalAction { .. } => "Illegal action"@,
                AppError::Other(_) => "Something went wrong"@,
            }),
    {
        match self {
            AppError::DatabaseNotFound { .. } => String::from_str("Database not found"),
            AppError::InvalidPath { .. } => String::from_str("Invalid path"),
            AppError::CsvImportFailed { .. } => String::from_str("CSV import failed"),
            AppError::CsvExportFailed { .. } => String::from_str("CSV export failed"),
            AppError::DatabaseError(_) => String::from_str("Database error"),
            AppError::IOError(_) => String::from_str("IO error"),
            AppError::IllegalAction { .. } => String::from_str("Illegal action"),
            AppError::Other(_) => String::from_str("Something went wrong"),
        }
    }
}

} // verus!
