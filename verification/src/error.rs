//! The ways in which saving or loading fails.

use crate::text::concat;
use vstd::prelude::*;

verus! {

/// Why an operation of the store failed. Every failure ends the operation in
/// which it occurs; nothing is retried.
#[derive(Clone, Debug, PartialEq, Eq)]
pub enum StoreError {
    /// The host could not name an application data directory.
    PathResolution,
    /// The data directory could not be created; holds the host's report.
    DirectoryCreation(String),
    /// The records could not be written as text; holds the encoder's report.
    Serialization(String),
    /// The file could not be written; holds the host's report.
    Write(String),
    /// The file exists but could not be read; holds the host's report.
    Read(String),
    /// The file's text is not an encoded collection; holds what is wrong.
    Deserialization(String),
}

/// A failure as mathematical values.
pub enum StoreErrorView {
    PathResolution,
    DirectoryCreation(Seq<char>),
    Serialization(Seq<char>),
    Write(Seq<char>),
    Read(Seq<char>),
    Deserialization(Seq<char>),
}

impl View for StoreError {
    type V = StoreErrorView;

    open spec fn view(&self) -> StoreErrorView {
        match self {
            StoreError::PathResolution => StoreErrorView::PathResolution,
            StoreError::DirectoryCreation(detail) => StoreErrorView::DirectoryCreation(detail@),
            StoreError::Serialization(detail) => StoreErrorView::Serialization(detail@),
            StoreError::Write(detail) => StoreErrorView::Write(detail@),
            StoreError::Read(detail) => StoreErrorView::Read(detail@),
            StoreError::Deserialization(detail) => StoreErrorView::Deserialization(detail@),
        }
    }
}

/// The text shown to the caller for a failure: what was being done, a colon,
/// and the underlying report.
pub open spec fn message_of(error: StoreErrorView) -> Seq<char> {
    match error {
        StoreErrorView::PathResolution => "Failed to get data file path: "@
            + "Failed to get app data directory"@,
        StoreErrorView::DirectoryCreation(detail) => "Failed to get data file path: "@ + detail,
        StoreErrorView::Serialization(detail) => "Failed to serialize transactions: "@ + detail,
        StoreErrorView::Write(detail) => "Failed to write transactions file: "@ + detail,
        StoreErrorView::Read(detail) => "Failed to read transactions file: "@ + detail,
        StoreErrorView::Deserialization(detail) => "Failed to parse transactions: "@ + detail,
    }
}

impl StoreError {
    /// The human-readable message for this failure.
    pub fn message(&self) -> (text: String)
        ensures
            text@ == message_of(self@),
    {
        match self {
            StoreError::PathResolution => concat(
                "Failed to get data file path: ",
                "Failed to get app data directory",
            ),
            StoreError::DirectoryCreation(detail) => concat(
                "Failed to get data file path: ",
                detail.as_str(),
            ),
            StoreError::Serialization(detail) => concat(
                "Failed to serialize transactions: ",
                detail.as_str(),
            ),
            StoreError::Write(detail) => concat(
                "Failed to write transactions file: ",
                detail.as_str(),
            ),
            StoreError::Read(detail) => concat("Failed to read transactions file: ", detail.as_str()),
            StoreError::Deserialization(detail) => concat(
                "Failed to parse transactions: ",
                detail.as_str(),
            ),
        }
    }
}

} // verus!
