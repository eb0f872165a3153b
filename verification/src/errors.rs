//! The reasons for which a delivery is turned down.

use vstd::prelude::*;

verus! {

/// Why a delivery could not be processed.
#[derive(Debug, PartialEq, Eq)]
pub enum IndexerError {
    /// The payload breaks the schema or a processing rule.
    InvalidMessage(String),
    /// The storage backend reported a failure.
    StorageError(String),
    /// The payload is not UTF-8, not JSON, or does not fit the message model.
    ParsingError(String),
    /// The transport failed.
    ConnectionError(String),
}

/// The mathematical value of an [`IndexerError`]: its class and its detail text.
pub enum ErrorView {
    InvalidMessage(Seq<char>),
    StorageError(Seq<char>),
    ParsingError(Seq<char>),
    ConnectionError(Seq<char>),
}

impl ErrorView {
    /// The detail text that the error carries.
    pub open spec fn detail(self) -> Seq<char> {
        match self {
            ErrorView::InvalidMessage(d) => d,
            ErrorView::StorageError(d) => d,
            ErrorView::ParsingError(d) => d,
            ErrorView::ConnectionError(d) => d,
        }
    }

    /// The words that introduce the detail text when the error is written out.
    pub open spec fn prefix(self) -> Seq<char> {
        match self {
            ErrorView::InvalidMessage(_) => "Invalid message: "@,
            ErrorView::StorageError(_) => "Storage error: "@,
            ErrorView::ParsingError(_) => "ParsingError: "@,
            ErrorView::ConnectionError(_) => "ConnectionError: "@,
        }
    }

    /// The error written out as one line: the prefix of its class, then the detail.
    pub open spec fn text(self) -> Seq<char> {
        self.prefix() + self.detail()
    }
}

impl View for IndexerError {
    type V = ErrorView;

    open spec fn view(&self) -> ErrorView {
        match self {
            IndexerError::InvalidMessage(d) => ErrorView::InvalidMessage(d@),
            IndexerError::StorageError(d) => ErrorView::StorageError(d@),
            IndexerError::ParsingError(d) => ErrorView::ParsingError(d@),
            IndexerError::ConnectionError(d) => ErrorView::ConnectionError(d@),
        }
    }
}

impl IndexerError {
    /// Writes the error out as one line.
    pub fn to_text(&self) -> (text: String)
        ensures
            text@ == self@.text(),
    {
        match self {
            IndexerError::InvalidMessage(d) => "Invalid message: ".to_owned().concat(d.as_str()),
            IndexerError::StorageError(d) => "Storage error: ".to_owned().concat(d.as_str()),
            IndexerError::ParsingError(d) => "ParsingError: ".to_owned().concat(d.as_str()),
            IndexerError::ConnectionError(d) => "ConnectionError: ".to_owned().concat(d.as_str()),
        }
    }

}

impl Clone for IndexerError {
    fn clone(&self) -> (copy: Self)
        ensures
            copy == *self,
    {
        match self {
            IndexerError::InvalidMessage(d) => IndexerError::InvalidMessage(d.clone()),
            IndexerError::StorageError(d) => IndexerError::StorageError(d.clone()),
            IndexerError::ParsingError(d) => IndexerError::ParsingError(d.clone()),
            IndexerError::ConnectionError(d) => IndexerError::ConnectionError(d.clone()),
        }
    }
}

} // verus!
