//! The message model: one crawl result as the pipeline sees it.

use vstd::prelude::*;
use crate::errors::{ErrorView, IndexerError};
use crate::json::{as_str, as_u64, get, member, string_of, unsigned_of};

verus! {

/// What the crawler recorded about a page besides its text.
#[derive(Debug, PartialEq, Eq)]
pub struct Metadata {
    pub title: String,
    /// The page's description. A message may come without one.
    pub description: Option<String>,
    /// When the page was fetched, in ISO 8601 form.
    pub timestamp: String,
    /// The HTTP status code of the fetch.
    pub status_code: u16,
}

/// One crawl result.
#[derive(Debug, PartialEq, Eq)]
pub struct Message {
    pub url: String,
    pub text: String,
    pub metadata: Metadata,
}

/// The mathematical value of a [`Metadata`].
pub struct MetadataView {
    pub title: Seq<char>,
    pub description: Option<Seq<char>>,
    pub timestamp: Seq<char>,
    pub status_code: u16,
}

/// The mathematical value of a [`Message`].
pub struct MessageView {
    pub url: Seq<char>,
    pub text: Seq<char>,
    pub metadata: MetadataView,
}

impl View for Metadata {
    type V = MetadataView;

    open spec fn view(&self) -> MetadataView {
        MetadataView {
            title: self.title@,
            description: match self.description {
                Some(d) => Some(d@),
                None => None,
            },
            timestamp: self.timestamp@,
            status_code: self.status_code,
        }
    }
}

impl View for Message {
    type V = MessageView;

    open spec fn view(&self) -> MessageView {
        MessageView { url: self.url@, text: self.text@, metadata: self.metadata@ }
    }
}

impl Clone for Metadata {
    fn clone(&self) -> (copy: Self)
        ensures
            copy == *self,
    {
        let description = match &self.description {
            Some(d) => Some(d.clone()),
            None => None,
        };
        Metadata {
            title: self.title.clone(),
            description,
            timestamp: self.timestamp.clone(),
            status_code: self.status_code,
        }
    }
}

impl Clone for Message {
    fn clone(&self) -> (copy: Self)
        ensures
            copy == *self,
    {
        Message { url: self.url.clone(), text: self.text.clone(), metadata: self.metadata.clone() }
    }
}

/// The characters of a string slice that may be missing.
pub open spec fn text_view(text: Option<&str>) -> Option<Seq<char>> {
    match text {
        Some(t) => Some(t@),
        None => None,
    }
}

/// The characters of an optional field: `None` where the field holds
/// something other than a string, `Some(None)` where it is absent.
pub open spec fn optional_text_view(text: Option<Option<&str>>) -> Option<Option<Seq<char>>> {
    match text {
        Some(t) => Some(text_view(t)),
        None => None,
    }
}

/// The view of a value that may be missing.
pub open spec fn option_view<T: View>(value: Option<T>) -> Option<T::V> {
    match value {
        Some(v) => Some(v@),
        None => None,
    }
}

/// The text that a JSON object holds under a key: `None` where the value is
/// no object, has no such key, or holds something other than a string there.
pub open spec fn text_member(value: serde_json::Value, key: Seq<char>) -> Option<Seq<char>> {
    match member(value, key) {
        Some(inner) => string_of(inner),
        None => None,
    }
}

/// The text that a JSON object holds under a key that it may leave out:
/// `Some(None)` where the key is absent, `None` where it is there and holds
/// something other than a string.
pub open spec fn optional_text_member(value: serde_json::Value, key: Seq<char>) -> Option<
    Option<Seq<char>>,
> {
    match member(value, key) {
        Some(inner) => match string_of(inner) {
            Some(text) => Some(Some(text)),
            None => None,
        },
        None => Some(None),
    }
}

/// The unsigned integer that a JSON object holds under a key.
pub open spec fn unsigned_member(value: serde_json::Value, key: Seq<char>) -> Option<u64> {
    match member(value, key) {
        Some(inner) => unsigned_of(inner),
        None => None,
    }
}

/// The metadata that the fields found in a document make up. The title, the
/// timestamp and a status code that fits in 16 bits must be there; the
/// description may be absent, and must be a string where it is present.
pub open spec fn metadata_of_fields(
    title: Option<Seq<char>>,
    description: Option<Option<Seq<char>>>,
    timestamp: Option<Seq<char>>,
    status_code: Option<u64>,
) -> Option<MetadataView> {
    if title is Some && description is Some && timestamp is Some && status_code is Some
        && status_code->0 <= u16::MAX {
        Some(
            MetadataView {
                title: title->0,
                description: description->0,
                timestamp: timestamp->0,
                status_code: status_code->0 as u16,
            },
        )
    } else {
        None
    }
}

/// The message that the fields found in a document make up: all three must
/// be there.
pub open spec fn message_of_fields(
    url: Option<Seq<char>>,
    text: Option<Seq<char>>,
    metadata: Option<MetadataView>,
) -> Option<MessageView> {
    if url is Some && text is Some && metadata is Some {
        Some(MessageView { url: url->0, text: text->0, metadata: metadata->0 })
    } else {
        None
    }
}

/// The metadata that a JSON document holds, if it fits the model.
pub open spec fn decoded_metadata(value: serde_json::Value) -> Option<MetadataView> {
    metadata_of_fields(
        text_member(value, "title"@),
        optional_text_member(value, "description"@),
        text_member(value, "timestamp"@),
        unsigned_member(value, "status_code"@),
    )
}

/// The message that a JSON document holds, if it fits the model. Members
/// that the model does not know are passed over.
pub open spec fn decoded_message(value: serde_json::Value) -> Option<MessageView> {
    message_of_fields(
        text_member(value, "url"@),
        text_member(value, "text"@),
        match member(value, "metadata"@) {
            Some(inner) => decoded_metadata(inner),
            None => None,
        },
    )
}

/// The error with which a document that does not fit the model is turned down.
pub open spec fn mismatch() -> ErrorView {
    ErrorView::ParsingError("Failed to deserialize into Message struct"@)
}

impl Metadata {
    /// Builds the metadata from the fields as they were found in a document.
    pub fn from_fields(
        title: Option<&str>,
        description: Option<Option<&str>>,
        timestamp: Option<&str>,
        status_code: Option<u64>,
    ) -> (metadata: Option<Metadata>)
        ensures
            option_view(metadata) == metadata_of_fields(
                text_view(title),
                optional_text_view(description),
                text_view(timestamp),
                status_code,
            ),
    {
        match (title, description, timestamp, status_code) {
            (Some(title), Some(description), Some(timestamp), Some(status_code)) => {
                if status_code > 65535 {
                    return None;
                }
                let description = match description {
                    Some(d) => Some(d.to_owned()),
                    None => None,
                };
                Some(
                    Metadata {
                        title: title.to_owned(),
                        description,
                        timestamp: timestamp.to_owned(),
                        status_code: status_code as u16,
                    },
                )
            },
            _ => None,
        }
    }

    /// Reads the metadata from a JSON document.
    pub fn from_json(value: &serde_json::Value) -> (metadata: Option<Metadata>)
        ensures
            option_view(metadata) == decoded_metadata(*value),
    {
        Metadata::from_fields(
            text_field(value, "title"),
            optional_text_field(value, "description"),
            text_field(value, "timestamp"),
            unsigned_field(value, "status_code"),
        )
    }
}

impl Message {
    /// Builds the message from the fields as they were found in a document.
    pub fn from_fields(
        url: Option<&str>,
        text: Option<&str>,
        metadata: Option<Metadata>,
    ) -> (message: Option<Message>)
        ensures
            option_view(message) == message_of_fields(
                text_view(url),
                text_view(text),
                option_view(metadata),
            ),
    {
        match (url, text, metadata) {
            (Some(url), Some(text), Some(metadata)) => Some(
                Message { url: url.to_owned(), text: text.to_owned(), metadata },
            ),
            _ => None,
        }
    }

    /// Reads a message from a JSON document. A document that does not fit
    /// the model is turned down as a parsing error.
    pub fn from_json(value: &serde_json::Value) -> (decoded: Result<Message, IndexerError>)
        ensures
            match decoded_message(*value) {
                Some(message) => decoded matches Ok(m) && m@ == message,
                None => decoded matches Err(e) && e@ == mismatch(),
            },
    {
        let metadata = match get(value, "metadata") {
            Some(inner) => Metadata::from_json(inner),
            None => None,
        };
        match Message::from_fields(text_field(value, "url"), text_field(value, "text"), metadata) {
            Some(message) => Ok(message),
            None => Err(
                IndexerError::ParsingError("Failed to deserialize into Message struct".to_owned()),
            ),
        }
    }
}

/// Looks up the string that a JSON object holds under `key`.
pub fn text_field<'a>(value: &'a serde_json::Value, key: &str) -> (text: Option<&'a str>)
    ensures
        text_view(text) == text_member(*value, key@),
{
    match get(value, key) {
        Some(inner) => as_str(inner),
        None => None,
    }
}

/// Looks up the string that a JSON object holds under a `key` that it may
/// leave out.
pub fn optional_text_field<'a>(value: &'a serde_json::Value, key: &str) -> (text: Option<
    Option<&'a str>,
>)
    ensures
        optional_text_view(text) == optional_text_member(*value, key@),
{
    match get(value, key) {
        Some(inner) => match as_str(inner) {
            Some(text) => Some(Some(text)),
            None => None,
        },
        None => Some(None),
    }
}

/// Looks up the unsigned integer that a JSON object holds under `key`.
pub fn unsigned_field(value: &serde_json::Value, key: &str) -> (number: Option<u64>)
    ensures
        number == unsigned_member(*value, key@),
{
    match get(value, key) {
        Some(inner) => as_u64(inner),
        None => None,
    }
}

} // verus!
