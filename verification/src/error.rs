//! The failures of the retrieval pipeline.

use vstd::prelude::*;
use crate::text::{decimal, decimal_text};

verus! {

/// What is wrong with an archive.
#[derive(Debug, Clone, Copy, PartialEq, Eq, Structural)]
pub enum ArchiveFault {
    /// The bytes are no readable zip container, or its entry cannot be read.
    CorruptArchive,
    /// The container holds this many entries instead of exactly one.
    UnexpectedEntryCount(usize),
}

/// A failure, with its texts as sequences of characters.
pub enum Failure {
    InvalidUrl,
    NetworkError(Seq<char>),
    HttpStatusError(u16),
    ArchiveFormatError(ArchiveFault),
    EncodingError,
    MalformedCatalogError(Option<usize>),
    IdentifierNotFound(Seq<char>),
}

/// A failure of one stage of the pipeline. Every stage hands the failure of
/// the stage before it on unchanged.
#[derive(Debug, Clone)]
pub enum ErrorKind {
    /// A path could not be joined with the base address.
    InvalidUrl,
    /// The transport failed; the text says how.
    NetworkError(String),
    /// The server answered with this status, which is no success.
    HttpStatusError(u16),
    /// The archive is unreadable or does not hold exactly one entry.
    ArchiveFormatError(ArchiveFault),
    /// Bytes that should be text are not UTF-8.
    EncodingError,
    /// The catalog document is malformed; the number is the index of the
    /// item at fault, where one is known.
    MalformedCatalogError(Option<usize>),
    /// No entry of the catalog has this short identifier.
    IdentifierNotFound(String),
}

impl View for ErrorKind {
    type V = Failure;

    open spec fn view(&self) -> Failure {
        match *self {
            ErrorKind::InvalidUrl => Failure::InvalidUrl,
            ErrorKind::NetworkError(text) => Failure::NetworkError(text@),
            ErrorKind::HttpStatusError(status) => Failure::HttpStatusError(status),
            ErrorKind::ArchiveFormatError(fault) => Failure::ArchiveFormatError(fault),
            ErrorKind::EncodingError => Failure::EncodingError,
            ErrorKind::MalformedCatalogError(index) => Failure::MalformedCatalogError(index),
            ErrorKind::IdentifierNotFound(id) => Failure::IdentifierNotFound(id@),
        }
    }
}

/// A text or a failure, as plain values.
pub open spec fn outcome(r: Result<String, ErrorKind>) -> Result<Seq<char>, Failure> {
    match r {
        Ok(text) => Ok(text@),
        Err(e) => Err(e@),
    }
}

/// What the message for `InvalidUrl` says.
pub const INVALID_URL: &'static str = "invalid address";

/// How the message for `NetworkError` begins.
pub const NETWORK_ERROR: &'static str = "network error: ";

/// How the message for `HttpStatusError` begins.
pub const HTTP_STATUS_ERROR: &'static str = "the server answered with status ";

/// What the message for a corrupt archive says.
pub const CORRUPT_ARCHIVE: &'static str = "corrupt archive";

/// How the message for an archive with a wrong number of entries begins.
pub const ENTRY_COUNT: &'static str = "archive must hold one entry, but holds ";

/// What the message for `EncodingError` says.
pub const ENCODING_ERROR: &'static str = "text is not UTF-8";

/// What the message for a malformed catalog says where no item is known.
pub const MALFORMED_CATALOG: &'static str = "malformed catalog";

/// How the message for a malformed item of the catalog begins.
pub const MALFORMED_ITEM: &'static str = "malformed catalog: item ";

/// How the message for `IdentifierNotFound` begins.
pub const NOT_FOUND: &'static str = "no law with the identifier ";

/// The message for a failure, for a person to read.
pub open spec fn message_of(failure: Failure) -> Seq<char> {
    match failure {
        Failure::InvalidUrl => INVALID_URL@,
        Failure::NetworkError(reason) => NETWORK_ERROR@ + reason,
        Failure::HttpStatusError(status) => HTTP_STATUS_ERROR@ + decimal(status as nat),
        Failure::ArchiveFormatError(ArchiveFault::CorruptArchive) => CORRUPT_ARCHIVE@,
        Failure::ArchiveFormatError(ArchiveFault::UnexpectedEntryCount(count)) => ENTRY_COUNT@
            + decimal(count as nat),
        Failure::EncodingError => ENCODING_ERROR@,
        Failure::MalformedCatalogError(None) => MALFORMED_CATALOG@,
        Failure::MalformedCatalogError(Some(index)) => MALFORMED_ITEM@ + decimal(index as nat),
        Failure::IdentifierNotFound(id) => NOT_FOUND@ + id,
    }
}

/// `head`, then `tail`.
fn joined(head: &str, tail: &str) -> (text: String)
    ensures
        text@ == head@ + tail@,
{
    let mut text = head.to_owned();
    text.append(tail);
    text
}

impl ErrorKind {
    /// The message for this failure, for a person to read.
    pub fn message(&self) -> (text: String)
        ensures
            text@ == message_of(self@),
    {
        match self {
            ErrorKind::InvalidUrl => INVALID_URL.to_owned(),
            ErrorKind::NetworkError(reason) => joined(NETWORK_ERROR, reason.as_str()),
            ErrorKind::HttpStatusError(status) => {
                let number = decimal_text(*status as usize);
                joined(HTTP_STATUS_ERROR, number.as_str())
            },
            ErrorKind::ArchiveFormatError(ArchiveFault::CorruptArchive) => {
                CORRUPT_ARCHIVE.to_owned()
            },
            ErrorKind::ArchiveFormatError(ArchiveFault::UnexpectedEntryCount(count)) => {
                let number = decimal_text(*count);
                joined(ENTRY_COUNT, number.as_str())
            },
            ErrorKind::EncodingError => ENCODING_ERROR.to_owned(),
            ErrorKind::MalformedCatalogError(None) => MALFORMED_CATALOG.to_owned(),
            ErrorKind::MalformedCatalogError(Some(index)) => {
                let number = decimal_text(*index);
                joined(MALFORMED_ITEM, number.as_str())
            },
            ErrorKind::IdentifierNotFound(id) => joined(NOT_FOUND, id.as_str()),
        }
    }
}

impl PartialEq for ErrorKind {
    fn eq(&self, other: &Self) -> (r: bool) {
        match (self, other) {
            (ErrorKind::InvalidUrl, ErrorKind::InvalidUrl) => true,
            (ErrorKind::NetworkError(a), ErrorKind::NetworkError(b)) => *a == *b,
            (ErrorKind::HttpStatusError(a), ErrorKind::HttpStatusError(b)) => *a == *b,
            (ErrorKind::ArchiveFormatError(a), ErrorKind::ArchiveFormatError(b)) => *a == *b,
            (ErrorKind::EncodingError, ErrorKind::EncodingError) => true,
            (ErrorKind::MalformedCatalogError(a), ErrorKind::MalformedCatalogError(b)) => match (a, b) {
                (Some(i), Some(j)) => *i == *j,
                (None, None) => true,
                _ => false,
            },
            (ErrorKind::IdentifierNotFound(a), ErrorKind::IdentifierNotFound(b)) => *a == *b,
            _ => false,
        }
    }
}

impl vstd::std_specs::cmp::PartialEqSpecImpl for ErrorKind {
    open spec fn obeys_eq_spec() -> bool {
        true
    }

    open spec fn eq_spec(&self, other: &Self) -> bool {
        self@ == other@
    }
}

} // verus!
