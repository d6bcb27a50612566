//! What the engine reads of an HTTP response: the status code and two headers.

use vstd::prelude::*;
use crate::error::DownloadError;
use crate::text::{begins_with, same_text};

verus! {

/// One header of a response.
#[derive(Clone, Debug, PartialEq, Eq)]
pub enum Header {
    /// The response does not carry the header.
    Absent,
    /// The header is there, but its value is not printable ASCII text.
    Opaque,
    /// The header's value.
    Text(String),
}

/// The model of a [`Header`].
pub enum HeaderView {
    Absent,
    Opaque,
    Text(Seq<char>),
}

impl View for Header {
    type V = HeaderView;

    open spec fn view(&self) -> HeaderView {
        match self {
            Header::Absent => HeaderView::Absent,
            Header::Opaque => HeaderView::Opaque,
            Header::Text(value) => HeaderView::Text(value@),
        }
    }
}

/// The head of a response. The body stays with whoever made the request.
#[derive(Clone, Debug, PartialEq, Eq)]
pub struct Response {
    /// The HTTP status code.
    pub status: u16,
    /// The content-type header.
    pub content_type: Header,
    /// The content-disposition header.
    pub content_disposition: Header,
}

/// The model of a [`Response`].
pub struct ResponseView {
    pub status: u16,
    pub content_type: HeaderView,
    pub content_disposition: HeaderView,
}

impl View for Response {
    type V = ResponseView;

    open spec fn view(&self) -> ResponseView {
        ResponseView {
            status: self.status,
            content_type: self.content_type@,
            content_disposition: self.content_disposition@,
        }
    }
}

/// What kind of body a content type announces.
#[derive(Clone, Copy, Debug, PartialEq, Eq, Structural)]
pub enum Kind {
    /// A file to store.
    Binary,
    /// An HTML page that links to the file.
    Landing,
}

/// The success codes are `200..=299`.
pub open spec fn is_success(status: u16) -> bool {
    200 <= status < 300
}

/// The content types that are stored as files; each must match in full.
pub open spec fn is_binary_type(value: Seq<char>) -> bool {
    ||| value == "application/pdf"@
    ||| value == "application/x-zip-compressed"@
    ||| value == "application/x-pdf"@
    ||| value == "application/unknown"@
}

/// The content types that are read as landing pages: all that begin with
/// `text/html`, whatever parameters follow.
pub open spec fn is_html_type(value: Seq<char>) -> bool {
    "text/html"@.is_prefix_of(value)
}

/// The kind that a content-type header announces, or why there is none.
pub open spec fn kind_of(content_type: HeaderView) -> Result<Kind, DownloadError> {
    match content_type {
        HeaderView::Absent => Err(DownloadError::NoContentType),
        HeaderView::Opaque => Err(DownloadError::UnsupportedContentType),
        HeaderView::Text(value) => if is_binary_type(value) {
            Ok(Kind::Binary)
        } else if is_html_type(value) {
            Ok(Kind::Landing)
        } else {
            Err(DownloadError::UnsupportedContentType)
        },
    }
}

/// Whether `status` is a success code.
pub fn success(status: u16) -> (r: bool)
    ensures
        r == is_success(status),
{
    200 <= status && status < 300
}

/// Classifies a response by its content-type header.
pub fn classify(content_type: &Header) -> (r: Result<Kind, DownloadError>)
    ensures
        r == kind_of(content_type@),
{
    match content_type {
        Header::Absent => Err(DownloadError::NoContentType),
        Header::Opaque => Err(DownloadError::UnsupportedContentType),
        Header::Text(value) => {
            let value = value.as_str();
            if same_text(value, "application/pdf") || same_text(
                value,
                "application/x-zip-compressed",
            ) || same_text(value, "application/x-pdf") || same_text(value, "application/unknown") {
                Ok(Kind::Binary)
            } else if begins_with(value, "text/html") {
                Ok(Kind::Landing)
            } else {
                Err(DownloadError::UnsupportedContentType)
            }
        },
    }
}

} // verus!
