//! Why one download ends without a file.

use vstd::prelude::*;

verus! {

/// The step of storing a file that failed.
#[derive(Clone, Copy, Debug, PartialEq, Eq, Structural)]
pub enum StoreStep {
    /// Creating the status directory.
    CreateDir,
    /// Creating the temporary file inside the status directory.
    CreateTemp,
    /// Copying the response body into the temporary file.
    Copy,
    /// Renaming the temporary file to the final path.
    Commit,
}

/// Why a single entry was not stored. None of these ends the crawl.
#[derive(Clone, Copy, Debug, PartialEq, Eq, Structural)]
pub enum DownloadError {
    /// The request itself failed.
    Fetch,
    /// The server answered with a status outside `200..=299`.
    Status(u16),
    /// The response carries no content-type header.
    NoContentType,
    /// The content type is neither an accepted binary type nor HTML.
    UnsupportedContentType,
    /// The body of a landing page could not be read as text.
    PageUnreadable,
    /// The selector for anchors was refused by the selector parser.
    Selector,
    /// The landing page holds no anchor with an accepted label.
    NoDownloadButton,
    /// The anchor with an accepted label has no `href`.
    ButtonWithoutUrl,
    /// A landing page led to another landing page.
    TooManyHops,
    /// The response carries no content-disposition header.
    NoContentDisposition,
    /// The content-disposition header does not name an attachment.
    UnsupportedContentDisposition,
    /// Storing the body failed at the given step.
    Store(StoreStep),
}

impl DownloadError {
    /// The error in words: which operation failed.
    pub open spec fn message_of(self) -> Seq<char> {
        match self {
            DownloadError::Fetch => "can't download file"@,
            DownloadError::Status(_) => "failed with status"@,
            DownloadError::NoContentType => "no content-type"@,
            DownloadError::UnsupportedContentType => "unsupported content-type"@,
            DownloadError::PageUnreadable => "can't download download page"@,
            DownloadError::Selector => "can't select anchors"@,
            DownloadError::NoDownloadButton => "can't find download button"@,
            DownloadError::ButtonWithoutUrl => "download button has no URL"@,
            DownloadError::TooManyHops => "download page leads to another download page"@,
            DownloadError::NoContentDisposition => "no content-disposition"@,
            DownloadError::UnsupportedContentDisposition => "unsupported content-disposition"@,
            DownloadError::Store(StoreStep::CreateDir) => "can't create status dir"@,
            DownloadError::Store(StoreStep::CreateTemp) => "can't create tempfile"@,
            DownloadError::Store(StoreStep::Copy) => "can't download to tempfile"@,
            DownloadError::Store(StoreStep::Commit) => "can't persist downloaded file"@,
        }
    }

    /// The error in words. For `Status` the code is not part of the text.
    pub fn message(&self) -> (text: &'static str)
        ensures
            text@ == self.message_of(),
    {
        match self {
            DownloadError::Fetch => "can't download file",
            DownloadError::Status(_) => "failed with status",
            DownloadError::NoContentType => "no content-type",
            DownloadError::UnsupportedContentType => "unsupported content-type",
            DownloadError::PageUnreadable => "can't download download page",
            DownloadError::Selector => "can't select anchors",
            DownloadError::NoDownloadButton => "can't find download button",
            DownloadError::ButtonWithoutUrl => "download button has no URL",
            DownloadError::TooManyHops => "download page leads to another download page",
            DownloadError::NoContentDisposition => "no content-disposition",
            DownloadError::UnsupportedContentDisposition => "unsupported content-disposition",
            DownloadError::Store(StoreStep::CreateDir) => "can't create status dir",
            DownloadError::Store(StoreStep::CreateTemp) => "can't create tempfile",
            DownloadError::Store(StoreStep::Copy) => "can't download to tempfile",
            DownloadError::Store(StoreStep::Commit) => "can't persist downloaded file",
        }
    }
}

} // verus!
