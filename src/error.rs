//! Errors of extraction and of the download queue.
use vstd::prelude::*;

verus! {

/// Why an extraction failed.
#[derive(Debug, Copy, Clone, PartialEq, Eq, Structural)]
pub enum ExtractorError {
    /// The query has more tags than the site takes.
    TooManyTags { current: usize, max: u64 },
    /// The site has no post for the query.
    ZeroPosts,
    /// The site answered in a shape that is not understood.
    InvalidServerResponse,
    /// The site could not be reached.
    ConnectionError,
    /// The credentials were refused.
    AuthenticationFailure,
}

/// Why the download queue stopped.
#[derive(Debug, Copy, Clone, PartialEq, Eq, Structural)]
pub enum QueueError {
    /// A file could not be read or written.
    IOError,
    /// The destination directory could not be made.
    DirCreationError,
    /// The post list could not be written into the summary.
    SummarySerializeFail,
    /// The summary could not be read back.
    SummaryDeserializeFail,
    /// An entry could not be added to the archive.
    ZipIOError,
    /// The summary of an archive is missing or damaged.
    ZipSummaryReadError,
    /// Nothing is left to download once the queue was filtered.
    NoPostsInQueue,
}

} // verus!
