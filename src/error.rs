//! Errors of the download pipeline.

use vstd::prelude::*;

verus! {

/// What can go wrong while fetching, decrypting, scheduling or assembling.
#[derive(Debug)]
pub enum DownloadError {
    /// A retrieval failed: transport failure or a non-success status.
    HttpError(String),
    /// The manifest or a location could not be parsed.
    ParseError(String),
    /// A local file could not be read, written or removed.
    FileError(String),
    /// The decryption key is not 16 bytes long.
    InvalidKeyLength,
    /// The ciphertext length is not a whole number of blocks, or its padding is malformed.
    DecryptionError,
    /// The persisted file of the segment at this position is absent at assembly time.
    MissingSegment(usize),
    /// The external transcoder failed; carries its diagnostic output.
    AssembleError(String),
    /// A segment exhausted its retries: its position, the number of retries
    /// made, and the cause of the last failure.
    SegmentFailed { position: usize, retries: usize, cause: Box<DownloadError> },
    /// A retrieval timed out.
    Timeout,
    /// A whole download task failed.
    TaskError(String),
    /// Anything else.
    Unknown(String),
}

} // verus!
