//! The failure taxonomy of the export pipeline.
//!
//! Every recoverable failure is an explicit value of [`Failure`], so a caller
//! can tell transport errors from protocol violations without inspecting
//! message text.

use vstd::prelude::*;

verus! {

/// Why an export pipeline run stopped short of success.
#[derive(Debug, Clone)]
pub enum Failure {
    /// The export endpoint could not be reached, or answered with a
    /// non-2xx HTTP status.
    TransportFailure,
    /// The response envelope reported `success: false`; carries the joined
    /// error messages.
    RequestRejected(String),
    /// The job-status body reported `success: false`; carries its error
    /// message, or a generic placeholder when none was given.
    JobRejected(String),
    /// The job reached the terminal `error` status; carries its error
    /// message, or a generic placeholder when none was given.
    JobFailed(String),
    /// The server reported a non-error state but omitted a field the
    /// protocol guarantees, notably the bookmark.
    ProtocolViolation,
    /// The response body does not parse into the expected shape.
    MalformedResponse,
    /// Fetching the signed artifact failed.
    DownloadFailed,
    /// Writing the artifact to the blob sink failed.
    UploadFailed,
}

/// The error message of a job-status body, or the generic placeholder when
/// the body carried none.
pub open spec fn message_or_unknown(error: Option<String>) -> Seq<char> {
    match error {
        Some(m) => m@,
        None => "unknown error"@,
    }
}

} // verus!
