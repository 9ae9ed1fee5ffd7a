//! Verified core of a bookmark-driven database-export pipeline.
//!
//! The library decodes the remote API's response envelope, interprets the
//! three-way export status, builds the wire-exact request body and endpoint
//! URL, and drives the poll/download/upload pipeline as a state machine.
//! All network and storage I/O stays outside, handing plain values in and out.

pub mod envelope;
pub mod export;
pub mod failure;
pub mod pipeline;
pub mod request;

pub use envelope::{Envelope, EnvelopeError};
pub use export::{
    advance, poll_outcome, DbExport, DbExportBookmark, DbExportResponse, DbExportResponseResult,
    DbExportStatus, PollProgress,
};
pub use failure::Failure;
pub use pipeline::{db_backup_key, pipeline_start, PipelineEvent, PipelineRun, PipelineState};
pub use request::{export_request_body, export_url};
