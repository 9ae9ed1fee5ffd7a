//! The export pipeline: drive the poller to completion, fetch the signed
//! artifact, and write it to the blob sink under a timestamped key.
//!
//! The pipeline is a state machine. The surrounding program performs the I/O
//! each state calls for — the poll request, the artifact fetch, the blob
//! write — and hands the outcome back as an event; every decision between two
//! I/O steps is made here.

use vstd::prelude::*;
use vstd::string::StringExecFns;

use crate::envelope::Envelope;
use crate::export::{
    poll_failure_matches, step_model, DbExportBookmark, DbExportResponse, PollProgress,
};
use crate::failure::Failure;

verus! {

/// The timestamp chrono renders for this many non-leap milliseconds since the
/// Unix epoch: UTC, second precision, `Z` suffix.
pub uninterp spec fn rfc3339_utc_seconds_of(millis: i64) -> Seq<char>;

/// Relies on chrono's `DateTime::<Utc>::from_timestamp_millis` and
/// `DateTime::to_rfc3339_opts(SecondsFormat::Secs, true)`: the rendered
/// timestamp is a function of the millisecond count alone; the count is
/// rejected only when it lies outside chrono's representable range, which
/// reaches hundreds of millennia past the fourth-digit years named below.
#[verifier::external_body]
fn rfc3339_utc_seconds(millis: i64) -> (r: Option<String>)
    ensures
        r matches Some(s) ==> s@ == rfc3339_utc_seconds_of(millis),
        0 <= millis <= 253_402_300_799_999 ==> r is Some,
{
    chrono::DateTime::<chrono::Utc>::from_timestamp_millis(millis).map(
        |dt| dt.to_rfc3339_opts(chrono::SecondsFormat::Secs, true),
    )
}

/// The storage key of a run whose clock read this many milliseconds since the
/// Unix epoch: the timestamp is embedded in a sortable, human-readable form.
/// `None` only when the count lies outside the calendar's representable
/// range.
pub fn db_backup_key(millis: i64) -> (r: Option<String>)
    ensures
        r matches Some(k) ==> k@ == "db-backup-"@ + rfc3339_utc_seconds_of(millis) + ".sql"@,
        0 <= millis <= 253_402_300_799_999 ==> r is Some,
{
    match rfc3339_utc_seconds(millis) {
        None => None,
        Some(ts) => {
            let mut out = String::from_str("db-backup-");
            out.append(ts.as_str());
            out.append(".sql");
            proof {
                assert(out@ =~= "db-backup-"@ + rfc3339_utc_seconds_of(millis) + ".sql"@);
            }
            Some(out)
        },
    }
}

/// Where a pipeline run stands, and so which I/O step the surrounding program
/// owes it next.
#[derive(Debug)]
pub enum PipelineState {
    /// Poll the export endpoint, submitting this bookmark (none on the first
    /// call of a run).
    Poll { bookmark: Option<DbExportBookmark> },
    /// Fetch the artifact's bytes from this signed URL with a plain GET.
    Fetch { signed_url: String },
    /// Write the fetched bytes to the blob sink under the run's key.
    Store,
    /// The artifact was written under the run's key; nothing is left to do.
    Done,
    /// The run stopped for this reason; nothing more may be written.
    Failed { failure: Failure },
}

/// What the I/O step a state called for came back with.
#[derive(Debug)]
pub enum PipelineEvent {
    /// The poll response, decoded, or the failure that stood in its way.
    Polled(Result<Envelope<DbExportResponse>, Failure>),
    /// Whether the artifact fetch returned the bytes.
    Fetched(bool),
    /// Whether the blob sink accepted the write.
    Stored(bool),
}

/// One export-and-archive run: the storage key it will write under, fixed for
/// the whole run, and where it stands.
#[derive(Debug)]
pub struct PipelineRun {
    pub key: String,
    pub state: PipelineState,
}

/// How a run moves: each state consumes the event of its own I/O step; an
/// event out of order leaves the run where it stands.
pub open spec fn pipeline_transition(
    state: PipelineState,
    event: PipelineEvent,
    next: PipelineState,
) -> bool {
    match (state, event) {
        (PipelineState::Poll { .. }, PipelineEvent::Polled(Err(f))) => next
            == (PipelineState::Failed { failure: f }),
        (PipelineState::Poll { .. }, PipelineEvent::Polled(Ok(envelope))) => match step_model(
            envelope,
        ) {
            Some(PollProgress::Continue(b)) => next == (PipelineState::Poll {
                bookmark: Some(b),
            }),
            Some(PollProgress::Finished(_, url)) => next == (PipelineState::Fetch {
                signed_url: url,
            }),
            None => next matches PipelineState::Failed { failure } && poll_failure_matches(
                envelope,
                failure,
            ),
        },
        (PipelineState::Fetch { .. }, PipelineEvent::Fetched(true)) => next == PipelineState::Store,
        (PipelineState::Fetch { .. }, PipelineEvent::Fetched(false)) => next
            == (PipelineState::Failed { failure: Failure::DownloadFailed }),
        (PipelineState::Store, PipelineEvent::Stored(true)) => next == PipelineState::Done,
        (PipelineState::Store, PipelineEvent::Stored(false)) => next == (PipelineState::Failed {
            failure: Failure::UploadFailed,
        }),
        (s, _) => next == s,
    }
}

/// Non-transactionality: a run whose upload step fails ends failed — it never
/// reaches the state that records the write. Nothing is compensated; the run
/// simply produces no new blob.
pub proof fn lemma_failed_upload_ends_run(state: PipelineState, next: PipelineState)
    requires
        state is Store,
        pipeline_transition(state, PipelineEvent::Stored(false), next),
    ensures
        next == (PipelineState::Failed { failure: Failure::UploadFailed }),
{
}

/// A failed run stays failed: no event moves it to another state, so no
/// further I/O step is ever owed after a failure.
pub proof fn lemma_failed_run_stays_failed(
    state: PipelineState,
    event: PipelineEvent,
    next: PipelineState,
)
    requires
        state is Failed,
        pipeline_transition(state, event, next),
    ensures
        next == state,
{
}

/// Start a run under this storage key. A run carries no state over from any
/// earlier run: its first poll submits no bookmark, so the export starts from
/// scratch.
pub fn pipeline_start(key: String) -> (r: PipelineRun)
    ensures
        r.key == key,
        r.state == (PipelineState::Poll { bookmark: None::<DbExportBookmark> }),
{
    PipelineRun { key, state: PipelineState::Poll { bookmark: None } }
}

impl PipelineRun {
    /// Consume the outcome of the pending I/O step and move to the next
    /// state. The key never changes within a run.
    pub fn step(self, event: PipelineEvent) -> (r: PipelineRun)
        ensures
            r.key == self.key,
            pipeline_transition(self.state, event, r.state),
    {
        let PipelineRun { key, state } = self;
        let next = match (state, event) {
            (PipelineState::Poll { .. }, PipelineEvent::Polled(outcome)) => match outcome {
                Err(f) => PipelineState::Failed { failure: f },
                Ok(envelope) => match crate::export::advance(envelope) {
                    Ok(PollProgress::Continue(b)) => PipelineState::Poll { bookmark: Some(b) },
                    Ok(PollProgress::Finished(_, url)) => PipelineState::Fetch { signed_url: url },
                    Err(f) => PipelineState::Failed { failure: f },
                },
            },
            (PipelineState::Fetch { .. }, PipelineEvent::Fetched(true)) => PipelineState::Store,
            (PipelineState::Fetch { .. }, PipelineEvent::Fetched(false)) => PipelineState::Failed {
                failure: Failure::DownloadFailed,
            },
            (PipelineState::Store, PipelineEvent::Stored(true)) => PipelineState::Done,
            (PipelineState::Store, PipelineEvent::Stored(false)) => PipelineState::Failed {
                failure: Failure::UploadFailed,
            },
            (s, _) => s,
        };
        PipelineRun { key, state: next }
    }
}

} // verus!
