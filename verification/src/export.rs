//! The export poller: interpretation of the job-status body that the export
//! endpoint returns, and the bookmark-driven driving loop's decision rule.

use vstd::prelude::*;
use vstd::string::StringExecFns;

use crate::envelope::{joined_messages, messages_of, Envelope};
use crate::failure::{message_or_unknown, Failure};

verus! {

/// The server-issued opaque resumption token. Immutable once received; it is
/// carried forward into the next poll request.
#[derive(Debug, Clone)]
pub struct DbExportBookmark(pub String);

impl DbExportBookmark {
    /// The token's text, the form the bookmark shows itself in.
    pub fn as_text(&self) -> (r: &str)
        ensures
            r@ == self.0@,
    {
        self.0.as_str()
    }
}

/// The three-way status of an export job. A missing status field is treated
/// like `Active` (non-terminal).
#[derive(Debug, Clone, Copy, PartialEq, Eq, Structural)]
pub enum DbExportStatus {
    Complete,
    Active,
    Error,
}

/// The payload of a completed export: a time-limited signed download URL.
#[derive(Debug, Clone)]
pub struct DbExportResponseResult {
    pub signed_url: String,
}

/// The job-status body nested inside the response envelope.
#[derive(Debug)]
pub struct DbExportResponse {
    pub success: bool,
    pub status: Option<DbExportStatus>,
    pub error: Option<String>,
    pub at_bookmark: Option<DbExportBookmark>,
    pub result: Option<DbExportResponseResult>,
}

/// The poller's per-call outcome: the new bookmark, always present on a
/// successful call, and the signed URL on the call that observes completion.
#[derive(Debug)]
pub struct DbExport {
    pub bookmark: DbExportBookmark,
    pub signed_url: Option<String>,
}

/// A job-status body reports a non-error, non-rejected state.
pub open spec fn body_accepted(body: DbExportResponse) -> bool {
    body.success && body.status != Some(DbExportStatus::Error)
}

/// The whole response lets the poll call succeed: the envelope and the body
/// report success, the job did not fail, and the guaranteed bookmark is there.
pub open spec fn response_accepted(envelope: Envelope<DbExportResponse>) -> bool {
    envelope.success && body_accepted(envelope.result) && envelope.result.at_bookmark is Some
}

/// The signed URL a response hands out: present exactly when the job is
/// complete and the result payload was sent.
pub open spec fn completed_url(body: DbExportResponse) -> Option<String> {
    if body.success && body.status == Some(DbExportStatus::Complete) {
        match body.result {
            Some(x) => Some(x.signed_url),
            None => None,
        }
    } else {
        None
    }
}

/// Which failure a rejected response must map to, in tie-break order: the
/// envelope's own flag first, then the body's flag, then the terminal error
/// status, and last the guaranteed-but-missing bookmark.
pub open spec fn poll_failure_matches(envelope: Envelope<DbExportResponse>, f: Failure) -> bool {
    if !envelope.success {
        f matches Failure::RequestRejected(m) && m@ == joined_messages(
            messages_of(envelope.errors@),
        )
    } else if !envelope.result.success {
        f matches Failure::JobRejected(m) && m@ == message_or_unknown(envelope.result.error)
    } else if envelope.result.status == Some(DbExportStatus::Error) {
        f matches Failure::JobFailed(m) && m@ == message_or_unknown(envelope.result.error)
    } else {
        f is ProtocolViolation
    }
}

fn error_or_unknown(error: Option<String>) -> (r: String)
    ensures
        r@ == message_or_unknown(error),
{
    match error {
        Some(m) => m,
        None => String::from_str("unknown error"),
    }
}

impl DbExportResponse {
    /// Interpret the job-status body on its own: rejection and the terminal
    /// `error` status fail the call — the job-level status is authoritative
    /// even when the outer envelope reported success — while `complete` hands
    /// the result through and a non-terminal status hands out nothing.
    pub fn unwrap_result(self) -> (r: Result<Option<DbExportResponseResult>, Failure>)
        ensures
            r is Ok <==> body_accepted(self),
            !self.success ==> (r matches Err(f) && f matches Failure::JobRejected(m) && m@
                == message_or_unknown(self.error)),
            self.success && self.status == Some(DbExportStatus::Error) ==> (r matches Err(f)
                && f matches Failure::JobFailed(m) && m@ == message_or_unknown(self.error)),
            self.success && self.status == Some(DbExportStatus::Complete) ==> (r matches Ok(o) && o
                == self.result),
            self.success && (self.status == Some(DbExportStatus::Active) || self.status is None)
                ==> (r matches Ok(o) && o is None),
    {
        if !self.success {
            return Err(Failure::JobRejected(error_or_unknown(self.error)));
        }
        match self.status {
            Some(DbExportStatus::Complete) => Ok(self.result),
            Some(DbExportStatus::Error) => Err(Failure::JobFailed(error_or_unknown(self.error))),
            Some(DbExportStatus::Active) | None => Ok(None),
        }
    }
}

/// Interpret one whole poll response: unwrap the envelope, interpret the
/// job-status body, and insist on the bookmark the protocol guarantees on
/// every successful response.
pub fn poll_outcome(envelope: Envelope<DbExportResponse>) -> (r: Result<DbExport, Failure>)
    ensures
        r is Ok <==> response_accepted(envelope),
        r matches Ok(d) ==> Some(d.bookmark) == envelope.result.at_bookmark && d.signed_url
            == completed_url(envelope.result),
        r matches Err(f) ==> poll_failure_matches(envelope, f),
{
    let body = match envelope.unwrap_result() {
        Ok(b) => b,
        Err(f) => {
            return Err(f);
        },
    };
    if !body.success {
        return Err(Failure::JobRejected(error_or_unknown(body.error)));
    }
    let DbExportResponse { success: _, status, error, at_bookmark, result } = body;
    match status {
        Some(DbExportStatus::Error) => Err(Failure::JobFailed(error_or_unknown(error))),
        Some(DbExportStatus::Complete) => match at_bookmark {
            Some(bookmark) => Ok(
                DbExport {
                    bookmark,
                    signed_url: match result {
                        Some(x) => Some(x.signed_url),
                        None => None,
                    },
                },
            ),
            None => Err(Failure::ProtocolViolation),
        },
        Some(DbExportStatus::Active) | None => match at_bookmark {
            Some(bookmark) => Ok(DbExport { bookmark, signed_url: None }),
            None => Err(Failure::ProtocolViolation),
        },
    }
}

/// The driving loop's per-call decision: poll again with the new bookmark, or
/// stop with the bookmark the job ended at and the signed URL.
#[derive(Debug)]
pub enum PollProgress {
    Continue(DbExportBookmark),
    Finished(DbExportBookmark, String),
}

/// What one poll response means for the driving loop, when it means anything:
/// `None` stands for the responses on which the call fails.
pub open spec fn step_model(envelope: Envelope<DbExportResponse>) -> Option<PollProgress> {
    if response_accepted(envelope) {
        let bookmark = envelope.result.at_bookmark->Some_0;
        match completed_url(envelope.result) {
            Some(url) => Some(PollProgress::Finished(bookmark, url)),
            None => Some(PollProgress::Continue(bookmark)),
        }
    } else {
        None
    }
}

/// One iteration of the driving loop: interpret the response and decide
/// whether to poll again, and with which bookmark, or to stop with the URL.
pub fn advance(envelope: Envelope<DbExportResponse>) -> (r: Result<PollProgress, Failure>)
    ensures
        r is Ok <==> response_accepted(envelope),
        r matches Ok(p) ==> Some(p) == step_model(envelope),
        r matches Err(f) ==> poll_failure_matches(envelope, f),
{
    match poll_outcome(envelope) {
        Err(f) => Err(f),
        Ok(d) => match d.signed_url {
            Some(url) => Ok(PollProgress::Finished(d.bookmark, url)),
            None => Ok(PollProgress::Continue(d.bookmark)),
        },
    }
}

/// The bookmarks the driving loop passes to its successive calls, starting
/// from `current`, when the calls are answered by the given script of
/// responses: each accepted non-terminal response feeds its bookmark into the
/// next call; a terminal or failing response ends the run.
pub open spec fn drive_bookmarks(
    script: Seq<Envelope<DbExportResponse>>,
    current: Option<DbExportBookmark>,
) -> Seq<Option<DbExportBookmark>>
    decreases script.len(),
{
    if script.len() == 0 {
        Seq::empty()
    } else {
        seq![current] + (match step_model(script[0]) {
            Some(PollProgress::Continue(b)) => drive_bookmarks(script.drop_first(), Some(b)),
            _ => Seq::empty(),
        })
    }
}

/// The signed URL the driving loop ends with when the calls are answered by
/// the given script of responses, and `None` when the script fails the run or
/// runs out before completion.
pub open spec fn drive_result(script: Seq<Envelope<DbExportResponse>>) -> Option<String>
    decreases script.len(),
{
    if script.len() == 0 {
        None
    } else {
        match step_model(script[0]) {
            Some(PollProgress::Finished(_, url)) => Some(url),
            Some(PollProgress::Continue(_)) => drive_result(script.drop_first()),
            None => None,
        }
    }
}

/// A response that reports a still-active job carrying this bookmark.
pub open spec fn active_response(
    envelope: Envelope<DbExportResponse>,
    bookmark: DbExportBookmark,
) -> bool {
    &&& envelope.success
    &&& envelope.result.success
    &&& envelope.result.status == Some(DbExportStatus::Active)
    &&& envelope.result.at_bookmark == Some(bookmark)
}

/// A response that reports a completed job carrying this bookmark and URL.
pub open spec fn complete_response(
    envelope: Envelope<DbExportResponse>,
    bookmark: DbExportBookmark,
    url: String,
) -> bool {
    &&& envelope.success
    &&& envelope.result.success
    &&& envelope.result.status == Some(DbExportStatus::Complete)
    &&& envelope.result.at_bookmark == Some(bookmark)
    &&& envelope.result.result matches Some(x) && x.signed_url == url
}

/// Driving-loop convergence: on a script of two still-active responses
/// followed by a complete one, the loop makes exactly three calls, passing no
/// bookmark on the first and each returned bookmark on the next, and ends
/// with the script's signed URL.
pub proof fn lemma_drive_converges(
    e1: Envelope<DbExportResponse>,
    e2: Envelope<DbExportResponse>,
    e3: Envelope<DbExportResponse>,
    b1: DbExportBookmark,
    b2: DbExportBookmark,
    b3: DbExportBookmark,
    url: String,
)
    requires
        active_response(e1, b1),
        active_response(e2, b2),
        complete_response(e3, b3, url),
    ensures
        drive_bookmarks(seq![e1, e2, e3], None) =~= seq![
            None,
            Some(b1),
            Some(b2),
        ],
        drive_result(seq![e1, e2, e3]) == Some(url),
{
    let s = seq![e1, e2, e3];
    assert(step_model(e1) == Some(PollProgress::Continue(b1)));
    assert(step_model(e2) == Some(PollProgress::Continue(b2)));
    assert(step_model(e3) == Some(PollProgress::Finished(b3, url)));
    assert(s.drop_first() =~= seq![e2, e3]);
    assert(seq![e2, e3].drop_first() =~= seq![e3]);
    assert(seq![e3].drop_first() =~= Seq::<Envelope<DbExportResponse>>::empty());
    assert(drive_bookmarks(seq![e3], Some(b2)) =~= seq![Some(b2)]);
    assert(drive_bookmarks(seq![e2, e3], Some(b1)) =~= seq![Some(b1), Some(b2)]);
    assert(drive_result(seq![e3]) == Some(url));
    assert(drive_result(seq![e2, e3]) == Some(url));
    assert(drive_result(s) == Some(url));
}

} // verus!
