//! One probe of one target: how its outcome is judged and reported.

use crate::status::{leads_with_code, status_display, success_code, HttpStatus};
use vstd::prelude::*;

verus! {

/// What the transport reported of one GET request.
#[derive(Debug, Clone, Copy, PartialEq, Eq)]
pub enum TransportOutcome {
    /// A response came back, with this status.
    Response(HttpStatus),
    /// No response came back. The transport may still name a status.
    Error(Option<HttpStatus>),
}

/// A target that failed its probe.
#[derive(Debug, Clone, PartialEq, Eq)]
pub struct DownError {
    /// The target's URL.
    pub url: String,
    /// The status that the failure goes by.
    pub code: HttpStatus,
}

/// What the operator is told of a target that is down.
#[derive(Debug, Clone, PartialEq, Eq)]
pub struct Alert {
    pub summary: String,
    pub body: String,
}

/// The code that a failed probe goes by; `None` where the probe succeeded.
/// A response fails by its own status unless that is a success, which is a
/// code from 200 to 299 and nothing else: a redirect that the transport did
/// not follow is a failure. A request without a response always fails: by the
/// status that the transport names, whatever it is, or by 404 where it names
/// none.
pub open spec fn failure_code(outcome: TransportOutcome) -> Option<u16> {
    match outcome {
        TransportOutcome::Response(status) => if success_code(status@) {
            None
        } else {
            Some(status@)
        },
        TransportOutcome::Error(Some(status)) => Some(status@),
        TransportOutcome::Error(None) => Some(404),
    }
}

/// The summary of the alert for a target.
pub open spec fn alert_summary(url: Seq<char>) -> Seq<char> {
    url + " is down!"@
}

/// How the body of an alert begins.
pub const ALERT_LEAD: &'static str = "Responded with status code: ";

/// The body of the alert for a failure with the given code.
pub open spec fn alert_body(code: u16) -> Seq<char> {
    ALERT_LEAD@ + status_display(code)
}

/// The one-line description of a failure.
pub open spec fn down_message(url: Seq<char>, code: u16) -> Seq<char> {
    "Error downloading "@ + url + ": status code "@ + status_display(code)
}

/// Judges the outcome of the probe of `url`: a success status is `Ok`,
/// anything else is the failure to report, under the code that
/// [`failure_code`] gives.
pub fn process_url(url: String, outcome: TransportOutcome) -> (verdict: Result<(), DownError>)
    ensures
        match verdict {
            Ok(()) => failure_code(outcome) is None,
            Err(down) => failure_code(outcome) == Some(down.code@) && down.url == url,
        },
{
    match outcome {
        TransportOutcome::Response(status) => {
            if !status.is_success() {
                return Err(DownError { url, code: status });
            }
        },
        TransportOutcome::Error(named) => {
            let code = match named {
                Some(status) => status,
                None => HttpStatus::not_found(),
            };
            return Err(DownError { url, code });
        },
    }
    Ok(())
}

impl DownError {
    /// The failure in one line.
    pub fn message(&self) -> (text: String)
        ensures
            text@ == down_message(self.url@, self.code@),
    {
        let mut text = String::from_str("Error downloading ");
        text.append(self.url.as_str());
        text.append(": status code ");
        let status = self.code.text();
        text.append(status.as_str());
        text
    }

    /// The alert that tells the operator of the failure. Its summary names
    /// the target, and its body ends in the status as the transport writes
    /// it, which begins with the code in decimal digits.
    pub fn alert(&self) -> (alert: Alert)
        ensures
            alert.summary@ == alert_summary(self.url@),
            alert.body@ == alert_body(self.code@),
            leads_with_code(alert.body@.skip(ALERT_LEAD@.len() as int), self.code@),
    {
        let mut summary = self.url.clone();
        summary.append(" is down!");
        let mut body = String::from_str(ALERT_LEAD);
        let status = self.code.text();
        body.append(status.as_str());
        assert(body@.skip(ALERT_LEAD@.len() as int) =~= status@);
        Alert { summary, body }
    }
}

} // verus!
