//! The insert forwarder: what is sent downstream for a forwarding request,
//! and what the downstream's answer means for the caller.
//!
//! The network exchange itself is the caller's work. The forwarder says
//! what to send, and decides after each result of the exchange whether the
//! reply's body is to be read or the exchange is over, and with what outcome.

use crate::status::{is_status_code, is_success_code, reason_text, status_line, HttpStatus};
use crate::text::{decimal_digits, lemma_occurs_in_middle, occurs_in};
use crate::url::{build_insert_url, insert_url};
use vstd::prelude::*;
use vstd::string::*;

verus! {

/// Settings of a forwarder: the warehouse project that every insert goes
/// to, and the bound in seconds on one outbound exchange.
#[derive(Clone, Debug, PartialEq, Eq)]
pub struct Forwarder {
    pub project_id: String,
    pub timeout_secs: u64,
}

/// One message to relay: where to, and what.
#[derive(Clone, Debug, PartialEq, Eq)]
pub struct ForwardRequest {
    pub destination_base_url: String,
    pub dataset_id: String,
    pub table_id: String,
    pub payload: String,
}

/// The one request that relays a message: method, address, declared
/// content type, body, and the bound in seconds on the exchange.
#[derive(Clone, Debug, PartialEq, Eq)]
pub struct OutboundRequest {
    pub method: String,
    pub url: String,
    pub content_type: String,
    pub body: String,
    pub timeout_secs: u64,
}

/// How a relay ended.
#[derive(Clone, Debug, PartialEq, Eq)]
pub enum InsertOutcome {
    Success,
    Failure { reason: String },
}

/// An outcome with its reason as a sequence of characters.
pub ghost enum OutcomeView {
    Success,
    Failure { reason: Seq<char> },
}

impl View for InsertOutcome {
    type V = OutcomeView;

    open spec fn view(&self) -> OutcomeView {
        match self {
            InsertOutcome::Success => OutcomeView::Success,
            InsertOutcome::Failure { reason } => OutcomeView::Failure { reason: reason@ },
        }
    }
}

/// What came of sending the request: the status code of the reply, or the
/// cause of a transport fault.
pub open spec fn sent_view(sent: Result<HttpStatus, String>) -> Result<u16, Seq<char>> {
    match sent {
        Ok(status) => Ok(status@),
        Err(cause) => Err(cause@),
    }
}

/// What came of reading the reply's body: its text, or the cause of a
/// transport fault.
pub open spec fn body_view(body: Result<String, String>) -> Result<Seq<char>, Seq<char>> {
    match body {
        Ok(text) => Ok(text@),
        Err(cause) => Err(cause@),
    }
}

/// The reason given when the downstream answers with a status that is not
/// of the success class.
pub open spec fn rejection_reason(code: u16) -> Seq<char> {
    "Failed to insert data into BigQuery: status "@ + status_line(code)
}

/// The diagnostic line that echoes the body of a successful reply.
pub open spec fn diagnostic_line(text: Seq<char>) -> Seq<char> {
    "Response from BigQuery: "@ + text
}

/// The outcome that is settled once the request was sent, if any: a
/// transport fault fails with its cause, a status outside the success class
/// fails with the rejection reason, and a status of the success class
/// settles nothing yet.
pub open spec fn outcome_after_send(sent: Result<u16, Seq<char>>) -> Option<OutcomeView> {
    match sent {
        Ok(code) => if is_success_code(code) {
            None
        } else {
            Some(OutcomeView::Failure { reason: rejection_reason(code) })
        },
        Err(cause) => Some(OutcomeView::Failure { reason: cause }),
    }
}

/// The outcome once the body of a successful reply was read, or failed to
/// be read.
pub open spec fn outcome_after_body(body: Result<Seq<char>, Seq<char>>) -> OutcomeView {
    match body {
        Ok(_) => OutcomeView::Success,
        Err(cause) => OutcomeView::Failure { reason: cause },
    }
}

/// The outcome of a whole exchange. The body's result counts only where the
/// reply's status is of the success class.
pub open spec fn forward_outcome(
    sent: Result<u16, Seq<char>>,
    body: Result<Seq<char>, Seq<char>>,
) -> OutcomeView {
    match outcome_after_send(sent) {
        Some(outcome) => outcome,
        None => outcome_after_body(body),
    }
}

/// The text that tells the inbound caller how the relay ended.
pub open spec fn reply_text(outcome: OutcomeView) -> Seq<char> {
    match outcome {
        OutcomeView::Success => "Data inserted successfully"@,
        OutcomeView::Failure { reason } => "Error inserting data: "@ + reason,
    }
}

impl Default for Forwarder {
    /// The forwarder for the project `your_project_id`, with thirty seconds
    /// for an exchange.
    fn default() -> (r: Forwarder)
        ensures
            r.project_id@ == "your_project_id"@,
            r.timeout_secs == 30,
    {
        Forwarder { project_id: String::from_str("your_project_id"), timeout_secs: 30 }
    }
}

impl Forwarder {
    /// A forwarder for the given project and bound.
    pub fn new(project_id: String, timeout_secs: u64) -> (r: Forwarder)
        ensures
            r.project_id@ == project_id@,
            r.timeout_secs == timeout_secs,
    {
        Forwarder { project_id, timeout_secs }
    }

    /// The request to send downstream: a POST to the insert endpoint of the
    /// request's table, declared as JSON, whose body is the payload as it
    /// came.
    pub fn outbound_request(&self, request: &ForwardRequest) -> (out: OutboundRequest)
        ensures
            out.method@ == "POST"@,
            out.url@ == insert_url(
                request.destination_base_url@,
                self.project_id@,
                request.dataset_id@,
                request.table_id@,
            ),
            out.content_type@ == "application/json"@,
            out.body@ == request.payload@,
            out.timeout_secs == self.timeout_secs,
    {
        let url = build_insert_url(
            request.destination_base_url.as_str(),
            self.project_id.as_str(),
            request.dataset_id.as_str(),
            request.table_id.as_str(),
        );
        OutboundRequest {
            method: String::from_str("POST"),
            url,
            content_type: String::from_str("application/json"),
            body: request.payload.clone(),
            timeout_secs: self.timeout_secs,
        }
    }
}

/// Decides after the request was sent. `Some` holds the outcome where the
/// exchange is over; `None` says that the reply is of the success class and
/// its body is to be read next.
pub fn after_send(sent: Result<HttpStatus, String>) -> (r: Option<InsertOutcome>)
    ensures
        match r {
            Some(outcome) => outcome_after_send(sent_view(sent)) == Some(outcome@),
            None => outcome_after_send(sent_view(sent)) == None::<OutcomeView>,
        },
{
    match sent {
        Ok(status) => {
            if status.is_success() {
                None
            } else {
                let mut reason = String::from_str("Failed to insert data into BigQuery: status ");
                let line = status.to_line();
                reason.append(line.as_str());
                Some(InsertOutcome::Failure { reason })
            }
        },
        Err(cause) => Some(InsertOutcome::Failure { reason: cause }),
    }
}

/// Decides after the body of a successful reply was read: the outcome, and
/// with success the diagnostic line to log.
pub fn after_body(body: Result<String, String>) -> (r: (InsertOutcome, Option<String>))
    ensures
        r.0@ == outcome_after_body(body_view(body)),
        match body {
            Ok(text) => r.1.is_some() && r.1.unwrap()@ == diagnostic_line(text@),
            Err(_) => r.1.is_none(),
        },
{
    match body {
        Ok(text) => {
            let mut line = String::from_str("Response from BigQuery: ");
            line.append(text.as_str());
            (InsertOutcome::Success, Some(line))
        },
        Err(cause) => (InsertOutcome::Failure { reason: cause }, None),
    }
}

/// Words the outcome for the inbound caller.
pub fn response_text(outcome: &InsertOutcome) -> (text: String)
    ensures
        text@ == reply_text(outcome@),
{
    match outcome {
        InsertOutcome::Success => String::from_str("Data inserted successfully"),
        InsertOutcome::Failure { reason } => {
            let mut text = String::from_str("Error inserting data: ");
            text.append(reason.as_str());
            text
        },
    }
}

/// A reply of the success class means success, whatever its body says.
pub proof fn lemma_success_whatever_the_body(code: u16, text: Seq<char>)
    requires
        is_success_code(code),
    ensures
        forward_outcome(Ok(code), Ok(text)) == OutcomeView::Success,
        reply_text(forward_outcome(Ok(code), Ok(text))) == "Data inserted successfully"@,
{
}

/// A reply outside the success class means failure, whatever a body would
/// hold, and the reason shows the reply's status code in decimal.
pub proof fn lemma_rejection_shows_the_code(code: u16, body: Result<Seq<char>, Seq<char>>)
    requires
        is_status_code(code),
        !is_success_code(code),
    ensures
        forward_outcome(Ok(code), body) == (OutcomeView::Failure {
            reason: rejection_reason(code),
        }),
        occurs_in(decimal_digits(code as nat), rejection_reason(code)),
        occurs_in(
            decimal_digits(code as nat),
            reply_text(forward_outcome(Ok(code), body)),
        ),
{
    let digits = decimal_digits(code as nat);
    let head = "Failed to insert data into BigQuery: status "@;
    let tail = seq![' '] + reason_text(code);
    assert(rejection_reason(code) =~= head + digits + tail);
    lemma_occurs_in_middle(head, digits, tail);
    let lead = "Error inserting data: "@ + head;
    assert(reply_text(forward_outcome(Ok(code), body)) =~= lead + digits + tail);
    lemma_occurs_in_middle(lead, digits, tail);
}

/// A transport fault means failure with the fault's cause as the reason,
/// unchanged, whether it struck while sending or while reading the body.
pub proof fn lemma_fault_is_reported(code: u16, cause: Seq<char>, body: Result<
    Seq<char>,
    Seq<char>,
>)
    requires
        is_success_code(code),
    ensures
        forward_outcome(Err(cause), body) == (OutcomeView::Failure { reason: cause }),
        forward_outcome(Ok(code), Err(cause)) == (OutcomeView::Failure { reason: cause }),
{
}

} // verus!
