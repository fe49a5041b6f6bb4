//! The handling of one submission, in two steps around the gateway exchange.
//!
//! [`begin`] routes the submission: it either asks for one request to the
//! gateway or answers at once. [`finish`] turns the gateway's reply into the
//! answer. Neither asks for a second request, so a submission reaches the
//! gateway once or not at all.

use vstd::prelude::*;
use crate::directory::{
    AccountDirectory, EntryView, LookupError, RecordView, is_first_named, lookup_goes_by_first,
    lookup_misses_absent, lookup_spec, none_named,
};
use crate::gateway::{
    GatewayError, GatewayErrorView, GatewayReply, OutboundRequest, ReplyView, RequestView,
    build_request, is_success_status, outcome, outcome_of, request_of,
};
use crate::message::{FormSubmission, SubmissionView, build_payload, payload_of};

verus! {

/// The answer to the form: a status and a plain text.
#[derive(Clone, Debug)]
pub struct FormResponse {
    pub status: u16,
    pub body: String,
}

/// Why a submission was not relayed.
#[derive(Clone, Debug)]
pub enum RelayError {
    /// The directory has no complete record for the identifier.
    Lookup(LookupError),
    /// The gateway did not take the email.
    Gateway(GatewayError),
}

/// The end of a submission: the answer, and the failure to log where there
/// was one.
#[derive(Clone, Debug)]
pub struct Completion {
    pub response: FormResponse,
    pub failure: Option<RelayError>,
}

/// What is to be done for a submission.
#[derive(Clone, Debug)]
pub enum Step {
    /// Make this request, once, and hand the reply to [`finish`].
    Send(OutboundRequest),
    /// Nothing is sent: this is the end.
    Reply(Completion),
}

/// An answer as plain values.
pub struct ResponseView {
    pub status: u16,
    pub body: Seq<char>,
}

/// A relay error as plain values.
pub enum RelayErrorView {
    Lookup(LookupError),
    Gateway(GatewayErrorView),
}

/// An end as plain values.
pub struct CompletionView {
    pub response: ResponseView,
    pub failure: Option<RelayErrorView>,
}

/// A step as plain values.
pub enum StepView {
    Send(RequestView),
    Reply(CompletionView),
}

impl View for FormResponse {
    type V = ResponseView;

    open spec fn view(&self) -> ResponseView {
        ResponseView { status: self.status, body: self.body@ }
    }
}

impl View for RelayError {
    type V = RelayErrorView;

    open spec fn view(&self) -> RelayErrorView {
        match *self {
            RelayError::Lookup(e) => RelayErrorView::Lookup(e),
            RelayError::Gateway(e) => RelayErrorView::Gateway(e@),
        }
    }
}

impl View for Completion {
    type V = CompletionView;

    open spec fn view(&self) -> CompletionView {
        CompletionView {
            response: self.response@,
            failure: match self.failure {
                Some(e) => Some(e@),
                None => None,
            },
        }
    }
}

impl View for Step {
    type V = StepView;

    open spec fn view(&self) -> StepView {
        match *self {
            Step::Send(request) => StepView::Send(request@),
            Step::Reply(completion) => StepView::Reply(completion@),
        }
    }
}

/// The text that answers a relayed submission.
pub open spec fn success_text() -> Seq<char> {
    "Form submitted successfully! Email sent."@
}

/// The text that answers a submission that was not relayed, whatever went
/// wrong.
pub open spec fn failure_text() -> Seq<char> {
    "Form submitted, but failed to send email."@
}

/// The end of a relayed submission.
pub open spec fn relayed() -> CompletionView {
    CompletionView {
        response: ResponseView { status: 200, body: success_text() },
        failure: None,
    }
}

/// The end of a submission that was not relayed. The status is that of
/// success all the same: only the text differs.
pub open spec fn failed(error: RelayErrorView) -> CompletionView {
    CompletionView {
        response: ResponseView { status: 200, body: failure_text() },
        failure: Some(error),
    }
}

/// The first step for a submission: the request for the record that the
/// directory holds under its identifier, or the failed end where the lookup
/// fails.
pub open spec fn first_step(
    entries: Seq<EntryView>,
    submission: SubmissionView,
    api_key: Seq<char>,
) -> StepView {
    match lookup_spec(entries, submission.id) {
        Ok(record) => StepView::Send(request_of(payload_of(record, submission), api_key)),
        Err(e) => StepView::Reply(failed(RelayErrorView::Lookup(e))),
    }
}

/// The end that a reply of the gateway leads to.
pub open spec fn last_step(reply: ReplyView) -> CompletionView {
    match outcome_of(reply) {
        Ok(_) => relayed(),
        Err(e) => failed(RelayErrorView::Gateway(e)),
    }
}

impl Completion {
    /// The end of a relayed submission.
    pub fn relayed() -> (r: Completion)
        ensures
            r@ == relayed(),
    {
        Completion {
            response: FormResponse {
                status: 200,
                body: "Form submitted successfully! Email sent.".to_owned(),
            },
            failure: None,
        }
    }

    /// The end of a submission that was not relayed.
    pub fn failed(error: RelayError) -> (r: Completion)
        ensures
            r@ == failed(error@),
    {
        Completion {
            response: FormResponse {
                status: 200,
                body: "Form submitted, but failed to send email.".to_owned(),
            },
            failure: Some(error),
        }
    }
}

/// Routes a submission.
pub fn begin(directory: &AccountDirectory, submission: &FormSubmission, api_key: &str) -> (r: Step)
    ensures
        r@ == first_step(directory@, submission@, api_key@),
{
    match directory.lookup(submission.id.as_str()) {
        Ok(record) => Step::Send(build_request(build_payload(&record, submission), api_key)),
        Err(e) => Step::Reply(Completion::failed(RelayError::Lookup(e))),
    }
}

/// Ends a submission with the gateway's reply.
pub fn finish(reply: GatewayReply) -> (r: Completion)
    ensures
        r@ == last_step(reply@),
{
    match outcome(reply) {
        Ok(_) => Completion::relayed(),
        Err(e) => Completion::failed(RelayError::Gateway(e)),
    }
}

impl RelayError {
    /// The error in words, for the identifier of the submission.
    pub fn describe(&self, id: &str) -> (r: String)
        ensures
            r@ == match self@ {
                RelayErrorView::Lookup(LookupError::NoAccount) => "No account found for ID: "@
                    + id@,
                RelayErrorView::Lookup(LookupError::NoRecipient) =>
                    "No recipient email found for ID: "@ + id@,
                RelayErrorView::Lookup(LookupError::NoSender) => "No sender email found for ID: "@
                    + id@,
                RelayErrorView::Gateway(GatewayErrorView::Rejected { body }) => body,
                RelayErrorView::Gateway(GatewayErrorView::Transport { detail }) => detail,
            },
    {
        match self {
            RelayError::Lookup(e) => e.describe(id),
            RelayError::Gateway(e) => e.describe(),
        }
    }
}

/// A submission whose identifier is in the directory, on an entry with both
/// addresses, asks for one request, from the entry's sender to its recipient
/// alone; and where the gateway answers that request with a success status,
/// the submission ends with the success text and no failure.
pub proof fn present_account_is_relayed(
    entries: Seq<EntryView>,
    submission: SubmissionView,
    api_key: Seq<char>,
    at: int,
    status: u16,
    reply_body: Seq<char>,
)
    requires
        is_first_named(entries, submission.id, at),
        entries[at].email.is_some(),
        entries[at].from_email.is_some(),
        is_success_status(status),
    ensures
        first_step(entries, submission, api_key) matches StepView::Send(request) && {
            &&& request.payload.from == entries[at].from_email.unwrap()
            &&& request.payload.to == seq![entries[at].email.unwrap()]
            &&& request == request_of(
                payload_of(
                    RecordView {
                        id: submission.id,
                        recipient_email: entries[at].email.unwrap(),
                        sender_email: entries[at].from_email.unwrap(),
                    },
                    submission,
                ),
                api_key,
            )
        },
        last_step(ReplyView::Response { status: status, body: reply_body }) == relayed(),
        relayed().response.body == success_text(),
{
    lookup_goes_by_first(entries, submission.id, at);
}

/// A submission whose identifier no entry carries ends at once with the
/// failure text: no request is asked for.
pub proof fn absent_account_is_not_sent(
    entries: Seq<EntryView>,
    submission: SubmissionView,
    api_key: Seq<char>,
)
    requires
        none_named(entries, submission.id),
    ensures
        first_step(entries, submission, api_key) == StepView::Reply(
            failed(RelayErrorView::Lookup(LookupError::NoAccount)),
        ),
        failed(RelayErrorView::Lookup(LookupError::NoAccount)).response.body == failure_text(),
{
    lookup_misses_absent(entries, submission.id);
}

/// A request is asked for only where the directory routes the submission:
/// every failed lookup ends at once with the failure text.
pub proof fn unrouted_is_not_sent(
    entries: Seq<EntryView>,
    submission: SubmissionView,
    api_key: Seq<char>,
)
    ensures
        lookup_spec(entries, submission.id).is_err() <==> first_step(
            entries,
            submission,
            api_key,
        ) is Reply,
        first_step(entries, submission, api_key) matches StepView::Reply(end)
            ==> end.response.body == failure_text() && end.failure.is_some(),
{
}

/// A reply that is not a response with a success status ends the submission
/// with the failure text, and with the gateway's error as the failure.
pub proof fn refused_reply_fails(reply: ReplyView)
    requires
        !(reply matches ReplyView::Response { status, .. } && is_success_status(status)),
    ensures
        last_step(reply).response.body == failure_text(),
        last_step(reply).failure == Some(RelayErrorView::Gateway(outcome_of(reply).unwrap_err())),
        outcome_of(reply).is_err(),
{
}

/// The two texts differ, so the text alone tells the form whether the
/// submission was relayed.
pub proof fn texts_differ()
    ensures
        success_text() != failure_text(),
{
    reveal_strlit("Form submitted successfully! Email sent.");
    reveal_strlit("Form submitted, but failed to send email.");
    assert(success_text().len() != failure_text().len());
}

/// Every end, at the first step or after the reply, answers with status 200,
/// and with one of the two texts: the success text exactly where there is no
/// failure.
pub proof fn every_answer_is_ok(
    entries: Seq<EntryView>,
    submission: SubmissionView,
    api_key: Seq<char>,
    reply: ReplyView,
)
    ensures
        first_step(entries, submission, api_key) matches StepView::Reply(end) ==> {
            &&& end.response.status == 200
            &&& end.response.body == failure_text()
        },
        last_step(reply).response.status == 200,
        last_step(reply).failure.is_none() ==> last_step(reply).response.body == success_text(),
        last_step(reply).failure.is_some() ==> last_step(reply).response.body == failure_text(),
{
}

} // verus!
