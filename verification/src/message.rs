//! The email that stands for one submission.

use vstd::prelude::*;
use crate::directory::{AccountRecord, RecordView};
use crate::json::{
    array_of, array_value, members_view, object_of, object_value, render, rendered, string_of,
    string_value,
};

verus! {

/// One post of the form. The fields are taken as they come: none is checked
/// or escaped.
#[derive(Clone, Debug)]
pub struct FormSubmission {
    pub id: String,
    pub name: String,
    pub email: String,
    pub message: String,
}

/// What the gateway is asked to send.
#[derive(Clone, Debug)]
pub struct EmailPayload {
    pub from: String,
    pub to: Vec<String>,
    pub subject: String,
    pub html: String,
}

/// A submission as plain values.
pub struct SubmissionView {
    pub id: Seq<char>,
    pub name: Seq<char>,
    pub email: Seq<char>,
    pub message: Seq<char>,
}

/// A payload as plain values.
pub struct PayloadView {
    pub from: Seq<char>,
    pub to: Seq<Seq<char>>,
    pub subject: Seq<char>,
    pub html: Seq<char>,
}

impl View for FormSubmission {
    type V = SubmissionView;

    open spec fn view(&self) -> SubmissionView {
        SubmissionView {
            id: self.id@,
            name: self.name@,
            email: self.email@,
            message: self.message@,
        }
    }
}

impl View for EmailPayload {
    type V = PayloadView;

    open spec fn view(&self) -> PayloadView {
        PayloadView {
            from: self.from@,
            to: self.to@.map_values(|s: String| s@),
            subject: self.subject@,
            html: self.html@,
        }
    }
}

/// The subject of every email.
pub open spec fn subject_text() -> Seq<char> {
    "New Form Submission"@
}

/// The HTML body: a heading, then the four fields in the order identifier,
/// name, email, message, each behind its label and parted by line breaks. The
/// values stand in it as they were submitted.
pub open spec fn body_text(submission: SubmissionView) -> Seq<char> {
    "New form submission:<br><br><strong>ID:</strong> "@ + submission.id
        + "<br><strong>Name:</strong> "@ + submission.name + "<br><strong>Email:</strong> "@
        + submission.email + "<br><strong>Message:</strong> "@ + submission.message
}

/// The payload for a submission that is routed by a record: from the
/// record's sender to its recipient alone.
pub open spec fn payload_of(record: RecordView, submission: SubmissionView) -> PayloadView {
    PayloadView {
        from: record.sender_email,
        to: seq![record.recipient_email],
        subject: subject_text(),
        html: body_text(submission),
    }
}

/// The JSON document of a payload: an object with the members `from`,
/// `to`, `subject` and `html`, where `to` is the array of the recipients and
/// the others are strings.
pub open spec fn payload_document(payload: PayloadView) -> serde_json::Value {
    object_of(
        seq![
            ("from"@, string_of(payload.from)),
            ("to"@, array_of(payload.to.map_values(|s: Seq<char>| string_of(s)))),
            ("subject"@, string_of(payload.subject)),
            ("html"@, string_of(payload.html)),
        ],
    )
}

/// The JSON text of a payload.
pub open spec fn payload_json(payload: PayloadView) -> Seq<char> {
    rendered(payload_document(payload))
}

impl EmailPayload {
    /// Builds the JSON document of the payload.
    pub fn to_document(&self) -> (r: serde_json::Value)
        ensures
            r == payload_document(self@),
    {
        let mut recipients: Vec<serde_json::Value> = Vec::new();
        let mut i: usize = 0;
        while i < self.to.len()
            invariant
                i <= self.to.len(),
                recipients.len() == i,
                forall|k: int| 0 <= k < i ==> #[trigger] recipients[k] == string_of(self.to[k]@),
            decreases self.to.len() - i,
        {
            recipients.push(string_value(self.to[i].as_str()));
            i += 1;
        }
        assert(recipients@ =~= self@.to.map_values(|s: Seq<char>| string_of(s)));
        let mut members: Vec<(String, serde_json::Value)> = Vec::new();
        members.push(("from".to_owned(), string_value(self.from.as_str())));
        members.push(("to".to_owned(), array_value(recipients)));
        members.push(("subject".to_owned(), string_value(self.subject.as_str())));
        members.push(("html".to_owned(), string_value(self.html.as_str())));
        assert(members_view(members@) =~= seq![
            ("from"@, string_of(self@.from)),
            ("to"@, array_of(self@.to.map_values(|s: Seq<char>| string_of(s)))),
            ("subject"@, string_of(self@.subject)),
            ("html"@, string_of(self@.html)),
        ]);
        object_value(members)
    }

    /// Writes the payload as JSON text: the body of the gateway request.
    pub fn to_json(&self) -> (r: String)
        ensures
            r@ == payload_json(self@),
    {
        let document = self.to_document();
        render(&document)
    }
}

impl FormSubmission {
    /// A submission of the four fields.
    pub fn new(id: &str, name: &str, email: &str, message: &str) -> (r: FormSubmission)
        ensures
            r@ == (SubmissionView { id: id@, name: name@, email: email@, message: message@ }),
    {
        FormSubmission {
            id: id.to_owned(),
            name: name.to_owned(),
            email: email.to_owned(),
            message: message.to_owned(),
        }
    }
}

/// Builds the HTML body of a submission.
pub fn email_body(submission: &FormSubmission) -> (r: String)
    ensures
        r@ == body_text(submission@),
{
    let mut body = "New form submission:<br><br><strong>ID:</strong> ".to_owned();
    body.append(submission.id.as_str());
    body.append("<br><strong>Name:</strong> ");
    body.append(submission.name.as_str());
    body.append("<br><strong>Email:</strong> ");
    body.append(submission.email.as_str());
    body.append("<br><strong>Message:</strong> ");
    body.append(submission.message.as_str());
    body
}

/// Builds the payload for a submission that is routed by a record.
pub fn build_payload(record: &AccountRecord, submission: &FormSubmission) -> (r: EmailPayload)
    ensures
        r@ == payload_of(record@, submission@),
{
    let mut to: Vec<String> = Vec::new();
    to.push(record.recipient_email.clone());
    let r = EmailPayload {
        from: record.sender_email.clone(),
        to,
        subject: "New Form Submission".to_owned(),
        html: email_body(submission),
    };
    assert(r@.to =~= seq![record@.recipient_email]);
    r
}

/// The body holds the four values in the order identifier, name, email,
/// message: each stands whole at the place that follows its label, and the
/// body ends with the message.
pub proof fn body_holds_fields_in_order(submission: SubmissionView)
    ensures
        ({
            let body = body_text(submission);
            let id_label = "New form submission:<br><br><strong>ID:</strong> "@;
            let name_label = "<br><strong>Name:</strong> "@;
            let email_label = "<br><strong>Email:</strong> "@;
            let message_label = "<br><strong>Message:</strong> "@;
            let id_at = id_label.len() as int;
            let name_at = id_at + submission.id.len() + name_label.len();
            let email_at = name_at + submission.name.len() + email_label.len();
            let message_at = email_at + submission.email.len() + message_label.len();
            &&& body.subrange(0, id_at) == id_label
            &&& body.subrange(id_at, id_at + submission.id.len()) == submission.id
            &&& body.subrange(name_at - name_label.len(), name_at) == name_label
            &&& body.subrange(name_at, name_at + submission.name.len()) == submission.name
            &&& body.subrange(email_at - email_label.len(), email_at) == email_label
            &&& body.subrange(email_at, email_at + submission.email.len()) == submission.email
            &&& body.subrange(message_at - message_label.len(), message_at) == message_label
            &&& body.subrange(message_at, body.len() as int) == submission.message
            &&& body.len() == message_at + submission.message.len()
        }),
{
    let body = body_text(submission);
    let id_label = "New form submission:<br><br><strong>ID:</strong> "@;
    let name_label = "<br><strong>Name:</strong> "@;
    let email_label = "<br><strong>Email:</strong> "@;
    let message_label = "<br><strong>Message:</strong> "@;
    let id_at = id_label.len() as int;
    let name_at = id_at + submission.id.len() + name_label.len();
    let email_at = name_at + submission.name.len() + email_label.len();
    let message_at = email_at + submission.email.len() + message_label.len();
    assert(body.subrange(0, id_at) =~= id_label);
    assert(body.subrange(id_at, id_at + submission.id.len()) =~= submission.id);
    assert(body.subrange(name_at - name_label.len(), name_at) =~= name_label);
    assert(body.subrange(name_at, name_at + submission.name.len()) =~= submission.name);
    assert(body.subrange(email_at - email_label.len(), email_at) =~= email_label);
    assert(body.subrange(email_at, email_at + submission.email.len()) =~= submission.email);
    assert(body.subrange(message_at - message_label.len(), message_at) =~= message_label);
    assert(body.subrange(message_at, body.len() as int) =~= submission.message);
}

} // verus!
