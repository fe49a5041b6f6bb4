//! The exchange with the email gateway: the one request that a submission
//! asks for, and what the gateway's reply means.

use vstd::prelude::*;
use crate::message::{EmailPayload, PayloadView, payload_json};

verus! {

/// One request to the gateway: a POST to `url` with the two headers and with
/// `body`, the payload as JSON text.
#[derive(Clone, Debug)]
pub struct OutboundRequest {
    pub url: String,
    pub authorization: String,
    pub content_type: String,
    pub payload: EmailPayload,
    pub body: String,
}

/// What came back from the one attempt.
#[derive(Clone, Debug)]
pub enum GatewayReply {
    /// An HTTP response, with the text of its body.
    Response { status: u16, body: String },
    /// No response: the connection, TLS or the reading of the body failed.
    TransportFailure { detail: String },
}

/// Why the gateway did not take the email.
#[derive(Clone, Debug)]
pub enum GatewayError {
    /// A response outside 200..=299, with its body.
    Rejected { body: String },
    /// No response, with the transport's own words.
    Transport { detail: String },
}

/// A request as plain values.
pub struct RequestView {
    pub url: Seq<char>,
    pub authorization: Seq<char>,
    pub content_type: Seq<char>,
    pub payload: PayloadView,
    pub body: Seq<char>,
}

/// A reply as plain values.
pub enum ReplyView {
    Response { status: u16, body: Seq<char> },
    TransportFailure { detail: Seq<char> },
}

/// A gateway error as plain values.
pub enum GatewayErrorView {
    Rejected { body: Seq<char> },
    Transport { detail: Seq<char> },
}

impl View for OutboundRequest {
    type V = RequestView;

    open spec fn view(&self) -> RequestView {
        RequestView {
            url: self.url@,
            authorization: self.authorization@,
            content_type: self.content_type@,
            payload: self.payload@,
            body: self.body@,
        }
    }
}

impl View for GatewayReply {
    type V = ReplyView;

    open spec fn view(&self) -> ReplyView {
        match *self {
            GatewayReply::Response { status, body } => ReplyView::Response { status, body: body@ },
            GatewayReply::TransportFailure { detail } => ReplyView::TransportFailure {
                detail: detail@,
            },
        }
    }
}

impl View for GatewayError {
    type V = GatewayErrorView;

    open spec fn view(&self) -> GatewayErrorView {
        match *self {
            GatewayError::Rejected { body } => GatewayErrorView::Rejected { body: body@ },
            GatewayError::Transport { detail } => GatewayErrorView::Transport { detail: detail@ },
        }
    }
}

/// The gateway's endpoint for sending an email.
pub open spec fn endpoint_text() -> Seq<char> {
    "https://api.resend.com/emails"@
}

/// The request that carries a payload under an API key: a bearer token in
/// the `Authorization` header, JSON as the content type, the payload's JSON
/// text as the body.
pub open spec fn request_of(payload: PayloadView, api_key: Seq<char>) -> RequestView {
    RequestView {
        url: endpoint_text(),
        authorization: "Bearer "@ + api_key,
        content_type: "application/json"@,
        payload: payload,
        body: payload_json(payload),
    }
}

/// A status from 200 to 299.
pub open spec fn is_success_status(status: u16) -> bool {
    200 <= status < 300
}

/// What a reply means: the email was taken exactly where a response with a
/// success status came back.
pub open spec fn outcome_of(reply: ReplyView) -> Result<(), GatewayErrorView> {
    match reply {
        ReplyView::Response { status, body } => if is_success_status(status) {
            Ok(())
        } else {
            Err(GatewayErrorView::Rejected { body: body })
        },
        ReplyView::TransportFailure { detail } => Err(
            GatewayErrorView::Transport { detail: detail },
        ),
    }
}

/// An outcome over views.
pub open spec fn outcome_view(r: Result<(), GatewayError>) -> Result<(), GatewayErrorView> {
    match r {
        Ok(_) => Ok(()),
        Err(e) => Err(e@),
    }
}

/// Whether a status is one of success.
pub fn is_success(status: u16) -> (r: bool)
    ensures
        r == is_success_status(status),
{
    200 <= status && status < 300
}

/// Builds the request that carries a payload under an API key.
pub fn build_request(payload: EmailPayload, api_key: &str) -> (r: OutboundRequest)
    ensures
        r@ == request_of(payload@, api_key@),
{
    let body = payload.to_json();
    OutboundRequest {
        url: "https://api.resend.com/emails".to_owned(),
        authorization: "Bearer ".to_owned().concat(api_key),
        content_type: "application/json".to_owned(),
        payload,
        body,
    }
}

/// Says what a reply means.
pub fn outcome(reply: GatewayReply) -> (r: Result<(), GatewayError>)
    ensures
        outcome_view(r) == outcome_of(reply@),
{
    match reply {
        GatewayReply::Response { status, body } => {
            if is_success(status) {
                Ok(())
            } else {
                Err(GatewayError::Rejected { body })
            }
        },
        GatewayReply::TransportFailure { detail } => Err(GatewayError::Transport { detail }),
    }
}

impl GatewayError {
    /// The error in words: the rejected response's body, or the transport's
    /// own words.
    pub fn describe(&self) -> (r: String)
        ensures
            r@ == match self@ {
                GatewayErrorView::Rejected { body } => body,
                GatewayErrorView::Transport { detail } => detail,
            },
    {
        match self {
            GatewayError::Rejected { body } => body.clone(),
            GatewayError::Transport { detail } => detail.clone(),
        }
    }
}

} // verus!
