//! What goes to the server and what comes back, as plain values.

use vstd::prelude::*;
use crate::error::Failure;
use crate::status::{class_of, classify, StatusClass};

verus! {

/// One request to the server. Every request of this protocol is a POST; a
/// body, where there is one, is JSON text.
#[derive(Debug)]
pub struct Request {
    pub url: String,
    pub body: Option<String>,
}

/// A `Request` as sequences of characters.
pub struct RequestView {
    pub url: Seq<char>,
    pub body: Option<Seq<char>>,
}

impl View for Request {
    type V = RequestView;

    open spec fn view(&self) -> RequestView {
        RequestView {
            url: self.url@,
            body: match self.body {
                Some(text) => Some(text@),
                None => None,
            },
        }
    }
}

/// What came back for a request.
#[derive(Debug)]
pub enum Reply {
    /// The server answered.
    Answered { status: u16, body: String },
    /// No answer arrived.
    Lost,
}

/// The server answered `reply` with a status of the success class.
pub open spec fn succeeded(reply: Reply) -> bool {
    reply matches Reply::Answered { status, .. } && class_of(status) == StatusClass::Success
}

/// The body that `reply` carries; empty for a lost reply.
pub open spec fn body_of(reply: Reply) -> Seq<char> {
    match reply {
        Reply::Answered { body, .. } => body@,
        Reply::Lost => Seq::empty(),
    }
}

/// What a reply amounts to before anything is read from its body: the body
/// of a success, or the failure. A status in the 400s gives `refusal`, the
/// failure of the operation that asked; one in the 500s gives `ServerError`;
/// any other status that is no success, and a lost reply, give
/// `TransportError`.
pub open spec fn verdict(reply: Reply, refusal: Failure) -> Result<Seq<char>, Failure> {
    match reply {
        Reply::Lost => Err(Failure::TransportError),
        Reply::Answered { status, body } => match class_of(status) {
            StatusClass::Success => Ok(body@),
            StatusClass::ClientError => Err(refusal),
            StatusClass::ServerError => Err(Failure::ServerError),
            StatusClass::Other => Err(Failure::TransportError),
        },
    }
}

/// Judges a reply by its status class: hands out the body of a success, and
/// names the failure otherwise.
pub fn judge<'a>(reply: &'a Reply, refusal: Failure) -> (judged: Result<&'a str, Failure>)
    ensures
        match judged {
            Ok(body) => verdict(*reply, refusal) == Ok::<Seq<char>, Failure>(body@),
            Err(failure) => verdict(*reply, refusal) == Err::<Seq<char>, Failure>(failure),
        },
{
    match reply {
        Reply::Lost => Err(Failure::TransportError),
        Reply::Answered { status, body } => match classify(*status) {
            StatusClass::Success => Ok(body.as_str()),
            StatusClass::ClientError => Err(refusal),
            StatusClass::ServerError => Err(Failure::ServerError),
            StatusClass::Other => Err(Failure::TransportError),
        },
    }
}

} // verus!
