//! Replies of the service: a status, the headers that let a page served
//! from another origin read the reply, and a body.

use vstd::prelude::*;
use crate::error_body::{construct_error, err_key, error_text, is_plain, plain_member_text};

verus! {

/// One header line.
#[derive(Debug, PartialEq, Eq)]
pub struct Header {
    pub name: String,
    pub value: String,
}

/// A reply, ready to be sent.
#[derive(Debug, PartialEq, Eq)]
pub struct Reply {
    pub status: u16,
    pub headers: Vec<Header>,
    pub body: String,
}

/// A reply as plain values, each header a pair of name and value.
pub struct ReplyView {
    pub status: u16,
    pub headers: Seq<(Seq<char>, Seq<char>)>,
    pub body: Seq<char>,
}

impl View for Header {
    type V = (Seq<char>, Seq<char>);

    open spec fn view(&self) -> (Seq<char>, Seq<char>) {
        (self.name@, self.value@)
    }
}

impl View for Reply {
    type V = ReplyView;

    open spec fn view(&self) -> ReplyView {
        ReplyView {
            status: self.status,
            headers: Seq::new(self.headers@.len(), |i: int| self.headers@[i]@),
            body: self.body@,
        }
    }
}

/// Status of a reply that carries a result.
pub const STATUS_OK: u16 = 200;

/// Status of a reply to a request that could not be read.
pub const STATUS_BAD_REQUEST: u16 = 400;

/// The codes that a status line can carry: 100 up to 599.
pub open spec fn is_status_code(code: u16) -> bool {
    100 <= code < 600
}

/// The headers that every reply carries: any origin may read it, and
/// credentials may be sent along.
pub open spec fn cors_headers() -> Seq<(Seq<char>, Seq<char>)> {
    seq![
        ("Access-Control-Allow-Origin"@, "*"@),
        ("Access-Control-Allow-Credentials"@, "true"@),
    ]
}

/// The reply owed to an outcome: a result goes out as it is with status
/// 200, a failure as an error body with status 400.
pub open spec fn reply_for(outcome: Result<String, String>) -> ReplyView {
    match outcome {
        Ok(body) => ReplyView { status: STATUS_OK, headers: cors_headers(), body: body@ },
        Err(message) => ReplyView {
            status: STATUS_BAD_REQUEST,
            headers: cors_headers(),
            body: error_text(message@),
        },
    }
}

/// Builds the reply with the given status and body, and the headers that
/// every reply carries.
///
/// The status has to be one that a status line can carry; there is no
/// reply with another.
pub fn build_response(code: u16, body: &str) -> (reply: Reply)
    requires
        is_status_code(code),
    ensures
        reply@ == (ReplyView { status: code, headers: cors_headers(), body: body@ }),
{
    let mut headers: Vec<Header> = Vec::with_capacity(2);
    headers.push(Header { name: "Access-Control-Allow-Origin".to_owned(), value: "*".to_owned() });
    headers.push(
        Header { name: "Access-Control-Allow-Credentials".to_owned(), value: "true".to_owned() },
    );
    let reply = Reply { status: code, headers, body: body.to_owned() };
    assert(reply@.headers =~= cors_headers());
    reply
}

/// Turns the outcome of a request into its reply.
///
/// `Ok` holds the serialized result, `Err` the message of the failure that
/// kept the request from being read. A failure never escapes as anything
/// but a reply with status 400.
pub fn credit_faas_wrapper(outcome: Result<String, String>) -> (reply: Reply)
    ensures
        reply@ == reply_for(outcome),
        outcome matches Err(message) ==> (is_plain(message@) ==> reply@.body == plain_member_text(
            err_key(),
            message@,
        )),
{
    match outcome {
        Ok(body) => build_response(STATUS_OK, body.as_str()),
        Err(message) => {
            let text = construct_error(message.as_str());
            build_response(STATUS_BAD_REQUEST, text.as_str())
        },
    }
}

/// The status of a reply tells how the request went: 200 stands for a
/// result and for nothing else, 400 for a failure and for nothing else.
/// Either way the status is one a status line can carry, and the reply has
/// the headers that every reply carries.
pub proof fn lemma_status_tells_outcome(outcome: Result<String, String>)
    ensures
        reply_for(outcome).status == STATUS_OK <==> outcome is Ok,
        reply_for(outcome).status == STATUS_BAD_REQUEST <==> outcome is Err,
        is_status_code(reply_for(outcome).status),
        reply_for(outcome).headers == cors_headers(),
{
}

} // verus!
