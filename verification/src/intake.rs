//! The intake: what happens to a descriptor that a user submits.

use vstd::prelude::*;
use vstd::string::*;
use crate::controller::error::ValidationError;
use crate::descriptor_store::intake_writes;
use crate::descriptor_store::writes_for;
use crate::descriptor_store::StoreWrites;
use crate::fluid::descriptor::IdentifiableDescriptor;
use crate::text::join;

verus! {

/// The status of an answer that has nothing to report but success.
pub const OK: u16 = 200;

/// The status that turns a descriptor down.
pub const BAD_REQUEST: u16 = 400;

/// The status that reports a failure of the store.
pub const INTERNAL_SERVER_ERROR: u16 = 500;

/// The status that takes a descriptor in.
pub const ACCEPTED: u16 = 202;

/// The answer to a submission.
#[derive(Clone, Debug, PartialEq, Eq)]
pub struct HttpReply {
    pub status: u16,
    pub body: String,
}

/// An answer as a mathematical value.
pub ghost struct HttpReplyView {
    pub status: u16,
    pub body: Seq<char>,
}

impl View for HttpReply {
    type V = HttpReplyView;

    open spec fn view(&self) -> HttpReplyView {
        HttpReplyView { status: self.status, body: self.body@ }
    }
}

/// Answers a health check: 200 with the body `1`.
pub fn healthcheck() -> (r: HttpReply)
    ensures
        r@ == (HttpReplyView { status: OK, body: "1"@ }),
{
    HttpReply { status: OK, body: String::from_str("1") }
}

/// Takes a submitted descriptor in, given what its controller's validation
/// said. A descriptor that is not valid is answered with 400 and the
/// reason, and nothing is to be written. A valid one gives the writes to
/// make.
pub fn handle_resource_submit<D: IdentifiableDescriptor>(
    validation: Result<(), ValidationError>,
    payload: &D,
) -> (r: Result<StoreWrites, HttpReply>)
    ensures
        r is Ok <==> validation is Ok,
        r matches Ok(writes) ==> writes@ == intake_writes(payload.spec_kind(), payload.spec_id()),
        r matches Err(reply) ==> reply@ == (HttpReplyView {
            status: BAD_REQUEST,
            body: validation->Err_0@.message(),
        }),
{
    match validation {
        Ok(_) => Ok(writes_for(payload)),
        Err(error) => Err(HttpReply { status: BAD_REQUEST, body: error.message() }),
    }
}

/// Reads what came of writing the descriptor. A failure is answered with
/// 500 and the state is not written; after a success the state is written
/// next.
pub fn descriptor_stored(result: Result<(), String>) -> (r: Option<HttpReply>)
    ensures
        r is None <==> result is Ok,
        r matches Some(reply) ==> reply@ == (HttpReplyView {
            status: INTERNAL_SERVER_ERROR,
            body: "failed to store descriptor: "@ + result->Err_0@,
        }),
{
    match result {
        Ok(_) => None,
        Err(cause) => Some(
            HttpReply {
                status: INTERNAL_SERVER_ERROR,
                body: join("failed to store descriptor: ", cause.as_str()),
            },
        ),
    }
}

/// Reads what came of writing the deployment state, and answers the
/// submission: 202 with an empty body after a success, 500 after a failure.
pub fn state_stored(result: Result<(), String>) -> (r: HttpReply)
    ensures
        result is Ok ==> r@ == (HttpReplyView { status: ACCEPTED, body: Seq::empty() }),
        result is Err ==> r@ == (HttpReplyView {
            status: INTERNAL_SERVER_ERROR,
            body: "failed to set deployment state: "@ + result->Err_0@,
        }),
{
    match result {
        Ok(_) => HttpReply { status: ACCEPTED, body: String::new() },
        Err(cause) => HttpReply {
            status: INTERNAL_SERVER_ERROR,
            body: join("failed to set deployment state: ", cause.as_str()),
        },
    }
}

} // verus!
