//! What a request is answered with.

use vstd::prelude::*;

verus! {

/// The status of a reply.
#[derive(Clone, Copy, Debug, PartialEq, Eq, Structural)]
pub enum Status {
    /// The command was started and has ended.
    Success,
    /// The path is not the secret.
    NotFound,
    /// A setting is missing, or the command could not be run.
    InternalServerError,
}

impl Status {
    /// The number that stands for this status on the wire.
    pub open spec fn spec_code(self) -> u16 {
        match self {
            Status::Success => 200,
            Status::NotFound => 404,
            Status::InternalServerError => 500,
        }
    }

    /// The number that stands for this status on the wire.
    #[verifier::when_used_as_spec(spec_code)]
    pub fn code(self) -> (code: u16)
        ensures
            code == self.spec_code(),
    {
        match self {
            Status::Success => 200,
            Status::NotFound => 404,
            Status::InternalServerError => 500,
        }
    }
}

/// A reply as it goes out: a status and a body.
#[derive(Debug, PartialEq, Eq)]
pub struct Reply {
    pub status: Status,
    pub body: Vec<u8>,
}

impl Reply {
    /// The reply with `status` and nothing in its body.
    pub fn empty(status: Status) -> (reply: Reply)
        ensures
            reply.status == status,
            reply.body@ == Seq::<u8>::empty(),
    {
        Reply { status, body: Vec::new() }
    }
}

} // verus!
