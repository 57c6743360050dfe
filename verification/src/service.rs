//! What the service answers its own callers when the enclave's reply cannot
//! be read.
use vstd::prelude::*;

verus! {

/// Represents an error response with an error message.
#[derive(Debug)]
pub struct ErrorResponse {
    pub error: String,
}

/// The message of the service's error response to an unreadable enclave reply.
pub open spec fn unreadable_reply_message() -> Seq<char> {
    "Error in deserializing the returned data from the enclave."@
}

impl ErrorResponse {
    /// The error response to an enclave reply that does not deserialize.
    pub fn unreadable_reply() -> (r: Self)
        ensures
            r.error@ == unreadable_reply_message(),
    {
        ErrorResponse {
            error: "Error in deserializing the returned data from the enclave.".to_owned(),
        }
    }
}

} // verus!
