//! What a failed call to a backend becomes in the answer of the node that forwards to
//! it.

use vstd::prelude::*;

verus! {

/// An error as a JSON-RPC answer carries it.
#[derive(Debug)]
pub struct ErrorObject {
    pub code: i32,
    pub message: String,
    pub data: Option<String>,
}

/// How a call to a backend failed.
#[derive(Debug)]
pub enum ClientError {
    /// The backend answered with an error.
    Call(ErrorObject),
    /// The call itself failed; this is the failure in words.
    Other(String),
}

/// The code of an error that did not come from the backend.
pub const PROXY_ERROR_CODE: i32 = -32000;

/// The error that a proxy hands on for a failed call: the backend's own error where
/// there is one, else an error with the code -32000, the failure in words and an empty
/// string as its data.
pub fn to_error_object(error: ClientError) -> (object: ErrorObject)
    ensures
        error matches ClientError::Call(backend) ==> object == backend,
        error matches ClientError::Other(message) ==> object.code == PROXY_ERROR_CODE
            && object.message == message && (object.data matches Some(data) && data@.len() == 0),
{
    match error {
        ClientError::Call(backend) => backend,
        ClientError::Other(message) => ErrorObject {
            code: PROXY_ERROR_CODE,
            message,
            data: Some(String::new()),
        },
    }
}

} // verus!
