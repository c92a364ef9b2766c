//! The generic response envelope and its classification into the
//! success / domain-error / auth-error outcomes.

use vstd::prelude::*;

use crate::strutil::str_eq;
use crate::FabError;

verus! {

/// The envelope every API response uses: on a well-formed response
/// exactly one of the two fields is populated.
pub struct NetworkResponse<T> {
    pub error_code: Option<String>,
    pub result: Option<T>,
}

/// The two error codes with which the server reports an invalid or
/// expired authentication.
pub open spec fn is_auth_error_code(code: Seq<char>) -> bool {
    code == "ERR-INVALID-AUTH"@ || code == "ERR-INVALID-SESSION"@
}

/// What a decoded envelope means: a populated `result` is success (and
/// wins if both fields are populated); an auth error code asks for
/// session recovery; any other code is a domain error surfaced
/// verbatim; an envelope with neither field violates the protocol.
pub open spec fn spec_classify<T>(resp: NetworkResponse<T>) -> Result<T, FabError> {
    match resp.result {
        Some(t) => Ok(t),
        None => match resp.error_code {
            Some(code) => if is_auth_error_code(code@) {
                Err(FabError::SessionExpired)
            } else {
                Err(FabError::Api(code))
            },
            None => Err(FabError::Protocol),
        },
    }
}

/// An envelope with neither a result nor an error code violates the
/// envelope contract: whatever the payload type, it always classifies
/// to the protocol error, never to anything else.
pub proof fn lemma_empty_envelope_is_protocol_error<T>(resp: NetworkResponse<T>)
    requires
        resp.result is None,
        resp.error_code is None,
    ensures
        spec_classify(resp) == Err::<T, FabError>(FabError::Protocol),
{
}

/// Classifies a decoded envelope, for any payload type and any shape of
/// envelope, well-formed or not.
pub fn classify_response<T>(resp: NetworkResponse<T>) -> (r: Result<T, FabError>)
    ensures
        r == spec_classify(resp),
{
    match resp.result {
        Some(t) => Ok(t),
        None => match resp.error_code {
            Some(code) => {
                if str_eq(code.as_str(), "ERR-INVALID-AUTH") || str_eq(
                    code.as_str(),
                    "ERR-INVALID-SESSION",
                ) {
                    Err(FabError::SessionExpired)
                } else {
                    Err(FabError::Api(code))
                }
            },
            None => Err(FabError::Protocol),
        },
    }
}

} // verus!
