//! Core logic of a command-line client for a project-tracking service:
//! credential/session handling, response-envelope classification with
//! session recovery, query builders for the service's search endpoints,
//! and normalization of the records that come back.
//!
//! Everything here is pure: the surrounding binary performs the HTTP
//! calls, prompts and rendering, and hands this crate plain values.

use vstd::prelude::*;
use vstd::string::*;

pub mod auth;
pub mod diffs;
pub mod network;
pub mod preferences;
pub mod structs;
pub mod strutil;
pub mod tasks;
pub mod users;

verus! {

/// The error taxonomy of the client.
///
/// - `Config`: missing or invalid local credentials, or an empty prompt
///   input; recoverable by bootstrapping again.
/// - `Network`: a transport failure; fatal to the current command.
/// - `Protocol`: a response that violates the envelope contract.
/// - `Api`: the server rejected the request for a domain reason other
///   than authentication; carries the server's error code verbatim.
/// - `SessionExpired`: the server reported an invalid or expired
///   session and no new token was obtained.
/// - `SessionRenewed`: a new token was stored; the caller must re-issue
///   the original command.
/// - `Validation`: an invalid filter value, caught before any network
///   call.
/// - `NotFound`: a lookup matched nothing.
#[derive(Debug)]
pub enum FabError {
    Config,
    Network,
    Protocol,
    Api(String),
    SessionExpired,
    SessionRenewed,
    Validation,
    NotFound,
}

impl FabError {
    /// A single human-readable line for each error, for the process's
    /// final output.
    pub fn message(&self) -> (r: String)
        ensures
            r@ == match self {
                FabError::Config => "Configuration input cannot be empty"@,
                FabError::Network => "Network error while reaching the instance"@,
                FabError::Protocol => "Malformed response from the instance"@,
                FabError::Api(code) => "API error: "@ + code@,
                FabError::SessionExpired => "Your session has expired"@,
                FabError::SessionRenewed => "Token regenerated. Please try the command again"@,
                FabError::Validation => "Unknown value of priority"@,
                FabError::NotFound => "No matching record was found"@,
            },
    {
        match self {
            FabError::Config => String::from_str("Configuration input cannot be empty"),
            FabError::Network => String::from_str("Network error while reaching the instance"),
            FabError::Protocol => String::from_str("Malformed response from the instance"),
            FabError::Api(code) => {
                let mut s = String::from_str("API error: ");
                s.append(code.as_str());
                s
            },
            FabError::SessionExpired => String::from_str("Your session has expired"),
            FabError::SessionRenewed => String::from_str(
                "Token regenerated. Please try the command again",
            ),
            FabError::Validation => String::from_str("Unknown value of priority"),
            FabError::NotFound => String::from_str("No matching record was found"),
        }
    }
}

/// One key/value pair of a form-encoded request payload.
pub struct Param {
    pub key: String,
    pub value: String,
}

/// Whether `p` holds exactly the key `k` and the value `v`.
pub open spec fn param_is(p: Param, k: Seq<char>, v: Seq<char>) -> bool {
    p.key@ == k && p.value@ == v
}

/// Builds one payload pair from a key and an owned value.
pub fn param(key: &str, value: String) -> (p: Param)
    ensures
        param_is(p, key@, value@),
{
    Param { key: String::from_str(key), value }
}

} // verus!
