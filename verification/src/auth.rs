//! The credential store's decision logic: validation of the bootstrap
//! prompt inputs, assembly of the session record, and the
//! session-recovery step after the server reports an expired session.
//!
//! The surrounding binary performs the prompts, the identity lookup and
//! the file writes; every decision about their results is made here.

use vstd::prelude::*;
use vstd::string::*;

use crate::strutil::{spec_trim, trim};
use crate::structs::FabConfig;
use crate::FabError;

verus! {

/// Validates a prompted API token: whitespace-trimmed and non-empty.
pub fn validate_token(raw: &str) -> (r: Result<String, FabError>)
    ensures
        match r {
            Ok(t) => t@ == spec_trim(raw@) && t@.len() > 0,
            Err(e) => e is Config && spec_trim(raw@).len() == 0,
        },
{
    let t = trim(raw);
    if t.as_str().unicode_len() == 0 {
        Err(FabError::Config)
    } else {
        Ok(t)
    }
}

/// The normalized endpoint: the trimmed input, with a trailing `/`
/// appended when it does not already end with one.
pub open spec fn spec_normalize_instance(raw: Seq<char>) -> Seq<char> {
    let t = spec_trim(raw);
    if t.len() > 0 && t.last() == '/' {
        t
    } else {
        t.push('/')
    }
}

/// Validates and normalizes the prompted instance endpoint: an input
/// that is empty after trimming is rejected, any other gets a trailing
/// `/` when missing.
pub fn normalize_instance(raw: &str) -> (r: Result<String, FabError>)
    ensures
        match r {
            Ok(u) => spec_trim(raw@).len() > 0 && u@ == spec_normalize_instance(raw@)
                && u@.len() > 0 && u@.last() == '/',
            Err(e) => e is Config && spec_trim(raw@).len() == 0,
        },
{
    let mut t = trim(raw);
    let n = t.as_str().unicode_len();
    if n == 0 {
        return Err(FabError::Config);
    }
    if t.as_str().get_char(n - 1) != '/' {
        t.append("/");
        proof {
            reveal_strlit("/");
            assert(t@ =~= spec_normalize_instance(raw@));
        }
    }
    Ok(t)
}

/// The address of the identity lookup on a normalized endpoint.
pub fn who_am_i_url(hosted_instance: &str) -> (r: String)
    ensures
        r@ == hosted_instance@ + "api/user.whoami"@,
{
    let mut r = String::from_str(hosted_instance);
    r.append("api/user.whoami");
    r
}

/// Assembles the session record that the bootstrap flow persists, from
/// an already normalized endpoint, a validated token, and the identity
/// that the who-am-i lookup returned. An empty identity violates the
/// response contract.
pub fn assemble_config(hosted_instance: String, api_token: String, phid: String) -> (r: Result<
    FabConfig,
    FabError,
>)
    requires
        hosted_instance@.len() > 0,
        hosted_instance@.last() == '/',
        api_token@.len() > 0,
    ensures
        match r {
            Ok(c) => phid@.len() > 0 && c.wf() && c.hosted_instance == hosted_instance
                && c.api_token == api_token && c.phid == phid,
            Err(e) => e is Protocol && phid@.len() == 0,
        },
{
    if phid.as_str().unicode_len() == 0 {
        Err(FabError::Protocol)
    } else {
        Ok(FabConfig { hosted_instance, api_token, phid })
    }
}

/// The outcome of the session-recovery step: either a new session to
/// persist, or nothing, with the stored session left untouched.
pub enum SessionRecovery {
    Renewed(FabConfig),
    Skipped,
}

/// The session-recovery decision after the server reported an expired
/// session. A re-prompted token that is non-empty after trimming
/// yields the session to persist, reusing the current endpoint and
/// identity; a failed prompt (`None`) or an empty input skips the
/// renewal, and the current session stays as it is.
pub fn recover_session(current: &FabConfig, token_input: Option<String>) -> (r: SessionRecovery)
    requires
        current.wf(),
    ensures
        match r {
            SessionRecovery::Renewed(c) => {
                &&& token_input matches Some(t) && spec_trim(t@).len() > 0
                &&& c.hosted_instance == current.hosted_instance
                &&& c.phid == current.phid
                &&& (token_input matches Some(t) ==> c.api_token@ == spec_trim(t@))
                &&& c.wf()
            },
            SessionRecovery::Skipped => match token_input {
                Some(t) => spec_trim(t@).len() == 0,
                None => true,
            },
        },
{
    match token_input {
        Some(raw) => match validate_token(raw.as_str()) {
            Ok(token) => SessionRecovery::Renewed(FabConfig {
                hosted_instance: current.hosted_instance.clone(),
                api_token: token,
                phid: current.phid.clone(),
            }),
            Err(_) => SessionRecovery::Skipped,
        },
        None => SessionRecovery::Skipped,
    }
}

/// How the current call ends once the session was found expired: with
/// a renewed session the caller is told to re-issue the command, and
/// without one the expiry itself is surfaced. Recovery never resumes
/// the original call.
pub fn recovery_outcome(r: &SessionRecovery) -> (e: FabError)
    ensures
        e == match r {
            SessionRecovery::Renewed(_) => FabError::SessionRenewed,
            SessionRecovery::Skipped => FabError::SessionExpired,
        },
{
    match r {
        SessionRecovery::Renewed(_) => FabError::SessionRenewed,
        SessionRecovery::Skipped => FabError::SessionExpired,
    }
}

} // verus!
