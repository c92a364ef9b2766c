//! The user-search lookup: its request payload and the rule that the
//! first match wins.

use vstd::prelude::*;
use vstd::string::*;

use crate::structs::FabConfig;
use crate::{param, param_is, FabError, Param};

verus! {

/// One user record of the user-search endpoint.
pub struct User {
    pub id: i32,
    pub phid: String,
}

/// The address of the user search on the configured instance.
pub fn user_search_url(config: &FabConfig) -> (r: String)
    ensures
        r@ == config.hosted_instance@ + "api/user.search"@,
{
    let mut r = config.hosted_instance.clone();
    r.append("api/user.search");
    r
}

/// The payload of a user search by username.
pub fn build_user_search(config: &FabConfig, username: &str) -> (r: Vec<Param>)
    ensures
        r@.len() == 2,
        param_is(r@[0], "api.token"@, config.api_token@),
        param_is(r@[1], "constraints[usernames][0]"@, username@),
{
    let mut r: Vec<Param> = Vec::new();
    r.push(param("api.token", config.api_token.clone()));
    r.push(param("constraints[usernames][0]", String::from_str(username)));
    r
}

/// The user a search resolves to: the first match when there are
/// several, and a not-found condition when there is none.
pub fn first_user(data: Vec<User>) -> (r: Result<User, FabError>)
    ensures
        match r {
            Ok(u) => data@.len() > 0 && u == data@[0],
            Err(e) => e is NotFound && data@.len() == 0,
        },
{
    let mut data = data;
    if data.len() == 0 {
        Err(FabError::NotFound)
    } else {
        Ok(data.remove(0))
    }
}

} // verus!
