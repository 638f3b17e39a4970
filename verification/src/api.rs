//! The transport contract: where requests go and how they are authorized.
//!
//! The caller reads the environment and performs the HTTP exchange; the
//! library decides what the environment value means. A missing key is a
//! configuration error that names the variable, decided before anything
//! touches the network.

use vstd::prelude::*;

verus! {

/// The environment variable that must hold the API key.
pub fn api_key_variable() -> (r: String)
    ensures
        r@ == "LINEAR_API_KEY"@,
{
    "LINEAR_API_KEY".to_owned()
}

/// The fixed endpoint every request is posted to.
pub fn api_url() -> (r: String)
    ensures
        r@ == "https://api.linear.app/graphql"@,
{
    "https://api.linear.app/graphql".to_owned()
}

/// Decides what the environment's value of the API-key variable means:
/// the key itself when the variable is set, otherwise a configuration
/// error naming the variable. The `Authorization` header carries the key
/// as it is, with no prefix.
pub fn get_api_key(env_value: Option<String>) -> (r: Result<String, String>)
    ensures
        (match r {
            Ok(key) => env_value matches Some(v) && key@ == v@,
            Err(message) => env_value is None && message@
                == "LINEAR_API_KEY environment variable not set"@,
        }),
{
    match env_value {
        Some(key) => Ok(key),
        None => Err("LINEAR_API_KEY environment variable not set".to_owned()),
    }
}

} // verus!
