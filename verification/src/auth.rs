//! The credentials of the recognition service.

use vstd::prelude::*;

verus! {

/// What the recognition service is reached with.
#[derive(Debug, PartialEq, Eq)]
pub struct Auth {
    pub region: String,
    pub key: String,
}

/// The configuration names no region or no key.
#[derive(Debug, PartialEq, Eq)]
pub struct MissingCredentials;

impl MissingCredentials {
    /// The wording of the error.
    pub fn message(&self) -> (text: String)
        ensures
            text@ == "Region and key are required for Azure listener"@,
    {
        "Region and key are required for Azure listener".to_owned()
    }
}

impl Auth {
    /// The credentials that a configuration holds: both the region and the key
    /// are needed.
    pub fn from_config(region: Option<String>, key: Option<String>) -> (auth: Result<
        Auth,
        MissingCredentials,
    >)
        ensures
            match auth {
                Ok(auth) => region == Some(auth.region) && key == Some(auth.key),
                Err(_) => region is None || key is None,
            },
    {
        match (region, key) {
            (Some(region), Some(key)) => Ok(Auth { region, key }),
            _ => Err(MissingCredentials),
        }
    }
}

} // verus!
