//! Client configuration: credentials and the API endpoint.
use crate::errors::{B2Error, Result};
use vstd::prelude::*;

verus! {

/// The production endpoint of the API, used when none is configured.
pub const DEFAULT_API_BASE_URL: &'static str = "https://api.backblazeb2.com";

/// The name under which the application key id is configured.
pub const KEY_ID_VAR: &'static str = "B2_APPLICATION_KEY_ID";

/// The name under which the application key is configured.
pub const KEY_VAR: &'static str = "B2_APPLICATION_KEY";

/// The name under which the API endpoint is configured.
pub const BASE_URL_VAR: &'static str = "B2_API_BASE_URL";

/// Credentials and endpoint of a client.
#[derive(Debug)]
pub struct Config {
    pub application_key_id: String,
    pub application_key: String,
    pub api_base_url: String,
}

impl Config {
    /// Builds a configuration from configured values, any of which may be
    /// missing. Both credentials are required; the endpoint defaults to the
    /// production one.
    pub fn from_values(
        application_key_id: Option<String>,
        application_key: Option<String>,
        api_base_url: Option<String>,
    ) -> (r: Result<Config>)
        ensures
            application_key_id is None ==> (r matches Err(B2Error::ConfigError(m)) && m@ == KEY_ID_VAR@),
            application_key_id is Some && application_key is None ==> (r matches Err(
                B2Error::ConfigError(m),
            ) && m@ == KEY_VAR@),
            application_key_id is Some && application_key is Some <==> r is Ok,
            r matches Ok(c) ==> {
                &&& c.application_key_id == application_key_id->Some_0
                &&& c.application_key == application_key->Some_0
                &&& c.api_base_url@ == match api_base_url {
                    Some(u) => u@,
                    None => DEFAULT_API_BASE_URL@,
                }
            },
    {
        let application_key_id = match application_key_id {
            Some(k) => k,
            None => {
                return Err(B2Error::ConfigError(String::from_str(KEY_ID_VAR)));
            },
        };
        let application_key = match application_key {
            Some(k) => k,
            None => {
                return Err(B2Error::ConfigError(String::from_str(KEY_VAR)));
            },
        };
        let api_base_url = match api_base_url {
            Some(u) => u,
            None => String::from_str(DEFAULT_API_BASE_URL),
        };
        Ok(Config { application_key_id, application_key, api_base_url })
    }
}

} // verus!
