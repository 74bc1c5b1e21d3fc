//! Opening a session from the configuration.

use vstd::prelude::*;

use crate::client;
use crate::client::ApiError;
use crate::client::Request;
use crate::client::Response;
use crate::configuration::Configuration;
use crate::flume::Flume;

verus! {

pub struct FlumeBuilder {
    pub configuration: Configuration,
}

impl FlumeBuilder {
    pub fn from_configuration(configuration: Configuration) -> (r: FlumeBuilder)
        ensures
            r.configuration == configuration,
    {
        FlumeBuilder { configuration }
    }

    /// The password grant made with the configured credentials.
    pub fn request(&self) -> (r: Request)
        ensures
            r.is_post("authenticate"@, "/oauth/token"@, None),
            r.body matches Some(client::Body::Authenticate(b)) && {
                &&& b.grant_type@ == "password"@
                &&& b.client_id@ == self.configuration.client_id@
                &&& b.client_secret@ == self.configuration.secret_id@
                &&& b.username@ == self.configuration.username@
                &&& b.password@ == self.configuration.password@
            },
    {
        client::authenticate_request(
            &self.configuration.client_id,
            &self.configuration.secret_id,
            &self.configuration.username,
            &self.configuration.password,
        )
    }

    /// The session opened by the answer to `request()`, sent at `started`.
    pub fn build<V>(self, outcome: Result<Response<V>, ApiError>, started: u64) -> (r: Result<
        Flume,
        ApiError,
    >)
        ensures
            match client::granted(outcome) {
                Some(t) => r matches Ok(f) && f.client_id == self.configuration.client_id
                    && f.client_secret == self.configuration.secret_id && f.access_token
                    == t.access_token && f.refresh_token == t.refresh_token && f.token_expires_in
                    == t.expires_in && f.token_fetch_time == started,
                None => r matches Err(e) && client::grant_failure(outcome, e),
            },
    {
        match client::token_from(outcome) {
            Ok(t) => Ok(
                Flume::new(self.configuration.client_id, self.configuration.secret_id, t, started),
            ),
            Err(e) => Err(e),
        }
    }
}

} // verus!
