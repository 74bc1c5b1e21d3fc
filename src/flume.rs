//! The credential session: the live access/refresh token pair, its
//! lifetime, and the requests made with it.

use vstd::prelude::*;

use crate::client;
use crate::client::ApiError;
use crate::client::Request;
use crate::client::Response;
use crate::client::Token;
use crate::client::device_path;
use crate::client::devices_path;
use crate::sensor::Sensor;
use crate::timestamps::local_time_text;

verus! {

/// Milliseconds from `from` to `now` on the monotonic clock; zero when `now`
/// reads earlier.
pub open spec fn elapsed(from: u64, now: u64) -> int {
    if now >= from {
        now - from
    } else {
        0
    }
}

/// Whether at least `secs` seconds have passed from `from` to `now`.
pub open spec fn has_elapsed(from: u64, now: u64, secs: u64) -> bool {
    elapsed(from, now) >= secs * 1000
}

pub fn seconds_elapsed(from: u64, now: u64, secs: u64) -> (r: bool)
    ensures
        r == has_elapsed(from, now, secs),
{
    let passed: u64 = if now >= from {
        now - from
    } else {
        0
    };
    (passed as u128) >= (secs as u128) * 1000
}

/// The session. `token_expires_in` is in seconds and `token_fetch_time` is
/// when the credential was requested, in milliseconds on the monotonic clock.
/// There is exactly one live credential, replaced whole on refresh.
pub struct Flume {
    pub client_id: String,
    pub client_secret: String,
    pub access_token: String,
    pub refresh_token: String,
    pub token_expires_in: u64,
    pub token_fetch_time: u64,
}

impl Flume {
    /// The credential has lived its lifetime at `now`.
    pub open spec fn is_stale(self, now: u64) -> bool {
        has_elapsed(self.token_fetch_time, now, self.token_expires_in)
    }

    /// The session after installing credential `t`, requested at `at`.
    pub open spec fn with_token(self, t: Token, at: u64) -> Flume {
        Flume {
            access_token: t.access_token,
            refresh_token: t.refresh_token,
            token_expires_in: t.expires_in,
            token_fetch_time: at,
            ..self
        }
    }

    /// A session opened with credential `token`, requested at `fetched_at`.
    pub fn new(client_id: String, client_secret: String, token: Token, fetched_at: u64) -> (r: Flume)
        ensures
            r.client_id == client_id,
            r.client_secret == client_secret,
            r.access_token == token.access_token,
            r.refresh_token == token.refresh_token,
            r.token_expires_in == token.expires_in,
            r.token_fetch_time == fetched_at,
    {
        Flume {
            client_id,
            client_secret,
            access_token: token.access_token,
            refresh_token: token.refresh_token,
            token_expires_in: token.expires_in,
            token_fetch_time: fetched_at,
        }
    }

    /// Checked before every call made with the session: `None` when the
    /// credential is still good at `now`, else the one refresh request to
    /// send first.
    pub fn ensure_valid(&self, now: u64) -> (r: Option<Request>)
        ensures
            r is Some <==> self.is_stale(now),
            r matches Some(q) ==> self.is_refresh(q),
    {
        if seconds_elapsed(self.token_fetch_time, now, self.token_expires_in) {
            Some(client::refresh_request(&self.client_id, &self.client_secret, &self.refresh_token))
        } else {
            None
        }
    }

    /// `q` is the refresh grant for this session's refresh token.
    pub open spec fn is_refresh(self, q: Request) -> bool {
        &&& q.is_post("refresh token"@, "/oauth/token"@, None)
        &&& q.body matches Some(client::Body::Refresh(b)) && {
            &&& b.grant_type@ == "refresh_token"@
            &&& b.refresh_token@ == self.refresh_token@
            &&& b.client_id@ == self.client_id@
            &&& b.client_secret@ == self.client_secret@
        }
    }

    /// Takes the answer to a refresh request sent at `started`. A new
    /// credential replaces the old one whole; on failure the old one stays
    /// and the failure is handed on unchanged.
    pub fn refreshed<V>(&mut self, outcome: Result<Response<V>, ApiError>, started: u64) -> (r:
        Result<(), ApiError>)
        ensures
            match client::granted(outcome) {
                Some(t) => r is Ok && *final(self) == old(self).with_token(t, started),
                None => r matches Err(e) && client::grant_failure(outcome, e) && *final(self)
                    == *old(self),
            },
    {
        match client::token_from(outcome) {
            Ok(t) => {
                self.access_token = t.access_token;
                self.refresh_token = t.refresh_token;
                self.token_expires_in = t.expires_in;
                self.token_fetch_time = started;
                Ok(())
            },
            Err(e) => Err(e),
        }
    }

    /// Resolves the user the credential belongs to.
    pub fn user_id(&self) -> (r: Request)
        ensures
            r.is_get("user id"@, "/me"@, self.access_token@),
    {
        client::identity_request(&self.access_token)
    }

    /// Lists the devices of `user_id`.
    pub fn devices(&self, user_id: i64) -> (r: Request)
        ensures
            r.is_get("devices"@, devices_path(user_id as int), self.access_token@),
    {
        client::devices_request(&self.access_token, user_id)
    }

    /// Lists the budgets of `sensor_id`.
    pub fn budgets(&self, user_id: i64, sensor_id: &String) -> (r: Request)
        ensures
            r.is_get(
                "budgets"@,
                device_path(user_id as int, sensor_id@, "/budgets"@),
                self.access_token@,
            ),
    {
        client::budgets_request(&self.access_token, user_id, sensor_id)
    }

    /// Queries the usage of `sensor` from its watermark up to `until`.
    pub fn query_sensor(&self, user_id: i64, sensor: &Sensor, until: i64) -> (r: Result<
        Request,
        ApiError,
    >)
        ensures
            match (
                local_time_text(sensor.timezone@, sensor.last_update as int),
                local_time_text(sensor.timezone@, until as int),
            ) {
                (Some(since_text), Some(until_text)) => r matches Ok(q) && q.is_usage_request(
                    self.access_token@,
                    user_id as int,
                    sensor.sensor.id@,
                    since_text,
                    until_text,
                ),
                _ => r matches Err(ApiError::Domain(_)),
            },
    {
        match sensor.usage_query(until) {
            Ok(query) => Ok(
                client::query_request(&self.access_token, user_id, &sensor.sensor.id, query),
            ),
            Err(e) => Err(e),
        }
    }
}

/// A session whose credential was just installed at `now` asks for no
/// second refresh at `now`, provided the credential has a positive
/// lifetime: repeated checks within one instant refresh at most once.
pub proof fn lemma_refresh_settles(f: Flume, t: Token, now: u64)
    requires
        t.expires_in > 0,
    ensures
        !f.with_token(t, now).is_stale(now),
{
}

} // verus!
