//! Settings of the engine, with their defaults.

use vstd::prelude::*;

verus! {

pub const DEFAULT_BIND_ADDRESS: &'static str = "0.0.0.0:9160";

pub const DEFAULT_BUDGET_INTERVAL: u64 = 3600;

pub const DEFAULT_DEVICE_INTERVAL: u64 = 300;

pub const DEFAULT_QUERY_INTERVAL: u64 = 60;

pub const DEFAULT_FLUME_TIMEOUT: u64 = 1000;

/// Settings as read from the configuration file; absent optional settings
/// take their defaults.
#[derive(Clone, Debug)]
pub struct Configuration {
    pub bind_address: Option<String>,
    pub client_id: String,
    pub secret_id: String,
    pub username: String,
    pub password: String,
    pub budget_interval: Option<u64>,
    pub device_interval: Option<u64>,
    pub query_interval: Option<u64>,
    pub flume_timeout: Option<u64>,
}

impl Default for Configuration {
    fn default() -> (r: Configuration)
        ensures
            r.bind_address is None,
            r.client_id@ == Seq::<char>::empty(),
            r.secret_id@ == Seq::<char>::empty(),
            r.username@ == Seq::<char>::empty(),
            r.password@ == Seq::<char>::empty(),
            r.budget_interval is None,
            r.device_interval is None,
            r.query_interval is None,
            r.flume_timeout is None,
    {
        Configuration {
            bind_address: None,
            client_id: String::new(),
            secret_id: String::new(),
            username: String::new(),
            password: String::new(),
            budget_interval: None,
            device_interval: None,
            query_interval: None,
            flume_timeout: None,
        }
    }
}

/// `setting`, or `default` when it is absent.
pub open spec fn or_default(setting: Option<u64>, default: u64) -> u64 {
    match setting {
        Some(v) => v,
        None => default,
    }
}

impl Configuration {
    /// Address the metrics server listens on.
    pub fn bind_address(&self) -> (r: String)
        ensures
            r@ == match self.bind_address {
                Some(a) => a@,
                None => DEFAULT_BIND_ADDRESS@,
            },
    {
        match &self.bind_address {
            Some(a) => a.clone(),
            None => String::from_str(DEFAULT_BIND_ADDRESS),
        }
    }

    pub fn client_id(&self) -> (r: String)
        ensures
            r == self.client_id,
    {
        self.client_id.clone()
    }

    pub fn secret_id(&self) -> (r: String)
        ensures
            r == self.secret_id,
    {
        self.secret_id.clone()
    }

    pub fn username(&self) -> (r: String)
        ensures
            r == self.username,
    {
        self.username.clone()
    }

    pub fn password(&self) -> (r: String)
        ensures
            r == self.password,
    {
        self.password.clone()
    }

    /// Seconds between budget refreshes; the service allows about 120
    /// requests an hour.
    pub fn budget_interval(&self) -> (r: u64)
        ensures
            r == or_default(self.budget_interval, DEFAULT_BUDGET_INTERVAL),
    {
        match self.budget_interval {
            Some(v) => v,
            None => DEFAULT_BUDGET_INTERVAL,
        }
    }

    /// Seconds between inventory refreshes (bridge and sensor connectivity,
    /// battery level).
    pub fn device_interval(&self) -> (r: u64)
        ensures
            r == or_default(self.device_interval, DEFAULT_DEVICE_INTERVAL),
    {
        match self.device_interval {
            Some(v) => v,
            None => DEFAULT_DEVICE_INTERVAL,
        }
    }

    /// Seconds between ticks, each of which queries usage.
    pub fn query_interval(&self) -> (r: u64)
        ensures
            r == or_default(self.query_interval, DEFAULT_QUERY_INTERVAL),
    {
        match self.query_interval {
            Some(v) => v,
            None => DEFAULT_QUERY_INTERVAL,
        }
    }

    /// Milliseconds to wait for the service to answer.
    pub fn flume_timeout(&self) -> (r: u64)
        ensures
            r == or_default(self.flume_timeout, DEFAULT_FLUME_TIMEOUT),
    {
        match self.flume_timeout {
            Some(v) => v,
            None => DEFAULT_FLUME_TIMEOUT,
        }
    }
}

} // verus!
