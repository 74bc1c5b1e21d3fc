//! A sensor: a meter with a time zone and a usage watermark.

use vstd::prelude::*;

use crate::client;
use crate::client::ApiError;
use crate::client::Query;
use crate::client::QueryBucket;
use crate::client::QueryOperation;
use crate::client::is_usage_query;
use crate::timestamps::local_time;
use crate::timestamps::local_time_text;
use crate::timestamps::is_known_zone;
use crate::timestamps::parse_rfc3339;
use crate::timestamps::rfc3339_instant;
use crate::timestamps::zone_is_known;

verus! {

/// A sensor with its zone and its watermark: `last_update` is the instant,
/// in seconds since the Unix epoch, up to which its usage is accounted for.
/// It is read in `timezone`, the zone of the sensor's location.
#[derive(Clone, Debug)]
pub struct Sensor {
    pub sensor: client::Sensor,
    pub timezone: String,
    pub last_update: i64,
}

impl Sensor {
    /// The sensor has a location, and that location's zone is known.
    pub open spec fn wf(self) -> bool {
        &&& self.sensor.location matches Some(l) && l.tz@ == self.timezone@
        &&& is_known_zone(self.timezone@)
    }

    pub fn with_updated_timestamp(self, last_update: i64) -> (r: Sensor)
        ensures
            r == (Sensor { last_update, ..self }),
    {
        Sensor { last_update, ..self }
    }

    /// The query for this sensor's usage from its watermark up to `until`,
    /// both read as wall-clock times of its zone; the sensor's id names the
    /// query. Times the calendar cannot render are refused.
    pub fn usage_query(&self, until: i64) -> (r: Result<Query, ApiError>)
        ensures
            match (
                local_time_text(self.timezone@, self.last_update as int),
                local_time_text(self.timezone@, until as int),
            ) {
                (Some(since_text), Some(until_text)) => r matches Ok(q) && is_usage_query(
                    q,
                    self.sensor.id@,
                    since_text,
                    until_text,
                ),
                _ => r matches Err(ApiError::Domain(_)),
            },
    {
        let since_text = match local_time(self.timezone.as_str(), self.last_update) {
            Some(t) => t,
            None => return Err(ApiError::Domain(String::from_str("watermark out of range"))),
        };
        let until_text = match local_time(self.timezone.as_str(), until) {
            Some(t) => t,
            None => return Err(ApiError::Domain(String::from_str("query time out of range"))),
        };
        Ok(
            Query {
                request_id: self.sensor.id.clone(),
                bucket: QueryBucket::MIN,
                since_datetime: since_text,
                until_datetime: Some(until_text),
                group_multiplier: None,
                operation: Some(QueryOperation::SUM),
                sort_direction: None,
                units: None,
            },
        )
    }

    /// A freshly discovered sensor: its watermark is its last-seen time.
    /// A sensor without a location, with an unknown zone, or with a last-seen
    /// time that is not RFC 3339 is refused.
    pub fn try_from(sensor: client::Sensor) -> (r: Result<Sensor, ApiError>)
        ensures
            match sensor.location {
                None => r matches Err(ApiError::Domain(_)),
                Some(l) => if !is_known_zone(l.tz@) {
                    r matches Err(ApiError::Domain(_))
                } else {
                    match rfc3339_instant(sensor.last_seen@) {
                        None => r matches Err(ApiError::Domain(_)),
                        Some(t) => r matches Ok(s) && s.sensor == sensor && s.timezone == l.tz
                            && s.last_update == t && s.wf(),
                    }
                },
            },
    {
        let timezone = match &sensor.location {
            None => return Err(ApiError::Domain(String::from_str("fetch devices with location"))),
            Some(location) => location.tz.clone(),
        };
        if !zone_is_known(timezone.as_str()) {
            return Err(
                ApiError::Domain(
                    String::from_str("unknown sensor timezone ").concat(timezone.as_str()),
                ),
            );
        }
        match parse_rfc3339(sensor.last_seen.as_str()) {
            None => Err(
                ApiError::Domain(
                    String::from_str("unable to parse sensor last seen time ").concat(
                        sensor.last_seen.as_str(),
                    ),
                ),
            ),
            Some(last_update) => Ok(Sensor { sensor, timezone, last_update }),
        }
    }
}

} // verus!
