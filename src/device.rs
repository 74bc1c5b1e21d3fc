//! A device of the inventory, in the domain model.

use vstd::prelude::*;

use crate::bridge::Bridge;
use crate::client;
use crate::client::ApiError;
use crate::sensor::Sensor;
use crate::timestamps::is_known_zone;
use crate::timestamps::rfc3339_instant;

verus! {

pub enum Device {
    Bridge(Bridge),
    Sensor(Sensor),
}

/// Whether a wire sensor can enter the domain model: it has a location in a
/// known zone and an RFC 3339 last-seen time.
pub open spec fn sensor_admissible(s: client::Sensor) -> bool {
    &&& s.location matches Some(l) && is_known_zone(l.tz@)
    &&& rfc3339_instant(s.last_seen@) is Some
}

/// Whether a wire device can enter the domain model.
pub open spec fn device_admissible(d: client::Device) -> bool {
    match d {
        client::Device::Bridge(b) => b.location is Some,
        client::Device::Sensor(s) => sensor_admissible(s),
    }
}

/// The domain sensor made of an admissible wire sensor: its watermark
/// starts at its last-seen time.
pub open spec fn sensor_of(w: client::Sensor) -> Sensor {
    Sensor {
        sensor: w,
        timezone: w.location->Some_0.tz,
        last_update: rfc3339_instant(w.last_seen@)->Some_0 as i64,
    }
}

/// The domain bridge made of a wire bridge with a location.
pub open spec fn bridge_of(w: client::Bridge) -> Bridge {
    Bridge { location: w.location->Some_0.name, connected: w.connected, product: w.product }
}

/// The domain device made of an admissible wire device.
pub open spec fn device_model(w: client::Device) -> Device {
    match w {
        client::Device::Bridge(b) => Device::Bridge(bridge_of(b)),
        client::Device::Sensor(s) => Device::Sensor(sensor_of(s)),
    }
}

impl Device {
    pub fn try_from(device: client::Device) -> (r: Result<Device, ApiError>)
        ensures
            device_admissible(device) <==> r is Ok,
            !device_admissible(device) ==> r matches Err(ApiError::Domain(_)),
            r matches Ok(d) ==> d == device_model(device),
            r matches Ok(Device::Sensor(s)) ==> s.wf(),
    {
        match device {
            client::Device::Bridge(b) => match Bridge::try_from(b) {
                Ok(b) => Ok(Device::Bridge(b)),
                Err(e) => Err(e),
            },
            client::Device::Sensor(s) => match Sensor::try_from(s) {
                Ok(s) => Ok(Device::Sensor(s)),
                Err(e) => Err(e),
            },
        }
    }
}

} // verus!
