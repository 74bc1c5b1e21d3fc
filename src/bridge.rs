//! A bridge: a connectivity relay that reports no usage.

use vstd::prelude::*;

use crate::client;
use crate::client::ApiError;

verus! {

pub struct Bridge {
    pub location: String,
    pub connected: bool,
    pub product: String,
}

impl Bridge {
    /// A bridge is published under its location's name; one without a
    /// location is refused.
    pub fn try_from(bridge: client::Bridge) -> (r: Result<Bridge, ApiError>)
        ensures
            match bridge.location {
                None => r matches Err(ApiError::Domain(_)),
                Some(l) => r matches Ok(b) && b.location == l.name && b.connected
                    == bridge.connected && b.product == bridge.product,
            },
    {
        match bridge.location {
            None => Err(ApiError::Domain(String::from_str("fetch devices with location"))),
            Some(location) => Ok(
                Bridge {
                    location: location.name,
                    connected: bridge.connected,
                    product: bridge.product,
                },
            ),
        }
    }
}

} // verus!
