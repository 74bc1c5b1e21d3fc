use flume_water::bridge::Bridge;
use flume_water::client;
use flume_water::client::ApiError;
use flume_water::client::Location;
use flume_water::client::QueryOperation;
use flume_water::client::UsageProfile;
use flume_water::device::Device;
use flume_water::sensor::Sensor;

fn location(name: &str, tz: &str) -> Location {
    Location {
        id: 1,
        name: name.to_string(),
        primary_location: true,
        address: "1 Main St".to_string(),
        address_2: "".to_string(),
        city: "Springfield".to_string(),
        state: "OR".to_string(),
        postal_code: "97477".to_string(),
        country: "US".to_string(),
        tz: tz.to_string(),
        installation: "".to_string(),
        away_mode: false,
        usage_profile: UsageProfile {
            id: 1,
            score: 0,
            residents: "2".to_string(),
            bathrooms: "1".to_string(),
            irrigation: "".to_string(),
            irrigation_freq: "".to_string(),
            irrigation_max_cycle: 0,
            has_pool: false,
        },
        user: None,
    }
}

fn wire_sensor(tz: &str, last_seen: &str) -> client::Sensor {
    client::Sensor {
        id: "s-1".to_string(),
        bridge_id: "b-1".to_string(),
        oriented: true,
        last_seen: last_seen.to_string(),
        connected: true,
        battery_level: "high".to_string(),
        product: "flume2".to_string(),
        user: None,
        location: Some(location("Home", tz)),
    }
}

#[test]
fn bridge_takes_location_name() {
    let w = client::Bridge {
        id: "b-1".to_string(),
        last_seen: "2023-11-14T21:13:20Z".to_string(),
        connected: false,
        supports_ap: true,
        product: "flume2bridge".to_string(),
        user: None,
        location: Some(location("Cabin", "UTC")),
    };
    let b = Bridge::try_from(w).unwrap();
    assert_eq!(b.location, "Cabin");
    assert!(!b.connected);
    assert_eq!(b.product, "flume2bridge");
}

#[test]
fn bridge_without_location_is_refused() {
    let w = client::Bridge {
        id: "b-1".to_string(),
        last_seen: "".to_string(),
        connected: true,
        supports_ap: true,
        product: "p".to_string(),
        user: None,
        location: None,
    };
    assert!(matches!(Bridge::try_from(w), Err(ApiError::Domain(_))));
}

#[test]
fn sensor_watermark_starts_at_last_seen() {
    let s = Sensor::try_from(wire_sensor("America/New_York", "2023-11-14T17:13:20-05:00")).unwrap();
    assert_eq!(s.last_update, 1_700_000_000);
    assert_eq!(s.timezone, "America/New_York");
}

#[test]
fn sensor_with_unknown_zone_is_refused() {
    let r = Sensor::try_from(wire_sensor("Mars/Olympus_Mons", "2023-11-14T22:13:20Z"));
    assert!(matches!(r, Err(ApiError::Domain(_))));
}

#[test]
fn sensor_with_bad_last_seen_is_refused() {
    let r = Sensor::try_from(wire_sensor("UTC", "yesterday"));
    assert!(matches!(r, Err(ApiError::Domain(_))));
}

#[test]
fn sensor_without_location_is_refused() {
    let mut w = wire_sensor("UTC", "2023-11-14T22:13:20Z");
    w.location = None;
    assert!(matches!(Sensor::try_from(w), Err(ApiError::Domain(_))));
}

#[test]
fn device_conversion_follows_the_variant() {
    let d = Device::try_from(client::Device::Sensor(wire_sensor("UTC", "2023-11-14T22:13:20Z")));
    assert!(matches!(d, Ok(Device::Sensor(_))));
    let d = Device::try_from(client::Device::Sensor(wire_sensor("Nowhere", "2023-11-14T22:13:20Z")));
    assert!(matches!(d, Err(ApiError::Domain(_))));
}

#[test]
fn usage_query_reads_in_local_time() {
    let s = Sensor::try_from(wire_sensor("America/New_York", "2023-11-14T22:13:20Z")).unwrap();
    let q = s.usage_query(1_700_003_600).unwrap();
    assert_eq!(q.request_id, "s-1");
    assert_eq!(q.since_datetime, "2023-11-14 17:13:20");
    assert_eq!(q.until_datetime, Some("2023-11-14 18:13:20".to_string()));
    assert_eq!(q.operation, Some(QueryOperation::SUM));
}

#[test]
fn with_updated_timestamp_moves_only_the_watermark() {
    let s = Sensor::try_from(wire_sensor("UTC", "2023-11-14T22:13:20Z")).unwrap();
    let t = s.with_updated_timestamp(1_700_000_060);
    assert_eq!(t.last_update, 1_700_000_060);
    assert_eq!(t.sensor.id, "s-1");
    assert_eq!(t.timezone, "UTC");
}
