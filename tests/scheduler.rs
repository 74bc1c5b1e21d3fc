use flume_water::classifier::classify;
use flume_water::classifier::exit_code;
use flume_water::classifier::Disposition;
use flume_water::client;
use flume_water::client::ApiError;
use flume_water::client::Body;
use flume_water::client::Budget;
use flume_water::client::BudgetPeriod;
use flume_water::client::Data;
use flume_water::client::Location;
use flume_water::client::QueryResult;
use flume_water::client::Request;
use flume_water::client::Response;
use flume_water::client::Token;
use flume_water::client::UsageProfile;
use flume_water::client::User;
use flume_water::downloader::Downloader;
use flume_water::downloader::Phase;
use flume_water::downloader::Publish;
use flume_water::flume::Flume;
use flume_water::metrics::Gauge;

const T0: i64 = 1_700_000_000;

fn envelope(data: Vec<Data<f64>>) -> Response<f64> {
    Response {
        success: true,
        code: 0,
        message: "".to_string(),
        http_code: 200,
        http_message: "OK".to_string(),
        detailed: serde_json::Value::Null,
        count: data.len() as u64,
        data,
        pagination: None,
    }
}

fn location(name: &str) -> Location {
    Location {
        id: 1,
        name: name.to_string(),
        primary_location: true,
        address: "".to_string(),
        address_2: "".to_string(),
        city: "".to_string(),
        state: "".to_string(),
        postal_code: "".to_string(),
        country: "".to_string(),
        tz: "UTC".to_string(),
        installation: "".to_string(),
        away_mode: false,
        usage_profile: UsageProfile {
            id: 1,
            score: 0,
            residents: "".to_string(),
            bathrooms: "".to_string(),
            irrigation: "".to_string(),
            irrigation_freq: "".to_string(),
            irrigation_max_cycle: 0,
            has_pool: false,
        },
        user: None,
    }
}

fn sensor(id: &str, last_seen: &str) -> Data<f64> {
    Data::Sensor(client::Sensor {
        id: id.to_string(),
        bridge_id: "b-1".to_string(),
        oriented: true,
        last_seen: last_seen.to_string(),
        connected: true,
        battery_level: "medium".to_string(),
        product: "flume2".to_string(),
        user: None,
        location: Some(location("Home")),
    })
}

fn bridge() -> Data<f64> {
    Data::Bridge(client::Bridge {
        id: "b-1".to_string(),
        last_seen: "2023-11-14T22:13:20Z".to_string(),
        connected: true,
        supports_ap: false,
        product: "flume2bridge".to_string(),
        user: None,
        location: Some(location("Home")),
    })
}

fn user() -> Data<f64> {
    Data::User(User {
        id: 42,
        email_address: "".to_string(),
        first_name: "".to_string(),
        phone: "".to_string(),
        status: "".to_string(),
        user_type: "".to_string(),
    })
}

fn usage(id: &str, values: Vec<f64>) -> Response<f64> {
    let buckets = values.into_iter().map(|value| QueryResult { value }).collect();
    envelope(vec![Data::QueryResults(vec![(id.to_string(), buckets)])])
}

fn budgets() -> Response<f64> {
    envelope(vec![Data::Budget(Budget {
        id: 1,
        name: "house".to_string(),
        period: BudgetPeriod::DAILY,
        value: 100,
        thresholds: vec![],
        actual: 3.0,
    })])
}

fn timeout() -> ApiError {
    ApiError::Transport { timeout: true, connect: false, request: false, message: "timed out".to_string() }
}

fn scheduler() -> Downloader {
    let flume = Flume::new(
        "cid".to_string(),
        "secret".to_string(),
        Token {
            token_type: "bearer".to_string(),
            access_token: "a0".to_string(),
            expires_in: 86_400,
            refresh_token: "r0".to_string(),
        },
        0,
    );
    Downloader::new(flume, 3600, 300, 60)
}

fn window(q: &Request) -> (String, String) {
    match &q.body {
        Some(Body::Query(b)) => (
            b.queries[0].since_datetime.clone(),
            b.queries[0].until_datetime.clone().unwrap(),
        ),
        _ => panic!("expected a usage query"),
    }
}

/// Runs the first tick at monotonic time 0 and wall time T0 against an
/// inventory of one sensor last seen an hour earlier; returns the window of
/// its usage query.
fn first_tick(d: &mut Downloader) -> (String, String) {
    d.begin_tick();
    let q = d.next_call(0, T0).unwrap().unwrap();
    assert_eq!(q.uri, "https://api.flumewater.com/me");
    d.complete(Ok(envelope(vec![user()])), 0).unwrap();
    let q = d.next_call(0, T0).unwrap().unwrap();
    assert_eq!(q.uri, "https://api.flumewater.com/users/42/devices?location=true");
    d.complete(Ok(envelope(vec![bridge(), sensor("s-1", "2023-11-14T21:13:20Z")])), 0).unwrap();
    let q = d.next_call(0, T0).unwrap().unwrap();
    assert_eq!(q.uri, "https://api.flumewater.com/users/42/devices/s-1/query");
    let w = window(&q);
    d.complete(Ok(usage("s-1", vec![12.5])), 0).unwrap();
    let q = d.next_call(0, T0).unwrap().unwrap();
    assert_eq!(q.uri, "https://api.flumewater.com/users/42/devices/s-1/budgets");
    d.complete(Ok(budgets()), 0).unwrap();
    assert!(d.next_call(0, T0).unwrap().is_none());
    w
}

#[test]
fn windows_follow_the_watermark() {
    let mut d = scheduler();
    let w = first_tick(&mut d);
    assert_eq!(w, ("2023-11-14 21:13:20".to_string(), "2023-11-14 22:13:20".to_string()));
    assert_eq!(d.sensors[0].last_update, T0);
    // One minute later the inventory is not due: only the usage query runs.
    d.begin_tick();
    let q = d.next_call(60_000, T0 + 60).unwrap().unwrap();
    assert_eq!(window(&q), ("2023-11-14 22:13:20".to_string(), "2023-11-14 22:14:20".to_string()));
    d.complete(Ok(usage("s-1", vec![1.0])), 60_000).unwrap();
    assert_eq!(d.sensors[0].last_update, T0 + 60);
    assert!(d.next_call(60_000, T0 + 60).unwrap().is_none());
}

#[test]
fn tick_publishes_gauges_and_usage() {
    let mut d = scheduler();
    d.begin_tick();
    d.next_call(0, T0).unwrap();
    d.complete(Ok(envelope(vec![user()])), 0).unwrap();
    d.next_call(0, T0).unwrap();
    let p = d.complete(Ok(envelope(vec![bridge(), sensor("s-1", "2023-11-14T21:13:20Z")])), 0);
    match p {
        Ok(Publish::Gauges(g)) => {
            assert_eq!(g.len(), 5);
            assert!(matches!(&g[3], Gauge::SensorBattery { quarters: 2, .. }));
        }
        _ => panic!("expected inventory gauges"),
    }
    d.next_call(0, T0).unwrap();
    match d.complete(Ok(usage("s-1", vec![12.5])), 0) {
        Ok(Publish::Usage { location, volume }) => {
            assert_eq!(location, "Home");
            assert_eq!(volume, Some(12.5));
        }
        _ => panic!("expected usage"),
    }
    d.next_call(0, T0).unwrap();
    match d.complete(Ok(budgets()), 0) {
        Ok(Publish::Gauges(g)) => match &g[0] {
            Gauge::Budget { location, period, name, liters } => {
                assert_eq!(location, "Home");
                assert_eq!(*period, BudgetPeriod::DAILY);
                assert_eq!(name, "house");
                assert_eq!(*liters, 378);
            }
            _ => panic!("expected a budget gauge"),
        },
        _ => panic!("expected budget gauges"),
    }
}

#[test]
fn empty_usage_still_advances_watermark() {
    let mut d = scheduler();
    first_tick(&mut d);
    d.begin_tick();
    d.next_call(60_000, T0 + 60).unwrap();
    match d.complete(Ok(usage("s-1", vec![])), 60_000) {
        Ok(Publish::Usage { volume, .. }) => assert_eq!(volume, None),
        _ => panic!("expected usage"),
    }
    assert_eq!(d.sensors[0].last_update, T0 + 60);
    d.begin_tick();
    let q = d.next_call(120_000, T0 + 120).unwrap().unwrap();
    assert_eq!(window(&q), ("2023-11-14 22:14:20".to_string(), "2023-11-14 22:15:20".to_string()));
}

#[test]
fn vanished_sensor_is_not_queried() {
    let mut d = scheduler();
    first_tick(&mut d);
    d.begin_tick();
    let q = d.next_call(300_000, T0 + 300).unwrap().unwrap();
    assert_eq!(q.uri, "https://api.flumewater.com/users/42/devices?location=true");
    d.complete(Ok(envelope(vec![bridge()])), 300_000).unwrap();
    assert_eq!(d.sensors.len(), 0);
    assert!(d.next_call(300_000, T0 + 300).unwrap().is_none());
}

#[test]
fn known_sensor_keeps_watermark_on_inventory() {
    let mut d = scheduler();
    first_tick(&mut d);
    d.begin_tick();
    d.next_call(300_000, T0 + 300).unwrap();
    d.complete(
        Ok(envelope(vec![sensor("s-1", "2023-11-14T20:00:00Z"), sensor("s-2", "2023-11-14T22:00:00Z")])),
        300_000,
    )
    .unwrap();
    assert_eq!(d.sensors[0].last_update, T0);
    assert_eq!(d.sensors[1].last_update, T0 - 800);
}

#[test]
fn transport_failure_ends_only_the_tick() {
    let mut d = scheduler();
    first_tick(&mut d);
    d.begin_tick();
    d.next_call(60_000, T0 + 60).unwrap();
    let e = d.complete::<f64>(Err(timeout()), 60_000).unwrap_err();
    assert_eq!(classify(&e), Disposition::Ignorable);
    assert_eq!(exit_code(classify(&e)), None);
    assert_eq!(d.phase, Phase::Idle);
    assert_eq!(d.sensors[0].last_update, T0);
    d.begin_tick();
    let q = d.next_call(120_000, T0 + 120).unwrap().unwrap();
    assert_eq!(window(&q), ("2023-11-14 22:13:20".to_string(), "2023-11-14 22:15:20".to_string()));
}

#[test]
fn shape_and_application_failures_are_fatal() {
    let mut d = scheduler();
    first_tick(&mut d);
    d.begin_tick();
    d.next_call(60_000, T0 + 60).unwrap();
    let e = d.complete(Ok(envelope(vec![user()])), 60_000).unwrap_err();
    assert!(matches!(e, ApiError::Shape(_)));
    assert_eq!(classify(&e), Disposition::Fatal);
    assert_eq!(exit_code(classify(&e)), Some(1));
    let mut bad = envelope(vec![]);
    bad.success = false;
    d.begin_tick();
    d.next_call(120_000, T0 + 120).unwrap();
    let e = d.complete(Ok(bad), 120_000).unwrap_err();
    assert!(matches!(e, ApiError::Application(_)));
    assert_eq!(classify(&e), Disposition::Fatal);
}

#[test]
fn transport_failure_kinds() {
    let mk = |timeout, connect, request| ApiError::Transport { timeout, connect, request, message: "".to_string() };
    assert_eq!(classify(&mk(false, true, false)), Disposition::Ignorable);
    assert_eq!(classify(&mk(false, false, true)), Disposition::Ignorable);
    assert_eq!(classify(&mk(false, false, false)), Disposition::Fatal);
    assert_eq!(classify(&ApiError::Protocol("".to_string())), Disposition::Fatal);
    assert_eq!(classify(&ApiError::Domain("".to_string())), Disposition::Fatal);
}

#[test]
fn expired_token_is_refreshed_before_the_call() {
    let flume = Flume::new(
        "cid".to_string(),
        "secret".to_string(),
        Token { token_type: "".to_string(), access_token: "a0".to_string(), expires_in: 60, refresh_token: "r0".to_string() },
        0,
    );
    let mut d = Downloader::new(flume, 3600, 300, 60);
    d.begin_tick();
    let q = d.next_call(61_000, T0).unwrap().unwrap();
    assert_eq!(q.name, "refresh token");
    let grant = envelope(vec![Data::Token(Token {
        token_type: "".to_string(),
        access_token: "a1".to_string(),
        expires_in: 60,
        refresh_token: "r1".to_string(),
    })]);
    d.complete(Ok(grant), 61_000).unwrap();
    let q = d.next_call(61_000, T0).unwrap().unwrap();
    assert_eq!(q.name, "user id");
    assert_eq!(q.access_token, Some("a1".to_string()));
}

#[test]
fn answer_without_a_call_is_internal_error() {
    let mut d = scheduler();
    assert!(matches!(d.complete(Ok(usage("s-1", vec![])), 0), Err(ApiError::Internal(_))));
}

#[test]
fn out_of_range_watermark_is_domain_error() {
    let mut d = scheduler();
    first_tick(&mut d);
    d.begin_tick();
    let r = d.next_call(60_000, i64::MAX);
    assert!(matches!(r, Err(ApiError::Domain(_))));
    assert_eq!(d.phase, Phase::Idle);
}
