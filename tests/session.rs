use flume_water::client::ApiError;
use flume_water::client::Body;
use flume_water::client::Data;
use flume_water::client::Response;
use flume_water::client::Token;
use flume_water::configuration::Configuration;
use flume_water::flume::Flume;
use flume_water::flume_builder::FlumeBuilder;

fn grant(access: &str, expires_in: u64) -> Response<f64> {
    Response {
        success: true,
        code: 0,
        message: "".to_string(),
        http_code: 200,
        http_message: "OK".to_string(),
        detailed: serde_json::Value::Null,
        data: vec![Data::Token(Token {
            token_type: "bearer".to_string(),
            access_token: access.to_string(),
            expires_in,
            refresh_token: format!("{}-refresh", access),
        })],
        count: 1,
        pagination: None,
    }
}

fn session(expires_in: u64, fetched_at: u64) -> Flume {
    Flume::new(
        "cid".to_string(),
        "secret".to_string(),
        Token {
            token_type: "bearer".to_string(),
            access_token: "a0".to_string(),
            expires_in,
            refresh_token: "r0".to_string(),
        },
        fetched_at,
    )
}

#[test]
fn token_is_reused_until_it_expires() {
    let f = session(3600, 1_000);
    assert!(f.ensure_valid(1_000 + 3_599_000).is_none());
    let q = f.ensure_valid(1_000 + 3_601_000).expect("a refresh");
    match q.body {
        Some(Body::Refresh(b)) => {
            assert_eq!(b.refresh_token, "r0");
            assert_eq!(b.client_id, "cid");
        }
        _ => panic!("expected a refresh grant"),
    }
}

#[test]
fn token_is_stale_exactly_at_expiry() {
    let f = session(3600, 0);
    assert!(f.ensure_valid(3_599_999).is_none());
    assert!(f.ensure_valid(3_600_000).is_some());
}

#[test]
fn refresh_once_per_instant() {
    let mut f = session(3600, 0);
    let now = 3_601_000;
    assert!(f.ensure_valid(now).is_some());
    f.refreshed(Ok(grant("a1", 3600)), now).unwrap();
    assert_eq!(f.access_token, "a1");
    assert_eq!(f.refresh_token, "a1-refresh");
    assert_eq!(f.token_fetch_time, now);
    assert!(f.ensure_valid(now).is_none());
}

#[test]
fn failed_refresh_keeps_old_credential() {
    let mut f = session(3600, 0);
    let e = ApiError::Transport { timeout: false, connect: true, request: false, message: "".to_string() };
    assert!(f.refreshed::<f64>(Err(e), 4_000_000).is_err());
    assert_eq!(f.access_token, "a0");
    assert_eq!(f.token_fetch_time, 0);
}

#[test]
fn builder_opens_session_from_grant() {
    let mut c = Configuration::default();
    c.client_id = "cid".to_string();
    c.secret_id = "sec".to_string();
    c.username = "u".to_string();
    c.password = "p".to_string();
    let b = FlumeBuilder::from_configuration(c);
    let q = b.request();
    assert_eq!(q.uri, "https://api.flumewater.com/oauth/token");
    match &q.body {
        Some(Body::Authenticate(a)) => {
            assert_eq!(a.username, "u");
            assert_eq!(a.client_secret, "sec");
        }
        _ => panic!("expected a password grant"),
    }
    let f = b.build(Ok(grant("first", 3600)), 17).unwrap();
    assert_eq!(f.access_token, "first");
    assert_eq!(f.client_id, "cid");
    assert_eq!(f.token_fetch_time, 17);
}

#[test]
fn configuration_defaults() {
    let c = Configuration::default();
    assert_eq!(c.bind_address(), "0.0.0.0:9160");
    assert_eq!(c.budget_interval(), 3600);
    assert_eq!(c.device_interval(), 300);
    assert_eq!(c.query_interval(), 60);
    assert_eq!(c.flume_timeout(), 1000);
}

#[test]
fn configuration_settings_override_defaults() {
    let mut c = Configuration::default();
    c.bind_address = Some("127.0.0.1:9000".to_string());
    c.query_interval = Some(120);
    c.flume_timeout = Some(2500);
    c.username = "me".to_string();
    assert_eq!(c.bind_address(), "127.0.0.1:9000");
    assert_eq!(c.query_interval(), 120);
    assert_eq!(c.flume_timeout(), 2500);
    assert_eq!(c.username(), "me");
    assert_eq!(c.password(), "");
}
