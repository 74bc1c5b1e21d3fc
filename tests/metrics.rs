use flume_water::bridge::Bridge;
use flume_water::metrics::battery_level;
use flume_water::metrics::budget_liters;
use flume_water::metrics::update_bridge;
use flume_water::metrics::Gauge;

#[test]
fn battery_levels_in_quarters() {
    assert_eq!(battery_level(&"high".to_string()), 4);
    assert_eq!(battery_level(&"medium".to_string()), 2);
    assert_eq!(battery_level(&"low".to_string()), 1);
    assert_eq!(battery_level(&"unknown".to_string()), 0);
    assert_eq!(battery_level(&"".to_string()), 0);
    assert_eq!(battery_level(&"HIGH".to_string()), 0);
}

#[test]
fn budget_liters_conversion() {
    assert_eq!(budget_liters(0), 0);
    assert_eq!(budget_liters(1), 3);
    assert_eq!(budget_liters(100), 378);
    assert_eq!(budget_liters(10_000), 37_854);
    assert_eq!(budget_liters(u64::MAX), i64::MAX);
}

#[test]
fn bridge_gauges() {
    let g = update_bridge(&Bridge { location: "Home".to_string(), connected: true, product: "p".to_string() });
    assert_eq!(g.len(), 2);
    match &g[0] {
        Gauge::BridgeProduct { location, product } => {
            assert_eq!(location, "Home");
            assert_eq!(product, "p");
        }
        _ => panic!("expected the product gauge"),
    }
    assert!(matches!(&g[1], Gauge::BridgeConnected { connected: true, .. }));
}
