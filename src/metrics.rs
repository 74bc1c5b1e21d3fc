//! What the engine publishes: gauge settings for the metric sinks.

use vstd::prelude::*;

use crate::bridge::Bridge;
use crate::client::Budget;
use crate::client::BudgetPeriod;
use crate::sensor::Sensor;

verus! {

/// One gauge setting. A product gauge is set to 1; a connectivity gauge to 1
/// or 0; the battery gauge to `quarters / 4`; a budget gauge to its limit in
/// liters.
#[derive(Clone, Debug)]
pub enum Gauge {
    BridgeProduct { location: String, product: String },
    BridgeConnected { location: String, connected: bool },
    SensorProduct { location: String, product: String },
    SensorBattery { location: String, quarters: u8 },
    SensorConnected { location: String, connected: bool },
    Budget { location: String, period: BudgetPeriod, name: String, liters: i64 },
}

/// A battery level as a gauge, in quarters: `high` is 4 (full), `medium` 2,
/// `low` 1, and any other text 0.
pub open spec fn battery_quarters(level: Seq<char>) -> u8 {
    if level == "high"@ {
        4
    } else if level == "medium"@ {
        2
    } else if level == "low"@ {
        1
    } else {
        0
    }
}

pub fn battery_level(level: &String) -> (r: u8)
    ensures
        r == battery_quarters(level@),
{
    if *level == String::from_str("high") {
        4
    } else if *level == String::from_str("medium") {
        2
    } else if *level == String::from_str("low") {
        1
    } else {
        0
    }
}

/// Liters in `gallons` gallons, at 3.7854 liters a gallon, rounded down and
/// capped at the largest `i64`.
pub open spec fn liters_of(gallons: u64) -> int {
    let l = gallons * 37854 / 10000;
    if l > i64::MAX {
        i64::MAX as int
    } else {
        l
    }
}

pub fn budget_liters(gallons: u64) -> (r: i64)
    ensures
        r == liters_of(gallons),
{
    let l: u128 = (gallons as u128) * 37854 / 10000;
    if l > i64::MAX as u128 {
        i64::MAX
    } else {
        l as i64
    }
}

pub open spec fn bridge_gauges(b: Bridge) -> Seq<Gauge> {
    seq![
        Gauge::BridgeProduct { location: b.location, product: b.product },
        Gauge::BridgeConnected { location: b.location, connected: b.connected },
    ]
}

pub open spec fn sensor_gauges(s: Sensor) -> Seq<Gauge> {
    let location = s.sensor.location->Some_0.name;
    seq![
        Gauge::SensorProduct { location: location, product: s.sensor.product },
        Gauge::SensorBattery {
            location: location,
            quarters: battery_quarters(s.sensor.battery_level@),
        },
        Gauge::SensorConnected { location: location, connected: s.sensor.connected },
    ]
}

pub open spec fn budget_gauge<V>(location: String, b: Budget<V>) -> Gauge {
    Gauge::Budget { location, period: b.period, name: b.name, liters: liters_of(b.value) as i64 }
}

/// The limit gauges of budgets `bs` of a sensor at `location`, in order.
pub open spec fn budget_gauges_of<V>(location: String, bs: Seq<Budget<V>>) -> Seq<Gauge> {
    bs.map_values(|b: Budget<V>| budget_gauge(location, b))
}

/// The product and connectivity gauges of a bridge.
pub fn update_bridge(bridge: &Bridge) -> (r: Vec<Gauge>)
    ensures
        r@ == bridge_gauges(*bridge),
{
    let mut r = Vec::new();
    r.push(
        Gauge::BridgeProduct { location: bridge.location.clone(), product: bridge.product.clone() },
    );
    r.push(Gauge::BridgeConnected { location: bridge.location.clone(), connected: bridge.connected });
    assert(r@ =~= bridge_gauges(*bridge));
    r
}

/// The product, battery and connectivity gauges of a sensor, under its
/// location's name.
pub fn update_sensor(sensor: &Sensor) -> (r: Vec<Gauge>)
    requires
        sensor.wf(),
    ensures
        r@ == sensor_gauges(*sensor),
{
    let location = match &sensor.sensor.location {
        Some(l) => l.name.clone(),
        None => String::new(),
    };
    let mut r = Vec::new();
    r.push(Gauge::SensorProduct { location: location.clone(), product: sensor.sensor.product.clone() });
    r.push(
        Gauge::SensorBattery {
            location: location.clone(),
            quarters: battery_level(&sensor.sensor.battery_level),
        },
    );
    r.push(Gauge::SensorConnected { location, connected: sensor.sensor.connected });
    assert(r@ =~= sensor_gauges(*sensor));
    r
}

/// The limit gauges of the budgets of a sensor at `location`.
pub fn budget_gauges<V>(location: &String, budgets: Vec<Budget<V>>) -> (r: Vec<Gauge>)
    ensures
        r@ == budget_gauges_of(*location, budgets@),
{
    let ghost orig = budgets@;
    let mut budgets = budgets;
    let mut r: Vec<Gauge> = Vec::new();
    while budgets.len() > 0
        invariant
            r@.len() + budgets@.len() == orig.len(),
            budgets@ == orig.subrange(r@.len() as int, orig.len() as int),
            r@ == budget_gauges_of(*location, orig.subrange(0, r@.len() as int)),
        decreases budgets@.len(),
    {
        let ghost k = r@.len() as int;
        let b = budgets.remove(0);
        assert(b == orig[k]);
        assert(budgets@ =~= orig.subrange(k + 1, orig.len() as int));
        r.push(
            Gauge::Budget {
                location: location.clone(),
                period: b.period,
                name: b.name,
                liters: budget_liters(b.value),
            },
        );
        assert(r@ =~= budget_gauges_of(*location, orig.subrange(0, k + 1)));
    }
    assert(orig.subrange(0, orig.len() as int) =~= orig);
    r
}

} // verus!
