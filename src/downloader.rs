//! The scheduler: one tick at a time, it decides which calls the service
//! gets, in which order, and what their answers change.
//!
//! A tick refreshes the inventory when its window has elapsed, then queries
//! the usage of every known sensor from its watermark up to now, then
//! refreshes budgets when their window has elapsed. Every call is preceded
//! by the credential check and, until it is known, the user's identity. The
//! caller performs each call it is handed and feeds the answer back; the
//! first failure ends the tick and leaves everything learned so far in place.

use vstd::prelude::*;

use crate::client;
use crate::client::ApiError;
use crate::client::Request;
use crate::client::Response;
use crate::client::device_path;
use crate::client::devices_path;
use crate::device::Device;
use crate::device::device_admissible;
use crate::device::device_model;
use crate::flume::Flume;
use crate::flume::has_elapsed;
use crate::flume::seconds_elapsed;
use crate::metrics::Gauge;
use crate::metrics::bridge_gauges;
use crate::metrics::budget_gauges_of;
use crate::metrics::budget_gauges;
use crate::metrics::sensor_gauges;
use crate::metrics::update_bridge;
use crate::metrics::update_sensor;
use crate::sensor::Sensor;
use crate::timestamps::local_time_text;
use crate::timestamps::rfc3339_instant;
use crate::classifier::is_ignorable;

verus! {

/// Where a tick stands.
#[derive(Clone, Copy, Debug, PartialEq, Eq, Structural)]
pub enum Phase {
    /// No tick in progress.
    Idle,
    /// The inventory step is next.
    Inventory,
    /// The usage of the sensor at this index is next.
    Usage(usize),
    /// The budgets of the sensor at this index are next.
    Budgets(usize),
}

/// The call whose answer is awaited.
#[derive(Clone, Copy, Debug, PartialEq, Eq, Structural)]
pub enum Pending {
    Nothing,
    /// A credential refresh sent at `started` (monotonic milliseconds).
    Refresh { started: u64 },
    Identity,
    Devices,
    /// The usage query of sensor `index`, whose window ends at `until`.
    Usage { index: usize, until: i64 },
    Budgets { index: usize },
}

/// What the answer to a call gives the metric sinks.
#[derive(Debug)]
pub enum Publish<V> {
    Nothing,
    Gauges(Vec<Gauge>),
    /// Usage to add to the counter of `location`; `None` is zero usage.
    Usage { location: String, volume: Option<V> },
}

/// The scheduler's state. Intervals are in seconds; refresh times are
/// monotonic milliseconds; the sensor set is the one of the latest
/// inventory, each with its watermark.
pub struct Downloader {
    pub budget_interval: u64,
    pub device_interval: u64,
    pub query_interval: u64,
    pub flume: Flume,
    pub user_id: Option<i64>,
    pub budgets_last_update: Option<u64>,
    pub devices_last_update: Option<u64>,
    pub sensors: Vec<Sensor>,
    pub phase: Phase,
    pub pending: Pending,
}

/// A refresh window is open at `now` when it never ran, or when `interval`
/// seconds have passed since it last did.
pub open spec fn due(last: Option<u64>, interval: u64, now: u64) -> bool {
    match last {
        None => true,
        Some(l) => has_elapsed(l, now, interval),
    }
}

fn is_due(last: Option<u64>, interval: u64, now: u64) -> (r: bool)
    ensures
        r == due(last, interval, now),
{
    match last {
        None => true,
        Some(l) => seconds_elapsed(l, now, interval),
    }
}

/// The sensors among `ds`, in order.
pub open spec fn sensors_in(ds: Seq<Device>) -> Seq<Sensor>
    decreases ds.len(),
{
    if ds.len() == 0 {
        seq![]
    } else {
        let rest = sensors_in(ds.drop_last());
        match ds.last() {
            Device::Sensor(s) => rest.push(s),
            Device::Bridge(_) => rest,
        }
    }
}

/// Sensor `s` of a new inventory with the watermark of the known sensor of
/// the same id, if there is one: a known sensor keeps the time up to which
/// its usage is accounted for, and only a freshly discovered one starts at
/// its last-seen time.
pub open spec fn carried(known: Seq<Sensor>, s: Sensor) -> Sensor {
    if exists|j: int| 0 <= j < known.len() && (#[trigger] known[j]).sensor.id@ == s.sensor.id@ {
        let j = choose|j: int|
            0 <= j < known.len() && (#[trigger] known[j]).sensor.id@ == s.sensor.id@ && forall|k: int|
                0 <= k < j ==> (#[trigger] known[k]).sensor.id@ != s.sensor.id@;
        Sensor { last_update: known[j].last_update, ..s }
    } else {
        s
    }
}

/// The sensor set after an inventory of devices `ds` replaces `known`.
pub open spec fn replaced(known: Seq<Sensor>, ds: Seq<Device>) -> Seq<Sensor> {
    sensors_in(ds).map_values(|s: Sensor| carried(known, s))
}

fn carry_watermark(known: &Vec<Sensor>, s: Sensor) -> (r: Sensor)
    ensures
        r == carried(known@, s),
{
    let mut j: usize = 0;
    while j < known.len()
        invariant
            j <= known@.len(),
            forall|k: int| 0 <= k < j ==> (#[trigger] known@[k]).sensor.id@ != s.sensor.id@,
        decreases known@.len() - j,
    {
        if known[j].sensor.id == s.sensor.id {
            let ghost chosen = choose|i: int|
                0 <= i < known@.len() && (#[trigger] known@[i]).sensor.id@ == s.sensor.id@
                    && forall|k: int| 0 <= k < i ==> (#[trigger] known@[k]).sensor.id@ != s.sensor.id@;
            assert(known@[j as int].sensor.id@ == s.sensor.id@);
            assert(chosen == j as int) by {
                if chosen < j {
                    assert(known@[chosen].sensor.id@ != s.sensor.id@);
                } else if chosen > j {
                    assert(known@[j as int].sensor.id@ != s.sensor.id@);
                }
            }
            return s.with_updated_timestamp(known[j].last_update);
        }
        j = j + 1;
    }
    s
}

/// The gauges of the devices `ds`, in order.
pub open spec fn inventory_gauges(ds: Seq<Device>) -> Seq<Gauge>
    decreases ds.len(),
{
    if ds.len() == 0 {
        seq![]
    } else {
        inventory_gauges(ds.drop_last()) + match ds.last() {
            Device::Sensor(s) => sensor_gauges(s),
            Device::Bridge(b) => bridge_gauges(b),
        }
    }
}

/// The domain model of admissible wire devices `ws`, in order.
pub open spec fn domain_of(ws: Seq<client::Device>) -> Seq<Device> {
    ws.map_values(|w: client::Device| device_model(w))
}

/// The domain devices an answer to a device listing yields, if every
/// record is a device that can enter the domain model.
pub open spec fn inventory<V>(outcome: Result<Response<V>, ApiError>) -> Option<Seq<Device>> {
    match client::listed(outcome) {
        Some(ws) => if forall|i: int| 0 <= i < ws.len() ==> device_admissible(#[trigger] ws[i]) {
            Some(domain_of(ws))
        } else {
            None
        },
        None => None,
    }
}

impl Downloader {
    pub open spec fn wf(self) -> bool {
        &&& forall|i: int| 0 <= i < self.sensors@.len() ==> (#[trigger] self.sensors@[i]).wf()
        &&& match self.phase {
            Phase::Usage(next) => next <= self.sensors@.len(),
            Phase::Budgets(next) => next <= self.sensors@.len(),
            _ => true,
        }
        &&& match self.pending {
            Pending::Nothing => true,
            Pending::Refresh { .. } => !(self.phase is Idle),
            Pending::Identity => !(self.phase is Idle),
            Pending::Devices => self.phase is Inventory,
            Pending::Usage { index, .. } => self.phase == Phase::Usage(index) && index
                < self.sensors@.len(),
            Pending::Budgets { index } => self.phase == Phase::Budgets(index) && index
                < self.sensors@.len(),
        }
    }

    /// The state after the tick in progress is given up: nothing awaited,
    /// everything learned kept.
    pub open spec fn aborted(self) -> Downloader {
        Downloader { phase: Phase::Idle, pending: Pending::Nothing, ..self }
    }

    /// The tick's position once the steps whose window is closed at `now`
    /// are passed over; finishing the budget step records `now`.
    pub open spec fn settled(self, now: u64) -> Downloader {
        let a = if self.phase is Inventory && !due(
            self.devices_last_update,
            self.device_interval,
            now,
        ) {
            Downloader { phase: Phase::Usage(0), ..self }
        } else {
            self
        };
        let b = if a.phase is Usage && a.phase->Usage_0 >= a.sensors@.len() {
            if due(a.budgets_last_update, a.budget_interval, now) {
                Downloader { phase: Phase::Budgets(0), ..a }
            } else {
                Downloader { phase: Phase::Idle, ..a }
            }
        } else {
            a
        };
        if b.phase is Budgets && b.phase->Budgets_0 >= b.sensors@.len() {
            Downloader { phase: Phase::Idle, budgets_last_update: Some(now), ..b }
        } else {
            b
        }
    }

    /// `r` is the next call of the tick at monotonic time `now` and wall time
    /// `wall` (seconds since the Unix epoch), and `after` the state that
    /// awaits its answer.
    pub open spec fn issues(
        self,
        now: u64,
        wall: i64,
        after: Downloader,
        r: Result<Option<Request>, ApiError>,
    ) -> bool {
        let s = self.settled(now);
        let token = s.flume.access_token@;
        if s.phase is Idle {
            r == Ok::<Option<Request>, ApiError>(None) && after == Downloader {
                pending: Pending::Nothing,
                ..s
            }
        } else if s.flume.is_stale(now) {
            &&& r matches Ok(Some(q)) && s.flume.is_refresh(q)
            &&& after == Downloader { pending: Pending::Refresh { started: now }, ..s }
        } else if s.user_id is None {
            &&& r matches Ok(Some(q)) && q.is_get("user id"@, "/me"@, token)
            &&& after == Downloader { pending: Pending::Identity, ..s }
        } else {
            let uid = s.user_id->Some_0 as int;
            match s.phase {
                Phase::Inventory => {
                    &&& r matches Ok(Some(q)) && q.is_get("devices"@, devices_path(uid), token)
                    &&& after == Downloader { pending: Pending::Devices, ..s }
                },
                Phase::Usage(i) => {
                    let sensor = s.sensors@[i as int];
                    match (
                        local_time_text(sensor.timezone@, sensor.last_update as int),
                        local_time_text(sensor.timezone@, wall as int),
                    ) {
                        (Some(since), Some(until)) => {
                            &&& r matches Ok(Some(q)) && q.is_usage_request(
                                token,
                                uid,
                                sensor.sensor.id@,
                                since,
                                until,
                            )
                            &&& after == Downloader {
                                pending: Pending::Usage { index: i, until: wall },
                                ..s
                            }
                        },
                        _ => r matches Err(ApiError::Domain(_)) && after == s.aborted(),
                    }
                },
                Phase::Budgets(i) => {
                    &&& r matches Ok(Some(q)) && q.is_get(
                        "budgets"@,
                        device_path(uid, s.sensors@[i as int].sensor.id@, "/budgets"@),
                        token,
                    )
                    &&& after == Downloader { pending: Pending::Budgets { index: i }, ..s }
                },
                Phase::Idle => false,
            }
        }
    }

    /// `after` and `r` are what the answer `outcome`, received at monotonic
    /// time `now`, makes of the awaited call. Any failure ends the tick and
    /// changes nothing else.
    pub open spec fn completes<V>(
        self,
        outcome: Result<Response<V>, ApiError>,
        now: u64,
        after: Downloader,
        r: Result<Publish<V>, ApiError>,
    ) -> bool {
        let done = Downloader { pending: Pending::Nothing, ..self };
        match self.pending {
            Pending::Nothing => r matches Err(ApiError::Internal(_)) && after == self.aborted(),
            Pending::Refresh { started } => match client::granted(outcome) {
                Some(t) => r matches Ok(Publish::Nothing) && after == Downloader {
                    flume: self.flume.with_token(t, started),
                    ..done
                },
                None => r matches Err(e) && client::reported(outcome, e) && after
                    == self.aborted(),
            },
            Pending::Identity => match client::identified(outcome) {
                Some(id) => r matches Ok(Publish::Nothing) && after == Downloader {
                    user_id: Some(id),
                    ..done
                },
                None => r matches Err(e) && client::reported(outcome, e) && after
                    == self.aborted(),
            },
            Pending::Devices => match inventory(outcome) {
                Some(ds) => {
                    &&& r matches Ok(Publish::Gauges(g)) && g@ == inventory_gauges(ds)
                    &&& after.sensors@ == replaced(self.sensors@, ds)
                    &&& after == Downloader {
                        sensors: after.sensors,
                        devices_last_update: Some(now),
                        phase: Phase::Usage(0),
                        ..done
                    }
                },
                None => r matches Err(e) && client::reported(outcome, e) && after
                    == self.aborted(),
            },
            Pending::Usage { index, until } => {
                let sensor = self.sensors@[index as int];
                match client::usage_found(outcome, sensor.sensor.id@) {
                    Some(v) => {
                        &&& r matches Ok(Publish::Usage { location, volume }) && location
                            == sensor.sensor.location->Some_0.name && volume == v
                        &&& after.sensors@ == self.sensors@.update(
                            index as int,
                            Sensor { last_update: until, ..sensor },
                        )
                        &&& after == Downloader {
                            sensors: after.sensors,
                            phase: Phase::Usage((index + 1) as usize),
                            ..done
                        }
                    },
                    None => r matches Err(e) && client::reported(outcome, e) && after
                        == self.aborted(),
                }
            },
            Pending::Budgets { index } => {
                let location = self.sensors@[index as int].sensor.location->Some_0.name;
                match client::budget_list(outcome) {
                    Some(bs) => {
                        &&& r matches Ok(Publish::Gauges(g)) && g@ == budget_gauges_of(location, bs)
                        &&& after == Downloader {
                            phase: Phase::Budgets((index + 1) as usize),
                            ..done
                        }
                    },
                    None => r matches Err(e) && client::reported(outcome, e) && after
                        == self.aborted(),
                }
            },
        }
    }

    /// The same state with no answer awaited.
    pub open spec fn idle_pending(self) -> Downloader {
        Downloader { pending: Pending::Nothing, ..self }
    }

    /// A scheduler with nothing learned yet: every window is open.
    pub fn new(flume: Flume, budget_interval: u64, device_interval: u64, query_interval: u64) -> (r:
        Downloader)
        ensures
            r.wf(),
            r.flume == flume,
            r.budget_interval == budget_interval,
            r.device_interval == device_interval,
            r.query_interval == query_interval,
            r.user_id is None,
            r.budgets_last_update is None,
            r.devices_last_update is None,
            r.sensors@.len() == 0,
            r.phase is Idle,
            r.pending is Nothing,
    {
        Downloader {
            budget_interval,
            device_interval,
            query_interval,
            flume,
            user_id: None,
            budgets_last_update: None,
            devices_last_update: None,
            sensors: Vec::new(),
            phase: Phase::Idle,
            pending: Pending::Nothing,
        }
    }

    /// Starts a tick, giving up any tick still in progress.
    pub fn begin_tick(&mut self)
        requires
            old(self).wf(),
        ensures
            final(self).wf(),
            *final(self) == (Downloader {
                phase: Phase::Inventory,
                pending: Pending::Nothing,
                ..*old(self)
            }),
    {
        self.phase = Phase::Inventory;
        self.pending = Pending::Nothing;
    }

    fn settle(&mut self, now: u64)
        requires
            old(self).wf(),
            old(self).pending is Nothing,
        ensures
            *final(self) == old(self).settled(now),
            final(self).wf(),
    {
        if self.phase == Phase::Inventory && !is_due(
            self.devices_last_update,
            self.device_interval,
            now,
        ) {
            self.phase = Phase::Usage(0);
        }
        if let Phase::Usage(next) = self.phase {
            if next >= self.sensors.len() {
                if is_due(self.budgets_last_update, self.budget_interval, now) {
                    self.phase = Phase::Budgets(0);
                } else {
                    self.phase = Phase::Idle;
                }
            }
        }
        if let Phase::Budgets(next) = self.phase {
            if next >= self.sensors.len() {
                self.phase = Phase::Idle;
                self.budgets_last_update = Some(now);
            }
        }
    }

    fn take_inventory<V>(&mut self, outcome: Result<Response<V>, ApiError>, now: u64) -> (r: Result<
        Publish<V>,
        ApiError,
    >)
        requires
            old(self).wf(),
            old(self).pending is Nothing,
            old(self).phase is Inventory,
        ensures
            final(self).wf(),
            match inventory(outcome) {
                Some(ds) => {
                    &&& r matches Ok(Publish::Gauges(g)) && g@ == inventory_gauges(ds)
                    &&& final(self).sensors@ == replaced(old(self).sensors@, ds)
                    &&& *final(self) == (Downloader {
                        sensors: final(self).sensors,
                        devices_last_update: Some(now),
                        phase: Phase::Usage(0),
                        ..*old(self)
                    })
                },
                None => r matches Err(e) && client::reported(outcome, e) && *final(self)
                    == old(self).aborted(),
            },
    {
        let mut wires = match client::devices_from(outcome) {
            Ok(w) => w,
            Err(e) => {
                self.phase = Phase::Idle;
                return Err(e);
            },
        };
        let ghost ws = wires@;
        let total = wires.len();
        let mut sensors: Vec<Sensor> = Vec::new();
        let mut gauges: Vec<Gauge> = Vec::new();
        let mut k: usize = 0;
        while wires.len() > 0
            invariant
                client::listed(outcome) == Some(ws),
                total == ws.len(),
                k + wires@.len() == ws.len(),
                wires@ == ws.subrange(k as int, ws.len() as int),
                forall|j: int| 0 <= j < k ==> device_admissible(#[trigger] ws[j]),
                sensors@ == replaced(old(self).sensors@, domain_of(ws.subrange(0, k as int))),
                gauges@ == inventory_gauges(domain_of(ws.subrange(0, k as int))),
                forall|i: int| 0 <= i < sensors@.len() ==> (#[trigger] sensors@[i]).wf(),
                *self == *old(self),
                old(self).wf(),
                old(self).pending is Nothing,
                old(self).phase is Inventory,
            decreases wires@.len(),
        {
            let w = wires.remove(0);
            assert(w == ws[k as int]);
            assert(wires@ =~= ws.subrange(k + 1, ws.len() as int));
            let ghost before = domain_of(ws.subrange(0, k as int));
            let ghost after = domain_of(ws.subrange(0, k + 1));
            assert(after.drop_last() =~= before);
            match Device::try_from(w) {
                Ok(Device::Bridge(b)) => {
                    let mut g = update_bridge(&b);
                    gauges.append(&mut g);
                },
                Ok(Device::Sensor(s)) => {
                    let mut g = update_sensor(&s);
                    gauges.append(&mut g);
                    let ghost prior = sensors_in(before);
                    assert(sensors_in(after) == prior.push(s));
                    sensors.push(carry_watermark(&self.sensors, s));
                    assert(sensors@ =~= replaced(old(self).sensors@, after));
                },
                Err(e) => {
                    assert(!device_admissible(ws[k as int]));
                    self.phase = Phase::Idle;
                    return Err(e);
                },
            }
            k = k + 1;
        }
        assert(ws.subrange(0, ws.len() as int) =~= ws);
        self.sensors = sensors;
        self.devices_last_update = Some(now);
        self.phase = Phase::Usage(0);
        Ok(Publish::Gauges(gauges))
    }

    /// Takes the answer to the awaited call, received at monotonic time
    /// `now`; see `completes`.
    pub fn complete<V>(&mut self, outcome: Result<Response<V>, ApiError>, now: u64) -> (r: Result<
        Publish<V>,
        ApiError,
    >)
        requires
            old(self).wf(),
        ensures
            final(self).wf(),
            old(self).completes(outcome, now, *final(self), r),
    {
        let pending = self.pending;
        self.pending = Pending::Nothing;
        match pending {
            Pending::Nothing => {
                self.phase = Phase::Idle;
                Err(ApiError::Internal(String::from_str("no call awaits an answer")))
            },
            Pending::Refresh { started } => match self.flume.refreshed(outcome, started) {
                Ok(()) => Ok(Publish::Nothing),
                Err(e) => {
                    self.phase = Phase::Idle;
                    Err(e)
                },
            },
            Pending::Identity => match client::user_id_from(outcome) {
                Ok(id) => {
                    self.user_id = Some(id);
                    Ok(Publish::Nothing)
                },
                Err(e) => {
                    self.phase = Phase::Idle;
                    Err(e)
                },
            },
            Pending::Devices => self.take_inventory(outcome, now),
            Pending::Usage { index, until } => {
                match client::query_value_from(outcome, &self.sensors[index].sensor.id) {
                    Ok(volume) => {
                        let len = self.sensors.len();
                        assert(index < len);
                        let ghost old_sensors = self.sensors@;
                        let sensor = self.sensors.remove(index);
                        let location = match &sensor.sensor.location {
                            Some(l) => l.name.clone(),
                            None => String::new(),
                        };
                        self.sensors.insert(index, sensor.with_updated_timestamp(until));
                        assert(self.sensors@ =~= old_sensors.update(
                            index as int,
                            Sensor { last_update: until, ..old_sensors[index as int] },
                        ));
                        self.phase = Phase::Usage(index + 1);
                        Ok(Publish::Usage { location, volume })
                    },
                    Err(e) => {
                        self.phase = Phase::Idle;
                        Err(e)
                    },
                }
            },
            Pending::Budgets { index } => match client::budgets_from(outcome) {
                Ok(budgets) => {
                    let len = self.sensors.len();
                    assert(index < len);
                    let location = match &self.sensors[index].sensor.location {
                        Some(l) => l.name.clone(),
                        None => String::new(),
                    };
                    let gauges = budget_gauges(&location, budgets);
                    self.phase = Phase::Budgets(index + 1);
                    Ok(Publish::Gauges(gauges))
                },
                Err(e) => {
                    self.phase = Phase::Idle;
                    Err(e)
                },
            },
        }
    }

    /// The next call of the tick in progress, or `None` once the tick is
    /// over; see `issues`.
    pub fn next_call(&mut self, now: u64, wall: i64) -> (r: Result<Option<Request>, ApiError>)
        requires
            old(self).wf(),
        ensures
            final(self).wf(),
            old(self).idle_pending().issues(now, wall, *final(self), r),
    {
        self.pending = Pending::Nothing;
        self.settle(now);
        if self.phase == Phase::Idle {
            return Ok(None);
        }
        if let Some(q) = self.flume.ensure_valid(now) {
            self.pending = Pending::Refresh { started: now };
            return Ok(Some(q));
        }
        let uid = match self.user_id {
            None => {
                self.pending = Pending::Identity;
                return Ok(Some(self.flume.user_id()));
            },
            Some(uid) => uid,
        };
        match self.phase {
            Phase::Inventory => {
                self.pending = Pending::Devices;
                Ok(Some(self.flume.devices(uid)))
            },
            Phase::Usage(i) => {
                match self.flume.query_sensor(uid, &self.sensors[i], wall) {
                    Ok(q) => {
                        self.pending = Pending::Usage { index: i, until: wall };
                        Ok(Some(q))
                    },
                    Err(e) => {
                        self.phase = Phase::Idle;
                        Err(e)
                    },
                }
            },
            Phase::Budgets(i) => {
                self.pending = Pending::Budgets { index: i };
                Ok(Some(self.flume.budgets(uid, &self.sensors[i].sensor.id)))
            },
            Phase::Idle => Ok(None),
        }
    }
}

/// Every sensor of `sensors_in(ds)` stands in `ds`.
proof fn lemma_sensors_in_listed(ds: Seq<Device>)
    ensures
        forall|i: int|
            0 <= i < sensors_in(ds).len() ==> exists|j: int|
                0 <= j < ds.len() && (#[trigger] ds[j]) == Device::Sensor(
                    #[trigger] sensors_in(ds)[i],
                ),
    decreases ds.len(),
{
    if ds.len() > 0 {
        let rest = ds.drop_last();
        lemma_sensors_in_listed(rest);
        assert forall|i: int| 0 <= i < sensors_in(ds).len() implies exists|j: int|
            0 <= j < ds.len() && (#[trigger] ds[j]) == Device::Sensor(
                #[trigger] sensors_in(ds)[i],
            ) by {
            if i < sensors_in(rest).len() {
                let j = choose|j: int|
                    0 <= j < rest.len() && (#[trigger] rest[j]) == Device::Sensor(
                        #[trigger] sensors_in(rest)[i],
                    );
                assert(ds[j] == rest[j]);
            } else {
                assert(ds[ds.len() - 1] == Device::Sensor(sensors_in(ds)[i]));
            }
        }
    }
}

/// What a successful inventory step makes of the sensor set.
proof fn lemma_inventory_set<V>(
    d0: Downloader,
    outcome: Result<Response<V>, ApiError>,
    now: u64,
    d1: Downloader,
    r: Result<Publish<V>, ApiError>,
)
    requires
        d0.wf(),
        d0.pending is Devices,
        d0.completes(outcome, now, d1, r),
        r is Ok,
    ensures
        client::listed(outcome) is Some,
        inventory(outcome) == Some(domain_of(client::listed(outcome)->Some_0)),
        d1.sensors@ == replaced(d0.sensors@, domain_of(client::listed(outcome)->Some_0)),
{
}

/// An inventory refresh replaces the sensor set whole: every sensor that
/// the usage step reaches afterwards is a sensor of the device list just
/// received, so a sensor that vanished upstream is never queried again.
pub proof fn lemma_inventory_replaces<V>(
    d0: Downloader,
    outcome: Result<Response<V>, ApiError>,
    now: u64,
    d1: Downloader,
    r: Result<Publish<V>, ApiError>,
)
    requires
        d0.wf(),
        d0.pending is Devices,
        d0.completes(outcome, now, d1, r),
        r is Ok,
    ensures
        client::listed(outcome) is Some,
        forall|i: int|
            0 <= i < d1.sensors@.len() ==> exists|j: int|
                0 <= j < client::listed(outcome)->Some_0.len() && (#[trigger] client::listed(
                    outcome,
                )->Some_0[j]) == client::Device::Sensor((#[trigger] d1.sensors@[i]).sensor),
{
    lemma_inventory_set(d0, outcome, now, d1, r);
    let ws = client::listed(outcome)->Some_0;
    let ds = domain_of(ws);
    lemma_sensors_in_listed(ds);
    assert forall|i: int| 0 <= i < d1.sensors@.len() implies exists|j: int|
        0 <= j < ws.len() && (#[trigger] ws[j]) == client::Device::Sensor(
            (#[trigger] d1.sensors@[i]).sensor,
        ) by {
        let x = sensors_in(ds)[i];
        assert(d1.sensors@[i] == carried(d0.sensors@, x));
        let j = choose|j: int| 0 <= j < ds.len() && (#[trigger] ds[j]) == Device::Sensor(x);
        assert(ds[j] == device_model(ws[j]));
    }
}

/// Where some known sensor has id `id`, a first one does.
proof fn lemma_first_known(known: Seq<Sensor>, id: Seq<char>, j: int)
    requires
        0 <= j < known.len(),
        known[j].sensor.id@ == id,
    ensures
        exists|k: int|
            0 <= k < known.len() && (#[trigger] known[k]).sensor.id@ == id && forall|m: int|
                0 <= m < k ==> (#[trigger] known[m]).sensor.id@ != id,
    decreases j,
{
    if exists|m: int| 0 <= m < j && (#[trigger] known[m]).sensor.id@ == id {
        let m = choose|m: int| 0 <= m < j && (#[trigger] known[m]).sensor.id@ == id;
        lemma_first_known(known, id, m);
    } else {
        assert(forall|m: int| 0 <= m < j ==> (#[trigger] known[m]).sensor.id@ != id);
    }
}

/// A sensor of `replaced` that was known by id keeps a known watermark.
proof fn lemma_replaced_keeps(known: Seq<Sensor>, ds: Seq<Device>)
    ensures
        forall|i: int, j: int|
            0 <= i < replaced(known, ds).len() && 0 <= j < known.len() && (#[trigger] known[j]).sensor.id@
                == (#[trigger] replaced(known, ds)[i]).sensor.id@ ==> exists|k: int|
                0 <= k < known.len() && (#[trigger] known[k]).sensor.id@
                    == replaced(known, ds)[i].sensor.id@ && known[k].last_update
                    == replaced(known, ds)[i].last_update,
{
    let rs = replaced(known, ds);
    assert forall|i: int, j: int|
        0 <= i < rs.len() && 0 <= j < known.len() && (#[trigger] known[j]).sensor.id@
            == (#[trigger] rs[i]).sensor.id@ implies exists|k: int|
        0 <= k < known.len() && (#[trigger] known[k]).sensor.id@ == rs[i].sensor.id@
            && known[k].last_update == rs[i].last_update by {
        let x = sensors_in(ds)[i];
        assert(rs[i] == carried(known, x));
        assert(known[j].sensor.id@ == x.sensor.id@);
        lemma_first_known(known, x.sensor.id@, j);
        let k = choose|k: int|
            0 <= k < known.len() && (#[trigger] known[k]).sensor.id@ == x.sensor.id@ && forall|
                m: int,
            | 0 <= m < k ==> (#[trigger] known[m]).sensor.id@ != x.sensor.id@;
        assert(known[k].last_update == rs[i].last_update);
        assert(0 <= k < known.len() && known[k].sensor.id@ == rs[i].sensor.id@);
    }
}

/// A sensor of `replaced` that was not known starts at its last-seen time.
proof fn lemma_replaced_fresh(known: Seq<Sensor>, ws: Seq<client::Device>)
    ensures
        forall|i: int|
            0 <= i < replaced(known, domain_of(ws)).len() && !(exists|j: int|
                0 <= j < known.len() && (#[trigger] known[j]).sensor.id@
                    == replaced(known, domain_of(ws))[i].sensor.id@) ==> (#[trigger] replaced(known, domain_of(ws))[i]).last_update
                == rfc3339_instant(replaced(known, domain_of(ws))[i].sensor.last_seen@)->Some_0 as i64,
{
    let ds = domain_of(ws);
    let rs = replaced(known, ds);
    lemma_sensors_in_listed(ds);
    assert forall|i: int|
        0 <= i < rs.len() && !(exists|j: int|
            0 <= j < known.len() && (#[trigger] known[j]).sensor.id@ == rs[i].sensor.id@) implies (#[trigger] rs[i]).last_update
        == rfc3339_instant(rs[i].sensor.last_seen@)->Some_0 as i64 by {
        let x = sensors_in(ds)[i];
        assert(rs[i] == carried(known, x));
        assert(rs[i] == x);
        let j = choose|j: int| 0 <= j < ds.len() && (#[trigger] ds[j]) == Device::Sensor(x);
        assert(ds[j] == device_model(ws[j]));
    }
}

/// An inventory refresh keeps the watermark of every sensor it already
/// knew by id; only a freshly discovered sensor starts at its last-seen
/// time.
pub proof fn lemma_inventory_keeps_watermarks<V>(
    d0: Downloader,
    outcome: Result<Response<V>, ApiError>,
    now: u64,
    d1: Downloader,
    r: Result<Publish<V>, ApiError>,
)
    requires
        d0.wf(),
        d0.pending is Devices,
        d0.completes(outcome, now, d1, r),
        r is Ok,
    ensures
        forall|i: int, j: int|
            0 <= i < d1.sensors@.len() && 0 <= j < d0.sensors@.len() && (#[trigger] d0.sensors@[j]).sensor.id@
                == (#[trigger] d1.sensors@[i]).sensor.id@ ==> exists|k: int|
                0 <= k < d0.sensors@.len() && (#[trigger] d0.sensors@[k]).sensor.id@
                    == d1.sensors@[i].sensor.id@ && d0.sensors@[k].last_update
                    == d1.sensors@[i].last_update,
        forall|i: int|
            0 <= i < d1.sensors@.len() && !(exists|j: int|
                0 <= j < d0.sensors@.len() && (#[trigger] d0.sensors@[j]).sensor.id@
                    == d1.sensors@[i].sensor.id@) ==> (#[trigger] d1.sensors@[i]).last_update
                == rfc3339_instant(d1.sensors@[i].sensor.last_seen@)->Some_0 as i64,
{
    lemma_inventory_set(d0, outcome, now, d1, r);
    lemma_replaced_keeps(d0.sensors@, domain_of(client::listed(outcome)->Some_0));
    lemma_replaced_fresh(d0.sensors@, client::listed(outcome)->Some_0);
}

/// Usage windows of a sensor meet end to end. The query a tick issues for a
/// sensor spans its watermark up to the wall time of issue; once answered,
/// the watermark is exactly that time, and if the call fails the watermark
/// stays. No other sensor moves. With the clock at or past the watermark,
/// the watermark never moves back.
pub proof fn lemma_usage_windows<V>(
    d0: Downloader,
    now: u64,
    wall: i64,
    d1: Downloader,
    call: Result<Option<Request>, ApiError>,
    outcome: Result<Response<V>, ApiError>,
    later: u64,
    d2: Downloader,
    r: Result<Publish<V>, ApiError>,
)
    requires
        d0.wf(),
        d0.idle_pending().issues(now, wall, d1, call),
        d1.pending is Usage,
        d1.completes(outcome, later, d2, r),
    ensures
        ({
            let i = d1.pending->Usage_index as int;
            let s = d0.sensors@[i];
            &&& 0 <= i < d0.sensors@.len()
            &&& d1.pending->Usage_until == wall
            &&& call matches Ok(Some(q)) && q.is_usage_request(
                d1.flume.access_token@,
                d1.user_id->Some_0 as int,
                s.sensor.id@,
                local_time_text(s.timezone@, s.last_update as int)->Some_0,
                local_time_text(s.timezone@, wall as int)->Some_0,
            )
            &&& d2.sensors@.len() == d0.sensors@.len()
            &&& r is Ok ==> d2.sensors@[i] == (Sensor { last_update: wall, ..s })
            &&& r is Err ==> d2.sensors@[i] == s
            &&& s.last_update <= wall ==> s.last_update <= d2.sensors@[i].last_update
            &&& forall|j: int|
                0 <= j < d0.sensors@.len() && j != i ==> (#[trigger] d2.sensors@[j])
                    == d0.sensors@[j]
        }),
{
}

/// Deciding the next call never moves a watermark: between answers, the
/// sensor set stands as it was.
pub proof fn lemma_issuing_keeps_sensors(
    d0: Downloader,
    now: u64,
    wall: i64,
    d1: Downloader,
    call: Result<Option<Request>, ApiError>,
)
    requires
        d0.wf(),
        d0.idle_pending().issues(now, wall, d1, call),
    ensures
        d1.sensors == d0.sensors,
{
}

/// A failed exchange ends only the tick it happens in. Whatever call was
/// awaited, the failure is handed on unchanged, and the scheduler keeps its
/// sensors, watermarks, credential, identity and refresh times and is ready
/// for the next tick. A transport failure that timed out, could not connect
/// or failed in sending is ignorable; an application or shape failure is
/// fatal.
pub proof fn lemma_failure_ends_only_the_tick<V>(
    d0: Downloader,
    e: ApiError,
    now: u64,
    d1: Downloader,
    r: Result<Publish<V>, ApiError>,
)
    requires
        d0.wf(),
        !(d0.pending is Nothing),
        d0.completes(Err(e), now, d1, r),
    ensures
        r == Err::<Publish<V>, ApiError>(e),
        d1 == d0.aborted(),
        d1.wf(),
        d1.phase is Idle,
        e matches ApiError::Transport { timeout, connect, request, .. } && (timeout || connect
            || request) ==> is_ignorable(e),
        e is Application || e is Shape ==> !is_ignorable(e),
{
}

} // verus!
