//! The sync worker's side of the command queue: the commands it consumes,
//! the decisions it makes for each, and the conversion of fetched column
//! data into typed fetch events.

use vstd::prelude::*;

use crate::data::{SensorId, Timeseries, TimeseriesBuilder, TimeseriesModel};
use crate::event_loop::{Event, Label};

verus! {

/// The length of the floating live window, in seconds.
pub const ONE_DAY_SECONDS: u32 = 86400;

/// What to fetch for a sensor: a floating window ending now and spanning the
/// trailing day, or an explicit inclusive timestamp interval.
#[derive(Clone, Copy, Debug)]
pub enum TimeseriesRequest {
    Live(SensorId),
    Range { id: SensorId, start: u32, end: u32 },
}

impl TimeseriesRequest {
    /// The sensor the request concerns.
    pub open spec fn spec_id(self) -> SensorId {
        match self {
            TimeseriesRequest::Live(id) => id,
            TimeseriesRequest::Range { id, .. } => id,
        }
    }

    /// The inclusive interval a request queries at time `now`.
    pub open spec fn spec_range(self, now: u32) -> (u32, u32) {
        match self {
            TimeseriesRequest::Live(_) => (live_window_start(now), now),
            TimeseriesRequest::Range { start, end, .. } => (start, end),
        }
    }
}

/// Where the trailing-day window starts, saturating at the epoch.
pub open spec fn live_window_start(now: u32) -> u32 {
    if now >= ONE_DAY_SECONDS {
        (now - ONE_DAY_SECONDS) as u32
    } else {
        0
    }
}

/// A fetch result, tagged as the originating request was, so the dispatcher
/// can tell a live-buffer replacement from a transient displayed range.
pub enum TimeseriesResponse {
    Live(Timeseries),
    Range(Timeseries),
}

impl TimeseriesResponse {
    /// The carried timeseries contents.
    pub open spec fn model(&self) -> TimeseriesModel {
        match self {
            TimeseriesResponse::Live(ts) => ts@,
            TimeseriesResponse::Range(ts) => ts@,
        }
    }
}

/// A request issued to the sync worker through the command queue.
pub enum Command {
    FetchTimeseries(TimeseriesRequest),
    SetEndpoint { url: String, token: String },
    SetLabel { label: Label, id: SensorId },
}

/// What the sync worker decides to do with one command; the runner performs
/// it against the remote service.
pub enum WorkerAction {
    /// Nothing to do: a fetch or label change arrived with no active
    /// connection and is skipped by design.
    Idle,
    /// Establish a new connection with these credentials; the old one is
    /// already torn down.
    Connect { url: String, token: String },
    /// Query the sensor's data over the inclusive timestamp interval.
    GetSensorData { id: SensorId, start: u32, end: u32 },
    /// Ask the service to relabel the sensor.
    ChangeLabel { id: SensorId, label: Label },
}

/// The sync worker's connection state machine. It owns at most one live
/// connection; an endpoint change tears the old one down before the new
/// connection is attempted, so no two are ever live at once.
pub struct SyncWorker {
    connected: bool,
}

impl SyncWorker {
    /// Whether a connection is currently active.
    pub closed spec fn spec_connected(&self) -> bool {
        self.connected
    }

    /// A worker with no active connection.
    pub fn new() -> (r: Self)
        ensures
            !r.spec_connected(),
    {
        SyncWorker { connected: false }
    }

    /// Whether a connection is currently active.
    pub fn is_connected(&self) -> (r: bool)
        ensures
            r == self.spec_connected(),
    {
        self.connected
    }

    /// The connect attempt the last `SetEndpoint` decision asked for
    /// succeeded: a connection is installed.
    pub fn connection_established(&mut self)
        ensures
            final(self).spec_connected(),
    {
        self.connected = true;
    }

    /// The connect attempt failed: the worker keeps accepting commands with
    /// no active connection, and nothing is retried.
    pub fn connection_failed(&mut self)
        ensures
            !final(self).spec_connected(),
    {
        self.connected = false;
    }

    /// Decides what one command requires, at current time `now` (seconds
    /// since the epoch). Fetches and label changes are silently skipped
    /// without a connection; an endpoint change first drops the old
    /// connection, then asks for a new one.
    pub fn step(&mut self, cmd: Command, now: u32) -> (a: WorkerAction)
        ensures
            (match cmd {
                Command::SetEndpoint { url, token } => !final(self).spec_connected() && a
                    == (WorkerAction::Connect { url, token }),
                Command::FetchTimeseries(req) => *final(self) == *old(self) && a == (
                if old(self).spec_connected() {
                    WorkerAction::GetSensorData {
                        id: req.spec_id(),
                        start: req.spec_range(now).0,
                        end: req.spec_range(now).1,
                    }
                } else {
                    WorkerAction::Idle
                }),
                Command::SetLabel { label, id } => *final(self) == *old(self) && a == (
                if old(self).spec_connected() {
                    WorkerAction::ChangeLabel { id, label }
                } else {
                    WorkerAction::Idle
                }),
            }),
    {
        match cmd {
            Command::SetEndpoint { url, token } => {
                self.connected = false;
                WorkerAction::Connect { url, token }
            },
            Command::FetchTimeseries(req) => {
                if self.connected {
                    match req {
                        TimeseriesRequest::Live(id) => {
                            let start = if now >= ONE_DAY_SECONDS {
                                now - ONE_DAY_SECONDS
                            } else {
                                0
                            };
                            WorkerAction::GetSensorData { id, start, end: now }
                        },
                        TimeseriesRequest::Range { id, start, end } => {
                            WorkerAction::GetSensorData { id, start, end }
                        },
                    }
                } else {
                    WorkerAction::Idle
                }
            },
            Command::SetLabel { label, id } => {
                if self.connected {
                    WorkerAction::ChangeLabel { id, label }
                } else {
                    WorkerAction::Idle
                }
            },
        }
    }
}

/// Converts one fetched column set into a fetch event tagged like the
/// originating request. Column sets of unequal lengths — a protocol-shape
/// error by the remote service — yield no event at all, leaving the
/// requester with whatever data it already had.
pub fn process_sensor_data(
    req: &TimeseriesRequest,
    time: Vec<u32>,
    temperature: Vec<i16>,
    humidity: Vec<u32>,
    pressure: Vec<u32>,
) -> (r: Option<Event>)
    ensures
        r is Some <==> (temperature@.len() == time@.len() && humidity@.len() == time@.len()
            && pressure@.len() == time@.len()),
        r matches Some(e) ==> (e matches Event::FetchedTimeseries { id, timeseries } && id
            == req.spec_id() && (timeseries is Live <==> *req is Live) && timeseries.model() =~= (
        TimeseriesModel { time: time@, temperature: temperature@, humidity: humidity@, pressure: pressure@ })),
{
    let mut builder = TimeseriesBuilder::default();
    builder.time(time);
    builder.temperature(temperature);
    builder.humidity(humidity);
    builder.pressure(pressure);
    match builder.build() {
        Ok(ts) => {
            let id = match req {
                TimeseriesRequest::Live(id) => *id,
                TimeseriesRequest::Range { id, .. } => *id,
            };
            let timeseries = match req {
                TimeseriesRequest::Live(_) => TimeseriesResponse::Live(ts),
                TimeseriesRequest::Range { .. } => TimeseriesResponse::Range(ts),
            };
            Some(Event::FetchedTimeseries { id, timeseries })
        },
        Err(_) => None,
    }
}

} // verus!
