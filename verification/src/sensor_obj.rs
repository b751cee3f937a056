//! The sensor entity: identity, label, connectivity, latest readings and the
//! live timeseries buffer, updated in place on every overview push.

use vstd::prelude::*;

use crate::data::{
    SensorId, SensorSnapshot, SharedTimeseries, SnapshotModel, Timeseries, TimeseriesModel,
    TimeseriesRow, spec_push_row,
};

verus! {

/// Mathematical state of one sensor.
#[verifier::ext_equal]
pub struct SensorModel {
    pub id: u128,
    pub label: Option<Seq<char>>,
    pub connected: bool,
    pub temperature: i32,
    pub humidity: u32,
    pub pressure: u32,
    pub live: Option<TimeseriesModel>,
}

/// The state a sensor is first seen in: unlabelled, disconnected, zero
/// readings, no live buffer.
pub open spec fn new_sensor_model(id: u128) -> SensorModel {
    SensorModel {
        id: id,
        label: None,
        connected: false,
        temperature: 0,
        humidity: 0,
        pressure: 0,
        live: None,
    }
}

/// The row a live push appends: the receipt time and the pushed values.
pub open spec fn snapshot_row(v: crate::data::SensorValues, now: u32) -> TimeseriesRow {
    TimeseriesRow {
        time: now,
        temperature: v.temperature as i16,
        humidity: v.humidity,
        pressure: v.pressure,
    }
}

/// How an overview snapshot changes a sensor: the label is always taken
/// over; values present mean connected, new readings, and a row appended to
/// the live buffer (if one exists) at the receipt time `now`; values absent
/// mean disconnected with readings kept.
pub open spec fn apply_snapshot(s: SensorModel, snap: SnapshotModel, now: u32) -> SensorModel {
    match snap.values {
        Some(v) => SensorModel {
            id: s.id,
            label: snap.label,
            connected: true,
            temperature: v.temperature,
            humidity: v.humidity,
            pressure: v.pressure,
            live: match s.live {
                Some(ts) => Some(spec_push_row(ts, snapshot_row(v, now))),
                None => None,
            },
        },
        None => SensorModel {
            id: s.id,
            label: snap.label,
            connected: false,
            temperature: s.temperature,
            humidity: s.humidity,
            pressure: s.pressure,
            live: s.live,
        },
    }
}

/// One remote sensor as known to the application.
pub struct SensorObj {
    id: SensorId,
    label: Option<String>,
    connected: bool,
    temperature: i32,
    humidity: u32,
    pressure: u32,
    live_timeseries: SharedTimeseries,
}

impl View for SensorObj {
    type V = SensorModel;

    closed spec fn view(&self) -> SensorModel {
        SensorModel {
            id: self.id.0,
            label: match self.label {
                Some(s) => Some(s@),
                None => None,
            },
            connected: self.connected,
            temperature: self.temperature,
            humidity: self.humidity,
            pressure: self.pressure,
            live: self.live_timeseries.model(),
        }
    }
}

impl SensorObj {
    /// A sensor seen for the first time.
    pub fn new(id: SensorId) -> (r: Self)
        ensures
            r@ =~= new_sensor_model(id.0),
    {
        SensorObj {
            id,
            label: None,
            connected: false,
            temperature: 0,
            humidity: 0,
            pressure: 0,
            live_timeseries: SharedTimeseries::empty(),
        }
    }

    /// The sensor's stable identifier.
    pub fn id(&self) -> (r: SensorId)
        ensures
            r.0 == self@.id,
    {
        self.id
    }

    /// The live buffer slot.
    pub fn timeseries(&self) -> (r: &SharedTimeseries)
        ensures
            r.model() == self@.live,
    {
        &self.live_timeseries
    }

    /// Replaces the live buffer unconditionally with freshly fetched data.
    pub fn set_timeseries(&mut self, timeseries: Timeseries)
        ensures
            final(self)@ =~= (SensorModel { live: Some(timeseries@), ..old(self)@ }),
    {
        self.live_timeseries = SharedTimeseries::new(timeseries);
    }

    /// The human-assigned label, if any.
    pub fn label(&self) -> (r: &Option<String>)
        ensures
            (match r {
                Some(s) => Some(s@),
                None => None,
            }) == self@.label,
    {
        &self.label
    }

    /// Whether the sensor was connected at the last overview push.
    pub fn connected(&self) -> (r: bool)
        ensures
            r == self@.connected,
    {
        self.connected
    }

    /// The latest temperature reading.
    pub fn temperature(&self) -> (r: i32)
        ensures
            r == self@.temperature,
    {
        self.temperature
    }

    /// The latest humidity reading.
    pub fn humidity(&self) -> (r: u32)
        ensures
            r == self@.humidity,
    {
        self.humidity
    }

    /// The latest pressure reading.
    pub fn pressure(&self) -> (r: u32)
        ensures
            r == self@.pressure,
    {
        self.pressure
    }

    /// Applies one overview snapshot at receipt time `now`, as
    /// [`apply_snapshot`] states; a non-monotonic live push is silently
    /// dropped by the buffer's own append contract.
    pub fn update_values(&mut self, snapshot: &SensorSnapshot, now: u32)
        ensures
            final(self)@ =~= apply_snapshot(old(self)@, snapshot@, now),
    {
        self.label = match &snapshot.label {
            Some(s) => Some(s.clone()),
            None => None,
        };
        match snapshot.values {
            Some(values) => {
                self.connected = true;
                self.temperature = values.temperature;
                self.humidity = values.humidity;
                self.pressure = values.pressure;
                let row = TimeseriesRow {
                    time: now,
                    temperature: #[verifier::truncate] (values.temperature as i16),
                    humidity: values.humidity,
                    pressure: values.pressure,
                };
                let _ = self.live_timeseries.push_row(row);
            },
            None => {
                self.connected = false;
            },
        }
    }
}

} // verus!
