//! The timeseries data model: four parallel columns of sensor samples with a
//! column-alignment invariant and strictly increasing timestamps under
//! row appends.

use vstd::prelude::*;

use crate::index_map::{entries, im_get, im_insert, im_new};
use crate::sensor_obj::{apply_snapshot, SensorModel, SensorObj};

verus! {

/// Stable 128-bit identifier of a remote sensor.
#[derive(Clone, Copy, PartialEq, Eq, Structural, Debug)]
pub struct SensorId(pub u128);

/// Latest scalar readings of one sensor.
#[derive(Clone, Copy, PartialEq, Eq, Structural, Debug)]
pub struct SensorValues {
    pub temperature: i32,
    pub humidity: u32,
    pub pressure: u32,
}

/// One sample of every measured quantity, appended as a whole row.
#[derive(Clone, Copy)]
pub struct TimeseriesRow {
    pub time: u32,
    pub temperature: i16,
    pub humidity: u32,
    pub pressure: u32,
}

/// Rejected append: a row arrived whose timestamp does not advance past the
/// last stored one. Carries both timestamps for diagnostics.
#[derive(Clone, Copy, PartialEq, Eq, Structural, Debug)]
pub struct PushError {
    pub theirs: u32,
    pub ours: u32,
}

impl PushError {
    /// The timestamp of the rejected row.
    pub fn attempted(&self) -> (r: u32)
        ensures
            r == self.theirs,
    {
        self.theirs
    }

    /// The last timestamp already stored when the row was rejected.
    pub fn last(&self) -> (r: u32)
        ensures
            r == self.ours,
    {
        self.ours
    }
}

/// Mathematical contents of a [`Timeseries`]: the four columns as sequences.
#[verifier::ext_equal]
pub struct TimeseriesModel {
    pub time: Seq<u32>,
    pub temperature: Seq<i16>,
    pub humidity: Seq<u32>,
    pub pressure: Seq<u32>,
}

impl TimeseriesModel {
    /// All four columns hold one entry per row.
    pub open spec fn aligned(self) -> bool {
        &&& self.temperature.len() == self.time.len()
        &&& self.humidity.len() == self.time.len()
        &&& self.pressure.len() == self.time.len()
    }

    pub open spec fn empty() -> TimeseriesModel {
        TimeseriesModel {
            time: Seq::empty(),
            temperature: Seq::empty(),
            humidity: Seq::empty(),
            pressure: Seq::empty(),
        }
    }
}

/// A timestamp strictly above everything stored so far is accepted.
pub open spec fn row_accepted(m: TimeseriesModel, time: u32) -> bool {
    m.time.len() == 0 || time > m.time.last()
}

/// The contents after an attempted append: the whole row is stored when its
/// timestamp advances, and nothing changes otherwise.
pub open spec fn spec_push_row(m: TimeseriesModel, row: TimeseriesRow) -> TimeseriesModel {
    if row_accepted(m, row.time) {
        TimeseriesModel {
            time: m.time.push(row.time),
            temperature: m.temperature.push(row.temperature),
            humidity: m.humidity.push(row.humidity),
            pressure: m.pressure.push(row.pressure),
        }
    } else {
        m
    }
}

pub open spec fn strictly_increasing(s: Seq<u32>) -> bool {
    forall|i: int, j: int| 0 <= i < j < s.len() ==> s[i] < s[j]
}

/// An append-only, time-ordered buffer of sensor samples kept as four
/// parallel columns of equal length.
pub struct Timeseries {
    time: Vec<u32>,
    temperature: Vec<i16>,
    humidity: Vec<u32>,
    pressure: Vec<u32>,
}

impl View for Timeseries {
    type V = TimeseriesModel;

    closed spec fn view(&self) -> TimeseriesModel {
        TimeseriesModel {
            time: self.time@,
            temperature: self.temperature@,
            humidity: self.humidity@,
            pressure: self.pressure@,
        }
    }
}

impl Default for Timeseries {
    /// A fresh buffer with no rows.
    fn default() -> (r: Self)
        ensures
            r@ =~= TimeseriesModel::empty(),
    {
        Timeseries { time: Vec::new(), temperature: Vec::new(), humidity: Vec::new(), pressure: Vec::new() }
    }
}

impl Timeseries {
    /// Whether no rows are stored.
    pub fn is_empty(&self) -> (r: bool)
        ensures
            r == (self@.time.len() == 0),
    {
        self.time.len() == 0
    }

    /// The timestamp column, oldest first.
    pub fn time(&self) -> (r: &[u32])
        ensures
            r@ == self@.time,
    {
        self.time.as_slice()
    }

    /// The temperature column.
    pub fn temperature(&self) -> (r: &[i16])
        ensures
            r@ == self@.temperature,
    {
        self.temperature.as_slice()
    }

    /// The humidity column.
    pub fn humidity(&self) -> (r: &[u32])
        ensures
            r@ == self@.humidity,
    {
        self.humidity.as_slice()
    }

    /// The pressure column.
    pub fn pressure(&self) -> (r: &[u32])
        ensures
            r@ == self@.pressure,
    {
        self.pressure.as_slice()
    }

    /// Appends a row iff its timestamp is strictly above the last stored one
    /// (or the buffer is empty); otherwise reports both timestamps and leaves
    /// the buffer unchanged.
    pub fn push_row(&mut self, row: TimeseriesRow) -> (r: Result<(), PushError>)
        ensures
            final(self)@ =~= spec_push_row(old(self)@, row),
            r is Ok <==> row_accepted(old(self)@, row.time),
            r matches Err(e) ==> e.theirs == row.time && e.ours == old(self)@.time.last(),
            old(self)@.aligned() ==> final(self)@.aligned(),
            strictly_increasing(old(self)@.time) ==> strictly_increasing(final(self)@.time),
    {
        proof {
            lemma_push_monotonic(self@, row);
        }
        if self.time.len() > 0 {
            let last = self.time[self.time.len() - 1];
            if row.time <= last {
                return Err(PushError { theirs: row.time, ours: last });
            }
        }
        self.time.push(row.time);
        self.temperature.push(row.temperature);
        self.humidity.push(row.humidity);
        self.pressure.push(row.pressure);
        Ok(())
    }
}

/// An accepted row keeps the time column strictly increasing, and a rejected
/// one changes nothing: every buffer grown only by appends stays ordered.
pub proof fn lemma_push_monotonic(m: TimeseriesModel, row: TimeseriesRow)
    ensures
        strictly_increasing(m.time) ==> strictly_increasing(spec_push_row(m, row).time),
{
    if strictly_increasing(m.time) && row_accepted(m, row.time) {
        let t = spec_push_row(m, row).time;
        assert forall|i: int, j: int| 0 <= i < j < t.len() implies t[i] < t[j] by {
            if j == t.len() - 1 && m.time.len() > 0 {
                if i < m.time.len() - 1 {
                    assert(m.time[i] < m.time[m.time.len() - 1]);
                }
            }
        }
    }
}

/// Once a row is stored the buffer never reports empty again: appends only
/// grow the time column.
pub proof fn lemma_nonempty_persists(m: TimeseriesModel, row: TimeseriesRow)
    ensures
        m.time.len() > 0 ==> spec_push_row(m, row).time.len() > 0,
        row_accepted(m, row.time) ==> spec_push_row(m, row).time.len() > 0,
{
}

/// Column data supplied from outside did not have one entry per row.
#[derive(Clone, Copy, PartialEq, Eq, Structural, Debug)]
pub struct ColumnLengthMismatch;

/// Assembles a [`Timeseries`] from externally supplied column data, checking
/// the alignment invariant on [`TimeseriesBuilder::build`].
pub struct TimeseriesBuilder {
    timeseries: Option<Timeseries>,
}

impl Default for TimeseriesBuilder {
    /// A builder with no columns supplied yet.
    fn default() -> (r: Self)
        ensures
            r.pending() =~= TimeseriesModel::empty(),
    {
        TimeseriesBuilder { timeseries: None }
    }
}

impl TimeseriesBuilder {
    /// The column data supplied so far; a column never set counts as empty.
    pub closed spec fn pending(&self) -> TimeseriesModel {
        match self.timeseries {
            Some(ts) => ts@,
            None => TimeseriesModel::empty(),
        }
    }

    fn series(&mut self) -> (r: &mut Timeseries)
        ensures
            (*r)@ =~= old(self).pending(),
            final(self).pending() == (*final(r))@,
    {
        if self.timeseries.is_none() {
            self.timeseries = Some(Timeseries::default());
        }
        match &mut self.timeseries {
            Some(ts) => ts,
            None => vstd::pervasive::unreached(),
        }
    }

    /// Supplies the temperature column, replacing any earlier one.
    pub fn temperature(&mut self, temperature: Vec<i16>) -> (r: &mut Self)
        ensures
            (*r).pending() =~= (TimeseriesModel { temperature: temperature@, ..old(self).pending() }),
            final(self).pending() == (*final(r)).pending(),
    {
        self.series().temperature = temperature;
        self
    }

    /// Supplies the timestamp column, replacing any earlier one.
    pub fn time(&mut self, time: Vec<u32>) -> (r: &mut Self)
        ensures
            (*r).pending() =~= (TimeseriesModel { time: time@, ..old(self).pending() }),
            final(self).pending() == (*final(r)).pending(),
    {
        self.series().time = time;
        self
    }

    /// Supplies the humidity column, replacing any earlier one.
    pub fn humidity(&mut self, humidity: Vec<u32>) -> (r: &mut Self)
        ensures
            (*r).pending() =~= (TimeseriesModel { humidity: humidity@, ..old(self).pending() }),
            final(self).pending() == (*final(r)).pending(),
    {
        self.series().humidity = humidity;
        self
    }

    /// Supplies the pressure column, replacing any earlier one.
    pub fn pressure(&mut self, pressure: Vec<u32>) -> (r: &mut Self)
        ensures
            (*r).pending() =~= (TimeseriesModel { pressure: pressure@, ..old(self).pending() }),
            final(self).pending() == (*final(r)).pending(),
    {
        self.series().pressure = pressure;
        self
    }

    /// Succeeds with a timeseries holding exactly the supplied columns iff
    /// they all have the same length (the all-empty case included); otherwise
    /// fails and produces nothing. Either way the builder is drained.
    pub fn build(&mut self) -> (r: Result<Timeseries, ColumnLengthMismatch>)
        ensures
            r is Ok <==> old(self).pending().aligned(),
            r matches Ok(ts) ==> ts@ =~= old(self).pending(),
            final(self).pending() =~= TimeseriesModel::empty(),
    {
        match self.timeseries.take() {
            Some(series) => {
                if series.temperature.len() == series.time.len()
                    && series.humidity.len() == series.time.len()
                    && series.pressure.len() == series.time.len() {
                    Ok(series)
                } else {
                    Err(ColumnLengthMismatch)
                }
            },
            None => Ok(Timeseries::default()),
        }
    }
}

/// A sensor's live buffer slot: either a timeseries or an explicit "no data
/// yet" sentinel, so that call sites need no optional wrapper of their own.
pub struct SharedTimeseries(Option<Timeseries>);

impl Default for SharedTimeseries {
    /// The "no data yet" sentinel.
    fn default() -> (r: Self)
        ensures
            r.model() is None,
    {
        SharedTimeseries(None)
    }
}

impl SharedTimeseries {
    /// The held timeseries contents, or `None` for the sentinel.
    pub closed spec fn model(&self) -> Option<TimeseriesModel> {
        match self.0 {
            Some(ts) => Some(ts@),
            None => None,
        }
    }

    /// Wraps a timeseries.
    pub fn new(timeseries: Timeseries) -> (r: Self)
        ensures
            r.model() == Some(timeseries@),
    {
        SharedTimeseries(Some(timeseries))
    }

    /// Whether this is the "no data yet" sentinel.
    pub fn is_none(&self) -> (r: bool)
        ensures
            r == (self.model() is None),
    {
        self.0.is_none()
    }

    /// The "no data yet" sentinel.
    pub fn empty() -> (r: Self)
        ensures
            r.model() is None,
    {
        Default::default()
    }

    /// Read access to the held timeseries, if any.
    pub fn get(&self) -> (r: Option<&Timeseries>)
        ensures
            r matches Some(ts) ==> self.model() == Some(ts@),
            r is None <==> self.model() is None,
    {
        self.0.as_ref()
    }

    /// Appends a row to the held timeseries under its ordering contract;
    /// on the sentinel nothing happens and no outcome is reported.
    pub fn push_row(&mut self, row: TimeseriesRow) -> (r: Option<Result<(), PushError>>)
        ensures
            old(self).model() is None ==> final(self).model() is None && r is None,
            old(self).model() matches Some(m) ==> {
                &&& final(self).model() == Some(spec_push_row(m, row))
                &&& r matches Some(res) && (res is Ok <==> row_accepted(m, row.time))
                &&& (r matches Some(res) && res matches Err(e) ==> e.theirs == row.time && e.ours
                    == m.time.last())
            },
    {
        match &mut self.0 {
            Some(ts) => Some(ts.push_row(row)),
            None => None,
        }
    }
}

/// One sensor's state as carried by an overview push from the remote
/// service: its label and, when the sensor is connected, its latest values.
pub struct SensorSnapshot {
    pub label: Option<String>,
    pub values: Option<SensorValues>,
}

/// Mathematical contents of a [`SensorSnapshot`].
#[verifier::ext_equal]
pub struct SnapshotModel {
    pub label: Option<Seq<char>>,
    pub values: Option<SensorValues>,
}

impl View for SensorSnapshot {
    type V = SnapshotModel;

    open spec fn view(&self) -> SnapshotModel {
        SnapshotModel {
            label: match self.label {
                Some(s) => Some(s@),
                None => None,
            },
            values: self.values,
        }
    }
}

/// Whether a sensor with this identifier is registered.
pub open spec fn has_sensor(m: Seq<SensorModel>, id: u128) -> bool {
    exists|i: int| 0 <= i < m.len() && m[i].id == id
}

/// The position of the sensor with this identifier (meaningful only when
/// identifiers are unique and the sensor is registered).
pub open spec fn sensor_index(m: Seq<SensorModel>, id: u128) -> int {
    choose|i: int| 0 <= i < m.len() && m[i].id == id
}

/// The registry of all sensors ever observed, in order of first appearance,
/// with constant-time lookup by identifier. Sensors are never removed.
pub struct Data {
    index: indexmap::IndexMap<u128, usize>,
    sensors: Vec<SensorObj>,
}

impl View for Data {
    type V = Seq<SensorModel>;

    closed spec fn view(&self) -> Seq<SensorModel> {
        self.sensors@.map_values(|s: SensorObj| s@)
    }
}

impl Default for Data {
    /// An empty registry.
    fn default() -> (r: Self)
        ensures
            r@ =~= Seq::<SensorModel>::empty(),
            r.wf(),
    {
        let d = Data { index: im_new(), sensors: Vec::new() };
        proof {
            assert(d.sensors@.map_values(|s: SensorObj| s@) =~= Seq::<SensorModel>::empty());
        }
        d
    }
}

impl Data {
    /// The identifier index lists exactly the registered sensors, each under
    /// its own identifier at its own position.
    pub closed spec fn wf(&self) -> bool {
        &&& forall|k: u128| #[trigger] entries(self.index).contains_key(k) ==> 0 <= entries(
            self.index,
        )[k] < self.sensors@.len() && self.sensors@[entries(self.index)[k] as int]@.id == k
        &&& forall|i: int| 0 <= i < self.sensors@.len() ==> entries(self.index).contains_key(
            #[trigger] self.sensors@[i]@.id,
        ) && entries(self.index)[self.sensors@[i]@.id] == i
    }

    /// In a well-formed registry identifiers are unique, so every sensor is
    /// found at its own position.
    pub proof fn lemma_wf_index(&self)
        requires
            self.wf(),
        ensures
            forall|i: int| 0 <= i < self@.len() ==> sensor_index(self@, #[trigger] self@[i].id)
                == i,
            forall|i: int, j: int|
                0 <= i < self@.len() && 0 <= j < self@.len() && i != j ==> self@[i].id
                    != self@[j].id,
    {
        assert forall|i: int, j: int|
            0 <= i < self@.len() && 0 <= j < self@.len() && i != j implies self@[i].id
            != self@[j].id by {
            assert(self@[i].id == self.sensors@[i]@.id);
            assert(self@[j].id == self.sensors@[j]@.id);
        }
        assert forall|i: int| 0 <= i < self@.len() implies sensor_index(self@, #[trigger] self@[i].id)
            == i by {
            assert(0 <= i < self@.len() && self@[i].id == self@[i].id);
            let j = sensor_index(self@, self@[i].id);
            assert(0 <= j < self@.len() && self@[j].id == self@[i].id);
        }
    }

    /// How many sensors are registered.
    pub fn len(&self) -> (r: usize)
        ensures
            r == self@.len(),
    {
        self.sensors.len()
    }

    /// The sensor at a registration position, oldest first.
    pub fn sensor_at(&self, i: usize) -> (r: &SensorObj)
        requires
            i < self@.len(),
        ensures
            r@ == self@[i as int],
    {
        &self.sensors[i]
    }

    /// Looks a sensor up by identifier.
    pub fn get(&self, id: SensorId) -> (r: Option<&SensorObj>)
        requires
            self.wf(),
        ensures
            r is Some <==> has_sensor(self@, id.0),
            r matches Some(s) ==> s@ == self@[sensor_index(self@, id.0)],
    {
        match im_get(&self.index, id.0) {
            Some(i) => {
                proof {
                    assert(self.sensors@[i as int]@.id == id.0);
                    assert(self@[i as int] == self.sensors@[i as int]@);
                    self.lemma_wf_index();
                }
                Some(&self.sensors[i])
            },
            None => {
                proof {
                    if has_sensor(self@, id.0) {
                        let j = sensor_index(self@, id.0);
                        assert(self.sensors@[j]@.id == id.0);
                    }
                }
                None
            },
        }
    }

    /// Registers a sensor not seen before, last in order.
    pub fn insert(&mut self, sensor: SensorObj)
        requires
            old(self).wf(),
            !has_sensor(old(self)@, sensor@.id),
        ensures
            final(self).wf(),
            final(self)@ =~= old(self)@.push(sensor@),
    {
        let id = sensor.id();
        let idx = self.sensors.len();
        self.sensors.push(sensor);
        let _ = im_insert(&mut self.index, id.0, idx);
        proof {
            assert(self@ =~= old(self)@.push(sensor@));
            assert forall|k: u128| #[trigger] entries(self.index).contains_key(k) implies 0
                <= entries(self.index)[k] < self.sensors@.len() && self.sensors@[entries(
                self.index,
            )[k] as int]@.id == k by {
                if k != id.0 {
                    assert(entries(old(self).index).contains_key(k));
                }
            }
            assert forall|i: int| 0 <= i < self.sensors@.len() implies entries(
                self.index,
            ).contains_key(#[trigger] self.sensors@[i]@.id) && entries(
                self.index,
            )[self.sensors@[i]@.id] == i by {
                if i < idx {
                    assert(self.sensors@[i]@.id == old(self).sensors@[i]@.id);
                    assert(old(self)@[i].id == old(self).sensors@[i]@.id);
                    assert(self.sensors@[i]@.id != id.0);
                }
            }
        }
    }

    /// Applies one overview snapshot to the registered sensor with this
    /// identifier, in place.
    pub fn update_sensor_values(&mut self, id: SensorId, snapshot: &SensorSnapshot, now: u32)
        requires
            old(self).wf(),
            has_sensor(old(self)@, id.0),
        ensures
            final(self).wf(),
            final(self)@ =~= old(self)@.update(
                sensor_index(old(self)@, id.0),
                apply_snapshot(old(self)@[sensor_index(old(self)@, id.0)], snapshot@, now),
            ),
    {
        proof {
            let j = sensor_index(old(self)@, id.0);
            assert(self.sensors@[j]@.id == id.0);
        }
        let idx = match im_get(&self.index, id.0) {
            Some(i) => i,
            None => vstd::pervasive::unreached(),
        };
        proof {
            self.lemma_wf_index();
            assert(self@[idx as int] == self.sensors@[idx as int]@);
        }
        let s = &mut self.sensors[idx];
        s.update_values(snapshot, now);
        proof {
            let j = sensor_index(old(self)@, id.0);
            assert(j == idx as int);
            assert(self@ =~= old(self)@.update(
                j,
                apply_snapshot(old(self)@[j], snapshot@, now),
            ));
            assert forall|i: int| 0 <= i < self.sensors@.len() implies entries(
                self.index,
            ).contains_key(#[trigger] self.sensors@[i]@.id) && entries(
                self.index,
            )[self.sensors@[i]@.id] == i by {
                assert(self.sensors@[i]@.id == old(self).sensors@[i]@.id);
            }
            assert forall|k: u128| #[trigger] entries(self.index).contains_key(k) implies 0
                <= entries(self.index)[k] < self.sensors@.len() && self.sensors@[entries(
                self.index,
            )[k] as int]@.id == k by {
                let i = entries(self.index)[k];
                assert(old(self).sensors@[i as int]@.id == k);
            }
        }
    }

    /// Replaces the live timeseries of the registered sensor with this
    /// identifier.
    pub fn set_sensor_timeseries(&mut self, id: SensorId, timeseries: Timeseries)
        requires
            old(self).wf(),
            has_sensor(old(self)@, id.0),
        ensures
            final(self).wf(),
            final(self)@ =~= old(self)@.update(
                sensor_index(old(self)@, id.0),
                (SensorModel {
                    live: Some(timeseries@),
                    ..old(self)@[sensor_index(old(self)@, id.0)]
                }),
            ),
    {
        proof {
            let j = sensor_index(old(self)@, id.0);
            assert(self.sensors@[j]@.id == id.0);
        }
        let idx = match im_get(&self.index, id.0) {
            Some(i) => i,
            None => vstd::pervasive::unreached(),
        };
        proof {
            self.lemma_wf_index();
            assert(self@[idx as int] == self.sensors@[idx as int]@);
        }
        let s = &mut self.sensors[idx];
        s.set_timeseries(timeseries);
        proof {
            let j = sensor_index(old(self)@, id.0);
            assert(j == idx as int);
            assert(self@ =~= old(self)@.update(
                j,
                (SensorModel { live: Some(timeseries@), ..old(self)@[j] }),
            ));
            assert forall|i: int| 0 <= i < self.sensors@.len() implies entries(
                self.index,
            ).contains_key(#[trigger] self.sensors@[i]@.id) && entries(
                self.index,
            )[self.sensors@[i]@.id] == i by {
                assert(self.sensors@[i]@.id == old(self).sensors@[i]@.id);
            }
            assert forall|k: u128| #[trigger] entries(self.index).contains_key(k) implies 0
                <= entries(self.index)[k] < self.sensors@.len() && self.sensors@[entries(
                self.index,
            )[k] as int]@.id == k by {
                let i = entries(self.index)[k];
                assert(old(self).sensors@[i as int]@.id == k);
            }
        }
    }
}

} // verus!
