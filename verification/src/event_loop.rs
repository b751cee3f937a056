//! The event dispatcher: the single-threaded state machine that turns
//! network events and user actions into application state transitions and
//! outward effects (commands to enqueue, view-layer notifications).

use vstd::prelude::*;

use crate::central::{Command, TimeseriesRequest, TimeseriesResponse};
use crate::data::{has_sensor, sensor_index, Data, SensorId, SensorSnapshot, SnapshotModel, Timeseries};
use crate::graph::Unit;
use crate::sensor_obj::{apply_snapshot, new_sensor_model, SensorModel, SensorObj};

verus! {

/// A normalized optional sensor label: empty textual input is canonicalized
/// to "no label" rather than stored as an empty string.
#[derive(Debug)]
pub struct Label(pub Option<String>);

impl Label {
    /// The label's text, if any.
    pub open spec fn model(&self) -> Option<Seq<char>> {
        match self.0 {
            Some(s) => Some(s@),
            None => None,
        }
    }

    /// The normalized optional text.
    pub fn into_inner(self) -> (r: Option<String>)
        ensures
            (match r {
                Some(s) => Some(s@),
                None => None,
            }) == self.model(),
    {
        self.0
    }
}

impl From<String> for Label {
    /// Canonicalizes empty input to "no label".
    fn from(s: String) -> (r: Self) {
        if s.as_str().is_empty() {
            Label(None)
        } else {
            Label(Some(s))
        }
    }
}

impl vstd::std_specs::convert::FromSpecImpl<String> for Label {
    open spec fn obeys_from_spec() -> bool {
        true
    }

    open spec fn from_spec(s: String) -> Self {
        if s@.len() == 0 {
            Label(None)
        } else {
            Label(Some(s))
        }
    }
}

/// A notification consumed by the dispatcher, from the sync worker or from
/// a user-interface action.
pub enum Event {
    OpenSearch,
    OpenOverview,
    OpenDetail(SensorId),
    DetailRangeChanged { id: SensorId, from: u32, to: u32 },
    ChangeLabel { id: SensorId, label: Label },
    OverviewUpdate(Vec<(SensorId, SensorSnapshot)>),
    FetchedTimeseries { timeseries: TimeseriesResponse, id: SensorId },
    SensorSelected(SensorId),
}

/// The one active application view.
pub enum AppView {
    Overview { selected_sensor: Option<SensorId>, search_active: bool },
    Detail { sensor: SensorId, unit: Unit },
}

impl Default for AppView {
    /// The application opens on the overview, nothing selected, search off.
    fn default() -> (r: Self)
        ensures
            r == (AppView::Overview { selected_sensor: None, search_active: false }),
    {
        AppView::Overview { selected_sensor: None, search_active: false }
    }
}

/// An outward reaction of the dispatcher: a command for the sync worker's
/// queue, or an opaque notification to the view layer.
pub enum Effect {
    /// Enqueue this command on the command channel.
    Enqueue(Command),
    /// Tell the view layer the active view changed.
    SwitchView,
    /// Tell the view layer to open its search entry.
    ActivateSearch,
    /// Tell the view layer to close its search entry.
    DeactivateSearch,
    /// Tell the view layer a sensor appeared for the first time.
    AddSensor(SensorId),
    /// Hand the view layer a fetched static range to display.
    SetStaticTimeseries(Timeseries),
}

/// The application state the dispatcher owns: the sensor registry and the
/// active view. The dispatcher is its only writer.
pub struct State {
    pub data: Data,
    pub display: AppView,
}

impl Default for State {
    /// An empty registry, the default overview.
    fn default() -> (r: Self)
        ensures
            r.data@ =~= Seq::<SensorModel>::empty(),
            r.data.wf(),
            r.display == (AppView::Overview { selected_sensor: None, search_active: false }),
    {
        State { data: Default::default(), display: Default::default() }
    }
}

/// The mathematical contents of one overview batch.
pub open spec fn snap_models(u: Seq<(SensorId, SensorSnapshot)>) -> Seq<(SensorId, SnapshotModel)> {
    u.map_values(|p: (SensorId, SensorSnapshot)| (p.0, p.1@))
}

/// How one batch entry changes the registry: a known sensor is updated in
/// place, an unknown one is registered last, seeded from its snapshot.
pub open spec fn register_or_update(
    m: Seq<SensorModel>,
    id: u128,
    snap: SnapshotModel,
    now: u32,
) -> Seq<SensorModel> {
    if has_sensor(m, id) {
        m.update(sensor_index(m, id), apply_snapshot(m[sensor_index(m, id)], snap, now))
    } else {
        m.push(apply_snapshot(new_sensor_model(id), snap, now))
    }
}

/// The registry after a whole overview batch, entries applied in order.
pub open spec fn apply_overview(
    m: Seq<SensorModel>,
    updates: Seq<(SensorId, SnapshotModel)>,
    now: u32,
) -> Seq<SensorModel>
    decreases updates.len(),
{
    if updates.len() == 0 {
        m
    } else {
        apply_overview(
            register_or_update(m, updates[0].0.0, updates[0].1, now),
            updates.drop_first(),
            now,
        )
    }
}

/// The identifiers a batch registers for the first time, in encounter order.
pub open spec fn new_ids(
    m: Seq<SensorModel>,
    updates: Seq<(SensorId, SnapshotModel)>,
    now: u32,
) -> Seq<SensorId>
    decreases updates.len(),
{
    if updates.len() == 0 {
        Seq::empty()
    } else {
        let rest = new_ids(
            register_or_update(m, updates[0].0.0, updates[0].1, now),
            updates.drop_first(),
            now,
        );
        if has_sensor(m, updates[0].0.0) {
            rest
        } else {
            seq![updates[0].0].add(rest)
        }
    }
}

/// One view-layer notification per newly registered sensor.
pub open spec fn add_sensor_effects(ids: Seq<SensorId>) -> Seq<Effect> {
    ids.map_values(|id: SensorId| Effect::AddSensor(id))
}

/// The event a detail view's range pickers produce: an inclusive interval,
/// but only when it is ordered; an inverted range yields no event at all.
pub fn mk_details_range(id: SensorId, from: u32, to: u32) -> (r: Option<Event>)
    ensures
        r is Some <==> from <= to,
        r matches Some(e) ==> e == (Event::DetailRangeChanged { id, from, to }),
{
    if from > to {
        None
    } else {
        Some(Event::DetailRangeChanged { id, from, to })
    }
}

/// Everything but the live buffer agrees: identity, label, connectivity and
/// the three latest readings.
pub open spec fn scalar_eq(a: SensorModel, b: SensorModel) -> bool {
    &&& a.id == b.id
    &&& a.label == b.label
    &&& a.connected == b.connected
    &&& a.temperature == b.temperature
    &&& a.humidity == b.humidity
    &&& a.pressure == b.pressure
}

/// Registry agreement up to live-buffer contents.
pub open spec fn scalars_eq(a: Seq<SensorModel>, b: Seq<SensorModel>) -> bool {
    a.len() == b.len() && (forall|i: int|
        0 <= i < a.len() ==> scalar_eq(#[trigger] a[i], #[trigger] b[i]))
}

/// No two registered sensors share an identifier.
pub open spec fn distinct_ids(m: Seq<SensorModel>) -> bool {
    forall|i: int, j: int| 0 <= i < j < m.len() ==> m[i].id != m[j].id
}

/// The snapshots one batch carries for a given sensor, in order.
pub open spec fn snaps_for(u: Seq<(SensorId, SnapshotModel)>, id: u128) -> Seq<SnapshotModel>
    decreases u.len(),
{
    if u.len() == 0 {
        Seq::empty()
    } else if u[0].0.0 == id {
        seq![u[0].1].add(snaps_for(u.drop_first(), id))
    } else {
        snaps_for(u.drop_first(), id)
    }
}

/// One sensor's state after a run of snapshots, applied in order at
/// receipt time `n`.
pub open spec fn fold_snaps(e: SensorModel, w: Seq<SnapshotModel>, n: u32) -> SensorModel
    decreases w.len(),
{
    if w.len() == 0 {
        e
    } else {
        fold_snaps(apply_snapshot(e, w[0], n), w.drop_first(), n)
    }
}

/// Whether the batch names the sensor at all.
pub open spec fn occurs_in(u: Seq<(SensorId, SnapshotModel)>, id: u128) -> bool {
    exists|i: int| 0 <= i < u.len() && u[i].0.0 == id
}

/// The three readings agree.
spec fn temps_eq(a: SensorModel, b: SensorModel) -> bool {
    a.temperature == b.temperature && a.humidity == b.humidity && a.pressure == b.pressure
}

/// Some snapshot of the run carries values.
spec fn has_values(w: Seq<SnapshotModel>) -> bool {
    exists|i: int| 0 <= i < w.len() && w[i].values is Some
}

/// Applying the same snapshot twice leaves the scalars where one
/// application put them.
proof fn lemma_apply_snapshot_idempotent(s: SensorModel, snap: SnapshotModel, n1: u32, n2: u32)
    ensures
        scalar_eq(apply_snapshot(apply_snapshot(s, snap, n1), snap, n2), apply_snapshot(s, snap, n1)),
{
}

/// A batch entry never introduces a duplicate identifier.
proof fn lemma_register_distinct(m: Seq<SensorModel>, id: u128, snap: SnapshotModel, now: u32)
    requires
        distinct_ids(m),
    ensures
        distinct_ids(register_or_update(m, id, snap, now)),
        register_or_update(m, id, snap, now).len() >= m.len(),
        forall|i: int| 0 <= i < m.len() ==> #[trigger] register_or_update(m, id, snap, now)[i].id
            == m[i].id,
{
    let r = register_or_update(m, id, snap, now);
    if has_sensor(m, id) {
        let p = sensor_index(m, id);
        assert(0 <= p < m.len() && m[p].id == id);
        assert(forall|i: int| 0 <= i < m.len() ==> #[trigger] r[i].id == m[i].id);
    } else {
        assert forall|i: int, j: int| 0 <= i < j < r.len() implies r[i].id != r[j].id by {
            if j == m.len() {
                if r[i].id == id {
                    assert(0 <= i < m.len() && m[i].id == id);
                }
            }
        }
    }
}

/// Applying snapshots never changes a sensor's identity.
proof fn lemma_fold_id(e: SensorModel, w: Seq<SnapshotModel>, n: u32)
    ensures
        fold_snaps(e, w, n).id == e.id,
    decreases w.len(),
{
    if w.len() > 0 {
        lemma_fold_id(apply_snapshot(e, w[0], n), w.drop_first(), n);
    }
}

/// Snapshots without values leave the readings untouched.
proof fn lemma_fold_no_values(e: SensorModel, w: Seq<SnapshotModel>, n: u32)
    requires
        !has_values(w),
    ensures
        temps_eq(fold_snaps(e, w, n), e),
    decreases w.len(),
{
    if w.len() > 0 {
        assert(!(w[0].values is Some));
        assert forall|i: int| 0 <= i < w.drop_first().len() implies !(#[trigger] w.drop_first()[i].values
            is Some) by {
            assert(w.drop_first()[i] == w[i + 1]);
        }
        lemma_fold_no_values(apply_snapshot(e, w[0], n), w.drop_first(), n);
    }
}

/// Two states of one sensor converge under a common run of snapshots: after
/// the run their scalars agree, provided they already agreed on the
/// readings or the run carries readings of its own.
proof fn lemma_fold_converges(
    a: SensorModel,
    b: SensorModel,
    w: Seq<SnapshotModel>,
    na: u32,
    nb: u32,
)
    requires
        w.len() > 0,
        a.id == b.id,
        temps_eq(a, b) || has_values(w),
    ensures
        scalar_eq(fold_snaps(a, w, na), fold_snaps(b, w, nb)),
    decreases w.len(),
{
    let a1 = apply_snapshot(a, w[0], na);
    let b1 = apply_snapshot(b, w[0], nb);
    if w.len() == 1 {
        if !(w[0].values is Some) {
            assert(temps_eq(a, b));
        }
        assert(w.drop_first().len() == 0);
        assert(scalar_eq(a1, b1));
    } else {
        if w[0].values is Some {
            lemma_fold_converges(a1, b1, w.drop_first(), na, nb);
        } else if temps_eq(a, b) {
            lemma_fold_converges(a1, b1, w.drop_first(), na, nb);
        } else {
            let i = choose|i: int| 0 <= i < w.len() && w[i].values is Some;
            assert(i >= 1);
            assert(w.drop_first()[i - 1] == w[i]);
            assert(has_values(w.drop_first()));
            lemma_fold_converges(a1, b1, w.drop_first(), na, nb);
        }
    }
}

/// Rerunning a run of snapshots moves no scalar: the second pass only
/// rewrites what the first pass already wrote.
proof fn lemma_fold_idempotent(z: SensorModel, w: Seq<SnapshotModel>, n1: u32, n2: u32)
    ensures
        scalar_eq(fold_snaps(fold_snaps(z, w, n1), w, n2), fold_snaps(z, w, n1)),
    decreases w.len(),
{
    if w.len() > 0 {
        let s = w[0];
        let w1 = w.drop_first();
        let y = apply_snapshot(z, s, n1);
        let fy = fold_snaps(y, w1, n1);
        assert(fold_snaps(z, w, n1) == fy);
        let a = apply_snapshot(fy, s, n2);
        assert(fold_snaps(fy, w, n2) == fold_snaps(a, w1, n2));
        if w1.len() == 0 {
            assert(fy == y);
            lemma_apply_snapshot_idempotent(z, s, n1, n2);
        } else {
            lemma_fold_id(y, w1, n1);
            if s.values is Some && !has_values(w1) {
                lemma_fold_no_values(y, w1, n1);
            }
            lemma_fold_converges(a, fy, w1, n2, n2);
            lemma_fold_idempotent(y, w1, n1, n2);
        }
    }
}

/// How a batch acts on a registry with unique identifiers, sensor by
/// sensor: every prior entry receives exactly its own snapshots in order,
/// every new entry is seeded fresh and receives its own, and afterwards
/// every sensor the batch names is registered.
proof fn lemma_apply_overview_decompose(
    m: Seq<SensorModel>,
    u: Seq<(SensorId, SnapshotModel)>,
    n: u32,
)
    requires
        distinct_ids(m),
    ensures
        apply_overview(m, u, n).len() >= m.len(),
        distinct_ids(apply_overview(m, u, n)),
        forall|p: int| 0 <= p < m.len() ==> #[trigger] apply_overview(m, u, n)[p] == fold_snaps(
            m[p],
            snaps_for(u, m[p].id),
            n,
        ),
        forall|q: int| m.len() <= q < apply_overview(m, u, n).len() ==> (!has_sensor(
            m,
            (#[trigger] apply_overview(m, u, n)[q]).id,
        ) && occurs_in(u, apply_overview(m, u, n)[q].id) && apply_overview(m, u, n)[q] == fold_snaps(
            new_sensor_model(apply_overview(m, u, n)[q].id),
            snaps_for(u, apply_overview(m, u, n)[q].id),
            n,
        )),
        forall|i: int| 0 <= i < u.len() ==> has_sensor(apply_overview(m, u, n), (#[trigger] u[i]).0.0),
    decreases u.len(),
{
    let r = apply_overview(m, u, n);
    if u.len() == 0 {
        assert(r == m);
        assert forall|p: int| 0 <= p < m.len() implies #[trigger] r[p] == fold_snaps(
            m[p],
            snaps_for(u, m[p].id),
            n,
        ) by {
            assert(snaps_for(u, m[p].id) =~= Seq::empty());
        }
    } else {
        let id0 = u[0].0.0;
        let s0 = u[0].1;
        let rest = u.drop_first();
        let m1 = register_or_update(m, id0, s0, n);
        lemma_register_distinct(m, id0, s0, n);
        lemma_apply_overview_decompose(m1, rest, n);
        assert(r == apply_overview(m1, rest, n));

        // where the head entry's sensor sits in m1
        let pos0: int = if has_sensor(m, id0) {
            sensor_index(m, id0)
        } else {
            m.len() as int
        };
        if has_sensor(m, id0) {
            assert(0 <= pos0 < m.len() && m[pos0].id == id0);
            assert(m1 == m.update(pos0, apply_snapshot(m[pos0], s0, n)));
        } else {
            assert(m1 == m.push(apply_snapshot(new_sensor_model(id0), s0, n)));
        }
        assert(m1[pos0] == apply_snapshot(
            if has_sensor(m, id0) { m[pos0] } else { new_sensor_model(id0) },
            s0,
            n,
        ));
        assert(m1[pos0].id == id0);

        // a sequence of snapshots for one id unfolds over the batch's head
        assert forall|id: u128| true implies snaps_for(u, id) == (if id == id0 {
            seq![s0].add(snaps_for(rest, id))
        } else {
            snaps_for(rest, id)
        }) by {
            assert(u.drop_first() == rest);
        }

        // prior entries
        assert forall|p: int| 0 <= p < m.len() implies #[trigger] r[p] == fold_snaps(
            m[p],
            snaps_for(u, m[p].id),
            n,
        ) by {
            assert(r[p] == fold_snaps(m1[p], snaps_for(rest, m1[p].id), n));
            if m[p].id == id0 {
                assert(has_sensor(m, id0));
                if pos0 != p {
                    assert(m[pos0].id != m[p].id);
                }
                assert(pos0 == p);
                let w = snaps_for(u, id0);
                let w1 = snaps_for(rest, id0);
                assert(w == seq![s0].add(w1));
                assert(w.len() == 1 + w1.len());
                assert(w[0] == s0);
                assert(w.drop_first() =~= w1);
                assert(fold_snaps(m[p], w, n) == fold_snaps(apply_snapshot(m[p], s0, n), w1, n));
                assert(m1[p] == apply_snapshot(m[p], s0, n));
            } else {
                assert(m1[p] == m[p]);
                assert(snaps_for(u, m[p].id) == snaps_for(rest, m[p].id));
            }
        }

        // new entries
        assert forall|q: int| m.len() <= q < r.len() implies (!has_sensor(
            m,
            (#[trigger] r[q]).id,
        ) && occurs_in(u, r[q].id) && r[q] == fold_snaps(
            new_sensor_model(r[q].id),
            snaps_for(u, r[q].id),
            n,
        )) by {
            if !has_sensor(m, id0) && q == m.len() {
                assert(q < m1.len());
                assert(r[q] == fold_snaps(m1[q], snaps_for(rest, m1[q].id), n));
                assert(m1[q] == apply_snapshot(new_sensor_model(id0), s0, n));
                assert(m1[q].id == id0);
                let w = snaps_for(u, id0);
                let w1 = snaps_for(rest, id0);
                assert(w == seq![s0].add(w1));
                assert(w[0] == s0);
                assert(w.drop_first() =~= w1);
                assert(fold_snaps(new_sensor_model(id0), w, n) == fold_snaps(m1[q], w1, n));
                lemma_fold_id(m1[q], w1, n);
                assert(r[q].id == id0);
                assert(occurs_in(u, id0));
            } else {
                assert(q >= m1.len());
                assert(!has_sensor(m1, r[q].id) && occurs_in(rest, r[q].id) && r[q] == fold_snaps(
                    new_sensor_model(r[q].id),
                    snaps_for(rest, r[q].id),
                    n,
                ));
                assert(!has_sensor(m, r[q].id)) by {
                    if has_sensor(m, r[q].id) {
                        let p = sensor_index(m, r[q].id);
                        assert(0 <= p < m.len() && m[p].id == r[q].id);
                        assert(m1[p].id == r[q].id);
                        assert(has_sensor(m1, r[q].id));
                    }
                }
                assert(r[q].id != id0) by {
                    if r[q].id == id0 {
                        assert(m1[pos0].id == id0);
                        assert(has_sensor(m1, id0));
                    }
                }
                assert(snaps_for(u, r[q].id) == snaps_for(rest, r[q].id));
                assert(occurs_in(u, r[q].id)) by {
                    let i = choose|i: int| 0 <= i < rest.len() && rest[i].0.0 == r[q].id;
                    assert(u[i + 1] == rest[i]);
                }
            }
        }

        // every named sensor ends up registered
        assert forall|i: int| 0 <= i < u.len() implies has_sensor(r, (#[trigger] u[i]).0.0) by {
            if i == 0 {
                assert(pos0 < m1.len());
                assert(r[pos0] == fold_snaps(m1[pos0], snaps_for(rest, m1[pos0].id), n));
                lemma_fold_id(m1[pos0], snaps_for(rest, m1[pos0].id), n);
                assert(r[pos0].id == id0);
                assert(0 <= pos0 < r.len());
            } else {
                assert(rest[i - 1] == u[i]);
                assert(has_sensor(r, rest[i - 1].0.0));
            }
        }
    }
}

/// Every registry the dispatcher maintains has unique identifiers, so the
/// idempotence law below applies to it.
pub proof fn lemma_data_distinct(d: &Data)
    requires
        d.wf(),
    ensures
        distinct_ids(d@),
{
    d.lemma_wf_index();
}

/// One overview batch applied twice with identical snapshots leaves every
/// sensor's scalar state where the first application put it, and registers
/// no sensor twice: the registry keeps the same identifiers at the same
/// positions. Only the live buffers may differ, by the rows the second
/// round of live pushes appends.
pub proof fn lemma_overview_idempotent(
    m0: Seq<SensorModel>,
    u: Seq<(SensorId, SnapshotModel)>,
    n1: u32,
    n2: u32,
)
    requires
        distinct_ids(m0),
    ensures
        scalars_eq(apply_overview(apply_overview(m0, u, n1), u, n2), apply_overview(m0, u, n1)),
{
    let m1 = apply_overview(m0, u, n1);
    let m2 = apply_overview(m1, u, n2);
    lemma_apply_overview_decompose(m0, u, n1);
    lemma_apply_overview_decompose(m1, u, n2);
    assert(m2.len() == m1.len()) by {
        if m2.len() > m1.len() {
            let q = m1.len() as int;
            assert(occurs_in(u, m2[q].id) && !has_sensor(m1, m2[q].id));
            let i = choose|i: int| 0 <= i < u.len() && u[i].0.0 == m2[q].id;
            assert(has_sensor(m1, u[i].0.0));
        }
    }
    assert forall|p: int| 0 <= p < m1.len() implies scalar_eq(#[trigger] m2[p], #[trigger] m1[p]) by {
        assert(m2[p] == fold_snaps(m1[p], snaps_for(u, m1[p].id), n2));
        if p < m0.len() {
            assert(m1[p] == fold_snaps(m0[p], snaps_for(u, m0[p].id), n1));
            lemma_fold_id(m0[p], snaps_for(u, m0[p].id), n1);
            assert(m1[p].id == m0[p].id);
            lemma_fold_idempotent(m0[p], snaps_for(u, m0[p].id), n1, n2);
        } else {
            assert(m1[p] == fold_snaps(
                new_sensor_model(m1[p].id),
                snaps_for(u, m1[p].id),
                n1,
            ));
            lemma_fold_idempotent(new_sensor_model(m1[p].id), snaps_for(u, m1[p].id), n1, n2);
        }
    }
}

impl State {
    /// Exhaustive event dispatch: the one place application state changes.
    /// The returned effects — commands to enqueue and view-layer
    /// notifications — are performed by the runner in order. `now` is the
    /// receipt time (seconds since the epoch), used as the sample time of
    /// live pushes.
    pub fn dispatch(&mut self, event: Event, now: u32) -> (effects: Vec<Effect>)
        requires
            old(self).data.wf(),
        ensures
            final(self).data.wf(),
            (match event {
                Event::OpenSearch => final(self).data@ =~= old(self).data@ && (match old(self).display {
                    AppView::Overview { selected_sensor, search_active } => final(self).display
                        == (AppView::Overview {
                        selected_sensor,
                        search_active: !search_active,
                    }) && effects@ =~= seq![
                        if !search_active {
                            Effect::ActivateSearch
                        } else {
                            Effect::DeactivateSearch
                        },
                    ],
                    AppView::Detail { .. } => final(self).display == old(self).display && effects@
                        =~= Seq::<Effect>::empty(),
                }),
                Event::OpenOverview => final(self).data@ =~= old(self).data@ && final(self).display
                    == (AppView::Overview { selected_sensor: None, search_active: false })
                    && effects@ =~= seq![Effect::SwitchView],
                Event::SensorSelected(id) => final(self).data@ =~= old(self).data@ && (
                if !has_sensor(old(self).data@, id.0) {
                    final(self).display == old(self).display && effects@ =~= Seq::<Effect>::empty()
                } else {
                    let fetch: Seq<Effect> = if old(self).data@[sensor_index(old(self).data@, id.0)].live
                        is None {
                        seq![Effect::Enqueue(Command::FetchTimeseries(TimeseriesRequest::Live(id)))]
                    } else {
                        Seq::empty()
                    };
                    match old(self).display {
                        AppView::Overview { selected_sensor, search_active } => final(self).display
                            == (AppView::Overview { selected_sensor: Some(id), search_active })
                            && effects@ =~= fetch.push(Effect::SwitchView),
                        AppView::Detail { .. } => final(self).display == old(self).display
                            && effects@ =~= fetch,
                    }
                }),
                Event::OpenDetail(id) => final(self).data@ =~= old(self).data@ && (
                if !has_sensor(old(self).data@, id.0) {
                    final(self).display == old(self).display && effects@ =~= Seq::<Effect>::empty()
                } else {
                    let fetch: Seq<Effect> = if old(self).data@[sensor_index(old(self).data@, id.0)].live
                        is None {
                        seq![Effect::Enqueue(Command::FetchTimeseries(TimeseriesRequest::Live(id)))]
                    } else {
                        Seq::empty()
                    };
                    final(self).display == (AppView::Detail { sensor: id, unit: Unit::Temperature })
                        && effects@ =~= fetch.push(Effect::SwitchView)
                }),
                Event::FetchedTimeseries { timeseries, id } => final(self).display == old(self).display && (
                if !has_sensor(old(self).data@, id.0) {
                    final(self).data@ =~= old(self).data@ && effects@ =~= Seq::<Effect>::empty()
                } else {
                    match timeseries {
                        TimeseriesResponse::Live(ts) => final(self).data@ =~= old(self).data@.update(
                            sensor_index(old(self).data@, id.0),
                            (SensorModel {
                                live: Some(ts@),
                                ..old(self).data@[sensor_index(old(self).data@, id.0)]
                            }),
                        ) && effects@ =~= Seq::<Effect>::empty(),
                        TimeseriesResponse::Range(ts) => final(self).data@ =~= old(self).data@ && (
                        match old(self).display {
                            AppView::Detail { sensor, .. } => if sensor == id {
                                effects@ =~= seq![Effect::SetStaticTimeseries(ts)]
                            } else {
                                effects@ =~= Seq::<Effect>::empty()
                            },
                            AppView::Overview { .. } => effects@ =~= Seq::<Effect>::empty(),
                        }),
                    }
                }),
                Event::OverviewUpdate(update) => final(self).display == old(self).display && final(self).data@ =~= apply_overview(old(self).data@, snap_models(update@), now) && effects@
                    =~= add_sensor_effects(new_ids(old(self).data@, snap_models(update@), now)),
                Event::ChangeLabel { id, label } => final(self).data@ =~= old(self).data@ && final(self).display == old(self).display && effects@ =~= seq![
                    Effect::Enqueue(Command::SetLabel { label, id }),
                ],
                Event::DetailRangeChanged { id, from, to } => final(self).data@ =~= old(self).data@
                    && final(self).display == old(self).display && effects@ =~= seq![
                    Effect::Enqueue(
                        Command::FetchTimeseries(
                            TimeseriesRequest::Range { id, start: from, end: to },
                        ),
                    ),
                ],
            }),
    {
        let mut effects: Vec<Effect> = Vec::new();
        match event {
            Event::OpenSearch => {
                match &self.display {
                    AppView::Overview { selected_sensor, search_active } => {
                        let sel = *selected_sensor;
                        let sa = !*search_active;
                        self.display = AppView::Overview {
                            selected_sensor: sel,
                            search_active: sa,
                        };
                        if sa {
                            effects.push(Effect::ActivateSearch);
                        } else {
                            effects.push(Effect::DeactivateSearch);
                        }
                    },
                    AppView::Detail { .. } => {},
                }
            },
            Event::OpenOverview => {
                self.display = AppView::Overview { selected_sensor: None, search_active: false };
                effects.push(Effect::SwitchView);
            },
            Event::SensorSelected(id) => {
                let (known, need_fetch) = match self.data.get(id) {
                    Some(sensor) => (true, sensor.timeseries().is_none()),
                    None => (false, false),
                };
                if known {
                    if need_fetch {
                        effects.push(
                            Effect::Enqueue(Command::FetchTimeseries(TimeseriesRequest::Live(id))),
                        );
                    }
                    match &self.display {
                        AppView::Overview { search_active, .. } => {
                            let sa = *search_active;
                            self.display = AppView::Overview {
                                selected_sensor: Some(id),
                                search_active: sa,
                            };
                            effects.push(Effect::SwitchView);
                        },
                        AppView::Detail { .. } => {},
                    }
                }
            },
            Event::OpenDetail(id) => {
                let (known, need_fetch) = match self.data.get(id) {
                    Some(sensor) => (true, sensor.timeseries().is_none()),
                    None => (false, false),
                };
                if known {
                    if need_fetch {
                        effects.push(
                            Effect::Enqueue(Command::FetchTimeseries(TimeseriesRequest::Live(id))),
                        );
                    }
                    self.display = AppView::Detail { sensor: id, unit: Unit::Temperature };
                    effects.push(Effect::SwitchView);
                }
            },
            Event::FetchedTimeseries { timeseries, id } => {
                let known = match self.data.get(id) {
                    Some(_) => true,
                    None => false,
                };
                if known {
                    match timeseries {
                        TimeseriesResponse::Live(ts) => {
                            self.data.set_sensor_timeseries(id, ts);
                        },
                        TimeseriesResponse::Range(ts) => {
                            let shown = match &self.display {
                                AppView::Detail { sensor, .. } => sensor.0 == id.0,
                                AppView::Overview { .. } => false,
                            };
                            if shown {
                                effects.push(Effect::SetStaticTimeseries(ts));
                            }
                        },
                    }
                }
            },
            Event::OverviewUpdate(update) => {
                let ghost m0 = self.data@;
                let ghost models = snap_models(update@);
                proof {
                    assert(models.skip(0) =~= models);
                    assert(effects@ + add_sensor_effects(new_ids(m0, models, now))
                        =~= add_sensor_effects(new_ids(m0, models, now)));
                }
                let n = update.len();
                let mut k: usize = 0;
                while k < n
                    invariant
                        n == update.len(),
                        k <= n,
                        self.data.wf(),
                        self.display == old(self).display,
                        models == snap_models(update@),
                        models.len() == n,
                        apply_overview(m0, models, now) == apply_overview(
                            self.data@,
                            models.skip(k as int),
                            now,
                        ),
                        add_sensor_effects(new_ids(m0, models, now)) =~= effects@
                            + add_sensor_effects(new_ids(self.data@, models.skip(k as int), now)),
                    decreases n - k,
                {
                    let id = update[k].0;
                    let snap = &update[k].1;
                    proof {
                        assert(models[k as int] == (update@[k as int].0, update@[k as int].1@));
                        assert(models.skip(k as int)[0] == models[k as int]);
                        assert(models.skip(k as int).drop_first() =~= models.skip(k as int + 1));
                    }
                    let known = match self.data.get(id) {
                        Some(_) => true,
                        None => false,
                    };
                    if known {
                        self.data.update_sensor_values(id, snap, now);
                    } else {
                        let mut sensor = SensorObj::new(id);
                        sensor.update_values(snap, now);
                        effects.push(Effect::AddSensor(id));
                        self.data.insert(sensor);
                    }
                    k += 1;
                }
                proof {
                    assert(models.skip(n as int) =~= Seq::<(SensorId, SnapshotModel)>::empty());
                }
            },
            Event::ChangeLabel { id, label } => {
                effects.push(Effect::Enqueue(Command::SetLabel { label, id }));
            },
            Event::DetailRangeChanged { id, from, to } => {
                effects.push(
                    Effect::Enqueue(
                        Command::FetchTimeseries(
                            TimeseriesRequest::Range { id, start: from, end: to },
                        ),
                    ),
                );
            },
        }
        effects
    }
}

} // verus!
