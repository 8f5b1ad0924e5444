//! The history recorder: one live chart session per device, fed by samples,
//! cleared, rebased after a deleted history row, and picked for saving.
use vstd::prelude::*;

use crate::history::{
    device_id_text, is_history_of, no_points_message, lemma_session_id_counter_injective, new_session_id, now_unix_nanos,
    session_id_text, summarize_chart_history, millis_of_nanos, ChartHistorySnapshot, ChartPoint, WallClock,
    ChartPointEvent, ChartView, CurrentChart, DeviceKey, DeviceType, HistorySummaryData,
    AUTO_SAVE_MIN_POINTS, LOCAL_TICKS_PER_POINT, MAX_CHART_POINTS,
};
use crate::database::{cleanup_warning, cleanup_warning_text, delete_all_result_of, DeleteAllHistoryResult, HistoryPurgeResult};
use crate::history::ChartHistorySaveResult;
use crate::provider::NormalizedResource;

verus! {

broadcast use vstd::std_specs::vecdeque::group_vec_dequeue_axioms;

/// Whether the live chart is on when no preference says otherwise.
pub const DEFAULT_CHART_ENABLED: bool = true;

/// Whether charts are saved when the window closes or the app exits, when
/// no preference says otherwise.
pub const DEFAULT_AUTO_SAVE: bool = false;

/// What one device's chart session holds.
pub struct SessionModel {
    pub session_id: Seq<char>,
    pub points: Seq<ChartPoint>,
    pub last_sensor_update: Option<i64>,
    pub saved_history_id: Option<i64>,
}

/// What a [`HistoryRecorder`] holds: its switches and counters, the devices
/// in the order their sessions were opened, and each device's session.
pub struct RecorderModel {
    pub chart_enabled: bool,
    pub auto_save: bool,
    pub next_sequence: u64,
    pub local_tick_count: u8,
    pub session_counter: u64,
    pub devices: Seq<DeviceKey>,
    pub sessions: Map<DeviceKey, SessionModel>,
    /// Every session id the recorder has handed out.
    pub issued: Set<Seq<char>>,
}

/// `x + 1`, wrapping to zero past `u64::MAX`.
pub open spec fn wrapping_inc(x: u64) -> u64 {
    if x == u64::MAX {
        0
    } else {
        (x + 1) as u64
    }
}

/// `x + n`, wrapping around `u64::MAX`.
pub open spec fn wrapping_add_n(x: u64, n: nat) -> u64 {
    ((x as int + n) % 0x1_0000_0000_0000_0000int) as u64
}

/// `x + 1`, staying at `u8::MAX`.
pub open spec fn saturating_inc(x: u8) -> u8 {
    if x == u8::MAX {
        x
    } else {
        (x + 1) as u8
    }
}

/// A ring of at most [`MAX_CHART_POINTS`] points with `p` appended: the
/// oldest point leaves when the ring is full.
pub open spec fn ring_push(points: Seq<ChartPoint>, p: ChartPoint) -> Seq<ChartPoint> {
    if points.len() == MAX_CHART_POINTS {
        points.subrange(1, points.len() as int).push(p)
    } else {
        points.push(p)
    }
}

/// A session id made when the recorder's counter stood at `counter`.
pub open spec fn is_session_id_for(id: Seq<char>, counter: u64) -> bool {
    exists|n: nat| id == #[trigger] session_id_text(n, counter as nat)
}

/// A session id made with a counter value from `lo` up to but not
/// including `hi`.
pub open spec fn id_made_between(id: Seq<char>, lo: int, hi: int) -> bool {
    exists|n: nat, c: nat| lo <= c < hi && id == #[trigger] session_id_text(n, c)
}

/// A session that was just opened with counter value `counter`.
pub open spec fn is_new_session(s: SessionModel, counter: u64) -> bool {
    &&& s.points.len() == 0
    &&& s.last_sensor_update is None
    &&& s.saved_history_id is None
    &&& is_session_id_for(s.session_id, counter)
}

/// `new` is `old` moved to a new session id: same points and sensor time,
/// no longer tied to a history row.
pub open spec fn is_rebase_of(new: SessionModel, old: SessionModel) -> bool {
    &&& new.points == old.points
    &&& new.last_sensor_update == old.last_sensor_update
    &&& new.saved_history_id is None
}

/// The chart that a device's session shows.
pub open spec fn chart_of(k: DeviceKey, s: SessionModel) -> ChartView {
    ChartView { device_id: device_id_text(k), session_id: s.session_id, points: s.points }
}

/// The session ids of the charts `charts`.
pub open spec fn chart_ids(charts: Seq<CurrentChart>) -> Set<Seq<char>> {
    Set::new(|id: Seq<char>| exists|j: int| 0 <= j < charts.len() && (#[trigger] charts[j])@.session_id == id)
}

impl RecorderModel {
    /// Devices are listed once each, exactly the devices with a session;
    /// no chart holds more than [`MAX_CHART_POINTS`] points; every session's
    /// id is one the recorder handed out; the local tick counter stays below
    /// [`LOCAL_TICKS_PER_POINT`].
    pub open spec fn wf(self) -> bool {
        &&& forall|i: int, j: int|
            0 <= i < j < self.devices.len() ==> self.devices[i] != self.devices[j]
        &&& forall|i: int| 0 <= i < self.devices.len() ==> self.sessions.dom().contains(#[trigger] self.devices[i])
        &&& forall|k: DeviceKey| #[trigger] self.sessions.dom().contains(k) ==> self.devices.contains(k)
        &&& forall|k: DeviceKey| #[trigger] self.sessions.dom().contains(k) ==> self.sessions[k].points.len() <= MAX_CHART_POINTS
        &&& forall|k: DeviceKey| #[trigger] self.sessions.dom().contains(k) ==> self.issued.contains(self.sessions[k].session_id)
        &&& self.local_tick_count < LOCAL_TICKS_PER_POINT
    }

    /// Every session id handed out so far was made with a counter value
    /// below the current one. A new recorder starts so, and every operation
    /// keeps it until the counter reaches `u64::MAX`.
    pub open spec fn ids_fresh(self) -> bool {
        forall|id: Seq<char>| #[trigger] self.issued.contains(id) ==> id_made_between(id, 0, self.session_counter as int)
    }

    /// The recorder with a session for `k`: unchanged when `k` has one, else
    /// with the new session `s` listed last and the counter advanced.
    pub open spec fn with_session(self, k: DeviceKey, s: SessionModel) -> RecorderModel {
        if self.sessions.dom().contains(k) {
            self
        } else {
            RecorderModel {
                session_counter: wrapping_inc(self.session_counter),
                devices: self.devices.push(k),
                sessions: self.sessions.insert(k, s),
                issued: self.issued.insert(s.session_id),
                ..self
            }
        }
    }

    /// The recorder with `t` as the last sensor time of `k`'s session.
    pub open spec fn with_last_sensor_update(self, k: DeviceKey, t: i64) -> RecorderModel {
        RecorderModel {
            sessions: self.sessions.insert(k, SessionModel { last_sensor_update: Some(t), ..self.sessions[k] }),
            ..self
        }
    }

    /// The recorder with `p` appended to the ring of `k`'s session.
    pub open spec fn with_point(self, k: DeviceKey, p: ChartPoint) -> RecorderModel {
        RecorderModel {
            sessions: self.sessions.insert(k, SessionModel { points: ring_push(self.sessions[k].points, p), ..self.sessions[k] }),
            ..self
        }
    }

    /// The recorder after `k`'s session was replaced by the new session `s`:
    /// the counter advances, and clearing the local chart restarts its ticks.
    pub open spec fn after_clear(self, k: DeviceKey, s: SessionModel) -> RecorderModel {
        RecorderModel {
            local_tick_count: if k is Local { 0 } else { self.local_tick_count },
            session_counter: wrapping_inc(self.session_counter),
            devices: if self.sessions.dom().contains(k) { self.devices } else { self.devices.push(k) },
            sessions: self.sessions.insert(k, s),
            issued: self.issued.insert(s.session_id),
            ..self
        }
    }

    /// The recorder with `id` recorded as the history row of `k`'s session,
    /// when `k` has one.
    pub open spec fn after_mark_saved(self, k: DeviceKey, id: i64) -> RecorderModel {
        if self.sessions.dom().contains(k) {
            RecorderModel {
                sessions: self.sessions.insert(k, SessionModel { saved_history_id: Some(id), ..self.sessions[k] }),
                ..self
            }
        } else {
            self
        }
    }

    /// Whether `k`'s session was saved as the history row `id`.
    pub open spec fn saved_as(self, k: DeviceKey, id: i64) -> bool {
        self.sessions[k].saved_history_id == Some(id)
    }

    /// The devices, in order, whose sessions were saved as the row `id`.
    pub open spec fn devices_saved_as(self, id: i64) -> Seq<DeviceKey> {
        self.devices.filter(|k: DeviceKey| self.saved_as(k, id))
    }

    /// Whether `k`'s chart holds enough points to be saved on close.
    pub open spec fn has_enough_points(self, k: DeviceKey) -> bool {
        self.sessions[k].points.len() >= AUTO_SAVE_MIN_POINTS
    }

    /// The devices to save when the window closes or the app exits: none
    /// when the chart or saving on close is off, else, in order, those whose
    /// charts hold at least [`AUTO_SAVE_MIN_POINTS`] points.
    pub open spec fn close_save_set(self) -> Seq<DeviceKey> {
        if !self.chart_enabled || !self.auto_save {
            Seq::empty()
        } else {
            self.devices.filter(|k: DeviceKey| self.has_enough_points(k))
        }
    }

    /// The recorder `post` and the charts `charts` are what clearing every
    /// chart leaves: the same devices, each with a new, empty session (the
    /// `i`-th opened with the counter advanced by `i`), the local tick count
    /// restarted when this Mac has a chart, the new charts in the order the
    /// sessions were opened, and their ids added to those handed out. When
    /// the ids were fresh and the counter does not wrap, the ids stay fresh
    /// and no new id was handed out before.
    pub open spec fn all_cleared(self, post: RecorderModel, charts: Seq<CurrentChart>) -> bool {
        &&& post.devices == self.devices
        &&& post.sessions.dom() == self.sessions.dom()
        &&& post.chart_enabled == self.chart_enabled
        &&& post.auto_save == self.auto_save
        &&& post.next_sequence == self.next_sequence
        &&& post.local_tick_count == (if self.sessions.dom().contains(DeviceKey::Local) { 0 } else { self.local_tick_count })
        &&& post.session_counter == wrapping_add_n(self.session_counter, self.devices.len())
        &&& forall|i: int| 0 <= i < self.devices.len() ==> is_new_session(
            #[trigger] post.sessions[self.devices[i]],
            wrapping_add_n(self.session_counter, i as nat),
        )
        &&& charts.len() == self.devices.len()
        &&& forall|i: int| 0 <= i < charts.len() ==> (#[trigger] charts[i])@ == chart_of(
            self.devices[i],
            post.sessions[self.devices[i]],
        )
        &&& post.issued == self.issued.union(chart_ids(charts))
        &&& self.ids_fresh() && self.session_counter + self.devices.len() <= u64::MAX ==> {
            &&& post.ids_fresh()
            &&& forall|k: DeviceKey| #[trigger] post.sessions.dom().contains(k) ==> !self.issued.contains(post.sessions[k].session_id)
        }
    }

    /// The recorder `post` and the charts `charts` are what detaching the
    /// sessions saved as row `id` leaves: each such session moves to a new id
    /// and forgets the row, keeping its points; every other session stays;
    /// the charts of the detached sessions come in the order the sessions
    /// were opened, and their ids are added to those handed out. When the
    /// ids were fresh and the counter does not wrap, the ids stay fresh and
    /// no new id was handed out before.
    pub open spec fn rebased(self, post: RecorderModel, id: i64, charts: Seq<CurrentChart>) -> bool {
        &&& post.devices == self.devices
        &&& post.sessions.dom() == self.sessions.dom()
        &&& post.chart_enabled == self.chart_enabled
        &&& post.auto_save == self.auto_save
        &&& post.next_sequence == self.next_sequence
        &&& post.local_tick_count == self.local_tick_count
        &&& post.session_counter == wrapping_add_n(self.session_counter, self.devices_saved_as(id).len())
        &&& forall|k: DeviceKey| #[trigger] self.sessions.dom().contains(k) ==> if self.saved_as(k, id) {
            is_rebase_of(post.sessions[k], self.sessions[k])
        } else {
            post.sessions[k] == self.sessions[k]
        }
        &&& charts.len() == self.devices_saved_as(id).len()
        &&& forall|j: int| 0 <= j < charts.len() ==> (#[trigger] charts[j])@ == chart_of(
            self.devices_saved_as(id)[j],
            post.sessions[self.devices_saved_as(id)[j]],
        )
        &&& post.issued == self.issued.union(chart_ids(charts))
        &&& self.ids_fresh() && self.session_counter + self.devices.len() <= u64::MAX ==> {
            &&& post.ids_fresh()
            &&& forall|k: DeviceKey| #[trigger] self.sessions.dom().contains(k) && self.saved_as(k, id)
                ==> !self.issued.contains(post.sessions[k].session_id)
        }
    }

    /// The recorder with the switch for the live chart set to `enabled`.
    pub open spec fn with_chart_enabled(self, enabled: bool) -> RecorderModel {
        RecorderModel { chart_enabled: enabled, ..self }
    }

    /// The recorder with the switch for saving on close set to `enabled`.
    pub open spec fn with_auto_save(self, enabled: bool) -> RecorderModel {
        RecorderModel { auto_save: enabled, ..self }
    }

    /// The session of `k`, or an empty one when `k` has none yet.
    pub open spec fn prior_session(self, k: DeviceKey) -> SessionModel {
        if self.sessions.dom().contains(k) {
            self.sessions[k]
        } else {
            SessionModel { session_id: Seq::empty(), points: Seq::empty(), last_sensor_update: None, saved_history_id: None }
        }
    }

    /// Whether a sample of `k` with sensor time `last_update` is dropped:
    /// the chart is off, a local tick that is not the third, or a remote
    /// sample that repeats the previous sensor time.
    pub open spec fn drops_sample(self, k: DeviceKey, last_update: i64) -> bool {
        ||| !self.chart_enabled
        ||| (k is Local && saturating_inc(self.local_tick_count) < LOCAL_TICKS_PER_POINT)
        ||| (k is Remote && self.sessions.dom().contains(k) && self.sessions[k].last_sensor_update == Some(last_update))
    }

    /// The recorder after a dropped sample of `k`.
    pub open spec fn after_dropped_sample(self, k: DeviceKey) -> RecorderModel {
        if self.chart_enabled && k is Local {
            RecorderModel { local_tick_count: saturating_inc(self.local_tick_count), ..self }
        } else {
            self
        }
    }

    /// The recorder after the sample `data` of `k` became the point `p` of
    /// the session with id `id`.
    pub open spec fn after_accepted_sample(
        self,
        k: DeviceKey,
        data: NormalizedResource,
        p: ChartPoint,
        id: Seq<char>,
    ) -> RecorderModel {
        let prior = self.prior_session(k);
        let session = SessionModel {
            session_id: id,
            points: ring_push(prior.points, p),
            last_sensor_update: if k is Remote { Some(data.last_update) } else { prior.last_sensor_update },
            saved_history_id: prior.saved_history_id,
        };
        RecorderModel {
            next_sequence: wrapping_inc(self.next_sequence),
            local_tick_count: if k is Local { 0 } else { self.local_tick_count },
            session_counter: if self.sessions.dom().contains(k) { self.session_counter } else { wrapping_inc(self.session_counter) },
            devices: if self.sessions.dom().contains(k) { self.devices } else { self.devices.push(k) },
            sessions: self.sessions.insert(k, session),
            issued: if self.sessions.dom().contains(k) { self.issued } else { self.issued.insert(id) },
            ..self
        }
    }

    /// What recording the sample `data` of `k` does, when the wall clock
    /// reads `clock_nanos` nanoseconds since the Unix epoch: `post` is the
    /// recorder after it and `ret` the event it hands out. A taken point is
    /// stamped with that clock reading in whole milliseconds.
    pub open spec fn record_step(
        self,
        post: RecorderModel,
        k: DeviceKey,
        data: NormalizedResource,
        ret: Option<ChartPointEvent>,
        clock_nanos: nat,
    ) -> bool {
        if self.drops_sample(k, data.last_update) {
            ret is None && post == self.after_dropped_sample(k)
        } else {
            &&& ret is Some
            &&& ret.unwrap().device_id@ == device_id_text(k)
            &&& ret.unwrap().point.sequence == wrapping_inc(self.next_sequence)
            &&& ret.unwrap().point.data == data
            &&& ret.unwrap().point.captured_at >= 0
            &&& ret.unwrap().point.captured_at == millis_of_nanos(clock_nanos)
            &&& if self.sessions.dom().contains(k) {
                ret.unwrap().session_id@ == self.sessions[k].session_id
            } else {
                is_session_id_for(ret.unwrap().session_id@, self.session_counter)
            }
            &&& post == self.after_accepted_sample(k, data, ret.unwrap().point, ret.unwrap().session_id@)
        }
    }
}

/// A session id made with a counter value at or above the current one was
/// not handed out before by a recorder whose ids are fresh.
pub proof fn lemma_new_id_not_issued(m: RecorderModel, id: Seq<char>, hi: int)
    requires
        m.ids_fresh(),
        id_made_between(id, m.session_counter as int, hi),
    ensures
        !m.issued.contains(id),
{
    if m.issued.contains(id) {
        let (n1, c1) = choose|n: nat, c: nat| 0 <= c < m.session_counter && id == #[trigger] session_id_text(n, c);
        let (n2, c2) = choose|n: nat, c: nat| m.session_counter <= c < hi && id == #[trigger] session_id_text(n, c);
        lemma_session_id_counter_injective(n1, c1, n2, c2);
    }
}

/// An id made with a counter value is made within a wider range.
pub proof fn lemma_id_made_widen(id: Seq<char>, lo: int, hi: int, lo2: int, hi2: int)
    requires
        id_made_between(id, lo, hi),
        lo2 <= lo,
        hi <= hi2,
    ensures
        id_made_between(id, lo2, hi2),
{
    let (n, c) = choose|n: nat, c: nat| lo <= c < hi && id == #[trigger] session_id_text(n, c);
    assert(lo2 <= c < hi2 && id == session_id_text(n, c));
}

/// An id made with the counter value `c` is made within `c..c + 1`.
pub proof fn lemma_id_made_at(id: Seq<char>, c: u64)
    requires
        is_session_id_for(id, c),
    ensures
        id_made_between(id, c as int, c + 1),
{
    let n = choose|n: nat| id == #[trigger] session_id_text(n, c as nat);
    assert(c <= c < c + 1 && id == session_id_text(n, c as nat));
}

/// Handing out one id made with the current counter value, and advancing
/// the counter, keeps the ids fresh; the new id was not handed out before.
pub proof fn lemma_fresh_after_issue(pre: RecorderModel, post: RecorderModel, id: Seq<char>)
    requires
        pre.ids_fresh(),
        pre.session_counter < u64::MAX,
        is_session_id_for(id, pre.session_counter),
        post.session_counter == pre.session_counter + 1,
        post.issued == pre.issued.insert(id),
    ensures
        post.ids_fresh(),
        !pre.issued.contains(id),
{
    lemma_id_made_at(id, pre.session_counter);
    lemma_new_id_not_issued(pre, id, pre.session_counter + 1);
    assert forall|x: Seq<char>| #[trigger] post.issued.contains(x) implies id_made_between(x, 0, post.session_counter as int) by {
        if x == id {
            lemma_id_made_widen(x, pre.session_counter as int, pre.session_counter + 1, 0, post.session_counter as int);
        } else {
            lemma_id_made_widen(x, 0, pre.session_counter as int, 0, post.session_counter as int);
        }
    }
}

/// One device's live chart.
struct ChartSession {
    session_id: String,
    points: std::collections::VecDeque<ChartPoint>,
    last_sensor_update: Option<i64>,
    saved_history_id: Option<i64>,
}

impl View for ChartSession {
    type V = SessionModel;

    closed spec fn view(&self) -> SessionModel {
        SessionModel {
            session_id: self.session_id@,
            points: self.points@,
            last_sensor_update: self.last_sensor_update,
            saved_history_id: self.saved_history_id,
        }
    }
}

impl ChartSession {
    /// The chart this session shows for `typ`.
    fn current(&self, typ: &DeviceType) -> (r: CurrentChart)
        ensures
            r@ == chart_of(typ@, self@),
    {
        let mut points: Vec<ChartPoint> = Vec::new();
        let n = self.points.len();
        for j in 0..n
            invariant
                n == self.points@.len(),
                points@ == self.points@.subrange(0, j as int),
        {
            let p = self.points[j].duplicate();
            points.push(p);
            assert(points@ =~= self.points@.subrange(0, j + 1));
        }
        assert(points@ =~= self.points@);
        CurrentChart { device_id: String::from_str(typ.device_id()), session_id: self.session_id.clone(), points }
    }
}

/// A device and its session.
struct SessionEntry {
    device: DeviceType,
    session: ChartSession,
}

spec fn entry_keys(e: Seq<SessionEntry>) -> Seq<DeviceKey> {
    Seq::new(e.len(), |i: int| e[i].device@)
}

spec fn entry_has(e: Seq<SessionEntry>, k: DeviceKey) -> bool {
    exists|i: int| 0 <= i < e.len() && #[trigger] e[i].device@ == k
}

spec fn entry_map(e: Seq<SessionEntry>) -> Map<DeviceKey, SessionModel> {
    Map::new(
        |k: DeviceKey| entry_has(e, k),
        |k: DeviceKey| e[choose|i: int| 0 <= i < e.len() && #[trigger] e[i].device@ == k].session@,
    )
}

/// An entry's chart is within bounds and its id was handed out.
spec fn entry_ok(x: SessionEntry, issued: Set<Seq<char>>) -> bool {
    x.session.points@.len() <= MAX_CHART_POINTS && issued.contains(x.session.session_id@)
}

spec fn entries_ok(e: Seq<SessionEntry>, issued: Set<Seq<char>>) -> bool {
    forall|i: int| 0 <= i < e.len() ==> entry_ok(#[trigger] e[i], issued)
}

spec fn keys_distinct(e: Seq<SessionEntry>) -> bool {
    forall|i: int, j: int| 0 <= i < e.len() && 0 <= j < e.len() && i != j ==> #[trigger] e[i].device@ != #[trigger] e[j].device@
}

proof fn lemma_entry_map_at(e: Seq<SessionEntry>, i: int)
    requires
        keys_distinct(e),
        0 <= i < e.len(),
    ensures
        entry_map(e).dom().contains(e[i].device@),
        entry_map(e)[e[i].device@] == e[i].session@,
{
    let k = e[i].device@;
    assert(entry_has(e, k));
    let j = choose|j: int| 0 <= j < e.len() && #[trigger] e[j].device@ == k;
    assert(j == i);
}

proof fn lemma_entry_push(e: Seq<SessionEntry>, x: SessionEntry)
    requires
        keys_distinct(e),
        !entry_has(e, x.device@),
    ensures
        keys_distinct(e.push(x)),
        entry_map(e.push(x)) == entry_map(e).insert(x.device@, x.session@),
        entry_keys(e.push(x)) == entry_keys(e).push(x.device@),
        forall|s: Set<Seq<char>>| entries_ok(e, s) && entry_ok(x, s) ==> #[trigger] entries_ok(e.push(x), s),
{
    let f = e.push(x);
    assert forall|s: Set<Seq<char>>| entries_ok(e, s) && entry_ok(x, s) implies #[trigger] entries_ok(f, s) by {
        assert forall|j: int| 0 <= j < f.len() implies entry_ok(#[trigger] f[j], s) by {
            if j < e.len() {
                assert(f[j] == e[j]);
            }
        }
    }
    assert forall|i: int, j: int| 0 <= i < f.len() && 0 <= j < f.len() && i != j implies #[trigger] f[i].device@
        != #[trigger] f[j].device@ by {
        if i < e.len() && j < e.len() {
            assert(f[i] == e[i] && f[j] == e[j]);
        } else if i < e.len() {
            assert(f[i] == e[i]);
        } else {
            assert(f[j] == e[j]);
        }
    }
    let m = entry_map(e).insert(x.device@, x.session@);
    assert forall|k: DeviceKey| #[trigger] entry_map(f).dom().contains(k) <==> m.dom().contains(k) by {
        if entry_has(f, k) {
            let i = choose|i: int| 0 <= i < f.len() && #[trigger] f[i].device@ == k;
            if i < e.len() {
                assert(f[i] == e[i]);
                assert(entry_has(e, k));
            }
        }
        if entry_has(e, k) {
            let i = choose|i: int| 0 <= i < e.len() && #[trigger] e[i].device@ == k;
            assert(f[i] == e[i]);
            assert(entry_has(f, k));
        }
        if k == x.device@ {
            assert(f[e.len() as int] == x);
            assert(entry_has(f, k));
        }
    }
    assert forall|k: DeviceKey| #[trigger] entry_map(f).dom().contains(k) implies entry_map(f)[k] == m[k] by {
        let i = choose|i: int| 0 <= i < f.len() && #[trigger] f[i].device@ == k;
        lemma_entry_map_at(f, i);
        if i < e.len() {
            assert(f[i] == e[i]);
            lemma_entry_map_at(e, i);
        } else {
            assert(f[i] == x);
        }
    }
    assert(entry_map(f) =~= m);
    assert(entry_keys(f) =~= entry_keys(e).push(x.device@));
}

proof fn lemma_entry_update(e: Seq<SessionEntry>, i: int, x: SessionEntry)
    requires
        keys_distinct(e),
        0 <= i < e.len(),
        x.device@ == e[i].device@,
    ensures
        keys_distinct(e.update(i, x)),
        entry_map(e.update(i, x)) == entry_map(e).insert(x.device@, x.session@),
        entry_keys(e.update(i, x)) == entry_keys(e),
        forall|s: Set<Seq<char>>| entries_ok(e, s) && entry_ok(x, s) ==> #[trigger] entries_ok(e.update(i, x), s),
{
    let f = e.update(i, x);
    assert forall|s: Set<Seq<char>>| entries_ok(e, s) && entry_ok(x, s) implies #[trigger] entries_ok(f, s) by {
        assert forall|j: int| 0 <= j < f.len() implies entry_ok(#[trigger] f[j], s) by {
            if j != i {
                assert(f[j] == e[j]);
            }
        }
    }
    assert forall|a: int, b: int| 0 <= a < f.len() && 0 <= b < f.len() && a != b implies #[trigger] f[a].device@
        != #[trigger] f[b].device@ by {
        assert(f[a].device@ == e[a].device@);
        assert(f[b].device@ == e[b].device@);
    }
    let m = entry_map(e).insert(x.device@, x.session@);
    lemma_entry_map_at(e, i);
    assert forall|k: DeviceKey| #[trigger] entry_map(f).dom().contains(k) <==> m.dom().contains(k) by {
        if entry_has(f, k) {
            let j = choose|j: int| 0 <= j < f.len() && #[trigger] f[j].device@ == k;
            assert(e[j].device@ == k);
        }
        if entry_has(e, k) {
            let j = choose|j: int| 0 <= j < e.len() && #[trigger] e[j].device@ == k;
            assert(f[j].device@ == k);
        }
    }
    assert forall|k: DeviceKey| #[trigger] entry_map(f).dom().contains(k) implies entry_map(f)[k] == m[k] by {
        let j = choose|j: int| 0 <= j < f.len() && #[trigger] f[j].device@ == k;
        lemma_entry_map_at(f, j);
        if j != i {
            assert(f[j] == e[j]);
            lemma_entry_map_at(e, j);
        }
    }
    assert(entry_map(f) =~= m);
    assert(entry_keys(f) =~= entry_keys(e));
}

/// The live chart sessions of all devices, and the switches that govern
/// them.
pub struct HistoryRecorder {
    chart_enabled: bool,
    auto_save: bool,
    next_sequence: u64,
    local_tick_count: u8,
    session_counter: u64,
    sessions: Vec<SessionEntry>,
    issued: Ghost<Set<Seq<char>>>,
    clock: WallClock,
}

impl View for HistoryRecorder {
    type V = RecorderModel;

    closed spec fn view(&self) -> RecorderModel {
        RecorderModel {
            chart_enabled: self.chart_enabled,
            auto_save: self.auto_save,
            next_sequence: self.next_sequence,
            local_tick_count: self.local_tick_count,
            session_counter: self.session_counter,
            devices: entry_keys(self.sessions@),
            sessions: entry_map(self.sessions@),
            issued: self.issued@,
        }
    }
}

impl HistoryRecorder {
    /// The wall-clock readings the recorder has taken, oldest first, in
    /// nanoseconds since the Unix epoch.
    pub closed spec fn clock_reads(&self) -> Seq<nat> {
        self.clock.reads()
    }

    /// The recorder's internal consistency; every operation keeps it.
    pub closed spec fn inv(&self) -> bool {
        &&& keys_distinct(self.sessions@)
        &&& entries_ok(self.sessions@, self.issued@)
        &&& self.local_tick_count < LOCAL_TICKS_PER_POINT
    }

    /// A consistent recorder has a well-formed model.
    pub proof fn lemma_inv_wf(&self)
        requires
            self.inv(),
        ensures
            self@.wf(),
    {
        let e = self.sessions@;
        let m = self@;
        assert forall|i: int| 0 <= i < m.devices.len() implies m.sessions.dom().contains(#[trigger] m.devices[i]) by {
            lemma_entry_map_at(e, i);
        }
        assert forall|k: DeviceKey| #[trigger] m.sessions.dom().contains(k) implies m.devices.contains(k)
            && m.sessions[k].points.len() <= MAX_CHART_POINTS && m.issued.contains(m.sessions[k].session_id) by {
            let i = choose|i: int| 0 <= i < e.len() && #[trigger] e[i].device@ == k;
            lemma_entry_map_at(e, i);
            assert(entry_ok(e[i], m.issued));
            assert(m.devices[i] == k);
        }
    }

    /// A recorder with no sessions, which has handed out no session id yet.
    /// Session ids count from 1 within this recorder, so they are unique
    /// among the ids of one recorder; a host keeps a single recorder.
    pub fn new(chart_enabled: bool, auto_save: bool) -> (r: HistoryRecorder)
        ensures
            r.inv(),
            r@ == HistoryRecorder::new_model(chart_enabled, auto_save),
            r@.ids_fresh(),
            r.clock_reads().len() == 0,
    {
        let r = HistoryRecorder {
            chart_enabled,
            auto_save,
            next_sequence: 0,
            local_tick_count: 0,
            session_counter: 1,
            sessions: Vec::new(),
            issued: Ghost(Set::empty()),
            clock: WallClock::new(),
        };
        assert(r@.sessions =~= Map::empty());
        assert(r@.devices =~= Seq::empty());
        r
    }

    /// What a new recorder holds: the two switches, both counters at their
    /// start, no device and no session, and no session id handed out.
    pub open spec fn new_model(chart_enabled: bool, auto_save: bool) -> RecorderModel {
        RecorderModel {
            chart_enabled,
            auto_save,
            next_sequence: 0,
            local_tick_count: 0,
            session_counter: 1,
            devices: Seq::empty(),
            sessions: Map::empty(),
            issued: Set::empty(),
        }
    }

    /// A recorder with no sessions, set up from the stored preferences: the
    /// chart is on and saving on close is off where none is stored.
    pub fn from_preferences(chart_enabled: Option<bool>, auto_save: Option<bool>) -> (r: HistoryRecorder)
        ensures
            r.inv(),
            r@ == HistoryRecorder::new_model(
                match chart_enabled {
                    Some(v) => v,
                    None => DEFAULT_CHART_ENABLED,
                },
                match auto_save {
                    Some(v) => v,
                    None => DEFAULT_AUTO_SAVE,
                },
            ),
            r@.ids_fresh(),
    {
        let chart = match chart_enabled {
            Some(v) => v,
            None => DEFAULT_CHART_ENABLED,
        };
        let save = match auto_save {
            Some(v) => v,
            None => DEFAULT_AUTO_SAVE,
        };
        HistoryRecorder::new(chart, save)
    }

    /// Turns sampling into the live chart on or off; sessions are kept.
    pub fn set_chart_enabled(&mut self, enabled: bool)
        requires
            old(self).inv(),
        ensures
            final(self).inv(),
            final(self)@ == old(self)@.with_chart_enabled(enabled),
    {
        self.chart_enabled = enabled;
    }

    /// Turns saving on close on or off.
    pub fn set_auto_save(&mut self, enabled: bool)
        requires
            old(self).inv(),
        ensures
            final(self).inv(),
            final(self)@ == old(self)@.with_auto_save(enabled),
    {
        self.auto_save = enabled;
    }

    /// The next session id, which joins those handed out; the counter
    /// advances.
    fn next_session_id(&mut self) -> (id: String)
        requires
            old(self).inv(),
        ensures
            final(self).clock_reads() == old(self).clock_reads(),
            final(self).inv(),
            is_session_id_for(id@, old(self).session_counter),
            final(self).issued@ == old(self).issued@.insert(id@),
            final(self).session_counter == wrapping_inc(old(self).session_counter),
            final(self).sessions == old(self).sessions,
            final(self).chart_enabled == old(self).chart_enabled,
            final(self).auto_save == old(self).auto_save,
            final(self).next_sequence == old(self).next_sequence,
            final(self).local_tick_count == old(self).local_tick_count,
    {
        let id = new_session_id(now_unix_nanos(), self.session_counter);
        self.session_counter = self.session_counter.wrapping_add(1);
        proof {
            let e = self.sessions@;
            let before = self.issued@;
            self.issued = Ghost(before.insert(id@));
            assert forall|i: int| 0 <= i < e.len() implies entry_ok(#[trigger] e[i], self.issued@) by {
                assert(entry_ok(e[i], before));
            }
        }
        id
    }

    /// A new, empty session with the next session id.
    fn new_session(&mut self) -> (s: ChartSession)
        requires
            old(self).inv(),
        ensures
            final(self).clock_reads() == old(self).clock_reads(),
            final(self).inv(),
            final(self).issued@ == old(self).issued@.insert(s@.session_id),
            is_new_session(s@, old(self).session_counter),
            final(self).session_counter == wrapping_inc(old(self).session_counter),
            final(self).sessions == old(self).sessions,
            final(self).chart_enabled == old(self).chart_enabled,
            final(self).auto_save == old(self).auto_save,
            final(self).next_sequence == old(self).next_sequence,
            final(self).local_tick_count == old(self).local_tick_count,
    {
        let id = self.next_session_id();
        let s = ChartSession {
            session_id: id,
            points: std::collections::VecDeque::with_capacity(MAX_CHART_POINTS),
            last_sensor_update: None,
            saved_history_id: None,
        };
        s
    }

    /// The position of `typ`'s session in the list.
    fn find(&self, typ: &DeviceType) -> (r: Option<usize>)
        requires
            self.inv(),
        ensures
            r matches Some(i) ==> i < self.sessions@.len() && self.sessions@[i as int].device@ == typ@,
            r is None ==> !entry_has(self.sessions@, typ@),
    {
        let n = self.sessions.len();
        for i in 0..n
            invariant
                n == self.sessions@.len(),
                forall|j: int| 0 <= j < i ==> #[trigger] self.sessions@[j].device@ != typ@,
        {
            if self.sessions[i].device.same_device(typ) {
                return Some(i);
            }
        }
        None
    }

    /// The position of `typ`'s session, opening a new one when there is none.
    fn session_index(&mut self, typ: &DeviceType) -> (i: usize)
        requires
            old(self).inv(),
        ensures
            final(self).clock_reads() == old(self).clock_reads(),
            final(self).inv(),
            i < final(self).sessions@.len(),
            final(self).sessions@[i as int].device@ == typ@,
            final(self)@ == old(self)@.with_session(typ@, final(self)@.sessions[typ@]),
            !old(self)@.sessions.dom().contains(typ@) ==> is_new_session(final(self)@.sessions[typ@], old(self)@.session_counter),
    {
        proof {
            self.lemma_inv_wf();
        }
        match self.find(typ) {
            Some(i) => {
                proof {
                    lemma_entry_map_at(self.sessions@, i as int);
                }
                i
            },
            None => {
                let session = self.new_session();
                let entry = SessionEntry { device: typ.duplicate(), session };
                proof {
                    lemma_entry_push(self.sessions@, entry);
                }
                self.sessions.push(entry);
                let i = self.sessions.len() - 1;
                proof {
                    lemma_entry_map_at(self.sessions@, i as int);
                }
                assert(final(self)@ == old(self)@.with_session(typ@, self@.sessions[typ@]));
                i
            },
        }
    }
}

impl HistoryRecorder {
    /// The session of entry `i`, with its last sensor time set.
    fn set_last_sensor_update(&mut self, i: usize, last_update: i64)
        requires
            old(self).inv(),
            i < old(self).sessions@.len(),
        ensures
            final(self).clock_reads() == old(self).clock_reads(),
            final(self).inv(),
            final(self)@ == old(self)@.with_last_sensor_update(old(self).sessions@[i as int].device@, last_update),
            final(self).sessions@.len() == old(self).sessions@.len(),
            final(self).sessions@[i as int].device@ == old(self).sessions@[i as int].device@,
    {
        proof {
            lemma_entry_map_at(self.sessions@, i as int);
        }
        let ghost e0 = self.sessions@;
        let entry = &mut self.sessions[i];
        entry.session.last_sensor_update = Some(last_update);
        proof {
            lemma_entry_update(e0, i as int, self.sessions@[i as int]);
            assert(self.sessions@[i as int].session@ == SessionModel { last_sensor_update: Some(last_update), ..e0[i as int].session@ });
        }
    }

    /// Appends `p` to the chart of entry `i`, dropping the oldest point of a
    /// full chart.
    fn push_point(&mut self, i: usize, p: ChartPoint)
        requires
            old(self).inv(),
            i < old(self).sessions@.len(),
        ensures
            final(self).clock_reads() == old(self).clock_reads(),
            final(self).inv(),
            final(self)@ == old(self)@.with_point(old(self).sessions@[i as int].device@, p),
            final(self).sessions@.len() == old(self).sessions@.len(),
            final(self).sessions@[i as int].device@ == old(self).sessions@[i as int].device@,
            final(self).sessions@[i as int].session.session_id == old(self).sessions@[i as int].session.session_id,
    {
        proof {
            lemma_entry_map_at(self.sessions@, i as int);
        }
        let ghost e0 = self.sessions@;
        let entry = &mut self.sessions[i];
        if entry.session.points.len() == MAX_CHART_POINTS {
            entry.session.points.pop_front();
        }
        entry.session.points.push_back(p);
        proof {
            let s0 = e0[i as int].session@;
            assert(self.sessions@[i as int].session@ == SessionModel { points: ring_push(s0.points, p), ..s0 });
            lemma_entry_update(e0, i as int, self.sessions@[i as int]);
        }
    }

    /// Takes one sample of a device into its live chart.
    ///
    /// Nothing is taken while the chart is off. Of local samples only every
    /// third becomes a point; a remote sample whose sensor time repeats the
    /// previous one is dropped. A taken sample becomes the newest point of
    /// the device's session (opened when the device has none), with the next
    /// sequence number and the current time; a full chart drops its oldest
    /// point. The returned event carries that point. A taken point is
    /// stamped with one fresh reading of the wall clock, in Unix
    /// milliseconds; a dropped sample reads no clock.
    pub fn record(&mut self, typ: DeviceType, data: NormalizedResource) -> (ret: Option<ChartPointEvent>)
        requires
            old(self).inv(),
        ensures
            final(self).inv(),
            old(self)@.record_step(final(self)@, typ@, data, ret, final(self).clock_reads().last()),
            ret is Some ==> final(self).clock_reads().len() == old(self).clock_reads().len() + 1
                && final(self).clock_reads().drop_last() == old(self).clock_reads(),
            ret is None ==> final(self).clock_reads() == old(self).clock_reads(),
            old(self)@.ids_fresh() && old(self)@.session_counter < u64::MAX ==> final(self)@.ids_fresh(),
    {
        proof {
            self.lemma_inv_wf();
        }
        let ghost pre = self@;
        let ghost k = typ@;
        if !self.chart_enabled {
            return None;
        }
        let i = match &typ {
            DeviceType::Local => {
                self.local_tick_count = self.local_tick_count.saturating_add(1);
                if self.local_tick_count < LOCAL_TICKS_PER_POINT {
                    return None;
                }
                self.local_tick_count = 0;
                let i = self.session_index(&typ);
                proof {
                    let m = self@;
                    if pre.sessions.dom().contains(k) {
                        assert(m.sessions[k] == pre.sessions[k]);
                    }
                    assert(m.sessions =~= pre.sessions.insert(k, m.sessions[k]));
                }
                i
            },
            DeviceType::Remote(_) => {
                let i = self.session_index(&typ);
                proof {
                    lemma_entry_map_at(self.sessions@, i as int);
                }
                let repeated = match self.sessions[i].session.last_sensor_update {
                    Some(t) => t == data.last_update,
                    None => false,
                };
                if repeated {
                    assert(pre.sessions.dom().contains(k));
                    return None;
                }
                let ghost m1 = self@;
                proof {
                    if pre.sessions.dom().contains(k) {
                        assert(m1.sessions[k] == pre.sessions[k]);
                    }
                    assert(m1.sessions =~= pre.sessions.insert(k, m1.sessions[k]));
                }
                self.set_last_sensor_update(i, data.last_update);
                proof {
                    assert(self@.sessions =~= pre.sessions.insert(k, self@.sessions[k]));
                }
                i
            },
        };
        let ghost mid = self@;
        proof {
            lemma_entry_map_at(self.sessions@, i as int);
        }
        self.next_sequence = self.next_sequence.wrapping_add(1);
        let captured_at = self.clock.now_millis();
        let point = ChartPoint { sequence: self.next_sequence, captured_at, data };
        let event_point = point.duplicate();
        self.push_point(i, point);
        proof {
            lemma_entry_map_at(self.sessions@, i as int);
        }
        let event = ChartPointEvent {
            device_id: String::from_str(typ.device_id()),
            session_id: self.sessions[i].session.session_id.clone(),
            point: event_point,
        };
        proof {
            let post = self@;
            let prior = pre.prior_session(k);
            let ms = mid.sessions[k];
            assert(mid.sessions == pre.sessions.insert(k, ms));
            assert(ms.points == prior.points);
            assert(ms.saved_history_id == prior.saved_history_id);
            assert(ms.last_sensor_update == if k is Remote { Some(data.last_update) } else { prior.last_sensor_update });
            assert(post.sessions[k].session_id == event.session_id@);
            assert(post.sessions == mid.sessions.insert(k, SessionModel { points: ring_push(ms.points, event.point), ..ms }));
            assert(post.sessions =~= pre.after_accepted_sample(k, data, event.point, event.session_id@).sessions);
            assert(post == pre.after_accepted_sample(k, data, event.point, event.session_id@));
            if pre.ids_fresh() && pre.session_counter < u64::MAX && !pre.sessions.dom().contains(k) {
                lemma_fresh_after_issue(pre, post, event.session_id@);
            }
        }
        Some(event)
    }
}

proof fn lemma_chart_ids_push(charts: Seq<CurrentChart>, c: CurrentChart)
    ensures
        chart_ids(charts.push(c)) == chart_ids(charts).insert(c@.session_id),
{
    let f = charts.push(c);
    assert forall|id: Seq<char>| #[trigger] chart_ids(f).contains(id) <==> chart_ids(charts).insert(c@.session_id).contains(id) by {
        if chart_ids(f).contains(id) {
            let j = choose|j: int| 0 <= j < f.len() && (#[trigger] f[j])@.session_id == id;
            if j < charts.len() {
                assert(f[j] == charts[j]);
            }
        }
        if chart_ids(charts).contains(id) {
            let j = choose|j: int| 0 <= j < charts.len() && (#[trigger] charts[j])@.session_id == id;
            assert(f[j] == charts[j]);
        }
        if id == c@.session_id {
            assert(f[charts.len() as int] == c);
        }
    }
    assert(chart_ids(f) =~= chart_ids(charts).insert(c@.session_id));
}

proof fn lemma_wrapping_add_n_step(x: u64, n: nat)
    ensures
        wrapping_add_n(x, n + 1) == wrapping_inc(wrapping_add_n(x, n)),
        wrapping_add_n(x, 0) == x,
{
    let m = 0x1_0000_0000_0000_0000int;
    vstd::arithmetic::div_mod::lemma_add_mod_noop(x as int + n, 1, m);
    vstd::arithmetic::div_mod::lemma_small_mod(x as nat, m as nat);
    vstd::arithmetic::div_mod::lemma_small_mod(1, m as nat);
    let r = (x as int + n) % m;
    vstd::arithmetic::div_mod::lemma_mod_bound(x as int + n, m);
    if r + 1 < m {
        vstd::arithmetic::div_mod::lemma_small_mod((r + 1) as nat, m as nat);
    } else {
        vstd::arithmetic::div_mod::lemma_mod_self_0(m);
    }
}

proof fn lemma_wrapping_add_n_small(x: u64, n: nat)
    requires
        x + n <= u64::MAX,
    ensures
        wrapping_add_n(x, n) == x + n,
{
    vstd::arithmetic::div_mod::lemma_small_mod((x + n) as nat, 0x1_0000_0000_0000_0000nat);
}

impl HistoryRecorder {
    /// The chart of a device, opening a session for it when it has none.
    pub fn current_chart(&mut self, typ: &DeviceType) -> (r: CurrentChart)
        requires
            old(self).inv(),
        ensures
            final(self).inv(),
            final(self)@ == old(self)@.with_session(typ@, final(self)@.sessions[typ@]),
            !old(self)@.sessions.dom().contains(typ@) ==> is_new_session(final(self)@.sessions[typ@], old(self)@.session_counter),
            r@ == chart_of(typ@, final(self)@.sessions[typ@]),
            old(self)@.ids_fresh() && old(self)@.session_counter < u64::MAX ==> final(self)@.ids_fresh(),
    {
        let ghost pre = self@;
        let i = self.session_index(typ);
        proof {
            lemma_entry_map_at(self.sessions@, i as int);
            let post = self@;
            if pre.ids_fresh() && pre.session_counter < u64::MAX && !pre.sessions.dom().contains(typ@) {
                lemma_fresh_after_issue(pre, post, post.sessions[typ@].session_id);
            }
        }
        self.sessions[i].session.current(typ)
    }

    /// Starts a new, empty session for a device, replacing its current one;
    /// every other device keeps its session. Clearing the local chart also
    /// restarts the count of local ticks. The new session's id differs from
    /// every id the recorder handed out before, as long as its counter has
    /// not reached `u64::MAX`.
    pub fn clear_current(&mut self, typ: &DeviceType) -> (r: CurrentChart)
        requires
            old(self).inv(),
        ensures
            final(self).inv(),
            final(self)@ == old(self)@.after_clear(typ@, final(self)@.sessions[typ@]),
            is_new_session(final(self)@.sessions[typ@], old(self)@.session_counter),
            r@ == chart_of(typ@, final(self)@.sessions[typ@]),
            old(self)@.ids_fresh() && old(self)@.session_counter < u64::MAX ==> {
                &&& final(self)@.ids_fresh()
                &&& !old(self)@.issued.contains(final(self)@.sessions[typ@].session_id)
            },
    {
        proof {
            self.lemma_inv_wf();
        }
        let ghost pre = self@;
        match typ {
            DeviceType::Local => {
                self.local_tick_count = 0;
            },
            DeviceType::Remote(_) => {},
        }
        let session = self.new_session();
        let current = session.current(typ);
        match self.find(typ) {
            Some(i) => {
                let ghost e0 = self.sessions@;
                let entry = &mut self.sessions[i];
                entry.session = session;
                proof {
                    lemma_entry_map_at(e0, i as int);
                    lemma_entry_update(e0, i as int, self.sessions@[i as int]);
                    lemma_entry_map_at(self.sessions@, i as int);
                }
            },
            None => {
                let entry = SessionEntry { device: typ.duplicate(), session };
                proof {
                    lemma_entry_push(self.sessions@, entry);
                }
                self.sessions.push(entry);
                proof {
                    lemma_entry_map_at(self.sessions@, self.sessions@.len() - 1);
                }
            },
        }
        proof {
            let post = self@;
            assert(post == pre.after_clear(typ@, post.sessions[typ@]));
            if pre.ids_fresh() && pre.session_counter < u64::MAX {
                lemma_fresh_after_issue(pre, post, post.sessions[typ@].session_id);
            }
        }
        current
    }

    /// Records that a device's session was saved as the history row `id`;
    /// a device without a session is left alone.
    pub fn mark_saved(&mut self, typ: &DeviceType, history_id: i64)
        requires
            old(self).inv(),
        ensures
            final(self).inv(),
            final(self)@ == old(self)@.after_mark_saved(typ@, history_id),
    {
        match self.find(typ) {
            Some(i) => {
                let ghost e0 = self.sessions@;
                proof {
                    lemma_entry_map_at(e0, i as int);
                }
                let entry = &mut self.sessions[i];
                entry.session.saved_history_id = Some(history_id);
                proof {
                    lemma_entry_update(e0, i as int, self.sessions@[i as int]);
                }
            },
            None => {},
        }
    }

    /// The history row a device's session was saved as, if any.
    pub fn saved_history_id(&self, typ: &DeviceType) -> (r: Option<i64>)
        requires
            self.inv(),
        ensures
            r == (if self@.sessions.dom().contains(typ@) { self@.sessions[typ@].saved_history_id } else { None }),
    {
        match self.find(typ) {
            Some(i) => {
                proof {
                    lemma_entry_map_at(self.sessions@, i as int);
                }
                self.sessions[i].session.saved_history_id
            },
            None => None,
        }
    }

    /// The devices to save when the window closes or the app exits.
    pub fn close_save_devices(&self) -> (r: Vec<DeviceType>)
        requires
            self.inv(),
        ensures
            r@.map_values(|d: DeviceType| d@) == self@.close_save_set(),
    {
        if !self.chart_enabled || !self.auto_save {
            let r: Vec<DeviceType> = Vec::new();
            assert(r@.map_values(|d: DeviceType| d@) =~= Seq::<DeviceKey>::empty());
            return r;
        }
        let ghost m = self@;
        let ghost pred = |k: DeviceKey| m.has_enough_points(k);
        let mut out: Vec<DeviceType> = Vec::new();
        let n = self.sessions.len();
        for i in 0..n
            invariant
                n == self.sessions@.len(),
                self.inv(),
                m == self@,
                pred == (|k: DeviceKey| m.has_enough_points(k)),
                out@.map_values(|d: DeviceType| d@) == m.devices.take(i as int).filter(pred),
        {
            proof {
                lemma_entry_map_at(self.sessions@, i as int);
                reveal_with_fuel(Seq::filter, 1);
                assert(m.devices.take(i + 1).drop_last() =~= m.devices.take(i as int));
            }
            if self.sessions[i].session.points.len() >= AUTO_SAVE_MIN_POINTS {
                out.push(self.sessions[i].device.duplicate());
            }
            assert(out@.map_values(|d: DeviceType| d@) =~= m.devices.take(i + 1).filter(pred));
        }
        assert(m.devices.take(n as int) =~= m.devices);
        out
    }
}

impl HistoryRecorder {
    /// Starts a new, empty session for every device that has one, in the
    /// order the sessions were opened, and returns the new charts in that
    /// order.
    pub fn clear_all(&mut self) -> (r: Vec<CurrentChart>)
        requires
            old(self).inv(),
        ensures
            final(self).inv(),
            old(self)@.all_cleared(final(self)@, r@),
    {
        proof {
            self.lemma_inv_wf();
            lemma_wrapping_add_n_step(self.session_counter, 0);
        }
        let ghost pre = self@;
        let ghost fresh_case = pre.ids_fresh() && pre.session_counter + pre.devices.len() <= u64::MAX;
        let n = self.sessions.len();
        let mut out: Vec<CurrentChart> = Vec::new();
        proof {
            assert(chart_ids(out@) =~= Set::<Seq<char>>::empty());
            assert(pre.issued.union(chart_ids(out@)) =~= pre.issued);
        }
        for i in 0..n
            invariant
                n == pre.devices.len(),
                self.inv(),
                self@.wf(),
                self@.issued == pre.issued.union(chart_ids(out@)),
                self@.devices == pre.devices,
                self@.sessions.dom() == pre.sessions.dom(),
                self@.chart_enabled == pre.chart_enabled,
                self@.auto_save == pre.auto_save,
                self@.next_sequence == pre.next_sequence,
                self@.session_counter == wrapping_add_n(pre.session_counter, i as nat),
                self@.local_tick_count == (if exists|j: int| 0 <= j < i && pre.devices[j] == DeviceKey::Local { 0 } else { pre.local_tick_count }),
                forall|j: int| 0 <= j < i ==> is_new_session(
                    #[trigger] self@.sessions[pre.devices[j]],
                    wrapping_add_n(pre.session_counter, j as nat),
                ),
                forall|j: int| i <= j < n ==> #[trigger] self@.sessions[pre.devices[j]] == pre.sessions[pre.devices[j]],
                out@.len() == i,
                forall|j: int| 0 <= j < i ==> (#[trigger] out@[j])@ == chart_of(pre.devices[j], self@.sessions[pre.devices[j]]),
                fresh_case == (pre.ids_fresh() && pre.session_counter + pre.devices.len() <= u64::MAX),
                fresh_case ==> forall|j: int| 0 <= j < i ==> id_made_between(
                    #[trigger] self@.sessions[pre.devices[j]].session_id,
                    pre.session_counter as int,
                    pre.session_counter as int + i,
                ),
                pre.wf(),
        {
            let ghost before = self@;
            proof {
                lemma_entry_map_at(self.sessions@, i as int);
                assert(self.sessions@[i as int].device@ == pre.devices[i as int]);
            }
            let typ = self.sessions[i].device.duplicate();
            let chart = self.clear_current(&typ);
            let ghost out0 = out@;
            out.push(chart);
            proof {
                self.lemma_inv_wf();
                let k = pre.devices[i as int];
                lemma_chart_ids_push(out0, chart);
                assert(self@.issued =~= pre.issued.union(chart_ids(out@)));
                lemma_wrapping_add_n_step(pre.session_counter, i as nat);
                assert(self@.devices =~= pre.devices);
                assert(self@.sessions.dom() =~= pre.sessions.dom());
                assert forall|j: int| 0 <= j < i + 1 implies is_new_session(
                    #[trigger] self@.sessions[pre.devices[j]],
                    wrapping_add_n(pre.session_counter, j as nat),
                ) by {
                    if j < i {
                        assert(pre.devices[j] != k);
                    }
                }
                assert forall|j: int| i + 1 <= j < n implies #[trigger] self@.sessions[pre.devices[j]] == pre.sessions[pre.devices[j]] by {
                    assert(pre.devices[j] != k);
                }
                assert forall|j: int| 0 <= j < i + 1 implies (#[trigger] out@[j])@ == chart_of(pre.devices[j], self@.sessions[pre.devices[j]]) by {
                    if j < i {
                        assert(pre.devices[j] != k);
                    }
                }
                if k == DeviceKey::Local {
                    assert(exists|j: int| 0 <= j < i + 1 && pre.devices[j] == DeviceKey::Local);
                } else {
                    if exists|j: int| 0 <= j < i + 1 && pre.devices[j] == DeviceKey::Local {
                        let j = choose|j: int| 0 <= j < i + 1 && pre.devices[j] == DeviceKey::Local;
                        assert(j < i);
                    }
                }
                if fresh_case {
                    lemma_wrapping_add_n_small(pre.session_counter, i as nat);
                    assert forall|j: int| 0 <= j < i + 1 implies id_made_between(
                        #[trigger] self@.sessions[pre.devices[j]].session_id,
                        pre.session_counter as int,
                        pre.session_counter as int + i + 1,
                    ) by {
                        if j < i {
                            assert(pre.devices[j] != k);
                            lemma_id_made_widen(self@.sessions[pre.devices[j]].session_id, pre.session_counter as int, pre.session_counter as int + i, pre.session_counter as int, pre.session_counter as int + i + 1);
                        } else {
                            lemma_id_made_at(self@.sessions[k].session_id, before.session_counter);
                            lemma_id_made_widen(self@.sessions[k].session_id, before.session_counter as int, before.session_counter as int + 1, pre.session_counter as int, pre.session_counter as int + i + 1);
                        }
                    }
                }
            }
        }
        proof {
            let post = self@;
            if exists|j: int| 0 <= j < n && pre.devices[j] == DeviceKey::Local {
                let j = choose|j: int| 0 <= j < n && pre.devices[j] == DeviceKey::Local;
                assert(pre.sessions.dom().contains(DeviceKey::Local));
            }
            if pre.sessions.dom().contains(DeviceKey::Local) {
                assert(pre.devices.contains(DeviceKey::Local));
                let j = choose|j: int| 0 <= j < pre.devices.len() && pre.devices[j] == DeviceKey::Local;
                assert(0 <= j < n && pre.devices[j] == DeviceKey::Local);
            }
            if fresh_case {
                lemma_wrapping_add_n_small(pre.session_counter, n as nat);
                assert forall|k: DeviceKey| #[trigger] post.sessions.dom().contains(k) implies !pre.issued.contains(
                    post.sessions[k].session_id,
                ) by {
                    assert(pre.devices.contains(k));
                    let j = choose|j: int| 0 <= j < pre.devices.len() && pre.devices[j] == k;
                    assert(id_made_between(post.sessions[pre.devices[j]].session_id, pre.session_counter as int, pre.session_counter as int + n));
                    lemma_new_id_not_issued(pre, post.sessions[k].session_id, pre.session_counter as int + n);
                }
                assert forall|id: Seq<char>| #[trigger] post.issued.contains(id) implies id_made_between(id, 0, post.session_counter as int) by {
                    if pre.issued.contains(id) {
                        lemma_id_made_widen(id, 0, pre.session_counter as int, 0, post.session_counter as int);
                    } else {
                        let j = choose|j: int| 0 <= j < out@.len() && (#[trigger] out@[j])@.session_id == id;
                        assert(id_made_between(post.sessions[pre.devices[j]].session_id, pre.session_counter as int, pre.session_counter as int + n));
                        lemma_id_made_widen(id, pre.session_counter as int, pre.session_counter as int + n, 0, post.session_counter as int);
                    }
                }
            }
        }
        out
    }
}

impl HistoryRecorder {
    /// Detaches the sessions saved as the history row `history_id`, which
    /// the user deleted: each moves to a new session id and forgets the row,
    /// keeping its points, so that its next save makes a new row. Returns the
    /// charts of those sessions, in the order the sessions were opened.
    pub fn rebase_deleted_history(&mut self, history_id: i64) -> (r: Vec<CurrentChart>)
        requires
            old(self).inv(),
        ensures
            final(self).inv(),
            old(self)@.rebased(final(self)@, history_id, r@),
    {
        proof {
            self.lemma_inv_wf();
            lemma_wrapping_add_n_step(self.session_counter, 0);
            reveal_with_fuel(Seq::filter, 1);
        }
        let ghost pre = self@;
        let ghost pred = |k: DeviceKey| pre.saved_as(k, history_id);
        let ghost fresh_case = pre.ids_fresh() && pre.session_counter + pre.devices.len() <= u64::MAX;
        let n = self.sessions.len();
        let mut out: Vec<CurrentChart> = Vec::new();
        assert(pre.devices.take(0).filter(pred) =~= Seq::<DeviceKey>::empty());
        proof {
            assert(chart_ids(out@) =~= Set::<Seq<char>>::empty());
            assert(pre.issued.union(chart_ids(out@)) =~= pre.issued);
        }
        for i in 0..n
            invariant
                n == pre.devices.len(),
                pre.wf(),
                self@.issued == pre.issued.union(chart_ids(out@)),
                pred == (|k: DeviceKey| pre.saved_as(k, history_id)),
                self.inv(),
                self@.devices == pre.devices,
                self@.sessions.dom() == pre.sessions.dom(),
                self@.chart_enabled == pre.chart_enabled,
                self@.auto_save == pre.auto_save,
                self@.next_sequence == pre.next_sequence,
                self@.local_tick_count == pre.local_tick_count,
                self@.session_counter == wrapping_add_n(pre.session_counter, pre.devices.take(i as int).filter(pred).len()),
                pre.devices.take(i as int).filter(pred).len() <= i,
                forall|j: int| 0 <= j < i ==> if pred(pre.devices[j]) {
                    is_rebase_of(#[trigger] self@.sessions[pre.devices[j]], pre.sessions[pre.devices[j]])
                } else {
                    self@.sessions[pre.devices[j]] == pre.sessions[pre.devices[j]]
                },
                forall|j: int| i <= j < n ==> #[trigger] self@.sessions[pre.devices[j]] == pre.sessions[pre.devices[j]],
                out@.len() == pre.devices.take(i as int).filter(pred).len(),
                forall|j: int| 0 <= j < out@.len() ==> (#[trigger] out@[j])@ == chart_of(
                    pre.devices.take(i as int).filter(pred)[j],
                    self@.sessions[pre.devices.take(i as int).filter(pred)[j]],
                ),
                fresh_case == (pre.ids_fresh() && pre.session_counter + pre.devices.len() <= u64::MAX),
                fresh_case ==> forall|j: int| 0 <= j < i && pred(pre.devices[j]) ==> id_made_between(
                    #[trigger] self@.sessions[pre.devices[j]].session_id,
                    pre.session_counter as int,
                    pre.session_counter + pre.devices.take(i as int).filter(pred).len(),
                ),
        {
            let ghost before = self@;
            let ghost taken = pre.devices.take(i as int).filter(pred);
            let ghost k = pre.devices[i as int];
            proof {
                lemma_entry_map_at(self.sessions@, i as int);
                assert(self.sessions@[i as int].device@ == k);
                assert(pre.devices.take(i + 1).drop_last() =~= pre.devices.take(i as int));
                assert(pre.devices.take(i + 1).last() == k);
            }
            let hit = match self.sessions[i].session.saved_history_id {
                Some(saved) => saved == history_id,
                None => false,
            };
            if hit {
                let id = self.next_session_id();
                let ghost e0 = self.sessions@;
                let entry = &mut self.sessions[i];
                entry.session.session_id = id;
                entry.session.saved_history_id = None;
                proof {
                    lemma_entry_update(e0, i as int, self.sessions@[i as int]);
                    lemma_entry_map_at(self.sessions@, i as int);
                }
                let chart = self.sessions[i].session.current(&self.sessions[i].device);
                let ghost out0 = out@;
                out.push(chart);
                proof {
                    lemma_chart_ids_push(out0, chart);
                    assert(self@.issued =~= pre.issued.union(chart_ids(out@)));
                }
            }
            proof {
                reveal_with_fuel(Seq::filter, 1);
                let now = pre.devices.take(i + 1).filter(pred);
                assert(now == if pred(k) { taken.push(k) } else { taken });
                lemma_wrapping_add_n_step(pre.session_counter, taken.len());
                assert(self@.devices =~= pre.devices);
                assert(self@.sessions.dom() =~= pre.sessions.dom());
                assert forall|j: int| 0 <= j < i + 1 implies if pred(pre.devices[j]) {
                    is_rebase_of(#[trigger] self@.sessions[pre.devices[j]], pre.sessions[pre.devices[j]])
                } else {
                    self@.sessions[pre.devices[j]] == pre.sessions[pre.devices[j]]
                } by {
                    if j < i {
                        assert(pre.devices[j] != k);
                    }
                }
                assert forall|j: int| i + 1 <= j < n implies #[trigger] self@.sessions[pre.devices[j]] == pre.sessions[pre.devices[j]] by {
                    assert(pre.devices[j] != k);
                }
                assert forall|j: int| 0 <= j < out@.len() implies (#[trigger] out@[j])@ == chart_of(now[j], self@.sessions[now[j]]) by {
                    if j < taken.len() {
                        assert(now[j] == taken[j]);
                        assert(taken.contains(taken[j]));
                        pre.devices.take(i as int).lemma_filter_contains_rev(pred, taken[j]);
                        let w = choose|w: int| 0 <= w < i && pre.devices.take(i as int)[w] == taken[j];
                        assert(pre.devices[w] == taken[j]);
                        assert(pre.devices[w] != k);
                    }
                }
                if fresh_case {
                    lemma_filter_len_le_take(pre.devices, pred, i + 1);
                    lemma_wrapping_add_n_small(pre.session_counter, taken.len());
                    assert forall|j: int| 0 <= j < i + 1 && pred(pre.devices[j]) implies id_made_between(
                        #[trigger] self@.sessions[pre.devices[j]].session_id,
                        pre.session_counter as int,
                        pre.session_counter + now.len(),
                    ) by {
                        if j < i {
                            assert(pre.devices[j] != k);
                            lemma_id_made_widen(self@.sessions[pre.devices[j]].session_id, pre.session_counter as int, pre.session_counter + taken.len(), pre.session_counter as int, pre.session_counter + now.len());
                        } else {
                            lemma_id_made_at(self@.sessions[k].session_id, before.session_counter);
                            lemma_id_made_widen(self@.sessions[k].session_id, before.session_counter as int, before.session_counter + 1, pre.session_counter as int, pre.session_counter + now.len());
                        }
                    }
                }
            }
        }
        proof {
            let post = self@;
            assert(pre.devices.take(n as int) =~= pre.devices);
            assert(pre.devices_saved_as(history_id) == pre.devices.filter(pred));
            assert forall|k: DeviceKey| #[trigger] pre.sessions.dom().contains(k) implies if pre.saved_as(k, history_id) {
                is_rebase_of(post.sessions[k], pre.sessions[k])
            } else {
                post.sessions[k] == pre.sessions[k]
            } by {
                assert(pre.devices.contains(k));
                let j = choose|j: int| 0 <= j < pre.devices.len() && pre.devices[j] == k;
                assert(pred(pre.devices[j]) == pre.saved_as(k, history_id));
            }
            if fresh_case {
                lemma_filter_len_le_take(pre.devices, pred, n as int);
                lemma_wrapping_add_n_small(pre.session_counter, pre.devices.filter(pred).len());
                let hi = pre.session_counter + pre.devices.filter(pred).len();
                assert forall|k: DeviceKey| #[trigger] pre.sessions.dom().contains(k) && pre.saved_as(k, history_id)
                    implies !pre.issued.contains(post.sessions[k].session_id) by {
                    assert(pre.devices.contains(k));
                    let j = choose|j: int| 0 <= j < pre.devices.len() && pre.devices[j] == k;
                    assert(id_made_between(post.sessions[pre.devices[j]].session_id, pre.session_counter as int, hi));
                    lemma_new_id_not_issued(pre, post.sessions[k].session_id, hi);
                }
                assert forall|id: Seq<char>| #[trigger] post.issued.contains(id) implies id_made_between(id, 0, post.session_counter as int) by {
                    if pre.issued.contains(id) {
                        lemma_id_made_widen(id, 0, pre.session_counter as int, 0, post.session_counter as int);
                    } else {
                        let j = choose|j: int| 0 <= j < out@.len() && (#[trigger] out@[j])@.session_id == id;
                        let d = pre.devices.filter(pred)[j];
                        assert(pre.devices.filter(pred).contains(d));
                        pre.devices.lemma_filter_contains_rev(pred, d);
                        let w = choose|w: int| 0 <= w < pre.devices.len() && pre.devices[w] == d;
                        assert(pred(pre.devices[w]));
                        assert(id_made_between(post.sessions[pre.devices[w]].session_id, pre.session_counter as int, hi));
                        lemma_id_made_widen(id, pre.session_counter as int, hi, 0, post.session_counter as int);
                    }
                }
            }
        }
        out
    }
}

proof fn lemma_filter_len_le_take(s: Seq<DeviceKey>, pred: spec_fn(DeviceKey) -> bool, i: int)
    requires
        0 <= i <= s.len(),
    ensures
        s.take(i).filter(pred).len() <= s.len(),
{
    s.take(i).lemma_filter_len(pred);
}

/// The message for saving a chart while the chart is off.
pub open spec fn chart_disabled_message() -> Seq<char> {
    "power usage chart is disabled"@
}


impl HistoryRecorder {
    /// The points of a device's chart, or `None` when the device has no
    /// session; no session is opened.
    pub fn session_points(&self, typ: &DeviceType) -> (r: Option<Vec<ChartPoint>>)
        requires
            self.inv(),
        ensures
            r is Some <==> self@.sessions.dom().contains(typ@),
            r matches Some(p) ==> p@ == self@.sessions[typ@].points,
    {
        match self.find(typ) {
            Some(i) => {
                proof {
                    lemma_entry_map_at(self.sessions@, i as int);
                }
                let chart = self.sessions[i].session.current(typ);
                Some(chart.points)
            },
            None => None,
        }
    }

    /// The saved form of a device's chart, with the device name and the
    /// averaged and peak readings worked out by the caller. Refused while the
    /// chart is off and for a chart without points.
    pub fn snapshot(
        &self,
        typ: &DeviceType,
        name: Option<String>,
        avg: HistorySummaryData,
        peak: HistorySummaryData,
    ) -> (r: Result<ChartHistorySnapshot, String>)
        requires
            self.inv(),
        ensures
            r is Err <==> !self@.chart_enabled || !self@.sessions.dom().contains(typ@) || self@.sessions[typ@].points.len() == 0,
            !self@.chart_enabled ==> (r matches Err(e) && e@ == chart_disabled_message()),
            self@.chart_enabled && r is Err ==> (r matches Err(e) && e@ == no_points_message()),
            r matches Ok(snap) ==> {
                &&& snap.session_id@ == self@.sessions[typ@].session_id
                &&& snap.point_count == self@.sessions[typ@].points.len()
                &&& is_history_of(snap.history, typ@, self@.sessions[typ@].points, name, avg, peak)
            },
    {
        if !self.chart_enabled {
            proof {
                reveal_strlit("power usage chart is disabled");
            }
            return Err(String::from_str("power usage chart is disabled"));
        }
        proof {
            reveal_strlit("the current chart has no points");
        }
        match self.find(typ) {
            Some(i) => {
                proof {
                    lemma_entry_map_at(self.sessions@, i as int);
                }
                let session = &self.sessions[i].session;
                summarize_chart_history(typ, &session.session_id, &session.points, name, avg, peak)
            },
            None => Err(String::from_str("the current chart has no points")),
        }
    }
}

impl HistoryRecorder {
    /// What follows a Delete All whose database work ended with `outcome`.
    /// A failed purge keeps every session and passes its error on. Once the
    /// rows are committed deleted every chart is cleared, even when the
    /// clean-up afterwards failed; the result reports the count and the
    /// clean-up state, and a failed clean-up also yields the warning to show.
    /// Returns the result, the cleared charts, and the warning.
    pub fn after_delete_all(&mut self, outcome: Result<HistoryPurgeResult, String>) -> (r: (
        Result<DeleteAllHistoryResult, String>,
        Vec<CurrentChart>,
        Option<String>,
    ))
        requires
            old(self).inv(),
        ensures
            final(self).inv(),
            match outcome {
                Err(e) => {
                    &&& final(self)@ == old(self)@
                    &&& r.0 == Err::<DeleteAllHistoryResult, String>(e)
                    &&& r.1@.len() == 0
                    &&& r.2 is None
                },
                Ok(p) => {
                    &&& old(self)@.all_cleared(final(self)@, r.1@)
                    &&& r.0 == Ok::<DeleteAllHistoryResult, String>(delete_all_result_of(p))
                    &&& (r.2 is Some <==> p.cleanup_error is Some)
                    &&& (p.cleanup_error matches Some(e) ==> (r.2 matches Some(w) && w@ == cleanup_warning_text(e@)))
                },
            },
    {
        match outcome {
            Err(e) => (Err(e), Vec::new(), None),
            Ok(p) => {
                let charts = self.clear_all();
                let warning = match &p.cleanup_error {
                    Some(e) => Some(cleanup_warning(e.as_str())),
                    None => None,
                };
                (Ok(DeleteAllHistoryResult::from_purge(p)), charts, warning)
            },
        }
    }

    /// What follows deleting the history row `history_id`, whose database
    /// work ended with `outcome` (the number of rows deleted). Sessions are
    /// detached from the row only when a row was deleted; otherwise nothing
    /// changes. Returns the result and the charts of the detached sessions.
    pub fn after_delete_by_id(&mut self, history_id: i64, outcome: Result<u64, String>) -> (r: (
        Result<u64, String>,
        Vec<CurrentChart>,
    ))
        requires
            old(self).inv(),
        ensures
            final(self).inv(),
            r.0 == outcome,
            (outcome matches Ok(n) && n > 0) ==> old(self)@.rebased(final(self)@, history_id, r.1@),
            !(outcome matches Ok(n) && n > 0) ==> final(self)@ == old(self)@ && r.1@.len() == 0,
    {
        match outcome {
            Ok(n) => {
                if n > 0 {
                    let charts = self.rebase_deleted_history(history_id);
                    (Ok(n), charts)
                } else {
                    (Ok(n), Vec::new())
                }
            },
            Err(e) => (Err(e), Vec::new()),
        }
    }

    /// What follows writing the snapshot of `typ`'s session (id `session_id`,
    /// `point_count` points) to the history, whose database work ended with
    /// `outcome` (the row id). A saved chart records its row; a failed save
    /// changes nothing and passes its error on.
    pub fn after_save(
        &mut self,
        typ: &DeviceType,
        session_id: String,
        point_count: usize,
        outcome: Result<i64, String>,
    ) -> (r: Result<ChartHistorySaveResult, String>)
        requires
            old(self).inv(),
        ensures
            final(self).inv(),
            match outcome {
                Ok(h) => {
                    &&& final(self)@ == old(self)@.after_mark_saved(typ@, h)
                    &&& r matches Ok(s)
                    &&& s.history_id == h
                    &&& s.session_id == session_id
                    &&& s.point_count == point_count
                },
                Err(e) => {
                    &&& final(self)@ == old(self)@
                    &&& r == Err::<ChartHistorySaveResult, String>(e)
                },
            },
    {
        match outcome {
            Ok(history_id) => {
                self.mark_saved(typ, history_id);
                Ok(ChartHistorySaveResult { history_id, session_id, point_count })
            },
            Err(e) => Err(e),
        }
    }
}

} // verus!
