//! Properties of the live chart that span several operations.
use vstd::prelude::*;

use crate::history::{
    device_for_id, device_id_text, lemma_session_id_counter_injective, local_device_id, session_id_text, ChartPoint,
    ChartPointEvent, CurrentChart, DeviceKey, AUTO_SAVE_MIN_POINTS, LOCAL_TICKS_PER_POINT, MAX_CHART_POINTS,
};
use crate::ioreg::{adapter_name_of, carries_battery_fields, IORegistry};
use crate::local::{
    sampler_next, status_bar_source_of, SampleInterval, SamplerAction, SamplerEvent, SamplerState, StatusBarItem,
    StatusBarSource, MIN_SAMPLE_INTERVAL_NANOS,
};
use crate::provider::NormalizedResource;
use crate::recorder::{
    is_new_session, is_session_id_for, lemma_fresh_after_issue, lemma_id_made_at, lemma_new_id_not_issued, ring_push,
    wrapping_inc, RecorderModel, SessionModel,
};
use crate::text::{is_white_space, trim_end_text, trim_start_text, trim_text};

verus! {

/// While the chart is off, a sample changes nothing and yields no point.
pub proof fn law_disabled_chart_keeps_state(
    pre: RecorderModel,
    post: RecorderModel,
    k: DeviceKey,
    data: NormalizedResource,
    ret: Option<ChartPointEvent>,
    clock: nat,
)
    requires
        !pre.chart_enabled,
        pre.record_step(post, k, data, ret, clock),
    ensures
        post == pre,
        ret is None,
{
}

/// Local samples count ticks modulo three, and exactly the third tick of
/// each round becomes a point.
pub proof fn law_local_every_third_tick(
    pre: RecorderModel,
    post: RecorderModel,
    data: NormalizedResource,
    ret: Option<ChartPointEvent>,
    clock: nat,
)
    requires
        pre.wf(),
        pre.chart_enabled,
        pre.record_step(post, DeviceKey::Local, data, ret, clock),
    ensures
        ret is Some <==> pre.local_tick_count == LOCAL_TICKS_PER_POINT - 1,
        post.local_tick_count == (pre.local_tick_count + 1) % (LOCAL_TICKS_PER_POINT as int),
{
}

/// A remote sample that repeats the sensor time of the point just taken for
/// the same device is dropped and changes nothing.
pub proof fn law_remote_repeat_dropped(
    pre: RecorderModel,
    mid: RecorderModel,
    post: RecorderModel,
    udid: Seq<char>,
    first: NormalizedResource,
    second: NormalizedResource,
    r1: Option<ChartPointEvent>,
    r2: Option<ChartPointEvent>,
    c1: nat,
    c2: nat,
)
    requires
        pre.record_step(mid, DeviceKey::Remote(udid), first, r1, c1),
        r1 is Some,
        mid.record_step(post, DeviceKey::Remote(udid), second, r2, c2),
        second.last_update == first.last_update,
    ensures
        r2 is None,
        post == mid,
{
    let k = DeviceKey::Remote(udid);
    assert(mid.sessions.dom().contains(k));
    assert(mid.sessions[k].last_sensor_update == Some(first.last_update));
}

/// Two points taken one after the other carry consecutive sequence numbers
/// (modulo 2^64).
pub proof fn law_sequences_consecutive(
    m0: RecorderModel,
    m1: RecorderModel,
    m2: RecorderModel,
    k1: DeviceKey,
    k2: DeviceKey,
    d1: NormalizedResource,
    d2: NormalizedResource,
    r1: Option<ChartPointEvent>,
    r2: Option<ChartPointEvent>,
    c1: nat,
    c2: nat,
)
    requires
        m0.record_step(m1, k1, d1, r1, c1),
        m1.record_step(m2, k2, d2, r2, c2),
        r1 is Some,
        r2 is Some,
    ensures
        r2.unwrap().point.sequence == wrapping_inc(r1.unwrap().point.sequence),
{
}

/// Appending to a ring of at most [`MAX_CHART_POINTS`] points keeps the
/// newest [`MAX_CHART_POINTS`] points, oldest first, ending with the new one.
pub proof fn law_ring_keeps_newest(points: Seq<ChartPoint>, p: ChartPoint)
    requires
        points.len() <= MAX_CHART_POINTS,
    ensures
        ring_push(points, p).len() <= MAX_CHART_POINTS,
        ring_push(points, p).last() == p,
        ring_push(points, p) == points.push(p).subrange(
            points.push(p).len() - ring_push(points, p).len(),
            points.push(p).len() as int,
        ),
        points.len() < MAX_CHART_POINTS ==> ring_push(points, p) == points.push(p),
{
    let all = points.push(p);
    if points.len() == MAX_CHART_POINTS {
        assert(ring_push(points, p) =~= all.subrange(1, all.len() as int));
    } else {
        assert(ring_push(points, p) =~= all.subrange(0, all.len() as int));
    }
}

/// The devices picked for saving on close are exactly the devices, local
/// or remote, that have a session holding at least [`AUTO_SAVE_MIN_POINTS`]
/// points, and none while the chart or saving on close is off.
pub proof fn law_close_save_picks_full_charts(m: RecorderModel)
    requires
        m.wf(),
    ensures
        !m.chart_enabled || !m.auto_save ==> m.close_save_set().len() == 0,
        m.chart_enabled && m.auto_save ==> forall|k: DeviceKey| #[trigger] m.close_save_set().contains(k) <==> (
            m.sessions.dom().contains(k) && m.sessions[k].points.len() >= AUTO_SAVE_MIN_POINTS),
{
    if m.chart_enabled && m.auto_save {
        let pred = |k: DeviceKey| m.has_enough_points(k);
        assert forall|k: DeviceKey| #[trigger] m.close_save_set().contains(k) <==> (m.sessions.dom().contains(k)
            && m.has_enough_points(k)) by {
            if m.close_save_set().contains(k) {
                m.devices.lemma_filter_contains_rev(pred, k);
                let j = choose|j: int| 0 <= j < m.close_save_set().len() && m.close_save_set()[j] == k;
                m.devices.lemma_filter_pred(pred, j);
            }
            if m.sessions.dom().contains(k) && m.has_enough_points(k) {
                let i = choose|i: int| 0 <= i < m.devices.len() && m.devices[i] == k;
                m.devices.lemma_filter_contains(pred, i);
            }
        }
    }
}

/// A recorder whose charts are all empty, as Delete All leaves it, has
/// nothing to save on close.
pub proof fn law_nothing_to_save_when_empty(m: RecorderModel)
    requires
        m.wf(),
        forall|k: DeviceKey| #[trigger] m.sessions.dom().contains(k) ==> m.sessions[k].points.len() == 0,
    ensures
        m.close_save_set().len() == 0,
{
    law_close_save_picks_full_charts(m);
    if m.close_save_set().len() > 0 {
        assert(m.close_save_set().contains(m.close_save_set()[0]));
    }
}

/// A freshly opened session counts as empty for saving on close.
pub proof fn law_new_session_is_empty(s: SessionModel, counter: u64)
    requires
        is_new_session(s, counter),
    ensures
        s.points.len() == 0,
        s.saved_history_id is None,
{
}

/// Deleting a history row that no session was saved as detaches nothing.
pub proof fn law_rebase_unsaved_row(m: RecorderModel, id: i64)
    requires
        m.wf(),
        forall|k: DeviceKey| #[trigger] m.sessions.dom().contains(k) ==> !m.saved_as(k, id),
    ensures
        m.devices_saved_as(id).len() == 0,
{
    let pred = |k: DeviceKey| m.saved_as(k, id);
    if m.devices_saved_as(id).len() > 0 {
        m.devices.lemma_filter_pred(pred, 0);
        m.devices.lemma_filter_contains_rev(pred, m.devices_saved_as(id)[0]);
        assert(m.devices_saved_as(id).contains(m.devices_saved_as(id)[0]));
    }
}

/// After a device's session is recorded as saved under a row, deleting that
/// row detaches the session.
pub proof fn law_saved_session_is_rebased(m: RecorderModel, k: DeviceKey, id: i64)
    requires
        m.wf(),
        m.sessions.dom().contains(k),
    ensures
        m.after_mark_saved(k, id).saved_as(k, id),
        m.after_mark_saved(k, id).devices_saved_as(id).contains(k),
{
    let n = m.after_mark_saved(k, id);
    let pred = |d: DeviceKey| n.saved_as(d, id);
    let i = choose|i: int| 0 <= i < m.devices.len() && m.devices[i] == k;
    assert(n.devices == m.devices);
    n.devices.lemma_filter_contains(pred, i);
}

/// The device id of this Mac reads back as this Mac, and the id of a remote
/// device reads back as that device when it has no surrounding white space
/// and is neither empty nor `local`.
pub proof fn law_device_id_round_trip(k: DeviceKey)
    requires
        k matches DeviceKey::Remote(udid) ==> {
            &&& udid.len() > 0
            &&& !is_white_space(udid[0])
            &&& !is_white_space(udid.last())
            &&& udid != local_device_id()
        },
    ensures
        device_for_id(device_id_text(k)) == k,
{
    let id = device_id_text(k);
    match k {
        DeviceKey::Local => {
            assert(trim_start_text(id) == id);
            assert(trim_end_text(id) == id);
        },
        DeviceKey::Remote(udid) => {
            assert(trim_start_text(id) == id);
            assert(trim_end_text(id) == id);
        },
    }
    assert(trim_text(id) == id);
}

/// Recording that a chart was saved keeps its points, its session id and
/// every other device's chart: a manual save does not clear the chart.
pub proof fn law_saving_keeps_the_chart(m: RecorderModel, k: DeviceKey, id: i64)
    requires
        m.sessions.dom().contains(k),
    ensures
        m.after_mark_saved(k, id).sessions[k].points == m.sessions[k].points,
        m.after_mark_saved(k, id).sessions[k].session_id == m.sessions[k].session_id,
        forall|d: DeviceKey| #[trigger] m.sessions.dom().contains(d) && d != k ==> m.after_mark_saved(k, id).sessions[d] == m.sessions[d],
        m.after_mark_saved(k, id).sessions.dom() == m.sessions.dom(),
{
    assert(m.after_mark_saved(k, id).sessions.dom() =~= m.sessions.dom());
}

/// Clearing one device's chart leaves every other device's chart as it was
/// and gives the cleared device an empty chart.
pub proof fn law_clear_touches_only_its_device(m: RecorderModel, k: DeviceKey, s: SessionModel)
    requires
        is_new_session(s, m.session_counter),
    ensures
        m.after_clear(k, s).sessions[k].points.len() == 0,
        forall|d: DeviceKey| #[trigger] m.sessions.dom().contains(d) && d != k ==> m.after_clear(k, s).sessions[d] == m.sessions[d],
{
}

/// Two session ids made with different counter values differ, whatever the
/// clock read when each was made.
pub proof fn law_session_ids_differ_by_counter(n1: nat, c1: u64, n2: nat, c2: u64)
    requires
        c1 != c2,
    ensures
        session_id_text(n1, c1 as nat) != session_id_text(n2, c2 as nat),
{
    if session_id_text(n1, c1 as nat) == session_id_text(n2, c2 as nat) {
        lemma_session_id_counter_injective(n1, c1 as nat, n2, c2 as nat);
    }
}

/// A session id made with the recorder's current counter value differs from
/// every session id the recorder handed out before, while its ids are fresh.
pub proof fn law_fresh_id_not_issued(m: RecorderModel, id: Seq<char>)
    requires
        m.ids_fresh(),
        is_session_id_for(id, m.session_counter),
    ensures
        !m.issued.contains(id),
{
    lemma_id_made_at(id, m.session_counter);
    lemma_new_id_not_issued(m, id, m.session_counter + 1);
}

/// Each new session advances the counter by one, so two sessions opened one
/// after the other get different ids, even when the clock read the same.
pub proof fn law_successive_ids_differ(pre: RecorderModel, k1: DeviceKey, s1: SessionModel, k2: DeviceKey, s2: SessionModel)
    requires
        pre.session_counter < u64::MAX,
        is_new_session(s1, pre.session_counter),
        is_new_session(s2, pre.after_clear(k1, s1).session_counter),
    ensures
        pre.after_clear(k1, s1).session_counter == pre.session_counter + 1,
        s1.session_id != s2.session_id,
{
    let c1 = pre.session_counter;
    let c2 = pre.after_clear(k1, s1).session_counter;
    let n1 = choose|n: nat| s1.session_id == #[trigger] session_id_text(n, c1 as nat);
    let n2 = choose|n: nat| s2.session_id == #[trigger] session_id_text(n, c2 as nat);
    law_session_ids_differ_by_counter(n1, c1, n2, c2);
}

/// Clearing a chart, while the ids are fresh and the counter has not reached
/// `u64::MAX`, gives it a session id that differs from every id handed out
/// before, among them the id of every current session, and the ids stay
/// fresh.
pub proof fn law_clear_gives_unused_id(pre: RecorderModel, k: DeviceKey, s: SessionModel)
    requires
        pre.wf(),
        pre.ids_fresh(),
        pre.session_counter < u64::MAX,
        is_new_session(s, pre.session_counter),
    ensures
        !pre.issued.contains(s.session_id),
        forall|d: DeviceKey| #[trigger] pre.sessions.dom().contains(d) ==> pre.sessions[d].session_id != s.session_id,
        pre.after_clear(k, s).issued == pre.issued.insert(s.session_id),
        pre.after_clear(k, s).ids_fresh(),
{
    lemma_fresh_after_issue(pre, pre.after_clear(k, s), s.session_id);
}

/// Recording a sample never forgets an id handed out.
pub proof fn law_record_keeps_issued_ids(
    pre: RecorderModel,
    post: RecorderModel,
    k: DeviceKey,
    data: NormalizedResource,
    ret: Option<ChartPointEvent>,
    clock: nat,
)
    requires
        pre.record_step(post, k, data, ret, clock),
    ensures
        pre.issued.subset_of(post.issued),
{
}

/// Clearing the local chart restarts its tick count: with the chart on, the
/// next two local samples are dropped and the third becomes a point, however
/// many ticks had passed before.
pub proof fn law_local_ticks_restart_after_clear(
    pre: RecorderModel,
    s: SessionModel,
    m1: RecorderModel,
    m2: RecorderModel,
    m3: RecorderModel,
    d1: NormalizedResource,
    d2: NormalizedResource,
    d3: NormalizedResource,
    r1: Option<ChartPointEvent>,
    r2: Option<ChartPointEvent>,
    r3: Option<ChartPointEvent>,
    c1: nat,
    c2: nat,
    c3: nat,
)
    requires
        pre.chart_enabled,
        pre.after_clear(DeviceKey::Local, s).record_step(m1, DeviceKey::Local, d1, r1, c1),
        m1.record_step(m2, DeviceKey::Local, d2, r2, c2),
        m2.record_step(m3, DeviceKey::Local, d3, r3, c3),
    ensures
        r1 is None,
        r2 is None,
        r3 is Some,
{
}

/// The sampler never restarts its timer with less than half a second, and
/// keeps a requested interval of at least half a second as it is.
pub proof fn law_sampler_interval_floor(state: SamplerState, interval: SampleInterval)
    ensures
        sampler_next(state, SamplerEvent::ChangeInterval(interval)).1 matches SamplerAction::RestartTimer(next)
            && next.nanos() >= MIN_SAMPLE_INTERVAL_NANOS
            && (interval.nanos() >= MIN_SAMPLE_INTERVAL_NANOS ==> next == interval),
        sampler_next(state, SamplerEvent::ChangeInterval(interval)).0 == state,
{
}

/// Only a new status bar item or charging switch changes the sampler's
/// state, and each such change updates the status bar at once.
pub proof fn law_sampler_state_changes(state: SamplerState, event: SamplerEvent)
    ensures
        sampler_next(state, event).0 != state ==> (event is ChangeStatusBarItem || event is StatusBarShowCharging),
        (event is ChangeStatusBarItem || event is StatusBarShowCharging) ==> sampler_next(state, event).1 == SamplerAction::ReportStatusBar,
        (event is Tick || event is ImmediateSend) ==> sampler_next(state, event) == (state, SamplerAction::SampleAndReport),
{
}

/// A taken point is stamped with the wall-clock reading, whatever the
/// sample says: its capture time is the reading in whole Unix milliseconds
/// (the reading is at least that many milliseconds and less than one more),
/// and `i64::MAX` for a reading past what an `i64` holds.
pub proof fn law_capture_time_is_the_clock(
    pre: RecorderModel,
    post: RecorderModel,
    k: DeviceKey,
    data: NormalizedResource,
    ret: Option<ChartPointEvent>,
    clock: nat,
)
    requires
        pre.record_step(post, k, data, ret, clock),
        ret is Some,
    ensures
        clock < (i64::MAX + 1) * 1_000_000 ==> {
            &&& ret.unwrap().point.captured_at * 1_000_000 <= clock
            &&& clock < (ret.unwrap().point.captured_at + 1) * 1_000_000
        },
        clock >= (i64::MAX + 1) * 1_000_000 ==> ret.unwrap().point.captured_at == i64::MAX,
{
    vstd::arithmetic::div_mod::lemma_fundamental_div_mod(clock as int, 1_000_000);
    vstd::arithmetic::div_mod::lemma_mod_pos_bound(clock as int, 1_000_000);
}

/// Two samples taken from the same recorder at the same clock reading get
/// the same capture time, whatever their sensor times.
pub proof fn law_capture_time_ignores_the_sample(
    pre: RecorderModel,
    p1: RecorderModel,
    p2: RecorderModel,
    k1: DeviceKey,
    k2: DeviceKey,
    d1: NormalizedResource,
    d2: NormalizedResource,
    r1: Option<ChartPointEvent>,
    r2: Option<ChartPointEvent>,
    clock: nat,
)
    requires
        pre.record_step(p1, k1, d1, r1, clock),
        pre.record_step(p2, k2, d2, r2, clock),
        r1 is Some,
        r2 is Some,
    ensures
        r1.unwrap().point.captured_at == r2.unwrap().point.captured_at,
{
    law_capture_time_is_the_clock(pre, p1, k1, d1, r1, clock);
    law_capture_time_is_the_clock(pre, p2, k2, d2, r2, clock);
}

/// `c` is the new chart of a session that was saved as the history row `id`.
pub open spec fn is_detached_chart(pre: RecorderModel, post: RecorderModel, id: i64, c: CurrentChart) -> bool {
    exists|k: DeviceKey| {
        &&& #[trigger] pre.sessions.dom().contains(k)
        &&& pre.sessions[k].saved_history_id == Some(id)
        &&& c@.device_id == device_id_text(k)
        &&& c@.session_id == post.sessions[k].session_id
    }
}

/// Deleting the history row `id` detaches exactly the sessions saved as that
/// row: every session whose saved row is not `id` stays as it was; each
/// session saved as `id` keeps its points and forgets the row; each returned
/// chart is the new chart of a session saved as `id`, and each such session
/// has a returned chart.
pub proof fn law_rebase_only_that_row(pre: RecorderModel, post: RecorderModel, id: i64, charts: Seq<CurrentChart>)
    requires
        pre.wf(),
        pre.rebased(post, id, charts),
    ensures
        post.sessions.dom() == pre.sessions.dom(),
        forall|k: DeviceKey| #[trigger] pre.sessions.dom().contains(k) && pre.sessions[k].saved_history_id != Some(id)
            ==> post.sessions[k] == pre.sessions[k],
        forall|k: DeviceKey| #[trigger] pre.sessions.dom().contains(k) && pre.sessions[k].saved_history_id == Some(id)
            ==> post.sessions[k].points == pre.sessions[k].points && post.sessions[k].saved_history_id is None,
        forall|j: int| 0 <= j < charts.len() ==> is_detached_chart(pre, post, id, #[trigger] charts[j]),
        forall|k: DeviceKey| #[trigger] pre.sessions.dom().contains(k) && pre.sessions[k].saved_history_id == Some(id)
            ==> exists|j: int| 0 <= j < charts.len() && (#[trigger] charts[j])@.device_id == device_id_text(k),
{
    let pred = |k: DeviceKey| pre.saved_as(k, id);
    let picked = pre.devices_saved_as(id);
    assert forall|j: int| 0 <= j < charts.len() implies is_detached_chart(pre, post, id, #[trigger] charts[j]) by {
        let k = picked[j];
        pre.devices.lemma_filter_pred(pred, j);
        assert(picked.contains(k));
        pre.devices.lemma_filter_contains_rev(pred, k);
        let w = choose|w: int| 0 <= w < pre.devices.len() && pre.devices[w] == k;
        assert(pre.sessions.dom().contains(pre.devices[w]));
        assert(pre.sessions.dom().contains(k));
        assert(pre.sessions[k].saved_history_id == Some(id));
        assert(charts[j]@.device_id == device_id_text(k));
        assert(charts[j]@.session_id == post.sessions[k].session_id);
    }
    assert forall|k: DeviceKey| #[trigger] pre.sessions.dom().contains(k) && pre.sessions[k].saved_history_id == Some(id)
        implies exists|j: int| 0 <= j < charts.len() && (#[trigger] charts[j])@.device_id == device_id_text(k) by {
        let i = choose|i: int| 0 <= i < pre.devices.len() && pre.devices[i] == k;
        pre.devices.lemma_filter_contains(pred, i);
        let j = choose|j: int| 0 <= j < picked.len() && picked[j] == k;
        assert(charts[j]@.device_id == device_id_text(k));
    }
}

/// While charging, with the charging power asked for, the status bar shows
/// the charging power whatever item is chosen; otherwise it shows the chosen
/// item's reading.
pub proof fn law_status_bar_source(is_charging: bool, item: StatusBarItem, show_charging: bool)
    ensures
        is_charging && show_charging ==> status_bar_source_of(is_charging, item, show_charging) == StatusBarSource::DeliveryRate,
        !(is_charging && show_charging) ==> status_bar_source_of(is_charging, item, show_charging) == match item {
            StatusBarItem::System => StatusBarSource::SystemTotal,
            StatusBarItem::Screen => StatusBarSource::Brightness,
            StatusBarItem::Heatpipe => StatusBarSource::Heatpipe,
        },
{
}

/// A sample built from a registry entry names the adapter by its name, and
/// by its description only when it has no name; it carries the entry's
/// sensor time, cycle count, capacities and charge level, zero where the
/// entry has none.
pub proof fn law_registry_fields_carried(r: NormalizedResource, io: IORegistry)
    requires
        carries_battery_fields(r, io),
    ensures
        io.adapter_details.name matches Some(n) ==> r.adapter_name == Some(n),
        io.adapter_details.name is None ==> r.adapter_name == io.adapter_details.description,
        io.adapter_details.name matches Some(n) ==> adapter_name_of(io) == Some(n),
        io.adapter_details.name is None ==> adapter_name_of(io) == io.adapter_details.description,
        r.last_update == (match io.update_time {
            Some(t) => t,
            None => 0,
        }),
        r.cycle_count == (match io.cycle_count {
            Some(v) => v,
            None => 0,
        }),
        r.max_capacity == (match io.apple_raw_max_capacity {
            Some(v) => v,
            None => 0,
        }),
        r.design_capacity == (match io.design_capacity {
            Some(v) => v,
            None => 0,
        }),
        r.current_capacity == (match io.apple_raw_current_capacity {
            Some(v) => v,
            None => 0,
        }),
        r.data.battery_level == (match io.current_capacity {
            Some(v) => v,
            None => 0,
        }),
{
}

} // verus!
