//! The live power-usage chart: which device a sample belongs to, the chart
//! points kept per device, and the events the chart hands out.
use vstd::prelude::*;

use crate::database::{join_strings, join_text};
use crate::provider::{copy_optional_text, NormalizedData, NormalizedResource};
use crate::text::{hex_text, lemma_hex_text_has_no_dash, lemma_hex_text_injective, push_hex, trim_text, trim_white_space};

verus! {

/// Largest number of points one live chart keeps.
pub const MAX_CHART_POINTS: usize = 100;

/// Fewest points a chart needs to be saved when the window closes.
pub const AUTO_SAVE_MIN_POINTS: usize = 30;

/// Local samples arrive once per tick; only every third one becomes a point.
pub const LOCAL_TICKS_PER_POINT: u8 = 3;

/// The device id of this Mac, as the frontend names it.
pub open spec fn local_device_id() -> Seq<char> {
    seq!['l', 'o', 'c', 'a', 'l']
}

/// The text of the message for an empty device id.
pub open spec fn empty_device_id_message() -> Seq<char> {
    "deviceId cannot be empty"@
}

/// The device a chart belongs to.
#[derive(Debug, Clone, PartialEq, Eq, PartialOrd, Ord, Hash)]
pub enum DeviceType {
    Local,
    Remote(String),
}

/// What a [`DeviceType`] stands for.
pub enum DeviceKey {
    Local,
    Remote(Seq<char>),
}

impl View for DeviceType {
    type V = DeviceKey;

    open spec fn view(&self) -> DeviceKey {
        match self {
            DeviceType::Local => DeviceKey::Local,
            DeviceType::Remote(udid) => DeviceKey::Remote(udid@),
        }
    }
}

/// The id under which the frontend knows a device.
pub open spec fn device_id_text(k: DeviceKey) -> Seq<char> {
    match k {
        DeviceKey::Local => local_device_id(),
        DeviceKey::Remote(udid) => udid,
    }
}

/// The device that a device id names, after trimming white space.
pub open spec fn device_for_id(id: Seq<char>) -> DeviceKey {
    if trim_text(id) == local_device_id() {
        DeviceKey::Local
    } else {
        DeviceKey::Remote(trim_text(id))
    }
}

impl DeviceType {
    /// Parses a device id: surrounding white space is ignored, an empty id is
    /// refused, `local` names this Mac and any other id a remote device.
    pub fn from_device_id(device_id: String) -> (r: Result<DeviceType, String>)
        ensures
            trim_text(device_id@).len() == 0 <==> r is Err,
            r matches Err(e) ==> e@ == empty_device_id_message(),
            r matches Ok(d) ==> d@ == device_for_id(device_id@),
    {
        let trimmed = trim_white_space(device_id.as_str());
        if trimmed.is_empty() {
            proof {
                reveal_strlit("deviceId cannot be empty");
            }
            return Err(String::from_str("deviceId cannot be empty"));
        }
        let owned = String::from_str(trimmed);
        let local = String::from_str("local");
        proof {
            reveal_strlit("local");
            assert("local"@ =~= local_device_id());
        }
        if owned == local {
            Ok(DeviceType::Local)
        } else {
            Ok(DeviceType::Remote(owned))
        }
    }

    /// The id under which the frontend knows this device.
    pub fn device_id(&self) -> (r: &str)
        ensures
            r@ == device_id_text(self@),
    {
        match self {
            DeviceType::Local => {
                proof {
                    reveal_strlit("local");
                }
                let r = "local";
                assert(r@ =~= local_device_id());
                r
            },
            DeviceType::Remote(udid) => udid.as_str(),
        }
    }

    /// A copy of this device, equal to it.
    pub fn duplicate(&self) -> (r: DeviceType)
        ensures
            r == *self,
    {
        match self {
            DeviceType::Local => DeviceType::Local,
            DeviceType::Remote(udid) => DeviceType::Remote(udid.clone()),
        }
    }

    /// Whether two values name the same device.
    pub fn same_device(&self, other: &DeviceType) -> (r: bool)
        ensures
            r == (self@ == other@),
    {
        match (self, other) {
            (DeviceType::Local, DeviceType::Local) => true,
            (DeviceType::Remote(a), DeviceType::Remote(b)) => {
                let same = *a == *b;
                assert(same ==> self@ == other@);
                assert(self@ == other@ ==> a@ == b@);
                same
            },
            _ => false,
        }
    }
}

/// The text of a chart session id: the creation time in nanoseconds and a
/// per-recorder counter, both in lowercase hexadecimal, joined by `-`.
pub open spec fn session_id_text(now_nanos: nat, counter: nat) -> Seq<char> {
    hex_text(now_nanos) + seq!['-'] + hex_text(counter)
}

/// Two session ids that read alike were made with the same counter value.
pub proof fn lemma_session_id_counter_injective(n1: nat, c1: nat, n2: nat, c2: nat)
    requires
        session_id_text(n1, c1) == session_id_text(n2, c2),
    ensures
        c1 == c2,
{
    lemma_hex_text_has_no_dash(n1);
    lemma_hex_text_has_no_dash(n2);
    lemma_hex_text_has_no_dash(c1);
    lemma_hex_text_has_no_dash(c2);
    let s = session_id_text(n1, c1);
    let l1 = hex_text(n1).len() as int;
    let l2 = hex_text(n2).len() as int;
    assert(s[l1] == '-');
    assert(session_id_text(n2, c2)[l2] == '-');
    if l1 < l2 {
        assert(session_id_text(n2, c2)[l1] == hex_text(n2)[l1]);
        assert(false);
    }
    if l2 < l1 {
        assert(s[l2] == hex_text(n1)[l2]);
        assert(false);
    }
    assert(s.subrange(l1 + 1, s.len() as int) =~= hex_text(c1));
    assert(session_id_text(n2, c2).subrange(l2 + 1, s.len() as int) =~= hex_text(c2));
    lemma_hex_text_injective(c1, c2);
}

/// Builds a session id from the creation time and the counter value.
pub fn new_session_id(now_nanos: u128, counter: u64) -> (r: String)
    ensures
        r@ == session_id_text(now_nanos as nat, counter as nat),
{
    let mut out = String::new();
    push_hex(&mut out, now_nanos);
    out.append("-");
    proof {
        reveal_strlit("-");
    }
    push_hex(&mut out, counter as u128);
    assert(out@ =~= session_id_text(now_nanos as nat, counter as nat));
    out
}

#[verifier::external_type_specification]
#[verifier::external_body]
pub struct ExSystemTime(std::time::SystemTime);

#[verifier::external_type_specification]
#[verifier::external_body]
pub struct ExSystemTimeError(std::time::SystemTimeError);

/// Reads the system clock with `std::time::SystemTime::now`. What it returns
/// depends on the clock, so nothing is stated of it.
#[verifier::external_body]
fn system_time_now() -> std::time::SystemTime {
    std::time::SystemTime::now()
}

/// The time from the Unix epoch to `t`, by `SystemTime::duration_since`
/// with `std::time::UNIX_EPOCH`: an error when `t` lies before the epoch.
/// The clock reading is opaque here, so nothing is stated of the result.
#[verifier::external_body]
fn since_unix_epoch(t: &std::time::SystemTime) -> Result<std::time::Duration, std::time::SystemTimeError> {
    t.duration_since(std::time::UNIX_EPOCH)
}

/// The whole nanoseconds of `d`, by `Duration::as_nanos`. A `Duration` is
/// opaque here, so nothing is stated of the result.
#[verifier::external_body]
fn duration_as_nanos(d: &std::time::Duration) -> u128 {
    d.as_nanos()
}

/// Nanoseconds since the Unix epoch by the system clock, zero when the
/// clock is set before the epoch.
pub(crate) fn now_unix_nanos() -> u128 {
    let now = system_time_now();
    match since_unix_epoch(&now) {
        Ok(elapsed) => duration_as_nanos(&elapsed),
        Err(_) => 0,
    }
}

/// Whole milliseconds of a nanosecond count, as an `i64`, `i64::MAX` when
/// they do not fit.
pub open spec fn millis_of_nanos(nanos: nat) -> i64 {
    if nanos / 1_000_000 <= i64::MAX {
        (nanos / 1_000_000) as i64
    } else {
        i64::MAX
    }
}

/// Whole milliseconds of a nanosecond count, saturated to `i64::MAX`.
pub fn nanos_to_millis(nanos: u128) -> (r: i64)
    ensures
        r == millis_of_nanos(nanos as nat),
{
    let millis = nanos / 1_000_000;
    if millis <= i64::MAX as u128 {
        millis as i64
    } else {
        i64::MAX
    }
}

/// The wall-clock time in Unix milliseconds; never negative.
pub fn unix_time_millis() -> (r: i64)
    ensures
        r >= 0,
{
    nanos_to_millis(now_unix_nanos())
}

/// The wall clock, with a log of every reading taken through it.
pub struct WallClock {
    reads: Ghost<Seq<nat>>,
}

impl WallClock {
    /// The readings taken so far, oldest first, in nanoseconds since the
    /// Unix epoch (zero for a clock set before the epoch).
    pub closed spec fn reads(&self) -> Seq<nat> {
        self.reads@
    }

    /// A clock that has taken no reading yet.
    pub fn new() -> (r: WallClock)
        ensures
            r.reads() == Seq::<nat>::empty(),
    {
        WallClock { reads: Ghost(Seq::empty()) }
    }

    /// Reads the clock once: the reading joins the log, and the result is
    /// that reading in whole Unix milliseconds, saturated to `i64::MAX`.
    pub fn now_millis(&mut self) -> (r: i64)
        ensures
            final(self).reads().len() == old(self).reads().len() + 1,
            final(self).reads().drop_last() == old(self).reads(),
            r == millis_of_nanos(final(self).reads().last()),
            r >= 0,
    {
        let nanos = now_unix_nanos();
        proof {
            let before = self.reads@;
            self.reads = Ghost(before.push(nanos as nat));
            assert(self.reads@.drop_last() =~= before);
        }
        nanos_to_millis(nanos)
    }
}

/// One point of a live chart.
#[derive(Clone, Debug)]
pub struct ChartPoint {
    pub sequence: u64,
    /// Wall-clock capture time in Unix milliseconds.
    pub captured_at: i64,
    pub data: NormalizedResource,
}

impl ChartPoint {
    /// A copy of this point, equal to it.
    pub fn duplicate(&self) -> (r: ChartPoint)
        ensures
            r == *self,
    {
        ChartPoint { sequence: self.sequence, captured_at: self.captured_at, data: self.data.duplicate() }
    }
}

/// The points of one device's live chart, as handed to the frontend.
#[derive(Clone, Debug)]
pub struct CurrentChart {
    pub device_id: String,
    pub session_id: String,
    pub points: Vec<ChartPoint>,
}

/// What a [`CurrentChart`] holds.
pub struct ChartView {
    pub device_id: Seq<char>,
    pub session_id: Seq<char>,
    pub points: Seq<ChartPoint>,
}

impl View for CurrentChart {
    type V = ChartView;

    open spec fn view(&self) -> ChartView {
        ChartView { device_id: self.device_id@, session_id: self.session_id@, points: self.points@ }
    }
}

/// A point just added to a live chart.
#[derive(Clone, Debug)]
pub struct ChartPointEvent {
    pub device_id: String,
    pub session_id: String,
    pub point: ChartPoint,
}

/// A live chart that was emptied or moved to a new session.
#[derive(Clone, Debug)]
pub struct ChartResetEvent {
    pub device_id: String,
    pub session_id: String,
}

/// A chart history operation failed.
#[derive(Clone, Debug)]
pub struct ChartHistoryErrorEvent {
    pub operation: String,
    pub message: String,
}

/// A chart was written to the history.
#[derive(Clone, Copy, Debug)]
pub struct HistoryRecordedEvent;

/// The outcome of saving a chart to the history.
#[derive(Clone, Debug)]
pub struct ChartHistorySaveResult {
    pub history_id: i64,
    pub session_id: String,
    pub point_count: usize,
}

/// The averaged or peak readings kept with a saved chart: the readings of
/// [`NormalizedData`] without the two battery percentages. Every field is the
/// bit pattern of an `f32` reading.
#[derive(Clone, Copy, Debug, Default)]
pub struct HistorySummaryData {
    pub system_in: u32,
    pub system_load: u32,
    pub battery_power: u32,
    pub adapter_power: u32,
    pub efficiency_loss: u32,
    pub brightness_power: u32,
    pub heatpipe_power: u32,
    pub temperature: u32,
    pub adapter_watts: u32,
    pub adapter_voltage: u32,
    pub adapter_amperage: u32,
}

/// The readings of `data` kept with a saved chart.
pub open spec fn summary_of(data: NormalizedData) -> HistorySummaryData {
    HistorySummaryData {
        system_in: data.system_in,
        system_load: data.system_load,
        battery_power: data.battery_power,
        adapter_power: data.adapter_power,
        efficiency_loss: data.efficiency_loss,
        brightness_power: data.brightness_power,
        heatpipe_power: data.heatpipe_power,
        temperature: data.temperature,
        adapter_watts: data.adapter_watts,
        adapter_voltage: data.adapter_voltage,
        adapter_amperage: data.adapter_amperage,
    }
}

impl HistorySummaryData {
    /// The readings of `data` kept with a saved chart.
    pub fn from_data(data: NormalizedData) -> (r: HistorySummaryData)
        ensures
            r == summary_of(data),
    {
        HistorySummaryData {
            system_in: data.system_in,
            system_load: data.system_load,
            battery_power: data.battery_power,
            adapter_power: data.adapter_power,
            efficiency_loss: data.efficiency_loss,
            brightness_power: data.brightness_power,
            heatpipe_power: data.heatpipe_power,
            temperature: data.temperature,
            adapter_watts: data.adapter_watts,
            adapter_voltage: data.adapter_voltage,
            adapter_amperage: data.adapter_amperage,
        }
    }
}

/// One point of a saved chart: a sample without its battery percentages.
#[derive(Debug, Default)]
pub struct HistoryCurvePoint {
    pub is_local: bool,
    pub is_charging: bool,
    pub time_remain: std::time::Duration,
    pub last_update: i64,
    pub adapter_name: Option<String>,
    pub cycle_count: i32,
    pub current_capacity: i32,
    pub max_capacity: i32,
    pub design_capacity: i32,
    pub brightness_power_available: bool,
    pub heatpipe_power_available: bool,
    pub data: HistorySummaryData,
}

/// The saved form of the sample `r`.
pub open spec fn curve_point_of(r: NormalizedResource) -> HistoryCurvePoint {
    HistoryCurvePoint {
        is_local: r.is_local,
        is_charging: r.is_charging,
        time_remain: r.time_remain,
        last_update: r.last_update,
        adapter_name: r.adapter_name,
        cycle_count: r.cycle_count,
        current_capacity: r.current_capacity,
        max_capacity: r.max_capacity,
        design_capacity: r.design_capacity,
        brightness_power_available: r.brightness_power_available,
        heatpipe_power_available: r.heatpipe_power_available,
        data: summary_of(r.data),
    }
}

impl Clone for HistoryCurvePoint {
    fn clone(&self) -> (r: Self)
        ensures
            r == *self,
    {
        HistoryCurvePoint {
            is_local: self.is_local,
            is_charging: self.is_charging,
            time_remain: self.time_remain,
            last_update: self.last_update,
            adapter_name: copy_optional_text(&self.adapter_name),
            cycle_count: self.cycle_count,
            current_capacity: self.current_capacity,
            max_capacity: self.max_capacity,
            design_capacity: self.design_capacity,
            brightness_power_available: self.brightness_power_available,
            heatpipe_power_available: self.heatpipe_power_available,
            data: self.data,
        }
    }
}

impl HistoryCurvePoint {
    /// The saved form of the sample `resource`.
    pub fn from_resource(resource: &NormalizedResource) -> (r: HistoryCurvePoint)
        ensures
            r == curve_point_of(*resource),
    {
        HistoryCurvePoint {
            is_local: resource.is_local,
            is_charging: resource.is_charging,
            time_remain: resource.time_remain,
            last_update: resource.last_update,
            adapter_name: copy_optional_text(&resource.adapter_name),
            cycle_count: resource.cycle_count,
            current_capacity: resource.current_capacity,
            max_capacity: resource.max_capacity,
            design_capacity: resource.design_capacity,
            brightness_power_available: resource.brightness_power_available,
            heatpipe_power_available: resource.heatpipe_power_available,
            data: HistorySummaryData::from_data(resource.data),
        }
    }
}

/// The detail of a saved chart: averages, peaks and every point.
#[derive(Debug)]
pub struct ChargingHistoryDetail {
    pub avg: HistorySummaryData,
    pub peak: HistorySummaryData,
    pub curve: Vec<HistoryCurvePoint>,
}

/// A saved chart, as the history lists it.
#[derive(Debug)]
pub struct ChargingHistory {
    pub is_remote: bool,
    pub name: String,
    pub udid: String,
    pub from_level: i32,
    pub end_level: i32,
    pub duration: i64,
    pub timestamp: i64,
    pub adapter_name: String,
    pub detail: ChargingHistoryDetail,
}

/// A chart ready to be written as the history row of its session.
#[derive(Debug)]
pub struct ChartHistorySnapshot {
    pub session_id: String,
    pub point_count: usize,
    pub history: ChargingHistory,
}

/// `a - b`, held within the range of `i64`.
pub open spec fn saturating_sub_i64(a: i64, b: i64) -> i64 {
    if a - b > i64::MAX {
        i64::MAX
    } else if a - b < i64::MIN {
        i64::MIN
    } else {
        (a - b) as i64
    }
}

/// `x` divided by a thousand, rounded down (`i64::div_euclid`).
pub open spec fn floor_div_1000(x: i64) -> i64 {
    (x as int / 1000) as i64
}

/// `x` divided by a thousand, rounded down.
pub fn div_euclid_1000(x: i64) -> (r: i64)
    ensures
        r == floor_div_1000(x),
{
    if x >= 0 {
        (x as u64 / 1000) as i64
    } else {
        let m: u128 = (-(x as i128)) as u128;
        let c: u128 = (m + 999) / 1000;
        proof {
            let q = x as int / 1000;
            let rem = x as int % 1000;
            assert(x as int == 1000 * q + rem && 0 <= rem < 1000) by (nonlinear_arith)
                requires
                    q == x as int / 1000,
                    rem == x as int % 1000,
            ;
            assert(m + 999 == 1000 * (-q) + (999 - rem));
            assert((m + 999) as int / 1000 == -q) by (nonlinear_arith)
                requires
                    m + 999 == 1000 * (-q) + (999 - rem),
                    0 <= 999 - rem < 1000,
            ;
            assert(-q <= 9223372036854776);
        }
        (-(c as i128)) as i64
    }
}

/// `a - b`, held within the range of `i64` (`i64::saturating_sub`).
pub fn saturating_sub(a: i64, b: i64) -> (r: i64)
    ensures
        r == saturating_sub_i64(a, b),
{
    let d: i128 = a as i128 - b as i128;
    if d > i64::MAX as i128 {
        i64::MAX
    } else if d < i64::MIN as i128 {
        i64::MIN
    } else {
        d as i64
    }
}

/// The adapter name a saved chart shows when its last point has none.
pub open spec fn unknown_adapter_name() -> Seq<char> {
    "Unknown"@
}

/// The text of an optional name, empty when there is none.
pub open spec fn text_or_empty(name: Option<String>) -> Seq<char> {
    match name {
        Some(n) => n@,
        None => Seq::empty(),
    }
}

/// Whether `h` is the saved chart of the session with points `points`
/// (at least one) of device `k`, named `name`, with averages `avg` and peaks
/// `peak`: levels from the first and last points, duration and start time in
/// whole seconds, the last point's adapter, and every point with its capture
/// time, in seconds, as its time.
pub open spec fn is_history_of(
    h: ChargingHistory,
    k: DeviceKey,
    points: Seq<ChartPoint>,
    name: Option<String>,
    avg: HistorySummaryData,
    peak: HistorySummaryData,
) -> bool {
    let first = points[0];
    let last = points.last();
    &&& h.is_remote == (k is Remote)
    &&& h.name@ == text_or_empty(name)
    &&& h.udid@ == device_id_text(k)
    &&& h.from_level == first.data.data.battery_level
    &&& h.end_level == last.data.data.battery_level
    &&& h.duration == floor_div_1000(saturating_sub_i64(last.captured_at, first.captured_at))
    &&& h.timestamp == floor_div_1000(first.captured_at)
    &&& h.adapter_name@ == (match last.data.adapter_name {
        Some(a) => a@,
        None => unknown_adapter_name(),
    })
    &&& h.detail.avg == avg
    &&& h.detail.peak == peak
    &&& h.detail.curve@.len() == points.len()
    &&& forall|i: int| 0 <= i < points.len() ==> #[trigger] h.detail.curve@[i] == saved_point_of(points[i])
}

/// The saved form of a chart point: its sample, timed by its capture time in
/// whole seconds.
pub open spec fn saved_point_of(p: ChartPoint) -> HistoryCurvePoint {
    HistoryCurvePoint { last_update: floor_div_1000(p.captured_at), ..curve_point_of(p.data) }
}

/// The message for saving a chart that has no points.
pub open spec fn no_points_message() -> Seq<char> {
    "the current chart has no points"@
}

/// Builds the snapshot of a session with id `session_id` and points
/// `points`: refused for a session without points, else the saved chart
/// with the point count.
pub fn summarize_chart_history(
    typ: &DeviceType,
    session_id: &String,
    points: &std::collections::VecDeque<ChartPoint>,
    name: Option<String>,
    avg: HistorySummaryData,
    peak: HistorySummaryData,
) -> (r: Result<ChartHistorySnapshot, String>)
    ensures
        r is Err <==> points@.len() == 0,
        r matches Err(e) ==> e@ == no_points_message(),
        r matches Ok(snap) ==> {
            &&& snap.session_id@ == session_id@
            &&& snap.point_count == points@.len()
            &&& is_history_of(snap.history, typ@, points@, name, avg, peak)
        },
{
    broadcast use vstd::std_specs::vecdeque::group_vec_dequeue_axioms;

    let n = points.len();
    if n == 0 {
        proof {
            reveal_strlit("the current chart has no points");
        }
        return Err(String::from_str("the current chart has no points"));
    }
    let first = &points[0];
    let last = &points[n - 1];
    let mut curve: Vec<HistoryCurvePoint> = Vec::new();
    for i in 0..n
        invariant
            n == points@.len(),
            curve@.len() == i,
            forall|j: int| 0 <= j < i ==> #[trigger] curve@[j] == saved_point_of(points@[j]),
    {
        let mut saved = HistoryCurvePoint::from_resource(&points[i].data);
        saved.last_update = div_euclid_1000(points[i].captured_at);
        curve.push(saved);
    }
    let is_remote = match typ {
        DeviceType::Local => false,
        DeviceType::Remote(_) => true,
    };
    let adapter_name = match &last.data.adapter_name {
        Some(a) => a.clone(),
        None => {
            proof {
                reveal_strlit("Unknown");
            }
            String::from_str("Unknown")
        },
    };
    let name = match name {
        Some(n) => n,
        None => String::new(),
    };
    let history = ChargingHistory {
        is_remote,
        name,
        udid: String::from_str(typ.device_id()),
        from_level: first.data.data.battery_level,
        end_level: last.data.data.battery_level,
        duration: div_euclid_1000(saturating_sub(last.captured_at, first.captured_at)),
        timestamp: div_euclid_1000(first.captured_at),
        adapter_name,
        detail: ChargingHistoryDetail { avg, peak, curve },
    };
    Ok(ChartHistorySnapshot { session_id: session_id.clone(), point_count: n, history })
}

/// The error text for a device whose chart could not be saved.
pub fn device_save_error(typ: &DeviceType, error: &str) -> (r: String)
    ensures
        r@ == device_id_text(typ@) + ": "@ + error@,
{
    let mut s = String::from_str(typ.device_id());
    s.append(": ");
    s.append(error);
    s
}

/// The outcome of saving several charts: success when none failed, else
/// the failures joined with `; `.
pub fn auto_save_outcome(errors: &Vec<String>) -> (r: Result<(), String>)
    ensures
        r is Ok <==> errors@.len() == 0,
        r matches Err(e) ==> e@ == join_text(errors@.map_values(|s: String| s@), "; "@),
{
    if errors.len() == 0 {
        Ok(())
    } else {
        Err(join_strings(errors, "; "))
    }
}

} // verus!
