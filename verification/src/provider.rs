//! Normalised power readings of one device, as the live chart stores them.
//!
//! The sensor readings are single-precision floating-point values. The library
//! carries each of them as its IEEE-754 bit pattern (`f32::to_bits`), which
//! keeps the reading exact; arithmetic on the readings happens outside the
//! library.
use vstd::prelude::*;

verus! {

/// The aggregate readings of one sample. Every field but `battery_level`
/// is the bit pattern of an `f32` reading.
#[derive(Debug, Clone, Copy, Default)]
pub struct NormalizedData {
    pub system_in: u32,
    pub system_load: u32,
    pub battery_power: u32,
    pub adapter_power: u32,
    pub efficiency_loss: u32,
    /// Zero watts when the sensor is not available.
    pub brightness_power: u32,
    /// Zero watts when the sensor is not available.
    pub heatpipe_power: u32,
    pub battery_level: i32,
    pub absolute_battery_level: u32,
    pub temperature: u32,
    pub adapter_watts: u32,
    pub adapter_voltage: u32,
    pub adapter_amperage: u32,
}

/// One normalised sample of a device's power state.
#[derive(Debug, Default)]
pub struct NormalizedResource {
    pub is_local: bool,
    pub is_charging: bool,
    pub time_remain: std::time::Duration,
    pub last_update: i64,
    pub adapter_name: Option<String>,
    pub cycle_count: i32,
    pub current_capacity: i32,
    pub max_capacity: i32,
    pub design_capacity: i32,
    pub brightness_power_available: bool,
    pub heatpipe_power_available: bool,
    pub data: NormalizedData,
}

/// A copy of an optional text.
pub fn copy_optional_text(s: &Option<String>) -> (r: Option<String>)
    ensures
        r == *s,
{
    match s {
        Some(t) => Some(t.clone()),
        None => None,
    }
}

impl NormalizedResource {
    /// A copy of this sample, equal to it field by field.
    pub fn duplicate(&self) -> (r: Self)
        ensures
            r == *self,
    {
        NormalizedResource {
            is_local: self.is_local,
            is_charging: self.is_charging,
            time_remain: self.time_remain,
            last_update: self.last_update,
            adapter_name: copy_optional_text(&self.adapter_name),
            cycle_count: self.cycle_count,
            current_capacity: self.current_capacity,
            max_capacity: self.max_capacity,
            design_capacity: self.design_capacity,
            brightness_power_available: self.brightness_power_available,
            heatpipe_power_available: self.heatpipe_power_available,
            data: self.data,
        }
    }
}

impl Clone for NormalizedResource {
    fn clone(&self) -> (r: Self)
        ensures
            r == *self,
    {
        self.duplicate()
    }
}

/// `h` with `x` appended, and its oldest entry dropped when that makes it
/// longer than `cap`.
pub open spec fn capped_push(h: Seq<u64>, x: u64, cap: nat) -> Seq<u64> {
    let p = h.push(x);
    if p.len() > cap {
        p.subrange(1, p.len() as int)
    } else {
        p
    }
}

/// How many samples the battery sparkline keeps.
pub const BATTERY_HISTORY_LEN: usize = 50;

/// How many samples the input sparkline keeps.
pub const INPUT_HISTORY_LEN: usize = 50;

/// How many samples the system sparkline keeps.
pub const SYSTEM_HISTORY_LEN: usize = 200;

/// Peaks and recent samples of the battery, input and system power. The
/// peaks are bit patterns of `f32` readings in watts; the histories hold
/// whole watts.
#[derive(Debug, Default)]
pub struct PowerStatistic {
    pub max_battery_power: u32,
    pub max_input_power: u32,
    pub max_system_power: u32,
    pub battery_history: std::collections::VecDeque<u64>,
    pub input_history: std::collections::VecDeque<u64>,
    pub system_history: std::collections::VecDeque<u64>,
}

fn push_capped(h: &mut std::collections::VecDeque<u64>, x: u64, cap: usize)
    ensures
        final(h)@ == capped_push(old(h)@, x, cap as nat),
{
    broadcast use vstd::std_specs::vecdeque::group_vec_dequeue_axioms;

    h.push_back(x);
    if h.len() > cap {
        h.pop_front();
    }
}

impl PowerStatistic {
    /// Appends one sample, in whole watts, to each sparkline history; each
    /// history drops its oldest sample when it grows past its length.
    pub fn record_samples(&mut self, battery: u64, input: u64, system: u64)
        ensures
            final(self).battery_history@ == capped_push(old(self).battery_history@, battery, BATTERY_HISTORY_LEN as nat),
            final(self).input_history@ == capped_push(old(self).input_history@, input, INPUT_HISTORY_LEN as nat),
            final(self).system_history@ == capped_push(old(self).system_history@, system, SYSTEM_HISTORY_LEN as nat),
            final(self).max_battery_power == old(self).max_battery_power,
            final(self).max_input_power == old(self).max_input_power,
            final(self).max_system_power == old(self).max_system_power,
    {
        push_capped(&mut self.battery_history, battery, BATTERY_HISTORY_LEN);
        push_capped(&mut self.input_history, input, INPUT_HISTORY_LEN);
        push_capped(&mut self.system_history, system, SYSTEM_HISTORY_LEN);
    }
}

/// A history that is within its length stays within it, and ends with the
/// newest sample.
pub proof fn lemma_capped_push_bounded(h: Seq<u64>, x: u64, cap: nat)
    requires
        h.len() <= cap,
        cap > 0,
    ensures
        capped_push(h, x, cap).len() <= cap,
        capped_push(h, x, cap).last() == x,
{
}

} // verus!
