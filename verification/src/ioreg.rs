//! The battery record of the `AppleSmartBattery` registry entry, and the
//! decisions taken while reading it.
use vstd::prelude::*;

use crate::provider::{copy_optional_text, NormalizedData, NormalizedResource};
use crate::text::{push_signed_dec, signed_dec_text};

verus! {

/// The power adapter as the registry describes it.
#[derive(Debug, Clone, Default)]
pub struct AdapterDetails {
    pub adapter_voltage: Option<i32>,
    pub is_wireless: Option<bool>,
    pub watts: Option<i32>,
    pub name: Option<String>,
    pub current: Option<i32>,
    pub description: Option<String>,
}

/// The power telemetry of the registry entry.
#[derive(Debug, Clone, Copy, Default)]
pub struct PowerTelemetryData {
    pub adapter_efficiency_loss: i32,
    pub battery_power: i64,
    pub system_current_in: i32,
    pub system_energy_consumed: i64,
    pub system_load: i64,
    pub system_power_in: i32,
    pub system_voltage_in: i32,
}

/// The `AppleSmartBattery` registry entry. Every scalar is optional: Macs
/// differ in the keys they report.
#[derive(Debug, Clone, Default)]
pub struct IORegistry {
    pub adapter_details: AdapterDetails,
    pub power_telemetry_data: Option<PowerTelemetryData>,
    pub absolute_capacity: Option<i32>,
    pub amperage: Option<i32>,
    pub voltage: Option<i32>,
    pub apple_raw_battery_voltage: Option<i32>,
    pub apple_raw_current_capacity: Option<i32>,
    pub apple_raw_max_capacity: Option<i32>,
    pub current_capacity: Option<i32>,
    pub cycle_count: Option<i32>,
    pub design_capacity: Option<i32>,
    pub fully_charged: Option<bool>,
    pub instant_amperage: Option<i32>,
    pub is_charging: Option<bool>,
    pub max_capacity: Option<i32>,
    pub temperature: Option<i32>,
    pub time_remaining: Option<i32>,
    pub update_time: Option<i64>,
}

impl IORegistry {
    /// The power telemetry, when the entry reports it.
    pub fn ptd(&self) -> (r: Option<&PowerTelemetryData>)
        ensures
            r == (match self.power_telemetry_data {
                Some(d) => Some(&d),
                None => None,
            }),
    {
        self.power_telemetry_data.as_ref()
    }
}

/// Why the registry entry could not be read.
#[derive(Debug, Clone, PartialEq, Eq)]
pub enum IoregError {
    /// No `AppleSmartBattery` service exists.
    ServiceNotFound,
    /// Reading the properties returned this status.
    PropertiesFailed(i32),
    /// The properties came back empty.
    NoProperties,
    /// The properties did not describe a battery record.
    Parse(String),
}

/// The status IOKit reports for success (`kIOReturnSuccess`).
pub const IO_RETURN_SUCCESS: i32 = 0;

/// What an [`IoregError`] says.
pub open spec fn ioreg_error_text(e: IoregError) -> Seq<char> {
    match e {
        IoregError::ServiceNotFound => "AppleSmartBattery service not found"@,
        IoregError::PropertiesFailed(status) => "could not get AppleSmartBattery properties (status="@
            + signed_dec_text(status as int) + ")"@,
        IoregError::NoProperties => "AppleSmartBattery returned no properties"@,
        IoregError::Parse(m) => m@,
    }
}

impl IoregError {
    /// What the error says.
    pub fn message(&self) -> (r: String)
        ensures
            r@ == ioreg_error_text(*self),
    {
        match self {
            IoregError::ServiceNotFound => {
                proof {
                    reveal_strlit("AppleSmartBattery service not found");
                }
                String::from_str("AppleSmartBattery service not found")
            },
            IoregError::PropertiesFailed(status) => {
                let mut s = String::from_str("could not get AppleSmartBattery properties (status=");
                push_signed_dec(&mut s, *status as i64);
                s.append(")");
                s
            },
            IoregError::NoProperties => {
                proof {
                    reveal_strlit("AppleSmartBattery returned no properties");
                }
                String::from_str("AppleSmartBattery returned no properties")
            },
            IoregError::Parse(m) => m.clone(),
        }
    }
}

/// Judges the steps of reading the registry entry: the matching service
/// (zero when none), the status of reading its properties, and whether any
/// properties came back.
pub fn get_mac_ioreg_dict(service: u32, status: i32, has_properties: bool) -> (r: Result<(), IoregError>)
    ensures
        service == 0 ==> r == Err::<(), IoregError>(IoregError::ServiceNotFound),
        service != 0 && status != IO_RETURN_SUCCESS ==> r == Err::<(), IoregError>(IoregError::PropertiesFailed(status)),
        service != 0 && status == IO_RETURN_SUCCESS && !has_properties ==> r == Err::<(), IoregError>(IoregError::NoProperties),
        service != 0 && status == IO_RETURN_SUCCESS && has_properties ==> r is Ok,
{
    if service == 0 {
        return Err(IoregError::ServiceNotFound);
    }
    if status != IO_RETURN_SUCCESS {
        return Err(IoregError::PropertiesFailed(status));
    }
    if !has_properties {
        return Err(IoregError::NoProperties);
    }
    Ok(())
}

/// The battery record, given how reading the entry went and, when it went
/// well, the record parsed from its properties.
pub fn get_mac_ioreg(lookup: Result<(), IoregError>, parsed: Result<IORegistry, String>) -> (r: Result<IORegistry, IoregError>)
    ensures
        lookup matches Err(e) ==> r == Err::<IORegistry, IoregError>(e),
        lookup is Ok ==> r == (match parsed {
            Ok(io) => Ok::<IORegistry, IoregError>(io),
            Err(m) => Err(IoregError::Parse(m)),
        }),
{
    match lookup {
        Err(e) => Err(e),
        Ok(()) => match parsed {
            Ok(io) => Ok(io),
            Err(m) => Err(IoregError::Parse(m)),
        },
    }
}

/// The adapter's name, or its description when it has no name.
pub open spec fn adapter_name_of(io: IORegistry) -> Option<String> {
    match io.adapter_details.name {
        Some(n) => Some(n),
        None => io.adapter_details.description,
    }
}

/// The value of an optional reading, zero when absent.
pub open spec fn or_zero(v: Option<i32>) -> i32 {
    match v {
        Some(x) => x,
        None => 0,
    }
}

/// The adapter's name, or its description when it has no name.
pub fn adapter_name(io: &IORegistry) -> (r: Option<String>)
    ensures
        r == adapter_name_of(*io),
{
    match &io.adapter_details.name {
        Some(n) => Some(n.clone()),
        None => copy_optional_text(&io.adapter_details.description),
    }
}

/// Whether `r` carries the battery fields of `io`: adapter name, cycle
/// count, raw capacities, design capacity, sensor time and charge level.
pub open spec fn carries_battery_fields(r: NormalizedResource, io: IORegistry) -> bool {
    &&& r.last_update == (match io.update_time {
        Some(t) => t,
        None => 0,
    })
    &&& r.adapter_name == adapter_name_of(io)
    &&& r.cycle_count == or_zero(io.cycle_count)
    &&& r.max_capacity == or_zero(io.apple_raw_max_capacity)
    &&& r.design_capacity == or_zero(io.design_capacity)
    &&& r.current_capacity == or_zero(io.apple_raw_current_capacity)
    &&& r.data.battery_level == or_zero(io.current_capacity)
}

/// `readings` with the charge level of `io`.
pub open spec fn with_battery_level(readings: NormalizedData, io: IORegistry) -> NormalizedData {
    NormalizedData { battery_level: or_zero(io.current_capacity), ..readings }
}

impl NormalizedResource {
    /// The sample of a remote device built from its registry entry; the
    /// remaining time and the readings are worked out by the caller.
    pub fn from_ioreg(io: &IORegistry, time_remain: std::time::Duration, readings: NormalizedData) -> (r: NormalizedResource)
        ensures
            carries_battery_fields(r, *io),
            !r.is_local,
            r.is_charging == (match io.is_charging {
                Some(b) => b,
                None => false,
            }),
            r.time_remain == time_remain,
            !r.brightness_power_available,
            !r.heatpipe_power_available,
            r.data == with_battery_level(readings, *io),
    {
        let mut data = readings;
        data.battery_level = match io.current_capacity {
            Some(v) => v,
            None => 0,
        };
        NormalizedResource {
            is_local: false,
            is_charging: match io.is_charging {
                Some(b) => b,
                None => false,
            },
            time_remain,
            last_update: match io.update_time {
                Some(t) => t,
                None => 0,
            },
            adapter_name: adapter_name(io),
            cycle_count: match io.cycle_count {
                Some(v) => v,
                None => 0,
            },
            max_capacity: match io.apple_raw_max_capacity {
                Some(v) => v,
                None => 0,
            },
            design_capacity: match io.design_capacity {
                Some(v) => v,
                None => 0,
            },
            current_capacity: match io.apple_raw_current_capacity {
                Some(v) => v,
                None => 0,
            },
            brightness_power_available: false,
            heatpipe_power_available: false,
            data,
        }
    }

    /// The sample of this Mac built from its registry entry and its sensor
    /// state (charging, and whether the screen and heat-pipe sensors exist);
    /// the remaining time and the readings are worked out by the caller.
    pub fn from_ioreg_and_sensors(
        io: &IORegistry,
        is_charging: bool,
        brightness_available: bool,
        heatpipe_available: bool,
        time_remain: std::time::Duration,
        readings: NormalizedData,
    ) -> (r: NormalizedResource)
        ensures
            carries_battery_fields(r, *io),
            r.is_local,
            r.is_charging == is_charging,
            r.time_remain == time_remain,
            r.brightness_power_available == brightness_available,
            r.heatpipe_power_available == heatpipe_available,
            r.data == with_battery_level(readings, *io),
    {
        let mut r = NormalizedResource::from_ioreg(io, time_remain, readings);
        r.is_local = true;
        r.is_charging = is_charging;
        r.brightness_power_available = brightness_available;
        r.heatpipe_power_available = heatpipe_available;
        r
    }

    /// The sample of this Mac when only the sensors could be read: no
    /// registry fields, the sensors' charging state and availability.
    pub fn from_sensors_only(
        is_charging: bool,
        brightness_available: bool,
        heatpipe_available: bool,
        time_remain: std::time::Duration,
        readings: NormalizedData,
    ) -> (r: NormalizedResource)
        ensures
            r.is_local,
            r.is_charging == is_charging,
            r.time_remain == time_remain,
            r.last_update == 0,
            r.adapter_name is None,
            r.cycle_count == 0,
            r.current_capacity == 0,
            r.max_capacity == 0,
            r.design_capacity == 0,
            r.brightness_power_available == brightness_available,
            r.heatpipe_power_available == heatpipe_available,
            r.data == readings,
    {
        NormalizedResource {
            is_local: true,
            is_charging,
            time_remain,
            last_update: 0,
            adapter_name: None,
            cycle_count: 0,
            current_capacity: 0,
            max_capacity: 0,
            design_capacity: 0,
            brightness_power_available: brightness_available,
            heatpipe_power_available: heatpipe_available,
            data: readings,
        }
    }
}

} // verus!
