//! Decisions of the local sampler: which reading the status bar shows, the
//! messages the sampler takes, and the shortest sampling interval.
use vstd::prelude::*;

verus! {

/// The reading the status bar shows when the Mac is not charging.
#[derive(Debug, Clone, Copy, PartialEq, Eq)]
pub enum StatusBarItem {
    System,
    Screen,
    Heatpipe,
}

/// A message to the local sampler.
#[derive(Debug)]
pub enum SenderMessage {
    /// Sample now.
    ImmediateSend,
    /// Sample at this interval from now on.
    ChangeInterval(std::time::Duration),
    /// Show this reading in the status bar.
    ChangeStatusBarItem(StatusBarItem),
    /// Whether the status bar shows the charging power while charging.
    StatusBarShowCharging(bool),
}

/// The sensor reading the status bar text is made from.
#[derive(Debug, Clone, Copy, PartialEq, Eq)]
pub enum StatusBarSource {
    /// The power delivered by the adapter.
    DeliveryRate,
    /// The whole system's power.
    SystemTotal,
    /// The screen's power.
    Brightness,
    /// The heat pipe's power.
    Heatpipe,
}

/// The reading the status bar shows: the delivered power while charging
/// when that is asked for, else the chosen item's reading.
pub open spec fn status_bar_source_of(is_charging: bool, item: StatusBarItem, show_charging: bool) -> StatusBarSource {
    if is_charging && show_charging {
        StatusBarSource::DeliveryRate
    } else {
        match item {
            StatusBarItem::System => StatusBarSource::SystemTotal,
            StatusBarItem::Screen => StatusBarSource::Brightness,
            StatusBarItem::Heatpipe => StatusBarSource::Heatpipe,
        }
    }
}

/// Picks the reading the status bar shows.
pub fn status_bar_source(is_charging: bool, status_bar_item: &StatusBarItem, show_charging: bool) -> (r: StatusBarSource)
    ensures
        r == status_bar_source_of(is_charging, *status_bar_item, show_charging),
{
    if is_charging && show_charging {
        return StatusBarSource::DeliveryRate;
    }
    match status_bar_item {
        StatusBarItem::System => StatusBarSource::SystemTotal,
        StatusBarItem::Screen => StatusBarSource::Brightness,
        StatusBarItem::Heatpipe => StatusBarSource::Heatpipe,
    }
}

/// The sampling interval when no preference gives one, in milliseconds.
pub const DEFAULT_SAMPLE_INTERVAL_MILLIS: u64 = 2000;

/// Whether the status bar shows the charging power while charging, when no
/// preference says otherwise.
pub const DEFAULT_SHOW_CHARGING: bool = true;

/// The shortest sampling interval, in nanoseconds (half a second).
pub const MIN_SAMPLE_INTERVAL_NANOS: u128 = 500_000_000;

/// The reading the status bar shows when no preference names one.
pub open spec fn default_status_bar_item() -> StatusBarItem {
    StatusBarItem::System
}

impl Default for StatusBarItem {
    /// The whole system's power.
    fn default() -> (r: StatusBarItem)
        ensures
            r == default_status_bar_item(),
    {
        StatusBarItem::System
    }
}

/// A sampling interval: whole seconds and the nanoseconds beyond them.
#[derive(Debug, Clone, Copy, PartialEq, Eq)]
pub struct SampleInterval {
    pub secs: u64,
    pub subsec_nanos: u32,
}

impl SampleInterval {
    /// The interval in nanoseconds.
    pub open spec fn nanos(self) -> int {
        self.secs * 1_000_000_000 + self.subsec_nanos
    }

    /// The shortest sampling interval, half a second.
    pub open spec fn shortest() -> SampleInterval {
        SampleInterval { secs: 0, subsec_nanos: 500_000_000 }
    }

    /// The shortest sampling interval, half a second.
    pub fn half_second() -> (r: SampleInterval)
        ensures
            r == SampleInterval::shortest(),
            r.nanos() == MIN_SAMPLE_INTERVAL_NANOS,
    {
        SampleInterval { secs: 0, subsec_nanos: 500_000_000 }
    }
}

/// Whether a requested sampling interval is shorter than the sampler
/// allows; such a request samples every half second instead.
pub fn interval_too_small(interval: SampleInterval) -> (r: bool)
    ensures
        r == (interval.nanos() < MIN_SAMPLE_INTERVAL_NANOS),
{
    interval.secs == 0 && interval.subsec_nanos < 500_000_000
}

/// The sampling interval in milliseconds: the stored preference, else
/// [`DEFAULT_SAMPLE_INTERVAL_MILLIS`].
pub fn sample_interval_millis(preference: Option<u64>) -> (r: u64)
    ensures
        r == match preference {
            Some(v) => v,
            None => DEFAULT_SAMPLE_INTERVAL_MILLIS,
        },
{
    match preference {
        Some(v) => v,
        None => DEFAULT_SAMPLE_INTERVAL_MILLIS,
    }
}

/// What the local sampler keeps between messages.
#[derive(Debug, Clone, Copy, PartialEq, Eq)]
pub struct SamplerState {
    /// The reading the status bar shows when the Mac is not charging.
    pub status_bar_item: StatusBarItem,
    /// Whether the status bar shows the charging power while charging.
    pub show_charging: bool,
}

impl SamplerState {
    /// The sampler's state from the stored preferences, with
    /// [`StatusBarItem::System`] and [`DEFAULT_SHOW_CHARGING`] where none is
    /// stored.
    pub fn from_preferences(status_bar_item: Option<StatusBarItem>, show_charging: Option<bool>) -> (r: SamplerState)
        ensures
            r.status_bar_item == match status_bar_item {
                Some(item) => item,
                None => default_status_bar_item(),
            },
            r.show_charging == match show_charging {
                Some(show) => show,
                None => DEFAULT_SHOW_CHARGING,
            },
    {
        let item = match status_bar_item {
            Some(item) => item,
            None => StatusBarItem::default(),
        };
        let show = match show_charging {
            Some(show) => show,
            None => DEFAULT_SHOW_CHARGING,
        };
        SamplerState { status_bar_item: item, show_charging: show }
    }
}

/// What the local sampler is woken by: its timer, or a message.
#[derive(Debug, Clone, Copy, PartialEq, Eq)]
pub enum SamplerEvent {
    /// The sampling timer fired.
    Tick,
    /// Sample now.
    ImmediateSend,
    /// Sample at this interval from now on.
    ChangeInterval(SampleInterval),
    /// Show this reading in the status bar.
    ChangeStatusBarItem(StatusBarItem),
    /// Whether the status bar shows the charging power while charging.
    StatusBarShowCharging(bool),
}

/// What the local sampler does next.
#[derive(Debug, Clone, Copy, PartialEq, Eq)]
pub enum SamplerAction {
    /// Read the sensors and send the reading as a power tick, with the
    /// status bar text.
    SampleAndReport,
    /// Restart the sampling timer with this interval.
    RestartTimer(SampleInterval),
    /// Read the sensors and send only the status bar text.
    ReportStatusBar,
}

/// The sampler's next state and action after `event`.
pub open spec fn sampler_next(state: SamplerState, event: SamplerEvent) -> (SamplerState, SamplerAction) {
    match event {
        SamplerEvent::Tick => (state, SamplerAction::SampleAndReport),
        SamplerEvent::ImmediateSend => (state, SamplerAction::SampleAndReport),
        SamplerEvent::ChangeInterval(interval) => (
            state,
            SamplerAction::RestartTimer(
                if interval.nanos() < MIN_SAMPLE_INTERVAL_NANOS { SampleInterval::shortest() } else { interval },
            ),
        ),
        SamplerEvent::ChangeStatusBarItem(item) => (
            SamplerState { status_bar_item: item, ..state },
            SamplerAction::ReportStatusBar,
        ),
        SamplerEvent::StatusBarShowCharging(show) => (
            SamplerState { show_charging: show, ..state },
            SamplerAction::ReportStatusBar,
        ),
    }
}

/// One step of the local sampler: a timer tick or a request to sample now
/// samples and reports; a new interval restarts the timer, with no less
/// than half a second; a new status bar item or charging switch is kept and
/// the status bar is updated at once.
pub fn sampler_step(state: SamplerState, event: SamplerEvent) -> (r: (SamplerState, SamplerAction))
    ensures
        r == sampler_next(state, event),
{
    match event {
        SamplerEvent::Tick => (state, SamplerAction::SampleAndReport),
        SamplerEvent::ImmediateSend => (state, SamplerAction::SampleAndReport),
        SamplerEvent::ChangeInterval(interval) => {
            let next = if interval_too_small(interval) { SampleInterval::half_second() } else { interval };
            (state, SamplerAction::RestartTimer(next))
        },
        SamplerEvent::ChangeStatusBarItem(item) => (
            SamplerState { status_bar_item: item, show_charging: state.show_charging },
            SamplerAction::ReportStatusBar,
        ),
        SamplerEvent::StatusBarShowCharging(show) => (
            SamplerState { status_bar_item: state.status_bar_item, show_charging: show },
            SamplerAction::ReportStatusBar,
        ),
    }
}

} // verus!
