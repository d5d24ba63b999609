use vstd::prelude::*;

verus! {

/// Whether the timer raises alarms.
#[derive(Clone, Copy, Debug, PartialEq, Eq, Structural)]
pub enum Alarms {
    Enabled,
    Disabled,
}

/// When the counter starts.
#[derive(Clone, Copy, Debug, PartialEq, Eq, Structural)]
pub enum Counter {
    /// The counter starts when the timer is initialised.
    Enabled,
    /// The counter starts when the timer is started.
    Disabled,
}

/// Timer group.
#[derive(Clone, Copy, Debug, PartialEq, Eq, Structural)]
pub enum Groups {
    Group0,
    Group1,
}

/// Timer within a group.
#[derive(Clone, Copy, Debug, PartialEq, Eq, Structural)]
pub enum Timers {
    Timer0,
    Timer1,
}

/// Counting direction.
#[derive(Clone, Copy, Debug, PartialEq, Eq, Structural)]
pub enum CounterDirection {
    Up,
    Down,
}

/// Whether an alarm resets the counter.
#[derive(Clone, Copy, Debug, PartialEq, Eq, Structural)]
pub enum AutoReload {
    Enabled,
    Disabled,
}

/// Clock that drives the counter.
#[derive(Clone, Copy, Debug, PartialEq, Eq, Structural)]
pub enum ClockSource {
    /// 80 MHz APB clock.
    APB,
    /// External clock (declared, not used).
    XTAL,
}

/// Timer configuration.
#[derive(Clone, Copy, Debug, PartialEq, Eq, Structural)]
pub struct Timer {
    pub alarm_en: Alarms,
    pub counter_en: Counter,
    pub counter_dir: CounterDirection,
    pub auto_reload: AutoReload,
    /// Clock divider, from 2 to 65536.
    pub divider: u64,
    pub clk_src: ClockSource,
}

/// Frequency of the clock that drives the timers, in Hz.
pub const TIMER_FREQUENCY: u64 = 80000000;

/// Smallest and largest clock divider the hardware accepts.
pub const MIN_DIVIDER: u64 = 2;
pub const MAX_DIVIDER: u64 = 65536;

/// A timer configuration as the driver encodes it: each switch as 0 or 1.
#[derive(Clone, Copy, Debug, PartialEq, Eq, Structural)]
pub struct TimerHwConfig {
    pub alarm_en: u32,
    pub counter_en: u32,
    pub counter_dir: u32,
    pub auto_reload: u32,
    pub divider: u32,
    pub clk_src: u32,
}

/// A request to initialise one timer unit.
#[derive(Clone, Copy, Debug, PartialEq, Eq, Structural)]
pub struct TimerInit {
    pub group: u32,
    pub timer: u32,
    pub config: TimerHwConfig,
}

pub open spec fn flag(b: bool) -> u32 {
    if b { 1 } else { 0 }
}

/// Index of a timer group as the driver numbers them.
pub fn set_group(group: Groups) -> (r: u32)
    ensures
        r == flag(group == Groups::Group1),
{
    match group {
        Groups::Group0 => 0,
        Groups::Group1 => 1,
    }
}

/// Index of a timer within its group as the driver numbers them.
pub fn set_timer(timer: Timers) -> (r: u32)
    ensures
        r == flag(timer == Timers::Timer1),
{
    match timer {
        Timers::Timer0 => 0,
        Timers::Timer1 => 1,
    }
}

impl Timer {
    /// The configuration with each setting encoded for the driver.
    pub fn hw_config(&self) -> (r: TimerHwConfig)
        requires
            MIN_DIVIDER <= self.divider <= MAX_DIVIDER,
        ensures
            r == (TimerHwConfig {
                alarm_en: flag(self.alarm_en == Alarms::Enabled),
                counter_en: flag(self.counter_en == Counter::Enabled),
                counter_dir: flag(self.counter_dir == CounterDirection::Up),
                auto_reload: flag(self.auto_reload == AutoReload::Enabled),
                divider: self.divider as u32,
                clk_src: flag(self.clk_src == ClockSource::XTAL),
            }),
            r.divider as u64 == self.divider,
    {
        TimerHwConfig {
            alarm_en: match self.alarm_en {
                Alarms::Enabled => 1,
                Alarms::Disabled => 0,
            },
            counter_en: match self.counter_en {
                Counter::Enabled => 1,
                Counter::Disabled => 0,
            },
            counter_dir: match self.counter_dir {
                CounterDirection::Up => 1,
                CounterDirection::Down => 0,
            },
            auto_reload: match self.auto_reload {
                AutoReload::Enabled => 1,
                AutoReload::Disabled => 0,
            },
            divider: self.divider as u32,
            clk_src: match self.clk_src {
                ClockSource::APB => 0,
                ClockSource::XTAL => 1,
            },
        }
    }

    /// The request that initialises timer `timer` of group `group` with `config`.
    pub fn init(group: Groups, timer: Timers, config: Self) -> (r: TimerInit)
        requires
            MIN_DIVIDER <= config.divider <= MAX_DIVIDER,
        ensures
            r.group == flag(group == Groups::Group1),
            r.timer == flag(timer == Timers::Timer1),
            r.config == (TimerHwConfig {
                alarm_en: flag(config.alarm_en == Alarms::Enabled),
                counter_en: flag(config.counter_en == Counter::Enabled),
                counter_dir: flag(config.counter_dir == CounterDirection::Up),
                auto_reload: flag(config.auto_reload == AutoReload::Enabled),
                divider: config.divider as u32,
                clk_src: flag(config.clk_src == ClockSource::XTAL),
            }),
    {
        TimerInit { group: set_group(group), timer: set_timer(timer), config: config.hw_config() }
    }

    /// Whether a non-blocking receive on the notification queue took a
    /// notification: the queue reports one taken with the value 1.
    pub fn has_triggered(receive_result: i32) -> (r: bool)
        ensures
            r == (receive_result == 1),
    {
        match receive_result {
            1 => true,
            _ => false,
        }
    }
}

} // verus!
