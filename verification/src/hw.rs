//! The operations that the driver asks of the LEDC peripheral.
//!
//! The driver decides what to write and in which order; each decision comes
//! out as a sequence of [`HwOp`] values, appended to a queue that the caller
//! hands in and later carries out on the peripheral.  Register reads that a
//! decision does not depend on come out as a [`HwQuery`].

use vstd::prelude::*;

use crate::channel;
use crate::timer;
use crate::LSGlobalClkSource;

verus! {

/// Output driver mode of the pin that a channel drives.
#[derive(Clone, Copy, Debug, PartialEq, Eq, Structural)]
pub enum DriveMode {
    /// Push-pull output.
    PushPull,
    /// Open-drain output.
    OpenDrain,
}

/// One step of work on the LEDC peripheral (or its clock gate).
#[derive(Clone, Copy, Debug, PartialEq, Eq, Structural)]
pub enum HwOp {
    /// Reset the peripheral: its clock was just enabled for the first time.
    ResetPeripheral,
    /// Drop the extra clock-enable reference taken when the clock was
    /// already running.
    DisablePeripheralClock,
    /// Select the global slow clock source of the low-speed timers.
    SetGlobalSlowClock { slow_clock: LSGlobalClkSource },
    /// Program a low-speed timer's divider and duty resolution.
    ConfigureLowSpeedTimer { timer: timer::Number, divisor: u32, duty_bits: u8, use_ref_tick: bool },
    /// Latch the new settings of a low-speed timer.
    UpdateLowSpeedTimer { timer: timer::Number },
    /// Program a high-speed timer's divider, duty resolution and clock.
    ConfigureHighSpeedTimer {
        timer: timer::Number,
        divisor: u32,
        duty_bits: u8,
        clock_source: timer::ClockSource,
    },
    /// Latch the new settings of the high-speed timers.
    UpdateHighSpeedTimers,
    /// Attach a channel to the timer with the given index.
    SetChannelTimer { channel: channel::Number, timer_index: u8, is_hs: bool },
    /// Switch a channel to a constant duty (no fading).
    StartDutyWithoutFading { channel: channel::Number, is_hs: bool },
    /// Write a channel's duty value.
    SetDuty { channel: channel::Number, is_hs: bool, duty: u32 },
    /// Latch a channel's new settings.
    UpdateChannel { channel: channel::Number, is_hs: bool },
    /// Start a hardware duty fade on a channel.
    StartDutyFade {
        channel: channel::Number,
        is_hs: bool,
        start_duty: u32,
        duty_inc: bool,
        duty_steps: u16,
        cycles_per_step: u16,
        duty_per_cycle: u16,
    },
    /// Configure the output `pin` (a GPIO number; `None` for an output that
    /// is not a GPIO pin) with the given drive mode, enable it and route the
    /// channel's output signal to it.
    ConnectOutput { channel: channel::Number, is_hs: bool, pin: Option<u8>, drive_mode: DriveMode },
    /// Route the channel's output signal away from `pin` again.
    DisconnectOutput { channel: channel::Number, is_hs: bool, pin: Option<u8> },
}

/// A register read whose answer the caller obtains from the peripheral.
#[derive(Clone, Copy, Debug, PartialEq, Eq, Structural)]
pub enum HwQuery {
    /// Whether the channel's duty fade has not yet reached its end.
    DutyFadeRunning { channel: channel::Number, is_hs: bool },
}

} // verus!
