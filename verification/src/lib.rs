//! # LED Controller (LEDC)
//!
//! A driver for the LEDC PWM peripheral of the ESP32: four low-speed and four
//! high-speed timers, eight low-speed and eight high-speed channels, duty
//! resolutions of 1 to 20 bits, and low-speed timers that fall back to the
//! 1 MHz REF_TICK clock when the source clock is too fast for the requested
//! frequency.  Output is fixed-frequency; interrupts are not used.
//!
//! Every operation appends the register work it decides on to a queue of
//! [`hw::HwOp`] values, which the caller carries out on the peripheral.

use vstd::prelude::*;

pub mod hw;
pub mod rate;
pub mod timer;
pub mod channel;

verus! {

/// Global slow clock source
#[derive(PartialEq, Eq, Copy, Clone, Debug, Structural)]
pub enum LSGlobalClkSource {
    /// APB clock.
    APBClk,
}

/// Used to specify HighSpeed Timer/Channel
#[derive(Clone, Copy, Debug)]
pub struct HighSpeed {}

/// Used to specify LowSpeed Timer/Channel
#[derive(Clone, Copy, Debug)]
pub struct LowSpeed {}

/// Trait representing the speed mode of a clock or peripheral.
pub trait Speed {
    /// Boolean constant indicating whether the speed is high-speed.
    const IS_HS: bool;
}

impl Speed for HighSpeed {
    const IS_HS: bool = true;
}

impl Speed for LowSpeed {
    const IS_HS: bool = false;
}

} // verus!

verus! {

/// LEDC (LED PWM Controller)
pub struct Ledc {
    /// Low Speed Timer 0
    pub timer0: timer::Timer<LowSpeed>,
    /// Low Speed Timer 1
    pub timer1: timer::Timer<LowSpeed>,
    /// Low Speed Timer 2
    pub timer2: timer::Timer<LowSpeed>,
    /// Low Speed Timer 3
    pub timer3: timer::Timer<LowSpeed>,
    /// High Speed Timer 0
    pub hs_timer0: timer::Timer<HighSpeed>,
    /// High Speed Timer 1
    pub hs_timer1: timer::Timer<HighSpeed>,
    /// High Speed Timer 2
    pub hs_timer2: timer::Timer<HighSpeed>,
    /// High Speed Timer 3
    pub hs_timer3: timer::Timer<HighSpeed>,
    /// Low Speed Channel 0
    pub channel0: channel::Channel<LowSpeed>,
    /// Low Speed Channel 1
    pub channel1: channel::Channel<LowSpeed>,
    /// Low Speed Channel 2
    pub channel2: channel::Channel<LowSpeed>,
    /// Low Speed Channel 3
    pub channel3: channel::Channel<LowSpeed>,
    /// Low Speed Channel 4
    pub channel4: channel::Channel<LowSpeed>,
    /// Low Speed Channel 5
    pub channel5: channel::Channel<LowSpeed>,
    /// Low Speed Channel 6
    pub channel6: channel::Channel<LowSpeed>,
    /// Low Speed Channel 7
    pub channel7: channel::Channel<LowSpeed>,
    /// High Speed Channel 0
    pub hs_channel0: channel::Channel<HighSpeed>,
    /// High Speed Channel 1
    pub hs_channel1: channel::Channel<HighSpeed>,
    /// High Speed Channel 2
    pub hs_channel2: channel::Channel<HighSpeed>,
    /// High Speed Channel 3
    pub hs_channel3: channel::Channel<HighSpeed>,
    /// High Speed Channel 4
    pub hs_channel4: channel::Channel<HighSpeed>,
    /// High Speed Channel 5
    pub hs_channel5: channel::Channel<HighSpeed>,
    /// High Speed Channel 6
    pub hs_channel6: channel::Channel<HighSpeed>,
    /// High Speed Channel 7
    pub hs_channel7: channel::Channel<HighSpeed>,
}

impl Ledc {
    /// Every timer and channel of the driver is numbered by its position.
    pub open spec fn numbered(&self) -> bool {
        &&& self.timer0.timer_number() == timer::Number::Timer0
        &&& self.timer1.timer_number() == timer::Number::Timer1
        &&& self.timer2.timer_number() == timer::Number::Timer2
        &&& self.timer3.timer_number() == timer::Number::Timer3
        &&& self.hs_timer0.timer_number() == timer::Number::Timer0
        &&& self.hs_timer1.timer_number() == timer::Number::Timer1
        &&& self.hs_timer2.timer_number() == timer::Number::Timer2
        &&& self.hs_timer3.timer_number() == timer::Number::Timer3
        &&& self.channel0.channel_number() == channel::Number::Channel0
        &&& self.channel1.channel_number() == channel::Number::Channel1
        &&& self.channel2.channel_number() == channel::Number::Channel2
        &&& self.channel3.channel_number() == channel::Number::Channel3
        &&& self.channel4.channel_number() == channel::Number::Channel4
        &&& self.channel5.channel_number() == channel::Number::Channel5
        &&& self.channel6.channel_number() == channel::Number::Channel6
        &&& self.channel7.channel_number() == channel::Number::Channel7
        &&& self.hs_channel0.channel_number() == channel::Number::Channel0
        &&& self.hs_channel1.channel_number() == channel::Number::Channel1
        &&& self.hs_channel2.channel_number() == channel::Number::Channel2
        &&& self.hs_channel3.channel_number() == channel::Number::Channel3
        &&& self.hs_channel4.channel_number() == channel::Number::Channel4
        &&& self.hs_channel5.channel_number() == channel::Number::Channel5
        &&& self.hs_channel6.channel_number() == channel::Number::Channel6
        &&& self.hs_channel7.channel_number() == channel::Number::Channel7
    }

    /// Return a new LEDC
    ///
    /// `clock_newly_enabled` is what enabling the peripheral's clock
    /// answered: `true` when this enable switched the clock on.  A newly
    /// clocked peripheral is reset; otherwise the extra enable is dropped
    /// again, since the driver is never dropped.  Then the global slow
    /// clock is selected.
    pub fn new(
        clock_source: LSGlobalClkSource,
        clock_newly_enabled: bool,
        ops: &mut Vec<hw::HwOp>,
    ) -> (r: Self)
        ensures
            r.numbered(),
            final(ops)@ == old(ops)@ + seq![
                if clock_newly_enabled {
                    hw::HwOp::ResetPeripheral
                } else {
                    hw::HwOp::DisablePeripheralClock
                },
                hw::HwOp::SetGlobalSlowClock { slow_clock: clock_source },
            ],
    {
        if clock_newly_enabled {
            ops.push(hw::HwOp::ResetPeripheral);
        } else {
            // The clock was already running: drop the extra reference, as
            // the driver is never dropped.
            ops.push(hw::HwOp::DisablePeripheralClock);
        }
        ops.push(hw::HwOp::SetGlobalSlowClock { slow_clock: clock_source });

        Ledc {
            timer0: timer::Timer::new(timer::Number::Timer0),
            timer1: timer::Timer::new(timer::Number::Timer1),
            timer2: timer::Timer::new(timer::Number::Timer2),
            timer3: timer::Timer::new(timer::Number::Timer3),
            hs_timer0: timer::Timer::new(timer::Number::Timer0),
            hs_timer1: timer::Timer::new(timer::Number::Timer1),
            hs_timer2: timer::Timer::new(timer::Number::Timer2),
            hs_timer3: timer::Timer::new(timer::Number::Timer3),
            channel0: channel::Channel::new(channel::Number::Channel0),
            channel1: channel::Channel::new(channel::Number::Channel1),
            channel2: channel::Channel::new(channel::Number::Channel2),
            channel3: channel::Channel::new(channel::Number::Channel3),
            channel4: channel::Channel::new(channel::Number::Channel4),
            channel5: channel::Channel::new(channel::Number::Channel5),
            channel6: channel::Channel::new(channel::Number::Channel6),
            channel7: channel::Channel::new(channel::Number::Channel7),
            hs_channel0: channel::Channel::new(channel::Number::Channel0),
            hs_channel1: channel::Channel::new(channel::Number::Channel1),
            hs_channel2: channel::Channel::new(channel::Number::Channel2),
            hs_channel3: channel::Channel::new(channel::Number::Channel3),
            hs_channel4: channel::Channel::new(channel::Number::Channel4),
            hs_channel5: channel::Channel::new(channel::Number::Channel5),
            hs_channel6: channel::Channel::new(channel::Number::Channel6),
            hs_channel7: channel::Channel::new(channel::Number::Channel7),
        }
    }

    /// Set global slow clock source
    pub fn set_global_slow_clock(&mut self, clock_source: LSGlobalClkSource, ops: &mut Vec<hw::HwOp>)
        ensures
            *final(self) == *old(self),
            final(ops)@ == old(ops)@ + seq![hw::HwOp::SetGlobalSlowClock { slow_clock: clock_source }],
    {
        ops.push(hw::HwOp::SetGlobalSlowClock { slow_clock: clock_source });
    }
}

} // verus!
