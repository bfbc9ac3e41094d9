//! # LEDC channel
//!
//! A channel produces a PWM waveform from the timer it is attached to.  Its
//! duty value counts timer ticks per period, out of `2^bits` for a timer
//! with a `bits`-bit resolution.  Besides setting a constant duty, a channel
//! can fade from one duty value to another in hardware; the fade is split
//! into at most 65535 steps whose length (in PWM periods) must fit the
//! hardware's 10-bit step counter.

use vstd::arithmetic::power2::pow2;
use vstd::prelude::*;

use crate::hw::{DriveMode, HwOp, HwQuery};
use crate::timer::{Configured as ConfiguredTimer, Duty, Timer, TimerSpeed};

verus! {

/// Fade parameter sub-errors
#[derive(Debug, Clone, Copy, PartialEq, Eq, Structural)]
pub enum FadeError {
    /// Duty change from start to end is out of range
    DutyRange,
    /// Duration too long for timer frequency and duty resolution
    Duration,
}

/// Channel errors
#[derive(Debug, Clone, Copy, PartialEq, Eq, Structural)]
pub enum Error {
    /// Invalid duty value
    Duty,
    /// Fade parameters invalid
    Fade(FadeError),
}

/// Channel number
#[derive(PartialEq, Eq, Copy, Clone, Debug, Structural)]
pub enum Number {
    /// Channel 0
    Channel0,
    /// Channel 1
    Channel1,
    /// Channel 2
    Channel2,
    /// Channel 3
    Channel3,
    /// Channel 4
    Channel4,
    /// Channel 5
    Channel5,
    /// Channel 6
    Channel6,
    /// Channel 7
    Channel7,
}

impl Number {
    /// The channel's index, 0 to 7.
    pub open spec fn spec_index(self) -> u8 {
        match self {
            Number::Channel0 => 0,
            Number::Channel1 => 1,
            Number::Channel2 => 2,
            Number::Channel3 => 3,
            Number::Channel4 => 4,
            Number::Channel5 => 5,
            Number::Channel6 => 6,
            Number::Channel7 => 7,
        }
    }

    /// The channel's index, 0 to 7.
    #[verifier::when_used_as_spec(spec_index)]
    pub fn index(self) -> (r: u8)
        ensures
            r == self.spec_index(),
    {
        match self {
            Number::Channel0 => 0,
            Number::Channel1 => 1,
            Number::Channel2 => 2,
            Number::Channel3 => 3,
            Number::Channel4 => 4,
            Number::Channel5 => 5,
            Number::Channel6 => 6,
            Number::Channel7 => 7,
        }
    }
}

/// Each channel's index is the number in its name.
pub proof fn lemma_channel_index_is_its_number()
    ensures
        Number::Channel0.spec_index() == 0,
        Number::Channel1.spec_index() == 1,
        Number::Channel2.spec_index() == 2,
        Number::Channel3.spec_index() == 3,
        Number::Channel4.spec_index() == 4,
        Number::Channel5.spec_index() == 5,
        Number::Channel6.spec_index() == 6,
        Number::Channel7.spec_index() == 7,
{
}

/// Channel configuration
#[derive(Copy, Clone, Debug)]
pub struct Config<'t, S: TimerSpeed> {
    /// A reference to the timer associated with this channel.
    pub timer: &'t Timer<S, ConfiguredTimer>,
    /// The duty cycle.
    pub duty: u32,
    /// The pin configuration (PushPull or OpenDrain).
    pub pin_config: DriveMode,
}

impl<'t, S: TimerSpeed> Config<'t, S> {
    /// This configuration with the timer replaced.
    pub fn with_timer(self, timer: &'t Timer<S, ConfiguredTimer>) -> (r: Self)
        ensures
            r.timer == timer,
            r.duty == self.duty,
            r.pin_config == self.pin_config,
    {
        Config { timer, duty: self.duty, pin_config: self.pin_config }
    }

    /// This configuration with the initial duty replaced.
    pub fn with_duty(self, duty: u32) -> (r: Self)
        ensures
            r.timer == self.timer,
            r.duty == duty,
            r.pin_config == self.pin_config,
    {
        Config { timer: self.timer, duty, pin_config: self.pin_config }
    }

    /// This configuration with the pin drive mode replaced.
    pub fn with_pin_config(self, pin_config: DriveMode) -> (r: Self)
        ensures
            r.timer == self.timer,
            r.duty == self.duty,
            r.pin_config == pin_config,
    {
        Config { timer: self.timer, duty: self.duty, pin_config }
    }
}

/// Typestate indicating an unconfigured channel.
#[derive(Clone, Copy, Debug)]
pub struct Unconfigured;

/// Typestate indicating a configured channel.
pub struct Configured {
    timer_duty: Duty,
    timer_frequency: u32,
    pin: Option<u8>,
}

/// Channel struct
pub struct Channel<S: TimerSpeed, State = Unconfigured> {
    _phantom: core::marker::PhantomData<S>,
    number: Number,
    state: State,
}

/// `a` limited to at most `hi`.
pub open spec fn clamp(a: nat, hi: nat) -> nat {
    if a < hi {
        a
    } else {
        hi
    }
}

/// The distance between `a` and `b`.
pub open spec fn abs_diff(a: nat, b: nat) -> nat {
    if a < b {
        (b - a) as nat
    } else {
        (a - b) as nat
    }
}

/// The number of timer ticks in a PWM period at a `bits`-bit resolution; a
/// duty of this value keeps the output on for the whole period.
pub open spec fn duty_range(bits: nat) -> nat {
    pow2(bits)
}

/// The largest duty value below a full period.
pub open spec fn max_duty(bits: nat) -> nat {
    (pow2(bits) - 1) as nat
}

/// The duty value for `pct` percent (capped at 100) at a `bits`-bit
/// resolution, rounded down.
pub open spec fn duty_for_percent(bits: nat, pct: nat) -> nat {
    (max_duty(bits) * clamp(pct, 100)) / 100
}

/// The register work that sets a constant duty on a channel.
pub open spec fn duty_ops(channel: Number, is_hs: bool, duty: u32) -> Seq<HwOp> {
    seq![
        HwOp::SetDuty { channel, is_hs, duty },
        HwOp::StartDutyWithoutFading { channel, is_hs },
        HwOp::UpdateChannel { channel, is_hs },
    ]
}

/// The register work that attaches a channel to timer `timer`, starts it at
/// a constant `duty` and routes its output to `pin`, driven as `drive_mode`.
pub open spec fn configure_ops(
    channel: Number,
    is_hs: bool,
    timer: u8,
    duty: u32,
    pin: Option<u8>,
    drive_mode: DriveMode,
) -> Seq<HwOp> {
    seq![
        HwOp::SetChannelTimer { channel, timer_index: timer, is_hs },
        HwOp::StartDutyWithoutFading { channel, is_hs },
        HwOp::SetDuty { channel, is_hs, duty },
        HwOp::UpdateChannel { channel, is_hs },
        HwOp::ConnectOutput { channel, is_hs, pin, drive_mode },
    ]
}

/// The PWM periods that elapse in `duration_ms` milliseconds at `freq_hz`.
pub open spec fn pwm_cycles(freq_hz: nat, duration_ms: nat) -> nat {
    (duration_ms * freq_hz) / 1000
}

/// The step count that decides whether a fade over `diff` duty values is
/// accepted: one step per duty value, at most 65535.
pub open spec fn base_steps(diff: nat) -> nat {
    if diff <= 65535 {
        diff
    } else {
        65535
    }
}

/// For a change beyond 65535 duty values, the smallest change per step that
/// keeps within 65535 steps.
pub open spec fn fine_duty_per_step(diff: nat) -> nat {
    (diff + 65534) / 65535
}

/// The steps of a change beyond 65535 duty values at the smallest change per
/// step.
pub open spec fn fine_steps(diff: nat) -> nat {
    diff / fine_duty_per_step(diff)
}

/// Whether a change beyond 65535 duty values is split at the smallest change
/// per step: it is when those (fewer, longer) steps still fit the 10-bit
/// step counter over `cycles` PWM periods.
pub open spec fn uses_fine_split(diff: nat, cycles: nat) -> bool {
    diff > 65535 && cycles / fine_steps(diff) <= 1023
}

/// The duty change of each step of a fade over `diff` duty values lasting
/// `cycles` PWM periods: one value for up to 65535 values; beyond, the
/// smallest change that keeps within 65535 steps when its steps fit the
/// counter, else 65535 steps of `diff / 65535` values.
pub open spec fn duty_per_step(diff: nat, cycles: nat) -> nat {
    if diff <= 65535 {
        1
    } else if uses_fine_split(diff, cycles) {
        fine_duty_per_step(diff)
    } else {
        diff / 65535
    }
}

/// The number of steps of a fade over `diff` duty values lasting `cycles`
/// PWM periods.
pub open spec fn step_count(diff: nat, cycles: nat) -> nat {
    if diff <= 65535 {
        diff
    } else if uses_fine_split(diff, cycles) {
        fine_steps(diff)
    } else {
        65535
    }
}

/// The part of the change that whole steps do not cover; the fade starts
/// this far towards its end so that it ends exactly at its end duty.
pub open spec fn start_offset(diff: nat, cycles: nat) -> nat {
    (diff - step_count(diff, cycles) * duty_per_step(diff, cycles)) as nat
}

/// The fade's start duty, capped at the largest duty below a full period.
pub open spec fn fade_start(bits: nat, start: nat) -> nat {
    clamp(start, max_duty(bits))
}

/// The fade's end duty, capped at the largest duty below a full period.
pub open spec fn fade_end(bits: nat, end: nat) -> nat {
    clamp(end, max_duty(bits))
}

/// The distance the fade covers.
pub open spec fn fade_diff(bits: nat, start: nat, end: nat) -> nat {
    abs_diff(fade_start(bits, start), fade_end(bits, end))
}

/// The number of steps of the fade.
pub open spec fn fade_steps(bits: nat, freq_hz: nat, start: nat, end: nat, duration_ms: nat) -> nat {
    step_count(fade_diff(bits, start, end), pwm_cycles(freq_hz, duration_ms))
}

/// The duty change of each step of the fade.
pub open spec fn fade_duty_per_cycle(
    bits: nat,
    freq_hz: nat,
    start: nat,
    end: nat,
    duration_ms: nat,
) -> nat {
    duty_per_step(fade_diff(bits, start, end), pwm_cycles(freq_hz, duration_ms))
}

/// The PWM periods each step of the fade lasts.
pub open spec fn fade_cycles_per_step(
    bits: nat,
    freq_hz: nat,
    start: nat,
    end: nat,
    duration_ms: nat,
) -> nat {
    pwm_cycles(freq_hz, duration_ms) / fade_steps(bits, freq_hz, start, end, duration_ms)
}

/// The duty the hardware fade starts from: the capped start, moved towards
/// the end by the part that whole steps do not cover.
pub open spec fn fade_programmed_start(
    bits: nat,
    freq_hz: nat,
    start: nat,
    end: nat,
    duration_ms: nat,
) -> nat {
    let s = fade_start(bits, start);
    let offset = start_offset(fade_diff(bits, start, end), pwm_cycles(freq_hz, duration_ms));
    if fade_end(bits, end) > s {
        s + offset
    } else {
        (s - offset) as nat
    }
}

/// What starting a fade answers.  A fade must cover at least one duty value,
/// and one step per duty value (at most 65535 steps) must last at most 1023
/// PWM periods, the limit of the hardware's 10-bit step counter; both are
/// refused as `Duration`.  The per-step change must fit in 16 bits.
pub open spec fn fade_result(
    bits: nat,
    freq_hz: nat,
    start: nat,
    end: nat,
    duration_ms: nat,
) -> Result<(), Error> {
    if fade_diff(bits, start, end) == 0 {
        Err(Error::Fade(FadeError::Duration))
    } else if pwm_cycles(freq_hz, duration_ms) / base_steps(fade_diff(bits, start, end)) > 1023 {
        Err(Error::Fade(FadeError::Duration))
    } else if fade_duty_per_cycle(bits, freq_hz, start, end, duration_ms) > 0xFFFF {
        Err(Error::Fade(FadeError::DutyRange))
    } else {
        Ok(())
    }
}

/// The register work a fade queues: nothing when it is refused, else the
/// fade's parameters followed by the channel update that starts it.
pub open spec fn fade_ops(
    channel: Number,
    is_hs: bool,
    bits: nat,
    freq_hz: nat,
    start: nat,
    end: nat,
    duration_ms: nat,
) -> Seq<HwOp> {
    if fade_result(bits, freq_hz, start, end, duration_ms) is Ok {
        seq![
            HwOp::StartDutyFade {
                channel,
                is_hs,
                start_duty: fade_programmed_start(bits, freq_hz, start, end, duration_ms) as u32,
                duty_inc: fade_end(bits, end) > fade_start(bits, start),
                duty_steps: fade_steps(bits, freq_hz, start, end, duration_ms) as u16,
                cycles_per_step: fade_cycles_per_step(bits, freq_hz, start, end, duration_ms) as u16,
                duty_per_cycle: fade_duty_per_cycle(bits, freq_hz, start, end, duration_ms) as u16,
            },
            HwOp::UpdateChannel { channel, is_hs },
        ]
    } else {
        seq![]
    }
}

/// `2^bits` as a `u32`.
fn pow2_u32(bits: u8) -> (r: u32)
    requires
        bits <= 20,
    ensures
        r == pow2(bits as nat),
        1 <= r <= 0x10_0000,
{
    proof {
        lemma_duty_bits_pow2(bits as nat);
        vstd::bits::lemma_u32_pow2_no_overflow(bits as nat);
        vstd::bits::lemma_u32_shl_is_mul(1u32, bits as u32);
    }
    1u32 << (bits as u32)
}

/// The smaller of `a` and `b`.
fn min_u32(a: u32, b: u32) -> (r: u32)
    ensures
        r == clamp(a as nat, b as nat),
{
    if a < b {
        a
    } else {
        b
    }
}

impl<S: TimerSpeed, State> Channel<S, State> {
    /// Which of the eight channels of its speed this is.
    pub closed spec fn channel_number(&self) -> Number {
        self.number
    }
}

impl<S: TimerSpeed> Channel<S, Unconfigured> {
    /// Create a new instance of a channel
    pub(crate) fn new(number: Number) -> (r: Self)
        ensures
            r.channel_number() == number,
    {
        Channel { _phantom: core::marker::PhantomData, number, state: Unconfigured }
    }

    /// Configure the channel, returning the configured channel.
    ///
    /// The channel takes the timer's resolution and frequency; its initial
    /// duty is `config.duty` capped at a full period.  `pin` is the GPIO
    /// number of the output the channel drives (`None` for an output that is
    /// not a GPIO pin); it is connected by the `ConnectOutput` step queued
    /// last, and the channel keeps it until [`Channel::into_inner`].
    pub fn configure(self, config: Config<'_, S>, pin: Option<u8>, ops: &mut Vec<HwOp>) -> (r: Result<
        Channel<S, Configured>,
        Error,
    >)
        ensures
            r is Ok,
            r->Ok_0.channel_number() == self.channel_number(),
            r->Ok_0.duty_bits() == config.timer.current_config().duty.spec_bits(),
            r->Ok_0.timer_frequency_hz() == config.timer.current_config().frequency.hz(),
            r->Ok_0.output_pin() == pin,
            final(ops)@ == old(ops)@ + configure_ops(
                self.channel_number(),
                S::IS_HS,
                config.timer.timer_number().spec_index(),
                clamp(
                    config.duty as nat,
                    duty_range(config.timer.current_config().duty.spec_bits() as nat),
                ) as u32,
                pin,
                config.pin_config,
            ),
    {
        let timer_config = config.timer.config();
        let timer_duty = timer_config.duty;
        let timer_frequency = timer_config.frequency.as_hz();
        let timer_num = config.timer.number().index();

        let duty_range = pow2_u32(timer_duty.bits());
        let duty = min_u32(config.duty, duty_range);

        ops.push(HwOp::SetChannelTimer { channel: self.number, timer_index: timer_num, is_hs: S::IS_HS });
        ops.push(HwOp::StartDutyWithoutFading { channel: self.number, is_hs: S::IS_HS });
        ops.push(HwOp::SetDuty { channel: self.number, is_hs: S::IS_HS, duty });
        ops.push(HwOp::UpdateChannel { channel: self.number, is_hs: S::IS_HS });
        ops.push(
            HwOp::ConnectOutput {
                channel: self.number,
                is_hs: S::IS_HS,
                pin,
                drive_mode: config.pin_config,
            },
        );

        Ok(
            Channel {
                _phantom: core::marker::PhantomData,
                number: self.number,
                state: Configured { timer_duty, timer_frequency, pin },
            },
        )
    }
}

impl<S: TimerSpeed> Channel<S, Configured> {
    /// The duty resolution, in bits, of the channel's timer.
    pub closed spec fn duty_bits(&self) -> u8 {
        self.state.timer_duty.spec_bits()
    }

    /// The PWM frequency of the channel's timer, in hertz.
    pub closed spec fn timer_frequency_hz(&self) -> u32 {
        self.state.timer_frequency
    }

    /// The GPIO number of the output the channel drives, if it is a pin.
    pub closed spec fn output_pin(&self) -> Option<u8> {
        self.state.pin
    }

    /// The channel's duty resolution lies between 1 and 20 bits.
    pub proof fn lemma_duty_bits_range(&self)
        ensures
            1 <= self.duty_bits() <= 20,
    {
    }

    /// The duty resolution of the channel's timer.
    pub fn duty_resolution(&self) -> (r: Duty)
        ensures
            r.spec_bits() == self.duty_bits(),
    {
        self.state.timer_duty
    }

    /// The PWM frequency of the channel's timer, in hertz.
    pub fn timer_frequency(&self) -> (r: u32)
        ensures
            r == self.timer_frequency_hz(),
    {
        self.state.timer_frequency
    }

    /// Set duty of channel
    ///
    /// The duty is capped at a full period (`2^bits`).
    pub fn set_duty(&self, duty: u32, ops: &mut Vec<HwOp>) -> (r: Result<(), Error>)
        ensures
            r == Ok::<(), Error>(()),
            final(ops)@ == old(ops)@ + duty_ops(
                self.channel_number(),
                S::IS_HS,
                clamp(duty as nat, duty_range(self.duty_bits() as nat)) as u32,
            ),
    {
        let duty_range = pow2_u32(self.state.timer_duty.bits());
        let duty_value = min_u32(duty, duty_range);

        self.set_duty_hw(duty_value, ops);

        Ok(())
    }

    /// Converts a percentage to a raw duty value based on current timer resolution
    pub fn percent_to_duty(&self, pct: u8) -> (r: u32)
        ensures
            r == duty_for_percent(self.duty_bits() as nat, pct as nat),
            r <= max_duty(self.duty_bits() as nat),
    {
        let pct = if pct < 100 {
            pct
        } else {
            100
        };
        let duty_range = pow2_u32(self.state.timer_duty.bits()) - 1;
        proof {
            let b = self.duty_bits() as nat;
            assert(duty_range * pct <= 0x10_0000 * 100) by (nonlinear_arith)
                requires
                    duty_range <= 0x10_0000,
                    pct <= 100,
            ;
            lemma_percent_bounds(b, pct as nat);
        }
        (duty_range * pct as u32) / 100
    }

    /// Set duty % of channel
    pub fn set_duty_pct(&self, duty_pct: u8, ops: &mut Vec<HwOp>) -> (r: Result<(), Error>)
        ensures
            r == Ok::<(), Error>(()),
            final(ops)@ == old(ops)@ + duty_ops(
                self.channel_number(),
                S::IS_HS,
                duty_for_percent(self.duty_bits() as nat, duty_pct as nat) as u32,
            ),
    {
        let duty = self.percent_to_duty(duty_pct);
        proof {
            lemma_duty_bits_pow2(self.duty_bits() as nat);
        }
        self.set_duty(duty, ops)
    }

    /// Check whether a duty-cycle fade is running: the register read that
    /// answers it.
    pub fn is_duty_fade_running(&self) -> (r: HwQuery)
        ensures
            r == (HwQuery::DutyFadeRunning { channel: self.channel_number(), is_hs: S::IS_HS }),
    {
        HwQuery::DutyFadeRunning { channel: self.number, is_hs: S::IS_HS }
    }

    /// Returns the unconfigured [`Channel`] and the pin it drove, after
    /// turning its output off and disconnecting the pin.
    pub fn into_inner(self, ops: &mut Vec<HwOp>) -> (r: (Channel<S, Unconfigured>, Option<u8>))
        ensures
            r.0.channel_number() == self.channel_number(),
            r.1 == self.output_pin(),
            final(ops)@ == old(ops)@ + seq![
                HwOp::SetDuty { channel: self.channel_number(), is_hs: S::IS_HS, duty: 0 },
                HwOp::UpdateChannel { channel: self.channel_number(), is_hs: S::IS_HS },
                HwOp::DisconnectOutput {
                    channel: self.channel_number(),
                    is_hs: S::IS_HS,
                    pin: self.output_pin(),
                },
            ],
    {
        ops.push(HwOp::SetDuty { channel: self.number, is_hs: S::IS_HS, duty: 0 });
        ops.push(HwOp::UpdateChannel { channel: self.number, is_hs: S::IS_HS });

        let pin = self.state.pin;
        ops.push(HwOp::DisconnectOutput { channel: self.number, is_hs: S::IS_HS, pin });

        (Channel::new(self.number), pin)
    }

    /// Start a duty fade from one raw duty value to another.
    ///
    /// Both duty values are capped at `2^bits - 1`.  The fade is refused
    /// with `Fade(Duration)` when the capped values are equal, or when one
    /// step per duty value (at most 65535 steps) would last more than 1023
    /// PWM periods, where the fade lasts `duration_ms * frequency / 1000`
    /// periods.  Small duty changes, long durations, coarse resolutions and
    /// high timer frequencies all make the refusal more likely.  A refused
    /// fade queues nothing.
    ///
    /// A change of up to 65535 duty values moves by one value per step.  A
    /// larger one moves by the smallest change per step that keeps within
    /// 65535 steps when those steps still fit the step counter, else by
    /// `diff / 65535` values over 65535 steps.  Either way the fade starts
    /// the uncovered remainder towards its end, so that it ends exactly at
    /// the capped end duty.
    pub fn start_duty_fade(
        &self,
        start_duty: u32,
        end_duty: u32,
        duration_ms: u16,
        ops: &mut Vec<HwOp>,
    ) -> (r: Result<(), Error>)
        ensures
            r == fade_result(
                self.duty_bits() as nat,
                self.timer_frequency_hz() as nat,
                start_duty as nat,
                end_duty as nat,
                duration_ms as nat,
            ),
            r != Err::<(), Error>(Error::Fade(FadeError::DutyRange)),
            final(ops)@ == old(ops)@ + fade_ops(
                self.channel_number(),
                S::IS_HS,
                self.duty_bits() as nat,
                self.timer_frequency_hz() as nat,
                start_duty as nat,
                end_duty as nat,
                duration_ms as nat,
            ),
    {
        let max_duty = pow2_u32(self.state.timer_duty.bits()) - 1;
        let start_duty_value = min_u32(start_duty, max_duty);
        let end_duty_value = min_u32(end_duty, max_duty);

        let abs_duty_diff = if end_duty_value > start_duty_value {
            end_duty_value - start_duty_value
        } else {
            start_duty_value - end_duty_value
        };
        if abs_duty_diff == 0 {
            // Nothing to fade over: there is no step to time.
            return Err(Error::Fade(FadeError::Duration));
        }

        let d = duration_ms as u64;
        let f = self.state.timer_frequency as u64;
        assert(d * f <= 0xFFFF * 0xFFFF_FFFF) by (nonlinear_arith)
            requires
                d <= 0xFFFF,
                f <= 0xFFFF_FFFF,
        ;
        let pwm_cycles: u64 = d * f / 1000;
        proof {
            lemma_fade_step_split(abs_duty_diff as nat, pwm_cycles as nat);
        }

        // One step per duty value, at most 65535 steps, must fit the counter.
        let base_steps: u32 = if abs_duty_diff <= 0xFFFF {
            abs_duty_diff
        } else {
            0xFFFF
        };
        if pwm_cycles / (base_steps as u64) > 1023 {
            return Err(Error::Fade(FadeError::Duration));
        }

        let (per_cycle, duty_steps): (u32, u32) = if abs_duty_diff <= 0xFFFF {
            (1, abs_duty_diff)
        } else {
            let fine_per = (abs_duty_diff + 0xFFFE) / 0xFFFF;
            let fine_steps = abs_duty_diff / fine_per;
            if pwm_cycles / (fine_steps as u64) <= 1023 {
                (fine_per, fine_steps)
            } else {
                (abs_duty_diff / 0xFFFF, 0xFFFF)
            }
        };
        let offset: u32 = abs_duty_diff - duty_steps * per_cycle;
        let cycles_per_step = (pwm_cycles / (duty_steps as u64)) as u16;

        if per_cycle > 0xFFFF {
            return Err(Error::Fade(FadeError::DutyRange));
        }
        let duty_per_cycle = per_cycle as u16;

        let duty_inc = end_duty_value > start_duty_value;
        let start_value = if duty_inc {
            start_duty_value + offset
        } else {
            start_duty_value - offset
        };

        self.start_duty_fade_hw(
            start_value,
            duty_inc,
            duty_steps as u16,
            cycles_per_step,
            duty_per_cycle,
            ops,
        );

        Ok(())
    }

    /// The largest duty value below a full period, for resolutions of at
    /// most 15 bits (the value must fit in 16 bits).
    pub fn max_duty_cycle(&self) -> (r: u16)
        requires
            self.duty_bits() < 16,
        ensures
            r == max_duty(self.duty_bits() as nat),
    {
        let bits = self.state.timer_duty.bits() as u16;
        proof {
            vstd::bits::lemma_u16_pow2_no_overflow(bits as nat);
            vstd::bits::lemma_u16_shl_is_mul(1u16, bits);
        }
        (1u16 << bits) - 1
    }

    /// Set the duty cycle, capped at [`Self::max_duty_cycle`].
    pub fn set_duty_cycle(&mut self, duty: u16, ops: &mut Vec<HwOp>) -> (r: Result<(), Error>)
        requires
            old(self).duty_bits() < 16,
        ensures
            r == Ok::<(), Error>(()),
            *final(self) == *old(self),
            final(ops)@ == old(ops)@ + duty_ops(
                old(self).channel_number(),
                S::IS_HS,
                clamp(duty as nat, max_duty(old(self).duty_bits() as nat)) as u32,
            ),
    {
        let max = self.max_duty_cycle();
        let duty = if duty > max {
            max
        } else {
            duty
        };
        self.set_duty_hw(duty as u32, ops);
        Ok(())
    }

    fn set_duty_hw(&self, duty: u32, ops: &mut Vec<HwOp>)
        ensures
            final(ops)@ == old(ops)@ + duty_ops(self.channel_number(), S::IS_HS, duty),
    {
        ops.push(HwOp::SetDuty { channel: self.number, is_hs: S::IS_HS, duty });
        ops.push(HwOp::StartDutyWithoutFading { channel: self.number, is_hs: S::IS_HS });
        ops.push(HwOp::UpdateChannel { channel: self.number, is_hs: S::IS_HS });
    }
    fn start_duty_fade_hw(
        &self,
        start_duty: u32,
        duty_inc: bool,
        duty_steps: u16,
        cycles_per_step: u16,
        duty_per_cycle: u16,
        ops: &mut Vec<HwOp>,
    )
        ensures
            final(ops)@ == old(ops)@ + seq![
                HwOp::StartDutyFade {
                    channel: self.channel_number(),
                    is_hs: S::IS_HS,
                    start_duty,
                    duty_inc,
                    duty_steps,
                    cycles_per_step,
                    duty_per_cycle,
                },
                HwOp::UpdateChannel { channel: self.channel_number(), is_hs: S::IS_HS },
            ],
    {
        ops.push(
            HwOp::StartDutyFade {
                channel: self.number,
                is_hs: S::IS_HS,
                start_duty,
                duty_inc,
                duty_steps,
                cycles_per_step,
                duty_per_cycle,
            },
        );
        ops.push(HwOp::UpdateChannel { channel: self.number, is_hs: S::IS_HS });
    }
}

/// How a change of `diff` duty values (below `2^20`) over `cycles` PWM
/// periods is split: between 1 and 17 values per step, between 1 and 65535
/// steps, which together with the start offset make up the whole change.
/// The offset is less than one step's change for changes of up to 65535
/// values (where it is 0) and for the fine split, and less than 65535 always.
/// When one step per duty value fits the counter, so do the chosen steps.
pub proof fn lemma_fade_step_split(diff: nat, cycles: nat)
    requires
        0 < diff < 0x10_0000,
    ensures
        1 <= duty_per_step(diff, cycles) <= 17,
        1 <= step_count(diff, cycles) <= 65535,
        step_count(diff, cycles) <= base_steps(diff),
        step_count(diff, cycles) * duty_per_step(diff, cycles) <= diff,
        start_offset(diff, cycles) + step_count(diff, cycles) * duty_per_step(diff, cycles) == diff,
        start_offset(diff, cycles) < 65535,
        diff <= 65535 || uses_fine_split(diff, cycles) ==> start_offset(diff, cycles)
            < duty_per_step(diff, cycles),
        diff <= 65535 ==> step_count(diff, cycles) == diff && start_offset(diff, cycles) == 0,
        cycles / base_steps(diff) <= 1023 ==> cycles / step_count(diff, cycles) <= 1023,
        diff > 65535 ==> 2 <= fine_duty_per_step(diff) <= 17 && 1 <= fine_steps(diff) <= 65535,
{
    if diff <= 65535 {
        assert(diff * 1 == diff) by (nonlinear_arith);
    } else {
        let p = fine_duty_per_step(diff);
        let q = diff + 65534;
        assert(p * 65535 <= q && q < p * 65535 + 65535) by (nonlinear_arith)
            requires
                p == q / 65535,
        ;
        assert(2 <= p <= 17 && p * 65535 >= diff) by (nonlinear_arith)
            requires
                65535 < diff < 0x10_0000,
                q == diff + 65534,
                p * 65535 <= q,
                q < p * 65535 + 65535,
        ;
        assert(diff / p * p + diff % p == diff && diff % p < p) by (nonlinear_arith)
            requires
                p >= 1,
        ;
        assert(1 <= diff / p <= 65535) by (nonlinear_arith)
            requires
                p >= 1,
                p <= diff,
                p * 65535 >= diff,
        ;
        let f = diff / 65535;
        assert(1 <= f <= 16 && f * 65535 <= diff && diff < f * 65535 + 65535) by (nonlinear_arith)
            requires
                65535 < diff < 0x10_0000,
                f == diff / 65535,
        ;
        assert(65535 * f == f * 65535) by (nonlinear_arith);
        assert(fine_steps(diff) * p == diff / p * p);
        if uses_fine_split(diff, cycles) {
            assert(diff - diff / p * p < p);
        }
    }
}

/// `duty_for_percent` stays within the duty values below a full period.
proof fn lemma_percent_bounds(bits: nat, pct: nat)
    requires
        bits <= 20,
    ensures
        duty_for_percent(bits, pct) <= max_duty(bits),
        max_duty(bits) * clamp(pct, 100) <= 0x10_0000 * 100,
{
    lemma_duty_bits_pow2(bits);
    let m = max_duty(bits);
    let p = clamp(pct, 100);
    assert(m * p <= m * 100) by (nonlinear_arith)
        requires
            p <= 100,
    ;
    assert(m * 100 <= 0x10_0000 * 100) by (nonlinear_arith)
        requires
            m <= 0x10_0000,
    ;
    assert((m * p) / 100 <= m) by (nonlinear_arith)
        requires
            m * p <= m * 100,
    ;
}

/// `2^bits` for resolutions up to 20 bits is positive and at most `2^20`.
proof fn lemma_duty_bits_pow2(bits: nat)
    requires
        bits <= 20,
    ensures
        1 <= pow2(bits) <= 0x10_0000,
{
    vstd::arithmetic::power2::lemma2_to64();
    vstd::arithmetic::power2::lemma_pow2_pos(bits);
    if bits < 20 {
        vstd::arithmetic::power2::lemma_pow2_strictly_increases(bits, 20);
    }
}

} // verus!

verus! {

/// `percent_to_duty` maps 0 % to a zero duty, and 100 % (or more) to the
/// largest duty below a full period.
pub proof fn lemma_percent_to_duty_endpoints(bits: nat, pct: nat)
    requires
        1 <= bits <= 20,
    ensures
        duty_for_percent(bits, 0) == 0,
        pct >= 100 ==> duty_for_percent(bits, pct) == max_duty(bits),
        pct >= 100 ==> duty_for_percent(bits, pct) + 1 == pow2(bits),
{
    lemma_duty_bits_pow2(bits);
    let m = max_duty(bits);
    assert(m * 0 == 0) by (nonlinear_arith);
    assert((m * 100) / 100 == m) by (nonlinear_arith);
}

/// `set_duty` and `configure` cap a duty at a full period, `2^bits`: a duty
/// up to that is written as given, a larger one as `2^bits`.
pub proof fn lemma_duty_cap(bits: nat, duty: nat)
    ensures
        duty <= pow2(bits) ==> clamp(duty, duty_range(bits)) == duty,
        duty > pow2(bits) ==> clamp(duty, duty_range(bits)) == pow2(bits),
{
}

/// `percent_to_duty` never decreases as the percentage grows.
pub proof fn lemma_percent_to_duty_monotone(bits: nat, pct1: nat, pct2: nat)
    requires
        pct1 <= pct2,
    ensures
        duty_for_percent(bits, pct1) <= duty_for_percent(bits, pct2),
{
    let m = max_duty(bits);
    let p1 = clamp(pct1, 100);
    let p2 = clamp(pct2, 100);
    assert(m * p1 <= m * p2) by (nonlinear_arith)
        requires
            p1 <= p2,
    ;
    assert((m * p1) / 100 <= (m * p2) / 100) by (nonlinear_arith)
        requires
            m * p1 <= m * p2,
    ;
}

/// The full duty cycle that `max_duty_cycle` reports is the duty that
/// `percent_to_duty` gives for 100 %.
pub proof fn lemma_max_duty_cycle_is_full_percent(bits: nat)
    requires
        1 <= bits <= 20,
    ensures
        max_duty(bits) == duty_for_percent(bits, 100),
{
    lemma_percent_to_duty_endpoints(bits, 100);
}

/// `set_duty_pct` never asks for more than the largest duty below a full
/// period, so the cap that `set_duty` applies leaves its value unchanged.
pub proof fn lemma_percent_duty_below_range(bits: nat, pct: nat)
    requires
        1 <= bits <= 20,
    ensures
        duty_for_percent(bits, pct) < duty_range(bits),
        clamp(duty_for_percent(bits, pct), duty_range(bits)) == duty_for_percent(bits, pct),
{
    lemma_percent_bounds(bits, pct);
    lemma_duty_bits_pow2(bits);
}

/// A fade is refused exactly when it covers no duty value or one step per
/// duty value (at most 65535 steps) would last more than 1023 periods, and
/// then always for its duration, never for its duty range.  An accepted
/// fade's programmed steps fit the step counter.
pub proof fn lemma_fade_refused_only_for_duration(
    bits: nat,
    freq_hz: nat,
    start: nat,
    end: nat,
    duration_ms: nat,
)
    requires
        bits <= 20,
    ensures
        fade_result(bits, freq_hz, start, end, duration_ms) is Err <==> (fade_diff(bits, start, end)
            == 0 || pwm_cycles(freq_hz, duration_ms) / base_steps(fade_diff(bits, start, end))
            > 1023),
        ({
            let m = (pow2(bits) - 1) as nat;
            let s = if start < m { start } else { m };
            let e = if end < m { end } else { m };
            let d = if s < e { (e - s) as nat } else { (s - e) as nat };
            let steps = if d <= 65535 { d } else { 65535nat };
            fade_result(bits, freq_hz, start, end, duration_ms) is Err <==> (d == 0 || (duration_ms
                * freq_hz) / 1000 / steps > 1023)
        }),
        fade_result(bits, freq_hz, start, end, duration_ms) is Err ==> fade_result(
            bits,
            freq_hz,
            start,
            end,
            duration_ms,
        ) == Err::<(), Error>(Error::Fade(FadeError::Duration)),
        fade_result(bits, freq_hz, start, end, duration_ms) is Ok ==> fade_cycles_per_step(
            bits,
            freq_hz,
            start,
            end,
            duration_ms,
        ) <= 1023,
{
    lemma_fade_diff_bound(bits, start, end);
    if fade_diff(bits, start, end) > 0 {
        lemma_fade_step_split(fade_diff(bits, start, end), pwm_cycles(freq_hz, duration_ms));
    }
}

/// A refused fade queues nothing; an accepted one queues the fade and the
/// update that starts it.
pub proof fn lemma_fade_refused_queues_nothing(
    channel: Number,
    is_hs: bool,
    bits: nat,
    freq_hz: nat,
    start: nat,
    end: nat,
    duration_ms: nat,
)
    ensures
        fade_result(bits, freq_hz, start, end, duration_ms) is Err <==> fade_ops(
            channel,
            is_hs,
            bits,
            freq_hz,
            start,
            end,
            duration_ms,
        ).len() == 0,
{
}

/// An accepted fade ends exactly at the capped end duty: its start, moved
/// from the capped start towards the end by the uncovered remainder, plus its
/// steps' changes reaches the end.  The remainder is 0 for changes of up to
/// 65535 values, less than one step's change for the fine split, and less
/// than 65535 values always.
pub proof fn lemma_fade_ends_at_end_duty(bits: nat, freq_hz: nat, start: nat, end: nat, duration_ms: nat)
    requires
        bits <= 20,
        fade_result(bits, freq_hz, start, end, duration_ms) is Ok,
    ensures
        ({
            let s = fade_start(bits, start);
            let e = fade_end(bits, end);
            let p = fade_programmed_start(bits, freq_hz, start, end, duration_ms);
            let per = fade_duty_per_cycle(bits, freq_hz, start, end, duration_ms);
            let covered = fade_steps(bits, freq_hz, start, end, duration_ms) * per;
            let diff = fade_diff(bits, start, end);
            &&& e > s ==> p + covered == e && s <= p
            &&& e < s ==> p - covered == e && p <= s
            &&& abs_diff(p, s) < 65535
            &&& diff <= 65535 ==> p == s
            &&& uses_fine_split(diff, pwm_cycles(freq_hz, duration_ms)) ==> abs_diff(p, s) < per
        }),
{
    lemma_fade_diff_bound(bits, start, end);
    lemma_fade_step_split(fade_diff(bits, start, end), pwm_cycles(freq_hz, duration_ms));
}

/// Swapping start and end gives the same answer and the same steps, in the
/// opposite direction.
pub proof fn lemma_fade_swap(bits: nat, freq_hz: nat, start: nat, end: nat, duration_ms: nat)
    ensures
        fade_result(bits, freq_hz, start, end, duration_ms) == fade_result(
            bits,
            freq_hz,
            end,
            start,
            duration_ms,
        ),
        fade_steps(bits, freq_hz, start, end, duration_ms) == fade_steps(
            bits,
            freq_hz,
            end,
            start,
            duration_ms,
        ),
        fade_cycles_per_step(bits, freq_hz, start, end, duration_ms) == fade_cycles_per_step(
            bits,
            freq_hz,
            end,
            start,
            duration_ms,
        ),
        fade_duty_per_cycle(bits, freq_hz, start, end, duration_ms) == fade_duty_per_cycle(
            bits,
            freq_hz,
            end,
            start,
            duration_ms,
        ),
        fade_diff(bits, start, end) > 0 ==> (fade_end(bits, end) > fade_start(bits, start)
            <==> !(fade_end(bits, start) > fade_start(bits, end))),
{
    assert(fade_diff(bits, start, end) == fade_diff(bits, end, start));
}

/// Raw duty values above the largest duty below a full period act as that
/// largest duty: the fade's answer and queued work are those of the capped
/// values.
pub proof fn lemma_fade_caps_raw_duties(
    channel: Number,
    is_hs: bool,
    bits: nat,
    freq_hz: nat,
    start: nat,
    end: nat,
    duration_ms: nat,
)
    ensures
        fade_result(bits, freq_hz, start, end, duration_ms) == fade_result(
            bits,
            freq_hz,
            fade_start(bits, start),
            fade_end(bits, end),
            duration_ms,
        ),
        fade_ops(channel, is_hs, bits, freq_hz, start, end, duration_ms) == fade_ops(
            channel,
            is_hs,
            bits,
            freq_hz,
            fade_start(bits, start),
            fade_end(bits, end),
            duration_ms,
        ),
{
    assert(fade_start(bits, fade_start(bits, start)) == fade_start(bits, start));
    assert(fade_end(bits, fade_end(bits, end)) == fade_end(bits, end));
}

/// A fade refused for some duration is refused for every longer one.
pub proof fn lemma_fade_longer_duration_refused(
    bits: nat,
    freq_hz: nat,
    start: nat,
    end: nat,
    duration1: nat,
    duration2: nat,
)
    requires
        bits <= 20,
        duration1 <= duration2,
        fade_result(bits, freq_hz, start, end, duration1) is Err,
    ensures
        fade_result(bits, freq_hz, start, end, duration2) is Err,
{
    lemma_fade_refused_only_for_duration(bits, freq_hz, start, end, duration1);
    lemma_fade_refused_only_for_duration(bits, freq_hz, start, end, duration2);
    if fade_diff(bits, start, end) > 0 {
        let steps = base_steps(fade_diff(bits, start, end));
        assert(duration1 * freq_hz <= duration2 * freq_hz) by (nonlinear_arith)
            requires
                duration1 <= duration2,
        ;
        lemma_div_monotone(duration1 * freq_hz, duration2 * freq_hz, 1000);
        lemma_div_monotone(pwm_cycles(freq_hz, duration1), pwm_cycles(freq_hz, duration2), steps);
    }
}

/// A fade refused at some timer frequency is refused at every higher one.
pub proof fn lemma_fade_higher_frequency_refused(
    bits: nat,
    freq1: nat,
    freq2: nat,
    start: nat,
    end: nat,
    duration_ms: nat,
)
    requires
        bits <= 20,
        freq1 <= freq2,
        fade_result(bits, freq1, start, end, duration_ms) is Err,
    ensures
        fade_result(bits, freq2, start, end, duration_ms) is Err,
{
    lemma_fade_refused_only_for_duration(bits, freq1, start, end, duration_ms);
    lemma_fade_refused_only_for_duration(bits, freq2, start, end, duration_ms);
    if fade_diff(bits, start, end) > 0 {
        let steps = base_steps(fade_diff(bits, start, end));
        assert(duration_ms * freq1 <= duration_ms * freq2) by (nonlinear_arith)
            requires
                freq1 <= freq2,
        ;
        lemma_div_monotone(duration_ms * freq1, duration_ms * freq2, 1000);
        lemma_div_monotone(pwm_cycles(freq1, duration_ms), pwm_cycles(freq2, duration_ms), steps);
    }
}

/// A fade refused for some duty change is refused for every smaller one over
/// the same time.
pub proof fn lemma_fade_smaller_change_refused(
    bits: nat,
    freq_hz: nat,
    start1: nat,
    end1: nat,
    start2: nat,
    end2: nat,
    duration_ms: nat,
)
    requires
        bits <= 20,
        fade_diff(bits, start2, end2) <= fade_diff(bits, start1, end1),
        fade_result(bits, freq_hz, start1, end1, duration_ms) is Err,
    ensures
        fade_result(bits, freq_hz, start2, end2, duration_ms) is Err,
{
    lemma_fade_refused_only_for_duration(bits, freq_hz, start1, end1, duration_ms);
    lemma_fade_refused_only_for_duration(bits, freq_hz, start2, end2, duration_ms);
    let d2 = fade_diff(bits, start2, end2);
    if d2 > 0 {
        let s1 = base_steps(fade_diff(bits, start1, end1));
        let s2 = base_steps(d2);
        let c = pwm_cycles(freq_hz, duration_ms);
        assert(c / s1 <= c / s2) by (nonlinear_arith)
            requires
                0 < s2 <= s1,
        ;
    }
}

/// A fade between two duty values refused at some resolution is refused at
/// every coarser one.
pub proof fn lemma_fade_coarser_resolution_refused(
    bits1: nat,
    bits2: nat,
    freq_hz: nat,
    start: nat,
    end: nat,
    duration_ms: nat,
)
    requires
        bits2 <= bits1 <= 20,
        fade_result(bits1, freq_hz, start, end, duration_ms) is Err,
    ensures
        fade_result(bits2, freq_hz, start, end, duration_ms) is Err,
{
    lemma_duty_bits_pow2(bits1);
    lemma_duty_bits_pow2(bits2);
    if bits2 < bits1 {
        vstd::arithmetic::power2::lemma_pow2_strictly_increases(bits2, bits1);
    }
    assert(fade_diff(bits2, start, end) <= fade_diff(bits1, start, end));
    lemma_fade_smaller_change_refused(bits1, freq_hz, start, end, start, end, duration_ms);
    lemma_fade_refused_only_for_duration(bits1, freq_hz, start, end, duration_ms);
    lemma_fade_refused_only_for_duration(bits2, freq_hz, start, end, duration_ms);
    let d2 = fade_diff(bits2, start, end);
    if d2 > 0 {
        let s1 = base_steps(fade_diff(bits1, start, end));
        let s2 = base_steps(d2);
        let c = pwm_cycles(freq_hz, duration_ms);
        assert(c / s1 <= c / s2) by (nonlinear_arith)
            requires
                0 < s2 <= s1,
        ;
    }
}

/// The capped duties, and so the change between them, stay below `2^20`.
proof fn lemma_fade_diff_bound(bits: nat, start: nat, end: nat)
    requires
        bits <= 20,
    ensures
        fade_start(bits, start) < 0x10_0000,
        fade_end(bits, end) < 0x10_0000,
        fade_diff(bits, start, end) < 0x10_0000,
{
    lemma_duty_bits_pow2(bits);
}

/// Dividing by the same positive number keeps the order.
proof fn lemma_div_monotone(a: nat, b: nat, d: nat)
    requires
        a <= b,
        d > 0,
    ensures
        a / d <= b / d,
{
    assert(a / d <= b / d) by (nonlinear_arith)
        requires
            a <= b,
            d > 0,
    ;
}

} // verus!
