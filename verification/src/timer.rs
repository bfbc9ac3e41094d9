//! # LEDC timer
//!
//! A timer divides its source clock down to the PWM frequency of the
//! channels attached to it.  Configuring a timer computes the clock divider
//! for the requested frequency and duty resolution, refuses dividers that the
//! hardware cannot hold, and otherwise queues the register writes that
//! program the timer.

use vstd::arithmetic::power2::pow2;
use vstd::prelude::*;

use crate::hw::HwOp;
use crate::rate::Rate;
use crate::{HighSpeed, LowSpeed, Speed};

verus! {

/// Largest value the timer clock divider accepts (the divider is a fixed
/// point number with 8 fractional bits, so 256 stands for 1.0).
pub const LEDC_TIMER_DIV_NUM_MAX: u64 = 0x3FFFF;

/// Smallest value the timer clock divider accepts (a division by 1.0).
pub const LEDC_TIMER_DIV_NUM_MIN: u64 = 256;

/// Frequency of the REF_TICK clock that a low-speed timer falls back to when
/// its source clock is too fast for the requested frequency.
pub const REF_TICK_HZ: u64 = 1_000_000;

/// Timer errors
#[derive(Debug, Clone, Copy, PartialEq, Eq, Structural)]
pub enum Error {
    /// Invalid Divisor
    Divisor,
    /// Frequency unset
    FrequencyUnset,
}

/// Clock source for LS Timers
#[derive(PartialEq, Eq, Copy, Clone, Debug, Structural)]
pub enum ClockSource {
    /// APB clock.
    APBClk,
}

/// Timer number
#[derive(PartialEq, Eq, Copy, Clone, Debug, Structural)]
pub enum Number {
    /// Timer 0.
    Timer0,
    /// Timer 1.
    Timer1,
    /// Timer 2.
    Timer2,
    /// Timer 3.
    Timer3,
}

impl Number {
    /// The timer's index, 0 to 3.
    pub open spec fn spec_index(self) -> u8 {
        match self {
            Number::Timer0 => 0,
            Number::Timer1 => 1,
            Number::Timer2 => 2,
            Number::Timer3 => 3,
        }
    }

    /// The timer's index, 0 to 3.
    #[verifier::when_used_as_spec(spec_index)]
    pub fn index(self) -> (r: u8)
        ensures
            r == self.spec_index(),
    {
        match self {
            Number::Timer0 => 0,
            Number::Timer1 => 1,
            Number::Timer2 => 2,
            Number::Timer3 => 3,
        }
    }
}

/// Number of bits reserved for duty cycle adjustment
#[derive(PartialEq, Eq, Copy, Clone, Debug, Structural)]
pub enum Duty {
    /// 1-bit resolution for duty cycle adjustment.
    Bit1,
    /// 2-bit resolution for duty cycle adjustment.
    Bit2,
    /// 3-bit resolution for duty cycle adjustment.
    Bit3,
    /// 4-bit resolution for duty cycle adjustment.
    Bit4,
    /// 5-bit resolution for duty cycle adjustment.
    Bit5,
    /// 6-bit resolution for duty cycle adjustment.
    Bit6,
    /// 7-bit resolution for duty cycle adjustment.
    Bit7,
    /// 8-bit resolution for duty cycle adjustment.
    Bit8,
    /// 9-bit resolution for duty cycle adjustment.
    Bit9,
    /// 10-bit resolution for duty cycle adjustment.
    Bit10,
    /// 11-bit resolution for duty cycle adjustment.
    Bit11,
    /// 12-bit resolution for duty cycle adjustment.
    Bit12,
    /// 13-bit resolution for duty cycle adjustment.
    Bit13,
    /// 14-bit resolution for duty cycle adjustment.
    Bit14,
    /// 15-bit resolution for duty cycle adjustment.
    Bit15,
    /// 16-bit resolution for duty cycle adjustment.
    Bit16,
    /// 17-bit resolution for duty cycle adjustment.
    Bit17,
    /// 18-bit resolution for duty cycle adjustment.
    Bit18,
    /// 19-bit resolution for duty cycle adjustment.
    Bit19,
    /// 20-bit resolution for duty cycle adjustment.
    Bit20,
}

/// The resolution with `value` bits, if there is one.
pub open spec fn duty_from_bits(value: u32) -> Option<Duty> {
    match value {
        1 => Some(Duty::Bit1),
        2 => Some(Duty::Bit2),
        3 => Some(Duty::Bit3),
        4 => Some(Duty::Bit4),
        5 => Some(Duty::Bit5),
        6 => Some(Duty::Bit6),
        7 => Some(Duty::Bit7),
        8 => Some(Duty::Bit8),
        9 => Some(Duty::Bit9),
        10 => Some(Duty::Bit10),
        11 => Some(Duty::Bit11),
        12 => Some(Duty::Bit12),
        13 => Some(Duty::Bit13),
        14 => Some(Duty::Bit14),
        15 => Some(Duty::Bit15),
        16 => Some(Duty::Bit16),
        17 => Some(Duty::Bit17),
        18 => Some(Duty::Bit18),
        19 => Some(Duty::Bit19),
        20 => Some(Duty::Bit20),
        _ => None,
    }
}

impl Duty {
    /// The number of bits of this resolution.
    pub open spec fn spec_bits(self) -> u8 {
        match self {
            Duty::Bit1 => 1,
            Duty::Bit2 => 2,
            Duty::Bit3 => 3,
            Duty::Bit4 => 4,
            Duty::Bit5 => 5,
            Duty::Bit6 => 6,
            Duty::Bit7 => 7,
            Duty::Bit8 => 8,
            Duty::Bit9 => 9,
            Duty::Bit10 => 10,
            Duty::Bit11 => 11,
            Duty::Bit12 => 12,
            Duty::Bit13 => 13,
            Duty::Bit14 => 14,
            Duty::Bit15 => 15,
            Duty::Bit16 => 16,
            Duty::Bit17 => 17,
            Duty::Bit18 => 18,
            Duty::Bit19 => 19,
            Duty::Bit20 => 20,
        }
    }

    /// The number of bits of this resolution, 1 to 20.
    #[verifier::when_used_as_spec(spec_bits)]
    pub fn bits(self) -> (r: u8)
        ensures
            r == self.spec_bits(),
            1 <= r <= 20,
    {
        match self {
            Duty::Bit1 => 1,
            Duty::Bit2 => 2,
            Duty::Bit3 => 3,
            Duty::Bit4 => 4,
            Duty::Bit5 => 5,
            Duty::Bit6 => 6,
            Duty::Bit7 => 7,
            Duty::Bit8 => 8,
            Duty::Bit9 => 9,
            Duty::Bit10 => 10,
            Duty::Bit11 => 11,
            Duty::Bit12 => 12,
            Duty::Bit13 => 13,
            Duty::Bit14 => 14,
            Duty::Bit15 => 15,
            Duty::Bit16 => 16,
            Duty::Bit17 => 17,
            Duty::Bit18 => 18,
            Duty::Bit19 => 19,
            Duty::Bit20 => 20,
        }
    }
}

/// Every resolution has between 1 and 20 bits, and the bit count names the
/// resolution back.
pub proof fn lemma_duty_bits_round_trip(duty: Duty)
    ensures
        1 <= duty.spec_bits() <= 20,
        duty_from_bits(duty.spec_bits() as u32) == Some(duty),
{
}

/// A bit count names a resolution exactly when it is between 1 and 20, and
/// then that resolution has that many bits.
pub proof fn lemma_duty_from_bits(value: u32)
    ensures
        duty_from_bits(value) is Some <==> 1 <= value <= 20,
        duty_from_bits(value) is Some ==> duty_from_bits(value)->0.spec_bits() == value,
{
}

/// Each timer's index is the number in its name.
pub proof fn lemma_timer_index_is_its_number()
    ensures
        Number::Timer0.spec_index() == 0,
        Number::Timer1.spec_index() == 1,
        Number::Timer2.spec_index() == 2,
        Number::Timer3.spec_index() == 3,
{
}

/// Each resolution has the number of bits in its name, and so the
/// resolutions are ordered by their bit counts.
pub proof fn lemma_duty_bits_are_its_number()
    ensures
        Duty::Bit1.spec_bits() == 1,
        Duty::Bit2.spec_bits() == 2,
        Duty::Bit3.spec_bits() == 3,
        Duty::Bit4.spec_bits() == 4,
        Duty::Bit5.spec_bits() == 5,
        Duty::Bit6.spec_bits() == 6,
        Duty::Bit7.spec_bits() == 7,
        Duty::Bit8.spec_bits() == 8,
        Duty::Bit9.spec_bits() == 9,
        Duty::Bit10.spec_bits() == 10,
        Duty::Bit11.spec_bits() == 11,
        Duty::Bit12.spec_bits() == 12,
        Duty::Bit13.spec_bits() == 13,
        Duty::Bit14.spec_bits() == 14,
        Duty::Bit15.spec_bits() == 15,
        Duty::Bit16.spec_bits() == 16,
        Duty::Bit17.spec_bits() == 17,
        Duty::Bit18.spec_bits() == 18,
        Duty::Bit19.spec_bits() == 19,
        Duty::Bit20.spec_bits() == 20,
{
}

/// Converting a bit count names the resolution with that number in its
/// name: 11 gives `Bit11`, 12 gives `Bit12`, and so on for 1 to 20.
pub proof fn lemma_duty_from_bits_names()
    ensures
        duty_from_bits(1) == Some(Duty::Bit1),
        duty_from_bits(2) == Some(Duty::Bit2),
        duty_from_bits(3) == Some(Duty::Bit3),
        duty_from_bits(4) == Some(Duty::Bit4),
        duty_from_bits(5) == Some(Duty::Bit5),
        duty_from_bits(6) == Some(Duty::Bit6),
        duty_from_bits(7) == Some(Duty::Bit7),
        duty_from_bits(8) == Some(Duty::Bit8),
        duty_from_bits(9) == Some(Duty::Bit9),
        duty_from_bits(10) == Some(Duty::Bit10),
        duty_from_bits(11) == Some(Duty::Bit11),
        duty_from_bits(12) == Some(Duty::Bit12),
        duty_from_bits(13) == Some(Duty::Bit13),
        duty_from_bits(14) == Some(Duty::Bit14),
        duty_from_bits(15) == Some(Duty::Bit15),
        duty_from_bits(16) == Some(Duty::Bit16),
        duty_from_bits(17) == Some(Duty::Bit17),
        duty_from_bits(18) == Some(Duty::Bit18),
        duty_from_bits(19) == Some(Duty::Bit19),
        duty_from_bits(20) == Some(Duty::Bit20),
{
}

impl TryFrom<u32> for Duty {
    type Error = ();

    fn try_from(value: u32) -> (r: Result<Self, Self::Error>) {
        match value {
            1 => Ok(Duty::Bit1),
            2 => Ok(Duty::Bit2),
            3 => Ok(Duty::Bit3),
            4 => Ok(Duty::Bit4),
            5 => Ok(Duty::Bit5),
            6 => Ok(Duty::Bit6),
            7 => Ok(Duty::Bit7),
            8 => Ok(Duty::Bit8),
            9 => Ok(Duty::Bit9),
            10 => Ok(Duty::Bit10),
            11 => Ok(Duty::Bit11),
            12 => Ok(Duty::Bit12),
            13 => Ok(Duty::Bit13),
            14 => Ok(Duty::Bit14),
            15 => Ok(Duty::Bit15),
            16 => Ok(Duty::Bit16),
            17 => Ok(Duty::Bit17),
            18 => Ok(Duty::Bit18),
            19 => Ok(Duty::Bit19),
            20 => Ok(Duty::Bit20),
            _ => Err(()),
        }
    }
}

impl vstd::std_specs::convert::TryFromSpecImpl<u32> for Duty {
    open spec fn obeys_try_from_spec() -> bool {
        true
    }

    open spec fn try_from_spec(value: u32) -> Result<Self, ()> {
        match duty_from_bits(value) {
            Some(d) => Ok(d),
            None => Err(()),
        }
    }
}

} // verus!

verus! {

/// Timer configuration
#[derive(Copy, Clone, Debug, PartialEq, Eq, Structural)]
pub struct Config {
    /// The duty cycle resolution.
    pub duty: Duty,
    /// The clock source for the timer.
    pub clock_source: ClockSource,
    /// The frequency of the PWM signal in Hertz.
    pub frequency: Rate,
}

impl Config {
    /// This configuration with the duty cycle resolution replaced.
    pub fn with_duty(self, duty: Duty) -> (r: Self)
        ensures
            r == (Config { duty, ..self }),
    {
        Config { duty, ..self }
    }

    /// This configuration with the clock source replaced.
    pub fn with_clock_source(self, clock_source: ClockSource) -> (r: Self)
        ensures
            r == (Config { clock_source, ..self }),
    {
        Config { clock_source, ..self }
    }

    /// This configuration with the PWM frequency replaced.
    pub fn with_frequency(self, frequency: Rate) -> (r: Self)
        ensures
            r == (Config { frequency, ..self }),
    {
        Config { frequency, ..self }
    }
}

impl Default for Config {
    /// 8-bit resolution, APB clock, 1 kHz.
    fn default() -> (r: Self)
        ensures
            r.duty == Duty::Bit8,
            r.clock_source == ClockSource::APBClk,
            r.frequency.hz() == 1000,
    {
        Config { duty: Duty::Bit8, clock_source: ClockSource::APBClk, frequency: Rate::from_khz(1) }
    }
}

/// The divider (with 8 fractional bits) that brings a `src_hz` clock down to
/// `freq_hz` PWM periods of `2^bits` counts each.
pub open spec fn clock_divisor(src_hz: nat, freq_hz: nat, bits: nat) -> nat {
    (src_hz * 256) / freq_hz / pow2(bits)
}

/// Whether the timer's divider register can hold `divisor`.
pub open spec fn divisor_fits(divisor: nat) -> bool {
    LEDC_TIMER_DIV_NUM_MIN <= divisor <= LEDC_TIMER_DIV_NUM_MAX
}

/// Whether a low-speed timer switches to REF_TICK: its source clock would
/// need a divider beyond the register's range.
pub open spec fn ls_uses_ref_tick(src_hz: nat, freq_hz: nat, bits: nat) -> bool {
    clock_divisor(src_hz, freq_hz, bits) > LEDC_TIMER_DIV_NUM_MAX
}

/// Whether a timer of the given speed ends up clocked from REF_TICK.
pub open spec fn uses_ref_tick(is_hs: bool, src_hz: nat, freq_hz: nat, bits: nat) -> bool {
    !is_hs && ls_uses_ref_tick(src_hz, freq_hz, bits)
}

/// The divider that a timer of the given speed computes.
pub open spec fn timer_divisor(is_hs: bool, src_hz: nat, freq_hz: nat, bits: nat) -> nat {
    if uses_ref_tick(is_hs, src_hz, freq_hz, bits) {
        clock_divisor(REF_TICK_HZ as nat, freq_hz, bits)
    } else {
        clock_divisor(src_hz, freq_hz, bits)
    }
}

/// The divider for `config` on a timer of the given speed whose source
/// clock runs at `src_hz`.
pub open spec fn config_divisor(is_hs: bool, config: Config, src_hz: u32) -> nat {
    timer_divisor(is_hs, src_hz as nat, config.frequency.hz() as nat, config.duty.spec_bits() as nat)
}

/// What applying `config` answers: `Err(FrequencyUnset)` for a frequency
/// of 0 Hz, `Err(Divisor)` when the divider falls outside the register's
/// range, and otherwise `Ok` with whether REF_TICK is used.
pub open spec fn apply_result(is_hs: bool, config: Config, src_hz: u32) -> Result<bool, Error> {
    if config.frequency.hz() == 0 {
        Err(Error::FrequencyUnset)
    } else if divisor_fits(config_divisor(is_hs, config, src_hz)) {
        Ok(uses_ref_tick(is_hs, src_hz as nat, config.frequency.hz() as nat, config.duty.spec_bits() as nat))
    } else {
        Err(Error::Divisor)
    }
}

/// The register work that applying `config` to timer `number` queues:
/// nothing when the divider is refused, else the timer's configuration
/// followed by the update that latches it.
pub open spec fn apply_ops(is_hs: bool, number: Number, config: Config, src_hz: u32) -> Seq<HwOp> {
    let divisor = config_divisor(is_hs, config, src_hz) as u32;
    let bits = config.duty.spec_bits();
    match apply_result(is_hs, config, src_hz) {
        Ok(use_ref_tick) => if is_hs {
            seq![
                HwOp::ConfigureHighSpeedTimer {
                    timer: number,
                    divisor,
                    duty_bits: bits,
                    clock_source: config.clock_source,
                },
                HwOp::UpdateHighSpeedTimers,
            ]
        } else {
            seq![
                HwOp::ConfigureLowSpeedTimer { timer: number, divisor, duty_bits: bits, use_ref_tick },
                HwOp::UpdateLowSpeedTimer { timer: number },
            ]
        },
        Err(_) => seq![],
    }
}

/// `2^n` as a `u64`.
fn pow2_u64(n: u64) -> (r: u64)
    requires
        n < 64,
    ensures
        r == pow2(n as nat),
{
    proof {
        vstd::bits::lemma_u64_pow2_no_overflow(n as nat);
        vstd::bits::lemma_u64_shl_is_mul(1u64, n);
    }
    1u64 << n
}

/// `clock_divisor` computed in 64-bit arithmetic.
fn compute_divisor(src_hz: u64, freq_hz: u32, bits: u8) -> (r: u64)
    requires
        src_hz <= u32::MAX,
        freq_hz > 0,
        bits <= 20,
    ensures
        r == clock_divisor(src_hz as nat, freq_hz as nat, bits as nat),
{
    proof {
        vstd::arithmetic::power2::lemma2_to64();
        vstd::bits::lemma_u64_shl_is_mul(src_hz, 8u64);
    }
    let precision = pow2_u64(bits as u64);
    (src_hz << 8u64) / (freq_hz as u64) / precision
}

/// Trait defining the type of timer source
pub trait TimerSpeed: Speed {
    /// Computes the divider for `config` from the source clock frequency
    /// `src_freq`, and queues the timer's configuration when the frequency
    /// is set and the divider fits.
    fn apply_config(number: Number, config: Config, src_freq: Rate, ops: &mut Vec<HwOp>) -> (r:
        Result<bool, Error>)
        ensures
            r == apply_result(Self::IS_HS, config, src_freq.hz()),
            final(ops)@ == old(ops)@ + apply_ops(Self::IS_HS, number, config, src_freq.hz()),
    ;
}

/// Timer source type for LowSpeed timers
impl TimerSpeed for LowSpeed {
    fn apply_config(number: Number, config: Config, src_freq: Rate, ops: &mut Vec<HwOp>) -> (r:
        Result<bool, Error>) {
        let src_hz: u32 = src_freq.as_hz();
        let bits: u8 = config.duty.bits();
        let frequency: u32 = config.frequency.as_hz();
        if frequency == 0 {
            return Err(Error::FrequencyUnset);
        }

        let mut divisor = compute_divisor(src_hz as u64, frequency, bits);
        let mut use_ref_tick = false;

        if divisor > LEDC_TIMER_DIV_NUM_MAX {
            // The source clock is too fast for this frequency: try REF_TICK.
            use_ref_tick = true;
            divisor = compute_divisor(REF_TICK_HZ, frequency, bits);
        }
        if !(LEDC_TIMER_DIV_NUM_MIN <= divisor && divisor <= LEDC_TIMER_DIV_NUM_MAX) {
            return Err(Error::Divisor);
        }
        ops.push(
            HwOp::ConfigureLowSpeedTimer {
                timer: number,
                divisor: divisor as u32,
                duty_bits: bits,
                use_ref_tick,
            },
        );
        ops.push(HwOp::UpdateLowSpeedTimer { timer: number });
        Ok(use_ref_tick)
    }
}

/// Timer source type for HighSpeed timers
impl TimerSpeed for HighSpeed {
    fn apply_config(number: Number, config: Config, src_freq: Rate, ops: &mut Vec<HwOp>) -> (r:
        Result<bool, Error>) {
        let src_hz: u32 = src_freq.as_hz();
        let bits: u8 = config.duty.bits();
        let frequency: u32 = config.frequency.as_hz();
        if frequency == 0 {
            return Err(Error::FrequencyUnset);
        }

        let divisor = compute_divisor(src_hz as u64, frequency, bits);

        if !(LEDC_TIMER_DIV_NUM_MIN <= divisor && divisor <= LEDC_TIMER_DIV_NUM_MAX) {
            return Err(Error::Divisor);
        }
        ops.push(
            HwOp::ConfigureHighSpeedTimer {
                timer: number,
                divisor: divisor as u32,
                duty_bits: bits,
                clock_source: config.clock_source,
            },
        );
        ops.push(HwOp::UpdateHighSpeedTimers);
        Ok(false)
    }
}

} // verus!

verus! {

/// Typestate indicating an unconfigured timer.
#[derive(Clone, Copy, Debug)]
pub struct Unconfigured;

/// Typestate indicating a configured timer.
#[derive(Clone, Copy, Debug)]
pub struct Configured {
    config: Config,
    use_ref_tick: bool,
}

/// Timer struct
#[derive(Debug)]
pub struct Timer<S: TimerSpeed, State = Unconfigured> {
    _phantom: core::marker::PhantomData<S>,
    number: Number,
    state: State,
}

impl<S: TimerSpeed, State> Timer<S, State> {
    /// Which of the four timers of its speed this is.
    pub closed spec fn timer_number(&self) -> Number {
        self.number
    }
}

impl<S: TimerSpeed> Timer<S, Unconfigured> {
    /// Create a new instance of a timer
    pub(crate) fn new(number: Number) -> (r: Self)
        ensures
            r.timer_number() == number,
    {
        Self { _phantom: core::marker::PhantomData, number, state: Unconfigured }
    }

    /// Configure the timer, its source clock running at `src_freq`.
    ///
    /// On success the timer keeps its number and holds `config`; the divider
    /// and resolution are queued on `ops`.  A frequency of 0 Hz gives
    /// `Error::FrequencyUnset` and a divider that does not fit
    /// `Error::Divisor`; either way nothing is queued.
    pub fn configure(self, config: Config, src_freq: Rate, ops: &mut Vec<HwOp>) -> (r: Result<
        Timer<S, Configured>,
        Error,
    >)
        ensures
            match r {
                Ok(t) => {
                    &&& apply_result(S::IS_HS, config, src_freq.hz()) == Ok::<bool, Error>(
                        t.uses_ref_tick(),
                    )
                    &&& t.timer_number() == self.timer_number()
                    &&& t.current_config() == config
                },
                Err(e) => apply_result(S::IS_HS, config, src_freq.hz()) == Err::<bool, Error>(e),
            },
            final(ops)@ == old(ops)@ + apply_ops(S::IS_HS, self.timer_number(), config, src_freq.hz()),
    {
        let use_ref_tick = S::apply_config(self.number, config, src_freq, ops)?;

        Ok(
            Timer {
                _phantom: core::marker::PhantomData,
                number: self.number,
                state: Configured { config, use_ref_tick },
            },
        )
    }
}

impl<S: TimerSpeed> Timer<S, Configured> {
    /// The configuration the timer was last given successfully.
    pub closed spec fn current_config(&self) -> Config {
        self.state.config
    }

    /// Whether the timer runs from REF_TICK.
    pub closed spec fn uses_ref_tick(&self) -> bool {
        self.state.use_ref_tick
    }

    /// Returns the current configuration of the timer
    pub fn config(&self) -> (r: Config)
        ensures
            r == self.current_config(),
    {
        self.state.config
    }

    /// Returns the timer number
    pub fn number(&self) -> (r: Number)
        ensures
            r == self.timer_number(),
    {
        self.number
    }

    /// Reconfigures the timer with new settings, its source clock running at
    /// `src_freq`.
    ///
    /// When the frequency is 0 Hz or the divider does not fit, the timer
    /// keeps its old settings and nothing is queued.
    pub fn reconfigure(&mut self, config: Config, src_freq: Rate, ops: &mut Vec<HwOp>) -> (r:
        Result<(), Error>)
        ensures
            final(self).timer_number() == old(self).timer_number(),
            final(self).current_config() == config_after(
                S::IS_HS,
                old(self).current_config(),
                seq![(config, src_freq.hz())],
            ),
            match apply_result(S::IS_HS, config, src_freq.hz()) {
                Ok(use_ref_tick) => {
                    &&& r == Ok::<(), Error>(())
                    &&& final(self).current_config() == config
                    &&& final(self).uses_ref_tick() == use_ref_tick
                },
                Err(e) => {
                    &&& r == Err::<(), Error>(e)
                    &&& *final(self) == *old(self)
                },
            },
            final(ops)@ == old(ops)@ + apply_ops(
                S::IS_HS,
                old(self).timer_number(),
                config,
                src_freq.hz(),
            ),
    {
        proof {
            reveal(accepted);
            lemma_config_after_one(S::IS_HS, self.state.config, (config, src_freq.hz()));
        }
        let use_ref_tick = S::apply_config(self.number, config, src_freq, ops)?;

        self.state.config = config;
        self.state.use_ref_tick = use_ref_tick;

        Ok(())
    }
}

} // verus!

verus! {

/// A configuration that is accepted queues exactly the timer's configuration
/// and its update, with a divider inside the register's range; a refused one
/// queues nothing.
pub proof fn lemma_accepted_divisor_fits(is_hs: bool, number: Number, config: Config, src_hz: u32)
    ensures
        apply_result(is_hs, config, src_hz) is Err <==> apply_ops(is_hs, number, config, src_hz)
            =~= Seq::<HwOp>::empty(),
        apply_result(is_hs, config, src_hz) is Ok ==> {
            &&& apply_ops(is_hs, number, config, src_hz).len() == 2
            &&& match apply_ops(is_hs, number, config, src_hz)[0] {
                HwOp::ConfigureLowSpeedTimer { timer, divisor, duty_bits, .. } => {
                    &&& !is_hs
                    &&& timer == number
                    &&& duty_bits == config.duty.spec_bits()
                    &&& LEDC_TIMER_DIV_NUM_MIN <= divisor <= LEDC_TIMER_DIV_NUM_MAX
                },
                HwOp::ConfigureHighSpeedTimer { timer, divisor, duty_bits, .. } => {
                    &&& is_hs
                    &&& timer == number
                    &&& duty_bits == config.duty.spec_bits()
                    &&& LEDC_TIMER_DIV_NUM_MIN <= divisor <= LEDC_TIMER_DIV_NUM_MAX
                },
                _ => false,
            }
        },
{
    if apply_result(is_hs, config, src_hz) is Ok {
        assert(apply_ops(is_hs, number, config, src_hz).len() == 2);
    }
}

/// High-speed timers never switch to REF_TICK; a low-speed timer does only
/// when its source clock would need a divider beyond the register's range.
pub proof fn lemma_ref_tick_use(config: Config, src_hz: u32)
    ensures
        apply_result(true, config, src_hz) is Ok ==> apply_result(true, config, src_hz) == Ok::<
            bool,
            Error,
        >(false),
        apply_result(false, config, src_hz) == Ok::<bool, Error>(true) ==> clock_divisor(
            src_hz as nat,
            config.frequency.hz() as nat,
            config.duty.spec_bits() as nat,
        ) > LEDC_TIMER_DIV_NUM_MAX,
{
}

/// The divider is the source clock (in 1/256ths) over the number of ticks
/// the requested frequency needs, rounded down: the timer runs at the
/// requested frequency or faster, by less than one divider unit.
pub proof fn lemma_divisor_brackets_frequency(src_hz: nat, freq_hz: nat, bits: nat)
    requires
        freq_hz > 0,
    ensures
        clock_divisor(src_hz, freq_hz, bits) * (freq_hz * pow2(bits)) <= src_hz * 256,
        src_hz * 256 < (clock_divisor(src_hz, freq_hz, bits) + 1) * (freq_hz * pow2(bits)),
{
    vstd::arithmetic::power2::lemma_pow2_pos(bits);
    let p = pow2(bits);
    let x = src_hz * 256;
    vstd::arithmetic::div_mod::lemma_div_denominator(x as int, freq_hz as int, p as int);
    let d = freq_hz * p;
    assert(d > 0) by (nonlinear_arith)
        requires
            freq_hz > 0,
            p > 0,
            d == freq_hz * p,
    ;
    let q = x / d;
    assert(q * d <= x && x < (q + 1) * d) by (nonlinear_arith)
        requires
            d > 0,
            q == x / d,
    ;
}

} // verus!

verus! {

/// The configuration a timer holds after `reconfigure` is called with each
/// of `attempts` (a configuration and the source clock in hertz) in turn,
/// starting from `initial`: an accepted attempt replaces the configuration,
/// a refused one leaves it as it was.
pub open spec fn config_after(is_hs: bool, initial: Config, attempts: Seq<(Config, u32)>) -> Config
    decreases attempts.len(),
{
    if attempts.len() == 0 {
        initial
    } else {
        let last = attempts.last();
        if accepted(is_hs, last) {
            last.0
        } else {
            config_after(is_hs, initial, attempts.drop_last())
        }
    }
}

/// Whether reconfiguring with `attempt` is accepted.
#[verifier::opaque]
pub open spec fn accepted(is_hs: bool, attempt: (Config, u32)) -> bool {
    apply_result(is_hs, attempt.0, attempt.1) is Ok
}

/// A timer's configuration is the last one accepted: after a run of
/// reconfigurations it is the configuration of the last accepted attempt,
/// or the one it started with when none was accepted.
pub proof fn lemma_config_is_last_accepted(is_hs: bool, initial: Config, attempts: Seq<(Config, u32)>)
    ensures
        (forall|i: int| 0 <= i < attempts.len() ==> !accepted(is_hs, #[trigger] attempts[i]))
            ==> config_after(is_hs, initial, attempts) == initial,
        forall|k: int|
            0 <= k < attempts.len() && accepted(is_hs, #[trigger] attempts[k]) && (forall|i: int|
                k < i < attempts.len() ==> !accepted(is_hs, #[trigger] attempts[i])) ==> config_after(
                is_hs,
                initial,
                attempts,
            ) == attempts[k].0,
{
    if forall|i: int| 0 <= i < attempts.len() ==> !accepted(is_hs, #[trigger] attempts[i]) {
        lemma_none_accepted(is_hs, initial, attempts);
    }
    assert forall|k: int|
        0 <= k < attempts.len() && accepted(is_hs, #[trigger] attempts[k]) && (forall|i: int|
            k < i < attempts.len() ==> !accepted(is_hs, #[trigger] attempts[i])) implies config_after(
        is_hs,
        initial,
        attempts,
    ) == attempts[k].0 by {
        lemma_last_accepted(is_hs, initial, attempts, k);
    }
}

proof fn lemma_none_accepted(is_hs: bool, initial: Config, attempts: Seq<(Config, u32)>)
    requires
        forall|i: int| 0 <= i < attempts.len() ==> !accepted(is_hs, #[trigger] attempts[i]),
    ensures
        config_after(is_hs, initial, attempts) == initial,
    decreases attempts.len(),
{
    if attempts.len() > 0 {
        let prefix = attempts.drop_last();
        assert(!accepted(is_hs, attempts[attempts.len() - 1]));
        assert forall|i: int| 0 <= i < prefix.len() implies !accepted(is_hs, #[trigger] prefix[i]) by {
            assert(prefix[i] == attempts[i]);
        }
        lemma_none_accepted(is_hs, initial, prefix);
    }
}

proof fn lemma_last_accepted(is_hs: bool, initial: Config, attempts: Seq<(Config, u32)>, k: int)
    requires
        0 <= k < attempts.len(),
        accepted(is_hs, attempts[k]),
        forall|i: int| k < i < attempts.len() ==> !accepted(is_hs, #[trigger] attempts[i]),
    ensures
        config_after(is_hs, initial, attempts) == attempts[k].0,
    decreases attempts.len(),
{
    let n = attempts.len() - 1;
    if k < n {
        let prefix = attempts.drop_last();
        assert(!accepted(is_hs, attempts[n]));
        assert(prefix[k] == attempts[k]);
        assert forall|i: int| k < i < prefix.len() implies !accepted(is_hs, #[trigger] prefix[i]) by {
            assert(prefix[i] == attempts[i]);
        }
        lemma_last_accepted(is_hs, initial, prefix, k);
    }
}

/// A single reconfiguration, as `reconfigure` states it, is one step of
/// `config_after`: the attempt's configuration if accepted, else the old one.
pub proof fn lemma_config_after_one(is_hs: bool, initial: Config, attempt: (Config, u32))
    ensures
        config_after(is_hs, initial, seq![attempt]) == if accepted(is_hs, attempt) {
            attempt.0
        } else {
            initial
        },
{
    reveal(accepted);
    let one = seq![attempt];
    assert(one.drop_last() =~= Seq::<(Config, u32)>::empty());
    assert(one.last() == attempt);
    assert(config_after(is_hs, initial, Seq::<(Config, u32)>::empty()) == initial);
}

/// Reconfiguring once more extends the run: the configuration after the
/// longer run is one step of `config_after` from the configuration after the
/// shorter one.  With `reconfigure`'s contract this ties every run of calls
/// to `config_after` of the attempts made so far.
pub proof fn lemma_config_after_push(
    is_hs: bool,
    initial: Config,
    attempts: Seq<(Config, u32)>,
    attempt: (Config, u32),
)
    ensures
        config_after(is_hs, initial, attempts.push(attempt)) == config_after(
            is_hs,
            config_after(is_hs, initial, attempts),
            seq![attempt],
        ),
{
    assert(attempts.push(attempt).drop_last() =~= attempts);
    assert(attempts.push(attempt).last() == attempt);
    lemma_config_after_one(is_hs, config_after(is_hs, initial, attempts), attempt);
}

/// Where a floor quotient `x / k` lies against the divider register's
/// limits, in terms of `x` and `k` alone.
proof fn lemma_quotient_range(x: nat, k: nat)
    requires
        k > 0,
    ensures
        x / k >= LEDC_TIMER_DIV_NUM_MIN <==> x >= LEDC_TIMER_DIV_NUM_MIN * k,
        x / k > LEDC_TIMER_DIV_NUM_MAX <==> x >= (LEDC_TIMER_DIV_NUM_MAX + 1) * k,
{
    let q = x / k;
    assert(q * k <= x && x < (q + 1) * k) by (nonlinear_arith)
        requires
            k > 0,
            q == x / k,
    ;
    assert(q >= 256 <==> x >= 256 * k) by (nonlinear_arith)
        requires
            k > 0,
            q * k <= x,
            x < (q + 1) * k,
    ;
    assert(q > 0x3FFFF <==> x >= 0x40000 * k) by (nonlinear_arith)
        requires
            k > 0,
            q * k <= x,
            x < (q + 1) * k,
    ;
}

/// `clock_divisor` is the source clock in 1/256ths over the ticks per second
/// the frequency and resolution need.
proof fn lemma_clock_divisor_quotient(src_hz: nat, freq_hz: nat, bits: nat)
    requires
        freq_hz > 0,
    ensures
        freq_hz * pow2(bits) > 0,
        clock_divisor(src_hz, freq_hz, bits) == (src_hz * 256) / (freq_hz * pow2(bits)),
{
    vstd::arithmetic::power2::lemma_pow2_pos(bits);
    vstd::arithmetic::div_mod::lemma_div_denominator((src_hz * 256) as int, freq_hz as int, pow2(bits) as int);
    assert(freq_hz * pow2(bits) > 0) by (nonlinear_arith)
        requires
            freq_hz > 0,
            pow2(bits) > 0,
    ;
}

/// What configuring a timer answers, in terms of the frequency `f`, the
/// resolution's `b` bits and the source clock alone, with `k = f * 2^b` the
/// ticks per second the timer must produce.  A clock of `c` Hz gives a
/// divider that fits exactly when `256 * k <= 256 * c < 0x40000 * k`.
///  - 0 Hz is refused as `FrequencyUnset`.
///  - When the source clock's divider fits, the timer runs from it.
///  - A high-speed timer is refused as `Divisor` otherwise.
///  - A low-speed timer whose source clock is too fast (`256 * c >= 0x40000
///    * k`) runs from REF_TICK if REF_TICK's divider fits, and is refused as
///    `Divisor` if not; one whose source clock is too slow is refused.
pub proof fn lemma_timer_outcome(is_hs: bool, config: Config, src_hz: u32)
    ensures
        ({
            let f = config.frequency.hz() as nat;
            let k = f * pow2(config.duty.spec_bits() as nat);
            let src_fits = 256 * k <= src_hz * 256 && src_hz * 256 < 0x40000 * k;
            let src_too_fast = src_hz * 256 >= 0x40000 * k;
            let ref_fits = 256 * k <= REF_TICK_HZ * 256 && REF_TICK_HZ * 256 < 0x40000 * k;
            let r = apply_result(is_hs, config, src_hz);
            &&& f == 0 ==> r == Err::<bool, Error>(Error::FrequencyUnset)
            &&& f > 0 && src_fits ==> r == Ok::<bool, Error>(false)
            &&& f > 0 && is_hs && !src_fits ==> r == Err::<bool, Error>(Error::Divisor)
            &&& f > 0 && !is_hs && src_too_fast && ref_fits ==> r == Ok::<bool, Error>(true)
            &&& f > 0 && !is_hs && src_too_fast && !ref_fits ==> r == Err::<bool, Error>(
                Error::Divisor,
            )
            &&& f > 0 && !is_hs && !src_fits && !src_too_fast ==> r == Err::<bool, Error>(
                Error::Divisor,
            )
        }),
{
    let f = config.frequency.hz() as nat;
    let b = config.duty.spec_bits() as nat;
    if f > 0 {
        lemma_clock_divisor_quotient(src_hz as nat, f, b);
        lemma_clock_divisor_quotient(REF_TICK_HZ as nat, f, b);
        let k = f * pow2(b);
        lemma_quotient_range(src_hz as nat * 256, k);
        lemma_quotient_range(REF_TICK_HZ as nat * 256, k);
    }
}

/// A low-speed configuration whose source clock needs a divider beyond the
/// register's range, and whose REF_TICK divider fits, is accepted on
/// REF_TICK; one whose source divider fits is accepted on the source clock.
pub proof fn lemma_ls_ref_tick_fallback(config: Config, src_hz: u32)
    requires
        config.frequency.hz() > 0,
    ensures
        clock_divisor(src_hz as nat, config.frequency.hz() as nat, config.duty.spec_bits() as nat)
            > LEDC_TIMER_DIV_NUM_MAX && divisor_fits(
            clock_divisor(
                REF_TICK_HZ as nat,
                config.frequency.hz() as nat,
                config.duty.spec_bits() as nat,
            ),
        ) ==> apply_result(false, config, src_hz) == Ok::<bool, Error>(true),
        divisor_fits(
            clock_divisor(
                src_hz as nat,
                config.frequency.hz() as nat,
                config.duty.spec_bits() as nat,
            ),
        ) ==> apply_result(false, config, src_hz) == Ok::<bool, Error>(false),
{
}

} // verus!
