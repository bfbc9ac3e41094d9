use ledc::hw::HwOp;
use ledc::rate::Rate;
use ledc::timer::{self, ClockSource, Duty};
use ledc::{LSGlobalClkSource, Ledc};

fn config(duty: Duty, hz: u32) -> timer::Config {
    timer::Config { duty, clock_source: ClockSource::APBClk, frequency: Rate::from_hz(hz) }
}

fn fresh() -> (Ledc, Vec<HwOp>) {
    let mut ops = Vec::new();
    let ledc = Ledc::new(LSGlobalClkSource::APBClk, true, &mut ops);
    ops.clear();
    (ledc, ops)
}

#[test]
fn duty_try_from_accepts_one_to_twenty() {
    for v in 1u32..=20 {
        let d = Duty::try_from(v).unwrap();
        assert_eq!(d.bits() as u32, v);
    }
    assert_eq!(Duty::try_from(10), Ok(Duty::Bit10));
    assert_eq!(Duty::try_from(20), Ok(Duty::Bit20));
}

#[test]
fn duty_try_from_rejects_out_of_range() {
    assert_eq!(Duty::try_from(0), Err(()));
    assert_eq!(Duty::try_from(21), Err(()));
    assert_eq!(Duty::try_from(u32::MAX), Err(()));
}

#[test]
fn rate_conversions() {
    assert_eq!(Rate::from_hz(123).as_hz(), 123);
    assert_eq!(Rate::from_khz(24).as_hz(), 24_000);
    assert_eq!(Rate::from_mhz(80).as_hz(), 80_000_000);
}

#[test]
fn config_default_and_builders() {
    let c = timer::Config::default();
    assert_eq!(c.duty, Duty::Bit8);
    assert_eq!(c.clock_source, ClockSource::APBClk);
    assert_eq!(c.frequency.as_hz(), 1000);
    let c = c.with_duty(Duty::Bit12).with_frequency(Rate::from_khz(5)).with_clock_source(ClockSource::APBClk);
    assert_eq!(c.duty, Duty::Bit12);
    assert_eq!(c.frequency.as_hz(), 5000);
}

#[test]
fn low_speed_timer_programs_divisor() {
    let (ledc, mut ops) = fresh();
    // 80 MHz * 256 / 24 kHz / 1024 = 833.33..
    let t = ledc.timer1.configure(config(Duty::Bit10, 24_000), Rate::from_mhz(80), &mut ops).unwrap();
    assert_eq!(
        ops,
        vec![
            HwOp::ConfigureLowSpeedTimer { timer: timer::Number::Timer1, divisor: 833, duty_bits: 10, use_ref_tick: false },
            HwOp::UpdateLowSpeedTimer { timer: timer::Number::Timer1 },
        ]
    );
    assert_eq!(t.number(), timer::Number::Timer1);
    assert_eq!(t.config(), config(Duty::Bit10, 24_000));
}

#[test]
fn low_speed_timer_falls_back_to_ref_tick() {
    let (ledc, mut ops) = fresh();
    // From 80 MHz the divider would be 2_000_000; from 1 MHz it is 25_000.
    let t = ledc.timer0.configure(config(Duty::Bit10, 10), Rate::from_mhz(80), &mut ops);
    assert!(t.is_ok());
    assert_eq!(
        ops,
        vec![
            HwOp::ConfigureLowSpeedTimer { timer: timer::Number::Timer0, divisor: 25_000, duty_bits: 10, use_ref_tick: true },
            HwOp::UpdateLowSpeedTimer { timer: timer::Number::Timer0 },
        ]
    );
}

#[test]
fn high_speed_timer_has_no_ref_tick() {
    let (ledc, mut ops) = fresh();
    let t = ledc.hs_timer0.configure(config(Duty::Bit10, 10), Rate::from_mhz(80), &mut ops);
    assert_eq!(t.err(), Some(timer::Error::Divisor));
    assert!(ops.is_empty());
}

#[test]
fn high_speed_timer_programs_divisor() {
    let (ledc, mut ops) = fresh();
    let t = ledc.hs_timer2.configure(config(Duty::Bit20, 50), Rate::from_mhz(80), &mut ops);
    assert!(t.is_ok());
    assert_eq!(
        ops,
        vec![
            HwOp::ConfigureHighSpeedTimer { timer: timer::Number::Timer2, divisor: 390, duty_bits: 20, clock_source: ClockSource::APBClk },
            HwOp::UpdateHighSpeedTimers,
        ]
    );
}

#[test]
fn divisor_below_one_is_refused() {
    let (ledc, mut ops) = fresh();
    // 80 MHz * 256 / 40 MHz / 1024 = 0
    let t = ledc.timer2.configure(config(Duty::Bit10, 40_000_000), Rate::from_mhz(80), &mut ops);
    assert_eq!(t.err(), Some(timer::Error::Divisor));
    assert!(ops.is_empty());
}

#[test]
fn divisor_at_register_limits() {
    let (ledc, mut ops) = fresh();
    // 256 * 256 / 1 / 256 == 256: the smallest accepted divider.
    assert!(ledc.timer0.configure(config(Duty::Bit8, 1), Rate::from_hz(256), &mut ops).is_ok());
    assert_eq!(ops[0], HwOp::ConfigureLowSpeedTimer { timer: timer::Number::Timer0, divisor: 256, duty_bits: 8, use_ref_tick: false });
    // 255 Hz gives 255: too small.
    ops.clear();
    assert_eq!(ledc.hs_timer0.configure(config(Duty::Bit8, 1), Rate::from_hz(255), &mut ops).err(), Some(timer::Error::Divisor));
    assert!(ops.is_empty());
    // 0x3FFFF is the largest accepted divider.
    assert!(ledc.hs_timer1.configure(config(Duty::Bit8, 1), Rate::from_hz(0x3FFFF), &mut ops).is_ok());
    assert_eq!(ops[0], HwOp::ConfigureHighSpeedTimer { timer: timer::Number::Timer1, divisor: 0x3FFFF, duty_bits: 8, clock_source: ClockSource::APBClk });
    ops.clear();
    assert_eq!(ledc.hs_timer2.configure(config(Duty::Bit8, 1), Rate::from_hz(0x40000), &mut ops).err(), Some(timer::Error::Divisor));
}

#[test]
fn reconfigure_keeps_old_settings_on_error() {
    let (ledc, mut ops) = fresh();
    let mut t = ledc.timer3.configure(config(Duty::Bit10, 24_000), Rate::from_mhz(80), &mut ops).unwrap();
    ops.clear();
    assert_eq!(t.reconfigure(config(Duty::Bit10, 40_000_000), Rate::from_mhz(80), &mut ops), Err(timer::Error::Divisor));
    assert!(ops.is_empty());
    assert_eq!(t.config(), config(Duty::Bit10, 24_000));
    assert_eq!(t.number(), timer::Number::Timer3);

    assert_eq!(t.reconfigure(config(Duty::Bit8, 1000), Rate::from_mhz(80), &mut ops), Ok(()));
    assert_eq!(t.config(), config(Duty::Bit8, 1000));
    assert_eq!(t.number(), timer::Number::Timer3);
    // 80 MHz * 256 / 1 kHz / 256 = 80_000
    assert_eq!(
        ops,
        vec![
            HwOp::ConfigureLowSpeedTimer { timer: timer::Number::Timer3, divisor: 80_000, duty_bits: 8, use_ref_tick: false },
            HwOp::UpdateLowSpeedTimer { timer: timer::Number::Timer3 },
        ]
    );
}

#[test]
fn timer_number_indices() {
    assert_eq!(timer::Number::Timer0.index(), 0);
    assert_eq!(timer::Number::Timer3.index(), 3);
}

#[test]
fn zero_frequency_is_refused_as_unset() {
    let (ledc, mut ops) = fresh();
    let t = ledc.timer0.configure(config(Duty::Bit8, 0), Rate::from_mhz(80), &mut ops);
    assert_eq!(t.err(), Some(timer::Error::FrequencyUnset));
    assert_eq!(ledc.hs_timer0.configure(config(Duty::Bit8, 0), Rate::from_mhz(80), &mut ops).err(), Some(timer::Error::FrequencyUnset));
    assert!(ops.is_empty());
    let mut t = ledc.timer1.configure(config(Duty::Bit8, 1000), Rate::from_mhz(80), &mut ops).unwrap();
    ops.clear();
    assert_eq!(t.reconfigure(config(Duty::Bit8, 0), Rate::from_mhz(80), &mut ops), Err(timer::Error::FrequencyUnset));
    assert!(ops.is_empty());
    assert_eq!(t.config(), config(Duty::Bit8, 1000));
}

#[test]
fn run_of_reconfigurations_keeps_last_accepted() {
    let (ledc, mut ops) = fresh();
    let mut t = ledc.timer2.configure(config(Duty::Bit8, 1000), Rate::from_mhz(80), &mut ops).unwrap();
    let attempts = [(Duty::Bit10, 24_000, true), (Duty::Bit10, 40_000_000, false), (Duty::Bit8, 0, false), (Duty::Bit12, 5000, true), (Duty::Bit1, 1, false)];
    let mut expected = config(Duty::Bit8, 1000);
    for (duty, hz, ok) in attempts {
        let r = t.reconfigure(config(duty, hz), Rate::from_mhz(80), &mut ops);
        assert_eq!(r.is_ok(), ok);
        if ok {
            expected = config(duty, hz);
        }
        assert_eq!(t.config(), expected);
        assert_eq!(t.number(), timer::Number::Timer2);
    }
}
