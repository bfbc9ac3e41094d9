use ledc::channel::{self, Channel, Configured, Error, FadeError};
use ledc::hw::{DriveMode, HwOp, HwQuery};
use ledc::rate::Rate;
use ledc::timer::{self, ClockSource, Duty, Timer};
use ledc::{HighSpeed, LSGlobalClkSource, Ledc, LowSpeed};

const CH: channel::Number = channel::Number::Channel0;

fn low_speed_timer(duty: Duty, hz: u32) -> (Ledc, Timer<LowSpeed, timer::Configured>) {
    let mut ops = Vec::new();
    let mut ledc = Ledc::new(LSGlobalClkSource::APBClk, true, &mut ops);
    let cfg = timer::Config { duty, clock_source: ClockSource::APBClk, frequency: Rate::from_hz(hz) };
    let t = core::mem::replace(&mut ledc.timer0, unconfigured_stand_in())
        .configure(cfg, Rate::from_mhz(80), &mut ops)
        .unwrap();
    (ledc, t)
}

fn unconfigured_stand_in() -> Timer<LowSpeed> {
    let mut ops = Vec::new();
    Ledc::new(LSGlobalClkSource::APBClk, true, &mut ops).timer0
}

fn configured(duty: Duty, hz: u32) -> Channel<LowSpeed, Configured> {
    let (ledc, t) = low_speed_timer(duty, hz);
    let mut ops = Vec::new();
    ledc.channel0
        .configure(channel::Config { timer: &t, duty: 0, pin_config: DriveMode::PushPull }, Some(4), &mut ops)
        .unwrap()
}

fn duty_ops(duty: u32) -> Vec<HwOp> {
    vec![
        HwOp::SetDuty { channel: CH, is_hs: false, duty },
        HwOp::StartDutyWithoutFading { channel: CH, is_hs: false },
        HwOp::UpdateChannel { channel: CH, is_hs: false },
    ]
}

#[test]
fn configure_caps_initial_duty_at_full_period() {
    let (ledc, t) = low_speed_timer(Duty::Bit10, 24_000);
    let mut ops = Vec::new();
    let cfg = channel::Config { timer: &t, duty: 0, pin_config: DriveMode::PushPull }
        .with_duty(5000)
        .with_pin_config(DriveMode::OpenDrain);
    let ch = ledc.channel0.configure(cfg, Some(18), &mut ops).unwrap();
    assert_eq!(
        ops,
        vec![
            HwOp::SetChannelTimer { channel: CH, timer_index: 0, is_hs: false },
            HwOp::StartDutyWithoutFading { channel: CH, is_hs: false },
            HwOp::SetDuty { channel: CH, is_hs: false, duty: 1024 },
            HwOp::UpdateChannel { channel: CH, is_hs: false },
            HwOp::ConnectOutput { channel: CH, is_hs: false, pin: Some(18), drive_mode: DriveMode::OpenDrain },
        ]
    );
    assert_eq!(ch.duty_resolution(), Duty::Bit10);
    assert_eq!(ch.timer_frequency(), 24_000);
}

#[test]
fn configure_keeps_small_initial_duty() {
    let (ledc, t) = low_speed_timer(Duty::Bit10, 24_000);
    let mut ops = Vec::new();
    let _ch = ledc.channel3
        .configure(channel::Config { timer: &t, duty: 300, pin_config: DriveMode::PushPull }, Some(4), &mut ops)
        .unwrap();
    assert_eq!(ops[2], HwOp::SetDuty { channel: channel::Number::Channel3, is_hs: false, duty: 300 });
}

#[test]
fn set_duty_caps_at_full_period() {
    let ch = configured(Duty::Bit10, 24_000);
    let mut ops = Vec::new();
    assert_eq!(ch.set_duty(100, &mut ops), Ok(()));
    assert_eq!(ops, duty_ops(100));
    ops.clear();
    assert_eq!(ch.set_duty(1024, &mut ops), Ok(()));
    assert_eq!(ops, duty_ops(1024));
    ops.clear();
    assert_eq!(ch.set_duty(u32::MAX, &mut ops), Ok(()));
    assert_eq!(ops, duty_ops(1024));
}

#[test]
fn percent_to_duty_values() {
    let ch = configured(Duty::Bit10, 24_000);
    assert_eq!(ch.percent_to_duty(0), 0);
    assert_eq!(ch.percent_to_duty(10), 102);
    assert_eq!(ch.percent_to_duty(50), 511);
    assert_eq!(ch.percent_to_duty(100), 1023);
    assert_eq!(ch.percent_to_duty(255), 1023);
    let ch = configured(Duty::Bit1, 1_000_000);
    assert_eq!(ch.percent_to_duty(99), 0);
    assert_eq!(ch.percent_to_duty(100), 1);
}

#[test]
fn percent_to_duty_is_monotone() {
    let ch = configured(Duty::Bit13, 1000);
    let mut last = 0;
    for p in 0u8..=255 {
        let d = ch.percent_to_duty(p);
        assert!(d >= last);
        assert!(d <= 8191);
        last = d;
    }
    assert_eq!(last, 8191);
}

#[test]
fn set_duty_pct_sets_percent_duty() {
    let ch = configured(Duty::Bit8, 1000);
    let mut ops = Vec::new();
    assert_eq!(ch.set_duty_pct(50, &mut ops), Ok(()));
    assert_eq!(ops, duty_ops(127));
}

#[test]
fn start_duty_fade_full_range() {
    let ch = configured(Duty::Bit10, 24_000);
    let mut ops = Vec::new();
    let max = ch.percent_to_duty(100);
    // 24_000 periods over 1023 steps: 23 periods per step.
    assert_eq!(ch.start_duty_fade(0, max, 1000, &mut ops), Ok(()));
    assert_eq!(
        ops,
        vec![
            HwOp::StartDutyFade {
                channel: CH,
                is_hs: false,
                start_duty: 0,
                duty_inc: true,
                duty_steps: 1023,
                cycles_per_step: 23,
                duty_per_cycle: 1,
            },
            HwOp::UpdateChannel { channel: CH, is_hs: false },
        ]
    );
    ops.clear();
    // Values above the maximum are capped; fading down.
    assert_eq!(ch.start_duty_fade(5000, 0, 1000, &mut ops), Ok(()));
    assert_eq!(
        ops[0],
        HwOp::StartDutyFade {
            channel: CH,
            is_hs: false,
            start_duty: 1023,
            duty_inc: false,
            duty_steps: 1023,
            cycles_per_step: 23,
            duty_per_cycle: 1,
        }
    );
}

#[test]
fn start_duty_fade_too_slow_is_refused() {
    let ch = configured(Duty::Bit10, 24_000);
    let mut ops = Vec::new();
    // 24_000 periods over 10 steps: 2400 periods per step.
    assert_eq!(ch.start_duty_fade(0, 10, 1000, &mut ops), Err(Error::Fade(FadeError::Duration)));
    assert!(ops.is_empty());
    // 24 steps: 1000 periods per step is accepted.
    assert_eq!(ch.start_duty_fade(0, 24, 1000, &mut ops), Ok(()));
    ops.clear();
    // 23 steps: 1043 periods per step is refused.
    assert_eq!(ch.start_duty_fade(0, 23, 1000, &mut ops), Err(Error::Fade(FadeError::Duration)));
    assert!(ops.is_empty());
}

#[test]
fn start_duty_fade_refusal_grows_with_duration() {
    let ch = configured(Duty::Bit10, 24_000);
    let mut ops = Vec::new();
    let mut refused = false;
    for d in (0u16..=60_000).step_by(500) {
        let r = ch.start_duty_fade(100, 200, d, &mut ops);
        if refused {
            assert!(r.is_err());
        }
        refused = r.is_err();
    }
    assert!(refused);
}

#[test]
fn start_duty_fade_wide_range_splits_steps() {
    let mut ops = Vec::new();
    let mut ledc = Ledc::new(LSGlobalClkSource::APBClk, true, &mut ops);
    let cfg = timer::Config { duty: Duty::Bit20, clock_source: ClockSource::APBClk, frequency: Rate::from_hz(50) };
    let t: Timer<HighSpeed, timer::Configured> = {
        let mut fresh = Vec::new();
        let stand_in = Ledc::new(LSGlobalClkSource::APBClk, true, &mut fresh).hs_timer1;
        core::mem::replace(&mut ledc.hs_timer1, stand_in).configure(cfg, Rate::from_mhz(80), &mut ops).unwrap()
    };
    ops.clear();
    let ch = ledc.hs_channel5
        .configure(channel::Config { timer: &t, duty: 0, pin_config: DriveMode::PushPull }, Some(4), &mut ops)
        .unwrap();
    ops.clear();
    // 0 to 2^20 - 1: 61680 steps of 17, starting 15 in so that the fade
    // ends at 2^20 - 1; 3276 periods over 61680 steps: 0 per step.
    assert_eq!(ch.start_duty_fade(0, u32::MAX, 65_535, &mut ops), Ok(()));
    assert_eq!(
        ops,
        vec![
            HwOp::StartDutyFade {
                channel: channel::Number::Channel5,
                is_hs: true,
                start_duty: 15,
                duty_inc: true,
                duty_steps: 61_680,
                cycles_per_step: 0,
                duty_per_cycle: 17,
            },
            HwOp::UpdateChannel { channel: channel::Number::Channel5, is_hs: true },
        ]
    );
    assert_eq!(15 + 61_680 * 17, (1u32 << 20) - 1);
    ops.clear();
    // A change of 131069: 65534 steps of 2, one value in; and back down.
    assert_eq!(ch.start_duty_fade(0, 131_069, 65_535, &mut ops), Ok(()));
    assert_eq!(
        ops[0],
        HwOp::StartDutyFade {
            channel: channel::Number::Channel5,
            is_hs: true,
            start_duty: 1,
            duty_inc: true,
            duty_steps: 65_534,
            cycles_per_step: 0,
            duty_per_cycle: 2,
        }
    );
    ops.clear();
    assert_eq!(ch.start_duty_fade(131_069, 0, 65_535, &mut ops), Ok(()));
    assert_eq!(
        ops[0],
        HwOp::StartDutyFade {
            channel: channel::Number::Channel5,
            is_hs: true,
            start_duty: 131_068,
            duty_inc: false,
            duty_steps: 65_534,
            cycles_per_step: 0,
            duty_per_cycle: 2,
        }
    );
}

#[test]
fn start_duty_fade_without_range_is_refused() {
    let ch = configured(Duty::Bit10, 24_000);
    let mut ops = Vec::new();
    assert_eq!(ch.start_duty_fade(5, 5, 1000, &mut ops), Err(Error::Fade(FadeError::Duration)));
    // Both capped at 1023.
    assert_eq!(ch.start_duty_fade(2000, 1023, 1000, &mut ops), Err(Error::Fade(FadeError::Duration)));
    assert!(ops.is_empty());
}

#[test]
fn start_duty_fade_long_and_fast_is_refused_not_overflowing() {
    // 65535 ms at 70 kHz is 4_587_450_000 / 1000 periods.
    let ch = configured(Duty::Bit10, 70_000);
    let mut ops = Vec::new();
    assert_eq!(ch.start_duty_fade(0, 1023, 65_535, &mut ops), Err(Error::Fade(FadeError::Duration)));
    assert!(ops.is_empty());
    // 40 ms: 2800 periods over 1023 steps: 2 per step.
    assert_eq!(ch.start_duty_fade(0, 1023, 40, &mut ops), Ok(()));
}

#[test]
fn is_duty_fade_running_reads_channel_status() {
    let ch = configured(Duty::Bit10, 24_000);
    assert_eq!(ch.is_duty_fade_running(), HwQuery::DutyFadeRunning { channel: CH, is_hs: false });
}

#[test]
fn into_inner_turns_output_off_and_returns_pin() {
    let ch = configured(Duty::Bit10, 24_000);
    let mut ops = Vec::new();
    let (unconfigured, pin) = ch.into_inner(&mut ops);
    assert_eq!(pin, Some(4));
    assert_eq!(
        ops,
        vec![
            HwOp::SetDuty { channel: CH, is_hs: false, duty: 0 },
            HwOp::UpdateChannel { channel: CH, is_hs: false },
            HwOp::DisconnectOutput { channel: CH, is_hs: false, pin: Some(4) },
        ]
    );
    // The channel can be configured again, with another output.
    let (_ledc, t) = low_speed_timer(Duty::Bit8, 1000);
    ops.clear();
    let ch = unconfigured
        .configure(channel::Config { timer: &t, duty: 7, pin_config: DriveMode::PushPull }, None, &mut ops)
        .unwrap();
    assert_eq!(ops[4], HwOp::ConnectOutput { channel: CH, is_hs: false, pin: None, drive_mode: DriveMode::PushPull });
    ops.clear();
    assert_eq!(ch.into_inner(&mut ops).1, None);
    assert_eq!(ops[2], HwOp::DisconnectOutput { channel: CH, is_hs: false, pin: None });
}

#[test]
fn max_duty_cycle_and_set_duty_cycle() {
    let mut ch = configured(Duty::Bit10, 24_000);
    assert_eq!(ch.max_duty_cycle(), 1023);
    assert_eq!(ch.max_duty_cycle() as u32, ch.percent_to_duty(100));
    let mut ops = Vec::new();
    assert_eq!(ch.set_duty_cycle(2000, &mut ops), Ok(()));
    assert_eq!(ops, duty_ops(1023));
    ops.clear();
    assert_eq!(ch.set_duty_cycle(10, &mut ops), Ok(()));
    assert_eq!(ops, duty_ops(10));
    let ch = configured(Duty::Bit15, 100);
    assert_eq!(ch.max_duty_cycle(), 0x7FFF);
}

#[test]
fn channel_number_indices() {
    assert_eq!(channel::Number::Channel0.index(), 0);
    assert_eq!(channel::Number::Channel7.index(), 7);
}

#[test]
fn start_duty_fade_refused_at_higher_frequency_and_coarser_resolution() {
    let mut ops = Vec::new();
    // 1000 ms at 1 kHz over 100 steps: 10 periods per step.
    let slow = configured(Duty::Bit10, 1000);
    assert_eq!(slow.start_duty_fade(0, 100, 1000, &mut ops), Ok(()));
    // At 200 kHz: 2000 periods per step.
    let fast = configured(Duty::Bit8, 200_000);
    assert_eq!(fast.start_duty_fade(0, 100, 1000, &mut ops), Err(Error::Fade(FadeError::Duration)));
    // At 24 kHz with 10 bits, 0 to 1000 takes 24 periods per step; with 4
    // bits the end is capped at 15 and each step takes 1600 periods.
    let fine = configured(Duty::Bit10, 24_000);
    assert_eq!(fine.start_duty_fade(0, 1000, 1000, &mut ops), Ok(()));
    let coarse = configured(Duty::Bit4, 24_000);
    assert_eq!(coarse.start_duty_fade(0, 1000, 1000, &mut ops), Err(Error::Fade(FadeError::Duration)));
}
