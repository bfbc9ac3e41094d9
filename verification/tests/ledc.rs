use ledc::channel;
use ledc::hw::HwOp;
use ledc::timer;
use ledc::{LSGlobalClkSource, Ledc};

#[test]
fn new_resets_a_newly_clocked_peripheral() {
    let mut ops = Vec::new();
    let _ledc = Ledc::new(LSGlobalClkSource::APBClk, true, &mut ops);
    assert_eq!(
        ops,
        vec![HwOp::ResetPeripheral, HwOp::SetGlobalSlowClock { slow_clock: LSGlobalClkSource::APBClk }]
    );
}

#[test]
fn new_drops_extra_clock_reference() {
    let mut ops = vec![HwOp::UpdateHighSpeedTimers];
    let _ledc = Ledc::new(LSGlobalClkSource::APBClk, false, &mut ops);
    assert_eq!(
        ops,
        vec![
            HwOp::UpdateHighSpeedTimers,
            HwOp::DisablePeripheralClock,
            HwOp::SetGlobalSlowClock { slow_clock: LSGlobalClkSource::APBClk },
        ]
    );
}

#[test]
fn new_numbers_timers_and_channels() {
    let mut ops = Vec::new();
    let ledc = Ledc::new(LSGlobalClkSource::APBClk, true, &mut ops);
    let cfg = timer::Config::default();
    let src = ledc::rate::Rate::from_mhz(80);
    let mut ops = Vec::new();
    assert_eq!(ledc.timer0.configure(cfg, src, &mut ops).unwrap().number(), timer::Number::Timer0);
    assert_eq!(ledc.timer1.configure(cfg, src, &mut ops).unwrap().number(), timer::Number::Timer1);
    assert_eq!(ledc.timer2.configure(cfg, src, &mut ops).unwrap().number(), timer::Number::Timer2);
    let t3 = ledc.timer3.configure(cfg, src, &mut ops).unwrap();
    assert_eq!(t3.number(), timer::Number::Timer3);
    assert_eq!(ledc.hs_timer3.configure(cfg, src, &mut ops).unwrap().number(), timer::Number::Timer3);
    ops.clear();
    let c = channel::Config { timer: &t3, duty: 0, pin_config: ledc::hw::DriveMode::OpenDrain };
    let _ch7 = ledc.channel7.configure(c, Some(2), &mut ops).unwrap();
    assert_eq!(ops[0], HwOp::SetChannelTimer { channel: channel::Number::Channel7, timer_index: 3, is_hs: false });
}

#[test]
fn set_global_slow_clock_queues_the_selection() {
    let mut ops = Vec::new();
    let mut ledc = Ledc::new(LSGlobalClkSource::APBClk, true, &mut ops);
    ops.clear();
    ledc.set_global_slow_clock(LSGlobalClkSource::APBClk, &mut ops);
    assert_eq!(ops, vec![HwOp::SetGlobalSlowClock { slow_clock: LSGlobalClkSource::APBClk }]);
}
