use gfx_pack::board::{claim_board_pins, BUTTON_A_PIN, BUTTON_E_PIN, CS_PIN, RED_PIN};
use gfx_pack::error::BringUpError;
use gfx_pack::once::BringUpGuard;
use gfx_pack::pins::{ClaimedPin, PinBank, Role, NUM_PINS};
use gfx_pack::pwm::{pwm_output_of, Color, PwmChannel, RgbDuty};
use gfx_pack::sequence::{
    plan_step, Action, BusPhase, BusPolarity, Next, Outcome, Sequencer, BUS_RATE_HZ, PLAN_LEN,
    TIMEBASE_ID, XOSC_HZ,
};
use st7567_rs::BacklightStatus;

#[test]
fn claim_twice_is_refused() {
    let mut bank = PinBank::new();
    assert_eq!(bank.claim(5, Role::PullUpInput), Some(ClaimedPin { id: 5, role: Role::PullUpInput }));
    assert!(!bank.is_free(5));
    assert_eq!(bank.claim(5, Role::BusFunction), None);
    assert_eq!(bank.claim(NUM_PINS, Role::PullDownInput), None);
    assert!(bank.is_free(6));
}

#[test]
fn board_pins_are_distinct() {
    let mut bank = PinBank::new();
    let pins = claim_board_pins(&mut bank).unwrap();
    let ids = [
        pins.chip_select.id, pins.bus_clock.id, pins.bus_data.id, pins.display_command.id,
        pins.backlight.id, pins.display_reset.id, pins.red.id, pins.green.id, pins.blue.id,
        pins.button_a.id, pins.button_b.id, pins.button_c.id, pins.button_d.id, pins.button_e.id,
    ];
    for i in 0..ids.len() {
        assert!(!bank.is_free(ids[i]));
        for j in 0..ids.len() {
            if i != j {
                assert_ne!(ids[i], ids[j]);
            }
        }
    }
    assert_eq!(pins.chip_select, ClaimedPin { id: CS_PIN, role: Role::PushPullOutput { initial_high: true } });
    assert_eq!(pins.button_e.role, Role::PullUpInput);
    assert!(bank.is_free(0));
}

#[test]
fn board_pins_all_or_nothing() {
    let mut bank = PinBank::new();
    bank.claim(BUTTON_A_PIN, Role::PullDownInput).unwrap();
    assert_eq!(claim_board_pins(&mut bank).map(|_| ()), Err(BringUpError::ResourceAlreadyClaimed));
    assert!(bank.is_free(CS_PIN));
    assert!(bank.is_free(BUTTON_E_PIN));
    let mut fresh = PinBank::new();
    assert!(claim_board_pins(&mut fresh).is_ok());
    assert_eq!(claim_board_pins(&mut fresh).map(|_| ()), Err(BringUpError::ResourceAlreadyClaimed));
}

#[test]
fn rgb_pins_routing() {
    assert_eq!(pwm_output_of(RED_PIN), (3, PwmChannel::A));
    assert_eq!(pwm_output_of(7), (3, PwmChannel::B));
    assert_eq!(pwm_output_of(8), (4, PwmChannel::A));
    assert_eq!(pwm_output_of(29), (6, PwmChannel::B));
    assert_eq!(pwm_output_of(16), (0, PwmChannel::A));
}

#[test]
fn rgb_duty_full_range() {
    let mut rgb = RgbDuty::off();
    for c in [Color::Red, Color::Green, Color::Blue] {
        assert_eq!(rgb.duty(c), 0);
    }
    rgb.set_duty(Color::Red, u16::MAX);
    rgb.set_duty(Color::Green, 0);
    rgb.set_duty(Color::Blue, 32768);
    assert_eq!(rgb.duty(Color::Red), u16::MAX);
    assert_eq!(rgb.duty(Color::Green), 0);
    assert_eq!(rgb.duty(Color::Blue), 32768);
    rgb.set_duty(Color::Red, 0);
    assert_eq!(rgb.duty(Color::Red), 0);
    assert_eq!(rgb.duty(Color::Blue), 32768);
}

#[test]
fn bring_up_only_once() {
    let mut guard = BringUpGuard::new();
    assert!(!guard.is_taken());
    assert!(guard.take().is_some());
    assert!(guard.is_taken());
    assert!(guard.take().is_none());
    assert!(guard.take().is_none());
}

fn step_name(a: &Action) -> &'static str {
    match a {
        Action::TakePeripherals => "take",
        Action::InitClocks { .. } => "clocks",
        Action::ClaimPins => "pins",
        Action::StartTimer => "timer",
        Action::ConfigureBus { .. } => "bus",
        Action::BindDisplay => "display",
        Action::SetBacklight(BacklightStatus::Off) => "backlight off",
        Action::SetBacklight(BacklightStatus::On) => "backlight on",
        Action::InitDisplay => "init display",
        Action::EnablePwm { .. } => "pwm",
        Action::BindRgb => "rgb",
        Action::BindButtons => "buttons",
        Action::Deliver => "deliver",
    }
}

#[test]
fn plan_order() {
    let names: Vec<&str> = (0..PLAN_LEN).map(|i| step_name(&plan_step(i))).collect();
    assert_eq!(
        names,
        vec![
            "take", "clocks", "pins", "timer", "bus", "display", "backlight off",
            "init display", "pwm", "pwm", "rgb", "buttons", "deliver"
        ]
    );
    assert!(matches!(plan_step(1), Action::InitClocks { xosc_hz } if xosc_hz == XOSC_HZ));
    match plan_step(4) {
        Action::ConfigureBus { mode, rate_hz } => {
            assert_eq!(rate_hz, BUS_RATE_HZ);
            assert_eq!(mode.polarity, BusPolarity::IdleHigh);
            assert_eq!(mode.phase, BusPhase::CaptureOnSecondTransition);
        }
        _ => panic!("bus step expected"),
    }
    assert!(matches!(plan_step(8), Action::EnablePwm { slice: 3 }));
    assert!(matches!(plan_step(9), Action::EnablePwm { slice: 4 }));
}

#[test]
fn sequencer_end_to_end() {
    let mut bank = PinBank::new();
    let pins = claim_board_pins(&mut bank).unwrap();
    let mut seq = Sequencer::new();
    let mut steps = 0;
    loop {
        match seq.current() {
            Next::Do(_) => {
                assert!(seq.summary(&pins).is_none());
                seq.report(Outcome::Done);
                steps += 1;
            }
            Next::Halt(e) => panic!("unexpected halt {:?}", e),
            Next::Finished => break,
        }
    }
    assert_eq!(steps, PLAN_LEN);
    assert!(seq.is_finished());
    let b = seq.summary(&pins).unwrap();
    assert!(b.display_ready);
    assert!(matches!(b.backlight, BacklightStatus::Off));
    assert_eq!(b.buttons.len(), 5);
    let expected = [12u8, 13, 14, 15, 22];
    for (i, button) in b.buttons.iter().enumerate() {
        assert_eq!(button.pin, expected[i]);
        assert_eq!(button.timebase, TIMEBASE_ID);
    }
    for c in [Color::Red, Color::Green, Color::Blue] {
        assert_eq!(b.rgb.duty(c), 0);
    }
    assert!(!b.entropy_enabled);
}

#[test]
fn sequencer_failures_are_fatal() {
    let mut seq = Sequencer::new();
    seq.report(Outcome::Done);
    seq.report(Outcome::ClockLockFailed);
    assert!(matches!(seq.current(), Next::Halt(BringUpError::ClockLockFailure)));
    seq.report(Outcome::Done);
    assert!(matches!(seq.current(), Next::Halt(BringUpError::ClockLockFailure)));
    assert!(!seq.is_finished());

    let mut seq = Sequencer::new();
    for _ in 0..7 {
        seq.report(Outcome::Done);
    }
    assert!(matches!(seq.current(), Next::Do(Action::InitDisplay)));
    seq.report(Outcome::TransactionFailed);
    assert!(matches!(seq.current(), Next::Halt(BringUpError::BusTransactionFailure)));

    let mut seq = Sequencer::new();
    assert!(matches!(seq.current(), Next::Do(Action::TakePeripherals)));
    seq.report(Outcome::AlreadyTaken);
    assert!(matches!(seq.current(), Next::Halt(BringUpError::ResourceAlreadyClaimed)));
}
