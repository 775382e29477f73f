use servo_sg90::{Error, ServoSG90, SetupAction, SetupEvent, TimerSettings};

#[test]
fn center_angle_writes_expected_duty() {
    let servo = ServoSG90::new(2047);
    assert_eq!(servo.max_duty(), 2046);
    assert_eq!(servo.write_angle(0), 148);
}

#[test]
fn max_duty_is_one_below_reported() {
    assert_eq!(ServoSG90::new(2048).max_duty(), 2047);
    assert_eq!(ServoSG90::new(1).max_duty(), 0);
    assert_eq!(ServoSG90::new(u32::MAX).max_duty(), u32::MAX - 1);
}

#[test]
fn range_ends_write_end_pulse_widths() {
    let servo = ServoSG90::new(2047);
    // 2046 * 500 / 20000 = 51.15
    assert_eq!(servo.write_angle(-90), 51);
    // 2046 * 2400 / 20000 = 245.52
    assert_eq!(servo.write_angle(90), 245);
    let servo = ServoSG90::new(20001);
    assert_eq!(servo.write_angle(-90), 500);
    assert_eq!(servo.write_angle(90), 2400);
}

#[test]
fn duty_is_non_decreasing_in_angle() {
    for reported in [2, 2047, 2048, 65536] {
        let servo = ServoSG90::new(reported);
        let mut previous = servo.write_angle(-90);
        for angle in -89i16..=90 {
            let duty = servo.write_angle(angle);
            assert!(previous <= duty, "angle {angle}");
            previous = duty;
        }
    }
}

#[test]
fn readback_is_within_one_degree() {
    for reported in [2047, 2048, 16384] {
        let servo = ServoSG90::new(reported);
        for angle in -90i16..=90 {
            let estimate = servo.read_exp_angle(servo.write_angle(angle));
            assert!(angle - 1 <= estimate && estimate <= angle, "angle {angle}: {estimate}");
        }
    }
}

#[test]
fn readback_of_known_duty_values() {
    let servo = ServoSG90::new(2047);
    assert_eq!(servo.read_exp_angle(148), 0);
    assert_eq!(servo.read_exp_angle(245), 89);
    assert_eq!(servo.read_exp_angle(0), -137);
    assert_eq!(ServoSG90::new(2).read_exp_angle(u32::MAX), i16::MAX);
}

#[test]
fn readback_without_duty_steps() {
    let servo = ServoSG90::new(1);
    assert_eq!(servo.read_exp_angle(0), 0);
    assert_eq!(servo.read_exp_angle(5), i16::MAX);
    assert_eq!(servo.write_angle(45), 0);
}

#[test]
fn out_of_range_angles_are_not_clamped() {
    let servo = ServoSG90::new(2047);
    // pulse 1900 * 190 / 180 + 500 = 2505.6 us, duty 2046 * 2505.6 / 20000 = 256.3
    assert_eq!(servo.write_angle(100), 256);
    assert_eq!(servo.write_angle(-200), 0);
    assert_eq!(servo.write_angle(i16::MIN), 0);
    assert_eq!(ServoSG90::new(u32::MAX).write_angle(i16::MAX), u32::MAX);
}

#[test]
fn rejected_write_reports_its_duty() {
    let servo = ServoSG90::new(2047);
    let duty = servo.write_angle(30);
    assert_eq!(ServoSG90::duty_written(duty, false), Err(Error::SetDuty { value: duty }));
    assert_eq!(ServoSG90::duty_written(duty, true), Ok(()));
}

#[test]
fn setup_configures_timer_first() {
    assert_eq!(
        ServoSG90::setup_step(SetupEvent::Start),
        SetupAction::ConfigureTimer(TimerSettings { frequency_hz: 50, resolution_bits: 11 })
    );
}

#[test]
fn setup_stops_when_timer_fails() {
    assert_eq!(
        ServoSG90::setup_step(SetupEvent::TimerConfigured { ok: false }),
        SetupAction::Failed(Error::CreateLedcTimerDriver)
    );
    assert_eq!(
        ServoSG90::setup_step(SetupEvent::TimerConfigured { ok: true }),
        SetupAction::BindChannel
    );
}

#[test]
fn setup_stops_when_binding_fails() {
    assert_eq!(
        ServoSG90::setup_step(SetupEvent::ChannelBound { ok: false }),
        SetupAction::Failed(Error::CreateLedcDriver)
    );
    assert_eq!(
        ServoSG90::setup_step(SetupEvent::ChannelBound { ok: true }),
        SetupAction::QueryMaxDuty
    );
}

#[test]
fn setup_ends_with_controller() {
    match ServoSG90::setup_step(SetupEvent::MaxDutyReported { max_duty: 2048 }) {
        SetupAction::Ready(servo) => assert_eq!(servo.max_duty(), 2047),
        other => panic!("unexpected {other:?}"),
    }
}
