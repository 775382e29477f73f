//! The servo controller: construction steps, angle writes and readback.
use crate::conversion::{
    duty_of, estimate_of, estimate_numerator, pulse_span, scaled_pulse,
    FREQUENCY_HZ, MIN_ANGLE, MIN_PULSE_US, MAX_PULSE_US, MAX_ANGLE, PERIOD_US, RESOLUTION_BITS,
};
use vstd::prelude::*;

verus! {

/// Failures of the hardware steps, each raised where its call failed.
#[derive(Debug, Clone, Copy, PartialEq, Eq, Structural)]
pub enum Error {
    /// The timer rejected its frequency and resolution.
    CreateLedcTimerDriver,
    /// The channel could not be bound to the timer and output pin.
    CreateLedcDriver,
    /// The channel rejected a duty-register write of `value`.
    SetDuty { value: u32 },
}

/// Configuration that the timer is brought up with.
#[derive(Debug, Clone, Copy, PartialEq, Eq, Structural)]
pub struct TimerSettings {
    pub frequency_hz: u32,
    pub resolution_bits: u32,
}

/// Controller of one servo. It holds the top duty-register value that angle
/// conversions scale by, fixed at construction.
#[derive(Debug, Clone, Copy, PartialEq, Eq, Structural)]
pub struct ServoSG90 {
    max_duty: u32,
}

/// Outcome of the last construction step, reported by the caller that made it.
#[derive(Debug, Clone, Copy, PartialEq, Eq, Structural)]
pub enum SetupEvent {
    /// Construction is about to begin; no hardware call has been made.
    Start,
    /// The timer configuration call returned; `ok` is whether it succeeded.
    TimerConfigured { ok: bool },
    /// The channel binding call returned; `ok` is whether it succeeded.
    ChannelBound { ok: bool },
    /// The bound channel reported `max_duty` as its maximum duty value.
    MaxDutyReported { max_duty: u32 },
}

/// What the caller does next while constructing a controller.
#[derive(Debug, Clone, Copy, PartialEq, Eq, Structural)]
pub enum SetupAction {
    /// Configure the timer with these settings.
    ConfigureTimer(TimerSettings),
    /// Bind the channel to the configured timer and the output pin.
    BindChannel,
    /// Ask the bound channel for its maximum duty value.
    QueryMaxDuty,
    /// Construction succeeded.
    Ready(ServoSG90),
    /// Construction failed; no further hardware call is made.
    Failed(Error),
}

/// Settings that every controller's timer is configured with.
pub open spec fn timer_settings() -> TimerSettings {
    TimerSettings { frequency_hz: FREQUENCY_HZ, resolution_bits: RESOLUTION_BITS }
}

/// Result of a duty-register write of `duty`, given whether the channel
/// accepted it.
pub open spec fn duty_write_result(duty: u32, accepted: bool) -> Result<(), Error> {
    if accepted {
        Ok(())
    } else {
        Err(Error::SetDuty { value: duty })
    }
}

impl ServoSG90 {
    /// Top duty-register value used by the conversions.
    pub closed spec fn spec_max_duty(&self) -> int {
        self.max_duty as int
    }

    /// Controller for a channel whose hardware reports `reported_max_duty` as
    /// its maximum duty value. One below it is kept, so that a write never
    /// reaches the value that overflows the timer.
    pub fn new(reported_max_duty: u32) -> (servo: Self)
        requires
            reported_max_duty >= 1,
        ensures
            servo.spec_max_duty() == reported_max_duty - 1,
    {
        ServoSG90 { max_duty: reported_max_duty - 1 }
    }

    /// The top duty-register value that angle conversions scale by.
    pub fn max_duty(&self) -> (r: u32)
        ensures
            r == self.spec_max_duty(),
    {
        self.max_duty
    }

    /// Decides the next construction step from the outcome of the last one.
    ///
    /// A failed timer configuration ends construction with
    /// `CreateLedcTimerDriver`, before the channel is bound; a failed binding
    /// ends it with `CreateLedcDriver`; the reported maximum duty value gives
    /// the controller.
    pub fn setup_step(event: SetupEvent) -> (action: SetupAction)
        requires
            event matches SetupEvent::MaxDutyReported { max_duty } ==> max_duty >= 1,
        ensures
            event == SetupEvent::Start ==> action == SetupAction::ConfigureTimer(timer_settings()),
            event == (SetupEvent::TimerConfigured { ok: true }) ==> action
                == SetupAction::BindChannel,
            event == (SetupEvent::TimerConfigured { ok: false }) ==> action == SetupAction::Failed(
                Error::CreateLedcTimerDriver,
            ),
            event == (SetupEvent::ChannelBound { ok: true }) ==> action
                == SetupAction::QueryMaxDuty,
            event == (SetupEvent::ChannelBound { ok: false }) ==> action == SetupAction::Failed(
                Error::CreateLedcDriver,
            ),
            event matches SetupEvent::MaxDutyReported { max_duty } ==> (action matches SetupAction::Ready(
                s,
            ) && s.spec_max_duty() == max_duty - 1),
    {
        match event {
            SetupEvent::Start => SetupAction::ConfigureTimer(
                TimerSettings { frequency_hz: FREQUENCY_HZ, resolution_bits: RESOLUTION_BITS },
            ),
            SetupEvent::TimerConfigured { ok } => {
                if ok {
                    SetupAction::BindChannel
                } else {
                    SetupAction::Failed(Error::CreateLedcTimerDriver)
                }
            },
            SetupEvent::ChannelBound { ok } => {
                if ok {
                    SetupAction::QueryMaxDuty
                } else {
                    SetupAction::Failed(Error::CreateLedcDriver)
                }
            },
            SetupEvent::MaxDutyReported { max_duty } => SetupAction::Ready(Self::new(max_duty)),
        }
    }

    /// Duty-register value that commands `angle`, to be written to the
    /// channel by the caller. Angles outside the nominal range are not
    /// clamped; a negative result saturates to zero.
    pub fn write_angle(&self, angle: i16) -> (duty: u32)
        ensures
            duty == duty_of(angle as int, self.spec_max_duty()),
    {
        let scaled: i64 = (MAX_PULSE_US - MIN_PULSE_US) as i64 * (angle as i64 - MIN_ANGLE) + (
        MIN_PULSE_US as i64) * (MAX_ANGLE - MIN_ANGLE);
        assert(scaled == scaled_pulse(angle as int));
        if scaled <= 0 || self.max_duty == 0 {
            assert(self.max_duty * scaled <= 0) by (nonlinear_arith)
                requires
                    scaled <= 0 || self.max_duty == 0,
            ;
            return 0;
        }
        // The scaled pulse is largest at `i16::MAX`: 1900 * 32857 + 90000.
        assert(0 < self.max_duty * scaled <= u32::MAX * 62_518_300) by (nonlinear_arith)
            requires
                0 < scaled <= 62_518_300,
                0 < self.max_duty <= u32::MAX,
        ;
        let raw: u64 = (self.max_duty as u64) * (scaled as u64);
        let quotient: u64 = raw / (PERIOD_US * (MAX_ANGLE - MIN_ANGLE) as u64);
        if quotient > u32::MAX as u64 {
            u32::MAX
        } else {
            quotient as u32
        }
    }

    /// Outcome of writing `duty` to the channel: success if the channel
    /// accepted it, otherwise `SetDuty` carrying exactly that value.
    pub fn duty_written(duty: u32, accepted: bool) -> (r: Result<(), Error>)
        ensures
            r == duty_write_result(duty, accepted),
    {
        if accepted {
            Ok(())
        } else {
            Err(Error::SetDuty { value: duty })
        }
    }

    /// Angle estimated from the duty-register value `duty` read back from the
    /// channel: the inverse of `write_angle`, up to truncation.
    pub fn read_exp_angle(&self, duty: u32) -> (angle: i16)
        ensures
            angle == estimate_of(duty as int, self.spec_max_duty()),
    {
        if self.max_duty == 0 {
            return if duty == 0 {
                0
            } else {
                i16::MAX
            };
        }
        let m: i64 = self.max_duty as i64;
        let d: i64 = duty as i64;
        let pulse_num: i64 = d * PERIOD_US as i64 - MIN_PULSE_US as i64 * m;
        assert(-500 * u32::MAX <= pulse_num <= 20_000 * u32::MAX) by (nonlinear_arith)
            requires
                0 <= d <= u32::MAX,
                0 < m <= u32::MAX,
                pulse_num == d * 20_000 - 500 * m,
        ;
        let offset: i64 = MIN_ANGLE * (MAX_PULSE_US - MIN_PULSE_US) as i64 * m;
        assert(-171_000 * u32::MAX <= offset < 0) by (nonlinear_arith)
            requires
                0 < m <= u32::MAX,
                offset == -90 * 1900 * m,
        ;
        let span: i64 = MAX_ANGLE - MIN_ANGLE;
        assert(-90_000 * u32::MAX <= pulse_num * span <= 3_600_000 * u32::MAX) by (nonlinear_arith)
            requires
                -500 * u32::MAX <= pulse_num <= 20_000 * u32::MAX,
                span == 180,
        ;
        let num: i64 = pulse_num * span + offset;
        let den: i64 = (MAX_PULSE_US - MIN_PULSE_US) as i64 * m;
        assert(num == estimate_numerator(duty as int, self.spec_max_duty()));
        assert(den == pulse_span() * self.spec_max_duty());
        let quotient: i64 = if num >= 0 {
            ((num as u64) / (den as u64)) as i64
        } else {
            -(((-num) as u64 / den as u64) as i64)
        };
        if quotient > i16::MAX as i64 {
            i16::MAX
        } else if quotient < i16::MIN as i64 {
            i16::MIN
        } else {
            quotient as i16
        }
    }
}

/// A rejected write of the duty value computed for an angle reports exactly
/// that value.
pub proof fn lemma_rejected_write_reports_duty(servo: ServoSG90, angle: i16)
    ensures
        ({
            let duty = duty_of(angle as int, servo.spec_max_duty()) as u32;
            duty_write_result(duty, false) == Err::<(), Error>(Error::SetDuty { value: duty })
        }),
{
}

} // verus!
