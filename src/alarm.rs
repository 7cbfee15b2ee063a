//! The alarm: its time of day, whether it is armed, and the alert sequence.
use vstd::prelude::*;

verus! {

/// The alarm's time of day and whether it is armed.
pub struct Alarm {
    hour: u32,
    minute: u32,
    enabled: bool,
}

impl Alarm {
    pub closed spec fn spec_hour(&self) -> u32 {
        self.hour
    }

    pub closed spec fn spec_minute(&self) -> u32 {
        self.minute
    }

    pub closed spec fn spec_enabled(&self) -> bool {
        self.enabled
    }

    /// The alarm's time is a valid time of day.
    pub open spec fn wf(&self) -> bool {
        self.spec_hour() < 24 && self.spec_minute() < 60
    }

    /// An alarm at 0:00, disarmed.
    pub fn new() -> (r: Self)
        ensures
            r.wf(),
            r.spec_hour() == 0,
            r.spec_minute() == 0,
            !r.spec_enabled(),
    {
        Alarm { hour: 0, minute: 0, enabled: false }
    }

    /// Sets the alarm's time of day.
    pub fn update_time(&mut self, hour: u32, minute: u32)
        requires
            hour < 24,
            minute < 60,
        ensures
            final(self).wf(),
            final(self).spec_hour() == hour,
            final(self).spec_minute() == minute,
            final(self).spec_enabled() == old(self).spec_enabled(),
    {
        self.hour = hour;
        self.minute = minute;
    }

    /// Arms or disarms the alarm.
    pub fn enable(&mut self, enabled: bool)
        ensures
            final(self).spec_hour() == old(self).spec_hour(),
            final(self).spec_minute() == old(self).spec_minute(),
            final(self).spec_enabled() == enabled,
    {
        self.enabled = enabled;
    }

    pub fn get_hour(&self) -> (r: u32)
        ensures
            r == self.spec_hour(),
    {
        self.hour
    }

    pub fn get_minute(&self) -> (r: u32)
        ensures
            r == self.spec_minute(),
    {
        self.minute
    }

    pub fn is_enable(&self) -> (r: bool)
        ensures
            r == self.spec_enabled(),
    {
        self.enabled
    }
}

/// How many cycles of three bursts and three polls an alert lasts when no
/// button dismisses it.
pub const ALERT_CYCLES: u16 = 1000;

/// The samples of one alert cycle: three tone bursts, then three polls.
pub const CYCLE_SAMPLES: u16 = 6;

/// What the alert sequence asks for next. After a `Burst` (tone on,
/// display off for the gap, a short wait) or a `Poll` (a short wait) the
/// buttons are sampled and the sample handed to `AlertSequence::record`.
#[derive(Clone, Copy, Debug, PartialEq, Eq, Structural)]
pub enum AlertAction {
    Burst,
    Poll,
    Finish,
}

/// The action due after `n` samples without a press.
pub open spec fn alert_action_at(n: int) -> AlertAction {
    if n >= ALERT_CYCLES * CYCLE_SAMPLES {
        AlertAction::Finish
    } else if n % (CYCLE_SAMPLES as int) < 3 {
        AlertAction::Burst
    } else {
        AlertAction::Poll
    }
}

/// Where a running alert stands: the cycle, and the sample within it.
pub struct AlertSequence {
    pub cycle: u16,
    pub step: u16,
}

impl AlertSequence {
    pub open spec fn wf(&self) -> bool {
        &&& self.cycle <= ALERT_CYCLES
        &&& self.step < CYCLE_SAMPLES
        &&& self.cycle == ALERT_CYCLES ==> self.step == 0
    }

    /// The number of samples taken so far.
    pub open spec fn samples(&self) -> int {
        self.cycle * CYCLE_SAMPLES + self.step
    }

    /// A sequence that has taken no sample yet.
    pub fn new() -> (r: Self)
        ensures
            r.wf(),
            r.samples() == 0,
    {
        AlertSequence { cycle: 0, step: 0 }
    }

    /// The next action.
    pub fn action(&self) -> (r: AlertAction)
        requires
            self.wf(),
        ensures
            r == alert_action_at(self.samples()),
    {
        if self.cycle >= ALERT_CYCLES {
            AlertAction::Finish
        } else if self.step < 3 {
            AlertAction::Burst
        } else {
            AlertAction::Poll
        }
    }

    /// Takes in the sample that follows a burst or a poll. A press
    /// dismisses the alert (the result is true, and the display is to be
    /// powered on again at once); otherwise the sequence moves on by one
    /// sample.
    pub fn record(&mut self, pressed: bool) -> (r: bool)
        requires
            old(self).wf(),
            old(self).samples() < ALERT_CYCLES * CYCLE_SAMPLES,
        ensures
            final(self).wf(),
            r == pressed,
            pressed ==> final(self).samples() == old(self).samples(),
            !pressed ==> final(self).samples() == old(self).samples() + 1,
    {
        if pressed {
            return true;
        }
        if self.step + 1 == CYCLE_SAMPLES {
            self.step = 0;
            self.cycle = self.cycle + 1;
        } else {
            self.step = self.step + 1;
        }
        false
    }
}

/// An alert that is never dismissed ends after a bounded number of samples.
pub proof fn lemma_alert_is_bounded(n: int)
    requires
        n >= ALERT_CYCLES * CYCLE_SAMPLES,
    ensures
        alert_action_at(n) == AlertAction::Finish,
        forall|m: int| 0 <= m < ALERT_CYCLES * CYCLE_SAMPLES ==> alert_action_at(m) != AlertAction::Finish,
{
}

/// The buzzer's duty for a volume `level` in percent: a share of half the
/// maximum duty, and half the maximum for any level above 100.
pub open spec fn volume_duty_spec(max_duty: u16, level: u16) -> int {
    let half = max_duty / 2;
    if level <= 100 {
        half / 100 * level
    } else {
        half as int
    }
}

/// Computes the buzzer's duty for a volume `level`.
pub fn volume_duty(max_duty: u16, level: u16) -> (r: u16)
    ensures
        r == volume_duty_spec(max_duty, level),
{
    let half = max_duty / 2;
    if level <= 100 {
        let share = half / 100;
        proof {
            assert(share * level <= share * 100) by (nonlinear_arith)
                requires
                    level <= 100,
            ;
        }
        share * level
    } else {
        half
    }
}

} // verus!
