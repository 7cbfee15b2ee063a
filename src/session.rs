//! The sessions of the controller as state machines. Each pass of a
//! session's loop hands in what the caller sampled or read, and gets back
//! what to do with the devices: the caller performs the I/O and the waits,
//! the session makes every decision.
use vstd::prelude::*;
use crate::alarm::Alarm;
use crate::buttons::{self, Hold, HOLD_TIME, BUTTON_CLICK_TIME, hold_done, hold_next, mode_after};
use crate::clock::{
    self, ClockMode, Reading, alarm_fires, corrected_after, digit_frame, dst_write_back, intensity_change, spaced,
    DAY_INTENSITY, NIGHT_INTENSITY,
};
use crate::datetime::{Timestamp, month_length};
use crate::matrix_display::{MatrixDisplay, error_frame, frame};
use crate::menu::{
    self, MenuMode, SettingDate, SettingTime, DISPLAY_TIME, BLINK_STEP, blink_frame, date_edit,
    label_frame, next_animation_tick, time_edit, year_edit, MENU_INTENSITY,
};
use crate::symbols::{Letters, blank_rows, exclamation_rows, letter_rows};

verus! {

/// What a clock tick asks of the devices, besides writing the frame.
#[derive(Clone, Copy, Debug, PartialEq, Eq, Structural)]
pub struct ClockTick {
    /// A corrected moment to write to the real-time clock.
    pub write_back: Option<Timestamp>,
    /// A display intensity to set; report the outcome to
    /// `ClockSession::intensity_result`.
    pub intensity: Option<u8>,
    /// Whether to run the alert sequence.
    pub ring: bool,
}

/// The clock display session.
pub struct ClockSession {
    pub mode: ClockMode,
    pub matrices: MatrixDisplay,
    /// Whether the display is dimmed for the night.
    pub is_late: bool,
    pub last_second: u32,
    /// The date of the last daylight-saving correction, carried from one
    /// clock session to the next.
    pub dst_corrected_on: Option<(u32, u32, u32)>,
    pub hold_main: u16,
    pub hold_exit: u16,
}

impl ClockSession {
    /// Neither hold has completed: the session is running.
    pub open spec fn wf(&self) -> bool {
        self.hold_main < HOLD_TIME && self.hold_exit < HOLD_TIME
    }

    /// A session showing the time of day, not dimmed, with both buttons
    /// released and second 0 taken as the last one seen. `dst_corrected_on`
    /// is the date of the last daylight-saving correction.
    pub fn new(dst_corrected_on: Option<(u32, u32, u32)>) -> (r: Self)
        ensures
            r.wf(),
            r.mode == ClockMode::Time,
            !r.is_late,
            r.last_second == 0,
            r.hold_main == 0,
            r.hold_exit == 0,
            r.dst_corrected_on == dst_corrected_on,
            r.matrices.cells() == frame(blank_rows(), blank_rows(), blank_rows(), blank_rows()),
    {
        ClockSession {
            mode: ClockMode::Time,
            matrices: MatrixDisplay::new(),
            is_late: false,
            last_second: 0,
            dst_corrected_on,
            hold_main: 0,
            hold_exit: 0,
        }
    }

    /// Feeds a sample of the main button; a completed hold ends the session.
    pub fn sample_main(&mut self, pressed: bool) -> (r: Hold)
        requires
            old(self).wf(),
        ensures
            final(self).hold_main == hold_next(old(self).hold_main as int, pressed),
            (r == Hold::Complete) == hold_done(old(self).hold_main as int, pressed),
            r == Hold::Continue ==> final(self).wf(),
            final(self).hold_exit == old(self).hold_exit,
            final(self).mode == old(self).mode,
    {
        buttons::button_hold(&mut self.hold_main, pressed)
    }

    /// Feeds a sample of the exit button; a completed hold ends the session.
    pub fn sample_exit(&mut self, pressed: bool) -> (r: Hold)
        requires
            old(self).wf(),
        ensures
            final(self).hold_exit == hold_next(old(self).hold_exit as int, pressed),
            (r == Hold::Complete) == hold_done(old(self).hold_exit as int, pressed),
            r == Hold::Continue ==> final(self).wf(),
            final(self).hold_main == old(self).hold_main,
            final(self).mode == old(self).mode,
    {
        buttons::button_hold(&mut self.hold_exit, pressed)
    }

    /// Steps the clock mode on presses of up (forward) and down (back).
    pub fn change_mode(&mut self, up: bool, down: bool) -> (r: bool)
        ensures
            final(self).mode == mode_after(old(self).mode, up, down),
            r == (up || down),
            final(self).hold_main == old(self).hold_main,
            final(self).hold_exit == old(self).hold_exit,
    {
        buttons::mode_change(&mut self.mode, up, down)
    }

    /// Takes in a read of the real-time clock. A failed or invalid read
    /// shows the error message. A read whose second differs from the last
    /// one seen redraws the digits of the current mode, with punctuation on
    /// even seconds, and asks for the daylight-saving correction, the
    /// change of intensity and the alarm as they are due; the correction is
    /// asked for at most once on each date. Otherwise the frame stays.
    pub fn tick(&mut self, read: Result<Timestamp, ()>, alarm: &Alarm) -> (r: ClockTick)
        ensures
            final(self).mode == old(self).mode,
            final(self).is_late == old(self).is_late,
            final(self).hold_main == old(self).hold_main,
            final(self).hold_exit == old(self).hold_exit,
            match read {
                Ok(t) if t.wf() => {
                    let fresh = t.second != old(self).last_second;
                    &&& final(self).last_second == t.second
                    &&& final(self).dst_corrected_on == corrected_after(t, fresh, old(self).dst_corrected_on)
                    &&& fresh ==> final(self).matrices.cells() == spaced(
                        digit_frame(old(self).mode, t),
                        old(self).mode,
                        t.second % 2 == 0,
                    )
                    &&& !fresh ==> final(self).matrices.cells() == old(self).matrices.cells()
                    &&& r == (ClockTick {
                        write_back: dst_write_back(t, fresh, old(self).dst_corrected_on),
                        intensity: if fresh {
                            intensity_change(t.hour, old(self).is_late)
                        } else {
                            None
                        },
                        ring: fresh && alarm_fires(*alarm, t.second, t),
                    })
                },
                _ => {
                    &&& final(self).matrices.cells() == error_frame()
                    &&& final(self).last_second == old(self).last_second
                    &&& final(self).dst_corrected_on == old(self).dst_corrected_on
                    &&& r == (ClockTick { write_back: None, intensity: None, ring: false })
                },
            },
    {
        let none = ClockTick { write_back: None, intensity: None, ring: false };
        let valid = match &read {
            Ok(t) => t.is_valid(),
            Err(()) => false,
        };
        if !valid {
            self.matrices.set_error();
            return none;
        }
        let mut changed = false;
        match clock::rtc_read(read, &mut self.last_second, &mut changed, &mut self.dst_corrected_on) {
            Ok(Reading { datetime, write_back }) => {
                if !changed {
                    return none;
                }
                clock::calc_digits(&self.mode, &datetime, &mut self.matrices);
                clock::prepare_display(&mut self.matrices, &self.mode, datetime.second % 2 == 0);
                let intensity = clock::check_intensity(datetime.hour, self.is_late);
                let ring = clock::check_alarm(alarm, datetime.second, &datetime);
                ClockTick { write_back, intensity, ring }
            },
            Err(()) => none,
        }
    }

    /// Takes in the outcome of setting the intensity that a tick asked
    /// for: on success the night latch follows it, on failure the error
    /// message is shown and the latch stays, so that the change is asked
    /// for again.
    pub fn intensity_result(&mut self, level: u8, ok: bool)
        ensures
            final(self).is_late == if ok {
                level == NIGHT_INTENSITY
            } else {
                old(self).is_late
            },
            ok ==> final(self).matrices == old(self).matrices,
            !ok ==> final(self).matrices.cells() == error_frame(),
            final(self).mode == old(self).mode,
            final(self).last_second == old(self).last_second,
            final(self).dst_corrected_on == old(self).dst_corrected_on,
            final(self).hold_main == old(self).hold_main,
            final(self).hold_exit == old(self).hold_exit,
    {
        if ok {
            self.is_late = level == NIGHT_INTENSITY;
        } else {
            self.matrices.set_error();
        }
    }
}

/// The menu session: the scrolling label of the selected entry.
pub struct MenuSession {
    pub mode: MenuMode,
    pub ticks: u16,
    pub hold_exit: u16,
    pub matrices: MatrixDisplay,
}

impl MenuSession {
    pub open spec fn wf(&self) -> bool {
        &&& self.hold_exit < HOLD_TIME
        &&& self.ticks < 1400
    }

    /// A session on the first entry, with the exit button released,
    /// showing "MENU".
    pub fn new() -> (r: Self)
        ensures
            r.wf(),
            r.mode == MenuMode::SetHour,
            r.ticks == 0,
            r.hold_exit == 0,
            r.matrices.cells() == frame(
                letter_rows(Letters::M),
                letter_rows(Letters::E),
                letter_rows(Letters::N),
                letter_rows(Letters::U),
            ),
    {
        let mut matrices = MatrixDisplay::new();
        menu::display_menu(&mut matrices);
        MenuSession { mode: MenuMode::SetHour, ticks: 0, hold_exit: 0, matrices }
    }

    /// Feeds a sample of the exit button; a completed hold ends the session.
    pub fn sample_exit(&mut self, pressed: bool) -> (r: Hold)
        requires
            old(self).wf(),
        ensures
            final(self).hold_exit == hold_next(old(self).hold_exit as int, pressed),
            (r == Hold::Complete) == hold_done(old(self).hold_exit as int, pressed),
            r == Hold::Continue ==> final(self).wf(),
            final(self).mode == old(self).mode,
            final(self).ticks == old(self).ticks,
    {
        buttons::button_hold(&mut self.hold_exit, pressed)
    }

    /// The display intensity to set on entering the menu.
    pub fn entry_intensity(&self) -> (r: u8)
        ensures
            r == MENU_INTENSITY,
    {
        MENU_INTENSITY
    }

    /// Takes in the outcome of setting an intensity: a failure shows the
    /// error message.
    pub fn intensity_result(&mut self, ok: bool)
        ensures
            ok ==> final(self).matrices == old(self).matrices,
            !ok ==> final(self).matrices.cells() == error_frame(),
            final(self).mode == old(self).mode,
            final(self).ticks == old(self).ticks,
            final(self).hold_exit == old(self).hold_exit,
    {
        if !ok {
            self.matrices.set_error();
        }
    }

    /// The display intensity to set on leaving the menu: the clock's
    /// intensity by day.
    pub fn exit_intensity(&self) -> (r: u8)
        ensures
            r == DAY_INTENSITY,
    {
        DAY_INTENSITY
    }

    /// One pass of the menu: presses of up and down select the entry
    /// (restarting its label), the label advances by one tick while the
    /// exit button is not held beyond a click and restarts otherwise, and
    /// the label is drawn.
    pub fn step(&mut self, up: bool, down: bool)
        requires
            old(self).wf(),
        ensures
            final(self).wf(),
            final(self).mode == mode_after(old(self).mode, up, down),
            final(self).hold_exit == old(self).hold_exit,
            ({
                let t = if up || down {
                    0
                } else {
                    old(self).ticks
                };
                final(self).ticks == if old(self).hold_exit <= BUTTON_CLICK_TIME {
                    next_animation_tick(t, final(self).mode)
                } else {
                    0
                }
            }),
            final(self).matrices.cells() == label_frame(final(self).mode, final(self).ticks),
    {
        if buttons::mode_change(&mut self.mode, up, down) {
            self.ticks = 0;
        }
        if self.hold_exit <= BUTTON_CLICK_TIME {
            self.ticks = menu::animation_ticks_set(self.ticks, &self.mode);
        } else {
            self.ticks = 0;
        }
        match self.mode {
            MenuMode::SetHour => menu::display_menu_time(&mut self.matrices, &self.ticks),
            MenuMode::SetDate => menu::display_menu_date(&mut self.matrices, &self.ticks),
            MenuMode::SetAlarm => menu::display_menu_alarm(&mut self.matrices, &self.ticks),
        }
    }
}

/// The blink tick after one pass of an editing loop.
pub open spec fn next_blink_tick(ticks: u16) -> u16 {
    ((ticks + BLINK_STEP) % (DISPLAY_TIME as int)) as u16
}

/// How an editing session stands after a sample of a button.
#[derive(Clone, Copy, Debug, PartialEq, Eq, Structural)]
pub enum EditOutcome {
    /// The session goes on.
    Continue,
    /// A completed hold of the exit button: the edit is dropped.
    Cancel,
    /// A completed hold of the main button: the edited moment is to be kept.
    Commit(Timestamp),
}

/// The outcome of a sample of the exit button.
pub open spec fn exit_outcome(hold: u16, pressed: bool) -> EditOutcome {
    if hold_done(hold as int, pressed) {
        EditOutcome::Cancel
    } else {
        EditOutcome::Continue
    }
}

/// The outcome of a sample of the main button, with `t` under edit.
pub open spec fn accept_outcome(hold: u16, pressed: bool, t: Timestamp) -> EditOutcome {
    if hold_done(hold as int, pressed) {
        EditOutcome::Commit(t)
    } else {
        EditOutcome::Continue
    }
}

/// A session that edits a time of day: the clock's hour and minute, or
/// the alarm's. A completed hold of the main button accepts the edit, one
/// of the exit button ends the session otherwise.
pub struct TimeEdit {
    pub step: SettingTime,
    pub datetime: Timestamp,
    pub hold_accept: u16,
    pub hold_exit: u16,
    pub ticks: u16,
}

impl TimeEdit {
    pub open spec fn wf(&self) -> bool {
        &&& self.datetime.wf()
        &&& self.hold_accept < HOLD_TIME
        &&& self.hold_exit < HOLD_TIME
        &&& self.ticks < DISPLAY_TIME
    }

    /// Whether neither button is held beyond a click, so that presses edit.
    pub open spec fn editing_spec(&self) -> bool {
        self.hold_accept <= BUTTON_CLICK_TIME && self.hold_exit <= BUTTON_CLICK_TIME
    }

    /// A session on the hour of `datetime`.
    pub fn new(datetime: Timestamp) -> (r: Self)
        requires
            datetime.wf(),
        ensures
            r.wf(),
            r.datetime == datetime,
            r.step == SettingTime::Hour,
            r.hold_accept == 0,
            r.hold_exit == 0,
            r.ticks == 0,
    {
        TimeEdit { step: SettingTime::Hour, datetime, hold_accept: 0, hold_exit: 0, ticks: 0 }
    }

    pub fn editing(&self) -> (r: bool)
        ensures
            r == self.editing_spec(),
    {
        self.hold_accept <= BUTTON_CLICK_TIME && self.hold_exit <= BUTTON_CLICK_TIME
    }

    /// Takes in the samples of one pass while editing: the exit button
    /// moves the cursor forward and the main button back, then up and down
    /// edit the field under the cursor. Any press restarts the blink.
    /// While a button is held beyond a click nothing is edited and the
    /// blink restarts.
    pub fn edit(&mut self, forward: bool, backward: bool, up: bool, down: bool)
        requires
            old(self).wf(),
        ensures
            final(self).wf(),
            final(self).hold_accept == old(self).hold_accept,
            final(self).hold_exit == old(self).hold_exit,
            old(self).editing_spec() ==> ({
                let step = mode_after(old(self).step, forward, backward);
                let (h, m) = time_edit(step, old(self).datetime.hour, old(self).datetime.minute, up, down);
                &&& final(self).step == step
                &&& final(self).datetime == Timestamp { hour: h, minute: m, ..old(self).datetime }
                &&& final(self).ticks == if forward || backward || up || down {
                    0
                } else {
                    old(self).ticks
                }
            }),
            !old(self).editing_spec() ==> final(self).step == old(self).step && final(self).datetime
                == old(self).datetime && final(self).ticks == 0,
    {
        if self.editing() {
            if buttons::mode_change(&mut self.step, forward, backward) {
                self.ticks = 0;
            }
            let (hour, minute) = menu::setting_time(
                &self.step,
                self.datetime.hour,
                self.datetime.minute,
                up,
                down,
                &mut self.ticks,
            );
            self.datetime.hour = hour;
            self.datetime.minute = minute;
        } else {
            self.ticks = 0;
        }
    }

    /// Draws the time under edit, blinking the field under the cursor.
    pub fn render(&self, matrices: &mut MatrixDisplay)
        requires
            self.wf(),
        ensures
            self.step == SettingTime::Hour ==> final(matrices).cells() == blink_frame(
                0,
                ClockMode::Time,
                self.datetime,
                self.ticks,
            ),
            self.step == SettingTime::Minute ==> final(matrices).cells() == blink_frame(
                1,
                ClockMode::Time,
                self.datetime,
                self.ticks,
            ),
    {
        menu::blink_display(&self.step, &self.datetime, matrices, self.ticks);
    }

    /// Feeds a sample of the main button; a completed hold ends the session
    /// and commits the moment under edit.
    pub fn sample_accept(&mut self, pressed: bool) -> (r: EditOutcome)
        requires
            old(self).wf(),
        ensures
            final(self).hold_accept == hold_next(old(self).hold_accept as int, pressed),
            r == accept_outcome(old(self).hold_accept, pressed, old(self).datetime),
            r == EditOutcome::Continue ==> final(self).wf(),
            final(self).datetime == old(self).datetime,
            final(self).step == old(self).step,
            final(self).ticks == old(self).ticks,
            final(self).hold_exit == old(self).hold_exit,
    {
        match buttons::button_hold(&mut self.hold_accept, pressed) {
            Hold::Complete => EditOutcome::Commit(self.datetime),
            Hold::Continue => EditOutcome::Continue,
        }
    }

    /// Feeds a sample of the exit button; a completed hold ends the session
    /// and drops the edit.
    pub fn sample_exit(&mut self, pressed: bool) -> (r: EditOutcome)
        requires
            old(self).wf(),
        ensures
            final(self).hold_exit == hold_next(old(self).hold_exit as int, pressed),
            r == exit_outcome(old(self).hold_exit, pressed),
            r == EditOutcome::Continue ==> final(self).wf(),
            final(self).datetime == old(self).datetime,
            final(self).step == old(self).step,
            final(self).ticks == old(self).ticks,
            final(self).hold_accept == old(self).hold_accept,
    {
        match buttons::button_hold(&mut self.hold_exit, pressed) {
            Hold::Complete => EditOutcome::Cancel,
            Hold::Continue => EditOutcome::Continue,
        }
    }

    /// Ends an alarm session: accepted, the alarm is armed at the time under
    /// edit and " ON!" is shown; otherwise the alarm is disarmed, keeps its
    /// time, and "OFF!" is shown.
    pub fn finish_alarm(&self, alarm: &mut Alarm, accepted: bool, matrices: &mut MatrixDisplay)
        requires
            self.wf(),
        ensures
            final(alarm).wf() == (accepted || old(alarm).wf()),
            final(alarm).spec_enabled() == accepted,
            accepted ==> final(alarm).spec_hour() == self.datetime.hour && final(alarm).spec_minute()
                == self.datetime.minute,
            !accepted ==> final(alarm).spec_hour() == old(alarm).spec_hour() && final(alarm).spec_minute()
                == old(alarm).spec_minute(),
            accepted ==> final(matrices).cells() == frame(
                blank_rows(),
                letter_rows(Letters::O),
                letter_rows(Letters::N),
                exclamation_rows(),
            ),
            !accepted ==> final(matrices).cells() == frame(
                letter_rows(Letters::O),
                letter_rows(Letters::F),
                letter_rows(Letters::F),
                exclamation_rows(),
            ),
    {
        if accepted {
            alarm.enable(true);
            alarm.update_time(self.datetime.hour, self.datetime.minute);
            menu::on_display_info(matrices);
        } else {
            alarm.enable(false);
            menu::off_display_info(matrices);
        }
    }

    /// Advances the blink at the end of a pass.
    pub fn advance(&mut self)
        requires
            old(self).wf(),
        ensures
            final(self).wf(),
            final(self).ticks == next_blink_tick(old(self).ticks),
            final(self).datetime == old(self).datetime,
            final(self).step == old(self).step,
            final(self).hold_accept == old(self).hold_accept,
            final(self).hold_exit == old(self).hold_exit,
    {
        self.ticks = (self.ticks + BLINK_STEP) % DISPLAY_TIME;
    }
}

/// The date after an edit of its day, month or year on the field `step`,
/// the day cut down to the length of the resulting month.
pub open spec fn date_after(step: SettingDate, t: Timestamp, up: bool, down: bool) -> Timestamp {
    match step {
        SettingDate::Day | SettingDate::Month => {
            let (d, m) = date_edit(step, t.day, t.month, t.year, up, down);
            Timestamp { day: d, month: m, ..t }
        },
        _ => {
            let y = year_edit(step, t.year, up, down);
            let max = month_length(t.month as int, y as int);
            Timestamp { year: y, day: if t.day < max { t.day } else { max as u32 }, ..t }
        },
    }
}

/// A session that edits the date of the real-time clock. A completed hold
/// of the main button accepts the edit, one of the exit button ends the
/// session otherwise.
pub struct DateEdit {
    pub step: SettingDate,
    pub datetime: Timestamp,
    pub hold_accept: u16,
    pub hold_exit: u16,
    pub ticks: u16,
}

impl DateEdit {
    pub open spec fn wf(&self) -> bool {
        &&& self.datetime.wf()
        &&& self.hold_accept < HOLD_TIME
        &&& self.hold_exit < HOLD_TIME
        &&& self.ticks < DISPLAY_TIME
    }

    /// Whether neither button is held beyond a click, so that presses edit.
    pub open spec fn editing_spec(&self) -> bool {
        self.hold_accept <= BUTTON_CLICK_TIME && self.hold_exit <= BUTTON_CLICK_TIME
    }

    /// A session on the day of `datetime`.
    pub fn new(datetime: Timestamp) -> (r: Self)
        requires
            datetime.wf(),
        ensures
            r.wf(),
            r.datetime == datetime,
            r.step == SettingDate::Day,
            r.hold_accept == 0,
            r.hold_exit == 0,
            r.ticks == 0,
    {
        DateEdit { step: SettingDate::Day, datetime, hold_accept: 0, hold_exit: 0, ticks: 0 }
    }

    pub fn editing(&self) -> (r: bool)
        ensures
            r == self.editing_spec(),
    {
        self.hold_accept <= BUTTON_CLICK_TIME && self.hold_exit <= BUTTON_CLICK_TIME
    }

    /// Takes in the samples of one pass while editing: the exit button
    /// moves the cursor forward and the main button back, then up and down
    /// edit the field under the cursor, and the day is cut down to the
    /// length of its month. Any press restarts the blink. While a button is
    /// held beyond a click nothing is edited and the blink restarts.
    pub fn edit(&mut self, forward: bool, backward: bool, up: bool, down: bool)
        requires
            old(self).wf(),
        ensures
            final(self).wf(),
            final(self).hold_accept == old(self).hold_accept,
            final(self).hold_exit == old(self).hold_exit,
            old(self).editing_spec() ==> ({
                let step = mode_after(old(self).step, forward, backward);
                &&& final(self).step == step
                &&& final(self).datetime == date_after(step, old(self).datetime, up, down)
                &&& final(self).ticks == if forward || backward || up || down {
                    0
                } else {
                    old(self).ticks
                }
            }),
            !old(self).editing_spec() ==> final(self).step == old(self).step && final(self).datetime
                == old(self).datetime && final(self).ticks == 0,
    {
        if self.editing() {
            if buttons::mode_change(&mut self.step, forward, backward) {
                self.ticks = 0;
            }
            match self.step {
                SettingDate::Day | SettingDate::Month => {
                    let (day, month) = menu::setting_date(
                        &self.step,
                        self.datetime.day,
                        self.datetime.month,
                        self.datetime.year,
                        up,
                        down,
                        &mut self.ticks,
                    );
                    self.datetime.day = day;
                    self.datetime.month = month;
                },
                _ => {
                    let year = menu::setting_year(&self.step, self.datetime.year, up, down, &mut self.ticks);
                    let max = crate::datetime::days_in_month(self.datetime.month, year);
                    self.datetime.year = year;
                    if max < self.datetime.day {
                        self.datetime.day = max;
                    }
                },
            }
        } else {
            self.ticks = 0;
        }
    }

    /// Draws the date under edit, blinking the field under the cursor.
    pub fn render(&self, matrices: &mut MatrixDisplay)
        requires
            self.wf(),
        ensures
            final(matrices).cells() == blink_frame(
                menu::ModeExt::index_spec(&self.step),
                menu::ModeExt::dot_mode_spec(&self.step),
                self.datetime,
                self.ticks,
            ),
    {
        menu::blink_display(&self.step, &self.datetime, matrices, self.ticks);
    }

    /// Feeds a sample of the main button; a completed hold ends the session
    /// and commits the moment under edit.
    pub fn sample_accept(&mut self, pressed: bool) -> (r: EditOutcome)
        requires
            old(self).wf(),
        ensures
            final(self).hold_accept == hold_next(old(self).hold_accept as int, pressed),
            r == accept_outcome(old(self).hold_accept, pressed, old(self).datetime),
            r == EditOutcome::Continue ==> final(self).wf(),
            final(self).datetime == old(self).datetime,
            final(self).step == old(self).step,
            final(self).ticks == old(self).ticks,
            final(self).hold_exit == old(self).hold_exit,
    {
        match buttons::button_hold(&mut self.hold_accept, pressed) {
            Hold::Complete => EditOutcome::Commit(self.datetime),
            Hold::Continue => EditOutcome::Continue,
        }
    }

    /// Feeds a sample of the exit button; a completed hold ends the session
    /// and drops the edit.
    pub fn sample_exit(&mut self, pressed: bool) -> (r: EditOutcome)
        requires
            old(self).wf(),
        ensures
            final(self).hold_exit == hold_next(old(self).hold_exit as int, pressed),
            r == exit_outcome(old(self).hold_exit, pressed),
            r == EditOutcome::Continue ==> final(self).wf(),
            final(self).datetime == old(self).datetime,
            final(self).step == old(self).step,
            final(self).ticks == old(self).ticks,
            final(self).hold_accept == old(self).hold_accept,
    {
        match buttons::button_hold(&mut self.hold_exit, pressed) {
            Hold::Complete => EditOutcome::Cancel,
            Hold::Continue => EditOutcome::Continue,
        }
    }

    /// Advances the blink at the end of a pass.
    pub fn advance(&mut self)
        requires
            old(self).wf(),
        ensures
            final(self).wf(),
            final(self).ticks == next_blink_tick(old(self).ticks),
            final(self).datetime == old(self).datetime,
            final(self).step == old(self).step,
            final(self).hold_accept == old(self).hold_accept,
            final(self).hold_exit == old(self).hold_exit,
    {
        self.ticks = (self.ticks + BLINK_STEP) % DISPLAY_TIME;
    }
}

/// Whatever sequence of edits a date session takes in, its date stays a
/// valid date, its day within its month, and a year within
/// `MIN_YEAR..=MAX_YEAR` stays there.
pub proof fn lemma_date_edit_keeps_calendar(step: SettingDate, t: Timestamp, up: bool, down: bool)
    requires
        t.wf(),
    ensures
        date_after(step, t, up, down).wf(),
        menu::MIN_YEAR <= t.year <= menu::MAX_YEAR ==> menu::MIN_YEAR <= date_after(step, t, up, down).year
            <= menu::MAX_YEAR,
{
    match step {
        SettingDate::Day | SettingDate::Month => {
            menu::lemma_day_fits_month(step, t.day, t.month, t.year, up, down);
        },
        _ => {
            if menu::MIN_YEAR <= t.year <= menu::MAX_YEAR {
                menu::lemma_year_stays_in_range(step, t.year, up, down);
            }
        },
    }
}

} // verus!
