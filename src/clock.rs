//! The clock engine: what the display shows for each reading of the
//! real-time clock, the daylight-saving rule, the night dimming latch and
//! the alarm trigger.
use vstd::prelude::*;
use crate::alarm::Alarm;
use crate::datetime::Timestamp;
use crate::matrix_display::{MatrixDisplay, frame};
use crate::symbols::{self, digit_rows};
use crate::utils::{Mode, shift_bits, shifted_rows};

verus! {

/// What the clock shows: the time of day, the date, or the year.
#[derive(Clone, Copy, Debug, PartialEq, Eq, Structural)]
pub enum ClockMode {
    Time,
    Date,
    Year,
}

impl Mode for ClockMode {
    open spec fn next_spec(&self) -> ClockMode {
        match self {
            ClockMode::Time => ClockMode::Date,
            ClockMode::Date => ClockMode::Year,
            ClockMode::Year => ClockMode::Time,
        }
    }

    open spec fn prev_spec(&self) -> ClockMode {
        match self {
            ClockMode::Time => ClockMode::Year,
            ClockMode::Date => ClockMode::Time,
            ClockMode::Year => ClockMode::Date,
        }
    }

    fn next(&self) -> (r: ClockMode) {
        match self {
            ClockMode::Time => ClockMode::Date,
            ClockMode::Date => ClockMode::Year,
            ClockMode::Year => ClockMode::Time,
        }
    }

    fn prev(&self) -> (r: ClockMode) {
        match self {
            ClockMode::Time => ClockMode::Year,
            ClockMode::Date => ClockMode::Time,
            ClockMode::Year => ClockMode::Date,
        }
    }
}

/// Stepping forward and then back, or back and then forward, returns to
/// the mode one started from.
pub proof fn lemma_clock_mode_round_trip(m: ClockMode)
    ensures
        m.next_spec().prev_spec() == m,
        m.prev_spec().next_spec() == m,
{
}

/// The four decimal digits shown in `mode`, left to right.
pub open spec fn clock_digits(mode: ClockMode, t: Timestamp) -> Seq<int> {
    match mode {
        ClockMode::Time => seq![t.hour as int / 10, t.hour as int % 10, t.minute as int / 10, t.minute as int % 10],
        ClockMode::Date => seq![t.day as int / 10, t.day as int % 10, t.month as int / 10, t.month as int % 10],
        ClockMode::Year => seq![
            t.year as int / 1000,
            t.year as int / 100 % 10,
            t.year as int / 10 % 10,
            t.year as int % 10,
        ],
    }
}

/// Whether row `i` of a cell carries a punctuation dot in `mode`: a colon
/// for the time, a full stop for the date, nothing for the year, and
/// nothing at all on odd seconds.
pub open spec fn dot_row(mode: ClockMode, is_even: bool, i: int) -> bool {
    is_even && match mode {
        ClockMode::Time => i == 1 || i == 2 || i == 4 || i == 5,
        ClockMode::Date => i == 5 || i == 6,
        ClockMode::Year => false,
    }
}

/// Rows of `g` with the bits of `mask` toggled on the dotted rows.
pub open spec fn with_dots(g: Seq<u8>, mode: ClockMode, is_even: bool, mask: u8) -> Seq<u8> {
    Seq::new(g.len(), |i: int| if dot_row(mode, is_even, i) { g[i] ^ mask } else { g[i] })
}

/// The daylight-saving correction: on a Sunday after the 24th (the last
/// Sunday of the month), 3 o'clock in October goes back to 2, and 2
/// o'clock in March goes forward to 3.
pub open spec fn dst_hour(t: Timestamp) -> Option<u32> {
    if t.weekday == 0 && t.day > 24 && t.month == 10 && t.hour == 3 {
        Some(2)
    } else if t.weekday == 0 && t.day > 24 && t.month == 3 && t.hour == 2 {
        Some(3)
    } else {
        None
    }
}

/// The display intensity by day.
pub const DAY_INTENSITY: u8 = 3;

/// The display intensity by night.
pub const NIGHT_INTENSITY: u8 = 0;

/// The new display intensity when the hour crosses into the night (from
/// 23 to 6 o'clock) or out of it, given whether it is already dimmed.
pub open spec fn intensity_change(hour: u32, is_late: bool) -> Option<u8> {
    if is_late {
        if 6 <= hour < 23 {
            Some(DAY_INTENSITY)
        } else {
            None
        }
    } else if hour >= 23 || hour < 6 {
        Some(NIGHT_INTENSITY)
    } else {
        None
    }
}

/// Whether the alarm rings at this reading: it is armed, the reading is
/// one second past the minute, and the hour and minute match.
pub open spec fn alarm_fires(alarm: Alarm, second: u32, t: Timestamp) -> bool {
    alarm.spec_enabled() && second == 1 && alarm.spec_hour() == t.hour && alarm.spec_minute()
        == t.minute
}

/// The digits of `t` as drawn in `mode`, before any spacing.
pub open spec fn digit_frame(mode: ClockMode, t: Timestamp) -> Seq<Seq<u8>> {
    let d = clock_digits(mode, t);
    frame(digit_rows(d[0]), digit_rows(d[1]), digit_rows(d[2]), digit_rows(d[3]))
}

/// `f` spaced out as the clock spaces its digits, with the punctuation of
/// `mode` between the second and the third cell.
pub open spec fn spaced(f: Seq<Seq<u8>>, mode: ClockMode, is_even: bool) -> Seq<Seq<u8>> {
    frame(
        shifted_rows(f[0], 1),
        with_dots(f[1], mode, is_even, 1),
        with_dots(shifted_rows(f[2], 2), mode, is_even, 128),
        shifted_rows(f[3], 1),
    )
}

/// Draws the four digits of `datetime` for `mode`.
pub fn calc_digits(mode: &ClockMode, datetime: &Timestamp, matrices: &mut MatrixDisplay)
    requires
        datetime.wf(),
    ensures
        final(matrices).cells() == digit_frame(*mode, *datetime),
{
    let (a, b, c, d) = match mode {
        ClockMode::Time => (
            datetime.hour / 10,
            datetime.hour % 10,
            datetime.minute / 10,
            datetime.minute % 10,
        ),
        ClockMode::Date => (
            datetime.day / 10,
            datetime.day % 10,
            datetime.month / 10,
            datetime.month % 10,
        ),
        ClockMode::Year => (
            datetime.year / 1000,
            datetime.year / 100 % 10,
            datetime.year / 10 % 10,
            datetime.year % 10,
        ),
    };
    matrices.first_matrix = symbols::digit(a as u8);
    matrices.second_matrix = symbols::digit(b as u8);
    matrices.third_matrix = symbols::digit(c as u8);
    matrices.fourth_matrix = symbols::digit(d as u8);
}

/// Toggles the punctuation dots of `mode`: bit 0 of the dotted rows of
/// `matrix_one`, bit 7 of those of `matrix_two`.
pub fn add_dots(mode: &ClockMode, is_even: bool, matrix_one: &mut [u8; 8], matrix_two: &mut [u8; 8])
    ensures
        final(matrix_one)@ == with_dots(old(matrix_one)@, *mode, is_even, 1),
        final(matrix_two)@ == with_dots(old(matrix_two)@, *mode, is_even, 128),
{
    if is_even {
        match mode {
            ClockMode::Time => {
                matrix_one[1] = matrix_one[1] ^ 1;
                matrix_one[2] = matrix_one[2] ^ 1;
                matrix_one[4] = matrix_one[4] ^ 1;
                matrix_one[5] = matrix_one[5] ^ 1;
                matrix_two[1] = matrix_two[1] ^ 128;
                matrix_two[2] = matrix_two[2] ^ 128;
                matrix_two[4] = matrix_two[4] ^ 128;
                matrix_two[5] = matrix_two[5] ^ 128;
            },
            ClockMode::Year => {},
            ClockMode::Date => {
                matrix_one[5] = matrix_one[5] ^ 1;
                matrix_one[6] = matrix_one[6] ^ 1;
                matrix_two[5] = matrix_two[5] ^ 128;
                matrix_two[6] = matrix_two[6] ^ 128;
            },
        }
    }
    proof {
        assert(matrix_one@ =~= with_dots(old(matrix_one)@, *mode, is_even, 1));
        assert(matrix_two@ =~= with_dots(old(matrix_two)@, *mode, is_even, 128));
    }
}

/// Spaces the four digits out and adds the punctuation between the second
/// and the third.
pub fn prepare_display(matrices: &mut MatrixDisplay, mode: &ClockMode, is_even: bool)
    ensures
        final(matrices).cells() == spaced(old(matrices).cells(), *mode, is_even),
{
    shift_bits(&mut matrices.first_matrix, 1);
    shift_bits(&mut matrices.third_matrix, 2);
    shift_bits(&mut matrices.fourth_matrix, 1);
    add_dots(mode, is_even, &mut matrices.second_matrix, &mut matrices.third_matrix);
}

/// The daylight-saving correction due at `datetime`: the hour to set, if any.
pub fn time_change(datetime: &Timestamp) -> (r: Option<u32>)
    ensures
        r == dst_hour(*datetime),
{
    if datetime.weekday == 0 && datetime.day > 24 {
        if datetime.month == 10 && datetime.hour == 3 {
            return Some(2);
        } else if datetime.month == 3 && datetime.hour == 2 {
            return Some(3);
        }
    }
    None
}

/// Once the correction has moved the hour, the rule does not fire again at
/// the corrected hour of the same day.
pub proof fn lemma_dst_fires_once(t: Timestamp)
    requires
        dst_hour(t) is Some,
    ensures
        dst_hour(t.with_hour(dst_hour(t)->Some_0)) is None,
        t.month == 10 ==> dst_hour(t) == Some(2u32),
        t.month == 3 ==> dst_hour(t) == Some(3u32),
{
}

/// A reading of the real-time clock as the clock engine takes it in.
#[derive(Clone, Copy, Debug, PartialEq, Eq, Structural)]
pub struct Reading {
    /// The moment read, which is what this tick displays.
    pub datetime: Timestamp,
    /// The corrected moment to write back to the real-time clock, when the
    /// daylight-saving rule fires.
    pub write_back: Option<Timestamp>,
}

/// The calendar date of `t`, as (year, month, day).
pub open spec fn date_of(t: Timestamp) -> (u32, u32, u32) {
    (t.year, t.month, t.day)
}

/// Whether the daylight-saving correction is made at reading `t`: the
/// second is new, the rule applies, and no correction was made on that date
/// yet (`corrected_on` is the date of the last one).
pub open spec fn dst_fires(t: Timestamp, fresh: bool, corrected_on: Option<(u32, u32, u32)>) -> bool {
    fresh && dst_hour(t) is Some && corrected_on != Some(date_of(t))
}

/// The moment to write back at reading `t`, if the correction is made.
pub open spec fn dst_write_back(t: Timestamp, fresh: bool, corrected_on: Option<(u32, u32, u32)>) -> Option<
    Timestamp,
> {
    if dst_fires(t, fresh, corrected_on) {
        Some(t.with_hour(dst_hour(t)->Some_0))
    } else {
        None
    }
}

/// The date of the last correction after reading `t`.
pub open spec fn corrected_after(t: Timestamp, fresh: bool, corrected_on: Option<(u32, u32, u32)>) -> Option<
    (u32, u32, u32),
> {
    if dst_fires(t, fresh, corrected_on) {
        Some(date_of(t))
    } else {
        corrected_on
    }
}

/// The correction is made once per transition: after it, no other reading
/// of the same date makes it again, whatever its hour.
pub proof fn lemma_dst_once_per_date(
    t1: Timestamp,
    fresh1: bool,
    corrected_on: Option<(u32, u32, u32)>,
    t2: Timestamp,
    fresh2: bool,
)
    requires
        dst_fires(t1, fresh1, corrected_on),
        date_of(t2) == date_of(t1),
    ensures
        dst_write_back(t2, fresh2, corrected_after(t1, fresh1, corrected_on)) is None,
        corrected_after(t2, fresh2, corrected_after(t1, fresh1, corrected_on)) == Some(date_of(t1)),
{
}

/// Takes in the outcome of a read of the real-time clock. `changed` tells
/// whether the second differs from the one last seen; only then is the
/// daylight-saving rule applied, and only if no correction was made on the
/// date read yet; `corrected_on` then records that date. A failed read
/// changes nothing.
pub fn rtc_read(
    read: Result<Timestamp, ()>,
    last_second: &mut u32,
    changed: &mut bool,
    corrected_on: &mut Option<(u32, u32, u32)>,
) -> (r: Result<Reading, ()>)
    ensures
        read is Err ==> r is Err && *final(last_second) == *old(last_second) && *final(changed)
            == *old(changed) && *final(corrected_on) == *old(corrected_on),
        read is Ok ==> ({
            let t = read->Ok_0;
            let fresh = t.second != *old(last_second);
            &&& *final(changed) == fresh
            &&& *final(last_second) == t.second
            &&& *final(corrected_on) == corrected_after(t, fresh, *old(corrected_on))
            &&& r == Ok::<Reading, ()>(
                Reading { datetime: t, write_back: dst_write_back(t, fresh, *old(corrected_on)) },
            )
        }),
{
    match read {
        Ok(datetime) => {
            let fresh = datetime.second != *last_second;
            *changed = fresh;
            *last_second = datetime.second;
            let mut write_back: Option<Timestamp> = None;
            if fresh {
                if let Some(hour) = time_change(&datetime) {
                    let date = (datetime.year, datetime.month, datetime.day);
                    let done = match corrected_on {
                        Some(d) => d.0 == date.0 && d.1 == date.1 && d.2 == date.2,
                        None => false,
                    };
                    if !done {
                        write_back = Some(Timestamp { hour, ..datetime });
                        *corrected_on = Some(date);
                    }
                }
            }
            Ok(Reading { datetime, write_back })
        },
        Err(()) => Err(()),
    }
}

/// The display intensity to set at `hour`, if the night latch flips: 0 on
/// entering the night, 3 on leaving it. Once the change is applied the
/// latch is `r == Some(NIGHT_INTENSITY)`.
pub fn check_intensity(hour: u32, is_late: bool) -> (r: Option<u8>)
    ensures
        r == intensity_change(hour, is_late),
{
    if is_late {
        if hour < 23 && hour >= 6 {
            return Some(DAY_INTENSITY);
        }
    } else if hour >= 23 || hour < 6 {
        return Some(NIGHT_INTENSITY);
    }
    None
}

/// Once applied, a change of intensity is not asked for again within the
/// same part of the day.
pub proof fn lemma_intensity_changes_once(hour: u32, is_late: bool)
    requires
        intensity_change(hour, is_late) is Some,
    ensures
        intensity_change(hour, intensity_change(hour, is_late) == Some(NIGHT_INTENSITY)) is None,
{
}

/// Whether the alarm starts ringing at this reading.
pub fn check_alarm(alarm: &Alarm, last_second: u32, datetime: &Timestamp) -> (r: bool)
    ensures
        r == alarm_fires(*alarm, last_second, *datetime),
{
    alarm.is_enable() && last_second == 1 && alarm.get_hour() == datetime.hour
        && alarm.get_minute() == datetime.minute
}

} // verus!
