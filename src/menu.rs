//! The settings engine: the menu's cyclic modes and field cursors, the
//! scrolling labels, the editing rules for time, date and year, and the
//! blinking of the field under edit.
use vstd::prelude::*;
use crate::clock::{self, ClockMode, digit_frame, spaced, with_dots};
use crate::datetime::{Timestamp, days_in_month, month_length};
use crate::matrix_display::{MatrixDisplay, frame};
use crate::symbols::{self, Letters, blank_rows, digit_rows, exclamation_rows, letter_rows};
use crate::utils::{Mode, shifted_rows};

verus! {

/// The display intensity while the menu is shown.
pub const MENU_INTENSITY: u8 = 5;

/// Ticks that each step of a scrolling label lasts.
pub const ANIMATION_TIME: u16 = 200;

/// Ticks of one blink period of the field under edit.
pub const DISPLAY_TIME: u16 = 600;

/// Ticks of a blink period after which the field under edit is blanked.
pub const BLINK_TIME: u16 = 300;

/// Ticks that one pass of an editing loop advances the blink.
pub const BLINK_STEP: u16 = 2;

/// The menu's entries.
#[derive(Clone, Copy, Debug, PartialEq, Eq, Structural)]
pub enum MenuMode {
    SetHour,
    SetDate,
    SetAlarm,
}

impl Mode for MenuMode {
    open spec fn next_spec(&self) -> MenuMode {
        match self {
            MenuMode::SetHour => MenuMode::SetDate,
            MenuMode::SetDate => MenuMode::SetAlarm,
            MenuMode::SetAlarm => MenuMode::SetHour,
        }
    }

    open spec fn prev_spec(&self) -> MenuMode {
        match self {
            MenuMode::SetHour => MenuMode::SetAlarm,
            MenuMode::SetDate => MenuMode::SetHour,
            MenuMode::SetAlarm => MenuMode::SetDate,
        }
    }

    fn next(&self) -> (r: MenuMode) {
        match self {
            MenuMode::SetHour => MenuMode::SetDate,
            MenuMode::SetDate => MenuMode::SetAlarm,
            MenuMode::SetAlarm => MenuMode::SetHour,
        }
    }

    fn prev(&self) -> (r: MenuMode) {
        match self {
            MenuMode::SetHour => MenuMode::SetAlarm,
            MenuMode::SetDate => MenuMode::SetHour,
            MenuMode::SetAlarm => MenuMode::SetDate,
        }
    }
}

/// The field under edit while setting a time of day.
#[derive(Clone, Copy, Debug, PartialEq, Eq, Structural)]
pub enum SettingTime {
    Hour,
    Minute,
}

/// The field under edit while setting the date: day, month, then the
/// four digits of the year from the left.
#[derive(Clone, Copy, Debug, PartialEq, Eq, Structural)]
pub enum SettingDate {
    Day,
    Month,
    Thousand,
    Hundred,
    Ten,
    One,
}

/// A field cursor: its position, and the clock mode whose punctuation the
/// fields are drawn with.
pub trait ModeExt: Mode {
    spec fn index_spec(&self) -> u8;

    spec fn dot_mode_spec(&self) -> ClockMode;

    fn current_index(&self) -> (r: u8)
        ensures
            r == self.index_spec(),
            r < 6,
    ;

    fn dot_mode(&self) -> (r: ClockMode)
        ensures
            r == self.dot_mode_spec(),
    ;
}

impl Mode for SettingTime {
    open spec fn next_spec(&self) -> SettingTime {
        match self {
            SettingTime::Hour => SettingTime::Minute,
            SettingTime::Minute => SettingTime::Hour,
        }
    }

    open spec fn prev_spec(&self) -> SettingTime {
        self.next_spec()
    }

    fn next(&self) -> (r: SettingTime) {
        match self {
            SettingTime::Hour => SettingTime::Minute,
            SettingTime::Minute => SettingTime::Hour,
        }
    }

    fn prev(&self) -> (r: SettingTime) {
        match self {
            SettingTime::Hour => SettingTime::Minute,
            SettingTime::Minute => SettingTime::Hour,
        }
    }
}

impl ModeExt for SettingTime {
    open spec fn index_spec(&self) -> u8 {
        match self {
            SettingTime::Hour => 0,
            SettingTime::Minute => 1,
        }
    }

    open spec fn dot_mode_spec(&self) -> ClockMode {
        ClockMode::Time
    }

    fn current_index(&self) -> (r: u8) {
        match self {
            SettingTime::Hour => 0,
            SettingTime::Minute => 1,
        }
    }

    fn dot_mode(&self) -> (r: ClockMode) {
        ClockMode::Time
    }
}

impl Mode for SettingDate {
    open spec fn next_spec(&self) -> SettingDate {
        match self {
            SettingDate::Day => SettingDate::Month,
            SettingDate::Month => SettingDate::Thousand,
            SettingDate::Thousand => SettingDate::Hundred,
            SettingDate::Hundred => SettingDate::Ten,
            SettingDate::Ten => SettingDate::One,
            SettingDate::One => SettingDate::Day,
        }
    }

    open spec fn prev_spec(&self) -> SettingDate {
        match self {
            SettingDate::Day => SettingDate::One,
            SettingDate::Month => SettingDate::Day,
            SettingDate::Thousand => SettingDate::Month,
            SettingDate::Hundred => SettingDate::Thousand,
            SettingDate::Ten => SettingDate::Hundred,
            SettingDate::One => SettingDate::Ten,
        }
    }

    fn next(&self) -> (r: SettingDate) {
        match self {
            SettingDate::Day => SettingDate::Month,
            SettingDate::Month => SettingDate::Thousand,
            SettingDate::Thousand => SettingDate::Hundred,
            SettingDate::Hundred => SettingDate::Ten,
            SettingDate::Ten => SettingDate::One,
            SettingDate::One => SettingDate::Day,
        }
    }

    fn prev(&self) -> (r: SettingDate) {
        match self {
            SettingDate::Day => SettingDate::One,
            SettingDate::Month => SettingDate::Day,
            SettingDate::Thousand => SettingDate::Month,
            SettingDate::Hundred => SettingDate::Thousand,
            SettingDate::Ten => SettingDate::Hundred,
            SettingDate::One => SettingDate::Ten,
        }
    }
}

impl ModeExt for SettingDate {
    open spec fn index_spec(&self) -> u8 {
        match self {
            SettingDate::Day => 0,
            SettingDate::Month => 1,
            SettingDate::Thousand => 2,
            SettingDate::Hundred => 3,
            SettingDate::Ten => 4,
            SettingDate::One => 5,
        }
    }

    open spec fn dot_mode_spec(&self) -> ClockMode {
        match self {
            SettingDate::Day | SettingDate::Month => ClockMode::Date,
            _ => ClockMode::Year,
        }
    }

    fn current_index(&self) -> (r: u8) {
        match self {
            SettingDate::Day => 0,
            SettingDate::Month => 1,
            SettingDate::Thousand => 2,
            SettingDate::Hundred => 3,
            SettingDate::Ten => 4,
            SettingDate::One => 5,
        }
    }

    fn dot_mode(&self) -> (r: ClockMode) {
        match self {
            SettingDate::Day | SettingDate::Month => ClockMode::Date,
            _ => ClockMode::Year,
        }
    }
}

/// The menu's entries and both field cursors are cycles: stepping forward
/// and then back, or back and then forward, returns to where one started.
pub proof fn lemma_menu_modes_round_trip(m: MenuMode, t: SettingTime, d: SettingDate)
    ensures
        m.next_spec().prev_spec() == m,
        m.prev_spec().next_spec() == m,
        t.next_spec().prev_spec() == t,
        t.prev_spec().next_spec() == t,
        d.next_spec().prev_spec() == d,
        d.prev_spec().next_spec() == d,
{
}

/// The cells that a menu entry's label scrolls through: the entry's
/// number, its name, and a gap.
pub open spec fn label_tape(mode: MenuMode) -> Seq<Seq<u8>> {
    match mode {
        MenuMode::SetHour => seq![
            digit_rows(1),
            letter_rows(Letters::T),
            letter_rows(Letters::I),
            letter_rows(Letters::M),
            letter_rows(Letters::E),
            blank_rows(),
        ],
        MenuMode::SetDate => seq![
            digit_rows(2),
            letter_rows(Letters::D),
            letter_rows(Letters::A),
            letter_rows(Letters::T),
            letter_rows(Letters::E),
            blank_rows(),
        ],
        MenuMode::SetAlarm => seq![
            digit_rows(3),
            letter_rows(Letters::A),
            letter_rows(Letters::L),
            letter_rows(Letters::A),
            letter_rows(Letters::R),
            letter_rows(Letters::M),
            blank_rows(),
        ],
    }
}

/// Cell `i` of the label window that starts at tape position `start`.
/// Where the number and the name's first letter stand side by side, a
/// colon joins them: dots on the number's right edge, and the letter
/// moved one column right with dots on its left edge.
pub open spec fn label_cell(tape: Seq<Seq<u8>>, start: int, i: int) -> Seq<u8> {
    let j = (start + i) % (tape.len() as int);
    if j == 0 && i < 3 {
        with_dots(tape[0], ClockMode::Date, true, 1)
    } else if j == 1 && i > 0 {
        with_dots(shifted_rows(tape[1], 1), ClockMode::Date, true, 128)
    } else {
        tape[j]
    }
}

/// The step of the label animation at `ticks`: one step per
/// `ANIMATION_TIME` ticks, the last step holding from then on.
pub open spec fn label_step(mode: MenuMode, ticks: u16) -> int {
    let s = ticks / ANIMATION_TIME;
    let last = label_tape(mode).len() - 1;
    if s < last {
        s as int
    } else {
        last as int
    }
}

/// The frame of the label of `mode` at `ticks`.
pub open spec fn label_frame(mode: MenuMode, ticks: u16) -> Seq<Seq<u8>> {
    let tape = label_tape(mode);
    let s = label_step(mode, ticks);
    frame(label_cell(tape, s, 0), label_cell(tape, s, 1), label_cell(tape, s, 2), label_cell(tape, s, 3))
}

/// The number of steps of the label of `mode`.
pub fn label_len(mode: &MenuMode) -> (r: usize)
    ensures
        r == label_tape(*mode).len(),
{
    match mode {
        MenuMode::SetAlarm => 7,
        _ => 6,
    }
}

/// Cell `j` of the label tape of `mode`.
fn label_glyph(mode: &MenuMode, j: usize) -> (r: [u8; 8])
    requires
        j < label_tape(*mode).len(),
    ensures
        r@ == label_tape(*mode)[j as int],
{
    match mode {
        MenuMode::SetHour => {
            if j == 0 {
                symbols::digit(1)
            } else if j == 1 {
                Letters::T.bytes()
            } else if j == 2 {
                Letters::I.bytes()
            } else if j == 3 {
                Letters::M.bytes()
            } else if j == 4 {
                Letters::E.bytes()
            } else {
                symbols::blank()
            }
        },
        MenuMode::SetDate => {
            if j == 0 {
                symbols::digit(2)
            } else if j == 1 {
                Letters::D.bytes()
            } else if j == 2 {
                Letters::A.bytes()
            } else if j == 3 {
                Letters::T.bytes()
            } else if j == 4 {
                Letters::E.bytes()
            } else {
                symbols::blank()
            }
        },
        MenuMode::SetAlarm => {
            if j == 0 {
                symbols::digit(3)
            } else if j == 1 {
                Letters::A.bytes()
            } else if j == 2 {
                Letters::L.bytes()
            } else if j == 3 {
                Letters::A.bytes()
            } else if j == 4 {
                Letters::R.bytes()
            } else if j == 5 {
                Letters::M.bytes()
            } else {
                symbols::blank()
            }
        },
    }
}

/// Cell `i` of the label window of `mode` that starts at `start`.
fn label_cell_glyph(mode: &MenuMode, start: usize, i: usize) -> (r: [u8; 8])
    requires
        start < label_tape(*mode).len(),
        i < 4,
    ensures
        r@ == label_cell(label_tape(*mode), start as int, i as int),
{
    let n = label_len(mode);
    let j = (start + i) % n;
    let mut g = label_glyph(mode, j);
    let mut other = symbols::blank();
    if j == 0 && i < 3 {
        clock::add_dots(&ClockMode::Date, true, &mut g, &mut other);
    } else if j == 1 && i > 0 {
        crate::utils::shift_bits(&mut g, 1);
        clock::add_dots(&ClockMode::Date, true, &mut other, &mut g);
    }
    g
}

/// Draws the label of `mode` as it stands at `ticks`.
fn display_label(matrices: &mut MatrixDisplay, mode: &MenuMode, ticks: u16)
    ensures
        final(matrices).cells() == label_frame(*mode, ticks),
{
    let last = label_len(mode) - 1;
    let s = (ticks / ANIMATION_TIME) as usize;
    let start = if s < last {
        s
    } else {
        last
    };
    matrices.first_matrix = label_cell_glyph(mode, start, 0);
    matrices.second_matrix = label_cell_glyph(mode, start, 1);
    matrices.third_matrix = label_cell_glyph(mode, start, 2);
    matrices.fourth_matrix = label_cell_glyph(mode, start, 3);
}

/// Draws the scrolling "2: DATE" label at `ticks`.
pub fn display_menu_date(matrices: &mut MatrixDisplay, ticks: &u16)
    ensures
        final(matrices).cells() == label_frame(MenuMode::SetDate, *ticks),
{
    display_label(matrices, &MenuMode::SetDate, *ticks);
}

/// Draws the scrolling "1: TIME" label at `ticks`.
pub fn display_menu_time(matrices: &mut MatrixDisplay, ticks: &u16)
    ensures
        final(matrices).cells() == label_frame(MenuMode::SetHour, *ticks),
{
    display_label(matrices, &MenuMode::SetHour, *ticks);
}

/// Draws the scrolling "3: ALARM" label at `ticks`.
pub fn display_menu_alarm(matrices: &mut MatrixDisplay, ticks: &u16)
    ensures
        final(matrices).cells() == label_frame(MenuMode::SetAlarm, *ticks),
{
    display_label(matrices, &MenuMode::SetAlarm, *ticks);
}

/// Draws "MENU".
pub fn display_menu(matrices: &mut MatrixDisplay)
    ensures
        final(matrices).cells() == frame(
            letter_rows(Letters::M),
            letter_rows(Letters::E),
            letter_rows(Letters::N),
            letter_rows(Letters::U),
        ),
{
    matrices.first_matrix = Letters::M.bytes();
    matrices.second_matrix = Letters::E.bytes();
    matrices.third_matrix = Letters::N.bytes();
    matrices.fourth_matrix = Letters::U.bytes();
}

/// Draws "OFF!", the answer to disarming the alarm.
pub fn off_display_info(matrices: &mut MatrixDisplay)
    ensures
        final(matrices).cells() == frame(
            letter_rows(Letters::O),
            letter_rows(Letters::F),
            letter_rows(Letters::F),
            exclamation_rows(),
        ),
{
    matrices.first_matrix = Letters::O.bytes();
    matrices.second_matrix = Letters::F.bytes();
    matrices.third_matrix = Letters::F.bytes();
    matrices.fourth_matrix = symbols::exclamation_mark();
}

/// Draws " ON!", the answer to arming the alarm.
pub fn on_display_info(matrices: &mut MatrixDisplay)
    ensures
        final(matrices).cells() == frame(
            blank_rows(),
            letter_rows(Letters::O),
            letter_rows(Letters::N),
            exclamation_rows(),
        ),
{
    matrices.first_matrix = symbols::blank();
    matrices.second_matrix = Letters::O.bytes();
    matrices.third_matrix = Letters::N.bytes();
    matrices.fourth_matrix = symbols::exclamation_mark();
}

/// The tick count of the label animation after one more pass, wrapping to
/// 0 at the end of the label's cycle.
pub open spec fn next_animation_tick(ticks: u16, mode: MenuMode) -> int {
    let t = ticks + 1;
    if t >= ANIMATION_TIME * label_tape(mode).len() {
        0
    } else {
        t
    }
}

/// Advances the label animation by one tick.
pub fn animation_ticks_set(ticks_before: u16, mode: &MenuMode) -> (r: u16)
    requires
        ticks_before < u16::MAX,
    ensures
        r == next_animation_tick(ticks_before, *mode),
{
    let ticks = ticks_before + 1;
    let cycle: u16 = match mode {
        MenuMode::SetAlarm => ANIMATION_TIME * 7,
        _ => ANIMATION_TIME * 6,
    };
    if ticks >= cycle {
        0
    } else {
        ticks
    }
}

/// The hour and minute after an up press and then a down press on the
/// field `step`: the field moves by one up and one down, hours modulo 24
/// and minutes modulo 60.
pub open spec fn time_edit(step: SettingTime, hour: u32, minute: u32, up: bool, down: bool) -> (u32, u32) {
    let u: int = if up {
        1
    } else {
        0
    };
    let d: int = if down {
        1
    } else {
        0
    };
    match step {
        SettingTime::Hour => (((hour + u + 23 * d) % 24) as u32, minute),
        SettingTime::Minute => (hour, ((minute + u + 59 * d) % 60) as u32),
    }
}

/// Edits the field `step` of a time of day by a press of up and then of
/// down (either may be absent). A press restarts the blink.
pub fn setting_time(step: &SettingTime, hour: u32, minute: u32, up: bool, down: bool, ticks: &mut u16) -> (r: (u32, u32))
    requires
        hour < 24,
        minute < 60,
    ensures
        r == time_edit(*step, hour, minute, up, down),
        r.0 < 24,
        r.1 < 60,
        *final(ticks) == if up || down {
            0
        } else {
            *old(ticks)
        },
{
    let mut hour = hour;
    let mut minute = minute;
    if up {
        match step {
            SettingTime::Hour => {
                hour = (hour + 1) % 24;
            },
            SettingTime::Minute => {
                minute = (minute + 1) % 60;
            },
        }
        *ticks = 0;
    }
    if down {
        match step {
            SettingTime::Hour => {
                hour = if hour == 0 {
                    23
                } else {
                    hour - 1
                };
            },
            SettingTime::Minute => {
                minute = if minute == 0 {
                    59
                } else {
                    minute - 1
                };
            },
        }
        *ticks = 0;
    }
    (hour, minute)
}

/// The day and month after an up press and then a down press on the field
/// `step` (day or month); days wrap within the month as it stood, months
/// within the year, and the day is then cut down to the length of the
/// resulting month.
pub open spec fn date_edit(step: SettingDate, day: u32, month: u32, year: u32, up: bool, down: bool) -> (u32, u32) {
    let days = month_length(month as int, year as int) as u32;
    let (d1, m1) = if up {
        match step {
            SettingDate::Day => ((day % days + 1) as u32, month),
            SettingDate::Month => (day, (month % 12 + 1) as u32),
            _ => (day, month),
        }
    } else {
        (day, month)
    };
    let (d2, m2) = if down {
        match step {
            SettingDate::Day => (
                if d1 == 1 {
                    days
                } else {
                    (d1 - 1) as u32
                },
                m1,
            ),
            SettingDate::Month => (
                d1,
                if m1 == 1 {
                    12u32
                } else {
                    (m1 - 1) as u32
                },
            ),
            _ => (d1, m1),
        }
    } else {
        (d1, m1)
    };
    let max = month_length(m2 as int, year as int) as u32;
    (if d2 < max {
        d2
    } else {
        max
    }, m2)
}

/// Edits the day or the month of a date by a press of up and then of down
/// (either may be absent). The day always fits the month that results,
/// even when it did not fit the month it started in. A press restarts the
/// blink.
pub fn setting_date(
    step: &SettingDate,
    day: u32,
    month: u32,
    year: u32,
    up: bool,
    down: bool,
    ticks: &mut u16,
) -> (r: (u32, u32))
    requires
        1 <= month <= 12,
        1 <= day,
    ensures
        r == date_edit(*step, day, month, year, up, down),
        1 <= r.1 <= 12,
        1 <= r.0 <= month_length(r.1 as int, year as int),
        *final(ticks) == if up || down {
            0
        } else {
            *old(ticks)
        },
{
    let mut day = day;
    let mut month = month;
    let days = days_in_month(month, year);
    if up {
        match step {
            SettingDate::Day => {
                day = day % days + 1;
            },
            SettingDate::Month => {
                month = month % 12 + 1;
            },
            _ => {},
        }
        *ticks = 0;
    }
    if down {
        match step {
            SettingDate::Day => {
                day = if day == 1 {
                    days
                } else {
                    day - 1
                };
            },
            SettingDate::Month => {
                month = if month == 1 {
                    12
                } else {
                    month - 1
                };
            },
            _ => {},
        }
        *ticks = 0;
    }
    let max = days_in_month(month, year);
    if max < day {
        day = max;
    }
    (day, month)
}

/// The lowest year that the year editor produces.
pub const MIN_YEAR: u32 = 2000;

/// The highest year that the year editor produces.
pub const MAX_YEAR: u32 = 2100;

/// Decimal digit `k` of `year`, counted from the left of four.
pub open spec fn year_digit(year: u32, k: int) -> int {
    let y = year as int;
    if k == 0 {
        y / 1000
    } else if k == 1 {
        y / 100 % 10
    } else if k == 2 {
        y / 10 % 10
    } else {
        y % 10
    }
}

/// Digit `k` of the year after an up press on the field `step`. The
/// thousands digit stays; the hundreds digit goes from 0 to 1 only from
/// 2000 and otherwise back to 0.
pub open spec fn digit_up(step: SettingDate, year: u32, k: int) -> int {
    let d = year_digit(year, k);
    match step {
        SettingDate::Hundred => if k == 1 {
            if year > 2000 || d == 9 {
                0
            } else {
                d + 1
            }
        } else {
            d
        },
        SettingDate::Ten => if k == 2 {
            (d + 1) % 10
        } else {
            d
        },
        SettingDate::One => if k == 3 {
            (d + 1) % 10
        } else {
            d
        },
        _ => d,
    }
}

/// Digit `k` of the year after a down press on the field `step`, where
/// `year` is the year before the edit and `d` the digit after any up
/// press. From 2100 the hundreds digit goes to 0 and from 2000 to 1; from
/// 2100 on, the tens and ones digits go to 0.
pub open spec fn digit_down(step: SettingDate, year: u32, k: int, d: int) -> int {
    match step {
        SettingDate::Hundred => if k == 1 {
            if year == 2100 {
                0
            } else if year == 2000 {
                1
            } else if d == 0 {
                9
            } else {
                d - 1
            }
        } else {
            d
        },
        SettingDate::Ten => if k == 2 {
            if year >= 2100 {
                0
            } else if d == 0 {
                9
            } else {
                d - 1
            }
        } else {
            d
        },
        SettingDate::One => if k == 3 {
            if year >= 2100 {
                0
            } else if d == 0 {
                9
            } else {
                d - 1
            }
        } else {
            d
        },
        _ => d,
    }
}

/// Digit `k` of the year after an up press and then a down press.
pub open spec fn edited_digit(step: SettingDate, year: u32, up: bool, down: bool, k: int) -> int {
    let d = if up {
        digit_up(step, year, k)
    } else {
        year_digit(year, k)
    };
    if down {
        digit_down(step, year, k, d)
    } else {
        d
    }
}

/// The year after an up press and then a down press on one of its digits:
/// the edited digits, held within `MIN_YEAR..=MAX_YEAR`.
pub open spec fn year_edit(step: SettingDate, year: u32, up: bool, down: bool) -> u32 {
    if up || down {
        let y = edited_digit(step, year, up, down, 0) * 1000 + edited_digit(step, year, up, down, 1) * 100
            + edited_digit(step, year, up, down, 2) * 10 + edited_digit(step, year, up, down, 3);
        if y < MIN_YEAR {
            MIN_YEAR
        } else if y > MAX_YEAR {
            MAX_YEAR
        } else {
            y as u32
        }
    } else {
        year
    }
}

/// Edits one decimal digit of the year by a press of up and then of down
/// (either may be absent). Whatever the presses, an edited year lies
/// within `MIN_YEAR..=MAX_YEAR`. A press restarts the blink.
pub fn setting_year(step: &SettingDate, year: u32, up: bool, down: bool, ticks: &mut u16) -> (r: u32)
    requires
        year <= 9999,
    ensures
        r == year_edit(*step, year, up, down),
        up || down ==> MIN_YEAR <= r <= MAX_YEAR,
        !(up || down) ==> r == year,
        *final(ticks) == if up || down {
            0
        } else {
            *old(ticks)
        },
{
    let d0 = year / 1000;
    let mut d1 = year / 100 % 10;
    let mut d2 = year / 10 % 10;
    let mut d3 = year % 10;
    if up {
        match step {
            SettingDate::Hundred => {
                d1 = if year > 2000 || d1 == 9 {
                    0
                } else {
                    d1 + 1
                };
            },
            SettingDate::Ten => {
                d2 = (d2 + 1) % 10;
            },
            SettingDate::One => {
                d3 = (d3 + 1) % 10;
            },
            _ => {},
        }
    }
    if down {
        match step {
            SettingDate::Hundred => {
                d1 = if year == 2100 {
                    0
                } else if year == 2000 {
                    1
                } else if d1 == 0 {
                    9
                } else {
                    d1 - 1
                };
            },
            SettingDate::Ten => {
                d2 = if year >= 2100 {
                    0
                } else if d2 == 0 {
                    9
                } else {
                    d2 - 1
                };
            },
            SettingDate::One => {
                d3 = if year >= 2100 {
                    0
                } else if d3 == 0 {
                    9
                } else {
                    d3 - 1
                };
            },
            _ => {},
        }
    }
    if up || down {
        *ticks = 0;
        let y = d0 * 1000 + d1 * 100 + d2 * 10 + d3;
        if y < MIN_YEAR {
            MIN_YEAR
        } else if y > MAX_YEAR {
            MAX_YEAR
        } else {
            y
        }
    } else {
        year
    }
}

/// Starting within `MIN_YEAR..=MAX_YEAR`, no press on any digit takes the
/// year out of that range.
pub proof fn lemma_year_stays_in_range(step: SettingDate, year: u32, up: bool, down: bool)
    requires
        MIN_YEAR <= year <= MAX_YEAR,
    ensures
        MIN_YEAR <= year_edit(step, year, up, down) <= MAX_YEAR,
{
}

/// Whatever the day and the presses, after an edit of the day or the
/// month the day fits the month that results.
pub proof fn lemma_day_fits_month(step: SettingDate, day: u32, month: u32, year: u32, up: bool, down: bool)
    requires
        1 <= month <= 12,
        1 <= day,
    ensures
        ({
            let (d, m) = date_edit(step, day, month, year, up, down);
            1 <= m <= 12 && 1 <= d <= month_length(m as int, year as int)
        }),
{
}

/// Whether cell `k` belongs to the field at cursor position `index`: the
/// first pair of cells, the second pair, or one year digit each.
pub open spec fn field_cell(index: u8, k: int) -> bool {
    if index == 0 {
        k < 2
    } else if index == 1 {
        k >= 2
    } else {
        k == index - 2
    }
}

/// `f` with the cells of the field at `index` blanked, when `on`.
pub open spec fn blanked(f: Seq<Seq<u8>>, index: u8, on: bool) -> Seq<Seq<u8>> {
    Seq::new(4, |k: int| if on && field_cell(index, k) { blank_rows() } else { f[k] })
}

/// `f` with every cell shifted right by `shift` bits.
pub open spec fn shifted_frame(f: Seq<Seq<u8>>, shift: u8) -> Seq<Seq<u8>> {
    Seq::new(4, |k: int| shifted_rows(f[k], shift))
}

/// The frame of an editing session: the value under edit drawn as the
/// clock draws it (a time or a date with its punctuation, or the year
/// moved one column right), with the field at `index` blanked during the
/// second half of the blink period.
pub open spec fn blink_frame(index: u8, dot_mode: ClockMode, t: Timestamp, ticks: u16) -> Seq<Seq<u8>> {
    let off = ticks > BLINK_TIME;
    if index < 2 {
        spaced(blanked(digit_frame(dot_mode, t), index, off), dot_mode, true)
    } else {
        blanked(shifted_frame(digit_frame(ClockMode::Year, t), 1), index, off)
    }
}

/// Blanks the cells of the field at `index`.
fn blank_field(matrices: &mut MatrixDisplay, index: u8)
    requires
        index < 6,
    ensures
        final(matrices).cells() == blanked(old(matrices).cells(), index, true),
{
    if index == 0 {
        matrices.first_matrix = symbols::blank();
        matrices.second_matrix = symbols::blank();
    } else if index == 1 {
        matrices.third_matrix = symbols::blank();
        matrices.fourth_matrix = symbols::blank();
    } else if index == 2 {
        matrices.first_matrix = symbols::blank();
    } else if index == 3 {
        matrices.second_matrix = symbols::blank();
    } else if index == 4 {
        matrices.third_matrix = symbols::blank();
    } else {
        matrices.fourth_matrix = symbols::blank();
    }
    proof {
        assert(matrices.cells() =~= blanked(old(matrices).cells(), index, true));
    }
}

/// Draws `datetime` for the editing session whose cursor is `setting_step`,
/// blinking the field under the cursor.
pub fn blink_display<T: ModeExt>(setting_step: &T, datetime: &Timestamp, matrices: &mut MatrixDisplay, ticks: u16)
    requires
        datetime.wf(),
    ensures
        final(matrices).cells() == blink_frame(
            setting_step.index_spec(),
            setting_step.dot_mode_spec(),
            *datetime,
            ticks,
        ),
{
    let index = setting_step.current_index();
    let dot_mode = setting_step.dot_mode();
    if index < 2 {
        clock::calc_digits(&dot_mode, datetime, matrices);
        assert(matrices.cells() =~= digit_frame(dot_mode, *datetime));
    } else {
        clock::calc_digits(&ClockMode::Year, datetime, matrices);
        matrices.matrix_shift(1);
        assert(matrices.cells() =~= shifted_frame(digit_frame(ClockMode::Year, *datetime), 1));
    }
    let ghost before = matrices.cells();
    if ticks > BLINK_TIME {
        blank_field(matrices, index);
    } else {
        assert(matrices.cells() =~= blanked(before, index, false));
    }
    if index < 2 {
        let ghost blanked_cells = matrices.cells();
        clock::prepare_display(matrices, &dot_mode, true);
        assert(matrices.cells() =~= spaced(blanked_cells, dot_mode, true));
    }
}

} // verus!
