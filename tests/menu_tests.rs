use desk_clock::buttons::{button_hold, mode_change, Hold};
use desk_clock::menu::{
    animation_ticks_set, blink_display, display_menu, display_menu_alarm, display_menu_date,
    display_menu_time, off_display_info, on_display_info, setting_date, setting_time, setting_year,
    MenuMode, SettingDate, SettingTime,
};
use desk_clock::datetime::{days_in_month, Timestamp};
use desk_clock::matrix_display::MatrixDisplay;
use desk_clock::symbols::{blank, digit, exclamation_mark, Letters};
use desk_clock::utils::{shift_bits, Mode};

fn cells(m: &MatrixDisplay) -> [[u8; 8]; 4] {
    [m.first_matrix, m.second_matrix, m.third_matrix, m.fourth_matrix]
}

fn colon(mut left: [u8; 8], mut right: [u8; 8]) -> ([u8; 8], [u8; 8]) {
    shift_bits(&mut right, 1);
    for row in [5, 6] {
        left[row] ^= 1;
        right[row] ^= 128;
    }
    (left, right)
}

#[test]
fn hold_completes_after_fourteen_samples() {
    let mut counter = 0u16;
    for _ in 0..13 {
        assert_eq!(button_hold(&mut counter, true), Hold::Continue);
    }
    assert_eq!(counter, 1950);
    assert_eq!(button_hold(&mut counter, true), Hold::Complete);
    assert_eq!(counter, 2100);
    assert_eq!(button_hold(&mut counter, false), Hold::Continue);
    assert_eq!(counter, 0);
}

#[test]
fn hold_resets_on_release() {
    let mut counter = 0u16;
    for _ in 0..10 {
        button_hold(&mut counter, true);
    }
    assert_eq!(button_hold(&mut counter, false), Hold::Continue);
    assert_eq!(counter, 0);
    for _ in 0..13 {
        assert_eq!(button_hold(&mut counter, true), Hold::Continue);
    }
}

#[test]
fn mode_change_steps_cursor() {
    let mut m = SettingDate::One;
    assert!(mode_change(&mut m, true, false));
    assert_eq!(m, SettingDate::Day);
    assert!(mode_change(&mut m, false, true));
    assert_eq!(m, SettingDate::One);
    assert!(!mode_change(&mut m, false, false));
    assert_eq!(m, SettingDate::One);
    let mut menu = MenuMode::SetHour;
    mode_change(&mut menu, false, true);
    assert_eq!(menu, MenuMode::SetAlarm);
    assert_eq!(SettingTime::Hour.next(), SettingTime::Minute);
}

#[test]
fn menu_labels_scroll() {
    let mut m = MatrixDisplay::new();
    display_menu_time(&mut m, &0);
    let (one, t) = colon(digit(1), Letters::T.bytes());
    assert_eq!(cells(&m), [one, t, Letters::I.bytes(), Letters::M.bytes()]);
    display_menu_time(&mut m, &200);
    assert_eq!(cells(&m), [Letters::T.bytes(), Letters::I.bytes(), Letters::M.bytes(), Letters::E.bytes()]);
    display_menu_time(&mut m, &650);
    assert_eq!(cells(&m), [Letters::M.bytes(), Letters::E.bytes(), blank(), digit(1)]);
    display_menu_time(&mut m, &1199);
    assert_eq!(cells(&m), [blank(), one, t, Letters::I.bytes()]);

    display_menu_date(&mut m, &999);
    let (two, d) = colon(digit(2), Letters::D.bytes());
    assert_eq!(cells(&m), [Letters::E.bytes(), blank(), two, d]);

    display_menu_alarm(&mut m, &1300);
    let (three, a) = colon(digit(3), Letters::A.bytes());
    assert_eq!(cells(&m), [blank(), three, a, Letters::L.bytes()]);
    display_menu_alarm(&mut m, &400);
    assert_eq!(cells(&m), [Letters::L.bytes(), Letters::A.bytes(), Letters::R.bytes(), Letters::M.bytes()]);
}

#[test]
fn static_messages() {
    let mut m = MatrixDisplay::new();
    assert_eq!(cells(&m), [blank(); 4]);
    display_menu(&mut m);
    assert_eq!(cells(&m), [Letters::M.bytes(), Letters::E.bytes(), Letters::N.bytes(), Letters::U.bytes()]);
    on_display_info(&mut m);
    assert_eq!(cells(&m), [blank(), Letters::O.bytes(), Letters::N.bytes(), exclamation_mark()]);
    off_display_info(&mut m);
    assert_eq!(cells(&m), [Letters::O.bytes(), Letters::F.bytes(), Letters::F.bytes(), exclamation_mark()]);
    m.set_error();
    assert_eq!(cells(&m), [Letters::E.bytes(), Letters::R.bytes(), Letters::R.bytes(), exclamation_mark()]);
}

#[test]
fn matrix_shift_shifts_all_cells() {
    let mut m = MatrixDisplay::new();
    display_menu(&mut m);
    let before = cells(&m);
    m.matrix_shift(2);
    for (a, b) in cells(&m).iter().zip(before.iter()) {
        for i in 0..8 {
            assert_eq!(a[i], b[i] >> 2);
        }
    }
}

#[test]
fn animation_ticks_wrap() {
    assert_eq!(animation_ticks_set(0, &MenuMode::SetHour), 1);
    assert_eq!(animation_ticks_set(1198, &MenuMode::SetHour), 1199);
    assert_eq!(animation_ticks_set(1199, &MenuMode::SetHour), 0);
    assert_eq!(animation_ticks_set(1199, &MenuMode::SetDate), 0);
    assert_eq!(animation_ticks_set(1199, &MenuMode::SetAlarm), 1200);
    assert_eq!(animation_ticks_set(1399, &MenuMode::SetAlarm), 0);
}

#[test]
fn time_fields_wrap() {
    let mut ticks = 40u16;
    assert_eq!(setting_time(&SettingTime::Hour, 23, 10, true, false, &mut ticks), (0, 10));
    assert_eq!(ticks, 0);
    ticks = 40;
    assert_eq!(setting_time(&SettingTime::Hour, 0, 10, false, true, &mut ticks), (23, 10));
    assert_eq!(setting_time(&SettingTime::Minute, 5, 59, true, false, &mut ticks), (5, 0));
    assert_eq!(setting_time(&SettingTime::Minute, 5, 0, false, true, &mut ticks), (5, 59));
    ticks = 40;
    assert_eq!(setting_time(&SettingTime::Minute, 5, 7, false, false, &mut ticks), (5, 7));
    assert_eq!(ticks, 40);
}

#[test]
fn day_and_month_edits_stay_in_month() {
    let mut ticks = 0u16;
    assert_eq!(setting_date(&SettingDate::Day, 31, 1, 2023, true, false, &mut ticks), (1, 1));
    assert_eq!(setting_date(&SettingDate::Day, 1, 2, 2024, false, true, &mut ticks), (29, 2));
    assert_eq!(setting_date(&SettingDate::Month, 31, 1, 2023, true, false, &mut ticks), (28, 2));
    assert_eq!(setting_date(&SettingDate::Month, 31, 1, 2024, true, false, &mut ticks), (29, 2));
    assert_eq!(setting_date(&SettingDate::Month, 31, 1, 2023, false, true, &mut ticks), (31, 12));
    assert_eq!(setting_date(&SettingDate::Month, 31, 12, 2023, true, false, &mut ticks), (31, 1));
    // a day that does not fit its month is brought back into it
    assert_eq!(setting_date(&SettingDate::Day, 31, 2, 2023, false, true, &mut ticks), (28, 2));
    assert_eq!(setting_date(&SettingDate::Month, 40, 4, 2023, false, false, &mut ticks), (30, 4));
    // a walk of edits never leaves the month
    let (mut day, mut month) = (31u32, 3u32);
    for i in 0..60 {
        let step = if i % 3 == 0 { SettingDate::Month } else { SettingDate::Day };
        (day, month) = setting_date(&step, day, month, 2023, i % 2 == 0, i % 5 == 0, &mut ticks);
        assert!(1 <= month && month <= 12);
        assert!(1 <= day && day <= days_in_month(month, 2023));
    }
}

#[test]
fn year_edits_stay_in_range() {
    let mut ticks = 10u16;
    assert_eq!(setting_year(&SettingDate::Hundred, 2000, true, false, &mut ticks), 2100);
    assert_eq!(ticks, 0);
    assert_eq!(setting_year(&SettingDate::Hundred, 2100, true, false, &mut ticks), 2000);
    assert_eq!(setting_year(&SettingDate::Hundred, 2100, false, true, &mut ticks), 2000);
    assert_eq!(setting_year(&SettingDate::Hundred, 2000, false, true, &mut ticks), 2100);
    assert_eq!(setting_year(&SettingDate::Hundred, 2050, false, true, &mut ticks), 2100);
    assert_eq!(setting_year(&SettingDate::Ten, 2095, true, false, &mut ticks), 2005);
    assert_eq!(setting_year(&SettingDate::Ten, 2100, true, false, &mut ticks), 2100);
    assert_eq!(setting_year(&SettingDate::One, 2029, true, false, &mut ticks), 2020);
    assert_eq!(setting_year(&SettingDate::One, 2020, false, true, &mut ticks), 2029);
    assert_eq!(setting_year(&SettingDate::One, 2100, false, true, &mut ticks), 2100);
    assert_eq!(setting_year(&SettingDate::Thousand, 2024, true, false, &mut ticks), 2024);
    assert_eq!(setting_year(&SettingDate::Thousand, 2024, false, true, &mut ticks), 2024);
    ticks = 10;
    assert_eq!(setting_year(&SettingDate::One, 2024, false, false, &mut ticks), 2024);
    assert_eq!(ticks, 10);
    let steps = [SettingDate::Thousand, SettingDate::Hundred, SettingDate::Ten, SettingDate::One];
    for start in 2000..=2100u32 {
        let mut y = start;
        for i in 0..40usize {
            y = setting_year(&steps[i % 4], y, i % 3 != 1, i % 2 == 1, &mut ticks);
            assert!((2000..=2100).contains(&y));
        }
    }
}

#[test]
fn blink_blanks_field_under_cursor() {
    let t = Timestamp::time_of_day(12, 34);
    let mut shown = MatrixDisplay::new();
    blink_display(&SettingTime::Hour, &t, &mut shown, 0);
    let mut blinked = MatrixDisplay::new();
    blink_display(&SettingTime::Hour, &t, &mut blinked, 301);
    assert_ne!(shown.first_matrix, blinked.first_matrix);
    assert_eq!(blinked.first_matrix, blank());
    let mut colon_only = blank();
    for row in [1, 2, 4, 5] {
        colon_only[row] ^= 1;
    }
    assert_eq!(blinked.second_matrix, colon_only);
    assert_eq!(shown.third_matrix, blinked.third_matrix);
    assert_eq!(shown.fourth_matrix, blinked.fourth_matrix);

    let d = Timestamp { year: 2024, month: 5, day: 17, weekday: 5, hour: 0, minute: 0, second: 0 };
    let mut year = MatrixDisplay::new();
    blink_display(&SettingDate::Ten, &d, &mut year, 400);
    let mut two = digit(2);
    shift_bits(&mut two, 1);
    assert_eq!(year.first_matrix, two);
    assert_eq!(year.third_matrix, blank());
}
