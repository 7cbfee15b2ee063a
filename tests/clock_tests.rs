use desk_clock::alarm::Alarm;
use desk_clock::clock::{
    add_dots, calc_digits, check_alarm, check_intensity, prepare_display, rtc_read, time_change, ClockMode,
};
use desk_clock::datetime::{days_in_month, Timestamp};
use desk_clock::matrix_display::MatrixDisplay;
use desk_clock::session::ClockSession;
use desk_clock::symbols::digit;
use desk_clock::utils::Mode;

fn ts(year: u32, month: u32, day: u32, weekday: u32, hour: u32, minute: u32, second: u32) -> Timestamp {
    Timestamp { year, month, day, weekday, hour, minute, second }
}

fn shr(g: [u8; 8], s: u8) -> [u8; 8] {
    let mut r = g;
    for row in r.iter_mut() {
        *row >>= s;
    }
    r
}

#[test]
fn clock_mode_next_prev_round_trip() {
    for m in [ClockMode::Time, ClockMode::Date, ClockMode::Year] {
        assert_eq!(m.next().prev(), m);
        assert_eq!(m.prev().next(), m);
    }
    assert_eq!(ClockMode::Time.next(), ClockMode::Date);
    assert_eq!(ClockMode::Date.next(), ClockMode::Year);
    assert_eq!(ClockMode::Year.next(), ClockMode::Time);
}

#[test]
fn days_in_month_leap_rule() {
    assert_eq!(days_in_month(2, 2000), 29);
    assert_eq!(days_in_month(2, 1900), 28);
    assert_eq!(days_in_month(2, 2024), 29);
    assert_eq!(days_in_month(2, 2023), 28);
    for y in [1900, 2000, 2023, 2024, 2100] {
        assert_eq!(days_in_month(4, y), 30);
        assert_eq!(days_in_month(6, y), 30);
        assert_eq!(days_in_month(9, y), 30);
        assert_eq!(days_in_month(11, y), 30);
        assert_eq!(days_in_month(1, y), 31);
        assert_eq!(days_in_month(12, y), 31);
    }
}

#[test]
fn dst_october_fires_once() {
    let t = ts(2024, 10, 27, 0, 3, 0, 0);
    assert_eq!(time_change(&t), Some(2));
    let corrected = Timestamp { hour: 2, ..t };
    assert_eq!(time_change(&corrected), None);
}

#[test]
fn dst_march_forward() {
    assert_eq!(time_change(&ts(2024, 3, 31, 0, 2, 0, 0)), Some(3));
    assert_eq!(time_change(&ts(2024, 3, 31, 0, 3, 0, 0)), None);
    // not a Sunday, too early in the month, other month
    assert_eq!(time_change(&ts(2024, 3, 30, 6, 2, 0, 0)), None);
    assert_eq!(time_change(&ts(2024, 10, 20, 0, 3, 0, 0)), None);
    assert_eq!(time_change(&ts(2024, 11, 24, 0, 3, 0, 0)), None);
}

#[test]
fn alarm_trigger_conditions() {
    let mut alarm = Alarm::new();
    alarm.update_time(7, 30);
    alarm.enable(true);
    let t = ts(2024, 5, 6, 1, 7, 30, 1);
    assert!(check_alarm(&alarm, 1, &t));
    assert!(!check_alarm(&alarm, 0, &t));
    assert!(!check_alarm(&alarm, 2, &t));
    assert!(!check_alarm(&alarm, 1, &ts(2024, 5, 6, 1, 7, 31, 1)));
    assert!(!check_alarm(&alarm, 1, &ts(2024, 5, 6, 1, 8, 30, 1)));
    alarm.enable(false);
    assert!(!check_alarm(&alarm, 1, &t));
}

#[test]
fn intensity_latch() {
    assert_eq!(check_intensity(23, false), Some(0));
    assert_eq!(check_intensity(3, false), Some(0));
    assert_eq!(check_intensity(12, false), None);
    assert_eq!(check_intensity(6, true), Some(3));
    assert_eq!(check_intensity(0, true), None);
    assert_eq!(check_intensity(22, true), Some(3));
}

#[test]
fn digits_for_each_mode() {
    let t = ts(2024, 7, 9, 2, 13, 45, 10);
    let mut m = MatrixDisplay::new();
    calc_digits(&ClockMode::Time, &t, &mut m);
    assert_eq!([m.first_matrix, m.second_matrix, m.third_matrix, m.fourth_matrix], [digit(1), digit(3), digit(4), digit(5)]);
    calc_digits(&ClockMode::Date, &t, &mut m);
    assert_eq!([m.first_matrix, m.second_matrix, m.third_matrix, m.fourth_matrix], [digit(0), digit(9), digit(0), digit(7)]);
    calc_digits(&ClockMode::Year, &t, &mut m);
    assert_eq!([m.first_matrix, m.second_matrix, m.third_matrix, m.fourth_matrix], [digit(2), digit(0), digit(2), digit(4)]);
}

#[test]
fn dots_toggle_rows() {
    let mut a = [0u8; 8];
    let mut b = [0u8; 8];
    add_dots(&ClockMode::Time, true, &mut a, &mut b);
    assert_eq!(a, [0, 1, 1, 0, 1, 1, 0, 0]);
    assert_eq!(b, [0, 128, 128, 0, 128, 128, 0, 0]);
    let mut a = [0u8; 8];
    let mut b = [0u8; 8];
    add_dots(&ClockMode::Date, true, &mut a, &mut b);
    assert_eq!(a, [0, 0, 0, 0, 0, 1, 1, 0]);
    assert_eq!(b, [0, 0, 0, 0, 0, 128, 128, 0]);
    let mut a = [0u8; 8];
    let mut b = [0u8; 8];
    add_dots(&ClockMode::Year, true, &mut a, &mut b);
    add_dots(&ClockMode::Time, false, &mut a, &mut b);
    assert_eq!(a, [0u8; 8]);
    assert_eq!(b, [0u8; 8]);
}

#[test]
fn prepare_display_spaces_digits() {
    let mut m = MatrixDisplay::new();
    m.first_matrix = [0xFF; 8];
    m.second_matrix = [0x7C; 8];
    m.third_matrix = [0xFF; 8];
    m.fourth_matrix = [0xFF; 8];
    prepare_display(&mut m, &ClockMode::Time, true);
    assert_eq!(m.first_matrix, [0x7F; 8]);
    assert_eq!(m.second_matrix, [0x7C, 0x7D, 0x7D, 0x7C, 0x7D, 0x7D, 0x7C, 0x7C]);
    assert_eq!(m.third_matrix, [0x3F, 0xBF, 0xBF, 0x3F, 0xBF, 0xBF, 0x3F, 0x3F]);
    assert_eq!(m.fourth_matrix, [0x7F; 8]);
}

#[test]
fn rtc_read_tracks_seconds() {
    let mut last = 5u32;
    let mut changed = false;
    let mut corrected = None;
    let r = rtc_read(Ok(ts(2024, 5, 6, 1, 7, 30, 6)), &mut last, &mut changed, &mut corrected).unwrap();
    assert!(changed);
    assert_eq!(last, 6);
    assert_eq!(r.write_back, None);
    let _ = rtc_read(Ok(ts(2024, 5, 6, 1, 7, 30, 6)), &mut last, &mut changed, &mut corrected).unwrap();
    assert!(!changed);
    assert!(rtc_read(Err(()), &mut last, &mut changed, &mut corrected).is_err());
    assert_eq!(corrected, None);
    assert_eq!(last, 6);
}

#[test]
fn rtc_read_asks_for_dst_correction() {
    let mut last = 59u32;
    let mut changed = false;
    let mut corrected = None;
    let t = ts(2024, 10, 27, 0, 3, 0, 0);
    let r = rtc_read(Ok(t), &mut last, &mut changed, &mut corrected).unwrap();
    assert_eq!(r.datetime, t);
    assert_eq!(r.write_back, Some(Timestamp { hour: 2, ..t }));
    assert_eq!(corrected, Some((2024, 10, 27)));
}

#[test]
fn dst_correction_made_once_per_date() {
    let mut last = 58u32;
    let mut changed = false;
    let mut corrected = None;
    let first = rtc_read(Ok(ts(2024, 10, 27, 0, 3, 0, 0)), &mut last, &mut changed, &mut corrected).unwrap();
    assert!(first.write_back.is_some());
    let between = rtc_read(Ok(ts(2024, 10, 27, 0, 2, 59, 59)), &mut last, &mut changed, &mut corrected).unwrap();
    assert_eq!(between.write_back, None);
    let again = rtc_read(Ok(ts(2024, 10, 27, 0, 3, 0, 0)), &mut last, &mut changed, &mut corrected).unwrap();
    assert!(changed);
    assert_eq!(again.write_back, None);
    // the next year's transition is corrected again
    let next = rtc_read(Ok(ts(2025, 10, 26, 0, 3, 0, 1)), &mut last, &mut changed, &mut corrected).unwrap();
    assert!(next.write_back.is_some());
}

#[test]
fn dst_latch_survives_clock_sessions() {
    let alarm = Alarm::new();
    let mut s = ClockSession::new(None);
    let t = ts(2024, 10, 27, 0, 3, 0, 1);
    assert!(s.tick(Ok(t), &alarm).write_back.is_some());
    let mut again = ClockSession::new(s.dst_corrected_on);
    assert_eq!(again.last_second, 0);
    assert_eq!((again.hold_main, again.hold_exit), (0, 0));
    assert_eq!(again.tick(Ok(Timestamp { second: 5, ..t }), &alarm).write_back, None);
}

#[test]
fn new_year_second_shows_midnight_with_colon() {
    // the real-time clock moves from 23:59:59 on Saturday 31 December 2022
    // to 00:00:00 on Sunday 1 January 2023
    let alarm = Alarm::new();
    let mut s = ClockSession::new(None);
    let before = ts(2022, 12, 31, 6, 23, 59, 59);
    let _ = s.tick(Ok(before), &alarm);
    let after = ts(2023, 1, 1, 0, 0, 0, 0);
    let tick = s.tick(Ok(after), &alarm);
    assert_eq!(tick.write_back, None);
    assert!(!tick.ring);
    let zero = digit(0);
    let mut second = zero;
    let mut third = shr(zero, 2);
    for row in [1, 2, 4, 5] {
        second[row] ^= 1;
        third[row] ^= 128;
    }
    assert_eq!(s.matrices.first_matrix, shr(zero, 1));
    assert_eq!(s.matrices.second_matrix, second);
    assert_eq!(s.matrices.third_matrix, third);
    assert_eq!(s.matrices.fourth_matrix, shr(zero, 1));
}

#[test]
fn clock_session_error_and_unchanged_second() {
    let alarm = Alarm::new();
    let mut s = ClockSession::new(None);
    let tick = s.tick(Err(()), &alarm);
    assert_eq!(tick.intensity, None);
    let mut err = MatrixDisplay::new();
    err.set_error();
    assert_eq!(s.matrices.first_matrix, err.first_matrix);
    assert_eq!(s.matrices.fourth_matrix, err.fourth_matrix);
    // an invalid reading is an error too
    let _ = s.tick(Ok(ts(2023, 2, 30, 0, 12, 0, 1)), &alarm);
    assert_eq!(s.matrices.second_matrix, err.second_matrix);
    let t = ts(2023, 6, 1, 4, 23, 10, 1);
    let tick = s.tick(Ok(t), &alarm);
    assert_eq!(tick.intensity, Some(0));
    s.intensity_result(0, true);
    assert!(s.is_late);
    let frame = s.matrices.first_matrix;
    let tick = s.tick(Ok(t), &alarm);
    assert_eq!(tick.intensity, None);
    assert_eq!(s.matrices.first_matrix, frame);
}

#[test]
fn clock_session_mode_and_holds() {
    let mut s = ClockSession::new(None);
    assert!(s.change_mode(true, false));
    assert_eq!(s.mode, ClockMode::Date);
    assert!(!s.change_mode(false, false));
    assert!(s.change_mode(false, true));
    assert_eq!(s.mode, ClockMode::Time);
    let mut n = 0;
    loop {
        n += 1;
        if s.sample_exit(true) == desk_clock::buttons::Hold::Complete {
            break;
        }
    }
    assert_eq!(n, 14);
}
