use at32f4xx_hal::bus::{Action, Bus, Peripheral, Register};
use at32f4xx_hal::calendar::{NaiveDate, NaiveDateTime, NaiveTime, Weekday};
use at32f4xx_hal::rtc::{
    bcd2_decode, bcd2_encode, decode_day, decode_day_ts, decode_hours, decode_hours_ts,
    decode_minutes, decode_minutes_ts, decode_month, decode_month_ts, decode_seconds,
    decode_seconds_ts, decode_year, ss_to_nano, Alarm, AlarmDay, CalendarSample, ClockSource, Error,
    Event, LSEClockMode, Rtc, TimestampSample,
};

fn write(reg: Register, value: u32) -> Action {
    Action::Write { reg, value }
}

fn modify(reg: Register, clear: u32, set: u32) -> Action {
    Action::Modify { reg, clear, set }
}

fn wait(reg: Register, mask: u32, value: u32) -> Action {
    Action::Wait { reg, mask, value }
}

fn session(init: bool, body: Vec<Action>) -> Vec<Action> {
    let mut actions = vec![write(Register::ErtcWp, 0xca), write(Register::ErtcWp, 0x53)];
    if init {
        actions.push(Action::SetIfClear { reg: Register::ErtcSts, test: 0x40, set: 0x80 });
        actions.push(wait(Register::ErtcSts, 0x40, 0x40));
    }
    actions.extend(body);
    if init {
        actions.push(modify(Register::ErtcSts, 0x80, 0));
    }
    actions.push(wait(Register::ErtcSts, 0x40, 0));
    actions.push(write(Register::ErtcWp, 0xff));
    actions
}

fn replay(actions: &[Action], register: Register, word: u32) -> u32 {
    let mut word = word;
    for action in actions {
        match *action {
            Action::Write { reg, value } if reg == register => word = value,
            Action::Modify { reg, clear, set } if reg == register => word = (word & !clear) | set,
            Action::SetIfClear { reg, test, set } if reg == register && word & test == 0 => {
                word |= set
            }
            _ => {}
        }
    }
    word
}

fn lse() -> Rtc {
    let mut bus = Bus::new();
    Rtc::new(&mut bus, 2, 0)
}

fn lsi() -> Rtc {
    let mut bus = Bus::new();
    Rtc::new_lsi(&mut bus, 0, 2)
}

fn date(year: i32, month: u32, day: u32) -> NaiveDate {
    NaiveDate::from_ymd_opt(year, month, day).unwrap()
}

fn time(hour: u32, minute: u32, second: u32, nano: u32) -> NaiveTime {
    NaiveTime::from_hms_nano_opt(hour, minute, second, nano).unwrap()
}

#[test]
fn dates_that_do_not_exist() {
    assert!(NaiveDate::from_ymd_opt(2023, 2, 29).is_none());
    assert!(NaiveDate::from_ymd_opt(2024, 2, 29).is_some());
    assert!(NaiveDate::from_ymd_opt(1900, 2, 29).is_none());
    assert!(NaiveDate::from_ymd_opt(2000, 2, 29).is_some());
    assert!(NaiveDate::from_ymd_opt(2024, 13, 1).is_none());
    assert!(NaiveDate::from_ymd_opt(2024, 0, 1).is_none());
    assert!(NaiveDate::from_ymd_opt(2024, 4, 31).is_none());
    assert!(NaiveDate::from_ymd_opt(2024, 4, 0).is_none());
    assert!(NaiveDate::from_ymd_opt(262_142, 12, 31).is_some());
    assert!(NaiveDate::from_ymd_opt(262_143, 1, 1).is_none());
    assert!(NaiveDate::from_ymd_opt(-262_143, 1, 1).is_some());
    assert!(NaiveDate::from_ymd_opt(-262_144, 12, 31).is_none());
}

#[test]
fn times_that_do_not_exist() {
    assert!(NaiveTime::from_hms_nano_opt(24, 0, 0, 0).is_none());
    assert!(NaiveTime::from_hms_nano_opt(23, 60, 0, 0).is_none());
    assert!(NaiveTime::from_hms_nano_opt(23, 59, 60, 0).is_none());
    assert!(NaiveTime::from_hms_nano_opt(23, 59, 59, 1_999_999_999).is_some());
    assert!(NaiveTime::from_hms_nano_opt(23, 59, 59, 2_000_000_000).is_none());
    assert!(NaiveTime::from_hms_nano_opt(12, 0, 0, 1_000_000_000).is_none());
    assert!(NaiveTime::from_hms_nano_opt(12, 0, 0, 999_999_999).is_some());
}

#[test]
fn weekdays_of_dates() {
    assert_eq!(date(1, 1, 1).number_from_monday(), 1);
    assert_eq!(date(1970, 1, 1).number_from_monday(), 4);
    assert_eq!(date(2000, 1, 1).number_from_monday(), 6);
    assert_eq!(date(2024, 2, 29).number_from_monday(), 4);
    assert_eq!(date(2069, 12, 31).number_from_monday(), 2);
    assert_eq!(date(0, 12, 31).number_from_monday(), 7);
    assert_eq!(Weekday::Mon.num_days_from_monday(), 0);
    assert_eq!(Weekday::Tue.num_days_from_monday(), 1);
    assert_eq!(Weekday::Wed.num_days_from_monday(), 2);
    assert_eq!(Weekday::Thu.num_days_from_monday(), 3);
    assert_eq!(Weekday::Fri.num_days_from_monday(), 4);
    assert_eq!(Weekday::Sat.num_days_from_monday(), 5);
    assert_eq!(Weekday::Sun.num_days_from_monday(), 6);
}

#[test]
fn clock_source_frequencies() {
    assert_eq!(ClockSource::Lsi.frequency(), 32_000);
    assert_eq!(ClockSource::Lse(LSEClockMode::Bypass).frequency(), 32_768);
    assert_eq!(ClockSource::from(LSEClockMode::Bypass), ClockSource::Lse(LSEClockMode::Bypass));
    // Both factors of the divider, each plus one, give a second.
    assert_eq!((255 + 1) * (127 + 1), ClockSource::Lse(LSEClockMode::Oscillator).frequency());
    assert_eq!((249 + 1) * (127 + 1), ClockSource::Lsi.frequency());
}

#[test]
fn conversions_of_alarms() {
    assert_eq!(Event::from(Alarm::AlarmA), Event::AlarmA);
    assert_eq!(Event::from(Alarm::AlarmB), Event::AlarmB);
    assert_eq!(AlarmDay::from(date(2024, 5, 6)), AlarmDay::Date(date(2024, 5, 6)));
    assert_eq!(AlarmDay::from(Weekday::Fri), AlarmDay::Weekday(Weekday::Fri));
}

#[test]
fn binary_coded_decimal() {
    assert_eq!(bcd2_encode(0), Ok((0, 0)));
    assert_eq!(bcd2_encode(59), Ok((5, 9)));
    assert_eq!(bcd2_encode(2559), Ok((255, 9)));
    assert_eq!(bcd2_encode(2560), Err(Error::InvalidInputData));
    assert_eq!(bcd2_decode(5, 9), 59);
    assert_eq!(bcd2_decode(15, 15), 165);
}

#[test]
fn words_are_decoded() {
    let time = 0x0023_5958;
    assert_eq!((decode_hours(time), decode_minutes(time), decode_seconds(time)), (23, 59, 58));
    assert_eq!(
        (decode_hours_ts(time), decode_minutes_ts(time), decode_seconds_ts(time)),
        (23, 59, 58)
    );
    let date = 0x0054_9231;
    assert_eq!((decode_year(date), decode_month(date), decode_day(date)), (2024, 12, 31));
    assert_eq!((decode_month_ts(date), decode_day_ts(date)), (12, 31));
}

#[test]
fn subseconds() {
    assert_eq!(ss_to_nano(255, 255), 0);
    assert_eq!(ss_to_nano(128, 255), 496_090_000);
    assert_eq!(ss_to_nano(0, 255), 996_090_000);
    assert_eq!(ss_to_nano(0, 249), 996_000_000);
    assert_eq!(ss_to_nano(0, 42_949), 999_970_000);
}

#[test]
fn clock_is_brought_into_service() {
    let unlock = vec![
        Action::Enable { peripheral: Peripheral::Pwc },
        modify(Register::PwcCtrl, 0, 0x100),
    ];
    let body = vec![
        modify(Register::ErtcCtrl, 0x0003_0040, 0),
        modify(Register::ErtcDiv, 0x007f_7fff, 0x007f_00ff),
    ];

    // The external oscillator is stable.
    let mut bus = Bus::new();
    let _ = Rtc::new(&mut bus, 2, 0);
    let mut expected = unlock.clone();
    expected.push(modify(Register::CrmBpdc, 0x300, 0x100));
    expected.push(modify(Register::CrmBpdc, 0, 0x8000));
    expected.extend(session(true, body.clone()));
    assert_eq!(bus.take(), expected);

    // The external oscillator has to be switched on.
    let mut bus = Bus::new();
    let _ = Rtc::with_config(&mut bus, 0, 2, ClockSource::Lse(LSEClockMode::Bypass), 255, 127);
    let mut expected = unlock.clone();
    expected.push(modify(Register::CrmBpdc, 0, 0x1_0000));
    expected.push(modify(Register::CrmBpdc, 0x1_0000, 0));
    expected.push(modify(Register::CrmBpdc, 0, 1));
    expected.push(modify(Register::CrmBpdc, 0, 4));
    expected.push(wait(Register::CrmBpdc, 2, 2));
    expected.push(modify(Register::CrmBpdc, 0x300, 0x100));
    expected.push(modify(Register::CrmBpdc, 0, 0x8000));
    expected.extend(session(true, body.clone()));
    assert_eq!(bus.take(), expected);

    // The internal oscillator has to be switched on.
    let mut bus = Bus::new();
    let _ = Rtc::lsi_with_config(&mut bus, 2, 0, 255, 127);
    let mut expected = unlock.clone();
    expected.push(modify(Register::CrmBpdc, 0, 0x1_0000));
    expected.push(modify(Register::CrmBpdc, 0x1_0000, 0));
    expected.push(modify(Register::CrmCtrlsts, 0, 1));
    expected.push(wait(Register::CrmCtrlsts, 2, 2));
    expected.push(modify(Register::CrmBpdc, 0x300, 0x200));
    expected.push(modify(Register::CrmBpdc, 0, 0x8000));
    expected.extend(session(true, body));
    assert_eq!(bus.take(), expected);

    // The internal oscillator is stable, with its own factor.
    let mut bus = Bus::new();
    let _ = Rtc::new_lsi(&mut bus, 0, 2);
    let actions = bus.take();
    assert!(!actions.contains(&modify(Register::CrmBpdc, 0, 0x1_0000)));
    assert_eq!(replay(&actions, Register::CrmBpdc, 0) & 0x8300, 0x8200);
    assert_eq!(replay(&actions, Register::ErtcDiv, 0), 0x007f_00f9);
    assert_eq!(replay(&actions, Register::ErtcWp, 0), 0xff);
}

#[test]
fn prescalers_are_set() {
    let mut bus = Bus::new();
    lse().set_prescalers(&mut bus, 0xffff, 0xff);
    let body = vec![modify(Register::ErtcDiv, 0x007f_7fff, 0x007f_7fff)];
    assert_eq!(bus.take(), session(true, body));
}

#[test]
fn parts_of_the_time_are_set() {
    let mut rtc = lse();
    let mut bus = Bus::new();
    assert_eq!(rtc.set_time(&mut bus, &time(23, 59, 58, 123)), Ok(()));
    assert_eq!(bus.take(), session(true, vec![write(Register::ErtcTime, 0x0023_5958)]));
    assert_eq!(rtc.set_seconds(&mut bus, 59), Ok(()));
    assert_eq!(bus.take(), session(true, vec![modify(Register::ErtcTime, 0x7f, 0x59)]));
    assert_eq!(rtc.set_minutes(&mut bus, 7), Ok(()));
    assert_eq!(bus.take(), session(true, vec![modify(Register::ErtcTime, 0x7f00, 0x0700)]));
    assert_eq!(rtc.set_hours(&mut bus, 23), Ok(()));
    let body = vec![modify(Register::ErtcTime, 0x003f_0000, 0x0023_0000)];
    assert_eq!(bus.take(), session(true, body));
    assert_eq!(rtc.set_seconds(&mut bus, 60), Err(Error::InvalidInputData));
    assert_eq!(rtc.set_minutes(&mut bus, 60), Err(Error::InvalidInputData));
    assert_eq!(rtc.set_hours(&mut bus, 24), Err(Error::InvalidInputData));
    assert_eq!(bus.take(), vec![]);
}

#[test]
fn parts_of_the_date_are_set() {
    let mut rtc = lse();
    let mut bus = Bus::new();
    assert_eq!(rtc.set_weekday(&mut bus, 7), Ok(()));
    assert_eq!(bus.take(), session(true, vec![modify(Register::ErtcDate, 0xe000, 0xe000)]));
    assert_eq!(rtc.set_day(&mut bus, 31), Ok(()));
    assert_eq!(bus.take(), session(true, vec![modify(Register::ErtcDate, 0x3f, 0x31)]));
    assert_eq!(rtc.set_month(&mut bus, 12), Ok(()));
    assert_eq!(bus.take(), session(true, vec![modify(Register::ErtcDate, 0x1f00, 0x1200)]));
    assert_eq!(rtc.set_year(&mut bus, 2069), Ok(()));
    let body = vec![modify(Register::ErtcDate, 0x00ff_0000, 0x0099_0000)];
    assert_eq!(bus.take(), session(true, body));
    for weekday in [0, 8] {
        assert_eq!(rtc.set_weekday(&mut bus, weekday), Err(Error::InvalidInputData));
    }
    for day in [0, 32] {
        assert_eq!(rtc.set_day(&mut bus, day), Err(Error::InvalidInputData));
    }
    for month in [0, 13] {
        assert_eq!(rtc.set_month(&mut bus, month), Err(Error::InvalidInputData));
    }
    for year in [1969, 2070] {
        assert_eq!(rtc.set_year(&mut bus, year), Err(Error::InvalidInputData));
    }
    assert_eq!(bus.take(), vec![]);
}

#[test]
fn setting_a_part_keeps_the_others() {
    let mut rtc = lse();
    let mut bus = Bus::new();
    rtc.set_minutes(&mut bus, 30).unwrap();
    let word = replay(&bus.take(), Register::ErtcTime, 0x0023_5958);
    assert_eq!((decode_hours(word), decode_minutes(word), decode_seconds(word)), (23, 30, 58));
    rtc.set_month(&mut bus, 1).unwrap();
    let word = replay(&bus.take(), Register::ErtcDate, 0x0054_9231);
    assert_eq!((decode_year(word), decode_month(word), decode_day(word)), (2024, 1, 31));
}

#[test]
fn dates_are_set() {
    let mut rtc = lse();
    let mut bus = Bus::new();
    assert_eq!(rtc.set_date(&mut bus, &date(2024, 12, 31)), Ok(()));
    // A Tuesday.
    assert_eq!(bus.take(), session(true, vec![write(Register::ErtcDate, 0x0054_5231)]));
    assert_eq!(rtc.set_date(&mut bus, &date(1969, 12, 31)), Err(Error::InvalidInputData));
    assert_eq!(rtc.set_date(&mut bus, &date(2070, 1, 1)), Err(Error::InvalidInputData));
    let late = NaiveDateTime::new(date(2070, 1, 1), time(0, 0, 0, 0));
    assert_eq!(rtc.set_datetime(&mut bus, &late), Err(Error::InvalidInputData));
    assert_eq!(bus.take(), vec![]);
}

#[test]
fn set_datetime_reads_back() {
    let mut rtc = lse();
    for datetime in [
        NaiveDateTime::new(date(1970, 1, 1), time(0, 0, 0, 0)),
        NaiveDateTime::new(date(2024, 2, 29), time(23, 59, 59, 0)),
        NaiveDateTime::new(date(2069, 12, 31), time(12, 34, 56, 0)),
    ] {
        let mut bus = Bus::new();
        assert_eq!(rtc.set_datetime(&mut bus, &datetime), Ok(()));
        let actions = bus.take();
        let sample = CalendarSample {
            sbs: 255,
            time: replay(&actions, Register::ErtcTime, 0x1234_5678),
            date: replay(&actions, Register::ErtcDate, 0x2101),
            div: 0x007f_00ff,
        };
        assert_eq!(rtc.get_datetime(&sample), Some(datetime));
    }
}

#[test]
fn calendar_is_sampled_in_order() {
    let mut bus = Bus::new();
    lse().sample_datetime(&mut bus);
    assert_eq!(
        bus.take(),
        vec![
            wait(Register::ErtcSts, 0x20, 0x20),
            Action::Sample { reg: Register::ErtcSbs },
            Action::Sample { reg: Register::ErtcTime },
            Action::Sample { reg: Register::ErtcDate },
            modify(Register::ErtcSts, 0x20, 0),
            Action::Sample { reg: Register::ErtcDiv },
        ]
    );
}

#[test]
fn samples_without_a_date_or_time() {
    let rtc = lse();
    let good = CalendarSample { sbs: 0, time: 0x0023_5958, date: 0x0054_5231, div: 0x007f_00ff };
    let expected = NaiveDateTime::new(date(2024, 12, 31), time(23, 59, 58, 996_090_000));
    assert_eq!(rtc.get_datetime(&good), Some(expected));
    assert_eq!(rtc.get_datetime(&CalendarSample { sbs: 256, ..good }), None);
    assert_eq!(rtc.get_datetime(&CalendarSample { time: 0x0024_0000, ..good }), None);
    assert_eq!(rtc.get_datetime(&CalendarSample { date: 0x0054_5331, ..good }), None);
    assert_eq!(rtc.get_datetime(&CalendarSample { date: 0, ..good }), None);
}

#[test]
fn time_stamps() {
    let rtc = lse();
    let mut bus = Bus::new();
    rtc.sample_timestamp(&mut bus);
    let actions = bus.take();
    assert_eq!(
        actions,
        vec![
            wait(Register::ErtcSts, 0x20, 0x20),
            Action::Sample { reg: Register::ErtcTssbs },
            Action::Sample { reg: Register::ErtcTstm },
            Action::Sample { reg: Register::ErtcTsdt },
            Action::Sample { reg: Register::ErtcDate },
            Action::Sample { reg: Register::ErtcDiv },
            modify(Register::ErtcSts, 0x1800, 0),
        ]
    );
    let after = replay(&actions, Register::ErtcSts, 0xffff);
    assert!(!rtc.is_pending(after, Event::Timestamp));
    assert!(rtc.is_pending(after, Event::Wakeup));
    // The year is that of the calendar.
    let sample = TimestampSample {
        tssbs: 0xabcd_0080,
        tstm: 0x0001_0203,
        tsdt: 0x0000_0229,
        date: 0x0054_5231,
        div: 0x007f_00ff,
    };
    let expected = NaiveDateTime::new(date(2024, 2, 29), time(1, 2, 3, 496_090_000));
    assert_eq!(rtc.read_timestamp(&sample), Some(expected));
    assert_eq!(rtc.read_timestamp(&TimestampSample { date: 0x0053_5231, ..sample }), None);
}

#[test]
fn wakeup_settings() {
    let rtc = lse();
    assert_eq!(rtc.wakeup_setting(0), None);
    assert_eq!(rtc.wakeup_setting(60), None);
    assert_eq!(rtc.wakeup_setting(61), Some((3, 0)));
    assert_eq!(rtc.wakeup_setting(1_000_000), Some((3, 16_392)));
    assert_eq!(rtc.wakeup_setting(61 * 65_536), Some((3, 65_535)));
    assert_eq!(rtc.wakeup_setting(61 * 65_538), Some((2, 32_768)));
    assert_eq!(rtc.wakeup_setting(10_000_000), Some((1, 40_982)));
    assert_eq!(rtc.wakeup_setting(31_980_000), Some((0, 65_531)));
    assert_eq!(rtc.wakeup_setting(31_982_055), Some((0, 65_535)));
    assert_eq!(rtc.wakeup_setting(31_982_056), Some((4, 30)));
    assert_eq!(rtc.wakeup_setting(31_990_000), Some((4, 30)));
    assert_eq!(rtc.wakeup_setting(31_999_999), Some((4, 30)));
    assert_eq!(rtc.wakeup_setting(32_000_000), Some((4, 31)));
    assert_eq!(rtc.wakeup_setting(32_999_999), Some((4, 31)));
    assert_eq!(rtc.wakeup_setting(65_536_000_000), Some((4, 65_535)));
    assert_eq!(rtc.wakeup_setting(65_537_000_000), Some((6, 0)));
    assert_eq!(rtc.wakeup_setting(131_071_000_000), Some((6, 65_534)));
    assert_eq!(rtc.wakeup_setting(131_071_000_001), None);
    assert_eq!(lsi().wakeup_setting(1_000_000), Some((3, 16_128)));
    assert_eq!(lsi().wakeup_setting(31_999_999), Some((0, 64_515)));
}

#[test]
fn wakeup_timer_is_enabled_and_disabled() {
    let mut rtc = lse();
    let mut bus = Bus::new();
    rtc.enable_wakeup(&mut bus, 10_000_000);
    assert_eq!(
        bus.take(),
        session(
            false,
            vec![
                modify(Register::ErtcCtrl, 0x0003_0400, 0),
                modify(Register::ErtcSts, 0x400, 0),
                wait(Register::ErtcSts, 4, 4),
                modify(Register::ErtcCtrl, 0x0003_0007, 1),
                write(Register::ErtcWat, 40_982),
                modify(Register::ErtcCtrl, 0x0003_0000, 0x400),
            ]
        )
    );
    rtc.disable_wakeup(&mut bus);
    assert_eq!(
        bus.take(),
        session(
            false,
            vec![modify(Register::ErtcCtrl, 0x0003_0400, 0), modify(Register::ErtcSts, 0x400, 0)]
        )
    );
}

#[test]
fn time_stamps_are_enabled_and_disabled() {
    let mut rtc = lse();
    let mut bus = Bus::new();
    let off = vec![modify(Register::ErtcCtrl, 0x0003_0800, 0), modify(Register::ErtcSts, 0x800, 0)];
    rtc.disable_timestamp(&mut bus);
    assert_eq!(bus.take(), session(false, off.clone()));
    let mut on = off;
    on.push(modify(Register::ErtcCtrl, 0x0003_0000, 0x800));
    rtc.enable_vbat_timestamp(&mut bus);
    assert_eq!(bus.take(), session(false, on));
}

#[test]
fn alarms_are_set() {
    let mut rtc = lse();
    let mut bus = Bus::new();
    let at = time(12, 34, 56, 0);
    let body = |reg, enable, ready, word| {
        vec![
            modify(Register::ErtcCtrl, enable, 0),
            modify(Register::ErtcSts, enable, 0),
            wait(Register::ErtcSts, ready, ready),
            modify(reg, 0xff7f_7f7f, word),
            modify(Register::ErtcCtrl, 0, enable),
        ]
    };
    assert_eq!(rtc.set_alarm(&mut bus, Alarm::AlarmA, date(2024, 5, 31).into(), at), Ok(()));
    assert_eq!(bus.take(), session(false, body(Register::ErtcAla, 0x100, 1, 0x3112_3456)));
    assert_eq!(rtc.set_alarm(&mut bus, Alarm::AlarmB, Weekday::Sun.into(), at), Ok(()));
    assert_eq!(bus.take(), session(false, body(Register::ErtcAlb, 0x200, 2, 0x4712_3456)));
    let morning = time(7, 30, 0, 0);
    assert_eq!(rtc.set_alarm(&mut bus, Alarm::AlarmA, Weekday::Mon.into(), morning), Ok(()));
    assert_eq!(bus.take(), session(false, body(Register::ErtcAla, 0x100, 1, 0x4107_3000)));
    assert_eq!(rtc.set_alarm(&mut bus, Alarm::AlarmA, AlarmDay::EveryDay, at), Ok(()));
    assert_eq!(bus.take(), session(false, body(Register::ErtcAla, 0x100, 1, 0x8012_3456)));
}

#[test]
fn weekday_alarms_match_the_calendar() {
    let mut rtc = lse();
    let mut bus = Bus::new();
    let weekdays = [
        Weekday::Mon,
        Weekday::Tue,
        Weekday::Wed,
        Weekday::Thu,
        Weekday::Fri,
        Weekday::Sat,
        Weekday::Sun,
    ];
    // The 6th of May 2024 is a Monday.
    for (weekday, day) in weekdays.into_iter().zip(6..) {
        assert_eq!(rtc.set_date(&mut bus, &date(2024, 5, day)), Ok(()));
        let calendar = replay(&bus.take(), Register::ErtcDate, 0);
        let at = time(7, 30, 0, 0);
        assert_eq!(rtc.set_alarm(&mut bus, Alarm::AlarmB, weekday.into(), at), Ok(()));
        let alarm = replay(&bus.take(), Register::ErtcAlb, 0xffff_ffff);
        assert_eq!((alarm >> 24) & 0x3f, (calendar >> 13) & 7);
    }
}

#[test]
fn fractions_of_a_second_do_not_matter() {
    let mut rtc = lse();
    let mut bus = Bus::new();
    let at = NaiveTime { hour: 1, minute: 2, second: 3, nano: 1_500_000_000 };
    assert_eq!(rtc.set_time(&mut bus, &at), Ok(()));
    assert_eq!(replay(&bus.take(), Register::ErtcTime, 0), 0x0001_0203);
    let both = NaiveDateTime::new(date(2024, 5, 6), at);
    assert_eq!(rtc.set_datetime(&mut bus, &both), Ok(()));
    assert_eq!(replay(&bus.take(), Register::ErtcTime, 0), 0x0001_0203);
    assert_eq!(rtc.set_alarm(&mut bus, Alarm::AlarmA, AlarmDay::EveryDay, at), Ok(()));
    assert_eq!(replay(&bus.take(), Register::ErtcAla, 0), 0x8001_0203);
}

#[test]
fn set_alarm_clears_its_flag_and_keeps_the_other() {
    let mut rtc = lse();
    let mut bus = Bus::new();
    rtc.set_alarm(&mut bus, Alarm::AlarmA, AlarmDay::EveryDay, time(1, 2, 3, 0)).unwrap();
    let actions = bus.take();
    let sts = replay(&actions, Register::ErtcSts, 0x300);
    assert!(!rtc.is_pending(sts, Event::AlarmA));
    assert!(rtc.is_pending(sts, Event::AlarmB));
    assert_eq!(replay(&actions, Register::ErtcAlb, 0x1234_5678), 0x1234_5678);
    assert_eq!(replay(&actions, Register::ErtcCtrl, 0x200), 0x300);
    assert_eq!(replay(&actions, Register::ErtcCtrl, 0x100), 0x100);
    // An alarm on every day selects no weekday.
    assert_eq!(replay(&actions, Register::ErtcAla, 0xffff_ffff), 0x8081_8283);
}

#[test]
fn events_are_listened_for() {
    let cases = [
        (Event::AlarmA, 0x0002_0000, 0x1000, 0x100),
        (Event::AlarmB, 0x0002_0000, 0x2000, 0x200),
        (Event::Wakeup, 0x0040_0000, 0x4000, 0x400),
        (Event::Timestamp, 0x0020_0000, 0x8000, 0x800),
    ];
    let mut rtc = lse();
    for (event, line, enable, flag) in cases {
        let mut bus = Bus::new();
        rtc.listen(&mut bus, event);
        let listen = bus.take();
        let body = vec![
            modify(Register::ExintPolcfg1, 0, line),
            modify(Register::ExintInten, 0, line),
            modify(Register::ErtcCtrl, 0x0003_0000, enable),
        ];
        assert_eq!(listen, session(false, body));
        rtc.unlisten(&mut bus, event);
        let unlisten = bus.take();
        let body = vec![
            modify(Register::ErtcCtrl, 0x0003_0000 | enable, 0),
            modify(Register::ExintInten, line, 0),
            modify(Register::ExintPolcfg1, line, 0),
        ];
        assert_eq!(unlisten, session(false, body));
        for reg in [Register::ErtcCtrl, Register::ExintInten, Register::ExintPolcfg1] {
            assert_eq!(replay(&unlisten, reg, replay(&listen, reg, 0x40)), 0x40);
        }
        rtc.clear_interrupt(&mut bus, event);
        let clear = bus.take();
        assert_eq!(
            clear,
            vec![modify(Register::ErtcSts, flag, 0), write(Register::ExintIntsts, line)]
        );
        assert!(rtc.is_pending(0xffff, event));
        assert!(!rtc.is_pending(replay(&clear, Register::ErtcSts, 0xffff), event));
        for (other, _, _, _) in cases {
            let pending = rtc.is_pending(replay(&clear, Register::ErtcSts, 0xffff), other);
            assert_eq!(pending, other != event);
        }
    }
}
