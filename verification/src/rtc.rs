//! Interface to the real time clock.
//!
//! Time and date are kept in binary coded decimal: each decimal digit has a field of its own. The
//! years 1970 to 2069 are kept as 0 to 99.
use crate::bits;
use crate::bus::{Action, Bus, Peripheral, Register};
use crate::calendar::{NaiveDate, NaiveDateTime, NaiveTime, Weekday};
use crate::rate;
use crate::rate::{Hertz, Micros};
use vstd::prelude::*;

pub mod laws;
pub mod timers;

verus! {

/// Status: alarm A may be written.
pub const STS_ALAWF: u32 = 0x0001;

/// Status: alarm B may be written.
pub const STS_ALBWF: u32 = 0x0002;

/// Status: the wakeup timer may be written.
pub const STS_WATWF: u32 = 0x0004;

/// Status: the calendar registers are synchronised.
pub const STS_UPDF: u32 = 0x0020;

/// Status: initialisation mode was entered.
pub const STS_IMF: u32 = 0x0040;

/// Status: initialisation mode is asked for.
pub const STS_IMEN: u32 = 0x0080;

/// Status: alarm A occurred.
pub const STS_ALAF: u32 = 0x0100;

/// Status: alarm B occurred.
pub const STS_ALBF: u32 = 0x0200;

/// Status: the wakeup timer ran down.
pub const STS_WATF: u32 = 0x0400;

/// Status: a time stamp was taken.
pub const STS_TSF: u32 = 0x0800;

/// Status: a time stamp was taken while another was kept.
pub const STS_TSOF: u32 = 0x1000;

/// Control: clock of the wakeup timer.
pub const CTRL_WATCLK: u32 = 0x0007;

/// Control: twelve hour format.
pub const CTRL_HM: u32 = 0x0040;

/// Control: alarm A is enabled.
pub const CTRL_ALAEN: u32 = 0x0100;

/// Control: alarm B is enabled.
pub const CTRL_ALBEN: u32 = 0x0200;

/// Control: the wakeup timer is enabled.
pub const CTRL_WATEN: u32 = 0x0400;

/// Control: time stamps are enabled.
pub const CTRL_TSEN: u32 = 0x0800;

/// Control: alarm A interrupts.
pub const CTRL_ALAIEN: u32 = 0x1000;

/// Control: alarm B interrupts.
pub const CTRL_ALBIEN: u32 = 0x2000;

/// Control: the wakeup timer interrupts.
pub const CTRL_WATIEN: u32 = 0x4000;

/// Control: a time stamp interrupts.
pub const CTRL_TSIEN: u32 = 0x8000;

/// Control: the bits that add or subtract an hour when a one is written to them.
pub const CTRL_HOUR_STEPS: u32 = 0x0003_0000;

/// Time and alarm: the digits of the seconds.
pub const TIME_SECONDS: u32 = 0x0000_007f;

/// Time and alarm: the digits of the minutes.
pub const TIME_MINUTES: u32 = 0x0000_7f00;

/// Time and alarm: the digits of the hours.
pub const TIME_HOURS: u32 = 0x003f_0000;

/// Time and alarm: afternoon, in the twelve hour format.
pub const TIME_AMPM: u32 = 0x0040_0000;

/// Alarm: the digits of the day.
pub const ALARM_DAY: u32 = 0x3f00_0000;

/// Alarm: the day is a weekday.
pub const ALARM_WKSEL: u32 = 0x4000_0000;

/// Alarm: the day is not compared.
pub const ALARM_MASK4: u32 = 0x8000_0000;

/// Date: the digits of the day.
pub const DATE_DAY: u32 = 0x0000_003f;

/// Date: the digits of the month.
pub const DATE_MONTH: u32 = 0x0000_1f00;

/// Date: the tens of the month.
pub const DATE_MONTH_TENS: u32 = 0x0000_1000;

/// Date: the day of the week.
pub const DATE_WEEKDAY: u32 = 0x0000_e000;

/// Date: the digits of the year.
pub const DATE_YEAR: u32 = 0x00ff_0000;

/// Divider: both factors.
pub const DIV_BOTH: u32 = 0x007f_7fff;

/// Battery powered domain: the external oscillator is on.
pub const BPDC_LEXTEN: u32 = 0x0001;

/// Battery powered domain: the external oscillator is stable.
pub const BPDC_LEXTSTBL: u32 = 0x0002;

/// Battery powered domain: the external oscillator is bypassed.
pub const BPDC_LEXTBYPS: u32 = 0x0004;

/// Battery powered domain: the clock source of the real time clock.
pub const BPDC_ERTCSEL: u32 = 0x0300;

/// Battery powered domain: the real time clock runs from the external oscillator.
pub const BPDC_ERTCSEL_LEXT: u32 = 0x0100;

/// Battery powered domain: the real time clock runs from the internal oscillator.
pub const BPDC_ERTCSEL_LICK: u32 = 0x0200;

/// Battery powered domain: the real time clock is on.
pub const BPDC_ERTCEN: u32 = 0x8000;

/// Battery powered domain: reset.
pub const BPDC_BPDRST: u32 = 0x0001_0000;

/// Clock control: the internal low speed oscillator is on.
pub const CTRLSTS_LICKEN: u32 = 0x0001;

/// Clock control: the internal low speed oscillator is stable.
pub const CTRLSTS_LICKSTBL: u32 = 0x0002;

/// Power control: the battery powered domain may be written.
pub const PWC_BPWEN: u32 = 0x0100;

/// External interrupt line of the alarms.
pub const LINE_ALARM: u32 = 0x0002_0000;

/// External interrupt line of the time stamp.
pub const LINE_TIMESTAMP: u32 = 0x0020_0000;

/// External interrupt line of the wakeup timer.
pub const LINE_WAKEUP: u32 = 0x0040_0000;

/// The first of the two keys that open the registers for writing.
pub const WP_KEY1: u32 = 0xca;

/// The second of the two keys that open the registers for writing.
pub const WP_KEY2: u32 = 0x53;

/// The value that closes the registers.
pub const WP_CLOSE: u32 = 0xff;

/// Invalid input error.
#[derive(Clone, Copy, Debug, PartialEq, Eq, Structural)]
pub enum Error {
    /// A value lies outside its range.
    InvalidInputData,
}

/// What the clock can report.
#[derive(Clone, Copy, Debug, PartialEq, Eq, Structural)]
pub enum Event {
    /// Alarm A occurred.
    AlarmA,
    /// Alarm B occurred.
    AlarmB,
    /// The wakeup timer ran down.
    Wakeup,
    /// A time stamp was taken.
    Timestamp,
}

impl Event {
    /// The flag in the status register that reports the event.
    pub open spec fn flag(self) -> u32 {
        match self {
            Event::AlarmA => STS_ALAF,
            Event::AlarmB => STS_ALBF,
            Event::Wakeup => STS_WATF,
            Event::Timestamp => STS_TSF,
        }
    }

    /// The bit in the control register that lets the event interrupt.
    pub open spec fn interrupt_enable(self) -> u32 {
        match self {
            Event::AlarmA => CTRL_ALAIEN,
            Event::AlarmB => CTRL_ALBIEN,
            Event::Wakeup => CTRL_WATIEN,
            Event::Timestamp => CTRL_TSIEN,
        }
    }

    /// The external interrupt line of the event.
    pub open spec fn line(self) -> u32 {
        match self {
            Event::AlarmA => LINE_ALARM,
            Event::AlarmB => LINE_ALARM,
            Event::Wakeup => LINE_WAKEUP,
            Event::Timestamp => LINE_TIMESTAMP,
        }
    }
}

/// One of the two alarms.
#[derive(Clone, Copy, Debug, PartialEq, Eq, Structural)]
pub enum Alarm {
    /// Alarm A.
    AlarmA,
    /// Alarm B.
    AlarmB,
}

impl Alarm {
    /// The event that reports the alarm.
    pub open spec fn event(self) -> Event {
        match self {
            Alarm::AlarmA => Event::AlarmA,
            Alarm::AlarmB => Event::AlarmB,
        }
    }

    /// The register that holds the alarm.
    pub open spec fn register(self) -> Register {
        match self {
            Alarm::AlarmA => Register::ErtcAla,
            Alarm::AlarmB => Register::ErtcAlb,
        }
    }

    /// The bit in the control register that enables the alarm.
    pub open spec fn enable(self) -> u32 {
        match self {
            Alarm::AlarmA => CTRL_ALAEN,
            Alarm::AlarmB => CTRL_ALBEN,
        }
    }

    /// The flag in the status register that says that the alarm may be written.
    pub open spec fn ready(self) -> u32 {
        match self {
            Alarm::AlarmA => STS_ALAWF,
            Alarm::AlarmB => STS_ALBWF,
        }
    }
}

impl vstd::std_specs::convert::FromSpecImpl<Alarm> for Event {
    open spec fn obeys_from_spec() -> bool {
        true
    }

    open spec fn from_spec(alarm: Alarm) -> Event {
        alarm.event()
    }
}

impl From<Alarm> for Event {
    fn from(alarm: Alarm) -> (event: Event) {
        match alarm {
            Alarm::AlarmA => Event::AlarmA,
            Alarm::AlarmB => Event::AlarmB,
        }
    }
}

/// The days on which an alarm occurs.
#[derive(Clone, Copy, Debug, PartialEq, Eq, Structural)]
pub enum AlarmDay {
    /// On the day of the month of a date.
    Date(NaiveDate),
    /// On a day of the week.
    Weekday(Weekday),
    /// Every day.
    EveryDay,
}

impl vstd::std_specs::convert::FromSpecImpl<NaiveDate> for AlarmDay {
    open spec fn obeys_from_spec() -> bool {
        true
    }

    open spec fn from_spec(date: NaiveDate) -> AlarmDay {
        AlarmDay::Date(date)
    }
}

impl From<NaiveDate> for AlarmDay {
    fn from(date: NaiveDate) -> (day: AlarmDay) {
        AlarmDay::Date(date)
    }
}

impl vstd::std_specs::convert::FromSpecImpl<Weekday> for AlarmDay {
    open spec fn obeys_from_spec() -> bool {
        true
    }

    open spec fn from_spec(day: Weekday) -> AlarmDay {
        AlarmDay::Weekday(day)
    }
}

impl From<Weekday> for AlarmDay {
    fn from(day: Weekday) -> (alarm_day: AlarmDay) {
        AlarmDay::Weekday(day)
    }
}

/// Clock source: external low speed oscillator (type state).
pub struct Lse;

/// Clock source: internal low speed oscillator (type state).
pub struct Lsi;

/// Mode of the external low speed oscillator.
#[derive(Clone, Copy, Debug, PartialEq, Eq, Structural)]
pub enum LSEClockMode {
    /// Enable the oscillator to use an external crystal or ceramic resonator.
    Oscillator,
    /// Bypass the oscillator to use an external clock, such as a MEMS resonator.
    Bypass,
}

/// What drives the clock.
#[derive(Clone, Copy, Debug, PartialEq, Eq, Structural)]
pub enum ClockSource {
    /// The external low speed oscillator.
    Lse(LSEClockMode),
    /// The internal low speed oscillator.
    Lsi,
}

impl vstd::std_specs::convert::FromSpecImpl<LSEClockMode> for ClockSource {
    open spec fn obeys_from_spec() -> bool {
        true
    }

    open spec fn from_spec(mode: LSEClockMode) -> ClockSource {
        ClockSource::Lse(mode)
    }
}

impl From<LSEClockMode> for ClockSource {
    fn from(mode: LSEClockMode) -> (source: ClockSource) {
        ClockSource::Lse(mode)
    }
}

impl ClockSource {
    /// The frequency of the source in hertz.
    pub open spec fn hertz(self) -> u32 {
        match self {
            ClockSource::Lse(_) => 32_768,
            ClockSource::Lsi => 32_000,
        }
    }

    /// The frequency of the source.
    pub fn frequency(self) -> (frequency: Hertz)
        ensures
            frequency == self.hertz(),
    {
        match self {
            ClockSource::Lse(_) => 32_768,
            ClockSource::Lsi => rate::kilohertz(32),
        }
    }
}

// Binary coded decimal.

/// Splits a number into its tens and its last digit; the tens have to fit in a byte.
pub fn bcd2_encode(word: u32) -> (digits: Result<(u8, u8), Error>)
    ensures
        digits is Ok <==> word / 10 <= 255,
        digits matches Ok(d) ==> d.0 == word / 10 && d.1 == word % 10,
        digits is Err ==> digits->Err_0 == Error::InvalidInputData,
{
    if word / 10 > 255 {
        return Err(Error::InvalidInputData);
    }
    Ok(((word / 10) as u8, (word % 10) as u8))
}

/// Joins tens and last digit.
pub fn bcd2_decode(fst: u8, snd: u8) -> (word: u8)
    requires
        fst * 10 + snd <= 255,
    ensures
        word == fst * 10 + snd,
{
    fst * 10 + snd
}

/// The number that two digit fields of a word stand for.
pub open spec fn digits_of(
    word: u32,
    tens_mask: u32,
    tens_offset: u32,
    units_offset: u32,
) -> int {
    bits::field(word, tens_mask, tens_offset) * 10 + bits::field(word, 0xf, units_offset)
}

/// The seconds in a time word.
pub open spec fn seconds_of(time: u32) -> int {
    digits_of(time, 7, 4, 0)
}

/// The minutes in a time word.
pub open spec fn minutes_of(time: u32) -> int {
    digits_of(time, 7, 12, 8)
}

/// The hours in a time word.
pub open spec fn hours_of(time: u32) -> int {
    digits_of(time, 3, 20, 16)
}

/// The day of the month in a date word.
pub open spec fn day_of(date: u32) -> int {
    digits_of(date, 3, 4, 0)
}

/// The month in a date word.
pub open spec fn month_of(date: u32) -> int {
    digits_of(date, 1, 12, 8)
}

/// The year in a date word.
pub open spec fn year_of(date: u32) -> int {
    digits_of(date, 0xf, 20, 16) + 1970
}

/// The number of the weekday in a date word.
pub open spec fn weekday_of(date: u32) -> int {
    bits::field(date, 7, 13) as int
}

/// The seconds of a time word.
pub fn decode_seconds(time: u32) -> (seconds: u8)
    ensures
        seconds == seconds_of(time),
{
    bcd2_decode(bits::get_field(time, 7, 4) as u8, bits::get_field(time, 0xf, 0) as u8)
}

/// The minutes of a time word.
pub fn decode_minutes(time: u32) -> (minutes: u8)
    ensures
        minutes == minutes_of(time),
{
    bcd2_decode(bits::get_field(time, 7, 12) as u8, bits::get_field(time, 0xf, 8) as u8)
}

/// The hours of a time word.
pub fn decode_hours(time: u32) -> (hours: u8)
    ensures
        hours == hours_of(time),
{
    bcd2_decode(bits::get_field(time, 3, 20) as u8, bits::get_field(time, 0xf, 16) as u8)
}

/// The day of the month of a date word.
pub fn decode_day(date: u32) -> (day: u8)
    ensures
        day == day_of(date),
{
    bcd2_decode(bits::get_field(date, 3, 4) as u8, bits::get_field(date, 0xf, 0) as u8)
}

/// The month of a date word.
pub fn decode_month(date: u32) -> (month: u8)
    ensures
        month == month_of(date),
{
    bcd2_decode(bits::get_field(date, 1, 12) as u8, bits::get_field(date, 0xf, 8) as u8)
}

/// The year of a date word; 1970 is the first year that can be kept.
pub fn decode_year(date: u32) -> (year: u16)
    ensures
        year == year_of(date),
{
    bcd2_decode(bits::get_field(date, 0xf, 20) as u8, bits::get_field(date, 0xf, 16) as u8) as u16
        + 1970
}

/// The seconds of a time stamp.
pub fn decode_seconds_ts(time: u32) -> (seconds: u8)
    ensures
        seconds == seconds_of(time),
{
    decode_seconds(time)
}

/// The minutes of a time stamp.
pub fn decode_minutes_ts(time: u32) -> (minutes: u8)
    ensures
        minutes == minutes_of(time),
{
    decode_minutes(time)
}

/// The hours of a time stamp.
pub fn decode_hours_ts(time: u32) -> (hours: u8)
    ensures
        hours == hours_of(time),
{
    decode_hours(time)
}

/// The day of the month of a time stamp.
pub fn decode_day_ts(date: u32) -> (day: u8)
    ensures
        day == day_of(date),
{
    decode_day(date)
}

/// The month of a time stamp.
pub fn decode_month_ts(date: u32) -> (month: u8)
    ensures
        month == month_of(date),
{
    decode_month(date)
}

/// The nanoseconds that the subsecond counter stands for: it counts down from `divb` to zero in a
/// second. The result is cut to hundredths of a millisecond.
pub fn ss_to_nano(sbs: u16, divb: u16) -> (nano: u32)
    requires
        sbs <= divb,
        divb - sbs <= 42_949,
    ensures
        nano == (divb - sbs) * 100_000 / (divb + 1) * 10_000,
        nano < 1_000_000_000,
{
    let elapsed: u32 = divb as u32 - sbs as u32;
    let steps: u32 = divb as u32 + 1;
    proof {
        assert(elapsed * 100_000 / (steps as int) < 100_000) by (nonlinear_arith)
            requires
                elapsed < steps,
                steps > 0,
        ;
        assert(elapsed * 100_000 / (steps as int) >= 0) by (nonlinear_arith)
            requires
                steps > 0,
                elapsed >= 0,
        ;
    }
    ((elapsed * 100_000) / steps) * 10_000
}

// Words for the registers.

/// The digits of seconds, in place.
pub open spec fn seconds_bits(seconds: u32) -> u32 {
    bits::placed(seconds / 10, 7, 4) | bits::placed(seconds % 10, 0xf, 0)
}

/// The digits of minutes, in place.
pub open spec fn minutes_bits(minutes: u32) -> u32 {
    bits::placed(minutes / 10, 7, 12) | bits::placed(minutes % 10, 0xf, 8)
}

/// The digits of hours, in place.
pub open spec fn hours_bits(hours: u32) -> u32 {
    bits::placed(hours / 10, 3, 20) | bits::placed(hours % 10, 0xf, 16)
}

/// The digits of a day of the month, in place.
pub open spec fn day_bits(day: u32) -> u32 {
    bits::placed(day / 10, 3, 4) | bits::placed(day % 10, 0xf, 0)
}

/// The digits of a month, in place.
pub open spec fn month_bits(month: u32) -> u32 {
    bits::when(month / 10 > 0, DATE_MONTH_TENS) | bits::placed(month % 10, 0xf, 8)
}

/// The digits of a year, counted from 1970, in place.
pub open spec fn year_bits(years: u32) -> u32 {
    bits::placed(years / 10, 0xf, 20) | bits::placed(years % 10, 0xf, 16)
}

/// The number of a weekday, in place.
pub open spec fn weekday_bits(weekday: u32) -> u32 {
    bits::placed(weekday, 7, 13)
}

/// The time word of a time of day.
pub open spec fn time_word(time: NaiveTime) -> u32 {
    hours_bits(time.hour) | minutes_bits(time.minute) | seconds_bits(time.second)
}

/// The date word of a date between 1970 and 2069.
pub open spec fn date_word(date: NaiveDate) -> u32 {
    year_bits((date.year - 1970) as u32) | weekday_bits(date.weekday_number() as u32) | month_bits(
        date.month,
    ) | day_bits(date.day)
}

/// The alarm word of a day and a time of day; the day and its kind come first.
pub open spec fn alarm_word(day: AlarmDay, time: NaiveTime) -> u32 {
    alarm_day_bits(day) | time_word(time)
}

/// The day of an alarm and its kind, in place.
pub open spec fn alarm_day_bits(day: AlarmDay) -> u32 {
    match day {
        AlarmDay::Date(date) => bits::placed(date.day / 10, 3, 28) | bits::placed(
            date.day % 10,
            0xf,
            24,
        ),
        AlarmDay::Weekday(weekday) => ALARM_WKSEL | bits::placed(
            weekday.number() as u32,
            0xf,
            24,
        ),
        AlarmDay::EveryDay => ALARM_MASK4,
    }
}

/// The part of an alarm register that setting the alarm replaces.
pub const ALARM_ALL: u32 = ALARM_DAY | ALARM_WKSEL | ALARM_MASK4 | TIME_AMPM | TIME_HOURS
    | TIME_MINUTES | TIME_SECONDS;

fn encode_seconds(seconds: u32) -> (word: Result<u32, Error>)
    ensures
        seconds < 100 ==> word is Ok && word->Ok_0 == seconds_bits(seconds),
{
    let (st, su) = bcd2_encode(seconds)?;
    Ok(bits::place(st as u32, 7, 4) | bits::place(su as u32, 0xf, 0))
}

fn encode_minutes(minutes: u32) -> (word: Result<u32, Error>)
    ensures
        minutes < 100 ==> word is Ok && word->Ok_0 == minutes_bits(minutes),
{
    let (mt, mu) = bcd2_encode(minutes)?;
    Ok(bits::place(mt as u32, 7, 12) | bits::place(mu as u32, 0xf, 8))
}

fn encode_hours(hours: u32) -> (word: Result<u32, Error>)
    ensures
        hours < 100 ==> word is Ok && word->Ok_0 == hours_bits(hours),
{
    let (ht, hu) = bcd2_encode(hours)?;
    Ok(bits::place(ht as u32, 3, 20) | bits::place(hu as u32, 0xf, 16))
}

fn encode_day(day: u32) -> (word: Result<u32, Error>)
    ensures
        day < 100 ==> word is Ok && word->Ok_0 == day_bits(day),
{
    let (dt, du) = bcd2_encode(day)?;
    Ok(bits::place(dt as u32, 3, 4) | bits::place(du as u32, 0xf, 0))
}

fn encode_month(month: u32) -> (word: Result<u32, Error>)
    ensures
        month < 100 ==> word is Ok && word->Ok_0 == month_bits(month),
{
    let (mt, mu) = bcd2_encode(month)?;
    Ok(bits::bits_if(mt > 0, DATE_MONTH_TENS) | bits::place(mu as u32, 0xf, 8))
}

fn encode_year(years: u32) -> (word: Result<u32, Error>)
    ensures
        years < 100 ==> word is Ok && word->Ok_0 == year_bits(years),
{
    let (yt, yu) = bcd2_encode(years)?;
    Ok(bits::place(yt as u32, 0xf, 20) | bits::place(yu as u32, 0xf, 16))
}

fn encode_time(time: &NaiveTime) -> (word: Result<u32, Error>)
    requires
        time.on_the_clock(),
    ensures
        word is Ok,
        word->Ok_0 == time_word(*time),
{
    let hours = encode_hours(time.hour)?;
    let minutes = encode_minutes(time.minute)?;
    let seconds = encode_seconds(time.second)?;
    Ok(hours | minutes | seconds)
}

fn encode_date(date: &NaiveDate) -> (word: Result<u32, Error>)
    requires
        date.wf(),
        1970 <= date.year <= 2069,
    ensures
        word is Ok,
        word->Ok_0 == date_word(*date),
{
    let year = encode_year((date.year - 1970) as u32)?;
    let month = encode_month(date.month)?;
    let day = encode_day(date.day)?;
    let weekday = bits::place(date.number_from_monday(), 7, 13);
    Ok(year | weekday | month | day)
}

/// The accesses that open the registers, run `body` and close them again.
///
/// With `init` the calendar is stopped in between: initialisation mode is entered unless the clock
/// is in it already.
pub open spec fn session(init: bool, body: Seq<Action>) -> Seq<Action> {
    opening(init) + body + closing(init)
}

/// The accesses that open the registers.
pub open spec fn opening(init: bool) -> Seq<Action> {
    let keys = seq![
        Action::Write { reg: Register::ErtcWp, value: WP_KEY1 },
        Action::Write { reg: Register::ErtcWp, value: WP_KEY2 },
    ];
    if init {
        keys + seq![
            Action::SetIfClear { reg: Register::ErtcSts, test: STS_IMF, set: STS_IMEN },
            Action::Wait { reg: Register::ErtcSts, mask: STS_IMF, value: STS_IMF },
        ]
    } else {
        keys
    }
}

/// The accesses that close the registers.
pub open spec fn closing(init: bool) -> Seq<Action> {
    let close = seq![
        Action::Wait { reg: Register::ErtcSts, mask: STS_IMF, value: 0 },
        Action::Write { reg: Register::ErtcWp, value: WP_CLOSE },
    ];
    if init {
        seq![Action::Modify { reg: Register::ErtcSts, clear: STS_IMEN, set: 0 }] + close
    } else {
        close
    }
}

/// The modification of the control register that clears the bits of `clear` and sets those of
/// `set`, and steps no hour.
pub open spec fn ctrl_modify(clear: u32, set: u32) -> Action {
    Action::Modify { reg: Register::ErtcCtrl, clear: clear | CTRL_HOUR_STEPS, set }
}

/// The modification of the status register that clears flags.
pub open spec fn sts_clear(flags: u32) -> Action {
    Action::Modify { reg: Register::ErtcSts, clear: flags, set: 0 }
}

/// The modification of the divider register that stores both factors, each cut to its field.
pub open spec fn div_modify(divb: u16, prediv_a: u8) -> Action {
    Action::Modify {
        reg: Register::ErtcDiv,
        clear: DIV_BOTH,
        set: bits::placed(divb as u32, 0x7fff, 0) | bits::placed(prediv_a as u32, 0x7f, 16),
    }
}

/// The contents of the calendar registers, read in one go.
#[derive(Clone, Copy, Debug, PartialEq, Eq, Structural)]
pub struct CalendarSample {
    /// Subsecond register.
    pub sbs: u16,
    /// Time register.
    pub time: u32,
    /// Date register.
    pub date: u32,
    /// Divider register.
    pub div: u32,
}

/// The contents of the time stamp registers, and of the calendar registers that complete them.
#[derive(Clone, Copy, Debug, PartialEq, Eq, Structural)]
pub struct TimestampSample {
    /// Time stamp subsecond register.
    pub tssbs: u32,
    /// Time stamp time register.
    pub tstm: u32,
    /// Time stamp date register.
    pub tsdt: u32,
    /// Date register of the calendar; a time stamp has no year.
    pub date: u32,
    /// Divider register.
    pub div: u32,
}

/// The date and time that registers stand for: the year from `year_date`, month and day from
/// `date`, hours, minutes and seconds from `time`, and the fraction of a second from the subsecond
/// counter `sbs`, which counts down from the second factor of the divider. There is none if the
/// counter lies above that factor or if the date or the time does not exist.
pub open spec fn registers_datetime(
    sbs: u16,
    time: u32,
    date: u32,
    year_date: u32,
    div: u32,
) -> Option<NaiveDateTime> {
    let divb = bits::field(div, 0x7fff, 0);
    let nano = (divb - sbs) * 100_000 / (divb + 1) * 10_000;
    if sbs <= divb && crate::calendar::date_exists(
        year_of(year_date),
        month_of(date),
        day_of(date),
    ) && crate::calendar::time_exists(
        hours_of(time),
        minutes_of(time),
        seconds_of(time),
        nano,
    ) {
        Some(
            NaiveDateTime {
                date: NaiveDate {
                    year: year_of(year_date) as i32,
                    month: month_of(date) as u32,
                    day: day_of(date) as u32,
                },
                time: NaiveTime {
                    hour: hours_of(time) as u32,
                    minute: minutes_of(time) as u32,
                    second: seconds_of(time) as u32,
                    nano: nano as u32,
                },
            },
        )
    } else {
        None
    }
}

fn decode_datetime(sbs: u16, time: u32, date: u32, year_date: u32, div: u32) -> (datetime: Option<
    NaiveDateTime,
>)
    ensures
        datetime == registers_datetime(sbs, time, date, year_date, div),
{
    let seconds = decode_seconds(time);
    let minutes = decode_minutes(time);
    let hours = decode_hours(time);
    let day = decode_day(date);
    let month = decode_month(date);
    let year = decode_year(year_date);
    let divb = bits::get_field(div, 0x7fff, 0) as u16;
    if sbs > divb {
        return None;
    }
    let nano = ss_to_nano(sbs, divb);
    match (
        NaiveDate::from_ymd_opt(year as i32, month as u32, day as u32),
        NaiveTime::from_hms_nano_opt(hours as u32, minutes as u32, seconds as u32, nano),
    ) {
        (Some(date), Some(time)) => Some(NaiveDateTime::new(date, time)),
        _ => None,
    }
}

impl CalendarSample {
    /// The date and time that the sample stands for.
    pub open spec fn datetime(self) -> Option<NaiveDateTime> {
        registers_datetime(self.sbs, self.time, self.date, self.date, self.div)
    }
}

impl TimestampSample {
    /// The date and time that the sample stands for; its year is that of the calendar.
    pub open spec fn datetime(self) -> Option<NaiveDateTime> {
        registers_datetime((self.tssbs & 0xffff) as u16, self.tstm, self.tsdt, self.date, self.div)
    }
}

impl Event {
    /// Whether the status says that the event is pending.
    pub open spec fn pending(self, sts: u32) -> bool {
        bits::any_set(sts, self.flag())
    }
}

/// The number of periods of half the source's frequency, cut to whole microseconds, in an interval.
pub open spec fn wakeup_ticks(source: ClockSource, interval: Micros) -> int {
    interval as int / (1_000_000int / (source.hertz() as int / 2))
}

/// The largest number of ticks that the wakeup timer can count.
pub const WAKEUP_TICKS: u64 = 0x1_0000;

/// The number of times that `ticks` has to be halved until the timer can count it.
pub open spec fn wakeup_prescaler(ticks: int) -> int {
    if ticks <= WAKEUP_TICKS {
        0
    } else if ticks / 2 <= WAKEUP_TICKS {
        1
    } else if ticks / 4 <= WAKEUP_TICKS {
        2
    } else if ticks / 8 <= WAKEUP_TICKS {
        3
    } else {
        4
    }
}

/// Whether the wakeup timer counts an interval in ticks of the source, not in seconds.
pub open spec fn counted_in_ticks(source: ClockSource, interval: Micros) -> bool {
    interval < 32_000_000 && wakeup_prescaler(wakeup_ticks(source, interval)) <= 3
}

/// Clock selection and reload value of the wakeup timer for an interval.
///
/// Below 32 seconds the timer counts halves, quarters, eighths or sixteenths of the source's
/// frequency. Longer intervals, and those of more ticks than it can count, are counted in whole
/// seconds. There is no setting for intervals of more than 2^17 - 1 seconds and of no tick at all.
pub open spec fn wakeup_setting_of(source: ClockSource, interval: Micros) -> Option<(u32, u16)> {
    if counted_in_ticks(source, interval) {
        let ticks = wakeup_ticks(source, interval);
        let prescaler = wakeup_prescaler(ticks);
        if ticks == 0 {
            None
        } else {
            let count = if prescaler == 0 {
                ticks
            } else if prescaler == 1 {
                ticks / 2
            } else if prescaler == 2 {
                ticks / 4
            } else {
                ticks / 8
            };
            Some(((3 - prescaler) as u32, (count - 1) as u16))
        }
    } else {
        let seconds = interval as int / 1_000_000;
        if interval > 131_071_000_000 {
            None
        } else if seconds > 0x1_0000 {
            Some((6u32, (seconds - 0x1_0001) as u16))
        } else {
            Some((4u32, (seconds - 1) as u16))
        }
    }
}

/// Stores the seconds in the time register.
pub open spec fn set_seconds_action(seconds: u8) -> Action {
    Action::Modify {
        reg: Register::ErtcTime,
        clear: TIME_SECONDS,
        set: seconds_bits(seconds as u32),
    }
}

/// Stores the minutes in the time register.
pub open spec fn set_minutes_action(minutes: u8) -> Action {
    Action::Modify {
        reg: Register::ErtcTime,
        clear: TIME_MINUTES,
        set: minutes_bits(minutes as u32),
    }
}

/// Stores the hours in the time register.
pub open spec fn set_hours_action(hours: u8) -> Action {
    Action::Modify { reg: Register::ErtcTime, clear: TIME_HOURS, set: hours_bits(hours as u32) }
}

/// Stores the weekday in the date register.
pub open spec fn set_weekday_action(weekday: u8) -> Action {
    Action::Modify {
        reg: Register::ErtcDate,
        clear: DATE_WEEKDAY,
        set: weekday_bits(weekday as u32),
    }
}

/// Stores the day of the month in the date register.
pub open spec fn set_day_action(day: u8) -> Action {
    Action::Modify { reg: Register::ErtcDate, clear: DATE_DAY, set: day_bits(day as u32) }
}

/// Stores the month in the date register.
pub open spec fn set_month_action(month: u8) -> Action {
    Action::Modify { reg: Register::ErtcDate, clear: DATE_MONTH, set: month_bits(month as u32) }
}

/// Stores the year in the date register.
pub open spec fn set_year_action(year: u16) -> Action {
    Action::Modify {
        reg: Register::ErtcDate,
        clear: DATE_YEAR,
        set: year_bits((year - 1970) as u32),
    }
}

/// The accesses that set date and time.
pub open spec fn set_datetime_actions(datetime: NaiveDateTime) -> Seq<Action> {
    session(
        true,
        seq![
            Action::Write { reg: Register::ErtcDate, value: date_word(datetime.date) },
            Action::Write { reg: Register::ErtcTime, value: time_word(datetime.time) },
        ],
    )
}

/// What setting the seconds comes to: one that does not exist is refused and changes nothing.
pub open spec fn seconds_set(
    seconds: u8,
    done: Result<(), Error>,
    before: Seq<Action>,
    after: Seq<Action>,
) -> bool {
    &&& seconds <= 59 ==> done is Ok && after =~= before + session(true, seq![set_seconds_action(seconds)])
    &&& seconds > 59 ==> done is Err && after =~= before
}

/// What setting the minutes comes to: one that does not exist is refused and changes nothing.
pub open spec fn minutes_set(
    minutes: u8,
    done: Result<(), Error>,
    before: Seq<Action>,
    after: Seq<Action>,
) -> bool {
    &&& minutes <= 59 ==> done is Ok && after =~= before + session(true, seq![set_minutes_action(minutes)])
    &&& minutes > 59 ==> done is Err && after =~= before
}

/// What setting the hours comes to: one that does not exist is refused and changes nothing.
pub open spec fn hours_set(
    hours: u8,
    done: Result<(), Error>,
    before: Seq<Action>,
    after: Seq<Action>,
) -> bool {
    &&& hours <= 23 ==> done is Ok && after =~= before + session(true, seq![set_hours_action(hours)])
    &&& hours > 23 ==> done is Err && after =~= before
}

/// What setting the weekday comes to: one that does not exist is refused and changes nothing.
pub open spec fn weekday_set(
    weekday: u8,
    done: Result<(), Error>,
    before: Seq<Action>,
    after: Seq<Action>,
) -> bool {
    &&& 1 <= weekday <= 7 ==> done is Ok && after =~= before + session(true, seq![set_weekday_action(weekday)])
    &&& !(1 <= weekday <= 7) ==> done is Err && after =~= before
}

/// What setting the day of the month comes to: one that does not exist is refused and changes nothing.
pub open spec fn day_set(
    day: u8,
    done: Result<(), Error>,
    before: Seq<Action>,
    after: Seq<Action>,
) -> bool {
    &&& 1 <= day <= 31 ==> done is Ok && after =~= before + session(true, seq![set_day_action(day)])
    &&& !(1 <= day <= 31) ==> done is Err && after =~= before
}

/// What setting the month comes to: one that does not exist is refused and changes nothing.
pub open spec fn month_set(
    month: u8,
    done: Result<(), Error>,
    before: Seq<Action>,
    after: Seq<Action>,
) -> bool {
    &&& 1 <= month <= 12 ==> done is Ok && after =~= before + session(true, seq![set_month_action(month)])
    &&& !(1 <= month <= 12) ==> done is Err && after =~= before
}

/// What setting the year comes to: one that does not exist is refused and changes nothing.
pub open spec fn year_set(
    year: u16,
    done: Result<(), Error>,
    before: Seq<Action>,
    after: Seq<Action>,
) -> bool {
    &&& 1970 <= year <= 2069 ==> done is Ok && after =~= before + session(true, seq![set_year_action(year)])
    &&& !(1970 <= year <= 2069) ==> done is Err && after =~= before
}

/// What setting the date comes to: a year that the clock cannot keep is refused and changes nothing.
pub open spec fn date_set(
    date: NaiveDate,
    done: Result<(), Error>,
    before: Seq<Action>,
    after: Seq<Action>,
) -> bool {
    &&& 1970 <= date.year <= 2069 ==> done is Ok && after =~= before + session(
        true,
        seq![Action::Write { reg: Register::ErtcDate, value: date_word(date) }],
    )
    &&& !(1970 <= date.year <= 2069) ==> done is Err && after =~= before
}

/// What setting date and time comes to: a year that the clock cannot keep is refused and changes
/// nothing.
pub open spec fn datetime_set(
    datetime: NaiveDateTime,
    done: Result<(), Error>,
    before: Seq<Action>,
    after: Seq<Action>,
) -> bool {
    &&& 1970 <= datetime.date.year <= 2069 ==> done is Ok && after =~= before
        + set_datetime_actions(datetime)
    &&& !(1970 <= datetime.date.year <= 2069) ==> done is Err && after =~= before
}

/// The accesses that start the wakeup timer with a clock selection and a reload value.
pub open spec fn enable_wakeup_actions(setting: (u32, u16)) -> Seq<Action> {
    session(
        false,
        seq![
            ctrl_modify(CTRL_WATEN, 0),
            sts_clear(STS_WATF),
            Action::Wait { reg: Register::ErtcSts, mask: STS_WATWF, value: STS_WATWF },
            ctrl_modify(CTRL_WATCLK, setting.0),
            Action::Write { reg: Register::ErtcWat, value: setting.1 as u32 },
            ctrl_modify(0, CTRL_WATEN),
        ],
    )
}

/// The accesses that stop the wakeup timer.
pub open spec fn disable_wakeup_actions() -> Seq<Action> {
    session(false, seq![ctrl_modify(CTRL_WATEN, 0), sts_clear(STS_WATF)])
}

/// The accesses that have time stamps taken.
pub open spec fn enable_timestamp_actions() -> Seq<Action> {
    session(
        false,
        seq![ctrl_modify(CTRL_TSEN, 0), sts_clear(STS_TSF), ctrl_modify(0, CTRL_TSEN)],
    )
}

/// The accesses that have no time stamps taken.
pub open spec fn disable_timestamp_actions() -> Seq<Action> {
    session(false, seq![ctrl_modify(CTRL_TSEN, 0), sts_clear(STS_TSF)])
}

/// The accesses that sample the calendar, once its registers are synchronised.
pub open spec fn sample_datetime_actions() -> Seq<Action> {
    seq![
        Action::Wait { reg: Register::ErtcSts, mask: STS_UPDF, value: STS_UPDF },
        Action::Sample { reg: Register::ErtcSbs },
        Action::Sample { reg: Register::ErtcTime },
        Action::Sample { reg: Register::ErtcDate },
        sts_clear(STS_UPDF),
        Action::Sample { reg: Register::ErtcDiv },
    ]
}

/// The accesses that sample the time stamp.
pub open spec fn sample_timestamp_actions() -> Seq<Action> {
    seq![
        Action::Wait { reg: Register::ErtcSts, mask: STS_UPDF, value: STS_UPDF },
        Action::Sample { reg: Register::ErtcTssbs },
        Action::Sample { reg: Register::ErtcTstm },
        Action::Sample { reg: Register::ErtcTsdt },
        Action::Sample { reg: Register::ErtcDate },
        Action::Sample { reg: Register::ErtcDiv },
        sts_clear(STS_TSF | STS_TSOF),
    ]
}

/// The accesses that set an alarm.
pub open spec fn set_alarm_actions(alarm: Alarm, day: AlarmDay, time: NaiveTime) -> Seq<Action> {
    session(
        false,
        seq![
            Action::Modify { reg: Register::ErtcCtrl, clear: alarm.enable(), set: 0 },
            sts_clear(alarm.event().flag()),
            Action::Wait { reg: Register::ErtcSts, mask: alarm.ready(), value: alarm.ready() },
            Action::Modify { reg: alarm.register(), clear: ALARM_ALL, set: alarm_word(day, time) },
            Action::Modify { reg: Register::ErtcCtrl, clear: 0, set: alarm.enable() },
        ],
    )
}

/// The accesses that let an event interrupt.
pub open spec fn listen_actions(event: Event) -> Seq<Action> {
    session(
        false,
        seq![
            Action::Modify { reg: Register::ExintPolcfg1, clear: 0, set: event.line() },
            Action::Modify { reg: Register::ExintInten, clear: 0, set: event.line() },
            ctrl_modify(0, event.interrupt_enable()),
        ],
    )
}

/// The accesses that let an event interrupt no longer.
pub open spec fn unlisten_actions(event: Event) -> Seq<Action> {
    session(
        false,
        seq![
            ctrl_modify(event.interrupt_enable(), 0),
            Action::Modify { reg: Register::ExintInten, clear: event.line(), set: 0 },
            Action::Modify { reg: Register::ExintPolcfg1, clear: event.line(), set: 0 },
        ],
    )
}

/// The accesses that clear the flags of an event.
pub open spec fn clear_interrupt_actions(event: Event) -> Seq<Action> {
    seq![
        sts_clear(event.flag()),
        Action::Write { reg: Register::ExintIntsts, value: event.line() },
    ]
}

/// Real time clock peripheral.
pub struct Rtc {
    clock_source: ClockSource,
}

impl Rtc {
    /// What drives the clock.
    pub closed spec fn source(&self) -> ClockSource {
        self.clock_source
    }

    /// The accesses that switch the external oscillator on.
    pub open spec fn lse_actions(mode: LSEClockMode) -> Seq<Action> {
        Self::backup_reset_actions() + seq![
            Action::Modify { reg: Register::CrmBpdc, clear: 0, set: BPDC_LEXTEN },
            match mode {
                LSEClockMode::Bypass => Action::Modify {
                    reg: Register::CrmBpdc,
                    clear: 0,
                    set: BPDC_LEXTBYPS,
                },
                LSEClockMode::Oscillator => Action::Modify {
                    reg: Register::CrmBpdc,
                    clear: BPDC_LEXTBYPS,
                    set: 0,
                },
            },
            Action::Wait { reg: Register::CrmBpdc, mask: BPDC_LEXTSTBL, value: BPDC_LEXTSTBL },
        ]
    }

    /// The accesses that switch the internal oscillator on.
    pub open spec fn lsi_actions() -> Seq<Action> {
        Self::backup_reset_actions() + seq![
            Action::Modify { reg: Register::CrmCtrlsts, clear: 0, set: CTRLSTS_LICKEN },
            Action::Wait {
                reg: Register::CrmCtrlsts,
                mask: CTRLSTS_LICKSTBL,
                value: CTRLSTS_LICKSTBL,
            },
        ]
    }

    /// The accesses that reset the battery powered domain.
    pub open spec fn backup_reset_actions() -> Seq<Action> {
        seq![
            Action::Modify { reg: Register::CrmBpdc, clear: 0, set: BPDC_BPDRST },
            Action::Modify { reg: Register::CrmBpdc, clear: BPDC_BPDRST, set: 0 },
        ]
    }

    /// The accesses that select the clock source, and switch it on first if it is not stable.
    pub open spec fn source_actions(source: ClockSource, bpdc: u32, ctrlsts: u32) -> Seq<Action> {
        match source {
            ClockSource::Lse(mode) => (if bits::any_set(bpdc, BPDC_LEXTSTBL) {
                seq![]
            } else {
                Self::lse_actions(mode)
            }) + seq![
                Action::Modify {
                    reg: Register::CrmBpdc,
                    clear: BPDC_ERTCSEL,
                    set: BPDC_ERTCSEL_LEXT,
                },
            ],
            ClockSource::Lsi => (if bits::any_set(ctrlsts, CTRLSTS_LICKSTBL) {
                seq![]
            } else {
                Self::lsi_actions()
            }) + seq![
                Action::Modify {
                    reg: Register::CrmBpdc,
                    clear: BPDC_ERTCSEL,
                    set: BPDC_ERTCSEL_LICK,
                },
            ],
        }
    }

    /// The accesses that bring the clock into service.
    pub open spec fn config_actions(
        source: ClockSource,
        divb: u16,
        prediv_a: u8,
        bpdc: u32,
        ctrlsts: u32,
    ) -> Seq<Action> {
        seq![
            Action::Enable { peripheral: Peripheral::Pwc },
            Action::Modify { reg: Register::PwcCtrl, clear: 0, set: PWC_BPWEN },
        ] + Self::source_actions(source, bpdc, ctrlsts) + seq![
            Action::Modify { reg: Register::CrmBpdc, clear: 0, set: BPDC_ERTCEN },
        ] + session(true, seq![ctrl_modify(CTRL_HM, 0), div_modify(divb, prediv_a)])
    }

    fn open(&self, bus: &mut Bus, init: bool)
        ensures
            final(bus)@ == old(bus)@ + opening(init),
    {
        bus.write(Register::ErtcWp, WP_KEY1);
        bus.write(Register::ErtcWp, WP_KEY2);
        if init {
            bus.post(
                Action::SetIfClear { reg: Register::ErtcSts, test: STS_IMF, set: STS_IMEN },
            );
            bus.wait(Register::ErtcSts, STS_IMF, STS_IMF);
        }
    }

    fn close(&self, bus: &mut Bus, init: bool)
        ensures
            final(bus)@ == old(bus)@ + closing(init),
    {
        if init {
            bus.modify(Register::ErtcSts, STS_IMEN, 0);
        }
        bus.wait(Register::ErtcSts, STS_IMF, 0);
        bus.write(Register::ErtcWp, WP_CLOSE);
    }

    fn modify_ctrl(&self, bus: &mut Bus, clear: u32, set: u32)
        ensures
            final(bus)@ == old(bus)@.push(ctrl_modify(clear, set)),
    {
        bus.modify(Register::ErtcCtrl, clear | CTRL_HOUR_STEPS, set);
    }

    fn clear_sts(&self, bus: &mut Bus, flags: u32)
        ensures
            final(bus)@ == old(bus)@.push(sts_clear(flags)),
    {
        bus.modify(Register::ErtcSts, flags, 0);
    }

    fn modify_div(&self, bus: &mut Bus, divb: u16, prediv_a: u8)
        ensures
            final(bus)@ == old(bus)@.push(div_modify(divb, prediv_a)),
    {
        bus.modify(
            Register::ErtcDiv,
            DIV_BOTH,
            bits::place(divb as u32, 0x7fff, 0) | bits::place(prediv_a as u32, 0x7f, 16),
        );
    }

    /// Brings the clock into service, driven by a crystal or ceramic resonator, with the factors
    /// that give a calendar clock of 1 Hz.
    ///
    /// `bpdc` and `ctrlsts` are the contents of the two registers of the clock manager.
    pub fn new(bus: &mut Bus, bpdc: u32, ctrlsts: u32) -> (rtc: Self)
        ensures
            rtc.source() == ClockSource::Lse(LSEClockMode::Oscillator),
            final(bus)@ == old(bus)@ + Self::config_actions(
                rtc.source(),
                255,
                127,
                bpdc,
                ctrlsts,
            ),
    {
        Self::with_config(bus, bpdc, ctrlsts, ClockSource::Lse(LSEClockMode::Oscillator), 255, 127)
    }

    /// Brings the clock into service with a clock source and factors of choice.
    ///
    /// A calendar clock of 1 Hz takes a `divb` of 255 (249 with the internal oscillator) and a
    /// `prediv_a` of 127.
    pub fn with_config(
        bus: &mut Bus,
        bpdc: u32,
        ctrlsts: u32,
        clock_source: ClockSource,
        divb: u16,
        prediv_a: u8,
    ) -> (rtc: Self)
        ensures
            rtc.source() == clock_source,
            final(bus)@ == old(bus)@ + Self::config_actions(
                clock_source,
                divb,
                prediv_a,
                bpdc,
                ctrlsts,
            ),
    {
        let mut rtc = Rtc { clock_source };
        rtc.unlock(bus);
        match clock_source {
            ClockSource::Lse(mode) => {
                if !bits::has(bpdc, BPDC_LEXTSTBL) {
                    rtc.enable_lse(bus, mode);
                }
                bus.modify(Register::CrmBpdc, BPDC_ERTCSEL, BPDC_ERTCSEL_LEXT);
            },
            ClockSource::Lsi => {
                if !bits::has(ctrlsts, CTRLSTS_LICKSTBL) {
                    rtc.enable_lsi(bus);
                }
                bus.modify(Register::CrmBpdc, BPDC_ERTCSEL, BPDC_ERTCSEL_LICK);
            },
        }
        rtc.enable(bus);
        rtc.open(bus, true);
        rtc.modify_ctrl(bus, CTRL_HM, 0);
        rtc.modify_div(bus, divb, prediv_a);
        rtc.close(bus, true);
        rtc
    }

    /// Brings the clock into service, driven by the internal oscillator, with the factors that give
    /// a calendar clock of 1 Hz.
    pub fn new_lsi(bus: &mut Bus, bpdc: u32, ctrlsts: u32) -> (rtc: Self)
        ensures
            rtc.source() == ClockSource::Lsi,
            final(bus)@ == old(bus)@ + Self::config_actions(
                ClockSource::Lsi,
                249,
                127,
                bpdc,
                ctrlsts,
            ),
    {
        Self::with_config(bus, bpdc, ctrlsts, ClockSource::Lsi, 249, 127)
    }

    /// Brings the clock into service, driven by the internal oscillator, with factors of choice.
    pub fn lsi_with_config(
        bus: &mut Bus,
        bpdc: u32,
        ctrlsts: u32,
        divb: u16,
        prediv_a: u8,
    ) -> (rtc: Self)
        ensures
            rtc.source() == ClockSource::Lsi,
            final(bus)@ == old(bus)@ + Self::config_actions(
                ClockSource::Lsi,
                divb,
                prediv_a,
                bpdc,
                ctrlsts,
            ),
    {
        Self::with_config(bus, bpdc, ctrlsts, ClockSource::Lsi, divb, prediv_a)
    }

    fn enable_lse(&mut self, bus: &mut Bus, mode: LSEClockMode)
        ensures
            *final(self) == *old(self),
            final(bus)@ == old(bus)@ + Self::lse_actions(mode),
    {
        self.backup_reset(bus);
        bus.modify(Register::CrmBpdc, 0, BPDC_LEXTEN);
        match mode {
            LSEClockMode::Bypass => bus.modify(Register::CrmBpdc, 0, BPDC_LEXTBYPS),
            LSEClockMode::Oscillator => bus.modify(Register::CrmBpdc, BPDC_LEXTBYPS, 0),
        }
        bus.wait(Register::CrmBpdc, BPDC_LEXTSTBL, BPDC_LEXTSTBL);
    }

    fn enable_lsi(&mut self, bus: &mut Bus)
        ensures
            *final(self) == *old(self),
            final(bus)@ == old(bus)@ + Self::lsi_actions(),
    {
        self.backup_reset(bus);
        bus.modify(Register::CrmCtrlsts, 0, CTRLSTS_LICKEN);
        bus.wait(Register::CrmCtrlsts, CTRLSTS_LICKSTBL, CTRLSTS_LICKSTBL);
    }

    fn unlock(&mut self, bus: &mut Bus)
        ensures
            *final(self) == *old(self),
            final(bus)@ == old(bus)@ + seq![
                Action::Enable { peripheral: Peripheral::Pwc },
                Action::Modify { reg: Register::PwcCtrl, clear: 0, set: PWC_BPWEN },
            ],
    {
        bus.post(Action::Enable { peripheral: Peripheral::Pwc });
        bus.modify(Register::PwcCtrl, 0, PWC_BPWEN);
    }

    fn backup_reset(&mut self, bus: &mut Bus)
        ensures
            *final(self) == *old(self),
            final(bus)@ == old(bus)@ + Self::backup_reset_actions(),
    {
        bus.modify(Register::CrmBpdc, 0, BPDC_BPDRST);
        bus.modify(Register::CrmBpdc, BPDC_BPDRST, 0);
    }

    fn enable(&mut self, bus: &mut Bus)
        ensures
            *final(self) == *old(self),
            final(bus)@ == old(bus)@.push(
                Action::Modify { reg: Register::CrmBpdc, clear: 0, set: BPDC_ERTCEN },
            ),
    {
        bus.modify(Register::CrmBpdc, 0, BPDC_ERTCEN);
    }

    /// Sets both factors of the divider.
    pub fn set_prescalers(&mut self, bus: &mut Bus, divb: u16, prediv_a: u8)
        ensures
            *final(self) == *old(self),
            final(bus)@ == old(bus)@ + session(true, seq![div_modify(divb, prediv_a)]),
    {
        self.open(bus, true);
        self.modify_div(bus, divb, prediv_a);
        self.close(bus, true);
    }

    /// Sets the time of day; the nanoseconds are not kept.
    pub fn set_time(&mut self, bus: &mut Bus, time: &NaiveTime) -> (done: Result<(), Error>)
        requires
            time.on_the_clock(),
        ensures
            done is Ok,
            *final(self) == *old(self),
            final(bus)@ == old(bus)@ + session(
                true,
                seq![Action::Write { reg: Register::ErtcTime, value: time_word(*time) }],
            ),
    {
        let word: u32 = encode_time(time)?;
        self.open(bus, true);
        bus.write(Register::ErtcTime, word);
        self.close(bus, true);
        Ok(())
    }

    /// Sets the seconds, 0 to 59.
    pub fn set_seconds(&mut self, bus: &mut Bus, seconds: u8) -> (done: Result<(), Error>)
        ensures
            *final(self) == *old(self),
            seconds_set(seconds, done, old(bus)@, final(bus)@),
    {
        if seconds > 59 {
            return Err(Error::InvalidInputData);
        }
        let word: u32 = encode_seconds(seconds as u32)?;
        self.open(bus, true);
        bus.modify(Register::ErtcTime, TIME_SECONDS, word);
        self.close(bus, true);
        Ok(())
    }

    /// Sets the minutes, 0 to 59.
    pub fn set_minutes(&mut self, bus: &mut Bus, minutes: u8) -> (done: Result<(), Error>)
        ensures
            *final(self) == *old(self),
            minutes_set(minutes, done, old(bus)@, final(bus)@),
    {
        if minutes > 59 {
            return Err(Error::InvalidInputData);
        }
        let word: u32 = encode_minutes(minutes as u32)?;
        self.open(bus, true);
        bus.modify(Register::ErtcTime, TIME_MINUTES, word);
        self.close(bus, true);
        Ok(())
    }

    /// Sets the hours, 0 to 23.
    pub fn set_hours(&mut self, bus: &mut Bus, hours: u8) -> (done: Result<(), Error>)
        ensures
            *final(self) == *old(self),
            hours_set(hours, done, old(bus)@, final(bus)@),
    {
        if hours > 23 {
            return Err(Error::InvalidInputData);
        }
        let word: u32 = encode_hours(hours as u32)?;
        self.open(bus, true);
        bus.modify(Register::ErtcTime, TIME_HOURS, word);
        self.close(bus, true);
        Ok(())
    }

    /// Sets the day of the week, 1 to 7.
    pub fn set_weekday(&mut self, bus: &mut Bus, weekday: u8) -> (done: Result<(), Error>)
        ensures
            *final(self) == *old(self),
            weekday_set(weekday, done, old(bus)@, final(bus)@),
    {
        if weekday < 1 || weekday > 7 {
            return Err(Error::InvalidInputData);
        }
        self.open(bus, true);
        bus.modify(Register::ErtcDate, DATE_WEEKDAY, bits::place(weekday as u32, 7, 13));
        self.close(bus, true);
        Ok(())
    }

    /// Sets the day of the month, 1 to 31.
    pub fn set_day(&mut self, bus: &mut Bus, day: u8) -> (done: Result<(), Error>)
        ensures
            *final(self) == *old(self),
            day_set(day, done, old(bus)@, final(bus)@),
    {
        if day < 1 || day > 31 {
            return Err(Error::InvalidInputData);
        }
        let word: u32 = encode_day(day as u32)?;
        self.open(bus, true);
        bus.modify(Register::ErtcDate, DATE_DAY, word);
        self.close(bus, true);
        Ok(())
    }

    /// Sets the month, 1 to 12.
    pub fn set_month(&mut self, bus: &mut Bus, month: u8) -> (done: Result<(), Error>)
        ensures
            *final(self) == *old(self),
            month_set(month, done, old(bus)@, final(bus)@),
    {
        if month < 1 || month > 12 {
            return Err(Error::InvalidInputData);
        }
        let word: u32 = encode_month(month as u32)?;
        self.open(bus, true);
        bus.modify(Register::ErtcDate, DATE_MONTH, word);
        self.close(bus, true);
        Ok(())
    }

    /// Sets the year, 1970 to 2069.
    pub fn set_year(&mut self, bus: &mut Bus, year: u16) -> (done: Result<(), Error>)
        ensures
            *final(self) == *old(self),
            year_set(year, done, old(bus)@, final(bus)@),
    {
        if year < 1970 || year > 2069 {
            return Err(Error::InvalidInputData);
        }
        let word: u32 = encode_year(year as u32 - 1970)?;
        self.open(bus, true);
        bus.modify(Register::ErtcDate, DATE_YEAR, word);
        self.close(bus, true);
        Ok(())
    }

    /// Sets the date, between 1970 and 2069.
    pub fn set_date(&mut self, bus: &mut Bus, date: &NaiveDate) -> (done: Result<(), Error>)
        requires
            date.wf(),
        ensures
            *final(self) == *old(self),
            date_set(*date, done, old(bus)@, final(bus)@),
    {
        if date.year < 1970 || date.year > 2069 {
            return Err(Error::InvalidInputData);
        }
        let word: u32 = encode_date(date)?;
        self.open(bus, true);
        bus.write(Register::ErtcDate, word);
        self.close(bus, true);
        Ok(())
    }

    /// Sets date, between 1970 and 2069, and time of day.
    pub fn set_datetime(&mut self, bus: &mut Bus, date: &NaiveDateTime) -> (done: Result<
        (),
        Error,
    >)
        requires
            date.date.wf(),
            date.time.on_the_clock(),
        ensures
            *final(self) == *old(self),
            datetime_set(*date, done, old(bus)@, final(bus)@),
    {
        if date.date.year < 1970 || date.date.year > 2069 {
            return Err(Error::InvalidInputData);
        }
        let date_word: u32 = encode_date(&date.date)?;
        let time_word: u32 = encode_time(&date.time)?;
        self.open(bus, true);
        bus.write(Register::ErtcDate, date_word);
        bus.write(Register::ErtcTime, time_word);
        self.close(bus, true);
        Ok(())
    }

    /// Samples the calendar once its registers are synchronised: subseconds, time and date, in this
    /// order, and the divider.
    pub fn sample_datetime(&mut self, bus: &mut Bus)
        ensures
            *final(self) == *old(self),
            final(bus)@ == old(bus)@ + sample_datetime_actions(),
    {
        bus.wait(Register::ErtcSts, STS_UPDF, STS_UPDF);
        // Reading the subseconds or the time locks the registers that follow until the date is
        // read.
        bus.sample(Register::ErtcSbs);
        bus.sample(Register::ErtcTime);
        bus.sample(Register::ErtcDate);
        // Two reads may follow one another faster than the registers are synchronised.
        self.clear_sts(bus, STS_UPDF);
        bus.sample(Register::ErtcDiv);
    }

    /// The date and time in a sample of the calendar, if there is one.
    pub fn get_datetime(&self, sample: &CalendarSample) -> (datetime: Option<NaiveDateTime>)
        ensures
            datetime == sample.datetime(),
    {
        decode_datetime(sample.sbs, sample.time, sample.date, sample.date, sample.div)
    }

    /// The clock selection and the reload value of the wakeup timer for an interval, if the timer
    /// can count it.
    pub fn wakeup_setting(&self, interval: Micros) -> (setting: Option<(u32, u16)>)
        ensures
            setting == wakeup_setting_of(self.source(), interval),
    {
        if interval < 32_000_000 {
            let frequency: u64 = (self.clock_source.frequency() / 2) as u64;
            let tick: u64 = rate::period(frequency);
            assert(tick == if self.source() == ClockSource::Lsi { 62u64 } else { 61u64 }) by {
                assert(1_000_000u64 / 16_384u64 == 61);
                assert(1_000_000u64 / 16_000u64 == 62);
            }
            let ticks: u64 = interval / tick;
            assert(interval / tick < 0x10_0000) by (nonlinear_arith)
                requires
                    interval < 32_000_000,
                    tick == 61 || tick == 62,
            ;
            if ticks == 0 {
                return None;
            }
            let mut prescaler: u32 = 0;
            let mut count: u64 = ticks;
            while count > WAKEUP_TICKS
                invariant
                    ticks < 0x10_0000,
                    0 < ticks,
                    prescaler <= 4,
                    prescaler == 0 ==> count == ticks,
                    prescaler == 1 ==> count == ticks / 2 && ticks > WAKEUP_TICKS,
                    prescaler == 2 ==> count == ticks / 4 && ticks / 2 > WAKEUP_TICKS,
                    prescaler == 3 ==> count == ticks / 8 && ticks / 4 > WAKEUP_TICKS,
                    prescaler == 4 ==> count == ticks / 16 && ticks / 8 > WAKEUP_TICKS,
                decreases count,
            {
                count = count / 2;
                prescaler = prescaler + 1;
            }
            if prescaler <= 3 {
                return Some((3 - prescaler, (count - 1) as u16));
            }
            assert(ticks >= 0x8_0000);
            assert(interval >= 31_000_000) by (nonlinear_arith)
                requires
                    ticks == interval / tick,
                    ticks >= 0x8_0000,
                    tick == 61 || tick == 62,
            ;
        }
        // The calendar clock of 1 Hz counts what is too long for the ticks.
        let seconds: u64 = rate::whole_seconds(interval);
        if interval > 131_071_000_000 {
            None
        } else if seconds > 0x1_0000 {
            Some((6u32, (seconds - 0x1_0001) as u16))
        } else {
            Some((4u32, (seconds - 1) as u16))
        }
    }

    /// Has the wakeup timer run down every `interval`.
    ///
    /// The interval is one for which [`Rtc::wakeup_setting`] finds a setting: at least one tick, and
    /// at most 2^17 - 1 seconds.
    pub fn enable_wakeup(&mut self, bus: &mut Bus, interval: Micros)
        requires
            wakeup_setting_of(old(self).source(), interval) is Some,
        ensures
            *final(self) == *old(self),
            final(bus)@ == old(bus)@ + enable_wakeup_actions(
                wakeup_setting_of(old(self).source(), interval)->Some_0,
            ),
    {
        if let Some((watclk, wat)) = self.wakeup_setting(interval) {
            self.open(bus, false);
            self.modify_ctrl(bus, CTRL_WATEN, 0);
            self.clear_sts(bus, STS_WATF);
            bus.wait(Register::ErtcSts, STS_WATWF, STS_WATWF);
            self.modify_ctrl(bus, CTRL_WATCLK, watclk);
            bus.write(Register::ErtcWat, wat as u32);
            self.modify_ctrl(bus, 0, CTRL_WATEN);
            self.close(bus, false);
        }
    }

    /// Disables the wakeup timer.
    pub fn disable_wakeup(&mut self, bus: &mut Bus)
        ensures
            *final(self) == *old(self),
            final(bus)@ == old(bus)@ + disable_wakeup_actions(),
    {
        self.open(bus, false);
        self.modify_ctrl(bus, CTRL_WATEN, 0);
        self.clear_sts(bus, STS_WATF);
        self.close(bus, false);
    }

    /// Has a time stamp taken when the clock switches to battery power.
    pub fn enable_vbat_timestamp(&mut self, bus: &mut Bus)
        ensures
            *final(self) == *old(self),
            final(bus)@ == old(bus)@ + enable_timestamp_actions(),
    {
        self.open(bus, false);
        self.modify_ctrl(bus, CTRL_TSEN, 0);
        self.clear_sts(bus, STS_TSF);
        self.modify_ctrl(bus, 0, CTRL_TSEN);
        self.close(bus, false);
    }

    /// Disables time stamps.
    pub fn disable_timestamp(&mut self, bus: &mut Bus)
        ensures
            *final(self) == *old(self),
            final(bus)@ == old(bus)@ + disable_timestamp_actions(),
    {
        self.open(bus, false);
        self.modify_ctrl(bus, CTRL_TSEN, 0);
        self.clear_sts(bus, STS_TSF);
        self.close(bus, false);
    }

    /// Samples the time stamp, with the date and the divider, and clears the flags of the time
    /// stamp.
    pub fn sample_timestamp(&self, bus: &mut Bus)
        ensures
            final(bus)@ == old(bus)@ + sample_timestamp_actions(),
    {
        bus.wait(Register::ErtcSts, STS_UPDF, STS_UPDF);
        bus.sample(Register::ErtcTssbs);
        bus.sample(Register::ErtcTstm);
        bus.sample(Register::ErtcTsdt);
        // A time stamp has no year.
        bus.sample(Register::ErtcDate);
        bus.sample(Register::ErtcDiv);
        self.clear_sts(bus, STS_TSF | STS_TSOF);
    }

    /// The date and time in a sample of the time stamp, if there is one.
    pub fn read_timestamp(&self, sample: &TimestampSample) -> (datetime: Option<NaiveDateTime>)
        ensures
            datetime == sample.datetime(),
    {
        decode_datetime(
            (sample.tssbs & 0xffff) as u16,
            sample.tstm,
            sample.tsdt,
            sample.date,
            sample.div,
        )
    }

    /// Sets the day and the time at which an alarm occurs, and clears the flag of the alarm.
    ///
    /// Weekdays have the numbers that the calendar gives them, from 1 for Monday to 7 for Sunday.
    pub fn set_alarm(
        &mut self,
        bus: &mut Bus,
        alarm: Alarm,
        date: AlarmDay,
        time: NaiveTime,
    ) -> (done: Result<(), Error>)
        requires
            time.on_the_clock(),
            date matches AlarmDay::Date(d) ==> d.wf(),
        ensures
            done is Ok,
            *final(self) == *old(self),
            final(bus)@ == old(bus)@ + set_alarm_actions(alarm, date, time),
    {
        let day: u32 = match date {
            AlarmDay::Date(date) => {
                let (dt, du) = bcd2_encode(date.day)?;
                bits::place(dt as u32, 3, 28) | bits::place(du as u32, 0xf, 24)
            },
            AlarmDay::Weekday(weekday) => ALARM_WKSEL | bits::place(
                weekday.num_days_from_monday() as u32 + 1,
                0xf,
                24,
            ),
            AlarmDay::EveryDay => ALARM_MASK4,
        };
        let time: u32 = encode_time(&time)?;
        let (enable, flag, ready, reg) = match alarm {
            Alarm::AlarmA => (CTRL_ALAEN, STS_ALAF, STS_ALAWF, Register::ErtcAla),
            Alarm::AlarmB => (CTRL_ALBEN, STS_ALBF, STS_ALBWF, Register::ErtcAlb),
        };
        self.open(bus, false);
        bus.modify(Register::ErtcCtrl, enable, 0);
        self.clear_sts(bus, flag);
        bus.wait(Register::ErtcSts, ready, ready);
        bus.modify(reg, ALARM_ALL, day | time);
        bus.modify(Register::ErtcCtrl, 0, enable);
        self.close(bus, false);
        Ok(())
    }

    /// Starts to listen for `event`.
    pub fn listen(&mut self, bus: &mut Bus, event: Event)
        ensures
            *final(self) == *old(self),
            final(bus)@ == old(bus)@ + listen_actions(event),
    {
        let (line, enable) = match event {
            Event::AlarmA => (LINE_ALARM, CTRL_ALAIEN),
            Event::AlarmB => (LINE_ALARM, CTRL_ALBIEN),
            Event::Wakeup => (LINE_WAKEUP, CTRL_WATIEN),
            Event::Timestamp => (LINE_TIMESTAMP, CTRL_TSIEN),
        };
        self.open(bus, false);
        bus.modify(Register::ExintPolcfg1, 0, line);
        bus.modify(Register::ExintInten, 0, line);
        self.modify_ctrl(bus, 0, enable);
        self.close(bus, false);
    }

    /// Stops to listen for `event`.
    pub fn unlisten(&mut self, bus: &mut Bus, event: Event)
        ensures
            *final(self) == *old(self),
            final(bus)@ == old(bus)@ + unlisten_actions(event),
    {
        let (line, enable) = match event {
            Event::AlarmA => (LINE_ALARM, CTRL_ALAIEN),
            Event::AlarmB => (LINE_ALARM, CTRL_ALBIEN),
            Event::Wakeup => (LINE_WAKEUP, CTRL_WATIEN),
            Event::Timestamp => (LINE_TIMESTAMP, CTRL_TSIEN),
        };
        self.open(bus, false);
        self.modify_ctrl(bus, enable, 0);
        bus.modify(Register::ExintInten, line, 0);
        bus.modify(Register::ExintPolcfg1, line, 0);
        self.close(bus, false);
    }

    /// Tells from the status register whether `event` is pending.
    pub fn is_pending(&self, sts: u32, event: Event) -> (pending: bool)
        ensures
            pending == event.pending(sts),
    {
        match event {
            Event::AlarmA => bits::has(sts, STS_ALAF),
            Event::AlarmB => bits::has(sts, STS_ALBF),
            Event::Wakeup => bits::has(sts, STS_WATF),
            Event::Timestamp => bits::has(sts, STS_TSF),
        }
    }

    /// Clears the flag of `event` and that of its external interrupt line.
    pub fn clear_interrupt(&mut self, bus: &mut Bus, event: Event)
        ensures
            *final(self) == *old(self),
            final(bus)@ == old(bus)@ + clear_interrupt_actions(event),
    {
        match event {
            Event::AlarmA => {
                self.clear_sts(bus, STS_ALAF);
                bus.write(Register::ExintIntsts, LINE_ALARM);
            },
            Event::AlarmB => {
                self.clear_sts(bus, STS_ALBF);
                bus.write(Register::ExintIntsts, LINE_ALARM);
            },
            Event::Wakeup => {
                self.clear_sts(bus, STS_WATF);
                bus.write(Register::ExintIntsts, LINE_WAKEUP);
            },
            Event::Timestamp => {
                self.clear_sts(bus, STS_TSF);
                bus.write(Register::ExintIntsts, LINE_TIMESTAMP);
            },
        }
    }
}

} // verus!
