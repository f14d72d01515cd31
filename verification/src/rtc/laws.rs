//! What holds of the real time clock as a whole.
use crate::bits;
use crate::bus;
use crate::bus::{Action, Register};
use crate::calendar::{NaiveDate, NaiveDateTime, NaiveTime, Weekday};
use crate::rate::Micros;
use crate::rtc;
use crate::rtc::{Alarm, AlarmDay, ClockSource, Event, Rtc};
use vstd::prelude::*;

verus! {

pub(crate) proof fn lemma_time_digits(ht: u32, hu: u32, mt: u32, mu: u32, st: u32, su: u32)
    by (bit_vector)
    requires
        ht <= 3,
        hu <= 15,
        mt <= 7,
        mu <= 15,
        st <= 7,
        su <= 15,
    ensures
        ({
            let word = ((bits::placed(ht, 3, 20) | bits::placed(hu, 0xf, 16)) | (bits::placed(
                mt,
                7,
                12,
            ) | bits::placed(mu, 0xf, 8))) | (bits::placed(st, 7, 4) | bits::placed(su, 0xf, 0));
            &&& bits::field(word, 3, 20) == ht
            &&& bits::field(word, 0xf, 16) == hu
            &&& bits::field(word, 7, 12) == mt
            &&& bits::field(word, 0xf, 8) == mu
            &&& bits::field(word, 7, 4) == st
            &&& bits::field(word, 0xf, 0) == su
            &&& word & !0x003f_7f7fu32 == 0
        }),
{
}

pub(crate) proof fn lemma_date_digits(yt: u32, yu: u32, wk: u32, tens: u32, mu: u32, dt: u32, du: u32)
    by (bit_vector)
    requires
        yt <= 15,
        yu <= 15,
        wk <= 7,
        tens <= 1,
        mu <= 15,
        dt <= 3,
        du <= 15,
    ensures
        ({
            let word = (bits::placed(yt, 0xf, 20) | bits::placed(yu, 0xf, 16)) | bits::placed(
                wk,
                7,
                13,
            ) | (bits::when(tens > 0, 0x1000) | bits::placed(mu, 0xf, 8)) | (bits::placed(dt, 3, 4)
                | bits::placed(du, 0xf, 0));
            &&& bits::field(word, 0xf, 20) == yt
            &&& bits::field(word, 0xf, 16) == yu
            &&& bits::field(word, 7, 13) == wk
            &&& bits::field(word, 1, 12) == tens
            &&& bits::field(word, 0xf, 8) == mu
            &&& bits::field(word, 3, 4) == dt
            &&& bits::field(word, 0xf, 0) == du
            &&& word & !0x00ff_ff3fu32 == 0
        }),
{
}

/// A time of day reads back from its time word.
pub proof fn law_time_reads_back(time: NaiveTime)
    requires
        time.on_the_clock(),
    ensures
        rtc::hours_of(rtc::time_word(time)) == time.hour,
        rtc::minutes_of(rtc::time_word(time)) == time.minute,
        rtc::seconds_of(rtc::time_word(time)) == time.second,
{
    lemma_time_digits(
        time.hour / 10,
        time.hour % 10,
        time.minute / 10,
        time.minute % 10,
        time.second / 10,
        time.second % 10,
    );
}

/// A date that the clock can keep, and its weekday, read back from its date word.
pub proof fn law_date_reads_back(date: NaiveDate)
    requires
        date.wf(),
        1970 <= date.year <= 2069,
    ensures
        rtc::year_of(rtc::date_word(date)) == date.year,
        rtc::month_of(rtc::date_word(date)) == date.month,
        rtc::day_of(rtc::date_word(date)) == date.day,
        rtc::weekday_of(rtc::date_word(date)) == date.weekday_number(),
{
    let years = (date.year - 1970) as u32;
    lemma_date_digits(
        years / 10,
        years % 10,
        date.weekday_number() as u32,
        date.month / 10,
        date.month % 10,
        date.day / 10,
        date.day % 10,
    );
}

/// A session leaves the registers closed for writing. Beside the write protection and the status it
/// changes only what its body changes.
pub proof fn law_session_closes(init: bool, body: Seq<Action>, reg: Register, word: u32)
    ensures
        bus::replayed(rtc::session(init, body), Register::ErtcWp, word) == rtc::WP_CLOSE,
        reg != Register::ErtcWp && reg != Register::ErtcSts ==> bus::replayed(
            rtc::session(init, body),
            reg,
            word,
        ) == bus::replayed(body, reg, word),
{
    reveal_with_fuel(bus::replayed, 5);
    let opening = rtc::opening(init);
    let closing = rtc::closing(init);
    lemma_session_splits(init, body, reg, word);
    lemma_session_splits(init, body, Register::ErtcWp, word);
    assert(closing.last() == (Action::Write { reg: Register::ErtcWp, value: rtc::WP_CLOSE }));
    if reg != Register::ErtcWp && reg != Register::ErtcSts {
        bus::law_replay_leaves_alone(opening, reg, word);
        bus::law_replay_leaves_alone(
            closing,
            reg,
            bus::replayed(body, reg, bus::replayed(opening, reg, word)),
        );
    }
}

pub(crate) proof fn lemma_session_splits(init: bool, body: Seq<Action>, reg: Register, word: u32)
    ensures
        bus::replayed(rtc::session(init, body), reg, word) == bus::replayed(
            rtc::closing(init),
            reg,
            bus::replayed(body, reg, bus::replayed(rtc::opening(init), reg, word)),
        ),
{
    bus::law_replay_concatenates(rtc::opening(init) + body, rtc::closing(init), reg, word);
    bus::law_replay_concatenates(rtc::opening(init), body, reg, word);
}

/// A session that stopped the calendar asks for it to run again.
pub proof fn law_session_restarts_the_calendar(body: Seq<Action>, word: u32)
    ensures
        !bits::any_set(
            bus::replayed(rtc::session(true, body), Register::ErtcSts, word),
            rtc::STS_IMEN,
        ),
{
    reveal_with_fuel(bus::replayed, 5);
    lemma_session_splits(true, body, Register::ErtcSts, word);
    let before = bus::replayed(
        body,
        Register::ErtcSts,
        bus::replayed(rtc::opening(true), Register::ErtcSts, word),
    );
    let closing = rtc::closing(true);
    assert(closing.drop_last().drop_last() == seq![rtc::sts_clear(rtc::STS_IMEN)]);
    bits::law_modify_stores(before, rtc::STS_IMEN, 0);
    bits::law_zero_changes_nothing(rtc::STS_IMEN);
}

pub(crate) proof fn lemma_nano(sbs: u16, divb: u32)
    requires
        sbs <= divb,
    ensures
        0 <= (divb - sbs) * 100_000 / (divb + 1) * 10_000 < 1_000_000_000,
{
    let elapsed: int = divb - sbs;
    let steps: int = divb + 1;
    assert(0 <= elapsed * 100_000 / steps < 100_000) by (nonlinear_arith)
        requires
            0 <= elapsed < steps,
    ;
}

/// What was set as date and time is what is read: the calendar registers give back the date, the
/// hour, the minute and the second, and the subsecond counter gives the rest.
pub proof fn law_set_datetime_reads_back(
    datetime: NaiveDateTime,
    time_before: u32,
    date_before: u32,
    sbs: u16,
    div: u32,
)
    requires
        datetime.date.wf(),
        datetime.time.on_the_clock(),
        1970 <= datetime.date.year <= 2069,
        sbs <= bits::field(div, 0x7fff, 0),
    ensures
        ({
            let actions = rtc::set_datetime_actions(datetime);
            let time = bus::replayed(actions, Register::ErtcTime, time_before);
            let date = bus::replayed(actions, Register::ErtcDate, date_before);
            let divb = bits::field(div, 0x7fff, 0);
            rtc::registers_datetime(sbs, time, date, date, div) == Some(
                NaiveDateTime {
                    date: datetime.date,
                    time: NaiveTime {
                        hour: datetime.time.hour,
                        minute: datetime.time.minute,
                        second: datetime.time.second,
                        nano: ((divb - sbs) * 100_000 / (divb + 1) * 10_000) as u32,
                    },
                },
            )
        }),
{
    reveal_with_fuel(bus::replayed, 3);
    let body = seq![
        Action::Write { reg: Register::ErtcDate, value: rtc::date_word(datetime.date) },
        Action::Write { reg: Register::ErtcTime, value: rtc::time_word(datetime.time) },
    ];
    law_session_closes(true, body, Register::ErtcTime, time_before);
    law_session_closes(true, body, Register::ErtcDate, date_before);
    assert(body.drop_last() == seq![body[0]]);
    law_time_reads_back(datetime.time);
    law_date_reads_back(datetime.date);
    lemma_nano(sbs, bits::field(div, 0x7fff, 0));
}

proof fn lemma_time_parts(word: u32, tens: u32, units: u32)
    by (bit_vector)
    requires
        tens <= 7,
        units <= 15,
    ensures
        ({
            let after = bits::modified(
                word,
                0x7f,
                bits::placed(tens, 7, 4) | bits::placed(units, 0xf, 0),
            );
            &&& bits::field(after, 7, 4) == tens && bits::field(after, 0xf, 0) == units
            &&& after & !0x7fu32 == word & !0x7fu32
        }),
        ({
            let after = bits::modified(
                word,
                0x7f00,
                bits::placed(tens, 7, 12) | bits::placed(units, 0xf, 8),
            );
            &&& bits::field(after, 7, 12) == tens && bits::field(after, 0xf, 8) == units
            &&& after & !0x7f00u32 == word & !0x7f00u32
        }),
        tens <= 3 ==> ({
            let after = bits::modified(
                word,
                0x003f_0000,
                bits::placed(tens, 3, 20) | bits::placed(units, 0xf, 16),
            );
            &&& bits::field(after, 3, 20) == tens && bits::field(after, 0xf, 16) == units
            &&& after & !0x003f_0000u32 == word & !0x003f_0000u32
        }),
{
}

proof fn lemma_date_parts(word: u32, tens: u32, units: u32)
    by (bit_vector)
    requires
        tens <= 15,
        units <= 15,
    ensures
        tens <= 3 ==> ({
            let after = bits::modified(
                word,
                0x3f,
                bits::placed(tens, 3, 4) | bits::placed(units, 0xf, 0),
            );
            &&& bits::field(after, 3, 4) == tens && bits::field(after, 0xf, 0) == units
            &&& after & !0x3fu32 == word & !0x3fu32
        }),
        tens <= 1 ==> ({
            let after = bits::modified(
                word,
                0x1f00,
                bits::when(tens > 0, 0x1000) | bits::placed(units, 0xf, 8),
            );
            &&& bits::field(after, 1, 12) == tens && bits::field(after, 0xf, 8) == units
            &&& after & !0x1f00u32 == word & !0x1f00u32
        }),
        units <= 7 ==> ({
            let after = bits::modified(word, 0xe000, bits::placed(units, 7, 13));
            &&& bits::field(after, 7, 13) == units
            &&& after & !0xe000u32 == word & !0xe000u32
        }),
        ({
            let after = bits::modified(
                word,
                0x00ff_0000,
                bits::placed(tens, 0xf, 20) | bits::placed(units, 0xf, 16),
            );
            &&& bits::field(after, 0xf, 20) == tens && bits::field(after, 0xf, 16) == units
            &&& after & !0x00ff_0000u32 == word & !0x00ff_0000u32
        }),
{
}

/// Setting the seconds makes them read back and keeps every other bit of the time register.
pub proof fn law_set_seconds(seconds: u8, word: u32)
    requires
        seconds <= 59,
    ensures
        ({
            let after = bus::stored(rtc::set_seconds_action(seconds), Register::ErtcTime, word);
            &&& rtc::seconds_of(after) == seconds
            &&& after & !rtc::TIME_SECONDS == word & !rtc::TIME_SECONDS
        }),
{
    lemma_time_parts(word, (seconds as u32) / 10, (seconds as u32) % 10);
}

/// Setting the minutes makes them read back and keeps every other bit of the time register.
pub proof fn law_set_minutes(minutes: u8, word: u32)
    requires
        minutes <= 59,
    ensures
        ({
            let after = bus::stored(rtc::set_minutes_action(minutes), Register::ErtcTime, word);
            &&& rtc::minutes_of(after) == minutes
            &&& after & !rtc::TIME_MINUTES == word & !rtc::TIME_MINUTES
        }),
{
    lemma_time_parts(word, (minutes as u32) / 10, (minutes as u32) % 10);
}

/// Setting the hours makes them read back and keeps every other bit of the time register.
pub proof fn law_set_hours(hours: u8, word: u32)
    requires
        hours <= 23,
    ensures
        ({
            let after = bus::stored(rtc::set_hours_action(hours), Register::ErtcTime, word);
            &&& rtc::hours_of(after) == hours
            &&& after & !rtc::TIME_HOURS == word & !rtc::TIME_HOURS
        }),
{
    lemma_time_parts(word, (hours as u32) / 10, (hours as u32) % 10);
}

/// Setting the weekday makes it read back and keeps every other bit of the date register.
pub proof fn law_set_weekday(weekday: u8, word: u32)
    requires
        1 <= weekday <= 7,
    ensures
        ({
            let after = bus::stored(rtc::set_weekday_action(weekday), Register::ErtcDate, word);
            &&& rtc::weekday_of(after) == weekday
            &&& after & !rtc::DATE_WEEKDAY == word & !rtc::DATE_WEEKDAY
        }),
{
    lemma_date_parts(word, 0, weekday as u32);
}

/// Setting the day makes it read back and keeps every other bit of the date register.
pub proof fn law_set_day(day: u8, word: u32)
    requires
        1 <= day <= 31,
    ensures
        ({
            let after = bus::stored(rtc::set_day_action(day), Register::ErtcDate, word);
            &&& rtc::day_of(after) == day
            &&& after & !rtc::DATE_DAY == word & !rtc::DATE_DAY
        }),
{
    lemma_date_parts(word, (day as u32) / 10, (day as u32) % 10);
}

/// Setting the month makes it read back and keeps every other bit of the date register.
pub proof fn law_set_month(month: u8, word: u32)
    requires
        1 <= month <= 12,
    ensures
        ({
            let after = bus::stored(rtc::set_month_action(month), Register::ErtcDate, word);
            &&& rtc::month_of(after) == month
            &&& after & !rtc::DATE_MONTH == word & !rtc::DATE_MONTH
        }),
{
    lemma_date_parts(word, (month as u32) / 10, (month as u32) % 10);
}

/// Setting the year makes it read back and keeps every other bit of the date register.
pub proof fn law_set_year(year: u16, word: u32)
    requires
        1970 <= year <= 2069,
    ensures
        ({
            let after = bus::stored(rtc::set_year_action(year), Register::ErtcDate, word);
            &&& rtc::year_of(after) == year
            &&& after & !rtc::DATE_YEAR == word & !rtc::DATE_YEAR
        }),
{
    let years = (year - 1970) as u32;
    lemma_date_parts(word, years / 10, years % 10);
}

proof fn lemma_event_bits()
    by (bit_vector)
    ensures
        rtc::CTRL_ALAEN & rtc::CTRL_ALBEN == 0,
        rtc::STS_ALAF & rtc::STS_ALBF == 0,
        rtc::STS_ALAF & rtc::STS_WATF == 0,
        rtc::STS_ALAF & rtc::STS_TSF == 0,
        rtc::STS_ALBF & rtc::STS_WATF == 0,
        rtc::STS_ALBF & rtc::STS_TSF == 0,
        rtc::STS_WATF & rtc::STS_TSF == 0,
        forall|a: u32, b: u32| #[trigger] (a & b) == b & a,
        forall|a: u32| #[trigger] (a | 0) == a,
        forall|a: u32| #[trigger] (0 | a) == a,
        forall|a: u32| #[trigger] (a & !0u32) == a,
{
}

/// Once the interrupt of an event is cleared the event is pending no more, and every other event is
/// pending as before.
pub proof fn law_cleared_event_is_not_pending(event: Event, other: Event, sts: u32)
    requires
        event != other,
    ensures
        ({
            let after = bus::replayed(
                rtc::clear_interrupt_actions(event),
                Register::ErtcSts,
                sts,
            );
            &&& !bits::any_set(after, event.flag())
            &&& bits::any_set(after, other.flag()) == bits::any_set(sts, other.flag())
        }),
{
    reveal_with_fuel(bus::replayed, 3);
    let actions = rtc::clear_interrupt_actions(event);
    assert(actions.drop_last() == seq![actions[0]]);
    lemma_event_bits();
    bits::law_modify_stores(sts, event.flag(), 0);
    bits::law_modify_keeps_other_bits(sts, event.flag(), 0, other.flag());
}

/// Listening for an event lets it through, at its line and at the clock.
pub proof fn law_listen_lets_through(event: Event, ctrl: u32, inten: u32, polcfg1: u32)
    ensures
        ({
            let actions = rtc::listen_actions(event);
            let ctrl_after = bus::replayed(actions, Register::ErtcCtrl, ctrl);
            let inten_after = bus::replayed(actions, Register::ExintInten, inten);
            let polcfg1_after = bus::replayed(actions, Register::ExintPolcfg1, polcfg1);
            &&& ctrl_after & event.interrupt_enable() == event.interrupt_enable()
            &&& inten_after & event.line() == event.line()
            &&& polcfg1_after & event.line() == event.line()
        }),
{
    lemma_listen_replays(event, ctrl, inten, polcfg1);
    bits::law_modify_stores(ctrl, 0 | rtc::CTRL_HOUR_STEPS, event.interrupt_enable());
    bits::law_modify_stores(inten, 0, event.line());
    bits::law_modify_stores(polcfg1, 0, event.line());
}

pub(crate) proof fn lemma_listen_replays(event: Event, ctrl: u32, inten: u32, polcfg1: u32)
    ensures
        ({
            let actions = rtc::listen_actions(event);
            &&& bus::replayed(actions, Register::ErtcCtrl, ctrl) == bits::modified(
                ctrl,
                0 | rtc::CTRL_HOUR_STEPS,
                event.interrupt_enable(),
            )
            &&& bus::replayed(actions, Register::ExintInten, inten) == bits::modified(
                inten,
                0,
                event.line(),
            )
            &&& bus::replayed(actions, Register::ExintPolcfg1, polcfg1) == bits::modified(
                polcfg1,
                0,
                event.line(),
            )
        }),
{
    reveal_with_fuel(bus::replayed, 4);
    let body = seq![
        Action::Modify { reg: Register::ExintPolcfg1, clear: 0, set: event.line() },
        Action::Modify { reg: Register::ExintInten, clear: 0, set: event.line() },
        rtc::ctrl_modify(0, event.interrupt_enable()),
    ];
    law_session_closes(false, body, Register::ErtcCtrl, ctrl);
    law_session_closes(false, body, Register::ExintInten, inten);
    law_session_closes(false, body, Register::ExintPolcfg1, polcfg1);
    assert(body.drop_last() == seq![body[0], body[1]]);
    assert(body.drop_last().drop_last() == seq![body[0]]);
}

pub(crate) proof fn lemma_unlisten_replays(event: Event, ctrl: u32, inten: u32, polcfg1: u32)
    ensures
        ({
            let actions = rtc::unlisten_actions(event);
            &&& bus::replayed(actions, Register::ErtcCtrl, ctrl) == bits::modified(
                ctrl,
                event.interrupt_enable() | rtc::CTRL_HOUR_STEPS,
                0,
            )
            &&& bus::replayed(actions, Register::ExintInten, inten) == bits::modified(
                inten,
                event.line(),
                0,
            )
            &&& bus::replayed(actions, Register::ExintPolcfg1, polcfg1) == bits::modified(
                polcfg1,
                event.line(),
                0,
            )
        }),
{
    reveal_with_fuel(bus::replayed, 4);
    let body = seq![
        rtc::ctrl_modify(event.interrupt_enable(), 0),
        Action::Modify { reg: Register::ExintInten, clear: event.line(), set: 0 },
        Action::Modify { reg: Register::ExintPolcfg1, clear: event.line(), set: 0 },
    ];
    law_session_closes(false, body, Register::ErtcCtrl, ctrl);
    law_session_closes(false, body, Register::ExintInten, inten);
    law_session_closes(false, body, Register::ExintPolcfg1, polcfg1);
    assert(body.drop_last() == seq![body[0], body[1]]);
    assert(body.drop_last().drop_last() == seq![body[0]]);
}

/// To stop listening for an event undoes to start listening for it, if nobody listened before.
pub proof fn law_unlisten_undoes_listen(event: Event, ctrl: u32, inten: u32, polcfg1: u32)
    requires
        ctrl & (event.interrupt_enable() | rtc::CTRL_HOUR_STEPS) == 0,
        inten & event.line() == 0,
        polcfg1 & event.line() == 0,
    ensures
        ({
            let actions = rtc::listen_actions(event) + rtc::unlisten_actions(event);
            &&& bus::replayed(actions, Register::ErtcCtrl, ctrl) == ctrl
            &&& bus::replayed(actions, Register::ExintInten, inten) == inten
            &&& bus::replayed(actions, Register::ExintPolcfg1, polcfg1) == polcfg1
        }),
{
    let listen = rtc::listen_actions(event);
    let unlisten = rtc::unlisten_actions(event);
    bus::law_replay_concatenates(listen, unlisten, Register::ErtcCtrl, ctrl);
    bus::law_replay_concatenates(listen, unlisten, Register::ExintInten, inten);
    bus::law_replay_concatenates(listen, unlisten, Register::ExintPolcfg1, polcfg1);
    lemma_listen_replays(event, ctrl, inten, polcfg1);
    lemma_unlisten_replays(
        event,
        bus::replayed(listen, Register::ErtcCtrl, ctrl),
        bus::replayed(listen, Register::ExintInten, inten),
        bus::replayed(listen, Register::ExintPolcfg1, polcfg1),
    );
    let enable = event.interrupt_enable();
    let line = event.line();
    let steps = rtc::CTRL_HOUR_STEPS;
    assert(bits::modified(bits::modified(ctrl, 0 | steps, enable), enable | steps, 0) == ctrl
        && bits::modified(bits::modified(inten, 0, line), line, 0) == inten && bits::modified(
        bits::modified(polcfg1, 0, line),
        line,
        0,
    ) == polcfg1) by (bit_vector)
        requires
            ctrl & (enable | steps) == 0,
            inten & line == 0,
            polcfg1 & line == 0,
    ;
}

proof fn lemma_alarm_word(time: u32, dt: u32, du: u32, word: u32)
    by (bit_vector)
    requires
        time & !0x003f_7f7fu32 == 0,
    ensures
        ({
            let day = bits::placed(dt, 3, 28) | bits::placed(du, 0xf, 24);
            let after = bits::modified(word, rtc::ALARM_ALL, day | time);
            &&& bits::field(after, 3, 28) == dt & 3
            &&& bits::field(after, 0xf, 24) == du & 0xf
            &&& after & (rtc::ALARM_WKSEL | rtc::ALARM_MASK4) == 0
        }),
        ({
            let day = rtc::ALARM_WKSEL | bits::placed(du, 0xf, 24);
            let after = bits::modified(word, rtc::ALARM_ALL, day | time);
            &&& bits::field(after, 3, 28) == 0
            &&& bits::field(after, 0xf, 24) == du & 0xf
            &&& after & (rtc::ALARM_WKSEL | rtc::ALARM_MASK4) == rtc::ALARM_WKSEL
        }),
        bits::modified(word, rtc::ALARM_ALL, rtc::ALARM_MASK4 | time) & (rtc::ALARM_WKSEL
            | rtc::ALARM_MASK4) == rtc::ALARM_MASK4,
        forall|day: u32|
            #![trigger bits::modified(word, rtc::ALARM_ALL, day | time)]
            day & 0x003f_7f7fu32 == 0 ==> bits::modified(word, rtc::ALARM_ALL, day | time)
                & 0x003f_7f7fu32 == time,
        (bits::placed(dt, 3, 28) | bits::placed(du, 0xf, 24)) & 0x003f_7f7fu32 == 0,
        (rtc::ALARM_WKSEL | bits::placed(du, 0xf, 24)) & 0x003f_7f7fu32 == 0,
        rtc::ALARM_MASK4 & 0x003f_7f7fu32 == 0,
{
}

proof fn lemma_low_nibbles(x: u32)
    by (bit_vector)
    ensures
        x <= 3 ==> x & 3 == x,
        x <= 15 ==> x & 0xf == x,
{
}

proof fn lemma_time_fields(word: u32)
    by (bit_vector)
    ensures
        ({
            let time = word & 0x003f_7f7fu32;
            &&& bits::field(word, 3, 20) == bits::field(time, 3, 20)
            &&& bits::field(word, 0xf, 16) == bits::field(time, 0xf, 16)
            &&& bits::field(word, 7, 12) == bits::field(time, 7, 12)
            &&& bits::field(word, 0xf, 8) == bits::field(time, 0xf, 8)
            &&& bits::field(word, 7, 4) == bits::field(time, 7, 4)
            &&& bits::field(word, 0xf, 0) == bits::field(time, 0xf, 0)
        }),
{
}

/// An alarm that was set is kept as it was asked for: its register gives back the time and the day,
/// with the kind of the day. The flag of the alarm is clear and the alarm is enabled. The register,
/// the flag and the enable bit of the other alarm are as before.
pub proof fn law_set_alarm_is_kept(
    alarm: Alarm,
    day: AlarmDay,
    time: NaiveTime,
    other: Alarm,
    word: u32,
    sts: u32,
    ctrl: u32,
)
    requires
        time.on_the_clock(),
        day matches AlarmDay::Date(d) ==> d.wf(),
        alarm != other,
    ensures
        ({
            let actions = rtc::set_alarm_actions(alarm, day, time);
            let after = bus::replayed(actions, alarm.register(), word);
            &&& rtc::hours_of(after) == time.hour
            &&& rtc::minutes_of(after) == time.minute
            &&& rtc::seconds_of(after) == time.second
            &&& match day {
                AlarmDay::Date(date) => {
                    &&& rtc::digits_of(after, 3, 28, 24) == date.day
                    &&& after & (rtc::ALARM_WKSEL | rtc::ALARM_MASK4) == 0
                },
                AlarmDay::Weekday(weekday) => {
                    &&& rtc::digits_of(after, 3, 28, 24) == weekday.number()
                    &&& after & (rtc::ALARM_WKSEL | rtc::ALARM_MASK4) == rtc::ALARM_WKSEL
                },
                AlarmDay::EveryDay => {
                    after & (rtc::ALARM_WKSEL | rtc::ALARM_MASK4) == rtc::ALARM_MASK4
                },
            }
            &&& bus::replayed(actions, other.register(), word) == word
            &&& !bits::any_set(
                bus::replayed(actions, Register::ErtcSts, sts),
                alarm.event().flag(),
            )
            &&& bits::any_set(bus::replayed(actions, Register::ErtcCtrl, ctrl), alarm.enable())
            &&& bits::any_set(
                bus::replayed(actions, Register::ErtcSts, sts),
                other.event().flag(),
            ) == bits::any_set(sts, other.event().flag())
            &&& bits::any_set(bus::replayed(actions, Register::ErtcCtrl, ctrl), other.enable())
                == bits::any_set(ctrl, other.enable())
        }),
{
    reveal_with_fuel(bus::replayed, 6);
    let enable = alarm.enable();
    let flag = alarm.event().flag();
    let body = seq![
        Action::Modify { reg: Register::ErtcCtrl, clear: enable, set: 0 },
        rtc::sts_clear(flag),
        Action::Wait { reg: Register::ErtcSts, mask: alarm.ready(), value: alarm.ready() },
        Action::Modify {
            reg: alarm.register(),
            clear: rtc::ALARM_ALL,
            set: rtc::alarm_word(day, time),
        },
        Action::Modify { reg: Register::ErtcCtrl, clear: 0, set: enable },
    ];
    assert(body.drop_last() == seq![body[0], body[1], body[2], body[3]]);
    assert(body.drop_last().drop_last() == seq![body[0], body[1], body[2]]);
    assert(body.drop_last().drop_last().drop_last() == seq![body[0], body[1]]);
    assert(body.drop_last().drop_last().drop_last().drop_last() == seq![body[0]]);
    law_session_closes(false, body, alarm.register(), word);
    law_session_closes(false, body, other.register(), word);
    law_session_closes(false, body, Register::ErtcCtrl, ctrl);
    // The register of the alarm.
    let time_bits = rtc::time_word(time);
    lemma_time_digits(
        time.hour / 10,
        time.hour % 10,
        time.minute / 10,
        time.minute % 10,
        time.second / 10,
        time.second % 10,
    );
    law_time_reads_back(time);
    let (dt, du): (u32, u32) = match day {
        AlarmDay::Date(date) => (date.day / 10, date.day % 10),
        AlarmDay::Weekday(weekday) => (0, weekday.number() as u32),
        AlarmDay::EveryDay => (0, 0),
    };
    lemma_low_nibbles(dt);
    lemma_low_nibbles(du);
    lemma_alarm_word(time_bits, dt, du, word);
    let after = bits::modified(word, rtc::ALARM_ALL, rtc::alarm_word(day, time));
    assert(bus::replayed(body, alarm.register(), word) == after);
    assert(after & 0x003f_7f7fu32 == time_bits);
    lemma_time_fields(after);
    // The flag and the enable bit.
    lemma_session_splits(false, body, Register::ErtcSts, sts);
    bus::law_replay_leaves_alone(rtc::opening(false), Register::ErtcSts, sts);
    bus::law_replay_leaves_alone(
        rtc::closing(false),
        Register::ErtcSts,
        bus::replayed(body, Register::ErtcSts, sts),
    );
    bits::law_modify_stores(sts, flag, 0);
    lemma_event_bits();
    bits::law_modify_stores(bits::modified(ctrl, enable, 0), 0, enable);
    // The flag and the enable bit of the other alarm.
    bits::law_modify_keeps_other_bits(sts, flag, 0, other.event().flag());
    bits::law_modify_keeps_other_bits(ctrl, enable, 0, other.enable());
    bits::law_modify_keeps_other_bits(
        bits::modified(ctrl, enable, 0),
        0,
        enable,
        other.enable(),
    );
}

/// The day of an alarm for a weekday is the weekday that the calendar keeps on dates of that weekday,
/// and on no others.
pub proof fn law_weekday_alarm_matches_the_calendar(
    alarm: Alarm,
    weekday: Weekday,
    time: NaiveTime,
    date: NaiveDate,
    word: u32,
)
    requires
        time.on_the_clock(),
        date.wf(),
        1970 <= date.year <= 2069,
    ensures
        ({
            let actions = rtc::set_alarm_actions(alarm, AlarmDay::Weekday(weekday), time);
            let after = bus::replayed(actions, alarm.register(), word);
            rtc::digits_of(after, 3, 28, 24) == rtc::weekday_of(rtc::date_word(date))
                <==> date.weekday_number() == weekday.number()
        }),
{
    let other = match alarm {
        Alarm::AlarmA => Alarm::AlarmB,
        Alarm::AlarmB => Alarm::AlarmA,
    };
    law_set_alarm_is_kept(alarm, AlarmDay::Weekday(weekday), time, other, word, 0, 0);
    law_date_reads_back(date);
}

proof fn lemma_wakeup_ticks(source: ClockSource, interval: Micros)
    ensures
        rtc::wakeup_ticks(source, interval) == if source == ClockSource::Lsi {
            interval as int / 62
        } else {
            interval as int / 61
        },
        !rtc::counted_in_ticks(source, interval) ==> interval >= 31_000_000,
{
    assert(1_000_000int / 16_384int == 61);
    assert(1_000_000int / 16_000int == 62);
}

/// The wakeup timer runs down after as many whole ticks, or seconds, as the interval holds: the
/// reload value and one, times the divider that was selected, leave a remainder that is smaller
/// than the divider.
pub proof fn law_wakeup_counts_the_interval(source: ClockSource, interval: Micros)
    requires
        rtc::wakeup_setting_of(source, interval) is Some,
    ensures
        ({
            let (clock, reload) = rtc::wakeup_setting_of(source, interval)->Some_0;
            let count = reload + 1;
            let ticks = rtc::wakeup_ticks(source, interval);
            let seconds = interval as int / 1_000_000;
            if rtc::counted_in_ticks(source, interval) {
                &&& clock <= 3
                &&& clock == 3 ==> count == ticks
                &&& clock == 2 ==> count * 2 <= ticks < count * 2 + 2
                &&& clock == 1 ==> count * 4 <= ticks < count * 4 + 4
                &&& clock == 0 ==> count * 8 <= ticks < count * 8 + 8
            } else {
                &&& clock == 4 || clock == 6
                &&& clock == 4 ==> count == seconds
                &&& clock == 6 ==> count + 0x1_0000 == seconds
            }
        }),
{
    lemma_wakeup_ticks(source, interval);
}

/// Every interval from one tick to 2^17 - 1 seconds has a setting, and no other interval has.
pub proof fn law_wakeup_settings_exist(source: ClockSource, interval: Micros)
    ensures
        rtc::wakeup_setting_of(source, interval) is Some <==> rtc::wakeup_ticks(source, interval)
            >= 1 && interval <= 131_071_000_000,
{
    lemma_wakeup_ticks(source, interval);
}

/// A clock brought into service runs: its source is selected, it is on, and the divider holds both
/// factors. The battery powered domain is reset only if the source was not stable.
pub proof fn law_configured_clock_runs(
    source: ClockSource,
    divb: u16,
    prediv_a: u8,
    bpdc: u32,
    ctrlsts: u32,
    div: u32,
)
    ensures
        ({
            let actions = Rtc::config_actions(source, divb, prediv_a, bpdc, ctrlsts);
            let bpdc_after = bus::replayed(actions, Register::CrmBpdc, bpdc);
            let div_after = bus::replayed(actions, Register::ErtcDiv, div);
            &&& bpdc_after & rtc::BPDC_ERTCEN == rtc::BPDC_ERTCEN
            &&& bpdc_after & rtc::BPDC_ERTCSEL == if source == ClockSource::Lsi {
                rtc::BPDC_ERTCSEL_LICK
            } else {
                rtc::BPDC_ERTCSEL_LEXT
            }
            &&& bits::field(div_after, 0x7fff, 0) == divb as u32 & 0x7fff
            &&& bits::field(div_after, 0x7f, 16) == prediv_a as u32 & 0x7f
        }),
        ({
            let stable = if source == ClockSource::Lsi {
                bits::any_set(ctrlsts, rtc::CTRLSTS_LICKSTBL)
            } else {
                bits::any_set(bpdc, rtc::BPDC_LEXTSTBL)
            };
            let reset = Action::Modify { reg: Register::CrmBpdc, clear: 0, set: rtc::BPDC_BPDRST };
            Rtc::config_actions(source, divb, prediv_a, bpdc, ctrlsts).contains(reset) <==> !stable
        }),
{
    reveal_with_fuel(bus::replayed, 4);
    let actions = Rtc::config_actions(source, divb, prediv_a, bpdc, ctrlsts);
    let unlock = seq![
        Action::Enable { peripheral: crate::bus::Peripheral::Pwc },
        Action::Modify { reg: Register::PwcCtrl, clear: 0, set: rtc::PWC_BPWEN },
    ];
    let stable = if source == ClockSource::Lsi {
        bits::any_set(ctrlsts, rtc::CTRLSTS_LICKSTBL)
    } else {
        bits::any_set(bpdc, rtc::BPDC_LEXTSTBL)
    };
    let switch_on = if stable {
        seq![]
    } else {
        match source {
            ClockSource::Lse(mode) => Rtc::lse_actions(mode),
            ClockSource::Lsi => Rtc::lsi_actions(),
        }
    };
    let choice = if source == ClockSource::Lsi {
        rtc::BPDC_ERTCSEL_LICK
    } else {
        rtc::BPDC_ERTCSEL_LEXT
    };
    let select = seq![
        Action::Modify { reg: Register::CrmBpdc, clear: rtc::BPDC_ERTCSEL, set: choice },
        Action::Modify { reg: Register::CrmBpdc, clear: 0, set: rtc::BPDC_ERTCEN },
    ];
    let body = seq![rtc::ctrl_modify(rtc::CTRL_HM, 0), rtc::div_modify(divb, prediv_a)];
    let session = rtc::session(true, body);
    let head = unlock + switch_on;
    assert(actions == head + select + session);
    // The battery powered domain.
    bus::law_replay_concatenates(head + select, session, Register::CrmBpdc, bpdc);
    bus::law_replay_concatenates(head, select, Register::CrmBpdc, bpdc);
    let switched = bus::replayed(head, Register::CrmBpdc, bpdc);
    let selected = bus::replayed(select, Register::CrmBpdc, switched);
    assert(select.drop_last() == seq![select[0]]);
    law_session_closes(true, body, Register::CrmBpdc, selected);
    assert(body.drop_last() == seq![body[0]]);
    bus::law_replay_leaves_alone(body, Register::CrmBpdc, selected);
    assert(({
        let after = bits::modified(
            bits::modified(switched, rtc::BPDC_ERTCSEL, choice),
            0,
            rtc::BPDC_ERTCEN,
        );
        after & rtc::BPDC_ERTCEN == rtc::BPDC_ERTCEN && after & rtc::BPDC_ERTCSEL == choice
    })) by (bit_vector)
        requires
            choice == rtc::BPDC_ERTCSEL_LICK || choice == rtc::BPDC_ERTCSEL_LEXT,
    ;
    // The divider.
    bus::law_replay_concatenates(head + select, session, Register::ErtcDiv, div);
    bus::law_replay_leaves_alone(head + select, Register::ErtcDiv, div);
    law_session_closes(true, body, Register::ErtcDiv, div);
    let b = divb as u32;
    let a = prediv_a as u32;
    assert(({
        let after = bits::modified(
            div,
            rtc::DIV_BOTH,
            bits::placed(b, 0x7fff, 0) | bits::placed(a, 0x7f, 16),
        );
        bits::field(after, 0x7fff, 0) == b & 0x7fff && bits::field(after, 0x7f, 16) == a & 0x7f
    })) by (bit_vector);
    // The reset.
    let reset = Action::Modify { reg: Register::CrmBpdc, clear: 0, set: rtc::BPDC_BPDRST };
    if !stable {
        assert(actions[2] == reset);
    } else {
        assert forall|i: int| 0 <= i < actions.len() implies actions[i] != reset by {
            if i >= 4 {
                assert(actions[i] == session[i - 4]);
            }
        }
    }
}

/// Sampling the time stamp clears its flags.
pub proof fn law_sampled_timestamp_is_not_pending(sts: u32)
    ensures
        !bits::any_set(
            bus::replayed(rtc::sample_timestamp_actions(), Register::ErtcSts, sts),
            rtc::STS_TSF | rtc::STS_TSOF,
        ),
{
    reveal_with_fuel(bus::replayed, 2);
    let actions = rtc::sample_timestamp_actions();
    bus::law_replay_leaves_alone(actions.drop_last(), Register::ErtcSts, sts);
    bits::law_modify_stores(sts, rtc::STS_TSF | rtc::STS_TSOF, 0);
    lemma_event_bits();
}

} // verus!
