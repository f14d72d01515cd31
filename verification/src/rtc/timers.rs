//! What holds of the timers, the alarms and the calendar, told by the bits of the registers.
use crate::bits;
use crate::bus;
use crate::bus::{Action, Register};
use crate::calendar;
use crate::calendar::{NaiveDate, NaiveDateTime, NaiveTime, Weekday};
use crate::rate::Micros;
use crate::rtc;
use crate::rtc::laws;
use crate::rtc::{
    Alarm, AlarmDay, CalendarSample, ClockSource, Event, LSEClockMode, Rtc, TimestampSample,
};
use vstd::prelude::*;

verus! {

proof fn lemma_words(word: u32, clock: u32, bit: u32)
    by (bit_vector)
    ensures
        word >> 0u32 == word,
        // The wakeup timer.
        clock <= 7 ==> ({
            let stopped = bits::modified(word, 0x400u32 | rtc::CTRL_HOUR_STEPS, 0);
            let chosen = bits::modified(stopped, 0x7u32 | rtc::CTRL_HOUR_STEPS, clock);
            let started = bits::modified(chosen, 0u32 | rtc::CTRL_HOUR_STEPS, 0x400);
            &&& stopped & 0x400 == 0
            &&& stopped & 0x3_0000 == 0
            &&& stopped & !0x3_0400u32 == word & !0x3_0400u32
            &&& chosen & 0x400 == 0
            &&& started & 7 == clock
            &&& started & 0x400 == 0x400
            &&& started & 0x3_0000 == 0
            &&& started & !0x3_0407u32 == word & !0x3_0407u32
        }),
        bits::modified(word, 0x400, 0) & 0x400 == 0,
        bits::modified(word, 0x400, 0) & !0x400u32 == word & !0x400u32,
        // Time stamps.
        ({
            let stopped = bits::modified(word, 0x800u32 | rtc::CTRL_HOUR_STEPS, 0);
            let started = bits::modified(stopped, 0u32 | rtc::CTRL_HOUR_STEPS, 0x800);
            &&& stopped & 0x800 == 0
            &&& stopped & !0x3_0800u32 == word & !0x3_0800u32
            &&& started & 0x800 == 0x800
            &&& started & !0x3_0800u32 == word & !0x3_0800u32
        }),
        bits::modified(word, 0x800, 0) & 0x800 == 0,
        bits::modified(word, 0x800, 0) & !0x800u32 == word & !0x800u32,
        bits::modified(word, rtc::STS_TSF | rtc::STS_TSOF, 0) & 0x1800 == 0,
        bits::modified(word, rtc::STS_TSF | rtc::STS_TSOF, 0) & !0x1800u32 == word & !0x1800u32,
        bits::modified(word, 0x20, 0) & 0x20 == 0,
        bits::modified(word, 0x20, 0) & !0x20u32 == word & !0x20u32,
        // Alarms.
        ({
            let off = bits::modified(word, bit, 0);
            let on = bits::modified(off, 0, bit);
            &&& off & bit == 0
            &&& off & !bit == word & !bit
            &&& on & bit == bit
            &&& on & !bit == word & !bit
        }),
        // The format of the hours.
        ({
            let after = bits::modified(word, 0x40u32 | rtc::CTRL_HOUR_STEPS, 0);
            &&& after & 0x40 == 0
            &&& after & !0x3_0040u32 == word & !0x3_0040u32
        }),
        // The interrupt of an event.
        bit & 0x3_0000 == 0 ==> ({
            let on = bits::modified(word, 0u32 | rtc::CTRL_HOUR_STEPS, bit);
            let off = bits::modified(word, bit | rtc::CTRL_HOUR_STEPS, 0);
            &&& on & bit == bit
            &&& on & 0x3_0000 == 0
            &&& on & !(bit | 0x3_0000) == word & !(bit | 0x3_0000)
            &&& off & bit == 0
            &&& off & 0x3_0000 == 0
            &&& off & !(bit | 0x3_0000) == word & !(bit | 0x3_0000)
        }),
        0x1000u32 & 0x3_0000 == 0,
        0x2000u32 & 0x3_0000 == 0,
        0x4000u32 & 0x3_0000 == 0,
        0x8000u32 & 0x3_0000 == 0,
        // The clock source.
        bits::modified(word, 0, bit) == word | bit,
        bits::modified(word, 0, bit) & bit == bit,
        bits::modified(word, 0, bit) & !bit == word & !bit,
        ({
            let lext = bits::modified(bits::modified(word, 0x300, 0x100), 0, 0x8000);
            let lick = bits::modified(bits::modified(word, 0x300, 0x200), 0, 0x8000);
            &&& lext & 0x300 == 0x100
            &&& lext & 0x8000 == 0x8000
            &&& lext & !0x8300u32 == word & !0x8300u32
            &&& lick & 0x300 == 0x200
            &&& lick & 0x8000 == 0x8000
            &&& lick & !0x8300u32 == word & !0x8300u32
        }),
        ({
            let reset = bits::modified(bits::modified(word, 0, 0x1_0000), 0x1_0000, 0);
            let on = bits::modified(reset, 0, 1);
            let bypass = bits::modified(on, 0, 4);
            let oscillator = bits::modified(on, 4, 0);
            &&& reset & 0x1_0000 == 0
            &&& reset & !0x1_0000u32 == word & !0x1_0000u32
            &&& bypass & 0x1_0005 == 5
            &&& oscillator & 0x1_0005 == 1
            &&& bypass & !0x1_0005u32 == word & !0x1_0005u32
            &&& oscillator & !0x1_0005u32 == word & !0x1_0005u32
        }),
{
}

proof fn lemma_keeps(a: u32, b: u32)
    by (bit_vector)
    ensures
        a & !0x8300u32 == b & !0x8300u32 ==> a & 0x1_0005 == b & 0x1_0005 && a & !0x1_8305u32 == b
            & !0x1_8305u32 && a & 0x1_0000 == b & 0x1_0000 && a & 5 == b & 5,
        a & !0x1_0005u32 == b & !0x1_0005u32 ==> a & !0x1_8305u32 == b & !0x1_8305u32,
        a & !0x1_0000u32 == b & !0x1_0000u32 ==> a & !0x1_8305u32 == b & !0x1_8305u32 && a & 5 == b
            & 5,
        a & 0x1_0005 == 5 ==> a & 1 == 1 && a & 4 == 4 && a & 0x1_0000 == 0,
        a & 0x1_0005 == 1 ==> a & 1 == 1 && a & 4 == 0 && a & 0x1_0000 == 0,
{
}

/// Once the wakeup timer was started for an interval, the clock selection and the reload value that
/// belong to the interval are what its registers hold, it is enabled, and its flag is clear; no other
/// bit has changed, and no hour is stepped. The timer is off, and ready, when they are stored.
pub proof fn law_wakeup_timer_counts_what_was_found(
    source: ClockSource,
    interval: Micros,
    ctrl: u32,
    wat: u32,
    sts: u32,
)
    requires
        rtc::wakeup_setting_of(source, interval) is Some,
    ensures
        ({
            let setting = rtc::wakeup_setting_of(source, interval)->Some_0;
            let actions = rtc::enable_wakeup_actions(setting);
            let ctrl_after = bus::replayed(actions, Register::ErtcCtrl, ctrl);
            let sts_after = bus::replayed(actions, Register::ErtcSts, sts);
            &&& ctrl_after & 7 == setting.0
            &&& ctrl_after & 0x400 == 0x400
            &&& ctrl_after & 0x3_0000 == 0
            &&& ctrl_after & !0x3_0407u32 == ctrl & !0x3_0407u32
            &&& bus::replayed(actions, Register::ErtcWat, wat) == setting.1
            &&& sts_after & 0x400 == 0
            &&& sts_after & !0x400u32 == sts & !0x400u32
            &&& actions.len() == 10
            &&& actions[4] == (Action::Wait { reg: Register::ErtcSts, mask: 4, value: 4 })
            &&& bus::replayed(actions.take(5), Register::ErtcCtrl, ctrl) & 0x400 == 0
            &&& bus::replayed(actions.take(6), Register::ErtcCtrl, ctrl) & 0x400 == 0
            &&& bus::leaves_alone(actions.take(5), Register::ErtcWat)
            &&& actions[6] == (Action::Write { reg: Register::ErtcWat, value: setting.1 as u32 })
        }),
{
    reveal_with_fuel(bus::replayed, 7);
    let setting = rtc::wakeup_setting_of(source, interval)->Some_0;
    let actions = rtc::enable_wakeup_actions(setting);
    let body = seq![
        rtc::ctrl_modify(rtc::CTRL_WATEN, 0),
        rtc::sts_clear(rtc::STS_WATF),
        Action::Wait { reg: Register::ErtcSts, mask: rtc::STS_WATWF, value: rtc::STS_WATWF },
        rtc::ctrl_modify(rtc::CTRL_WATCLK, setting.0),
        Action::Write { reg: Register::ErtcWat, value: setting.1 as u32 },
        rtc::ctrl_modify(0, rtc::CTRL_WATEN),
    ];
    let a = body.drop_last();
    let b = a.drop_last();
    let c = b.drop_last();
    let d = c.drop_last();
    assert(a =~= seq![body[0], body[1], body[2], body[3], body[4]]);
    assert(b =~= seq![body[0], body[1], body[2], body[3]]);
    assert(c =~= seq![body[0], body[1], body[2]]);
    assert(d =~= seq![body[0], body[1]]);
    assert(d.drop_last() =~= seq![body[0]]);
    assert(d.drop_last().drop_last() =~= Seq::<Action>::empty());
    laws::law_session_closes(false, body, Register::ErtcCtrl, ctrl);
    laws::law_session_closes(false, body, Register::ErtcWat, wat);
    lemma_status(body, sts);
    lemma_words(ctrl, setting.0, 0);
    lemma_words(sts, 0, 0);
    // Before the clock is selected, and once it is.
    let opening = rtc::opening(false);
    assert(actions.take(5) =~= opening + c);
    assert(actions.take(6) =~= opening + b);
    bus::law_replay_concatenates(opening, c, Register::ErtcCtrl, ctrl);
    bus::law_replay_concatenates(opening, b, Register::ErtcCtrl, ctrl);
    bus::law_replay_leaves_alone(opening, Register::ErtcCtrl, ctrl);
}

proof fn lemma_status(body: Seq<Action>, sts: u32)
    ensures
        bus::replayed(rtc::session(false, body), Register::ErtcSts, sts) == bus::replayed(
            body,
            Register::ErtcSts,
            sts,
        ),
{
    laws::lemma_session_splits(false, body, Register::ErtcSts, sts);
    bus::law_replay_leaves_alone(rtc::opening(false), Register::ErtcSts, sts);
    bus::law_replay_leaves_alone(
        rtc::closing(false),
        Register::ErtcSts,
        bus::replayed(body, Register::ErtcSts, sts),
    );
}

/// The accesses that start the wakeup timer with two settings differ in nothing but the clock
/// selection and the reload value.
pub proof fn law_wakeup_accesses_differ_in_the_setting(a: (u32, u16), b: (u32, u16), i: int)
    requires
        0 <= i < 10,
        i != 5,
        i != 6,
    ensures
        rtc::enable_wakeup_actions(a)[i] == rtc::enable_wakeup_actions(b)[i],
{
}

/// How many microseconds a number of ticks takes, with a tick of 61 microseconds from the external clock
/// and of 62 from the internal one.
pub open spec fn ticks_last(source: ClockSource, ticks: int) -> int {
    match source {
        ClockSource::Lse(_) => 61 * ticks,
        ClockSource::Lsi => 62 * ticks,
    }
}

/// The interval that the wakeup timer counts, in microseconds. The finest of the four dividers that can
/// count the interval is chosen, and the timer runs down within one count of the interval. What lasts
/// for 32 seconds or more, or has more ticks than the coarsest divider can count, is counted in seconds.
/// What is shorter than a tick, or longer than 131071 seconds, is not counted at all.
pub proof fn law_wakeup_interval_in_microseconds(source: ClockSource, interval: Micros)
    ensures
        ({
            let setting = rtc::wakeup_setting_of(source, interval);
            &&& setting is None <==> interval < ticks_last(source, 1) || interval > 131_071_000_000
            &&& setting matches Some((clock, reload)) ==> {
                let count = reload + 1;
                &&& clock <= 4 || clock == 6
                &&& clock <= 3 <==> interval < 32_000_000 && interval < ticks_last(
                    source,
                    0x1_0001int * 8,
                )
                &&& clock == 3 ==> ticks_last(source, count) <= interval < ticks_last(
                    source,
                    count + 1,
                )
                &&& clock == 2 ==> ticks_last(source, count * 2) <= interval < ticks_last(
                    source,
                    count * 2 + 2,
                ) && interval >= ticks_last(source, 0x1_0001)
                &&& clock == 1 ==> ticks_last(source, count * 4) <= interval < ticks_last(
                    source,
                    count * 4 + 4,
                ) && interval >= ticks_last(source, 0x1_0001int * 2)
                &&& clock == 0 ==> ticks_last(source, count * 8) <= interval < ticks_last(
                    source,
                    count * 8 + 8,
                ) && interval >= ticks_last(source, 0x1_0001int * 4)
                &&& clock == 4 ==> count * 1_000_000 <= interval < (count + 1) * 1_000_000
                &&& clock == 6 ==> (count + 0x1_0000) * 1_000_000 <= interval < (count + 0x1_0001)
                    * 1_000_000
            }
        }),
{
    assert(1_000_000int / 16_384int == 61);
    assert(1_000_000int / 16_000int == 62);
    let ticks = rtc::wakeup_ticks(source, interval);
    match source {
        ClockSource::Lse(_) => {
            assert(ticks == interval as int / 61);
        },
        ClockSource::Lsi => {
            assert(ticks == interval as int / 62);
        },
    }
}

/// A wakeup timer that was stopped is disabled and its flag clear, and so it is with time stamps; a
/// time stamp is enabled with its flag clear. No other bit changes, and no hour is stepped.
pub proof fn law_timers_stop(ctrl: u32, sts: u32)
    ensures
        ({
            let actions = rtc::disable_wakeup_actions();
            let ctrl_after = bus::replayed(actions, Register::ErtcCtrl, ctrl);
            let sts_after = bus::replayed(actions, Register::ErtcSts, sts);
            &&& ctrl_after & 0x400 == 0
            &&& ctrl_after & !0x3_0400u32 == ctrl & !0x3_0400u32
            &&& sts_after & 0x400 == 0
            &&& sts_after & !0x400u32 == sts & !0x400u32
        }),
        ({
            let actions = rtc::enable_timestamp_actions();
            let ctrl_after = bus::replayed(actions, Register::ErtcCtrl, ctrl);
            let sts_after = bus::replayed(actions, Register::ErtcSts, sts);
            &&& ctrl_after & 0x800 == 0x800
            &&& ctrl_after & !0x3_0800u32 == ctrl & !0x3_0800u32
            &&& sts_after & 0x800 == 0
            &&& sts_after & !0x800u32 == sts & !0x800u32
        }),
        ({
            let actions = rtc::disable_timestamp_actions();
            let ctrl_after = bus::replayed(actions, Register::ErtcCtrl, ctrl);
            let sts_after = bus::replayed(actions, Register::ErtcSts, sts);
            &&& ctrl_after & 0x800 == 0
            &&& ctrl_after & !0x3_0800u32 == ctrl & !0x3_0800u32
            &&& sts_after & 0x800 == 0
            &&& sts_after & !0x800u32 == sts & !0x800u32
        }),
{
    reveal_with_fuel(bus::replayed, 4);
    lemma_words(ctrl, 0, 0);
    lemma_words(sts, 0, 0);
    let wakeup = seq![rtc::ctrl_modify(rtc::CTRL_WATEN, 0), rtc::sts_clear(rtc::STS_WATF)];
    let on = seq![
        rtc::ctrl_modify(rtc::CTRL_TSEN, 0),
        rtc::sts_clear(rtc::STS_TSF),
        rtc::ctrl_modify(0, rtc::CTRL_TSEN),
    ];
    let off = seq![rtc::ctrl_modify(rtc::CTRL_TSEN, 0), rtc::sts_clear(rtc::STS_TSF)];
    assert(wakeup.drop_last() =~= seq![wakeup[0]]);
    assert(wakeup.drop_last().drop_last() =~= Seq::<Action>::empty());
    assert(on.drop_last() =~= seq![on[0], on[1]]);
    assert(on.drop_last().drop_last() =~= seq![on[0]]);
    assert(on.drop_last().drop_last().drop_last() =~= Seq::<Action>::empty());
    assert(off.drop_last() =~= seq![off[0]]);
    assert(off.drop_last().drop_last() =~= Seq::<Action>::empty());
    laws::law_session_closes(false, wakeup, Register::ErtcCtrl, ctrl);
    laws::law_session_closes(false, on, Register::ErtcCtrl, ctrl);
    laws::law_session_closes(false, off, Register::ErtcCtrl, ctrl);
    lemma_status(wakeup, sts);
    lemma_status(on, sts);
    lemma_status(off, sts);
}

/// Sampling the calendar waits until its registers are synchronised, reads subseconds, time and date in
/// this order, and then has them synchronised again; sampling a time stamp clears its two flags after
/// it was read. No other flag changes.
pub proof fn law_samples_are_synchronised(sts: u32)
    ensures
        ({
            let actions = rtc::sample_datetime_actions();
            let after = bus::replayed(actions, Register::ErtcSts, sts);
            &&& actions[0] == (Action::Wait { reg: Register::ErtcSts, mask: 0x20, value: 0x20 })
            &&& actions[1] == (Action::Sample { reg: Register::ErtcSbs })
            &&& actions[2] == (Action::Sample { reg: Register::ErtcTime })
            &&& actions[3] == (Action::Sample { reg: Register::ErtcDate })
            &&& after & 0x20 == 0
            &&& after & !0x20u32 == sts & !0x20u32
        }),
        ({
            let actions = rtc::sample_timestamp_actions();
            let after = bus::replayed(actions, Register::ErtcSts, sts);
            &&& after & 0x1800 == 0
            &&& after & !0x1800u32 == sts & !0x1800u32
            &&& actions.last() is Modify
        }),
{
    reveal_with_fuel(bus::replayed, 3);
    lemma_words(sts, 0, 0);
    let calendar = rtc::sample_datetime_actions();
    bus::law_replay_leaves_alone(calendar.take(4), Register::ErtcSts, sts);
    assert(calendar.drop_last().drop_last() =~= calendar.take(4));
    let stamp = rtc::sample_timestamp_actions();
    bus::law_replay_leaves_alone(stamp.drop_last(), Register::ErtcSts, sts);
}

/// Setting an alarm clears its own flag and enables it, and touches no other bit of the status and the
/// control register. The register of the alarm is only stored to while the alarm is off.
pub proof fn law_set_alarm_touches_nothing_else(
    alarm: Alarm,
    day: AlarmDay,
    time: NaiveTime,
    ctrl: u32,
    sts: u32,
)
    ensures
        ({
            let actions = rtc::set_alarm_actions(alarm, day, time);
            let ctrl_after = bus::replayed(actions, Register::ErtcCtrl, ctrl);
            let sts_after = bus::replayed(actions, Register::ErtcSts, sts);
            let bit: u32 = if alarm == Alarm::AlarmA {
                0x100
            } else {
                0x200
            };
            let ready: u32 = if alarm == Alarm::AlarmA {
                1
            } else {
                2
            };
            &&& ctrl_after & bit == bit
            &&& ctrl_after & !bit == ctrl & !bit
            &&& sts_after & bit == 0
            &&& sts_after & !bit == sts & !bit
            &&& actions[4] == (Action::Wait { reg: Register::ErtcSts, mask: ready, value: ready })
            &&& bus::replayed(actions.take(5), Register::ErtcCtrl, ctrl) & bit == 0
            &&& bus::leaves_alone(actions.take(5), alarm.register())
        }),
{
    reveal_with_fuel(bus::replayed, 6);
    let actions = rtc::set_alarm_actions(alarm, day, time);
    let bit: u32 = if alarm == Alarm::AlarmA {
        0x100
    } else {
        0x200
    };
    let body = seq![
        Action::Modify { reg: Register::ErtcCtrl, clear: alarm.enable(), set: 0 },
        rtc::sts_clear(alarm.event().flag()),
        Action::Wait { reg: Register::ErtcSts, mask: alarm.ready(), value: alarm.ready() },
        Action::Modify {
            reg: alarm.register(),
            clear: rtc::ALARM_ALL,
            set: rtc::alarm_word(day, time),
        },
        Action::Modify { reg: Register::ErtcCtrl, clear: 0, set: alarm.enable() },
    ];
    let a = body.drop_last();
    let b = a.drop_last();
    let c = b.drop_last();
    assert(a =~= seq![body[0], body[1], body[2], body[3]]);
    assert(b =~= seq![body[0], body[1], body[2]]);
    assert(c =~= seq![body[0], body[1]]);
    assert(c.drop_last() =~= seq![body[0]]);
    assert(c.drop_last().drop_last() =~= Seq::<Action>::empty());
    laws::law_session_closes(false, body, Register::ErtcCtrl, ctrl);
    lemma_status(body, sts);
    lemma_words(ctrl, 0, bit);
    lemma_words(sts, 0, bit);
    let opening = rtc::opening(false);
    assert(actions.take(5) =~= opening + b);
    bus::law_replay_concatenates(opening, b, Register::ErtcCtrl, ctrl);
    bus::law_replay_leaves_alone(opening, Register::ErtcCtrl, ctrl);
}

/// Each event has a flag, an interrupt enable and a line of its own, but that both alarms share a line.
pub proof fn law_events_have_their_bits(event: Event)
    ensures
        event == Event::AlarmA ==> event.flag() == 0x100 && event.interrupt_enable() == 0x1000
            && event.line() == 0x2_0000,
        event == Event::AlarmB ==> event.flag() == 0x200 && event.interrupt_enable() == 0x2000
            && event.line() == 0x2_0000,
        event == Event::Wakeup ==> event.flag() == 0x400 && event.interrupt_enable() == 0x4000
            && event.line() == 0x40_0000,
        event == Event::Timestamp ==> event.flag() == 0x800 && event.interrupt_enable() == 0x8000
            && event.line() == 0x20_0000,
{
}

/// To listen for an event, or to stop that, changes the bits of that event and no others, and steps no
/// hour; the interrupt of an event is cleared at its flag and at its line, and nowhere else.
pub proof fn law_listening_touches_nothing_else(event: Event, ctrl: u32, inten: u32, sts: u32)
    ensures
        ({
            let enable = event.interrupt_enable();
            let line = event.line();
            let on = bus::replayed(rtc::listen_actions(event), Register::ErtcCtrl, ctrl);
            let off = bus::replayed(rtc::unlisten_actions(event), Register::ErtcCtrl, ctrl);
            let inten_on = bus::replayed(rtc::listen_actions(event), Register::ExintInten, inten);
            let inten_off = bus::replayed(
                rtc::unlisten_actions(event),
                Register::ExintInten,
                inten,
            );
            let polarity_on = bus::replayed(
                rtc::listen_actions(event),
                Register::ExintPolcfg1,
                inten,
            );
            let polarity_off = bus::replayed(
                rtc::unlisten_actions(event),
                Register::ExintPolcfg1,
                inten,
            );
            &&& on & enable == enable && on & 0x3_0000 == 0
            &&& off & enable == 0 && off & 0x3_0000 == 0
            &&& on & !(enable | 0x3_0000) == ctrl & !(enable | 0x3_0000)
            &&& off & !(enable | 0x3_0000) == ctrl & !(enable | 0x3_0000)
            &&& inten_on & line == line && inten_on & !line == inten & !line
            &&& inten_off & line == 0 && inten_off & !line == inten & !line
            &&& polarity_on == inten_on
            &&& polarity_off == inten_off
        }),
        ({
            let actions = rtc::clear_interrupt_actions(event);
            let after = bus::replayed(actions, Register::ErtcSts, sts);
            &&& after & event.flag() == 0
            &&& after & !event.flag() == sts & !event.flag()
            &&& bus::replayed(actions, Register::ExintIntsts, inten) == event.line()
        }),
{
    reveal_with_fuel(bus::replayed, 3);
    laws::lemma_listen_replays(event, ctrl, inten, inten);
    laws::lemma_unlisten_replays(event, ctrl, inten, inten);
    lemma_words(ctrl, 0, event.interrupt_enable());
    lemma_words(inten, 0, event.line());
    lemma_words(sts, 0, event.flag());
    let clear = rtc::clear_interrupt_actions(event);
    assert(clear.drop_last() =~= seq![clear[0]]);
    assert(clear.drop_last().drop_last() =~= Seq::<Action>::empty());
}

/// The digits of a time of day stand each in a field of its own, and no other bit of its word is set:
/// the clock counts 24 hours.
pub proof fn law_time_word_digits(time: NaiveTime)
    requires
        time.on_the_clock(),
    ensures
        ({
            let word = rtc::time_word(time);
            &&& (word >> 20) & 3 == time.hour / 10
            &&& (word >> 16) & 0xf == time.hour % 10
            &&& (word >> 12) & 7 == time.minute / 10
            &&& (word >> 8) & 0xf == time.minute % 10
            &&& (word >> 4) & 7 == time.second / 10
            &&& word & 0xf == time.second % 10
            &&& word & !0x003f_7f7fu32 == 0
        }),
{
    laws::lemma_time_digits(
        time.hour / 10,
        time.hour % 10,
        time.minute / 10,
        time.minute % 10,
        time.second / 10,
        time.second % 10,
    );
    lemma_words(rtc::time_word(time), 0, 0);
}

/// The digits of a date stand each in a field of its own, the weekday beside them, and no other bit of
/// its word is set.
pub proof fn law_date_word_digits(date: NaiveDate)
    requires
        date.wf(),
        1970 <= date.year <= 2069,
    ensures
        ({
            let word = rtc::date_word(date);
            &&& (word >> 20) & 0xf == (date.year - 1970) / 10
            &&& (word >> 16) & 0xf == (date.year - 1970) % 10
            &&& (word >> 13) & 7 == date.weekday_number()
            &&& (word >> 12) & 1 == date.month / 10
            &&& (word >> 8) & 0xf == date.month % 10
            &&& (word >> 4) & 3 == date.day / 10
            &&& word & 0xf == date.day % 10
            &&& word & !0x00ff_ff3fu32 == 0
        }),
{
    let years = (date.year - 1970) as u32;
    laws::lemma_date_digits(
        years / 10,
        years % 10,
        date.weekday_number() as u32,
        date.month / 10,
        date.month % 10,
        date.day / 10,
        date.day % 10,
    );
    lemma_words(rtc::date_word(date), 0, 0);
}

/// A date and time is read exactly if the subsecond counter is within the divider and the digits in the
/// registers are those of a date and a time that exist. It is what the digits say, and its fraction of a
/// second is, in steps of 10 microseconds, what has passed of the counter.
pub proof fn law_calendar_is_read_by_its_digits(
    sbs: u16,
    time: u32,
    date: u32,
    year_date: u32,
    div: u32,
)
    ensures
        ({
            let hour = ((time >> 20) & 3) * 10 + ((time >> 16) & 0xf);
            let minute = ((time >> 12) & 7) * 10 + ((time >> 8) & 0xf);
            let second = ((time >> 4) & 7) * 10 + (time & 0xf);
            let year = ((year_date >> 20) & 0xf) * 10 + ((year_date >> 16) & 0xf) + 1970;
            let month = ((date >> 12) & 1) * 10 + ((date >> 8) & 0xf);
            let day = ((date >> 4) & 3) * 10 + (date & 0xf);
            let last = div & 0x7fff;
            let datetime = rtc::registers_datetime(sbs, time, date, year_date, div);
            &&& datetime is Some <==> sbs <= last && hour < 24 && minute < 60 && second < 60 && 1
                <= month <= 12 && 1 <= day <= calendar::days_in_month(year, month)
            &&& datetime matches Some(read) ==> {
                &&& read.date.year == year
                &&& read.date.month == month
                &&& read.date.day == day
                &&& read.time.hour == hour
                &&& read.time.minute == minute
                &&& read.time.second == second
                &&& read.time.nano % 10_000 == 0
                &&& read.time.nano < 1_000_000_000
                &&& read.time.nano * (last + 1) <= (last - sbs) * 1_000_000_000 < (read.time.nano
                    + 10_000) * (last + 1)
            }
        }),
{
    lemma_words(time, 0, 0);
    lemma_words(date, 0, 0);
    lemma_words(div, 0, 0);
    lemma_digits(time);
    lemma_digits(date);
    lemma_digits(year_date);
    let last = bits::field(div, 0x7fff, 0);
    if sbs <= last {
        laws::lemma_nano(sbs, last);
        let elapsed: int = last - sbs;
        let steps: int = last + 1;
        let part: int = elapsed * 100_000 / steps;
        assert(part * steps <= elapsed * 100_000 < (part + 1) * steps) by (nonlinear_arith)
            requires
                part == elapsed * 100_000 / steps,
                steps > 0,
        ;
        assert((part * 10_000) * steps == (part * steps) * 10_000) by (nonlinear_arith);
        assert((part * 10_000 + 10_000) * steps == ((part + 1) * steps) * 10_000)
            by (nonlinear_arith);
    }
}

proof fn lemma_digits(word: u32)
    by (bit_vector)
    ensures
        (word >> 20u32) & 3 <= 3,
        (word >> 20u32) & 0xf <= 15,
        (word >> 16u32) & 0xf <= 15,
        (word >> 12u32) & 7 <= 7,
        (word >> 12u32) & 1 <= 1,
        (word >> 8u32) & 0xf <= 15,
        (word >> 4u32) & 7 <= 7,
        (word >> 4u32) & 3 <= 3,
        word & 0xf <= 15,
{
}

/// A clock source that is stable is selected and nothing else about it is changed. One that is not is
/// switched on, and awaited, after the battery powered domain was reset: the external one from a crystal
/// or past it, as its mode says. The write protection of the domain is lifted for that, and hours are
/// counted to 24.
pub proof fn law_clock_source_is_switched_on(
    source: ClockSource,
    divb: u16,
    prediv_a: u8,
    bpdc: u32,
    ctrlsts: u32,
    ctrl: u32,
    pwc: u32,
)
    ensures
        ({
            let actions = Rtc::config_actions(source, divb, prediv_a, bpdc, ctrlsts);
            let bpdc_after = bus::replayed(actions, Register::CrmBpdc, bpdc);
            let ctrlsts_after = bus::replayed(actions, Register::CrmCtrlsts, ctrlsts);
            let ctrl_after = bus::replayed(actions, Register::ErtcCtrl, ctrl);
            let stable = if source == ClockSource::Lsi {
                ctrlsts & 2 != 0
            } else {
                bpdc & 2 != 0
            };
            &&& stable ==> bpdc_after & !0x8300u32 == bpdc & !0x8300u32 && ctrlsts_after == ctrlsts
            &&& !stable ==> bpdc_after & 0x1_0000 == 0 && bpdc_after & !0x1_8305u32 == bpdc
                & !0x1_8305u32
            &&& source matches ClockSource::Lse(mode) ==> {
                &&& bpdc_after & 0x300 == 0x100
                &&& ctrlsts_after == ctrlsts
                &&& !stable ==> bpdc_after & 1 == 1 && (bpdc_after & 4 == 4 <==> mode
                    == LSEClockMode::Bypass) && (bpdc_after & 4 == 0 <==> mode
                    == LSEClockMode::Oscillator) && actions.contains(
                    Action::Wait { reg: Register::CrmBpdc, mask: 2, value: 2 },
                )
            }
            &&& source == ClockSource::Lsi ==> {
                &&& bpdc_after & 0x300 == 0x200
                &&& !stable ==> bpdc_after & 5 == bpdc & 5 && ctrlsts_after == ctrlsts | 1
                    && actions.contains(
                    Action::Wait { reg: Register::CrmCtrlsts, mask: 2, value: 2 },
                )
            }
            &&& bpdc_after & 0x8000 == 0x8000
            &&& ctrl_after & 0x40 == 0
            &&& ctrl_after & !0x3_0040u32 == ctrl & !0x3_0040u32
            &&& bus::replayed(actions, Register::PwcCtrl, pwc) == pwc | 0x100
        }),
{
    reveal_with_fuel(bus::replayed, 6);
    let actions = Rtc::config_actions(source, divb, prediv_a, bpdc, ctrlsts);
    let unlock = seq![
        Action::Enable { peripheral: crate::bus::Peripheral::Pwc },
        Action::Modify { reg: Register::PwcCtrl, clear: 0, set: rtc::PWC_BPWEN },
    ];
    let stable = if source == ClockSource::Lsi {
        ctrlsts & 2 != 0
    } else {
        bpdc & 2 != 0
    };
    let switch_on = if stable {
        seq![]
    } else {
        match source {
            ClockSource::Lse(mode) => Rtc::lse_actions(mode),
            ClockSource::Lsi => Rtc::lsi_actions(),
        }
    };
    let choice: u32 = if source == ClockSource::Lsi {
        0x200
    } else {
        0x100
    };
    let select = seq![
        Action::Modify { reg: Register::CrmBpdc, clear: 0x300, set: choice },
        Action::Modify { reg: Register::CrmBpdc, clear: 0, set: 0x8000 },
    ];
    let body = seq![rtc::ctrl_modify(rtc::CTRL_HM, 0), rtc::div_modify(divb, prediv_a)];
    let session = rtc::session(true, body);
    assert(actions =~= unlock + switch_on + select + session);
    assert(unlock.drop_last() =~= seq![unlock[0]]);
    assert(unlock.drop_last().drop_last() =~= Seq::<Action>::empty());
    assert(select.drop_last() =~= seq![select[0]]);
    assert(select.drop_last().drop_last() =~= Seq::<Action>::empty());
    assert(body.drop_last() =~= seq![body[0]]);
    assert(body.drop_last().drop_last() =~= Seq::<Action>::empty());
    let (b, s, c, w) = (
        Register::CrmBpdc,
        Register::CrmCtrlsts,
        Register::ErtcCtrl,
        Register::PwcCtrl,
    );
    lemma_parts(unlock, switch_on, select, session, b, bpdc);
    lemma_parts(unlock, switch_on, select, session, s, ctrlsts);
    lemma_parts(unlock, switch_on, select, session, c, ctrl);
    lemma_parts(unlock, switch_on, select, session, w, pwc);
    // The battery powered domain.
    bus::law_replay_leaves_alone(unlock, b, bpdc);
    let switched = bus::replayed(switch_on, b, bpdc);
    let selected = bus::replayed(select, b, switched);
    laws::law_session_closes(true, body, b, selected);
    bus::law_replay_leaves_alone(body, b, selected);
    lemma_words(switched, 0, 0);
    lemma_words(bpdc, 0, 0);
    lemma_keeps(selected, switched);
    lemma_keeps(switched, bpdc);
    // The internal oscillator.
    bus::law_replay_leaves_alone(unlock, s, ctrlsts);
    let started = bus::replayed(switch_on, s, ctrlsts);
    bus::law_replay_leaves_alone(select, s, started);
    laws::law_session_closes(true, body, s, started);
    bus::law_replay_leaves_alone(body, s, started);
    lemma_words(ctrlsts, 0, 1);
    // The control register of the clock.
    bus::law_replay_leaves_alone(unlock, c, ctrl);
    bus::law_replay_leaves_alone(switch_on, c, ctrl);
    bus::law_replay_leaves_alone(select, c, ctrl);
    laws::law_session_closes(true, body, c, ctrl);
    lemma_words(ctrl, 0, 0);
    // The write protection of the domain.
    let lifted = bus::replayed(unlock, w, pwc);
    bus::law_replay_leaves_alone(switch_on, w, lifted);
    bus::law_replay_leaves_alone(select, w, lifted);
    laws::law_session_closes(true, body, w, lifted);
    bus::law_replay_leaves_alone(body, w, lifted);
    lemma_words(pwc, 0, 0x100);
    if !stable {
        let on = switch_on;
        match source {
            ClockSource::Lse(_) => {
                let x = on.drop_last();
                assert(x =~= seq![on[0], on[1], on[2], on[3]]);
                assert(x.drop_last() =~= seq![on[0], on[1], on[2]]);
                assert(x.drop_last().drop_last() =~= seq![on[0], on[1]]);
                assert(x.drop_last().drop_last().drop_last() =~= seq![on[0]]);
                assert(seq![on[0]].drop_last() =~= Seq::<Action>::empty());
                bus::law_replay_leaves_alone(switch_on, s, ctrlsts);
                assert(actions[6] == on[4]);
            },
            ClockSource::Lsi => {
                let x = on.drop_last();
                assert(x =~= seq![on[0], on[1], on[2]]);
                assert(x.drop_last() =~= seq![on[0], on[1]]);
                assert(x.drop_last().drop_last() =~= seq![on[0]]);
                assert(seq![on[0]].drop_last() =~= Seq::<Action>::empty());
                assert(actions[5] == on[3]);
            },
        }
    }
}

proof fn lemma_parts(
    first: Seq<Action>,
    second: Seq<Action>,
    third: Seq<Action>,
    fourth: Seq<Action>,
    reg: Register,
    word: u32,
)
    ensures
        bus::replayed(first + second + third + fourth, reg, word) == bus::replayed(
            fourth,
            reg,
            bus::replayed(third, reg, bus::replayed(second, reg, bus::replayed(first, reg, word))),
        ),
{
    bus::law_replay_concatenates(first + second + third, fourth, reg, word);
    bus::law_replay_concatenates(first + second, third, reg, word);
    bus::law_replay_concatenates(first, second, reg, word);
}

/// A part of the time of day is set exactly if some time of day has it, and a refusal changes nothing.
pub proof fn law_parts_of_the_time_are_set(
    value: u8,
    done: Result<(), rtc::Error>,
    before: Seq<Action>,
    after: Seq<Action>,
)
    ensures
        rtc::seconds_set(value, done, before, after) ==> {
            &&& done is Ok <==> calendar::time_exists(0, 0, value as int, 0)
            &&& done is Ok ==> after == before + rtc::session(
                true,
                seq![rtc::set_seconds_action(value)],
            )
            &&& done is Err ==> after == before
        },
        rtc::minutes_set(value, done, before, after) ==> {
            &&& done is Ok <==> calendar::time_exists(0, value as int, 0, 0)
            &&& done is Ok ==> after == before + rtc::session(
                true,
                seq![rtc::set_minutes_action(value)],
            )
            &&& done is Err ==> after == before
        },
        rtc::hours_set(value, done, before, after) ==> {
            &&& done is Ok <==> calendar::time_exists(value as int, 0, 0, 0)
            &&& done is Ok ==> after == before + rtc::session(
                true,
                seq![rtc::set_hours_action(value)],
            )
            &&& done is Err ==> after == before
        },
{
}

/// A part of the date is set exactly if some date has it, of a year exactly if two digits can tell it
/// from 1970 on; a refusal changes nothing.
pub proof fn law_parts_of_the_date_are_set(
    value: u8,
    year: u16,
    done: Result<(), rtc::Error>,
    before: Seq<Action>,
    after: Seq<Action>,
)
    ensures
        rtc::weekday_set(value, done, before, after) ==> {
            &&& done is Ok <==> exists|day: Weekday| #[trigger] day.number() == value
            &&& done is Ok ==> after == before + rtc::session(
                true,
                seq![rtc::set_weekday_action(value)],
            )
            &&& done is Err ==> after == before
        },
        rtc::day_set(value, done, before, after) ==> {
            &&& done is Ok <==> calendar::date_exists(2000, 1, value as int)
            &&& done is Ok ==> after == before + rtc::session(true, seq![rtc::set_day_action(value)])
            &&& done is Err ==> after == before
        },
        rtc::month_set(value, done, before, after) ==> {
            &&& done is Ok <==> calendar::date_exists(2000, value as int, 1)
            &&& done is Ok ==> after == before + rtc::session(
                true,
                seq![rtc::set_month_action(value)],
            )
            &&& done is Err ==> after == before
        },
        rtc::year_set(year, done, before, after) ==> {
            &&& done is Ok <==> 0 <= year - 1970 < 100
            &&& done is Ok ==> after == before + rtc::session(true, seq![rtc::set_year_action(year)])
            &&& done is Err ==> after == before
        },
{
    if value == 1 {
        assert(Weekday::Mon.number() == value);
    } else if value == 2 {
        assert(Weekday::Tue.number() == value);
    } else if value == 3 {
        assert(Weekday::Wed.number() == value);
    } else if value == 4 {
        assert(Weekday::Thu.number() == value);
    } else if value == 5 {
        assert(Weekday::Fri.number() == value);
    } else if value == 6 {
        assert(Weekday::Sat.number() == value);
    } else if value == 7 {
        assert(Weekday::Sun.number() == value);
    }
}

/// A date is set exactly if the clock can give it back, with a time of day or without; a refusal changes
/// nothing.
pub proof fn law_dates_of_the_clock_are_set(
    datetime: NaiveDateTime,
    done: Result<(), rtc::Error>,
    before: Seq<Action>,
    after: Seq<Action>,
)
    ensures
        rtc::date_set(datetime.date, done, before, after) ==> {
            &&& done is Ok <==> 0 <= datetime.date.year - 1970 < 100
            &&& done is Ok ==> after == before + rtc::session(
                true,
                seq![
                    Action::Write {
                        reg: Register::ErtcDate,
                        value: rtc::date_word(datetime.date),
                    },
                ],
            )
            &&& done is Err ==> after == before
        },
        rtc::datetime_set(datetime, done, before, after) ==> {
            &&& done is Ok <==> 0 <= datetime.date.year - 1970 < 100
            &&& done is Ok ==> after == before + rtc::set_datetime_actions(datetime)
            &&& done is Err ==> after == before
        },
{
}

/// A sample of the calendar is read by its own registers. Of a time stamp the year is that of the
/// calendar, and month, day and time are those of the stamp: two samples that differ in the rest of the
/// date register are read alike.
pub proof fn law_samples_are_read_by_their_digits(
    sample: CalendarSample,
    stamp: TimestampSample,
    other: TimestampSample,
)
    requires
        stamp.tssbs & 0xffff == other.tssbs & 0xffff,
        stamp.tstm == other.tstm,
        stamp.tsdt == other.tsdt,
        (stamp.date >> 20) & 0xf == (other.date >> 20) & 0xf,
        (stamp.date >> 16) & 0xf == (other.date >> 16) & 0xf,
        stamp.div & 0x7fff == other.div & 0x7fff,
    ensures
        sample.datetime() matches Some(read) ==> {
            &&& read.date.year == ((sample.date >> 20) & 0xf) * 10 + ((sample.date >> 16) & 0xf)
                + 1970
            &&& read.date.month == ((sample.date >> 12) & 1) * 10 + ((sample.date >> 8) & 0xf)
            &&& read.date.day == ((sample.date >> 4) & 3) * 10 + (sample.date & 0xf)
            &&& read.time.hour == ((sample.time >> 20) & 3) * 10 + ((sample.time >> 16) & 0xf)
            &&& read.time.minute == ((sample.time >> 12) & 7) * 10 + ((sample.time >> 8) & 0xf)
            &&& read.time.second == ((sample.time >> 4) & 7) * 10 + (sample.time & 0xf)
        },
        stamp.datetime() matches Some(read) ==> {
            &&& read.date.year == ((stamp.date >> 20) & 0xf) * 10 + ((stamp.date >> 16) & 0xf)
                + 1970
            &&& read.date.month == ((stamp.tsdt >> 12) & 1) * 10 + ((stamp.tsdt >> 8) & 0xf)
            &&& read.date.day == ((stamp.tsdt >> 4) & 3) * 10 + (stamp.tsdt & 0xf)
            &&& read.time.hour == ((stamp.tstm >> 20) & 3) * 10 + ((stamp.tstm >> 16) & 0xf)
            &&& read.time.minute == ((stamp.tstm >> 12) & 7) * 10 + ((stamp.tstm >> 8) & 0xf)
            &&& read.time.second == ((stamp.tstm >> 4) & 7) * 10 + (stamp.tstm & 0xf)
        },
        stamp.datetime() == other.datetime(),
        // A stamp taken of what the calendar shows is read as the calendar is.
        stamp.tssbs & 0xffff == sample.sbs && stamp.tstm == sample.time && stamp.tsdt == sample.date
            && stamp.date == sample.date && stamp.div == sample.div ==> stamp.datetime()
            == sample.datetime(),
{
    let sbs = (stamp.tssbs & 0xffff) as u16;
    law_calendar_is_read_by_its_digits(
        sample.sbs,
        sample.time,
        sample.date,
        sample.date,
        sample.div,
    );
    law_calendar_is_read_by_its_digits(sbs, stamp.tstm, stamp.tsdt, stamp.date, stamp.div);
    lemma_words(stamp.div, 0, 0);
    lemma_words(other.div, 0, 0);
}

/// An event is pending exactly if its flag is set, each event by a flag of its own.
pub proof fn law_pending_events_have_their_flag(event: Event, sts: u32)
    ensures
        Event::AlarmA.pending(sts) <==> sts & 0x100 != 0,
        Event::AlarmB.pending(sts) <==> sts & 0x200 != 0,
        Event::Wakeup.pending(sts) <==> sts & 0x400 != 0,
        Event::Timestamp.pending(sts) <==> sts & 0x800 != 0,
        !event.pending(bus::replayed(rtc::clear_interrupt_actions(event), Register::ErtcSts, sts)),
{
    law_listening_touches_nothing_else(event, 0, 0, sts);
}

} // verus!
