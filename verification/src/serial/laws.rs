//! What holds of serial communication as a whole.
use crate::bits;
use crate::bus;
use crate::bus::{Action, Register, Waiter};
use crate::serial;
use crate::serial::{Event, WriteStep};
use vstd::prelude::*;

verus! {

/// The interrupt enables of the first control register that the interrupt clears: those of what was
/// waited for and came, and on an error those of the reception.
pub open spec fn disabled(sts: u32, ctrl1: u32, ctrl3: u32) -> u32 {
    bits::when(
        serial::has_errors(sts, ctrl1, ctrl3),
        serial::CTRL1_RDBFIEN | serial::CTRL1_PERRIEN | serial::CTRL1_IDLEIEN,
    ) | bits::when(
        bits::any_set(ctrl1, serial::CTRL1_IDLEIEN) && bits::any_set(sts, serial::STS_IDLEF),
        serial::CTRL1_IDLEIEN,
    ) | bits::when(
        bits::any_set(ctrl1, serial::CTRL1_TDCIEN) && bits::any_set(sts, serial::STS_TDC),
        serial::CTRL1_TDCIEN,
    ) | bits::when(
        bits::any_set(ctrl1, serial::CTRL1_TDBEIEN) && bits::any_set(sts, serial::STS_TDBE),
        serial::CTRL1_TDBEIEN,
    ) | bits::when(
        bits::any_set(ctrl1, serial::CTRL1_RDBFIEN) && bits::any_set(sts, serial::STS_RDBF),
        serial::CTRL1_RDBFIEN,
    )
}

proof fn lemma_clears(word: u32, a: u32, b: u32, c: u32, d: u32, e: u32)
    by (bit_vector)
    ensures
        bits::modified(
            bits::modified(
                bits::modified(bits::modified(bits::modified(word, a, 0), b, 0), c, 0),
                d,
                0,
            ),
            e,
            0,
        ) == word & !(a | b | c | d | e),
        bits::modified(word, 0, 0) == word,
{
}

proof fn lemma_step(sts: u32, ctrl1: u32, flag: u32, enable: u32, word: u32)
    ensures
        bus::replayed(
            serial::disable_if(sts, ctrl1, flag, enable),
            Register::UsartCtrl1,
            word,
        ) == bits::modified(
            word,
            bits::when(bits::any_set(ctrl1, enable) && bits::any_set(sts, flag), enable),
            0,
        ),
        bus::replayed(serial::disable_if(sts, ctrl1, flag, enable), Register::UsartCtrl3, word)
            == word,
{
    reveal_with_fuel(bus::replayed, 2);
    lemma_clears(word, 0, 0, 0, 0, 0);
    let actions = serial::disable_if(sts, ctrl1, flag, enable);
    if actions.len() > 0 {
        assert(actions.drop_last() =~= Seq::<Action>::empty());
    }
}

/// The interrupt enables nothing. It disables exactly what was waited for and came; on an error it
/// disables the interrupts of the reception and its DMA requests too.
pub proof fn law_interrupt_disables_what_came(sts: u32, ctrl1: u32, ctrl3: u32)
    ensures
        bus::replayed(
            serial::interrupt_actions(sts, ctrl1, ctrl3),
            Register::UsartCtrl1,
            ctrl1,
        ) == ctrl1 & !disabled(sts, ctrl1, ctrl3),
        bus::replayed(
            serial::interrupt_actions(sts, ctrl1, ctrl3),
            Register::UsartCtrl3,
            ctrl3,
        ) == ctrl3 & !bits::when(
            serial::has_errors(sts, ctrl1, ctrl3),
            serial::CTRL3_ERRIEN | serial::CTRL3_DMAREN,
        ),
{
    reveal_with_fuel(bus::replayed, 3);
    let errors = serial::error_actions(sts, ctrl1, ctrl3);
    let idle = serial::disable_if(sts, ctrl1, serial::STS_IDLEF, serial::CTRL1_IDLEIEN);
    let complete = serial::disable_if(sts, ctrl1, serial::STS_TDC, serial::CTRL1_TDCIEN);
    let empty = serial::disable_if(sts, ctrl1, serial::STS_TDBE, serial::CTRL1_TDBEIEN);
    let full = serial::disable_if(sts, ctrl1, serial::STS_RDBF, serial::CTRL1_RDBFIEN);
    let wake = seq![
        Action::Wake { waiter: Waiter::UsartRx },
        Action::Wake { waiter: Waiter::UsartTx },
    ];
    let c1 = Register::UsartCtrl1;
    let c3 = Register::UsartCtrl3;
    lemma_clears(ctrl1, 0, 0, 0, 0, 0);
    if errors.len() > 0 {
        assert(errors.drop_last() =~= seq![errors[0]]);
        assert(errors.drop_last().drop_last() =~= Seq::<Action>::empty());
    }
    // First control register.
    let w1 = bus::replayed(errors, c1, ctrl1);
    bus::law_replay_concatenates(errors, idle, c1, ctrl1);
    bus::law_replay_concatenates(errors + idle, complete, c1, ctrl1);
    bus::law_replay_concatenates(errors + idle + complete, empty, c1, ctrl1);
    bus::law_replay_concatenates(errors + idle + complete + empty, full, c1, ctrl1);
    bus::law_replay_concatenates(errors + idle + complete + empty + full, wake, c1, ctrl1);
    let w2 = bus::replayed(errors + idle, c1, ctrl1);
    let w3 = bus::replayed(errors + idle + complete, c1, ctrl1);
    let w4 = bus::replayed(errors + idle + complete + empty, c1, ctrl1);
    let w5 = bus::replayed(errors + idle + complete + empty + full, c1, ctrl1);
    lemma_step(sts, ctrl1, serial::STS_IDLEF, serial::CTRL1_IDLEIEN, w1);
    lemma_step(sts, ctrl1, serial::STS_TDC, serial::CTRL1_TDCIEN, w2);
    lemma_step(sts, ctrl1, serial::STS_TDBE, serial::CTRL1_TDBEIEN, w3);
    lemma_step(sts, ctrl1, serial::STS_RDBF, serial::CTRL1_RDBFIEN, w4);
    bus::law_replay_leaves_alone(wake, c1, w5);
    lemma_clears(
        ctrl1,
        bits::when(
            serial::has_errors(sts, ctrl1, ctrl3),
            serial::CTRL1_RDBFIEN | serial::CTRL1_PERRIEN | serial::CTRL1_IDLEIEN,
        ),
        bits::when(
            bits::any_set(ctrl1, serial::CTRL1_IDLEIEN) && bits::any_set(sts, serial::STS_IDLEF),
            serial::CTRL1_IDLEIEN,
        ),
        bits::when(
            bits::any_set(ctrl1, serial::CTRL1_TDCIEN) && bits::any_set(sts, serial::STS_TDC),
            serial::CTRL1_TDCIEN,
        ),
        bits::when(
            bits::any_set(ctrl1, serial::CTRL1_TDBEIEN) && bits::any_set(sts, serial::STS_TDBE),
            serial::CTRL1_TDBEIEN,
        ),
        bits::when(
            bits::any_set(ctrl1, serial::CTRL1_RDBFIEN) && bits::any_set(sts, serial::STS_RDBF),
            serial::CTRL1_RDBFIEN,
        ),
    );
    // Third control register.
    let v1 = bus::replayed(errors, c3, ctrl3);
    bus::law_replay_concatenates(errors, idle, c3, ctrl3);
    bus::law_replay_concatenates(errors + idle, complete, c3, ctrl3);
    bus::law_replay_concatenates(errors + idle + complete, empty, c3, ctrl3);
    bus::law_replay_concatenates(errors + idle + complete + empty, full, c3, ctrl3);
    bus::law_replay_concatenates(errors + idle + complete + empty + full, wake, c3, ctrl3);
    lemma_step(sts, ctrl1, serial::STS_IDLEF, serial::CTRL1_IDLEIEN, v1);
    lemma_step(sts, ctrl1, serial::STS_TDC, serial::CTRL1_TDCIEN, v1);
    lemma_step(sts, ctrl1, serial::STS_TDBE, serial::CTRL1_TDBEIEN, v1);
    lemma_step(sts, ctrl1, serial::STS_RDBF, serial::CTRL1_RDBFIEN, v1);
    bus::law_replay_leaves_alone(wake, c3, v1);
    lemma_clears(
        ctrl3,
        bits::when(
            serial::has_errors(sts, ctrl1, ctrl3),
            serial::CTRL3_ERRIEN | serial::CTRL3_DMAREN,
        ),
        0,
        0,
        0,
        0,
    );
    lemma_zeros(
        ctrl3,
        bits::when(
            serial::has_errors(sts, ctrl1, ctrl3),
            serial::CTRL3_ERRIEN | serial::CTRL3_DMAREN,
        ),
    );
}

proof fn lemma_zeros(word: u32, mask: u32)
    by (bit_vector)
    ensures
        word & !(mask | 0 | 0 | 0 | 0) == word & !mask,
        bits::modified(word, mask, 0) == word & !mask,
        forall|w: u32| #[trigger] bits::modified(w, 0, 0) == w,
{
}

/// To stop listening for an event undoes to start listening for it, if nobody listened before.
pub proof fn law_unlisten_undoes_listen(event: Event, ctrl1: u32)
    requires
        !bits::any_set(ctrl1, event.enable()),
    ensures
        bits::any_set(
            bus::stored(serial::listen_action(event), Register::UsartCtrl1, ctrl1),
            event.enable(),
        ),
        bus::stored(
            serial::unlisten_action(event),
            Register::UsartCtrl1,
            bus::stored(serial::listen_action(event), Register::UsartCtrl1, ctrl1),
        ) == ctrl1,
{
    let enable = event.enable();
    assert(bits::modified(bits::modified(ctrl1, 0, enable), enable, 0) == ctrl1 && bits::modified(
        ctrl1,
        0,
        enable,
    ) & enable == enable) by (bit_vector)
        requires
            ctrl1 & enable == 0,
    ;
}

proof fn lemma_enables(
    ctrl1: u32,
    ctrl3: u32,
    errors: bool,
    idle: bool,
    complete: bool,
    empty: bool,
    full: bool,
)
    by (bit_vector)
    ensures
        ({
            let after = ctrl1 & !(bits::when(
                errors,
                serial::CTRL1_RDBFIEN | serial::CTRL1_PERRIEN | serial::CTRL1_IDLEIEN,
            ) | bits::when(idle, serial::CTRL1_IDLEIEN) | bits::when(complete, serial::CTRL1_TDCIEN)
                | bits::when(empty, serial::CTRL1_TDBEIEN) | bits::when(
                full,
                serial::CTRL1_RDBFIEN,
            ));
            &&& after & 0x10 != 0 <==> ctrl1 & 0x10 != 0 && !errors && !idle
            &&& after & 0x20 != 0 <==> ctrl1 & 0x20 != 0 && !errors && !full
            &&& after & 0x40 != 0 <==> ctrl1 & 0x40 != 0 && !complete
            &&& after & 0x80 != 0 <==> ctrl1 & 0x80 != 0 && !empty
            &&& after & 0x100 != 0 <==> ctrl1 & 0x100 != 0 && !errors
            &&& after & !0x1f0u32 == ctrl1 & !0x1f0u32
        }),
        ({
            let after = ctrl3 & !bits::when(errors, serial::CTRL3_ERRIEN | serial::CTRL3_DMAREN);
            &&& errors ==> after & 0x41 == 0 && after & !0x41u32 == ctrl3 & !0x41u32
            &&& !errors ==> after == ctrl3
        }),
{
}

/// The interrupt wakes both tasks, whatever came. Of what is waited for (an idle line, a word in, a
/// word out, room for a word) an interrupt stays enabled exactly if it did not come, whatever became
/// of the others. An error that is listened for, of parity or else of framing, noise or overrun, ends
/// the reception, its errors and its DMA requests, and no other bit changes.
pub proof fn law_interrupt_ends_the_waits_that_are_over(sts: u32, ctrl1: u32, ctrl3: u32)
    ensures
        ({
            let actions = serial::interrupt_actions(sts, ctrl1, ctrl3);
            let after = bus::replayed(actions, Register::UsartCtrl1, ctrl1);
            let after3 = bus::replayed(actions, Register::UsartCtrl3, ctrl3);
            let errors = (sts & 1 != 0 && ctrl1 & 0x100 != 0) || ((sts & 2 != 0 || sts & 4 != 0
                || sts & 8 != 0) && ctrl3 & 1 != 0);
            &&& actions.contains(Action::Wake { waiter: Waiter::UsartRx })
            &&& actions.contains(Action::Wake { waiter: Waiter::UsartTx })
            &&& after & 0x10 != 0 <==> ctrl1 & 0x10 != 0 && sts & 0x10 == 0 && !errors
            &&& after & 0x20 != 0 <==> ctrl1 & 0x20 != 0 && sts & 0x20 == 0 && !errors
            &&& after & 0x40 != 0 <==> ctrl1 & 0x40 != 0 && sts & 0x40 == 0
            &&& after & 0x80 != 0 <==> ctrl1 & 0x80 != 0 && sts & 0x80 == 0
            &&& after & 0x100 != 0 <==> ctrl1 & 0x100 != 0 && !errors
            &&& after & !0x1f0u32 == ctrl1 & !0x1f0u32
            &&& errors ==> after3 & 0x41 == 0 && after3 & !0x41u32 == ctrl3 & !0x41u32
            &&& !errors ==> after3 == ctrl3
        }),
{
    let actions = serial::interrupt_actions(sts, ctrl1, ctrl3);
    law_interrupt_disables_what_came(sts, ctrl1, ctrl3);
    lemma_enables(
        ctrl1,
        ctrl3,
        serial::has_errors(sts, ctrl1, ctrl3),
        bits::any_set(ctrl1, serial::CTRL1_IDLEIEN) && bits::any_set(sts, serial::STS_IDLEF),
        bits::any_set(ctrl1, serial::CTRL1_TDCIEN) && bits::any_set(sts, serial::STS_TDC),
        bits::any_set(ctrl1, serial::CTRL1_TDBEIEN) && bits::any_set(sts, serial::STS_TDBE),
        bits::any_set(ctrl1, serial::CTRL1_RDBFIEN) && bits::any_set(sts, serial::STS_RDBF),
    );
    let n = actions.len();
    assert(actions[n - 2] == (Action::Wake { waiter: Waiter::UsartRx }));
    assert(actions[n - 1] == (Action::Wake { waiter: Waiter::UsartTx }));
}

/// A task that listens for an event is woken by it and stops listening: once it listens, the flag of
/// the event ends that, whatever else is flagged.
pub proof fn law_event_ends_the_listening(event: Event, sts: u32, ctrl1: u32, ctrl3: u32)
    requires
        event == Event::Rxne ==> sts & 0x20 != 0,
        event == Event::Txe ==> sts & 0x80 != 0,
        event == Event::Idle ==> sts & 0x10 != 0,
    ensures
        ({
            let listening = bus::stored(serial::listen_action(event), Register::UsartCtrl1, ctrl1);
            let actions = serial::interrupt_actions(sts, listening, ctrl3);
            let after = bus::replayed(actions, Register::UsartCtrl1, listening);
            &&& event == Event::Rxne ==> listening & 0x20 == 0x20 && after & 0x20 == 0
            &&& event == Event::Txe ==> listening & 0x80 == 0x80 && after & 0x80 == 0
            &&& event == Event::Idle ==> listening & 0x10 == 0x10 && after & 0x10 == 0
            &&& actions.contains(
                Action::Wake {
                    waiter: if event == Event::Txe {
                        Waiter::UsartTx
                    } else {
                        Waiter::UsartRx
                    },
                },
            )
        }),
{
    let listening = bus::stored(serial::listen_action(event), Register::UsartCtrl1, ctrl1);
    bits::law_modify_stores(ctrl1, 0, event.enable());
    law_interrupt_ends_the_waits_that_are_over(sts, listening, ctrl3);
}

/// Reads and writes go byte by byte: what is offered is the first byte of the buffer, what is received
/// becomes the first byte of the buffer and leaves the others as they were, and one byte is reported. The
/// interrupt that is awaited meanwhile is the one of data, or of room, and with nothing to do there is
/// none.
pub proof fn law_bytes_go_one_by_one(
    bytes: Seq<u8>,
    byte: u8,
    len: usize,
    ctrl1: u32,
    step: WriteStep,
    done: Option<usize>,
    posted: Seq<Action>,
    now: Seq<Action>,
    filled: Seq<u8>,
    i: int,
)
    ensures
        serial::write_begun(bytes, step, posted, now) ==> {
            &&& bytes.len() == 0 <==> step == WriteStep::Nothing
            &&& step matches WriteStep::Offer(offered) ==> offered == bytes.first()
            &&& step == WriteStep::Nothing ==> now == posted
            &&& step is Offer ==> now.drop_last() =~= posted && bus::stored(
                now.last(),
                Register::UsartCtrl1,
                ctrl1,
            ) & 0x80 == 0x80
        },
        serial::read_begun(len, done, posted, now) ==> {
            &&& len == 0 ==> done == Some(0usize) && now == posted
            &&& len != 0 ==> done is None && now.drop_last() =~= posted && bus::stored(
                now.last(),
                Register::UsartCtrl1,
                ctrl1,
            ) & 0x20 == 0x20
        },
        serial::read_done(None, done, bytes, filled) ==> done is None && filled == bytes,
        serial::read_done(Some(byte), done, bytes, filled) && bytes.len() > 0 ==> {
            &&& done == Some(1usize)
            &&& filled.len() == bytes.len()
            &&& filled[0] == byte
            &&& 0 < i < bytes.len() ==> filled[i] == bytes[i]
        },
{
    bits::law_modify_stores(ctrl1, 0, 0x80);
    bits::law_modify_stores(ctrl1, 0, 0x20);
}

} // verus!
