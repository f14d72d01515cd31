//! What holds of the frames that come and go, told by the bits of the registers.
use crate::bits;
use crate::bus;
use crate::bus::{Action, Interrupt, Register, Waiter};
use crate::can::buffer;
use crate::can::buffer::{RxBuf, TxBuf};
use crate::can::driver;
use crate::can::driver::{RxMode, TxMode};
use crate::can::frame;
use crate::can::frame::{
    BusError, Envelope, Fifo, Frame, Mailbox, NominalBitTiming, TransmitStatus, TryReadError,
};
use crate::can::id;
use crate::can::id::{ExtendedId, Id, IdReg, StandardId};
use crate::can::laws;
use crate::can::registers;
use crate::can::registers::{Decision, FifoSample, MailboxSample, Registers, Transmission};
use vstd::prelude::*;

verus! {

proof fn lemma_words(word: u32, len: u32, set: u32, enabled: bool)
    by (bit_vector)
    ensures
        word >> 0u32 == word,
        word & 3 <= 3,
        (word >> 4u32) & 7 <= 7,
        len <= 15 ==> (len & 0xf) << 0u32 == len,
        // A FIFO register once a frame was released.
        bits::modified(word, 0x38, 0x20) & 0x20 == 0x20,
        bits::modified(word, 0x38, 0x20) & 0x18 == 0,
        bits::modified(word, 0x38, 0x20) & !0x38u32 == word & !0x38u32,
        // Flags of the main status that were acknowledged.
        bits::modified(word, 0x1c, 4) & 0x1c == 4,
        bits::modified(word, 0x1c, 4) & !0x1cu32 == word & !0x1cu32,
        bits::modified(word, 0x1c, 0x10) & 0x1c == 0x10,
        bits::modified(word, 0x1c, 0x10) & !0x1cu32 == word & !0x1cu32,
        // Interrupts that were enabled or disabled.
        bits::modified(word, 0, set) == word | set,
        bits::modified(word, set, 0) == word & !set,
        (registers::INTEN_RF0MIEN | registers::INTEN_RF1MIEN) == 0x12,
        // Modes.
        ({
            let after = bits::modified(
                word,
                0x10u32 | registers::MCTRL_SPRST,
                bits::when(!enabled, 0x10),
            );
            &&& (after & 0x10 == 0) == enabled
            &&& after & 0x8000 == 0
            &&& after & !0x8010u32 == word & !0x8010u32
        }),
        ({
            let after = bits::modified(
                word,
                0x20u32 | registers::MCTRL_SPRST,
                bits::when(enabled, 0x20),
            );
            &&& (after & 0x20 != 0) == enabled
            &&& after & 0x8000 == 0
            &&& after & !0x8020u32 == word & !0x8020u32
        }),
        ({
            let after = bits::modified(
                word,
                0x4u32 | registers::MCTRL_SPRST,
                bits::when(enabled, 0x4),
            );
            &&& (after & 0x4 != 0) == enabled
            &&& after & 0x8000 == 0
            &&& after & !0x8004u32 == word & !0x8004u32
        }),
        ({
            let after = bits::modified(word, 0x8000_0000u32, bits::when(enabled, 0x8000_0000));
            &&& (after & 0x8000_0000 != 0) == enabled
            &&& after & !0x8000_0000u32 == word & !0x8000_0000u32
        }),
        ({
            let after = bits::modified(word, 0x4000_0000u32, bits::when(enabled, 0x4000_0000));
            &&& (after & 0x4000_0000 != 0) == enabled
            &&& after & !0x4000_0000u32 == word & !0x4000_0000u32
        }),
        // Sleep.
        ({
            let after = bits::modified(word, 0x2u32 | registers::MCTRL_SPRST, 0x40);
            &&& after & 0x2 == 0
            &&& after & 0x40 == 0x40
            &&& after & !0x8042u32 == word & !0x8042u32
        }),
        ({
            let after = bits::modified(word, 0u32 | registers::MCTRL_SPRST, 0x2);
            &&& after & 0x2 == 0x2
            &&& after & !0x8002u32 == word & !0x8002u32
        }),
        ({
            let after = bits::modified(
                word,
                registers::MCTRL_DZEN | registers::MCTRL_FZEN | registers::MCTRL_SPRST,
                0,
            );
            &&& after & 0x3 == 0
            &&& after & !0x8003u32 == word & !0x8003u32
        }),
        ({
            let after = bits::modified(word, 0x2u32 | registers::MCTRL_SPRST, 0x1);
            &&& after & 0x3 == 0x1
            &&& after & !0x8003u32 == word & !0x8003u32
        }),
        ({
            let after = bits::modified(word, 0x1u32 | registers::MCTRL_SPRST, 0x2);
            &&& after & 0x3 == 0x2
            &&& after & !0x8003u32 == word & !0x8003u32
        }),
{
}

/// If frames are sent by priority and every mailbox is taken, a frame with a priority of its own and
/// above that of the frame that is to be sent last takes the place of the latter, whichever mailbox
/// that is in. A frame that is not above it is refused.
pub proof fn law_higher_priority_replaces(
    regs: Registers,
    frame: Frame,
    pending0: Frame,
    pending1: Frame,
    pending2: Frame,
    last: Frame,
    mailbox: Mailbox,
)
    requires
        frame.wf(),
        pending0.wf(),
        pending1.wf(),
        pending2.wf(),
        regs.mctrl & 4 == 0,
        regs.tsts & 0x0400_0000 == 0,
        regs.tsts & 0x0800_0000 == 0,
        regs.tsts & 0x1000_0000 == 0,
        regs.tmi@[0] == registers::request_word(pending0),
        regs.tmi@[1] == registers::request_word(pending1),
        regs.tmi@[2] == registers::request_word(pending2),
        (regs.tsts >> 24) & 3 < 3,
        (regs.tsts >> 24) & 3 == 0 ==> mailbox == Mailbox::Mailbox0 && last == pending0,
        (regs.tsts >> 24) & 3 == 1 ==> mailbox == Mailbox::Mailbox1 && last == pending1,
        (regs.tsts >> 24) & 3 == 2 ==> mailbox == Mailbox::Mailbox2 && last == pending2,
        (frame.header.id, frame.header.rtr) != (pending0.header.id, pending0.header.rtr),
        (frame.header.id, frame.header.rtr) != (pending1.header.id, pending1.header.rtr),
        (frame.header.id, frame.header.rtr) != (pending2.header.id, pending2.header.rtr),
    ensures
        ({
            let new = id::place(id::frame_register(frame.header.id, frame.header.rtr));
            let old = id::place(id::frame_register(last.header.id, last.header.rtr));
            regs.decision(frame) == if new < old {
                Decision::Replace(mailbox)
            } else {
                Decision::Refuse
            }
        }),
{
    laws::lemma_differs(frame, pending0);
    laws::lemma_differs(frame, pending1);
    laws::lemma_differs(frame, pending2);
    laws::law_identifier_reads_back(last.header.id, last.header.rtr);
}

/// If frames are sent by priority, every mailbox is taken, and the frame that was to be sent last has
/// left its mailbox in the meantime, a frame with a priority of its own takes its place.
pub proof fn law_frame_that_left_is_replaced(regs: Registers, frame: Frame, mailbox: Mailbox)
    requires
        regs.mctrl & 4 == 0,
        regs.tsts & 0x0400_0000 == 0,
        regs.tsts & 0x0800_0000 == 0,
        regs.tsts & 0x1000_0000 == 0,
        (regs.tsts >> 24) & 3 == mailbox.number(),
        regs.tmi@[mailbox.number() as int] & 1 == 0,
        forall|i: int|
            0 <= i < 3 ==> (#[trigger] regs.tmi@[i]) & 1 == 0 || regs.tmi@[i] & 0xffff_fffe
                != id::frame_register(frame.header.id, frame.header.rtr).0,
    ensures
        regs.decision(frame) == Decision::Replace(mailbox),
{
    assert(regs.tmi@[0] == regs.ident(Mailbox::Mailbox0));
    assert(regs.tmi@[1] == regs.ident(Mailbox::Mailbox1));
    assert(regs.tmi@[2] == regs.ident(Mailbox::Mailbox2));
}

/// If frames are sent by priority and a mailbox is taken, a frame waits for one with its identifier
/// and kind that a mailbox still requests to send.
pub proof fn law_same_identifier_waits(regs: Registers, frame: Frame, i: int)
    requires
        0 <= i < 3,
        regs.mctrl & 4 == 0,
        regs.tsts & 0x0400_0000 == 0 || regs.tsts & 0x0800_0000 == 0 || regs.tsts & 0x1000_0000
            == 0,
        regs.tmi@[i] & 1 != 0,
        regs.tmi@[i] & 0xffff_fffe == id::frame_register(frame.header.id, frame.header.rtr).0,
    ensures
        regs.decision(frame) == Decision::Refuse,
        regs.has_to_wait(frame),
{
    assert(regs.tmi@[0] == regs.ident(Mailbox::Mailbox0));
    assert(regs.tmi@[1] == regs.ident(Mailbox::Mailbox1));
    assert(regs.tmi@[2] == regs.ident(Mailbox::Mailbox2));
}

/// A frame goes to the free mailbox that the controller names: if frames are sent in the order of
/// their requests, always; if they are sent by priority, unless one with the same identifier and kind
/// is requested while some mailbox is taken.
pub proof fn law_free_mailbox_is_used(regs: Registers, frame: Frame, mailbox: Mailbox)
    requires
        regs.tsts & 0x0400_0000 != 0 || regs.tsts & 0x0800_0000 != 0 || regs.tsts & 0x1000_0000
            != 0,
        (regs.tsts >> 24) & 3 == mailbox.number(),
        regs.mctrl & 4 != 0 || (regs.tsts & 0x0400_0000 != 0 && regs.tsts & 0x0800_0000 != 0
            && regs.tsts & 0x1000_0000 != 0) || forall|i: int|
            0 <= i < 3 ==> (#[trigger] regs.tmi@[i]) & 1 == 0 || regs.tmi@[i] & 0xffff_fffe
                != id::frame_register(frame.header.id, frame.header.rtr).0,
    ensures
        regs.decision(frame) == Decision::Use(mailbox),
        !regs.has_to_wait(frame),
{
    assert(regs.tmi@[0] == regs.ident(Mailbox::Mailbox0));
    assert(regs.tmi@[1] == regs.ident(Mailbox::Mailbox1));
    assert(regs.tmi@[2] == regs.ident(Mailbox::Mailbox2));
}

/// If frames are sent in the order of their requests and every mailbox is taken, a frame is refused.
pub proof fn law_full_queue_refuses(regs: Registers, frame: Frame)
    requires
        regs.mctrl & 4 != 0,
        regs.tsts & 0x0400_0000 == 0,
        regs.tsts & 0x0800_0000 == 0,
        regs.tsts & 0x1000_0000 == 0,
    ensures
        regs.decision(frame) == Decision::Refuse,
        regs.has_to_wait(frame),
{
}

/// What an attempt to transmit comes to depends on nothing but the scheduling, the transmit status
/// and the identifier words of the mailboxes, and of the frame on identifier and kind alone.
pub proof fn law_decision_ignores_the_rest(a: Registers, b: Registers, frame: Frame, other: Frame)
    requires
        a.mctrl & 4 == b.mctrl & 4,
        a.tsts & 0x0400_0000 == b.tsts & 0x0400_0000,
        a.tsts & 0x0800_0000 == b.tsts & 0x0800_0000,
        a.tsts & 0x1000_0000 == b.tsts & 0x1000_0000,
        (a.tsts >> 24) & 3 == (b.tsts >> 24) & 3,
        a.tmi@ == b.tmi@,
        frame.header.id == other.header.id,
        frame.header.rtr == other.header.rtr,
    ensures
        a.decision(frame) == b.decision(other),
        a.has_to_wait(frame) == b.has_to_wait(other),
{
}

/// What the registers say of the mailboxes, of the order in which frames are sent and of sleep; an
/// attempt to transmit, a flush and an abort all go by the same bits.
pub proof fn law_transmit_status(regs: Registers)
    ensures
        registers::mailbox_empty(regs.tsts, Mailbox::Mailbox0) <==> regs.tsts & 0x0400_0000 != 0,
        registers::mailbox_empty(regs.tsts, Mailbox::Mailbox1) <==> regs.tsts & 0x0800_0000 != 0,
        registers::mailbox_empty(regs.tsts, Mailbox::Mailbox2) <==> regs.tsts & 0x1000_0000 != 0,
        registers::mailbox_sent(regs.tsts, Mailbox::Mailbox0) <==> regs.tsts & 0x0000_0002 != 0,
        registers::mailbox_sent(regs.tsts, Mailbox::Mailbox1) <==> regs.tsts & 0x0000_0200 != 0,
        registers::mailbox_sent(regs.tsts, Mailbox::Mailbox2) <==> regs.tsts & 0x0002_0000 != 0,
        regs.all_pending() <==> regs.tsts & 0x0400_0000 == 0 && regs.tsts & 0x0800_0000 == 0
            && regs.tsts & 0x1000_0000 == 0,
        regs.some_pending() <==> regs.tsts & 0x0400_0000 == 0 || regs.tsts & 0x0800_0000 == 0
            || regs.tsts & 0x1000_0000 == 0,
        regs.fifo_scheduling() <==> regs.mctrl & 4 != 0,
        registers::asleep(regs.msts) <==> regs.msts & 2 != 0,
{
}

/// The words of a mailbox hold the frame that was put there: the identifier in the upper bits, its
/// kind below, the request to send in the lowest bit; the length; the bytes, the first one lowest. The
/// request comes last, and no other mailbox is touched.
pub proof fn law_mailbox_words(
    mailbox: Mailbox,
    other: Mailbox,
    frame: Frame,
    tmi: u32,
    tmc: u32,
    tmdtl: u32,
    tmdth: u32,
)
    requires
        frame.wf(),
    ensures
        ({
            let actions = registers::write_mailbox_actions(mailbox, frame);
            let ident = bus::replayed(actions, Register::CanTmi(mailbox), tmi);
            let length = bus::replayed(actions, Register::CanTmc(mailbox), tmc);
            let low = bus::replayed(actions, Register::CanTmdtl(mailbox), tmdtl);
            let high = bus::replayed(actions, Register::CanTmdth(mailbox), tmdth);
            &&& frame.header.id matches Id::Standard(standard) ==> ident >> 21 == standard.raw
                && ident & 4 == 0
            &&& frame.header.id matches Id::Extended(extended) ==> ident >> 3 == extended.raw
                && ident & 4 != 0
            &&& ident & 2 != 0 <==> frame.header.rtr
            &&& ident & 1 == 1
            &&& length == frame.header.len
            &&& low == frame.data@[0] + 0x100 * frame.data@[1] + 0x1_0000 * frame.data@[2]
                + 0x100_0000 * frame.data@[3]
            &&& high == frame.data@[4] + 0x100 * frame.data@[5] + 0x1_0000 * frame.data@[6]
                + 0x100_0000 * frame.data@[7]
            &&& actions.last() == (Action::Write { reg: Register::CanTmi(mailbox), value: ident })
            &&& other != mailbox ==> {
                &&& bus::leaves_alone(actions, Register::CanTmi(other))
                &&& bus::leaves_alone(actions, Register::CanTmc(other))
                &&& bus::leaves_alone(actions, Register::CanTmdtl(other))
                &&& bus::leaves_alone(actions, Register::CanTmdth(other))
            }
            &&& bus::leaves_alone(actions, Register::CanTsts)
            &&& bus::leaves_alone(actions, Register::CanMctrl)
            &&& bus::leaves_alone(actions, Register::CanInten)
        }),
{
    reveal_with_fuel(bus::replayed, 5);
    let actions = registers::write_mailbox_actions(mailbox, frame);
    assert(actions.drop_last() == seq![actions[0], actions[1], actions[2]]);
    assert(actions.drop_last().drop_last() == seq![actions[0], actions[1]]);
    assert(actions.drop_last().drop_last().drop_last() == seq![actions[0]]);
    match frame.header.id {
        Id::Standard(standard) => laws::lemma_standard_word(standard.raw as u32, frame.header.rtr),
        Id::Extended(extended) => laws::lemma_extended_word(extended.raw, frame.header.rtr),
    }
    lemma_words(0, frame.header.len as u32, 0, false);
    let low = frame.data@.subrange(0, 4);
    let high = frame.data@.subrange(4, 8);
    assert(low[0] == frame.data@[0] && low[1] == frame.data@[1] && low[2] == frame.data@[2]
        && low[3] == frame.data@[3]);
    assert(high[0] == frame.data@[4] && high[1] == frame.data@[5] && high[2] == frame.data@[6]
        && high[3] == frame.data@[7]);
}

/// The request of a mailbox is cancelled by its own bit of the transmit status, without touching what
/// is complete; the wait ends when that bit is clear, and the registers of that mailbox are sampled
/// only then.
pub proof fn law_cancel_is_awaited(mailbox: Mailbox)
    ensures
        ({
            let actions = registers::cancel_actions(mailbox);
            let bit: u32 = match mailbox {
                Mailbox::Mailbox0 => 0x80,
                Mailbox::Mailbox1 => 0x8000,
                Mailbox::Mailbox2 => 0x80_0000,
            };
            &&& actions.len() == 7
            &&& actions[0] == (Action::Write {
                reg: Register::CanTsts,
                value: registers::TSTS_RESET | bit,
            })
            &&& actions[1] == (Action::Wait { reg: Register::CanTsts, mask: bit, value: 0 })
            &&& forall|i: int| 2 <= i < 7 ==> #[trigger] actions[i] is Sample
            &&& actions.contains(Action::Sample { reg: Register::CanTsts })
            &&& actions.contains(Action::Sample { reg: Register::CanTmi(mailbox) })
            &&& actions.contains(Action::Sample { reg: Register::CanTmc(mailbox) })
            &&& actions.contains(Action::Sample { reg: Register::CanTmdtl(mailbox) })
            &&& actions.contains(Action::Sample { reg: Register::CanTmdth(mailbox) })
        }),
{
    let actions = registers::cancel_actions(mailbox);
    assert(actions[2] == (Action::Sample { reg: Register::CanTsts }));
    assert(actions[3] == (Action::Sample { reg: Register::CanTmi(mailbox) }));
    assert(actions[4] == (Action::Sample { reg: Register::CanTmdtl(mailbox) }));
    assert(actions[5] == (Action::Sample { reg: Register::CanTmdth(mailbox) }));
    assert(actions[6] == (Action::Sample { reg: Register::CanTmc(mailbox) }));
}

/// Whatever the registers hold, a frame is refused without a trace, or put in a mailbox, or takes the
/// place of another: what the caller is told is what happens on the bus.
pub proof fn law_transmission_is_told(
    regs: Registers,
    frame: Frame,
    transmission: Option<Transmission>,
    before: Seq<Action>,
    after: Seq<Action>,
)
    requires
        driver::transmitted(regs, frame, transmission, before, after),
    ensures
        transmission is None <==> regs.decision(frame) == Decision::Refuse,
        transmission is None ==> after == before,
        transmission matches Some(Transmission::Queued(status)) ==> regs.decision(frame)
            == Decision::Use(status.mailbox) && status.dequeued_frame is None && after == before
            + registers::write_mailbox_actions(status.mailbox, frame),
        transmission matches Some(Transmission::Cancelling(mailbox)) ==> regs.decision(frame)
            == Decision::Replace(mailbox) && after == before + registers::cancel_actions(mailbox),
{
}

/// A FIFO holds a frame exactly if its register counts one, two or three. Then, and only then, a frame
/// is handed out and released, and a task that waits for a frame is told that there is one.
pub proof fn law_counted_frames_are_handed_out(
    sample: FifoSample,
    other: FifoSample,
    fifo: Fifo,
    ts: u64,
    received: Option<Envelope>,
)
    requires
        registers::received_from(sample, ts, received),
    ensures
        registers::fifo_filled(sample) <==> sample.rf & 3 == 1 || sample.rf & 3 == 2 || sample.rf
            & 3 == 3,
        received is Some <==> sample.rf & 3 != 0,
        registers::frame_available(sample.rf, other.rf) <==> sample.rf & 3 != 0 || other.rf & 3
            != 0,
        received is Some ==> registers::frame_available(sample.rf, other.rf)
            && registers::frame_available(other.rf, sample.rf),
        ({
            let actions = registers::release_actions(fifo, sample);
            let after = bus::replayed(actions, Register::CanRf(fifo), sample.rf);
            &&& received is None ==> actions.len() == 0
            &&& received is Some ==> actions.len() == 1 && after & 0x20 == 0x20 && after & 0x18 == 0
                && after & !0x38u32 == sample.rf & !0x38u32
            &&& forall|reg: Register|
                reg != Register::CanRf(fifo) ==> #[trigger] bus::leaves_alone(actions, reg)
        }),
{
    reveal_with_fuel(bus::replayed, 2);
    lemma_words(sample.rf, 0, 0, false);
    lemma_words(other.rf, 0, 0, false);
    let actions = registers::release_actions(fifo, sample);
    if actions.len() > 0 {
        assert(actions.drop_last() == Seq::<Action>::empty());
    }
}

/// A frame that is received is the one in the registers: its identifier stands in the upper 11 or 29
/// bits, its kind below, its length in the lowest four bits of the length register, its bytes in the
/// data registers, the first one lowest.
pub proof fn law_received_frame_is_the_one_in_the_registers(
    sample: FifoSample,
    ts: u64,
    envelope: Envelope,
)
    requires
        registers::received_from(sample, ts, Some(envelope)),
    ensures
        envelope.ts == ts,
        registers_hold(envelope.frame, sample.rfi, sample.rfc, sample.rfdtl, sample.rfdth),
{
    law_taken_frame_is_the_one_in_the_registers(
        envelope.frame,
        sample.rfi,
        sample.rfc,
        sample.rfdtl,
        sample.rfdth,
    );
}

/// Whether the words of an identifier, a length and both data registers are those of a frame.
pub open spec fn registers_hold(frame: Frame, ident: u32, length: u32, low: u32, high: u32) -> bool {
    &&& ident & 4 != 0 ==> frame.header.id == Id::Extended(ExtendedId { raw: ident >> 3 })
    &&& ident & 4 == 0 ==> frame.header.id == Id::Standard(
        StandardId { raw: (ident >> 21) as u16 },
    )
    &&& frame.header.rtr <==> ident & 2 != 0
    &&& frame.header.len == length & 0xf
    &&& frame.data@.len() == 8
    &&& low == frame.data@[0] + 0x100 * frame.data@[1] + 0x1_0000 * frame.data@[2] + 0x100_0000
        * frame.data@[3]
    &&& high == frame.data@[4] + 0x100 * frame.data@[5] + 0x1_0000 * frame.data@[6] + 0x100_0000
        * frame.data@[7]
}

proof fn lemma_lowest_field(word: u32)
    ensures
        bits::field(word, 0xf, 0) == word & 0xf,
{
    lemma_words(word, 0, 0, false);
}

proof fn lemma_word_of_its_bytes(word: u32)
    ensures
        ({
            let bytes = frame::bytes_of(word);
            &&& bytes.len() == 4
            &&& word == bytes[0] + 0x100 * bytes[1] + 0x1_0000 * bytes[2] + 0x100_0000 * bytes[3]
        }),
{
    lemma_sum(word);
}

proof fn lemma_sum(word: u32)
    by (bit_vector)
    ensures
        word % 0x100 < 0x100,
        word / 0x100 % 0x100 < 0x100,
        word / 0x1_0000 % 0x100 < 0x100,
        word / 0x100_0000 < 0x100,
        word == word % 0x100 + 0x100 * (word / 0x100 % 0x100) + 0x1_0000 * (word / 0x1_0000
            % 0x100) + 0x100_0000 * (word / 0x100_0000),
{
}

/// A frame that is taken out of registers is the one that they hold.
pub proof fn law_taken_frame_is_the_one_in_the_registers(
    frame: Frame,
    ident: u32,
    length: u32,
    low: u32,
    high: u32,
)
    requires
        registers::holds_frame(frame, ident, length, low, high),
    ensures
        registers_hold(frame, ident, length, low, high),
{
    lemma_lowest_field(length);
    lemma_word_of_its_bytes(low);
    lemma_word_of_its_bytes(high);
    let a = frame::bytes_of(low);
    let b = frame::bytes_of(high);
    assert(frame.data@ == a + b);
    assert(frame.data@[0] == a[0] && frame.data@[1] == a[1] && frame.data@[2] == a[2]
        && frame.data@[3] == a[3]);
    assert(frame.data@[4] == b[0] && frame.data@[5] == b[1] && frame.data@[6] == b[2]
        && frame.data@[7] == b[3]);
}

/// An attempt to read hands out a frame exactly if a FIFO counts one, the first FIFO before the second.
/// That frame is released and the interrupt of its FIFO enabled again; the other FIFO, and an error,
/// are left for later.
pub proof fn law_frames_are_read_first(
    regs: Registers,
    fifo0: FifoSample,
    fifo1: FifoSample,
    ts: u64,
    result: Result<Envelope, TryReadError>,
    inten: u32,
)
    requires
        driver::read_result(regs, fifo0, fifo1, ts, result),
    ensures
        result is Ok <==> fifo0.rf & 3 != 0 || fifo1.rf & 3 != 0,
        result is Ok <==> registers::frame_available(fifo0.rf, fifo1.rf),
        result matches Ok(envelope) ==> {
            let first = fifo0.rf & 3 != 0;
            let sample = if first {
                fifo0
            } else {
                fifo1
            };
            let fifo = if first {
                Fifo::Fifo0
            } else {
                Fifo::Fifo1
            };
            let other = if first {
                Fifo::Fifo1
            } else {
                Fifo::Fifo0
            };
            let actions = driver::read_actions(regs, fifo0, fifo1);
            &&& envelope.ts == ts
            &&& registers_hold(
                envelope.frame,
                sample.rfi,
                sample.rfc,
                sample.rfdtl,
                sample.rfdth,
            )
            &&& bus::replayed(actions, Register::CanRf(fifo), sample.rf) & 0x20 == 0x20
            &&& bus::leaves_alone(actions, Register::CanRf(other))
            &&& bus::leaves_alone(actions, Register::CanMsts)
            &&& bus::replayed(actions, Register::CanInten, inten) == inten | if first {
                0x2u32
            } else {
                0x10
            }
        },
{
    reveal_with_fuel(bus::replayed, 3);
    lemma_words(fifo0.rf, 0, 0, false);
    lemma_words(fifo1.rf, 0, 0, false);
    lemma_words(inten, 0, 2, false);
    lemma_words(inten, 0, 0x10, false);
    if result is Ok {
        let actions = driver::read_actions(regs, fifo0, fifo1);
        assert(actions.drop_last() =~= seq![actions[0]]);
        assert(actions.drop_last().drop_last() =~= Seq::<Action>::empty());
        let sample = if fifo0.rf & 3 != 0 {
            fifo0
        } else {
            fifo1
        };
        law_received_frame_is_the_one_in_the_registers(sample, ts, result->Ok_0);
    }
}

/// With both FIFOs empty, an attempt to read hands out the error that the main status reports and the
/// error status names, one for each of the seven codes. The error is acknowledged, no other flag is,
/// and its interrupt enabled again. Without an error both FIFOs are awaited.
pub proof fn law_errors_are_read_next(
    regs: Registers,
    fifo0: FifoSample,
    fifo1: FifoSample,
    ts: u64,
    result: Result<Envelope, TryReadError>,
    inten: u32,
)
    requires
        driver::read_result(regs, fifo0, fifo1, ts, result),
        fifo0.rf & 3 == 0,
        fifo1.rf & 3 == 0,
    ensures
        ({
            let code = (regs.ests >> 4) & 7;
            let reported = regs.msts & 4 != 0;
            let actions = driver::read_actions(regs, fifo0, fifo1);
            let status = bus::replayed(actions, Register::CanMsts, regs.msts);
            let enabled = bus::replayed(actions, Register::CanInten, inten);
            &&& result is Err
            &&& reported && code == 1 <==> result->Err_0 == TryReadError::BusError(BusError::Stuff)
            &&& reported && code == 2 <==> result->Err_0 == TryReadError::BusError(BusError::Form)
            &&& reported && code == 3 <==> result->Err_0 == TryReadError::BusError(
                BusError::Acknowledge,
            )
            &&& reported && code == 4 <==> result->Err_0 == TryReadError::BusError(
                BusError::BitRecessive,
            )
            &&& reported && code == 5 <==> result->Err_0 == TryReadError::BusError(
                BusError::BitDominant,
            )
            &&& reported && code == 6 <==> result->Err_0 == TryReadError::BusError(BusError::Crc)
            &&& reported && code == 7 <==> result->Err_0 == TryReadError::BusError(
                BusError::Software,
            )
            &&& !reported || code == 0 <==> result->Err_0 == TryReadError::Empty
            &&& reported ==> status & 0x1c == 4 && status & !0x1cu32 == regs.msts & !0x1cu32
            &&& !reported ==> status == regs.msts
            &&& reported && code != 0 ==> enabled == inten | 0x8000
            &&& reported && code == 0 ==> enabled == (inten | 0x8000) | 0x12
            &&& !reported ==> enabled == inten | 0x12
            &&& bus::leaves_alone(actions, Register::CanRf(Fifo::Fifo0))
            &&& bus::leaves_alone(actions, Register::CanRf(Fifo::Fifo1))
        }),
{
    reveal_with_fuel(bus::replayed, 4);
    lemma_words(fifo0.rf, 0, 0, false);
    lemma_words(fifo1.rf, 0, 0, false);
    lemma_words(regs.msts, 0, 0, false);
    lemma_words(inten, 0, 0x8000, false);
    lemma_words(inten, 0, 0x12, false);
    lemma_words(inten | 0x8000, 0, 0x12, false);
    lemma_words(regs.ests, 0, 0, false);
    let actions = driver::read_actions(regs, fifo0, fifo1);
    if regs.msts & 4 != 0 {
        if (regs.ests >> 4) & 7 == 0 {
            assert(actions.drop_last() =~= seq![actions[0], actions[1]]);
        }
        assert(seq![actions[0], actions[1]].drop_last() =~= seq![actions[0]]);
        assert(seq![actions[0]].drop_last() =~= Seq::<Action>::empty());
        assert(actions =~= seq![actions[0], actions[1]] || actions.drop_last() =~= seq![
            actions[0],
            actions[1],
        ]);
    } else {
        assert(actions =~= seq![actions[0]]);
        assert(actions.drop_last() =~= Seq::<Action>::empty());
    }
}

/// With a buffer, an attempt to read hands out what came first and leaves the bus alone. With nothing
/// in the buffer it hands out an error as without a buffer.
pub proof fn law_buffered_results_are_read_first(
    before: RxBuf,
    after: RxBuf,
    regs: Registers,
    fifo0: FifoSample,
    fifo1: FifoSample,
    ts: u64,
    result: Result<Envelope, TryReadError>,
    posted: Seq<Action>,
    now: Seq<Action>,
)
    requires
        driver::buffer_attempted(before, after, regs, result, posted, now),
    ensures
        before@.len() > 0 ==> {
            &&& after@.len() == before@.len() - 1
            &&& forall|i: int| 0 <= i < after@.len() ==> #[trigger] after@[i] == before@[i + 1]
            &&& before@[0] matches Ok(envelope) ==> result == Ok::<Envelope, TryReadError>(envelope)
            &&& before@[0] matches Err(error) ==> result == Err::<Envelope, TryReadError>(
                TryReadError::BusError(error),
            )
            &&& now == posted
        },
        before@.len() == 0 ==> after@.len() == 0,
        before@.len() == 0 && fifo0.rf & 3 == 0 && fifo1.rf & 3 == 0 ==> driver::read_result(
            regs,
            fifo0,
            fifo1,
            ts,
            result,
        ),
        before@.len() == 0 && regs.msts & 4 == 0 ==> now == posted,
        before@.len() == 0 && regs.msts & 4 != 0 ==> now == posted + seq![
            Action::Modify { reg: Register::CanMsts, clear: 0x1c, set: 4 },
            Action::Modify { reg: Register::CanInten, clear: 0, set: 0x8000 },
        ],
        buffer::rx_capacity(after) == buffer::rx_capacity(before),
{
    lemma_words(fifo0.rf, 0, 0, false);
    lemma_words(fifo1.rf, 0, 0, false);
}

/// What is taken out of the receive buffer is what came first; with nothing there, nothing is taken.
pub proof fn law_oldest_result_is_taken(
    before: RxBuf,
    after: RxBuf,
    taken: Option<Result<Envelope, BusError>>,
)
    requires
        driver::buffer_read(before, after, taken),
    ensures
        before@.len() == 0 ==> taken is None && after@.len() == 0,
        before@.len() > 0 ==> taken == Some(before@[0]) && seq![before@[0]] + after@ =~= before@,
{
}

/// A frame that finds room in the transmit buffer is appended, and the interrupt that fills the
/// mailboxes is made pending; one that does not changes nothing.
pub proof fn law_written_frames_queue_up(
    before: TxBuf,
    after: TxBuf,
    frame: Frame,
    written: bool,
    posted: Seq<Action>,
    now: Seq<Action>,
)
    requires
        driver::buffer_written(before, after, frame, written, posted, now),
    ensures
        before@.len() < buffer::tx_capacity(before) ==> written && after@ =~= before@ + seq![frame]
            && now =~= posted + seq![Action::Pend { interrupt: Interrupt::Can1Tx }],
        before@.len() >= buffer::tx_capacity(before) ==> !written && after@ =~= before@ && now
            =~= posted,
{
}

/// The interrupt of a FIFO without a buffer: the reader is woken, and there is no further interrupt of
/// that FIFO until it has read.
pub proof fn law_reader_is_woken(
    next: RxMode,
    fifo: Fifo,
    sample: FifoSample,
    ts: u64,
    again: bool,
    posted: Seq<Action>,
    now: Seq<Action>,
)
    requires
        driver::fifo_interrupt(RxMode::NonBuffered, next, fifo, sample, ts, again, posted, now),
    ensures
        !again,
        next is NonBuffered,
        now == posted + seq![
            Action::Modify {
                reg: Register::CanInten,
                clear: if fifo == Fifo::Fifo0 {
                    0x2
                } else {
                    0x10
                },
                set: 0,
            },
            Action::Wake { waiter: Waiter::CanRx },
        ],
{
}

/// The interrupt of a FIFO with a buffer: as long as the FIFO counts a frame, the frame is released and
/// the interrupt goes on. The frame is appended to the buffer and the reader woken if there is room,
/// however much was there before.
pub proof fn law_received_frames_queue_up(
    before: RxBuf,
    next: RxMode,
    fifo: Fifo,
    sample: FifoSample,
    ts: u64,
    again: bool,
    posted: Seq<Action>,
    now: Seq<Action>,
)
    requires
        driver::fifo_interrupt(
            RxMode::Buffered(before),
            next,
            fifo,
            sample,
            ts,
            again,
            posted,
            now,
        ),
    ensures
        again <==> sample.rf & 3 != 0,
        next is Buffered,
        ({
            let after = next->Buffered_0;
            let release = Action::Modify { reg: Register::CanRf(fifo), clear: 0x38, set: 0x20 };
            let wake = Action::Wake { waiter: Waiter::CanRx };
            let room = before@.len() < buffer::rx_capacity(before);
            &&& sample.rf & 3 == 0 ==> after@ =~= before@ && now =~= posted
            &&& sample.rf & 3 != 0 && !room ==> after@ =~= before@ && now =~= posted + seq![release]
            &&& sample.rf & 3 != 0 && room ==> {
                &&& after@.len() == before@.len() + 1
                &&& forall|i: int| 0 <= i < before@.len() ==> #[trigger] after@[i] == before@[i]
                &&& after@.last() matches Ok(envelope)
                &&& envelope.ts == ts
                &&& registers_hold(
                    envelope.frame,
                    sample.rfi,
                    sample.rfc,
                    sample.rfdtl,
                    sample.rfdth,
                )
                &&& now =~= posted + seq![release, wake]
            }
        }),
{
    lemma_words(sample.rf, 0, 0, false);
    let after = next->Buffered_0;
    if sample.rf & 3 != 0 && before@.len() < buffer::rx_capacity(before) {
        law_received_frame_is_the_one_in_the_registers(sample, ts, after@.last()->Ok_0);
        assert(after@.drop_last() =~= before@);
        assert forall|i: int| 0 <= i < before@.len() implies #[trigger] after@[i] == before@[i] by {
            assert(after@.drop_last()[i] == before@[i]);
        }
    }
}

/// The interrupt of the mailboxes: without a buffer the writer is woken. With one, the oldest frame
/// leaves the buffer if a mailbox is free, and the writer is woken; that frame goes to the mailbox that
/// the controller names, unless one with its identifier and kind is pending in the order of priority.
pub proof fn law_mailboxes_are_filled(
    mode: TxMode,
    next: TxMode,
    regs: Registers,
    again: bool,
    posted: Seq<Action>,
    now: Seq<Action>,
    mailbox: Mailbox,
)
    requires
        driver::mailbox_interrupt(mode, next, regs, again, posted, now),
        (regs.tsts >> 24) & 3 == mailbox.number(),
    ensures
        mode is NonBuffered ==> !again && next is NonBuffered && now =~= posted + seq![
            Action::Wake { waiter: Waiter::CanTx },
        ],
        mode matches TxMode::Buffered(before) ==> {
            let free = regs.tsts & 0x0400_0000 != 0 || regs.tsts & 0x0800_0000 != 0 || regs.tsts
                & 0x1000_0000 != 0;
            let all_free = regs.tsts & 0x0400_0000 != 0 && regs.tsts & 0x0800_0000 != 0 && regs.tsts
                & 0x1000_0000 != 0;
            let wake = Action::Wake { waiter: Waiter::CanTx };
            &&& next matches TxMode::Buffered(after)
            &&& again <==> free && before@.len() > 0
            &&& !again ==> after@ =~= before@ && now =~= posted
            &&& again ==> {
                let ident = id::frame_register(before@[0].header.id, before@[0].header.rtr).0;
                let waits = regs.mctrl & 4 == 0 && !all_free && exists|i: int|
                    0 <= i < 3 && (#[trigger] regs.tmi@[i]) & 1 != 0 && regs.tmi@[i] & 0xffff_fffe
                        == ident;
                &&& seq![before@[0]] + after@ =~= before@
                &&& waits ==> now =~= posted + seq![wake]
                &&& !waits ==> now =~= posted + registers::write_mailbox_actions(
                    mailbox,
                    before@[0],
                ) + seq![wake]
            }
        },
{
    if let TxMode::Buffered(before) = mode {
        let free = regs.tsts & 0x0400_0000 != 0 || regs.tsts & 0x0800_0000 != 0 || regs.tsts
            & 0x1000_0000 != 0;
        if free && before@.len() > 0 {
            let all_free = regs.tsts & 0x0400_0000 != 0 && regs.tsts & 0x0800_0000 != 0 && regs.tsts
                & 0x1000_0000 != 0;
            let ident = id::frame_register(before@[0].header.id, before@[0].header.rtr).0;
            let waits = regs.mctrl & 4 == 0 && !all_free && exists|i: int|
                0 <= i < 3 && (#[trigger] regs.tmi@[i]) & 1 != 0 && regs.tmi@[i] & 0xffff_fffe
                    == ident;
            if waits {
                let i = choose|i: int|
                    0 <= i < 3 && (#[trigger] regs.tmi@[i]) & 1 != 0 && regs.tmi@[i] & 0xffff_fffe
                        == ident;
                law_same_identifier_waits(regs, before@[0], i);
            } else {
                law_free_mailbox_is_used(regs, before@[0], mailbox);
            }
        }
    }
}

/// The status interrupt wakes the task that waits for it exactly if the controller fell asleep or an
/// error occurred. That the controller fell asleep is acknowledged, and nothing else is. Of an error
/// only the interrupt is disabled.
pub proof fn law_status_interrupt_wakes(regs: Registers, inten: u32)
    ensures
        ({
            let actions = driver::status_actions(regs);
            let status = bus::replayed(actions, Register::CanMsts, regs.msts);
            let enabled = bus::replayed(actions, Register::CanInten, inten);
            let wakes = actions.contains(Action::Wake { waiter: Waiter::CanErr });
            &&& wakes <==> regs.msts & 0x10 != 0 || regs.msts & 4 != 0
            &&& regs.msts & 0x10 != 0 ==> status & 0x1c == 0x10 && status & !0x1cu32 == regs.msts
                & !0x1cu32 && enabled == inten
            &&& regs.msts & 0x10 == 0 ==> status == regs.msts
            &&& regs.msts & 0x10 == 0 && regs.msts & 4 != 0 ==> enabled == inten & !0x8000u32
            &&& regs.msts & 0x10 == 0 && regs.msts & 4 == 0 ==> actions.len() == 0
        }),
{
    reveal_with_fuel(bus::replayed, 3);
    lemma_words(regs.msts, 0, 0, false);
    lemma_words(inten, 0, 0x8000, false);
    let actions = driver::status_actions(regs);
    if actions.len() > 0 {
        assert(actions.drop_last() =~= seq![actions[0]]);
        assert(actions.drop_last().drop_last() =~= Seq::<Action>::empty());
        assert(actions[1] == (Action::Wake { waiter: Waiter::CanErr }));
    }
}

/// Each mode is on after it was switched on and off after it was switched off, and no other bit of its
/// register has changed; the controller is not reset. Frames are sent once only if retransmission is
/// off.
pub proof fn law_modes_are_switched(mctrl: u32, btmg: u32, enabled: bool)
    ensures
        ({
            let after = bus::stored(
                registers::retransmit_action(enabled),
                Register::CanMctrl,
                mctrl,
            );
            &&& after & 0x10 == 0 <==> enabled
            &&& after & 0x8000 == 0
            &&& after & !0x8010u32 == mctrl & !0x8010u32
        }),
        ({
            let after = bus::stored(
                registers::automatic_wakeup_action(enabled),
                Register::CanMctrl,
                mctrl,
            );
            &&& after & 0x20 != 0 <==> enabled
            &&& after & 0x8000 == 0
            &&& after & !0x8020u32 == mctrl & !0x8020u32
        }),
        ({
            let after = bus::stored(
                registers::scheduling_action(enabled),
                Register::CanMctrl,
                mctrl,
            );
            &&& after & 0x4 != 0 <==> enabled
            &&& after & 0x8000 == 0
            &&& after & !0x8004u32 == mctrl & !0x8004u32
        }),
        ({
            let after = bus::stored(registers::silent_action(enabled), Register::CanBtmg, btmg);
            &&& after & 0x8000_0000 != 0 <==> enabled
            &&& after & !0x8000_0000u32 == btmg & !0x8000_0000u32
        }),
        ({
            let after = bus::stored(registers::loopback_action(enabled), Register::CanBtmg, btmg);
            &&& after & 0x4000_0000 != 0 <==> enabled
            &&& after & !0x4000_0000u32 == btmg & !0x4000_0000u32
        }),
{
    lemma_words(mctrl, 0, 0, enabled);
    lemma_words(btmg, 0, 0, enabled);
}

/// To enable the controller is to ask it to leave sleep and to leave the bus-off state by itself, as
/// long as it sleeps. To put it to sleep is to ask it to, and to be told when it does.
pub proof fn law_sleep_and_wake(msts: u32, mctrl: u32, inten: u32)
    ensures
        ({
            let actions = registers::enable_actions(msts);
            let after = bus::replayed(actions, Register::CanMctrl, mctrl);
            &&& msts & 2 == 0 ==> actions.len() == 0
            &&& msts & 2 != 0 ==> after & 0x2 == 0 && after & 0x40 == 0x40 && after & !0x8042u32
                == mctrl & !0x8042u32
        }),
        ({
            let actions = driver::sleep_actions();
            let after = bus::replayed(actions, Register::CanMctrl, mctrl);
            &&& after & 0x2 == 0x2
            &&& after & !0x8002u32 == mctrl & !0x8002u32
            &&& bus::replayed(actions, Register::CanInten, inten) == inten | 0x2_0000
        }),
        ({
            let actions = driver::sleep_entered_actions(msts);
            let after = bus::replayed(actions, Register::CanInten, inten);
            &&& msts & 2 != 0 ==> after == inten & !0x2_0000u32
            &&& msts & 2 == 0 ==> actions.len() == 0
        }),
        ({
            let after = bus::replayed(registers::wakeup_actions(), Register::CanMctrl, mctrl);
            &&& after & 0x3 == 0
            &&& after & !0x8003u32 == mctrl & !0x8003u32
        }),
        ({
            let after = bus::replayed(registers::enter_init_actions(), Register::CanMctrl, mctrl);
            &&& after & 0x3 == 0x1
            &&& after & !0x8003u32 == mctrl & !0x8003u32
        }),
        ({
            let after = bus::replayed(registers::doze_actions(), Register::CanMctrl, mctrl);
            &&& after & 0x3 == 0x2
            &&& after & !0x8003u32 == mctrl & !0x8003u32
        }),
{
    reveal_with_fuel(bus::replayed, 3);
    lemma_words(mctrl, 0, 0, false);
    lemma_words(inten, 0, 0x2_0000, false);
    let enable = registers::enable_actions(msts);
    if enable.len() > 0 {
        assert(enable.drop_last() =~= Seq::<Action>::empty());
    }
    let sleep = driver::sleep_actions();
    assert(sleep.drop_last() =~= seq![sleep[0]]);
    assert(sleep.drop_last().drop_last() =~= Seq::<Action>::empty());
    let entered = driver::sleep_entered_actions(msts);
    if entered.len() > 0 {
        assert(entered.drop_last() =~= Seq::<Action>::empty());
    }
    let wakeup = registers::wakeup_actions();
    assert(wakeup.drop_last() =~= seq![wakeup[0]]);
    assert(wakeup.drop_last().drop_last() =~= Seq::<Action>::empty());
    let init = registers::enter_init_actions();
    assert(init.drop_last() =~= seq![init[0]]);
    assert(init.drop_last().drop_last() =~= Seq::<Action>::empty());
    let doze = registers::doze_actions();
    assert(doze.drop_last() =~= seq![doze[0]]);
    assert(doze.drop_last().drop_last() =~= Seq::<Action>::empty());
}

proof fn lemma_timing(btmg: u32, p: u32, s1: u32, s2: u32, j: u32)
    by (bit_vector)
    requires
        0 < p < 0x200,
        0 < s1 < 0x100,
        0 < s2 < 0x80,
        0 < j < 0x80,
    ensures
        ({
            let after = bits::modified(
                btmg,
                registers::BTMG_TIMING,
                bits::placed((p - 1) as u32, 0xfff, 0) | bits::placed((s1 - 1) as u32, 0xf, 16)
                    | bits::placed((s2 - 1) as u32, 7, 20) | bits::placed((j - 1) as u32, 3, 24),
            );
            &&& (after & 0xfff) == (p - 1) as u32
            &&& ((after >> 16u32) & 0xf) == (s1 - 1) as u32 % 16
            &&& ((after >> 20u32) & 7) == (s2 - 1) as u32 % 8
            &&& ((after >> 24u32) & 3) == (j - 1) as u32 % 4
            &&& after & !0x037f_0fffu32 == btmg & !0x037f_0fffu32
        }),
{
}

proof fn lemma_cut(p: u32, s: u32)
    by (bit_vector)
    ensures
        p & 0x1ff == p % 0x200,
        s & 0x7f == s % 0x80,
{
}

/// Each part of the bit timing, less one, stands in its field of the register, cut to what the field
/// holds, and the modes are as before.
pub proof fn law_bit_timing_is_stored(btmg: u32, bt: NominalBitTiming)
    requires
        bt.wf(),
    ensures
        ({
            let after = bus::stored(driver::timing_action(bt), Register::CanBtmg, btmg);
            &&& after & 0xfff == bt.prescaler % 0x200 - 1
            &&& (after >> 16) & 0xf == (bt.seg1 - 1) % 16
            &&& (after >> 20) & 7 == (bt.seg2 % 0x80 - 1) % 8
            &&& (after >> 24) & 3 == (bt.sync_jump_width % 0x80 - 1) % 4
            &&& after & !0x037f_0fffu32 == btmg & !0x037f_0fffu32
        }),
{
    lemma_cut(bt.prescaler as u32, bt.seg2 as u32);
    lemma_cut(0, bt.sync_jump_width as u32);
    lemma_timing(
        btmg,
        bt.prescaler as u32 & 0x1ff,
        bt.seg1 as u32,
        bt.seg2 as u32 & 0x7f,
        bt.sync_jump_width as u32 & 0x7f,
    );
}

/// A frame that is replaced is handed back exactly if it was not sent in the meantime, as the bit of its
/// mailbox tells, and it is the one that the mailbox held; the new frame is put in that mailbox.
pub proof fn law_replaced_frames_are_handed_back(
    mailbox: Mailbox,
    sample: MailboxSample,
    frame: Frame,
    status: TransmitStatus,
    before: Seq<Action>,
    after: Seq<Action>,
)
    requires
        registers::replaced(mailbox, sample, frame, status, before, after),
    ensures
        ({
            let sent = match mailbox {
                Mailbox::Mailbox0 => sample.tsts & 0x2 != 0,
                Mailbox::Mailbox1 => sample.tsts & 0x200 != 0,
                Mailbox::Mailbox2 => sample.tsts & 0x2_0000 != 0,
            };
            &&& status.mailbox == mailbox
            &&& status.dequeued_frame is None <==> sent
            &&& status.dequeued_frame matches Some(dequeued) ==> registers_hold(
                dequeued,
                sample.tmi,
                sample.tmc,
                sample.tmdtl,
                sample.tmdth,
            )
            &&& after == before + registers::write_mailbox_actions(mailbox, frame)
        }),
{
    if let Some(dequeued) = status.dequeued_frame {
        law_taken_frame_is_the_one_in_the_registers(
            dequeued,
            sample.tmi,
            sample.tmc,
            sample.tmdtl,
            sample.tmdth,
        );
    }
}

/// A frame is handed back as it was written: what was put in a mailbox, and is then replaced before it
/// was sent, is what the caller gets.
pub proof fn law_replaced_frame_is_the_one_written(
    mailbox: Mailbox,
    original: Frame,
    sample: MailboxSample,
    frame: Frame,
    status: TransmitStatus,
    before: Seq<Action>,
    after: Seq<Action>,
    words: (u32, u32, u32, u32),
)
    requires
        original.wf(),
        ({
            let written = registers::write_mailbox_actions(mailbox, original);
            &&& sample.tmi == bus::replayed(written, Register::CanTmi(mailbox), words.0)
            &&& sample.tmc == bus::replayed(written, Register::CanTmc(mailbox), words.1)
            &&& sample.tmdtl == bus::replayed(written, Register::CanTmdtl(mailbox), words.2)
            &&& sample.tmdth == bus::replayed(written, Register::CanTmdth(mailbox), words.3)
        }),
        registers::replaced(mailbox, sample, frame, status, before, after),
        sample.tsts & 0x2_0202 == 0,
    ensures
        status.dequeued_frame matches Some(dequeued) && dequeued.header == original.header
            && dequeued.data@ == original.data@,
{
    lemma_no_flag(sample.tsts);
    let dequeued = status.dequeued_frame->Some_0;
    laws::law_mailbox_gives_the_frame_back(
        original,
        dequeued,
        mailbox,
        words.0,
        words.1,
        words.2,
        words.3,
    );
}

proof fn lemma_no_flag(tsts: u32)
    by (bit_vector)
    requires
        tsts & 0x2_0202 == 0,
    ensures
        tsts & 0x2 == 0,
        tsts & 0x200 == 0,
        tsts & 0x2_0000 == 0,
{
}

/// An abort cancels the request of a mailbox exactly if it is taken, and leaves an empty one alone.
pub proof fn law_taken_mailboxes_are_aborted(
    tsts: u32,
    mailbox: Mailbox,
    requested: bool,
    before: Seq<Action>,
    after: Seq<Action>,
)
    requires
        registers::aborted(tsts, mailbox, requested, before, after),
    ensures
        ({
            let empty = match mailbox {
                Mailbox::Mailbox0 => tsts & 0x0400_0000 != 0,
                Mailbox::Mailbox1 => tsts & 0x0800_0000 != 0,
                Mailbox::Mailbox2 => tsts & 0x1000_0000 != 0,
            };
            &&& requested <==> !empty
            &&& empty ==> after == before
            &&& !empty ==> after == before + registers::cancel_actions(mailbox)
        }),
{
}

/// A read that may wait and an attempt to read tell the same: a frame is a frame, an error is an error,
/// and the task waits exactly if there is neither.
pub proof fn law_read_waits_for_frames_and_errors(
    regs: Registers,
    fifo0: FifoSample,
    fifo1: FifoSample,
    ts: u64,
    result: Option<Result<Envelope, BusError>>,
)
    requires
        driver::read_result(regs, fifo0, fifo1, ts, driver::attempted(result)),
    ensures
        result matches Some(Ok(envelope)) ==> driver::attempted(result) == Ok::<
            Envelope,
            TryReadError,
        >(envelope),
        result matches Some(Err(error)) ==> driver::attempted(result) == Err::<
            Envelope,
            TryReadError,
        >(TryReadError::BusError(error)),
        result is None <==> driver::attempted(result) == Err::<Envelope, TryReadError>(
            TryReadError::Empty,
        ),
        result is None <==> fifo0.rf & 3 == 0 && fifo1.rf & 3 == 0 && (regs.msts & 4 == 0 || (
        regs.ests >> 4) & 7 == 0),
        (result is Some && result->Some_0 is Ok) <==> fifo0.rf & 3 != 0 || fifo1.rf & 3 != 0,
{
    law_frames_are_read_first(regs, fifo0, fifo1, ts, driver::attempted(result), 0);
    if fifo0.rf & 3 == 0 && fifo1.rf & 3 == 0 {
        law_errors_are_read_next(regs, fifo0, fifo1, ts, driver::attempted(result), 0);
    }
}

} // verus!
