//! What holds of the CAN controller as a whole.
use crate::bits;
use crate::bus;
use crate::bus::{Action, Register};
use crate::can::driver;
use crate::can::frame;
use crate::can::frame::{Fifo, Frame, Mailbox, NominalBitTiming};
use crate::can::id;
use crate::can::id::{ExtendedId, Id, IdReg, StandardId};
use crate::can::registers;
use crate::can::registers::{Decision, FifoSample, Registers};
use core::cmp::Ordering;
use vstd::prelude::*;

verus! {

pub(crate) proof fn lemma_standard_word(raw: u32, rtr: bool)
    by (bit_vector)
    requires
        raw <= 0x7ff,
    ensures
        ({
            let word = (raw << id::STANDARD_SHIFT) | bits::when(rtr, id::RTR_MASK);
            &&& word & id::IDE_MASK == 0
            &&& word >> id::STANDARD_SHIFT == raw
            &&& (word & id::RTR_MASK != 0) == rtr
            &&& (word | 1) & 0xffff_fffe == word
            &&& (word | 1) & id::IDE_MASK == 0
            &&& (word | 1) >> id::STANDARD_SHIFT == raw
            &&& ((word | 1) & id::RTR_MASK != 0) == rtr
            &&& (word | 1) & 1 == 1
        }),
{
}

pub(crate) proof fn lemma_extended_word(raw: u32, rtr: bool)
    by (bit_vector)
    requires
        raw <= 0x1fff_ffff,
    ensures
        ({
            let word = ((raw << id::EXTENDED_SHIFT) | id::IDE_MASK) | bits::when(rtr, id::RTR_MASK);
            &&& word & id::IDE_MASK != 0
            &&& word >> id::EXTENDED_SHIFT == raw
            &&& (word & id::RTR_MASK != 0) == rtr
            &&& (word | 1) & 0xffff_fffe == word
            &&& (word | 1) & id::IDE_MASK != 0
            &&& (word | 1) >> id::EXTENDED_SHIFT == raw
            &&& ((word | 1) & id::RTR_MASK != 0) == rtr
            &&& (word | 1) & 1 == 1
        }),
{
}

/// The identifier and the kind of a frame read back from its register, and from the word that
/// requests its transmission.
pub proof fn law_identifier_reads_back(ident: Id, rtr: bool)
    requires
        ident.wf(),
    ensures
        id::id_of(id::frame_register(ident, rtr)) == ident,
        id::is_remote(id::frame_register(ident, rtr)) == rtr,
        ({
            let word = id::frame_register(ident, rtr).0 | registers::TMI_SR;
            &&& id::id_of(IdReg(word)) == ident
            &&& id::is_remote(IdReg(word)) == rtr
            &&& IdReg(word & 0xffff_fffe) == id::frame_register(ident, rtr)
            &&& bits::any_set(word, registers::TMI_SR)
        }),
{
    match ident {
        Id::Standard(standard) => lemma_standard_word(standard.raw as u32, rtr),
        Id::Extended(extended) => lemma_extended_word(extended.raw, rtr),
    }
}

/// Two frames have the same priority exactly if identifier and kind are the same.
pub proof fn law_same_priority_is_same_identifier(a: Id, a_rtr: bool, b: Id, b_rtr: bool)
    requires
        a.wf(),
        b.wf(),
    ensures
        id::place(id::frame_register(a, a_rtr)) == id::place(id::frame_register(b, b_rtr)) <==> a
            == b && a_rtr == b_rtr,
        id::frame_register(a, a_rtr) == id::frame_register(b, b_rtr) <==> a == b && a_rtr == b_rtr,
{
    law_identifier_reads_back(a, a_rtr);
    law_identifier_reads_back(b, b_rtr);
}

/// The comparison by priority is a total order.
pub proof fn law_priority_is_a_total_order(a: IdReg, b: IdReg, c: IdReg)
    ensures
        id::by_place(id::place(a), id::place(a)) == Ordering::Equal,
        id::by_place(id::place(a), id::place(b)) == Ordering::Greater <==> id::by_place(
            id::place(b),
            id::place(a),
        ) == Ordering::Less,
        id::by_place(id::place(a), id::place(b)) == Ordering::Greater && id::by_place(
            id::place(b),
            id::place(c),
        ) == Ordering::Greater ==> id::by_place(id::place(a), id::place(c)) == Ordering::Greater,
{
}

/// Among standard identifiers, and among extended ones, the lower one has the higher priority.
pub proof fn law_lower_identifiers_win(
    a: StandardId,
    b: StandardId,
    c: ExtendedId,
    d: ExtendedId,
    rtr1: bool,
    rtr2: bool,
)
    requires
        a.wf(),
        b.wf(),
        c.wf(),
        d.wf(),
    ensures
        a.raw < b.raw ==> id::by_place(
            id::place(id::frame_register(Id::Standard(a), rtr1)),
            id::place(id::frame_register(Id::Standard(b), rtr2)),
        ) == Ordering::Greater,
        c.raw < d.raw ==> id::by_place(
            id::place(id::frame_register(Id::Extended(c), rtr1)),
            id::place(id::frame_register(Id::Extended(d), rtr2)),
        ) == Ordering::Greater,
{
    law_identifier_reads_back(Id::Standard(a), rtr1);
    law_identifier_reads_back(Id::Standard(b), rtr2);
    law_identifier_reads_back(Id::Extended(c), rtr1);
    law_identifier_reads_back(Id::Extended(d), rtr2);
}

/// A standard frame has a higher priority than an extended one exactly if its identifier is not
/// above the base of the other.
pub proof fn law_standard_frames_win_over_extended(
    a: StandardId,
    b: ExtendedId,
    a_rtr: bool,
    b_rtr: bool,
)
    requires
        a.wf(),
        b.wf(),
    ensures
        id::by_place(
            id::place(id::frame_register(Id::Standard(a), a_rtr)),
            id::place(id::frame_register(Id::Extended(b), b_rtr)),
        ) == if a.raw <= b.raw / 0x4_0000 {
            Ordering::Greater
        } else {
            Ordering::Less
        },
{
    law_identifier_reads_back(Id::Standard(a), a_rtr);
    law_identifier_reads_back(Id::Extended(b), b_rtr);
}

/// A data frame has a higher priority than a remote frame of the same identifier.
pub proof fn law_data_frames_win_over_remote(ident: Id)
    requires
        ident.wf(),
    ensures
        id::by_place(
            id::place(id::frame_register(ident, false)),
            id::place(id::frame_register(ident, true)),
        ) == Ordering::Greater,
{
    law_identifier_reads_back(ident, false);
    law_identifier_reads_back(ident, true);
}

proof fn lemma_length(len: u32)
    by (bit_vector)
    requires
        len <= 15,
    ensures
        bits::field(bits::placed(len, 0xf, 0), 0xf, 0) == len,
{
}

proof fn lemma_frame_words(original: Frame, copy: Frame, ident: u32)
    requires
        original.wf(),
        ident == registers::request_word(original) || ident == id::frame_register(
            original.header.id,
            original.header.rtr,
        ).0,
        registers::holds_frame(
            copy,
            ident,
            bits::placed(original.header.len as u32, 0xf, 0),
            frame::word_of(original.data@.subrange(0, 4)) as u32,
            frame::word_of(original.data@.subrange(4, 8)) as u32,
        ),
    ensures
        copy.header == original.header,
        copy.data@ == original.data@,
{
    law_identifier_reads_back(original.header.id, original.header.rtr);
    lemma_length(original.header.len as u32);
    frame::law_word_of_bytes(original.data@.subrange(0, 4));
    frame::law_word_of_bytes(original.data@.subrange(4, 8));
    assert(original.data@.subrange(0, 4) + original.data@.subrange(4, 8) =~= original.data@);
}

/// A frame that is taken back from a mailbox is the frame that was put there: identifier, kind,
/// length and all eight bytes.
pub proof fn law_mailbox_gives_the_frame_back(
    original: Frame,
    copy: Frame,
    mailbox: Mailbox,
    tmi: u32,
    tmc: u32,
    tmdtl: u32,
    tmdth: u32,
)
    requires
        original.wf(),
        ({
            let actions = registers::write_mailbox_actions(mailbox, original);
            registers::holds_frame(
                copy,
                bus::replayed(actions, Register::CanTmi(mailbox), tmi),
                bus::replayed(actions, Register::CanTmc(mailbox), tmc),
                bus::replayed(actions, Register::CanTmdtl(mailbox), tmdtl),
                bus::replayed(actions, Register::CanTmdth(mailbox), tmdth),
            )
        }),
    ensures
        copy.header == original.header,
        copy.data@ == original.data@,
{
    reveal_with_fuel(bus::replayed, 5);
    let actions = registers::write_mailbox_actions(mailbox, original);
    assert(actions.drop_last() == seq![actions[0], actions[1], actions[2]]);
    assert(actions.drop_last().drop_last() == seq![actions[0], actions[1]]);
    assert(actions.drop_last().drop_last().drop_last() == seq![actions[0]]);
    lemma_frame_words(original, copy, registers::request_word(original));
}

/// A frame arrives as it was sent: if a receive FIFO holds what a mailbox held, without the request
/// to send, what is received is the frame that was written.
pub proof fn law_frame_arrives_as_it_was_sent(
    original: Frame,
    sample: FifoSample,
    ts: u64,
    received: crate::can::frame::Envelope,
)
    requires
        original.wf(),
        sample.rfi == id::frame_register(original.header.id, original.header.rtr).0,
        sample.rfc == bits::placed(original.header.len as u32, 0xf, 0),
        sample.rfdtl == frame::word_of(original.data@.subrange(0, 4)) as u32,
        sample.rfdth == frame::word_of(original.data@.subrange(4, 8)) as u32,
        registers::received_from(sample, ts, Some(received)),
    ensures
        received.ts == ts,
        received.frame.header == original.header,
        received.frame.data@ == original.data@,
{
    lemma_frame_words(original, received.frame, sample.rfi);
}

/// No priority inversion: a pending frame is only replaced by one of a higher priority, and only
/// if no mailbox is free and frames are sent by priority.
pub proof fn law_only_lower_priorities_are_replaced(regs: Registers, frame: Frame)
    ensures
        regs.decision(frame) matches Decision::Replace(mailbox) ==> regs.all_pending()
            && !regs.fifo_scheduling() && (regs.requests(mailbox) ==> id::by_place(
            id::place(id::frame_register(frame.header.id, frame.header.rtr)),
            id::place(regs.pending_id(mailbox)),
        ) == Ordering::Greater),
{
}

/// With FIFO scheduling a frame is refused exactly if no mailbox is free, and never replaces
/// another.
pub proof fn law_fifo_scheduling_uses_any_free_mailbox(regs: Registers, frame: Frame)
    requires
        regs.fifo_scheduling(),
    ensures
        regs.decision(frame) == Decision::Refuse <==> regs.all_pending(),
        !(regs.decision(frame) is Replace),
{
}

/// If frames are sent by priority, a frame is refused as long as one of the same priority is
/// pending, so that frames of the same priority are sent in the order in which they were written.
pub proof fn law_same_priority_waits(
    regs: Registers,
    frame: Frame,
    pending: Frame,
    mailbox: Mailbox,
)
    requires
        frame.wf(),
        pending.wf(),
        !regs.fifo_scheduling(),
        !registers::mailbox_empty(regs.tsts, mailbox),
        regs.ident(mailbox) == registers::request_word(pending),
        id::place(id::frame_register(pending.header.id, pending.header.rtr)) == id::place(
            id::frame_register(frame.header.id, frame.header.rtr),
        ),
    ensures
        regs.decision(frame) == Decision::Refuse,
{
    law_same_priority_is_same_identifier(
        pending.header.id,
        pending.header.rtr,
        frame.header.id,
        frame.header.rtr,
    );
    law_identifier_reads_back(pending.header.id, pending.header.rtr);
}

/// If frames are sent by priority and a mailbox is free, a frame is only refused if one of the same
/// priority is pending.
pub proof fn law_other_priorities_are_accepted(
    regs: Registers,
    frame: Frame,
    pending0: Frame,
    pending1: Frame,
    pending2: Frame,
)
    requires
        frame.wf(),
        pending0.wf(),
        pending1.wf(),
        pending2.wf(),
        !regs.fifo_scheduling(),
        !regs.all_pending(),
        regs.requests(Mailbox::Mailbox0) ==> regs.ident(Mailbox::Mailbox0)
            == registers::request_word(pending0) && (pending0.header.id, pending0.header.rtr) != (
            frame.header.id,
            frame.header.rtr,
        ),
        regs.requests(Mailbox::Mailbox1) ==> regs.ident(Mailbox::Mailbox1)
            == registers::request_word(pending1) && (pending1.header.id, pending1.header.rtr) != (
            frame.header.id,
            frame.header.rtr,
        ),
        regs.requests(Mailbox::Mailbox2) ==> regs.ident(Mailbox::Mailbox2)
            == registers::request_word(pending2) && (pending2.header.id, pending2.header.rtr) != (
            frame.header.id,
            frame.header.rtr,
        ),
    ensures
        regs.decision(frame) == Decision::Use(Mailbox::numbered(regs.next_number())),
{
    lemma_differs(frame, pending0);
    lemma_differs(frame, pending1);
    lemma_differs(frame, pending2);
}

pub(crate) proof fn lemma_differs(frame: Frame, pending: Frame)
    requires
        frame.wf(),
        pending.wf(),
    ensures
        IdReg(registers::request_word(pending) & 0xffff_fffe) == id::frame_register(
            frame.header.id,
            frame.header.rtr,
        ) <==> pending.header.id == frame.header.id && pending.header.rtr == frame.header.rtr,
{
    law_identifier_reads_back(pending.header.id, pending.header.rtr);
    law_same_priority_is_same_identifier(
        pending.header.id,
        pending.header.rtr,
        frame.header.id,
        frame.header.rtr,
    );
}

proof fn lemma_switch(word: u32, extra: u32, bit: u32, enabled: bool)
    by (bit_vector)
    requires
        bit != 0,
        bit & extra == 0,
    ensures
        ({
            let after = bits::modified(word, bit | extra, bits::when(enabled, bit));
            &&& (after & bit == bit) == enabled
            &&& (after & bit == 0) == !enabled
            &&& after & !(bit | extra) == word & !(bit | extra)
        }),
{
}

/// A mode of the main control register that was switched on or off is on or off, and every other
/// mode is as before.
pub proof fn law_main_control_switch(mctrl: u32, mode: u32, enabled: bool)
    requires
        mode == registers::MCTRL_MMSSR || mode == registers::MCTRL_PRSFEN || mode
            == registers::MCTRL_AEDEN,
    ensures
        ({
            let after = bus::stored(
                registers::mctrl_modify(mode, bits::when(enabled, mode)),
                Register::CanMctrl,
                mctrl,
            );
            &&& bits::any_set(after, mode) == enabled
            &&& after & !(mode | registers::MCTRL_SPRST) == mctrl & !(mode | registers::MCTRL_SPRST)
        }),
{
    lemma_mode_bits();
    lemma_switch(mctrl, registers::MCTRL_SPRST, mode, enabled);
}

proof fn lemma_mode_bits()
    by (bit_vector)
    ensures
        registers::MCTRL_MMSSR & registers::MCTRL_SPRST == 0,
        registers::MCTRL_PRSFEN & registers::MCTRL_SPRST == 0,
        registers::MCTRL_AEDEN & registers::MCTRL_SPRST == 0,
        registers::BTMG_LBEN & 0 == 0,
        registers::BTMG_LOEN & 0 == 0,
        registers::BTMG_LBEN | 0 == registers::BTMG_LBEN,
        registers::BTMG_LOEN | 0 == registers::BTMG_LOEN,
{
}

/// Loopback and silent mode are switched independently of each other and of the bit timing.
pub proof fn law_bit_timing_switch(btmg: u32, mode: u32, enabled: bool)
    requires
        mode == registers::BTMG_LBEN || mode == registers::BTMG_LOEN,
    ensures
        ({
            let after = bits::modified(btmg, mode, bits::when(enabled, mode));
            &&& bits::any_set(after, mode) == enabled
            &&& after & !mode == btmg & !mode
        }),
{
    lemma_mode_bits();
    lemma_switch(btmg, 0, mode, enabled);
}

/// The bit timing reads back from its register, each part less one, and the modes are as before.
pub proof fn law_bit_timing_reads_back(btmg: u32, bt: NominalBitTiming)
    requires
        bt.wf(),
        bt.prescaler <= 0x1ff,
        bt.seg1 <= 16,
        bt.seg2 <= 8,
        bt.sync_jump_width <= 4,
    ensures
        ({
            let after = bus::stored(driver::timing_action(bt), Register::CanBtmg, btmg);
            &&& bits::field(after, 0xfff, 0) == bt.prescaler - 1
            &&& bits::field(after, 0xf, 16) == bt.seg1 - 1
            &&& bits::field(after, 7, 20) == bt.seg2 - 1
            &&& bits::field(after, 3, 24) == bt.sync_jump_width - 1
            &&& after & !registers::BTMG_TIMING == btmg & !registers::BTMG_TIMING
        }),
{
    let p = bt.prescaler as u32;
    let s2 = bt.seg2 as u32;
    let j = bt.sync_jump_width as u32;
    assert((p <= 0x1ff ==> p & 0x1ff == p) && (s2 <= 0x7f ==> s2 & 0x7f == s2) && (j <= 0x7f ==> j
        & 0x7f == j)) by (bit_vector);
    let a = (p - 1) as u32;
    let b = (bt.seg1 - 1) as u32;
    let c = (s2 - 1) as u32;
    let d = (j - 1) as u32;
    assert(({
        let after = bits::modified(
            btmg,
            registers::BTMG_TIMING,
            bits::placed(a, 0xfff, 0) | bits::placed(b, 0xf, 16) | bits::placed(c, 7, 20)
                | bits::placed(d, 3, 24),
        );
        bits::field(after, 0xfff, 0) == a && bits::field(after, 0xf, 16) == b && bits::field(
            after,
            7,
            20,
        ) == c && bits::field(after, 3, 24) == d && after & !registers::BTMG_TIMING == btmg
            & !registers::BTMG_TIMING
    })) by (bit_vector)
        requires
            a <= 0xfff,
            b <= 0xf,
            c <= 7,
            d <= 3,
    ;
}

proof fn lemma_doze_word(word: u32)
    by (bit_vector)
    ensures
        ({
            let after = bits::modified(
                word,
                registers::MCTRL_FZEN | registers::MCTRL_SPRST,
                registers::MCTRL_DZEN,
            );
            &&& after & registers::MCTRL_DZEN == registers::MCTRL_DZEN
            &&& after & registers::MCTRL_FZEN == 0
        }),
        ({
            let after = bits::modified(
                registers::MCTRL_RESET | registers::MCTRL_TTCEN,
                registers::MCTRL_FZEN | registers::MCTRL_SPRST,
                registers::MCTRL_DZEN,
            );
            after & (registers::MCTRL_MMSSR | registers::MCTRL_PRSFEN | registers::MCTRL_AEDEN) == 0
        }),
{
}

/// Whatever was configured before, the controller is asked to sleep, and not to be configured, once
/// the configuration is ended, the driver is started or taken out of service.
pub proof fn law_controller_is_left_asleep(before: Seq<Action>, mctrl: u32)
    ensures
        ({
            let after = bus::replayed(before + registers::doze_actions(), Register::CanMctrl, mctrl);
            &&& after & registers::MCTRL_DZEN == registers::MCTRL_DZEN
            &&& after & registers::MCTRL_FZEN == 0
        }),
{
    reveal_with_fuel(bus::replayed, 3);
    let doze = registers::doze_actions();
    assert(doze.drop_last() == seq![doze[0]]);
    bus::law_replay_concatenates(before, doze, Register::CanMctrl, mctrl);
    lemma_doze_word(bus::replayed(before, Register::CanMctrl, mctrl));
}

/// Once the driver is started, frames are sent again until that succeeds, they are sent by priority,
/// and an incoming frame does not wake the controller.
pub proof fn law_modes_after_start(mctrl: u32)
    ensures
        bus::replayed(driver::start_actions(), Register::CanMctrl, mctrl) & (registers::MCTRL_MMSSR
            | registers::MCTRL_PRSFEN | registers::MCTRL_AEDEN) == 0,
{
    reveal_with_fuel(bus::replayed, 3);
    let doze = registers::doze_actions();
    let start = driver::start_actions();
    let head = start.subrange(0, 4);
    let rest = start.subrange(4, 12);
    assert(start == head + rest + doze);
    assert(doze.drop_last() == seq![doze[0]]);
    bus::law_replay_concatenates(head + rest, doze, Register::CanMctrl, mctrl);
    bus::law_replay_concatenates(head, rest, Register::CanMctrl, mctrl);
    assert(head.last() == (Action::Write {
        reg: Register::CanMctrl,
        value: registers::MCTRL_RESET | registers::MCTRL_TTCEN,
    }));
    let word = bus::replayed(head, Register::CanMctrl, mctrl);
    bus::law_replay_leaves_alone(rest, Register::CanMctrl, word);
    lemma_doze_word(word);
}

proof fn lemma_set_bits(word: u32)
    by (bit_vector)
    ensures
        forall|mask: u32|
            #![trigger bits::modified(word, 0, mask)]
            bits::modified(word, 0, mask) & mask == mask,
        forall|mask: u32|
            #![trigger bits::modified(word, mask, 0)]
            bits::modified(word, mask, 0) & mask == 0,
        bits::modified(word, 0, registers::INTEN_RF0MIEN | registers::INTEN_RF1MIEN)
            & registers::INTEN_RF0MIEN == registers::INTEN_RF0MIEN,
        bits::modified(word, 0, registers::INTEN_RF0MIEN | registers::INTEN_RF1MIEN)
            & registers::INTEN_RF1MIEN == registers::INTEN_RF1MIEN,
{
}

/// The interrupt of a FIFO stays disabled from its handling until the FIFO was read or found empty
/// without an error to hand on.
pub proof fn law_frame_interrupts_wait_for_the_reader(
    regs: Registers,
    fifo: Fifo,
    fifo0: FifoSample,
    fifo1: FifoSample,
    inten: u32,
)
    ensures
        bus::stored(
            registers::inten_modify(driver::frame_interrupt(fifo), 0),
            Register::CanInten,
            inten,
        ) & driver::frame_interrupt(fifo) == 0,
        ({
            let after = bus::replayed(
                driver::read_actions(regs, fifo0, fifo1),
                Register::CanInten,
                inten,
            );
            if registers::fifo_filled(fifo0) {
                after & registers::INTEN_RF0MIEN == registers::INTEN_RF0MIEN
            } else if registers::fifo_filled(fifo1) {
                after & registers::INTEN_RF1MIEN == registers::INTEN_RF1MIEN
            } else {
                driver::current_error(regs) is None ==> {
                    &&& after & registers::INTEN_RF0MIEN == registers::INTEN_RF0MIEN
                    &&& after & registers::INTEN_RF1MIEN == registers::INTEN_RF1MIEN
                }
            }
        }),
{
    reveal_with_fuel(bus::replayed, 4);
    let actions = driver::read_actions(regs, fifo0, fifo1);
    lemma_set_bits(inten);
    if actions.len() > 0 {
        let before = bus::replayed(actions.drop_last(), Register::CanInten, inten);
        lemma_set_bits(before);
    }
}

/// An error is handed on once: its interrupt is disabled, and the error kept, until the reader takes
/// it; then the error is acknowledged, the interrupt is enabled again, and nothing is handed on
/// until the next error.
pub proof fn law_errors_are_handed_on_once(regs: Registers, later: Registers, inten: u32)
    requires
        bits::any_set(regs.msts, registers::MSTS_EOIF),
        !bits::any_set(regs.msts, registers::MSTS_EDZIF),
        !bits::any_set(later.msts, registers::MSTS_EOIF),
    ensures
        bus::replayed(driver::status_actions(regs), Register::CanInten, inten)
            & registers::INTEN_EOIEN == 0,
        bus::leaves_alone(driver::status_actions(regs), Register::CanMsts),
        bus::replayed(driver::acknowledge_actions(regs), Register::CanInten, inten)
            & registers::INTEN_EOIEN == registers::INTEN_EOIEN,
        driver::acknowledge_actions(regs).contains(
            registers::msts_acknowledge(registers::MSTS_EOIF),
        ),
        driver::current_error(later) is None,
        driver::acknowledge_actions(later) == Seq::<Action>::empty(),
{
    reveal_with_fuel(bus::replayed, 3);
    lemma_set_bits(inten);
    let status = driver::status_actions(regs);
    assert(status.drop_last() == seq![status[0]]);
    let acknowledge = driver::acknowledge_actions(regs);
    assert(acknowledge.drop_last() == seq![acknowledge[0]]);
    assert(acknowledge[0] == registers::msts_acknowledge(registers::MSTS_EOIF));
}

} // verus!
