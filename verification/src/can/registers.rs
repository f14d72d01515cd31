//! The registers of the CAN controller.
use crate::bits;
use crate::bus::{Action, Bus, Register};
use crate::can::frame;
use crate::can::frame::{
    BusError, Envelope, Fifo, Frame, Header, Mailbox, NominalBitTiming, TransmitStatus, WouldBlock,
};
use crate::can::id;
use crate::can::id::IdReg;
use vstd::prelude::*;

verus! {

/// Main control: freeze mode, in which the controller is configured, is asked for.
pub const MCTRL_FZEN: u32 = 0x0001;

/// Main control: doze mode, in which the controller sleeps, is asked for.
pub const MCTRL_DZEN: u32 = 0x0002;

/// Main control: frames are sent in the order of their requests.
pub const MCTRL_MMSSR: u32 = 0x0004;

/// Main control: frames are sent only once.
pub const MCTRL_PRSFEN: u32 = 0x0010;

/// Main control: doze mode is left when a frame comes in.
pub const MCTRL_AEDEN: u32 = 0x0020;

/// Main control: the bus-off state is left automatically.
pub const MCTRL_AEBOEN: u32 = 0x0040;

/// Main control: time stamps.
pub const MCTRL_TTCEN: u32 = 0x0080;

/// Main control: the controller is reset when a one is written here.
pub const MCTRL_SPRST: u32 = 0x8000;

/// Main control after a reset.
pub const MCTRL_RESET: u32 = 0x0001_0002;

/// Main status: freeze mode was entered.
pub const MSTS_FZC: u32 = 0x0001;

/// Main status: doze mode was entered.
pub const MSTS_DZC: u32 = 0x0002;

/// Main status: an error occurred; cleared by a one.
pub const MSTS_EOIF: u32 = 0x0004;

/// Main status: doze mode was entered, since the flag was cleared; cleared by a one.
pub const MSTS_EDZIF: u32 = 0x0010;

/// Main status: the flags that are cleared by a one.
pub const MSTS_FLAGS: u32 = 0x001c;

/// Transmit status: the request of each mailbox is complete; cleared by a one.
pub const TSTS_TCF: u32 = 0x0001_0101;

/// Transmit status after a reset: every mailbox is empty.
pub const TSTS_RESET: u32 = 0x1c00_0000;

/// Receive FIFO: the number of frames.
pub const RF_MN: u32 = 0x3;

/// Receive FIFO: the oldest frame is released when a one is written here.
pub const RF_R: u32 = 0x20;

/// Receive FIFO: the bits that act when a one is written.
pub const RF_FLAGS: u32 = 0x38;

/// Interrupts: a mailbox is complete.
pub const INTEN_TCIEN: u32 = 0x0001;

/// Interrupts: there is a frame in FIFO 0.
pub const INTEN_RF0MIEN: u32 = 0x0002;

/// Interrupts: FIFO 0 overflowed.
pub const INTEN_RF0OIEN: u32 = 0x0008;

/// Interrupts: there is a frame in FIFO 1.
pub const INTEN_RF1MIEN: u32 = 0x0010;

/// Interrupts: FIFO 1 overflowed.
pub const INTEN_RF1OIEN: u32 = 0x0040;

/// Interrupts: error active.
pub const INTEN_EAIEN: u32 = 0x0100;

/// Interrupts: error passive.
pub const INTEN_EPIEN: u32 = 0x0200;

/// Interrupts: bus off.
pub const INTEN_BOIEN: u32 = 0x0400;

/// Interrupts: the kind of the last error changed.
pub const INTEN_ETRIEN: u32 = 0x0800;

/// Interrupts: an error occurred.
pub const INTEN_EOIEN: u32 = 0x8000;

/// Interrupts: doze mode was entered.
pub const INTEN_EDZIEN: u32 = 0x0002_0000;

/// Bit timing: prescaler, both segments and jump width.
pub const BTMG_TIMING: u32 = 0x037f_0fff;

/// Bit timing: loopback.
pub const BTMG_LBEN: u32 = 0x4000_0000;

/// Bit timing: listen only.
pub const BTMG_LOEN: u32 = 0x8000_0000;

/// Mailbox identifier: the frame is to be sent.
pub const TMI_SR: u32 = 0x0000_0001;

/// The modification of the main control register that clears `clear`, sets `set` and does not
/// reset the controller.
pub open spec fn mctrl_modify(clear: u32, set: u32) -> Action {
    Action::Modify { reg: Register::CanMctrl, clear: clear | MCTRL_SPRST, set }
}

/// The modification of the interrupt enable register.
pub open spec fn inten_modify(clear: u32, set: u32) -> Action {
    Action::Modify { reg: Register::CanInten, clear, set }
}

/// The acknowledgement of a flag of the main status register.
pub open spec fn msts_acknowledge(flag: u32) -> Action {
    Action::Modify { reg: Register::CanMsts, clear: MSTS_FLAGS, set: flag }
}

/// The accesses that enter the mode in which the controller is configured.
pub open spec fn enter_init_actions() -> Seq<Action> {
    seq![
        mctrl_modify(MCTRL_DZEN, MCTRL_FZEN),
        Action::Wait { reg: Register::CanMsts, mask: MSTS_DZC | MSTS_FZC, value: MSTS_FZC },
    ]
}

/// The accesses that enter doze mode, from freeze mode or not.
pub open spec fn doze_actions() -> Seq<Action> {
    seq![
        mctrl_modify(MCTRL_FZEN, MCTRL_DZEN),
        Action::Wait { reg: Register::CanMsts, mask: MSTS_DZC | MSTS_FZC, value: MSTS_DZC },
    ]
}

/// The accesses that leave both modes.
pub open spec fn wakeup_actions() -> Seq<Action> {
    seq![
        mctrl_modify(MCTRL_DZEN | MCTRL_FZEN, 0),
        Action::Wait { reg: Register::CanMsts, mask: MSTS_DZC | MSTS_FZC, value: 0 },
    ]
}

/// The timing fields of the bit timing register; each part is kept less one and cut to its field.
pub open spec fn timing_bits(bt: NominalBitTiming) -> u32 {
    bits::placed(((bt.prescaler as u32 & 0x1ff) - 1) as u32, 0xfff, 0) | bits::placed(
        (bt.seg1 - 1) as u32,
        0xf,
        16,
    ) | bits::placed(((bt.seg2 as u32 & 0x7f) - 1) as u32, 7, 20) | bits::placed(
        ((bt.sync_jump_width as u32 & 0x7f) - 1) as u32,
        3,
        24,
    )
}

/// The access that switches silent mode on or off.
pub open spec fn silent_action(enabled: bool) -> Action {
    Action::Modify {
        reg: Register::CanBtmg,
        clear: BTMG_LOEN,
        set: bits::when(enabled, BTMG_LOEN),
    }
}

/// The access that switches loopback mode on or off.
pub open spec fn loopback_action(enabled: bool) -> Action {
    Action::Modify {
        reg: Register::CanBtmg,
        clear: BTMG_LBEN,
        set: bits::when(enabled, BTMG_LBEN),
    }
}

/// The access that switches automatic retransmission on or off; the register holds whether it is
/// off.
pub open spec fn retransmit_action(enabled: bool) -> Action {
    mctrl_modify(MCTRL_PRSFEN, bits::when(!enabled, MCTRL_PRSFEN))
}

/// The access that switches the automatic wake-up on or off.
pub open spec fn automatic_wakeup_action(enabled: bool) -> Action {
    mctrl_modify(MCTRL_AEDEN, bits::when(enabled, MCTRL_AEDEN))
}

/// The access that switches FIFO scheduling on or off.
pub open spec fn scheduling_action(enabled: bool) -> Action {
    mctrl_modify(MCTRL_MMSSR, bits::when(enabled, MCTRL_MMSSR))
}

/// Whether the main status says that the controller sleeps.
pub open spec fn asleep(msts: u32) -> bool {
    bits::any_set(msts, MSTS_DZC)
}

/// The accesses of an attempt to enable the controller: none if it is awake.
pub open spec fn enable_actions(msts: u32) -> Seq<Action> {
    if asleep(msts) {
        seq![mctrl_modify(MCTRL_DZEN, MCTRL_AEBOEN)]
    } else {
        seq![]
    }
}

/// Whether a mailbox is empty.
pub open spec fn mailbox_empty(tsts: u32, mailbox: Mailbox) -> bool {
    match mailbox {
        Mailbox::Mailbox0 => bits::any_set(tsts, 0x0400_0000),
        Mailbox::Mailbox1 => bits::any_set(tsts, 0x0800_0000),
        Mailbox::Mailbox2 => bits::any_set(tsts, 0x1000_0000),
    }
}

/// Whether the last frame of a mailbox was sent.
pub open spec fn mailbox_sent(tsts: u32, mailbox: Mailbox) -> bool {
    match mailbox {
        Mailbox::Mailbox0 => bits::any_set(tsts, 0x0000_0002),
        Mailbox::Mailbox1 => bits::any_set(tsts, 0x0000_0200),
        Mailbox::Mailbox2 => bits::any_set(tsts, 0x0002_0000),
    }
}

/// The bit that cancels the request of a mailbox, and stays set until that is done.
pub open spec fn cancel_bit(mailbox: Mailbox) -> u32 {
    match mailbox {
        Mailbox::Mailbox0 => 0x0000_0080,
        Mailbox::Mailbox1 => 0x0000_8000,
        Mailbox::Mailbox2 => 0x0080_0000,
    }
}

/// The accesses that cancel the request of a mailbox and sample what came of it and what the
/// mailbox holds.
pub open spec fn cancel_actions(mailbox: Mailbox) -> Seq<Action> {
    seq![
        Action::Write { reg: Register::CanTsts, value: TSTS_RESET | cancel_bit(mailbox) },
        Action::Wait { reg: Register::CanTsts, mask: cancel_bit(mailbox), value: 0 },
        Action::Sample { reg: Register::CanTsts },
        Action::Sample { reg: Register::CanTmi(mailbox) },
        Action::Sample { reg: Register::CanTmdtl(mailbox) },
        Action::Sample { reg: Register::CanTmdth(mailbox) },
        Action::Sample { reg: Register::CanTmc(mailbox) },
    ]
}

/// The identifier word of a frame that is to be sent.
pub open spec fn request_word(frame: Frame) -> u32 {
    id::frame_register(frame.header.id, frame.header.rtr).0 | TMI_SR
}

/// The accesses that put a frame in a mailbox; the last one requests its transmission.
pub open spec fn write_mailbox_actions(mailbox: Mailbox, frame: Frame) -> Seq<Action> {
    seq![
        Action::Write {
            reg: Register::CanTmc(mailbox),
            value: bits::placed(frame.header.len as u32, 0xf, 0),
        },
        Action::Write {
            reg: Register::CanTmdtl(mailbox),
            value: frame::word_of(frame.data@.subrange(0, 4)) as u32,
        },
        Action::Write {
            reg: Register::CanTmdth(mailbox),
            value: frame::word_of(frame.data@.subrange(4, 8)) as u32,
        },
        Action::Write { reg: Register::CanTmi(mailbox), value: request_word(frame) },
    ]
}

/// Whether `frame` is what identifier, length and data registers hold.
pub open spec fn holds_frame(frame: Frame, ident: u32, length: u32, low: u32, high: u32) -> bool {
    &&& frame.header.id == id::id_of(IdReg(ident))
    &&& frame.header.rtr == id::is_remote(IdReg(ident))
    &&& frame.header.len == bits::field(length, 0xf, 0)
    &&& frame.data@ == frame::bytes_of(low) + frame::bytes_of(high)
}

/// The error that a code of the error register stands for.
pub open spec fn error_of(code: u32) -> Option<BusError> {
    if code == 1 {
        Some(BusError::Stuff)
    } else if code == 2 {
        Some(BusError::Form)
    } else if code == 3 {
        Some(BusError::Acknowledge)
    } else if code == 4 {
        Some(BusError::BitRecessive)
    } else if code == 5 {
        Some(BusError::BitDominant)
    } else if code == 6 {
        Some(BusError::Crc)
    } else if code == 7 {
        Some(BusError::Software)
    } else {
        None
    }
}

/// The contents of the registers of a receive FIFO.
#[derive(Clone, Copy, Debug, PartialEq, Eq, Structural)]
pub struct FifoSample {
    /// FIFO register.
    pub rf: u32,
    /// Identifier register.
    pub rfi: u32,
    /// Length register.
    pub rfc: u32,
    /// Low data register.
    pub rfdtl: u32,
    /// High data register.
    pub rfdth: u32,
}

/// The contents of the registers of a mailbox once its request was cancelled.
#[derive(Clone, Copy, Debug, PartialEq, Eq, Structural)]
pub struct MailboxSample {
    /// Transmit status register.
    pub tsts: u32,
    /// Identifier register.
    pub tmi: u32,
    /// Low data register.
    pub tmdtl: u32,
    /// High data register.
    pub tmdth: u32,
    /// Length register.
    pub tmc: u32,
}

/// What became of an attempt to transmit.
pub enum Transmission {
    /// The frame was put in a mailbox.
    Queued(TransmitStatus),
    /// The frame will take the place of the one in this mailbox, whose request is being cancelled.
    Cancelling(Mailbox),
}

/// What an attempt to transmit comes to.
#[derive(Clone, Copy, Debug, PartialEq, Eq, Structural)]
pub enum Decision {
    /// The frame cannot be accepted now.
    Refuse,
    /// The frame is put in this mailbox, which is free.
    Use(Mailbox),
    /// The frame replaces the one in this mailbox.
    Replace(Mailbox),
}

/// The contents of the registers of the controller, as sampled before a decision.
#[derive(Clone, Copy, Debug, PartialEq, Eq)]
pub struct Registers {
    /// Main control register.
    pub mctrl: u32,
    /// Main status register.
    pub msts: u32,
    /// Error status register.
    pub ests: u32,
    /// Transmit status register.
    pub tsts: u32,
    /// Identifier registers of the mailboxes.
    pub tmi: [u32; 3],
}

impl Registers {
    /// Whether frames are sent in the order of their requests.
    pub open spec fn fifo_scheduling(self) -> bool {
        bits::any_set(self.mctrl, MCTRL_MMSSR)
    }

    /// Whether a frame is pending in some mailbox.
    pub open spec fn some_pending(self) -> bool {
        !(mailbox_empty(self.tsts, Mailbox::Mailbox0) && mailbox_empty(
            self.tsts,
            Mailbox::Mailbox1,
        ) && mailbox_empty(self.tsts, Mailbox::Mailbox2))
    }

    /// Whether a frame is pending in every mailbox.
    pub open spec fn all_pending(self) -> bool {
        !mailbox_empty(self.tsts, Mailbox::Mailbox0) && !mailbox_empty(
            self.tsts,
            Mailbox::Mailbox1,
        ) && !mailbox_empty(self.tsts, Mailbox::Mailbox2)
    }

    /// The number of the next free mailbox or, if none is free, of the one with the lowest priority.
    pub open spec fn next_number(self) -> u32 {
        bits::field(self.tsts, 3, 24)
    }

    /// The identifier register of a mailbox.
    pub open spec fn ident(self, mailbox: Mailbox) -> u32 {
        self.tmi@[mailbox.number() as int]
    }

    /// Whether a mailbox still requests the transmission of a frame.
    pub open spec fn requests(self, mailbox: Mailbox) -> bool {
        bits::any_set(self.ident(mailbox), TMI_SR)
    }

    /// The identifier and kind of the frame in a mailbox.
    pub open spec fn pending_id(self, mailbox: Mailbox) -> IdReg {
        IdReg(self.ident(mailbox) & 0xffff_fffe)
    }

    /// Whether a mailbox requests the transmission of a frame with the identifier and kind `id`.
    pub open spec fn same_priority(self, mailbox: Mailbox, id: IdReg) -> bool {
        self.requests(mailbox) && id == self.pending_id(mailbox)
    }

    /// Whether a frame has to wait for another one: in the order of requests for a free mailbox, in
    /// the order of priority for a frame of the same priority.
    pub open spec fn has_to_wait(self, frame: Frame) -> bool {
        let id = id::frame_register(frame.header.id, frame.header.rtr);
        if self.fifo_scheduling() {
            self.all_pending()
        } else {
            self.some_pending() && (self.same_priority(Mailbox::Mailbox0, id)
                || self.same_priority(Mailbox::Mailbox1, id) || self.same_priority(
                Mailbox::Mailbox2,
                id,
            ))
        }
    }

    /// What an attempt to transmit `frame` comes to.
    pub open spec fn decision(self, frame: Frame) -> Decision {
        let id = id::frame_register(frame.header.id, frame.header.rtr);
        let next = Mailbox::numbered(self.next_number());
        if self.has_to_wait(frame) {
            Decision::Refuse
        } else if self.fifo_scheduling() || !self.all_pending() {
            Decision::Use(next)
        } else if self.requests(next) && id::place(id) >= id::place(self.pending_id(next)) {
            Decision::Refuse
        } else {
            Decision::Replace(next)
        }
    }

    fn modify_mctrl(&self, bus: &mut Bus, clear: u32, set: u32)
        ensures
            final(bus)@ == old(bus)@.push(mctrl_modify(clear, set)),
    {
        bus.modify(Register::CanMctrl, clear | MCTRL_SPRST, set);
    }

    /// Enters initialisation mode.
    pub fn enter_init_mode(&self, bus: &mut Bus)
        ensures
            final(bus)@ == old(bus)@ + enter_init_actions(),
    {
        self.modify_mctrl(bus, MCTRL_DZEN, MCTRL_FZEN);
        bus.wait(Register::CanMsts, MSTS_DZC | MSTS_FZC, MSTS_FZC);
    }

    /// Leaves initialisation mode, enters sleep mode.
    pub fn leave_init_mode(&self, bus: &mut Bus)
        ensures
            final(bus)@ == old(bus)@ + doze_actions(),
    {
        self.modify_mctrl(bus, MCTRL_FZEN, MCTRL_DZEN);
        bus.wait(Register::CanMsts, MSTS_DZC | MSTS_FZC, MSTS_DZC);
    }

    /// Sets the bit timing.
    pub fn set_bit_timing(&self, bus: &mut Bus, bt: NominalBitTiming)
        requires
            bt.wf(),
        ensures
            final(bus)@ == old(bus)@.push(
                Action::Modify {
                    reg: Register::CanBtmg,
                    clear: BTMG_TIMING,
                    set: timing_bits(bt),
                },
            ),
    {
        let prescaler: u32 = bt.prescaler as u32 & 0x1ff;
        let seg1: u32 = bt.seg1 as u32;
        let seg2: u32 = bt.seg2 as u32 & 0x7f;
        let sync_jump_width: u32 = bt.sync_jump_width as u32 & 0x7f;
        bus.modify(
            Register::CanBtmg,
            BTMG_TIMING,
            bits::place(prescaler - 1, 0xfff, 0) | bits::place(seg1 - 1, 0xf, 16) | bits::place(
                seg2 - 1,
                7,
                20,
            ) | bits::place(sync_jump_width - 1, 3, 24),
        );
    }

    /// Enables or disables silent mode, which disconnects the TX signal from the pin.
    pub fn set_silent(&self, bus: &mut Bus, enabled: bool)
        ensures
            final(bus)@ == old(bus)@.push(silent_action(enabled)),
    {
        bus.modify(Register::CanBtmg, BTMG_LOEN, bits::bits_if(enabled, BTMG_LOEN));
    }

    /// Enables or disables automatic retransmission of frames.
    ///
    /// If it is enabled, the controller tries to send each frame until that succeeds, else only
    /// once.
    pub fn set_automatic_retransmit(&self, bus: &mut Bus, enabled: bool)
        ensures
            final(bus)@ == old(bus)@.push(retransmit_action(enabled)),
    {
        self.modify_mctrl(bus, MCTRL_PRSFEN, bits::bits_if(!enabled, MCTRL_PRSFEN));
    }

    /// Enables or disables loopback mode, which connects the TX and RX signals internally.
    pub fn set_loopback(&self, bus: &mut Bus, enabled: bool)
        ensures
            final(bus)@ == old(bus)@.push(loopback_action(enabled)),
    {
        bus.modify(Register::CanBtmg, BTMG_LBEN, bits::bits_if(enabled, BTMG_LBEN));
    }

    /// Turns the automatic wake-up by an incoming frame on or off.
    pub fn set_automatic_wakeup(&self, bus: &mut Bus, enabled: bool)
        ensures
            final(bus)@ == old(bus)@.push(automatic_wakeup_action(enabled)),
    {
        self.modify_mctrl(bus, MCTRL_AEDEN, bits::bits_if(enabled, MCTRL_AEDEN));
    }

    /// Leaves sleep mode, without waiting: as long as the controller sleeps, it is told to leave
    /// sleep mode and to leave the bus-off state by itself.
    pub fn enable_non_blocking(&self, bus: &mut Bus) -> (ready: Result<(), WouldBlock>)
        ensures
            ready is Ok <==> !asleep(self.msts),
            final(bus)@ == old(bus)@ + enable_actions(self.msts),
    {
        if bits::has(self.msts, MSTS_DZC) {
            self.modify_mctrl(bus, MCTRL_DZEN, MCTRL_AEBOEN);
            Err(WouldBlock)
        } else {
            Ok(())
        }
    }

    /// Enters sleep mode.
    pub fn sleep(&self, bus: &mut Bus)
        ensures
            final(bus)@ == old(bus)@ + doze_actions(),
    {
        self.modify_mctrl(bus, MCTRL_FZEN, MCTRL_DZEN);
        bus.wait(Register::CanMsts, MSTS_DZC | MSTS_FZC, MSTS_DZC);
    }

    /// Wakes up from sleep mode.
    pub fn wakeup(&self, bus: &mut Bus)
        ensures
            final(bus)@ == old(bus)@ + wakeup_actions(),
    {
        self.modify_mctrl(bus, MCTRL_DZEN | MCTRL_FZEN, 0);
        bus.wait(Register::CanMsts, MSTS_DZC | MSTS_FZC, 0);
    }

    /// Tells whether the controller sleeps.
    pub fn is_sleeping(&self) -> (sleeping: bool)
        ensures
            sleeping == asleep(self.msts),
    {
        bits::has(self.msts, MSTS_DZC)
    }

    /// The error that was not acknowledged yet. It is acknowledged, and its interrupt, which was
    /// disabled when it occurred, is enabled again.
    pub fn curr_error(&self, bus: &mut Bus) -> (error: Option<BusError>)
        ensures
            !bits::any_set(self.msts, MSTS_EOIF) ==> error is None && final(bus)@ == old(bus)@,
            bits::any_set(self.msts, MSTS_EOIF) ==> error == error_of(
                bits::field(self.ests, 7, 4),
            ) && final(bus)@ == old(bus)@ + seq![
                msts_acknowledge(MSTS_EOIF),
                inten_modify(0, INTEN_EOIEN),
            ],
    {
        if !bits::has(self.msts, MSTS_EOIF) {
            // An error that was acknowledged and handed on is not handed on again.
            return None;
        }
        bus.modify(Register::CanMsts, MSTS_FLAGS, MSTS_EOIF);
        bus.modify(Register::CanInten, 0, INTEN_EOIEN);
        match bits::get_field(self.ests, 7, 4) {
            1 => Some(BusError::Stuff),
            2 => Some(BusError::Form),
            3 => Some(BusError::Acknowledge),
            4 => Some(BusError::BitRecessive),
            5 => Some(BusError::BitDominant),
            6 => Some(BusError::Crc),
            7 => Some(BusError::Software),
            _ => None,
        }
    }

    /// Enables or disables FIFO scheduling of the mailboxes.
    ///
    /// If it is enabled, mailboxes are scheduled by the time of their requests, else by the
    /// priority of their frames.
    pub fn set_tx_fifo_scheduling(&self, bus: &mut Bus, enabled: bool)
        ensures
            final(bus)@ == old(bus)@.push(scheduling_action(enabled)),
    {
        self.modify_mctrl(bus, MCTRL_MMSSR, bits::bits_if(enabled, MCTRL_MMSSR));
    }

    /// Tells whether FIFO scheduling is enabled.
    pub fn tx_fifo_scheduling_enabled(&self) -> (enabled: bool)
        ensures
            enabled == self.fifo_scheduling(),
    {
        bits::has(self.mctrl, MCTRL_MMSSR)
    }

    /// Tells whether a mailbox is empty.
    pub fn is_empty(&self, mailbox: Mailbox) -> (empty: bool)
        ensures
            empty == mailbox_empty(self.tsts, mailbox),
    {
        match mailbox {
            Mailbox::Mailbox0 => bits::has(self.tsts, 0x0400_0000),
            Mailbox::Mailbox1 => bits::has(self.tsts, 0x0800_0000),
            Mailbox::Mailbox2 => bits::has(self.tsts, 0x1000_0000),
        }
    }

    fn all_frames_are_pending(&self) -> (pending: bool)
        ensures
            pending == self.all_pending(),
    {
        !self.is_empty(Mailbox::Mailbox0) && !self.is_empty(Mailbox::Mailbox1) && !self.is_empty(
            Mailbox::Mailbox2,
        )
    }

    /// Tells whether a frame has to wait for another one: in the order of requests for a free
    /// mailbox, in the order of priority for a frame of the same priority. Such a frame is refused
    /// whatever the number of the next mailbox.
    pub fn must_wait(&self, frame: &Frame) -> (waits: bool)
        ensures
            waits == self.has_to_wait(*frame),
    {
        let id = IdReg::of_frame(&frame.header.id, frame.header.rtr);
        if self.tx_fifo_scheduling_enabled() {
            self.all_frames_are_pending()
        } else {
            !self.is_idle() && (self.check_priority(Mailbox::Mailbox0, id).is_err()
                || self.check_priority(Mailbox::Mailbox1, id).is_err() || self.check_priority(
                Mailbox::Mailbox2,
                id,
            ).is_err())
        }
    }

    /// Puts a frame in a mailbox for transmission.
    ///
    /// With FIFO scheduling, a frame is refused if no mailbox is free.
    ///
    /// Without it, frames are sent by priority, and frames of the same priority in the order in
    /// which they came: the controller would go by the number of their mailboxes, so a frame is
    /// refused as long as one of the same priority is pending. If no mailbox is free and the frame
    /// has a higher priority than the one with the lowest priority, the request of the latter is
    /// cancelled; [`Registers::replace`] completes the operation. A frame that has not is refused.
    pub fn transmit(&self, bus: &mut Bus, frame: &Frame) -> (transmission: Result<
        Transmission,
        WouldBlock,
    >)
        requires
            self.has_to_wait(*frame) || self.next_number() < 3,
        ensures
            match self.decision(*frame) {
                Decision::Refuse => transmission is Err && final(bus)@ == old(bus)@,
                Decision::Use(mailbox) => {
                    &&& transmission matches Ok(Transmission::Queued(status))
                    &&& status.dequeued_frame is None
                    &&& status.mailbox == mailbox
                    &&& final(bus)@ == old(bus)@ + write_mailbox_actions(mailbox, *frame)
                },
                Decision::Replace(mailbox) => {
                    &&& transmission matches Ok(Transmission::Cancelling(place))
                    &&& place == mailbox
                    &&& final(bus)@ == old(bus)@ + cancel_actions(mailbox)
                },
            },
    {
        if self.must_wait(frame) {
            return Err(WouldBlock);
        }
        let fifo_scheduling = self.tx_fifo_scheduling_enabled();
        let all_frames_are_pending = self.all_frames_are_pending();
        let id = IdReg::of_frame(&frame.header.id, frame.header.rtr);
        let mailbox = match bits::get_field(self.tsts, 3, 24) {
            0 => Mailbox::Mailbox0,
            1 => Mailbox::Mailbox1,
            _ => Mailbox::Mailbox2,
        };
        if !fifo_scheduling && all_frames_are_pending {
            // To prevent a priority inversion the frame with the lowest priority is replaced.
            let ident: u32 = self.tmi[mailbox.index() as usize];
            if bits::has(ident, TMI_SR) && !(id > IdReg::from_register(ident)) {
                return Err(WouldBlock);
            }
            self.cancel(bus, mailbox);
            return Ok(Transmission::Cancelling(mailbox));
        }
        self.write_mailbox(bus, mailbox, frame);
        Ok(Transmission::Queued(TransmitStatus { dequeued_frame: None, mailbox }))
    }

    /// Completes the replacement of the frame in a mailbox, given what the mailbox held once its
    /// request was cancelled. The frame that was replaced is handed back, unless it was sent before
    /// it could be cancelled.
    pub fn replace(
        &self,
        bus: &mut Bus,
        mailbox: Mailbox,
        sample: &MailboxSample,
        frame: &Frame,
    ) -> (status: TransmitStatus)
        ensures
            replaced(mailbox, *sample, *frame, status, old(bus)@, final(bus)@),
    {
        let dequeued_frame = self.read_pending_mailbox(mailbox, sample);
        self.write_mailbox(bus, mailbox, frame);
        TransmitStatus { dequeued_frame, mailbox }
    }

    /// Refuses if a mailbox holds a pending frame of the same priority as `id`.
    fn check_priority(&self, mailbox: Mailbox, id: IdReg) -> (free: Result<(), WouldBlock>)
        ensures
            free is Err <==> self.same_priority(mailbox, id),
    {
        let ident: u32 = self.tmi[mailbox.index() as usize];
        // The frame may have been sent in the meantime.
        if bits::has(ident, TMI_SR) && id == IdReg::from_register(ident) {
            return Err(WouldBlock);
        }
        Ok(())
    }

    fn write_mailbox(&self, bus: &mut Bus, mailbox: Mailbox, frame: &Frame)
        ensures
            final(bus)@ == old(bus)@ + write_mailbox_actions(mailbox, *frame),
    {
        bus.write(Register::CanTmc(mailbox), bits::place(frame.header.len as u32, 0xf, 0));
        bus.write(Register::CanTmdtl(mailbox), frame::data_word(&frame.data, 0));
        bus.write(Register::CanTmdth(mailbox), frame::data_word(&frame.data, 4));
        let id = IdReg::of_frame(&frame.header.id, frame.header.rtr);
        bus.write(Register::CanTmi(mailbox), id.0 | TMI_SR);
    }

    fn read_pending_mailbox(&self, mailbox: Mailbox, sample: &MailboxSample) -> (frame: Option<
        Frame,
    >)
        ensures
            frame is Some <==> !mailbox_sent(sample.tsts, mailbox),
            frame matches Some(f) ==> holds_frame(
                f,
                sample.tmi,
                sample.tmc,
                sample.tmdtl,
                sample.tmdth,
            ),
    {
        if Self::was_cancelled(sample.tsts, mailbox) {
            let id = IdReg(sample.tmi);
            let len: u8 = bits::get_field(sample.tmc, 0xf, 0) as u8;
            Some(
                Frame {
                    header: Header::new(id.id(), len, id.rtr()),
                    data: frame::data_bytes(sample.tmdtl, sample.tmdth),
                },
            )
        } else {
            // The frame was sent, or being sent.
            None
        }
    }

    /// Tells, once the request of a mailbox was cancelled, whether that came before its frame was
    /// sent.
    pub fn was_cancelled(tsts: u32, mailbox: Mailbox) -> (cancelled: bool)
        ensures
            cancelled == !mailbox_sent(tsts, mailbox),
    {
        match mailbox {
            Mailbox::Mailbox0 => !bits::has(tsts, 0x0000_0002),
            Mailbox::Mailbox1 => !bits::has(tsts, 0x0000_0200),
            Mailbox::Mailbox2 => !bits::has(tsts, 0x0002_0000),
        }
    }

    fn cancel(&self, bus: &mut Bus, mailbox: Mailbox)
        ensures
            final(bus)@ == old(bus)@ + cancel_actions(mailbox),
    {
        let bit: u32 = match mailbox {
            Mailbox::Mailbox0 => 0x0000_0080,
            Mailbox::Mailbox1 => 0x0000_8000,
            Mailbox::Mailbox2 => 0x0080_0000,
        };
        bus.write(Register::CanTsts, TSTS_RESET | bit);
        bus.wait(Register::CanTsts, bit, 0);
        bus.sample(Register::CanTsts);
        bus.sample(Register::CanTmi(mailbox));
        bus.sample(Register::CanTmdtl(mailbox));
        bus.sample(Register::CanTmdth(mailbox));
        bus.sample(Register::CanTmc(mailbox));
    }

    /// Attempts to abort the transmission of the frame in a mailbox.
    ///
    /// An empty mailbox is left alone: the result is `false`, and what was sent from it before does
    /// not matter. Else the request is cancelled, and [`Registers::was_cancelled`] tells from the
    /// transmit status what came of it.
    pub fn abort(&self, bus: &mut Bus, mailbox: Mailbox) -> (requested: bool)
        ensures
            aborted(self.tsts, mailbox, requested, old(bus)@, final(bus)@),
    {
        if self.is_empty(mailbox) {
            false
        } else {
            self.cancel(bus, mailbox);
            true
        }
    }

    /// Tells whether no frame is pending for transmission.
    pub fn is_idle(&self) -> (idle: bool)
        ensures
            idle == !self.some_pending(),
    {
        self.is_empty(Mailbox::Mailbox0) && self.is_empty(Mailbox::Mailbox1) && self.is_empty(
            Mailbox::Mailbox2,
        )
    }

    /// Tells from both FIFO registers whether a frame was received.
    pub fn receive_frame_available(&self, rf0: u32, rf1: u32) -> (available: bool)
        ensures
            available == frame_available(rf0, rf1),
    {
        if bits::get_field(rf0, RF_MN, 0) != 0 {
            true
        } else {
            bits::get_field(rf1, RF_MN, 0) != 0
        }
    }

    /// Takes the oldest frame out of a FIFO, if there is one; `ts` is the present time.
    pub fn receive_fifo(&self, bus: &mut Bus, fifo: Fifo, sample: &FifoSample, ts: u64) -> (received:
        Option<Envelope>)
        ensures
            received_from(*sample, ts, received),
            final(bus)@ == old(bus)@ + release_actions(fifo, *sample),
    {
        if bits::get_field(sample.rf, RF_MN, 0) == 0 {
            return None;
        }
        let id = IdReg(sample.rfi);
        let len: u8 = bits::get_field(sample.rfc, 0xf, 0) as u8;
        let frame = Frame {
            header: Header::new(id.id(), len, id.rtr()),
            data: frame::data_bytes(sample.rfdtl, sample.rfdth),
        };
        bus.modify(Register::CanRf(fifo), RF_FLAGS, RF_R);
        Some(Envelope { ts, frame })
    }
}

/// What the replacement of the frame in a mailbox comes to: the new frame is put there, and the old
/// one handed back unless it was sent.
pub open spec fn replaced(
    mailbox: Mailbox,
    sample: MailboxSample,
    frame: Frame,
    status: TransmitStatus,
    before: Seq<Action>,
    after: Seq<Action>,
) -> bool {
    &&& status.mailbox == mailbox
    &&& status.dequeued_frame is Some <==> !mailbox_sent(sample.tsts, mailbox)
    &&& status.dequeued_frame matches Some(dequeued) ==> holds_frame(
        dequeued,
        sample.tmi,
        sample.tmc,
        sample.tmdtl,
        sample.tmdth,
    )
    &&& after == before + write_mailbox_actions(mailbox, frame)
}

/// What an attempt to abort comes to: the request of a mailbox that is not empty is cancelled.
pub open spec fn aborted(
    tsts: u32,
    mailbox: Mailbox,
    requested: bool,
    before: Seq<Action>,
    after: Seq<Action>,
) -> bool {
    &&& requested == !mailbox_empty(tsts, mailbox)
    &&& requested ==> after == before + cancel_actions(mailbox)
    &&& !requested ==> after == before
}

/// Whether a FIFO holds a frame.
pub open spec fn fifo_filled(sample: FifoSample) -> bool {
    bits::field(sample.rf, RF_MN, 0) != 0
}

/// Whether one of both FIFO registers counts a frame.
pub open spec fn frame_available(rf0: u32, rf1: u32) -> bool {
    bits::field(rf0, RF_MN, 0) != 0 || bits::field(rf1, RF_MN, 0) != 0
}

/// What was received from a FIFO: the frame in its registers, if it holds one.
pub open spec fn received_from(sample: FifoSample, ts: u64, received: Option<Envelope>) -> bool {
    match received {
        Some(envelope) => {
            &&& fifo_filled(sample)
            &&& envelope.ts == ts
            &&& holds_frame(envelope.frame, sample.rfi, sample.rfc, sample.rfdtl, sample.rfdth)
        },
        None => !fifo_filled(sample),
    }
}

/// The accesses that release the oldest frame of a FIFO, if it holds one.
pub open spec fn release_actions(fifo: Fifo, sample: FifoSample) -> Seq<Action> {
    if fifo_filled(sample) {
        seq![Action::Modify { reg: Register::CanRf(fifo), clear: RF_FLAGS, set: RF_R }]
    } else {
        seq![]
    }
}

} // verus!
