//! The CAN driver.
use crate::bits;
use crate::bus::{Action, Bus, Interrupt, Peripheral, Register, Waiter};
use crate::can::buffer;
use crate::can::buffer::{RxBuf, TxBuf};
use crate::can::frame::{
    BusError, Envelope, Fifo, Frame, Mailbox, NominalBitTiming, TryReadError, TryWriteError,
};
use crate::can::registers;
use crate::can::registers::{
    Decision, FifoSample, Registers, Transmission, INTEN_BOIEN, INTEN_EAIEN, INTEN_EDZIEN,
    INTEN_EOIEN, INTEN_EPIEN, INTEN_ETRIEN, INTEN_RF0MIEN, INTEN_RF0OIEN, INTEN_RF1MIEN,
    INTEN_RF1OIEN, INTEN_TCIEN, MCTRL_DZEN, MCTRL_RESET, MCTRL_SPRST, MCTRL_TTCEN, MSTS_DZC,
    MSTS_EDZIF, MSTS_EOIF, MSTS_FLAGS, RF_MN, TSTS_RESET, TSTS_TCF,
};
use crate::rate::Hertz;
use core::marker::PhantomData;
use vstd::prelude::*;

verus! {

/// The interrupts that the driver enables.
pub const INTEN_DRIVER: u32 = INTEN_EOIEN | INTEN_RF0OIEN | INTEN_RF1OIEN | INTEN_TCIEN
    | INTEN_BOIEN | INTEN_EPIEN | INTEN_EAIEN | INTEN_ETRIEN;

/// The interrupt that reports a frame in a FIFO.
pub open spec fn frame_interrupt(fifo: Fifo) -> u32 {
    match fifo {
        Fifo::Fifo0 => INTEN_RF0MIEN,
        Fifo::Fifo1 => INTEN_RF1MIEN,
    }
}

/// The accesses that bring the controller into service, asleep.
pub open spec fn start_actions() -> Seq<Action> {
    seq![
        Action::Enable { peripheral: Peripheral::Can1 },
        Action::Reset { peripheral: Peripheral::Can1 },
        Action::Write { reg: Register::CanInten, value: INTEN_DRIVER },
        Action::Write { reg: Register::CanMctrl, value: MCTRL_RESET | MCTRL_TTCEN },
        Action::Unpend { interrupt: Interrupt::Can1Tx },
        Action::Unmask { interrupt: Interrupt::Can1Tx },
        Action::Unpend { interrupt: Interrupt::Can1Rx0 },
        Action::Unmask { interrupt: Interrupt::Can1Rx0 },
        Action::Unpend { interrupt: Interrupt::Can1Rx1 },
        Action::Unmask { interrupt: Interrupt::Can1Rx1 },
        Action::Unpend { interrupt: Interrupt::Can1Se },
        Action::Unmask { interrupt: Interrupt::Can1Se },
    ] + registers::doze_actions()
}

/// The error that was not acknowledged yet.
pub open spec fn current_error(regs: Registers) -> Option<BusError> {
    if bits::any_set(regs.msts, MSTS_EOIF) {
        registers::error_of(bits::field(regs.ests, 7, 4))
    } else {
        None
    }
}

/// The accesses that acknowledge an error, if there is one.
pub open spec fn acknowledge_actions(regs: Registers) -> Seq<Action> {
    if bits::any_set(regs.msts, MSTS_EOIF) {
        seq![
            registers::msts_acknowledge(MSTS_EOIF),
            registers::inten_modify(0, INTEN_EOIEN),
        ]
    } else {
        seq![]
    }
}

/// What an attempt to read without buffer comes to: the oldest frame of the first FIFO that holds
/// one, else an error that was not handed on yet, else nothing.
pub open spec fn read_result(
    regs: Registers,
    fifo0: FifoSample,
    fifo1: FifoSample,
    ts: u64,
    result: Result<Envelope, TryReadError>,
) -> bool {
    if registers::fifo_filled(fifo0) {
        result is Ok && registers::received_from(fifo0, ts, Some(result->Ok_0))
    } else if registers::fifo_filled(fifo1) {
        result is Ok && registers::received_from(fifo1, ts, Some(result->Ok_0))
    } else {
        result is Err && result->Err_0 == match current_error(regs) {
            Some(error) => TryReadError::BusError(error),
            None => TryReadError::Empty,
        }
    }
}

/// The accesses of an attempt to read without buffer. The interrupt of the FIFO that was read, or
/// of both if there was nothing, is enabled again.
pub open spec fn read_actions(regs: Registers, fifo0: FifoSample, fifo1: FifoSample) -> Seq<
    Action,
> {
    if registers::fifo_filled(fifo0) {
        registers::release_actions(Fifo::Fifo0, fifo0) + seq![
            registers::inten_modify(0, INTEN_RF0MIEN),
        ]
    } else if registers::fifo_filled(fifo1) {
        registers::release_actions(Fifo::Fifo1, fifo1) + seq![
            registers::inten_modify(0, INTEN_RF1MIEN),
        ]
    } else if current_error(regs) is Some {
        acknowledge_actions(regs)
    } else {
        acknowledge_actions(regs) + seq![
            registers::inten_modify(0, INTEN_RF0MIEN | INTEN_RF1MIEN),
        ]
    }
}

/// What an attempt to transmit comes to, for the caller and on the bus.
pub open spec fn transmitted(
    regs: Registers,
    frame: Frame,
    transmission: Option<Transmission>,
    before: Seq<Action>,
    after: Seq<Action>,
) -> bool {
    match regs.decision(frame) {
        Decision::Refuse => transmission is None && after == before,
        Decision::Use(mailbox) => {
            &&& transmission matches Some(Transmission::Queued(status))
            &&& status.dequeued_frame is None
            &&& status.mailbox == mailbox
            &&& after == before + registers::write_mailbox_actions(mailbox, frame)
        },
        Decision::Replace(mailbox) => {
            &&& transmission matches Some(Transmission::Cancelling(place))
            &&& place == mailbox
            &&& after == before + registers::cancel_actions(mailbox)
        },
    }
}

/// How received frames are handed on.
pub enum RxMode {
    /// The reader is woken, and takes the frame out of its FIFO.
    NonBuffered,
    /// The frame goes into a buffer.
    Buffered(RxBuf),
}

/// What the interrupt of a FIFO comes to, for the mode, on the bus and for the caller.
pub open spec fn fifo_interrupt(
    mode: RxMode,
    next: RxMode,
    fifo: Fifo,
    sample: FifoSample,
    ts: u64,
    again: bool,
    posted: Seq<Action>,
    now: Seq<Action>,
) -> bool {
    match mode {
        RxMode::NonBuffered => {
            &&& !again
            &&& next is NonBuffered
            &&& now =~= posted + seq![
                registers::inten_modify(frame_interrupt(fifo), 0),
                Action::Wake { waiter: Waiter::CanRx },
            ]
        },
        RxMode::Buffered(before) => {
            let after = next->Buffered_0;
            let kept = registers::fifo_filled(sample) && before@.len() < buffer::rx_capacity(
                before,
            );
            &&& next is Buffered
            &&& again == registers::fifo_filled(sample)
            &&& buffer::rx_capacity(after) == buffer::rx_capacity(before)
            &&& !kept ==> after@ =~= before@
            &&& kept ==> after@.len() == before@.len() + 1 && after@.drop_last() =~= before@
                && after@.last() is Ok && registers::received_from(
                sample,
                ts,
                Some(after@.last()->Ok_0),
            )
            &&& now =~= posted + registers::release_actions(fifo, sample) + if kept {
                seq![Action::Wake { waiter: Waiter::CanRx }]
            } else {
                seq![]
            }
        },
    }
}

impl RxMode {
    /// Handles the interrupt of a FIFO. The result tells whether there may be more frames: then the
    /// FIFO is sampled again and handed to this function again.
    pub fn on_interrupt(
        &mut self,
        bus: &mut Bus,
        regs: &Registers,
        fifo: Fifo,
        sample: &FifoSample,
        ts: u64,
    ) -> (again: bool)
        ensures
            fifo_interrupt(
                *old(self),
                *final(self),
                fifo,
                *sample,
                ts,
                again,
                old(bus)@,
                final(bus)@,
            ),
    {
        match self {
            RxMode::NonBuffered => {
                // No interrupt until the frame was read.
                let mask: u32 = match fifo {
                    Fifo::Fifo0 => INTEN_RF0MIEN,
                    Fifo::Fifo1 => INTEN_RF1MIEN,
                };
                bus.modify(Register::CanInten, mask, 0);
                bus.wake(Waiter::CanRx);
                false
            },
            RxMode::Buffered(buf) => {
                match regs.receive_fifo(bus, fifo, sample, ts) {
                    Some(envelope) => {
                        // If the buffer is full the frame is dropped.
                        if buf.try_send(Ok(envelope)) {
                            bus.wake(Waiter::CanRx);
                        }
                        true
                    },
                    None => false,
                }
            },
        }
    }

    /// Attempts to read a frame, or to wait for one: with nothing to hand on there is no result.
    pub fn read(
        &self,
        bus: &mut Bus,
        regs: &Registers,
        fifo0: &FifoSample,
        fifo1: &FifoSample,
        ts: u64,
    ) -> (result: Option<Result<Envelope, BusError>>)
        requires
            *self is NonBuffered,
        ensures
            read_result(*regs, *fifo0, *fifo1, ts, attempted(result)),
            final(bus)@ == old(bus)@ + read_actions(*regs, *fifo0, *fifo1),
    {
        match self.try_read(bus, regs, fifo0, fifo1, ts) {
            Ok(envelope) => Some(Ok(envelope)),
            Err(TryReadError::Empty) => None,
            Err(TryReadError::BusError(error)) => Some(Err(error)),
        }
    }

    /// Attempts to read a frame.
    pub fn try_read(
        &self,
        bus: &mut Bus,
        regs: &Registers,
        fifo0: &FifoSample,
        fifo1: &FifoSample,
        ts: u64,
    ) -> (result: Result<Envelope, TryReadError>)
        requires
            *self is NonBuffered,
        ensures
            read_result(*regs, *fifo0, *fifo1, ts, result),
            final(bus)@ == old(bus)@ + read_actions(*regs, *fifo0, *fifo1),
    {
        if let Some(envelope) = regs.receive_fifo(bus, Fifo::Fifo0, fifo0, ts) {
            bus.modify(Register::CanInten, 0, INTEN_RF0MIEN);
            Ok(envelope)
        } else if let Some(envelope) = regs.receive_fifo(bus, Fifo::Fifo1, fifo1, ts) {
            bus.modify(Register::CanInten, 0, INTEN_RF1MIEN);
            Ok(envelope)
        } else if let Some(error) = regs.curr_error(bus) {
            Err(TryReadError::BusError(error))
        } else {
            bus.modify(Register::CanInten, 0, INTEN_RF0MIEN | INTEN_RF1MIEN);
            Err(TryReadError::Empty)
        }
    }

    /// Tells from both FIFO registers whether there is a frame to read.
    pub fn wait_not_empty(&self, regs: &Registers, rf0: u32, rf1: u32) -> (ready: bool)
        requires
            *self is NonBuffered,
        ensures
            ready == registers::frame_available(rf0, rf1),
    {
        regs.receive_frame_available(rf0, rf1)
    }
}

/// How frames come to the mailboxes.
pub enum TxMode {
    /// The writer puts the frame in a mailbox, and is woken when one is free.
    NonBuffered,
    /// Frames come from a buffer.
    Buffered(TxBuf),
}

/// What the interrupt of the mailboxes comes to, for the mode, on the bus and for the caller.
pub open spec fn mailbox_interrupt(
    mode: TxMode,
    next: TxMode,
    regs: Registers,
    again: bool,
    posted: Seq<Action>,
    now: Seq<Action>,
) -> bool {
    match mode {
        TxMode::NonBuffered => {
            &&& !again
            &&& next is NonBuffered
            &&& now =~= posted.push(Action::Wake { waiter: Waiter::CanTx })
        },
        TxMode::Buffered(before) => {
            let after = next->Buffered_0;
            &&& next is Buffered
            &&& again == (!regs.all_pending() && before@.len() > 0)
            &&& buffer::tx_capacity(after) == buffer::tx_capacity(before)
            &&& !again ==> after@ =~= before@ && now =~= posted
            &&& again ==> after@ =~= before@.skip(1) && now =~= posted + (match regs.decision(
                before@[0],
            ) {
                Decision::Use(mailbox) => registers::write_mailbox_actions(mailbox, before@[0]),
                _ => seq![],
            }).push(Action::Wake { waiter: Waiter::CanTx })
        },
    }
}

impl TxMode {
    /// Tells whether a mailbox is free.
    pub fn buffer_free(&self, regs: &Registers) -> (free: bool)
        ensures
            free == !regs.all_pending(),
    {
        regs.is_empty(Mailbox::Mailbox0) || regs.is_empty(Mailbox::Mailbox1) || regs.is_empty(
            Mailbox::Mailbox2,
        )
    }

    /// Handles the interrupt of the mailboxes. The result tells whether a frame left the buffer:
    /// then the registers are sampled again and handed to this function again. A frame that cannot
    /// be accepted is dropped.
    pub fn on_interrupt(&mut self, bus: &mut Bus, regs: &Registers) -> (again: bool)
        requires
            *old(self) is Buffered && old(self)->Buffered_0@.len() > 0 && !regs.all_pending()
                ==> regs.has_to_wait(old(self)->Buffered_0@[0]) || regs.next_number() < 3,
        ensures
            mailbox_interrupt(
                *old(self),
                *final(self),
                *regs,
                again,
                old(bus)@,
                final(bus)@,
            ),
    {
        let free = self.buffer_free(regs);
        match self {
            TxMode::NonBuffered => {
                bus.wake(Waiter::CanTx);
                false
            },
            TxMode::Buffered(buf) => {
                if !free {
                    return false;
                }
                match buf.try_receive() {
                    Some(frame) => {
                        let _ = regs.transmit(bus, &frame);
                        bus.wake(Waiter::CanTx);
                        true
                    },
                    None => false,
                }
            },
        }
    }
}

/// What the driver shares with the interrupts.
pub struct State {
    /// How received frames are handed on.
    pub rx_mode: RxMode,
    /// How frames come to the mailboxes.
    pub tx_mode: TxMode,
}

impl State {
    /// Without buffers.
    pub fn new() -> (state: Self)
        ensures
            state.rx_mode is NonBuffered,
            state.tx_mode is NonBuffered,
    {
        State { rx_mode: RxMode::NonBuffered, tx_mode: TxMode::NonBuffered }
    }

    /// Starts to handle the interrupt of the mailboxes: the flags are acknowledged. Then
    /// [`TxMode::on_interrupt`] is called as long as it asks for it.
    pub fn can1_tx(&self, bus: &mut Bus)
        ensures
            final(bus)@ == old(bus)@.push(
                Action::Write { reg: Register::CanTsts, value: TSTS_RESET | TSTS_TCF },
            ),
    {
        bus.write(Register::CanTsts, TSTS_RESET | TSTS_TCF);
    }

    /// Handles the status interrupt. That the controller fell asleep is acknowledged. An error is
    /// not, so that the reader can hand it on; its interrupt is disabled instead.
    pub fn can1_se(&self, bus: &mut Bus, regs: &Registers)
        ensures
            final(bus)@ == old(bus)@ + status_actions(*regs),
    {
        if bits::has(regs.msts, MSTS_EDZIF) {
            bus.modify(Register::CanMsts, MSTS_FLAGS, MSTS_EDZIF);
            bus.wake(Waiter::CanErr);
        } else if bits::has(regs.msts, MSTS_EOIF) {
            bus.modify(Register::CanInten, INTEN_EOIEN, 0);
            bus.wake(Waiter::CanErr);
        }
    }
}

/// The accesses of the status interrupt.
pub open spec fn status_actions(regs: Registers) -> Seq<Action> {
    if bits::any_set(regs.msts, MSTS_EDZIF) {
        seq![
            registers::msts_acknowledge(MSTS_EDZIF),
            Action::Wake { waiter: Waiter::CanErr },
        ]
    } else if bits::any_set(regs.msts, MSTS_EOIF) {
        seq![
            registers::inten_modify(INTEN_EOIEN, 0),
            Action::Wake { waiter: Waiter::CanErr },
        ]
    } else {
        seq![]
    }
}

/// A controller that is being configured, returned by [`Can::modify_config`].
pub struct CanConfig {
    /// The clock of the controller.
    pub periph_clock: Hertz,
}

impl CanConfig {
    /// Sets the bit timing.
    pub fn set_bit_timing(self, bus: &mut Bus, regs: &Registers, bt: NominalBitTiming) -> (config:
        Self)
        requires
            bt.wf(),
        ensures
            config == self,
            final(bus)@ == old(bus)@.push(timing_action(bt)),
    {
        regs.set_bit_timing(bus, bt);
        self
    }

    /// Sets the bit rate, by way of the bit timing that was found for it and the clock of the
    /// controller.
    pub fn set_bitrate(self, bus: &mut Bus, regs: &Registers, bit_timing: NominalBitTiming) -> (
    config: Self)
        requires
            bit_timing.wf(),
        ensures
            config == self,
            final(bus)@ == old(bus)@.push(timing_action(bit_timing)),
    {
        self.set_bit_timing(bus, regs, bit_timing)
    }

    /// Enables or disables loopback mode, which connects the TX and RX signals internally.
    pub fn set_loopback(self, bus: &mut Bus, regs: &Registers, enabled: bool) -> (config: Self)
        ensures
            config == self,
            final(bus)@ == old(bus)@.push(registers::loopback_action(enabled)),
    {
        regs.set_loopback(bus, enabled);
        self
    }

    /// Enables or disables silent mode, which disconnects the TX signal from the pin.
    pub fn set_silent(self, bus: &mut Bus, regs: &Registers, enabled: bool) -> (config: Self)
        ensures
            config == self,
            final(bus)@ == old(bus)@.push(registers::silent_action(enabled)),
    {
        regs.set_silent(bus, enabled);
        self
    }

    /// Enables or disables automatic retransmission of frames.
    ///
    /// If it is enabled, the controller tries to send each frame until that succeeds, else only
    /// once.
    pub fn set_automatic_retransmit(self, bus: &mut Bus, regs: &Registers, enabled: bool) -> (
    config: Self)
        ensures
            config == self,
            final(bus)@ == old(bus)@.push(registers::retransmit_action(enabled)),
    {
        regs.set_automatic_retransmit(bus, enabled);
        self
    }

    /// Ends the configuration: the controller goes to sleep.
    pub fn finish(self, bus: &mut Bus, regs: &Registers)
        ensures
            final(bus)@ == old(bus)@ + registers::doze_actions(),
    {
        regs.leave_init_mode(bus);
    }
}

/// The access that sets the bit timing.
pub open spec fn timing_action(bt: NominalBitTiming) -> Action {
    Action::Modify {
        reg: Register::CanBtmg,
        clear: registers::BTMG_TIMING,
        set: registers::timing_bits(bt),
    }
}

/// CAN driver.
pub struct Can {
    /// The clock of the controller.
    pub periph_clock: Hertz,
}

impl Can {
    /// Brings the controller into service, asleep. To use it, call [`Can::enable`].
    pub fn new(bus: &mut Bus, regs: &Registers, periph_clock: Hertz) -> (can: Self)
        ensures
            can.periph_clock == periph_clock,
            final(bus)@ == old(bus)@ + start_actions(),
    {
        bus.post(Action::Enable { peripheral: Peripheral::Can1 });
        bus.post(Action::Reset { peripheral: Peripheral::Can1 });
        bus.write(Register::CanInten, INTEN_DRIVER);
        bus.write(Register::CanMctrl, MCTRL_RESET | MCTRL_TTCEN);
        bus.unpend_and_unmask(Interrupt::Can1Tx);
        bus.unpend_and_unmask(Interrupt::Can1Rx0);
        bus.unpend_and_unmask(Interrupt::Can1Rx1);
        bus.unpend_and_unmask(Interrupt::Can1Se);
        regs.leave_init_mode(bus);
        Can { periph_clock }
    }

    /// Sets the bit rate, by way of the bit timing that was found for it and the clock of the
    /// controller.
    pub fn set_bitrate(&mut self, bus: &mut Bus, regs: &Registers, bit_timing: NominalBitTiming)
        requires
            bit_timing.wf(),
        ensures
            *final(self) == *old(self),
            final(bus)@ == old(bus)@ + registers::enter_init_actions() + seq![
                timing_action(bit_timing),
            ] + registers::doze_actions(),
    {
        let config = self.modify_config(bus, regs);
        config.set_bit_timing(bus, regs, bit_timing).finish(bus, regs);
    }

    /// Starts a configuration of bit timing and modes.
    ///
    /// The controller has to be enabled again afterwards.
    pub fn modify_config(&mut self, bus: &mut Bus, regs: &Registers) -> (config: CanConfig)
        ensures
            *final(self) == *old(self),
            config.periph_clock == old(self).periph_clock,
            final(bus)@ == old(bus)@ + registers::enter_init_actions(),
    {
        regs.enter_init_mode(bus);
        CanConfig { periph_clock: self.periph_clock }
    }

    /// Enables the controller: tells whether it is awake, and wakes it if it is not. To be called
    /// until the controller is awake, which takes 11 consecutive recessive bits on the bus.
    pub fn enable(&mut self, bus: &mut Bus, regs: &Registers) -> (awake: bool)
        ensures
            *final(self) == *old(self),
            awake == !registers::asleep(regs.msts),
            final(bus)@ == old(bus)@ + registers::enable_actions(regs.msts),
    {
        match regs.enable_non_blocking(bus) {
            Ok(()) => true,
            Err(_) => false,
        }
    }

    /// Turns the automatic wake-up by an incoming frame on or off.
    pub fn set_automatic_wakeup(&mut self, bus: &mut Bus, regs: &Registers, enabled: bool)
        ensures
            *final(self) == *old(self),
            final(bus)@ == old(bus)@.push(registers::automatic_wakeup_action(enabled)),
    {
        regs.set_automatic_wakeup(bus, enabled);
    }

    /// Wakes the controller from sleep mode, and waits until it is awake.
    pub fn wakeup(&mut self, bus: &mut Bus, regs: &Registers)
        ensures
            *final(self) == *old(self),
            final(bus)@ == old(bus)@ + registers::wakeup_actions(),
    {
        regs.wakeup(bus);
    }

    /// Tells whether the controller is in sleep mode.
    pub fn is_sleeping(&self, regs: &Registers) -> (sleeping: bool)
        ensures
            sleeping == registers::asleep(regs.msts),
    {
        regs.is_sleeping()
    }

    /// Puts the controller in sleep mode, and has its task woken when it is. To be completed by
    /// [`Can::sleep_entered`].
    pub fn sleep(&mut self, bus: &mut Bus)
        ensures
            *final(self) == *old(self),
            final(bus)@ == old(bus)@ + sleep_actions(),
    {
        bus.modify(Register::CanInten, 0, INTEN_EDZIEN);
        bus.modify(Register::CanMctrl, MCTRL_SPRST, MCTRL_DZEN);
        proof {
            bits::law_zero_changes_nothing(MCTRL_SPRST);
        }
    }

    /// Tells whether the controller has entered sleep mode, and disables the interrupt that says so
    /// if it has.
    pub fn sleep_entered(&mut self, bus: &mut Bus, regs: &Registers) -> (entered: bool)
        ensures
            *final(self) == *old(self),
            entered == registers::asleep(regs.msts),
            final(bus)@ == old(bus)@ + sleep_entered_actions(regs.msts),
    {
        if self.is_sleeping(regs) {
            bus.modify(Register::CanInten, INTEN_EDZIEN, 0);
            true
        } else {
            false
        }
    }

    /// Enables or disables FIFO scheduling of outgoing frames.
    ///
    /// If it is enabled, frames are sent in the order in which they are written, else in the order
    /// of their priority.
    pub fn set_tx_fifo_scheduling(&mut self, bus: &mut Bus, regs: &Registers, enabled: bool)
        ensures
            *final(self) == *old(self),
            final(bus)@ == old(bus)@.push(registers::scheduling_action(enabled)),
    {
        regs.set_tx_fifo_scheduling(bus, enabled);
    }

    /// Tells whether FIFO scheduling of outgoing frames is enabled.
    pub fn tx_fifo_scheduling_enabled(&self, regs: &Registers) -> (enabled: bool)
        ensures
            enabled == regs.fifo_scheduling(),
    {
        regs.tx_fifo_scheduling_enabled()
    }

    /// Queues a frame, or waits for room: without result the task waits until a mailbox is
    /// complete.
    pub fn write(&mut self, bus: &mut Bus, regs: &Registers, state: &State, frame: &Frame) -> (
    transmission: Option<Transmission>)
        requires
            state.tx_mode is NonBuffered,
            regs.has_to_wait(*frame) || regs.next_number() < 3,
        ensures
            *final(self) == *old(self),
            transmitted(*regs, *frame, transmission, old(bus)@, final(bus)@),
    {
        self.split().0.write(bus, regs, state, frame)
    }

    /// Attempts to queue a frame.
    ///
    /// With FIFO scheduling any empty mailbox is used. Without it the frame is only accepted if no
    /// frame of the same priority is queued.
    pub fn try_write(&mut self, bus: &mut Bus, regs: &Registers, frame: &Frame) -> (transmission:
        Result<Transmission, TryWriteError>)
        requires
            regs.has_to_wait(*frame) || regs.next_number() < 3,
        ensures
            *final(self) == *old(self),
            transmitted(
                *regs,
                *frame,
                match transmission {
                    Ok(t) => Some(t),
                    Err(_) => None,
                },
                old(bus)@,
                final(bus)@,
            ),
    {
        self.split().0.try_write(bus, regs, frame)
    }

    /// Tells whether a mailbox is empty, for a task that waits for it.
    pub fn flush(&self, regs: &Registers, state: &State, mailbox: Mailbox) -> (flushed: bool)
        requires
            state.tx_mode is NonBuffered,
        ensures
            flushed == registers::mailbox_empty(regs.tsts, mailbox),
    {
        CanTx { _phantom: PhantomData }.flush(regs, state, mailbox)
    }

    /// Tells whether some mailbox is empty, for a task that waits for it.
    pub fn flush_any(&self, regs: &Registers, state: &State) -> (flushed: bool)
        requires
            state.tx_mode is NonBuffered,
        ensures
            flushed == !regs.all_pending(),
    {
        CanTx { _phantom: PhantomData }.flush_any(regs, state)
    }

    /// Tells whether all mailboxes are empty, for a task that waits for it.
    pub fn flush_all(&self, regs: &Registers, state: &State) -> (flushed: bool)
        requires
            state.tx_mode is NonBuffered,
        ensures
            flushed == !regs.some_pending(),
    {
        CanTx { _phantom: PhantomData }.flush_all(regs, state)
    }

    /// Attempts to abort the transmission of the frame in a mailbox; see [`Registers::abort`].
    pub fn abort(&mut self, bus: &mut Bus, regs: &Registers, mailbox: Mailbox) -> (requested: bool)
        ensures
            *final(self) == *old(self),
            registers::aborted(regs.tsts, mailbox, requested, old(bus)@, final(bus)@),
    {
        regs.abort(bus, mailbox)
    }

    /// Tells whether no frame is pending for transmission.
    pub fn is_transmitter_idle(&self, regs: &Registers) -> (idle: bool)
        ensures
            idle == !regs.some_pending(),
    {
        regs.is_idle()
    }

    /// Reads a frame, or waits for one: without result the task waits until there is a frame or an
    /// error.
    pub fn read(
        &mut self,
        bus: &mut Bus,
        regs: &Registers,
        state: &State,
        fifo0: &FifoSample,
        fifo1: &FifoSample,
        ts: u64,
    ) -> (result: Option<Result<Envelope, BusError>>)
        requires
            state.rx_mode is NonBuffered,
        ensures
            *final(self) == *old(self),
            read_result(*regs, *fifo0, *fifo1, ts, attempted(result)),
            final(bus)@ == old(bus)@ + read_actions(*regs, *fifo0, *fifo1),
    {
        state.rx_mode.read(bus, regs, fifo0, fifo1, ts)
    }

    /// Attempts to read a frame.
    pub fn try_read(
        &mut self,
        bus: &mut Bus,
        regs: &Registers,
        state: &State,
        fifo0: &FifoSample,
        fifo1: &FifoSample,
        ts: u64,
    ) -> (result: Result<Envelope, TryReadError>)
        requires
            state.rx_mode is NonBuffered,
        ensures
            *final(self) == *old(self),
            read_result(*regs, *fifo0, *fifo1, ts, result),
            final(bus)@ == old(bus)@ + read_actions(*regs, *fifo0, *fifo1),
    {
        state.rx_mode.try_read(bus, regs, fifo0, fifo1, ts)
    }

    /// Tells from both FIFO registers whether there is a frame to read, for a task that waits for
    /// it.
    pub fn wait_not_empty(&mut self, regs: &Registers, state: &State, rf0: u32, rf1: u32) -> (ready:
        bool)
        requires
            state.rx_mode is NonBuffered,
        ensures
            *final(self) == *old(self),
            ready == registers::frame_available(rf0, rf1),
    {
        state.rx_mode.wait_not_empty(regs, rf0, rf1)
    }

    /// Splits the driver into transmit and receive halves.
    pub fn split(&mut self) -> (halves: (CanTx<'_>, CanRx<'_>))
        ensures
            *final(self) == *old(self),
    {
        (CanTx { _phantom: PhantomData }, CanRx { _phantom: PhantomData })
    }

    /// Makes the driver a buffered one.
    pub fn buffered<'a>(&'a mut self, state: &mut State, txb: TxBuf, rxb: RxBuf) -> (buffered:
        BufferedCan<'a>)
        ensures
            *final(self) == *old(self),
            final(state).tx_mode == TxMode::Buffered(txb),
            final(state).rx_mode == RxMode::Buffered(rxb),
    {
        let (tx, rx) = self.split();
        BufferedCan { tx: tx.buffered(state, txb), rx: rx.buffered(state, rxb) }
    }

    /// Takes the controller out of service: it is reset, and left asleep.
    pub fn release(self, bus: &mut Bus, regs: &Registers)
        ensures
            final(bus)@ == old(bus)@ + seq![
                Action::Write { reg: Register::CanMctrl, value: MCTRL_RESET | MCTRL_SPRST },
            ] + registers::enter_init_actions() + registers::doze_actions(),
    {
        bus.write(Register::CanMctrl, MCTRL_RESET | MCTRL_SPRST);
        regs.enter_init_mode(bus);
        regs.leave_init_mode(bus);
    }
}

/// The accesses that ask the controller to sleep, and to tell when it does.
pub open spec fn sleep_actions() -> Seq<Action> {
    seq![
        registers::inten_modify(0, INTEN_EDZIEN),
        registers::mctrl_modify(0, MCTRL_DZEN),
    ]
}

/// The access that ends the wait for the controller to sleep, if it sleeps.
pub open spec fn sleep_entered_actions(msts: u32) -> Seq<Action> {
    if registers::asleep(msts) {
        seq![registers::inten_modify(INTEN_EDZIEN, 0)]
    } else {
        seq![]
    }
}

/// What an attempt to read came to, told by the result of a wait for a frame.
pub open spec fn attempted(result: Option<Result<Envelope, BusError>>) -> Result<
    Envelope,
    TryReadError,
> {
    match result {
        Some(Ok(envelope)) => Ok(envelope),
        Some(Err(error)) => Err(TryReadError::BusError(error)),
        None => Err(TryReadError::Empty),
    }
}

/// CAN driver, transmit half.
pub struct CanTx<'a> {
    _phantom: PhantomData<&'a ()>,
}

impl<'a> CanTx<'a> {
    /// Queues a frame, or waits for room: without result the task waits until a mailbox is
    /// complete.
    pub fn write(&mut self, bus: &mut Bus, regs: &Registers, state: &State, frame: &Frame) -> (
    transmission: Option<Transmission>)
        requires
            state.tx_mode is NonBuffered,
            regs.has_to_wait(*frame) || regs.next_number() < 3,
        ensures
            transmitted(*regs, *frame, transmission, old(bus)@, final(bus)@),
    {
        match regs.transmit(bus, frame) {
            Ok(transmission) => Some(transmission),
            Err(_) => None,
        }
    }

    /// Attempts to queue a frame.
    ///
    /// With FIFO scheduling any empty mailbox is used. Without it the frame is only accepted if no
    /// frame of the same priority is queued.
    pub fn try_write(&mut self, bus: &mut Bus, regs: &Registers, frame: &Frame) -> (transmission:
        Result<Transmission, TryWriteError>)
        requires
            regs.has_to_wait(*frame) || regs.next_number() < 3,
        ensures
            transmitted(
                *regs,
                *frame,
                match transmission {
                    Ok(t) => Some(t),
                    Err(_) => None,
                },
                old(bus)@,
                final(bus)@,
            ),
    {
        match regs.transmit(bus, frame) {
            Ok(transmission) => Ok(transmission),
            Err(_) => Err(TryWriteError::Full),
        }
    }

    /// Tells whether a mailbox is empty, for a task that waits for it.
    pub fn flush(&self, regs: &Registers, state: &State, mailbox: Mailbox) -> (flushed: bool)
        requires
            state.tx_mode is NonBuffered,
        ensures
            flushed == registers::mailbox_empty(regs.tsts, mailbox),
    {
        regs.is_empty(mailbox)
    }

    /// Tells whether some mailbox is empty, for a task that waits for it.
    pub fn flush_any(&self, regs: &Registers, state: &State) -> (flushed: bool)
        requires
            state.tx_mode is NonBuffered,
        ensures
            flushed == !regs.all_pending(),
    {
        state.tx_mode.buffer_free(regs)
    }

    /// Tells whether all mailboxes are empty, for a task that waits for it.
    pub fn flush_all(&self, regs: &Registers, state: &State) -> (flushed: bool)
        requires
            state.tx_mode is NonBuffered,
        ensures
            flushed == !regs.some_pending(),
    {
        regs.is_idle()
    }

    /// Attempts to abort the transmission of the frame in a mailbox; see [`Registers::abort`].
    pub fn abort(&mut self, bus: &mut Bus, regs: &Registers, mailbox: Mailbox) -> (requested: bool)
        ensures
            registers::aborted(regs.tsts, mailbox, requested, old(bus)@, final(bus)@),
    {
        regs.abort(bus, mailbox)
    }

    /// Tells whether no frame is pending for transmission.
    pub fn is_idle(&self, regs: &Registers) -> (idle: bool)
        ensures
            idle == !regs.some_pending(),
    {
        regs.is_idle()
    }

    /// Makes the half a buffered one.
    pub fn buffered(self, state: &mut State, txb: TxBuf) -> (buffered: BufferedCanTx<'a>)
        ensures
            final(state).tx_mode == TxMode::Buffered(txb),
            final(state).rx_mode == old(state).rx_mode,
    {
        state.tx_mode = TxMode::Buffered(txb);
        BufferedCanTx { _tx: self }
    }
}

/// CAN driver, receive half.
pub struct CanRx<'a> {
    _phantom: PhantomData<&'a ()>,
}

impl<'a> CanRx<'a> {
    /// Reads a frame, or waits for one: without result the task waits until there is a frame or an
    /// error.
    pub fn read(
        &mut self,
        bus: &mut Bus,
        regs: &Registers,
        state: &State,
        fifo0: &FifoSample,
        fifo1: &FifoSample,
        ts: u64,
    ) -> (result: Option<Result<Envelope, BusError>>)
        requires
            state.rx_mode is NonBuffered,
        ensures
            read_result(*regs, *fifo0, *fifo1, ts, attempted(result)),
            final(bus)@ == old(bus)@ + read_actions(*regs, *fifo0, *fifo1),
    {
        state.rx_mode.read(bus, regs, fifo0, fifo1, ts)
    }

    /// Attempts to read a frame.
    pub fn try_read(
        &mut self,
        bus: &mut Bus,
        regs: &Registers,
        state: &State,
        fifo0: &FifoSample,
        fifo1: &FifoSample,
        ts: u64,
    ) -> (result: Result<Envelope, TryReadError>)
        requires
            state.rx_mode is NonBuffered,
        ensures
            read_result(*regs, *fifo0, *fifo1, ts, result),
            final(bus)@ == old(bus)@ + read_actions(*regs, *fifo0, *fifo1),
    {
        state.rx_mode.try_read(bus, regs, fifo0, fifo1, ts)
    }

    /// Tells from both FIFO registers whether there is a frame to read, for a task that waits for
    /// it.
    pub fn wait_not_empty(&mut self, regs: &Registers, state: &State, rf0: u32, rf1: u32) -> (ready:
        bool)
        requires
            state.rx_mode is NonBuffered,
        ensures
            ready == registers::frame_available(rf0, rf1),
    {
        state.rx_mode.wait_not_empty(regs, rf0, rf1)
    }

    /// Makes the half a buffered one.
    pub fn buffered(self, state: &mut State, rxb: RxBuf) -> (buffered: BufferedCanRx<'a>)
        ensures
            final(state).rx_mode == RxMode::Buffered(rxb),
            final(state).tx_mode == old(state).tx_mode,
    {
        state.rx_mode = RxMode::Buffered(rxb);
        BufferedCanRx { _rx: self }
    }
}

/// What a write to the transmit buffer comes to: the frame is appended and the mailboxes are filled,
/// if there is room.
pub open spec fn buffer_written(
    before: TxBuf,
    after: TxBuf,
    frame: Frame,
    written: bool,
    posted: Seq<Action>,
    now: Seq<Action>,
) -> bool {
    &&& written == (before@.len() < buffer::tx_capacity(before))
    &&& buffer::tx_capacity(after) == buffer::tx_capacity(before)
    &&& written ==> after@ == before@.push(frame) && now == posted.push(
        Action::Pend { interrupt: Interrupt::Can1Tx },
    )
    &&& !written ==> after@ == before@ && now == posted
}

/// Buffered CAN driver, transmit half.
pub struct BufferedCanTx<'a> {
    _tx: CanTx<'a>,
}

impl<'a> BufferedCanTx<'a> {
    /// Appends a frame to the buffer and has the mailboxes filled from it; tells whether there was
    /// room. Without room the task waits until a frame left the buffer.
    pub fn write(&mut self, bus: &mut Bus, state: &mut State, frame: &Frame) -> (written: bool)
        requires
            old(state).tx_mode is Buffered,
        ensures
            final(state).rx_mode == old(state).rx_mode,
            final(state).tx_mode is Buffered,
            buffer_written(
                old(state).tx_mode->Buffered_0,
                final(state).tx_mode->Buffered_0,
                *frame,
                written,
                old(bus)@,
                final(bus)@,
            ),
    {
        match &mut state.tx_mode {
            TxMode::Buffered(buf) => {
                if buf.try_send(frame) {
                    bus.post(Action::Pend { interrupt: Interrupt::Can1Tx });
                    true
                } else {
                    false
                }
            },
            TxMode::NonBuffered => false,
        }
    }
}

/// Buffered CAN driver, receive half.
pub struct BufferedCanRx<'a> {
    _rx: CanRx<'a>,
}

/// What is taken out of the receive buffer: the oldest result, if there is one.
pub open spec fn buffer_read(
    before: RxBuf,
    after: RxBuf,
    taken: Option<Result<Envelope, BusError>>,
) -> bool {
    &&& buffer::rx_capacity(after) == buffer::rx_capacity(before)
    &&& taken is Some <==> before@.len() > 0
    &&& taken is Some ==> taken->Some_0 == before@[0] && after@ == before@.skip(1)
    &&& taken is None ==> after@ == before@
}

/// What an attempt to read comes to with a buffer: the oldest result in the buffer, else an error
/// that was not handed on yet, else nothing.
pub open spec fn buffer_attempted(
    before: RxBuf,
    after: RxBuf,
    regs: Registers,
    result: Result<Envelope, TryReadError>,
    posted: Seq<Action>,
    now: Seq<Action>,
) -> bool {
    if before@.len() > 0 {
        &&& buffer_read(before, after, Some(before@[0]))
        &&& now == posted
        &&& result == match before@[0] {
            Ok(envelope) => Ok::<Envelope, TryReadError>(envelope),
            Err(error) => Err(TryReadError::BusError(error)),
        }
    } else {
        &&& buffer_read(before, after, None)
        &&& now == posted + acknowledge_actions(regs)
        &&& result is Err && result->Err_0 == match current_error(regs) {
            Some(error) => TryReadError::BusError(error),
            None => TryReadError::Empty,
        }
    }
}

impl<'a> BufferedCanRx<'a> {
    /// Takes the oldest result out of the buffer, or waits for one.
    pub fn read(&mut self, state: &mut State) -> (result: Option<Result<Envelope, BusError>>)
        requires
            old(state).rx_mode is Buffered,
        ensures
            final(state).tx_mode == old(state).tx_mode,
            final(state).rx_mode is Buffered,
            buffer_read(
                old(state).rx_mode->Buffered_0,
                final(state).rx_mode->Buffered_0,
                result,
            ),
    {
        match &mut state.rx_mode {
            RxMode::Buffered(buf) => buf.try_receive(),
            RxMode::NonBuffered => None,
        }
    }

    /// Attempts to take the oldest result out of the buffer. If there is none, an error that was
    /// not handed on yet is.
    pub fn try_read(&mut self, bus: &mut Bus, regs: &Registers, state: &mut State) -> (result:
        Result<Envelope, TryReadError>)
        requires
            old(state).rx_mode is Buffered,
        ensures
            final(state).tx_mode == old(state).tx_mode,
            final(state).rx_mode is Buffered,
            buffer_attempted(
                old(state).rx_mode->Buffered_0,
                final(state).rx_mode->Buffered_0,
                *regs,
                result,
                old(bus)@,
                final(bus)@,
            ),
    {
        match self.read(state) {
            Some(Ok(envelope)) => Ok(envelope),
            Some(Err(error)) => Err(TryReadError::BusError(error)),
            None => {
                if let Some(error) = regs.curr_error(bus) {
                    Err(TryReadError::BusError(error))
                } else {
                    Err(TryReadError::Empty)
                }
            },
        }
    }

    /// Tells whether the buffer holds a result, for a task that waits for it.
    pub fn wait_not_empty(&mut self, state: &State) -> (ready: bool)
        requires
            state.rx_mode is Buffered,
        ensures
            ready == (state.rx_mode->Buffered_0@.len() > 0),
    {
        match &state.rx_mode {
            RxMode::Buffered(buf) => buf.is_ready(),
            RxMode::NonBuffered => false,
        }
    }
}

/// Buffered CAN driver.
pub struct BufferedCan<'a> {
    tx: BufferedCanTx<'a>,
    rx: BufferedCanRx<'a>,
}

impl<'a> BufferedCan<'a> {
    /// Appends a frame to the buffer and has the mailboxes filled from it; tells whether there was
    /// room.
    pub fn write(&mut self, bus: &mut Bus, state: &mut State, frame: &Frame) -> (written: bool)
        requires
            old(state).tx_mode is Buffered,
        ensures
            final(state).rx_mode == old(state).rx_mode,
            final(state).tx_mode is Buffered,
            buffer_written(
                old(state).tx_mode->Buffered_0,
                final(state).tx_mode->Buffered_0,
                *frame,
                written,
                old(bus)@,
                final(bus)@,
            ),
    {
        self.tx.write(bus, state, frame)
    }

    /// Takes the oldest result out of the buffer, or waits for one.
    pub fn read(&mut self, state: &mut State) -> (result: Option<Result<Envelope, BusError>>)
        requires
            old(state).rx_mode is Buffered,
        ensures
            final(state).tx_mode == old(state).tx_mode,
            final(state).rx_mode is Buffered,
            buffer_read(
                old(state).rx_mode->Buffered_0,
                final(state).rx_mode->Buffered_0,
                result,
            ),
    {
        self.rx.read(state)
    }

    /// Attempts to take the oldest result out of the buffer. If there is none, an error that was
    /// not handed on yet is.
    pub fn try_read(&mut self, bus: &mut Bus, regs: &Registers, state: &mut State) -> (result:
        Result<Envelope, TryReadError>)
        requires
            old(state).rx_mode is Buffered,
        ensures
            final(state).tx_mode == old(state).tx_mode,
            final(state).rx_mode is Buffered,
            buffer_attempted(
                old(state).rx_mode->Buffered_0,
                final(state).rx_mode->Buffered_0,
                *regs,
                result,
                old(bus)@,
                final(bus)@,
            ),
    {
        self.rx.try_read(bus, regs, state)
    }

    /// Tells whether the buffer holds a result, for a task that waits for it.
    pub fn wait_not_empty(&mut self, state: &State) -> (ready: bool)
        requires
            state.rx_mode is Buffered,
        ensures
            ready == (state.rx_mode->Buffered_0@.len() > 0),
    {
        self.rx.wait_not_empty(state)
    }
}

} // verus!
