//! The work that a driver leaves to the hardware.
//!
//! A driver of this library decides; it does not touch the chip. What it decides to do is posted
//! to a [`Bus`] as a list of [`Action`]s, which the owner of the peripherals performs one after the
//! other. What a decision depends on, the sampled contents of registers, is handed to the driver as
//! plain values.
use crate::bits;
use crate::can::frame::{Fifo, Mailbox};
use crate::dma::DmaChannel;
use crate::serial::Usart;
use vstd::prelude::*;

verus! {

/// A peripheral register that a driver accesses.
#[derive(Clone, Copy, Debug, PartialEq, Eq, Structural)]
pub enum Register {
    /// Main control register of CAN1.
    CanMctrl,
    /// Main status register of CAN1.
    CanMsts,
    /// Transmit status register of CAN1.
    CanTsts,
    /// Receive FIFO register of CAN1.
    CanRf(Fifo),
    /// Interrupt enable register of CAN1.
    CanInten,
    /// Bit timing register of CAN1.
    CanBtmg,
    /// Identifier register of a transmit mailbox of CAN1.
    CanTmi(Mailbox),
    /// Length register of a transmit mailbox of CAN1.
    CanTmc(Mailbox),
    /// Low data register of a transmit mailbox of CAN1.
    CanTmdtl(Mailbox),
    /// High data register of a transmit mailbox of CAN1.
    CanTmdth(Mailbox),
    /// Time register of the real time clock.
    ErtcTime,
    /// Date register of the real time clock.
    ErtcDate,
    /// Control register of the real time clock.
    ErtcCtrl,
    /// Status register of the real time clock.
    ErtcSts,
    /// Divider register of the real time clock.
    ErtcDiv,
    /// Wakeup timer register of the real time clock.
    ErtcWat,
    /// Alarm A register of the real time clock.
    ErtcAla,
    /// Alarm B register of the real time clock.
    ErtcAlb,
    /// Write protection register of the real time clock.
    ErtcWp,
    /// Subsecond register of the real time clock.
    ErtcSbs,
    /// Time stamp time register of the real time clock.
    ErtcTstm,
    /// Time stamp date register of the real time clock.
    ErtcTsdt,
    /// Time stamp subsecond register of the real time clock.
    ErtcTssbs,
    /// Battery powered domain control register of the clock manager.
    CrmBpdc,
    /// Control and status register of the clock manager.
    CrmCtrlsts,
    /// Control register of the power controller.
    PwcCtrl,
    /// Interrupt enable register of the external interrupt controller.
    ExintInten,
    /// Rising edge register of the external interrupt controller.
    ExintPolcfg1,
    /// Falling edge register of the external interrupt controller.
    ExintPolcfg2,
    /// Interrupt status register of the external interrupt controller.
    ExintIntsts,
    /// External interrupt source selection of lines 0 to 3.
    IomuxExintc1,
    /// External interrupt source selection of lines 4 to 7.
    IomuxExintc2,
    /// External interrupt source selection of lines 8 to 11.
    IomuxExintc3,
    /// External interrupt source selection of lines 12 to 15.
    IomuxExintc4,
    /// First control register of SPI1.
    SpiCtrl1,
    /// Second control register of SPI1.
    SpiCtrl2,
    /// Status register of SPI1.
    SpiSts,
    /// Data register of SPI1.
    SpiDt,
    /// Status register of the USART at hand.
    UsartSts,
    /// Data register of the USART at hand.
    UsartDt,
    /// First control register of the USART at hand.
    UsartCtrl1,
    /// Second control register of the USART at hand.
    UsartCtrl2,
    /// Third control register of the USART at hand.
    UsartCtrl3,
    /// Flag clear register of DMA1.
    DmaClr,
    /// Control register of a channel of DMA1.
    DmaCtrl(DmaChannel),
    /// Transfer counter of a channel of DMA1.
    DmaDtcnt(DmaChannel),
    /// Peripheral address of a channel of DMA1.
    DmaPaddr(DmaChannel),
    /// Memory address of a channel of DMA1.
    DmaMaddr(DmaChannel),
}

/// A peripheral whose clock is switched by the clock manager.
#[derive(Clone, Copy, Debug, PartialEq, Eq, Structural)]
pub enum Peripheral {
    /// The CAN controller.
    Can1,
    /// The power controller.
    Pwc,
    /// The SPI controller.
    Spi1,
}

/// An interrupt line of the core.
#[derive(Clone, Copy, Debug, PartialEq, Eq, Structural)]
pub enum Interrupt {
    /// CAN1 transmission.
    Can1Tx,
    /// CAN1 receive FIFO 0.
    Can1Rx0,
    /// CAN1 receive FIFO 1.
    Can1Rx1,
    /// CAN1 status and errors.
    Can1Se,
    /// SPI1.
    Spi1,
    /// A USART.
    Usart(Usart),
    /// External interrupt line 0.
    Exint0,
    /// External interrupt line 1.
    Exint1,
    /// External interrupt line 2.
    Exint2,
    /// External interrupt line 3.
    Exint3,
    /// External interrupt line 4.
    Exint4,
    /// External interrupt lines 5 to 9.
    Exint9To5,
    /// External interrupt lines 10 to 15.
    Exint15To10,
    /// A channel of DMA1.
    Dma1(DmaChannel),
    /// Channel 1 of DMA2.
    Dma2Channel1,
    /// Channel 2 of DMA2.
    Dma2Channel2,
    /// Channel 3 of DMA2.
    Dma2Channel3,
    /// Channels 4 and 5 of DMA2.
    Dma2Channel4To5,
}

/// A task that waits for an event.
#[derive(Clone, Copy, Debug, PartialEq, Eq, Structural)]
pub enum Waiter {
    /// The task that waits for a free CAN mailbox.
    CanTx,
    /// The task that waits for a CAN frame.
    CanRx,
    /// The task that waits for a CAN error or for the doze mode.
    CanErr,
    /// The task that waits for SPI1.
    Spi1,
    /// The task that waits for data from the USART at hand.
    UsartRx,
    /// The task that waits for room in the USART at hand.
    UsartTx,
    /// The task that waits for an edge on an external interrupt line.
    Exint(u32),
    /// The task that waits for a channel of DMA1.
    Dma1(DmaChannel),
}

/// One step for the hardware to perform.
#[derive(Clone, Copy, Debug, PartialEq, Eq, Structural)]
pub enum Action {
    /// Store `value` in `reg`.
    Write { reg: Register, value: u32 },
    /// Read `reg`, clear the bits in `clear`, set the bits in `set` and store the result.
    Modify { reg: Register, clear: u32, set: u32 },
    /// Set the bits in `set` in `reg`, but only if no bit of `test` is set there.
    SetIfClear { reg: Register, test: u32, set: u32 },
    /// Read `reg` until the bits in `mask` are as in `value`.
    Wait { reg: Register, mask: u32, value: u32 },
    /// Read the control register of a DMA channel until its transfer no longer runs, as
    /// [`Channel::is_running`](crate::dma::Channel::is_running) tells. Completions are counted
    /// meanwhile.
    WaitStopped { channel: DmaChannel },
    /// Read `reg` and keep what it holds for the driver.
    Sample { reg: Register },
    /// Read `reg` as long as a bit of `mask` is set in `status`, and drop what it holds.
    Drain { status: Register, mask: u32, reg: Register },
    /// Switch the clock of a peripheral on.
    Enable { peripheral: Peripheral },
    /// Switch the clock of a peripheral off.
    Disable { peripheral: Peripheral },
    /// Reset a peripheral.
    Reset { peripheral: Peripheral },
    /// Make an interrupt pending.
    Pend { interrupt: Interrupt },
    /// Make an interrupt no longer pending.
    Unpend { interrupt: Interrupt },
    /// Let an interrupt through to the core.
    Unmask { interrupt: Interrupt },
    /// Give an interrupt the priority that was asked for.
    Prioritise { interrupt: Interrupt, priority: u8 },
    /// Wake a task.
    Wake { waiter: Waiter },
}

/// What `reg` holds after `action`, if it held `word` before and no other party stores to it.
pub open spec fn stored(action: Action, reg: Register, word: u32) -> u32 {
    match action {
        Action::Write { reg: r, value } => if r == reg {
            value
        } else {
            word
        },
        Action::Modify { reg: r, clear, set } => if r == reg {
            bits::modified(word, clear, set)
        } else {
            word
        },
        Action::SetIfClear { reg: r, test, set } => if r == reg && word & test == 0 {
            word | set
        } else {
            word
        },
        _ => word,
    }
}

/// What `reg` holds after all of `actions`, in order, if it held `word` before.
pub open spec fn replayed(actions: Seq<Action>, reg: Register, word: u32) -> u32
    decreases actions.len(),
{
    if actions.len() == 0 {
        word
    } else {
        stored(actions.last(), reg, replayed(actions.drop_last(), reg, word))
    }
}

/// Replaying two lists one after the other is replaying their concatenation.
pub proof fn law_replay_concatenates(first: Seq<Action>, second: Seq<Action>, reg: Register, word: u32)
    ensures
        replayed(first + second, reg, word) == replayed(second, reg, replayed(first, reg, word)),
    decreases second.len(),
{
    if second.len() == 0 {
        assert(first + second == first);
    } else {
        assert((first + second).drop_last() == first + second.drop_last());
        law_replay_concatenates(first, second.drop_last(), reg, word);
    }
}

/// Whether no action of the list stores to `reg`.
pub open spec fn leaves_alone(actions: Seq<Action>, reg: Register) -> bool {
    forall|i: int|
        0 <= i < actions.len() ==> !((#[trigger] actions[i] matches Action::Write { reg: r, .. } && r
            == reg) || (actions[i] matches Action::Modify { reg: r, .. } && r == reg) || (
        actions[i] matches Action::SetIfClear { reg: r, .. } && r == reg))
}

/// A list that does not store to a register leaves what it holds unchanged.
pub proof fn law_replay_leaves_alone(actions: Seq<Action>, reg: Register, word: u32)
    requires
        leaves_alone(actions, reg),
    ensures
        replayed(actions, reg, word) == word,
    decreases actions.len(),
{
    if actions.len() > 0 {
        let rest = actions.drop_last();
        assert forall|i: int| 0 <= i < rest.len() implies rest[i] == #[trigger] actions[i] by {}
        law_replay_leaves_alone(rest, reg, word);
        assert(actions[actions.len() - 1] == actions.last());
    }
}

/// The list of actions that a driver has posted and the hardware has yet to perform.
pub struct Bus {
    posted: Vec<Action>,
}

impl View for Bus {
    type V = Seq<Action>;

    closed spec fn view(&self) -> Seq<Action> {
        self.posted@
    }
}

impl Bus {
    /// A bus on which nothing was posted.
    pub fn new() -> (bus: Self)
        ensures
            bus@ == Seq::<Action>::empty(),
    {
        Bus { posted: Vec::new() }
    }

    /// Takes the posted actions off the bus, to perform them.
    pub fn take(&mut self) -> (actions: Vec<Action>)
        ensures
            actions@ == old(self)@,
            final(self)@ == Seq::<Action>::empty(),
    {
        let mut actions: Vec<Action> = Vec::new();
        std::mem::swap(&mut self.posted, &mut actions);
        actions
    }

    /// Posts one action.
    pub fn post(&mut self, action: Action)
        ensures
            final(self)@ == old(self)@.push(action),
    {
        self.posted.push(action);
    }

    /// Posts a store of `value` to `reg`.
    pub fn write(&mut self, reg: Register, value: u32)
        ensures
            final(self)@ == old(self)@.push(Action::Write { reg, value }),
    {
        self.posted.push(Action::Write { reg, value });
    }

    /// Posts a modification of `reg`.
    pub fn modify(&mut self, reg: Register, clear: u32, set: u32)
        ensures
            final(self)@ == old(self)@.push(Action::Modify { reg, clear, set }),
    {
        self.posted.push(Action::Modify { reg, clear, set });
    }

    /// Posts a wait for bits of `reg`.
    pub fn wait(&mut self, reg: Register, mask: u32, value: u32)
        ensures
            final(self)@ == old(self)@.push(Action::Wait { reg, mask, value }),
    {
        self.posted.push(Action::Wait { reg, mask, value });
    }

    /// Posts a sample of `reg`.
    pub fn sample(&mut self, reg: Register)
        ensures
            final(self)@ == old(self)@.push(Action::Sample { reg }),
    {
        self.posted.push(Action::Sample { reg });
    }

    /// Posts the wake-up of a task.
    pub fn wake(&mut self, waiter: Waiter)
        ensures
            final(self)@ == old(self)@.push(Action::Wake { waiter }),
    {
        self.posted.push(Action::Wake { waiter });
    }

    /// Posts that an interrupt is no longer pending and is let through.
    pub fn unpend_and_unmask(&mut self, interrupt: Interrupt)
        ensures
            final(self)@ == old(self)@ + seq![
                Action::Unpend { interrupt },
                Action::Unmask { interrupt },
            ],
    {
        self.posted.push(Action::Unpend { interrupt });
        self.posted.push(Action::Unmask { interrupt });
    }
}

} // verus!
