//! Asynchronous serial communication with USART peripherals.
//!
//! By default words have 8 bits. A controller that is configured for words of 9 bits is used through
//! [`Serial::with_u16_data`].
use crate::bits;
use crate::bus::{Action, Bus, Interrupt, Register, Waiter};
use core::marker::PhantomData;
use vstd::prelude::*;

pub mod laws;

verus! {

/// Status: parity error.
pub const STS_PERR: u32 = 0x0001;

/// Status: framing error.
pub const STS_FERR: u32 = 0x0002;

/// Status: noise.
pub const STS_NERR: u32 = 0x0004;

/// Status: overrun.
pub const STS_ROERR: u32 = 0x0008;

/// Status: the line is idle.
pub const STS_IDLEF: u32 = 0x0010;

/// Status: a word was received.
pub const STS_RDBF: u32 = 0x0020;

/// Status: the transmission is complete.
pub const STS_TDC: u32 = 0x0040;

/// Status: a word can be sent.
pub const STS_TDBE: u32 = 0x0080;

/// First control: interrupt when the line is idle.
pub const CTRL1_IDLEIEN: u32 = 0x0010;

/// First control: interrupt when a word was received.
pub const CTRL1_RDBFIEN: u32 = 0x0020;

/// First control: interrupt when the transmission is complete.
pub const CTRL1_TDCIEN: u32 = 0x0040;

/// First control: interrupt when a word can be sent.
pub const CTRL1_TDBEIEN: u32 = 0x0080;

/// First control: interrupt on a parity error.
pub const CTRL1_PERRIEN: u32 = 0x0100;

/// Third control: interrupt on another error.
pub const CTRL3_ERRIEN: u32 = 0x0001;

/// Third control: DMA requests for words that were received.
pub const CTRL3_DMAREN: u32 = 0x0040;

/// A USART peripheral.
#[derive(Clone, Copy, Debug, PartialEq, Eq, Structural)]
pub enum Usart {
    /// USART1.
    Usart1,
    /// USART2.
    Usart2,
    /// USART3.
    Usart3,
    /// UART4.
    Uart4,
    /// UART5.
    Uart5,
}

impl Usart {
    /// Lets the interrupt of the peripheral through to the core.
    pub fn setup_interrupts(self, bus: &mut Bus)
        ensures
            final(bus)@ == old(bus)@ + seq![
                Action::Unpend { interrupt: Interrupt::Usart(self) },
                Action::Unmask { interrupt: Interrupt::Usart(self) },
            ],
    {
        bus.unpend_and_unmask(Interrupt::Usart(self));
    }

    /// Sets the number of stop bits.
    pub fn set_stopbits(self, bus: &mut Bus, stopbits: StopBits)
        ensures
            final(bus)@ == old(bus)@.push(
                Action::Write {
                    reg: Register::UsartCtrl2,
                    value: bits::placed(stopbits.code(), 3, 12),
                },
            ),
    {
        let code: u32 = match stopbits {
            StopBits::STOP1 => 0,
            StopBits::STOP0P5 => 1,
            StopBits::STOP2 => 2,
            StopBits::STOP1P5 => 3,
        };
        bus.write(Register::UsartCtrl2, bits::place(code, 3, 12));
    }
}

/// Number of stop bits.
#[derive(Clone, Copy, Debug, PartialEq, Eq, Structural)]
pub enum StopBits {
    /// 1 stop bit.
    STOP1,
    /// 0.5 stop bits.
    STOP0P5,
    /// 2 stop bits.
    STOP2,
    /// 1.5 stop bits.
    STOP1P5,
}

impl StopBits {
    /// The code of the number in the second control register.
    pub open spec fn code(self) -> u32 {
        match self {
            StopBits::STOP1 => 0,
            StopBits::STOP0P5 => 1,
            StopBits::STOP2 => 2,
            StopBits::STOP1P5 => 3,
        }
    }
}

/// Interrupt event.
#[derive(Clone, Copy, Debug, PartialEq, Eq, Structural)]
pub enum Event {
    /// New data has been received.
    Rxne,
    /// New data can be sent.
    Txe,
    /// The line is idle.
    Idle,
}

impl Event {
    /// The bit in the first control register that lets the event interrupt.
    pub open spec fn enable(self) -> u32 {
        match self {
            Event::Rxne => CTRL1_RDBFIEN,
            Event::Txe => CTRL1_TDBEIEN,
            Event::Idle => CTRL1_IDLEIEN,
        }
    }
}

/// The access that lets an event interrupt.
pub open spec fn listen_action(event: Event) -> Action {
    Action::Modify { reg: Register::UsartCtrl1, clear: 0, set: event.enable() }
}

/// The access that lets an event interrupt no longer.
pub open spec fn unlisten_action(event: Event) -> Action {
    Action::Modify { reg: Register::UsartCtrl1, clear: event.enable(), set: 0 }
}

fn listen_for(bus: &mut Bus, event: Event)
    ensures
        final(bus)@ == old(bus)@.push(listen_action(event)),
{
    match event {
        Event::Rxne => bus.modify(Register::UsartCtrl1, 0, CTRL1_RDBFIEN),
        Event::Txe => bus.modify(Register::UsartCtrl1, 0, CTRL1_TDBEIEN),
        Event::Idle => bus.modify(Register::UsartCtrl1, 0, CTRL1_IDLEIEN),
    }
}

fn unlisten_for(bus: &mut Bus, event: Event)
    ensures
        final(bus)@ == old(bus)@.push(unlisten_action(event)),
{
    match event {
        Event::Rxne => bus.modify(Register::UsartCtrl1, CTRL1_RDBFIEN, 0),
        Event::Txe => bus.modify(Register::UsartCtrl1, CTRL1_TDBEIEN, 0),
        Event::Idle => bus.modify(Register::UsartCtrl1, CTRL1_IDLEIEN, 0),
    }
}

/// Whether an error interrupts.
pub open spec fn has_errors(sts: u32, ctrl1: u32, ctrl3: u32) -> bool {
    (bits::any_set(sts, STS_PERR) && bits::any_set(ctrl1, CTRL1_PERRIEN)) || ((bits::any_set(
        sts,
        STS_FERR,
    ) || bits::any_set(sts, STS_NERR) || bits::any_set(sts, STS_ROERR)) && bits::any_set(
        ctrl3,
        CTRL3_ERRIEN,
    ))
}

/// The accesses that disable what was waited for, if it was waited for and came.
pub open spec fn disable_if(sts: u32, ctrl1: u32, flag: u32, enable: u32) -> Seq<Action> {
    if bits::any_set(ctrl1, enable) && bits::any_set(sts, flag) {
        seq![Action::Modify { reg: Register::UsartCtrl1, clear: enable, set: 0 }]
    } else {
        seq![]
    }
}

/// The accesses that stop the reception, if an error interrupts.
pub open spec fn error_actions(sts: u32, ctrl1: u32, ctrl3: u32) -> Seq<Action> {
    if has_errors(sts, ctrl1, ctrl3) {
        seq![
            Action::Modify {
                reg: Register::UsartCtrl1,
                clear: CTRL1_RDBFIEN | CTRL1_PERRIEN | CTRL1_IDLEIEN,
                set: 0,
            },
            Action::Modify {
                reg: Register::UsartCtrl3,
                clear: CTRL3_ERRIEN | CTRL3_DMAREN,
                set: 0,
            },
        ]
    } else {
        seq![]
    }
}

/// The accesses of the interrupt.
pub open spec fn interrupt_actions(sts: u32, ctrl1: u32, ctrl3: u32) -> Seq<Action> {
    error_actions(sts, ctrl1, ctrl3) + disable_if(sts, ctrl1, STS_IDLEF, CTRL1_IDLEIEN)
        + disable_if(sts, ctrl1, STS_TDC, CTRL1_TDCIEN) + disable_if(
        sts,
        ctrl1,
        STS_TDBE,
        CTRL1_TDBEIEN,
    ) + disable_if(sts, ctrl1, STS_RDBF, CTRL1_RDBFIEN) + seq![
        Action::Wake { waiter: Waiter::UsartRx },
        Action::Wake { waiter: Waiter::UsartTx },
    ]
}

/// Handles the interrupt, given status and control registers. On an error the reception is stopped.
/// What was waited for and came is not waited for any more, and both tasks are woken.
pub fn on_interrupt(bus: &mut Bus, sts: u32, ctrl1: u32, ctrl3: u32)
    ensures
        final(bus)@ == old(bus)@ + interrupt_actions(sts, ctrl1, ctrl3),
{
    let errors = (bits::has(sts, STS_PERR) && bits::has(ctrl1, CTRL1_PERRIEN)) || ((bits::has(
        sts,
        STS_FERR,
    ) || bits::has(sts, STS_NERR) || bits::has(sts, STS_ROERR)) && bits::has(ctrl3, CTRL3_ERRIEN));
    if errors {
        bus.modify(Register::UsartCtrl1, CTRL1_RDBFIEN | CTRL1_PERRIEN | CTRL1_IDLEIEN, 0);
        bus.modify(Register::UsartCtrl3, CTRL3_ERRIEN | CTRL3_DMAREN, 0);
    }
    if bits::has(ctrl1, CTRL1_IDLEIEN) && bits::has(sts, STS_IDLEF) {
        // No more data will come.
        bus.modify(Register::UsartCtrl1, CTRL1_IDLEIEN, 0);
    }
    if bits::has(ctrl1, CTRL1_TDCIEN) && bits::has(sts, STS_TDC) {
        bus.modify(Register::UsartCtrl1, CTRL1_TDCIEN, 0);
    }
    if bits::has(ctrl1, CTRL1_TDBEIEN) && bits::has(sts, STS_TDBE) {
        bus.modify(Register::UsartCtrl1, CTRL1_TDBEIEN, 0);
    }
    if bits::has(ctrl1, CTRL1_RDBFIEN) && bits::has(sts, STS_RDBF) {
        bus.modify(Register::UsartCtrl1, CTRL1_RDBFIEN, 0);
    }
    bus.wake(Waiter::UsartRx);
    bus.wake(Waiter::UsartTx);
}

/// The accesses that clear the flag of the idle line.
pub open spec fn clear_idle_actions() -> Seq<Action> {
    seq![
        Action::Sample { reg: Register::UsartSts },
        Action::Sample { reg: Register::UsartDt },
    ]
}

/// Interrupt handling of a receiver.
pub trait RxISR {
    /// Tells from the status register whether the line is idle.
    fn is_idle(&self, sts: u32) -> (idle: bool)
        ensures
            idle == bits::any_set(sts, STS_IDLEF),
    ;

    /// Tells from the status register whether there is a word to read.
    fn is_rx_not_empty(&self, sts: u32) -> (filled: bool)
        ensures
            filled == bits::any_set(sts, STS_RDBF),
    ;

    /// Clears the flag of the idle line: the controller does so when its status register is read
    /// and its data register after it.
    fn clear_idle_interrupt(&self, bus: &mut Bus)
        ensures
            final(bus)@ == old(bus)@ + clear_idle_actions(),
    ;
}

/// Interrupt handling of a transmitter.
pub trait TxISR {
    /// Tells from the status register whether a word can be accepted.
    fn is_tx_empty(&self, sts: u32) -> (empty: bool)
        ensures
            empty == bits::any_set(sts, STS_TDBE),
    ;
}

/// Interrupt events of a receiver.
pub trait RxListen {
    /// Starts to listen for received words.
    fn listen(&mut self, bus: &mut Bus)
        ensures
            final(bus)@ == old(bus)@.push(listen_action(Event::Rxne)),
    ;

    /// Stops to listen for received words.
    fn unlisten(&mut self, bus: &mut Bus)
        ensures
            final(bus)@ == old(bus)@.push(unlisten_action(Event::Rxne)),
    ;

    /// Starts to listen for an idle line.
    fn listen_idle(&mut self, bus: &mut Bus)
        ensures
            final(bus)@ == old(bus)@.push(listen_action(Event::Idle)),
    ;

    /// Stops to listen for an idle line.
    fn unlisten_idle(&mut self, bus: &mut Bus)
        ensures
            final(bus)@ == old(bus)@.push(unlisten_action(Event::Idle)),
    ;
}

/// Interrupt events of a transmitter.
pub trait TxListen {
    /// Starts to listen for room for a word.
    fn listen(&mut self, bus: &mut Bus)
        ensures
            final(bus)@ == old(bus)@.push(listen_action(Event::Txe)),
    ;

    /// Stops to listen for room for a word.
    fn unlisten(&mut self, bus: &mut Bus)
        ensures
            final(bus)@ == old(bus)@.push(unlisten_action(Event::Txe)),
    ;
}

/// Interrupt events of both.
pub trait Listen {
    /// Starts to listen for an event.
    fn listen(&mut self, bus: &mut Bus, event: Event)
        ensures
            final(bus)@ == old(bus)@.push(listen_action(event)),
    ;

    /// Stops to listen for an event.
    fn unlisten(&mut self, bus: &mut Bus, event: Event)
        ensures
            final(bus)@ == old(bus)@.push(unlisten_action(event)),
    ;
}

/// Receiver, with its pin.
pub struct Rx<RXPIN, WORD> {
    /// The pin.
    pub pin: RXPIN,
    /// The words.
    pub word: PhantomData<WORD>,
}

/// Transmitter, with its pin and the peripheral.
pub struct Tx<TXPIN, WORD> {
    /// The peripheral.
    pub usart: Usart,
    /// The pin.
    pub pin: TXPIN,
    /// The words.
    pub word: PhantomData<WORD>,
}

/// Transmitter and receiver.
pub struct Serial<TXPIN, RXPIN, WORD> {
    /// The transmitter.
    pub tx: Tx<TXPIN, WORD>,
    /// The receiver.
    pub rx: Rx<RXPIN, WORD>,
}

impl<TXPIN, RXPIN, WORD> Serial<TXPIN, RXPIN, WORD> {
    /// Splits transmitter and receiver.
    pub fn split(self) -> (halves: (Tx<TXPIN, WORD>, Rx<RXPIN, WORD>))
        ensures
            halves.0 == self.tx,
            halves.1 == self.rx,
    {
        (self.tx, self.rx)
    }

    /// Gives peripheral and pins back.
    pub fn release(self) -> (parts: (Usart, (TXPIN, RXPIN)))
        ensures
            parts.0 == self.tx.usart,
            parts.1 == (self.tx.pin, self.rx.pin),
    {
        (self.tx.usart, (self.tx.pin, self.rx.pin))
    }

    /// The transmitter.
    pub fn as_tx(&self) -> (tx: &Tx<TXPIN, WORD>)
        ensures
            *tx == self.tx,
    {
        &self.tx
    }

    /// The receiver.
    pub fn as_rx(&self) -> (rx: &Rx<RXPIN, WORD>)
        ensures
            *rx == self.rx,
    {
        &self.rx
    }

    /// The transmitter, to be changed in place.
    pub fn as_tx_mut(&mut self) -> (tx: &mut Tx<TXPIN, WORD>)
        ensures
            *tx == old(self).tx,
            final(self).tx == *final(tx),
            final(self).rx == old(self).rx,
    {
        &mut self.tx
    }

    /// The receiver, to be changed in place.
    pub fn as_rx_mut(&mut self) -> (rx: &mut Rx<RXPIN, WORD>)
        ensures
            *rx == old(self).rx,
            final(self).rx == *final(rx),
            final(self).tx == old(self).tx,
    {
        &mut self.rx
    }
}

impl<TXPIN, RXPIN> Serial<TXPIN, RXPIN, u8> {
    /// The same for `u16` words, for a word length of 9 bits.
    pub fn with_u16_data(self) -> (serial: Serial<TXPIN, RXPIN, u16>)
        ensures
            serial.tx.usart == self.tx.usart,
            serial.tx.pin == self.tx.pin,
            serial.rx.pin == self.rx.pin,
    {
        Serial { tx: self.tx.with_u16_data(), rx: self.rx.with_u16_data() }
    }
}

impl<TXPIN, RXPIN> Serial<TXPIN, RXPIN, u16> {
    /// The same for `u8` words, for a word length of 8 bits.
    pub fn with_u8_data(self) -> (serial: Serial<TXPIN, RXPIN, u8>)
        ensures
            serial.tx.usart == self.tx.usart,
            serial.tx.pin == self.tx.pin,
            serial.rx.pin == self.rx.pin,
    {
        Serial { tx: self.tx.with_u8_data(), rx: self.rx.with_u8_data() }
    }
}

impl<TXPIN, RXPIN, WORD> Listen for Serial<TXPIN, RXPIN, WORD> {
    fn listen(&mut self, bus: &mut Bus, event: Event) {
        listen_for(bus, event);
    }

    fn unlisten(&mut self, bus: &mut Bus, event: Event) {
        unlisten_for(bus, event);
    }
}

impl<RXPIN, WORD> Rx<RXPIN, WORD> {
    /// The receiver at a pin.
    pub fn new(pin: RXPIN) -> (rx: Self)
        ensures
            rx.pin == pin,
    {
        Rx { pin, word: PhantomData }
    }

    /// Joins receiver and transmitter.
    pub fn join<TXPIN>(self, tx: Tx<TXPIN, WORD>) -> (serial: Serial<TXPIN, RXPIN, WORD>)
        ensures
            serial.tx == tx,
            serial.rx == self,
    {
        Serial { tx, rx: self }
    }
}

impl<RXPIN> Rx<RXPIN, u8> {
    /// The same for `u16` words.
    pub fn with_u16_data(self) -> (rx: Rx<RXPIN, u16>)
        ensures
            rx.pin == self.pin,
    {
        Rx::new(self.pin)
    }

    /// Starts to read into a buffer of `len` bytes. There is nothing to do for an empty one; else
    /// received words interrupt, and [`Rx::read_ready`] completes the operation.
    pub fn read(&mut self, bus: &mut Bus, len: usize) -> (done: Option<usize>)
        ensures
            *final(self) == *old(self),
            read_begun(len, done, old(bus)@, final(bus)@),
    {
        if len == 0 {
            return Some(0);
        }
        listen_for(bus, Event::Rxne);
        None
    }

    /// Puts the byte that was received, if any, in the buffer; without one the task waits.
    pub fn read_ready(&mut self, buf: &mut Vec<u8>, received: Option<u8>) -> (done: Option<usize>)
        requires
            old(buf)@.len() > 0,
        ensures
            *final(self) == *old(self),
            read_done(received, done, old(buf)@, final(buf)@),
    {
        match received {
            Some(byte) => {
                buf.set(0, byte);
                Some(1)
            },
            None => None,
        }
    }
}

impl<RXPIN> Rx<RXPIN, u16> {
    /// The same for `u8` words.
    pub fn with_u8_data(self) -> (rx: Rx<RXPIN, u8>)
        ensures
            rx.pin == self.pin,
    {
        Rx::new(self.pin)
    }
}

impl<RXPIN, WORD> RxISR for Rx<RXPIN, WORD> {
    fn is_idle(&self, sts: u32) -> (idle: bool) {
        bits::has(sts, STS_IDLEF)
    }

    fn is_rx_not_empty(&self, sts: u32) -> (filled: bool) {
        bits::has(sts, STS_RDBF)
    }

    fn clear_idle_interrupt(&self, bus: &mut Bus) {
        bus.sample(Register::UsartSts);
        bus.sample(Register::UsartDt);
    }
}

impl<RXPIN, WORD> RxListen for Rx<RXPIN, WORD> {
    fn listen(&mut self, bus: &mut Bus) {
        listen_for(bus, Event::Rxne);
    }

    fn unlisten(&mut self, bus: &mut Bus) {
        unlisten_for(bus, Event::Rxne);
    }

    fn listen_idle(&mut self, bus: &mut Bus) {
        listen_for(bus, Event::Idle);
    }

    fn unlisten_idle(&mut self, bus: &mut Bus) {
        unlisten_for(bus, Event::Idle);
    }
}

/// What the start of a read comes to: without room for a byte it is over, else data interrupts.
pub open spec fn read_begun(
    len: usize,
    done: Option<usize>,
    before: Seq<Action>,
    after: Seq<Action>,
) -> bool {
    &&& len == 0 ==> done == Some(0usize) && after == before
    &&& len > 0 ==> done is None && after == before.push(listen_action(Event::Rxne))
}

/// What the rest of a read comes to: a byte that was received is the first of the buffer.
pub open spec fn read_done(
    received: Option<u8>,
    done: Option<usize>,
    before: Seq<u8>,
    after: Seq<u8>,
) -> bool {
    match received {
        Some(byte) => done == Some(1usize) && after == before.update(0, byte),
        None => done is None && after == before,
    }
}

/// What the start of a write comes to: the first byte is offered and room for it interrupts, if there
/// is one.
pub open spec fn write_begun(
    bytes: Seq<u8>,
    step: WriteStep,
    before: Seq<Action>,
    after: Seq<Action>,
) -> bool {
    &&& bytes.len() == 0 ==> step == WriteStep::Nothing && after == before
    &&& bytes.len() > 0 ==> step == WriteStep::Offer(bytes[0]) && after == before.push(
        listen_action(Event::Txe),
    )
}

/// What is to be done for a write.
#[derive(Clone, Copy, Debug, PartialEq, Eq, Structural)]
pub enum WriteStep {
    /// Nothing: there is nothing to write.
    Nothing,
    /// This byte is to be offered to the transmitter.
    Offer(u8),
}

impl<TXPIN, WORD> Tx<TXPIN, WORD> {
    /// The transmitter of a peripheral at a pin.
    pub fn new(usart: Usart, pin: TXPIN) -> (tx: Self)
        ensures
            tx.usart == usart,
            tx.pin == pin,
    {
        Tx { usart, pin, word: PhantomData }
    }

    /// Joins transmitter and receiver.
    pub fn join<RXPIN>(self, rx: Rx<RXPIN, WORD>) -> (serial: Serial<TXPIN, RXPIN, WORD>)
        ensures
            serial.tx == self,
            serial.rx == rx,
    {
        Serial { tx: self, rx }
    }
}

impl<TXPIN> Tx<TXPIN, u8> {
    /// The same for `u16` words.
    pub fn with_u16_data(self) -> (tx: Tx<TXPIN, u16>)
        ensures
            tx.usart == self.usart,
            tx.pin == self.pin,
    {
        Tx::new(self.usart, self.pin)
    }

    /// Starts to write from a buffer. There is nothing to do for an empty one; else room for a word
    /// interrupts, the first byte is offered, and [`Tx::write_ready`] completes the operation.
    pub fn write(&mut self, bus: &mut Bus, buf: &[u8]) -> (step: WriteStep)
        ensures
            *final(self) == *old(self),
            write_begun(buf@, step, old(bus)@, final(bus)@),
    {
        if buf.len() == 0 {
            return WriteStep::Nothing;
        }
        listen_for(bus, Event::Txe);
        WriteStep::Offer(buf[0])
    }

    /// The number of bytes that were written, given whether the transmitter accepted the one that
    /// was offered; if not the task waits.
    pub fn write_ready(&mut self, accepted: bool) -> (done: Option<usize>)
        ensures
            *final(self) == *old(self),
            done == if accepted {
                Some(1usize)
            } else {
                None
            },
    {
        if accepted {
            Some(1)
        } else {
            None
        }
    }
}

impl<TXPIN> Tx<TXPIN, u16> {
    /// The same for `u8` words.
    pub fn with_u8_data(self) -> (tx: Tx<TXPIN, u8>)
        ensures
            tx.usart == self.usart,
            tx.pin == self.pin,
    {
        Tx::new(self.usart, self.pin)
    }
}

impl<TXPIN, WORD> TxISR for Tx<TXPIN, WORD> {
    fn is_tx_empty(&self, sts: u32) -> (empty: bool) {
        bits::has(sts, STS_TDBE)
    }
}

impl<TXPIN, WORD> TxListen for Tx<TXPIN, WORD> {
    fn listen(&mut self, bus: &mut Bus) {
        listen_for(bus, Event::Txe);
    }

    fn unlisten(&mut self, bus: &mut Bus) {
        unlisten_for(bus, Event::Txe);
    }
}

} // verus!
