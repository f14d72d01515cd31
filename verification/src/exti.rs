//! External interrupts.
use crate::bits;
use crate::bus::{Action, Bus, Interrupt, Register, Waiter};
use vstd::prelude::*;

pub mod laws;

verus! {

/// The lines that belong to pins.
pub const PIN_LINES: u32 = 0x0000_ffff;

/// A line that belongs to pins.
pub struct ExtiChannel<const CHANNEL: u8>;

impl<const CHANNEL: u8> ExtiChannel<CHANNEL> {
    fn new() -> Self {
        ExtiChannel
    }
}

/// The external interrupt controller.
pub struct Exint;

/// A controller that can be split into its lines.
pub trait ExtiExt {
    /// The lines.
    type Parts;

    /// Splits the controller into its lines.
    fn split(self) -> Self::Parts;
}

/// The lines of the external interrupt controller that belong to pins.
pub struct Parts {
    /// Line 0.
    pub ch0: ExtiChannel<0>,
    /// Line 1.
    pub ch1: ExtiChannel<1>,
    /// Line 2.
    pub ch2: ExtiChannel<2>,
    /// Line 3.
    pub ch3: ExtiChannel<3>,
    /// Line 4.
    pub ch4: ExtiChannel<4>,
    /// Line 5.
    pub ch5: ExtiChannel<5>,
    /// Line 6.
    pub ch6: ExtiChannel<6>,
    /// Line 7.
    pub ch7: ExtiChannel<7>,
    /// Line 8.
    pub ch8: ExtiChannel<8>,
    /// Line 9.
    pub ch9: ExtiChannel<9>,
    /// Line 10.
    pub ch10: ExtiChannel<10>,
    /// Line 11.
    pub ch11: ExtiChannel<11>,
    /// Line 12.
    pub ch12: ExtiChannel<12>,
    /// Line 13.
    pub ch13: ExtiChannel<13>,
    /// Line 14.
    pub ch14: ExtiChannel<14>,
    /// Line 15.
    pub ch15: ExtiChannel<15>,
}

impl ExtiExt for Exint {
    type Parts = Parts;

    fn split(self) -> Parts {
        Parts {
            ch0: ExtiChannel::new(),
            ch1: ExtiChannel::new(),
            ch2: ExtiChannel::new(),
            ch3: ExtiChannel::new(),
            ch4: ExtiChannel::new(),
            ch5: ExtiChannel::new(),
            ch6: ExtiChannel::new(),
            ch7: ExtiChannel::new(),
            ch8: ExtiChannel::new(),
            ch9: ExtiChannel::new(),
            ch10: ExtiChannel::new(),
            ch11: ExtiChannel::new(),
            ch12: ExtiChannel::new(),
            ch13: ExtiChannel::new(),
            ch14: ExtiChannel::new(),
            ch15: ExtiChannel::new(),
        }
    }
}

/// The edges of a signal.
#[derive(Clone, Copy, Debug, PartialEq, Eq, Structural)]
pub enum Edge {
    /// From low to high.
    Rising,
    /// From high to low.
    Falling,
    /// Both.
    Any,
}

/// What a task waits for at a pin.
#[derive(Clone, Copy, Debug, PartialEq, Eq, Structural)]
pub enum Awaited {
    /// A high level.
    High,
    /// A low level.
    Low,
    /// An edge.
    Edge,
}

/// Whether a bit of a word is set.
pub open spec fn is_set(word: u32, n: u32) -> bool {
    (word >> n) & 1 == 1
}

/// The register that selects the port of a line.
pub open spec fn selector(pin: u8) -> Register {
    if pin / 4 == 0 {
        Register::IomuxExintc1
    } else if pin / 4 == 1 {
        Register::IomuxExintc2
    } else if pin / 4 == 2 {
        Register::IomuxExintc3
    } else {
        Register::IomuxExintc4
    }
}

/// The offset of the selection of a line in its register.
pub open spec fn selector_offset(pin: u8) -> u32 {
    (pin as u32 % 4 * 4) as u32
}

/// The accesses that select the port and the edges of a line and drop what was detected before.
pub open spec fn configure_actions(pin: u8, port: u8, trigger: Edge) -> Seq<Action> {
    let line = 1u32 << (pin as u32);
    seq![
        Action::Modify {
            reg: selector(pin),
            clear: bits::placed(0xf, 0xf, selector_offset(pin)),
            set: bits::placed(port as u32, 0xf, selector_offset(pin)),
        },
        Action::Modify {
            reg: Register::ExintPolcfg1,
            clear: line,
            set: bits::when(trigger != Edge::Falling, line),
        },
        Action::Modify {
            reg: Register::ExintPolcfg2,
            clear: line,
            set: bits::when(trigger != Edge::Rising, line),
        },
        Action::Write { reg: Register::ExintIntsts, value: line },
    ]
}

/// The access that enables or disables the interrupt of a line.
pub open spec fn enable_action(pin: u8, enabled: bool) -> Action {
    let line = 1u32 << (pin as u32);
    Action::Modify { reg: Register::ExintInten, clear: line, set: bits::when(enabled, line) }
}

/// The interrupt of the core to which a line belongs.
pub open spec fn line_interrupt(n: u8) -> Option<Interrupt> {
    if n == 0 {
        Some(Interrupt::Exint0)
    } else if n == 1 {
        Some(Interrupt::Exint1)
    } else if n == 2 {
        Some(Interrupt::Exint2)
    } else if n == 3 {
        Some(Interrupt::Exint3)
    } else if n == 4 {
        Some(Interrupt::Exint4)
    } else if n <= 9 {
        Some(Interrupt::Exint9To5)
    } else if n <= 15 {
        Some(Interrupt::Exint15To10)
    } else {
        None
    }
}

/// The wake-ups of the tasks that wait for the lines below `n` that are set in `lines`, in
/// ascending order.
pub open spec fn wakes(lines: u32, n: int) -> Seq<Action>
    decreases n,
{
    if n <= 0 {
        seq![]
    } else if is_set(lines, (n - 1) as u32) {
        wakes(lines, n - 1).push(Action::Wake { waiter: Waiter::Exint((n - 1) as u32) })
    } else {
        wakes(lines, n - 1)
    }
}

/// The accesses of the interrupts of all lines: the lines that were detected are disabled, the tasks
/// that wait for them are woken, and the lines are acknowledged.
pub open spec fn interrupt_actions(intsts: u32) -> Seq<Action> {
    let lines = intsts & PIN_LINES;
    seq![Action::Modify { reg: Register::ExintInten, clear: lines, set: 0 }] + wakes(lines, 32)
        + seq![Action::Write { reg: Register::ExintIntsts, value: lines }]
}

/// Whether a step of a [`BitIter`] takes `bit` out of the word `before` and leaves `after`: the lowest
/// set bit, or none if there is none.
pub open spec fn steps(before: u32, bit: Option<u32>, after: u32) -> bool {
    match bit {
        Some(b) => {
            &&& before != 0
            &&& b < 32
            &&& is_set(before, b)
            &&& forall|j: u32| j < b ==> !#[trigger] is_set(before, j)
            &&& after == before & !(1u32 << b)
        },
        None => before == 0 && after == 0,
    }
}

/// Walks through the set bits of a word, from the lowest to the highest.
pub struct BitIter(pub u32);

impl BitIter {
    /// Takes the lowest set bit out of the word.
    pub fn next(&mut self) -> (bit: Option<u32>)
        ensures
            steps(old(self).0, bit, final(self).0),
    {
        let zeros: u32 = self.0.trailing_zeros();
        proof {
            vstd::std_specs::bits::axiom_u32_trailing_zeros(self.0);
        }
        if zeros == 32 {
            None
        } else {
            self.0 = self.0 & !(1u32 << zeros);
            Some(zeros)
        }
    }
}

proof fn lemma_bits(word: u32, b: u32, j: u32)
    by (bit_vector)
    requires
        b < 32,
        j < 32,
    ensures
        is_set(word & !(1u32 << b), j) == (is_set(word, j) && j != b),
        !is_set(0, j),
        is_set(word, b) ==> (word & !(1u32 << b)) < word,
{
}

proof fn lemma_wakes_gap(lines: u32, from: int, to: int)
    requires
        0 <= from <= to <= 32,
        forall|j: u32| from <= j < to ==> !is_set(lines, j),
    ensures
        wakes(lines, to) == wakes(lines, from),
    decreases to - from,
{
    if from < to {
        assert(!is_set(lines, (to - 1) as u32));
        lemma_wakes_gap(lines, from, to - 1);
    }
}

/// Handles the interrupts of all lines, given the interrupt status register.
pub fn on_interrupt(bus: &mut Bus, intsts: u32)
    ensures
        final(bus)@ == old(bus)@ + interrupt_actions(intsts),
{
    let lines: u32 = intsts & PIN_LINES;
    bus.modify(Register::ExintInten, lines, 0);
    let ghost start = bus@;
    let mut iter = BitIter(lines);
    let mut done = false;
    let ghost mut below: int = 0;
    while !done
        invariant
            0 <= below <= 32,
            forall|j: u32| j < 32 ==> #[trigger] is_set(iter.0, j) == (is_set(lines, j) && j >= below),
            bus@ == start + wakes(lines, below),
            done ==> below == 32,
        decreases
                iter.0 + if done {
                    0int
                } else {
                    1int
                },
    {
        let ghost before = iter.0;
        match iter.next() {
            Some(b) => {
                proof {
                    lemma_bits(before, b, b);
                    assert forall|j: u32| j < 32 implies #[trigger] is_set(iter.0, j) == (is_set(
                        lines,
                        j,
                    ) && j >= b + 1) by {
                        lemma_bits(before, b, j);
                        assert(is_set(before, j) == (is_set(lines, j) && j >= below));
                        if j < b {
                            assert(!is_set(before, j));
                        }
                    }
                    assert forall|j: u32| below <= j < b implies !is_set(lines, j) by {
                        assert(!is_set(before, j));
                        assert(is_set(before, j) == (is_set(lines, j) && j >= below));
                    }
                    assert(is_set(before, b) == (is_set(lines, b) && b >= below));
                    lemma_wakes_gap(lines, below, b as int);
                    below = b + 1;
                }
                bus.wake(Waiter::Exint(b));
            },
            None => {
                proof {
                    assert forall|j: u32| below <= j < 32 implies !is_set(lines, j) by {
                        lemma_bits(0, 0, j);
                        assert(is_set(before, j) == (is_set(lines, j) && j >= below));
                    }
                    lemma_wakes_gap(lines, below, 32);
                    assert forall|j: u32| j < 32 implies #[trigger] is_set(iter.0, j) == (is_set(
                        lines,
                        j,
                    ) && j >= 32) by {
                        lemma_bits(0, 0, j);
                    }
                    below = 32;
                }
                done = true;
            },
        }
    }
    bus.write(Register::ExintIntsts, lines);
}

/// Selects the port and the edges of a line, and drops what was detected before.
pub fn configure_exti(bus: &mut Bus, pin: u8, port: u8, trigger: Edge)
    requires
        pin < 16,
    ensures
        final(bus)@ == old(bus)@ + configure_actions(pin, port, trigger),
{
    let offset: u32 = pin as u32 % 4 * 4;
    let reg = match pin / 4 {
        0 => Register::IomuxExintc1,
        1 => Register::IomuxExintc2,
        2 => Register::IomuxExintc3,
        _ => Register::IomuxExintc4,
    };
    bus.modify(reg, bits::place(0xf, 0xf, offset), bits::place(port as u32, 0xf, offset));
    let (rising, falling) = match trigger {
        Edge::Falling => (false, true),
        Edge::Rising => (true, false),
        Edge::Any => (true, true),
    };
    let line: u32 = bits::bit(pin as u32);
    bus.modify(Register::ExintPolcfg1, line, bits::bits_if(rising, line));
    bus.modify(Register::ExintPolcfg2, line, bits::bits_if(falling, line));
    bus.write(Register::ExintIntsts, line);
}

/// Enables or disables the interrupt of a line.
pub fn enable_exti_interrupt(bus: &mut Bus, pin: u8, enabled: bool)
    requires
        pin < 16,
    ensures
        final(bus)@ == old(bus)@.push(enable_action(pin, enabled)),
{
    let line: u32 = bits::bit(pin as u32);
    bus.modify(Register::ExintInten, line, bits::bits_if(enabled, line));
}

/// Lets the interrupt to which a line belongs through to the core.
pub fn unmask_exti_int(bus: &mut Bus, n: u8)
    ensures
        final(bus)@ == old(bus)@ + unmask_actions(n),
{
    let interrupt = match n {
        0 => Interrupt::Exint0,
        1 => Interrupt::Exint1,
        2 => Interrupt::Exint2,
        3 => Interrupt::Exint3,
        4 => Interrupt::Exint4,
        _ => {
            if n <= 9 {
                Interrupt::Exint9To5
            } else if n <= 15 {
                Interrupt::Exint15To10
            } else {
                return ;
            }
        },
    };
    bus.unpend_and_unmask(interrupt);
}

/// The accesses that let the interrupt to which a line belongs through to the core.
pub open spec fn unmask_actions(n: u8) -> Seq<Action> {
    match line_interrupt(n) {
        Some(interrupt) => seq![Action::Unpend { interrupt }, Action::Unmask { interrupt }],
        None => seq![],
    }
}

/// Whether a pin is high, told by the input data register of its port.
pub open spec fn level_high(pin: u8, idt: u32) -> bool {
    bits::any_set(idt, 1u32 << (pin as u32))
}

/// Whether what is awaited is so already; an edge never is.
pub open spec fn satisfied_by(awaited: Awaited, pin: u8, idt: u32) -> bool {
    match awaited {
        Awaited::High => level_high(pin, idt),
        Awaited::Low => !level_high(pin, idt),
        Awaited::Edge => false,
    }
}

/// Whether a wait is over: its line is no longer enabled.
pub open spec fn wait_over(pin: u8, inten: u32) -> bool {
    !bits::any_set(inten, 1u32 << (pin as u32))
}

/// A wait for a level or an edge at a pin.
pub struct ExtiInputFuture {
    /// The number of the pin.
    pub pin_num: u8,
    /// What is waited for.
    pub awaited: Awaited,
}

impl ExtiInputFuture {
    /// Starts to wait for an edge at a pin of a port.
    pub fn new(bus: &mut Bus, pin_num: u8, port: u8, edge: Edge, awaited: Awaited) -> (wait: Self)
        requires
            pin_num < 16,
        ensures
            wait.pin_num == pin_num,
            wait.awaited == awaited,
            final(bus)@ == old(bus)@ + wait_actions(pin_num, port, edge),
    {
        configure_exti(bus, pin_num, port, edge);
        enable_exti_interrupt(bus, pin_num, true);
        ExtiInputFuture { pin_num, awaited }
    }

    /// Tells from the input register of the port whether the pin has the level that is waited for,
    /// once the wait was started: an edge that came before would be missed.
    pub fn begins_satisfied(&self, idt: u32) -> (satisfied: bool)
        requires
            self.pin_num < 16,
        ensures
            satisfied == satisfied_by(self.awaited, self.pin_num, idt),
    {
        let high = bits::has(idt, bits::bit(self.pin_num as u32));
        match self.awaited {
            Awaited::High => high,
            Awaited::Low => !high,
            Awaited::Edge => false,
        }
    }

    /// Tells from the interrupt enable register whether the edge came: then the interrupt was
    /// disabled.
    pub fn poll(&self, inten: u32) -> (ready: bool)
        requires
            self.pin_num < 16,
        ensures
            ready == wait_over(self.pin_num, inten),
    {
        !bits::has(inten, bits::bit(self.pin_num as u32))
    }

    /// Ends the wait.
    pub fn release(self, bus: &mut Bus)
        requires
            self.pin_num < 16,
        ensures
            final(bus)@ == old(bus)@.push(enable_action(self.pin_num, false)),
    {
        enable_exti_interrupt(bus, self.pin_num, false);
    }
}

/// The accesses that start a wait for an edge.
pub open spec fn wait_actions(pin: u8, port: u8, edge: Edge) -> Seq<Action> {
    configure_actions(pin, port, edge).push(enable_action(pin, true))
}

/// A pin whose edges can be waited for. The line has the number of the pin.
pub struct ExtiInput<const CHANNEL: u8> {
    /// The number of the port.
    pub port: u8,
}

impl<const CHANNEL: u8> ExtiInput<CHANNEL> {
    /// Takes a pin of a port into service.
    pub fn new(bus: &mut Bus, port: u8, channel: ExtiChannel<CHANNEL>) -> (input: Self)
        ensures
            input.port == port,
            final(bus)@ == old(bus)@ + unmask_actions(CHANNEL),
    {
        unmask_exti_int(bus, CHANNEL);
        ExtiInput { port }
    }

    /// Tells from the input register of the port whether the pin is high.
    pub fn is_high(&self, idt: u32) -> (high: bool)
        requires
            CHANNEL < 16,
        ensures
            high == level_high(CHANNEL, idt),
    {
        bits::has(idt, bits::bit(CHANNEL as u32))
    }

    /// Tells from the input register of the port whether the pin is low.
    pub fn is_low(&self, idt: u32) -> (low: bool)
        requires
            CHANNEL < 16,
        ensures
            low == !level_high(CHANNEL, idt),
    {
        !self.is_high(idt)
    }

    /// Starts to wait until the pin is high.
    pub fn wait_for_high(&mut self, bus: &mut Bus) -> (wait: ExtiInputFuture)
        requires
            CHANNEL < 16,
        ensures
            *final(self) == *old(self),
            wait == (ExtiInputFuture { pin_num: CHANNEL, awaited: Awaited::High }),
            final(bus)@ == old(bus)@ + wait_actions(CHANNEL, old(self).port, Edge::Rising),
    {
        ExtiInputFuture::new(bus, CHANNEL, self.port, Edge::Rising, Awaited::High)
    }

    /// Starts to wait until the pin is low.
    pub fn wait_for_low(&mut self, bus: &mut Bus) -> (wait: ExtiInputFuture)
        requires
            CHANNEL < 16,
        ensures
            *final(self) == *old(self),
            wait == (ExtiInputFuture { pin_num: CHANNEL, awaited: Awaited::Low }),
            final(bus)@ == old(bus)@ + wait_actions(CHANNEL, old(self).port, Edge::Falling),
    {
        ExtiInputFuture::new(bus, CHANNEL, self.port, Edge::Falling, Awaited::Low)
    }

    /// Starts to wait for a rising edge.
    pub fn wait_for_rising(&mut self, bus: &mut Bus) -> (wait: ExtiInputFuture)
        requires
            CHANNEL < 16,
        ensures
            *final(self) == *old(self),
            wait == (ExtiInputFuture { pin_num: CHANNEL, awaited: Awaited::Edge }),
            final(bus)@ == old(bus)@ + wait_actions(CHANNEL, old(self).port, Edge::Rising),
    {
        ExtiInputFuture::new(bus, CHANNEL, self.port, Edge::Rising, Awaited::Edge)
    }

    /// Starts to wait for a falling edge.
    pub fn wait_for_falling(&mut self, bus: &mut Bus) -> (wait: ExtiInputFuture)
        requires
            CHANNEL < 16,
        ensures
            *final(self) == *old(self),
            wait == (ExtiInputFuture { pin_num: CHANNEL, awaited: Awaited::Edge }),
            final(bus)@ == old(bus)@ + wait_actions(CHANNEL, old(self).port, Edge::Falling),
    {
        ExtiInputFuture::new(bus, CHANNEL, self.port, Edge::Falling, Awaited::Edge)
    }

    /// Starts to wait for an edge.
    pub fn wait_for_any_edge(&mut self, bus: &mut Bus) -> (wait: ExtiInputFuture)
        requires
            CHANNEL < 16,
        ensures
            *final(self) == *old(self),
            wait == (ExtiInputFuture { pin_num: CHANNEL, awaited: Awaited::Edge }),
            final(bus)@ == old(bus)@ + wait_actions(CHANNEL, old(self).port, Edge::Any),
    {
        ExtiInputFuture::new(bus, CHANNEL, self.port, Edge::Any, Awaited::Edge)
    }
}

} // verus!
