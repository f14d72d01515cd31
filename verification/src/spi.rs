//! Serial peripheral interface.
use crate::bits;
use crate::bus::{Action, Bus, Interrupt, Peripheral, Register, Waiter};
use crate::rate;
use crate::rate::Hertz;
use core::marker::PhantomData;
use vstd::prelude::*;

pub mod exchange;
pub mod laws;
pub mod mode;

use crate::spi::exchange::Exchange;
use crate::spi::mode::{CommunicationMode, Master};

verus! {

/// First control: data is captured on the second clock edge.
pub const CTRL1_CLKPHA: u32 = 0x0001;

/// First control: the clock is high when idle.
pub const CTRL1_CLKPOL: u32 = 0x0002;

/// First control: master.
pub const CTRL1_MSTEN: u32 = 0x0004;

/// First control: the divider of the clock.
pub const CTRL1_MDIV: u32 = 0x0038;

/// First control: the controller is enabled.
pub const CTRL1_SPIEN: u32 = 0x0040;

/// First control: least significant bit first.
pub const CTRL1_LTF: u32 = 0x0080;

/// First control: level of the chip select that is driven by software.
pub const CTRL1_SWCSIL: u32 = 0x0100;

/// First control: the chip select is driven by software.
pub const CTRL1_SWCSEN: u32 = 0x0200;

/// First control: receive only.
pub const CTRL1_ORA: u32 = 0x0400;

/// First control: frames of 16 bits.
pub const CTRL1_FBN: u32 = 0x0800;

/// First control: checksums.
pub const CTRL1_CCEN: u32 = 0x2000;

/// First control: transmit, if there is one data line.
pub const CTRL1_SLBTD: u32 = 0x4000;

/// First control: one data line.
pub const CTRL1_SLBEN: u32 = 0x8000;

/// Second control: the chip select is an output.
pub const CTRL2_HWCSOE: u32 = 0x0004;

/// Second control: interrupt when a word was received.
pub const CTRL2_RDBFIE: u32 = 0x0040;

/// Second control: interrupt when a word can be sent.
pub const CTRL2_TDBEIE: u32 = 0x0080;

/// Status: a word was received.
pub const STS_RDBF: u32 = 0x0001;

/// Status: a word can be sent.
pub const STS_TDBE: u32 = 0x0002;

/// Status: checksum error.
pub const STS_CCERR: u32 = 0x0010;

/// Status: mode fault.
pub const STS_MMERR: u32 = 0x0020;

/// Status: overrun.
pub const STS_ROERR: u32 = 0x0040;

/// Status: busy.
pub const STS_BF: u32 = 0x0080;

/// The part of the first control register that initialisation replaces.
pub const CTRL1_INIT: u32 = CTRL1_CLKPHA | CTRL1_CLKPOL | CTRL1_MSTEN | CTRL1_MDIV | CTRL1_SPIEN
    | CTRL1_LTF | CTRL1_SWCSIL | CTRL1_SWCSEN | CTRL1_CCEN | CTRL1_SLBEN | CTRL1_ORA | CTRL1_FBN;

/// The part of the first control register that a new configuration replaces.
pub const CTRL1_CONFIG: u32 = CTRL1_CLKPHA | CTRL1_CLKPOL | CTRL1_MDIV | CTRL1_LTF;

/// SPI error.
#[derive(Clone, Copy, Debug, PartialEq, Eq, Structural)]
pub enum Error {
    /// Invalid framing.
    Framing,
    /// Checksum error.
    Crc,
    /// Mode fault.
    ModeFault,
    /// Overrun.
    Overrun,
}

/// The kinds of errors that drivers of devices tell apart.
#[derive(Clone, Copy, Debug, PartialEq, Eq, Structural)]
pub enum ErrorKind {
    /// Received data does not conform to the configuration.
    FrameFormat,
    /// More than one master.
    ModeFault,
    /// Received data was lost.
    Overrun,
    /// Another error.
    Other,
}

impl Error {
    /// The error in words.
    pub fn message(&self) -> (message: &'static str)
        ensures
            message@ == match *self {
                Error::Framing => "Invalid Framing"@,
                Error::Crc => "Hardware CRC Check Failed"@,
                Error::ModeFault => "Mode Fault"@,
                Error::Overrun => "Buffer Overrun"@,
            },
    {
        match self {
            Error::Framing => "Invalid Framing",
            Error::Crc => "Hardware CRC Check Failed",
            Error::ModeFault => "Mode Fault",
            Error::Overrun => "Buffer Overrun",
        }
    }

    /// The kind of the error.
    pub fn kind(&self) -> (kind: ErrorKind)
        ensures
            kind == match *self {
                Error::Framing => ErrorKind::FrameFormat,
                Error::Crc => ErrorKind::Other,
                Error::ModeFault => ErrorKind::ModeFault,
                Error::Overrun => ErrorKind::Overrun,
            },
    {
        match *self {
            Error::Framing => ErrorKind::FrameFormat,
            Error::Crc => ErrorKind::Other,
            Error::ModeFault => ErrorKind::ModeFault,
            Error::Overrun => ErrorKind::Overrun,
        }
    }
}

/// Bit order.
#[derive(Clone, Copy, Debug, PartialEq, Eq, Structural)]
pub enum BitOrder {
    /// Least significant bit first.
    Ltf,
    /// Most significant bit first.
    MsbFirst,
}

/// Direction, if there is one data line.
#[derive(Clone, Copy, Debug, PartialEq, Eq, Structural)]
pub enum Direction {
    /// Transmit.
    Transmit,
    /// Receive.
    Receive,
}

/// Polarity of the slave select pin.
#[derive(Clone, Copy, Debug, PartialEq, Eq, Structural)]
pub enum SlaveSelectPolarity {
    /// Active high.
    ActiveHigh,
    /// Active low.
    ActiveLow,
}

/// Level of the clock when idle.
#[derive(Clone, Copy, Debug, PartialEq, Eq, Structural)]
pub enum Polarity {
    /// Low.
    IdleLow,
    /// High.
    IdleHigh,
}

/// The clock edge on which data is captured.
#[derive(Clone, Copy, Debug, PartialEq, Eq, Structural)]
pub enum Phase {
    /// The first edge.
    CaptureOnFirstTransition,
    /// The second edge.
    CaptureOnSecondTransition,
}

/// Mode of the bus.
#[derive(Clone, Copy, Debug, PartialEq, Eq, Structural)]
pub struct Mode {
    /// Level of the clock when idle.
    pub polarity: Polarity,
    /// The clock edge on which data is captured.
    pub phase: Phase,
}

/// Resistor at an input pin.
#[derive(Clone, Copy, Debug, PartialEq, Eq, Structural)]
pub enum Pull {
    /// No resistor.
    Floating,
    /// To the supply.
    Up,
    /// To ground.
    Down,
}

/// Rise and fall speed of an output pin.
#[derive(Clone, Copy, Debug, PartialEq, Eq, Structural)]
pub enum Speed {
    /// Low speed.
    Low,
    /// Medium speed.
    Medium,
    /// High speed.
    High,
    /// Very high speed.
    VeryHigh,
}

/// Number of bits of a frame.
#[derive(Clone, Copy, Debug, PartialEq, Eq, Structural)]
pub enum FrameSize {
    /// 8 bits.
    Bit8,
    /// 16 bits.
    Bit16,
}

/// Configuration of the bus.
#[derive(Clone, Copy, Debug, PartialEq, Eq, Structural)]
pub struct Config {
    /// Mode.
    pub mode: Mode,
    /// Bit order.
    pub bit_order: BitOrder,
    /// Clock frequency.
    pub frequency: Hertz,
    /// Resistor at the data input of a master.
    pub miso_pull: Pull,
    /// Rise and fall speed of the outputs.
    pub gpio_speed: Speed,
    /// Whether a master leaves the chip select alone.
    pub nss_output_disable: bool,
}

impl Default for Config {
    fn default() -> (config: Self)
        ensures
            config == (Config {
                mode: Mode {
                    polarity: Polarity::IdleLow,
                    phase: Phase::CaptureOnFirstTransition,
                },
                bit_order: BitOrder::MsbFirst,
                frequency: 1_000_000,
                miso_pull: Pull::Floating,
                gpio_speed: Speed::VeryHigh,
                nss_output_disable: false,
            }),
    {
        Config {
            mode: Mode { polarity: Polarity::IdleLow, phase: Phase::CaptureOnFirstTransition },
            bit_order: BitOrder::MsbFirst,
            frequency: 1_000_000,
            miso_pull: Pull::Floating,
            gpio_speed: Speed::VeryHigh,
            nss_output_disable: false,
        }
    }
}

impl Config {
    /// Phase, polarity and bit order, in place in the first control register.
    pub open spec fn format_bits(self) -> u32 {
        bits::when(self.mode.phase == Phase::CaptureOnSecondTransition, CTRL1_CLKPHA) | bits::when(
            self.mode.polarity == Polarity::IdleHigh,
            CTRL1_CLKPOL,
        ) | bits::when(self.bit_order == BitOrder::Ltf, CTRL1_LTF)
    }

    /// Whether a clock is fast enough for the frequency.
    pub open spec fn reachable(self, kernel_clock: Hertz) -> bool {
        0 < self.frequency <= kernel_clock
    }

    fn raw_phase(&self) -> (phase: u32)
        ensures
            phase == bits::when(self.mode.phase == Phase::CaptureOnSecondTransition, CTRL1_CLKPHA),
    {
        match self.mode.phase {
            Phase::CaptureOnSecondTransition => CTRL1_CLKPHA,
            Phase::CaptureOnFirstTransition => 0,
        }
    }

    fn raw_polarity(&self) -> (polarity: u32)
        ensures
            polarity == bits::when(self.mode.polarity == Polarity::IdleHigh, CTRL1_CLKPOL),
    {
        match self.mode.polarity {
            Polarity::IdleHigh => CTRL1_CLKPOL,
            Polarity::IdleLow => 0,
        }
    }

    fn raw_byte_order(&self) -> (order: u32)
        ensures
            order == bits::when(self.bit_order == BitOrder::Ltf, CTRL1_LTF),
    {
        match self.bit_order {
            BitOrder::Ltf => CTRL1_LTF,
            BitOrder::MsbFirst => 0,
        }
    }
}

/// The code of the divider for a ratio of the clock and the frequency.
pub open spec fn divider_code(ratio: int) -> u8 {
    if ratio <= 2 {
        0
    } else if ratio <= 5 {
        1
    } else if ratio <= 11 {
        2
    } else if ratio <= 23 {
        3
    } else if ratio <= 39 {
        4
    } else if ratio <= 95 {
        5
    } else if ratio <= 191 {
        6
    } else {
        7
    }
}

/// The divider of a code: 2, 4, 8 and so on up to 256.
pub open spec fn divider(br: u8) -> u32 {
    if br == 0 {
        2
    } else if br == 1 {
        4
    } else if br == 2 {
        8
    } else if br == 3 {
        16
    } else if br == 4 {
        32
    } else if br == 5 {
        64
    } else if br == 6 {
        128
    } else {
        256
    }
}

/// The code of the divider with which a clock comes near a frequency, which is not above the clock.
pub fn compute_baud_rate(kernel_clock: Hertz, freq: Hertz) -> (br: u8)
    requires
        0 < freq <= kernel_clock,
    ensures
        br == divider_code(kernel_clock as int / freq as int),
        br <= 7,
{
    let ratio: u32 = rate::ratio(kernel_clock, freq);
    assert(ratio >= 1) by (nonlinear_arith)
        requires
            ratio == kernel_clock / freq,
            0 < freq <= kernel_clock,
    ;
    if ratio <= 2 {
        0
    } else if ratio <= 5 {
        1
    } else if ratio <= 11 {
        2
    } else if ratio <= 23 {
        3
    } else if ratio <= 39 {
        4
    } else if ratio <= 95 {
        5
    } else if ratio <= 191 {
        6
    } else {
        7
    }
}

/// The frequency that a clock gives with the divider of a code.
pub fn compute_frequency(kernel_clock: Hertz, br: u8) -> (frequency: Hertz)
    requires
        br <= 7,
    ensures
        frequency == kernel_clock / divider(br),
{
    let div: u32 = match br {
        0 => 2,
        1 => 4,
        2 => 8,
        3 => 16,
        4 => 32,
        5 => 64,
        6 => 128,
        _ => 256,
    };
    kernel_clock / div
}

/// The error that a status stands for; of several, an overrun comes first, if it counts, then a mode
/// fault.
pub open spec fn error_in(sts: u32, ovr: bool) -> Option<Error> {
    if bits::any_set(sts, STS_ROERR) && ovr {
        Some(Error::Overrun)
    } else if bits::any_set(sts, STS_MMERR) {
        Some(Error::ModeFault)
    } else if bits::any_set(sts, STS_CCERR) {
        Some(Error::Crc)
    } else {
        None
    }
}

/// Looks for errors in the status; an overrun counts only with `ovr`.
pub fn check_error_flags(sts: u32, ovr: bool) -> (checked: Result<(), Error>)
    ensures
        match error_in(sts, ovr) {
            Some(error) => checked is Err && checked->Err_0 == error,
            None => checked is Ok,
        },
{
    if bits::has(sts, STS_ROERR) && ovr {
        return Err(Error::Overrun);
    }
    if bits::has(sts, STS_MMERR) {
        return Err(Error::ModeFault);
    }
    if bits::has(sts, STS_CCERR) {
        return Err(Error::Crc);
    }
    Ok(())
}

/// The accesses of the interrupt.
pub open spec fn interrupt_actions(ctrl2: u32, sts: u32) -> Seq<Action> {
    let tx = if bits::any_set(ctrl2, CTRL2_TDBEIE) && bits::any_set(sts, STS_TDBE) {
        seq![
            Action::Modify { reg: Register::SpiCtrl2, clear: CTRL2_TDBEIE, set: 0 },
            Action::Wake { waiter: Waiter::Spi1 },
        ]
    } else {
        seq![]
    };
    let rx = if bits::any_set(ctrl2, CTRL2_RDBFIE) && bits::any_set(sts, STS_RDBF) {
        seq![
            Action::Modify { reg: Register::SpiCtrl2, clear: CTRL2_RDBFIE, set: 0 },
            Action::Wake { waiter: Waiter::Spi1 },
        ]
    } else {
        seq![]
    };
    tx + rx
}

/// Handles the interrupt: what was waited for is not waited for any more, and the task that waits is
/// woken.
pub fn on_interrupt(bus: &mut Bus, ctrl2: u32, sts: u32)
    ensures
        final(bus)@ == old(bus)@ + interrupt_actions(ctrl2, sts),
{
    if bits::has(ctrl2, CTRL2_TDBEIE) && bits::has(sts, STS_TDBE) {
        bus.modify(Register::SpiCtrl2, CTRL2_TDBEIE, 0);
        bus.wake(Waiter::Spi1);
    }
    if bits::has(ctrl2, CTRL2_RDBFIE) && bits::has(sts, STS_RDBF) {
        bus.modify(Register::SpiCtrl2, CTRL2_RDBFIE, 0);
        bus.wake(Waiter::Spi1);
    }
}

/// Words that can be exchanged.
pub trait Word: Copy {
    /// The frame size of the words.
    spec fn frame() -> FrameSize;

    /// The number that the word is.
    spec fn number(self) -> u16;

    /// The frame size of the words.
    fn config() -> (size: FrameSize)
        ensures
            size == Self::frame(),
    ;

    /// The number that the word is.
    fn to_number(self) -> (number: u16)
        ensures
            number == self.number(),
    ;
}

impl Word for u8 {
    open spec fn frame() -> FrameSize {
        FrameSize::Bit8
    }

    open spec fn number(self) -> u16 {
        self as u16
    }

    fn config() -> (size: FrameSize) {
        FrameSize::Bit8
    }

    fn to_number(self) -> (number: u16) {
        self as u16
    }
}

impl Word for u16 {
    open spec fn frame() -> FrameSize {
        FrameSize::Bit16
    }

    open spec fn number(self) -> u16 {
        self
    }

    fn config() -> (size: FrameSize) {
        FrameSize::Bit16
    }

    fn to_number(self) -> (number: u16) {
        self
    }
}

/// The numbers of words.
pub open spec fn numbers<W: Word>(words: Seq<W>) -> Seq<u16> {
    Seq::new(words.len(), |i: int| words[i].number())
}

fn to_numbers<W: Word>(words: &[W]) -> (result: Vec<u16>)
    ensures
        result@ == numbers(words@),
{
    let mut result: Vec<u16> = Vec::new();
    let mut i: usize = 0;
    while i < words.len()
        invariant
            i <= words.len(),
            result@.len() == i,
            forall|k: int| 0 <= k < i ==> result@[k] == (#[trigger] words@[k]).number(),
        decreases words.len() - i,
    {
        result.push(words[i].to_number());
        i = i + 1;
    }
    assert(result@ =~= numbers(words@));
    result
}

/// SPI driver.
pub struct Spi<CM: CommunicationMode> {
    /// The clock of the controller.
    pub kernel_clock: Hertz,
    /// Whether the driver has a chip select pin.
    pub nss: bool,
    /// The present frame size.
    pub current_word_size: FrameSize,
    /// Rise and fall speed of the outputs.
    pub gpio_speed: Speed,
    /// Master or slave.
    pub mode: PhantomData<CM>,
}

/// The accesses that set the frame size, if it changes; the controller is left disabled then.
pub open spec fn word_size_actions(current: FrameSize, size: FrameSize) -> Seq<Action> {
    if current == size {
        seq![]
    } else {
        seq![
            Action::Modify { reg: Register::SpiCtrl1, clear: CTRL1_SPIEN, set: 0 },
            Action::Modify {
                reg: Register::SpiCtrl1,
                clear: CTRL1_FBN,
                set: bits::when(size == FrameSize::Bit16, CTRL1_FBN),
            },
        ]
    }
}

/// The accesses that start an exchange of words.
pub open spec fn begin_actions(current: FrameSize, size: FrameSize) -> Seq<Action> {
    seq![Action::Modify { reg: Register::SpiCtrl1, clear: CTRL1_SPIEN, set: 0 }]
        + word_size_actions(current, size) + seq![
        Action::Modify { reg: Register::SpiCtrl1, clear: 0, set: CTRL1_SPIEN },
        Action::Drain { status: Register::SpiSts, mask: STS_RDBF, reg: Register::SpiDt },
    ]
}

/// The accesses that bring the controller into service.
pub open spec fn init_actions(master: bool, nss: bool, kernel_clock: Hertz, config: Config) -> Seq<
    Action,
> {
    seq![
        Action::Enable { peripheral: Peripheral::Spi1 },
        Action::Reset { peripheral: Peripheral::Spi1 },
        Action::Unpend { interrupt: Interrupt::Spi1 },
        Action::Unmask { interrupt: Interrupt::Spi1 },
        Action::Modify {
            reg: Register::SpiCtrl2,
            clear: CTRL2_HWCSOE,
            set: bits::when(master && !config.nss_output_disable, CTRL2_HWCSOE),
        },
        Action::Modify {
            reg: Register::SpiCtrl1,
            clear: CTRL1_INIT,
            set: init_bits(
                master,
                nss,
                divider_code(kernel_clock as int / config.frequency as int),
                config,
            ),
        },
    ]
}

/// What initialisation stores in the first control register.
pub open spec fn init_bits(master: bool, nss: bool, br: u8, config: Config) -> u32 {
    config.format_bits() | bits::when(master, CTRL1_MSTEN) | bits::placed(br as u32, 7, 3)
        | CTRL1_SPIEN | bits::when(master, CTRL1_SWCSIL) | bits::when(!nss, CTRL1_SWCSEN)
}

/// The accesses that change the configuration.
pub open spec fn config_actions(kernel_clock: Hertz, config: Config) -> Seq<Action> {
    seq![
        Action::Modify { reg: Register::SpiCtrl1, clear: CTRL1_SPIEN, set: 0 },
        Action::Modify {
            reg: Register::SpiCtrl1,
            clear: CTRL1_CONFIG,
            set: config.format_bits() | bits::placed(
                divider_code(kernel_clock as int / config.frequency as int) as u32,
                7,
                3,
            ),
        },
        Action::Modify { reg: Register::SpiCtrl1, clear: 0, set: CTRL1_SPIEN },
    ]
}

/// What a direction stores in the first control register.
pub open spec fn direction_bits(dir: Option<Direction>) -> u32 {
    match dir {
        Some(Direction::Transmit) => CTRL1_SLBEN | CTRL1_SLBTD,
        Some(Direction::Receive) => CTRL1_SLBEN,
        None => CTRL1_SLBTD,
    }
}

/// The accesses that change the direction, given the first control register.
pub open spec fn direction_actions(dir: Option<Direction>, ctrl1: u32) -> Seq<Action> {
    let enabled = bits::any_set(ctrl1, CTRL1_SPIEN);
    let wait = if enabled {
        seq![
            Action::Wait { reg: Register::SpiSts, mask: STS_TDBE, value: STS_TDBE },
            Action::Wait { reg: Register::SpiSts, mask: STS_BF, value: 0 },
        ]
    } else {
        seq![]
    };
    let restore = if enabled {
        seq![Action::Modify { reg: Register::SpiCtrl1, clear: 0, set: CTRL1_SPIEN }]
    } else {
        seq![]
    };
    wait + seq![
        Action::Modify { reg: Register::SpiCtrl1, clear: CTRL1_SPIEN, set: 0 },
        Action::Modify {
            reg: Register::SpiCtrl1,
            clear: CTRL1_SLBEN | CTRL1_SLBTD,
            set: direction_bits(dir),
        },
    ] + restore
}

/// The configuration that the control registers stand for.
pub open spec fn config_of(kernel_clock: Hertz, gpio_speed: Speed, ctrl1: u32, ctrl2: u32) -> Config {
    Config {
        mode: Mode {
            polarity: if bits::any_set(ctrl1, CTRL1_CLKPOL) {
                Polarity::IdleHigh
            } else {
                Polarity::IdleLow
            },
            phase: if bits::any_set(ctrl1, CTRL1_CLKPHA) {
                Phase::CaptureOnSecondTransition
            } else {
                Phase::CaptureOnFirstTransition
            },
        },
        bit_order: if bits::any_set(ctrl1, CTRL1_LTF) {
            BitOrder::Ltf
        } else {
            BitOrder::MsbFirst
        },
        frequency: kernel_clock / divider(bits::field(ctrl1, 7, 3) as u8),
        miso_pull: Pull::Floating,
        gpio_speed,
        nss_output_disable: !bits::any_set(ctrl2, CTRL2_HWCSOE) || bits::any_set(
            ctrl1,
            CTRL1_SWCSEN,
        ),
    }
}

impl<CM: CommunicationMode> Spi<CM> {
    fn new_inner(bus: &mut Bus, nss: bool, config: Config, kernel_clock: Hertz) -> (spi: Self)
        requires
            config.reachable(kernel_clock),
        ensures
            spi.kernel_clock == kernel_clock,
            spi.nss == nss,
            spi.current_word_size == FrameSize::Bit8,
            spi.gpio_speed == config.gpio_speed,
            final(bus)@ == old(bus)@ + init_actions(CM::master(), nss, kernel_clock, config),
    {
        let mut spi = Spi {
            kernel_clock,
            nss,
            current_word_size: <u8 as Word>::config(),
            gpio_speed: config.gpio_speed,
            mode: PhantomData,
        };
        spi.enable_and_init(bus, config);
        spi
    }

    fn enable_and_init(&mut self, bus: &mut Bus, config: Config)
        requires
            config.reachable(old(self).kernel_clock),
        ensures
            *final(self) == *old(self),
            final(bus)@ == old(bus)@ + init_actions(
                CM::master(),
                old(self).nss,
                old(self).kernel_clock,
                config,
            ),
    {
        let br: u8 = compute_baud_rate(self.kernel_clock, config.frequency);
        bus.post(Action::Enable { peripheral: Peripheral::Spi1 });
        bus.post(Action::Reset { peripheral: Peripheral::Spi1 });
        bus.unpend_and_unmask(Interrupt::Spi1);
        // Without a chip select pin the selection is driven by software.
        let swcsen = !self.nss;
        let master = CM::is_master();
        let hwcsoe = master && !config.nss_output_disable;
        bus.modify(Register::SpiCtrl2, CTRL2_HWCSOE, bits::bits_if(hwcsoe, CTRL2_HWCSOE));
        bus.modify(
            Register::SpiCtrl1,
            CTRL1_INIT,
            (config.raw_phase() | config.raw_polarity() | config.raw_byte_order())
                | bits::bits_if(master, CTRL1_MSTEN) | bits::place(br as u32, 7, 3) | CTRL1_SPIEN
                | bits::bits_if(master, CTRL1_SWCSIL) | bits::bits_if(swcsen, CTRL1_SWCSEN),
        );
    }

    /// Changes the configuration.
    pub fn set_config(&mut self, bus: &mut Bus, config: &Config) -> (done: Result<(), ()>)
        requires
            config.reachable(old(self).kernel_clock),
        ensures
            done is Ok,
            *final(self) == *old(self),
            final(bus)@ == old(bus)@ + config_actions(old(self).kernel_clock, *config),
    {
        let br: u8 = compute_baud_rate(self.kernel_clock, config.frequency);
        bus.modify(Register::SpiCtrl1, CTRL1_SPIEN, 0);
        bus.modify(
            Register::SpiCtrl1,
            CTRL1_CONFIG,
            (config.raw_phase() | config.raw_polarity() | config.raw_byte_order()) | bits::place(
                br as u32,
                7,
                3,
            ),
        );
        bus.modify(Register::SpiCtrl1, 0, CTRL1_SPIEN);
        Ok(())
    }

    /// Sets the direction of the one data line, or uses two; `ctrl1` is the first control register.
    ///
    /// The direction cannot be changed while the controller is enabled. If it is, it is disabled
    /// once the transfer that goes on is complete, and enabled again afterwards.
    pub fn set_direction(&mut self, bus: &mut Bus, ctrl1: u32, dir: Option<Direction>)
        ensures
            *final(self) == *old(self),
            final(bus)@ == old(bus)@ + direction_actions(dir, ctrl1),
    {
        let direction: u32 = match dir {
            Some(Direction::Transmit) => CTRL1_SLBEN | CTRL1_SLBTD,
            Some(Direction::Receive) => CTRL1_SLBEN,
            None => CTRL1_SLBTD,
        };
        let was_enabled = bits::has(ctrl1, CTRL1_SPIEN);
        if was_enabled {
            bus.wait(Register::SpiSts, STS_TDBE, STS_TDBE);
            bus.wait(Register::SpiSts, STS_BF, 0);
        }
        bus.modify(Register::SpiCtrl1, CTRL1_SPIEN, 0);
        bus.modify(Register::SpiCtrl1, CTRL1_SLBEN | CTRL1_SLBTD, direction);
        if was_enabled {
            bus.modify(Register::SpiCtrl1, 0, CTRL1_SPIEN);
        }
    }

    /// The configuration that the control registers stand for.
    pub fn get_current_config(&self, ctrl1: u32, ctrl2: u32) -> (config: Config)
        ensures
            config == config_of(self.kernel_clock, self.gpio_speed, ctrl1, ctrl2),
    {
        let hwcsoe = bits::has(ctrl2, CTRL2_HWCSOE);
        let polarity = if bits::has(ctrl1, CTRL1_CLKPOL) {
            Polarity::IdleHigh
        } else {
            Polarity::IdleLow
        };
        let phase = if bits::has(ctrl1, CTRL1_CLKPHA) {
            Phase::CaptureOnSecondTransition
        } else {
            Phase::CaptureOnFirstTransition
        };
        let bit_order = if bits::has(ctrl1, CTRL1_LTF) {
            BitOrder::Ltf
        } else {
            BitOrder::MsbFirst
        };
        let br: u8 = bits::get_field(ctrl1, 7, 3) as u8;
        let frequency: Hertz = compute_frequency(self.kernel_clock, br);
        // The chip select is no output if it is disabled, or if it is driven by software.
        let nss_output_disable = !hwcsoe || bits::has(ctrl1, CTRL1_SWCSEN);
        Config {
            mode: Mode { polarity, phase },
            bit_order,
            frequency,
            miso_pull: Pull::Floating,
            gpio_speed: self.gpio_speed,
            nss_output_disable,
        }
    }

    /// Sets the frame size, if it changes; the controller is left disabled then.
    pub fn set_word_size(&mut self, bus: &mut Bus, word_size: FrameSize)
        ensures
            final(self).current_word_size == word_size,
            final(self).kernel_clock == old(self).kernel_clock,
            final(self).nss == old(self).nss,
            final(self).gpio_speed == old(self).gpio_speed,
            final(bus)@ == old(bus)@ + word_size_actions(old(self).current_word_size, word_size),
    {
        if self.current_word_size == word_size {
            return ;
        }
        bus.modify(Register::SpiCtrl1, CTRL1_SPIEN, 0);
        bus.modify(
            Register::SpiCtrl1,
            CTRL1_FBN,
            bits::bits_if(word_size == FrameSize::Bit16, CTRL1_FBN),
        );
        self.current_word_size = word_size;
    }

    fn begin(&mut self, bus: &mut Bus, word_size: FrameSize)
        ensures
            final(self).current_word_size == word_size,
            final(self).kernel_clock == old(self).kernel_clock,
            final(self).nss == old(self).nss,
            final(self).gpio_speed == old(self).gpio_speed,
            final(bus)@ == old(bus)@ + begin_actions(old(self).current_word_size, word_size),
    {
        bus.modify(Register::SpiCtrl1, CTRL1_SPIEN, 0);
        self.set_word_size(bus, word_size);
        bus.modify(Register::SpiCtrl1, 0, CTRL1_SPIEN);
        // What was received before is dropped.
        bus.post(
            Action::Drain { status: Register::SpiSts, mask: STS_RDBF, reg: Register::SpiDt },
        );
    }

    /// Starts to send words; what is received meanwhile is dropped.
    pub fn write<W: Word>(&mut self, bus: &mut Bus, data: &[W]) -> (exchange: Exchange)
        ensures
            final(self).current_word_size == W::frame(),
            final(self).kernel_clock == old(self).kernel_clock,
            final(self).nss == old(self).nss,
            final(self).gpio_speed == old(self).gpio_speed,
            final(bus)@ == old(bus)@ + begin_actions(old(self).current_word_size, W::frame()),
            exchange.fresh(numbers(data@), 0),
    {
        self.begin(bus, W::config());
        Exchange::new(to_numbers(data), 0)
    }

    /// Starts to receive `len` words; zeros are sent meanwhile.
    pub fn read<W: Word>(&mut self, bus: &mut Bus, len: usize) -> (exchange: Exchange)
        ensures
            final(self).current_word_size == W::frame(),
            final(self).kernel_clock == old(self).kernel_clock,
            final(self).nss == old(self).nss,
            final(self).gpio_speed == old(self).gpio_speed,
            final(bus)@ == old(bus)@ + begin_actions(old(self).current_word_size, W::frame()),
            exchange.fresh(Seq::<u16>::empty(), len as nat),
    {
        self.begin(bus, W::config());
        Exchange::new(Vec::new(), len)
    }

    /// Starts to send words and to receive `len` words, at the same time.
    ///
    /// The longer of the two decides how long it takes. If fewer words are sent they are followed by
    /// zeros, and if fewer are received the rest is dropped.
    pub fn transfer<W: Word>(&mut self, bus: &mut Bus, len: usize, write: &[W]) -> (exchange:
        Exchange)
        ensures
            final(self).current_word_size == W::frame(),
            final(self).kernel_clock == old(self).kernel_clock,
            final(self).nss == old(self).nss,
            final(self).gpio_speed == old(self).gpio_speed,
            final(bus)@ == old(bus)@ + begin_actions(old(self).current_word_size, W::frame()),
            exchange.fresh(numbers(write@), len as nat),
    {
        self.begin(bus, W::config());
        Exchange::new(to_numbers(write), len)
    }

    /// Starts to send words and to receive as many, at the same time.
    pub fn transfer_in_place<W: Word>(&mut self, bus: &mut Bus, data: &[W]) -> (exchange: Exchange)
        ensures
            final(self).current_word_size == W::frame(),
            final(self).kernel_clock == old(self).kernel_clock,
            final(self).nss == old(self).nss,
            final(self).gpio_speed == old(self).gpio_speed,
            final(bus)@ == old(bus)@ + begin_actions(old(self).current_word_size, W::frame()),
            exchange.fresh(numbers(data@), data@.len()),
    {
        self.begin(bus, W::config());
        Exchange::new(to_numbers(data), data.len())
    }

    /// Takes the controller out of service.
    pub fn release(self, bus: &mut Bus)
        ensures
            final(bus)@ == old(bus)@.push(Action::Disable { peripheral: Peripheral::Spi1 }),
    {
        bus.post(Action::Disable { peripheral: Peripheral::Spi1 });
    }
}

impl Spi<Master> {
    /// Brings the controller into service as master; `nss` tells whether there is a chip select pin.
    pub fn new(bus: &mut Bus, nss: bool, config: Config, kernel_clock: Hertz) -> (spi: Self)
        requires
            config.reachable(kernel_clock),
        ensures
            spi.kernel_clock == kernel_clock,
            spi.nss == nss,
            spi.current_word_size == FrameSize::Bit8,
            spi.gpio_speed == config.gpio_speed,
            final(bus)@ == old(bus)@ + init_actions(true, nss, kernel_clock, config),
    {
        Self::new_inner(bus, nss, config, kernel_clock)
    }

    /// Brings the controller into service as master without any pins.
    pub fn new_internal(bus: &mut Bus, config: Config, kernel_clock: Hertz) -> (spi: Self)
        requires
            config.reachable(kernel_clock),
        ensures
            spi.kernel_clock == kernel_clock,
            !spi.nss,
            spi.current_word_size == FrameSize::Bit8,
            spi.gpio_speed == config.gpio_speed,
            final(bus)@ == old(bus)@ + init_actions(true, false, kernel_clock, config),
    {
        Self::new_inner(bus, false, config, kernel_clock)
    }
}

} // verus!
