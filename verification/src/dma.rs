//! Direct memory access.
use crate::bits;
use crate::bus::{Action, Bus, Interrupt, Register, Waiter};
use vstd::prelude::*;

pub mod laws;
pub mod ring;

verus! {

/// Channel control: the channel is enabled.
pub const CTRL_CHEN: u32 = 0x0001;

/// Channel control: interrupt when the transfer is complete.
pub const CTRL_FDTIEN: u32 = 0x0002;

/// Channel control: interrupt when half of the transfer is done.
pub const CTRL_HDTIEN: u32 = 0x0004;

/// Channel control: interrupt on an error.
pub const CTRL_DTERRIEN: u32 = 0x0008;

/// Channel control: data is read from memory.
pub const CTRL_DTD: u32 = 0x0010;

/// Channel control: circular mode.
pub const CTRL_LM: u32 = 0x0020;

/// Channel control: the peripheral address is incremented.
pub const CTRL_PINCM: u32 = 0x0040;

/// Channel control: the memory address is incremented.
pub const CTRL_MINCM: u32 = 0x0080;

/// The number of channels.
pub const CHANNEL_COUNT: usize = 7;

/// A channel of the DMA controller.
#[derive(Clone, Copy, Debug, PartialEq, Eq, Structural)]
pub enum DmaChannel {
    /// Channel 1.
    Ch1,
    /// Channel 2.
    Ch2,
    /// Channel 3.
    Ch3,
    /// Channel 4.
    Ch4,
    /// Channel 5.
    Ch5,
    /// Channel 6.
    Ch6,
    /// Channel 7.
    Ch7,
}

impl DmaChannel {
    /// The offset of the flags of the channel in the status and clear registers.
    pub open spec fn offset(self) -> u32 {
        match self {
            DmaChannel::Ch1 => 0,
            DmaChannel::Ch2 => 4,
            DmaChannel::Ch3 => 8,
            DmaChannel::Ch4 => 12,
            DmaChannel::Ch5 => 16,
            DmaChannel::Ch6 => 20,
            DmaChannel::Ch7 => 24,
        }
    }

    /// The flag that says that the transfer is complete.
    pub open spec fn complete_flag(self) -> u32 {
        2u32 << self.offset()
    }

    /// The flag that says that half of the transfer is done.
    pub open spec fn half_flag(self) -> u32 {
        4u32 << self.offset()
    }

    /// The flag that says that an error occurred.
    pub open spec fn error_flag(self) -> u32 {
        8u32 << self.offset()
    }

    /// The three flags together.
    pub open spec fn flags(self) -> u32 {
        0xeu32 << self.offset()
    }

    fn shift(self) -> (offset: u32)
        ensures
            offset == self.offset(),
            offset < 32,
    {
        match self {
            DmaChannel::Ch1 => 0,
            DmaChannel::Ch2 => 4,
            DmaChannel::Ch3 => 8,
            DmaChannel::Ch4 => 12,
            DmaChannel::Ch5 => 16,
            DmaChannel::Ch6 => 20,
            DmaChannel::Ch7 => 24,
        }
    }
}

/// The direction of a transfer.
#[derive(Clone, Copy, Debug, PartialEq, Eq, Structural)]
pub enum Dir {
    /// Transfer from memory to a peripheral.
    MemoryToPeripheral,
    /// Transfer from a peripheral to memory.
    PeripheralToMemory,
    /// Transfer from memory to another memory address.
    MemoryToMemory,
}

/// Which address is incremented in a transfer.
#[derive(Clone, Copy, Debug, PartialEq, Eq, Structural)]
pub enum Increment {
    /// Neither of the addresses.
    Neither,
    /// The peripheral address.
    Peripheral,
    /// The memory address.
    Memory,
    /// Both addresses.
    Both,
}

/// Size of the words of a transfer.
#[derive(Clone, Copy, Debug, PartialEq, Eq, Structural)]
pub enum WordSize {
    /// 8 bits.
    OneByte,
    /// 16 bits.
    TwoBytes,
    /// 32 bits.
    FourBytes,
    /// 64 bits, which the controller cannot transfer.
    EightBytes,
}

impl WordSize {
    /// The code of the size in the control register.
    pub open spec fn code(self) -> u32 {
        match self {
            WordSize::OneByte => 0,
            WordSize::TwoBytes => 1,
            _ => 2,
        }
    }

    /// The code of the size in the control register.
    pub fn to_code(self) -> (code: u32)
        requires
            self != WordSize::EightBytes,
        ensures
            code == self.code(),
    {
        match self {
            WordSize::OneByte => 0,
            WordSize::TwoBytes => 1,
            _ => 2,
        }
    }
}

/// Priority of the requests of a channel.
#[derive(Clone, Copy, Debug, PartialEq, Eq, Structural)]
pub enum Priority {
    /// Low priority.
    Low,
    /// Medium priority.
    Medium,
    /// High priority.
    High,
    /// Very high priority.
    VeryHigh,
}

impl Priority {
    /// The code of the priority in the control register.
    pub open spec fn code(self) -> u32 {
        match self {
            Priority::Low => 0,
            Priority::Medium => 1,
            Priority::High => 2,
            Priority::VeryHigh => 3,
        }
    }

    /// The code of the priority in the control register.
    pub fn to_code(self) -> (code: u32)
        ensures
            code == self.code(),
    {
        match self {
            Priority::Low => 0,
            Priority::Medium => 1,
            Priority::High => 2,
            Priority::VeryHigh => 3,
        }
    }
}

/// Options of a transfer.
#[derive(Clone, Copy, Debug, PartialEq, Eq, Structural)]
pub struct TransferOptions {
    /// Priority of the requests.
    pub priority: Priority,
    /// Circular mode: the transfer starts again when it is complete, until it is stopped.
    pub circular: bool,
    /// Interrupt when half of the transfer is done.
    pub half_transfer_ir: bool,
    /// Interrupt when the transfer is complete.
    pub complete_transfer_ir: bool,
}

impl Default for TransferOptions {
    fn default() -> (options: Self)
        ensures
            options == (TransferOptions {
                priority: Priority::VeryHigh,
                circular: false,
                half_transfer_ir: false,
                complete_transfer_ir: true,
            }),
    {
        TransferOptions {
            priority: Priority::VeryHigh,
            circular: false,
            half_transfer_ir: false,
            complete_transfer_ir: true,
        }
    }
}

/// What the driver of a channel shares with its interrupt.
#[derive(Clone, Copy, Debug, PartialEq, Eq, Structural)]
pub struct ChannelState {
    /// How often the transfer was completed.
    pub complete_count: usize,
}

impl ChannelState {
    /// No transfer was completed.
    pub fn new() -> (state: Self)
        ensures
            state.complete_count == 0,
    {
        ChannelState { complete_count: 0 }
    }
}

/// Something that stands for a channel.
pub trait ChannelInstance {
    /// The channel.
    spec fn instance(&self) -> DmaChannel;

    /// The channel.
    fn channel(&self) -> (channel: DmaChannel)
        ensures
            channel == self.instance(),
    ;
}

impl ChannelInstance for DmaChannel {
    open spec fn instance(&self) -> DmaChannel {
        *self
    }

    fn channel(&self) -> (channel: DmaChannel) {
        *self
    }
}

/// A transfer: where from, where to, how much and how.
#[derive(Clone, Copy, Debug, PartialEq, Eq, Structural)]
pub struct Setup {
    /// Direction.
    pub dir: Dir,
    /// Address of the peripheral register, or of the source in memory.
    pub peri_addr: u32,
    /// Address in memory.
    pub mem_addr: u32,
    /// Number of words.
    pub mem_len: usize,
    /// Which address is incremented.
    pub increment: Increment,
    /// Size of the words in memory.
    pub mem_size: WordSize,
    /// Size of the words at the peripheral.
    pub peri_size: WordSize,
    /// Options.
    pub options: TransferOptions,
}

impl Setup {
    /// Whether the controller can perform the transfer.
    pub open spec fn wf(self) -> bool {
        &&& 0 < self.mem_len <= 0xffff
        &&& self.mem_size != WordSize::EightBytes
        &&& self.peri_size != WordSize::EightBytes
    }

    /// The control word of the transfer; the channel is not enabled by it.
    pub open spec fn control(self) -> u32 {
        bits::placed(self.peri_size.code(), 3, 8) | bits::placed(self.mem_size.code(), 3, 10)
            | bits::when(
            self.increment == Increment::Memory || self.increment == Increment::Both,
            CTRL_MINCM,
        ) | bits::when(
            self.increment == Increment::Peripheral || self.increment == Increment::Both,
            CTRL_PINCM,
        ) | bits::when(self.dir != Dir::PeripheralToMemory, CTRL_DTD) | CTRL_DTERRIEN | bits::when(
            self.options.complete_transfer_ir,
            CTRL_FDTIEN,
        ) | bits::when(self.options.half_transfer_ir, CTRL_HDTIEN) | bits::when(
            self.options.circular,
            CTRL_LM,
        ) | bits::placed(self.options.priority.code(), 3, 12)
    }

    /// The accesses that prepare a channel for the transfer.
    pub open spec fn actions(self, channel: DmaChannel) -> Seq<Action> {
        seq![
            Action::Write { reg: Register::DmaClr, value: channel.flags() },
            Action::Write { reg: Register::DmaPaddr(channel), value: self.peri_addr },
            Action::Write { reg: Register::DmaMaddr(channel), value: self.mem_addr },
            Action::Write { reg: Register::DmaDtcnt(channel), value: self.mem_len as u32 },
            Action::Write { reg: Register::DmaCtrl(channel), value: self.control() },
        ]
    }
}

/// The access that enables a channel.
pub open spec fn start_action(channel: DmaChannel) -> Action {
    Action::Modify { reg: Register::DmaCtrl(channel), clear: 0, set: CTRL_CHEN }
}

/// The access that disables a channel and keeps its configuration.
pub open spec fn pause_action(channel: DmaChannel) -> Action {
    Action::Modify { reg: Register::DmaCtrl(channel), clear: CTRL_CHEN, set: 0 }
}

/// The accesses that disable a channel, drop its configuration and wait until its transfer no longer
/// runs.
pub open spec fn reset_actions(channel: DmaChannel) -> Seq<Action> {
    seq![
        Action::Write { reg: Register::DmaCtrl(channel), value: CTRL_DTERRIEN | CTRL_FDTIEN },
        Action::WaitStopped { channel },
    ]
}

/// Whether a transfer runs: its channel is enabled, and the transfer is circular or was not
/// completed.
pub open spec fn running(ctrl: u32, state: ChannelState) -> bool {
    bits::any_set(ctrl, CTRL_CHEN) && (bits::any_set(ctrl, CTRL_LM) || state.complete_count == 0)
}

/// Whether the interrupt of a channel reports that half of the transfer is done.
pub open spec fn half_reported(channel: DmaChannel, sts: u32, ctrl: u32) -> bool {
    bits::any_set(sts, channel.half_flag()) && bits::any_set(ctrl, CTRL_HDTIEN)
}

/// Whether the interrupt of a channel reports that the transfer is complete.
pub open spec fn complete_reported(channel: DmaChannel, sts: u32, ctrl: u32) -> bool {
    bits::any_set(sts, channel.complete_flag()) && bits::any_set(ctrl, CTRL_FDTIEN)
}

/// The accesses of the interrupt of a channel.
pub open spec fn irq_actions(channel: DmaChannel, sts: u32, ctrl: u32) -> Seq<Action> {
    let half = if half_reported(channel, sts, ctrl) {
        seq![Action::Write { reg: Register::DmaClr, value: channel.error_flag() }]
    } else {
        seq![]
    };
    let complete = if complete_reported(channel, sts, ctrl) {
        seq![Action::Write { reg: Register::DmaClr, value: channel.complete_flag() }]
    } else {
        seq![]
    };
    let wake = if half_reported(channel, sts, ctrl) || complete_reported(channel, sts, ctrl) {
        seq![Action::Wake { waiter: Waiter::Dma1(channel) }]
    } else {
        seq![]
    };
    half + complete + wake
}

/// The number of completions once the interrupt of a channel was handled; after the largest number
/// comes zero.
pub open spec fn counted(channel: DmaChannel, sts: u32, ctrl: u32, count: usize) -> usize {
    if complete_reported(channel, sts, ctrl) {
        if count == usize::MAX {
            0
        } else {
            (count + 1) as usize
        }
    } else {
        count
    }
}

/// Handles the interrupt of a channel, given the status of the controller and the control register
/// of the channel. Half of a transfer has the error flag of the channel cleared. A completion has its
/// own flag cleared and is counted. Either wakes the task that waits for the channel.
pub fn on_irq(channel: DmaChannel, bus: &mut Bus, state: &mut ChannelState, sts: u32, ctrl: u32)
    ensures
        final(bus)@ == old(bus)@ + irq_actions(channel, sts, ctrl),
        final(state).complete_count == counted(channel, sts, ctrl, old(state).complete_count),
{
    let offset: u32 = channel.shift();
    let mut activity = false;
    if bits::has(sts, 4u32 << offset) && bits::has(ctrl, CTRL_HDTIEN) {
        bus.write(Register::DmaClr, 8u32 << offset);
        activity = true;
    }
    if bits::has(sts, 2u32 << offset) && bits::has(ctrl, CTRL_FDTIEN) {
        bus.write(Register::DmaClr, 2u32 << offset);
        state.complete_count = state.complete_count.wrapping_add(1);
        activity = true;
    }
    if !activity {
        return ;
    }
    bus.wake(Waiter::Dma1(channel));
}

fn prioritise(bus: &mut Bus, interrupt: Interrupt, priority: u8)
    ensures
        final(bus)@ == old(bus)@ + prioritise_actions(interrupt, priority),
{
    bus.post(Action::Prioritise { interrupt, priority });
    bus.post(Action::Unmask { interrupt });
}

/// The accesses that give an interrupt a priority and let it through.
pub open spec fn prioritise_actions(interrupt: Interrupt, priority: u8) -> Seq<Action> {
    seq![Action::Prioritise { interrupt, priority }, Action::Unmask { interrupt }]
}

/// The interrupts of both controllers, in the order in which they are set up.
pub open spec fn interrupts() -> Seq<Interrupt> {
    seq![
        Interrupt::Dma1(DmaChannel::Ch1),
        Interrupt::Dma1(DmaChannel::Ch2),
        Interrupt::Dma1(DmaChannel::Ch3),
        Interrupt::Dma1(DmaChannel::Ch4),
        Interrupt::Dma1(DmaChannel::Ch5),
        Interrupt::Dma1(DmaChannel::Ch6),
        Interrupt::Dma1(DmaChannel::Ch7),
        Interrupt::Dma2Channel1,
        Interrupt::Dma2Channel2,
        Interrupt::Dma2Channel3,
        Interrupt::Dma2Channel4To5,
        Interrupt::Dma2Channel4To5,
    ]
}

/// The accesses that set up the first interrupts of a list, all with the same priority.
pub open spec fn init_actions(interrupts: Seq<Interrupt>, priority: u8) -> Seq<Action>
    decreases interrupts.len(),
{
    if interrupts.len() == 0 {
        seq![]
    } else {
        init_actions(interrupts.drop_last(), priority) + prioritise_actions(
            interrupts.last(),
            priority,
        )
    }
}

/// Gives all interrupts of both controllers a priority and lets them through.
pub fn init(bus: &mut Bus, bdma_priority: u8)
    ensures
        final(bus)@ == old(bus)@ + init_actions(interrupts(), bdma_priority),
{
    let list: [Interrupt; 12] = [
        Interrupt::Dma1(DmaChannel::Ch1),
        Interrupt::Dma1(DmaChannel::Ch2),
        Interrupt::Dma1(DmaChannel::Ch3),
        Interrupt::Dma1(DmaChannel::Ch4),
        Interrupt::Dma1(DmaChannel::Ch5),
        Interrupt::Dma1(DmaChannel::Ch6),
        Interrupt::Dma1(DmaChannel::Ch7),
        Interrupt::Dma2Channel1,
        Interrupt::Dma2Channel2,
        Interrupt::Dma2Channel3,
        Interrupt::Dma2Channel4To5,
        Interrupt::Dma2Channel4To5,
    ];
    assert(list@ =~= interrupts());
    let mut i: usize = 0;
    while i < 12
        invariant
            i <= 12,
            list@ == interrupts(),
            bus@ == old(bus)@ + init_actions(list@.take(i as int), bdma_priority),
        decreases 12 - i,
    {
        prioritise(bus, list[i], bdma_priority);
        assert(list@.take(i + 1).drop_last() =~= list@.take(i as int));
        i = i + 1;
    }
    assert(list@.take(12) =~= list@);
}

/// DMA channel driver.
#[derive(Clone, Copy, Debug, PartialEq, Eq, Structural)]
pub struct Channel {
    /// The channel.
    pub channel: DmaChannel,
}

impl Channel {
    /// The driver of a channel.
    pub fn new<T: ChannelInstance>(ch: T) -> (channel: Self)
        ensures
            channel.channel == ch.instance(),
    {
        Channel { channel: ch.channel() }
    }

    /// Prepares the channel for a transfer.
    pub fn configure(&self, bus: &mut Bus, state: &mut ChannelState, setup: &Setup)
        requires
            setup.wf(),
        ensures
            final(state).complete_count == 0,
            final(bus)@ == old(bus)@ + setup.actions(self.channel),
    {
        state.complete_count = 0;
        self.clear_irqs(bus);
        bus.write(Register::DmaPaddr(self.channel), setup.peri_addr);
        bus.write(Register::DmaMaddr(self.channel), setup.mem_addr);
        bus.write(Register::DmaDtcnt(self.channel), setup.mem_len as u32);
        let (minc, pinc) = match setup.increment {
            Increment::Neither => (false, false),
            Increment::Peripheral => (false, true),
            Increment::Memory => (true, false),
            Increment::Both => (true, true),
        };
        let from_memory = match setup.dir {
            Dir::MemoryToPeripheral => true,
            Dir::PeripheralToMemory => false,
            Dir::MemoryToMemory => true,
        };
        let options = setup.options;
        bus.write(
            Register::DmaCtrl(self.channel),
            bits::place(setup.peri_size.to_code(), 3, 8) | bits::place(
                setup.mem_size.to_code(),
                3,
                10,
            ) | bits::bits_if(minc, CTRL_MINCM) | bits::bits_if(pinc, CTRL_PINCM) | bits::bits_if(
                from_memory,
                CTRL_DTD,
            ) | CTRL_DTERRIEN | bits::bits_if(options.complete_transfer_ir, CTRL_FDTIEN)
                | bits::bits_if(options.half_transfer_ir, CTRL_HDTIEN) | bits::bits_if(
                options.circular,
                CTRL_LM,
            ) | bits::place(options.priority.to_code(), 3, 12),
        );
    }

    /// Enables the channel.
    pub fn start(&self, bus: &mut Bus)
        ensures
            final(bus)@ == old(bus)@.push(start_action(self.channel)),
    {
        bus.modify(Register::DmaCtrl(self.channel), 0, CTRL_CHEN);
    }

    /// Clears the flags of the channel.
    pub fn clear_irqs(&self, bus: &mut Bus)
        ensures
            final(bus)@ == old(bus)@.push(
                Action::Write { reg: Register::DmaClr, value: self.channel.flags() },
            ),
    {
        bus.write(Register::DmaClr, 0xeu32 << self.channel.shift());
    }

    /// Disables the channel and keeps its configuration.
    pub fn request_pause(&self, bus: &mut Bus)
        ensures
            final(bus)@ == old(bus)@.push(pause_action(self.channel)),
    {
        bus.modify(Register::DmaCtrl(self.channel), CTRL_CHEN, 0);
    }

    /// Enables the channel again.
    pub fn request_resume(&self, bus: &mut Bus)
        ensures
            final(bus)@ == old(bus)@.push(start_action(self.channel)),
    {
        self.start(bus);
    }

    /// Disables the channel and drops its configuration, and waits until the transfer no longer runs.
    pub fn request_reset(&self, bus: &mut Bus)
        ensures
            final(bus)@ == old(bus)@ + reset_actions(self.channel),
    {
        bus.write(Register::DmaCtrl(self.channel), CTRL_DTERRIEN | CTRL_FDTIEN);
        bus.post(Action::WaitStopped { channel: self.channel });
    }

    /// Tells from the control register whether the transfer runs.
    pub fn is_running(&self, state: &ChannelState, ctrl: u32) -> (runs: bool)
        ensures
            runs == running(ctrl, *state),
    {
        let en = bits::has(ctrl, CTRL_CHEN);
        let circular = bits::has(ctrl, CTRL_LM);
        let tcif = state.complete_count != 0;
        en && (circular || !tcif)
    }

    /// The number of words that are left to transfer, from the counter of the channel.
    pub fn get_remaining_transfers(&self, dtcnt: u16) -> (remaining: u32)
        ensures
            remaining == dtcnt,
    {
        dtcnt as u32
    }

    /// Leaves circular mode.
    pub fn disable_circular_mode(&self, bus: &mut Bus)
        ensures
            final(bus)@ == old(bus)@.push(
                Action::Modify { reg: Register::DmaCtrl(self.channel), clear: CTRL_LM, set: 0 },
            ),
    {
        bus.modify(Register::DmaCtrl(self.channel), CTRL_LM, 0);
    }

    /// Tells from the control register whether the transfer has stopped.
    pub fn poll_stop(&self, state: &ChannelState, ctrl: u32) -> (stopped: bool)
        ensures
            stopped == !running(ctrl, *state),
    {
        !self.is_running(state, ctrl)
    }

    fn begin(&self, bus: &mut Bus, state: &mut ChannelState, setup: &Setup) -> (transfer: Transfer)
        requires
            setup.wf(),
        ensures
            final(state).complete_count == 0,
            final(bus)@ == old(bus)@ + setup.actions(self.channel).push(start_action(self.channel)),
            transfer.channel == *self,
    {
        self.configure(bus, state, setup);
        self.start(bus);
        Transfer { channel: *self }
    }

    /// Starts a transfer from memory to memory.
    ///
    /// The channel takes the source for its peripheral. Nevertheless `mem_size` is the size of the
    /// words of the source, and `peri_size` that of the words of the destination.
    pub fn transfer(
        &mut self,
        bus: &mut Bus,
        state: &mut ChannelState,
        buf: (u32, usize),
        dest_addr: u32,
        mem_size: WordSize,
        peri_size: WordSize,
        options: TransferOptions,
    ) -> (transfer: Transfer)
        requires
            memory_setup(buf, dest_addr, mem_size, peri_size, options).wf(),
        ensures
            *final(self) == *old(self),
            begun(
                *old(self),
                memory_setup(buf, dest_addr, mem_size, peri_size, options),
                *final(state),
                transfer,
                old(bus)@,
                final(bus)@,
            ),
    {
        self.transfer_raw(bus, state, buf.0, buf.1, dest_addr, mem_size, peri_size, options)
    }

    /// Starts a transfer from memory to memory, with the source given by its address and length.
    ///
    /// The channel takes the source for its peripheral. Nevertheless `mem_size` is the size of the
    /// words of the source, and `peri_size` that of the words of the destination.
    pub fn transfer_raw(
        &mut self,
        bus: &mut Bus,
        state: &mut ChannelState,
        src_addr: u32,
        src_size: usize,
        dest_addr: u32,
        mem_size: WordSize,
        peri_size: WordSize,
        options: TransferOptions,
    ) -> (transfer: Transfer)
        requires
            memory_setup((src_addr, src_size), dest_addr, mem_size, peri_size, options).wf(),
        ensures
            *final(self) == *old(self),
            begun(
                *old(self),
                memory_setup((src_addr, src_size), dest_addr, mem_size, peri_size, options),
                *final(state),
                transfer,
                old(bus)@,
                final(bus)@,
            ),
    {
        self.begin(
            bus,
            state,
            &Setup {
                dir: Dir::MemoryToMemory,
                peri_addr: src_addr,
                mem_addr: dest_addr,
                mem_len: src_size,
                increment: Increment::Both,
                mem_size,
                peri_size,
                options,
            },
        )
    }

    /// Starts a transfer from a peripheral to memory, with words of one size.
    pub fn read(
        &mut self,
        bus: &mut Bus,
        state: &mut ChannelState,
        peri_addr: u32,
        buf: (u32, usize),
        size: WordSize,
        options: TransferOptions,
    ) -> (transfer: Transfer)
        requires
            read_setup(peri_addr, buf, size, size, options).wf(),
        ensures
            *final(self) == *old(self),
            begun(
                *old(self),
                read_setup(peri_addr, buf, size, size, options),
                *final(state),
                transfer,
                old(bus)@,
                final(bus)@,
            ),
    {
        self.read_raw(bus, state, peri_addr, buf, size, size, options)
    }

    /// Starts a transfer from a peripheral to memory.
    pub fn read_raw(
        &mut self,
        bus: &mut Bus,
        state: &mut ChannelState,
        peri_addr: u32,
        buf: (u32, usize),
        mem_size: WordSize,
        peri_size: WordSize,
        options: TransferOptions,
    ) -> (transfer: Transfer)
        requires
            read_setup(peri_addr, buf, mem_size, peri_size, options).wf(),
        ensures
            *final(self) == *old(self),
            begun(
                *old(self),
                read_setup(peri_addr, buf, mem_size, peri_size, options),
                *final(state),
                transfer,
                old(bus)@,
                final(bus)@,
            ),
    {
        self.begin(
            bus,
            state,
            &Setup {
                dir: Dir::PeripheralToMemory,
                peri_addr,
                mem_addr: buf.0,
                mem_len: buf.1,
                increment: Increment::Memory,
                mem_size,
                peri_size,
                options,
            },
        )
    }

    /// Starts a transfer from memory to a peripheral.
    pub fn write(
        &mut self,
        bus: &mut Bus,
        state: &mut ChannelState,
        buf: (u32, usize),
        peri_addr: u32,
        mem_size: WordSize,
        peri_size: WordSize,
        options: TransferOptions,
    ) -> (transfer: Transfer)
        requires
            write_setup(buf, peri_addr, mem_size, peri_size, options).wf(),
        ensures
            *final(self) == *old(self),
            begun(
                *old(self),
                write_setup(buf, peri_addr, mem_size, peri_size, options),
                *final(state),
                transfer,
                old(bus)@,
                final(bus)@,
            ),
    {
        self.write_raw(bus, state, buf, peri_addr, mem_size, peri_size, options)
    }

    /// Starts a transfer from memory to a peripheral, given by its address and length.
    pub fn write_raw(
        &mut self,
        bus: &mut Bus,
        state: &mut ChannelState,
        buf: (u32, usize),
        peri_addr: u32,
        mem_size: WordSize,
        peri_size: WordSize,
        options: TransferOptions,
    ) -> (transfer: Transfer)
        requires
            write_setup(buf, peri_addr, mem_size, peri_size, options).wf(),
        ensures
            *final(self) == *old(self),
            begun(
                *old(self),
                write_setup(buf, peri_addr, mem_size, peri_size, options),
                *final(state),
                transfer,
                old(bus)@,
                final(bus)@,
            ),
    {
        self.begin(
            bus,
            state,
            &Setup {
                dir: Dir::MemoryToPeripheral,
                peri_addr,
                mem_addr: buf.0,
                mem_len: buf.1,
                increment: Increment::Memory,
                mem_size,
                peri_size,
                options,
            },
        )
    }

    /// Starts a transfer that writes one word at `repeated` to a peripheral, again and again.
    pub fn write_repeated(
        &mut self,
        bus: &mut Bus,
        state: &mut ChannelState,
        repeated: u32,
        count: usize,
        peri_addr: u32,
        size: WordSize,
        options: TransferOptions,
    ) -> (transfer: Transfer)
        requires
            repeated_setup(repeated, count, peri_addr, size, options).wf(),
        ensures
            *final(self) == *old(self),
            begun(
                *old(self),
                repeated_setup(repeated, count, peri_addr, size, options),
                *final(state),
                transfer,
                old(bus)@,
                final(bus)@,
            ),
    {
        self.begin(
            bus,
            state,
            &Setup {
                dir: Dir::MemoryToPeripheral,
                peri_addr,
                mem_addr: repeated,
                mem_len: count,
                increment: Increment::Neither,
                mem_size: size,
                peri_size: size,
                options,
            },
        )
    }
}

/// Whether a transfer was prepared and started on a channel.
pub open spec fn begun(
    channel: Channel,
    setup: Setup,
    state: ChannelState,
    transfer: Transfer,
    before: Seq<Action>,
    after: Seq<Action>,
) -> bool {
    &&& state.complete_count == 0
    &&& transfer.channel == channel
    &&& after == before + setup.actions(channel.channel).push(start_action(channel.channel))
}

/// A transfer from memory to memory: `mem_size` belongs to the source, `peri_size` to the
/// destination.
pub open spec fn memory_setup(
    buf: (u32, usize),
    dest_addr: u32,
    mem_size: WordSize,
    peri_size: WordSize,
    options: TransferOptions,
) -> Setup {
    Setup {
        dir: Dir::MemoryToMemory,
        peri_addr: buf.0,
        mem_addr: dest_addr,
        mem_len: buf.1,
        increment: Increment::Both,
        mem_size,
        peri_size,
        options,
    }
}

/// A transfer from a peripheral to memory.
pub open spec fn read_setup(
    peri_addr: u32,
    buf: (u32, usize),
    mem_size: WordSize,
    peri_size: WordSize,
    options: TransferOptions,
) -> Setup {
    Setup {
        dir: Dir::PeripheralToMemory,
        peri_addr,
        mem_addr: buf.0,
        mem_len: buf.1,
        increment: Increment::Memory,
        mem_size,
        peri_size,
        options,
    }
}

/// A transfer from memory to a peripheral.
pub open spec fn write_setup(
    buf: (u32, usize),
    peri_addr: u32,
    mem_size: WordSize,
    peri_size: WordSize,
    options: TransferOptions,
) -> Setup {
    Setup {
        dir: Dir::MemoryToPeripheral,
        peri_addr,
        mem_addr: buf.0,
        mem_len: buf.1,
        increment: Increment::Memory,
        mem_size,
        peri_size,
        options,
    }
}

/// A transfer that writes one word again and again.
pub open spec fn repeated_setup(
    repeated: u32,
    count: usize,
    peri_addr: u32,
    size: WordSize,
    options: TransferOptions,
) -> Setup {
    Setup {
        dir: Dir::MemoryToPeripheral,
        peri_addr,
        mem_addr: repeated,
        mem_len: count,
        increment: Increment::Neither,
        mem_size: size,
        peri_size: size,
        options,
    }
}

/// A transfer that was started.
pub struct Transfer {
    /// The channel that performs it.
    pub channel: Channel,
}

impl Transfer {
    /// Asks the transfer to pause and keeps its configuration.
    ///
    /// It may go on for a moment; see [`Transfer::is_running`].
    pub fn request_pause(&mut self, bus: &mut Bus)
        ensures
            *final(self) == *old(self),
            final(bus)@ == old(bus)@.push(pause_action(old(self).channel.channel)),
    {
        self.channel.request_pause(bus);
    }

    /// Asks the transfer to resume after a pause.
    pub fn request_resume(&mut self, bus: &mut Bus)
        ensures
            *final(self) == *old(self),
            final(bus)@ == old(bus)@.push(start_action(old(self).channel.channel)),
    {
        self.channel.request_resume(bus);
    }

    /// Stops the transfer and drops its configuration.
    pub fn request_reset(&mut self, bus: &mut Bus)
        ensures
            *final(self) == *old(self),
            final(bus)@ == old(bus)@ + reset_actions(old(self).channel.channel),
    {
        self.channel.request_reset(bus);
    }

    /// Tells from the control register whether the transfer runs: it does not once it is complete
    /// or was paused.
    pub fn is_running(&mut self, state: &ChannelState, ctrl: u32) -> (runs: bool)
        ensures
            *final(self) == *old(self),
            runs == running(ctrl, *state),
    {
        self.channel.is_running(state, ctrl)
    }

    /// The number of words that are left to transfer, from the counter of the channel.
    pub fn get_remaining_transfers(&self, dtcnt: u16) -> (remaining: u32)
        ensures
            remaining == dtcnt,
    {
        self.channel.get_remaining_transfers(dtcnt)
    }

    /// Waits for the end of the transfer: hands it back as long as it runs.
    pub fn blocking_wait(self, state: &ChannelState, ctrl: u32) -> (waiting: Option<Transfer>)
        ensures
            waiting == if running(ctrl, *state) {
                Some(self)
            } else {
                None
            },
    {
        let mut transfer = self;
        if transfer.is_running(state, ctrl) {
            Some(transfer)
        } else {
            None
        }
    }

    /// Tells from the control register whether the transfer is over, for a task that waits for it.
    pub fn poll(&mut self, state: &ChannelState, ctrl: u32) -> (ready: bool)
        ensures
            *final(self) == *old(self),
            ready == !running(ctrl, *state),
    {
        !self.is_running(state, ctrl)
    }

    /// Gives the channel back; the transfer is stopped first.
    pub fn release(self, bus: &mut Bus) -> (channel: Channel)
        ensures
            channel == self.channel,
            final(bus)@ == old(bus)@ + reset_actions(self.channel.channel),
    {
        self.channel.request_reset(bus);
        self.channel
    }
}

} // verus!
