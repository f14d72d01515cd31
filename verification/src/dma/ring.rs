//! Ring buffers that a channel fills or empties in circular mode.
//!
//! These are the drivers of the channel; the memory of the buffer is not theirs.
use crate::bus::{Action, Bus, Register};
use crate::dma;
use crate::dma::{Channel, ChannelState, Dir, Increment, Setup, TransferOptions, WordSize};
use vstd::prelude::*;

verus! {

/// The transfer that moves the data of a ring buffer: circular, with interrupts at half and full.
pub open spec fn ring_setup(
    dir: Dir,
    peri_addr: u32,
    buffer: (u32, usize),
    size: WordSize,
    options: TransferOptions,
) -> Setup {
    Setup {
        dir,
        peri_addr,
        mem_addr: buffer.0,
        mem_len: buffer.1,
        increment: Increment::Memory,
        mem_size: size,
        peri_size: size,
        options: TransferOptions {
            priority: options.priority,
            circular: true,
            half_transfer_ir: true,
            complete_transfer_ir: true,
        },
    }
}

fn configure_ring(
    channel: &Channel,
    bus: &mut Bus,
    state: &mut ChannelState,
    dir: Dir,
    peri_addr: u32,
    buffer: (u32, usize),
    size: WordSize,
    options: TransferOptions,
)
    requires
        ring_setup(dir, peri_addr, buffer, size, options).wf(),
    ensures
        final(state).complete_count == 0,
        final(bus)@ == old(bus)@ + ring_setup(dir, peri_addr, buffer, size, options).actions(
            channel.channel,
        ),
{
    let mut options = options;
    options.half_transfer_ir = true;
    options.complete_transfer_ir = true;
    options.circular = true;
    channel.configure(
        bus,
        state,
        &Setup {
            dir,
            peri_addr,
            mem_addr: buffer.0,
            mem_len: buffer.1,
            increment: Increment::Memory,
            mem_size: size,
            peri_size: size,
            options,
        },
    );
}

/// What a ring buffer asks of the channel that serves it.
pub struct DmaCtrlImpl(pub Channel);

impl DmaCtrlImpl {
    /// The number of words until the channel starts again at the beginning of the buffer.
    pub fn get_remaining_transfers(&self, dtcnt: u16) -> (remaining: usize)
        ensures
            remaining == dtcnt,
    {
        self.0.get_remaining_transfers(dtcnt) as usize
    }

    /// How often the channel started again since this was asked last.
    pub fn reset_complete_count(&mut self, state: &mut ChannelState) -> (count: usize)
        ensures
            *final(self) == *old(self),
            count == old(state).complete_count,
            final(state).complete_count == 0,
    {
        let count: usize = state.complete_count;
        state.complete_count = 0;
        count
    }
}

/// Ring buffer for receiving data.
pub struct ReadableRingBuffer {
    /// The channel that fills the buffer.
    pub channel: Channel,
    /// The number of words in the buffer.
    pub cap: usize,
}

impl ReadableRingBuffer {
    /// Prepares a channel for filling a buffer, given by its address and length, from a peripheral.
    pub fn new(
        channel: Channel,
        bus: &mut Bus,
        state: &mut ChannelState,
        peri_addr: u32,
        buffer: (u32, usize),
        size: WordSize,
        options: TransferOptions,
    ) -> (ring: Self)
        requires
            ring_setup(Dir::PeripheralToMemory, peri_addr, buffer, size, options).wf(),
        ensures
            ring.channel == channel,
            ring.cap == buffer.1,
            final(state).complete_count == 0,
            final(bus)@ == old(bus)@ + ring_setup(
                Dir::PeripheralToMemory,
                peri_addr,
                buffer,
                size,
                options,
            ).actions(channel.channel),
    {
        configure_ring(
            &channel,
            bus,
            state,
            Dir::PeripheralToMemory,
            peri_addr,
            buffer,
            size,
            options,
        );
        ReadableRingBuffer { channel, cap: buffer.1 }
    }

    /// Starts to fill the buffer.
    pub fn start(&mut self, bus: &mut Bus)
        ensures
            *final(self) == *old(self),
            final(bus)@ == old(bus)@.push(dma::start_action(old(self).channel.channel)),
    {
        self.channel.start(bus);
    }

    /// The number of words that the buffer can hold.
    pub fn capacity(&self) -> (capacity: usize)
        ensures
            capacity == self.cap,
    {
        self.cap
    }

    /// Asks the transfer to pause and keeps its configuration.
    pub fn request_pause(&mut self, bus: &mut Bus)
        ensures
            *final(self) == *old(self),
            final(bus)@ == old(bus)@.push(dma::pause_action(old(self).channel.channel)),
    {
        self.channel.request_pause(bus);
    }

    /// Asks the transfer to resume after a pause.
    pub fn request_resume(&mut self, bus: &mut Bus)
        ensures
            *final(self) == *old(self),
            final(bus)@ == old(bus)@.push(dma::start_action(old(self).channel.channel)),
    {
        self.channel.request_resume(bus);
    }

    /// Stops the transfer and drops its configuration.
    pub fn request_reset(&mut self, bus: &mut Bus)
        ensures
            *final(self) == *old(self),
            final(bus)@ == old(bus)@ + dma::reset_actions(old(self).channel.channel),
    {
        self.channel.request_reset(bus);
    }

    /// Tells from the control register whether the transfer runs.
    pub fn is_running(&mut self, state: &ChannelState, ctrl: u32) -> (runs: bool)
        ensures
            *final(self) == *old(self),
            runs == dma::running(ctrl, *state),
    {
        self.channel.is_running(state, ctrl)
    }

    /// Has the transfer stop when the buffer is full. To be completed by
    /// [`ReadableRingBuffer::poll_stop`].
    pub fn stop(&mut self, bus: &mut Bus)
        ensures
            *final(self) == *old(self),
            final(bus)@ == old(bus)@.push(stop_action(old(self).channel)),
    {
        self.channel.disable_circular_mode(bus);
    }

    /// Tells from the control register whether the transfer has stopped.
    pub fn poll_stop(&self, state: &ChannelState, ctrl: u32) -> (stopped: bool)
        ensures
            stopped == !dma::running(ctrl, *state),
    {
        self.channel.poll_stop(state, ctrl)
    }

    /// Gives the channel back; the transfer is stopped first.
    pub fn release(self, bus: &mut Bus) -> (channel: Channel)
        ensures
            channel == self.channel,
            final(bus)@ == old(bus)@ + dma::reset_actions(self.channel.channel),
    {
        self.channel.request_reset(bus);
        self.channel
    }
}

/// The access that has a circular transfer stop at the end of the buffer.
pub open spec fn stop_action(channel: Channel) -> Action {
    Action::Modify { reg: Register::DmaCtrl(channel.channel), clear: dma::CTRL_LM, set: 0 }
}

/// Ring buffer for sending data.
pub struct WritableRingBuffer {
    /// The channel that empties the buffer.
    pub channel: Channel,
    /// The number of words in the buffer.
    pub cap: usize,
}

impl WritableRingBuffer {
    /// Prepares a channel for emptying a buffer, given by its address and length, to a peripheral.
    pub fn new(
        channel: Channel,
        bus: &mut Bus,
        state: &mut ChannelState,
        peri_addr: u32,
        buffer: (u32, usize),
        size: WordSize,
        options: TransferOptions,
    ) -> (ring: Self)
        requires
            ring_setup(Dir::MemoryToPeripheral, peri_addr, buffer, size, options).wf(),
        ensures
            ring.channel == channel,
            ring.cap == buffer.1,
            final(state).complete_count == 0,
            final(bus)@ == old(bus)@ + ring_setup(
                Dir::MemoryToPeripheral,
                peri_addr,
                buffer,
                size,
                options,
            ).actions(channel.channel),
    {
        configure_ring(
            &channel,
            bus,
            state,
            Dir::MemoryToPeripheral,
            peri_addr,
            buffer,
            size,
            options,
        );
        WritableRingBuffer { channel, cap: buffer.1 }
    }

    /// Starts to empty the buffer.
    pub fn start(&mut self, bus: &mut Bus)
        ensures
            *final(self) == *old(self),
            final(bus)@ == old(bus)@.push(dma::start_action(old(self).channel.channel)),
    {
        self.channel.start(bus);
    }

    /// The number of words that the buffer can hold.
    pub fn capacity(&self) -> (capacity: usize)
        ensures
            capacity == self.cap,
    {
        self.cap
    }

    /// Stops the transfer and drops its configuration.
    pub fn request_reset(&mut self, bus: &mut Bus)
        ensures
            *final(self) == *old(self),
            final(bus)@ == old(bus)@ + dma::reset_actions(old(self).channel.channel),
    {
        self.channel.request_reset(bus);
    }

    /// Asks the transfer to pause and keeps its configuration.
    pub fn request_pause(&mut self, bus: &mut Bus)
        ensures
            *final(self) == *old(self),
            final(bus)@ == old(bus)@.push(dma::pause_action(old(self).channel.channel)),
    {
        self.channel.request_pause(bus);
    }

    /// Tells from the control register whether the transfer runs.
    pub fn is_running(&mut self, state: &ChannelState, ctrl: u32) -> (runs: bool)
        ensures
            *final(self) == *old(self),
            runs == dma::running(ctrl, *state),
    {
        self.channel.is_running(state, ctrl)
    }

    /// Has the transfer stop when the buffer is empty. To be completed by
    /// [`WritableRingBuffer::poll_stop`].
    pub fn stop(&mut self, bus: &mut Bus)
        ensures
            *final(self) == *old(self),
            final(bus)@ == old(bus)@.push(stop_action(old(self).channel)),
    {
        self.channel.disable_circular_mode(bus);
    }

    /// Tells from the control register whether the transfer has stopped.
    pub fn poll_stop(&self, state: &ChannelState, ctrl: u32) -> (stopped: bool)
        ensures
            stopped == !dma::running(ctrl, *state),
    {
        self.channel.poll_stop(state, ctrl)
    }

    /// Gives the channel back; the transfer is stopped first.
    pub fn release(self, bus: &mut Bus) -> (channel: Channel)
        ensures
            channel == self.channel,
            final(bus)@ == old(bus)@ + dma::reset_actions(self.channel.channel),
    {
        self.channel.request_reset(bus);
        self.channel
    }
}

} // verus!
