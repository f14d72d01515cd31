//! What holds of DMA transfers as a whole.
use crate::bits;
use crate::bus;
use crate::bus::{Action, Interrupt, Register, Waiter};
use crate::dma;
use crate::dma::{Channel, ChannelState, Dir, DmaChannel, Increment, Setup, TransferOptions, WordSize};
use crate::dma::ring;
use vstd::prelude::*;

verus! {

proof fn lemma_control_fields(
    psize: u32,
    msize: u32,
    minc: bool,
    pinc: bool,
    from_memory: bool,
    tcie: bool,
    htie: bool,
    circ: bool,
    pl: u32,
)
    by (bit_vector)
    requires
        psize <= 3,
        msize <= 3,
        pl <= 3,
    ensures
        ({
            let word = bits::placed(psize, 3, 8) | bits::placed(msize, 3, 10) | bits::when(
                minc,
                dma::CTRL_MINCM,
            ) | bits::when(pinc, dma::CTRL_PINCM) | bits::when(from_memory, dma::CTRL_DTD)
                | dma::CTRL_DTERRIEN | bits::when(tcie, dma::CTRL_FDTIEN) | bits::when(
                htie,
                dma::CTRL_HDTIEN,
            ) | bits::when(circ, dma::CTRL_LM) | bits::placed(pl, 3, 12);
            &&& bits::field(word, 3, 8) == psize
            &&& bits::field(word, 3, 10) == msize
            &&& bits::field(word, 3, 12) == pl
            &&& bits::any_set(word, dma::CTRL_MINCM) == minc
            &&& bits::any_set(word, dma::CTRL_PINCM) == pinc
            &&& bits::any_set(word, dma::CTRL_DTD) == from_memory
            &&& bits::any_set(word, dma::CTRL_FDTIEN) == tcie
            &&& bits::any_set(word, dma::CTRL_HDTIEN) == htie
            &&& bits::any_set(word, dma::CTRL_LM) == circ
            &&& bits::any_set(word, dma::CTRL_DTERRIEN)
            &&& !bits::any_set(word, dma::CTRL_CHEN)
            &&& bits::any_set(bits::modified(word, 0, dma::CTRL_CHEN), dma::CTRL_CHEN)
            &&& bits::any_set(bits::modified(word, 0, dma::CTRL_CHEN), dma::CTRL_LM) == circ
            &&& bits::any_set(bits::modified(word, 0, dma::CTRL_CHEN), dma::CTRL_FDTIEN) == tcie
            &&& bits::any_set(bits::modified(word, 0, dma::CTRL_CHEN), dma::CTRL_HDTIEN) == htie
            &&& bits::any_set(bits::modified(word, 0, dma::CTRL_CHEN), dma::CTRL_MINCM) == minc
            &&& bits::any_set(bits::modified(word, 0, dma::CTRL_CHEN), dma::CTRL_PINCM) == pinc
            &&& bits::any_set(bits::modified(word, 0, dma::CTRL_CHEN), dma::CTRL_DTD) == from_memory
            &&& bits::field(bits::modified(word, 0, dma::CTRL_CHEN), 3, 8) == psize
            &&& bits::field(bits::modified(word, 0, dma::CTRL_CHEN), 3, 10) == msize
            &&& bits::field(bits::modified(word, 0, dma::CTRL_CHEN), 3, 12) == pl
            &&& bits::modified(word, 0, dma::CTRL_CHEN) & !0x3fffu32 == 0
        }),
{
}

/// The control word of a transfer says what was asked for: sizes, increments, direction, interrupts,
/// mode and priority; and it leaves the channel disabled.
pub proof fn law_control_word_reads_back(setup: Setup)
    requires
        setup.wf(),
    ensures
        ({
            let word = setup.control();
            &&& bits::field(word, 3, 8) == setup.peri_size.code()
            &&& bits::field(word, 3, 10) == setup.mem_size.code()
            &&& bits::field(word, 3, 12) == setup.options.priority.code()
            &&& bits::any_set(word, dma::CTRL_MINCM) == (setup.increment == Increment::Memory
                || setup.increment == Increment::Both)
            &&& bits::any_set(word, dma::CTRL_PINCM) == (setup.increment == Increment::Peripheral
                || setup.increment == Increment::Both)
            &&& bits::any_set(word, dma::CTRL_DTD) == (setup.dir != Dir::PeripheralToMemory)
            &&& bits::any_set(word, dma::CTRL_FDTIEN) == setup.options.complete_transfer_ir
            &&& bits::any_set(word, dma::CTRL_HDTIEN) == setup.options.half_transfer_ir
            &&& bits::any_set(word, dma::CTRL_LM) == setup.options.circular
            &&& bits::any_set(word, dma::CTRL_DTERRIEN)
            &&& !bits::any_set(word, dma::CTRL_CHEN)
        }),
{
    lemma_setup(setup);
}

proof fn lemma_setup(setup: Setup)
    ensures
        ({
            let word = setup.control();
            let started = bits::modified(word, 0, dma::CTRL_CHEN);
            &&& bits::field(word, 3, 8) == setup.peri_size.code()
            &&& bits::field(word, 3, 10) == setup.mem_size.code()
            &&& bits::field(word, 3, 12) == setup.options.priority.code()
            &&& bits::any_set(word, dma::CTRL_MINCM) == (setup.increment == Increment::Memory
                || setup.increment == Increment::Both)
            &&& bits::any_set(word, dma::CTRL_PINCM) == (setup.increment == Increment::Peripheral
                || setup.increment == Increment::Both)
            &&& bits::any_set(word, dma::CTRL_DTD) == (setup.dir != Dir::PeripheralToMemory)
            &&& bits::any_set(word, dma::CTRL_FDTIEN) == setup.options.complete_transfer_ir
            &&& bits::any_set(word, dma::CTRL_HDTIEN) == setup.options.half_transfer_ir
            &&& bits::any_set(word, dma::CTRL_LM) == setup.options.circular
            &&& bits::any_set(word, dma::CTRL_DTERRIEN)
            &&& !bits::any_set(word, dma::CTRL_CHEN)
            &&& bits::any_set(started, dma::CTRL_CHEN)
            &&& bits::any_set(started, dma::CTRL_LM) == setup.options.circular
            &&& bits::any_set(started, dma::CTRL_FDTIEN) == setup.options.complete_transfer_ir
            &&& bits::any_set(started, dma::CTRL_HDTIEN) == setup.options.half_transfer_ir
            &&& bits::any_set(started, dma::CTRL_MINCM) == (setup.increment == Increment::Memory
                || setup.increment == Increment::Both)
            &&& bits::any_set(started, dma::CTRL_PINCM) == (setup.increment == Increment::Peripheral
                || setup.increment == Increment::Both)
            &&& bits::any_set(started, dma::CTRL_DTD) == (setup.dir != Dir::PeripheralToMemory)
            &&& bits::field(started, 3, 8) == setup.peri_size.code()
            &&& bits::field(started, 3, 10) == setup.mem_size.code()
            &&& bits::field(started, 3, 12) == setup.options.priority.code()
            &&& started & !0x3fffu32 == 0
        }),
{
    lemma_control_fields(
        setup.peri_size.code(),
        setup.mem_size.code(),
        setup.increment == Increment::Memory || setup.increment == Increment::Both,
        setup.increment == Increment::Peripheral || setup.increment == Increment::Both,
        setup.dir != Dir::PeripheralToMemory,
        setup.options.complete_transfer_ir,
        setup.options.half_transfer_ir,
        setup.options.circular,
        setup.options.priority.code(),
    );
}

proof fn lemma_started_control(setup: Setup, channel: DmaChannel, ctrl: u32)
    ensures
        bus::replayed(
            setup.actions(channel).push(dma::start_action(channel)),
            Register::DmaCtrl(channel),
            ctrl,
        ) == bits::modified(setup.control(), 0, dma::CTRL_CHEN),
{
    reveal_with_fuel(bus::replayed, 3);
    let actions = setup.actions(channel).push(dma::start_action(channel));
    assert(actions.drop_last() == setup.actions(channel));
    assert(setup.actions(channel).last() == (Action::Write {
        reg: Register::DmaCtrl(channel),
        value: setup.control(),
    }));
}

/// A transfer that was started runs until it is completed, or until it is stopped if it is circular.
pub proof fn law_started_transfer_runs(setup: Setup, channel: DmaChannel, ctrl: u32, count: usize)
    requires
        setup.wf(),
    ensures
        dma::running(
            bus::replayed(
                setup.actions(channel).push(dma::start_action(channel)),
                Register::DmaCtrl(channel),
                ctrl,
            ),
            ChannelState { complete_count: count },
        ) <==> setup.options.circular || count == 0,
{
    lemma_started_control(setup, channel, ctrl);
    lemma_setup(setup);
}

proof fn lemma_enable_bit(ctrl: u32)
    by (bit_vector)
    ensures
        ({
            let paused = bits::modified(ctrl, dma::CTRL_CHEN, 0);
            let resumed = bits::modified(paused, 0, dma::CTRL_CHEN);
            let stopped = bits::modified(ctrl, dma::CTRL_LM, 0);
            &&& !bits::any_set(paused, dma::CTRL_CHEN)
            &&& paused & !dma::CTRL_CHEN == ctrl & !dma::CTRL_CHEN
            &&& bits::any_set(ctrl, dma::CTRL_CHEN) ==> resumed == ctrl
            &&& !bits::any_set(stopped, dma::CTRL_LM)
            &&& stopped & !dma::CTRL_LM == ctrl & !dma::CTRL_LM
            &&& bits::any_set(stopped, dma::CTRL_CHEN) == bits::any_set(ctrl, dma::CTRL_CHEN)
        }),
        !bits::any_set(dma::CTRL_DTERRIEN | dma::CTRL_FDTIEN, dma::CTRL_CHEN),
{
}

/// A pause stops a transfer and keeps its configuration, and to resume undoes it.
pub proof fn law_pause_keeps_the_configuration(channel: DmaChannel, ctrl: u32, state: ChannelState)
    requires
        bits::any_set(ctrl, dma::CTRL_CHEN),
    ensures
        ({
            let paused = bus::stored(dma::pause_action(channel), Register::DmaCtrl(channel), ctrl);
            let resumed = bus::stored(
                dma::start_action(channel),
                Register::DmaCtrl(channel),
                paused,
            );
            &&& !dma::running(paused, state)
            &&& paused & !dma::CTRL_CHEN == ctrl & !dma::CTRL_CHEN
            &&& resumed == ctrl
        }),
{
    lemma_enable_bit(ctrl);
}

/// A reset stops a transfer, whatever it was.
pub proof fn law_reset_stops(channel: DmaChannel, ctrl: u32, state: ChannelState)
    ensures
        !dma::running(
            bus::replayed(dma::reset_actions(channel), Register::DmaCtrl(channel), ctrl),
            state,
        ),
{
    reveal_with_fuel(bus::replayed, 3);
    let actions = dma::reset_actions(channel);
    assert(actions.drop_last() == seq![actions[0]]);
    lemma_enable_bit(ctrl);
}

/// A ring buffer runs through any number of completions. Once it was told to stop it runs only
/// until the next one, with the rest of its configuration unchanged.
pub proof fn law_ring_buffers_run_until_stopped(
    dir: Dir,
    peri_addr: u32,
    buffer: (u32, usize),
    size: WordSize,
    options: TransferOptions,
    channel: Channel,
    ctrl: u32,
    count: usize,
)
    requires
        ring::ring_setup(dir, peri_addr, buffer, size, options).wf(),
    ensures
        ({
            let setup = ring::ring_setup(dir, peri_addr, buffer, size, options);
            let reg = Register::DmaCtrl(channel.channel);
            let started = bus::replayed(
                setup.actions(channel.channel).push(dma::start_action(channel.channel)),
                reg,
                ctrl,
            );
            let stopping = bus::stored(ring::stop_action(channel), reg, started);
            let state = ChannelState { complete_count: count };
            &&& dma::running(started, state)
            &&& dma::running(stopping, state) <==> count == 0
            &&& stopping & !dma::CTRL_LM == started & !dma::CTRL_LM
        }),
{
    let setup = ring::ring_setup(dir, peri_addr, buffer, size, options);
    lemma_started_control(setup, channel.channel, ctrl);
    lemma_setup(setup);
    lemma_enable_bit(bits::modified(setup.control(), 0, dma::CTRL_CHEN));
}

proof fn lemma_flags(a: u32, b: u32)
    by (bit_vector)
    requires
        a == 0 || a == 4 || a == 8 || a == 12 || a == 16 || a == 20 || a == 24,
        b == 0 || b == 4 || b == 8 || b == 12 || b == 16 || b == 20 || b == 24,
        a != b,
    ensures
        (2u32 << a) & (0xfu32 << b) == 0,
        (8u32 << a) & (0xfu32 << b) == 0,
        (0xeu32 << a) & (0xfu32 << b) == 0,
{
}

/// A channel acknowledges no flag of another channel, neither when it is prepared for a transfer nor
/// when it is interrupted.
pub proof fn law_channels_leave_each_other_alone(
    channel: DmaChannel,
    other: DmaChannel,
    setup: Setup,
    sts: u32,
    ctrl: u32,
    i: int,
)
    requires
        channel != other,
    ensures
        0 <= i < dma::irq_actions(channel, sts, ctrl).len() ==> {
            dma::irq_actions(channel, sts, ctrl)[i] matches Action::Write { reg, value } ==> reg
                == Register::DmaClr && value & (0xfu32 << other.offset()) == 0
        },
        0 <= i < setup.actions(channel).len() ==> {
            setup.actions(channel)[i] matches Action::Write { reg, value } ==> reg
                == Register::DmaClr ==> value & (0xfu32 << other.offset()) == 0
        },
{
    lemma_flags(channel.offset(), other.offset());
}

proof fn lemma_flags_differ(a: u32, sts: u32)
    by (bit_vector)
    requires
        a == 0 || a == 4 || a == 8 || a == 12 || a == 16 || a == 20 || a == 24,
    ensures
        (2u32 << a) != (8u32 << a),
        sts & (2u32 << a) != 0 <==> (sts >> a) & 2 == 2,
        sts & (4u32 << a) != 0 <==> (sts >> a) & 4 == 4,
{
}

/// The place of the flags of a channel: four bits for each, the first channel lowest.
pub open spec fn flags_at(channel: DmaChannel) -> u32 {
    match channel {
        DmaChannel::Ch1 => 0,
        DmaChannel::Ch2 => 4,
        DmaChannel::Ch3 => 8,
        DmaChannel::Ch4 => 12,
        DmaChannel::Ch5 => 16,
        DmaChannel::Ch6 => 20,
        DmaChannel::Ch7 => 24,
    }
}

/// The interrupt of a channel wakes the task of that channel exactly if a completion is flagged and
/// interrupts, or half of a transfer is and does, whatever the other is. A completion has its flag
/// cleared and is counted; half of a transfer has the error flag cleared. Nothing else happens.
pub proof fn law_interrupt_wakes_the_task(channel: DmaChannel, sts: u32, ctrl: u32, count: usize)
    ensures
        ({
            let flags = sts >> flags_at(channel);
            let complete = flags & 2 == 2 && ctrl & 2 != 0;
            let half = flags & 4 == 4 && ctrl & 4 != 0;
            let actions = dma::irq_actions(channel, sts, ctrl);
            let wake = Action::Wake { waiter: Waiter::Dma1(channel) };
            let cleared = Action::Write {
                reg: Register::DmaClr,
                value: 2u32 << flags_at(channel),
            };
            let error = Action::Write { reg: Register::DmaClr, value: 8u32 << flags_at(channel) };
            &&& actions.contains(wake) <==> complete || half
            &&& actions.contains(cleared) <==> complete
            &&& actions.contains(error) <==> half
            &&& complete || half ==> actions.last() == wake
            &&& forall|i: int|
                0 <= i < actions.len() ==> #[trigger] actions[i] == wake || actions[i] == cleared
                    || actions[i] == error
            &&& actions.len() <= 3
            &&& complete && count < usize::MAX ==> dma::counted(channel, sts, ctrl, count) == count
                + 1
            &&& complete && count == usize::MAX ==> dma::counted(channel, sts, ctrl, count) == 0
            &&& !complete ==> dma::counted(channel, sts, ctrl, count) == count
        }),
{
    let offset = flags_at(channel);
    lemma_flags_differ(offset, sts);
    let flags = sts >> offset;
    let complete = flags & 2 == 2 && ctrl & 2 != 0;
    let half = flags & 4 == 4 && ctrl & 4 != 0;
    let actions = dma::irq_actions(channel, sts, ctrl);
    let wake = Action::Wake { waiter: Waiter::Dma1(channel) };
    let cleared = Action::Write { reg: Register::DmaClr, value: 2u32 << offset };
    let error = Action::Write { reg: Register::DmaClr, value: 8u32 << offset };
    if complete && half {
        assert(actions =~= seq![error, cleared, wake]);
        assert(actions[0] == error && actions[1] == cleared && actions[2] == wake);
    } else if complete {
        assert(actions =~= seq![cleared, wake]);
        assert(actions[0] == cleared && actions[1] == wake);
    } else if half {
        assert(actions =~= seq![error, wake]);
        assert(actions[0] == error && actions[1] == wake);
    } else {
        assert(actions =~= Seq::<Action>::empty());
    }
}

/// The task that waits for a transfer is woken at the events that its options name, and at no other: by
/// default at the completion and not at half. A transfer that is not circular no longer runs then.
pub proof fn law_started_transfer_wakes_its_task(
    setup: Setup,
    channel: DmaChannel,
    ctrl: u32,
    sts: u32,
)
    requires
        setup.wf(),
    ensures
        ({
            let started = bus::replayed(
                setup.actions(channel).push(dma::start_action(channel)),
                Register::DmaCtrl(channel),
                ctrl,
            );
            let flags = sts >> flags_at(channel);
            let wake = Action::Wake { waiter: Waiter::Dma1(channel) };
            let count = dma::counted(channel, sts, started, 0);
            &&& dma::irq_actions(channel, sts, started).contains(wake) <==> (flags & 2 == 2
                && setup.options.complete_transfer_ir) || (flags & 4 == 4
                && setup.options.half_transfer_ir)
            &&& flags & 2 == 2 && setup.options.complete_transfer_ir && !setup.options.circular
                ==> !dma::running(started, ChannelState { complete_count: count })
            &&& flags & 2 == 0 ==> dma::running(started, ChannelState { complete_count: count })
        }),
{
    let started = bits::modified(setup.control(), 0, dma::CTRL_CHEN);
    lemma_started_control(setup, channel, ctrl);
    lemma_setup(setup);
    law_interrupt_wakes_the_task(channel, sts, started, 0);
}

/// A transfer runs as long as its channel is enabled and it is circular or was not completed.
pub proof fn law_enabled_transfer_runs(ctrl: u32, count: usize)
    ensures
        dma::running(ctrl, ChannelState { complete_count: count }) <==> ctrl & 1 != 0 && (ctrl
            & 0x20 != 0 || count == 0),
{
}

/// What the registers of a channel hold once a transfer was started on it, and that those of another
/// channel are untouched.
pub open spec fn channel_holds(
    actions: Seq<Action>,
    channel: DmaChannel,
    other: DmaChannel,
    word: u32,
    peri_addr: u32,
    mem_addr: u32,
    len: usize,
) -> bool {
    &&& bus::replayed(actions, Register::DmaPaddr(channel), word) == peri_addr
    &&& bus::replayed(actions, Register::DmaMaddr(channel), word) == mem_addr
    &&& bus::replayed(actions, Register::DmaDtcnt(channel), word) == len
    &&& actions.last() == dma::start_action(channel)
    &&& other != channel ==> {
        &&& bus::leaves_alone(actions, Register::DmaPaddr(other))
        &&& bus::leaves_alone(actions, Register::DmaMaddr(other))
        &&& bus::leaves_alone(actions, Register::DmaDtcnt(other))
        &&& bus::leaves_alone(actions, Register::DmaCtrl(other))
    }
}

proof fn lemma_channel_holds(setup: Setup, channel: DmaChannel, other: DmaChannel, word: u32)
    requires
        setup.wf(),
    ensures
        channel_holds(
            setup.actions(channel).push(dma::start_action(channel)),
            channel,
            other,
            word,
            setup.peri_addr,
            setup.mem_addr,
            setup.mem_len,
        ),
{
    reveal_with_fuel(bus::replayed, 7);
    let prepared = setup.actions(channel);
    let actions = prepared.push(dma::start_action(channel));
    assert(actions.drop_last() =~= prepared);
    let a = prepared.drop_last();
    let b = a.drop_last();
    let c = b.drop_last();
    let d = c.drop_last();
    assert(a =~= seq![prepared[0], prepared[1], prepared[2], prepared[3]]);
    assert(b =~= seq![prepared[0], prepared[1], prepared[2]]);
    assert(c =~= seq![prepared[0], prepared[1]]);
    assert(d =~= seq![prepared[0]]);
}

/// Each transfer goes from where to where, and moves on, as it was asked to: of a transfer between
/// memories both addresses are incremented, of one with a peripheral that of the memory, of a repeated
/// one neither. Priority, mode and interrupts are those of the options.
pub proof fn law_transfers_go_where_they_should(
    buf: (u32, usize),
    addr: u32,
    mem_size: WordSize,
    peri_size: WordSize,
    options: TransferOptions,
    channel: DmaChannel,
    other: DmaChannel,
    word: u32,
)
    requires
        0 < buf.1 <= 0xffff,
        mem_size != WordSize::EightBytes,
        peri_size != WordSize::EightBytes,
    ensures
        ({
            let setup = dma::memory_setup(buf, addr, mem_size, peri_size, options);
            let actions = setup.actions(channel).push(dma::start_action(channel));
            let ctrl = bus::replayed(actions, Register::DmaCtrl(channel), word);
            &&& setup.wf()
            &&& channel_holds(actions, channel, other, word, buf.0, addr, buf.1)
            &&& ctrl & 0x80 != 0 && ctrl & 0x40 != 0 && ctrl & 0x10 != 0
            &&& control_holds(ctrl, mem_size, peri_size, options)
        }),
        ({
            let setup = dma::read_setup(addr, buf, mem_size, peri_size, options);
            let actions = setup.actions(channel).push(dma::start_action(channel));
            let ctrl = bus::replayed(actions, Register::DmaCtrl(channel), word);
            &&& setup.wf()
            &&& channel_holds(actions, channel, other, word, addr, buf.0, buf.1)
            &&& ctrl & 0x80 != 0 && ctrl & 0x40 == 0 && ctrl & 0x10 == 0
            &&& control_holds(ctrl, mem_size, peri_size, options)
        }),
        ({
            let setup = dma::write_setup(buf, addr, mem_size, peri_size, options);
            let actions = setup.actions(channel).push(dma::start_action(channel));
            let ctrl = bus::replayed(actions, Register::DmaCtrl(channel), word);
            &&& setup.wf()
            &&& channel_holds(actions, channel, other, word, addr, buf.0, buf.1)
            &&& ctrl & 0x80 != 0 && ctrl & 0x40 == 0 && ctrl & 0x10 != 0
            &&& control_holds(ctrl, mem_size, peri_size, options)
        }),
        ({
            let setup = dma::repeated_setup(buf.0, buf.1, addr, mem_size, options);
            let actions = setup.actions(channel).push(dma::start_action(channel));
            let ctrl = bus::replayed(actions, Register::DmaCtrl(channel), word);
            &&& setup.wf()
            &&& channel_holds(actions, channel, other, word, addr, buf.0, buf.1)
            &&& ctrl & 0x80 == 0 && ctrl & 0x40 == 0 && ctrl & 0x10 != 0
            &&& control_holds(ctrl, mem_size, mem_size, options)
        }),
{
    lemma_channel_control(
        dma::memory_setup(buf, addr, mem_size, peri_size, options),
        channel,
        other,
        word,
    );
    lemma_channel_control(
        dma::read_setup(addr, buf, mem_size, peri_size, options),
        channel,
        other,
        word,
    );
    lemma_channel_control(
        dma::write_setup(buf, addr, mem_size, peri_size, options),
        channel,
        other,
        word,
    );
    lemma_channel_control(
        dma::repeated_setup(buf.0, buf.1, addr, mem_size, options),
        channel,
        other,
        word,
    );
}

/// A ring buffer is filled from a peripheral, or emptied to one, in a circle, with interrupts at half
/// and full whatever the options say; of the options only the priority counts.
pub proof fn law_ring_transfers_go_in_circles(
    dir: Dir,
    addr: u32,
    buffer: (u32, usize),
    size: WordSize,
    options: TransferOptions,
    channel: DmaChannel,
    other: DmaChannel,
    word: u32,
)
    requires
        0 < buffer.1 <= 0xffff,
        size != WordSize::EightBytes,
    ensures
        ({
            let setup = ring::ring_setup(dir, addr, buffer, size, options);
            let actions = setup.actions(channel).push(dma::start_action(channel));
            let ctrl = bus::replayed(actions, Register::DmaCtrl(channel), word);
            &&& setup.wf()
            &&& channel_holds(actions, channel, other, word, addr, buffer.0, buffer.1)
            &&& ctrl & 0x80 != 0 && ctrl & 0x40 == 0
            &&& ctrl & 0x10 == 0 <==> dir == Dir::PeripheralToMemory
            &&& ctrl & 2 != 0 && ctrl & 4 != 0 && ctrl & 0x20 != 0
            &&& (ctrl >> 8) & 3 == size.code() && (ctrl >> 10) & 3 == size.code()
            &&& (ctrl >> 12) & 3 == options.priority.code()
        }),
{
    lemma_channel_control(
        ring::ring_setup(dir, addr, buffer, size, options),
        channel,
        other,
        word,
    );
}

/// Whether the control register of an enabled channel says what the options ask for, with words of
/// these sizes, and no bit beyond its fields is set.
pub open spec fn control_holds(
    ctrl: u32,
    mem_size: WordSize,
    peri_size: WordSize,
    options: TransferOptions,
) -> bool {
    &&& ctrl & 1 != 0
    &&& ctrl & 2 != 0 <==> options.complete_transfer_ir
    &&& ctrl & 4 != 0 <==> options.half_transfer_ir
    &&& ctrl & 0x20 != 0 <==> options.circular
    &&& (ctrl >> 8) & 3 == peri_size.code()
    &&& (ctrl >> 10) & 3 == mem_size.code()
    &&& (ctrl >> 12) & 3 == options.priority.code()
    &&& ctrl & !0x3fffu32 == 0
}

proof fn lemma_channel_control(setup: Setup, channel: DmaChannel, other: DmaChannel, word: u32)
    requires
        setup.wf(),
    ensures
        ({
            let actions = setup.actions(channel).push(dma::start_action(channel));
            let ctrl = bus::replayed(actions, Register::DmaCtrl(channel), word);
            &&& channel_holds(
                actions,
                channel,
                other,
                word,
                setup.peri_addr,
                setup.mem_addr,
                setup.mem_len,
            )
            &&& control_holds(ctrl, setup.mem_size, setup.peri_size, setup.options)
            &&& ctrl & 0x80 != 0 <==> setup.increment == Increment::Memory || setup.increment
                == Increment::Both
            &&& ctrl & 0x40 != 0 <==> setup.increment == Increment::Peripheral || setup.increment
                == Increment::Both
            &&& ctrl & 0x10 != 0 <==> setup.dir != Dir::PeripheralToMemory
        }),
{
    lemma_channel_holds(setup, channel, other, word);
    lemma_started_control(setup, channel, word);
    lemma_setup(setup);
}

/// Wider words have higher codes, and so have more urgent requests.
pub proof fn law_codes_are_ordered()
    ensures
        WordSize::OneByte.code() == 0,
        WordSize::TwoBytes.code() == 1,
        WordSize::FourBytes.code() == 2,
        dma::Priority::Low.code() == 0,
        dma::Priority::Medium.code() == 1,
        dma::Priority::High.code() == 2,
        dma::Priority::VeryHigh.code() == 3,
{
}

/// Every interrupt of a list is given the priority and then let through, in the order of the list.
pub proof fn law_interrupts_are_set_up_in_order(list: Seq<Interrupt>, priority: u8, i: int)
    requires
        0 <= i < list.len(),
    ensures
        dma::init_actions(list, priority).len() == 2 * list.len(),
        dma::init_actions(list, priority)[2 * i] == (Action::Prioritise {
            interrupt: list[i],
            priority,
        }),
        dma::init_actions(list, priority)[2 * i + 1] == (Action::Unmask { interrupt: list[i] }),
    decreases list.len(),
{
    let shorter = list.drop_last();
    if shorter.len() == 0 {
        assert(dma::init_actions(shorter, priority).len() == 0);
    } else if i < shorter.len() {
        law_interrupts_are_set_up_in_order(shorter, priority, i);
    } else {
        law_interrupts_are_set_up_in_order(shorter, priority, 0);
    }
}

/// Every channel of both controllers has its interrupt set up.
pub proof fn law_every_channel_is_set_up(channel: DmaChannel)
    ensures
        dma::interrupts().contains(Interrupt::Dma1(channel)),
        dma::interrupts().contains(Interrupt::Dma2Channel1),
        dma::interrupts().contains(Interrupt::Dma2Channel2),
        dma::interrupts().contains(Interrupt::Dma2Channel3),
        dma::interrupts().contains(Interrupt::Dma2Channel4To5),
{
    let list = dma::interrupts();
    assert(list[0] == Interrupt::Dma1(DmaChannel::Ch1));
    assert(list[1] == Interrupt::Dma1(DmaChannel::Ch2));
    assert(list[2] == Interrupt::Dma1(DmaChannel::Ch3));
    assert(list[3] == Interrupt::Dma1(DmaChannel::Ch4));
    assert(list[4] == Interrupt::Dma1(DmaChannel::Ch5));
    assert(list[5] == Interrupt::Dma1(DmaChannel::Ch6));
    assert(list[6] == Interrupt::Dma1(DmaChannel::Ch7));
    assert(list[7] == Interrupt::Dma2Channel1);
    assert(list[8] == Interrupt::Dma2Channel2);
    assert(list[9] == Interrupt::Dma2Channel3);
    assert(list[10] == Interrupt::Dma2Channel4To5);
}

/// A completion that is reported to the driver ends a transfer that is not circular.
pub proof fn law_completion_ends_the_transfer(
    channel: DmaChannel,
    sts: u32,
    ctrl: u32,
    before: ChannelState,
    after: ChannelState,
)
    requires
        dma::complete_reported(channel, sts, ctrl),
        before.complete_count < usize::MAX,
        after.complete_count == before.complete_count + 1,
    ensures
        dma::running(ctrl, after) <==> bits::any_set(ctrl, dma::CTRL_CHEN) && bits::any_set(
            ctrl,
            dma::CTRL_LM,
        ),
{
}

/// The flags of a channel, and that all of them are cleared before a transfer is prepared.
pub proof fn law_flags_of_a_channel(channel: DmaChannel, setup: Setup)
    ensures
        channel.complete_flag() == 2u32 << flags_at(channel),
        channel.half_flag() == 4u32 << flags_at(channel),
        channel.error_flag() == 8u32 << flags_at(channel),
        channel.flags() == 0xeu32 << flags_at(channel),
        setup.actions(channel)[0] == (Action::Write {
            reg: Register::DmaClr,
            value: 0xeu32 << flags_at(channel),
        }),
{
}

/// A reset leaves the channel disabled with the interrupts of errors and completions enabled, and then
/// waits for its transfer to stop; it touches no other channel.
pub proof fn law_reset_waits(channel: DmaChannel, other: DmaChannel, ctrl: u32)
    requires
        channel != other,
    ensures
        ({
            let actions = dma::reset_actions(channel);
            &&& bus::replayed(actions, Register::DmaCtrl(channel), ctrl) == 0x8u32 | 0x2u32
            &&& actions.last() == (Action::WaitStopped { channel })
            &&& bus::leaves_alone(actions, Register::DmaCtrl(other))
        }),
{
    reveal_with_fuel(bus::replayed, 3);
    let actions = dma::reset_actions(channel);
    assert(actions.drop_last() =~= seq![actions[0]]);
}

} // verus!
