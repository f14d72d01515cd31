use at32f4xx_hal::bus::{Action, Bus, Interrupt, Register, Waiter};
use at32f4xx_hal::dma::ring::{DmaCtrlImpl, ReadableRingBuffer, WritableRingBuffer};
use at32f4xx_hal::dma::{
    init, on_irq, Channel, ChannelState, Dir, DmaChannel, Increment, Priority, Setup,
    TransferOptions, WordSize,
};

const CH3: DmaChannel = DmaChannel::Ch3;

fn write(reg: Register, value: u32) -> Action {
    Action::Write { reg, value }
}

fn modify(reg: Register, clear: u32, set: u32) -> Action {
    Action::Modify { reg, clear, set }
}

fn setup(peri: u32, mem: u32, len: u32, ctrl: u32) -> Vec<Action> {
    vec![
        write(Register::DmaClr, 0xe00),
        write(Register::DmaPaddr(CH3), peri),
        write(Register::DmaMaddr(CH3), mem),
        write(Register::DmaDtcnt(CH3), len),
        write(Register::DmaCtrl(CH3), ctrl),
    ]
}

fn started(peri: u32, mem: u32, len: u32, ctrl: u32) -> Vec<Action> {
    let mut actions = setup(peri, mem, len, ctrl);
    actions.push(modify(Register::DmaCtrl(CH3), 0, 1));
    actions
}

fn reset() -> Vec<Action> {
    vec![
        write(Register::DmaCtrl(CH3), 0xa),
        Action::WaitStopped { channel: CH3 },
    ]
}

fn used() -> ChannelState {
    ChannelState { complete_count: 9 }
}

#[test]
fn options_by_default() {
    let options = TransferOptions::default();
    assert_eq!(options.priority, Priority::VeryHigh);
    assert!(!options.circular);
    assert!(!options.half_transfer_ir);
    assert!(options.complete_transfer_ir);
    assert_eq!(ChannelState::new().complete_count, 0);
}

#[test]
fn codes_of_sizes_and_priorities() {
    assert_eq!(WordSize::OneByte.to_code(), 0);
    assert_eq!(WordSize::TwoBytes.to_code(), 1);
    assert_eq!(WordSize::FourBytes.to_code(), 2);
    assert_eq!(Priority::Low.to_code(), 0);
    assert_eq!(Priority::Medium.to_code(), 1);
    assert_eq!(Priority::High.to_code(), 2);
    assert_eq!(Priority::VeryHigh.to_code(), 3);
}

#[test]
fn control_words() {
    let channel = Channel::new(CH3);
    let mut bus = Bus::new();
    let base = Setup {
        dir: Dir::PeripheralToMemory,
        peri_addr: 1,
        mem_addr: 2,
        mem_len: 3,
        increment: Increment::Neither,
        mem_size: WordSize::OneByte,
        peri_size: WordSize::OneByte,
        options: TransferOptions {
            priority: Priority::Low,
            circular: false,
            half_transfer_ir: false,
            complete_transfer_ir: false,
        },
    };
    let mut check = |setup_of: Setup, ctrl: u32| {
        let mut state = used();
        channel.configure(&mut bus, &mut state, &setup_of);
        assert_eq!(state.complete_count, 0);
        assert_eq!(bus.take(), setup(1, 2, 3, ctrl));
    };
    check(base, 0x0008);
    check(Setup { dir: Dir::MemoryToPeripheral, ..base }, 0x0018);
    check(Setup { dir: Dir::MemoryToMemory, ..base }, 0x0018);
    check(Setup { increment: Increment::Peripheral, ..base }, 0x0048);
    check(Setup { increment: Increment::Memory, ..base }, 0x0088);
    check(Setup { increment: Increment::Both, ..base }, 0x00c8);
    check(Setup { peri_size: WordSize::TwoBytes, ..base }, 0x0108);
    check(Setup { mem_size: WordSize::FourBytes, ..base }, 0x0808);
    let options = TransferOptions {
        priority: Priority::High,
        circular: true,
        half_transfer_ir: true,
        complete_transfer_ir: true,
    };
    check(Setup { options, ..base }, 0x202e);
}

#[test]
fn transfers_are_started() {
    let mut channel = Channel::new(CH3);
    let mut bus = Bus::new();
    let options = TransferOptions::default();
    let half = WordSize::TwoBytes;
    let full = WordSize::FourBytes;

    let mut state = used();
    let transfer = channel.transfer(&mut bus, &mut state, (10, 20), 30, half, full, options);
    assert_eq!(transfer.channel, channel);
    assert_eq!(state.complete_count, 0);
    assert_eq!(bus.take(), started(10, 30, 20, 0x36da));
    channel.transfer_raw(&mut bus, &mut state, 10, 20, 30, half, full, options);
    assert_eq!(bus.take(), started(10, 30, 20, 0x36da));

    channel.read(&mut bus, &mut state, 10, (20, 30), half, options);
    assert_eq!(bus.take(), started(10, 20, 30, 0x358a));
    channel.read_raw(&mut bus, &mut state, 10, (20, 0xffff), half, full, options);
    assert_eq!(bus.take(), started(10, 20, 0xffff, 0x368a));

    channel.write(&mut bus, &mut state, (20, 30), 10, half, full, options);
    assert_eq!(bus.take(), started(10, 20, 30, 0x369a));
    channel.write_raw(&mut bus, &mut state, (20, 30), 10, half, full, options);
    assert_eq!(bus.take(), started(10, 20, 30, 0x369a));
    channel.write_repeated(&mut bus, &mut state, 20, 30, 10, half, options);
    assert_eq!(bus.take(), started(10, 20, 30, 0x351a));
}

#[test]
fn transfers_are_paused_and_stopped() {
    let mut channel = Channel::new(CH3);
    let mut bus = Bus::new();
    let mut state = used();
    let options = TransferOptions::default();
    let mut transfer = channel.read(&mut bus, &mut state, 1, (2, 3), WordSize::OneByte, options);
    bus.take();
    transfer.request_pause(&mut bus);
    transfer.request_resume(&mut bus);
    assert_eq!(
        bus.take(),
        vec![modify(Register::DmaCtrl(CH3), 1, 0), modify(Register::DmaCtrl(CH3), 0, 1)]
    );
    transfer.request_reset(&mut bus);
    assert_eq!(bus.take(), reset());
    assert_eq!(transfer.get_remaining_transfers(17), 17);

    // Enabled, and not completed.
    assert!(transfer.is_running(&state, 1));
    assert!(!transfer.poll(&state, 1));
    let mut transfer = transfer.blocking_wait(&state, 1).unwrap();
    // Completed, but circular.
    assert!(transfer.is_running(&used(), 0x21));
    // Completed, or disabled.
    assert!(!transfer.is_running(&used(), 1));
    assert!(!transfer.is_running(&state, 0x20));
    assert!(transfer.poll(&used(), 1));
    assert_eq!(transfer.release(&mut bus), channel);
    assert_eq!(bus.take(), reset());
    let transfer = channel.read(&mut bus, &mut state, 1, (2, 3), WordSize::OneByte, options);
    assert!(transfer.blocking_wait(&state, 0).is_none());
}

#[test]
fn channel_is_interrupted() {
    let mut bus = Bus::new();
    let mut state = ChannelState::new();
    let wake = Action::Wake { waiter: Waiter::Dma1(CH3) };
    // Nothing is reported that was not asked for.
    on_irq(CH3, &mut bus, &mut state, 0xffff_ffff, 0);
    on_irq(CH3, &mut bus, &mut state, 0x0000_f0ff, 6);
    assert_eq!(bus.take(), vec![]);
    assert_eq!(state.complete_count, 0);
    on_irq(CH3, &mut bus, &mut state, 0x400, 6);
    assert_eq!(bus.take(), vec![write(Register::DmaClr, 0x800), wake]);
    assert_eq!(state.complete_count, 0);
    on_irq(CH3, &mut bus, &mut state, 0x200, 6);
    assert_eq!(bus.take(), vec![write(Register::DmaClr, 0x200), wake]);
    assert_eq!(state.complete_count, 1);
    on_irq(CH3, &mut bus, &mut state, 0x600, 6);
    assert_eq!(
        bus.take(),
        vec![write(Register::DmaClr, 0x800), write(Register::DmaClr, 0x200), wake]
    );
    assert_eq!(state.complete_count, 2);
    let mut state = ChannelState { complete_count: usize::MAX };
    on_irq(CH3, &mut bus, &mut state, 0x200, 2);
    assert_eq!(state.complete_count, 0);
}

#[test]
fn channels_have_their_own_flags() {
    let channels = [
        (DmaChannel::Ch1, 0),
        (DmaChannel::Ch2, 4),
        (DmaChannel::Ch3, 8),
        (DmaChannel::Ch4, 12),
        (DmaChannel::Ch5, 16),
        (DmaChannel::Ch6, 20),
        (DmaChannel::Ch7, 24),
    ];
    for (channel, offset) in channels {
        let mut bus = Bus::new();
        Channel::new(channel).clear_irqs(&mut bus);
        assert_eq!(bus.take(), vec![write(Register::DmaClr, 0xe << offset)]);
        let mut state = ChannelState::new();
        on_irq(channel, &mut bus, &mut state, 0x2 << offset, 2);
        assert_eq!(state.complete_count, 1);
        assert_eq!(bus.take()[0], write(Register::DmaClr, 0x2 << offset));
    }
}

#[test]
fn interrupts_are_set_up() {
    let mut bus = Bus::new();
    init(&mut bus, 5);
    let actions = bus.take();
    assert_eq!(actions.len(), 24);
    let first = Interrupt::Dma1(DmaChannel::Ch1);
    assert_eq!(actions[0], Action::Prioritise { interrupt: first, priority: 5 });
    assert_eq!(actions[1], Action::Unmask { interrupt: first });
    let last = Interrupt::Dma2Channel4To5;
    assert_eq!(actions[20..22], actions[22..24]);
    assert_eq!(actions[22], Action::Prioritise { interrupt: last, priority: 5 });
    assert_eq!(actions[23], Action::Unmask { interrupt: last });
}

#[test]
fn ring_buffers() {
    let mut bus = Bus::new();
    let mut state = used();
    let options = TransferOptions {
        priority: Priority::Low,
        circular: false,
        half_transfer_ir: false,
        complete_transfer_ir: false,
    };
    let channel = Channel::new(CH3);
    let mut rx = ReadableRingBuffer::new(
        channel,
        &mut bus,
        &mut state,
        10,
        (20, 30),
        WordSize::OneByte,
        options,
    );
    assert_eq!(state.complete_count, 0);
    assert_eq!(bus.take(), setup(10, 20, 30, 0x00ae));
    assert_eq!(rx.capacity(), 30);
    rx.start(&mut bus);
    rx.request_pause(&mut bus);
    rx.request_resume(&mut bus);
    rx.stop(&mut bus);
    assert_eq!(
        bus.take(),
        vec![
            modify(Register::DmaCtrl(CH3), 0, 1),
            modify(Register::DmaCtrl(CH3), 1, 0),
            modify(Register::DmaCtrl(CH3), 0, 1),
            modify(Register::DmaCtrl(CH3), 0x20, 0),
        ]
    );
    assert!(rx.is_running(&used(), 0x21));
    assert!(!rx.poll_stop(&state, 1));
    assert!(rx.poll_stop(&used(), 1));
    rx.request_reset(&mut bus);
    assert_eq!(bus.take(), reset());
    assert_eq!(rx.release(&mut bus), channel);
    assert_eq!(bus.take(), reset());

    let mut tx = WritableRingBuffer::new(
        channel,
        &mut bus,
        &mut state,
        10,
        (20, 40),
        WordSize::TwoBytes,
        options,
    );
    assert_eq!(bus.take(), setup(10, 20, 40, 0x05be));
    assert_eq!(tx.capacity(), 40);
    tx.start(&mut bus);
    tx.request_pause(&mut bus);
    tx.stop(&mut bus);
    assert_eq!(
        bus.take(),
        vec![
            modify(Register::DmaCtrl(CH3), 0, 1),
            modify(Register::DmaCtrl(CH3), 1, 0),
            modify(Register::DmaCtrl(CH3), 0x20, 0),
        ]
    );
    assert!(tx.is_running(&used(), 0x21));
    assert!(tx.poll_stop(&used(), 1));
    tx.request_reset(&mut bus);
    assert_eq!(bus.take(), reset());
    assert_eq!(tx.release(&mut bus), channel);

    let mut ctrl = DmaCtrlImpl(channel);
    let mut state = used();
    assert_eq!(ctrl.get_remaining_transfers(12), 12);
    assert_eq!(ctrl.reset_complete_count(&mut state), 9);
    assert_eq!(ctrl.reset_complete_count(&mut state), 0);
}
