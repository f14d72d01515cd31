use at32f4xx_hal::bus::{Action, Bus, Interrupt, Peripheral, Register, Waiter};
use at32f4xx_hal::can::buffer::{RxBuf, TxBuf};
use at32f4xx_hal::can::driver::{Can, RxMode, State, TxMode};
use at32f4xx_hal::can::frame::{
    data_bytes, data_word, BusError, Envelope, Fifo, Frame, Header, Mailbox, NominalBitTiming,
    TransmitStatus, TryReadError, TryWriteError,
};
use at32f4xx_hal::can::id::{ExtendedId, Id, IdReg, StandardId};
use at32f4xx_hal::can::registers::{FifoSample, MailboxSample, Registers, Transmission};
use std::cmp::Ordering;

const EMPTY: u32 = 0x1c00_0000;

fn standard(raw: u16) -> Id {
    Id::Standard(StandardId::new(raw).unwrap())
}

fn extended(raw: u32) -> Id {
    Id::Extended(ExtendedId::new(raw).unwrap())
}

fn frame(id: Id, rtr: bool) -> Frame {
    Frame { header: Header::new(id, 8, rtr), data: [1, 2, 3, 4, 5, 6, 7, 8] }
}

fn regs(mctrl: u32, tsts: u32, tmi: [u32; 3]) -> Registers {
    Registers { mctrl, msts: 0, ests: 0, tsts, tmi }
}

fn idle() -> Registers {
    regs(0, EMPTY, [0; 3])
}

fn write(reg: Register, value: u32) -> Action {
    Action::Write { reg, value }
}

fn modify(reg: Register, clear: u32, set: u32) -> Action {
    Action::Modify { reg, clear, set }
}

fn wait(reg: Register, mask: u32, value: u32) -> Action {
    Action::Wait { reg, mask, value }
}

fn sample(reg: Register) -> Action {
    Action::Sample { reg }
}

fn wake(waiter: Waiter) -> Action {
    Action::Wake { waiter }
}

fn replay(actions: &[Action], register: Register, word: u32) -> u32 {
    let mut word = word;
    for action in actions {
        match *action {
            Action::Write { reg, value } if reg == register => word = value,
            Action::Modify { reg, clear, set } if reg == register => word = (word & !clear) | set,
            _ => {}
        }
    }
    word
}

fn mailbox_actions(mailbox: Mailbox, tmi: u32) -> Vec<Action> {
    vec![
        write(Register::CanTmc(mailbox), 8),
        write(Register::CanTmdtl(mailbox), 0x0403_0201),
        write(Register::CanTmdth(mailbox), 0x0807_0605),
        write(Register::CanTmi(mailbox), tmi),
    ]
}

fn cancel_actions(mailbox: Mailbox, bit: u32) -> Vec<Action> {
    vec![
        write(Register::CanTsts, EMPTY | bit),
        wait(Register::CanTsts, bit, 0),
        sample(Register::CanTsts),
        sample(Register::CanTmi(mailbox)),
        sample(Register::CanTmdtl(mailbox)),
        sample(Register::CanTmdth(mailbox)),
        sample(Register::CanTmc(mailbox)),
    ]
}

fn enter_init() -> Vec<Action> {
    vec![modify(Register::CanMctrl, 0x8002, 1), wait(Register::CanMsts, 3, 1)]
}

fn doze() -> Vec<Action> {
    vec![modify(Register::CanMctrl, 0x8001, 2), wait(Register::CanMsts, 3, 2)]
}

fn queued(transmission: Option<Transmission>) -> TransmitStatus {
    match transmission {
        Some(Transmission::Queued(status)) => status,
        _ => panic!("not queued"),
    }
}

fn full(len: u32) -> FifoSample {
    FifoSample { rf: 1, rfi: 0x246 << 20, rfc: 0xab00 | len, rfdtl: 0x0403_0201, rfdth: 0x0807_0605 }
}

fn vacant() -> FifoSample {
    FifoSample { rf: 0, rfi: 0, rfc: 0, rfdtl: 0, rfdth: 0 }
}

fn received(ts: u64) -> Envelope {
    Envelope { ts, frame: frame(standard(0x123), false) }
}

#[test]
fn identifiers_have_a_range() {
    assert!(StandardId::new(0x7ff).is_some());
    assert!(StandardId::new(0x800).is_none());
    assert_eq!(StandardId::new(0x123).unwrap().as_raw(), 0x123);
    assert!(ExtendedId::new(0x1fff_ffff).is_some());
    assert!(ExtendedId::new(0x2000_0000).is_none());
    assert_eq!(ExtendedId::new(0x1234_5678).unwrap().as_raw(), 0x1234_5678);
    assert_eq!(ExtendedId::new(0x1fff_ffff).unwrap().standard_id().as_raw(), 0x7ff);
    assert_eq!(ExtendedId::new(0x0004_8001).unwrap().standard_id().as_raw(), 1);
}

#[test]
fn identifiers_read_back_from_their_registers() {
    for id in [standard(0), standard(0x7ff), extended(0), extended(0x1fff_ffff), extended(0x12345)] {
        assert_eq!(Id::from(IdReg::from(&id)), id);
        assert!(!IdReg::from(&id).rtr());
        let remote = IdReg::of_frame(&id, true);
        assert_eq!(remote.id(), id);
        assert_eq!(remote.to_id(), id);
        assert!(remote.rtr());
        assert_eq!(IdReg::from_register(remote.0 | 1), remote);
    }
    assert_eq!(IdReg::from(&standard(1)), IdReg(0x0020_0000));
    assert_eq!(IdReg::from(&extended(1)), IdReg(0x0000_000c));
    assert!(IdReg::from(&extended(1)).is_extended());
    assert!(!IdReg::from(&standard(1)).is_extended());
}

#[test]
fn priority_of_identifiers() {
    let order = [
        IdReg::of_frame(&standard(0x001), false),
        IdReg::of_frame(&standard(0x001), true),
        IdReg::of_frame(&extended(0x0004_0000), false),
        IdReg::of_frame(&extended(0x0004_0000), true),
        IdReg::of_frame(&extended(0x0004_0001), false),
        IdReg::of_frame(&standard(0x002), false),
        IdReg::of_frame(&extended(0x0008_0000), false),
    ];
    for (i, a) in order.iter().enumerate() {
        for (j, b) in order.iter().enumerate() {
            // What comes first has the higher priority.
            let expected = j.cmp(&i);
            assert_eq!(a.cmp(b), expected);
            assert_eq!(a.partial_cmp(b), Some(expected));
            assert_eq!(a > b, expected == Ordering::Greater);
        }
    }
}

#[test]
fn data_is_kept_lowest_byte_first() {
    let data = [1, 2, 3, 4, 5, 6, 7, 8];
    assert_eq!(data_word(&data, 0), 0x0403_0201);
    assert_eq!(data_word(&data, 4), 0x0807_0605);
    assert_eq!(data_bytes(0x0403_0201, 0x0807_0605), data);
}

#[test]
fn mailboxes_have_numbers() {
    assert_eq!(Mailbox::Mailbox0.index(), 0);
    assert_eq!(Mailbox::Mailbox1.index(), 1);
    assert_eq!(Mailbox::Mailbox2.index(), 2);
}

#[test]
fn driver_is_started_and_released() {
    let mut bus = Bus::new();
    let can = Can::new(&mut bus, &idle(), 72_000_000);
    assert_eq!(can.periph_clock, 72_000_000);
    let mut expected = vec![
        Action::Enable { peripheral: Peripheral::Can1 },
        Action::Reset { peripheral: Peripheral::Can1 },
        write(Register::CanInten, 0x8f49),
        write(Register::CanMctrl, 0x0001_0082),
    ];
    for interrupt in [Interrupt::Can1Tx, Interrupt::Can1Rx0, Interrupt::Can1Rx1, Interrupt::Can1Se] {
        expected.push(Action::Unpend { interrupt });
        expected.push(Action::Unmask { interrupt });
    }
    expected.extend(doze());
    let actions = bus.take();
    assert_eq!(actions, expected);
    // Asleep, sending again, by priority, not woken by frames.
    assert_eq!(replay(&actions, Register::CanMctrl, 0xffff_ffff) & 0x37, 0x02);
    can.release(&mut bus, &idle());
    let mut expected = vec![write(Register::CanMctrl, 0x0001_8002)];
    expected.extend(enter_init());
    expected.extend(doze());
    assert_eq!(bus.take(), expected);
}

#[test]
fn bit_timing_is_configured() {
    let bt = NominalBitTiming { prescaler: 6, seg1: 10, seg2: 5, sync_jump_width: 1 };
    let btmg = modify(Register::CanBtmg, 0x037f_0fff, 0x0049_0005);
    let mut bus = Bus::new();
    let mut can = Can::new(&mut bus, &idle(), 72_000_000);
    bus.take();
    can.set_bitrate(&mut bus, &idle(), bt);
    let mut expected = enter_init();
    expected.push(btmg);
    expected.extend(doze());
    assert_eq!(bus.take(), expected);

    let config = can.modify_config(&mut bus, &idle());
    assert_eq!(config.periph_clock, 72_000_000);
    config
        .set_bit_timing(&mut bus, &idle(), bt)
        .set_bitrate(&mut bus, &idle(), bt)
        .set_loopback(&mut bus, &idle(), true)
        .set_loopback(&mut bus, &idle(), false)
        .set_silent(&mut bus, &idle(), true)
        .set_silent(&mut bus, &idle(), false)
        .set_automatic_retransmit(&mut bus, &idle(), true)
        .set_automatic_retransmit(&mut bus, &idle(), false)
        .finish(&mut bus, &idle());
    let mut expected = enter_init();
    expected.push(btmg);
    expected.push(btmg);
    expected.push(modify(Register::CanBtmg, 0x4000_0000, 0x4000_0000));
    expected.push(modify(Register::CanBtmg, 0x4000_0000, 0));
    expected.push(modify(Register::CanBtmg, 0x8000_0000, 0x8000_0000));
    expected.push(modify(Register::CanBtmg, 0x8000_0000, 0));
    // Retransmission is what the bit prohibits.
    expected.push(modify(Register::CanMctrl, 0x8010, 0));
    expected.push(modify(Register::CanMctrl, 0x8010, 0x10));
    expected.extend(doze());
    assert_eq!(bus.take(), expected);
}

#[test]
fn parts_of_the_bit_timing_are_cut() {
    let bt = NominalBitTiming { prescaler: 0x201, seg1: 17, seg2: 0x81, sync_jump_width: 0x85 };
    let mut bus = Bus::new();
    idle().set_bit_timing(&mut bus, bt);
    assert_eq!(bus.take(), vec![modify(Register::CanBtmg, 0x037f_0fff, 0)]);
}

#[test]
fn controller_is_put_to_sleep_and_woken() {
    let mut bus = Bus::new();
    let mut can = Can::new(&mut bus, &idle(), 72_000_000);
    bus.take();
    let asleep = Registers { msts: 2, ..idle() };
    assert!(can.is_sleeping(&asleep));
    assert!(!can.is_sleeping(&idle()));

    assert!(!can.enable(&mut bus, &asleep));
    assert_eq!(bus.take(), vec![modify(Register::CanMctrl, 0x8002, 0x40)]);
    assert!(can.enable(&mut bus, &idle()));
    assert_eq!(bus.take(), vec![]);

    can.sleep(&mut bus);
    assert_eq!(
        bus.take(),
        vec![modify(Register::CanInten, 0, 0x2_0000), modify(Register::CanMctrl, 0x8000, 2)]
    );
    assert!(!can.sleep_entered(&mut bus, &idle()));
    assert_eq!(bus.take(), vec![]);
    assert!(can.sleep_entered(&mut bus, &asleep));
    assert_eq!(bus.take(), vec![modify(Register::CanInten, 0x2_0000, 0)]);

    can.wakeup(&mut bus, &asleep);
    assert_eq!(
        bus.take(),
        vec![modify(Register::CanMctrl, 0x8003, 0), wait(Register::CanMsts, 3, 0)]
    );
    idle().sleep(&mut bus);
    assert_eq!(bus.take(), doze());
    can.set_automatic_wakeup(&mut bus, &idle(), true);
    can.set_automatic_wakeup(&mut bus, &idle(), false);
    assert_eq!(
        bus.take(),
        vec![modify(Register::CanMctrl, 0x8020, 0x20), modify(Register::CanMctrl, 0x8020, 0)]
    );
    can.set_tx_fifo_scheduling(&mut bus, &idle(), true);
    let actions = bus.take();
    assert_eq!(actions, vec![modify(Register::CanMctrl, 0x8004, 4)]);
    let after = Registers { mctrl: replay(&actions, Register::CanMctrl, 0), ..idle() };
    assert!(can.tx_fifo_scheduling_enabled(&after));
    assert!(!can.tx_fifo_scheduling_enabled(&idle()));
}

#[test]
fn frame_is_put_in_a_free_mailbox() {
    let mut bus = Bus::new();
    let mut can = Can::new(&mut bus, &idle(), 72_000_000);
    bus.take();
    let state = State::new();
    let status =
        queued(can.write(&mut bus, &idle(), &state, &frame(standard(0x123), false)));
    assert!(status.dequeued_frame().is_none());
    assert_eq!(status.mailbox(), Mailbox::Mailbox0);
    assert_eq!(bus.take(), mailbox_actions(Mailbox::Mailbox0, (0x123 << 21) | 1));

    // A remote frame, with an extended identifier, in the mailbox that comes next.
    let next = regs(0, EMPTY | 0x0200_0000, [0; 3]);
    let status = can.try_write(&mut bus, &next, &frame(extended(0x1234_5678), true)).ok();
    assert_eq!(queued(status).mailbox(), Mailbox::Mailbox2);
    assert_eq!(bus.take(), mailbox_actions(Mailbox::Mailbox2, (0x1234_5678 << 3) | 7));
}

#[test]
fn frames_wait_for_their_priority() {
    let mut bus = Bus::new();
    let pending = IdReg::of_frame(&standard(0x123), false).0 | 1;
    let busy = regs(0, 0x1900_0000, [pending, 0, 0]);
    assert!(busy.transmit(&mut bus, &frame(standard(0x123), false)).is_err());
    assert_eq!(bus.take(), vec![]);
    assert!(busy.must_wait(&frame(standard(0x123), false)));
    assert!(!busy.must_wait(&frame(standard(0x123), true)));
    assert!(!busy.must_wait(&frame(standard(0x122), false)));
    // A remote frame has another priority.
    assert!(busy.transmit(&mut bus, &frame(standard(0x123), true)).is_ok());
    assert_eq!(bus.take(), mailbox_actions(Mailbox::Mailbox1, (0x123 << 21) | 3));
    // So has a data frame if a remote frame is pending, while a second remote frame waits.
    let remote = IdReg::of_frame(&standard(0x123), true).0 | 1;
    let busy = regs(0, 0x1900_0000, [remote, 0, 0]);
    assert!(busy.transmit(&mut bus, &frame(standard(0x123), false)).is_ok());
    bus.take();
    assert!(busy.transmit(&mut bus, &frame(standard(0x123), true)).is_err());
    // The frame was sent in the meantime.
    let sent = regs(0, 0x1900_0000, [pending & !1, 0, 0]);
    assert!(sent.transmit(&mut bus, &frame(standard(0x123), false)).is_ok());
    // In the order of requests the priority does not matter.
    let fifo = regs(4, 0x1900_0000, [pending, 0, 0]);
    bus.take();
    assert!(fifo.transmit(&mut bus, &frame(standard(0x123), false)).is_ok());
    assert_eq!(bus.take(), mailbox_actions(Mailbox::Mailbox1, (0x123 << 21) | 1));
}

#[test]
fn full_mailboxes() {
    let mut bus = Bus::new();
    let tmi = [
        IdReg::of_frame(&standard(0x100), false).0 | 1,
        IdReg::of_frame(&standard(0x200), false).0 | 1,
        IdReg::of_frame(&standard(0x300), false).0 | 1,
    ];
    // In the order of requests the frame waits.
    let fifo = regs(4, 0x0200_0000, tmi);
    assert!(fifo.must_wait(&frame(standard(0x001), false)));
    // Such a frame is refused whatever the number of the next mailbox.
    let unnumbered = regs(4, 0x0300_0000, tmi);
    assert!(unnumbered.transmit(&mut bus, &frame(standard(0x001), false)).is_err());
    assert!(fifo.transmit(&mut bus, &frame(standard(0x001), false)).is_err());
    let mut can = Can::new(&mut bus, &idle(), 72_000_000);
    bus.take();
    let full = can.try_write(&mut bus, &fifo, &frame(standard(0x001), false));
    assert_eq!(full.err(), Some(TryWriteError::Full));
    assert!(can.write(&mut bus, &fifo, &State::new(), &frame(standard(0x001), false)).is_none());
    assert_eq!(bus.take(), vec![]);
    // By priority the frame with the lowest one is replaced by a frame with a higher one only.
    let regs = regs(0, 0x0200_0000, tmi);
    assert!(regs.transmit(&mut bus, &frame(standard(0x301), false)).is_err());
    assert!(regs.transmit(&mut bus, &frame(standard(0x300), false)).is_err());
    assert_eq!(bus.take(), vec![]);
    let new = frame(standard(0x2ff), false);
    match regs.transmit(&mut bus, &new) {
        Ok(Transmission::Cancelling(mailbox)) => assert_eq!(mailbox, Mailbox::Mailbox2),
        _ => panic!("not replaced"),
    }
    assert_eq!(bus.take(), cancel_actions(Mailbox::Mailbox2, 0x0080_0000));

    // The frame that is replaced is handed back.
    let held = MailboxSample {
        tsts: 0,
        tmi: tmi[2] & !1,
        tmdtl: 0x0403_0201,
        tmdth: 0x0807_0605,
        tmc: 8,
    };
    let status = regs.replace(&mut bus, Mailbox::Mailbox2, &held, &new);
    assert_eq!(status.dequeued_frame(), Some(&frame(standard(0x300), false)));
    assert_eq!(status.mailbox(), Mailbox::Mailbox2);
    assert_eq!(bus.take(), mailbox_actions(Mailbox::Mailbox2, (0x2ff << 21) | 1));
    // It was sent before it could be cancelled.
    let sent = MailboxSample { tsts: 0x0002_0000, ..held };
    let status = regs.replace(&mut bus, Mailbox::Mailbox2, &sent, &new);
    assert!(status.dequeued_frame().is_none());
}

#[test]
fn mailbox_gives_the_frame_back() {
    let mut bus = Bus::new();
    for original in [frame(standard(0x7ff), true), frame(extended(0x1abc_def0), false)] {
        assert!(idle().transmit(&mut bus, &original).is_ok());
        let actions = bus.take();
        let held = MailboxSample {
            tsts: 0,
            tmi: replay(&actions, Register::CanTmi(Mailbox::Mailbox0), 0),
            tmdtl: replay(&actions, Register::CanTmdtl(Mailbox::Mailbox0), 0),
            tmdth: replay(&actions, Register::CanTmdth(Mailbox::Mailbox0), 0),
            tmc: replay(&actions, Register::CanTmc(Mailbox::Mailbox0), 0),
        };
        let status =
            idle().replace(&mut bus, Mailbox::Mailbox0, &held, &frame(standard(1), false));
        bus.take();
        assert_eq!(status.dequeued_frame(), Some(&original));
        // And arrives as it was sent.
        let fifo = FifoSample {
            rf: 1,
            rfi: held.tmi & !1,
            rfc: held.tmc,
            rfdtl: held.tmdtl,
            rfdth: held.tmdth,
        };
        let envelope = idle().receive_fifo(&mut bus, Fifo::Fifo0, &fifo, 7).unwrap();
        bus.take();
        assert_eq!(envelope, Envelope { ts: 7, frame: original });
    }
}

#[test]
fn transmission_is_aborted() {
    let mut bus = Bus::new();
    let mut can = Can::new(&mut bus, &idle(), 72_000_000);
    bus.take();
    // An empty mailbox is left alone.
    for mailbox in [Mailbox::Mailbox0, Mailbox::Mailbox1, Mailbox::Mailbox2] {
        assert!(!can.abort(&mut bus, &idle(), mailbox));
    }
    assert_eq!(bus.take(), vec![]);
    let cases = [
        (Mailbox::Mailbox0, 0x1800_0000, 0x80, 0x2),
        (Mailbox::Mailbox1, 0x1400_0000, 0x8000, 0x200),
        (Mailbox::Mailbox2, 0x0c00_0000, 0x0080_0000, 0x0002_0000),
    ];
    for (mailbox, tsts, bit, sent) in cases {
        let regs = regs(0, tsts, [0; 3]);
        assert!(can.split().0.abort(&mut bus, &regs, mailbox));
        assert_eq!(bus.take(), cancel_actions(mailbox, bit));
        assert!(Registers::was_cancelled(EMPTY, mailbox));
        assert!(!Registers::was_cancelled(EMPTY | sent, mailbox));
        assert!(!can.is_transmitter_idle(&regs));
        assert!(!can.split().0.is_idle(&regs));
        assert!(!can.flush(&regs, &State::new(), mailbox));
        assert!(can.flush_any(&regs, &State::new()));
        assert!(!can.flush_all(&regs, &State::new()));
    }
    assert!(can.is_transmitter_idle(&idle()));
    assert!(can.flush(&idle(), &State::new(), Mailbox::Mailbox1));
    assert!(can.flush_all(&idle(), &State::new()));
    assert!(!can.flush_any(&regs(0, 0, [0; 3]), &State::new()));
}

#[test]
fn bus_errors() {
    let mut bus = Bus::new();
    let codes = [
        (1, BusError::Stuff),
        (2, BusError::Form),
        (3, BusError::Acknowledge),
        (4, BusError::BitRecessive),
        (5, BusError::BitDominant),
        (6, BusError::Crc),
        (7, BusError::Software),
    ];
    let acknowledge = vec![modify(Register::CanMsts, 0x1c, 4), modify(Register::CanInten, 0, 0x8000)];
    for (code, error) in codes {
        let failed = Registers { msts: 4, ests: code << 4, ..idle() };
        assert_eq!(failed.curr_error(&mut bus), Some(error));
        assert_eq!(bus.take(), acknowledge);
        // It was acknowledged.
        let later = Registers { msts: 0, ..failed };
        assert_eq!(later.curr_error(&mut bus), None);
        assert_eq!(bus.take(), vec![]);
    }
    let none = Registers { msts: 4, ests: 0, ..idle() };
    assert_eq!(none.curr_error(&mut bus), None);
    assert_eq!(bus.take(), acknowledge);
}

#[test]
fn frames_are_read_from_both_fifos() {
    let mut bus = Bus::new();
    let mut can = Can::new(&mut bus, &idle(), 72_000_000);
    bus.take();
    let state = State::new();
    let failed = Registers { msts: 4, ests: 0x20, ..idle() };

    assert_eq!(can.try_read(&mut bus, &failed, &state, &full(8), &full(8), 42), Ok(received(42)));
    assert_eq!(
        bus.take(),
        vec![
            modify(Register::CanRf(Fifo::Fifo0), 0x38, 0x20),
            modify(Register::CanInten, 0, 2),
        ]
    );
    let half = can.split().1.try_read(&mut bus, &failed, &state, &vacant(), &full(8), 43);
    assert_eq!(half, Ok(received(43)));
    assert_eq!(
        bus.take(),
        vec![
            modify(Register::CanRf(Fifo::Fifo1), 0x38, 0x20),
            modify(Register::CanInten, 0, 0x10),
        ]
    );
    assert_eq!(
        can.try_read(&mut bus, &failed, &state, &vacant(), &vacant(), 44),
        Err(TryReadError::BusError(BusError::Form))
    );
    assert_eq!(
        bus.take(),
        vec![modify(Register::CanMsts, 0x1c, 4), modify(Register::CanInten, 0, 0x8000)]
    );
    assert_eq!(
        can.try_read(&mut bus, &idle(), &state, &vacant(), &vacant(), 45),
        Err(TryReadError::Empty)
    );
    assert_eq!(bus.take(), vec![modify(Register::CanInten, 0, 0x12)]);

    assert_eq!(
        can.read(&mut bus, &failed, &state, &full(8), &vacant(), 46),
        Some(Ok(received(46)))
    );
    assert_eq!(
        can.split().1.read(&mut bus, &failed, &state, &vacant(), &vacant(), 47),
        Some(Err(BusError::Form))
    );
    assert_eq!(can.read(&mut bus, &idle(), &state, &vacant(), &vacant(), 48), None);
    assert!(can.wait_not_empty(&idle(), &state, 1, 0));
    assert!(can.split().1.wait_not_empty(&idle(), &state, 0, 2));
    assert!(!can.wait_not_empty(&idle(), &state, 0x38, 0x38));
}

#[test]
fn received_frames_keep_kind_and_length() {
    let mut bus = Bus::new();
    let remote = FifoSample { rfi: (0x1234_5678 << 3) | 6, ..full(15) };
    let envelope = idle().receive_fifo(&mut bus, Fifo::Fifo1, &remote, 1).unwrap();
    assert_eq!(envelope.frame.header, Header::new(extended(0x1234_5678), 15, true));
    assert_eq!(idle().receive_fifo(&mut bus, Fifo::Fifo0, &vacant(), 1), None);
    assert_eq!(bus.take(), vec![modify(Register::CanRf(Fifo::Fifo1), 0x38, 0x20)]);
}

#[test]
fn interrupts_without_buffers() {
    let mut bus = Bus::new();
    let mut state = State::new();
    assert!(!state.rx_mode.on_interrupt(&mut bus, &idle(), Fifo::Fifo0, &full(8), 1));
    assert_eq!(bus.take(), vec![modify(Register::CanInten, 2, 0), wake(Waiter::CanRx)]);
    assert!(!state.rx_mode.on_interrupt(&mut bus, &idle(), Fifo::Fifo1, &full(8), 1));
    assert_eq!(bus.take(), vec![modify(Register::CanInten, 0x10, 0), wake(Waiter::CanRx)]);
    state.can1_tx(&mut bus);
    assert!(!state.tx_mode.on_interrupt(&mut bus, &idle()));
    assert_eq!(bus.take(), vec![write(Register::CanTsts, 0x1c01_0101), wake(Waiter::CanTx)]);
    state.can1_se(&mut bus, &Registers { msts: 0x14, ..idle() });
    assert_eq!(bus.take(), vec![modify(Register::CanMsts, 0x1c, 0x10), wake(Waiter::CanErr)]);
    state.can1_se(&mut bus, &Registers { msts: 4, ..idle() });
    assert_eq!(bus.take(), vec![modify(Register::CanInten, 0x8000, 0), wake(Waiter::CanErr)]);
    state.can1_se(&mut bus, &idle());
    assert_eq!(bus.take(), vec![]);
}

#[test]
fn buffers_keep_their_order_and_size() {
    let mut tx = TxBuf::new::<2>();
    assert!(tx.try_receive().is_none());
    assert!(tx.try_send(&frame(standard(1), false)));
    assert!(tx.try_send(&frame(standard(2), false)));
    assert!(!tx.try_send(&frame(standard(3), false)));
    assert_eq!(tx.try_receive(), Some(frame(standard(1), false)));
    assert!(tx.try_send(&frame(standard(4), false)));
    assert_eq!(tx.try_receive(), Some(frame(standard(2), false)));
    assert_eq!(tx.try_receive(), Some(frame(standard(4), false)));
    assert_eq!(tx.try_receive(), None);

    let mut rx = RxBuf::new::<1>();
    assert!(!rx.is_ready());
    assert!(rx.try_send(Err(BusError::Crc)));
    assert!(rx.is_ready());
    assert!(!rx.try_send(Ok(received(1))));
    assert_eq!(rx.try_receive(), Some(Err(BusError::Crc)));
    assert!(!rx.is_ready());
    assert_eq!(rx.try_receive(), None);
}

#[test]
fn buffered_frames_are_sent() {
    let mut bus = Bus::new();
    let mut state = State::new();
    let mut can = Can::new(&mut bus, &idle(), 72_000_000);
    bus.take();
    let mut buffered = can.buffered(&mut state, TxBuf::new::<2>(), RxBuf::new::<2>());
    assert!(buffered.write(&mut bus, &mut state, &frame(standard(1), false)));
    assert!(buffered.write(&mut bus, &mut state, &frame(standard(2), false)));
    let pend = Action::Pend { interrupt: Interrupt::Can1Tx };
    assert_eq!(bus.take(), vec![pend, pend]);
    assert!(!buffered.write(&mut bus, &mut state, &frame(standard(3), false)));
    assert_eq!(bus.take(), vec![]);

    // No mailbox is free.
    assert!(!state.tx_mode.on_interrupt(&mut bus, &regs(0, 0, [0; 3])));
    assert_eq!(bus.take(), vec![]);
    assert!(state.tx_mode.on_interrupt(&mut bus, &idle()));
    let mut expected = mailbox_actions(Mailbox::Mailbox0, (1 << 21) | 1);
    expected.push(wake(Waiter::CanTx));
    assert_eq!(bus.take(), expected);
    // A frame of the same priority is pending, so the frame is dropped.
    let busy = regs(0, 0x1900_0000, [(2 << 21) | 1, 0, 0]);
    assert!(state.tx_mode.on_interrupt(&mut bus, &busy));
    assert_eq!(bus.take(), vec![wake(Waiter::CanTx)]);
    assert!(!state.tx_mode.on_interrupt(&mut bus, &idle()));
    assert_eq!(bus.take(), vec![]);
    assert!(matches!(state.tx_mode, TxMode::Buffered(_)));
}

#[test]
fn received_frames_are_buffered() {
    let mut bus = Bus::new();
    let mut state = State::new();
    let mut can = Can::new(&mut bus, &idle(), 72_000_000);
    bus.take();
    let (tx, rx) = can.split();
    let mut tx = tx.buffered(&mut state, TxBuf::new::<1>());
    let mut rx = rx.buffered(&mut state, RxBuf::new::<1>());
    assert!(matches!(state.rx_mode, RxMode::Buffered(_)));
    assert!(tx.write(&mut bus, &mut state, &frame(standard(1), false)));
    bus.take();
    assert!(!rx.wait_not_empty(&state));
    let release = modify(Register::CanRf(Fifo::Fifo0), 0x38, 0x20);
    assert!(state.rx_mode.on_interrupt(&mut bus, &idle(), Fifo::Fifo0, &full(8), 5));
    assert_eq!(bus.take(), vec![release, wake(Waiter::CanRx)]);
    // The buffer is full, so the frame is dropped.
    assert!(state.rx_mode.on_interrupt(&mut bus, &idle(), Fifo::Fifo0, &full(8), 6));
    assert_eq!(bus.take(), vec![release]);
    assert!(!state.rx_mode.on_interrupt(&mut bus, &idle(), Fifo::Fifo0, &vacant(), 7));
    assert_eq!(bus.take(), vec![]);
    assert!(rx.wait_not_empty(&state));
    let failed = Registers { msts: 4, ests: 0x60, ..idle() };
    assert_eq!(rx.try_read(&mut bus, &failed, &mut state), Ok(received(5)));
    assert_eq!(bus.take(), vec![]);
    let error = Err(TryReadError::BusError(BusError::Crc));
    assert_eq!(rx.try_read(&mut bus, &failed, &mut state), error);
    assert_eq!(bus.take().len(), 2);
    assert_eq!(rx.try_read(&mut bus, &idle(), &mut state), Err(TryReadError::Empty));
    assert_eq!(rx.read(&mut state), None);
}

#[test]
fn buffered_driver_reads() {
    let mut bus = Bus::new();
    let mut state = State::new();
    let mut can = Can::new(&mut bus, &idle(), 72_000_000);
    let mut buffered = can.buffered(&mut state, TxBuf::new::<1>(), RxBuf::new::<4>());
    bus.take();
    if let RxMode::Buffered(buf) = &mut state.rx_mode {
        assert!(buf.try_send(Ok(received(1))));
        assert!(buf.try_send(Err(BusError::Stuff)));
        assert!(buf.try_send(Ok(received(2))));
    }
    assert!(buffered.wait_not_empty(&state));
    assert_eq!(buffered.read(&mut state), Some(Ok(received(1))));
    let error = Err(TryReadError::BusError(BusError::Stuff));
    assert_eq!(buffered.try_read(&mut bus, &idle(), &mut state), error);
    assert_eq!(buffered.read(&mut state), Some(Ok(received(2))));
    assert_eq!(buffered.read(&mut state), None);
    assert!(!buffered.wait_not_empty(&state));
}
