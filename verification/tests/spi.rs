use at32f4xx_hal::bus::{Action, Bus, Interrupt, Peripheral, Register, Waiter};
use at32f4xx_hal::spi::exchange::{Exchange, Progress};
use at32f4xx_hal::spi::mode::{CommunicationMode, Master, Slave};
use at32f4xx_hal::spi::{
    check_error_flags, compute_baud_rate, compute_frequency, on_interrupt, BitOrder, Config,
    Direction, Error, ErrorKind, FrameSize, Mode, Phase, Polarity, Pull, Speed, Spi, Word,
};

fn modify(reg: Register, clear: u32, set: u32) -> Action {
    Action::Modify { reg, clear, set }
}

fn replay(actions: &[Action], register: Register, word: u32) -> u32 {
    let mut word = word;
    for action in actions {
        match *action {
            Action::Write { reg, value } if reg == register => word = value,
            Action::Modify { reg, clear, set } if reg == register => word = (word & !clear) | set,
            _ => {}
        }
    }
    word
}

fn master() -> Spi<Master> {
    let mut bus = Bus::new();
    Spi::new(&mut bus, false, Config::default(), 72_000_000)
}

fn drain() -> Action {
    Action::Drain { status: Register::SpiSts, mask: 1, reg: Register::SpiDt }
}

/// Runs an exchange to its end, on a controller that is always ready and answers each word with its
/// complement. Gives the words that were sent.
fn run(exchange: &mut Exchange) -> Vec<u32> {
    let mut bus = Bus::new();
    let mut sent = vec![];
    loop {
        match exchange.poll(&mut bus, 3) {
            Progress::Done => return sent,
            Progress::Sent => match bus.take()[..] {
                [Action::Write { reg: Register::SpiDt, value }] => sent.push(value),
                _ => panic!("no word was sent"),
            },
            Progress::Received => {
                assert_eq!(bus.take(), vec![Action::Sample { reg: Register::SpiDt }]);
                exchange.take(!(sent[sent.len() - 1] as u16));
            }
            _ => panic!("the controller is ready"),
        }
    }
}

#[test]
fn configuration_by_default() {
    let config = Config::default();
    assert_eq!(
        config.mode,
        Mode { polarity: Polarity::IdleLow, phase: Phase::CaptureOnFirstTransition }
    );
    assert_eq!(config.bit_order, BitOrder::MsbFirst);
    assert_eq!(config.frequency, 1_000_000);
    assert_eq!(config.miso_pull, Pull::Floating);
    assert_eq!(config.gpio_speed, Speed::VeryHigh);
    assert!(!config.nss_output_disable);
}

#[test]
fn roles_and_words() {
    assert!(Master::is_master());
    assert!(!Slave::is_master());
    assert_eq!(<u8 as Word>::config(), FrameSize::Bit8);
    assert_eq!(<u16 as Word>::config(), FrameSize::Bit16);
    assert_eq!(0xabu8.to_number(), 0xab);
    assert_eq!(0xabcdu16.to_number(), 0xabcd);
}

#[test]
fn errors_in_words() {
    assert_eq!(Error::Framing.message(), "Invalid Framing");
    assert_eq!(Error::Crc.message(), "Hardware CRC Check Failed");
    assert_eq!(Error::ModeFault.message(), "Mode Fault");
    assert_eq!(Error::Overrun.message(), "Buffer Overrun");
    assert_eq!(Error::Framing.kind(), ErrorKind::FrameFormat);
    assert_eq!(Error::Crc.kind(), ErrorKind::Other);
    assert_eq!(Error::ModeFault.kind(), ErrorKind::ModeFault);
    assert_eq!(Error::Overrun.kind(), ErrorKind::Overrun);
}

#[test]
fn errors_by_rank() {
    assert_eq!(check_error_flags(0x8f, true), Ok(()));
    assert_eq!(check_error_flags(0x70, true), Err(Error::Overrun));
    assert_eq!(check_error_flags(0x70, false), Err(Error::ModeFault));
    assert_eq!(check_error_flags(0x30, true), Err(Error::ModeFault));
    assert_eq!(check_error_flags(0x10, true), Err(Error::Crc));
    assert_eq!(check_error_flags(0x40, false), Ok(()));
}

#[test]
fn dividers() {
    let limits = [
        (1, 0),
        (2, 0),
        (3, 1),
        (5, 1),
        (6, 2),
        (11, 2),
        (12, 3),
        (23, 3),
        (24, 4),
        (39, 4),
        (40, 5),
        (95, 5),
        (96, 6),
        (191, 6),
        (192, 7),
        (1000, 7),
    ];
    for (ratio, br) in limits {
        assert_eq!(compute_baud_rate(1000 * ratio, 1000), br);
    }
    assert_eq!(compute_baud_rate(72_000_000, 36_000_001), 0);
    for (br, divider) in [2, 4, 8, 16, 32, 64, 128, 256].into_iter().enumerate() {
        assert_eq!(compute_frequency(72_000_000, br as u8), 72_000_000 / divider);
        // A frequency that can be reached is served exactly.
        assert_eq!(compute_baud_rate(51_200, 51_200 / divider) as usize, br);
    }
}

#[test]
fn slower_is_not_faster_in_a_sweep() {
    let clock = 72_000_000;
    let mut last = 0;
    for frequency in (100_000..72_000_000).step_by(97_003) {
        let served = compute_frequency(clock, compute_baud_rate(clock, frequency));
        assert!(last <= served);
        last = served;
    }
}

#[test]
fn master_is_started() {
    let mut bus = Bus::new();
    let config = Config {
        mode: Mode { polarity: Polarity::IdleHigh, phase: Phase::CaptureOnSecondTransition },
        bit_order: BitOrder::Ltf,
        frequency: 9_000_000,
        gpio_speed: Speed::Low,
        ..Config::default()
    };
    let spi = Spi::new(&mut bus, true, config, 72_000_000);
    assert_eq!(spi.kernel_clock, 72_000_000);
    assert_eq!(spi.current_word_size, FrameSize::Bit8);
    let actions = bus.take();
    assert_eq!(
        actions,
        vec![
            Action::Enable { peripheral: Peripheral::Spi1 },
            Action::Reset { peripheral: Peripheral::Spi1 },
            Action::Unpend { interrupt: Interrupt::Spi1 },
            Action::Unmask { interrupt: Interrupt::Spi1 },
            modify(Register::SpiCtrl2, 4, 4),
            modify(Register::SpiCtrl1, 0xafff, 0x01d7),
        ]
    );
    let ctrl1 = replay(&actions, Register::SpiCtrl1, 0xffff);
    let ctrl2 = replay(&actions, Register::SpiCtrl2, 0);
    let read = spi.get_current_config(ctrl1, ctrl2);
    assert_eq!(read, Config { miso_pull: Pull::Floating, ..config });
    spi.release(&mut bus);
    assert_eq!(bus.take(), vec![Action::Disable { peripheral: Peripheral::Spi1 }]);
}

#[test]
fn chip_select_is_no_output() {
    let mut bus = Bus::new();
    let config = Config { nss_output_disable: true, ..Config::default() };
    // Told to leave it alone.
    let spi = Spi::new(&mut bus, true, config, 72_000_000);
    let actions = bus.take();
    assert!(actions.contains(&modify(Register::SpiCtrl2, 4, 0)));
    assert!(spi.get_current_config(replay(&actions, Register::SpiCtrl1, 0), 0).nss_output_disable);
    // Without a pin it is driven by software.
    let spi = Spi::new_internal(&mut bus, Config::default(), 72_000_000);
    let actions = bus.take();
    let ctrl1 = replay(&actions, Register::SpiCtrl1, 0);
    assert_eq!(ctrl1 & 0x200, 0x200);
    assert!(spi.get_current_config(ctrl1, 4).nss_output_disable);
}

#[test]
fn configuration_is_changed() {
    let mut spi = master();
    let mut bus = Bus::new();
    let config = Config {
        mode: Mode { polarity: Polarity::IdleHigh, phase: Phase::CaptureOnFirstTransition },
        bit_order: BitOrder::Ltf,
        frequency: 72_000_000 / 128,
        ..Config::default()
    };
    assert_eq!(spi.set_config(&mut bus, &config), Ok(()));
    let actions = bus.take();
    assert_eq!(
        actions,
        vec![
            modify(Register::SpiCtrl1, 0x40, 0),
            modify(Register::SpiCtrl1, 0xbb, 0xb2),
            modify(Register::SpiCtrl1, 0, 0x40),
        ]
    );
    let read = spi.get_current_config(replay(&actions, Register::SpiCtrl1, 0x0f45), 4);
    assert_eq!(read.mode, config.mode);
    assert_eq!(read.bit_order, config.bit_order);
    assert_eq!(read.frequency, config.frequency);
}

#[test]
fn direction_is_changed() {
    let mut spi = master();
    let mut bus = Bus::new();
    let cases = [
        (Some(Direction::Transmit), 0xc000),
        (Some(Direction::Receive), 0x8000),
        (None, 0x4000),
    ];
    for (dir, word) in cases {
        spi.set_direction(&mut bus, 0x0047, dir);
        let actions = bus.take();
        assert_eq!(
            actions,
            vec![
                Action::Wait { reg: Register::SpiSts, mask: 2, value: 2 },
                Action::Wait { reg: Register::SpiSts, mask: 0x80, value: 0 },
                modify(Register::SpiCtrl1, 0x40, 0),
                modify(Register::SpiCtrl1, 0xc000, word),
                modify(Register::SpiCtrl1, 0, 0x40),
            ]
        );
        assert_eq!(replay(&actions, Register::SpiCtrl1, 0x0047), 0x0047 | word);
        // A controller that is disabled stays so.
        spi.set_direction(&mut bus, 0x0007, dir);
        let actions = bus.take();
        assert_eq!(actions.len(), 2);
        assert_eq!(replay(&actions, Register::SpiCtrl1, 0x0007), 0x0007 | word);
    }
}

#[test]
fn frame_size_is_changed() {
    let mut spi = master();
    let mut bus = Bus::new();
    spi.set_word_size(&mut bus, FrameSize::Bit8);
    assert_eq!(bus.take(), vec![]);
    spi.set_word_size(&mut bus, FrameSize::Bit16);
    assert_eq!(spi.current_word_size, FrameSize::Bit16);
    assert_eq!(
        bus.take(),
        vec![modify(Register::SpiCtrl1, 0x40, 0), modify(Register::SpiCtrl1, 0x800, 0x800)]
    );
    spi.set_word_size(&mut bus, FrameSize::Bit8);
    assert_eq!(
        bus.take(),
        vec![modify(Register::SpiCtrl1, 0x40, 0), modify(Register::SpiCtrl1, 0x800, 0)]
    );
}

#[test]
fn words_are_written() {
    let mut spi = master();
    let mut bus = Bus::new();
    let mut exchange = spi.write(&mut bus, &[1u8, 2, 0xff]);
    assert_eq!(
        bus.take(),
        vec![modify(Register::SpiCtrl1, 0x40, 0), modify(Register::SpiCtrl1, 0, 0x40), drain()]
    );
    assert_eq!(run(&mut exchange), vec![1, 2, 0xff]);
    assert_eq!(exchange.into_received(), Vec::<u16>::new());
}

#[test]
fn words_are_read() {
    let mut spi = master();
    let mut bus = Bus::new();
    let mut exchange = spi.read::<u16>(&mut bus, 2);
    let actions = bus.take();
    assert_eq!(
        actions,
        vec![
            modify(Register::SpiCtrl1, 0x40, 0),
            modify(Register::SpiCtrl1, 0x40, 0),
            modify(Register::SpiCtrl1, 0x800, 0x800),
            modify(Register::SpiCtrl1, 0, 0x40),
            drain(),
        ]
    );
    assert_eq!(replay(&actions, Register::SpiCtrl1, 0x47), 0x847);
    assert_eq!(run(&mut exchange), vec![0, 0]);
    assert_eq!(exchange.into_received(), vec![0xffff, 0xffff]);
}

#[test]
fn words_are_transferred() {
    let mut spi = master();
    let mut bus = Bus::new();
    // More to receive than to send: zeros follow.
    let mut exchange = spi.transfer(&mut bus, 3, &[0x1234u16]);
    assert_eq!(run(&mut exchange), vec![0x1234, 0, 0]);
    assert_eq!(exchange.into_received(), vec![!0x1234, 0xffff, 0xffff]);
    // More to send than to receive: the rest is dropped.
    let mut exchange = spi.transfer(&mut bus, 1, &[1u16, 2, 3]);
    assert_eq!(run(&mut exchange), vec![1, 2, 3]);
    assert_eq!(exchange.into_received(), vec![!1]);
    let mut exchange = spi.transfer::<u8>(&mut bus, 0, &[]);
    assert_eq!(run(&mut exchange), Vec::<u32>::new());
    let mut exchange = spi.transfer_in_place(&mut bus, &[7u16, 8]);
    assert_eq!(run(&mut exchange), vec![7, 8]);
    assert_eq!(exchange.into_received(), vec![!7, !8]);
}

#[test]
fn exchange_waits_and_fails() {
    let mut bus = Bus::new();
    let mut exchange = Exchange::new(vec![5], 1);
    assert_eq!(exchange.poll(&mut bus, 1), Progress::Pending);
    assert_eq!(bus.take(), vec![modify(Register::SpiCtrl2, 0, 0x80)]);
    assert_eq!(exchange.poll(&mut bus, 0x42), Progress::Failed(Error::Overrun));
    assert_eq!(exchange.poll(&mut bus, 0x22), Progress::Failed(Error::ModeFault));
    assert_eq!(exchange.poll(&mut bus, 0x12), Progress::Failed(Error::Crc));
    assert_eq!(bus.take(), vec![]);
    assert_eq!(exchange.poll(&mut bus, 2), Progress::Sent);
    assert_eq!(bus.take(), vec![Action::Write { reg: Register::SpiDt, value: 5 }]);
    assert_eq!(exchange.poll(&mut bus, 2), Progress::Pending);
    assert_eq!(bus.take(), vec![modify(Register::SpiCtrl2, 0, 0x40)]);
    assert_eq!(exchange.poll(&mut bus, 0x41), Progress::Failed(Error::Overrun));
    assert_eq!(exchange.poll(&mut bus, 1), Progress::Received);
    exchange.take(9);
    assert_eq!(exchange.poll(&mut bus, 0x7f), Progress::Done);
    assert_eq!(exchange.into_received(), vec![9]);
}

#[test]
fn controller_is_interrupted() {
    let mut bus = Bus::new();
    let wake = Action::Wake { waiter: Waiter::Spi1 };
    on_interrupt(&mut bus, 0, 3);
    on_interrupt(&mut bus, 0xc0, 0);
    on_interrupt(&mut bus, 0x80, 1);
    assert_eq!(bus.take(), vec![]);
    on_interrupt(&mut bus, 0x80, 2);
    assert_eq!(bus.take(), vec![modify(Register::SpiCtrl2, 0x80, 0), wake]);
    on_interrupt(&mut bus, 0xc0, 3);
    assert_eq!(
        bus.take(),
        vec![
            modify(Register::SpiCtrl2, 0x80, 0),
            wake,
            modify(Register::SpiCtrl2, 0x40, 0),
            wake,
        ]
    );
}
