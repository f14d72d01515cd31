use at32f4xx_hal::bus::{Action, Bus, Interrupt, Register, Waiter};
use at32f4xx_hal::serial::{
    on_interrupt, Event, Listen, Rx, RxISR, RxListen, Serial, StopBits, Tx, TxISR, TxListen, Usart,
    WriteStep,
};

fn modify(clear: u32, set: u32) -> Action {
    Action::Modify { reg: Register::UsartCtrl1, clear, set }
}

fn interrupt(sts: u32, ctrl1: u32, ctrl3: u32) -> Vec<Action> {
    let mut bus = Bus::new();
    on_interrupt(&mut bus, sts, ctrl1, ctrl3);
    let mut actions = bus.take();
    assert_eq!(actions.pop(), Some(Action::Wake { waiter: Waiter::UsartTx }));
    assert_eq!(actions.pop(), Some(Action::Wake { waiter: Waiter::UsartRx }));
    actions
}

fn serial() -> Serial<char, u32, u8> {
    Tx::new(Usart::Usart2, 't').join(Rx::new(7))
}

#[test]
fn nothing_came() {
    assert_eq!(interrupt(0, 0xffff, 0xffff), vec![]);
    assert_eq!(interrupt(0xffff, 0, 0), vec![]);
}

#[test]
fn what_came_is_disabled() {
    assert_eq!(interrupt(0x10, 0x1f0, 1), vec![modify(0x10, 0)]);
    assert_eq!(interrupt(0x20, 0x1f0, 1), vec![modify(0x20, 0)]);
    assert_eq!(interrupt(0x40, 0x1f0, 1), vec![modify(0x40, 0)]);
    assert_eq!(interrupt(0x80, 0x1f0, 1), vec![modify(0x80, 0)]);
    assert_eq!(
        interrupt(0xf0, 0xf0, 0),
        vec![modify(0x10, 0), modify(0x40, 0), modify(0x80, 0), modify(0x20, 0)]
    );
}

#[test]
fn errors_stop_the_reception() {
    let stop = vec![
        modify(0x130, 0),
        Action::Modify { reg: Register::UsartCtrl3, clear: 0x41, set: 0 },
    ];
    assert_eq!(interrupt(1, 0x100, 0), stop);
    assert_eq!(interrupt(1, 0, 1), vec![]);
    for error in [2, 4, 8] {
        assert_eq!(interrupt(error, 0, 1), stop);
        assert_eq!(interrupt(error, 0x100, 0), vec![]);
    }
}

#[test]
fn events_of_the_serial_port() {
    let mut serial = serial();
    let mut bus = Bus::new();
    for (event, bit) in [(Event::Rxne, 0x20), (Event::Txe, 0x80), (Event::Idle, 0x10)] {
        serial.listen(&mut bus, event);
        serial.unlisten(&mut bus, event);
        assert_eq!(bus.take(), vec![modify(0, bit), modify(bit, 0)]);
    }
    let (mut tx, mut rx) = serial.split();
    tx.listen(&mut bus);
    tx.unlisten(&mut bus);
    assert_eq!(bus.take(), vec![modify(0, 0x80), modify(0x80, 0)]);
    rx.listen(&mut bus);
    rx.unlisten(&mut bus);
    rx.listen_idle(&mut bus);
    rx.unlisten_idle(&mut bus);
    assert_eq!(
        bus.take(),
        vec![modify(0, 0x20), modify(0x20, 0), modify(0, 0x10), modify(0x10, 0)]
    );
    assert!(rx.is_idle(0x10));
    assert!(!rx.is_idle(0xef));
    assert!(rx.is_rx_not_empty(0x20));
    assert!(!rx.is_rx_not_empty(0xdf));
    rx.clear_idle_interrupt(&mut bus);
    assert_eq!(
        bus.take(),
        vec![
            Action::Sample { reg: Register::UsartSts },
            Action::Sample { reg: Register::UsartDt },
        ]
    );
    assert!(tx.is_tx_empty(0x80));
    assert!(!tx.is_tx_empty(0x7f));
}

#[test]
fn halves_are_joined_and_released() {
    let (tx, rx) = serial().with_u16_data().with_u8_data().split();
    let mut serial = rx.join(tx);
    serial.as_tx_mut().pin = 'u';
    assert_eq!((serial.as_tx().pin, serial.as_rx().pin), ('u', 7));
    serial.as_rx_mut().pin = 8;
    assert_eq!((serial.as_tx().pin, serial.as_rx().pin), ('u', 8));
    *serial.as_tx_mut() = Tx::new(Usart::Usart2, 't');
    *serial.as_rx_mut() = Rx::new(7);
    assert_eq!(serial.as_tx().pin, 't');
    assert_eq!(serial.as_tx().usart, Usart::Usart2);
    assert_eq!(serial.as_rx().pin, 7);
    assert_eq!(serial.release(), (Usart::Usart2, ('t', 7)));
}

#[test]
fn peripheral_is_set_up() {
    let mut bus = Bus::new();
    Usart::Usart1.setup_interrupts(&mut bus);
    let interrupt = Interrupt::Usart(Usart::Usart1);
    assert_eq!(bus.take(), vec![Action::Unpend { interrupt }, Action::Unmask { interrupt }]);
    let codes = [
        (StopBits::STOP1, 0),
        (StopBits::STOP0P5, 0x1000),
        (StopBits::STOP2, 0x2000),
        (StopBits::STOP1P5, 0x3000),
    ];
    for (stopbits, value) in codes {
        Usart::Usart1.set_stopbits(&mut bus, stopbits);
        assert_eq!(bus.take(), vec![Action::Write { reg: Register::UsartCtrl2, value }]);
    }
}

#[test]
fn bytes_are_received() {
    let (_, mut rx) = serial().split();
    let mut bus = Bus::new();
    assert_eq!(rx.read(&mut bus, 0), Some(0));
    assert_eq!(bus.take(), vec![]);
    assert_eq!(rx.read(&mut bus, 2), None);
    assert_eq!(bus.take(), vec![modify(0, 0x20)]);
    let mut buf = vec![1, 2];
    assert_eq!(rx.read_ready(&mut buf, None), None);
    assert_eq!(buf, vec![1, 2]);
    assert_eq!(rx.read_ready(&mut buf, Some(9)), Some(1));
    assert_eq!(buf, vec![9, 2]);
}

#[test]
fn bytes_are_sent() {
    let (mut tx, _) = serial().split();
    let mut bus = Bus::new();
    assert_eq!(tx.write(&mut bus, &[]), WriteStep::Nothing);
    assert_eq!(bus.take(), vec![]);
    assert_eq!(tx.write(&mut bus, &[5, 6]), WriteStep::Offer(5));
    assert_eq!(bus.take(), vec![modify(0, 0x80)]);
    assert_eq!(tx.write_ready(false), None);
    assert_eq!(tx.write_ready(true), Some(1));
}
