use at32f4xx_hal::adc::AnalogInput;
use at32f4xx_hal::bits::{bit, bits_if, get_field, has, place};
use at32f4xx_hal::bus::{Action, Bus, Interrupt, Register, Waiter};
use at32f4xx_hal::exti::{
    configure_exti, enable_exti_interrupt, on_interrupt, unmask_exti_int, BitIter, Edge, Exint,
    ExtiExt, ExtiInput,
};
use at32f4xx_hal::gpio::ErasedAltPin;

fn modify(reg: Register, clear: u32, set: u32) -> Action {
    Action::Modify { reg, clear, set }
}

fn replay(actions: &[Action], register: Register, word: u32) -> u32 {
    let mut word = word;
    for action in actions {
        match *action {
            Action::Write { reg, value } if reg == register => word = value,
            Action::Modify { reg, clear, set } if reg == register => word = (word & !clear) | set,
            _ => {}
        }
    }
    word
}

#[test]
fn fields_of_words() {
    assert_eq!(get_field(0x1234_5678, 0xff, 8), 0x56);
    assert_eq!(place(0x1ff, 0xff, 8), 0xff00);
    assert_eq!(get_field(place(0x5a, 0xff, 24), 0xff, 24), 0x5a);
    assert!(has(0x10, 0x30));
    assert!(!has(0x10, 0x20));
    assert_eq!(bits_if(true, 0x30), 0x30);
    assert_eq!(bits_if(false, 0x30), 0);
    assert_eq!(bit(31), 0x8000_0000);
}

#[test]
fn bus_hands_actions_out_in_order() {
    let mut bus = Bus::new();
    assert_eq!(bus.take(), vec![]);
    bus.write(Register::SpiDt, 1);
    bus.modify(Register::SpiCtrl1, 2, 3);
    bus.wait(Register::SpiSts, 4, 5);
    bus.sample(Register::SpiDt);
    bus.wake(Waiter::Spi1);
    bus.unpend_and_unmask(Interrupt::Spi1);
    assert_eq!(
        bus.take(),
        vec![
            Action::Write { reg: Register::SpiDt, value: 1 },
            modify(Register::SpiCtrl1, 2, 3),
            Action::Wait { reg: Register::SpiSts, mask: 4, value: 5 },
            Action::Sample { reg: Register::SpiDt },
            Action::Wake { waiter: Waiter::Spi1 },
            Action::Unpend { interrupt: Interrupt::Spi1 },
            Action::Unmask { interrupt: Interrupt::Spi1 },
        ]
    );
    assert_eq!(bus.take(), vec![]);
}

#[test]
fn set_bits_are_walked() {
    let mut iter = BitIter(0x8000_0005);
    assert_eq!(iter.next(), Some(0));
    assert_eq!(iter.next(), Some(2));
    assert_eq!(iter.next(), Some(31));
    assert_eq!(iter.next(), None);
    assert_eq!(iter.next(), None);
    for word in [0u32, 1, 0xf0f0_1234, 0x7fff_ffff, 0xffff_ffff] {
        let mut iter = BitIter(word);
        let mut walked = vec![];
        while let Some(bit) = iter.next() {
            walked.push(bit);
        }
        let set: Vec<u32> = (0..32).filter(|bit| word & (1 << bit) != 0).collect();
        assert_eq!(walked, set);
    }
}

#[test]
fn lines_are_configured() {
    let mut bus = Bus::new();
    let cases = [
        (0, Register::IomuxExintc1, 0x000f, 0x0002),
        (5, Register::IomuxExintc2, 0x00f0, 0x0020),
        (10, Register::IomuxExintc3, 0x0f00, 0x0200),
        (15, Register::IomuxExintc4, 0xf000, 0x2000),
    ];
    let edges = [(Edge::Rising, true, false), (Edge::Falling, false, true), (Edge::Any, true, true)];
    for (pin, reg, clear, set) in cases {
        for (edge, rising, falling) in edges {
            configure_exti(&mut bus, pin, 2, edge);
            let line = 1 << pin;
            assert_eq!(
                bus.take(),
                vec![
                    modify(reg, clear, set),
                    modify(Register::ExintPolcfg1, line, if rising { line } else { 0 }),
                    modify(Register::ExintPolcfg2, line, if falling { line } else { 0 }),
                    Action::Write { reg: Register::ExintIntsts, value: line },
                ]
            );
        }
        enable_exti_interrupt(&mut bus, pin, true);
        enable_exti_interrupt(&mut bus, pin, false);
        let line = 1 << pin;
        assert_eq!(
            bus.take(),
            vec![modify(Register::ExintInten, line, line), modify(Register::ExintInten, line, 0)]
        );
    }
}

#[test]
fn detected_lines() {
    let mut bus = Bus::new();
    on_interrupt(&mut bus, 0x0042_8003);
    let actions = bus.take();
    assert_eq!(
        actions,
        vec![
            modify(Register::ExintInten, 0x8003, 0),
            Action::Wake { waiter: Waiter::Exint(0) },
            Action::Wake { waiter: Waiter::Exint(1) },
            Action::Wake { waiter: Waiter::Exint(15) },
            Action::Write { reg: Register::ExintIntsts, value: 0x8003 },
        ]
    );
    // Lines that belong to no pin are left alone.
    assert_eq!(replay(&actions, Register::ExintInten, 0x007f_ffff), 0x007f_7ffc);
    on_interrupt(&mut bus, 0x0040_0000);
    assert_eq!(
        bus.take(),
        vec![
            modify(Register::ExintInten, 0, 0),
            Action::Write { reg: Register::ExintIntsts, value: 0 },
        ]
    );
}

#[test]
fn interrupts_of_lines() {
    let interrupts = [
        (0, Interrupt::Exint0),
        (1, Interrupt::Exint1),
        (2, Interrupt::Exint2),
        (3, Interrupt::Exint3),
        (4, Interrupt::Exint4),
        (5, Interrupt::Exint9To5),
        (9, Interrupt::Exint9To5),
        (10, Interrupt::Exint15To10),
        (15, Interrupt::Exint15To10),
    ];
    let mut bus = Bus::new();
    for (n, interrupt) in interrupts {
        unmask_exti_int(&mut bus, n);
        assert_eq!(bus.take(), vec![Action::Unpend { interrupt }, Action::Unmask { interrupt }]);
    }
    unmask_exti_int(&mut bus, 16);
    assert_eq!(bus.take(), vec![]);
}

#[test]
fn edges_are_waited_for() {
    let parts = Exint.split();
    let mut bus = Bus::new();
    let mut input = ExtiInput::new(&mut bus, 1, parts.ch4);
    let interrupt = Interrupt::Exint4;
    assert_eq!(bus.take(), vec![Action::Unpend { interrupt }, Action::Unmask { interrupt }]);
    assert!(input.is_high(0x10));
    assert!(!input.is_high(0xffef));
    assert!(input.is_low(0xffef));

    let expected = |rising, falling| {
        vec![
            modify(Register::IomuxExintc2, 0xf, 1),
            modify(Register::ExintPolcfg1, 0x10, rising),
            modify(Register::ExintPolcfg2, 0x10, falling),
            Action::Write { reg: Register::ExintIntsts, value: 0x10 },
            modify(Register::ExintInten, 0x10, 0x10),
        ]
    };
    let wait = input.wait_for_high(&mut bus);
    assert_eq!(bus.take(), expected(0x10, 0));
    assert!(wait.begins_satisfied(0x10));
    assert!(!wait.begins_satisfied(0));
    let wait = input.wait_for_low(&mut bus);
    assert_eq!(bus.take(), expected(0, 0x10));
    assert!(wait.begins_satisfied(0));
    assert!(!wait.begins_satisfied(0x10));
    let wait = input.wait_for_rising(&mut bus);
    assert_eq!(bus.take(), expected(0x10, 0));
    assert!(!wait.begins_satisfied(0x10));
    let _ = input.wait_for_falling(&mut bus);
    assert_eq!(bus.take(), expected(0, 0x10));
    let wait = input.wait_for_any_edge(&mut bus);
    let actions = bus.take();
    assert_eq!(actions, expected(0x10, 0x10));
    assert!(!wait.begins_satisfied(0));

    // The wait is over once the line was detected.
    let inten = replay(&actions, Register::ExintInten, 0);
    assert!(!wait.poll(inten));
    on_interrupt(&mut bus, 0x10);
    assert!(wait.poll(replay(&bus.take(), Register::ExintInten, inten)));
    wait.release(&mut bus);
    assert_eq!(bus.take(), vec![modify(Register::ExintInten, 0x10, 0)]);
}

#[test]
fn erased_pins() {
    let pin = ErasedAltPin::<()>::new(2, 13, 5);
    assert_eq!((pin.port_id(), pin.pin_id(), pin.alt_num), (2, 13, 5));
    assert_eq!(pin.block(0x4001_0800), 0x4001_1000);
    let packed = pin.into_pin_port();
    assert_eq!(packed, 0x2d);
    let pin = ErasedAltPin::<()>::from_pin_port(packed, 5);
    assert_eq!((pin.port_id(), pin.pin_id(), pin.alt_num), (2, 13, 5));
    let restored = pin.restore::<b'C', 13, 5>();
    assert_eq!((restored.port_id(), restored.pin_id()), (2, 13));
}

#[test]
fn channels_of_analogue_inputs() {
    let inputs = [
        AnalogInput::PA0,
        AnalogInput::PA1,
        AnalogInput::PA2,
        AnalogInput::PA3,
        AnalogInput::PA4,
        AnalogInput::PA5,
        AnalogInput::PA6,
        AnalogInput::PA7,
        AnalogInput::PB0,
        AnalogInput::PB1,
        AnalogInput::PC0,
        AnalogInput::PC1,
        AnalogInput::PC2,
        AnalogInput::PC3,
        AnalogInput::PC4,
        AnalogInput::PC5,
        AnalogInput::Temperature,
        AnalogInput::Vref,
    ];
    for (channel, input) in inputs.into_iter().enumerate() {
        assert_eq!(input.channel() as usize, channel);
    }
}
