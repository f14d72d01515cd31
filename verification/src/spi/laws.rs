//! What holds of the SPI bus as a whole.
use crate::bits;
use crate::bus;
use crate::bus::{Action, Register, Waiter};
use crate::rate::Hertz;
use crate::spi;
use crate::spi::exchange::{Exchange, Progress};
use crate::spi::{
    BitOrder, Config, Direction, Error, FrameSize, Phase, Polarity, Pull, Speed, Word,
};
use vstd::prelude::*;

verus! {

/// A complete exchange sent all words, followed by zeros if more were to be kept, and kept the first
/// words that came in, as many as were wanted.
pub proof fn law_complete_exchange(exchange: Exchange)
    requires
        exchange.wf(),
        exchange.index == exchange.total(),
    ensures
        exchange.outgoing@ == exchange.words@ + Seq::new(
            (exchange.total() - exchange.words@.len()) as nat,
            |i: int| 0u16,
        ),
        exchange.incoming@.len() == exchange.total(),
        exchange.received@ == exchange.incoming@.take(exchange.wanted as int),
{
    assert(exchange.outgoing@ =~= exchange.words@ + Seq::new(
        (exchange.total() - exchange.words@.len()) as nat,
        |i: int| 0u16,
    ));
}

/// An exchange takes as many steps as there are words to send or to keep, whichever is more. It fails
/// on an error, of which an overrun comes first and a wrong checksum last; it sends a word when there
/// is room, takes one in when there is one, and waits else.
pub proof fn law_exchange_goes_on_when_it_can(exchange: Exchange, sts: u32)
    requires
        exchange.wf(),
    ensures
        ({
            let progress = exchange.progress(sts);
            let complete = exchange.index >= exchange.words@.len() && exchange.index
                >= exchange.wanted;
            let failed = sts & 0x40 != 0 || sts & 0x20 != 0 || sts & 0x10 != 0;
            let going = !complete && !failed;
            &&& progress == Progress::Done <==> complete
            &&& progress == Progress::Failed(Error::Overrun) <==> !complete && sts & 0x40 != 0
            &&& progress == Progress::Failed(Error::ModeFault) <==> !complete && sts & 0x40 == 0
                && sts & 0x20 != 0
            &&& progress == Progress::Failed(Error::Crc) <==> !complete && sts & 0x40 == 0 && sts
                & 0x20 == 0 && sts & 0x10 != 0
            &&& progress == Progress::Sent <==> going && !exchange.sent && sts & 2 != 0
            &&& progress == Progress::Received <==> going && exchange.sent && sts & 1 != 0
            &&& progress == Progress::Pending <==> going && if exchange.sent {
                sts & 1 == 0
            } else {
                sts & 2 == 0
            }
        }),
{
}

/// A step does on the bus what it tells: a word is written to the data register exactly when one is
/// sent, the next of the words or a zero after the last; the data register is read exactly when a
/// word is received; a step that waits enables the one interrupt that ends the wait, and no other.
pub proof fn law_exchange_step_on_the_bus(exchange: Exchange, sts: u32, ctrl2: u32)
    requires
        exchange.wf(),
    ensures
        ({
            let progress = exchange.progress(sts);
            let actions = exchange.step_actions(sts);
            let next = if exchange.index < exchange.words@.len() {
                exchange.words@[exchange.index as int] as u32
            } else {
                0
            };
            let after = bus::replayed(actions, Register::SpiCtrl2, ctrl2);
            &&& progress == Progress::Sent ==> actions == seq![
                Action::Write { reg: Register::SpiDt, value: next },
            ]
            &&& progress == Progress::Received ==> actions == seq![
                Action::Sample { reg: Register::SpiDt },
            ]
            &&& progress == Progress::Pending ==> {
                &&& actions.len() == 1
                &&& bus::leaves_alone(actions, Register::SpiDt)
                &&& exchange.sent ==> after & 0x40 == 0x40 && after & !0x40u32 == ctrl2 & !0x40u32
                &&& !exchange.sent ==> after & 0x80 == 0x80 && after & !0x80u32 == ctrl2 & !0x80u32
            }
            &&& (progress == Progress::Done || progress is Failed) ==> actions.len() == 0
        }),
{
    reveal_with_fuel(bus::replayed, 2);
    let actions = exchange.step_actions(sts);
    lemma_switch_words(ctrl2, 0, false);
    if actions.len() > 0 {
        assert(actions.drop_last() =~= Seq::<Action>::empty());
    }
}

/// The interrupt ends exactly the waits that are over: if there is room for a word and the interrupt
/// for that is enabled, or a word came in and the interrupt for that is enabled, the task is woken and
/// that interrupt disabled, whatever the state of the other. Nothing else happens.
pub proof fn law_interrupt_ends_the_waits_that_are_over(ctrl2: u32, sts: u32)
    ensures
        ({
            let actions = spi::interrupt_actions(ctrl2, sts);
            let after = bus::replayed(actions, Register::SpiCtrl2, ctrl2);
            let room = ctrl2 & 0x80 != 0 && sts & 2 != 0;
            let came = ctrl2 & 0x40 != 0 && sts & 1 != 0;
            &&& actions.contains(Action::Wake { waiter: Waiter::Spi1 }) <==> room || came
            &&& after & 0x80 != 0 <==> ctrl2 & 0x80 != 0 && !room
            &&& after & 0x40 != 0 <==> ctrl2 & 0x40 != 0 && !came
            &&& after & !0xc0u32 == ctrl2 & !0xc0u32
            &&& forall|i: int|
                0 <= i < actions.len() ==> #[trigger] actions[i] == (Action::Wake {
                    waiter: Waiter::Spi1,
                }) || (actions[i] matches Action::Modify { reg, .. } && reg == Register::SpiCtrl2)
        }),
{
    reveal_with_fuel(bus::replayed, 5);
    let actions = spi::interrupt_actions(ctrl2, sts);
    let wake = Action::Wake { waiter: Waiter::Spi1 };
    let room = ctrl2 & 0x80 != 0 && sts & 2 != 0;
    let came = ctrl2 & 0x40 != 0 && sts & 1 != 0;
    lemma_switch_words(ctrl2, 0, false);
    if room && came {
        assert(actions[1] == wake);
        assert(actions.drop_last() =~= seq![actions[0], actions[1], actions[2]]);
        assert(actions.drop_last().drop_last() =~= seq![actions[0], actions[1]]);
        assert(actions.drop_last().drop_last().drop_last() =~= seq![actions[0]]);
    } else if room || came {
        assert(actions[1] == wake);
        assert(actions.drop_last() =~= seq![actions[0]]);
    } else {
        assert(actions =~= Seq::<Action>::empty());
    }
}

/// An exchange that waits is woken: once it waits, any status with which it could go on makes the
/// interrupt wake its task.
pub proof fn law_waiting_exchange_is_woken(exchange: Exchange, sts: u32, later: u32, ctrl2: u32)
    requires
        exchange.wf(),
        exchange.progress(sts) == Progress::Pending,
        exchange.progress(later) == Progress::Sent || exchange.progress(later)
            == Progress::Received,
    ensures
        ({
            let enabled = bus::replayed(exchange.step_actions(sts), Register::SpiCtrl2, ctrl2);
            spi::interrupt_actions(enabled, later).contains(Action::Wake { waiter: Waiter::Spi1 })
        }),
{
    let enabled = bus::replayed(exchange.step_actions(sts), Register::SpiCtrl2, ctrl2);
    law_exchange_goes_on_when_it_can(exchange, sts);
    law_exchange_goes_on_when_it_can(exchange, later);
    law_exchange_step_on_the_bus(exchange, sts, ctrl2);
    law_interrupt_ends_the_waits_that_are_over(enabled, later);
}

/// At any time the words that were sent are the first of the words to send, followed by zeros, and
/// what was kept are the first words that came in, as many as are wanted.
pub proof fn law_exchange_keeps_the_order(exchange: Exchange, i: int)
    requires
        exchange.wf(),
    ensures
        0 <= i < exchange.outgoing@.len() ==> exchange.outgoing@[i] == if i
            < exchange.words@.len() {
            exchange.words@[i]
        } else {
            0
        },
        exchange.outgoing@.len() == exchange.incoming@.len() + if exchange.sent {
            1int
        } else {
            0int
        },
        exchange.received@.len() == if exchange.incoming@.len() < exchange.wanted {
            exchange.incoming@.len()
        } else {
            exchange.wanted as nat
        },
        0 <= i < exchange.received@.len() ==> exchange.received@[i] == exchange.incoming@[i],
{
}

/// An exchange that was started has all its words to send, keeps none yet and has sent none.
pub proof fn law_fresh_exchange_has_everything_to_do(
    exchange: Exchange,
    words: Seq<u16>,
    wanted: nat,
)
    requires
        exchange.fresh(words, wanted),
    ensures
        exchange.wf(),
        exchange.words@ == words,
        exchange.wanted == wanted,
        exchange.outgoing@.len() == 0,
        exchange.incoming@.len() == 0,
        exchange.received@.len() == 0,
{
}

/// Words are sent as they are, one for one, in frames of their width.
pub proof fn law_words_are_sent_as_they_are(bytes: Seq<u8>, words: Seq<u16>, i: int)
    ensures
        spi::numbers(bytes).len() == bytes.len(),
        spi::numbers(words).len() == words.len(),
        0 <= i < bytes.len() ==> spi::numbers(bytes)[i] == bytes[i],
        0 <= i < words.len() ==> spi::numbers(words)[i] == words[i],
        <u8 as Word>::frame() == FrameSize::Bit8,
        <u16 as Word>::frame() == FrameSize::Bit16,
{
}

/// The divider that is chosen is near the ratio of the clock and the frequency: at most one and a half
/// times too small and eight fifths too large, unless the ratio lies outside of what dividers reach.
pub proof fn law_divider_is_near_the_ratio(ratio: int)
    requires
        ratio >= 1,
    ensures
        ({
            let divider = spi::divider(spi::divider_code(ratio)) as int;
            &&& 2 <= divider <= 256
            &&& divider > 2 ==> 5 * divider <= 8 * ratio
            &&& divider < 256 ==> 2 * ratio < 3 * divider
        }),
{
}

/// Which ratios of clock and frequency each divider serves; together these are all.
pub proof fn law_ratios_of_the_dividers(ratio: int)
    ensures
        ({
            let divider = spi::divider(spi::divider_code(ratio));
            &&& divider == 2 <==> ratio < 3
            &&& divider == 4 <==> 3 <= ratio < 6
            &&& divider == 8 <==> 6 <= ratio < 12
            &&& divider == 16 <==> 12 <= ratio < 24
            &&& divider == 32 <==> 24 <= ratio < 40
            &&& divider == 64 <==> 40 <= ratio < 96
            &&& divider == 128 <==> 96 <= ratio < 192
            &&& divider == 256 <==> 192 <= ratio
        }),
{
}

/// What the control registers say is what is read of them, bit by bit.
pub proof fn law_configuration_is_read_by_its_bits(
    kernel_clock: Hertz,
    gpio_speed: Speed,
    ctrl1: u32,
    ctrl2: u32,
)
    ensures
        ({
            let read = spi::config_of(kernel_clock, gpio_speed, ctrl1, ctrl2);
            &&& read.mode.phase == Phase::CaptureOnSecondTransition <==> ctrl1 & 1 != 0
            &&& read.mode.polarity == Polarity::IdleHigh <==> ctrl1 & 2 != 0
            &&& read.bit_order == BitOrder::Ltf <==> ctrl1 & 0x80 != 0
            &&& read.frequency == kernel_clock / spi::divider(((ctrl1 >> 3) & 7) as u8)
            &&& !read.nss_output_disable <==> ctrl2 & 4 != 0 && ctrl1 & 0x200 == 0
            &&& read.miso_pull == Pull::Floating
            &&& read.gpio_speed == gpio_speed
        }),
{
}

/// The error that a status tells: an overrun, which may be left out, before a mode fault, before a
/// wrong checksum.
pub proof fn law_errors_are_told_in_order(sts: u32, ovr: bool)
    ensures
        ({
            let error = spi::error_in(sts, ovr);
            let overrun = ovr && sts & 0x40 != 0;
            &&& error == Some(Error::Overrun) <==> overrun
            &&& error == Some(Error::ModeFault) <==> !overrun && sts & 0x20 != 0
            &&& error == Some(Error::Crc) <==> !overrun && sts & 0x20 == 0 && sts & 0x10 != 0
            &&& error is None <==> !overrun && sts & 0x20 == 0 && sts & 0x10 == 0
        }),
{
}

/// The direction is changed while the controller is off. If it was on, that waits until everything was
/// sent, and it is switched on again at the end; what is done depends on nothing else.
pub proof fn law_direction_changes_when_idle(dir: Option<Direction>, ctrl1: u32, other: u32)
    ensures
        ({
            let actions = spi::direction_actions(dir, ctrl1);
            let off = Action::Modify { reg: Register::SpiCtrl1, clear: 0x40, set: 0 };
            let on = Action::Modify { reg: Register::SpiCtrl1, clear: 0, set: 0x40 };
            &&& ctrl1 & 0x40 != 0 ==> {
                &&& actions.len() == 5
                &&& actions[0] == (Action::Wait { reg: Register::SpiSts, mask: 2, value: 2 })
                &&& actions[1] == (Action::Wait { reg: Register::SpiSts, mask: 0x80, value: 0 })
                &&& actions[2] == off
                &&& actions[4] == on
            }
            &&& ctrl1 & 0x40 == 0 ==> actions.len() == 2 && actions[0] == off
            &&& ctrl1 & 0x40 == other & 0x40 ==> actions == spi::direction_actions(dir, other)
        }),
        dir is Some ==> spi::direction_bits(dir) & 0x8000 == 0x8000,
        spi::direction_bits(dir) & 0x4000 == 0 <==> dir == Some(Direction::Receive),
        dir is None ==> spi::direction_bits(dir) == 0x4000,
{
    lemma_switch_words(ctrl1, 0, false);
}

/// Each divider is twice the one before.
pub proof fn law_dividers_double(br: u8)
    requires
        br < 7,
    ensures
        spi::divider(0) == 2,
        spi::divider((br + 1) as u8) == 2 * spi::divider(br),
{
}

/// A frequency that is not higher is never served by a faster clock.
pub proof fn law_slower_is_not_faster(kernel_clock: Hertz, slow: Hertz, fast: Hertz)
    requires
        0 < slow <= fast <= kernel_clock,
    ensures
        kernel_clock / spi::divider(spi::divider_code(kernel_clock as int / slow as int))
            <= kernel_clock / spi::divider(spi::divider_code(kernel_clock as int / fast as int)),
{
    let a = kernel_clock as int / slow as int;
    let b = kernel_clock as int / fast as int;
    assert(b <= a) by (nonlinear_arith)
        requires
            a == kernel_clock as int / slow as int,
            b == kernel_clock as int / fast as int,
            0 < slow <= fast,
    ;
    lemma_code_is_monotone(b, a);
    let slow_divider = spi::divider(spi::divider_code(a));
    let fast_divider = spi::divider(spi::divider_code(b));
    assert(kernel_clock / slow_divider <= kernel_clock / fast_divider) by (nonlinear_arith)
        requires
            0 < fast_divider <= slow_divider,
    ;
}

proof fn lemma_code_is_monotone(small: int, large: int)
    requires
        small <= large,
    ensures
        spi::divider_code(small) <= spi::divider_code(large),
        spi::divider(spi::divider_code(small)) <= spi::divider(spi::divider_code(large)),
{
}

/// A frequency that a divider reaches exactly is served exactly.
pub proof fn law_exact_frequencies_are_served(kernel_clock: Hertz, br: u8)
    requires
        br <= 7,
        kernel_clock > 0,
        kernel_clock % spi::divider(br) == 0,
    ensures
        ({
            let frequency = kernel_clock / spi::divider(br);
            &&& spi::divider_code(kernel_clock as int / frequency as int) == br
            &&& kernel_clock / spi::divider(
                spi::divider_code(kernel_clock as int / frequency as int),
            ) == frequency
        }),
{
    let d = spi::divider(br) as int;
    let f = (kernel_clock / spi::divider(br)) as int;
    assert(kernel_clock as int / f == d) by (nonlinear_arith)
        requires
            f == kernel_clock as int / d,
            kernel_clock as int % d == 0,
            kernel_clock > 0,
            d > 0,
    ;
}

proof fn lemma_config_word(
    ctrl1: u32,
    phase: bool,
    polarity: bool,
    order: bool,
    br: u32,
    rest: u32,
    clear: u32,
)
    by (bit_vector)
    requires
        br <= 7,
        rest & spi::CTRL1_CONFIG == 0,
        clear & spi::CTRL1_CONFIG == spi::CTRL1_CONFIG,
    ensures
        ({
            let format = bits::when(phase, spi::CTRL1_CLKPHA) | bits::when(
                polarity,
                spi::CTRL1_CLKPOL,
            ) | bits::when(order, spi::CTRL1_LTF);
            let after = bits::modified(ctrl1, clear, (format | bits::placed(br, 7, 3)) | rest);
            &&& bits::any_set(after, spi::CTRL1_CLKPHA) == phase
            &&& bits::any_set(after, spi::CTRL1_CLKPOL) == polarity
            &&& bits::any_set(after, spi::CTRL1_LTF) == order
            &&& bits::field(after, 7, 3) == br
            &&& after & !clear == (ctrl1 | rest) & !clear
            &&& after & (clear & !spi::CTRL1_CONFIG) == rest & (clear & !spi::CTRL1_CONFIG)
        }),
{
}

proof fn lemma_enable_words(ctrl1: u32)
    by (bit_vector)
    ensures
        ({
            let off = bits::modified(ctrl1, spi::CTRL1_SPIEN, 0);
            let on = bits::modified(ctrl1, 0, spi::CTRL1_SPIEN);
            &&& !bits::any_set(off, spi::CTRL1_SPIEN)
            &&& off & !spi::CTRL1_SPIEN == ctrl1 & !spi::CTRL1_SPIEN
            &&& bits::any_set(on, spi::CTRL1_SPIEN)
            &&& on & !spi::CTRL1_SPIEN == ctrl1 & !spi::CTRL1_SPIEN
        }),
        forall|a: u32, b: u32|
            #![trigger a & spi::CTRL1_FBN, b & spi::CTRL1_FBN]
            a & !spi::CTRL1_SPIEN == b & !spi::CTRL1_SPIEN ==> a & spi::CTRL1_FBN == b
                & spi::CTRL1_FBN,
        forall|a: u32, b: u32|
            #![trigger bits::field(a, 7, 3), bits::field(b, 7, 3)]
            a & !spi::CTRL1_SPIEN == b & !spi::CTRL1_SPIEN ==> bits::field(a, 7, 3) == bits::field(
                b,
                7,
                3,
            ) && a & spi::CTRL1_CLKPHA == b & spi::CTRL1_CLKPHA && a & spi::CTRL1_CLKPOL == b
                & spi::CTRL1_CLKPOL && a & spi::CTRL1_LTF == b & spi::CTRL1_LTF && a
                & spi::CTRL1_SWCSEN == b & spi::CTRL1_SWCSEN,
        0u32 & spi::CTRL1_CONFIG == 0,
        spi::CTRL1_CONFIG & spi::CTRL1_CONFIG == spi::CTRL1_CONFIG,
        forall|a: u32| #[trigger] (a | 0) == a,
        forall|a: u32, b: u32|
            #![trigger a & !spi::CTRL1_CONFIG, b & !spi::CTRL1_CONFIG]
            a & !spi::CTRL1_CONFIG == b & !spi::CTRL1_CONFIG ==> a & spi::CTRL1_SWCSEN == b
                & spi::CTRL1_SWCSEN,
        forall|a: u32, b: u32|
            #![trigger a & !0xfbu32, b & !0xfbu32]
            a & !spi::CTRL1_CONFIG == b & !spi::CTRL1_CONFIG || a & !spi::CTRL1_SPIEN == b
                & !spi::CTRL1_SPIEN ==> a & !0xfbu32 == b & !0xfbu32,
{
}

/// The configuration that was set is the one that is read: mode and bit order are as asked for, the
/// frequency is that of the divider that was chosen, and the controller is enabled. Whether the chip
/// select is an output is as before, as is every other bit.
pub proof fn law_configuration_reads_back(
    kernel_clock: Hertz,
    gpio_speed: Speed,
    config: Config,
    ctrl1: u32,
    ctrl2: u32,
)
    requires
        config.reachable(kernel_clock),
    ensures
        ({
            let actions = spi::config_actions(kernel_clock, config);
            let after = bus::replayed(actions, Register::SpiCtrl1, ctrl1);
            let ctrl2_after = bus::replayed(actions, Register::SpiCtrl2, ctrl2);
            let read = spi::config_of(kernel_clock, gpio_speed, after, ctrl2_after);
            let before = spi::config_of(kernel_clock, gpio_speed, ctrl1, ctrl2);
            &&& read.mode == config.mode
            &&& read.bit_order == config.bit_order
            &&& read.frequency == kernel_clock / spi::divider(
                spi::divider_code(kernel_clock as int / config.frequency as int),
            )
            &&& read.nss_output_disable == before.nss_output_disable
            &&& bits::any_set(after, spi::CTRL1_SPIEN)
            &&& after & 1 != 0 <==> config.mode.phase == Phase::CaptureOnSecondTransition
            &&& after & 2 != 0 <==> config.mode.polarity == Polarity::IdleHigh
            &&& after & 0x80 != 0 <==> config.bit_order == BitOrder::Ltf
            &&& (after >> 3) & 7 == spi::divider_code(
                kernel_clock as int / config.frequency as int,
            )
            &&& after & !0xfbu32 == ctrl1 & !0xfbu32
            &&& ctrl2_after == ctrl2
        }),
{
    reveal_with_fuel(bus::replayed, 4);
    let actions = spi::config_actions(kernel_clock, config);
    assert(actions.drop_last() == seq![actions[0], actions[1]]);
    assert(actions.drop_last().drop_last() == seq![actions[0]]);
    bus::law_replay_leaves_alone(actions, Register::SpiCtrl2, ctrl2);
    let br = spi::divider_code(kernel_clock as int / config.frequency as int) as u32;
    let off = bits::modified(ctrl1, spi::CTRL1_SPIEN, 0);
    let set = config.format_bits() | bits::placed(br, 7, 3);
    let configured = bits::modified(off, spi::CTRL1_CONFIG, set);
    let after = bits::modified(configured, 0, spi::CTRL1_SPIEN);
    lemma_enable_words(ctrl1);
    lemma_enable_words(configured);
    lemma_config_word(
        off,
        config.mode.phase == Phase::CaptureOnSecondTransition,
        config.mode.polarity == Polarity::IdleHigh,
        config.bit_order == BitOrder::Ltf,
        br,
        0,
        spi::CTRL1_CONFIG,
    );
    assert(set | 0 == set);
    assert(configured & !spi::CTRL1_CONFIG == off & !spi::CTRL1_CONFIG);
    assert(bits::field(after, 7, 3) == bits::field(configured, 7, 3));
    assert(bits::field(off, 7, 3) == bits::field(ctrl1, 7, 3));
    assert(after & !0xfbu32 == configured & !0xfbu32);
    assert(configured & !0xfbu32 == off & !0xfbu32);
    assert(off & !0xfbu32 == ctrl1 & !0xfbu32);
}

proof fn lemma_init_rest(ctrl1: u32, format: u32, place: u32, master: bool, nss: bool)
    by (bit_vector)
    ensures
        ({
            let rest = bits::when(master, spi::CTRL1_MSTEN) | spi::CTRL1_SPIEN | bits::when(
                master,
                spi::CTRL1_SWCSIL,
            ) | bits::when(!nss, spi::CTRL1_SWCSEN);
            &&& rest & spi::CTRL1_CONFIG == 0
            &&& (format | bits::when(master, spi::CTRL1_MSTEN) | place | spi::CTRL1_SPIEN
                | bits::when(master, spi::CTRL1_SWCSIL) | bits::when(!nss, spi::CTRL1_SWCSEN)) == (
            format | place) | rest
            &&& rest & spi::CTRL1_SPIEN == spi::CTRL1_SPIEN
            &&& (rest & spi::CTRL1_SWCSEN != 0) == !nss
            &&& (rest & spi::CTRL1_MSTEN != 0) == master
            &&& rest & spi::CTRL1_FBN == 0
            &&& (rest & spi::CTRL1_SWCSIL != 0) == master
            &&& rest & 0xac00u32 == 0
            &&& (ctrl1 | rest) & !spi::CTRL1_INIT == ctrl1 & !spi::CTRL1_INIT
        }),
        spi::CTRL1_INIT == 0xafff,
        spi::CTRL1_INIT & spi::CTRL1_CONFIG == spi::CTRL1_CONFIG,
        forall|a: u32, b: u32|
            #![trigger a & (spi::CTRL1_INIT & !spi::CTRL1_CONFIG), b & (spi::CTRL1_INIT & !spi::CTRL1_CONFIG)]
            a & (spi::CTRL1_INIT & !spi::CTRL1_CONFIG) == b & (spi::CTRL1_INIT
                & !spi::CTRL1_CONFIG) ==> a & spi::CTRL1_SPIEN == b & spi::CTRL1_SPIEN && a
                & spi::CTRL1_SWCSEN == b & spi::CTRL1_SWCSEN && a & spi::CTRL1_MSTEN == b
                & spi::CTRL1_MSTEN && a & spi::CTRL1_FBN == b & spi::CTRL1_FBN && a
                & spi::CTRL1_SWCSIL == b & spi::CTRL1_SWCSIL && a & 0xac00u32 == b & 0xac00u32,
        spi::CTRL1_SPIEN != 0,
        bits::modified(ctrl1, spi::CTRL2_HWCSOE, spi::CTRL2_HWCSOE) & !4u32 == ctrl1 & !4u32,
        bits::modified(ctrl1, spi::CTRL2_HWCSOE, 0) & !4u32 == ctrl1 & !4u32,
        bits::any_set(bits::modified(ctrl1, spi::CTRL2_HWCSOE, spi::CTRL2_HWCSOE), spi::CTRL2_HWCSOE),
        !bits::any_set(bits::modified(ctrl1, spi::CTRL2_HWCSOE, 0), spi::CTRL2_HWCSOE),
{
}

/// The configuration with which a driver is started is the one that is read. The role is the one
/// asked for, frames have 8 bits, and the controller is enabled. The chip select is an output exactly
/// of a master that has a pin for it and was not told to leave it alone.
pub proof fn law_started_configuration_reads_back(
    master: bool,
    nss: bool,
    kernel_clock: Hertz,
    gpio_speed: Speed,
    config: Config,
    ctrl1: u32,
    ctrl2: u32,
)
    requires
        config.reachable(kernel_clock),
    ensures
        ({
            let actions = spi::init_actions(master, nss, kernel_clock, config);
            let after = bus::replayed(actions, Register::SpiCtrl1, ctrl1);
            let ctrl2_after = bus::replayed(actions, Register::SpiCtrl2, ctrl2);
            let read = spi::config_of(kernel_clock, gpio_speed, after, ctrl2_after);
            &&& read.mode == config.mode
            &&& read.bit_order == config.bit_order
            &&& read.frequency == kernel_clock / spi::divider(
                spi::divider_code(kernel_clock as int / config.frequency as int),
            )
            &&& read.nss_output_disable == !(master && nss && !config.nss_output_disable)
            &&& bits::any_set(after, spi::CTRL1_MSTEN) == master
            &&& bits::any_set(after, spi::CTRL1_SPIEN)
            &&& !bits::any_set(after, spi::CTRL1_FBN)
            &&& after & 1 != 0 <==> config.mode.phase == Phase::CaptureOnSecondTransition
            &&& after & 2 != 0 <==> config.mode.polarity == Polarity::IdleHigh
            &&& after & 0x80 != 0 <==> config.bit_order == BitOrder::Ltf
            &&& (after >> 3) & 7 == spi::divider_code(
                kernel_clock as int / config.frequency as int,
            )
            &&& after & 0x4 != 0 <==> master
            &&& after & 0x40 != 0
            &&& after & 0x100 != 0 <==> master
            &&& after & 0x200 != 0 <==> !nss
            &&& after & 0xac00 == 0
            &&& after & !0xafffu32 == ctrl1 & !0xafffu32
            &&& ctrl2_after & 4 != 0 <==> master && !config.nss_output_disable
            &&& ctrl2_after & !4u32 == ctrl2 & !4u32
        }),
{
    reveal_with_fuel(bus::replayed, 3);
    let actions = spi::init_actions(master, nss, kernel_clock, config);
    let head = actions.drop_last();
    let first = head.drop_last();
    assert(first =~= seq![actions[0], actions[1], actions[2], actions[3]]);
    bus::law_replay_leaves_alone(head, Register::SpiCtrl1, ctrl1);
    bus::law_replay_leaves_alone(first, Register::SpiCtrl2, ctrl2);
    let br = spi::divider_code(kernel_clock as int / config.frequency as int) as u32;
    let format = config.format_bits();
    let place = bits::placed(br, 7, 3);
    let rest = bits::when(master, spi::CTRL1_MSTEN) | spi::CTRL1_SPIEN | bits::when(
        master,
        spi::CTRL1_SWCSIL,
    ) | bits::when(!nss, spi::CTRL1_SWCSEN);
    lemma_init_rest(ctrl1, format, place, master, nss);
    lemma_init_rest(ctrl2, format, place, master, nss);
    lemma_config_word(
        ctrl1,
        config.mode.phase == Phase::CaptureOnSecondTransition,
        config.mode.polarity == Polarity::IdleHigh,
        config.bit_order == BitOrder::Ltf,
        br,
        rest,
        spi::CTRL1_INIT,
    );
}

proof fn lemma_switch_words(ctrl1: u32, direction: u32, wide: bool)
    by (bit_vector)
    ensures
        direction & !(spi::CTRL1_SLBEN | spi::CTRL1_SLBTD) == 0 ==> ({
            let changed = bits::modified(
                bits::modified(ctrl1, spi::CTRL1_SPIEN, 0),
                spi::CTRL1_SLBEN | spi::CTRL1_SLBTD,
                direction,
            );
            let restored = bits::modified(changed, 0, spi::CTRL1_SPIEN);
            let kept = !(spi::CTRL1_SLBEN | spi::CTRL1_SLBTD);
            &&& changed & (spi::CTRL1_SLBEN | spi::CTRL1_SLBTD) == direction
            &&& restored & (spi::CTRL1_SLBEN | spi::CTRL1_SLBTD) == direction
            &&& !bits::any_set(ctrl1, spi::CTRL1_SPIEN) ==> changed & kept == ctrl1 & kept
            &&& bits::any_set(ctrl1, spi::CTRL1_SPIEN) ==> restored & kept == ctrl1 & kept
        }),
        (spi::CTRL1_SLBEN | spi::CTRL1_SLBTD) & !(spi::CTRL1_SLBEN | spi::CTRL1_SLBTD) == 0,
        spi::CTRL1_SLBEN & !(spi::CTRL1_SLBEN | spi::CTRL1_SLBTD) == 0,
        spi::CTRL1_SLBTD & !(spi::CTRL1_SLBEN | spi::CTRL1_SLBTD) == 0,
        !!(spi::CTRL1_SLBEN | spi::CTRL1_SLBTD) == (spi::CTRL1_SLBEN | spi::CTRL1_SLBTD),
        (spi::CTRL1_SLBEN | spi::CTRL1_SLBTD) & 0x8000 == 0x8000,
        (spi::CTRL1_SLBEN | spi::CTRL1_SLBTD) & 0x4000 == 0x4000,
        spi::CTRL1_SLBEN & 0x8000 == 0x8000,
        spi::CTRL1_SLBEN & 0x4000 == 0,
        spi::CTRL1_SLBTD & 0x4000 == 0x4000,
        ({
            let set = bits::modified(
                bits::modified(bits::modified(ctrl1, spi::CTRL1_SPIEN, 0), spi::CTRL1_SPIEN, 0),
                spi::CTRL1_FBN,
                bits::when(wide, spi::CTRL1_FBN),
            );
            let after = bits::modified(set, 0, spi::CTRL1_SPIEN);
            &&& bits::any_set(after, spi::CTRL1_FBN) == wide
            &&& bits::any_set(after, spi::CTRL1_SPIEN)
            &&& after & !0x840u32 == ctrl1 & !0x840u32
        }),
        ({
            let after = bits::modified(
                bits::modified(ctrl1, spi::CTRL1_SPIEN, 0),
                0,
                spi::CTRL1_SPIEN,
            );
            &&& bits::any_set(after, spi::CTRL1_FBN) == bits::any_set(ctrl1, spi::CTRL1_FBN)
            &&& bits::any_set(after, spi::CTRL1_SPIEN)
            &&& after & !0x840u32 == ctrl1 & !0x840u32
        }),
        // The interrupts of the second control register.
        ({
            let tx = bits::modified(ctrl1, spi::CTRL2_TDBEIE, 0);
            let rx = bits::modified(ctrl1, spi::CTRL2_RDBFIE, 0);
            let both = bits::modified(tx, spi::CTRL2_RDBFIE, 0);
            let wait_tx = bits::modified(ctrl1, 0, spi::CTRL2_TDBEIE);
            let wait_rx = bits::modified(ctrl1, 0, spi::CTRL2_RDBFIE);
            &&& tx & 0x80 == 0 && tx & 0x40 == ctrl1 & 0x40 && tx & !0xc0u32 == ctrl1 & !0xc0u32
            &&& rx & 0x40 == 0 && rx & 0x80 == ctrl1 & 0x80 && rx & !0xc0u32 == ctrl1 & !0xc0u32
            &&& both & 0x40 == 0 && both & 0x80 == 0 && both & !0xc0u32 == ctrl1 & !0xc0u32
            &&& wait_tx & 0x80 == 0x80 && wait_tx & !0x80u32 == ctrl1 & !0x80u32
            &&& wait_rx & 0x40 == 0x40 && wait_rx & !0x40u32 == ctrl1 & !0x40u32
        }),
{
}

proof fn lemma_direction_words(ctrl1: u32, direction: u32)
    requires
        direction & !(spi::CTRL1_SLBEN | spi::CTRL1_SLBTD) == 0,
    ensures
        ({
            let changed = bits::modified(
                bits::modified(ctrl1, spi::CTRL1_SPIEN, 0),
                spi::CTRL1_SLBEN | spi::CTRL1_SLBTD,
                direction,
            );
            let restored = bits::modified(changed, 0, spi::CTRL1_SPIEN);
            let kept = !(spi::CTRL1_SLBEN | spi::CTRL1_SLBTD);
            &&& changed & (spi::CTRL1_SLBEN | spi::CTRL1_SLBTD) == direction
            &&& restored & (spi::CTRL1_SLBEN | spi::CTRL1_SLBTD) == direction
            &&& !bits::any_set(ctrl1, spi::CTRL1_SPIEN) ==> changed & kept == ctrl1 & kept
            &&& bits::any_set(ctrl1, spi::CTRL1_SPIEN) ==> restored & kept == ctrl1 & kept
        }),
{
    lemma_switch_words(ctrl1, direction, false);
}

/// A change of the direction changes nothing else: the controller is enabled afterwards exactly if
/// it was before, and every other setting is kept.
pub proof fn law_direction_keeps_the_rest(dir: Option<Direction>, ctrl1: u32)
    ensures
        ({
            let after = bus::replayed(
                spi::direction_actions(dir, ctrl1),
                Register::SpiCtrl1,
                ctrl1,
            );
            let kept = !(spi::CTRL1_SLBEN | spi::CTRL1_SLBTD);
            &&& after & !kept == spi::direction_bits(dir)
            &&& after & kept == ctrl1 & kept
        }),
{
    reveal_with_fuel(bus::replayed, 6);
    let actions = spi::direction_actions(dir, ctrl1);
    let direction = spi::direction_bits(dir);
    lemma_direction_bits();
    lemma_direction_words(ctrl1, direction);
    let off = Action::Modify { reg: Register::SpiCtrl1, clear: spi::CTRL1_SPIEN, set: 0 };
    let change = Action::Modify {
        reg: Register::SpiCtrl1,
        clear: spi::CTRL1_SLBEN | spi::CTRL1_SLBTD,
        set: direction,
    };
    let middle = seq![off, change];
    assert(middle.drop_last() == seq![off]);
    if bits::any_set(ctrl1, spi::CTRL1_SPIEN) {
        let wait = actions.subrange(0, 2);
        let on = Action::Modify { reg: Register::SpiCtrl1, clear: 0, set: spi::CTRL1_SPIEN };
        assert(actions =~= wait + middle + seq![on]);
        bus::law_replay_concatenates(wait + middle, seq![on], Register::SpiCtrl1, ctrl1);
        bus::law_replay_concatenates(wait, middle, Register::SpiCtrl1, ctrl1);
        bus::law_replay_leaves_alone(wait, Register::SpiCtrl1, ctrl1);
        assert(seq![on].drop_last() =~= Seq::<Action>::empty());
    } else {
        assert(actions =~= middle);
    }
}

proof fn lemma_direction_bits()
    ensures
        (spi::CTRL1_SLBEN | spi::CTRL1_SLBTD) & !(spi::CTRL1_SLBEN | spi::CTRL1_SLBTD) == 0,
        spi::CTRL1_SLBEN & !(spi::CTRL1_SLBEN | spi::CTRL1_SLBTD) == 0,
        spi::CTRL1_SLBTD & !(spi::CTRL1_SLBEN | spi::CTRL1_SLBTD) == 0,
        !!(spi::CTRL1_SLBEN | spi::CTRL1_SLBTD) == (spi::CTRL1_SLBEN | spi::CTRL1_SLBTD),
{
    lemma_switch_words(0, 0, false);
}

proof fn lemma_frame_words(ctrl1: u32, wide: bool)
    ensures
        ({
            let set = bits::modified(
                bits::modified(bits::modified(ctrl1, spi::CTRL1_SPIEN, 0), spi::CTRL1_SPIEN, 0),
                spi::CTRL1_FBN,
                bits::when(wide, spi::CTRL1_FBN),
            );
            let after = bits::modified(set, 0, spi::CTRL1_SPIEN);
            &&& bits::any_set(after, spi::CTRL1_FBN) == wide
            &&& bits::any_set(after, spi::CTRL1_SPIEN)
            &&& after & !0x840u32 == ctrl1 & !0x840u32
        }),
        ({
            let after = bits::modified(
                bits::modified(ctrl1, spi::CTRL1_SPIEN, 0),
                0,
                spi::CTRL1_SPIEN,
            );
            &&& bits::any_set(after, spi::CTRL1_FBN) == bits::any_set(ctrl1, spi::CTRL1_FBN)
            &&& bits::any_set(after, spi::CTRL1_SPIEN)
            &&& after & !0x840u32 == ctrl1 & !0x840u32
        }),
{
    lemma_switch_words(ctrl1, 0, wide);
}

/// An exchange starts with the controller enabled and with frames of the size of its words, if the
/// driver knew the size before; no other setting is changed. What was received before is dropped at
/// the end, and no word is sent.
pub proof fn law_exchange_starts_with_its_frame_size(
    current: FrameSize,
    size: FrameSize,
    ctrl1: u32,
)
    requires
        bits::any_set(ctrl1, spi::CTRL1_FBN) == (current == FrameSize::Bit16),
    ensures
        ({
            let after = bus::replayed(
                spi::begin_actions(current, size),
                Register::SpiCtrl1,
                ctrl1,
            );
            &&& bits::any_set(after, spi::CTRL1_FBN) == (size == FrameSize::Bit16)
            &&& bits::any_set(after, spi::CTRL1_SPIEN)
            &&& after & !0x840u32 == ctrl1 & !0x840u32
        }),
        spi::begin_actions(current, size).last() == (Action::Drain {
            status: Register::SpiSts,
            mask: 1,
            reg: Register::SpiDt,
        }),
        bus::leaves_alone(spi::begin_actions(current, size), Register::SpiCtrl2),
        bus::leaves_alone(spi::begin_actions(current, size), Register::SpiDt),
{
    reveal_with_fuel(bus::replayed, 6);
    let actions = spi::begin_actions(current, size);
    lemma_frame_words(ctrl1, size == FrameSize::Bit16);
    if current == size {
        assert(actions.drop_last() =~= seq![actions[0], actions[1]]);
        assert(actions.drop_last().drop_last() =~= seq![actions[0]]);
    } else {
        assert(actions.drop_last() =~= seq![actions[0], actions[1], actions[2], actions[3]]);
        assert(actions.drop_last().drop_last() =~= seq![actions[0], actions[1], actions[2]]);
        assert(actions.drop_last().drop_last().drop_last() =~= seq![actions[0], actions[1]]);
        assert(actions.drop_last().drop_last().drop_last().drop_last() =~= seq![actions[0]]);
    }
}

} // verus!
