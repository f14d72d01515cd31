//! What holds of the external interrupts as a whole.
use crate::bits;
use crate::bus;
use crate::bus::{Action, Interrupt, Register, Waiter};
use crate::exti;
use crate::exti::{Awaited, Edge};
use vstd::prelude::*;

verus! {

proof fn lemma_line(word: u32, pin: u32, enabled: bool)
    by (bit_vector)
    requires
        pin < 16,
    ensures
        ({
            let line = 1u32 << pin;
            let after = bits::modified(word, line, bits::when(enabled, line));
            &&& bits::any_set(after, line) == enabled
            &&& after & !line == word & !line
        }),
{
}

/// Whether the steps of an iterator over the set bits of a word, taken until it is empty, go through
/// `words` and give `taken`.
pub open spec fn walks(words: Seq<u32>, taken: Seq<u32>) -> bool {
    &&& words.len() == taken.len() + 1
    &&& forall|i: int|
        0 <= i < taken.len() ==> exti::steps(words[i], Some(#[trigger] taken[i]), words[i + 1])
    &&& exti::steps(words.last(), None, words.last())
}

/// An iterator that is stepped until it is empty gives exactly the set bits of its word, each of them
/// once, in ascending order.
pub proof fn law_bits_are_walked_in_order(words: Seq<u32>, taken: Seq<u32>)
    requires
        walks(words, taken),
    ensures
        forall|i: int, j: int| 0 <= i < j < taken.len() ==> taken[i] < taken[j],
        forall|b: u32| #[trigger] taken.contains(b) <==> b < 32 && exti::is_set(words[0], b),
    decreases taken.len(),
{
    if taken.len() == 0 {
        assert forall|b: u32| !(b < 32 && #[trigger] exti::is_set(words[0], b)) by {
            if b < 32 {
                exti::lemma_bits(0, 0, b);
            }
        }
    } else {
        let (first, later, rest) = (taken[0], words.skip(1), taken.skip(1));
        assert(exti::steps(words[0], Some(taken[0]), words[1]));
        assert forall|i: int| 0 <= i < rest.len() implies exti::steps(
            later[i],
            Some(#[trigger] rest[i]),
            later[i + 1],
        ) by {
            assert(exti::steps(words[i + 1], Some(taken[i + 1]), words[i + 2]));
        }
        assert(later.last() == words.last());
        law_bits_are_walked_in_order(later, rest);
        assert forall|b: u32| #[trigger] taken.contains(b) <==> b < 32 && exti::is_set(words[0], b) by {
            assert(taken == seq![first] + rest);
            assert(taken.contains(b) <==> b == first || rest.contains(b)) by {
                if b == first {
                    assert(taken[0] == b);
                }
                if rest.contains(b) {
                    let i = rest.index_of(b);
                    assert(taken[i + 1] == b);
                }
                if taken.contains(b) && b != first {
                    let i = taken.index_of(b);
                    assert(rest[i - 1] == b);
                }
            }
            if b < 32 {
                exti::lemma_bits(words[0], first, b);
            }
        }
        assert forall|i: int, j: int| 0 <= i < j < taken.len() implies taken[i] < taken[j] by {
            if i == 0 {
                assert(rest[j - 1] == taken[j]);
                assert(rest.contains(taken[j]));
                exti::lemma_bits(words[0], first, taken[j]);
            } else {
                assert(rest[i - 1] < rest[j - 1]);
            }
        }
    }
}

proof fn lemma_port(word: u32, port: u32, offset: u32)
    by (bit_vector)
    requires
        port <= 15,
        offset == 0 || offset == 4 || offset == 8 || offset == 12,
    ensures
        ({
            let after = bits::modified(
                word,
                bits::placed(0xf, 0xf, offset),
                bits::placed(port, 0xf, offset),
            );
            &&& bits::field(after, 0xf, offset) == port
            &&& after & !bits::placed(0xf, 0xf, offset) == word & !bits::placed(0xf, 0xf, offset)
            &&& bits::placed(0xf, 0xf, offset) == 0xfu32 << offset
        }),
{
}

/// A wait listens to its pin: the port is selected, exactly the edges that were asked for are
/// detected, and the interrupt is enabled. Every other line is as before.
pub proof fn law_wait_listens(
    pin: u8,
    port: u8,
    edge: Edge,
    select: u32,
    rising: u32,
    falling: u32,
    inten: u32,
)
    requires
        pin < 16,
        port < 16,
    ensures
        ({
            let actions = exti::wait_actions(pin, port, edge);
            let line = 1u32 << (pin as u32);
            let select_after = bus::replayed(actions, exti::selector(pin), select);
            let rising_after = bus::replayed(actions, Register::ExintPolcfg1, rising);
            let falling_after = bus::replayed(actions, Register::ExintPolcfg2, falling);
            let inten_after = bus::replayed(actions, Register::ExintInten, inten);
            &&& bits::field(select_after, 0xf, exti::selector_offset(pin)) == port
            &&& bits::any_set(rising_after, line) == (edge != Edge::Falling)
            &&& bits::any_set(falling_after, line) == (edge != Edge::Rising)
            &&& bits::any_set(inten_after, line)
            &&& rising_after & !line == rising & !line
            &&& falling_after & !line == falling & !line
            &&& inten_after & !line == inten & !line
        }),
{
    reveal_with_fuel(bus::replayed, 6);
    let actions = exti::wait_actions(pin, port, edge);
    assert(actions.drop_last() =~= seq![actions[0], actions[1], actions[2], actions[3]]);
    assert(actions.drop_last().drop_last() =~= seq![actions[0], actions[1], actions[2]]);
    assert(actions.drop_last().drop_last().drop_last() =~= seq![actions[0], actions[1]]);
    assert(actions.drop_last().drop_last().drop_last().drop_last() =~= seq![actions[0]]);
    lemma_line(rising, pin as u32, edge != Edge::Falling);
    lemma_line(falling, pin as u32, edge != Edge::Rising);
    lemma_line(inten, pin as u32, true);
    lemma_port(select, port as u32, exti::selector_offset(pin));
}

proof fn lemma_detected(intsts: u32, inten: u32, pin: u32)
    by (bit_vector)
    requires
        pin < 32,
    ensures
        ({
            let line = 1u32 << pin;
            let lines = intsts & exti::PIN_LINES;
            let after = bits::modified(inten, lines, 0);
            &&& bits::any_set(after, line) == (bits::any_set(inten, line) && !(pin < 16
                && bits::any_set(intsts, line)))
            &&& exti::is_set(lines, pin) == (pin < 16 && bits::any_set(intsts, line))
            &&& bits::any_set(intsts, line) == ((intsts >> pin) & 1 == 1)
            &&& ((intsts >> pin) & 1 == 1) == ((intsts >> pin) & 1 != 0)
        }),
{
}

/// The interrupt ends exactly the waits whose lines were detected: their lines are disabled, and all
/// others, also those that belong to no pin, are as before.
pub proof fn law_detected_lines_end_their_waits(intsts: u32, inten: u32, pin: u32)
    requires
        pin < 32,
    ensures
        ({
            let line = 1u32 << pin;
            let after = bus::replayed(
                exti::interrupt_actions(intsts),
                Register::ExintInten,
                inten,
            );
            bits::any_set(after, line) == (bits::any_set(inten, line) && !(pin < 16
                && bits::any_set(intsts, line)))
        }),
{
    reveal_with_fuel(bus::replayed, 2);
    let lines = intsts & exti::PIN_LINES;
    let first = seq![Action::Modify { reg: Register::ExintInten, clear: lines, set: 0 }];
    let last = seq![Action::Write { reg: Register::ExintIntsts, value: lines }];
    let middle = exti::wakes(lines, 32);
    bus::law_replay_concatenates(first + middle, last, Register::ExintInten, inten);
    bus::law_replay_concatenates(first, middle, Register::ExintInten, inten);
    lemma_only_wakes(lines, 32);
    let after = bits::modified(inten, lines, 0);
    assert(first.drop_last() =~= Seq::<Action>::empty());
    bus::law_replay_leaves_alone(middle, Register::ExintInten, after);
    bus::law_replay_leaves_alone(last, Register::ExintInten, after);
    lemma_detected(intsts, inten, pin);
}

proof fn lemma_only_wakes(lines: u32, n: int)
    ensures
        forall|i: int|
            0 <= i < exti::wakes(lines, n).len() ==> (#[trigger] exti::wakes(lines, n)[i]) is Wake,
    decreases n,
{
    if n > 0 {
        lemma_only_wakes(lines, n - 1);
    }
}

proof fn lemma_woken(lines: u32, n: int, j: u32)
    requires
        0 <= n <= 32,
    ensures
        exti::wakes(lines, n).contains(Action::Wake { waiter: Waiter::Exint(j) }) <==> j < n
            && exti::is_set(lines, j),
    decreases n,
{
    let wake = Action::Wake { waiter: Waiter::Exint(j) };
    if n > 0 {
        lemma_woken(lines, n - 1, j);
        let rest = exti::wakes(lines, n - 1);
        if exti::is_set(lines, (n - 1) as u32) {
            let last = Action::Wake { waiter: Waiter::Exint((n - 1) as u32) };
            let all = rest.push(last);
            if rest.contains(wake) {
                let i = choose|i: int| 0 <= i < rest.len() && rest[i] == wake;
                assert(all[i] == wake);
            }
            assert(all[rest.len() as int] == last);
            if all.contains(wake) && j != n - 1 {
                let i = choose|i: int| 0 <= i < all.len() && all[i] == wake;
                assert(i < rest.len());
                assert(rest[i] == wake);
            }
        }
    }
}

/// The interrupt wakes exactly the tasks that wait for lines of pins that were detected.
pub proof fn law_detected_lines_wake_their_tasks(intsts: u32, pin: u32)
    requires
        pin < 32,
    ensures
        exti::interrupt_actions(intsts).contains(
            Action::Wake { waiter: Waiter::Exint(pin) },
        ) <==> pin < 16 && bits::any_set(intsts, 1u32 << pin),
{
    let lines = intsts & exti::PIN_LINES;
    let wake = Action::Wake { waiter: Waiter::Exint(pin) };
    let middle = exti::wakes(lines, 32);
    let all = exti::interrupt_actions(intsts);
    lemma_woken(lines, 32, pin);
    lemma_detected(intsts, 0, pin);
    if middle.contains(wake) {
        let i = choose|i: int| 0 <= i < middle.len() && middle[i] == wake;
        assert(all[i + 1] == wake);
    }
    if all.contains(wake) {
        let i = choose|i: int| 0 <= i < all.len() && all[i] == wake;
        assert(1 <= i < all.len() - 1);
        assert(middle[i - 1] == wake);
    }
}

/// The port of a line is selected in four bits of one of four registers: the lines of a register follow
/// one another, the first one lowest. Nothing but those four bits changes, and the pending flag of the
/// line, and of no other, is cleared.
pub proof fn law_lines_have_their_selectors(
    pin: u8,
    port: u8,
    edge: Edge,
    select: u32,
    register: Register,
)
    requires
        pin < 16,
        port < 16,
        pin < 4 ==> register == Register::IomuxExintc1,
        4 <= pin < 8 ==> register == Register::IomuxExintc2,
        8 <= pin < 12 ==> register == Register::IomuxExintc3,
        12 <= pin ==> register == Register::IomuxExintc4,
    ensures
        ({
            let actions = exti::configure_actions(pin, port, edge);
            let offset = (4 * (pin % 4)) as u32;
            let after = bus::replayed(actions, register, select);
            &&& (after >> offset) & 0xf == port
            &&& after & !(0xfu32 << offset) == select & !(0xfu32 << offset)
            &&& bus::replayed(actions, Register::ExintIntsts, select) == 1u32 << (pin as u32)
            &&& bus::leaves_alone(actions, Register::ExintInten)
            &&& forall|other: Register|
                other != register && (other == Register::IomuxExintc1 || other
                    == Register::IomuxExintc2 || other == Register::IomuxExintc3 || other
                    == Register::IomuxExintc4) ==> #[trigger] bus::leaves_alone(actions, other)
        }),
{
    reveal_with_fuel(bus::replayed, 5);
    let actions = exti::configure_actions(pin, port, edge);
    assert(actions.drop_last() =~= seq![actions[0], actions[1], actions[2]]);
    assert(actions.drop_last().drop_last() =~= seq![actions[0], actions[1]]);
    assert(actions.drop_last().drop_last().drop_last() =~= seq![actions[0]]);
    assert(seq![actions[0]].drop_last() =~= Seq::<Action>::empty());
    let offset = exti::selector_offset(pin);
    assert(offset == (4 * (pin % 4)) as u32);
    lemma_port(select, port as u32, offset);
}

/// A line that is enabled or disabled is so, and every other is as before; a wait that is given up
/// leaves its line disabled.
pub proof fn law_line_is_switched(pin: u8, enabled: bool, inten: u32)
    requires
        pin < 16,
    ensures
        ({
            let line = 1u32 << (pin as u32);
            let after = bus::stored(
                exti::enable_action(pin, enabled),
                Register::ExintInten,
                inten,
            );
            &&& after & line != 0 <==> enabled
            &&& after & !line == inten & !line
        }),
{
    lemma_line(inten, pin as u32, enabled);
}

/// The interrupt of a line: the first five lines have one each, lines 5 to 9 share one, and so do lines
/// 10 to 15; there are no more. It is let through once it is no longer pending.
pub proof fn law_lines_share_interrupts(n: u8)
    ensures
        ({
            let interrupt = exti::line_interrupt(n);
            &&& n == 0 <==> interrupt == Some(Interrupt::Exint0)
            &&& n == 1 <==> interrupt == Some(Interrupt::Exint1)
            &&& n == 2 <==> interrupt == Some(Interrupt::Exint2)
            &&& n == 3 <==> interrupt == Some(Interrupt::Exint3)
            &&& n == 4 <==> interrupt == Some(Interrupt::Exint4)
            &&& 5 <= n <= 9 <==> interrupt == Some(Interrupt::Exint9To5)
            &&& 10 <= n <= 15 <==> interrupt == Some(Interrupt::Exint15To10)
            &&& n > 15 <==> interrupt is None
            &&& n > 15 ==> exti::unmask_actions(n).len() == 0
            &&& n <= 15 ==> exti::unmask_actions(n) == seq![
                Action::Unpend { interrupt: interrupt->Some_0 },
                Action::Unmask { interrupt: interrupt->Some_0 },
            ]
        }),
{
}

/// The interrupt acknowledges exactly the lines of pins that were detected, after their tasks were woken.
pub proof fn law_detected_lines_are_acknowledged(intsts: u32)
    ensures
        ({
            let actions = exti::interrupt_actions(intsts);
            &&& actions.last() == (Action::Write {
                reg: Register::ExintIntsts,
                value: intsts & 0xffff,
            })
            &&& actions.first() == (Action::Modify {
                reg: Register::ExintInten,
                clear: intsts & 0xffff,
                set: 0,
            })
            &&& forall|i: int| 0 < i < actions.len() - 1 ==> (#[trigger] actions[i]) is Wake
        }),
{
    let lines = intsts & exti::PIN_LINES;
    let actions = exti::interrupt_actions(intsts);
    let middle = exti::wakes(lines, 32);
    lemma_only_wakes(lines, 32);
    assert forall|i: int| 0 < i < actions.len() - 1 implies (#[trigger] actions[i]) is Wake by {
        assert(actions[i] == middle[i - 1]);
    }
}

/// A pin is high exactly if its bit of the data register is one. A wait for a level is satisfied by that
/// level, at once, and by no other; a wait for an edge by none.
pub proof fn law_levels_satisfy_their_waits(pin: u8, idt: u32)
    requires
        pin < 16,
    ensures
        exti::level_high(pin, idt) <==> (idt >> (pin as u32)) & 1 == 1,
        exti::satisfied_by(Awaited::High, pin, idt) <==> (idt >> (pin as u32)) & 1 == 1,
        exti::satisfied_by(Awaited::Low, pin, idt) <==> (idt >> (pin as u32)) & 1 == 0,
        !exti::satisfied_by(Awaited::Edge, pin, idt),
{
    lemma_detected(idt, 0, pin as u32);
}

/// A wait that was begun is not over before its line is detected, and is over then, whatever happens at
/// other lines; its task is woken.
pub proof fn law_wait_is_over_once_detected(
    pin: u8,
    port: u8,
    edge: Edge,
    inten: u32,
    intsts: u32,
)
    requires
        pin < 16,
        port < 16,
    ensures
        ({
            let waiting = bus::replayed(
                exti::wait_actions(pin, port, edge),
                Register::ExintInten,
                inten,
            );
            let actions = exti::interrupt_actions(intsts);
            let after = bus::replayed(actions, Register::ExintInten, waiting);
            let detected = (intsts >> (pin as u32)) & 1 == 1;
            &&& !exti::wait_over(pin, waiting)
            &&& exti::wait_over(pin, after) <==> detected
            &&& actions.contains(Action::Wake { waiter: Waiter::Exint(pin as u32) }) <==> detected
        }),
{
    let waiting = bus::replayed(
        exti::wait_actions(pin, port, edge),
        Register::ExintInten,
        inten,
    );
    law_wait_listens(pin, port, edge, 0, 0, 0, inten);
    law_detected_lines_end_their_waits(intsts, waiting, pin as u32);
    law_detected_lines_wake_their_tasks(intsts, pin as u32);
    lemma_detected(intsts, waiting, pin as u32);
}

} // verus!
