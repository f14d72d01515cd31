//! The exchange of words on an SPI bus.
use crate::bits;
use crate::bus::{Action, Bus, Register};
use crate::spi;
use crate::spi::{check_error_flags, Error, CTRL2_RDBFIE, CTRL2_TDBEIE, STS_RDBF, STS_TDBE};
use vstd::prelude::*;

verus! {

/// How far an exchange has come.
#[derive(Clone, Copy, Debug, PartialEq, Eq, Structural)]
pub enum Progress {
    /// All words were exchanged.
    Done,
    /// The exchange waits for an interrupt, which was enabled.
    Pending,
    /// A word was handed to the controller.
    Sent,
    /// A word was received, and is to be handed to [`Exchange::take`].
    Received,
    /// The exchange failed.
    Failed(Error),
}

/// An exchange of words: each word that is sent brings one that is received.
pub struct Exchange {
    /// The words to send; they are followed by zeros.
    pub words: Vec<u16>,
    /// The number of words to keep of those that are received.
    pub wanted: usize,
    /// The words that were kept.
    pub received: Vec<u16>,
    /// The number of words that were exchanged.
    pub index: usize,
    /// Whether the next word was handed to the controller.
    pub sent: bool,
    /// All words that were handed to the controller.
    pub outgoing: Ghost<Seq<u16>>,
    /// All words that came in.
    pub incoming: Ghost<Seq<u16>>,
}

impl Exchange {
    /// The number of words to exchange: as many as are to be sent or to be kept.
    pub open spec fn total(self) -> nat {
        if self.words@.len() >= self.wanted {
            self.words@.len()
        } else {
            self.wanted as nat
        }
    }

    /// The word to send at a place.
    pub open spec fn word(self, i: int) -> u16 {
        if i < self.words@.len() {
            self.words@[i]
        } else {
            0
        }
    }

    /// What holds at any time: the words are sent one after the other, and the first ones that come
    /// in are kept.
    pub open spec fn wf(self) -> bool {
        &&& self.index <= self.total()
        &&& self.sent ==> self.index < self.total()
        &&& self.incoming@.len() == self.index
        &&& self.outgoing@.len() == self.index + if self.sent {
            1int
        } else {
            0int
        }
        &&& forall|i: int|
            0 <= i < self.outgoing@.len() ==> #[trigger] self.outgoing@[i] == self.word(i)
        &&& self.received@ == self.incoming@.take(
            if self.index < self.wanted {
                self.index as int
            } else {
                self.wanted as int
            },
        )
    }

    /// Whether nothing was exchanged yet.
    pub open spec fn fresh(self, words: Seq<u16>, wanted: nat) -> bool {
        &&& self.wf()
        &&& self.words@ == words
        &&& self.wanted == wanted
        &&& self.index == 0
        &&& !self.sent
    }

    /// Whether words and number wanted are those of another exchange.
    pub open spec fn same_task(self, other: Exchange) -> bool {
        self.words@ == other.words@ && self.wanted == other.wanted
    }

    /// An exchange that sends `words` and keeps `wanted` words.
    pub fn new(words: Vec<u16>, wanted: usize) -> (exchange: Self)
        ensures
            exchange.fresh(words@, wanted as nat),
    {
        let exchange = Exchange {
            words,
            wanted,
            received: Vec::new(),
            index: 0,
            sent: false,
            outgoing: Ghost(Seq::empty()),
            incoming: Ghost(Seq::empty()),
        };
        assert(exchange.received@ =~= exchange.incoming@.take(0));
        exchange
    }

    /// Takes the next step, given the status of the controller.
    pub fn poll(&mut self, bus: &mut Bus, sts: u32) -> (progress: Progress)
        requires
            old(self).wf(),
        ensures
            final(self).wf(),
            final(self).same_task(*old(self)),
            final(self).index == old(self).index,
            final(self).incoming@ == old(self).incoming@,
            final(self).received@ == old(self).received@,
            progress == old(self).progress(sts),
            final(bus)@ == old(bus)@ + old(self).step_actions(sts),
            final(self).sent == (old(self).sent || progress == Progress::Sent),
            final(self).outgoing@ == if progress == Progress::Sent {
                old(self).outgoing@.push(old(self).word(old(self).index as int))
            } else {
                old(self).outgoing@
            },
    {
        let total: usize = if self.words.len() >= self.wanted {
            self.words.len()
        } else {
            self.wanted
        };
        if self.index == total {
            return Progress::Done;
        }
        if let Err(error) = check_error_flags(sts, true) {
            return Progress::Failed(error);
        }
        if !self.sent {
            if bits::has(sts, STS_TDBE) {
                let word: u16 = if self.index < self.words.len() {
                    self.words[self.index]
                } else {
                    0
                };
                bus.write(Register::SpiDt, word as u32);
                self.sent = true;
                proof {
                    self.outgoing@ = self.outgoing@.push(word);
                }
                Progress::Sent
            } else {
                bus.modify(Register::SpiCtrl2, 0, CTRL2_TDBEIE);
                Progress::Pending
            }
        } else if bits::has(sts, STS_RDBF) {
            bus.sample(Register::SpiDt);
            Progress::Received
        } else {
            bus.modify(Register::SpiCtrl2, 0, CTRL2_RDBFIE);
            Progress::Pending
        }
    }

    /// Takes in the word that was received.
    pub fn take(&mut self, word: u16)
        requires
            old(self).wf(),
            old(self).sent,
        ensures
            final(self).wf(),
            final(self).same_task(*old(self)),
            !final(self).sent,
            final(self).index == old(self).index + 1,
            final(self).outgoing@ == old(self).outgoing@,
            final(self).incoming@ == old(self).incoming@.push(word),
    {
        if self.index < self.wanted {
            self.received.push(word);
        }
        assert(self.words@.len() == self.words.len());
        self.index = self.index + 1;
        self.sent = false;
        proof {
            let before = self.incoming@;
            self.incoming@ = before.push(word);
            assert(self.received@ =~= self.incoming@.take(
                if self.index < self.wanted {
                    self.index as int
                } else {
                    self.wanted as int
                },
            ));
        }
    }

    /// The words that were kept.
    pub fn into_received(self) -> (received: Vec<u16>)
        ensures
            received@ == self.received@,
    {
        self.received
    }

    /// What the next step comes to.
    pub open spec fn progress(self, sts: u32) -> Progress {
        if self.index == self.total() {
            Progress::Done
        } else if spi::error_in(sts, true) is Some {
            Progress::Failed(spi::error_in(sts, true)->Some_0)
        } else if !self.sent && bits::any_set(sts, STS_TDBE) {
            Progress::Sent
        } else if self.sent && bits::any_set(sts, STS_RDBF) {
            Progress::Received
        } else {
            Progress::Pending
        }
    }

    /// The accesses of the next step.
    pub open spec fn step_actions(self, sts: u32) -> Seq<Action> {
        match self.progress(sts) {
            Progress::Sent => seq![
                Action::Write {
                    reg: Register::SpiDt,
                    value: self.word(self.index as int) as u32,
                },
            ],
            Progress::Received => seq![Action::Sample { reg: Register::SpiDt }],
            Progress::Pending => seq![
                Action::Modify {
                    reg: Register::SpiCtrl2,
                    clear: 0,
                    set: if self.sent {
                        CTRL2_RDBFIE
                    } else {
                        CTRL2_TDBEIE
                    },
                },
            ],
            _ => seq![],
        }
    }
}

} // verus!
