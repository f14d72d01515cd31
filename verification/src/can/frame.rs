//! CAN frames and what the controller says of them.
use crate::can::id::Id;
use vstd::prelude::*;

verus! {

/// Identifies one of the two receive FIFOs.
#[derive(Clone, Copy, Debug, PartialEq, Eq, PartialOrd, Ord, Structural)]
pub enum Fifo {
    /// First receive FIFO.
    Fifo0,
    /// Second receive FIFO.
    Fifo1,
}

/// Identifies one of the three transmit mailboxes.
#[derive(Clone, Copy, Debug, PartialEq, Eq, PartialOrd, Ord, Structural)]
pub enum Mailbox {
    /// Transmit mailbox 0.
    Mailbox0,
    /// Transmit mailbox 1.
    Mailbox1,
    /// Transmit mailbox 2.
    Mailbox2,
}

impl Mailbox {
    /// The number of the mailbox.
    pub open spec fn number(self) -> u32 {
        match self {
            Mailbox::Mailbox0 => 0,
            Mailbox::Mailbox1 => 1,
            Mailbox::Mailbox2 => 2,
        }
    }

    /// The mailbox with a number below 3.
    pub open spec fn numbered(number: u32) -> Mailbox {
        if number == 0 {
            Mailbox::Mailbox0
        } else if number == 1 {
            Mailbox::Mailbox1
        } else {
            Mailbox::Mailbox2
        }
    }

    /// The number of the mailbox.
    pub fn index(&self) -> (number: u8)
        ensures
            number == self.number(),
    {
        match self {
            Mailbox::Mailbox0 => 0,
            Mailbox::Mailbox1 => 1,
            Mailbox::Mailbox2 => 2,
        }
    }
}

/// What a frame carries beside its data.
#[derive(Clone, Copy, Debug, PartialEq, Eq, Structural)]
pub struct Header {
    /// Identifier.
    pub id: Id,
    /// Data length code.
    pub len: u8,
    /// Whether the frame is a remote frame.
    pub rtr: bool,
}

impl Header {
    /// Whether the identifier and the data length code fit in their widths.
    pub open spec fn wf(self) -> bool {
        self.id.wf() && self.len <= 15
    }

    /// Makes a header.
    pub fn new(id: Id, len: u8, rtr: bool) -> (header: Self)
        ensures
            header == (Header { id, len, rtr }),
    {
        Header { id, len, rtr }
    }
}

/// A CAN frame.
#[derive(Clone, Copy, Debug, PartialEq, Eq)]
pub struct Frame {
    /// Identifier, length and kind.
    pub header: Header,
    /// Data; bytes beyond the length have no meaning.
    pub data: [u8; 8],
}

impl Frame {
    /// Whether the header fits in its registers.
    pub open spec fn wf(self) -> bool {
        self.header.wf()
    }
}

/// The word that holds four bytes, the first one lowest.
pub open spec fn word_of(bytes: Seq<u8>) -> int {
    bytes[0] + bytes[1] * 0x100 + bytes[2] * 0x1_0000 + bytes[3] * 0x100_0000
}

/// The four bytes of a word, the lowest one first.
pub open spec fn bytes_of(word: u32) -> Seq<u8> {
    seq![
        (word % 0x100) as u8,
        (word / 0x100 % 0x100) as u8,
        (word / 0x1_0000 % 0x100) as u8,
        (word / 0x100_0000) as u8,
    ]
}

proof fn lemma_bytes_of_sum(b0: u32, b1: u32, b2: u32, b3: u32, word: u32)
    by (bit_vector)
    requires
        b0 < 0x100,
        b1 < 0x100,
        b2 < 0x100,
        b3 < 0x100,
        word == b0 + b1 * 0x100 + b2 * 0x1_0000 + b3 * 0x100_0000,
    ensures
        word % 0x100 == b0,
        word / 0x100 % 0x100 == b1,
        word / 0x1_0000 % 0x100 == b2,
        word / 0x100_0000 == b3,
{
}

/// The bytes of a word are the bytes that it was made of.
pub proof fn law_word_of_bytes(bytes: Seq<u8>)
    requires
        bytes.len() == 4,
    ensures
        0 <= word_of(bytes) <= 0xffff_ffff,
        bytes_of(word_of(bytes) as u32) == bytes,
{
    let word = word_of(bytes) as u32;
    lemma_bytes_of_sum(
        bytes[0] as u32,
        bytes[1] as u32,
        bytes[2] as u32,
        bytes[3] as u32,
        word,
    );
    assert(bytes_of(word) =~= bytes);
}

/// The word that holds the four bytes from `start` on.
pub fn data_word(data: &[u8; 8], start: usize) -> (word: u32)
    requires
        start <= 4,
    ensures
        word == word_of(data@.subrange(start as int, start + 4)),
{
    data[start] as u32 + data[start + 1] as u32 * 0x100 + data[start + 2] as u32 * 0x1_0000
        + data[start + 3] as u32 * 0x100_0000
}

/// The eight bytes of two words, the lowest one first.
pub fn data_bytes(low: u32, high: u32) -> (data: [u8; 8])
    ensures
        data@ == bytes_of(low) + bytes_of(high),
{
    let data: [u8; 8] = [
        (low % 0x100) as u8,
        (low / 0x100 % 0x100) as u8,
        (low / 0x1_0000 % 0x100) as u8,
        (low / 0x100_0000) as u8,
        (high % 0x100) as u8,
        (high / 0x100 % 0x100) as u8,
        (high / 0x1_0000 % 0x100) as u8,
        (high / 0x100_0000) as u8,
    ];
    assert(data@ =~= bytes_of(low) + bytes_of(high));
    data
}

/// A received frame and the time at which it was taken out of its FIFO.
#[derive(Clone, Copy, Debug, PartialEq, Eq)]
pub struct Envelope {
    /// Reception time in ticks of the system clock.
    pub ts: u64,
    /// The frame.
    pub frame: Frame,
}

/// Error on the bus.
#[derive(Clone, Copy, Debug, PartialEq, Eq, Structural)]
pub enum BusError {
    /// Bit stuffing error.
    Stuff,
    /// Form error.
    Form,
    /// Acknowledge error.
    Acknowledge,
    /// Bit recessive error.
    BitRecessive,
    /// Bit dominant error.
    BitDominant,
    /// CRC error.
    Crc,
    /// Software error.
    Software,
}

/// Error returned by an attempt to read.
#[derive(Clone, Copy, Debug, PartialEq, Eq, Structural)]
pub enum TryReadError {
    /// Bus error.
    BusError(BusError),
    /// There is no frame.
    Empty,
}

/// Error returned by an attempt to write.
#[derive(Clone, Copy, Debug, PartialEq, Eq, Structural)]
pub enum TryWriteError {
    /// All transmit mailboxes are full.
    Full,
}

/// An operation that cannot be completed now.
#[derive(Clone, Copy, Debug, PartialEq, Eq, Structural)]
pub struct WouldBlock;

/// Information about a frame that was enqueued for transmission.
pub struct TransmitStatus {
    /// The frame that was dequeued to make space.
    pub dequeued_frame: Option<Frame>,
    /// The mailbox in which the frame was enqueued.
    pub mailbox: Mailbox,
}

impl TransmitStatus {
    /// The lower-priority frame that was dequeued to make space for the new frame.
    pub fn dequeued_frame(&self) -> (frame: Option<&Frame>)
        ensures
            frame is Some <==> self.dequeued_frame is Some,
            frame matches Some(f) ==> *f == self.dequeued_frame->Some_0,
    {
        match &self.dequeued_frame {
            Some(frame) => Some(frame),
            None => None,
        }
    }

    /// The mailbox in which the frame was enqueued.
    pub fn mailbox(&self) -> (mailbox: Mailbox)
        ensures
            mailbox == self.mailbox,
    {
        self.mailbox
    }
}

/// Bit timing of the bus, in time quanta.
#[derive(Clone, Copy, Debug, PartialEq, Eq, Structural)]
pub struct NominalBitTiming {
    /// Number of clock cycles of a time quantum, not zero.
    pub prescaler: u16,
    /// Length of the first segment, not zero.
    pub seg1: u8,
    /// Length of the second segment, not zero.
    pub seg2: u8,
    /// Synchronisation jump width, not zero.
    pub sync_jump_width: u8,
}

impl NominalBitTiming {
    /// Whether every part, cut to nine bits (prescaler) or seven bits (second segment and jump
    /// width), differs from zero.
    pub open spec fn wf(self) -> bool {
        &&& self.prescaler as u32 & 0x1ff != 0
        &&& self.seg1 != 0
        &&& self.seg2 as u32 & 0x7f != 0
        &&& self.sync_jump_width as u32 & 0x7f != 0
    }
}

} // verus!
