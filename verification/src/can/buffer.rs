//! The buffers of the buffered driver.
//!
//! A buffer is a bounded channel of the `embassy-sync` crate. It lives as long as the program.
use crate::can::frame::{BusError, Envelope, Frame};
use embassy_sync::blocking_mutex::raw::CriticalSectionRawMutex;
use embassy_sync::channel::{Channel, SendDynamicReceiver, SendDynamicSender};
use vstd::prelude::*;

verus! {

/// Buffer for frames to be sent. What it holds changes only through the functions of this module:
/// nobody else has a handle of the channel.
#[verifier::external_body]
pub struct TxBuf {
    sender: SendDynamicSender<'static, Frame>,
    receiver: SendDynamicReceiver<'static, Frame>,
}

/// The frames in a buffer, the oldest one first.
pub uninterp spec fn tx_frames(buf: TxBuf) -> Seq<Frame>;

/// The number of frames for which a buffer was made.
pub uninterp spec fn tx_capacity(buf: TxBuf) -> nat;

/// `embassy_sync::channel::Channel::new`: the channel is empty and made for `N` messages.
#[verifier::external_body]
fn tx_channel<const N: usize>() -> (buf: TxBuf)
    requires
        N > 0,
    ensures
        tx_frames(buf) == Seq::<Frame>::empty(),
        tx_capacity(buf) == N,
{
    let channel: &'static Channel<CriticalSectionRawMutex, Frame, N> = Box::leak(
        Box::new(Channel::new()),
    );
    TxBuf { sender: channel.sender().into(), receiver: channel.receiver().into() }
}

/// `embassy_sync::channel::SendDynamicSender::try_send`: the message is appended exactly if the channel
/// holds fewer messages than it was made for; else the channel is left as it was.
#[verifier::external_body]
fn tx_try_send(buf: &mut TxBuf, frame: Frame) -> (sent: bool)
    ensures
        sent == (tx_frames(*old(buf)).len() < tx_capacity(*old(buf))),
        tx_frames(*final(buf)) == if sent {
            tx_frames(*old(buf)).push(frame)
        } else {
            tx_frames(*old(buf))
        },
        tx_capacity(*final(buf)) == tx_capacity(*old(buf)),
{
    buf.sender.try_send(frame).is_ok()
}

/// `embassy_sync::channel::SendDynamicReceiver::try_receive`: the oldest message is taken out, if there
/// is one.
#[verifier::external_body]
fn tx_try_receive(buf: &mut TxBuf) -> (frame: Option<Frame>)
    ensures
        frame == if tx_frames(*old(buf)).len() > 0 {
            Some(tx_frames(*old(buf))[0])
        } else {
            None
        },
        tx_frames(*final(buf)) == if tx_frames(*old(buf)).len() > 0 {
            tx_frames(*old(buf)).skip(1)
        } else {
            tx_frames(*old(buf))
        },
        tx_capacity(*final(buf)) == tx_capacity(*old(buf)),
{
    buf.receiver.try_receive().ok()
}

impl View for TxBuf {
    type V = Seq<Frame>;

    open spec fn view(&self) -> Seq<Frame> {
        tx_frames(*self)
    }
}

impl TxBuf {
    /// An empty buffer for `N` frames.
    pub fn new<const N: usize>() -> (buf: Self)
        requires
            N > 0,
        ensures
            buf@ == Seq::<Frame>::empty(),
            tx_capacity(buf) == N,
    {
        tx_channel::<N>()
    }

    /// Appends a frame, unless the buffer is full; tells whether it was appended.
    pub fn try_send(&mut self, frame: &Frame) -> (sent: bool)
        ensures
            sent == (old(self)@.len() < tx_capacity(*old(self))),
            sent ==> final(self)@ == old(self)@.push(*frame),
            !sent ==> final(self)@ == old(self)@,
            tx_capacity(*final(self)) == tx_capacity(*old(self)),
    {
        tx_try_send(self, *frame)
    }

    /// Takes the oldest frame out.
    pub fn try_receive(&mut self) -> (frame: Option<Frame>)
        ensures
            frame is Some <==> old(self)@.len() > 0,
            frame matches Some(f) ==> f == old(self)@[0] && final(self)@ == old(self)@.skip(1),
            frame is None ==> final(self)@ == old(self)@,
            tx_capacity(*final(self)) == tx_capacity(*old(self)),
    {
        tx_try_receive(self)
    }
}

/// Buffer for what was received. What it holds changes only through the functions of this module:
/// nobody else has a handle of the channel.
#[verifier::external_body]
pub struct RxBuf {
    sender: SendDynamicSender<'static, Result<Envelope, BusError>>,
    receiver: SendDynamicReceiver<'static, Result<Envelope, BusError>>,
}

/// What is in a buffer, the oldest first.
pub uninterp spec fn rx_results(buf: RxBuf) -> Seq<Result<Envelope, BusError>>;

/// The number of results for which a buffer was made.
pub uninterp spec fn rx_capacity(buf: RxBuf) -> nat;

/// `embassy_sync::channel::Channel::new`: the channel is empty and made for `N` messages.
#[verifier::external_body]
fn rx_channel<const N: usize>() -> (buf: RxBuf)
    requires
        N > 0,
    ensures
        rx_results(buf).len() == 0,
        rx_capacity(buf) == N,
{
    let channel: &'static Channel<CriticalSectionRawMutex, Result<Envelope, BusError>, N> =
        Box::leak(Box::new(Channel::new()));
    RxBuf { sender: channel.sender().into(), receiver: channel.receiver().into() }
}

/// `embassy_sync::channel::SendDynamicSender::try_send`: the message is appended exactly if the channel
/// holds fewer messages than it was made for; else the channel is left as it was.
#[verifier::external_body]
fn rx_try_send(buf: &mut RxBuf, result: Result<Envelope, BusError>) -> (sent: bool)
    ensures
        sent == (rx_results(*old(buf)).len() < rx_capacity(*old(buf))),
        rx_results(*final(buf)) == if sent {
            rx_results(*old(buf)).push(result)
        } else {
            rx_results(*old(buf))
        },
        rx_capacity(*final(buf)) == rx_capacity(*old(buf)),
{
    buf.sender.try_send(result).is_ok()
}

/// `embassy_sync::channel::SendDynamicReceiver::try_receive`: the oldest message is taken out, if there
/// is one.
#[verifier::external_body]
fn rx_try_receive(buf: &mut RxBuf) -> (result: Option<Result<Envelope, BusError>>)
    ensures
        result == if rx_results(*old(buf)).len() > 0 {
            Some(rx_results(*old(buf))[0])
        } else {
            None
        },
        rx_results(*final(buf)) == if rx_results(*old(buf)).len() > 0 {
            rx_results(*old(buf)).skip(1)
        } else {
            rx_results(*old(buf))
        },
        rx_capacity(*final(buf)) == rx_capacity(*old(buf)),
{
    buf.receiver.try_receive().ok()
}

/// `embassy_sync::channel::SendDynamicReceiver::poll_ready_to_receive`: ready exactly if the channel
/// holds a message. Which task is woken by the next message is not said.
#[verifier::external_body]
fn rx_poll_ready(buf: &RxBuf) -> (ready: bool)
    ensures
        ready == (rx_results(*buf).len() > 0),
{
    let mut cx = core::task::Context::from_waker(core::task::Waker::noop());
    buf.receiver.poll_ready_to_receive(&mut cx).is_ready()
}

impl View for RxBuf {
    type V = Seq<Result<Envelope, BusError>>;

    open spec fn view(&self) -> Seq<Result<Envelope, BusError>> {
        rx_results(*self)
    }
}

impl RxBuf {
    /// An empty buffer for `N` results.
    pub fn new<const N: usize>() -> (buf: Self)
        requires
            N > 0,
        ensures
            buf@.len() == 0,
            rx_capacity(buf) == N,
    {
        rx_channel::<N>()
    }

    /// Appends a result, unless the buffer is full; tells whether it was appended.
    pub fn try_send(&mut self, result: Result<Envelope, BusError>) -> (sent: bool)
        ensures
            sent == (old(self)@.len() < rx_capacity(*old(self))),
            sent ==> final(self)@ == old(self)@.push(result),
            !sent ==> final(self)@ == old(self)@,
            rx_capacity(*final(self)) == rx_capacity(*old(self)),
    {
        rx_try_send(self, result)
    }

    /// Takes the oldest result out.
    pub fn try_receive(&mut self) -> (result: Option<Result<Envelope, BusError>>)
        ensures
            result is Some <==> old(self)@.len() > 0,
            result matches Some(r) ==> r == old(self)@[0] && final(self)@ == old(self)@.skip(1),
            result is None ==> final(self)@ == old(self)@,
            rx_capacity(*final(self)) == rx_capacity(*old(self)),
    {
        rx_try_receive(self)
    }

    /// Tells whether there is a result to take out.
    pub fn is_ready(&self) -> (ready: bool)
        ensures
            ready == (self@.len() > 0),
    {
        rx_poll_ready(self)
    }
}

} // verus!
