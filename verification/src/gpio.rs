//! Pins.
use core::marker::PhantomData;
use vstd::prelude::*;

verus! {

/// The distance between the registers of one port and those of the next.
pub const GPIO_REGISTER_OFFSET: u32 = 0x0400;

/// The number of port A as a letter.
pub const PORT_A: u8 = 0x41;

/// A pin that serves a peripheral: the alternate function `A` in the mode `MODE`.
pub struct Alternate<const A: u8, MODE> {
    _mode: PhantomData<MODE>,
}

/// The pin with the number `N` of the port with the letter `P`.
pub struct Pin<const P: u8, const N: u8, MODE> {
    _mode: PhantomData<MODE>,
}

impl<const P: u8, const N: u8, MODE> Pin<P, N, MODE> {
    fn new() -> Self {
        Pin { _mode: PhantomData }
    }

    /// The number of the port.
    pub fn port_id(&self) -> (port: u8)
        requires
            PORT_A <= P,
        ensures
            port == P - PORT_A,
    {
        P - PORT_A
    }

    /// The number of the pin.
    pub fn pin_id(&self) -> (pin: u8)
        ensures
            pin == N,
    {
        N
    }
}

/// A pin that serves a peripheral, whose port and number are not part of its type.
pub struct ErasedAltPin<MODE> {
    /// The number of the pin in the lower four bits, that of the port in the upper four.
    pub pin_port: u8,
    /// The alternate function.
    pub alt_num: u8,
    /// The mode.
    pub mode: PhantomData<MODE>,
}

impl<MODE> ErasedAltPin<MODE> {
    /// The number of the pin.
    pub open spec fn pin(self) -> u8 {
        self.pin_port & 0x0f
    }

    /// The number of the port.
    pub open spec fn port(self) -> u8 {
        self.pin_port >> 4
    }

    /// The number of the pin.
    pub fn pin_id(&self) -> (pin: u8)
        ensures
            pin == self.pin(),
    {
        self.pin_port & 0x0f
    }

    /// The number of the port.
    pub fn port_id(&self) -> (port: u8)
        ensures
            port == self.port(),
    {
        self.pin_port >> 4
    }

    /// The pin whose port and number are packed in one byte.
    pub fn from_pin_port(pin_port: u8, alt_num: u8) -> (pin: Self)
        ensures
            pin.pin_port == pin_port,
            pin.alt_num == alt_num,
    {
        ErasedAltPin { pin_port, alt_num, mode: PhantomData }
    }

    /// Port and number, packed in one byte.
    pub fn into_pin_port(self) -> (pin_port: u8)
        ensures
            pin_port == self.pin_port,
    {
        self.pin_port
    }

    /// The pin with a number of a port.
    pub fn new(port: u8, pin: u8, alt_num: u8) -> (erased: Self)
        ensures
            erased.pin_port == (port << 4) | pin,
            erased.alt_num == alt_num,
            port < 16 && pin < 16 ==> erased.port() == port && erased.pin() == pin,
    {
        proof {
            if port < 16 && pin < 16 {
                law_pin_port_packs(port, pin, 0);
            }
        }
        ErasedAltPin { pin_port: (port << 4) | pin, alt_num, mode: PhantomData }
    }

    /// The pin with port and number in its type, which have to be those of the pin.
    pub fn restore<const P: u8, const N: u8, const A: u8>(self) -> Pin<P, N, Alternate<A, MODE>>
        requires
            PORT_A <= P,
            self.port() == P - PORT_A,
            self.pin() == N,
    {
        Pin::new()
    }

    /// The address of the registers of the port, given that of port A.
    pub fn block(&self, gpioa: u32) -> (address: u32)
        requires
            gpioa <= 0xffff_c000,
        ensures
            address == gpioa + GPIO_REGISTER_OFFSET * self.port(),
    {
        let port: u8 = self.port_id();
        proof {
            lemma_packed(0, 0, self.pin_port);
        }
        gpioa + GPIO_REGISTER_OFFSET * port as u32
    }
}

proof fn lemma_packed(port: u8, pin: u8, packed: u8)
    by (bit_vector)
    ensures
        port < 16 && pin < 16 ==> ((port << 4) | pin) >> 4 == port && ((port << 4) | pin) & 0x0f
            == pin,
        ((packed >> 4) << 4) | (packed & 0x0f) == packed,
        packed >> 4 < 16,
        packed & 0x0f < 16,
        packed & 0x0f == packed % 16,
        packed >> 4 == packed / 16,
{
}

/// Packing port and number in one byte and unpacking them is the identity, in both directions.
pub proof fn law_pin_port_packs(port: u8, pin: u8, packed: u8)
    requires
        port < 16,
        pin < 16,
    ensures
        ((port << 4) | pin) >> 4 == port,
        ((port << 4) | pin) & 0x0f == pin,
        ((packed >> 4) << 4) | (packed & 0x0f) == packed,
{
    lemma_packed(port, pin, packed);
}

/// The number of an erased pin is what is left of its packed form by sixteens, and its port how many
/// sixteens there are.
pub proof fn law_erased_pin_is_packed<MODE>(erased: ErasedAltPin<MODE>)
    ensures
        erased.pin() == erased.pin_port % 16,
        erased.port() == erased.pin_port / 16,
        erased.pin_port == 16 * erased.port() + erased.pin(),
{
    lemma_packed(0, 0, erased.pin_port);
}

} // verus!
