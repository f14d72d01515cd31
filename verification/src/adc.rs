//! Channels of the analogue to digital converter.
use vstd::prelude::*;

verus! {

/// What can be measured.
#[derive(Clone, Copy, Debug, PartialEq, Eq, Structural)]
pub enum AnalogInput {
    /// Pin PA0.
    PA0,
    /// Pin PA1.
    PA1,
    /// Pin PA2.
    PA2,
    /// Pin PA3.
    PA3,
    /// Pin PA4.
    PA4,
    /// Pin PA5.
    PA5,
    /// Pin PA6.
    PA6,
    /// Pin PA7.
    PA7,
    /// Pin PB0.
    PB0,
    /// Pin PB1.
    PB1,
    /// Pin PC0.
    PC0,
    /// Pin PC1.
    PC1,
    /// Pin PC2.
    PC2,
    /// Pin PC3.
    PC3,
    /// Pin PC4.
    PC4,
    /// Pin PC5.
    PC5,
    /// The temperature sensor.
    Temperature,
    /// The reference voltage.
    Vref,
}

impl AnalogInput {
    /// The channel of ADC1 to which the input is connected.
    pub open spec fn number(self) -> u8 {
        match self {
            AnalogInput::PA0 => 0,
            AnalogInput::PA1 => 1,
            AnalogInput::PA2 => 2,
            AnalogInput::PA3 => 3,
            AnalogInput::PA4 => 4,
            AnalogInput::PA5 => 5,
            AnalogInput::PA6 => 6,
            AnalogInput::PA7 => 7,
            AnalogInput::PB0 => 8,
            AnalogInput::PB1 => 9,
            AnalogInput::PC0 => 10,
            AnalogInput::PC1 => 11,
            AnalogInput::PC2 => 12,
            AnalogInput::PC3 => 13,
            AnalogInput::PC4 => 14,
            AnalogInput::PC5 => 15,
            AnalogInput::Temperature => 16,
            AnalogInput::Vref => 17,
        }
    }

    /// The channel of ADC1 to which the input is connected.
    pub fn channel(self) -> (channel: u8)
        ensures
            channel == self.number(),
    {
        match self {
            AnalogInput::PA0 => 0,
            AnalogInput::PA1 => 1,
            AnalogInput::PA2 => 2,
            AnalogInput::PA3 => 3,
            AnalogInput::PA4 => 4,
            AnalogInput::PA5 => 5,
            AnalogInput::PA6 => 6,
            AnalogInput::PA7 => 7,
            AnalogInput::PB0 => 8,
            AnalogInput::PB1 => 9,
            AnalogInput::PC0 => 10,
            AnalogInput::PC1 => 11,
            AnalogInput::PC2 => 12,
            AnalogInput::PC3 => 13,
            AnalogInput::PC4 => 14,
            AnalogInput::PC5 => 15,
            AnalogInput::Temperature => 16,
            AnalogInput::Vref => 17,
        }
    }
}

/// No two inputs share a channel, and no channel has a number above 17.
pub proof fn law_each_input_has_its_channel(a: AnalogInput, b: AnalogInput)
    ensures
        a.number() == b.number() <==> a == b,
        a.number() <= 17,
{
}

} // verus!
