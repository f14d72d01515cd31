//! Hardware abstraction layer for the AT32F415.
pub mod adc;
pub mod bits;
pub mod bus;
pub mod calendar;
pub mod can;
pub mod dma;
pub mod exti;
pub mod gpio;
pub mod rate;
pub mod rtc;
pub mod serial;
pub mod spi;
