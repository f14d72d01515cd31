# at32f4xx_hal

Drivers for the peripherals of the AT32F415, verified with Verus: CAN, real time clock, SPI, USART,
DMA, external interrupts, and the pins of the ADC and of alternate functions.

A driver never touches a register. Its functions take the register values that were sampled and put
the accesses that are to follow on a `Bus`. Their contracts say exactly which accesses these are, so
what a driver does to the chip is stated and proved over plain values.

- `src/` is the library. `bus` holds the accesses and says what a register holds once they are
  performed; `bits` the fields of registers; `rate` and `calendar` clock rates and dates; the other
  modules are the drivers. A module `laws` beside a driver states what holds of several functions
  together, such as that a date that was set reads back.
- `tests/` runs the library on concrete values.
- `app/` performs the accesses on the chip, holds the wakers of tasks and the interrupt handlers, and
  implements the traits of the embedded ecosystem.
