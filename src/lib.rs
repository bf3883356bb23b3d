//! Hardware abstraction for the MAX32660: typed GPIO pins, the SPI and I2C
//! controllers, system clock selection and delays, over register images and
//! register programs that an executor applies to the device.
use vstd::prelude::*;

pub mod clocks;
pub mod delay;
pub mod gpio;
pub mod i2c;
pub mod spi;

verus! {

} // verus!
