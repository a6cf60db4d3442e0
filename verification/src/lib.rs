//! Hardware-abstraction layer for a GD32E103-class microcontroller, built as a
//! verified model: every peripheral register block is represented by a plain
//! value type, and every driver operation is an ordinary function whose effect
//! on that state is stated in its contract and proved.
//!
//! The core of the crate is the I2C master engine in [`i2c`]: non-blocking
//! protocol primitives (START, address, STOP), a status decoder with a fixed
//! error priority, and a blocking engine with cycle-counted timeouts, START
//! retry, and the three length-dependent read sequences.

pub mod can;
pub mod gpio;
pub mod i2c;
pub mod i2c_periph;
pub mod pwm;
pub mod rcu;
pub mod timer;
pub mod time;
