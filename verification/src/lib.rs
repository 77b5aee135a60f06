//! Driver logic for the Robotbit expansion board of the BBC micro:bit.
//!
//! The board carries a PCA9685 PWM controller (motors, servos, steppers) and a
//! TM1650 four-digit seven-segment display, both on the I2C bus.  The library
//! computes, with proved contracts, every bus transfer that the driver makes;
//! the program around it performs those transfers on real hardware.
//!
//! Beside the board driver stand a bit-banged I2C master ([`soft_i2c`]), and
//! the decisions of the small programs that use the micro:bit's serial port
//! and sensors ([`line`], [`echo`], [`command`], [`compass`]) and of the
//! STM32F3 Discovery LED exercises ([`leds`]).
pub mod pca9685;
pub mod bus;
pub mod tm1650;
pub mod robotbit;
pub mod soft_i2c;
pub mod laws;
pub mod line;
pub mod echo;
pub mod command;
pub mod leds;
pub mod compass;
