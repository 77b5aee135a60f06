//! Register map of the PCA9685 PWM controller and the channel assignment of
//! the Robotbit board.
use vstd::prelude::*;

verus! {

/// Seven-bit I2C address of the PCA9685 on the Robotbit board.
pub const PCA9685_ADDRESS: u8 = 0x40;
pub const MODE1: u8 = 0x00;
pub const MODE2: u8 = 0x01;
pub const SUBADR1: u8 = 0x02;
pub const SUBADR2: u8 = 0x03;
pub const SUBADR3: u8 = 0x04;
pub const LED0_ON_L: u8 = 0x06;
pub const LED0_ON_H: u8 = 0x07;
pub const LED0_OFF_L: u8 = 0x08;
pub const LED0_OFF_H: u8 = 0x09;
pub const ALL_LED_ON_L: u8 = 0xFA;
pub const ALL_LED_ON_H: u8 = 0xFB;
pub const ALL_LED_OFF_L: u8 = 0xFC;
pub const ALL_LED_OFF_H: u8 = 0xFD;
pub const PRESCALE: u8 = 0xFE;

/// On/off counts of the four stepper phases A to D.
pub const STP_CHA_L: u16 = 2047;
pub const STP_CHA_H: u16 = 4095;
pub const STP_CHB_L: u16 = 1;
pub const STP_CHB_H: u16 = 2047;
pub const STP_CHC_L: u16 = 1023;
pub const STP_CHC_H: u16 = 3071;
pub const STP_CHD_L: u16 = 3071;
pub const STP_CHD_H: u16 = 1023;

/// The six servo headers S1 to S6.
#[derive(Clone, Copy, Debug, PartialEq, Eq)]
pub enum Servos {
    S1,
    S2,
    S3,
    S4,
    S5,
    S6,
}

/// The three DC motor outputs.
#[derive(Clone, Copy, Debug, PartialEq, Eq)]
pub enum Motors {
    Left,
    Right,
    Centre,
}

/// The two stepper motor outputs.
#[derive(Clone, Copy, Debug, PartialEq, Eq)]
pub enum Steppers {
    M1,
    M2,
}

/// Fractions of a full stepper turn.
#[derive(Clone, Copy, Debug, PartialEq, Eq)]
pub enum Turns {
    T1B4,
    T1B2,
    T1B0,
    T2B0,
    T3B0,
    T4B0,
    T5B0,
}

/// The header number of a servo (S1 is 1, ..., S6 is 6).
pub open spec fn servo_number(s: Servos) -> u8 {
    match s {
        Servos::S1 => 1,
        Servos::S2 => 2,
        Servos::S3 => 3,
        Servos::S4 => 4,
        Servos::S5 => 5,
        Servos::S6 => 6,
    }
}

/// The output number of a DC motor (Left is 1, Right 2, Centre 3).
pub open spec fn motor_number(m: Motors) -> u8 {
    match m {
        Motors::Left => 1,
        Motors::Right => 2,
        Motors::Centre => 3,
    }
}

/// The output number of a stepper (M1 is 1, M2 is 2).
pub open spec fn stepper_number(s: Steppers) -> u8 {
    match s {
        Steppers::M1 => 1,
        Steppers::M2 => 2,
    }
}

/// The angle of a turn in degrees.
pub open spec fn turn_degrees(t: Turns) -> u16 {
    match t {
        Turns::T1B4 => 90,
        Turns::T1B2 => 180,
        Turns::T1B0 => 360,
        Turns::T2B0 => 720,
        Turns::T3B0 => 1080,
        Turns::T4B0 => 1440,
        Turns::T5B0 => 1800,
    }
}

impl Servos {
    /// The header number of this servo.
    pub fn number(&self) -> (n: u8)
        ensures
            n == servo_number(*self),
            1 <= n <= 6,
    {
        match self {
            Servos::S1 => 1,
            Servos::S2 => 2,
            Servos::S3 => 3,
            Servos::S4 => 4,
            Servos::S5 => 5,
            Servos::S6 => 6,
        }
    }
}

impl Motors {
    /// The output number of this motor.
    pub fn number(&self) -> (n: u8)
        ensures
            n == motor_number(*self),
            1 <= n <= 3,
    {
        match self {
            Motors::Left => 1,
            Motors::Right => 2,
            Motors::Centre => 3,
        }
    }
}

impl Steppers {
    /// The output number of this stepper.
    pub fn number(&self) -> (n: u8)
        ensures
            n == stepper_number(*self),
            1 <= n <= 2,
    {
        match self {
            Steppers::M1 => 1,
            Steppers::M2 => 2,
        }
    }
}

impl Turns {
    /// The angle of this turn in degrees.
    pub fn degrees(&self) -> (d: u16)
        ensures
            d == turn_degrees(*self),
            90 <= d <= 1800,
    {
        match self {
            Turns::T1B4 => 90,
            Turns::T1B2 => 180,
            Turns::T1B0 => 360,
            Turns::T2B0 => 720,
            Turns::T3B0 => 1080,
            Turns::T4B0 => 1440,
            Turns::T5B0 => 1800,
        }
    }
}

} // verus!
