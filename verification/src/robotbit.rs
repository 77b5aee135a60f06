//! The Robotbit driver: motors, servos, steppers and the digit display.
//!
//! Every operation returns the transfers it makes on the bus, in order; the
//! contracts give those transfers exactly.
use vstd::prelude::*;
use crate::bus::{append_transfers, ops, BusOp, Transfer};
use crate::pca9685::{
    motor_number, servo_number, Motors, Servos, LED0_ON_L, MODE1,
    PCA9685_ADDRESS, PRESCALE, STP_CHA_H, STP_CHA_L, STP_CHB_H, STP_CHB_L, STP_CHC_H,
    STP_CHC_L, STP_CHD_H, STP_CHD_L,
};
use crate::tm1650::{digit_address, display_address, segment_code, segment_pattern, CMD_ADDR};

verus! {

/// The error type of `nb`'s non-blocking operations.
#[verifier::external_type_specification]
#[verifier::external_body]
#[verifier::reject_recursive_types(E)]
pub struct ExNbError<E>(nb::Error<E>);

/// Reading of the obstacle sensor.
#[derive(Clone, Copy, Debug, PartialEq, Eq)]
pub enum Obstacle {
    Obstacle,
    NoObstacle,
}

/// Reading of the flame sensor.
#[derive(Clone, Copy, Debug, PartialEq, Eq)]
pub enum Flame {
    Flame,
    NoFlame,
}

/// Unit of an ultrasonic distance reading.
#[derive(Clone, Copy, Debug, PartialEq, Eq)]
pub enum PingUnit {
    MicroSeconds,
    Centimeters,
    Inches,
}

/// Motor settings: speed (in the board's units), PWM frequency in Hz, and
/// the run time of a timed run in seconds.
#[derive(Debug)]
pub struct Motor {
    pub motor_speed: i16,
    pub motor_freq: u8,
    pub motor_run_seconds: u32,
}

/// State of the four-digit display: brightness, the command byte last sent,
/// and the four digits shown (leftmost first).
#[derive(Debug)]
pub struct Seg4 {
    pub intensity: u8,
    pub cmd: [u8; 1],
    pub dbuf: [u8; 4],
}

/// The Robotbit board on an I2C bus, with a timer.
#[derive(Debug)]
pub struct Robotbit<I2C, T> {
    i2c: I2C,
    timer: T,
    motors: Motor,
    seg4: Seg4,
}

/// Largest run time, in seconds, whose length in milliseconds fits in a `u32`.
pub const MAX_SECONDS: u32 = 4294967;

// ---------------------------------------------------------------------------
// The transfers, as mathematics.

/// The five bytes that set channel `ch` to switch on at count `on` and off at
/// count `off`: the channel's first register, then both counts, low byte first.
pub open spec fn pwm_frame(ch: u8, on: u16, off: u16) -> Seq<u8> {
    seq![
        (LED0_ON_L + 4 * ch) as u8,
        (on % 256) as u8,
        (on / 256) as u8,
        (off % 256) as u8,
        (off / 256) as u8,
    ]
}

/// The bus write that programs channel `ch` of the PWM controller.
pub open spec fn pwm_op(ch: u8, on: u16, off: u16) -> BusOp {
    BusOp::Write { address: PCA9685_ADDRESS, bytes: pwm_frame(ch, on, off) }
}

/// The first of the two channels that drive motor `m` (the second follows it).
pub open spec fn motor_channel(m: Motors) -> u8 {
    ((motor_number(m) - 1) * 2) as u8
}

/// The signed duty cycle that speed `speed` asks for: sixteen times the speed,
/// limited to the controller's range of -4095 to 4095.
pub open spec fn motor_duty(speed: i16) -> int {
    let d = speed * 16;
    if d > 4095 {
        4095
    } else if d < -4095 {
        -4095
    } else {
        d
    }
}

/// The off counts of a motor's two channels for speed `speed`: a positive
/// duty drives the first channel and leaves the second at 0; otherwise the
/// first is at 0 and the second is driven with the magnitude of the duty.
pub open spec fn motor_counts(speed: i16) -> (u16, u16) {
    let d = motor_duty(speed);
    if d > 0 {
        (d as u16, 0u16)
    } else {
        (0u16, (-d) as u16)
    }
}

/// The writes that run motor `m` at `speed`: its first channel, then its
/// second, each on at count 0 and off at the count [`motor_counts`] gives.
pub open spec fn motor_ops(m: Motors, speed: i16) -> Seq<BusOp> {
    let pp = motor_channel(m);
    let c = motor_counts(speed);
    seq![pwm_op(pp, 0, c.0), pwm_op((pp + 1) as u8, 0, c.1)]
}

/// The writes that stop motor `m`: both of its channels cleared.
pub open spec fn stop_motor_ops(m: Motors) -> Seq<BusOp> {
    let ch = motor_channel(m);
    seq![pwm_op(ch, 0, 0), pwm_op((ch + 1) as u8, 0, 0)]
}

/// Speeds that `set_motor` accepts: sixteen times the speed fits in an `i16`.
pub open spec fn speed_in_range(speed: int) -> bool {
    -2048 <= speed <= 2047
}

/// The writes that set the channel of servo `s` to a pulse of `value` counts.
pub open spec fn servo_op(s: Servos, value: u16) -> BusOp {
    pwm_op((servo_number(s) + 7) as u8, 0, value)
}

/// The first of the four channels of stepper `index` (1 is the first
/// stepper, any other value the second).
pub open spec fn stepper_base(index: u8) -> u8 {
    if index == 1 { 0 } else { 4 }
}

/// The channel that phase `k` (0 to 3 for A to D) of stepper `index` goes to:
/// channels 0, 2, 1, 3 of the stepper's group in direction `true`, and
/// channels 3, 1, 2, 0 in the other direction.
pub open spec fn stepper_channel(index: u8, direction: bool, k: int) -> u8 {
    let offset: u8 = if direction {
        if k == 0 { 0 } else if k == 1 { 2 } else if k == 2 { 1 } else { 3 }
    } else {
        if k == 0 { 3 } else if k == 1 { 1 } else if k == 2 { 2 } else { 0 }
    };
    (stepper_base(index) + offset) as u8
}

/// The on count of phase `k`.
pub open spec fn stepper_on(k: int) -> u16 {
    if k == 0 { STP_CHA_L } else if k == 1 { STP_CHB_L } else if k == 2 { STP_CHC_L } else { STP_CHD_L }
}

/// The off count of phase `k`.
pub open spec fn stepper_off(k: int) -> u16 {
    if k == 0 { STP_CHA_H } else if k == 1 { STP_CHB_H } else if k == 2 { STP_CHC_H } else { STP_CHD_H }
}

/// The writes that energise the four phases of stepper `index` in direction
/// `direction`, phase A first.
pub open spec fn stepper_ops(index: u8, direction: bool) -> Seq<BusOp> {
    Seq::new(4, |k: int| pwm_op(stepper_channel(index, direction, k), stepper_on(k), stepper_off(k)))
}

/// The writes that show the digits `dbuf` on the display: digit `i`'s segment
/// pattern to digit register `i`, leftmost first.
pub open spec fn display_ops(dbuf: Seq<u8>) -> Seq<BusOp> {
    Seq::new(
        4,
        |i: int|
            BusOp::Write { address: digit_address(i), bytes: seq![segment_pattern(dbuf[i] as int)] },
    )
}

/// MODE1 with the restart bit cleared and the sleep bit set: the controller
/// must sleep while its prescaler is written.
pub open spec fn sleep_mode(oldmode: u8) -> u8 {
    (oldmode & 0x7F) | 0x10
}

/// MODE1 with the restart, auto-increment and all-call bits set.
pub open spec fn restart_mode(oldmode: u8) -> u8 {
    oldmode | 0xA1
}

/// The prescaler for a PWM frequency of `freq` Hz from the 25 MHz oscillator:
/// 25 000 000 / (4096 * freq) - 1, rounded down and held to 0..=255 (a
/// frequency of 0 gives the slowest setting, 255).
pub open spec fn prescale_value(freq: u8) -> u8 {
    if freq == 0 {
        255
    } else {
        let q: int = 25_000_000int / (4096 * freq as int) - 1;
        if q > 255 {
            255
        } else if q < 0 {
            0
        } else {
            q as u8
        }
    }
}

/// The first transfers of the controller's start-up: MODE1 cleared, then
/// MODE1 read back.
pub open spec fn init_ops() -> Seq<BusOp> {
    seq![
        BusOp::Write { address: PCA9685_ADDRESS, bytes: seq![MODE1, 0x00u8] },
        BusOp::WriteRead { address: PCA9685_ADDRESS, bytes: seq![MODE1], read_len: 1 },
    ]
}

/// The writes that change the PWM frequency to `freq` Hz once MODE1 was read
/// as `oldmode`: sleep, write the prescaler, restore MODE1, wait 5 s for the
/// oscillator, then restart with auto-increment and all-call on.
pub open spec fn set_freq_ops(oldmode: u8, freq: u8) -> Seq<BusOp> {
    seq![
        BusOp::Write { address: PCA9685_ADDRESS, bytes: seq![MODE1, sleep_mode(oldmode)] },
        BusOp::Write { address: PCA9685_ADDRESS, bytes: seq![PRESCALE, prescale_value(freq)] },
        BusOp::Write { address: PCA9685_ADDRESS, bytes: seq![MODE1, oldmode] },
        BusOp::DelayMs { ms: 5000 },
        BusOp::Write { address: PCA9685_ADDRESS, bytes: seq![MODE1, restart_mode(oldmode)] },
    ]
}

/// The writes that switch channels 0 to 15 off, in order.
pub open spec fn all_channels_off_ops() -> Seq<BusOp> {
    Seq::new(16, |ch: int| pwm_op(ch as u8, 0, 0))
}

/// The prescaler for a PWM frequency of `freq` Hz.
pub fn prescale_for(freq: u8) -> (p: u8)
    ensures
        p == prescale_value(freq),
{
    if freq == 0 {
        return 255;
    }
    let q: u32 = 25_000_000u32 / (4096u32 * freq as u32);
    if q > 256 {
        255
    } else if q == 0 {
        0
    } else {
        (q - 1) as u8
    }
}

/// The mathematical value of a board: its bus and timer, its motor settings
/// and its display state.
pub ghost struct BoardView<I2C, T> {
    pub bus: I2C,
    pub clock: T,
    pub motor_speed: i16,
    pub motor_freq: u8,
    pub motor_run_seconds: u32,
    pub intensity: u8,
    pub cmd: Seq<u8>,
    pub dbuf: Seq<u8>,
}

impl<I2C, T> View for Robotbit<I2C, T> {
    type V = BoardView<I2C, T>;

    closed spec fn view(&self) -> BoardView<I2C, T> {
        BoardView {
            bus: self.i2c,
            clock: self.timer,
            motor_speed: self.motors.motor_speed,
            motor_freq: self.motors.motor_freq,
            motor_run_seconds: self.motors.motor_run_seconds,
            intensity: self.seg4.intensity,
            cmd: self.seg4.cmd@,
            dbuf: self.seg4.dbuf@,
        }
    }
}

/// A call on a board, as far as it changes the board: storing digits, showing
/// them, or any other operation (all others leave the board as it is).
pub ghost enum BoardCall {
    UpdateSeg4 { dbuf: Seq<u8> },
    Display,
    Other,
}

/// The board after call `c` on a board whose value is `v`: `update_seg4`
/// stores the first four given bytes as the digits; `display` leaves the last
/// digit's segment pattern as the command byte.
pub open spec fn after_call<I2C, T>(v: BoardView<I2C, T>, c: BoardCall) -> BoardView<I2C, T> {
    match c {
        BoardCall::UpdateSeg4 { dbuf } => BoardView { dbuf: dbuf.take(4), ..v },
        BoardCall::Display => BoardView { cmd: seq![segment_pattern(v.dbuf[3] as int)], ..v },
        BoardCall::Other => v,
    }
}

/// The board after the calls `calls`, in order, on a board whose value is `v`.
pub open spec fn after_calls<I2C, T>(v: BoardView<I2C, T>, calls: Seq<BoardCall>) -> BoardView<I2C, T>
    decreases calls.len(),
{
    if calls.len() == 0 {
        v
    } else {
        after_call(after_calls(v, calls.drop_last()), calls.last())
    }
}

/// Whatever calls are made on a board, it keeps the bus and the timer it was
/// made with, so [`Robotbit::destroy`] gives back the very bus and timer that
/// [`Robotbit::default`] took.
pub proof fn lemma_calls_keep_bus_and_timer<I2C, T>(v: BoardView<I2C, T>, calls: Seq<BoardCall>)
    ensures
        after_calls(v, calls).bus == v.bus,
        after_calls(v, calls).clock == v.clock,
    decreases calls.len(),
{
    if calls.len() > 0 {
        lemma_calls_keep_bus_and_timer(v, calls.drop_last());
    }
}

// ---------------------------------------------------------------------------

impl<I2C, T> Robotbit<I2C, T> {
    /// A board on bus `i2c` with timer `timer`, with the default settings:
    /// speed 150, PWM frequency 50 Hz, timed runs of one second, brightness 3,
    /// command byte 49 and the digits 1, 1, 0, 2.
    pub fn default<ERROR>(i2c: I2C, timer: T) -> (r: Result<Self, nb::Error<ERROR>>)
        ensures
            r is Ok,
            r matches Ok(b) && {
                &&& b@.bus == i2c
                &&& b@.clock == timer
                &&& b@.motor_speed == 150
                &&& b@.motor_freq == 50
                &&& b@.motor_run_seconds == 1
                &&& b@.intensity == 3
                &&& b@.cmd == seq![49u8]
                &&& b@.dbuf == seq![1u8, 1, 0, 2]
            },
    {
        let b = Robotbit {
            i2c,
            timer,
            motors: Motor { motor_speed: 150, motor_freq: 50, motor_run_seconds: 1 },
            seg4: Seg4 { intensity: 3, cmd: [49], dbuf: [1, 1, 0, 2] },
        };
        assert(b.seg4.cmd@ =~= seq![49u8]);
        assert(b.seg4.dbuf@ =~= seq![1u8, 1, 0, 2]);
        Ok(b)
    }

    /// Gives back the bus and the timer.
    pub fn destroy(self) -> (r: (I2C, T))
        ensures
            r.0 == self@.bus,
            r.1 == self@.clock,
    {
        (self.i2c, self.timer)
    }

    /// Lends out the bus and the timer, to perform transfers on them; the
    /// settings and the display state are untouched.
    pub fn parts_mut(&mut self) -> (r: (&mut I2C, &mut T))
        ensures
            *r.0 == old(self)@.bus,
            *r.1 == old(self)@.clock,
            final(self)@ == (BoardView { bus: *final(r.0), clock: *final(r.1), ..old(self)@ }),
    {
        (&mut self.i2c, &mut self.timer)
    }

    /// The motor settings: speed, PWM frequency and timed run length.
    pub fn motor_settings(&self) -> (r: (i16, u8, u32))
        ensures
            r == (self@.motor_speed, self@.motor_freq, self@.motor_run_seconds),
    {
        (self.motors.motor_speed, self.motors.motor_freq, self.motors.motor_run_seconds)
    }

    /// The four digits to show, leftmost first.
    pub fn digits(&self) -> (d: [u8; 4])
        ensures
            d@ == self@.dbuf,
    {
        self.seg4.dbuf
    }

    /// The write that programs channel `ch` to switch on at `on` and off at `off`.
    pub fn set_pwm(ch: u8, on: u16, off: u16) -> (t: Transfer)
        requires
            ch <= 62,
        ensures
            t@ == pwm_op(ch, on, off),
    {
        let buf = vec![
            LED0_ON_L + 4 * ch,
            (on % 256) as u8,
            (on / 256) as u8,
            (off % 256) as u8,
            (off / 256) as u8,
        ];
        assert(buf@ =~= pwm_frame(ch, on, off));
        Transfer::Write { address: PCA9685_ADDRESS, bytes: buf }
    }

    /// The writes that run `motor` at `speed`.
    pub fn set_motor(&self, motor: Motors, speed: i16) -> (r: Vec<Transfer>)
        requires
            speed_in_range(speed as int),
        ensures
            ops(r@) == motor_ops(motor, speed),
    {
        let mut duty = speed * 16;
        if duty > 4095 {
            duty = 4095;
        } else if duty < -4095 {
            duty = -4095;
        }
        let pp = (motor.number() - 1) * 2;
        let pn = pp + 1;
        let mut r: Vec<Transfer> = Vec::new();
        if duty > 0 {
            r.push(Self::set_pwm(pp, 0, duty as u16));
            r.push(Self::set_pwm(pn, 0, 0));
        } else {
            duty = 0 - duty;
            r.push(Self::set_pwm(pp, 0, 0));
            r.push(Self::set_pwm(pn, 0, duty as u16));
        }
        assert(ops(r@) =~= motor_ops(motor, speed));
        r
    }

    /// The writes that stop `motor`.
    pub fn stop_motor(&self, motor: Motors) -> (r: Vec<Transfer>)
        ensures
            ops(r@) == stop_motor_ops(motor),
    {
        let ch = (motor.number() - 1) * 2;
        let mut r: Vec<Transfer> = Vec::new();
        r.push(Self::set_pwm(ch, 0, 0));
        r.push(Self::set_pwm(ch + 1, 0, 0));
        assert(ops(r@) =~= stop_motor_ops(motor));
        r
    }

    /// The write that drives the channel of servo `servos` fully on (`value`)
    /// or off.
    pub fn set_level(&self, servos: Servos, value: bool) -> (t: Transfer)
        ensures
            t@ == pwm_op((servo_number(servos) + 7) as u8, 0, if value { 4095 } else { 0 }),
    {
        if value {
            Self::set_pwm(servos.number() + 7, 0, 4095)
        } else {
            Self::set_pwm(servos.number() + 7, 0, 0)
        }
    }

    /// The write that sets the pulse of servo `servo` to `value` counts.
    pub fn servo_pulse(&self, servo: Servos, value: u16) -> (t: Transfer)
        ensures
            t@ == servo_op(servo, value),
    {
        Self::set_pwm(servo.number() + 7, 0, value)
    }

    /// The writes that energise stepper `index` in direction `direction`.
    pub fn set_stepper(&self, index: u8, direction: bool) -> (r: Vec<Transfer>)
        ensures
            ops(r@) == stepper_ops(index, direction),
    {
        let b: u8 = if index == 1 { 0 } else { 4 };
        let mut r: Vec<Transfer> = Vec::new();
        if direction {
            r.push(Self::set_pwm(b, STP_CHA_L, STP_CHA_H));
            r.push(Self::set_pwm(b + 2, STP_CHB_L, STP_CHB_H));
            r.push(Self::set_pwm(b + 1, STP_CHC_L, STP_CHC_H));
            r.push(Self::set_pwm(b + 3, STP_CHD_L, STP_CHD_H));
        } else {
            r.push(Self::set_pwm(b + 3, STP_CHA_L, STP_CHA_H));
            r.push(Self::set_pwm(b + 1, STP_CHB_L, STP_CHB_H));
            r.push(Self::set_pwm(b + 2, STP_CHC_L, STP_CHC_H));
            r.push(Self::set_pwm(b, STP_CHD_L, STP_CHD_H));
        }
        assert(ops(r@) =~= stepper_ops(index, direction));
        r
    }

    /// The writes that run `motor1` at `speed1`, then `motor2` at `speed2`.
    pub fn run_two_motors(&self, motor1: Motors, speed1: i16, motor2: Motors, speed2: i16) -> (r: Vec<Transfer>)
        requires
            speed_in_range(speed1 as int),
            speed_in_range(speed2 as int),
        ensures
            ops(r@) == motor_ops(motor1, speed1) + motor_ops(motor2, speed2),
    {
        let mut r = self.set_motor(motor1, speed1);
        append_transfers(&mut r, self.set_motor(motor2, speed2));
        r
    }

    /// Runs `motor` at `speed` for the configured run time, then stops it.
    pub fn run_motor_for_seconds(&self, motor: Motors, speed: i16) -> (r: Vec<Transfer>)
        requires
            self@.motor_run_seconds <= MAX_SECONDS,
            speed_in_range(speed as int),
        ensures
            ops(r@) == motor_ops(motor, speed) + seq![
                BusOp::DelayMs { ms: (self@.motor_run_seconds * 1000) as u32 },
            ] + motor_ops(motor, 0),
    {
        let mut r = self.set_motor(motor, speed);
        let mut wait: Vec<Transfer> = Vec::new();
        wait.push(Transfer::DelayMs { ms: self.motors.motor_run_seconds * 1000 });
        assert(ops(wait@) =~= seq![
            BusOp::DelayMs { ms: (self.motors.motor_run_seconds * 1000) as u32 },
        ]);
        append_transfers(&mut r, wait);
        append_transfers(&mut r, self.set_motor(motor, 0));
        r
    }

    /// Stops the left, right and centre motors, in that order.
    pub fn stop_all_motors(&self) -> (r: Vec<Transfer>)
        ensures
            ops(r@) == stop_motor_ops(Motors::Left) + stop_motor_ops(Motors::Right)
                + stop_motor_ops(Motors::Centre),
    {
        let mut r = self.stop_motor(Motors::Left);
        append_transfers(&mut r, self.stop_motor(Motors::Right));
        append_transfers(&mut r, self.stop_motor(Motors::Centre));
        r
    }

    /// Runs the fan (the centre motor) at the configured speed.
    pub fn run_fan(&self) -> (r: Vec<Transfer>)
        requires
            speed_in_range(self@.motor_speed as int),
        ensures
            ops(r@) == motor_ops(Motors::Centre, self@.motor_speed),
    {
        self.set_motor(Motors::Centre, self.motors.motor_speed)
    }

    /// Stops the fan.
    pub fn stop_fan(&self) -> (r: Vec<Transfer>)
        ensures
            ops(r@) == stop_motor_ops(Motors::Centre),
    {
        self.stop_motor(Motors::Centre)
    }

    /// Both wheels forward at the configured speed.
    pub fn forward(&self) -> (r: Vec<Transfer>)
        requires
            speed_in_range(self@.motor_speed as int),
        ensures
            ops(r@) == motor_ops(Motors::Left, self@.motor_speed)
                + motor_ops(Motors::Right, self@.motor_speed),
    {
        self.run_two_motors(Motors::Left, self.motors.motor_speed, Motors::Right, self.motors.motor_speed)
    }

    /// Both wheels backward at the configured speed.
    pub fn backward(&self) -> (r: Vec<Transfer>)
        requires
            speed_in_range(-self@.motor_speed),
        ensures
            ops(r@) == motor_ops(Motors::Left, (-self@.motor_speed) as i16)
                + motor_ops(Motors::Right, (-self@.motor_speed) as i16),
    {
        self.run_two_motors(
            Motors::Left,
            0 - self.motors.motor_speed,
            Motors::Right,
            0 - self.motors.motor_speed,
        )
    }

    /// Both wheels stopped (speed 0).
    pub fn stop(&self) -> (r: Vec<Transfer>)
        ensures
            ops(r@) == motor_ops(Motors::Left, 0) + motor_ops(Motors::Right, 0),
    {
        self.run_two_motors(Motors::Left, 0, Motors::Right, 0)
    }

    /// Turns right on the spot: left wheel forward, right wheel backward.
    pub fn turn_right_at_place(&self) -> (r: Vec<Transfer>)
        requires
            speed_in_range(self@.motor_speed as int),
            speed_in_range(-self@.motor_speed),
        ensures
            ops(r@) == motor_ops(Motors::Left, self@.motor_speed)
                + motor_ops(Motors::Right, (-self@.motor_speed) as i16),
    {
        self.run_two_motors(
            Motors::Left,
            self.motors.motor_speed,
            Motors::Right,
            0 - self.motors.motor_speed,
        )
    }

    /// Turns left on the spot: left wheel backward, right wheel forward.
    pub fn turn_left_at_place(&self) -> (r: Vec<Transfer>)
        requires
            speed_in_range(self@.motor_speed as int),
            speed_in_range(-self@.motor_speed),
        ensures
            ops(r@) == motor_ops(Motors::Left, (-self@.motor_speed) as i16)
                + motor_ops(Motors::Right, self@.motor_speed),
    {
        self.run_two_motors(
            Motors::Left,
            0 - self.motors.motor_speed,
            Motors::Right,
            self.motors.motor_speed,
        )
    }

    /// Turns left: left wheel stopped, right wheel at the speed plus 50.
    pub fn turn_left(&self) -> (r: Vec<Transfer>)
        requires
            speed_in_range(50 + self@.motor_speed),
        ensures
            ops(r@) == motor_ops(Motors::Left, 0)
                + motor_ops(Motors::Right, (50 + self@.motor_speed) as i16),
    {
        self.run_two_motors(Motors::Left, 0, Motors::Right, 50 + self.motors.motor_speed)
    }

    /// Turns right: left wheel at the speed plus 50, right wheel stopped.
    pub fn turn_right(&self) -> (r: Vec<Transfer>)
        requires
            speed_in_range(50 + self@.motor_speed),
        ensures
            ops(r@) == motor_ops(Motors::Left, (50 + self@.motor_speed) as i16)
                + motor_ops(Motors::Right, 0),
    {
        self.run_two_motors(Motors::Left, 50 + self.motors.motor_speed, Motors::Right, 0)
    }

    /// Waits for the configured run time.
    pub fn delay(&self) -> (t: Transfer)
        requires
            self@.motor_run_seconds <= MAX_SECONDS,
        ensures
            t@ == (BusOp::DelayMs { ms: (self@.motor_run_seconds * 1000) as u32 }),
    {
        Transfer::DelayMs { ms: self.motors.motor_run_seconds * 1000 }
    }

    /// Waits `seconds` seconds.
    pub fn delay_s(&self, seconds: u32) -> (t: Transfer)
        requires
            seconds <= MAX_SECONDS,
        ensures
            t@ == (BusOp::DelayMs { ms: (seconds * 1000) as u32 }),
    {
        Transfer::DelayMs { ms: seconds * 1000 }
    }

    /// Takes the first four bytes of `dbuf` as the digits to show.
    pub fn update_seg4(&mut self, dbuf: &[u8])
        requires
            dbuf@.len() >= 4,
        ensures
            final(self)@ == after_call(old(self)@, BoardCall::UpdateSeg4 { dbuf: dbuf@ }),
    {
        let mut i: usize = 0;
        while i < 4
            invariant
                0 <= i <= 4,
                dbuf@.len() >= 4,
                forall|j: int| 0 <= j < i ==> self.seg4.dbuf@[j] == dbuf@[j],
                self.seg4.cmd@ == old(self).seg4.cmd@,
                self.seg4.intensity == old(self).seg4.intensity,
                self.motors == old(self).motors,
                self.i2c == old(self).i2c,
                self.timer == old(self).timer,
            decreases 4 - i,
        {
            self.seg4.dbuf[i] = dbuf[i];
            i = i + 1;
        }
        assert(self.seg4.dbuf@ =~= dbuf@.take(4));
    }

    /// Shows the four digits: each digit's segment pattern goes to its digit
    /// register, leftmost first; the last pattern sent stays as the command
    /// byte.
    pub fn display(&mut self) -> (r: Vec<Transfer>)
        requires
            forall|i: int| 0 <= i < 4 ==> old(self)@.dbuf[i] < 16,
        ensures
            ops(r@) == display_ops(old(self)@.dbuf),
            final(self)@ == after_call(old(self)@, BoardCall::Display),
    {
        proof {
            assert forall|j: int| 0 <= j < 4 implies self.seg4.dbuf@[j] < 16 by {
                assert(old(self)@.dbuf[j] < 16);
            }
        }
        let mut r: Vec<Transfer> = Vec::new();
        let mut i: usize = 0;
        while i < 4
            invariant
                0 <= i <= 4,
                forall|j: int| 0 <= j < 4 ==> self.seg4.dbuf@[j] < 16,
                self.seg4.dbuf@ == old(self).seg4.dbuf@,
                self.seg4.intensity == old(self).seg4.intensity,
                self.motors == old(self).motors,
                self.i2c == old(self).i2c,
                self.timer == old(self).timer,
                ops(r@) == display_ops(self.seg4.dbuf@).take(i as int),
                i > 0 ==> self.seg4.cmd@ == seq![segment_pattern(self.seg4.dbuf@[i - 1] as int)],
            decreases 4 - i,
        {
            let code = segment_code(self.seg4.dbuf[i]);
            self.seg4.cmd[0] = code;
            let bytes = vec![self.seg4.cmd[0]];
            assert(bytes@ =~= seq![segment_pattern(self.seg4.dbuf@[i as int] as int)]);
            let t = Transfer::Write { address: display_address(i), bytes };
            assert(t@ == display_ops(self.seg4.dbuf@)[i as int]);
            let ghost before = r@;
            r.push(t);
            proof {
                assert(ops(r@) =~= ops(before).push(t@));
                assert(self.seg4.cmd@ =~= seq![segment_pattern(self.seg4.dbuf@[i as int] as int)]);
                assert(display_ops(self.seg4.dbuf@).take(i + 1) =~= display_ops(self.seg4.dbuf@).take(
                    i as int,
                ).push(display_ops(self.seg4.dbuf@)[i as int]));
            }
            i = i + 1;
        }
        assert(display_ops(self.seg4.dbuf@).take(4) =~= display_ops(self.seg4.dbuf@));
        r
    }

    /// Sends the command byte to the display's command register.
    pub fn init_display(&self) -> (t: Transfer)
        ensures
            t@ == (BusOp::Write { address: CMD_ADDR, bytes: self@.cmd }),
    {
        let bytes = vec![self.seg4.cmd[0]];
        assert(bytes@ =~= self.seg4.cmd@);
        Transfer::Write { address: CMD_ADDR, bytes }
    }

    /// The first transfers of the start-up: clear MODE1, then read MODE1 back
    /// (the read's byte is what [`Robotbit::finish_init`] takes).
    pub fn init(&self) -> (r: Vec<Transfer>)
        ensures
            ops(r@) == init_ops(),
    {
        let mut r: Vec<Transfer> = Vec::new();
        let reset = vec![MODE1, 0x00];
        assert(reset@ =~= seq![MODE1, 0x00u8]);
        r.push(Transfer::Write { address: PCA9685_ADDRESS, bytes: reset });
        let query = vec![MODE1];
        assert(query@ =~= seq![MODE1]);
        r.push(Transfer::WriteRead { address: PCA9685_ADDRESS, bytes: query, read_len: 1 });
        assert(ops(r@) =~= init_ops());
        r
    }

    /// The writes that set the PWM frequency to `freq` Hz, once MODE1 was
    /// read as `oldmode`.
    pub fn set_freq(&self, oldmode: u8, freq: u8) -> (r: Vec<Transfer>)
        ensures
            ops(r@) == set_freq_ops(oldmode, freq),
    {
        let prescale = prescale_for(freq);
        let newmode = (oldmode & 0x7F) | 0x10;
        let mut r: Vec<Transfer> = Vec::new();
        let b0 = vec![MODE1, newmode];
        let b1 = vec![PRESCALE, prescale];
        let b2 = vec![MODE1, oldmode];
        let b3 = vec![MODE1, oldmode | 0xA1];
        assert(b0@ =~= seq![MODE1, sleep_mode(oldmode)]);
        assert(b1@ =~= seq![PRESCALE, prescale_value(freq)]);
        assert(b2@ =~= seq![MODE1, oldmode]);
        assert(b3@ =~= seq![MODE1, restart_mode(oldmode)]);
        r.push(Transfer::Write { address: PCA9685_ADDRESS, bytes: b0 });
        r.push(Transfer::Write { address: PCA9685_ADDRESS, bytes: b1 });
        r.push(Transfer::Write { address: PCA9685_ADDRESS, bytes: b2 });
        r.push(Transfer::DelayMs { ms: 5000 });
        r.push(Transfer::Write { address: PCA9685_ADDRESS, bytes: b3 });
        assert(ops(r@) =~= set_freq_ops(oldmode, freq));
        r
    }

    /// The rest of the start-up, once MODE1 was read as `oldmode`: the
    /// frequency set to the configured one, then all sixteen channels off.
    pub fn finish_init(&self, oldmode: u8) -> (r: Vec<Transfer>)
        ensures
            ops(r@) == set_freq_ops(oldmode, self@.motor_freq) + all_channels_off_ops(),
    {
        let mut r = self.set_freq(oldmode, self.motors.motor_freq);
        let mut off: Vec<Transfer> = Vec::new();
        let mut ch: u8 = 0;
        while ch < 16
            invariant
                0 <= ch <= 16,
                ops(off@) == all_channels_off_ops().take(ch as int),
            decreases 16 - ch,
        {
            let t = Self::set_pwm(ch, 0, 0);
            let ghost before = off@;
            off.push(t);
            proof {
                assert(ops(off@) =~= ops(before).push(t@));
                assert(all_channels_off_ops().take(ch + 1) =~= all_channels_off_ops().take(
                    ch as int,
                ).push(all_channels_off_ops()[ch as int]));
            }
            ch = ch + 1;
        }
        assert(all_channels_off_ops().take(16) =~= all_channels_off_ops());
        append_transfers(&mut r, off);
        r
    }
}

} // verus!
