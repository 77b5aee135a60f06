//! Properties of the Robotbit driver that hold across its operations.
use vstd::prelude::*;
use vstd::arithmetic::div_mod::lemma_div_is_ordered_by_denominator;
use crate::pca9685::{motor_number, servo_number, stepper_number, Motors, Servos, Steppers};
use crate::robotbit::{
    motor_channel, motor_counts, motor_ops, prescale_value, pwm_frame, pwm_op, restart_mode,
    servo_op, sleep_mode, speed_in_range, stepper_base, stepper_channel, stop_motor_ops,
};
use crate::tm1650::segment_pattern;

verus! {

/// A motor's H-bridge never has both inputs driven: whatever the speed, one of
/// the motor's two channels is off.
pub proof fn lemma_motor_one_side_idle(speed: i16)
    requires
        speed_in_range(speed as int),
    ensures
        motor_counts(speed).0 == 0 || motor_counts(speed).1 == 0,
{
}

/// A motor's duty never exceeds the controller's twelve-bit counter: both off
/// counts are at most 4095, whatever the speed.
pub proof fn lemma_motor_duty_bounded(speed: i16)
    requires
        speed_in_range(speed as int),
    ensures
        motor_counts(speed).0 <= 4095,
        motor_counts(speed).1 <= 4095,
{
}

/// Reversing a motor's speed exchanges the counts of its two channels.
pub proof fn lemma_reverse_swaps_channels(speed: i16)
    requires
        -2047 <= speed <= 2047,
    ensures
        motor_counts((-speed) as i16) == (motor_counts(speed).1, motor_counts(speed).0),
{
}

/// Stopping a motor writes exactly what running it at speed 0 writes.
pub proof fn lemma_stop_is_speed_zero(m: Motors)
    ensures
        stop_motor_ops(m) == motor_ops(m, 0),
{
    assert(motor_counts(0) == (0u16, 0u16));
    assert(stop_motor_ops(m) =~= motor_ops(m, 0));
}

/// Running a motor backward writes, channel for channel, the counts of
/// running it forward at the same speed exchanged between its two channels.
pub proof fn lemma_backward_mirrors_forward(m: Motors, speed: i16)
    requires
        -2047 <= speed <= 2047,
    ensures
        motor_ops(m, (-speed) as i16) == seq![
            pwm_op(motor_channel(m), 0, motor_counts(speed).1),
            pwm_op((motor_channel(m) + 1) as u8, 0, motor_counts(speed).0),
        ],
{
    lemma_reverse_swaps_channels(speed);
}

/// A channel frame loses nothing: its first byte is the channel's first
/// register, and the on and off counts come back from their two bytes, low
/// byte first.
pub proof fn lemma_pwm_frame_decodes(ch: u8, on: u16, off: u16)
    requires
        ch <= 62,
    ensures
        pwm_frame(ch, on, off).len() == 5,
        pwm_frame(ch, on, off)[0] == 6 + 4 * ch,
        pwm_frame(ch, on, off)[1] + 256 * pwm_frame(ch, on, off)[2] == on,
        pwm_frame(ch, on, off)[3] + 256 * pwm_frame(ch, on, off)[4] == off,
{
}

/// Servo channels (8 to 13) never coincide with motor channels (0 to 5).
pub proof fn lemma_servo_and_motor_channels_disjoint(s: Servos, m: Motors)
    ensures
        servo_op(s, 0) == pwm_op((servo_number(s) + 7) as u8, 0, 0),
        8 <= servo_number(s) + 7 <= 13,
        motor_channel(m) + 1 <= 5,
        servo_number(s) + 7 != motor_channel(m),
        servo_number(s) + 7 != motor_channel(m) + 1,
{
}

/// A stepper's four phases go to four different channels of its group, and
/// reversing the direction mirrors each phase's channel within the group.
pub proof fn lemma_stepper_phases(index: u8, direction: bool, j: int, k: int)
    requires
        0 <= j < 4,
        0 <= k < 4,
        j != k,
    ensures
        stepper_base(index) <= stepper_channel(index, direction, k) <= stepper_base(index) + 3,
        stepper_channel(index, direction, j) != stepper_channel(index, direction, k),
        stepper_channel(index, false, k) - stepper_base(index) == 3 - (stepper_channel(
            index,
            true,
            k,
        ) - stepper_base(index)),
{
}

/// Different digits show different segment patterns.
pub proof fn lemma_segment_patterns_distinct(d1: int, d2: int)
    requires
        0 <= d1 < 16,
        0 <= d2 < 16,
        d1 != d2,
    ensures
        segment_pattern(d1) != segment_pattern(d2),
{
}

/// Before the prescaler is written the controller sleeps and is not
/// restarted, every other MODE1 bit kept; the final write restarts it with
/// register auto-increment and all-call on, every other bit kept.
pub proof fn lemma_mode_bits(oldmode: u8)
    ensures
        sleep_mode(oldmode) & 0x10 == 0x10,
        sleep_mode(oldmode) & 0x80 == 0,
        sleep_mode(oldmode) & 0x6F == oldmode & 0x6F,
        restart_mode(oldmode) & 0xA1 == 0xA1,
        restart_mode(oldmode) & 0x5E == oldmode & 0x5E,
{
    assert(((oldmode & 0x7F) | 0x10) & 0x10 == 0x10) by (bit_vector);
    assert(((oldmode & 0x7F) | 0x10) & 0x80 == 0) by (bit_vector);
    assert(((oldmode & 0x7F) | 0x10) & 0x6F == oldmode & 0x6F) by (bit_vector);
    assert((oldmode | 0xA1) & 0xA1 == 0xA1) by (bit_vector);
    assert((oldmode | 0xA1) & 0x5E == oldmode & 0x5E) by (bit_vector);
}

/// A higher PWM frequency never needs a larger prescaler.
pub proof fn lemma_prescale_decreasing(f1: u8, f2: u8)
    requires
        0 < f1 <= f2,
    ensures
        prescale_value(f2) <= prescale_value(f1),
{
    lemma_div_is_ordered_by_denominator(25_000_000, 4096 * f1 as int, 4096 * f2 as int);
}

/// The six servo headers have six different numbers, 1 to 6, counting up
/// from S1 to S6, so each servo drives a channel of its own (channels 8 to 13
/// in header order).
pub proof fn lemma_servo_numbers_distinct(s1: Servos, s2: Servos)
    ensures
        1 <= servo_number(s1) <= 6,
        servo_number(s1) == servo_number(s2) ==> s1 == s2,
        servo_op(s1, 0) == servo_op(s2, 0) ==> s1 == s2,
        servo_number(Servos::S1) + 1 == servo_number(Servos::S2),
        servo_number(Servos::S2) + 1 == servo_number(Servos::S3),
        servo_number(Servos::S3) + 1 == servo_number(Servos::S4),
        servo_number(Servos::S4) + 1 == servo_number(Servos::S5),
        servo_number(Servos::S5) + 1 == servo_number(Servos::S6),
{
    if servo_op(s1, 0) == servo_op(s2, 0) {
        let ch1 = (servo_number(s1) + 7) as u8;
        let ch2 = (servo_number(s2) + 7) as u8;
        assert(pwm_frame(ch1, 0, 0)[0] == pwm_frame(ch2, 0, 0)[0]);
    }
}

/// The three motors have three different numbers, 1 to 3, so their channel
/// pairs (0-1, 2-3, 4-5) do not overlap; the two steppers have different
/// numbers, 1 and 2.  The left, right and centre motors come in that order,
/// as do the steppers M1 and M2.
pub proof fn lemma_motor_numbers_distinct(m1: Motors, m2: Motors, t1: Steppers, t2: Steppers)
    ensures
        1 <= motor_number(m1) <= 3,
        motor_number(m1) == motor_number(m2) ==> m1 == m2,
        m1 != m2 ==> motor_channel(m1) + 1 < motor_channel(m2) || motor_channel(m2) + 1 < motor_channel(m1),
        1 <= stepper_number(t1) <= 2,
        stepper_number(t1) == stepper_number(t2) ==> t1 == t2,
        motor_channel(Motors::Left) < motor_channel(Motors::Right) < motor_channel(Motors::Centre),
        stepper_number(Steppers::M1) < stepper_number(Steppers::M2),
{
}

} // verus!
