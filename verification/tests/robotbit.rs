use robot::bus::after_attempt;
use robot::bus::Transfer;
use robot::pca9685::{Motors, Servos, Steppers, Turns};
use robot::robotbit::{prescale_for, Robotbit};
use robot::tm1650::{display_address, segment_code, SEG};

type Board = Robotbit<(), ()>;

fn board() -> Board {
    match Board::default::<()>((), ()) {
        Ok(b) => b,
        Err(_) => panic!("default never fails"),
    }
}

fn pwm(ch: u8, on: u16, off: u16) -> Transfer {
    Transfer::Write {
        address: 0x40,
        bytes: vec![6 + 4 * ch, (on & 0xff) as u8, (on >> 8) as u8, (off & 0xff) as u8, (off >> 8) as u8],
    }
}

#[test]
fn default_never_fails() {
    assert!(Board::default::<u8>((), ()).is_ok());
}

#[test]
fn destroy_gives_back_bus_and_timer() {
    let b = match Robotbit::<u32, &str>::default::<()>(7, "timer") {
        Ok(b) => b,
        Err(_) => panic!(),
    };
    assert_eq!(b.destroy(), (7, "timer"));
}

#[test]
fn set_pwm_frame_is_little_endian() {
    assert_eq!(
        Board::set_pwm(3, 0x1234, 0x0abc),
        Transfer::Write { address: 0x40, bytes: vec![18, 0x34, 0x12, 0xbc, 0x0a] }
    );
    assert_eq!(Board::set_pwm(62, 0, 4095), Transfer::Write { address: 0x40, bytes: vec![254, 0, 0, 0xff, 0x0f] });
}

#[test]
fn forward_drives_both_wheels() {
    let b = board();
    // speed 150 gives a duty of 2400 = 0x960
    assert_eq!(b.forward(), vec![pwm(0, 0, 2400), pwm(1, 0, 0), pwm(2, 0, 2400), pwm(3, 0, 0)]);
}

#[test]
fn backward_swaps_each_motor_channels() {
    let b = board();
    assert_eq!(b.backward(), vec![pwm(0, 0, 0), pwm(1, 0, 2400), pwm(2, 0, 0), pwm(3, 0, 2400)]);
}

#[test]
fn stop_sets_both_wheels_to_zero() {
    let b = board();
    assert_eq!(b.stop(), vec![pwm(0, 0, 0), pwm(1, 0, 0), pwm(2, 0, 0), pwm(3, 0, 0)]);
}

#[test]
fn turns_on_the_spot() {
    let b = board();
    assert_eq!(b.turn_right_at_place(), vec![pwm(0, 0, 2400), pwm(1, 0, 0), pwm(2, 0, 0), pwm(3, 0, 2400)]);
    assert_eq!(b.turn_left_at_place(), vec![pwm(0, 0, 0), pwm(1, 0, 2400), pwm(2, 0, 2400), pwm(3, 0, 0)]);
}

#[test]
fn turns_use_speed_plus_fifty() {
    let b = board();
    // (150 + 50) * 16 = 3200
    assert_eq!(b.turn_left(), vec![pwm(0, 0, 0), pwm(1, 0, 0), pwm(2, 0, 3200), pwm(3, 0, 0)]);
    assert_eq!(b.turn_right(), vec![pwm(0, 0, 3200), pwm(1, 0, 0), pwm(2, 0, 0), pwm(3, 0, 0)]);
}

#[test]
fn set_motor_clamps_duty() {
    let b = board();
    assert_eq!(b.set_motor(Motors::Centre, 2047), vec![pwm(4, 0, 4095), pwm(5, 0, 0)]);
    assert_eq!(b.set_motor(Motors::Centre, -2048), vec![pwm(4, 0, 0), pwm(5, 0, 4095)]);
    assert_eq!(b.set_motor(Motors::Right, 256), vec![pwm(2, 0, 4095), pwm(3, 0, 0)]);
    assert_eq!(b.set_motor(Motors::Right, 255), vec![pwm(2, 0, 4080), pwm(3, 0, 0)]);
    assert_eq!(b.set_motor(Motors::Left, -1), vec![pwm(0, 0, 0), pwm(1, 0, 16)]);
    assert_eq!(b.set_motor(Motors::Left, 0), vec![pwm(0, 0, 0), pwm(1, 0, 0)]);
}

#[test]
fn motor_never_drives_both_inputs() {
    let b = board();
    for speed in -2048i16..=2047 {
        for m in [Motors::Left, Motors::Right, Motors::Centre] {
            let r = b.set_motor(m, speed);
            let offs: Vec<u16> = r
                .iter()
                .map(|t| match t {
                    Transfer::Write { bytes, .. } => bytes[3] as u16 | (bytes[4] as u16) << 8,
                    _ => panic!(),
                })
                .collect();
            assert!(offs[0] == 0 || offs[1] == 0);
            assert!(offs[0] <= 4095 && offs[1] <= 4095);
        }
    }
}

#[test]
fn reversing_speed_swaps_channels() {
    let b = board();
    assert_eq!(b.set_motor(Motors::Left, 100), vec![pwm(0, 0, 1600), pwm(1, 0, 0)]);
    assert_eq!(b.set_motor(Motors::Left, -100), vec![pwm(0, 0, 0), pwm(1, 0, 1600)]);
}

#[test]
fn stop_motor_equals_speed_zero() {
    let b = board();
    for m in [Motors::Left, Motors::Right, Motors::Centre] {
        assert_eq!(b.stop_motor(m), b.set_motor(m, 0));
    }
}

#[test]
fn stop_all_motors_in_order() {
    let b = board();
    let expected: Vec<Transfer> = (0..6).map(|ch| pwm(ch, 0, 0)).collect();
    assert_eq!(b.stop_all_motors(), expected);
}

#[test]
fn fan_is_centre_motor() {
    let b = board();
    assert_eq!(b.run_fan(), vec![pwm(4, 0, 2400), pwm(5, 0, 0)]);
    assert_eq!(b.stop_fan(), vec![pwm(4, 0, 0), pwm(5, 0, 0)]);
}

#[test]
fn run_two_motors_in_order() {
    let b = board();
    assert_eq!(
        b.run_two_motors(Motors::Centre, 10, Motors::Left, -10),
        vec![pwm(4, 0, 160), pwm(5, 0, 0), pwm(0, 0, 0), pwm(1, 0, 160)]
    );
}

#[test]
fn timed_run_waits_then_stops() {
    let b = board();
    assert_eq!(
        b.run_motor_for_seconds(Motors::Right, 20),
        vec![pwm(2, 0, 320), pwm(3, 0, 0), Transfer::DelayMs { ms: 1000 }, pwm(2, 0, 0), pwm(3, 0, 0)]
    );
}

#[test]
fn delays() {
    let b = board();
    assert_eq!(b.delay(), Transfer::DelayMs { ms: 1000 });
    assert_eq!(b.delay_s(3), Transfer::DelayMs { ms: 3000 });
    assert_eq!(b.delay_s(4294967), Transfer::DelayMs { ms: 4294967000 });
}

#[test]
fn servo_level_and_pulse() {
    let b = board();
    assert_eq!(b.set_level(Servos::S1, true), pwm(8, 0, 4095));
    assert_eq!(b.set_level(Servos::S6, false), pwm(13, 0, 0));
    assert_eq!(b.servo_pulse(Servos::S1, 307), pwm(8, 0, 307));
}

#[test]
fn stepper_phases() {
    let b = board();
    assert_eq!(
        b.set_stepper(1, true),
        vec![pwm(0, 2047, 4095), pwm(2, 1, 2047), pwm(1, 1023, 3071), pwm(3, 3071, 1023)]
    );
    assert_eq!(
        b.set_stepper(1, false),
        vec![pwm(3, 2047, 4095), pwm(1, 1, 2047), pwm(2, 1023, 3071), pwm(0, 3071, 1023)]
    );
    assert_eq!(
        b.set_stepper(2, true),
        vec![pwm(4, 2047, 4095), pwm(6, 1, 2047), pwm(5, 1023, 3071), pwm(7, 3071, 1023)]
    );
    assert_eq!(
        b.set_stepper(2, false),
        vec![pwm(7, 2047, 4095), pwm(5, 1, 2047), pwm(6, 1023, 3071), pwm(4, 3071, 1023)]
    );
    assert_eq!(b.set_stepper(0, true), b.set_stepper(2, true));
}

#[test]
fn enum_numbers() {
    assert_eq!(Servos::S4.number(), 4);
    assert_eq!(Motors::Centre.number(), 3);
    assert_eq!(Steppers::M2.number(), 2);
    assert_eq!(Turns::T1B4.degrees(), 90);
    assert_eq!(Turns::T5B0.degrees(), 1800);
}

#[test]
fn init_starts_with_reset_and_mode_read() {
    let b = board();
    assert_eq!(
        b.init(),
        vec![
            Transfer::Write { address: 0x40, bytes: vec![0x00, 0x00] },
            Transfer::WriteRead { address: 0x40, bytes: vec![0x00], read_len: 1 },
        ]
    );
}

#[test]
fn finish_init_sets_fifty_hertz_and_clears_channels() {
    let b = board();
    let mut expected = vec![
        Transfer::Write { address: 0x40, bytes: vec![0x00, 0x11] },
        Transfer::Write { address: 0x40, bytes: vec![0xFE, 121] },
        Transfer::Write { address: 0x40, bytes: vec![0x00, 0x01] },
        Transfer::DelayMs { ms: 5000 },
        Transfer::Write { address: 0x40, bytes: vec![0x00, 0xA1] },
    ];
    for ch in 0..16 {
        expected.push(pwm(ch, 0, 0));
    }
    assert_eq!(b.finish_init(0x01), expected);
}

#[test]
fn set_freq_mode_bits() {
    let b = board();
    let r = b.set_freq(0xFF, 50);
    // the restart bit is cleared and sleep set before the prescaler is written
    assert_eq!(r[0], Transfer::Write { address: 0x40, bytes: vec![0x00, 0x7F] });
    assert_eq!(r[2], Transfer::Write { address: 0x40, bytes: vec![0x00, 0xFF] });
    assert_eq!(r[4], Transfer::Write { address: 0x40, bytes: vec![0x00, 0xFF] });
    let r = b.set_freq(0x80, 1);
    assert_eq!(r[0], Transfer::Write { address: 0x40, bytes: vec![0x00, 0x10] });
    assert_eq!(r[1], Transfer::Write { address: 0x40, bytes: vec![0xFE, 255] });
    assert_eq!(r[4], Transfer::Write { address: 0x40, bytes: vec![0x00, 0xA1] });
}

#[test]
fn prescale_values() {
    assert_eq!(prescale_for(50), 121);
    assert_eq!(prescale_for(0), 255);
    assert_eq!(prescale_for(1), 255);
    assert_eq!(prescale_for(24), 253);
    assert_eq!(prescale_for(255), 22);
}

#[test]
fn prescale_agrees_with_float_formula() {
    for freq in 0u8..=255 {
        let mut v: f32 = 25000000.0;
        v /= 4096.0;
        v /= freq as f32;
        v -= 1.0;
        assert_eq!(prescale_for(freq), v as u8, "freq {}", freq);
    }
}

#[test]
fn prescale_never_grows_with_frequency() {
    for f in 1u8..255 {
        assert!(prescale_for(f + 1) <= prescale_for(f));
    }
}

#[test]
fn display_shows_default_digits() {
    let mut b = board();
    assert_eq!(
        b.display(),
        vec![
            Transfer::Write { address: 0x34, bytes: vec![0x06] },
            Transfer::Write { address: 0x35, bytes: vec![0x06] },
            Transfer::Write { address: 0x36, bytes: vec![0x3F] },
            Transfer::Write { address: 0x37, bytes: vec![0x5B] },
        ]
    );
    // the last pattern stays as the command byte
    assert_eq!(b.init_display(), Transfer::Write { address: 0x24, bytes: vec![0x5B] });
}

#[test]
fn init_display_sends_command_byte() {
    let b = board();
    assert_eq!(b.init_display(), Transfer::Write { address: 0x24, bytes: vec![49] });
}

#[test]
fn update_then_display_shows_new_digits() {
    let mut b = board();
    b.update_seg4(&[9, 10, 11, 12, 13]);
    assert_eq!(
        b.display(),
        vec![
            Transfer::Write { address: 0x34, bytes: vec![0x6F] },
            Transfer::Write { address: 0x35, bytes: vec![0x77] },
            Transfer::Write { address: 0x36, bytes: vec![0x7C] },
            Transfer::Write { address: 0x37, bytes: vec![0x39] },
        ]
    );
}

#[test]
fn segment_codes_are_distinct() {
    for a in 0u8..16 {
        assert_eq!(segment_code(a), SEG[a as usize]);
        for b in 0u8..16 {
            if a != b {
                assert_ne!(segment_code(a), segment_code(b));
            }
        }
    }
    assert_eq!(segment_code(15), 0x71);
    assert_eq!(display_address(0), 0x34);
    assert_eq!(display_address(3), 0x37);
}

#[test]
fn motor_settings_are_the_defaults() {
    assert_eq!(board().motor_settings(), (150, 50, 1));
}

#[test]
fn destroy_after_calls_gives_back_same_parts() {
    let mut b = match Robotbit::<u8, u16>::default::<()>(3, 9) {
        Ok(b) => b,
        Err(_) => panic!(),
    };
    b.update_seg4(&[1, 2, 3, 4]);
    let _ = b.display();
    let _ = b.forward();
    let _ = b.init();
    assert_eq!(b.digits(), [1, 2, 3, 4]);
    assert_eq!(b.destroy(), (3, 9));
}

#[test]
fn retry_until_accepted() {
    assert_eq!(after_attempt(0, 3, false), Some(0));
    assert_eq!(after_attempt(0, 3, true), Some(1));
    assert_eq!(after_attempt(2, 3, true), None);
    assert_eq!(after_attempt(2, 3, false), Some(2));
}
