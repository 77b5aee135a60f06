use robot::command::command_of_word;
use robot::command::{collect, command_of, try_command, CollectEvent, SensorCommand};
use robot::compass::{direction_of, Direction};
use robot::echo::{receive, reversed_reply, try_receive, LineEvent};
use robot::leds::{chase_next, roulette_next, roulette_step};
use robot::line::{line_len, new_line, start_line, LineBuffer};

fn line_of(bytes: &[u8]) -> LineBuffer {
    let mut l = new_line();
    for b in bytes {
        l.push(*b).unwrap();
    }
    l
}

#[test]
fn echo_collects_until_carriage_return() {
    let mut buf = new_line();
    for b in b"abc" {
        assert!(matches!(receive(&mut buf, *b), LineEvent::Pending));
    }
    match receive(&mut buf, 13) {
        LineEvent::Reply(r) => assert_eq!(r.as_slice(), &[13, b'c', b'b', b'a', 10, 13]),
        other => panic!("{:?}", other),
    }
    assert_eq!(buf.as_slice(), b"abc\r");
}

#[test]
fn echo_full_buffer_drops_byte() {
    let mut buf = line_of(&[b'x'; 32]);
    assert!(matches!(receive(&mut buf, b'y'), LineEvent::Full));
    assert!(matches!(receive(&mut buf, 13), LineEvent::Full));
    assert_eq!(line_len(&buf), 32);
}

#[test]
fn echo_longest_line_that_fits() {
    let mut buf = line_of(&[b'z'; 29]);
    match receive(&mut buf, 13) {
        LineEvent::Reply(r) => {
            assert_eq!(r.len(), 32);
            assert_eq!(r[0], 13);
            assert_eq!(&r[30..], &[10, 13]);
        }
        other => panic!("{:?}", other),
    }
}

#[test]
fn echo_reply_too_long_is_refused() {
    let mut buf = line_of(&[b'z'; 30]);
    assert!(try_receive(&mut buf, 13).is_none());
    assert_eq!(line_len(&buf), 30);
    assert!(matches!(try_receive(&mut buf, b'q'), Some(LineEvent::Pending)));
    assert!(matches!(try_receive(&mut buf, b'q'), Some(LineEvent::Pending)));
    assert!(matches!(try_receive(&mut buf, 13), Some(LineEvent::Full)));
}

#[test]
fn reversed_reply_of_empty_line() {
    let r = reversed_reply(&new_line());
    assert_eq!(r.as_slice(), &[10, 13]);
    let r = reversed_reply(&line_of(b"12"));
    assert_eq!(r.as_slice(), b"21\n\r");
}

#[test]
fn start_line_empties() {
    let mut buf = line_of(b"hello");
    start_line(&mut buf);
    assert_eq!(line_len(&buf), 0);
}

#[test]
fn collect_command_line() {
    let mut buf = new_line();
    assert_eq!(collect(&mut buf, b'a'), CollectEvent::Pending);
    assert_eq!(collect(&mut buf, 13), CollectEvent::Complete);
    assert_eq!(buf.as_slice(), b"a");
    let mut full = line_of(&[b' '; 32]);
    assert_eq!(collect(&mut full, b'a'), CollectEvent::Full);
    assert_eq!(line_len(&full), 32);
}

#[test]
fn commands_are_recognised() {
    assert_eq!(command_of(&line_of(b"acc")), SensorCommand::Acceleration);
    assert_eq!(command_of(&line_of(b"  mag\t")), SensorCommand::Magnetometer);
    assert_eq!(command_of(&line_of(b"\xc2\xa0acc")), SensorCommand::Acceleration);
    assert_eq!(command_of(&line_of(b"ac c")), SensorCommand::Unknown);
    assert_eq!(command_of(&line_of(b"ACC")), SensorCommand::Unknown);
    assert_eq!(command_of(&line_of(b"")), SensorCommand::Unknown);
    assert_eq!(try_command(&line_of(b"mag")), Some(SensorCommand::Magnetometer));
    assert_eq!(try_command(&line_of(&[0xff, b'a'])), None);
}

#[test]
fn roulette_round() {
    let expected = [
        (0, true), (7, false), (1, true), (0, false), (2, true), (1, false), (3, true), (2, false),
        (4, true), (3, false), (5, true), (4, false), (6, true), (5, false), (7, true), (6, false),
    ];
    let mut i = 0u8;
    for e in expected {
        assert_eq!(roulette_step(i), Some(e));
        i = roulette_next(i);
    }
    assert_eq!(i, 0);
    assert_eq!(roulette_step(16), None);
    assert_eq!(roulette_next(254), 255);
}

#[test]
fn roulette_led_off_three_steps_after_on() {
    for k in 0..8usize {
        assert_eq!(roulette_step(2 * k as u8), Some((k, true)));
        assert_eq!(roulette_step(((2 * k + 3) % 16) as u8), Some((k, false)));
    }
}

#[test]
fn chase_wraps() {
    assert_eq!(chase_next(0), 1);
    assert_eq!(chase_next(7), 0);
}

#[test]
fn compass_quadrants() {
    assert_eq!(direction_of(5, 5), Direction::East);
    assert_eq!(direction_of(-5, 5), Direction::North);
    assert_eq!(direction_of(0, 0), Direction::West);
    assert_eq!(direction_of(1, -1), Direction::South);
    assert_eq!(direction_of(0, 1), Direction::North);
}

#[test]
fn command_words() {
    assert_eq!(command_of_word(b"acc"), SensorCommand::Acceleration);
    assert_eq!(command_of_word(b"mag"), SensorCommand::Magnetometer);
    assert_eq!(command_of_word(b" acc"), SensorCommand::Unknown);
    assert_eq!(command_of_word(b"ac"), SensorCommand::Unknown);
    assert_eq!(command_of_word(b""), SensorCommand::Unknown);
}

#[test]
fn commands_ignore_unicode_white_space() {
    // U+3000 ideographic space, U+2028 line separator, U+0085 next line
    assert_eq!(command_of(&line_of("\u{3000}acc\u{2028}".as_bytes())), SensorCommand::Acceleration);
    assert_eq!(command_of(&line_of("\u{85}mag\u{85}".as_bytes())), SensorCommand::Magnetometer);
    // U+200B zero width space is not white space
    assert_eq!(command_of(&line_of("\u{200B}acc".as_bytes())), SensorCommand::Unknown);
}
