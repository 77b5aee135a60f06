use robot::soft_i2c::{transaction_next, TransactionStep as S};
use robot::soft_i2c::{PinStep, SoftI2C};

type Bus = SoftI2C<(), (), fn(u32)>;

fn noop(_: u32) {}

fn bus() -> Bus {
    SoftI2C::new((), (), noop as fn(u32))
}

const W: PinStep = PinStep::Delay { n: 5 };

#[test]
fn start_and_stop_conditions() {
    let b = bus();
    assert_eq!(
        b.start(),
        vec![PinStep::SdaHigh, W, PinStep::SclHigh, W, PinStep::SdaLow, W, PinStep::SclLow, W]
    );
    assert_eq!(b.stop(), vec![PinStep::SdaLow, W, PinStep::SclHigh, W, PinStep::SdaHigh, W]);
}

/// The SDA levels that the steps set while SCL rises, in order.
fn data_levels(steps: &[PinStep]) -> Vec<bool> {
    let mut level = true;
    let mut out = Vec::new();
    for s in steps {
        match s {
            PinStep::SdaHigh => level = true,
            PinStep::SdaLow => level = false,
            PinStep::SclHigh => out.push(level),
            _ => {}
        }
    }
    out
}

#[test]
fn write_byte_sends_msb_first_then_checks_ack() {
    let b = bus();
    let steps = b.write_byte(0xA5);
    assert_eq!(steps.len(), 8 * 6 + 7);
    let levels = data_levels(&steps);
    assert_eq!(levels[..8], [true, false, true, false, false, true, false, true]);
    assert_eq!(
        steps[48..],
        [PinStep::SdaHigh, W, PinStep::SclHigh, W, PinStep::SampleSda, PinStep::SclLow, W]
    );
    assert_eq!(steps.iter().filter(|s| **s == PinStep::SampleSda).count(), 1);
}

#[test]
fn ack_outcome() {
    let b = bus();
    assert_eq!(b.ack_result(false), Ok(()));
    assert_eq!(b.ack_result(true), Err(()));
}

#[test]
fn read_byte_steps() {
    let b = bus();
    let steps = b.read_byte(true);
    assert_eq!(steps.len(), 1 + 8 * 6 + 7);
    assert_eq!(steps[0], PinStep::SdaHigh);
    assert_eq!(steps.iter().filter(|s| **s == PinStep::SampleSda).count(), 8);
    assert_eq!(steps[49..], [PinStep::SdaLow, W, PinStep::SclHigh, W, PinStep::SclLow, W, PinStep::SdaHigh]);
    let nack = b.read_byte(false);
    assert_eq!(nack[49], PinStep::SdaHigh);
}

#[test]
fn byte_from_samples_msb_first() {
    let b = bus();
    assert_eq!(b.byte_from_samples(&[true, false, false, false, false, false, false, true]), 0x81);
    assert_eq!(b.byte_from_samples(&[false; 8]), 0);
    assert_eq!(b.byte_from_samples(&[true; 8]), 0xFF);
}

#[test]
fn every_byte_survives_the_wire() {
    let b = bus();
    for byte in 0u8..=255 {
        let levels = data_levels(&b.write_byte(byte));
        assert_eq!(b.byte_from_samples(&levels[..8]), byte);
    }
}

#[test]
fn address_bytes() {
    let b = bus();
    assert_eq!(b.address_byte(0x40, false), 0x80);
    assert_eq!(b.address_byte(0x40, true), 0x81);
    assert_eq!(b.address_byte(0xC0, false), 0x80);
    assert_eq!(b.write_frame(0x24, &[49, 2]), vec![0x48, 49, 2]);
    assert_eq!(b.write_frame(0x24, &[]), vec![0x48]);
}

#[test]
fn read_answers_nack_last() {
    let b = bus();
    assert_eq!(b.read_answers(3), vec![true, true, false]);
    assert_eq!(b.read_answers(1), vec![false]);
    assert!(b.read_answers(0).is_empty());
}

#[test]
fn into_parts_gives_pins_back() {
    let b: SoftI2C<u8, u16, fn(u32)> = SoftI2C::new(1, 2, noop as fn(u32));
    let (scl, sda, _) = b.into_parts();
    assert_eq!((scl, sda), (1, 2));
}

#[test]
fn transaction_steps_in_order() {
    // a write of two data bytes: address byte plus two
    let mut step = S::Start;
    let mut seen = vec![step];
    while step != S::Finished {
        step = transaction_next(step, 3, 0, true);
        seen.push(step);
    }
    assert_eq!(seen, vec![S::Start, S::SendByte(0), S::SendByte(1), S::SendByte(2), S::Stop, S::Finished]);
    // a read of two bytes
    let mut step = S::Start;
    let mut seen = vec![step];
    while step != S::Finished {
        step = transaction_next(step, 1, 2, true);
        seen.push(step);
    }
    assert_eq!(seen, vec![S::Start, S::SendByte(0), S::ReadByte(0), S::ReadByte(1), S::Stop, S::Finished]);
}

#[test]
fn transaction_failure_skips_stop() {
    assert_eq!(transaction_next(S::SendByte(0), 3, 0, false), S::Failed);
    assert_eq!(transaction_next(S::Start, 3, 0, false), S::Failed);
    assert_eq!(transaction_next(S::Failed, 3, 0, true), S::Failed);
    assert_eq!(transaction_next(S::Stop, 3, 0, false), S::Failed);
    assert_eq!(transaction_next(S::Start, 0, 0, true), S::Stop);
}
