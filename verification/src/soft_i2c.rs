//! An I2C bus master made of two general-purpose pins (bit-banging).
//!
//! The pin levels and waits of each part of a transaction are computed here as
//! a list of [`PinStep`]s; the program that owns the pins carries them out, and
//! hands the levels it sampled back to [`SoftI2C::ack_result`] and
//! [`SoftI2C::byte_from_samples`].
use vstd::prelude::*;
use vstd::arithmetic::power2::{pow2, lemma_pow2_unfold, lemma2_to64};

verus! {

/// One step on the two bus lines.
#[derive(Clone, Copy, Debug, PartialEq, Eq)]
pub enum PinStep {
    /// Release SDA (drive it high).
    SdaHigh,
    /// Pull SDA low.
    SdaLow,
    /// Release SCL (drive it high).
    SclHigh,
    /// Pull SCL low.
    SclLow,
    /// Call the delay function with `n`.
    Delay { n: u32 },
    /// Read the level of SDA (true when high).
    SampleSda,
}

/// A software I2C master on the clock pin `scl` and the data pin `sda`, timed
/// by the function `delay`.
pub struct SoftI2C<SCL, SDA, DELAY> {
    scl: SCL,
    sda: SDA,
    delay: DELAY,
}

/// Where a bus transaction stands.
#[derive(Clone, Copy, Debug, PartialEq, Eq)]
pub enum TransactionStep {
    /// Send the start condition.
    Start,
    /// Send byte `i` of the frame and check its acknowledgement.
    SendByte(usize),
    /// Receive byte `i`.
    ReadByte(usize),
    /// Send the stop condition.
    Stop,
    /// The transaction completed.
    Finished,
    /// A step failed (a pin error or a missing acknowledgement); the
    /// transaction ends there, without a stop condition.
    Failed,
}

/// The step after `step` of a transaction that sends `sends` bytes and then
/// receives `reads` bytes, when `step` succeeded (`ok`) or failed.
pub open spec fn transaction_next_value(
    step: TransactionStep,
    sends: nat,
    reads: nat,
    ok: bool,
) -> TransactionStep {
    match step {
        TransactionStep::Finished => TransactionStep::Finished,
        TransactionStep::Failed => TransactionStep::Failed,
        _ => if !ok {
            TransactionStep::Failed
        } else {
            match step {
                TransactionStep::Start => if sends > 0 {
                    TransactionStep::SendByte(0)
                } else if reads > 0 {
                    TransactionStep::ReadByte(0)
                } else {
                    TransactionStep::Stop
                },
                TransactionStep::SendByte(i) => if i + 1 < sends {
                    TransactionStep::SendByte((i + 1) as usize)
                } else if reads > 0 {
                    TransactionStep::ReadByte(0)
                } else {
                    TransactionStep::Stop
                },
                TransactionStep::ReadByte(i) => if i + 1 < reads {
                    TransactionStep::ReadByte((i + 1) as usize)
                } else {
                    TransactionStep::Stop
                },
                _ => TransactionStep::Finished,
            }
        },
    }
}

/// The step reached after `k` steps of a transaction from its start, when
/// every step succeeds.
pub open spec fn transaction_after(sends: nat, reads: nat, k: nat) -> TransactionStep
    decreases k,
{
    if k == 0 {
        TransactionStep::Start
    } else {
        transaction_next_value(transaction_after(sends, reads, (k - 1) as nat), sends, reads, true)
    }
}

/// When every step succeeds, a transaction is its start condition, the bytes
/// to send in order, the bytes to receive in order, its stop condition, and
/// then it is finished.
pub proof fn lemma_transaction_in_order(sends: nat, reads: nat, k: nat)
    requires
        sends + reads + 2 < usize::MAX,
    ensures
        k == 0 ==> transaction_after(sends, reads, k) == TransactionStep::Start,
        1 <= k <= sends ==> transaction_after(sends, reads, k) == TransactionStep::SendByte(
            (k - 1) as usize,
        ),
        sends < k <= sends + reads ==> transaction_after(sends, reads, k) == TransactionStep::ReadByte(
            (k - sends - 1) as usize,
        ),
        k == sends + reads + 1 ==> transaction_after(sends, reads, k) == TransactionStep::Stop,
        k > sends + reads + 1 ==> transaction_after(sends, reads, k) == TransactionStep::Finished,
    decreases k,
{
    if k > 0 {
        lemma_transaction_in_order(sends, reads, (k - 1) as nat);
    }
}

/// A step that fails ends the transaction as failed, whatever the step and
/// the transaction's lengths: no further byte is sent or read and no stop
/// condition is sent.  A finished or failed transaction stays as it is, and
/// a transaction finishes only by a stop condition that succeeded.
pub proof fn lemma_failure_ends_transaction(step: TransactionStep, sends: nat, reads: nat, ok: bool)
    ensures
        step != TransactionStep::Finished && step != TransactionStep::Failed
            ==> transaction_next_value(step, sends, reads, false) == TransactionStep::Failed,
        step == TransactionStep::Finished ==> transaction_next_value(step, sends, reads, ok)
            == TransactionStep::Finished,
        step == TransactionStep::Failed ==> transaction_next_value(step, sends, reads, ok)
            == TransactionStep::Failed,
        transaction_next_value(step, sends, reads, ok) == TransactionStep::Finished ==> (step
            == TransactionStep::Finished || (step == TransactionStep::Stop && ok)),
{
}

/// The wait between two edges.
pub open spec fn wait() -> PinStep {
    PinStep::Delay { n: 5 }
}

/// Start condition: SDA falls while SCL is high, then SCL is pulled low.
pub open spec fn start_steps() -> Seq<PinStep> {
    seq![
        PinStep::SdaHigh, wait(), PinStep::SclHigh, wait(),
        PinStep::SdaLow, wait(), PinStep::SclLow, wait(),
    ]
}

/// Stop condition: SDA rises while SCL is high.
pub open spec fn stop_steps() -> Seq<PinStep> {
    seq![PinStep::SdaLow, wait(), PinStep::SclHigh, wait(), PinStep::SdaHigh, wait()]
}

/// Bit `i` of `b`, counted from the most significant bit (bit 0 is the MSB).
pub open spec fn bit_at(b: u8, i: int) -> bool {
    ((b >> ((7 - i) as u8)) & 1u8) == 1u8
}

/// The bits of `b` in the order they go on the wire, most significant first.
pub open spec fn sent_bits(b: u8) -> Seq<bool> {
    Seq::new(8, |i: int| bit_at(b, i))
}

/// Putting one data bit on the bus: set SDA, then pulse SCL.
pub open spec fn send_bit_steps(level: bool) -> Seq<PinStep> {
    seq![
        if level { PinStep::SdaHigh } else { PinStep::SdaLow },
        wait(), PinStep::SclHigh, wait(), PinStep::SclLow, wait(),
    ]
}

/// Putting the first `n` bits of `b` on the bus, most significant first.
pub open spec fn send_bits_steps(b: u8, n: nat) -> Seq<PinStep>
    decreases n,
{
    if n == 0 {
        Seq::empty()
    } else {
        send_bits_steps(b, (n - 1) as nat) + send_bit_steps(bit_at(b, n - 1))
    }
}

/// Reading the receiver's acknowledgement: release SDA, raise SCL, sample
/// SDA, lower SCL.
pub open spec fn ack_check_steps() -> Seq<PinStep> {
    seq![
        PinStep::SdaHigh, wait(), PinStep::SclHigh, wait(), PinStep::SampleSda,
        PinStep::SclLow, wait(),
    ]
}

/// Sending a byte: its eight bits, most significant first, then the
/// acknowledgement check (the one sample of these steps).
pub open spec fn write_byte_steps(b: u8) -> Seq<PinStep> {
    send_bits_steps(b, 8) + ack_check_steps()
}

/// Receiving one bit: raise SCL, sample SDA, lower SCL.
pub open spec fn receive_bit_steps() -> Seq<PinStep> {
    seq![wait(), PinStep::SclHigh, wait(), PinStep::SampleSda, PinStep::SclLow, wait()]
}

/// Receiving `n` bits.
pub open spec fn receive_bits_steps(n: nat) -> Seq<PinStep>
    decreases n,
{
    if n == 0 {
        Seq::empty()
    } else {
        receive_bits_steps((n - 1) as nat) + receive_bit_steps()
    }
}

/// Answering a received byte: SDA low to acknowledge (`ack`), high not to,
/// one SCL pulse, then SDA released.
pub open spec fn answer_steps(ack: bool) -> Seq<PinStep> {
    seq![
        if ack { PinStep::SdaLow } else { PinStep::SdaHigh },
        wait(), PinStep::SclHigh, wait(), PinStep::SclLow, wait(), PinStep::SdaHigh,
    ]
}

/// Receiving a byte: release SDA, receive eight bits (the eight samples of
/// these steps, most significant first), then answer with `ack`.
pub open spec fn read_byte_steps(ack: bool) -> Seq<PinStep> {
    seq![PinStep::SdaHigh] + receive_bits_steps(8) + answer_steps(ack)
}

/// The number whose binary digits, most significant first, are the first `n`
/// levels of `s` (high is 1).
pub open spec fn bits_value(s: Seq<bool>, n: nat) -> nat
    decreases n,
{
    if n == 0 {
        0
    } else {
        2 * bits_value(s, (n - 1) as nat) + if s[n - 1] { 1nat } else { 0nat }
    }
}

/// The byte on the bus after address `address`: the address shifted left by
/// one, with the read/write bit (1 for a read) as its least significant bit.
pub open spec fn address_byte_value(address: u8, read: bool) -> u8 {
    ((address as int * 2) % 256 + if read { 1int } else { 0int }) as u8
}

proof fn lemma_bits_value_bound(s: Seq<bool>, n: nat)
    ensures
        bits_value(s, n) < pow2(n),
    decreases n,
{
    if n > 0 {
        lemma_bits_value_bound(s, (n - 1) as nat);
        lemma_pow2_unfold(n);
    } else {
        lemma2_to64();
    }
}

proof fn lemma_shift_test(b: u8, i: u8)
    requires
        i < 8,
    ensures
        (((b << i) & 0x80u8) != 0u8) == (((b >> ((7 - i) as u8)) & 1u8) == 1u8),
{
    assert((((b << i) & 0x80u8) != 0u8) == (((b >> ((7 - i) as u8)) & 1u8) == 1u8)) by (bit_vector)
        requires
            i < 8,
    ;
}

/// Law: a byte put on the bus bit by bit is the byte that a receiver builds
/// from the levels it samples, most significant first.
pub proof fn lemma_byte_round_trip(b: u8)
    ensures
        bits_value(sent_bits(b), 8) == b,
{
    let s = sent_bits(b);
    reveal_with_fuel(bits_value, 9);
    let c0: u8 = (b >> 7u8) & 1u8;
    let c1: u8 = (b >> 6u8) & 1u8;
    let c2: u8 = (b >> 5u8) & 1u8;
    let c3: u8 = (b >> 4u8) & 1u8;
    let c4: u8 = (b >> 3u8) & 1u8;
    let c5: u8 = (b >> 2u8) & 1u8;
    let c6: u8 = (b >> 1u8) & 1u8;
    let c7: u8 = (b >> 0u8) & 1u8;
    assert(c0 <= 1 && c1 <= 1 && c2 <= 1 && c3 <= 1 && c4 <= 1 && c5 <= 1 && c6 <= 1 && c7 <= 1)
        by (bit_vector)
        requires
            c0 == (b >> 7u8) & 1u8, c1 == (b >> 6u8) & 1u8, c2 == (b >> 5u8) & 1u8,
            c3 == (b >> 4u8) & 1u8, c4 == (b >> 3u8) & 1u8, c5 == (b >> 2u8) & 1u8,
            c6 == (b >> 1u8) & 1u8, c7 == (b >> 0u8) & 1u8,
    ;
    assert(b == c0 * 128 + c1 * 64 + c2 * 32 + c3 * 16 + c4 * 8 + c5 * 4 + c6 * 2 + c7)
        by (bit_vector)
        requires
            c0 == (b >> 7u8) & 1u8, c1 == (b >> 6u8) & 1u8, c2 == (b >> 5u8) & 1u8,
            c3 == (b >> 4u8) & 1u8, c4 == (b >> 3u8) & 1u8, c5 == (b >> 2u8) & 1u8,
            c6 == (b >> 1u8) & 1u8, c7 == (b >> 0u8) & 1u8,
    ;
    assert(s[0] == (c0 == 1));
    assert(s[1] == (c1 == 1));
    assert(s[2] == (c2 == 1));
    assert(s[3] == (c3 == 1));
    assert(s[4] == (c4 == 1));
    assert(s[5] == (c5 == 1));
    assert(s[6] == (c6 == 1));
    assert(s[7] == (c7 == 1));
}

proof fn lemma_send_bits_layout(b: u8, n: nat, i: int)
    requires
        0 <= i < n,
    ensures
        send_bits_steps(b, n).len() == 6 * n,
        send_bits_steps(b, n)[6 * i] == (if bit_at(b, i) { PinStep::SdaHigh } else { PinStep::SdaLow }),
        send_bits_steps(b, n)[6 * i + 1] == wait(),
        send_bits_steps(b, n)[6 * i + 2] == PinStep::SclHigh,
        send_bits_steps(b, n)[6 * i + 4] == PinStep::SclLow,
    decreases n,
{
    let prev = send_bits_steps(b, (n - 1) as nat);
    let last = send_bit_steps(bit_at(b, n - 1));
    assert(send_bits_steps(b, n) == prev + last);
    if n > 1 {
        lemma_send_bits_layout(b, (n - 1) as nat, 0);
    } else {
        assert(prev.len() == 0);
    }
    assert(prev.len() == 6 * (n - 1));
    if i < n - 1 {
        lemma_send_bits_layout(b, (n - 1) as nat, i);
        assert(send_bits_steps(b, n)[6 * i] == prev[6 * i]);
        assert(send_bits_steps(b, n)[6 * i + 1] == prev[6 * i + 1]);
        assert(send_bits_steps(b, n)[6 * i + 2] == prev[6 * i + 2]);
        assert(send_bits_steps(b, n)[6 * i + 4] == prev[6 * i + 4]);
    } else {
        assert(send_bits_steps(b, n)[6 * i] == last[0]);
        assert(send_bits_steps(b, n)[6 * i + 1] == last[1]);
        assert(send_bits_steps(b, n)[6 * i + 2] == last[2]);
        assert(send_bits_steps(b, n)[6 * i + 4] == last[4]);
    }
}

/// When a byte is sent, SDA holds bit `i` of it (most significant first)
/// while SCL rises for the `i`-th time and until it falls again; the single
/// sample comes after the eight bits.
pub proof fn lemma_write_byte_bit_positions(b: u8, i: int)
    requires
        0 <= i < 8,
    ensures
        write_byte_steps(b).len() == 55,
        write_byte_steps(b)[6 * i] == (if bit_at(b, i) { PinStep::SdaHigh } else { PinStep::SdaLow }),
        write_byte_steps(b)[6 * i + 1] == wait(),
        write_byte_steps(b)[6 * i + 2] == PinStep::SclHigh,
        write_byte_steps(b)[6 * i + 4] == PinStep::SclLow,
        write_byte_steps(b)[52] == PinStep::SampleSda,
{
    lemma_send_bits_layout(b, 8, i);
}

proof fn lemma_bit_at_is_binary_digit(b: u8, i: int)
    requires
        0 <= i < 8,
    ensures
        bit_at(b, i) == ((b as int / pow2((7 - i) as nat) as int) % 2 == 1),
{
    lemma2_to64();
    if i == 0 {
        assert((7 - i) as u8 == 7u8 && pow2((7 - i) as nat) == 128);
        assert((((b >> 7u8) & 1u8) == 1u8) == ((b / 128) % 2 == 1)) by (bit_vector);
        assert(bit_at(b, i) == ((((b >> 7u8) & 1u8) == 1u8)));
        assert(bit_at(b, i) == ((b as int / pow2((7 - i) as nat) as int) % 2 == 1));
    } else if i == 1 {
        assert((7 - i) as u8 == 6u8 && pow2((7 - i) as nat) == 64);
        assert((((b >> 6u8) & 1u8) == 1u8) == ((b / 64) % 2 == 1)) by (bit_vector);
        assert(bit_at(b, i) == ((((b >> 6u8) & 1u8) == 1u8)));
        assert(bit_at(b, i) == ((b as int / pow2((7 - i) as nat) as int) % 2 == 1));
    } else if i == 2 {
        assert((7 - i) as u8 == 5u8 && pow2((7 - i) as nat) == 32);
        assert((((b >> 5u8) & 1u8) == 1u8) == ((b / 32) % 2 == 1)) by (bit_vector);
        assert(bit_at(b, i) == ((((b >> 5u8) & 1u8) == 1u8)));
        assert(bit_at(b, i) == ((b as int / pow2((7 - i) as nat) as int) % 2 == 1));
    } else if i == 3 {
        assert((7 - i) as u8 == 4u8 && pow2((7 - i) as nat) == 16);
        assert((((b >> 4u8) & 1u8) == 1u8) == ((b / 16) % 2 == 1)) by (bit_vector);
        assert(bit_at(b, i) == ((((b >> 4u8) & 1u8) == 1u8)));
        assert(bit_at(b, i) == ((b as int / pow2((7 - i) as nat) as int) % 2 == 1));
    } else if i == 4 {
        assert((7 - i) as u8 == 3u8 && pow2((7 - i) as nat) == 8);
        assert((((b >> 3u8) & 1u8) == 1u8) == ((b / 8) % 2 == 1)) by (bit_vector);
        assert(bit_at(b, i) == ((((b >> 3u8) & 1u8) == 1u8)));
        assert(bit_at(b, i) == ((b as int / pow2((7 - i) as nat) as int) % 2 == 1));
    } else if i == 5 {
        assert((7 - i) as u8 == 2u8 && pow2((7 - i) as nat) == 4);
        assert((((b >> 2u8) & 1u8) == 1u8) == ((b / 4) % 2 == 1)) by (bit_vector);
        assert(bit_at(b, i) == ((((b >> 2u8) & 1u8) == 1u8)));
        assert(bit_at(b, i) == ((b as int / pow2((7 - i) as nat) as int) % 2 == 1));
    } else if i == 6 {
        assert((7 - i) as u8 == 1u8 && pow2((7 - i) as nat) == 2);
        assert((((b >> 1u8) & 1u8) == 1u8) == ((b / 2) % 2 == 1)) by (bit_vector);
        assert(bit_at(b, i) == ((((b >> 1u8) & 1u8) == 1u8)));
        assert(bit_at(b, i) == ((b as int / pow2((7 - i) as nat) as int) % 2 == 1));
    } else {
        assert((7 - i) as u8 == 0u8 && pow2((7 - i) as nat) == 1);
        assert((((b >> 0u8) & 1u8) == 1u8) == (b % 2 == 1)) by (bit_vector);
        assert(bit_at(b, i) == ((((b >> 0u8) & 1u8) == 1u8)));
        assert(bit_at(b, i) == ((b as int / pow2((7 - i) as nat) as int) % 2 == 1));
    }
}

/// Sending byte `b` puts its binary digits on SDA most significant first:
/// before the `i`-th rise of SCL (counting from 0), SDA is set to the digit
/// of weight 2^(7 - i), and it stays so until SCL falls.  After the eight
/// bits SDA is released, SCL rises, SDA is sampled for the acknowledgement
/// while SCL is high, and SCL falls.
pub proof fn lemma_write_byte_msb_first(b: u8, i: int)
    requires
        0 <= i < 8,
    ensures
        write_byte_steps(b).len() == 55,
        write_byte_steps(b)[6 * i] == (if (b as int / pow2((7 - i) as nat) as int) % 2 == 1 {
            PinStep::SdaHigh
        } else {
            PinStep::SdaLow
        }),
        write_byte_steps(b)[6 * i + 1] == (PinStep::Delay { n: 5 }),
        write_byte_steps(b)[6 * i + 2] == PinStep::SclHigh,
        write_byte_steps(b)[6 * i + 3] == (PinStep::Delay { n: 5 }),
        write_byte_steps(b)[6 * i + 4] == PinStep::SclLow,
        write_byte_steps(b)[48] == PinStep::SdaHigh,
        write_byte_steps(b)[50] == PinStep::SclHigh,
        write_byte_steps(b)[52] == PinStep::SampleSda,
        write_byte_steps(b)[53] == PinStep::SclLow,
{
    lemma_send_bits_layout(b, 8, i);
    lemma_send_bits_layout(b, 8, 7);
    lemma_bit_at_is_binary_digit(b, i);
    let w = write_byte_steps(b);
    assert(w[6 * i + 3] == send_bits_steps(b, 8)[6 * i + 3]);
    lemma_send_bit_gap(b, 8, i);
}

proof fn lemma_send_bit_gap(b: u8, n: nat, i: int)
    requires
        0 <= i < n,
    ensures
        send_bits_steps(b, n).len() == 6 * n,
        send_bits_steps(b, n)[6 * i + 3] == wait(),
    decreases n,
{
    lemma_send_bits_layout(b, n, i);
    let prev = send_bits_steps(b, (n - 1) as nat);
    let last = send_bit_steps(bit_at(b, n - 1));
    assert(send_bits_steps(b, n) == prev + last);
    if n > 1 {
        lemma_send_bits_layout(b, (n - 1) as nat, 0);
    }
    if i < n - 1 {
        lemma_send_bit_gap(b, (n - 1) as nat, i);
        assert(send_bits_steps(b, n)[6 * i + 3] == prev[6 * i + 3]);
    } else {
        assert(send_bits_steps(b, n)[6 * i + 3] == last[3]);
    }
}

/// The byte built from eight levels sampled most significant first is the
/// sum of the levels weighted 128, 64, 32, 16, 8, 4, 2, 1 in that order.
pub proof fn lemma_samples_msb_first(s: Seq<bool>)
    requires
        s.len() == 8,
    ensures
        bits_value(s, 8) == (if s[0] { 128int } else { 0int }) + (if s[1] { 64int } else { 0int })
            + (if s[2] { 32int } else { 0int }) + (if s[3] { 16int } else { 0int }) + (if s[4] {
            8int
        } else {
            0int
        }) + (if s[5] { 4int } else { 0int }) + (if s[6] { 2int } else { 0int }) + (if s[7] {
            1int
        } else {
            0int
        }),
{
    reveal_with_fuel(bits_value, 9);
}

proof fn lemma_receive_layout(n: nat, k: int)
    requires
        0 <= k < 6 * n,
    ensures
        receive_bits_steps(n).len() == 6 * n,
        receive_bits_steps(n)[k] == receive_bit_steps()[k % 6],
    decreases n,
{
    let prev = receive_bits_steps((n - 1) as nat);
    assert(receive_bits_steps(n) == prev + receive_bit_steps());
    if n > 1 {
        lemma_receive_layout((n - 1) as nat, 0);
    }
    assert(prev.len() == 6 * (n - 1));
    if k < 6 * (n - 1) {
        lemma_receive_layout((n - 1) as nat, k);
    } else {
        assert(k % 6 == k - 6 * (n - 1));
    }
}

/// Receiving a byte first releases SDA, then samples SDA eight times, each
/// time while SCL is high: every sample comes after a rise of SCL and a wait,
/// and is followed by the fall of SCL.  The `i`-th sample (counting from 0)
/// is at step 6 i + 4.  Then SDA is driven low to acknowledge (`ack`) or left
/// high, for one more SCL pulse, and released.
pub proof fn lemma_read_byte_samples_while_clock_high(ack: bool)
    ensures
        read_byte_steps(ack).len() == 56,
        read_byte_steps(ack)[0] == PinStep::SdaHigh,
        forall|i: int| 0 <= i < 8 ==> #[trigger] read_byte_steps(ack)[6 * i + 4] == PinStep::SampleSda,
        forall|k: int|
            0 <= k < 56 && #[trigger] read_byte_steps(ack)[k] == PinStep::SampleSda ==> {
                &&& 4 <= k <= 46
                &&& read_byte_steps(ack)[k - 2] == PinStep::SclHigh
                &&& read_byte_steps(ack)[k - 1] == (PinStep::Delay { n: 5 })
                &&& read_byte_steps(ack)[k + 1] == PinStep::SclLow
            },
        read_byte_steps(ack)[49] == (if ack { PinStep::SdaLow } else { PinStep::SdaHigh }),
        read_byte_steps(ack)[51] == PinStep::SclHigh,
        read_byte_steps(ack)[53] == PinStep::SclLow,
        read_byte_steps(ack)[55] == PinStep::SdaHigh,
{
    let steps = read_byte_steps(ack);
    let bits = receive_bits_steps(8);
    lemma_receive_layout(8, 0);
    assert(steps == seq![PinStep::SdaHigh] + bits + answer_steps(ack));
    assert(steps.len() == 56);
    assert forall|i: int| 0 <= i < 8 implies #[trigger] steps[6 * i + 4] == PinStep::SampleSda by {
        lemma_receive_layout(8, 6 * i + 3);
        assert(steps[6 * i + 4] == bits[6 * i + 3]);
    }
    assert forall|k: int| 0 <= k < 56 && #[trigger] steps[k] == PinStep::SampleSda implies {
        &&& 4 <= k <= 46
        &&& steps[k - 2] == PinStep::SclHigh
        &&& steps[k - 1] == (PinStep::Delay { n: 5 })
        &&& steps[k + 1] == PinStep::SclLow
    } by {
        if k == 0 {
        } else if k >= 49 {
            assert(steps[k] == answer_steps(ack)[k - 49]);
        } else {
            lemma_receive_layout(8, k - 1);
            assert(steps[k] == bits[k - 1]);
            assert((k - 1) % 6 == 3);
            lemma_receive_layout(8, k - 3);
            lemma_receive_layout(8, k - 2);
            lemma_receive_layout(8, k);
            assert(steps[k - 2] == bits[k - 3]);
            assert(steps[k - 1] == bits[k - 2]);
            assert(steps[k + 1] == bits[k]);
        }
    }
}

impl<SCL, SDA, DELAY> SoftI2C<SCL, SDA, DELAY> {
    /// The clock pin.
    pub closed spec fn scl_pin(&self) -> SCL {
        self.scl
    }

    /// The data pin.
    pub closed spec fn sda_pin(&self) -> SDA {
        self.sda
    }

    /// The delay function.
    pub closed spec fn delay_fn(&self) -> DELAY {
        self.delay
    }

    /// A master on the pins `scl` and `sda`, timed by `delay`.
    pub fn new(scl: SCL, sda: SDA, delay: DELAY) -> (r: Self)
        ensures
            r.scl_pin() == scl,
            r.sda_pin() == sda,
            r.delay_fn() == delay,
    {
        SoftI2C { scl, sda, delay }
    }

    /// Gives the pins and the delay function back.
    pub fn into_parts(self) -> (r: (SCL, SDA, DELAY))
        ensures
            r.0 == self.scl_pin(),
            r.1 == self.sda_pin(),
            r.2 == self.delay_fn(),
    {
        (self.scl, self.sda, self.delay)
    }

    /// Lends out the pins and the delay function, to carry out steps.
    pub fn parts_mut(&mut self) -> (r: (&mut SCL, &mut SDA, &mut DELAY))
        ensures
            *r.0 == old(self).scl_pin(),
            *r.1 == old(self).sda_pin(),
            *r.2 == old(self).delay_fn(),
            final(self).scl_pin() == *final(r.0),
            final(self).sda_pin() == *final(r.1),
            final(self).delay_fn() == *final(r.2),
    {
        (&mut self.scl, &mut self.sda, &mut self.delay)
    }

    /// The steps of a start condition.
    pub fn start(&self) -> (r: Vec<PinStep>)
        ensures
            r@ == start_steps(),
    {
        let r = vec![
            PinStep::SdaHigh, PinStep::Delay { n: 5 }, PinStep::SclHigh, PinStep::Delay { n: 5 },
            PinStep::SdaLow, PinStep::Delay { n: 5 }, PinStep::SclLow, PinStep::Delay { n: 5 },
        ];
        assert(r@ =~= start_steps());
        r
    }

    /// The steps of a stop condition.
    pub fn stop(&self) -> (r: Vec<PinStep>)
        ensures
            r@ == stop_steps(),
    {
        let r = vec![
            PinStep::SdaLow, PinStep::Delay { n: 5 }, PinStep::SclHigh, PinStep::Delay { n: 5 },
            PinStep::SdaHigh, PinStep::Delay { n: 5 },
        ];
        assert(r@ =~= stop_steps());
        r
    }

    /// The steps that send `byte` and sample the receiver's acknowledgement.
    pub fn write_byte(&self, byte: u8) -> (r: Vec<PinStep>)
        ensures
            r@ == write_byte_steps(byte),
    {
        let mut r: Vec<PinStep> = Vec::new();
        let mut i: u8 = 0;
        while i < 8
            invariant
                i <= 8,
                r@ == send_bits_steps(byte, i as nat),
            decreases 8 - i,
        {
            proof {
                lemma_shift_test(byte, i);
            }
            if (byte << i) & 0x80 != 0 {
                r.push(PinStep::SdaHigh);
            } else {
                r.push(PinStep::SdaLow);
            }
            r.push(PinStep::Delay { n: 5 });
            r.push(PinStep::SclHigh);
            r.push(PinStep::Delay { n: 5 });
            r.push(PinStep::SclLow);
            r.push(PinStep::Delay { n: 5 });
            assert(r@ =~= send_bits_steps(byte, (i + 1) as nat));
            i = i + 1;
        }
        r.push(PinStep::SdaHigh);
        r.push(PinStep::Delay { n: 5 });
        r.push(PinStep::SclHigh);
        r.push(PinStep::Delay { n: 5 });
        r.push(PinStep::SampleSda);
        r.push(PinStep::SclLow);
        r.push(PinStep::Delay { n: 5 });
        assert(r@ =~= write_byte_steps(byte));
        r
    }

    /// The outcome of sending a byte, from the level of SDA sampled during the
    /// acknowledgement check: the receiver acknowledges by holding SDA low.
    pub fn ack_result(&self, sda_high: bool) -> (r: Result<(), ()>)
        ensures
            r is Ok <==> !sda_high,
    {
        if !sda_high {
            Ok(())
        } else {
            Err(())
        }
    }

    /// The steps that receive a byte and answer it with `ack`.
    pub fn read_byte(&self, ack: bool) -> (r: Vec<PinStep>)
        ensures
            r@ == read_byte_steps(ack),
    {
        let mut r: Vec<PinStep> = Vec::new();
        r.push(PinStep::SdaHigh);
        let mut i: u8 = 0;
        while i < 8
            invariant
                i <= 8,
                r@ == seq![PinStep::SdaHigh] + receive_bits_steps(i as nat),
            decreases 8 - i,
        {
            r.push(PinStep::Delay { n: 5 });
            r.push(PinStep::SclHigh);
            r.push(PinStep::Delay { n: 5 });
            r.push(PinStep::SampleSda);
            r.push(PinStep::SclLow);
            r.push(PinStep::Delay { n: 5 });
            assert(r@ =~= seq![PinStep::SdaHigh] + receive_bits_steps((i + 1) as nat));
            i = i + 1;
        }
        if ack {
            r.push(PinStep::SdaLow);
        } else {
            r.push(PinStep::SdaHigh);
        }
        r.push(PinStep::Delay { n: 5 });
        r.push(PinStep::SclHigh);
        r.push(PinStep::Delay { n: 5 });
        r.push(PinStep::SclLow);
        r.push(PinStep::Delay { n: 5 });
        r.push(PinStep::SdaHigh);
        assert(r@ =~= read_byte_steps(ack));
        r
    }

    /// The byte received from the eight levels of SDA sampled while reading
    /// it, most significant bit first.
    pub fn byte_from_samples(&self, samples: &[bool]) -> (b: u8)
        requires
            samples@.len() == 8,
        ensures
            b == bits_value(samples@, 8),
    {
        let mut byte: u8 = 0;
        let mut i: usize = 0;
        while i < 8
            invariant
                i <= 8,
                samples@.len() == 8,
                byte == bits_value(samples@, i as nat),
            decreases 8 - i,
        {
            proof {
                lemma_bits_value_bound(samples@, i as nat);
                lemma2_to64();
                if i < 7 {
                    vstd::arithmetic::power2::lemma_pow2_strictly_increases(i as nat, 7);
                }
            }
            if samples[i] {
                byte = byte * 2 + 1;
            } else {
                byte = byte * 2;
            }
            i = i + 1;
        }
        byte
    }

    /// The byte that follows a start condition: `address` shifted left by
    /// one, with the read/write bit set for a read.
    pub fn address_byte(&self, address: u8, read: bool) -> (b: u8)
        ensures
            b == address_byte_value(address, read),
            address < 128 ==> b / 2 == address,
            (b % 2 == 1) == read,
    {
        let shifted: u8 = address << 1u8;
        assert(shifted == (address * 2) % 256 && (shifted | 1u8) == shifted + 1 && shifted % 2 == 0
            && (address < 128 ==> shifted / 2 == address && (shifted + 1) / 2 == address)) by (bit_vector)
            requires
                shifted == address << 1u8,
        ;
        if read {
            shifted | 1
        } else {
            shifted
        }
    }

    /// The bytes of a write transaction to `address`, in the order they are
    /// sent between the start and stop conditions: the address byte for a
    /// write, then `bytes`.
    pub fn write_frame(&self, address: u8, bytes: &[u8]) -> (r: Vec<u8>)
        ensures
            r@ == seq![address_byte_value(address, false)] + bytes@,
    {
        let mut r: Vec<u8> = Vec::new();
        r.push(self.address_byte(address, false));
        let mut i: usize = 0;
        while i < bytes.len()
            invariant
                i <= bytes@.len(),
                r@ == seq![address_byte_value(address, false)] + bytes@.take(i as int),
            decreases bytes@.len() - i,
        {
            r.push(bytes[i]);
            assert(bytes@.take(i + 1) =~= bytes@.take(i as int).push(bytes@[i as int]));
            i = i + 1;
        }
        assert(bytes@.take(bytes@.len() as int) =~= bytes@);
        r
    }

    /// The answers to the `len` bytes of a read transaction: every byte is
    /// acknowledged but the last, which tells the device to stop sending.
    pub fn read_answers(&self, len: usize) -> (r: Vec<bool>)
        ensures
            r@.len() == len,
            forall|i: int| 0 <= i < len ==> r@[i] == (i + 1 < len),
    {
        let mut r: Vec<bool> = Vec::new();
        let mut i: usize = 0;
        while i < len
            invariant
                i <= len,
                r@.len() == i,
                forall|j: int| 0 <= j < i ==> r@[j] == (j + 1 < len),
            decreases len - i,
        {
            r.push(i < len - 1);
            i = i + 1;
        }
        r
    }
}

/// The step after `step` of a transaction that sends `sends` bytes and then
/// receives `reads` bytes, given whether `step` succeeded.
pub fn transaction_next(step: TransactionStep, sends: usize, reads: usize, ok: bool) -> (next:
    TransactionStep)
    ensures
        next == transaction_next_value(step, sends as nat, reads as nat, ok),
{
    match step {
        TransactionStep::Finished => TransactionStep::Finished,
        TransactionStep::Failed => TransactionStep::Failed,
        _ => if !ok {
            TransactionStep::Failed
        } else {
            match step {
                TransactionStep::Start => if sends > 0 {
                    TransactionStep::SendByte(0)
                } else if reads > 0 {
                    TransactionStep::ReadByte(0)
                } else {
                    TransactionStep::Stop
                },
                TransactionStep::SendByte(i) => if i < sends && i + 1 < sends {
                    TransactionStep::SendByte(i + 1)
                } else if reads > 0 {
                    TransactionStep::ReadByte(0)
                } else {
                    TransactionStep::Stop
                },
                TransactionStep::ReadByte(i) => if i < reads && i + 1 < reads {
                    TransactionStep::ReadByte(i + 1)
                } else {
                    TransactionStep::Stop
                },
                _ => TransactionStep::Finished,
            }
        },
    }
}

} // verus!
