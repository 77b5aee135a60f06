//! Bus transfers: what the driver asks the I2C bus and the timer to do.
//!
//! The driver logic never touches the hardware itself.  Each operation
//! computes the list of transfers to perform, in order; the program that owns
//! the bus performs them.
use vstd::prelude::*;

verus! {

/// One operation on the I2C bus or the timer.
#[derive(Debug, PartialEq, Eq)]
pub enum Transfer {
    /// Write `bytes` to the device at the seven-bit `address`.
    Write { address: u8, bytes: Vec<u8> },
    /// Write `bytes` to the device at `address`, then read `read_len` bytes back.
    WriteRead { address: u8, bytes: Vec<u8>, read_len: usize },
    /// Wait `ms` milliseconds.
    DelayMs { ms: u32 },
}

/// The mathematical value of a [`Transfer`].
pub ghost enum BusOp {
    Write { address: u8, bytes: Seq<u8> },
    WriteRead { address: u8, bytes: Seq<u8>, read_len: nat },
    DelayMs { ms: u32 },
}

impl View for Transfer {
    type V = BusOp;

    open spec fn view(&self) -> BusOp {
        match self {
            Transfer::Write { address, bytes } => BusOp::Write { address: *address, bytes: bytes@ },
            Transfer::WriteRead { address, bytes, read_len } => BusOp::WriteRead {
                address: *address,
                bytes: bytes@,
                read_len: *read_len as nat,
            },
            Transfer::DelayMs { ms } => BusOp::DelayMs { ms: *ms },
        }
    }
}

/// The operations that a list of transfers performs, in order.
pub open spec fn ops(ts: Seq<Transfer>) -> Seq<BusOp> {
    ts.map_values(|t: Transfer| t@)
}

/// The operations of two lists one after the other are those of each list in turn.
pub proof fn lemma_ops_add(a: Seq<Transfer>, b: Seq<Transfer>)
    ensures
        ops(a + b) == ops(a) + ops(b),
{
    assert(ops(a + b) =~= ops(a) + ops(b));
}

/// Appends `tail` to `head`, keeping track of the operations.
pub fn append_transfers(head: &mut Vec<Transfer>, tail: Vec<Transfer>)
    ensures
        final(head)@ == old(head)@ + tail@,
        ops(final(head)@) == ops(old(head)@) + ops(tail@),
{
    let mut tail = tail;
    proof {
        lemma_ops_add(head@, tail@);
    }
    head.append(&mut tail);
}

/// Where to go after an attempt at transfer `pos` of `count`: the same
/// transfer again when the device refused it, the next one when it was
/// accepted, and `None` once the last one was accepted.
pub fn after_attempt(pos: usize, count: usize, accepted: bool) -> (next: Option<usize>)
    requires
        pos < count,
    ensures
        !accepted ==> next == Some(pos),
        accepted && pos + 1 < count ==> next == Some((pos + 1) as usize),
        accepted && pos + 1 == count ==> next is None,
{
    if !accepted {
        Some(pos)
    } else if pos + 1 < count {
        Some(pos + 1)
    } else {
        None
    }
}

} // verus!
