//! The serial line-reversing echo: bytes are collected into a 32-byte line
//! buffer until a carriage return, and the line is answered reversed.
use vstd::prelude::*;
use crate::line::{line_as_slice, line_contents, line_len, line_new, line_push, LineBuffer};

verus! {

/// The carriage return that ends a line.
pub const CR: u8 = 13;

/// The line feed.
pub const LF: u8 = 10;

/// What happens when a byte arrives.
#[derive(Debug)]
pub enum LineEvent {
    /// The byte was stored; the line goes on.
    Pending,
    /// The buffer was full: the byte was dropped and the line is abandoned.
    Full,
    /// The byte ended the line: the reply to send back.
    Reply(LineBuffer),
}

/// The reply to line `line`: its bytes, last first, then a line feed and a
/// carriage return.
pub open spec fn reply_bytes(line: Seq<u8>) -> Seq<u8> {
    line.reverse() + seq![LF, CR]
}

/// A reply is two bytes longer than its line, ends with a line feed and a
/// carriage return, and reading the rest backwards gives the line back.
pub proof fn lemma_reply_restores_line(line: Seq<u8>)
    ensures
        reply_bytes(line).len() == line.len() + 2,
        reply_bytes(line).subrange(line.len() as int, line.len() + 2int) == seq![LF, CR],
        reply_bytes(line).take(line.len() as int).reverse() == line,
{
    assert(reply_bytes(line).take(line.len() as int) =~= line.reverse());
    assert(line.reverse().reverse() =~= line);
    assert(reply_bytes(line).subrange(line.len() as int, line.len() + 2int) =~= seq![LF, CR]);
}

/// Whether storing `byte` in a buffer holding `len` bytes gives a line whose
/// reply does not fit in a 32-byte buffer.
pub open spec fn reply_overflows(len: nat, byte: u8) -> bool {
    byte == CR && 30 <= len < 32
}




/// The reply to the line held in `line`.
pub fn reversed_reply(line: &LineBuffer) -> (r: LineBuffer)
    requires
        line_contents(*line).len() <= 30,
    ensures
        line_contents(r) == reply_bytes(line_contents(*line)),
{
    let bytes = line_as_slice(line);
    let mut r = line_new();
    let mut i: usize = bytes.len();
    while i > 0
        invariant
            i <= bytes@.len() <= 30,
            line_contents(r) == bytes@.subrange(i as int, bytes@.len() as int).reverse(),
        decreases i,
    {
        i = i - 1;
        let pushed = line_push(&mut r, bytes[i]);
        assert(pushed is Ok);
        assert(bytes@.subrange(i as int, bytes@.len() as int).reverse() =~= bytes@.subrange(
            i + 1,
            bytes@.len() as int,
        ).reverse().push(bytes@[i as int]));
    }
    let a = line_push(&mut r, LF);
    let b = line_push(&mut r, CR);
    assert(a is Ok && b is Ok);
    assert(bytes@.subrange(0, bytes@.len() as int) =~= bytes@);
    assert(line_contents(r) =~= reply_bytes(bytes@));
    r
}

/// Takes in `byte`: a full buffer drops it; otherwise it is stored, and a
/// carriage return ends the line with its reply.
pub fn receive(buffer: &mut LineBuffer, byte: u8) -> (e: LineEvent)
    requires
        !reply_overflows(line_contents(*old(buffer)).len(), byte),
    ensures
        line_contents(*old(buffer)).len() >= 32 ==> e is Full && line_contents(*final(buffer))
            == line_contents(*old(buffer)),
        line_contents(*old(buffer)).len() < 32 ==> line_contents(*final(buffer)) == line_contents(
            *old(buffer),
        ).push(byte),
        line_contents(*old(buffer)).len() < 32 && byte != CR ==> e is Pending,
        line_contents(*old(buffer)).len() < 32 && byte == CR ==> (e matches LineEvent::Reply(r)
            && line_contents(r) == reply_bytes(line_contents(*old(buffer)).push(byte))),
{
    match line_push(buffer, byte) {
        Err(_) => LineEvent::Full,
        Ok(()) => {
            if byte == CR {
                LineEvent::Reply(reversed_reply(buffer))
            } else {
                LineEvent::Pending
            }
        },
    }
}

/// Takes in `byte` as [`receive`] does, unless the line it would end has a
/// reply too long for a 32-byte buffer: then nothing changes and the result
/// is `None`.
pub fn try_receive(buffer: &mut LineBuffer, byte: u8) -> (e: Option<LineEvent>)
    ensures
        reply_overflows(line_contents(*old(buffer)).len(), byte) ==> e is None && line_contents(
            *final(buffer),
        ) == line_contents(*old(buffer)),
        !reply_overflows(line_contents(*old(buffer)).len(), byte) ==> e is Some,
        line_contents(*old(buffer)).len() >= 32 ==> (e matches Some(LineEvent::Full)
            && line_contents(*final(buffer)) == line_contents(*old(buffer))),
        !reply_overflows(line_contents(*old(buffer)).len(), byte) && line_contents(
            *old(buffer),
        ).len() < 32 ==> line_contents(*final(buffer)) == line_contents(*old(buffer)).push(byte),
        line_contents(*old(buffer)).len() < 32 && byte != CR ==> e matches Some(LineEvent::Pending),
        !reply_overflows(line_contents(*old(buffer)).len(), byte) && line_contents(
            *old(buffer),
        ).len() < 32 && byte == CR ==> (e matches Some(LineEvent::Reply(r)) && line_contents(r)
            == reply_bytes(line_contents(*old(buffer)).push(byte))),
{
    let n = line_len(buffer);
    if byte == CR && 30 <= n && n < 32 {
        None
    } else {
        Some(receive(buffer, byte))
    }
}

} // verus!
