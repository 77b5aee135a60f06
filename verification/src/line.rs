//! A line buffer of 32 bytes, held in a `heapless` vector.
use vstd::prelude::*;

verus! {

/// `heapless`'s fixed-capacity vector.
#[verifier::external_type_specification]
#[verifier::external_body]
#[verifier::reject_recursive_types(T)]
pub struct ExHeaplessVec<T, const N: usize>(heapless::Vec<T, N>);

/// A line buffer of 32 bytes.
pub type LineBuffer = heapless::Vec<u8, 32>;

/// The bytes held by a 32-byte line buffer, in order.
pub uninterp spec fn line_contents(v: LineBuffer) -> Seq<u8>;

/// An empty buffer (`heapless::Vec::new`).
#[verifier::external_body]
pub(crate) fn line_new() -> (v: LineBuffer)
    ensures
        line_contents(v) == Seq::<u8>::empty(),
{
    heapless::Vec::new()
}

/// `heapless::Vec::push`: appends `b` when fewer than 32 bytes are held and
/// returns `Ok`; otherwise leaves the buffer as it was and hands `b` back.
#[verifier::external_body]
pub(crate) fn line_push(v: &mut LineBuffer, b: u8) -> (r: Result<(), u8>)
    ensures
        r is Ok <==> line_contents(*old(v)).len() < 32,
        r is Ok ==> line_contents(*final(v)) == line_contents(*old(v)).push(b),
        r is Err ==> r->Err_0 == b,
        r is Err ==> line_contents(*final(v)) == line_contents(*old(v)),
{
    v.push(b)
}

/// `heapless::Vec::clear`: empties the buffer.
#[verifier::external_body]
pub(crate) fn line_clear(v: &mut LineBuffer)
    ensures
        line_contents(*final(v)) == Seq::<u8>::empty(),
{
    v.clear()
}

/// `heapless::Vec::as_slice`: the bytes held, in order.
#[verifier::external_body]
pub(crate) fn line_as_slice(v: &LineBuffer) -> (s: &[u8])
    ensures
        s@ == line_contents(*v),
{
    v.as_slice()
}

/// An empty line buffer.
pub fn new_line() -> (v: LineBuffer)
    ensures
        line_contents(v) == Seq::<u8>::empty(),
{
    line_new()
}

/// Empties the line buffer for the next line.
pub fn start_line(buffer: &mut LineBuffer)
    ensures
        line_contents(*final(buffer)) == Seq::<u8>::empty(),
{
    line_clear(buffer)
}

/// The number of bytes in the line buffer.
pub fn line_len(buffer: &LineBuffer) -> (n: usize)
    ensures
        n == line_contents(*buffer).len(),
{
    line_as_slice(buffer).len()
}

} // verus!
