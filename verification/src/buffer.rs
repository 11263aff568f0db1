//! What this library relies on from the `bytebuffer` crate.
//!
//! Nothing in this file is proved. Every item states what the source of
//! `bytebuffer::ByteBuffer` shows, over four names for the state of a buffer,
//! and the codec is verified against these statements.

use vstd::prelude::*;
use bytebuffer::ByteBuffer;

verus! {

/// `bytebuffer::ByteBuffer`, a growable byte vector with a read cursor and a
/// write cursor. Its fields are private, so a value is opaque here.
#[verifier::external_type_specification]
#[verifier::external_body]
pub struct ExByteBuffer(bytebuffer::ByteBuffer);

/// The bytes that the buffer holds (its `data`).
pub uninterp spec fn buffer_data(b: ByteBuffer) -> Seq<u8>;

/// The index of the read cursor (`rpos`).
pub uninterp spec fn buffer_rpos(b: ByteBuffer) -> nat;

/// The index of the write cursor (`wpos`).
pub uninterp spec fn buffer_wpos(b: ByteBuffer) -> nat;

/// Whether both cursors stand on a byte boundary (`rbit` and `wbit` are
/// zero), as they do unless single bits were read or written.
pub uninterp spec fn buffer_aligned(b: ByteBuffer) -> bool;

/// The two bytes of `v`, most significant first.
pub open spec fn be_bytes(v: u16) -> Seq<u8> {
    seq![(v / 256) as u8, (v % 256) as u8]
}

/// `ByteBuffer::new` returns an empty buffer with both cursors at zero.
pub assume_specification[ ByteBuffer::new ]() -> (b: ByteBuffer)
    ensures
        buffer_data(b) == Seq::<u8>::empty(),
        buffer_rpos(b) == 0,
        buffer_wpos(b) == 0,
        buffer_aligned(b),
;

/// `ByteBuffer::from_bytes` writes `bytes` into a new buffer: the data are
/// `bytes`, the read cursor is at zero and the write cursor at the end.
pub assume_specification[ ByteBuffer::from_bytes ](bytes: &[u8]) -> (b: ByteBuffer)
    ensures
        buffer_data(b) == bytes@,
        buffer_rpos(b) == 0,
        buffer_wpos(b) == bytes@.len(),
        buffer_aligned(b),
;

/// `ByteBuffer::len` is the number of bytes held.
pub assume_specification[ ByteBuffer::len ](b: &ByteBuffer) -> (n: usize)
    ensures
        n == buffer_data(*b).len(),
;

/// `ByteBuffer::write_bytes`, with the write cursor at the end of the data,
/// adds `bytes` there and moves the write cursor behind them; the read cursor
/// stays.
pub assume_specification[ ByteBuffer::write_bytes ](b: &mut ByteBuffer, bytes: &[u8])
    requires
        buffer_aligned(*old(b)),
        buffer_wpos(*old(b)) == buffer_data(*old(b)).len(),
        buffer_data(*old(b)).len() + bytes@.len() <= isize::MAX,
    ensures
        buffer_data(*final(b)) == buffer_data(*old(b)) + bytes@,
        buffer_rpos(*final(b)) == buffer_rpos(*old(b)),
        buffer_wpos(*final(b)) == buffer_data(*final(b)).len(),
        buffer_aligned(*final(b)),
;

/// `ByteBuffer::write_u8` is `write_bytes` of the one byte `val`.
pub assume_specification[ ByteBuffer::write_u8 ](b: &mut ByteBuffer, val: u8)
    requires
        buffer_aligned(*old(b)),
        buffer_wpos(*old(b)) == buffer_data(*old(b)).len(),
        buffer_data(*old(b)).len() + 1 <= isize::MAX,
    ensures
        buffer_data(*final(b)) == buffer_data(*old(b)).push(val),
        buffer_rpos(*final(b)) == buffer_rpos(*old(b)),
        buffer_wpos(*final(b)) == buffer_data(*final(b)).len(),
        buffer_aligned(*final(b)),
;

/// `ByteBuffer::write_u16` is `write_bytes` of the two bytes of `val` in
/// big-endian order.
pub assume_specification[ ByteBuffer::write_u16 ](b: &mut ByteBuffer, val: u16)
    requires
        buffer_aligned(*old(b)),
        buffer_wpos(*old(b)) == buffer_data(*old(b)).len(),
        buffer_data(*old(b)).len() + 2 <= isize::MAX,
    ensures
        buffer_data(*final(b)) == buffer_data(*old(b)) + be_bytes(val),
        buffer_rpos(*final(b)) == buffer_rpos(*old(b)),
        buffer_wpos(*final(b)) == buffer_data(*final(b)).len(),
        buffer_aligned(*final(b)),
;

/// `ByteBuffer::to_bytes` copies the data out.
pub assume_specification[ ByteBuffer::to_bytes ](b: &ByteBuffer) -> (bytes: Vec<u8>)
    ensures
        bytes@ == buffer_data(*b),
;

/// `ByteBuffer::read_u8` returns the byte under the read cursor and moves the
/// cursor one byte on. It panics at the end of the data, which `requires`
/// leaves out.
pub assume_specification[ ByteBuffer::read_u8 ](b: &mut ByteBuffer) -> (val: u8)
    requires
        buffer_aligned(*old(b)),
        buffer_rpos(*old(b)) < buffer_data(*old(b)).len(),
    ensures
        val == buffer_data(*old(b))[buffer_rpos(*old(b)) as int],
        buffer_data(*final(b)) == buffer_data(*old(b)),
        buffer_rpos(*final(b)) == buffer_rpos(*old(b)) + 1,
        buffer_wpos(*final(b)) == buffer_wpos(*old(b)),
        buffer_aligned(*final(b)),
;

/// `ByteBuffer::read_bytes` returns the `size` bytes from the read cursor on
/// and moves the cursor behind them. It panics when fewer are left, which
/// `requires` leaves out.
pub assume_specification[ ByteBuffer::read_bytes ](b: &mut ByteBuffer, size: usize) -> (bytes: Vec<u8>)
    requires
        buffer_aligned(*old(b)),
        buffer_rpos(*old(b)) + size <= buffer_data(*old(b)).len(),
    ensures
        bytes@ == buffer_data(*old(b)).subrange(
            buffer_rpos(*old(b)) as int,
            buffer_rpos(*old(b)) + size,
        ),
        buffer_data(*final(b)) == buffer_data(*old(b)),
        buffer_rpos(*final(b)) == buffer_rpos(*old(b)) + size,
        buffer_wpos(*final(b)) == buffer_wpos(*old(b)),
        buffer_aligned(*final(b)),
;

/// `ByteBuffer::get_rpos` is the index of the read cursor.
pub assume_specification[ ByteBuffer::get_rpos ](b: &ByteBuffer) -> (rpos: usize)
    ensures
        rpos == buffer_rpos(*b),
;

/// `ByteBuffer::set_rpos` moves the read cursor to `rpos`, or to the end of
/// the data where `rpos` lies behind it, and changes nothing else.
pub assume_specification[ ByteBuffer::set_rpos ](b: &mut ByteBuffer, rpos: usize)
    ensures
        buffer_data(*final(b)) == buffer_data(*old(b)),
        buffer_rpos(*final(b)) == if rpos <= buffer_data(*old(b)).len() {
            rpos as nat
        } else {
            buffer_data(*old(b)).len()
        },
        buffer_wpos(*final(b)) == buffer_wpos(*old(b)),
        buffer_aligned(*final(b)) == buffer_aligned(*old(b)),
;

} // verus!
