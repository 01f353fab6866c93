//! The byte buffers that carry packets, and what the framing code relies on
//! of them. Nothing in this file is proved: each item states what the buffer
//! library or the byte-order library does.

use byteorder::ByteOrder;
use byteorder::NativeEndian;
use byteorder::NetworkEndian;
use bytes::BufMut;
use bytes::Bytes;
use bytes::BytesMut;
use vstd::prelude::*;

verus! {

/// `bytes::Bytes`, an immutable buffer, taken as it is.
#[verifier::external_type_specification]
#[verifier::external_body]
pub struct ExBytes(Bytes);

/// `bytes::BytesMut`, a buffer that grows, taken as it is.
#[verifier::external_type_specification]
#[verifier::external_body]
pub struct ExBytesMut(BytesMut);

/// The bytes that an immutable buffer holds, first to last.
pub uninterp spec fn frozen_bytes(b: Bytes) -> Seq<u8>;

/// The bytes that a growable buffer holds, first to last.
pub uninterp spec fn buffered_bytes(b: BytesMut) -> Seq<u8>;

/// `AsRef<[u8]>` of `Bytes` lends the bytes that the buffer holds.
#[verifier::external_body]
pub(crate) fn frozen_slice(b: &Bytes) -> (s: &[u8])
    ensures
        s@ == frozen_bytes(*b),
{
    b.as_ref()
}

/// `BytesMut::len` returns the number of bytes that the buffer holds.
pub assume_specification[ BytesMut::len ](buf: &BytesMut) -> (n: usize)
    ensures
        n == buffered_bytes(*buf).len(),
;

/// `BytesMut::is_empty` tells whether the buffer holds no byte.
pub assume_specification[ BytesMut::is_empty ](buf: &BytesMut) -> (b: bool)
    ensures
        b == (buffered_bytes(*buf).len() == 0),
;

/// `BytesMut::split_to` hands out the first `at` bytes and keeps the rest. It
/// panics when `at` exceeds the length, which the precondition rules out.
pub assume_specification[ BytesMut::split_to ](buf: &mut BytesMut, at: usize) -> (head: BytesMut)
    requires
        at <= buffered_bytes(*old(buf)).len(),
    ensures
        buffered_bytes(head) == buffered_bytes(*old(buf)).subrange(0, at as int),
        buffered_bytes(*final(buf)) == buffered_bytes(*old(buf)).subrange(
            at as int,
            buffered_bytes(*old(buf)).len() as int,
        ),
;

/// `BytesMut::freeze` turns the buffer into an immutable one with the same
/// bytes.
pub assume_specification[ BytesMut::freeze ](buf: BytesMut) -> (b: Bytes)
    ensures
        frozen_bytes(b) == buffered_bytes(buf),
;

/// `BytesMut::reserve` makes room and leaves the bytes alone. It panics when
/// the capacity asked for overflows; the buffer counts `isize::MAX` less its
/// length as the room that is left, and the precondition stays within that.
pub assume_specification[ BytesMut::reserve ](buf: &mut BytesMut, additional: usize)
    requires
        buffered_bytes(*old(buf)).len() + additional <= isize::MAX,
    ensures
        buffered_bytes(*final(buf)) == buffered_bytes(*old(buf)),
;

/// `BufMut::put_slice` of `BytesMut` appends the slice. It panics when the
/// slice exceeds the room that is left, `isize::MAX` less the length.
#[verifier::external_body]
pub(crate) fn put_slice(dst: &mut BytesMut, src: &[u8])
    requires
        buffered_bytes(*old(dst)).len() + src@.len() <= isize::MAX,
    ensures
        buffered_bytes(*final(dst)) == buffered_bytes(*old(dst)) + src@,
{
    dst.put_slice(src)
}

/// `BufMut::put` of `BytesMut`, given a `Bytes`, appends all its bytes. It
/// panics as `put_slice` does.
#[verifier::external_body]
pub(crate) fn put_frozen(dst: &mut BytesMut, src: Bytes)
    requires
        buffered_bytes(*old(dst)).len() + frozen_bytes(src).len() <= isize::MAX,
    ensures
        buffered_bytes(*final(dst)) == buffered_bytes(*old(dst)) + frozen_bytes(src),
{
    dst.put(src)
}

/// The two bytes of `n`, most significant first.
pub open spec fn big_endian(n: u16) -> Seq<u8> {
    seq![(n / 256) as u8, (n % 256) as u8]
}

/// The two bytes of `n`, least significant first.
pub open spec fn little_endian(n: u16) -> Seq<u8> {
    seq![(n % 256) as u8, (n / 256) as u8]
}

/// `ByteOrder::write_u16` of `NetworkEndian` stores the number most
/// significant byte first.
#[verifier::external_body]
pub(crate) fn network_order(n: u16) -> (b: [u8; 2])
    ensures
        b@ == big_endian(n),
{
    let mut b = [0u8; 2];
    NetworkEndian::write_u16(&mut b, n);
    b
}

/// `ByteOrder::write_u16` of `NativeEndian` stores the number in the order of
/// the machine, which is one of the two.
#[verifier::external_body]
pub(crate) fn native_order(n: u16) -> (b: [u8; 2])
    ensures
        b@ == big_endian(n) || b@ == little_endian(n),
{
    let mut b = [0u8; 2];
    NativeEndian::write_u16(&mut b, n);
    b
}

} // verus!
