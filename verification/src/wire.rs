//! The byte buffer that messages are read from, and the reads that the
//! decoders are built of. All integers on the wire are big-endian.

use crate::error::truncated_text;
use crate::error::Error;
use crate::error::Failure;
use bytes::Buf;
use bytes::BytesMut;
use vstd::prelude::*;

verus! {

#[verifier::external_type_specification]
#[verifier::external_body]
pub struct ExBytesMut(BytesMut);

/// The bytes that a buffer holds, the next one to be read first.
pub uninterp spec fn buf_bytes(buf: BytesMut) -> Seq<u8>;

/// The number that a sequence of bytes stands for in big-endian order.
pub open spec fn be_value(bytes: Seq<u8>) -> nat
    decreases bytes.len(),
{
    if bytes.len() == 0 {
        0
    } else {
        be_value(bytes.drop_last()) * 256 + bytes.last() as nat
    }
}

/// The number that four bytes stand for fits in 32 bits.
pub proof fn lemma_four_bytes_fit(bytes: Seq<u8>)
    requires
        bytes.len() == 4,
    ensures
        be_value(bytes) < 0x1_0000_0000,
{
    reveal_with_fuel(be_value, 5);
}

/// `rest` is what is left of `whole` once some of its first bytes are gone.
pub open spec fn is_tail_of(rest: Seq<u8>, whole: Seq<u8>) -> bool {
    exists|k: int| 0 <= k <= whole.len() && rest == #[trigger] whole.skip(k)
}

/// A tail of a tail is a tail.
pub proof fn lemma_tail_of_tail(a: Seq<u8>, b: Seq<u8>, c: Seq<u8>)
    requires
        is_tail_of(a, b),
        is_tail_of(b, c),
    ensures
        is_tail_of(a, c),
{
    let j = choose|k: int| 0 <= k <= b.len() && a == #[trigger] b.skip(k);
    let i = choose|k: int| 0 <= k <= c.len() && b == #[trigger] c.skip(k);
    assert(c.skip(i).skip(j) =~= c.skip(i + j));
}

/// `BytesMut::len`: the number of bytes that the buffer holds.
#[verifier::external_body]
pub(crate) fn buf_len(buf: &BytesMut) -> (n: usize)
    ensures
        n == buf_bytes(*buf).len(),
{
    buf.len()
}

/// `Buf::get_u8`: takes the first byte off the buffer. It panics on an empty
/// buffer.
#[verifier::external_body]
pub(crate) fn buf_get_u8(buf: &mut BytesMut) -> (v: u8)
    requires
        buf_bytes(*old(buf)).len() >= 1,
    ensures
        v == buf_bytes(*old(buf))[0],
        buf_bytes(*final(buf)) == buf_bytes(*old(buf)).skip(1),
{
    buf.get_u8()
}

/// `Buf::get_u16`: takes the first two bytes off the buffer and returns the
/// number they stand for in big-endian order. It panics where fewer remain.
#[verifier::external_body]
pub(crate) fn buf_get_u16(buf: &mut BytesMut) -> (v: u16)
    requires
        buf_bytes(*old(buf)).len() >= 2,
    ensures
        v == be_value(buf_bytes(*old(buf)).take(2)),
        buf_bytes(*final(buf)) == buf_bytes(*old(buf)).skip(2),
{
    buf.get_u16()
}

/// `Buf::get_u32`: as `Buf::get_u16`, with four bytes.
#[verifier::external_body]
pub(crate) fn buf_get_u32(buf: &mut BytesMut) -> (v: u32)
    requires
        buf_bytes(*old(buf)).len() >= 4,
    ensures
        v == be_value(buf_bytes(*old(buf)).take(4)),
        buf_bytes(*final(buf)) == buf_bytes(*old(buf)).skip(4),
{
    buf.get_u32()
}

/// `Buf::get_u128`: as `Buf::get_u16`, with sixteen bytes.
#[verifier::external_body]
pub(crate) fn buf_get_u128(buf: &mut BytesMut) -> (v: u128)
    requires
        buf_bytes(*old(buf)).len() >= 16,
    ensures
        v == be_value(buf_bytes(*old(buf)).take(16)),
        buf_bytes(*final(buf)) == buf_bytes(*old(buf)).skip(16),
{
    buf.get_u128()
}

/// `Buf::advance`: drops the first `cnt` bytes of the buffer. It panics where
/// fewer remain.
#[verifier::external_body]
pub(crate) fn buf_advance(buf: &mut BytesMut, cnt: usize)
    requires
        cnt <= buf_bytes(*old(buf)).len(),
    ensures
        buf_bytes(*final(buf)) == buf_bytes(*old(buf)).skip(cnt as int),
{
    buf.advance(cnt)
}

/// `BytesMut::split_to`: returns the first `at` bytes as a buffer of their own
/// and leaves the rest. It panics where `at` is more than the buffer holds.
#[verifier::external_body]
pub(crate) fn buf_split_to(buf: &mut BytesMut, at: usize) -> (head: BytesMut)
    requires
        at <= buf_bytes(*old(buf)).len(),
    ensures
        buf_bytes(head) == buf_bytes(*old(buf)).take(at as int),
        buf_bytes(*final(buf)) == buf_bytes(*old(buf)).skip(at as int),
{
    buf.split_to(at)
}

/// The slice that a `BytesMut` dereferences to, copied into a vector: the
/// bytes that the buffer holds.
#[verifier::external_body]
pub(crate) fn buf_to_vec(buf: &BytesMut) -> (v: Vec<u8>)
    ensures
        v@ == buf_bytes(*buf),
{
    buf.to_vec()
}

/// Takes one byte.
pub fn take_u8(buf: &mut BytesMut) -> (r: Result<u8, Error>)
    ensures
        match r {
            Ok(v) => buf_bytes(*old(buf)).len() >= 1 && v == buf_bytes(*old(buf))[0]
                && buf_bytes(*final(buf)) == buf_bytes(*old(buf)).skip(1),
            Err(e) => buf_bytes(*old(buf)).len() < 1 && e.failure() == Failure::Decode(
                truncated_text(),
            ) && buf_bytes(*final(buf)) == buf_bytes(*old(buf)),
        },
{
    if buf_len(buf) < 1 {
        return Err(Error::truncated());
    }
    Ok(buf_get_u8(buf))
}

/// Takes a 16-bit integer.
pub fn take_u16(buf: &mut BytesMut) -> (r: Result<u16, Error>)
    ensures
        match r {
            Ok(v) => buf_bytes(*old(buf)).len() >= 2 && v == be_value(buf_bytes(*old(buf)).take(2))
                && buf_bytes(*final(buf)) == buf_bytes(*old(buf)).skip(2),
            Err(e) => buf_bytes(*old(buf)).len() < 2 && e.failure() == Failure::Decode(
                truncated_text(),
            ) && buf_bytes(*final(buf)) == buf_bytes(*old(buf)),
        },
{
    if buf_len(buf) < 2 {
        return Err(Error::truncated());
    }
    Ok(buf_get_u16(buf))
}

/// Takes a 32-bit integer.
pub fn take_u32(buf: &mut BytesMut) -> (r: Result<u32, Error>)
    ensures
        match r {
            Ok(v) => buf_bytes(*old(buf)).len() >= 4 && v == be_value(buf_bytes(*old(buf)).take(4))
                && buf_bytes(*final(buf)) == buf_bytes(*old(buf)).skip(4),
            Err(e) => buf_bytes(*old(buf)).len() < 4 && e.failure() == Failure::Decode(
                truncated_text(),
            ) && buf_bytes(*final(buf)) == buf_bytes(*old(buf)),
        },
{
    if buf_len(buf) < 4 {
        return Err(Error::truncated());
    }
    Ok(buf_get_u32(buf))
}

/// Takes a 128-bit integer.
pub fn take_u128(buf: &mut BytesMut) -> (r: Result<u128, Error>)
    ensures
        match r {
            Ok(v) => buf_bytes(*old(buf)).len() >= 16 && v == be_value(
                buf_bytes(*old(buf)).take(16),
            ) && buf_bytes(*final(buf)) == buf_bytes(*old(buf)).skip(16),
            Err(e) => buf_bytes(*old(buf)).len() < 16 && e.failure() == Failure::Decode(
                truncated_text(),
            ) && buf_bytes(*final(buf)) == buf_bytes(*old(buf)),
        },
{
    if buf_len(buf) < 16 {
        return Err(Error::truncated());
    }
    Ok(buf_get_u128(buf))
}

/// Drops `n` bytes.
pub fn skip_bytes(buf: &mut BytesMut, n: usize) -> (r: Result<(), Error>)
    ensures
        match r {
            Ok(_) => buf_bytes(*old(buf)).len() >= n && buf_bytes(*final(buf)) == buf_bytes(
                *old(buf),
            ).skip(n as int),
            Err(e) => buf_bytes(*old(buf)).len() < n && e.failure() == Failure::Decode(
                truncated_text(),
            ) && buf_bytes(*final(buf)) == buf_bytes(*old(buf)),
        },
{
    if buf_len(buf) < n {
        return Err(Error::truncated());
    }
    buf_advance(buf, n);
    Ok(())
}

/// Takes `n` bytes.
pub fn take_bytes(buf: &mut BytesMut, n: usize) -> (r: Result<Vec<u8>, Error>)
    ensures
        match r {
            Ok(v) => buf_bytes(*old(buf)).len() >= n && v@ == buf_bytes(*old(buf)).take(n as int)
                && buf_bytes(*final(buf)) == buf_bytes(*old(buf)).skip(n as int),
            Err(e) => buf_bytes(*old(buf)).len() < n && e.failure() == Failure::Decode(
                truncated_text(),
            ) && buf_bytes(*final(buf)) == buf_bytes(*old(buf)),
        },
{
    if buf_len(buf) < n {
        return Err(Error::truncated());
    }
    let head = buf_split_to(buf, n);
    Ok(buf_to_vec(&head))
}

} // verus!
