//! Big-endian reads over a shrinking byte buffer.
//!
//! [`FlvReader`] describes a cursor by the bytes it has not handed out yet
//! ([`FlvReader::pending`]). Every read either consumes an exact prefix of
//! them or fails with [`Error::Truncated`] and consumes nothing.

use crate::error::Error;
use bytes::Buf;
use bytes::Bytes;
use bytes::TryGetError;
use core::ops::Range;
use vstd::prelude::*;

verus! {

#[verifier::external_type_specification]
#[verifier::external_body]
pub struct ExBytes(Bytes);

#[verifier::external_type_specification]
#[verifier::external_body]
pub struct ExTryGetError(TryGetError);

/// The bytes that a `Bytes` value holds, first byte first.
pub uninterp spec fn bytes_content(b: Bytes) -> Seq<u8>;

/// The contents of each buffer of a list, in order.
pub open spec fn contents(list: Seq<Bytes>) -> Seq<Seq<u8>> {
    list.map_values(|b: Bytes| bytes_content(b))
}

/// Big-endian value of the first two bytes of `s`.
pub open spec fn be16(s: Seq<u8>) -> int
    recommends
        s.len() >= 2,
{
    s[0] * 0x100 + s[1]
}

/// Big-endian value of the first three bytes of `s`.
pub open spec fn be24(s: Seq<u8>) -> int
    recommends
        s.len() >= 3,
{
    s[0] * 0x1_0000 + s[1] * 0x100 + s[2]
}

/// Big-endian value of the first four bytes of `s`.
pub open spec fn be32(s: Seq<u8>) -> int
    recommends
        s.len() >= 4,
{
    s[0] * 0x100_0000 + s[1] * 0x1_0000 + s[2] * 0x100 + s[3]
}

/// Big-endian value of the first eight bytes of `s`.
pub open spec fn be64(s: Seq<u8>) -> int
    recommends
        s.len() >= 8,
{
    be32(s) * 0x1_0000_0000 + be32(s.skip(4))
}

/// The `width` bytes, 1 to 4 of them, that hold `v` big-endian.
pub open spec fn be_bytes(v: int, width: int) -> Seq<u8> {
    if width == 1 {
        seq![(v % 0x100) as u8]
    } else if width == 2 {
        seq![(v / 0x100 % 0x100) as u8, (v % 0x100) as u8]
    } else if width == 3 {
        seq![(v / 0x1_0000 % 0x100) as u8, (v / 0x100 % 0x100) as u8, (v % 0x100) as u8]
    } else {
        seq![
            (v / 0x100_0000 % 0x100) as u8,
            (v / 0x1_0000 % 0x100) as u8,
            (v / 0x100 % 0x100) as u8,
            (v % 0x100) as u8,
        ]
    }
}

/// The number of values that `width` bytes can hold, for 1 to 4 bytes.
pub open spec fn be_limit(width: int) -> int {
    if width == 1 {
        0x100
    } else if width == 2 {
        0x1_0000
    } else if width == 3 {
        0x100_0000
    } else {
        0x1_0000_0000
    }
}

/// Reading back the bytes that hold a value gives the value, whatever
/// follows them.
pub proof fn lemma_be_bytes_read_back(v: int, width: int, rest: Seq<u8>)
    requires
        1 <= width <= 4,
        0 <= v < be_limit(width),
    ensures
        be_bytes(v, width).len() == width,
        width == 1 ==> (be_bytes(v, width) + rest)[0] == v,
        width == 2 ==> be16(be_bytes(v, width) + rest) == v,
        width == 3 ==> be24(be_bytes(v, width) + rest) == v,
        width == 4 ==> be32(be_bytes(v, width) + rest) == v,
{
}

/// The number that sixteen bits stand for in two's complement, given their
/// unsigned reading `v`.
pub open spec fn signed16(v: int) -> int {
    if v >= 0x8000 {
        v - 0x1_0000
    } else {
        v
    }
}

/// The number that twenty-four bits stand for in two's complement, given
/// their unsigned reading `v`.
pub open spec fn signed24(v: int) -> int {
    if v >= 0x80_0000 {
        v - 0x100_0000
    } else {
        v
    }
}

/// What a read of exactly `n` bytes that yields `value` does: with at least
/// `n` bytes pending it returns `value` and drops those bytes, otherwise it
/// reports truncation and drops nothing.
pub open spec fn reads<T>(
    before: Seq<u8>,
    n: nat,
    value: T,
    r: Result<T, Error>,
    after: Seq<u8>,
) -> bool {
    if before.len() >= n {
        r == Ok::<T, Error>(value) && after == before.skip(n as int)
    } else {
        r == Err::<T, Error>(Error::Truncated) && after == before
    }
}

/// How the outcome `r` of a decoder, and the bytes `after` it, agree with
/// what the format prescribes: on success the decoded value stands for the
/// prescribed one and the prescribed bytes are left; on failure the error is
/// the prescribed one.
pub open spec fn decodes<T: View>(
    expected: Result<(T::V, Seq<u8>), Error>,
    r: Result<T, Error>,
    after: Seq<u8>,
) -> bool {
    match expected {
        Ok((value, rest)) => r is Ok && r->Ok_0@ == value && after == rest,
        Err(e) => r is Err && r->Err_0 == e,
    }
}

/// `Clone::clone` on `Bytes`: a second handle on the same bytes.
pub assume_specification[ <Bytes as Clone>::clone ](b: &Bytes) -> (r: Bytes)
    ensures
        bytes_content(r) == bytes_content(*b),
;

/// `PartialEq::eq` on `Bytes`: whether two buffers hold the same bytes.
#[verifier::external_body]
pub(crate) fn bytes_eq(a: &Bytes, b: &Bytes) -> (same: bool)
    ensures
        same == (bytes_content(*a) == bytes_content(*b)),
{
    a == b
}

/// `Buf::remaining` on `Bytes`: the number of bytes still held.
#[verifier::external_body]
fn buf_remaining(buf: &Bytes) -> (n: usize)
    ensures
        n == bytes_content(*buf).len(),
{
    buf.remaining()
}

/// `Buf::chunk` on `Bytes`: a view of all bytes still held.
#[verifier::external_body]
fn buf_chunk(buf: &Bytes) -> (s: &[u8])
    ensures
        s@ == bytes_content(*buf),
{
    buf.chunk()
}

/// `Buf::try_get_u8` on `Bytes`: hands out the first byte and advances past
/// it; on an empty buffer it fails and leaves the buffer as it was.
#[verifier::external_body]
fn buf_try_get_u8(buf: &mut Bytes) -> (r: Result<u8, TryGetError>)
    ensures
        r is Ok <==> bytes_content(*old(buf)).len() >= 1,
        r is Ok ==> r->Ok_0 == bytes_content(*old(buf))[0],
        r is Ok ==> bytes_content(*final(buf)) == bytes_content(*old(buf)).skip(1),
        r is Err ==> bytes_content(*final(buf)) == bytes_content(*old(buf)),
{
    buf.try_get_u8()
}

/// `Buf::try_get_u16` on `Bytes`: the first two bytes read big-endian, the
/// buffer advanced past them; with fewer than two bytes it fails and leaves
/// the buffer as it was.
#[verifier::external_body]
fn buf_try_get_u16(buf: &mut Bytes) -> (r: Result<u16, TryGetError>)
    ensures
        r is Ok <==> bytes_content(*old(buf)).len() >= 2,
        r is Ok ==> r->Ok_0 == be16(bytes_content(*old(buf))),
        r is Ok ==> bytes_content(*final(buf)) == bytes_content(*old(buf)).skip(2),
        r is Err ==> bytes_content(*final(buf)) == bytes_content(*old(buf)),
{
    buf.try_get_u16()
}

/// `Buf::try_get_i16` on `Bytes`: the first two bytes read big-endian in
/// two's complement, the buffer advanced past them; with fewer than two bytes
/// it fails and leaves the buffer as it was.
#[verifier::external_body]
fn buf_try_get_i16(buf: &mut Bytes) -> (r: Result<i16, TryGetError>)
    ensures
        r is Ok <==> bytes_content(*old(buf)).len() >= 2,
        r is Ok ==> r->Ok_0 == signed16(be16(bytes_content(*old(buf)))),
        r is Ok ==> bytes_content(*final(buf)) == bytes_content(*old(buf)).skip(2),
        r is Err ==> bytes_content(*final(buf)) == bytes_content(*old(buf)),
{
    buf.try_get_i16()
}

/// `Buf::try_get_u32` on `Bytes`: the first four bytes read big-endian, the
/// buffer advanced past them; with fewer than four bytes it fails and leaves
/// the buffer as it was.
#[verifier::external_body]
fn buf_try_get_u32(buf: &mut Bytes) -> (r: Result<u32, TryGetError>)
    ensures
        r is Ok <==> bytes_content(*old(buf)).len() >= 4,
        r is Ok ==> r->Ok_0 == be32(bytes_content(*old(buf))),
        r is Ok ==> bytes_content(*final(buf)) == bytes_content(*old(buf)).skip(4),
        r is Err ==> bytes_content(*final(buf)) == bytes_content(*old(buf)),
{
    buf.try_get_u32()
}

/// `Buf::try_get_u64` on `Bytes`: the first eight bytes read big-endian, the
/// buffer advanced past them; with fewer than eight bytes it fails and leaves
/// the buffer as it was.
#[verifier::external_body]
fn buf_try_get_u64(buf: &mut Bytes) -> (r: Result<u64, TryGetError>)
    ensures
        r is Ok <==> bytes_content(*old(buf)).len() >= 8,
        r is Ok ==> r->Ok_0 == be64(bytes_content(*old(buf))),
        r is Ok ==> bytes_content(*final(buf)) == bytes_content(*old(buf)).skip(8),
        r is Err ==> bytes_content(*final(buf)) == bytes_content(*old(buf)),
{
    buf.try_get_u64()
}

/// `Buf::try_copy_to_slice` on `Bytes`: fills `dst` with the first
/// `dst.len()` bytes and advances past them; with fewer bytes it fails and
/// leaves both the buffer and `dst` as they were.
#[verifier::external_body]
fn buf_try_copy_to_slice(buf: &mut Bytes, dst: &mut [u8]) -> (r: Result<(), TryGetError>)
    ensures
        r is Ok <==> bytes_content(*old(buf)).len() >= old(dst)@.len(),
        r is Ok ==> final(dst)@ == bytes_content(*old(buf)).take(old(dst)@.len() as int),
        r is Ok ==> bytes_content(*final(buf)) == bytes_content(*old(buf)).skip(
            old(dst)@.len() as int,
        ),
        r is Err ==> bytes_content(*final(buf)) == bytes_content(*old(buf)),
        r is Err ==> final(dst)@ == old(dst)@,
{
    buf.try_copy_to_slice(dst)
}

/// `Buf::copy_to_bytes` on `Bytes`: splits off the first `len` bytes as a
/// buffer of their own; the rest stays behind.
#[verifier::external_body]
fn buf_copy_to_bytes(buf: &mut Bytes, len: usize) -> (head: Bytes)
    requires
        len <= bytes_content(*old(buf)).len(),
    ensures
        bytes_content(head) == bytes_content(*old(buf)).take(len as int),
        bytes_content(*final(buf)) == bytes_content(*old(buf)).skip(len as int),
{
    buf.copy_to_bytes(len)
}

/// A cursor over bytes held in memory.
pub trait FlvReader {
    /// The bytes not handed out yet, next byte first.
    spec fn pending(&self) -> Seq<u8>;

    /// Number of bytes not handed out yet.
    fn available(&self) -> (n: usize)
        ensures
            n == self.pending().len(),
    ;

    /// Looks at the pending bytes in `range` without consuming anything.
    fn peek(&self, range: Range<usize>) -> (r: Result<&[u8], Error>)
        requires
            range.start <= range.end,
        ensures
            range.end <= self.pending().len() ==> r is Ok && r->Ok_0@ == self.pending().subrange(
                range.start as int,
                range.end as int,
            ),
            range.end > self.pending().len() ==> r == Err::<&[u8], Error>(Error::Truncated),
    ;

    /// Reads one byte.
    fn read_u8(&mut self) -> (r: Result<u8, Error>)
        ensures
            reads(old(self).pending(), 1, old(self).pending()[0], r, final(self).pending()),
    ;

    /// Reads a signed 16-bit big-endian integer.
    fn read_i16(&mut self) -> (r: Result<i16, Error>)
        ensures
            reads(
                old(self).pending(),
                2,
                signed16(be16(old(self).pending())) as i16,
                r,
                final(self).pending(),
            ),
    ;

    /// Reads an unsigned 16-bit big-endian integer.
    fn read_u16(&mut self) -> (r: Result<u16, Error>)
        ensures
            reads(old(self).pending(), 2, be16(old(self).pending()) as u16, r, final(self).pending()),
    ;

    /// Reads an unsigned 24-bit big-endian integer.
    fn read_u24(&mut self) -> (r: Result<u32, Error>)
        ensures
            reads(old(self).pending(), 3, be24(old(self).pending()) as u32, r, final(self).pending()),
    {
        let mut buff: [u8; 3] = [0u8; 3];
        match self.read_to_slice(&mut buff) {
            Ok(()) => {
                let hi: u32 = buff[0] as u32;
                let mid: u32 = buff[1] as u32;
                let lo: u32 = buff[2] as u32;
                Ok(hi * 0x1_0000 + mid * 0x100 + lo)
            },
            Err(e) => Err(e),
        }
    }

    /// Reads a signed 24-bit big-endian integer, sign-extended to 32 bits.
    fn read_i24(&mut self) -> (r: Result<i32, Error>)
        ensures
            reads(
                old(self).pending(),
                3,
                signed24(be24(old(self).pending())) as i32,
                r,
                final(self).pending(),
            ),
    {
        match self.read_u24() {
            Ok(v) => {
                if v >= 0x80_0000 {
                    Ok((v as i64 - 0x100_0000) as i32)
                } else {
                    Ok(v as i32)
                }
            },
            Err(e) => Err(e),
        }
    }

    /// Reads an unsigned 32-bit big-endian integer.
    fn read_u32(&mut self) -> (r: Result<u32, Error>)
        ensures
            reads(old(self).pending(), 4, be32(old(self).pending()) as u32, r, final(self).pending()),
    ;

    /// Reads the eight bytes of a big-endian IEEE 754 double and returns its
    /// bit pattern.
    fn read_f64(&mut self) -> (r: Result<u64, Error>)
        ensures
            reads(old(self).pending(), 8, be64(old(self).pending()) as u64, r, final(self).pending()),
    ;

    /// Fills `buff` completely with the next bytes.
    fn read_to_slice(&mut self, buff: &mut [u8]) -> (r: Result<(), Error>)
        ensures
            reads(old(self).pending(), old(buff)@.len(), (), r, final(self).pending()),
            r is Ok ==> final(buff)@ == old(self).pending().take(old(buff)@.len() as int),
            r is Err ==> final(buff)@ == old(buff)@,
    ;

    /// Reads exactly `count` bytes as a buffer of their own.
    fn read_to_bytes(&mut self, count: usize) -> (r: Result<Bytes, Error>)
        ensures
            count <= old(self).pending().len() ==> r is Ok && bytes_content(r->Ok_0) == old(
                self,
            ).pending().take(count as int) && final(self).pending() == old(self).pending().skip(
                count as int,
            ),
            count > old(self).pending().len() ==> r == Err::<Bytes, Error>(Error::Truncated)
                && final(self).pending() == old(self).pending(),
    ;

    /// Reads everything that is left.
    fn read_to_end(&mut self) -> (r: Result<Bytes, Error>)
        ensures
            r is Ok,
            bytes_content(r->Ok_0) == old(self).pending(),
            final(self).pending() == Seq::<u8>::empty(),
    ;
}

impl FlvReader for Bytes {
    open spec fn pending(&self) -> Seq<u8> {
        bytes_content(*self)
    }

    #[inline]
    fn available(&self) -> (n: usize) {
        buf_remaining(self)
    }

    #[inline]
    fn peek(&self, range: Range<usize>) -> (r: Result<&[u8], Error>) {
        let chunk: &[u8] = buf_chunk(self);
        if range.end <= chunk.len() {
            Ok(&chunk[range])
        } else {
            Err(Error::Truncated)
        }
    }

    #[inline]
    fn read_u8(&mut self) -> (r: Result<u8, Error>) {
        match buf_try_get_u8(self) {
            Ok(v) => Ok(v),
            Err(_) => Err(Error::Truncated),
        }
    }

    #[inline]
    fn read_i16(&mut self) -> (r: Result<i16, Error>) {
        match buf_try_get_i16(self) {
            Ok(v) => Ok(v),
            Err(_) => Err(Error::Truncated),
        }
    }

    #[inline]
    fn read_u16(&mut self) -> (r: Result<u16, Error>) {
        match buf_try_get_u16(self) {
            Ok(v) => Ok(v),
            Err(_) => Err(Error::Truncated),
        }
    }

    #[inline]
    fn read_u32(&mut self) -> (r: Result<u32, Error>) {
        match buf_try_get_u32(self) {
            Ok(v) => Ok(v),
            Err(_) => Err(Error::Truncated),
        }
    }

    #[inline]
    fn read_f64(&mut self) -> (r: Result<u64, Error>) {
        match buf_try_get_u64(self) {
            Ok(v) => Ok(v),
            Err(_) => Err(Error::Truncated),
        }
    }

    #[inline]
    fn read_to_slice(&mut self, buff: &mut [u8]) -> (r: Result<(), Error>) {
        match buf_try_copy_to_slice(self, buff) {
            Ok(()) => Ok(()),
            Err(_) => Err(Error::Truncated),
        }
    }

    #[inline]
    fn read_to_bytes(&mut self, count: usize) -> (r: Result<Bytes, Error>) {
        if count <= buf_remaining(self) {
            Ok(buf_copy_to_bytes(self, count))
        } else {
            Err(Error::Truncated)
        }
    }

    #[inline]
    fn read_to_end(&mut self) -> (r: Result<Bytes, Error>) {
        let count: usize = buf_remaining(self);
        Ok(buf_copy_to_bytes(self, count))
    }
}

} // verus!
