//! Framing of the wire protocol: the version cell and the length-prefixed
//! payload. All integers are little-endian.
use vstd::prelude::*;

use crate::error::Error;

verus! {

/// The protocol version that this library speaks.
pub const VERSION: u16 = 1;

/// The two little-endian bytes of a 16-bit value.
pub open spec fn le16(v: u16) -> Seq<u8> {
    seq![(v % 256) as u8, (v / 256) as u8]
}

/// The 16-bit value of two little-endian bytes.
pub open spec fn from_le16(b0: u8, b1: u8) -> u16 {
    (b0 as int + 256 * b1 as int) as u16
}

/// The four little-endian bytes of a 32-bit value.
pub open spec fn le32(v: u32) -> Seq<u8> {
    seq![
        (v % 0x100) as u8,
        ((v / 0x100) % 0x100) as u8,
        ((v / 0x10000) % 0x100) as u8,
        (v / 0x1000000) as u8,
    ]
}

/// The 32-bit value of four little-endian bytes.
pub open spec fn from_le32(b: Seq<u8>) -> int
    recommends
        b.len() >= 4,
{
    b[0] as int + 0x100 * b[1] as int + 0x10000 * b[2] as int + 0x1000000 * b[3] as int
}

/// The version cell: exactly the two bytes of the version.
pub open spec fn version_cell(v: u16) -> Seq<u8> {
    le16(v)
}

/// What the version cell at the front of `b` holds, if it is complete.
pub open spec fn decode_version(b: Seq<u8>) -> Option<u16> {
    if b.len() >= 2 {
        Some(from_le16(b[0], b[1]))
    } else {
        None
    }
}

/// A frame: the payload's length in four bytes, then the payload.
pub open spec fn frame(payload: Seq<u8>) -> Seq<u8>
    recommends
        payload.len() <= u32::MAX,
{
    le32(payload.len() as u32) + payload
}

/// The payload of the frame at the front of `b` and the number of bytes
/// that frame takes, if the frame is complete.
pub open spec fn decode_frame(b: Seq<u8>) -> Option<(Seq<u8>, nat)> {
    if b.len() < 4 {
        None
    } else {
        let len = from_le32(b);
        if 4 + len <= b.len() {
            Some((b.subrange(4, 4 + len), (4 + len) as nat))
        } else {
            None
        }
    }
}

/// Reads the version cell at the front of `buf`.
pub fn read_version(buf: &[u8]) -> (r: Result<u16, Error>)
    ensures
        match decode_version(buf@) {
            Some(v) => r == Ok::<u16, Error>(v),
            None => r == Err::<u16, Error>(Error::Truncated),
        },
{
    if buf.len() < 2 {
        return Err(Error::Truncated);
    }
    let lo = buf[0] as u16;
    let hi = buf[1] as u16;
    Ok(lo + 256 * hi)
}

/// Appends the version cell of this library's version to `out`.
pub fn write_version(out: &mut Vec<u8>)
    ensures
        final(out)@ == old(out)@ + version_cell(VERSION),
{
    out.push(1u8);
    out.push(0u8);
    assert(final(out)@ =~= old(out)@ + version_cell(VERSION));
}

/// Accepts exactly the version that this library speaks.
pub fn check_version(v: u16) -> (r: Result<(), Error>)
    ensures
        r == (if v == VERSION {
            Ok::<(), Error>(())
        } else {
            Err::<(), Error>(Error::Incompatible(v))
        }),
{
    if v == VERSION {
        Ok(())
    } else {
        Err(Error::Incompatible(v))
    }
}


/// Appends the frame of `payload` to `out`; a payload longer than a 32-bit
/// length can count is refused and `out` is left as it was.
pub fn write_frame(out: &mut Vec<u8>, payload: &[u8]) -> (r: Result<(), Error>)
    ensures
        payload@.len() > u32::MAX ==> r == Err::<(), Error>(Error::TooLarge) && final(out)@
            == old(out)@,
        payload@.len() <= u32::MAX ==> r == Ok::<(), Error>(()) && final(out)@ == old(out)@
            + frame(payload@),
{
    if payload.len() as u64 > 0xFFFF_FFFFu64 {
        return Err(Error::TooLarge);
    }
    let n = payload.len() as u32;
    out.push((n % 0x100) as u8);
    out.push(((n / 0x100) % 0x100) as u8);
    out.push(((n / 0x10000) % 0x100) as u8);
    out.push((n / 0x1000000) as u8);
    let ghost head = out@;
    assert(head =~= old(out)@ + le32(n));
    let mut i: usize = 0;
    while i < payload.len()
        invariant
            i <= payload@.len(),
            out@ =~= head + payload@.subrange(0, i as int),
        decreases payload@.len() - i,
    {
        out.push(payload[i]);
        i = i + 1;
        assert(out@ =~= head + payload@.subrange(0, i as int));
    }
    assert(payload@.subrange(0, payload@.len() as int) =~= payload@);
    Ok(())
}

/// Reads the length prefix of the frame at the front of `buf`: the number
/// of payload bytes that follow it.
pub fn read_frame_len(buf: &[u8]) -> (r: Result<u32, Error>)
    ensures
        buf@.len() >= 4 ==> r.is_ok() && r.unwrap() as int == from_le32(buf@),
        buf@.len() < 4 ==> r == Err::<u32, Error>(Error::Truncated),
{
    if buf.len() < 4 {
        return Err(Error::Truncated);
    }
    let len: u32 = buf[0] as u32 + 0x100 * (buf[1] as u32) + 0x10000 * (buf[2] as u32) + 0x1000000
        * (buf[3] as u32);
    Ok(len)
}

/// Reads the frame at the front of `buf`: its payload and the number of
/// bytes that the frame takes.
pub fn read_frame(buf: &[u8]) -> (r: Result<(Vec<u8>, usize), Error>)
    ensures
        match decode_frame(buf@) {
            Some((p, n)) => r.is_ok() && r.unwrap().0@ == p && r.unwrap().1 == n,
            None => r == Err::<(Vec<u8>, usize), Error>(Error::Truncated),
        },
{
    if buf.len() < 4 {
        return Err(Error::Truncated);
    }
    let len: u64 = buf[0] as u64 + 0x100 * (buf[1] as u64) + 0x10000 * (buf[2] as u64) + 0x1000000
        * (buf[3] as u64);
    let avail: u64 = (buf.len() - 4) as u64;
    if len > avail {
        return Err(Error::Truncated);
    }
    let end: usize = 4 + len as usize;
    let mut payload: Vec<u8> = Vec::new();
    let mut i: usize = 4;
    while i < end
        invariant
            4 <= i <= end <= buf@.len(),
            payload@ =~= buf@.subrange(4, i as int),
        decreases end - i,
    {
        payload.push(buf[i]);
        i = i + 1;
    }
    Ok((payload, end))
}

/// The 32-bit length prefix reads back as the length it was written from.
pub proof fn lemma_le32_round_trip(n: u32)
    ensures
        from_le32(le32(n)) == n as int,
{
    let a = n % 0x100;
    let q1 = n / 0x100;
    let b = q1 % 0x100;
    let q2 = n / 0x10000;
    let c = q2 % 0x100;
    let d = n / 0x1000000;
    assert(n == a + 0x100 * q1) by (nonlinear_arith)
        requires
            a == n % 0x100,
            q1 == n / 0x100,
    ;
    assert(q2 == q1 / 0x100) by (nonlinear_arith)
        requires
            q1 == n / 0x100,
            q2 == n / 0x10000,
    {
        vstd::arithmetic::div_mod::lemma_div_denominator(n as int, 0x100, 0x100);
    }
    assert(d == q2 / 0x100) by (nonlinear_arith)
        requires
            q2 == n / 0x10000,
            d == n / 0x1000000,
    {
        vstd::arithmetic::div_mod::lemma_div_denominator(n as int, 0x10000, 0x100);
    }
    assert(q1 == b + 0x100 * q2) by (nonlinear_arith)
        requires
            b == q1 % 0x100,
            q2 == q1 / 0x100,
    ;
    assert(q2 == c + 0x100 * d) by (nonlinear_arith)
        requires
            c == q2 % 0x100,
            d == q2 / 0x100,
    ;
    assert(d < 0x100) by (nonlinear_arith)
        requires
            d == n / 0x1000000,
            n <= u32::MAX,
    ;
}

/// A frame reads back as the payload it was written from, whatever follows
/// it in the stream, and the reader consumes exactly that frame.
pub proof fn lemma_frame_round_trip(payload: Seq<u8>, rest: Seq<u8>)
    requires
        payload.len() <= u32::MAX,
    ensures
        decode_frame(frame(payload) + rest) == Some((payload, frame(payload).len())),
        frame(payload).len() == 4 + payload.len(),
{
    let b = frame(payload) + rest;
    lemma_le32_round_trip(payload.len() as u32);
    assert(b.subrange(0, 4) =~= le32(payload.len() as u32));
    assert(from_le32(b) == from_le32(le32(payload.len() as u32)));
    assert(b.subrange(4, 4 + payload.len() as int) =~= payload);
}

/// A version cell reads back as the version it was written from, whatever
/// follows it.
pub proof fn lemma_version_round_trip(v: u16, rest: Seq<u8>)
    ensures
        decode_version(version_cell(v) + rest) == Some(v),
{
    let b = version_cell(v) + rest;
    assert(b[0] == (v % 256) as u8 && b[1] == (v / 256) as u8);
}

} // verus!
