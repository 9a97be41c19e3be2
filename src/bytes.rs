//! Fixed-width reads from a borrowed byte buffer at an absolute position.
//! Every read checks the bounds and reports truncation as a recoverable error.
use crate::errors::{Fault, PEError};
use vstd::prelude::*;

verus! {

/// The unsigned 16-bit little-endian integer stored at `b[p..p + 2]`.
pub open spec fn le_u16(b: Seq<u8>, p: int) -> u16 {
    (b[p] as int + 0x100 * b[p + 1]) as u16
}

/// The unsigned 32-bit little-endian integer stored at `b[p..p + 4]`.
pub open spec fn le_u32(b: Seq<u8>, p: int) -> u32 {
    (le_u16(b, p) as int + 0x1_0000 * le_u16(b, p + 2)) as u32
}

/// The unsigned 64-bit little-endian integer stored at `b[p..p + 8]`.
pub open spec fn le_u64(b: Seq<u8>, p: int) -> u64 {
    (le_u32(b, p) as int + 0x1_0000_0000 * le_u32(b, p + 4)) as u64
}

/// `n` bytes starting at `p` lie inside `b`.
pub open spec fn fits(b: Seq<u8>, p: int, n: int) -> bool {
    0 <= p && p + n <= b.len()
}

pub fn has_room(input: &[u8], pos: usize, n: usize) -> (r: bool)
    ensures
        r == fits(input@, pos as int, n as int),
        input@.len() <= usize::MAX,
{
    pos <= input.len() && n <= input.len() - pos
}

fn get_u16(input: &[u8], pos: usize) -> (r: u16)
    requires
        fits(input@, pos as int, 2),
        input@.len() <= usize::MAX,
    ensures
        r == le_u16(input@, pos as int),
{
    input[pos] as u16 + (input[pos + 1] as u16) * 0x100
}

pub(crate) fn get_u32(input: &[u8], pos: usize) -> (r: u32)
    requires
        fits(input@, pos as int, 4),
        input@.len() <= usize::MAX,
    ensures
        r == le_u32(input@, pos as int),
{
    let lo = get_u16(input, pos);
    let hi = get_u16(input, pos + 2);
    assert(hi as int * 0x1_0000 <= 0xFFFF_0000) by (nonlinear_arith)
        requires
            hi <= 0xFFFF,
    ;
    lo as u32 + (hi as u32) * 0x1_0000
}

fn get_u64(input: &[u8], pos: usize) -> (r: u64)
    requires
        fits(input@, pos as int, 8),
        input@.len() <= usize::MAX,
    ensures
        r == le_u64(input@, pos as int),
{
    let lo = get_u32(input, pos);
    let hi = get_u32(input, pos + 4);
    assert(hi as int * 0x1_0000_0000 <= 0xFFFF_FFFF_0000_0000) by (nonlinear_arith)
        requires
            hi <= 0xFFFF_FFFF,
    ;
    lo as u64 + (hi as u64) * 0x1_0000_0000
}

/// A truncation at `pos`, labelled with the field that could not be read.
fn truncated(pos: usize, name: &'static str) -> (e: PEError)
    ensures
        e.fault() == Some(Fault::Truncation),
        e.position() == pos,
        e.errors@.len() == 2,
{
    PEError::new(pos, Fault::Truncation).add_context(pos, name)
}

/// Reads one byte; the linker-version bytes are the only big-endian fields,
/// and for a single byte both orders agree.
pub fn read_u8(input: &[u8], pos: usize, name: &'static str) -> (r: Result<(usize, u8), PEError>)
    ensures
        match r {
            Ok((next, v)) => fits(input@, pos as int, 1) && next == pos + 1 && v == input@[pos as int],
            Err(e) => !fits(input@, pos as int, 1) && e.fault() == Some(Fault::Truncation),
        },
{
    if has_room(input, pos, 1) {
        Ok((pos + 1, input[pos]))
    } else {
        Err(truncated(pos, name))
    }
}

pub fn read_u16(input: &[u8], pos: usize, name: &'static str) -> (r: Result<(usize, u16), PEError>)
    ensures
        match r {
            Ok((next, v)) => fits(input@, pos as int, 2) && next == pos + 2 && v == le_u16(
                input@,
                pos as int,
            ),
            Err(e) => !fits(input@, pos as int, 2) && e.fault() == Some(Fault::Truncation),
        },
{
    if has_room(input, pos, 2) {
        Ok((pos + 2, get_u16(input, pos)))
    } else {
        Err(truncated(pos, name))
    }
}

pub fn read_u32(input: &[u8], pos: usize, name: &'static str) -> (r: Result<(usize, u32), PEError>)
    ensures
        match r {
            Ok((next, v)) => fits(input@, pos as int, 4) && next == pos + 4 && v == le_u32(
                input@,
                pos as int,
            ),
            Err(e) => !fits(input@, pos as int, 4) && e.fault() == Some(Fault::Truncation),
        },
{
    if has_room(input, pos, 4) {
        Ok((pos + 4, get_u32(input, pos)))
    } else {
        Err(truncated(pos, name))
    }
}

pub fn read_u64(input: &[u8], pos: usize, name: &'static str) -> (r: Result<(usize, u64), PEError>)
    ensures
        match r {
            Ok((next, v)) => fits(input@, pos as int, 8) && next == pos + 8 && v == le_u64(
                input@,
                pos as int,
            ),
            Err(e) => !fits(input@, pos as int, 8) && e.fault() == Some(Fault::Truncation),
        },
{
    if has_room(input, pos, 8) {
        Ok((pos + 8, get_u64(input, pos)))
    } else {
        Err(truncated(pos, name))
    }
}

/// Steps over `n` bytes at `pos` that nothing reads.
pub fn skip(input: &[u8], pos: usize, n: usize, name: &'static str) -> (r: Result<usize, PEError>)
    ensures
        match r {
            Ok(next) => fits(input@, pos as int, n as int) && next == pos + n,
            Err(e) => !fits(input@, pos as int, n as int) && e.fault() == Some(Fault::Truncation),
        },
{
    if has_room(input, pos, n) {
        Ok(pos + n)
    } else {
        Err(truncated(pos, name))
    }
}

/// Copies the `N` bytes at `pos`.
pub fn take<const N: usize>(input: &[u8], pos: usize, name: &'static str) -> (r: Result<
    (usize, [u8; N]),
    PEError,
>)
    ensures
        match r {
            Ok((next, v)) => fits(input@, pos as int, N as int) && next == pos + N && v@
                == input@.subrange(pos as int, pos + N),
            Err(e) => !fits(input@, pos as int, N as int) && e.fault() == Some(Fault::Truncation),
        },
{
    if !has_room(input, pos, N) {
        return Err(truncated(pos, name));
    }
    let mut out = [0u8; N];
    let mut i: usize = 0;
    while i < N
        invariant
            i <= N,
            fits(input@, pos as int, N as int),
            input@.len() <= usize::MAX,
            out@.len() == N,
            forall|j: int| 0 <= j < i ==> out@[j] == input@[pos + j],
        decreases N - i,
    {
        out[i] = input[pos + i];
        i = i + 1;
    }
    assert(out@ =~= input@.subrange(pos as int, pos + N));
    Ok((pos + N, out))
}

/// Matches the literal bytes `expected` at `pos`.
pub fn tag<const N: usize>(input: &[u8], pos: usize, expected: [u8; N], name: &'static str) -> (r:
    Result<(usize, [u8; N]), PEError>)
    ensures
        match r {
            Ok((next, v)) => fits(input@, pos as int, N as int) && next == pos + N && v == expected
                && input@.subrange(pos as int, pos + N) == expected@,
            Err(e) => if !fits(input@, pos as int, N as int) {
                e.fault() == Some(Fault::Truncation)
            } else {
                input@.subrange(pos as int, pos + N) != expected@ && e.fault() == Some(
                    Fault::TagMismatch,
                )
            },
        },
{
    if !has_room(input, pos, N) {
        return Err(truncated(pos, name));
    }
    let mut i: usize = 0;
    while i < N
        invariant
            i <= N,
            fits(input@, pos as int, N as int),
            input@.len() <= usize::MAX,
            expected@.len() == N,
            forall|j: int| 0 <= j < i ==> expected@[j] == input@[pos + j],
        decreases N - i,
    {
        if input[pos + i] != expected[i] {
            assert(input@.subrange(pos as int, pos + N)[i as int] != expected@[i as int]);
            return Err(PEError::new(pos, Fault::TagMismatch).add_context(pos, name));
        }
        i = i + 1;
    }
    assert(input@.subrange(pos as int, pos + N) =~= expected@);
    Ok((pos + N, expected))
}

} // verus!
