//! The legacy MS-DOS header, read only to find the offset of the PE header.
use crate::bytes::{fits, le_u16, le_u32, read_u16, read_u32, skip, tag, take};
use crate::errors::{Fault, PEError};
use vstd::prelude::*;

verus! {

/// Bytes that the DOS header occupies, with the stub region after it.
pub const DOS_HEADER_SIZE: usize = 128;

/// The two bytes `MZ` stand at `p`.
pub open spec fn is_dos_magic(b: Seq<u8>, p: int) -> bool {
    b[p] == 0x4d && b[p + 1] == 0x5a
}

/// How reading a DOS header at `p` fails, or `None` when it succeeds: the
/// magic comes first, then the rest of the fixed layout.
pub open spec fn dos_header_fault(b: Seq<u8>, p: int) -> Option<Fault> {
    if !fits(b, p, 2) {
        Some(Fault::Truncation)
    } else if !is_dos_magic(b, p) {
        Some(Fault::TagMismatch)
    } else if !fits(b, p, DOS_HEADER_SIZE as int) {
        Some(Fault::Truncation)
    } else {
        None
    }
}

#[derive(Debug, Clone, Copy)]
pub struct DosHeader {
    pub magic: [u8; 2],
    pub cblp: u16,
    pub cp: u16,
    pub crlc: u16,
    pub cparhdr: u16,
    pub minalloc: u16,
    pub maxalloc: u16,
    pub ss: u16,
    pub sp: u16,
    pub csum: u16,
    pub ip: u16,
    pub cs: u16,
    pub lfarlc: u16,
    pub ovno: u16,
    pub res: [u8; 8],
    pub oemid: u16,
    pub oeminfo: u16,
    pub res2: [u8; 20],
    /// File offset of the PE signature.
    pub lfanew: u32,
}

impl DosHeader {
    /// Each field holds what the fixed layout puts at its offset from `p`.
    pub open spec fn decoded_from(self, b: Seq<u8>, p: int) -> bool {
        &&& self.magic@ == b.subrange(p, p + 2)
        &&& self.cblp == le_u16(b, p + 2)
        &&& self.cp == le_u16(b, p + 4)
        &&& self.crlc == le_u16(b, p + 6)
        &&& self.cparhdr == le_u16(b, p + 8)
        &&& self.minalloc == le_u16(b, p + 10)
        &&& self.maxalloc == le_u16(b, p + 12)
        &&& self.ss == le_u16(b, p + 14)
        &&& self.sp == le_u16(b, p + 16)
        &&& self.csum == le_u16(b, p + 18)
        &&& self.ip == le_u16(b, p + 20)
        &&& self.cs == le_u16(b, p + 22)
        &&& self.lfarlc == le_u16(b, p + 24)
        &&& self.ovno == le_u16(b, p + 26)
        &&& self.res@ == b.subrange(p + 28, p + 36)
        &&& self.oemid == le_u16(b, p + 36)
        &&& self.oeminfo == le_u16(b, p + 38)
        &&& self.res2@ == b.subrange(p + 40, p + 60)
        &&& self.lfanew == le_u32(b, p + 60)
    }

    /// Reads the DOS header at `pos` and returns the position after its stub.
    pub fn parse(input: &[u8], pos: usize) -> (r: Result<(usize, DosHeader), PEError>)
        ensures
            match r {
                Ok((next, h)) => dos_header_fault(input@, pos as int) is None && next == pos
                    + DOS_HEADER_SIZE && h.decoded_from(input@, pos as int),
                Err(e) => dos_header_fault(input@, pos as int) is Some && e.fault()
                    == dos_header_fault(input@, pos as int),
            },
    {
        let expected: [u8; 2] = [0x4du8, 0x5au8];
        assert(expected@ =~= seq![0x4du8, 0x5au8]);
        let read = tag(input, pos, expected, "magic");
        proof {
            if fits(input@, pos as int, 2) {
                let m = input@.subrange(pos as int, pos + 2);
                assert(m[0] == input@[pos as int] && m[1] == input@[pos + 1]);
                assert(is_dos_magic(input@, pos as int) <==> m =~= expected@);
            }
        }
        let (i, magic) = read?;
        let (i, cblp) = read_u16(input, i, "cblp")?;
        let (i, cp) = read_u16(input, i, "cp")?;
        let (i, crlc) = read_u16(input, i, "crlc")?;
        let (i, cparhdr) = read_u16(input, i, "cparhdr")?;
        let (i, minalloc) = read_u16(input, i, "minalloc")?;
        let (i, maxalloc) = read_u16(input, i, "maxalloc")?;
        let (i, ss) = read_u16(input, i, "ss")?;
        let (i, sp) = read_u16(input, i, "sp")?;
        let (i, csum) = read_u16(input, i, "csum")?;
        let (i, ip) = read_u16(input, i, "ip")?;
        let (i, cs) = read_u16(input, i, "cs")?;
        let (i, lfarlc) = read_u16(input, i, "lfarlc")?;
        let (i, ovno) = read_u16(input, i, "ovno")?;
        let (i, res) = take::<8>(input, i, "res")?;
        let (i, oemid) = read_u16(input, i, "oemid")?;
        let (i, oeminfo) = read_u16(input, i, "oeminfo")?;
        let (i, res2) = take::<20>(input, i, "res2")?;
        let (i, lfanew) = read_u32(input, i, "lfanew")?;
        let i = skip(input, i, 64, "stub")?;
        let header = DosHeader {
            magic,
            cblp,
            cp,
            crlc,
            cparhdr,
            minalloc,
            maxalloc,
            ss,
            sp,
            csum,
            ip,
            cs,
            lfarlc,
            ovno,
            res,
            oemid,
            oeminfo,
            res2,
            lfanew,
        };
        Ok((i, header))
    }
}

} // verus!
