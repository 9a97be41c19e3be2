//! The image headers: DOS stub header, NT headers and the section table.
pub mod dos;
pub mod nt;
pub mod sections;

use crate::bytes::{fits, le_u16, le_u32};
use crate::errors::{Fault, PEError};
use dos::{dos_header_fault, DosHeader};
use nt::{nt_header_fault, NTHeader, OptionalHeader};
use sections::{sections_at, SectionView, Sections, SECTION_SIZE};
use vstd::prelude::*;

verus! {

/// Where the NT headers start: the DOS header's last field.
pub open spec fn nt_offset(b: Seq<u8>) -> int {
    le_u32(b, 60) as int
}

/// The section count that the file header of the NT headers declares.
pub open spec fn section_count(b: Seq<u8>) -> u16 {
    le_u16(b, nt_offset(b) + 6)
}

/// Where the section table starts: right after the data directory table.
pub open spec fn sections_offset(b: Seq<u8>) -> int {
    NTHeader::end(b, nt_offset(b))
}

/// How reading the headers of the image `b` fails, or `None`.
#[verifier::opaque]
pub open spec fn pe_header_fault(b: Seq<u8>) -> Option<Fault> {
    if dos_header_fault(b, 0) is Some {
        dos_header_fault(b, 0)
    } else if nt_header_fault(b, nt_offset(b)) is Some {
        nt_header_fault(b, nt_offset(b))
    } else if section_count(b) > 0 && !fits(
        b,
        sections_offset(b),
        SECTION_SIZE * section_count(b),
    ) {
        Some(Fault::Truncation)
    } else {
        None
    }
}

/// The headers as a mathematical value.
pub struct PEHeaderView {
    pub dos_header: DosHeader,
    pub nt_header: NTHeader,
    pub sections: Seq<SectionView>,
}

#[derive(Debug)]
pub struct PEHeader {
    pub dos_header: DosHeader,
    pub nt_header: NTHeader,
    pub sections: Sections,
}

impl View for PEHeader {
    type V = PEHeaderView;

    open spec fn view(&self) -> PEHeaderView {
        PEHeaderView {
            dos_header: self.dos_header,
            nt_header: self.nt_header,
            sections: self.sections@,
        }
    }
}

impl PEHeader {
    /// Every part holds what the image `b` stores for it.
    #[verifier::opaque]
    pub open spec fn decoded_from(self, b: Seq<u8>) -> bool {
        &&& self.dos_header.decoded_from(b, 0)
        &&& self.nt_header.decoded_from(b, nt_offset(b))
        &&& self.sections@ == sections_at(b, sections_offset(b), section_count(b) as nat)
    }

    /// Reads the headers of the whole file `pe_file`: the DOS header at the
    /// start, the NT headers where it points, and the section table after them.
    pub fn parse(pe_file: &[u8]) -> (r: Result<(usize, PEHeader), PEError>)
        ensures
            match r {
                Ok((next, h)) => pe_header_fault(pe_file@) is None && h.decoded_from(pe_file@)
                    && next == sections_offset(pe_file@) + SECTION_SIZE * section_count(pe_file@),
                Err(e) => pe_header_fault(pe_file@) is Some && e.fault() == pe_header_fault(
                    pe_file@,
                ),
            },
    {
        proof {
            reveal(pe_header_fault);
            reveal(PEHeader::decoded_from);
        }
        let (_, dos_header) = match DosHeader::parse(pe_file, 0) {
            Ok(v) => v,
            Err(e) => {
                return Err(e.add_context(0, "DosHeader"));
            },
        };
        // lfanew is the offset of the PE signature
        let nt_pos = dos_header.lfanew as usize;
        let (i, nt_header) = match NTHeader::parse(pe_file, nt_pos) {
            Ok(v) => v,
            Err(e) => {
                return Err(e.add_context(nt_pos, "NTHeader"));
            },
        };
        let (i, sections) = match Sections::parse(pe_file, i, nt_header.file_header.num_of_sections) {
            Ok(v) => v,
            Err(e) => {
                return Err(e.add_context(i, "Sections"));
            },
        };
        Ok((i, PEHeader { dos_header, nt_header, sections }))
    }
}

/// Two headers decoded from the same bytes are the same value.
pub proof fn lemma_header_unique(b: Seq<u8>, h1: PEHeader, h2: PEHeader)
    requires
        h1.decoded_from(b),
        h2.decoded_from(b),
    ensures
        h1@ == h2@,
{
    reveal(PEHeader::decoded_from);
    let (d1, d2) = (h1.dos_header, h2.dos_header);
    assert(d1.magic =~= d2.magic);
    assert(d1.res =~= d2.res);
    assert(d1.res2 =~= d2.res2);
    let (n1, n2) = (h1.nt_header, h2.nt_header);
    assert(n1.signature =~= n2.signature);
    assert(n1.file_header == n2.file_header);
    match (n1.optional_header, n2.optional_header) {
        (OptionalHeader::Op32(o1), OptionalHeader::Op32(o2)) => {
            assert(o1.data_directories.slots =~= o2.data_directories.slots);
        },
        (OptionalHeader::Op64(o1), OptionalHeader::Op64(o2)) => {
            assert(o1.data_directories.slots =~= o2.data_directories.slots);
        },
        _ => {},
    }
}

} // verus!
