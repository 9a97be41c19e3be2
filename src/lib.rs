//! Decoding of Portable Executable (PE/COFF) images: headers, section table,
//! and import/export metadata, from an untrusted byte buffer.
pub mod bytes;
pub mod datetime;
pub mod errors;
pub mod exports;
pub mod headers;
pub mod imports;
pub mod utils;

use errors::{Fault, PEError};
use exports::export_directory_table::{export_table_at, ExportDirectoryTable};
use headers::nt::{DataDirectory, DirectoryEntry};
use headers::dos::{is_dos_magic, DOS_HEADER_SIZE};
use headers::{lemma_header_unique, pe_header_fault, PEHeader, PEHeaderView};
use imports::import_directory_table::{import_table_at, ImportDescriptorView};
use imports::Imports;
use vstd::prelude::*;

verus! {

/// A decoded image as a mathematical value.
pub struct PEView {
    pub file: Seq<u8>,
    pub header: PEHeaderView,
    pub imports: Option<Seq<ImportDescriptorView>>,
    pub export: Option<ExportDirectoryTable>,
}

/// The headers that the image `b` holds, when it holds any.
pub open spec fn header_of(b: Seq<u8>) -> PEHeaderView {
    (choose|h: PEHeader| h.decoded_from(b))@
}

/// The directory of kind `e` that the headers `h` declare.
pub open spec fn directory_of(h: PEHeaderView, e: DirectoryEntry) -> Option<DataDirectory> {
    h.nt_header.optional_header.directories().slots@[e.index()]
}

/// The imports of the image `b` with headers `h`: `Some(None)` when absent,
/// `None` when they run past the input.
pub open spec fn imports_of(b: Seq<u8>, h: PEHeaderView) -> Option<
    Option<Seq<ImportDescriptorView>>,
> {
    match directory_of(h, DirectoryEntry::Import) {
        None => Some(None),
        Some(d) => import_table_at(b, h.sections, d.virtual_address),
    }
}

/// The export directory table of the image `b` with headers `h`.
pub open spec fn export_of(b: Seq<u8>, h: PEHeaderView) -> Result<
    Option<ExportDirectoryTable>,
    Fault,
> {
    match directory_of(h, DirectoryEntry::Export) {
        None => Ok(None),
        Some(d) => export_table_at(b, h.sections, d.virtual_address),
    }
}

/// How decoding the image `b` fails, or `None`: headers first, then the
/// imports, then the exports.
pub open spec fn pe_fault(b: Seq<u8>) -> Option<Fault> {
    if pe_header_fault(b) is Some {
        pe_header_fault(b)
    } else if imports_of(b, header_of(b)) is None {
        Some(Fault::Truncation)
    } else {
        match export_of(b, header_of(b)) {
            Err(f) => Some(f),
            Ok(_) => None,
        }
    }
}

/// The image that `b` decodes to, when `pe_fault(b)` is `None`.
pub open spec fn pe_model(b: Seq<u8>) -> PEView {
    PEView {
        file: b,
        header: header_of(b),
        imports: imports_of(b, header_of(b))->0,
        export: export_of(b, header_of(b))->Ok_0,
    }
}

/// `pe` is what decoding the image `b` gives.
pub open spec fn decodes_to(b: Seq<u8>, pe: PE) -> bool {
    &&& pe_fault(b) is None
    &&& pe.header.decoded_from(b)
    &&& pe@ == pe_model(b)
}

/// A decoded image: the buffer it was read from, its headers and section
/// table, and its import and export tables where the headers declare them.
#[derive(Debug)]
pub struct PE<'a> {
    pub file: &'a [u8],
    pub header: PEHeader,
    pub imports: Option<Imports>,
    pub export: Option<ExportDirectoryTable>,
}

impl<'a> View for PE<'a> {
    type V = PEView;

    open spec fn view(&self) -> PEView {
        PEView {
            file: self.file@,
            header: self.header@,
            imports: match self.imports {
                Some(i) => Some(i@),
                None => None,
            },
            export: self.export,
        }
    }
}

impl<'a> PE<'a> {
    /// Decodes the whole image `input`. Every address is resolved against
    /// `input` itself, never against a position reached while reading.
    pub fn parse(input: &'a [u8]) -> (r: Result<PE<'a>, PEError>)
        ensures
            match pe_fault(input@) {
                None => r matches Ok(pe) && decodes_to(input@, pe),
                Some(f) => r matches Err(e) && e.fault() == Some(f),
            },
    {
        let (_, header) = PEHeader::parse(input)?;
        proof {
            lemma_header_unique(input@, header, choose|h: PEHeader| h.decoded_from(input@));
        }
        let imports = match header.nt_header.optional_header.find_directory_by_entry(
            DirectoryEntry::Import,
        ) {
            Some(import_directory) => match Imports::parse(input, import_directory, &header.sections) {
                Ok(i) => i,
                Err(e) => {
                    return Err(e.add_context(0, "Imports"));
                },
            },
            None => None,
        };
        let export = match header.nt_header.optional_header.find_directory_by_entry(
            DirectoryEntry::Export,
        ) {
            Some(export_directory) => match ExportDirectoryTable::parse(
                input,
                export_directory,
                &header.sections,
            ) {
                Ok(t) => t,
                Err(e) => {
                    return Err(e.add_context(0, "ExportDirectoryTable"));
                },
            },
            None => None,
        };
        Ok(PE { file: input, header, imports, export })
    }
}

/// Decoding is deterministic: two decodes of the same bytes give the same
/// image, field for field.
pub proof fn lemma_decode_deterministic(b1: Seq<u8>, b2: Seq<u8>, pe1: PE, pe2: PE)
    requires
        b1 == b2,
        decodes_to(b1, pe1),
        decodes_to(b2, pe2),
    ensures
        pe1@ == pe2@,
        pe1.header.dos_header == pe2.header.dos_header,
        pe1.header.nt_header == pe2.header.nt_header,
        pe1.export == pe2.export,
{
}

/// A buffer shorter than the DOS header fails with a truncation, provided
/// that what it holds of the magic is right (else the magic fails first).
pub proof fn lemma_short_buffer_truncates(b: Seq<u8>)
    requires
        b.len() < DOS_HEADER_SIZE,
        b.len() < 2 || is_dos_magic(b, 0),
    ensures
        pe_fault(b) == Some(Fault::Truncation),
{
    reveal(pe_header_fault);
}

/// A buffer whose first two bytes are not `MZ` fails with a tag mismatch,
/// whatever follows them.
pub proof fn lemma_bad_magic_mismatches(b: Seq<u8>)
    requires
        b.len() >= 2,
        !is_dos_magic(b, 0),
    ensures
        pe_fault(b) == Some(Fault::TagMismatch),
{
    reveal(pe_header_fault);
}

/// When the optional header declares no directories, the table is empty and
/// the image has neither imports nor exports.
pub proof fn lemma_no_directories(b: Seq<u8>, pe: PE)
    requires
        decodes_to(b, pe),
        pe.header.nt_header.optional_header.directories().count == 0,
    ensures
        forall|e: DirectoryEntry| #[trigger] directory_of(pe.header@, e) is None,
        pe.imports is None,
        pe.export is None,
{
    reveal(PEHeader::decoded_from);
    let slots = pe.header.nt_header.optional_header.directories().slots;
    assert forall|e: DirectoryEntry| #[trigger] directory_of(pe.header@, e) is None by {
        assert(0 <= e.index() < 16);
        assert(slots@[e.index()] is None);
    }
    assert(directory_of(pe.header@, DirectoryEntry::Import) is None);
    assert(directory_of(pe.header@, DirectoryEntry::Export) is None);
}

} // verus!
