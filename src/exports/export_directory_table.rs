//! The export directory table: its fixed header only; the exports it lists
//! are not enumerated.
use crate::bytes::{fits, le_u16, le_u32, read_u16, read_u32};
use crate::datetime::{datetime_of, DateTime};
use crate::errors::{Fault, PEError};
use crate::headers::nt::DataDirectory;
use crate::headers::sections::{resolve_rva, SectionView, Sections};
use vstd::prelude::*;

verus! {

/// Bytes of the export directory table.
pub const EXPORT_DIRECTORY_SIZE: usize = 40;

/// How reading an export directory table at `p` fails, or `None`.
pub open spec fn export_directory_fault(b: Seq<u8>, p: int) -> Option<Fault> {
    if !fits(b, p, EXPORT_DIRECTORY_SIZE as int) {
        Some(Fault::Truncation)
    } else if datetime_of(le_u32(b, p + 4) as int) is None {
        Some(Fault::SemanticRejection)
    } else {
        None
    }
}

/// The export directory table at `p`, when it decodes.
pub open spec fn export_directory_at(b: Seq<u8>, p: int) -> ExportDirectoryTable {
    ExportDirectoryTable {
        characteristics: le_u32(b, p),
        datetime: datetime_of(le_u32(b, p + 4) as int)->0,
        major_version: le_u16(b, p + 8),
        minor_version: le_u16(b, p + 10),
        name: le_u32(b, p + 12),
        base: le_u32(b, p + 16),
        num_of_funcs: le_u32(b, p + 20),
        num_of_names: le_u32(b, p + 24),
        addr_of_funcs: le_u32(b, p + 28),
        addr_of_names: le_u32(b, p + 32),
        addr_of_name_ordi: le_u32(b, p + 36),
    }
}

/// The export table of the directory at address `rva`: `Ok(None)` when no
/// section holds the address.
#[verifier::opaque]
pub open spec fn export_table_at(b: Seq<u8>, s: Seq<SectionView>, rva: u32) -> Result<
    Option<ExportDirectoryTable>,
    Fault,
> {
    match resolve_rva(s, rva) {
        None => Ok(None),
        Some(off) => match export_directory_fault(b, off as int) {
            Some(f) => Err(f),
            None => Ok(Some(export_directory_at(b, off as int))),
        },
    }
}

#[derive(Debug, Clone, Copy, PartialEq, Eq, Structural)]
pub struct ExportDirectoryTable {
    pub characteristics: u32,
    pub datetime: DateTime,
    pub major_version: u16,
    pub minor_version: u16,
    /// Address of the DLL's name.
    pub name: u32,
    pub base: u32,
    /// Number of exported functions.
    pub num_of_funcs: u32,
    /// Number of functions exported by name.
    pub num_of_names: u32,
    /// Address of the export address table.
    pub addr_of_funcs: u32,
    /// Address of the export name table.
    pub addr_of_names: u32,
    /// Address of the export ordinal table.
    pub addr_of_name_ordi: u32,
}

impl ExportDirectoryTable {
    /// Reads the export directory table that `export_directory` points to;
    /// absent when no section holds its address.
    pub fn parse(pe_file: &[u8], export_directory: DataDirectory, sections: &Sections) -> (r:
        Result<Option<ExportDirectoryTable>, PEError>)
        ensures
            match export_table_at(pe_file@, sections@, export_directory.virtual_address) {
                Ok(t) => r == Ok::<Option<ExportDirectoryTable>, PEError>(t),
                Err(f) => r matches Err(e) && e.fault() == Some(f),
            },
    {
        proof {
            reveal(export_table_at);
        }
        let offset = match sections.rva_to_offset(export_directory.virtual_address) {
            Some(o) => o as usize,
            None => {
                return Ok(None);
            },
        };
        let (i, characteristics) = read_u32(pe_file, offset, "Characteristics")?;
        let (i, time_date_stamp) = read_u32(pe_file, i, "TimeDateStamp")?;
        let (i, major_version) = read_u16(pe_file, i, "MajorVersion")?;
        let (i, minor_version) = read_u16(pe_file, i, "MinorVersion")?;
        let (i, name) = read_u32(pe_file, i, "Name")?;
        let (i, base) = read_u32(pe_file, i, "Base")?;
        let (i, num_of_funcs) = read_u32(pe_file, i, "NumberOfFunctions")?;
        let (i, num_of_names) = read_u32(pe_file, i, "NumberOfNames")?;
        let (i, addr_of_funcs) = read_u32(pe_file, i, "AddressOfFunctions")?;
        let (i, addr_of_names) = read_u32(pe_file, i, "AddressOfNames")?;
        let (i, addr_of_name_ordi) = read_u32(pe_file, i, "AddressOfNameOrdinals")?;
        let datetime = match DateTime::from_timestamp(time_date_stamp) {
            Some(d) => d,
            None => {
                return Err(PEError::from_string(i, "wrong timestamp format".to_owned()));
            },
        };
        Ok(
            Some(
                ExportDirectoryTable {
                    characteristics,
                    datetime,
                    major_version,
                    minor_version,
                    name,
                    base,
                    num_of_funcs,
                    num_of_names,
                    addr_of_funcs,
                    addr_of_names,
                    addr_of_name_ordi,
                },
            ),
        )
    }
}

} // verus!
