//! The NT headers: PE signature, COFF file header, and the optional header
//! in its 32-bit or 64-bit layout, ending in the data directory table.
use crate::bytes::{
    fits, has_room, le_u16, le_u32, le_u64, read_u16, read_u32, read_u64, read_u8, tag,
};
use crate::datetime::{datetime_of, DateTime};
use crate::errors::{Fault, PEError};
use vstd::prelude::*;

verus! {

/// The four bytes `PE\0\0` stand at `p`.
pub open spec fn is_pe_signature(b: Seq<u8>, p: int) -> bool {
    b[p] == 0x50 && b[p + 1] == 0x45 && b[p + 2] == 0 && b[p + 3] == 0
}

/// Bytes of the COFF file header.
pub const FILE_HEADER_SIZE: usize = 20;

/// Position of the optional header's magic, from the start of the NT headers.
pub const MAGIC_OFFSET: usize = 24;

/// How reading the NT headers at `p` fails, or `None`: signature, file
/// header, optional-header magic, then the layout that the magic selects.
pub open spec fn nt_header_fault(b: Seq<u8>, p: int) -> Option<Fault> {
    if !fits(b, p, 4) {
        Some(Fault::Truncation)
    } else if !is_pe_signature(b, p) {
        Some(Fault::TagMismatch)
    } else if file_header_fault(b, p + 4) is Some {
        file_header_fault(b, p + 4)
    } else if magic_fault(b, p + MAGIC_OFFSET) is Some {
        magic_fault(b, p + MAGIC_OFFSET)
    } else {
        optional_header_fault(b, p + MAGIC_OFFSET + 2, nt_magic(b, p))
    }
}

/// The optional-header variant that the magic of the NT headers at `p` names.
pub open spec fn nt_magic(b: Seq<u8>, p: int) -> OptionalHeaderMagic {
    magic_of(le_u16(b, p + MAGIC_OFFSET))->0
}

#[derive(Debug, Clone, Copy)]
pub struct NTHeader {
    pub signature: [u8; 4],
    pub file_header: FileHeader,
    pub optional_header: OptionalHeader,
}

impl NTHeader {
    pub open spec fn decoded_from(self, b: Seq<u8>, p: int) -> bool {
        &&& self.signature@ == b.subrange(p, p + 4)
        &&& self.file_header.decoded_from(b, p + 4)
        &&& self.optional_header.decoded_from(b, p + MAGIC_OFFSET + 2, nt_magic(b, p))
    }

    /// The position after the data directory table of the NT headers at `p`.
    pub open spec fn end(b: Seq<u8>, p: int) -> int {
        OptionalHeader::end(b, p + MAGIC_OFFSET + 2, nt_magic(b, p))
    }

    /// Reads the NT headers at `pos`, the offset that the DOS header gives.
    pub fn parse(input: &[u8], pos: usize) -> (r: Result<(usize, NTHeader), PEError>)
        ensures
            match r {
                Ok((next, h)) => nt_header_fault(input@, pos as int) is None && next
                    == NTHeader::end(input@, pos as int) && h.decoded_from(input@, pos as int),
                Err(e) => nt_header_fault(input@, pos as int) is Some && e.fault()
                    == nt_header_fault(input@, pos as int),
            },
    {
        let expected: [u8; 4] = [0x50u8, 0x45u8, 0u8, 0u8];
        assert(expected@ =~= seq![0x50u8, 0x45u8, 0u8, 0u8]);
        let read = tag(input, pos, expected, "Signature");
        proof {
            if fits(input@, pos as int, 4) {
                let m = input@.subrange(pos as int, pos + 4);
                assert(m[0] == input@[pos as int] && m[1] == input@[pos + 1] && m[2] == input@[pos
                    + 2] && m[3] == input@[pos + 3]);
                assert(is_pe_signature(input@, pos as int) <==> m =~= expected@);
            }
        }
        let (i, signature) = read?;
        let (i, file_header) = match FileHeader::parse(input, i) {
            Ok(v) => v,
            Err(e) => {
                return Err(e.add_context(i, "FileHeader"));
            },
        };
        let (i, magic) = OptionalHeaderMagic::parse(input, i)?;
        let (i, optional_header) = match OptionalHeader::parse(input, i, magic) {
            Ok(v) => v,
            Err(e) => {
                return Err(e.add_context(i, "OptionalHeader"));
            },
        };
        Ok((i, NTHeader { signature, file_header, optional_header }))
    }
}

/// The magic selects the layout: `0x20B` the 64-bit one, whose image base
/// is read as eight bytes; `0x10B` the 32-bit one, with a four-byte image base.
pub proof fn lemma_magic_selects_layout(b: Seq<u8>, p: int, h: NTHeader)
    requires
        nt_header_fault(b, p) is None,
        h.decoded_from(b, p),
    ensures
        le_u16(b, p + MAGIC_OFFSET) == 0x20b ==> (h.optional_header matches OptionalHeader::Op64(
            o,
        ) && o.image_base == le_u64(b, p + MAGIC_OFFSET + 2 + 22)),
        le_u16(b, p + MAGIC_OFFSET) == 0x10b ==> (h.optional_header matches OptionalHeader::Op32(
            o,
        ) && o.image_base == le_u32(b, p + MAGIC_OFFSET + 2 + 26)),
{
}

/// The ROM magic `0x107` is rejected as unsupported, whatever follows it.
pub proof fn lemma_rom_magic_rejected(b: Seq<u8>, p: int)
    requires
        fits(b, p, 4),
        is_pe_signature(b, p),
        file_header_fault(b, p + 4) is None,
        fits(b, p + MAGIC_OFFSET, 2),
        le_u16(b, p + MAGIC_OFFSET) == 0x107,
    ensures
        nt_header_fault(b, p) == Some(Fault::SemanticRejection),
{
}

/// How reading a COFF file header at `p` fails, or `None`: the machine code
/// first, then the remaining fields, then the timestamp's calendar date.
pub open spec fn file_header_fault(b: Seq<u8>, p: int) -> Option<Fault> {
    if !fits(b, p, 2) {
        Some(Fault::Truncation)
    } else if machine_of(le_u16(b, p)) is None {
        Some(Fault::UnknownEnumeration)
    } else if !fits(b, p, FILE_HEADER_SIZE as int) {
        Some(Fault::Truncation)
    } else if datetime_of(le_u32(b, p + 4) as int) is None {
        Some(Fault::SemanticRejection)
    } else {
        None
    }
}

#[derive(Debug, Clone, Copy)]
pub struct FileHeader {
    pub machine: Machine,
    pub num_of_sections: u16,
    /// The creation time, from the 32-bit count of seconds since the Unix epoch.
    pub datetime: DateTime,
    pub ptr_to_sym_tbl: u32,
    pub num_of_syms: u32,
    pub size_of_optional_header: u16,
    pub characteristics: u16,
}

impl FileHeader {
    pub open spec fn decoded_from(self, b: Seq<u8>, p: int) -> bool {
        &&& machine_of(le_u16(b, p)) == Some(self.machine)
        &&& self.num_of_sections == le_u16(b, p + 2)
        &&& datetime_of(le_u32(b, p + 4) as int) == Some(self.datetime)
        &&& self.ptr_to_sym_tbl == le_u32(b, p + 8)
        &&& self.num_of_syms == le_u32(b, p + 12)
        &&& self.size_of_optional_header == le_u16(b, p + 16)
        &&& self.characteristics == le_u16(b, p + 18)
    }

    pub fn parse(input: &[u8], pos: usize) -> (r: Result<(usize, FileHeader), PEError>)
        ensures
            match r {
                Ok((next, h)) => file_header_fault(input@, pos as int) is None && next == pos
                    + FILE_HEADER_SIZE && h.decoded_from(input@, pos as int),
                Err(e) => file_header_fault(input@, pos as int) is Some && e.fault()
                    == file_header_fault(input@, pos as int),
            },
    {
        let (i, machine) = Machine::parse(input, pos)?;
        let (i, num_of_sections) = read_u16(input, i, "NumOfSections")?;
        let (i, timestamp) = read_u32(input, i, "Timestamp")?;
        let (i, ptr_to_sym_tbl) = read_u32(input, i, "PtrToSymbolTable")?;
        let (i, num_of_syms) = read_u32(input, i, "NumOfSymbols")?;
        let (i, size_of_optional_header) = read_u16(input, i, "SizeOfHeader")?;
        let (i, characteristics) = read_u16(input, i, "Characteristics")?;
        let datetime = match DateTime::from_timestamp(timestamp) {
            Some(d) => d,
            None => {
                return Err(PEError::from_string(i, "wrong timestamp format".to_owned()));
            },
        };
        Ok(
            (
                i,
                FileHeader {
                    machine,
                    num_of_sections,
                    datetime,
                    ptr_to_sym_tbl,
                    num_of_syms,
                    size_of_optional_header,
                    characteristics,
                },
            ),
        )
    }
}

/// The optional-header layout that a 16-bit magic selects.
#[derive(Debug, Clone, Copy, PartialEq, Eq, Structural)]
pub enum OptionalHeaderMagic {
    Pe32,
    Pe32Plus,
    Rom,
}

/// The layout with the magic `code`, if it is a known one.
pub open spec fn magic_of(code: u16) -> Option<OptionalHeaderMagic> {
    match code {
        0x10b => Some(OptionalHeaderMagic::Pe32),
        0x20b => Some(OptionalHeaderMagic::Pe32Plus),
        0x107 => Some(OptionalHeaderMagic::Rom),
        _ => None,
    }
}

/// How reading an optional-header magic at `p` fails, or `None`.
pub open spec fn magic_fault(b: Seq<u8>, p: int) -> Option<Fault> {
    if !fits(b, p, 2) {
        Some(Fault::Truncation)
    } else if magic_of(le_u16(b, p)) is None {
        Some(Fault::UnknownEnumeration)
    } else {
        None
    }
}

impl OptionalHeaderMagic {
    /// The layout with the magic `code`, or the code back when none has it.
    pub fn try_from(code: u16) -> (r: Result<OptionalHeaderMagic, u16>)
        ensures
            r == match magic_of(code) {
                Some(m) => Ok(m),
                None => Err(code),
            },
    {
        match code {
            0x10b => Ok(OptionalHeaderMagic::Pe32),
            0x20b => Ok(OptionalHeaderMagic::Pe32Plus),
            0x107 => Ok(OptionalHeaderMagic::Rom),
            _ => Err(code),
        }
    }

    pub fn value(&self) -> (r: u16)
        ensures
            magic_of(r) == Some(*self),
    {
        match self {
            OptionalHeaderMagic::Pe32 => 0x10b,
            OptionalHeaderMagic::Pe32Plus => 0x20b,
            OptionalHeaderMagic::Rom => 0x107,
        }
    }

    /// Reads the magic at `pos`; the variant is chosen before any field of it is read.
    pub fn parse(input: &[u8], pos: usize) -> (r: Result<(usize, OptionalHeaderMagic), PEError>)
        ensures
            match r {
                Ok((next, m)) => magic_fault(input@, pos as int) is None && next == pos + 2
                    && magic_of(le_u16(input@, pos as int)) == Some(m),
                Err(e) => magic_fault(input@, pos as int) is Some && e.fault() == magic_fault(
                    input@,
                    pos as int,
                ),
            },
    {
        let (i, code) = read_u16(input, pos, "Magic")?;
        match OptionalHeaderMagic::try_from(code) {
            Ok(m) => Ok((i, m)),
            Err(_) => Err(PEError::new(pos, Fault::UnknownEnumeration).add_context(pos, "Magic")),
        }
    }
}

/// How reading the optional-header body of layout `magic` at `q` fails, or `None`.
pub open spec fn optional_header_fault(b: Seq<u8>, q: int, magic: OptionalHeaderMagic) -> Option<
    Fault,
> {
    match magic {
        OptionalHeaderMagic::Pe32 => optional_header32_fault(b, q),
        OptionalHeaderMagic::Pe32Plus => optional_header64_fault(b, q),
        OptionalHeaderMagic::Rom => Some(Fault::SemanticRejection),
    }
}

/// The optional header in one of its two supported layouts.
#[derive(Debug, Clone, Copy)]
pub enum OptionalHeader {
    Op32(OptionalHeader32),
    Op64(OptionalHeader64),
}

impl OptionalHeader {
    pub open spec fn decoded_from(self, b: Seq<u8>, q: int, magic: OptionalHeaderMagic) -> bool {
        match magic {
            OptionalHeaderMagic::Pe32 => self matches OptionalHeader::Op32(h) && h.decoded_from(
                b,
                q,
            ),
            OptionalHeaderMagic::Pe32Plus => self matches OptionalHeader::Op64(h)
                && h.decoded_from(b, q),
            OptionalHeaderMagic::Rom => false,
        }
    }

    /// The position after the directory table of a body of layout `magic` at `q`.
    pub open spec fn end(b: Seq<u8>, q: int, magic: OptionalHeaderMagic) -> int {
        match magic {
            OptionalHeaderMagic::Pe32Plus => OptionalHeader64::end(b, q),
            _ => OptionalHeader32::end(b, q),
        }
    }

    /// The data directory table of either layout.
    pub open spec fn directories(self) -> DataDirectories {
        match self {
            OptionalHeader::Op32(h) => h.data_directories,
            OptionalHeader::Op64(h) => h.data_directories,
        }
    }

    /// Reads the body of layout `magic` at `pos`; ROM images are rejected.
    pub fn parse(input: &[u8], pos: usize, magic: OptionalHeaderMagic) -> (r: Result<
        (usize, OptionalHeader),
        PEError,
    >)
        ensures
            match r {
                Ok((next, h)) => optional_header_fault(input@, pos as int, magic) is None && next
                    == OptionalHeader::end(input@, pos as int, magic) && h.decoded_from(
                    input@,
                    pos as int,
                    magic,
                ),
                Err(e) => optional_header_fault(input@, pos as int, magic) is Some && e.fault()
                    == optional_header_fault(input@, pos as int, magic),
            },
    {
        match magic {
            OptionalHeaderMagic::Pe32 => {
                let (i, h) = OptionalHeader32::parse(input, pos)?;
                Ok((i, OptionalHeader::Op32(h)))
            },
            OptionalHeaderMagic::Pe32Plus => {
                let (i, h) = OptionalHeader64::parse(input, pos)?;
                Ok((i, OptionalHeader::Op64(h)))
            },
            OptionalHeaderMagic::Rom => Err(
                PEError::from_string(pos, "ROM Images are not supported".to_owned()),
            ),
        }
    }

    /// The directory of kind `entry`, absent beyond the declared count.
    pub fn find_directory_by_entry(&self, entry: DirectoryEntry) -> (r: Option<DataDirectory>)
        ensures
            r == self.directories().slots@[entry.index()],
    {
        match self {
            OptionalHeader::Op32(h) => h.data_directories.find_by_entry(entry),
            OptionalHeader::Op64(h) => h.data_directories.find_by_entry(entry),
        }
    }
}

/// Target architecture of the image, by its documented machine-type code.
#[derive(Debug, Clone, Copy, PartialEq, Eq, Structural)]
pub enum Machine {
    Unknown,
    Alpha,
    Alpha64,
    Am33,
    Amd64,
    Arm,
    Arm64,
    Armnt,
    Ebc,
    I386,
    Ia64,
    LoongArch32,
    LoongArch64,
    M32R,
    Mips16,
    MipsFpu,
    MipsFpu16,
    PowerPc,
    PowerPcfp,
    R4000,
    RiscV32,
    RiscV64,
    RiscV128,
    Sh3,
    Sh3DSP,
    Sh4,
    Sh5,
    Thumb,
    WceMipsV2,
}

/// The machine type with the code `code`, if it is a documented one.
pub open spec fn machine_of(code: u16) -> Option<Machine> {
    match code {
        0x0 => Some(Machine::Unknown),
        0x184 => Some(Machine::Alpha),
        0x284 => Some(Machine::Alpha64),
        0x1d3 => Some(Machine::Am33),
        0x8664 => Some(Machine::Amd64),
        0x1c0 => Some(Machine::Arm),
        0xaa64 => Some(Machine::Arm64),
        0x1c4 => Some(Machine::Armnt),
        0xebc => Some(Machine::Ebc),
        0x14c => Some(Machine::I386),
        0x200 => Some(Machine::Ia64),
        0x6232 => Some(Machine::LoongArch32),
        0x6264 => Some(Machine::LoongArch64),
        0x9041 => Some(Machine::M32R),
        0x266 => Some(Machine::Mips16),
        0x366 => Some(Machine::MipsFpu),
        0x466 => Some(Machine::MipsFpu16),
        0x1f0 => Some(Machine::PowerPc),
        0x1f1 => Some(Machine::PowerPcfp),
        0x166 => Some(Machine::R4000),
        0x5032 => Some(Machine::RiscV32),
        0x5064 => Some(Machine::RiscV64),
        0x5128 => Some(Machine::RiscV128),
        0x1a2 => Some(Machine::Sh3),
        0x1a3 => Some(Machine::Sh3DSP),
        0x1a6 => Some(Machine::Sh4),
        0x1a8 => Some(Machine::Sh5),
        0x1c2 => Some(Machine::Thumb),
        0x169 => Some(Machine::WceMipsV2),
        _ => None,
    }
}

impl Machine {
    /// The machine type with the code `code`, or the code back when none has it.
    pub fn try_from(code: u16) -> (r: Result<Machine, u16>)
        ensures
            r == match machine_of(code) {
                Some(m) => Ok(m),
                None => Err(code),
            },
    {
        match code {
            0x0 => Ok(Machine::Unknown),
            0x184 => Ok(Machine::Alpha),
            0x284 => Ok(Machine::Alpha64),
            0x1d3 => Ok(Machine::Am33),
            0x8664 => Ok(Machine::Amd64),
            0x1c0 => Ok(Machine::Arm),
            0xaa64 => Ok(Machine::Arm64),
            0x1c4 => Ok(Machine::Armnt),
            0xebc => Ok(Machine::Ebc),
            0x14c => Ok(Machine::I386),
            0x200 => Ok(Machine::Ia64),
            0x6232 => Ok(Machine::LoongArch32),
            0x6264 => Ok(Machine::LoongArch64),
            0x9041 => Ok(Machine::M32R),
            0x266 => Ok(Machine::Mips16),
            0x366 => Ok(Machine::MipsFpu),
            0x466 => Ok(Machine::MipsFpu16),
            0x1f0 => Ok(Machine::PowerPc),
            0x1f1 => Ok(Machine::PowerPcfp),
            0x166 => Ok(Machine::R4000),
            0x5032 => Ok(Machine::RiscV32),
            0x5064 => Ok(Machine::RiscV64),
            0x5128 => Ok(Machine::RiscV128),
            0x1a2 => Ok(Machine::Sh3),
            0x1a3 => Ok(Machine::Sh3DSP),
            0x1a6 => Ok(Machine::Sh4),
            0x1a8 => Ok(Machine::Sh5),
            0x1c2 => Ok(Machine::Thumb),
            0x169 => Ok(Machine::WceMipsV2),
            _ => Err(code),
        }
    }

    /// The documented code of this machine type.
    pub fn value(&self) -> (r: u16)
        ensures
            machine_of(r) == Some(*self),
    {
        match self {
            Machine::Unknown => 0x0,
            Machine::Alpha => 0x184,
            Machine::Alpha64 => 0x284,
            Machine::Am33 => 0x1d3,
            Machine::Amd64 => 0x8664,
            Machine::Arm => 0x1c0,
            Machine::Arm64 => 0xaa64,
            Machine::Armnt => 0x1c4,
            Machine::Ebc => 0xebc,
            Machine::I386 => 0x14c,
            Machine::Ia64 => 0x200,
            Machine::LoongArch32 => 0x6232,
            Machine::LoongArch64 => 0x6264,
            Machine::M32R => 0x9041,
            Machine::Mips16 => 0x266,
            Machine::MipsFpu => 0x366,
            Machine::MipsFpu16 => 0x466,
            Machine::PowerPc => 0x1f0,
            Machine::PowerPcfp => 0x1f1,
            Machine::R4000 => 0x166,
            Machine::RiscV32 => 0x5032,
            Machine::RiscV64 => 0x5064,
            Machine::RiscV128 => 0x5128,
            Machine::Sh3 => 0x1a2,
            Machine::Sh3DSP => 0x1a3,
            Machine::Sh4 => 0x1a6,
            Machine::Sh5 => 0x1a8,
            Machine::Thumb => 0x1c2,
            Machine::WceMipsV2 => 0x169,
        }
    }

    /// Reads a machine code at `pos`; an undocumented code is an error.
    pub fn parse(input: &[u8], pos: usize) -> (r: Result<(usize, Machine), PEError>)
        ensures
            match r {
                Ok((next, m)) => fits(input@, pos as int, 2) && next == pos + 2 && machine_of(
                    le_u16(input@, pos as int),
                ) == Some(m),
                Err(e) => if !fits(input@, pos as int, 2) {
                    e.fault() == Some(Fault::Truncation)
                } else {
                    machine_of(le_u16(input@, pos as int)) is None && e.fault() == Some(
                        Fault::UnknownEnumeration,
                    )
                },
            },
    {
        let (i, code) = read_u16(input, pos, "Machine")?;
        match Machine::try_from(code) {
            Ok(m) => Ok((i, m)),
            Err(_) => Err(PEError::new(pos, Fault::UnknownEnumeration).add_context(pos, "Machine")),
        }
    }
}

#[derive(Debug, Clone, Copy)]
pub struct OptionalHeader32 {
    pub magic: OptionalHeaderMagic,
    pub major_linker_version: u8,
    pub minor_linker_version: u8,
    /// Size of the code (.text) section.
    pub size_of_code: u32,
    /// Size of the initialized data (.data) section.
    pub size_of_initialized_code: u32,
    /// Size of the uninitialized data (.bss) section.
    pub size_of_uninitialized_code: u32,
    pub address_of_entry_point: u32,
    pub base_of_code: u32,
    pub base_of_data: u32,
    pub image_base: u32,
    pub section_of_alignment: u32,
    pub file_alignment: u32,
    pub major_operating_system_version: u16,
    pub minor_operating_system_version: u16,
    pub major_image_version: u16,
    pub minor_image_version: u16,
    pub major_sub_system_version: u16,
    pub minor_sub_system_version: u16,
    pub win32_version_value: u32,
    pub size_of_image: u32,
    pub size_of_headers: u32,
    pub check_sum: u32,
    pub sub_system: u16,
    pub dll_characteristics: u16,
    pub size_of_stack_reserve: u32,
    pub size_of_stack_commit: u32,
    pub size_of_heap_reserve: u32,
    pub size_of_heap_commit: u32,
    pub loader_flags: u32,
    pub number_of_rva_and_sizes: u32,
    pub data_directories: DataDirectories,
}

/// Bytes of the 32-bit optional header after its magic, up to the directory table.
pub const OPTIONAL_HEADER32_FIXED_SIZE: usize = 94;

/// How reading the body of a 32-bit optional header at `q` fails, or `None`.
pub open spec fn optional_header32_fault(b: Seq<u8>, q: int) -> Option<Fault> {
    if !fits(b, q, OPTIONAL_HEADER32_FIXED_SIZE as int) {
        Some(Fault::Truncation)
    } else {
        directories_fault(b, q + OPTIONAL_HEADER32_FIXED_SIZE, le_u32(b, q + 90) as int)
    }
}

impl OptionalHeader32 {
    /// Each field holds what the 32-bit layout puts at its offset from `q`,
    /// the position after the magic.
    pub open spec fn decoded_from(self, b: Seq<u8>, q: int) -> bool {
        &&& self.magic == OptionalHeaderMagic::Pe32
        &&& self.major_linker_version == b[q]
        &&& self.minor_linker_version == b[q + 1]
        &&& self.size_of_code == le_u32(b, q + 2)
        &&& self.size_of_initialized_code == le_u32(b, q + 6)
        &&& self.size_of_uninitialized_code == le_u32(b, q + 10)
        &&& self.address_of_entry_point == le_u32(b, q + 14)
        &&& self.base_of_code == le_u32(b, q + 18)
        &&& self.base_of_data == le_u32(b, q + 22)
        &&& self.image_base == le_u32(b, q + 26)
        &&& self.section_of_alignment == le_u32(b, q + 30)
        &&& self.file_alignment == le_u32(b, q + 34)
        &&& self.major_operating_system_version == le_u16(b, q + 38)
        &&& self.minor_operating_system_version == le_u16(b, q + 40)
        &&& self.major_image_version == le_u16(b, q + 42)
        &&& self.minor_image_version == le_u16(b, q + 44)
        &&& self.major_sub_system_version == le_u16(b, q + 46)
        &&& self.minor_sub_system_version == le_u16(b, q + 48)
        &&& self.win32_version_value == le_u32(b, q + 50)
        &&& self.size_of_image == le_u32(b, q + 54)
        &&& self.size_of_headers == le_u32(b, q + 58)
        &&& self.check_sum == le_u32(b, q + 62)
        &&& self.sub_system == le_u16(b, q + 66)
        &&& self.dll_characteristics == le_u16(b, q + 68)
        &&& self.size_of_stack_reserve == le_u32(b, q + 70)
        &&& self.size_of_stack_commit == le_u32(b, q + 74)
        &&& self.size_of_heap_reserve == le_u32(b, q + 78)
        &&& self.size_of_heap_commit == le_u32(b, q + 82)
        &&& self.loader_flags == le_u32(b, q + 86)
        &&& self.number_of_rva_and_sizes == le_u32(b, q + 90)
        &&& self.data_directories.decoded_from(
            b,
            q + OPTIONAL_HEADER32_FIXED_SIZE,
            self.number_of_rva_and_sizes as int,
        )
    }

    /// The position after the directory table of a header read at `q`.
    pub open spec fn end(b: Seq<u8>, q: int) -> int {
        q + OPTIONAL_HEADER32_FIXED_SIZE + 8 * le_u32(b, q + 90)
    }

    /// Reads the 32-bit layout at `pos`, just after the magic.
    pub fn parse(input: &[u8], pos: usize) -> (r: Result<(usize, OptionalHeader32), PEError>)
        ensures
            match r {
                Ok((next, h)) => optional_header32_fault(input@, pos as int) is None
                    && next == OptionalHeader32::end(input@, pos as int)
                    && h.decoded_from(input@, pos as int),
                Err(e) => optional_header32_fault(input@, pos as int) is Some
                    && e.fault() == optional_header32_fault(input@, pos as int),
            },
    {
        let (i, major_linker_version) = read_u8(input, pos, "MajorLinkerVersion")?;
        let (i, minor_linker_version) = read_u8(input, i, "MinorLinkerVersion")?;
        let (i, size_of_code) = read_u32(input, i, "SizeOfCode")?;
        let (i, size_of_initialized_code) = read_u32(input, i, "SizeOfInitializedCode")?;
        let (i, size_of_uninitialized_code) = read_u32(input, i, "SizeOfUninitializedCode")?;
        let (i, address_of_entry_point) = read_u32(input, i, "AddressOfEntryPoint")?;
        let (i, base_of_code) = read_u32(input, i, "BaseOfCode")?;
        let (i, base_of_data) = read_u32(input, i, "BaseOfData")?;
        let (i, image_base) = read_u32(input, i, "ImageBase")?;
        let (i, section_of_alignment) = read_u32(input, i, "SectionOfAlignment")?;
        let (i, file_alignment) = read_u32(input, i, "FileAlignment")?;
        let (i, major_operating_system_version) = read_u16(
            input,
            i,
            "MajorOperatingSystemVersion",
        )?;
        let (i, minor_operating_system_version) = read_u16(
            input,
            i,
            "MinorOperatingSystemVersion",
        )?;
        let (i, major_image_version) = read_u16(input, i, "MajorImageVersion")?;
        let (i, minor_image_version) = read_u16(input, i, "MinorImageVersion")?;
        let (i, major_sub_system_version) = read_u16(input, i, "MajorSubSystemVersion")?;
        let (i, minor_sub_system_version) = read_u16(input, i, "MinorSubSystemVersion")?;
        let (i, win32_version_value) = read_u32(input, i, "Win32VersionValue")?;
        let (i, size_of_image) = read_u32(input, i, "SizeOfImage")?;
        let (i, size_of_headers) = read_u32(input, i, "SizeOfHeaders")?;
        let (i, check_sum) = read_u32(input, i, "CheckSum")?;
        let (i, sub_system) = read_u16(input, i, "Subsystem")?;
        let (i, dll_characteristics) = read_u16(input, i, "DllCharacteristics")?;
        let (i, size_of_stack_reserve) = read_u32(input, i, "SizeOfStackReserve")?;
        let (i, size_of_stack_commit) = read_u32(input, i, "SizeOfStackCommit")?;
        let (i, size_of_heap_reserve) = read_u32(input, i, "SizeOfHeapReserve")?;
        let (i, size_of_heap_commit) = read_u32(input, i, "SizeOfHeapCommit")?;
        let (i, loader_flags) = read_u32(input, i, "LoaderFlags")?;
        let (i, number_of_rva_and_sizes) = read_u32(input, i, "NumberOfRvaAndSizes")?;
        let (i, data_directories) = DataDirectories::parse(input, i, number_of_rva_and_sizes)?;
        let header = OptionalHeader32 {
            magic: OptionalHeaderMagic::Pe32,
            major_linker_version,
            minor_linker_version,
            size_of_code,
            size_of_initialized_code,
            size_of_uninitialized_code,
            address_of_entry_point,
            base_of_code,
            base_of_data,
            image_base,
            section_of_alignment,
            file_alignment,
            major_operating_system_version,
            minor_operating_system_version,
            major_image_version,
            minor_image_version,
            major_sub_system_version,
            minor_sub_system_version,
            win32_version_value,
            size_of_image,
            size_of_headers,
            check_sum,
            sub_system,
            dll_characteristics,
            size_of_stack_reserve,
            size_of_stack_commit,
            size_of_heap_reserve,
            size_of_heap_commit,
            loader_flags,
            number_of_rva_and_sizes,
            data_directories,
        };
        Ok((i, header))
    }
}

#[derive(Debug, Clone, Copy)]
pub struct OptionalHeader64 {
    pub magic: OptionalHeaderMagic,
    pub major_linker_version: u8,
    pub minor_linker_version: u8,
    /// Size of the code (.text) section.
    pub size_of_code: u32,
    /// Size of the initialized data (.data) section.
    pub size_of_initialized_code: u32,
    /// Size of the uninitialized data (.bss) section.
    pub size_of_uninitialized_code: u32,
    pub address_of_entry_point: u32,
    pub base_of_code: u32,
    pub image_base: u64,
    pub section_of_alignment: u32,
    pub file_alignment: u32,
    pub major_operating_system_version: u16,
    pub minor_operating_system_version: u16,
    pub major_image_version: u16,
    pub minor_image_version: u16,
    pub major_sub_system_version: u16,
    pub minor_sub_system_version: u16,
    pub win32_version_value: u32,
    pub size_of_image: u32,
    pub size_of_headers: u32,
    pub check_sum: u32,
    pub sub_system: u16,
    pub dll_characteristics: u16,
    pub size_of_stack_reserve: u64,
    pub size_of_stack_commit: u64,
    pub size_of_heap_reserve: u64,
    pub size_of_heap_commit: u64,
    pub loader_flags: u32,
    pub number_of_rva_and_sizes: u32,
    pub data_directories: DataDirectories,
}

/// Bytes of the 64-bit optional header after its magic, up to the directory table.
pub const OPTIONAL_HEADER64_FIXED_SIZE: usize = 110;

/// How reading the body of a 64-bit optional header at `q` fails, or `None`.
pub open spec fn optional_header64_fault(b: Seq<u8>, q: int) -> Option<Fault> {
    if !fits(b, q, OPTIONAL_HEADER64_FIXED_SIZE as int) {
        Some(Fault::Truncation)
    } else {
        directories_fault(b, q + OPTIONAL_HEADER64_FIXED_SIZE, le_u32(b, q + 106) as int)
    }
}

impl OptionalHeader64 {
    /// Each field holds what the 64-bit layout puts at its offset from `q`,
    /// the position after the magic.
    pub open spec fn decoded_from(self, b: Seq<u8>, q: int) -> bool {
        &&& self.magic == OptionalHeaderMagic::Pe32Plus
        &&& self.major_linker_version == b[q]
        &&& self.minor_linker_version == b[q + 1]
        &&& self.size_of_code == le_u32(b, q + 2)
        &&& self.size_of_initialized_code == le_u32(b, q + 6)
        &&& self.size_of_uninitialized_code == le_u32(b, q + 10)
        &&& self.address_of_entry_point == le_u32(b, q + 14)
        &&& self.base_of_code == le_u32(b, q + 18)
        &&& self.image_base == le_u64(b, q + 22)
        &&& self.section_of_alignment == le_u32(b, q + 30)
        &&& self.file_alignment == le_u32(b, q + 34)
        &&& self.major_operating_system_version == le_u16(b, q + 38)
        &&& self.minor_operating_system_version == le_u16(b, q + 40)
        &&& self.major_image_version == le_u16(b, q + 42)
        &&& self.minor_image_version == le_u16(b, q + 44)
        &&& self.major_sub_system_version == le_u16(b, q + 46)
        &&& self.minor_sub_system_version == le_u16(b, q + 48)
        &&& self.win32_version_value == le_u32(b, q + 50)
        &&& self.size_of_image == le_u32(b, q + 54)
        &&& self.size_of_headers == le_u32(b, q + 58)
        &&& self.check_sum == le_u32(b, q + 62)
        &&& self.sub_system == le_u16(b, q + 66)
        &&& self.dll_characteristics == le_u16(b, q + 68)
        &&& self.size_of_stack_reserve == le_u64(b, q + 70)
        &&& self.size_of_stack_commit == le_u64(b, q + 78)
        &&& self.size_of_heap_reserve == le_u64(b, q + 86)
        &&& self.size_of_heap_commit == le_u64(b, q + 94)
        &&& self.loader_flags == le_u32(b, q + 102)
        &&& self.number_of_rva_and_sizes == le_u32(b, q + 106)
        &&& self.data_directories.decoded_from(
            b,
            q + OPTIONAL_HEADER64_FIXED_SIZE,
            self.number_of_rva_and_sizes as int,
        )
    }

    /// The position after the directory table of a header read at `q`.
    pub open spec fn end(b: Seq<u8>, q: int) -> int {
        q + OPTIONAL_HEADER64_FIXED_SIZE + 8 * le_u32(b, q + 106)
    }

    /// Reads the 64-bit layout at `pos`, just after the magic.
    pub fn parse(input: &[u8], pos: usize) -> (r: Result<(usize, OptionalHeader64), PEError>)
        ensures
            match r {
                Ok((next, h)) => optional_header64_fault(input@, pos as int) is None
                    && next == OptionalHeader64::end(input@, pos as int)
                    && h.decoded_from(input@, pos as int),
                Err(e) => optional_header64_fault(input@, pos as int) is Some
                    && e.fault() == optional_header64_fault(input@, pos as int),
            },
    {
        let (i, major_linker_version) = read_u8(input, pos, "MajorLinkerVersion")?;
        let (i, minor_linker_version) = read_u8(input, i, "MinorLinkerVersion")?;
        let (i, size_of_code) = read_u32(input, i, "SizeOfCode")?;
        let (i, size_of_initialized_code) = read_u32(input, i, "SizeOfInitializedCode")?;
        let (i, size_of_uninitialized_code) = read_u32(input, i, "SizeOfUninitializedCode")?;
        let (i, address_of_entry_point) = read_u32(input, i, "AddressOfEntryPoint")?;
        let (i, base_of_code) = read_u32(input, i, "BaseOfCode")?;
        let (i, image_base) = read_u64(input, i, "ImageBase")?;
        let (i, section_of_alignment) = read_u32(input, i, "SectionOfAlignment")?;
        let (i, file_alignment) = read_u32(input, i, "FileAlignment")?;
        let (i, major_operating_system_version) = read_u16(
            input,
            i,
            "MajorOperatingSystemVersion",
        )?;
        let (i, minor_operating_system_version) = read_u16(
            input,
            i,
            "MinorOperatingSystemVersion",
        )?;
        let (i, major_image_version) = read_u16(input, i, "MajorImageVersion")?;
        let (i, minor_image_version) = read_u16(input, i, "MinorImageVersion")?;
        let (i, major_sub_system_version) = read_u16(input, i, "MajorSubSystemVersion")?;
        let (i, minor_sub_system_version) = read_u16(input, i, "MinorSubSystemVersion")?;
        let (i, win32_version_value) = read_u32(input, i, "Win32VersionValue")?;
        let (i, size_of_image) = read_u32(input, i, "SizeOfImage")?;
        let (i, size_of_headers) = read_u32(input, i, "SizeOfHeaders")?;
        let (i, check_sum) = read_u32(input, i, "CheckSum")?;
        let (i, sub_system) = read_u16(input, i, "Subsystem")?;
        let (i, dll_characteristics) = read_u16(input, i, "DllCharacteristics")?;
        let (i, size_of_stack_reserve) = read_u64(input, i, "SizeOfStackReserve")?;
        let (i, size_of_stack_commit) = read_u64(input, i, "SizeOfStackCommit")?;
        let (i, size_of_heap_reserve) = read_u64(input, i, "SizeOfHeapReserve")?;
        let (i, size_of_heap_commit) = read_u64(input, i, "SizeOfHeapCommit")?;
        let (i, loader_flags) = read_u32(input, i, "LoaderFlags")?;
        let (i, number_of_rva_and_sizes) = read_u32(input, i, "NumberOfRvaAndSizes")?;
        let (i, data_directories) = DataDirectories::parse(input, i, number_of_rva_and_sizes)?;
        let header = OptionalHeader64 {
            magic: OptionalHeaderMagic::Pe32Plus,
            major_linker_version,
            minor_linker_version,
            size_of_code,
            size_of_initialized_code,
            size_of_uninitialized_code,
            address_of_entry_point,
            base_of_code,
            image_base,
            section_of_alignment,
            file_alignment,
            major_operating_system_version,
            minor_operating_system_version,
            major_image_version,
            minor_image_version,
            major_sub_system_version,
            minor_sub_system_version,
            win32_version_value,
            size_of_image,
            size_of_headers,
            check_sum,
            sub_system,
            dll_characteristics,
            size_of_stack_reserve,
            size_of_stack_commit,
            size_of_heap_reserve,
            size_of_heap_commit,
            loader_flags,
            number_of_rva_and_sizes,
            data_directories,
        };
        Ok((i, header))
    }
}

/// The number of directory kinds, and so of slots in a directory table.
pub const DIRECTORY_KINDS: usize = 16;

/// How reading a table of `count` directories at `p` fails, or `None`. The
/// count is checked against the bytes left before anything is read.
pub open spec fn directories_fault(b: Seq<u8>, p: int, count: int) -> Option<Fault> {
    if !fits(b, p, 8 * count) {
        Some(Fault::SemanticRejection)
    } else if count > DIRECTORY_KINDS {
        Some(Fault::UnknownEnumeration)
    } else {
        None
    }
}

/// The directory in slot `k` of a table that starts at `p`.
pub open spec fn directory_at(b: Seq<u8>, p: int, k: int) -> DataDirectory {
    DataDirectory {
        entry: entry_of(k)->0,
        virtual_address: le_u32(b, p + 8 * k),
        size: le_u32(b, p + 8 * k + 4),
    }
}

/// The data directory table: one slot per directory kind, filled for the
/// first `count` kinds, where `count` is what the optional header declares.
#[derive(Debug, Clone, Copy)]
pub struct DataDirectories {
    pub slots: [Option<DataDirectory>; 16],
    pub count: usize,
}

impl DataDirectories {
    pub open spec fn decoded_from(self, b: Seq<u8>, p: int, count: int) -> bool {
        &&& self.count == count
        &&& forall|k: int|
            0 <= k < DIRECTORY_KINDS ==> #[trigger] self.slots@[k] == if k < count {
                Some(directory_at(b, p, k))
            } else {
                None
            }
    }

    /// Reads `count` directories at `pos`, slot by slot.
    pub fn parse(input: &[u8], pos: usize, count: u32) -> (r: Result<
        (usize, DataDirectories),
        PEError,
    >)
        ensures
            match r {
                Ok((next, d)) => directories_fault(input@, pos as int, count as int) is None && next
                    == pos + 8 * count && d.decoded_from(input@, pos as int, count as int),
                Err(e) => directories_fault(input@, pos as int, count as int) is Some && e.fault()
                    == directories_fault(input@, pos as int, count as int),
            },
    {
        let room = has_room(input, pos, 0);
        if !room || (count as u64) * 8 > (input.len() - pos) as u64 {
            return Err(
                PEError::from_string(pos, "directory count exceeds the remaining input".to_owned()),
            );
        }
        let n = count as usize;
        let mut slots: [Option<DataDirectory>; 16] = [None; 16];
        let mut i: usize = 0;
        let mut p: usize = pos;
        while i < n
            invariant
                i <= n,
                n == count,
                i <= DIRECTORY_KINDS,
                p == pos + 8 * i,
                fits(input@, pos as int, 8 * n),
                forall|k: int|
                    0 <= k < DIRECTORY_KINDS ==> #[trigger] slots@[k] == if k < i {
                        Some(directory_at(input@, pos as int, k))
                    } else {
                        None
                    },
            decreases n - i,
        {
            let entry = match DirectoryEntry::try_from(i) {
                Ok(e) => e,
                Err(_) => {
                    return Err(
                        PEError::new(p, Fault::UnknownEnumeration).add_context(p, "DataDirectory"),
                    );
                },
            };
            let (q, directory) = DataDirectory::parse(entry, input, p)?;
            slots[i] = Some(directory);
            p = q;
            i = i + 1;
        }
        Ok((p, DataDirectories { slots, count: n }))
    }

    /// The number of directories that the header declared.
    pub fn len(&self) -> (r: usize)
        ensures
            r == self.count,
    {
        self.count
    }

    /// The directory of kind `entry`, absent beyond the declared count.
    pub fn find_by_entry(&self, entry: DirectoryEntry) -> (r: Option<DataDirectory>)
        ensures
            r == self.slots@[entry.index()],
    {
        self.slots[entry.value()]
    }
}

/// One directory: its kind, and where and how large its data is.
#[derive(Debug, Clone, Copy, PartialEq, Eq, Structural)]
pub struct DataDirectory {
    pub entry: DirectoryEntry,
    pub virtual_address: u32,
    pub size: u32,
}

impl DataDirectory {
    /// Reads the address and size of a directory of kind `entry` at `pos`.
    pub fn parse(entry: DirectoryEntry, input: &[u8], pos: usize) -> (r: Result<
        (usize, DataDirectory),
        PEError,
    >)
        ensures
            match r {
                Ok((next, d)) => fits(input@, pos as int, 8) && next == pos + 8 && d
                    == DataDirectory {
                    entry,
                    virtual_address: le_u32(input@, pos as int),
                    size: le_u32(input@, pos + 4),
                },
                Err(e) => !fits(input@, pos as int, 8) && e.fault() == Some(Fault::Truncation),
            },
    {
        let (i, virtual_address) = read_u32(input, pos, "VirtualAddress")?;
        let (i, size) = read_u32(input, i, "Size")?;
        Ok((i, DataDirectory { entry, virtual_address, size }))
    }
}

/// The kinds of data directory, in the order of their slots in the table.
#[derive(Debug, Clone, Copy, PartialEq, Eq, Structural)]
pub enum DirectoryEntry {
    Export,
    Import,
    Resource,
    Exception,
    Certificate,
    BaseRelocation,
    Debug,
    Architecture,
    Globalptr,
    Tls,
    LoadConfig,
    BoundImport,
    ImportAddressTable,
    DelayImport,
    ClrRuntime,
    Reserved,
}

/// The directory kind of slot `i`, if there is such a slot.
pub open spec fn entry_of(i: int) -> Option<DirectoryEntry> {
    if i == 0 {
        Some(DirectoryEntry::Export)
    } else if i == 1 {
        Some(DirectoryEntry::Import)
    } else if i == 2 {
        Some(DirectoryEntry::Resource)
    } else if i == 3 {
        Some(DirectoryEntry::Exception)
    } else if i == 4 {
        Some(DirectoryEntry::Certificate)
    } else if i == 5 {
        Some(DirectoryEntry::BaseRelocation)
    } else if i == 6 {
        Some(DirectoryEntry::Debug)
    } else if i == 7 {
        Some(DirectoryEntry::Architecture)
    } else if i == 8 {
        Some(DirectoryEntry::Globalptr)
    } else if i == 9 {
        Some(DirectoryEntry::Tls)
    } else if i == 10 {
        Some(DirectoryEntry::LoadConfig)
    } else if i == 11 {
        Some(DirectoryEntry::BoundImport)
    } else if i == 12 {
        Some(DirectoryEntry::ImportAddressTable)
    } else if i == 13 {
        Some(DirectoryEntry::DelayImport)
    } else if i == 14 {
        Some(DirectoryEntry::ClrRuntime)
    } else if i == 15 {
        Some(DirectoryEntry::Reserved)
    } else {
        None
    }
}

impl DirectoryEntry {
    /// The slot of this kind in the directory table.
    pub open spec fn index(self) -> int {
        match self {
            DirectoryEntry::Export => 0,
            DirectoryEntry::Import => 1,
            DirectoryEntry::Resource => 2,
            DirectoryEntry::Exception => 3,
            DirectoryEntry::Certificate => 4,
            DirectoryEntry::BaseRelocation => 5,
            DirectoryEntry::Debug => 6,
            DirectoryEntry::Architecture => 7,
            DirectoryEntry::Globalptr => 8,
            DirectoryEntry::Tls => 9,
            DirectoryEntry::LoadConfig => 10,
            DirectoryEntry::BoundImport => 11,
            DirectoryEntry::ImportAddressTable => 12,
            DirectoryEntry::DelayImport => 13,
            DirectoryEntry::ClrRuntime => 14,
            DirectoryEntry::Reserved => 15,
        }
    }

    /// The kind of slot `i`, or `i` back when there is no such slot.
    pub fn try_from(i: usize) -> (r: Result<DirectoryEntry, usize>)
        ensures
            r == match entry_of(i as int) {
                Some(e) => Ok(e),
                None => Err(i),
            },
    {
        match i {
            0 => Ok(DirectoryEntry::Export),
            1 => Ok(DirectoryEntry::Import),
            2 => Ok(DirectoryEntry::Resource),
            3 => Ok(DirectoryEntry::Exception),
            4 => Ok(DirectoryEntry::Certificate),
            5 => Ok(DirectoryEntry::BaseRelocation),
            6 => Ok(DirectoryEntry::Debug),
            7 => Ok(DirectoryEntry::Architecture),
            8 => Ok(DirectoryEntry::Globalptr),
            9 => Ok(DirectoryEntry::Tls),
            10 => Ok(DirectoryEntry::LoadConfig),
            11 => Ok(DirectoryEntry::BoundImport),
            12 => Ok(DirectoryEntry::ImportAddressTable),
            13 => Ok(DirectoryEntry::DelayImport),
            14 => Ok(DirectoryEntry::ClrRuntime),
            15 => Ok(DirectoryEntry::Reserved),
            _ => Err(i),
        }
    }

    /// The slot of this kind in the directory table.
    pub fn value(&self) -> (r: usize)
        ensures
            r == self.index(),
            entry_of(r as int) == Some(*self),
    {
        match self {
            DirectoryEntry::Export => 0,
            DirectoryEntry::Import => 1,
            DirectoryEntry::Resource => 2,
            DirectoryEntry::Exception => 3,
            DirectoryEntry::Certificate => 4,
            DirectoryEntry::BaseRelocation => 5,
            DirectoryEntry::Debug => 6,
            DirectoryEntry::Architecture => 7,
            DirectoryEntry::Globalptr => 8,
            DirectoryEntry::Tls => 9,
            DirectoryEntry::LoadConfig => 10,
            DirectoryEntry::BoundImport => 11,
            DirectoryEntry::ImportAddressTable => 12,
            DirectoryEntry::DelayImport => 13,
            DirectoryEntry::ClrRuntime => 14,
            DirectoryEntry::Reserved => 15,
        }
    }
}

} // verus!
