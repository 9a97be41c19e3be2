use pe_parser::errors::{ErrorKind, PEError};
use pe_parser::headers::nt::{DirectoryEntry, Machine, OptionalHeader};
use pe_parser::headers::PEHeader;
use pe_parser::imports::import_directory_table::{ImportDirectoryTable, ImportEntry};
use pe_parser::headers::nt::DataDirectory;
use pe_parser::headers::sections::{Section, Sections};
use pe_parser::PE;

fn put(b: &mut Vec<u8>, at: usize, bytes: &[u8]) {
    if b.len() < at + bytes.len() {
        b.resize(at + bytes.len(), 0);
    }
    b[at..at + bytes.len()].copy_from_slice(bytes);
}

fn put_u16(b: &mut Vec<u8>, at: usize, v: u16) {
    put(b, at, &v.to_le_bytes());
}

fn put_u32(b: &mut Vec<u8>, at: usize, v: u32) {
    put(b, at, &v.to_le_bytes());
}

fn put_u64(b: &mut Vec<u8>, at: usize, v: u64) {
    put(b, at, &v.to_le_bytes());
}

const NT: usize = 0x80;

/// An image with one section `.idata` (virtual 0x1000..0x1200, raw 0x400),
/// the given magic and directories, padded to 0x600 bytes.
fn image(magic: u16, dirs: &[(u32, u32)]) -> Vec<u8> {
    let mut b = vec![0u8; 0x600];
    put(&mut b, 0, b"MZ");
    put_u32(&mut b, 60, NT as u32);
    put(&mut b, NT, b"PE\0\0");
    put_u16(&mut b, NT + 4, 0x14c);
    put_u16(&mut b, NT + 6, 1);
    put_u32(&mut b, NT + 8, 0x5F5E_1000);
    put_u16(&mut b, NT + 24, magic);
    let body = NT + 26;
    let fixed = if magic == 0x20b { 110 } else { 94 };
    if magic == 0x20b {
        put_u64(&mut b, body + 22, 0x1_4000_0000);
    } else {
        put_u32(&mut b, body + 26, 0x40_0000);
    }
    put_u32(&mut b, body + fixed - 4, dirs.len() as u32);
    let mut p = body + fixed;
    for (va, size) in dirs {
        put_u32(&mut b, p, *va);
        put_u32(&mut b, p + 4, *size);
        p += 8;
    }
    put(&mut b, p, b".idata\0\0");
    put_u32(&mut b, p + 8, 0x200);
    put_u32(&mut b, p + 12, 0x1000);
    put_u32(&mut b, p + 16, 0x200);
    put_u32(&mut b, p + 20, 0x400);
    b
}

/// Adds an import table at 0x1000 (offset 0x400) naming KERNEL32.dll with
/// ExitProcess by name and ordinal 5, and an export table at 0x1100.
fn with_tables(mut b: Vec<u8>) -> Vec<u8> {
    put_u32(&mut b, 0x400, 0x1040);
    put_u32(&mut b, 0x40C, 0x1080);
    put_u32(&mut b, 0x410, 0x1040);
    put_u32(&mut b, 0x440, 0x1060);
    put_u32(&mut b, 0x444, 0x8000_0005);
    put_u16(&mut b, 0x460, 0x0001);
    put(&mut b, 0x462, b"ExitProcess\0");
    put(&mut b, 0x480, b"KERNEL32.dll\0");
    put_u32(&mut b, 0x500, 0x7);
    put_u32(&mut b, 0x504, 0);
    put_u16(&mut b, 0x508, 1);
    put_u16(&mut b, 0x50A, 2);
    put_u32(&mut b, 0x50C, 0x1180);
    put_u32(&mut b, 0x510, 1);
    put_u32(&mut b, 0x514, 4);
    put_u32(&mut b, 0x518, 3);
    b
}

fn fault(e: &PEError) -> &ErrorKind {
    &e.errors[0].1
}

#[test]
fn decode_full_image() {
    let b = with_tables(image(0x10b, &[(0x1100, 0x28), (0x1000, 0x28)]));
    let pe = PE::parse(&b).unwrap();
    assert_eq!(pe.file.len(), 0x600);
    let fh = &pe.header.nt_header.file_header;
    assert_eq!(fh.machine, Machine::I386);
    assert_eq!(fh.num_of_sections, 1);
    assert_eq!((fh.datetime.year, fh.datetime.month, fh.datetime.day), (2020, 9, 13));
    assert_eq!(pe.header.dos_header.lfanew, NT as u32);
    assert_eq!(pe.header.sections.0[0].name, ".idata");
    let imports = pe.imports.as_ref().unwrap();
    let table = &imports.directory_table.0;
    assert_eq!(table.len(), 1);
    assert_eq!(table[0].name, "KERNEL32.dll");
    assert_eq!(table[0].original_first_thunk, 0x1040);
    assert!(!table[0].is_bound);
    let entries = &table[0].import_by_names.0;
    assert_eq!(entries.len(), 2);
    match &entries[0] {
        ImportEntry::Name(n) => {
            assert_eq!(n.hint, 1);
            assert_eq!(n.name, "ExitProcess");
        }
        ImportEntry::Ordinal(_) => panic!("expected a name import"),
    }
    assert!(matches!(entries[1], ImportEntry::Ordinal(5)));
    let export = pe.export.unwrap();
    assert_eq!(export.characteristics, 7);
    assert_eq!((export.major_version, export.minor_version), (1, 2));
    assert_eq!(export.name, 0x1180);
    assert_eq!(export.num_of_funcs, 4);
    assert_eq!(export.num_of_names, 3);
    assert_eq!(export.datetime.year, 1970);
}

#[test]
fn decode_is_deterministic() {
    let b = with_tables(image(0x10b, &[(0x1100, 0x28), (0x1000, 0x28)]));
    let first = format!("{:?}", PE::parse(&b).unwrap());
    let second = format!("{:?}", PE::parse(&b).unwrap());
    assert_eq!(first, second);
}

#[test]
fn short_buffers_truncate() {
    for len in [0usize, 1, 2, 10, 64, 127] {
        let mut b = vec![0u8; len];
        if len >= 2 {
            b[0] = 0x4d;
            b[1] = 0x5a;
        }
        let e = PE::parse(&b).unwrap_err();
        assert!(matches!(fault(&e), ErrorKind::Truncation), "length {}", len);
    }
}

#[test]
fn wrong_dos_magic_mismatches() {
    let mut b = image(0x10b, &[]);
    b[0] = 0x5a;
    b[1] = 0x4d;
    let e = PE::parse(&b).unwrap_err();
    assert!(matches!(fault(&e), ErrorKind::TagMismatch));
    assert_eq!(e.errors[0].0, 0);
    let e = PE::parse(&[0u8, 0u8]).unwrap_err();
    assert!(matches!(fault(&e), ErrorKind::TagMismatch));
}

#[test]
fn wrong_pe_signature_mismatches() {
    let mut b = image(0x10b, &[]);
    b[NT + 1] = b'X';
    let e = PE::parse(&b).unwrap_err();
    assert!(matches!(fault(&e), ErrorKind::TagMismatch));
}

#[test]
fn header_offset_past_the_end_truncates() {
    let mut b = image(0x10b, &[]);
    put_u32(&mut b, 60, 0x7000_0000);
    let e = PE::parse(&b).unwrap_err();
    assert!(matches!(fault(&e), ErrorKind::Truncation));
}

#[test]
fn magic_selects_64_bit_layout() {
    let b = image(0x20b, &[]);
    let (_, h) = PEHeader::parse(&b).unwrap();
    match h.nt_header.optional_header {
        OptionalHeader::Op64(o) => {
            assert_eq!(o.image_base, 0x1_4000_0000);
            assert_eq!(o.number_of_rva_and_sizes, 0);
        }
        OptionalHeader::Op32(_) => panic!("expected the 64-bit layout"),
    }
}

#[test]
fn magic_selects_32_bit_layout() {
    let b = image(0x10b, &[]);
    let (_, h) = PEHeader::parse(&b).unwrap();
    match h.nt_header.optional_header {
        OptionalHeader::Op32(o) => assert_eq!(o.image_base, 0x40_0000),
        OptionalHeader::Op64(_) => panic!("expected the 32-bit layout"),
    }
}

#[test]
fn rom_magic_is_rejected() {
    let b = image(0x107, &[]);
    let e = PE::parse(&b).unwrap_err();
    assert!(matches!(fault(&e), ErrorKind::SemanticRejection(_)));
}

#[test]
fn unknown_magic_is_an_unknown_enumeration() {
    let b = image(0x1234, &[]);
    let e = PE::parse(&b).unwrap_err();
    assert!(matches!(fault(&e), ErrorKind::UnknownEnumeration));
}

#[test]
fn unknown_machine_is_an_unknown_enumeration() {
    let mut b = image(0x10b, &[]);
    put_u16(&mut b, NT + 4, 0x1234);
    let e = PE::parse(&b).unwrap_err();
    assert!(matches!(fault(&e), ErrorKind::UnknownEnumeration));
    assert!(e.errors.iter().any(|(_, k)| matches!(k, ErrorKind::Context("FileHeader"))));
}

#[test]
fn no_directories_means_no_imports_or_exports() {
    let b = with_tables(image(0x10b, &[]));
    let pe = PE::parse(&b).unwrap();
    let dirs = match &pe.header.nt_header.optional_header {
        OptionalHeader::Op32(o) => o.data_directories,
        OptionalHeader::Op64(o) => o.data_directories,
    };
    assert_eq!(dirs.len(), 0);
    assert!(pe.header.nt_header.optional_header.find_directory_by_entry(DirectoryEntry::Import).is_none());
    assert!(pe.imports.is_none());
    assert!(pe.export.is_none());
}

#[test]
fn zero_descriptor_is_an_empty_import_table() {
    let b = image(0x10b, &[(0, 0), (0x1000, 0x14)]);
    let pe = PE::parse(&b).unwrap();
    assert_eq!(pe.imports.unwrap().directory_table.0.len(), 0);
    assert!(pe.export.is_none());
}

#[test]
fn import_directory_outside_every_section_is_absent() {
    let b = image(0x10b, &[(0x9000, 0x28), (0x9000, 0x28)]);
    let pe = PE::parse(&b).unwrap();
    assert!(pe.imports.is_none());
    assert!(pe.export.is_none());
}

#[test]
fn unterminated_descriptor_table_truncates() {
    let mut b = image(0x10b, &[(0, 0), (0x1000, 0x14)]);
    for i in 0x400..0x600 {
        b[i] = 0x01;
    }
    let e = PE::parse(&b).unwrap_err();
    assert!(matches!(fault(&e), ErrorKind::Truncation));
}

#[test]
fn unterminated_lookup_table_truncates() {
    let mut b = with_tables(image(0x10b, &[(0, 0), (0x1000, 0x28)]));
    put_u32(&mut b, 0x400, 0x11FC);
    b.truncate(0x600);
    for i in 0x5FC..0x600 {
        b[i] = 0x02;
    }
    let e = PE::parse(&b).unwrap_err();
    assert!(matches!(fault(&e), ErrorKind::Truncation));
}

#[test]
fn unresolvable_dll_name_is_empty() {
    let mut b = with_tables(image(0x10b, &[(0, 0), (0x1000, 0x28)]));
    put_u32(&mut b, 0x40C, 0x9000);
    let pe = PE::parse(&b).unwrap();
    let table = pe.imports.unwrap().directory_table;
    assert_eq!(table.0[0].name, "");
    assert_eq!(table.0[0].import_by_names.0.len(), 2);
}

#[test]
fn import_table_through_sections() {
    let b = with_tables(image(0x10b, &[]));
    let mut sec = Section {
        name: ".idata".to_string(),
        vir_size: 0x200,
        vir_addr: 0x1000,
        size_of_raw_data: 0x200,
        ptr_to_raw_data: 0x400,
        ptr_to_relocs: 0,
        ptr_to_line_nums: 0,
        num_of_relocs: 0,
        num_of_line_nums: 0,
        characteristics: 0,
    };
    let dir = DataDirectory { entry: DirectoryEntry::Import, virtual_address: 0x1000, size: 0x28 };
    let sections = Sections(vec![sec]);
    let table = ImportDirectoryTable::parse(&b, dir, &sections).unwrap().unwrap();
    assert_eq!(table.0.len(), 1);
    assert_eq!(table.0[0].first_thunk, 0x1040);
    sec = Section { vir_addr: 0x5000, ..sections.0.into_iter().next().unwrap() };
    let table = ImportDirectoryTable::parse(&b, dir, &Sections(vec![sec])).unwrap();
    assert!(table.is_none());
}
