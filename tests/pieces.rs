use pe_parser::bytes::{read_u16, read_u32, read_u64, tag};
use pe_parser::datetime::DateTime;
use pe_parser::errors::{ErrorKind, PEError};
use pe_parser::headers::dos::DosHeader;
use pe_parser::headers::nt::{DataDirectories, DataDirectory, DirectoryEntry, FileHeader};
use pe_parser::headers::sections::{Section, Sections};
use pe_parser::utils::{read_array, read_null_terminated_string};

fn section(name: &str, vir_addr: u32, vir_size: u32, ptr_to_raw_data: u32) -> Section {
    Section {
        name: name.to_string(),
        vir_size,
        vir_addr,
        size_of_raw_data: vir_size,
        ptr_to_raw_data,
        ptr_to_relocs: 0,
        ptr_to_line_nums: 0,
        num_of_relocs: 0,
        num_of_line_nums: 0,
        characteristics: 0,
    }
}

fn first_kind(e: &PEError) -> &ErrorKind {
    &e.errors[0].1
}

#[test]
fn rva_translation_in_one_section() {
    let s = section(".text", 0x1000, 0x200, 0x400);
    assert_eq!(s.rva_to_offset(0x1010), Some(0x410));
    assert_eq!(s.rva_to_offset(0x0FFF), None);
    assert_eq!(s.rva_to_offset(0x1000), Some(0x400));
}

#[test]
fn rva_translation_overflow_is_absent() {
    let s = section(".big", 0x10, 0x100, 0xFFFF_FFF0);
    assert_eq!(s.rva_to_offset(0x10), Some(0xFFFF_FFF0));
    assert_eq!(s.rva_to_offset(0x30), None);
}

#[test]
fn section_table_lookup_by_address() {
    let table = Sections(vec![
        section(".text", 0x1000, 0x100, 0x400),
        section(".data", 0x2000, 0x100, 0x600),
    ]);
    assert_eq!(table.find_by_address(0x2010).map(|s| s.name.clone()), Some(".data".to_string()));
    assert!(table.find_by_address(0x1100).is_none());
    assert!(table.find_by_address(0x0500).is_none());
    assert_eq!(table.rva_to_offset(0x2010), Some(0x610));
    assert_eq!(table.rva_to_offset(0x10FF), Some(0x4FF));
    assert_eq!(table.rva_to_offset(0x3000), None);
}

#[test]
fn section_table_lookup_by_name_takes_first() {
    let table = Sections(vec![
        section(".text", 0x1000, 0x100, 0x400),
        section(".data", 0x2000, 0x100, 0x600),
        section(".data", 0x3000, 0x100, 0x800),
    ]);
    let found = table.find_by_name(".data").unwrap();
    assert_eq!(found.vir_addr, 0x2000);
    let table = Sections(vec![section(".text", 0x1000, 0x100, 0x400)]);
    assert!(table.find_by_name(".bss").is_none());
}

#[test]
fn section_name_is_cut_at_nul() {
    let mut bytes = vec![0x2E, 0x74, 0x65, 0x78, 0x74, 0x00, 0x00, 0x00];
    bytes.extend_from_slice(&[0x00, 0x02, 0x00, 0x00]); // virtual size
    bytes.extend_from_slice(&[0x00, 0x10, 0x00, 0x00]); // virtual address
    bytes.extend_from_slice(&[0u8; 28]);
    let (next, s) = Section::parse(&bytes, 0).unwrap();
    assert_eq!(next, 40);
    assert_eq!(s.name, ".text");
    assert_eq!(s.vir_size, 0x200);
    assert_eq!(s.vir_addr, 0x1000);
}

#[test]
fn section_name_invalid_utf8_is_replaced() {
    let mut bytes = vec![0x41, 0xFF, 0x42, 0x00, 0x43, 0x00, 0x00, 0x00];
    bytes.extend_from_slice(&[0u8; 32]);
    let (_, s) = Section::parse(&bytes, 0).unwrap();
    assert_eq!(s.name, "A\u{FFFD}B");
}

#[test]
fn section_truncated() {
    let bytes = [0u8; 39];
    let e = Section::parse(&bytes, 0).unwrap_err();
    assert!(matches!(first_kind(&e), ErrorKind::Truncation));
}

#[test]
fn sections_read_in_order() {
    let mut bytes = Vec::new();
    for (i, name) in [".a", ".b"].iter().enumerate() {
        let mut n = name.as_bytes().to_vec();
        n.resize(8, 0);
        bytes.extend_from_slice(&n);
        bytes.extend_from_slice(&(0x100u32 * (i as u32 + 1)).to_le_bytes());
        bytes.extend_from_slice(&[0u8; 28]);
    }
    let (next, s) = Sections::parse(&bytes, 0, 2).unwrap();
    assert_eq!(next, 80);
    assert_eq!(s.0.len(), 2);
    assert_eq!(s.0[0].name, ".a");
    assert_eq!(s.0[1].name, ".b");
    assert_eq!(s.0[1].vir_size, 0x200);
    assert!(Sections::parse(&bytes, 0, 3).is_err());
    let (next, empty) = Sections::parse(&bytes, 500, 0).unwrap();
    assert_eq!(next, 500);
    assert!(empty.0.is_empty());
}

#[test]
fn little_endian_reads() {
    let bytes = [0x01, 0x02, 0x03, 0x04, 0x05, 0x06, 0x07, 0x08];
    assert_eq!(read_u16(&bytes, 0, "x").unwrap(), (2, 0x0201));
    assert_eq!(read_u32(&bytes, 4, "x").unwrap(), (8, 0x0807_0605));
    assert_eq!(read_u64(&bytes, 0, "x").unwrap(), (8, 0x0807_0605_0403_0201));
    let e = read_u32(&bytes, 6, "Field").unwrap_err();
    assert!(matches!(first_kind(&e), ErrorKind::Truncation));
    assert_eq!(e.errors[0].0, 6);
    assert!(matches!(e.errors[1].1, ErrorKind::Context("Field")));
    assert!(read_u16(&bytes, usize::MAX, "x").is_err());
}

#[test]
fn literal_tags() {
    let bytes = [0x50, 0x45, 0x00, 0x00];
    assert!(tag(&bytes, 0, [0x50, 0x45, 0x00, 0x00], "Signature").is_ok());
    let e = tag(&bytes, 0, [0x50, 0x46, 0x00, 0x00], "Signature").unwrap_err();
    assert!(matches!(first_kind(&e), ErrorKind::TagMismatch));
    let e = tag(&bytes, 1, [0x45, 0x00, 0x00, 0x00], "Signature").unwrap_err();
    assert!(matches!(first_kind(&e), ErrorKind::Truncation));
}

#[test]
fn null_terminated_strings() {
    assert_eq!(read_null_terminated_string(b"KERNEL32.dll\0junk"), "KERNEL32.dll");
    assert_eq!(read_null_terminated_string(b"no terminator"), "no terminator");
    assert_eq!(read_null_terminated_string(b""), "");
    assert_eq!(read_null_terminated_string(b"\0abc"), "");
}

#[test]
fn arrays_stop_at_the_end() {
    let bytes = [1, 0, 0, 0, 2, 0, 0, 0, 3, 0];
    assert_eq!(read_array(&bytes, 0, 5), vec![1, 2]);
    assert_eq!(read_array(&bytes, 4, 1), vec![2]);
    assert_eq!(read_array(&bytes, 0, 0), Vec::<u32>::new());
    assert_eq!(read_array(&bytes, 20, 3), Vec::<u32>::new());
}

#[test]
fn timestamps_become_calendar_dates() {
    assert_eq!(
        DateTime::from_timestamp(0),
        Some(DateTime { year: 1970, month: 1, day: 1, hour: 0, minute: 0, second: 0 })
    );
    assert_eq!(
        DateTime::from_timestamp(0x5F5E_1000),
        Some(DateTime { year: 2020, month: 9, day: 13, hour: 12, minute: 26, second: 40 })
    );
    assert_eq!(
        DateTime::from_timestamp(u32::MAX),
        Some(DateTime { year: 2106, month: 2, day: 7, hour: 6, minute: 28, second: 15 })
    );
}

#[test]
fn file_header_fields() {
    let mut b = vec![0x64, 0x86, 0x03, 0x00];
    b.extend_from_slice(&0u32.to_le_bytes());
    b.extend_from_slice(&0x10u32.to_le_bytes());
    b.extend_from_slice(&0x20u32.to_le_bytes());
    b.extend_from_slice(&0xF0u16.to_le_bytes());
    b.extend_from_slice(&0x22u16.to_le_bytes());
    let (next, h) = FileHeader::parse(&b, 0).unwrap();
    assert_eq!(next, 20);
    assert_eq!(h.machine, pe_parser::headers::nt::Machine::Amd64);
    assert_eq!(h.num_of_sections, 3);
    assert_eq!(h.datetime.year, 1970);
    assert_eq!(h.ptr_to_sym_tbl, 0x10);
    assert_eq!(h.num_of_syms, 0x20);
    assert_eq!(h.size_of_optional_header, 0xF0);
    assert_eq!(h.characteristics, 0x22);
}

#[test]
fn file_header_unknown_machine() {
    let mut b = vec![0x34, 0x12];
    b.extend_from_slice(&[0u8; 18]);
    let e = FileHeader::parse(&b, 0).unwrap_err();
    assert!(matches!(first_kind(&e), ErrorKind::UnknownEnumeration));
}

#[test]
fn data_directories_by_kind() {
    let mut b = Vec::new();
    for i in 0..3u32 {
        b.extend_from_slice(&(0x1000 * (i + 1)).to_le_bytes());
        b.extend_from_slice(&(0x10 * (i + 1)).to_le_bytes());
    }
    let (next, d) = DataDirectories::parse(&b, 0, 3).unwrap();
    assert_eq!(next, 24);
    assert_eq!(d.len(), 3);
    assert_eq!(
        d.find_by_entry(DirectoryEntry::Import),
        Some(DataDirectory { entry: DirectoryEntry::Import, virtual_address: 0x2000, size: 0x20 })
    );
    assert_eq!(d.find_by_entry(DirectoryEntry::Exception), None);
    let (_, one) = DataDirectory::parse(DirectoryEntry::Tls, &b, 8).unwrap();
    assert_eq!(one.virtual_address, 0x2000);
    assert_eq!(one.entry, DirectoryEntry::Tls);
}

#[test]
fn data_directories_count_zero() {
    let (next, d) = DataDirectories::parse(&[], 0, 0).unwrap();
    assert_eq!(next, 0);
    assert_eq!(d.len(), 0);
    assert_eq!(d.find_by_entry(DirectoryEntry::Export), None);
    assert_eq!(d.find_by_entry(DirectoryEntry::Import), None);
}

#[test]
fn data_directories_count_past_input_is_rejected() {
    let b = [0u8; 16];
    let e = DataDirectories::parse(&b, 0, 3).unwrap_err();
    assert!(matches!(first_kind(&e), ErrorKind::SemanticRejection(_)));
    let e = DataDirectories::parse(&b, 0, u32::MAX).unwrap_err();
    assert!(matches!(first_kind(&e), ErrorKind::SemanticRejection(_)));
}

#[test]
fn data_directories_more_than_sixteen_kinds() {
    let b = [0u8; 17 * 8];
    let e = DataDirectories::parse(&b, 0, 17).unwrap_err();
    assert!(matches!(first_kind(&e), ErrorKind::UnknownEnumeration));
    assert_eq!(e.errors[0].0, 16 * 8);
}

#[test]
fn dos_header_fields() {
    let mut b = vec![0u8; 128];
    b[0] = 0x4d;
    b[1] = 0x5a;
    b[2] = 0x90;
    b[28] = 7;
    b[60] = 0x80;
    let (next, h) = DosHeader::parse(&b, 0).unwrap();
    assert_eq!(next, 128);
    assert_eq!(h.magic, [0x4d, 0x5a]);
    assert_eq!(h.cblp, 0x90);
    assert_eq!(h.res[0], 7);
    assert_eq!(h.lfanew, 0x80);
}

#[test]
fn error_values() {
    let e = PEError::from_string(3, "bad".to_string());
    assert_eq!(e.errors.len(), 1);
    assert!(matches!(&e.errors[0].1, ErrorKind::SemanticRejection(s) if s == "bad"));
    let e = e.add_context(9, "Outer");
    assert_eq!(e.errors.len(), 2);
    assert_eq!(e.errors[1].0, 9);
    assert!(matches!(e.errors[1].1, ErrorKind::Context("Outer")));
}
