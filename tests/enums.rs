use pe_parser::headers::nt::{DirectoryEntry, Machine, OptionalHeaderMagic};
use pe_parser::headers::sections::SectionName;

#[test]
fn try_enums() {
    assert_eq!(Machine::Alpha.value(), 0x184);
    assert_eq!(Machine::try_from(0x9041), Ok(Machine::M32R));
    assert_eq!(Machine::try_from(0x1234), Err(0x1234));
}

#[test]
fn machine_codes_round_trip() {
    assert_eq!(Machine::try_from(0x8664), Ok(Machine::Amd64));
    assert_eq!(Machine::Amd64.value(), 0x8664);
    assert_eq!(Machine::try_from(0x0), Ok(Machine::Unknown));
    assert_eq!(Machine::try_from(0x14c), Ok(Machine::I386));
    assert_eq!(Machine::WceMipsV2.value(), 0x169);
}

#[test]
fn optional_header_magics() {
    assert_eq!(OptionalHeaderMagic::try_from(0x10b), Ok(OptionalHeaderMagic::Pe32));
    assert_eq!(OptionalHeaderMagic::try_from(0x20b), Ok(OptionalHeaderMagic::Pe32Plus));
    assert_eq!(OptionalHeaderMagic::try_from(0x107), Ok(OptionalHeaderMagic::Rom));
    assert_eq!(OptionalHeaderMagic::try_from(0x108), Err(0x108));
    assert_eq!(OptionalHeaderMagic::Pe32Plus.value(), 0x20b);
}

#[test]
fn directory_entries_by_slot() {
    assert_eq!(DirectoryEntry::try_from(0), Ok(DirectoryEntry::Export));
    assert_eq!(DirectoryEntry::try_from(1), Ok(DirectoryEntry::Import));
    assert_eq!(DirectoryEntry::try_from(15), Ok(DirectoryEntry::Reserved));
    assert_eq!(DirectoryEntry::try_from(16), Err(16));
    assert_eq!(DirectoryEntry::ClrRuntime.value(), 14);
}

#[test]
fn section_names() {
    assert_eq!(SectionName::Text.as_str(), ".text");
    assert_eq!(SectionName::Data.as_str(), ".data");
    assert_eq!(SectionName::Rdata.as_str(), ".rdata");
    assert_eq!(SectionName::Bss.as_str(), ".bss");
    assert_eq!(SectionName::Idata.as_str(), ".idata");
    assert_eq!(SectionName::Tls.as_str(), ".tls");
}
