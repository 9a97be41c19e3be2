//! The section table, and the translation of relative virtual addresses to
//! file offsets through it.
use crate::bytes::{fits, le_u16, le_u32, read_u16, read_u32, skip};
use crate::errors::{Fault, PEError};
use crate::utils::{c_string, read_null_terminated_string};
use vstd::prelude::*;

verus! {

/// Bytes of one section descriptor.
pub const SECTION_SIZE: usize = 40;

/// A section descriptor as a mathematical value.
pub struct SectionView {
    pub name: Seq<char>,
    pub vir_size: u32,
    pub vir_addr: u32,
    pub size_of_raw_data: u32,
    pub ptr_to_raw_data: u32,
    pub ptr_to_relocs: u32,
    pub ptr_to_line_nums: u32,
    pub num_of_relocs: u16,
    pub num_of_line_nums: u16,
    pub characteristics: u32,
}

impl SectionView {
    /// The section's virtual range `[vir_addr, vir_addr + vir_size)` holds `rva`.
    pub open spec fn contains(self, rva: u32) -> bool {
        self.vir_addr <= rva < self.vir_addr + self.vir_size
    }

    /// `rva - vir_addr + ptr_to_raw_data`, defined when `rva >= vir_addr` and
    /// the sum fits in 32 bits.
    pub open spec fn offset_of(self, rva: u32) -> Option<u32> {
        if rva >= self.vir_addr && rva - self.vir_addr + self.ptr_to_raw_data <= u32::MAX {
            Some((rva - self.vir_addr + self.ptr_to_raw_data) as u32)
        } else {
            None
        }
    }
}

/// The descriptor at `p`: the name is the 8-byte field up to its first NUL.
pub open spec fn section_at(b: Seq<u8>, p: int) -> SectionView {
    SectionView {
        name: c_string(b.subrange(p, p + 8)),
        vir_size: le_u32(b, p + 8),
        vir_addr: le_u32(b, p + 12),
        size_of_raw_data: le_u32(b, p + 16),
        ptr_to_raw_data: le_u32(b, p + 20),
        ptr_to_relocs: le_u32(b, p + 24),
        ptr_to_line_nums: le_u32(b, p + 28),
        num_of_relocs: le_u16(b, p + 32),
        num_of_line_nums: le_u16(b, p + 34),
        characteristics: le_u32(b, p + 36),
    }
}

/// The table of `n` descriptors at `p`.
pub open spec fn sections_at(b: Seq<u8>, p: int, n: nat) -> Seq<SectionView> {
    Seq::new(n, |k: int| section_at(b, p + SECTION_SIZE * k))
}

/// `k` is the first section of `s` whose virtual range holds `rva`.
pub open spec fn is_first_containing(s: Seq<SectionView>, rva: u32, k: int) -> bool {
    &&& 0 <= k < s.len()
    &&& s[k].contains(rva)
    &&& forall|j: int| 0 <= j < k ==> !#[trigger] s[j].contains(rva)
}

/// The first section of `s` whose virtual range holds `rva`, if any.
pub open spec fn first_containing(s: Seq<SectionView>, rva: u32) -> Option<int> {
    if exists|k: int| is_first_containing(s, rva, k) {
        Some(choose|k: int| is_first_containing(s, rva, k))
    } else {
        None
    }
}

/// `k` is the first section of `s` named `name`.
pub open spec fn is_first_named(s: Seq<SectionView>, name: Seq<char>, k: int) -> bool {
    &&& 0 <= k < s.len()
    &&& s[k].name == name
    &&& forall|j: int| 0 <= j < k ==> #[trigger] s[j].name != name
}

/// The first section of `s` named `name`, if any.
pub open spec fn first_named(s: Seq<SectionView>, name: Seq<char>) -> Option<int> {
    if exists|k: int| is_first_named(s, name, k) {
        Some(choose|k: int| is_first_named(s, name, k))
    } else {
        None
    }
}

/// At most one section is the first with a name.
pub proof fn lemma_first_named_unique(s: Seq<SectionView>, name: Seq<char>, k: int)
    requires
        is_first_named(s, name, k),
    ensures
        first_named(s, name) == Some(k),
{
    let c = choose|c: int| is_first_named(s, name, c);
    if c < k {
        assert(s[c].name != name);
    }
    if k < c {
        assert(s[k].name != name);
    }
}

/// The file offset of `rva` through the first section that holds it.
pub open spec fn resolve_rva(s: Seq<SectionView>, rva: u32) -> Option<u32> {
    match first_containing(s, rva) {
        Some(k) => s[k].offset_of(rva),
        None => None,
    }
}

/// At most one section is the first to hold an address.
pub proof fn lemma_first_containing_unique(s: Seq<SectionView>, rva: u32, k: int)
    requires
        is_first_containing(s, rva, k),
    ensures
        first_containing(s, rva) == Some(k),
{
    let c = choose|c: int| is_first_containing(s, rva, c);
    if c < k {
        assert(!s[c].contains(rva));
    }
    if k < c {
        assert(!s[k].contains(rva));
    }
}

/// The section table, in file order; names need not be unique.
#[derive(Debug)]
pub struct Sections(pub Vec<Section>);

impl View for Sections {
    type V = Seq<SectionView>;

    open spec fn view(&self) -> Seq<SectionView> {
        self.0@.map_values(|s: Section| s@)
    }
}

impl Sections {
    /// Reads `num_of_sections` descriptors at `pos`.
    pub fn parse(input: &[u8], pos: usize, num_of_sections: u16) -> (r: Result<
        (usize, Sections),
        PEError,
    >)
        ensures
            match r {
                Ok((next, s)) => (num_of_sections == 0 || fits(
                    input@,
                    pos as int,
                    SECTION_SIZE * num_of_sections,
                )) && next == pos + SECTION_SIZE * num_of_sections && s@ == sections_at(
                    input@,
                    pos as int,
                    num_of_sections as nat,
                ),
                Err(e) => num_of_sections > 0 && !fits(
                    input@,
                    pos as int,
                    SECTION_SIZE * num_of_sections,
                ) && e.fault() == Some(Fault::Truncation),
            },
    {
        let mut sections: Vec<Section> = Vec::new();
        let mut p: usize = pos;
        let mut i: u16 = 0;
        while i < num_of_sections
            invariant
                i <= num_of_sections,
                p == pos + SECTION_SIZE * i,
                i == 0 || fits(input@, pos as int, SECTION_SIZE * i),
                sections@.len() == i,
                forall|k: int|
                    0 <= k < i ==> #[trigger] sections@[k]@ == section_at(
                        input@,
                        pos + SECTION_SIZE * k,
                    ),
            decreases num_of_sections - i,
        {
            let (next, section) = Section::parse(input, p)?;
            sections.push(section);
            p = next;
            i = i + 1;
        }
        let result = Sections(sections);
        assert(result@ =~= sections_at(input@, pos as int, num_of_sections as nat));
        Ok((p, result))
    }

    /// The first section named `name`, if any.
    pub fn find_by_name(self, name: &str) -> (r: Option<Section>)
        ensures
            match r {
                Some(s) => first_named(self@, name@) matches Some(k) && s@ == self@[k],
                None => first_named(self@, name@) is None,
            },
    {
        let ghost whole = self@;
        let target = name.to_owned();
        let mut v = self.0;
        let mut i: usize = 0;
        while i < v.len()
            invariant
                v@.map_values(|s: Section| s@) == whole,
                whole == self@,
                i <= v@.len(),
                target@ == name@,
                forall|j: int| 0 <= j < i ==> #[trigger] whole[j].name != name@,
            decreases v@.len() - i,
        {
            assert(whole[i as int] == v@[i as int]@);
            if v[i].name == target {
                let s = v.remove(i);
                proof {
                    lemma_first_named_unique(whole, name@, i as int);
                }
                return Some(s);
            }
            i = i + 1;
        }
        None
    }

    /// The first section whose virtual range holds `rva`.
    pub fn find_by_address(&self, rva: u32) -> (r: Option<&Section>)
        ensures
            match r {
                Some(s) => first_containing(self@, rva) matches Some(k) && s@ == self@[k],
                None => first_containing(self@, rva) is None,
            },
    {
        let mut i: usize = 0;
        while i < self.0.len()
            invariant
                i <= self@.len(),
                forall|j: int| 0 <= j < i ==> !#[trigger] self@[j].contains(rva),
            decreases self@.len() - i,
        {
            let s = &self.0[i];
            assert(self@[i as int] == s@);
            if s.vir_addr <= rva && (rva - s.vir_addr) < s.vir_size {
                proof {
                    lemma_first_containing_unique(self@, rva, i as int);
                }
                return Some(s);
            }
            i = i + 1;
        }
        None
    }

    /// The file offset of `rva` through the first section that holds it.
    pub fn rva_to_offset(&self, rva: u32) -> (r: Option<u32>)
        ensures
            r == resolve_rva(self@, rva),
    {
        match self.find_by_address(rva) {
            Some(s) => s.rva_to_offset(rva),
            None => None,
        }
    }
}

/// Names that sections commonly carry.
#[derive(Debug, Clone, Copy, PartialEq, Eq, Structural)]
pub enum SectionName {
    Text,
    Data,
    Rdata,
    Bss,
    Idata,
    Tls,
}

impl SectionName {
    pub open spec fn spec_str(self) -> Seq<char> {
        match self {
            SectionName::Text => ".text"@,
            SectionName::Data => ".data"@,
            SectionName::Rdata => ".rdata"@,
            SectionName::Bss => ".bss"@,
            SectionName::Idata => ".idata"@,
            SectionName::Tls => ".tls"@,
        }
    }

    pub fn as_str(&self) -> (r: &'static str)
        ensures
            r@ == self.spec_str(),
    {
        match *self {
            SectionName::Text => ".text",
            SectionName::Data => ".data",
            SectionName::Rdata => ".rdata",
            SectionName::Bss => ".bss",
            SectionName::Idata => ".idata",
            SectionName::Tls => ".tls",
        }
    }
}

#[derive(Debug)]
pub struct Section {
    pub name: String,
    pub vir_size: u32,
    pub vir_addr: u32,
    pub size_of_raw_data: u32,
    pub ptr_to_raw_data: u32,
    pub ptr_to_relocs: u32,
    pub ptr_to_line_nums: u32,
    pub num_of_relocs: u16,
    pub num_of_line_nums: u16,
    pub characteristics: u32,
}

impl View for Section {
    type V = SectionView;

    open spec fn view(&self) -> SectionView {
        SectionView {
            name: self.name@,
            vir_size: self.vir_size,
            vir_addr: self.vir_addr,
            size_of_raw_data: self.size_of_raw_data,
            ptr_to_raw_data: self.ptr_to_raw_data,
            ptr_to_relocs: self.ptr_to_relocs,
            ptr_to_line_nums: self.ptr_to_line_nums,
            num_of_relocs: self.num_of_relocs,
            num_of_line_nums: self.num_of_line_nums,
            characteristics: self.characteristics,
        }
    }
}

impl Section {
    /// Reads one 40-byte descriptor at `pos`.
    pub fn parse(input: &[u8], pos: usize) -> (r: Result<(usize, Section), PEError>)
        ensures
            match r {
                Ok((next, s)) => fits(input@, pos as int, SECTION_SIZE as int) && next == pos
                    + SECTION_SIZE && s@ == section_at(input@, pos as int),
                Err(e) => !fits(input@, pos as int, SECTION_SIZE as int) && e.fault() == Some(
                    Fault::Truncation,
                ),
            },
    {
        let i = skip(input, pos, 8, "Name")?;
        let (i, vir_size) = read_u32(input, i, "VirtualSize")?;
        let (i, vir_addr) = read_u32(input, i, "VirtualAddress")?;
        let (i, size_of_raw_data) = read_u32(input, i, "SizeOfRawData")?;
        let (i, ptr_to_raw_data) = read_u32(input, i, "PointerToRawData")?;
        let (i, ptr_to_relocs) = read_u32(input, i, "PointerToRelocations")?;
        let (i, ptr_to_line_nums) = read_u32(input, i, "PointerToLinenumbers")?;
        let (i, num_of_relocs) = read_u16(input, i, "NumberOfRelocations")?;
        let (i, num_of_line_nums) = read_u16(input, i, "NumberOfLineNumbers")?;
        let (i, characteristics) = read_u32(input, i, "Characteristics")?;
        let name = read_null_terminated_string(&input[pos..pos + 8]);
        let section = Section {
            name,
            vir_size,
            vir_addr,
            size_of_raw_data,
            ptr_to_raw_data,
            ptr_to_relocs,
            ptr_to_line_nums,
            num_of_relocs,
            num_of_line_nums,
            characteristics,
        };
        Ok((i, section))
    }

    /// `rva - vir_addr + ptr_to_raw_data` when `rva >= vir_addr`; absent
    /// below the section, or when the offset would not fit in 32 bits.
    pub fn rva_to_offset(&self, rva: u32) -> (r: Option<u32>)
        ensures
            r == self@.offset_of(rva),
    {
        if rva >= self.vir_addr {
            let delta = rva - self.vir_addr;
            if delta <= u32::MAX - self.ptr_to_raw_data {
                Some(delta + self.ptr_to_raw_data)
            } else {
                None
            }
        } else {
            None
        }
    }
}

} // verus!
