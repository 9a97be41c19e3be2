//! The import directory table: descriptors up to an all-zero one, each with
//! its DLL name and the functions listed in its import lookup table.
use crate::bytes::{fits, get_u32, has_room, le_u16, le_u32, read_u16, read_u32};
use crate::errors::{Fault, PEError};
use crate::headers::nt::DataDirectory;
use crate::headers::sections::{resolve_rva, SectionView, Sections};
use crate::utils::{c_string, read_null_terminated_string};
use vstd::prelude::*;

verus! {

/// Bytes of one import descriptor.
pub const DESCRIPTOR_SIZE: usize = 20;

/// The flag of a lookup entry that imports by ordinal.
pub const ORDINAL_FLAG: u32 = 0x8000_0000;

/// `x` in front of a decoded sequence; a failure stays a failure.
pub open spec fn cons<T>(x: T, rest: Option<Seq<T>>) -> Option<Seq<T>> {
    match rest {
        Some(t) => Some(seq![x] + t),
        None => None,
    }
}

/// `a` in front of a decoded sequence; a failure stays a failure.
pub open spec fn prefix<T>(a: Seq<T>, rest: Option<Seq<T>>) -> Option<Seq<T>> {
    match rest {
        Some(t) => Some(a + t),
        None => None,
    }
}

/// The entries of a lookup table at `p`: the 32-bit values before the first
/// zero one, or `None` when the input ends before a zero entry.
pub open spec fn lookup_entries(b: Seq<u8>, p: int) -> Option<Seq<u32>>
    decreases b.len() - p,
{
    if !fits(b, p, 4) {
        None
    } else if le_u32(b, p) == 0 {
        Some(seq![])
    } else {
        cons(le_u32(b, p), lookup_entries(b, p + 4))
    }
}

/// A hint and name entry as a mathematical value.
pub struct ImportByNameView {
    pub hint: u16,
    pub name: Seq<char>,
}

/// One imported function as a mathematical value.
pub enum ImportEntryView {
    Name(ImportByNameView),
    Ordinal(u16),
}

/// The hint and name entry at offset `off`: a 16-bit hint, then a
/// NUL-terminated name.
pub open spec fn import_by_name_at(b: Seq<u8>, off: int) -> ImportByNameView {
    ImportByNameView { hint: le_u16(b, off), name: c_string(b.subrange(off + 2, b.len() as int)) }
}

/// The imports that lookup entries `es[i..]` describe. An entry with the
/// ordinal flag imports by ordinal; any other is the address of a hint and
/// name entry, skipped when no section holds it. `None` when a hint and name
/// entry runs past the input.
pub open spec fn imports_from(b: Seq<u8>, s: Seq<SectionView>, es: Seq<u32>, i: int) -> Option<
    Seq<ImportEntryView>,
>
    decreases es.len() - i,
{
    if i < 0 || i >= es.len() {
        Some(seq![])
    } else if es[i] >= ORDINAL_FLAG {
        cons(ImportEntryView::Ordinal((es[i] % 0x1_0000) as u16), imports_from(b, s, es, i + 1))
    } else {
        match resolve_rva(s, es[i]) {
            None => imports_from(b, s, es, i + 1),
            Some(off) => if fits(b, off as int, 2) {
                cons(
                    ImportEntryView::Name(import_by_name_at(b, off as int)),
                    imports_from(b, s, es, i + 1),
                )
            } else {
                None
            },
        }
    }
}

/// The imports of a lookup table at address `rva`: none when no section
/// holds it, `None` when the table or an entry runs past the input.
pub open spec fn import_by_names_at(b: Seq<u8>, s: Seq<SectionView>, rva: u32) -> Option<
    Seq<ImportEntryView>,
> {
    match resolve_rva(s, rva) {
        None => Some(seq![]),
        Some(off) => match lookup_entries(b, off as int) {
            None => None,
            Some(es) => imports_from(b, s, es, 0),
        },
    }
}

/// The DLL name at address `rva`: empty when no section holds it or its
/// offset lies past the input.
pub open spec fn dll_name_at(b: Seq<u8>, s: Seq<SectionView>, rva: u32) -> Seq<char> {
    match resolve_rva(s, rva) {
        Some(off) => if off <= b.len() {
            c_string(b.subrange(off as int, b.len() as int))
        } else {
            seq![]
        },
        None => seq![],
    }
}

/// An import descriptor as a mathematical value.
pub struct ImportDescriptorView {
    pub original_first_thunk: u32,
    pub is_bound: bool,
    pub time_date_stamp: u32,
    pub forwarder_chain: u32,
    pub name_rva: u32,
    pub name: Seq<char>,
    pub first_thunk: u32,
    pub import_by_names: Seq<ImportEntryView>,
}

/// The five fields of the descriptor at `p` are all zero: the table ends.
pub open spec fn is_null_descriptor(b: Seq<u8>, p: int) -> bool {
    &&& le_u32(b, p) == 0
    &&& le_u32(b, p + 4) == 0
    &&& le_u32(b, p + 8) == 0
    &&& le_u32(b, p + 12) == 0
    &&& le_u32(b, p + 16) == 0
}

/// The descriptor at `p` with its name and imports resolved, or `None` when
/// its imports run past the input.
pub open spec fn descriptor_at(b: Seq<u8>, s: Seq<SectionView>, p: int) -> Option<
    ImportDescriptorView,
> {
    match import_by_names_at(b, s, le_u32(b, p)) {
        None => None,
        Some(names) => Some(
            ImportDescriptorView {
                original_first_thunk: le_u32(b, p),
                is_bound: le_u32(b, p + 4) != 0,
                time_date_stamp: le_u32(b, p + 4),
                forwarder_chain: le_u32(b, p + 8),
                name_rva: le_u32(b, p + 12),
                name: dll_name_at(b, s, le_u32(b, p + 12)),
                first_thunk: le_u32(b, p + 16),
                import_by_names: names,
            },
        ),
    }
}

/// The descriptors from `p` up to the first all-zero one, which is not
/// included; `None` when the input ends first or a descriptor's imports run
/// past it.
pub open spec fn descriptors_from(b: Seq<u8>, s: Seq<SectionView>, p: int) -> Option<
    Seq<ImportDescriptorView>,
>
    decreases b.len() - p,
{
    if !fits(b, p, DESCRIPTOR_SIZE as int) {
        None
    } else if is_null_descriptor(b, p) {
        Some(seq![])
    } else {
        match descriptor_at(b, s, p) {
            None => None,
            Some(d) => cons(d, descriptors_from(b, s, p + DESCRIPTOR_SIZE)),
        }
    }
}

/// The import table of the directory at address `rva`: absent (`Some(None)`)
/// when no section holds it; `None` when it runs past the input.
#[verifier::opaque]
pub open spec fn import_table_at(b: Seq<u8>, s: Seq<SectionView>, rva: u32) -> Option<
    Option<Seq<ImportDescriptorView>>,
> {
    match resolve_rva(s, rva) {
        None => Some(None),
        Some(off) => match descriptors_from(b, s, off as int) {
            Some(ds) => Some(Some(ds)),
            None => None,
        },
    }
}

/// A table whose first descriptor is twenty zero bytes holds no descriptor:
/// the terminator is recognized at once.
pub proof fn lemma_zero_descriptor_ends_table(b: Seq<u8>, s: Seq<SectionView>, p: int)
    requires
        fits(b, p, DESCRIPTOR_SIZE as int),
        forall|i: int| p <= i < p + DESCRIPTOR_SIZE ==> b[i] == 0,
    ensures
        descriptors_from(b, s, p) == Some(Seq::<ImportDescriptorView>::empty()),
{
    assert(is_null_descriptor(b, p));
}

#[derive(Debug)]
pub struct ImportDirectoryTable(pub Vec<ImportDescriptor>);

impl View for ImportDirectoryTable {
    type V = Seq<ImportDescriptorView>;

    open spec fn view(&self) -> Seq<ImportDescriptorView> {
        self.0@.map_values(|d: ImportDescriptor| d@)
    }
}

impl ImportDirectoryTable {
    /// Reads the descriptors that the import directory points to, up to the
    /// all-zero one. Absent when no section holds the directory's address.
    pub fn parse(pe_file: &[u8], import_directory: DataDirectory, sections: &Sections) -> (r:
        Result<Option<ImportDirectoryTable>, PEError>)
        ensures
            match import_table_at(pe_file@, sections@, import_directory.virtual_address) {
                Some(None) => r matches Ok(None),
                Some(Some(ds)) => r matches Ok(Some(t)) && t@ == ds,
                None => r matches Err(e) && e.fault() == Some(Fault::Truncation),
            },
    {
        proof {
            reveal(import_table_at);
        }
        let o = match sections.rva_to_offset(import_directory.virtual_address) {
            Some(o) => o,
            None => {
                return Ok(None);
            },
        };
        let offset = o as usize;
        let ghost b = pe_file@;
        let ghost s = sections@;
        let mut res: Vec<ImportDescriptor> = Vec::new();
        let mut p: usize = offset;
        loop
            invariant
                b == pe_file@,
                s == sections@,
                resolve_rva(s, import_directory.virtual_address) == Some(o),
                offset == o,
                descriptors_from(b, s, offset as int) == prefix(
                    res@.map_values(|d: ImportDescriptor| d@),
                    descriptors_from(b, s, p as int),
                ),
            decreases b.len() - p,
        {
            proof {
                reveal(import_table_at);
            }
            if !has_room(pe_file, p, DESCRIPTOR_SIZE) {
                return Err(PEError::new(p, Fault::Truncation).add_context(p, "ImportDescriptor"));
            }
            if is_null_descriptor_at(pe_file, p) {
                let table = ImportDirectoryTable(res);
                assert(table@ =~= table@ + seq![]);
                return Ok(Some(table));
            }
            let (next, descriptor) = match ImportDescriptor::parse(pe_file, p, sections) {
                Ok(v) => v,
                Err(e) => {
                    return Err(e.add_context(p, "ImportDescriptor"));
                },
            };
            proof {
                let old_view = res@.map_values(|d: ImportDescriptor| d@);
                let new_view = res@.push(descriptor).map_values(|d: ImportDescriptor| d@);
                assert(new_view =~= old_view.push(descriptor@));
                match descriptors_from(b, s, next as int) {
                    Some(t) => {
                        assert(old_view + (seq![descriptor@] + t) =~= new_view + t);
                    },
                    None => {},
                }
            }
            res.push(descriptor);
            p = next;
        }
    }
}

/// Whether the descriptor at `p` is the all-zero terminator.
fn is_null_descriptor_at(input: &[u8], p: usize) -> (r: bool)
    requires
        fits(input@, p as int, DESCRIPTOR_SIZE as int),
        input@.len() <= usize::MAX,
    ensures
        r == is_null_descriptor(input@, p as int),
{
    get_u32(input, p) == 0 && get_u32(input, p + 4) == 0 && get_u32(input, p + 8) == 0 && get_u32(
        input,
        p + 12,
    ) == 0 && get_u32(input, p + 16) == 0
}

#[derive(Debug)]
pub struct ImportDescriptor {
    pub original_first_thunk: u32,
    /// Set when the time stamp is not zero.
    pub is_bound: bool,
    pub time_date_stamp: u32,
    pub forwarder_chain: u32,
    pub name_rva: u32,
    pub name: String,
    pub first_thunk: u32,
    pub import_by_names: ImportByNames,
}

impl View for ImportDescriptor {
    type V = ImportDescriptorView;

    open spec fn view(&self) -> ImportDescriptorView {
        ImportDescriptorView {
            original_first_thunk: self.original_first_thunk,
            is_bound: self.is_bound,
            time_date_stamp: self.time_date_stamp,
            forwarder_chain: self.forwarder_chain,
            name_rva: self.name_rva,
            name: self.name@,
            first_thunk: self.first_thunk,
            import_by_names: self.import_by_names@,
        }
    }
}

impl ImportDescriptor {
    /// Reads the descriptor at `pos` of `pe_file`, resolving its name and
    /// lookup table through the section table against the whole file.
    pub fn parse(pe_file: &[u8], pos: usize, sections: &Sections) -> (r: Result<
        (usize, ImportDescriptor),
        PEError,
    >)
        ensures
            match r {
                Ok((next, d)) => fits(pe_file@, pos as int, DESCRIPTOR_SIZE as int) && next == pos
                    + DESCRIPTOR_SIZE && descriptor_at(pe_file@, sections@, pos as int) == Some(d@),
                Err(e) => e.fault() == Some(Fault::Truncation) && (!fits(
                    pe_file@,
                    pos as int,
                    DESCRIPTOR_SIZE as int,
                ) || descriptor_at(pe_file@, sections@, pos as int) is None),
            },
    {
        let (i, original_first_thunk) = read_u32(pe_file, pos, "OriginalFirstThunk")?;
        let (i, time_date_stamp) = read_u32(pe_file, i, "TimeDateStamp")?;
        let (i, forwarder_chain) = read_u32(pe_file, i, "ForwarderChain")?;
        let (i, name_rva) = read_u32(pe_file, i, "Name")?;
        let (i, first_thunk) = read_u32(pe_file, i, "FirstThunk")?;
        let name = match Self::get_dll_name(pe_file, name_rva, sections) {
            Some(n) => n,
            None => String::new(),
        };
        let import_by_names = ImportByNames::parse(pe_file, original_first_thunk, sections)?;
        let descriptor = ImportDescriptor {
            original_first_thunk,
            is_bound: time_date_stamp != 0,
            time_date_stamp,
            forwarder_chain,
            name_rva,
            name,
            first_thunk,
            import_by_names,
        };
        Ok((i, descriptor))
    }

    /// The NUL-terminated DLL name at address `name_rva`; `None` when no
    /// section holds the address or its offset lies past the input.
    pub fn get_dll_name(input: &[u8], name_rva: u32, sections: &Sections) -> (r: Option<String>)
        ensures
            match r {
                Some(n) => resolve_rva(sections@, name_rva) matches Some(off) && off <= input@.len()
                    && n@ == dll_name_at(input@, sections@, name_rva),
                None => !(resolve_rva(sections@, name_rva) matches Some(off) && off
                    <= input@.len()),
            },
    {
        match sections.rva_to_offset(name_rva) {
            Some(offset) => {
                let offset = offset as usize;
                if offset <= input.len() {
                    Some(read_null_terminated_string(&input[offset..input.len()]))
                } else {
                    None
                }
            },
            None => None,
        }
    }
}

/// The functions that one descriptor imports, in lookup-table order.
#[derive(Debug)]
pub struct ImportByNames(pub Vec<ImportEntry>);

impl View for ImportByNames {
    type V = Seq<ImportEntryView>;

    open spec fn view(&self) -> Seq<ImportEntryView> {
        self.0@.map_values(|e: ImportEntry| e@)
    }
}

impl ImportByNames {
    /// Decodes the lookup table at address `original_first_thunk`.
    pub fn parse(pe_file: &[u8], original_first_thunk: u32, sections: &Sections) -> (r: Result<
        ImportByNames,
        PEError,
    >)
        ensures
            match import_by_names_at(pe_file@, sections@, original_first_thunk) {
                Some(names) => r matches Ok(n) && n@ == names,
                None => r matches Err(e) && e.fault() == Some(Fault::Truncation),
            },
    {
        let ilt = Self::read_import_lookup_table(pe_file, original_first_thunk, sections)?;
        let ghost b = pe_file@;
        let ghost s = sections@;
        let ghost es = ilt@;
        assert(import_by_names_at(b, s, original_first_thunk) == imports_from(b, s, es, 0));
        let mut import_by_names: Vec<ImportEntry> = Vec::new();
        let mut i: usize = 0;
        while i < ilt.len()
            invariant
                b == pe_file@,
                s == sections@,
                es == ilt@,
                i <= es.len(),
                import_by_names_at(b, s, original_first_thunk) == imports_from(b, s, es, 0),
                imports_from(b, s, es, 0) == prefix(
                    import_by_names@.map_values(|e: ImportEntry| e@),
                    imports_from(b, s, es, i as int),
                ),
            decreases es.len() - i,
        {
            let entry = ilt[i];
            let ghost old_view = import_by_names@.map_values(|e: ImportEntry| e@);
            if entry >= ORDINAL_FLAG {
                let item = ImportEntry::Ordinal((entry % 0x1_0000) as u16);
                proof {
                    let new_view = import_by_names@.push(item).map_values(|e: ImportEntry| e@);
                    assert(new_view =~= old_view.push(item@));
                    match imports_from(b, s, es, i + 1) {
                        Some(t) => {
                            assert(old_view + (seq![item@] + t) =~= new_view + t);
                        },
                        None => {},
                    }
                }
                import_by_names.push(item);
            } else {
                match ImportByName::parse(pe_file, entry, sections)? {
                    Some(import_by_name) => {
                        let item = ImportEntry::Name(import_by_name);
                        proof {
                            let new_view = import_by_names@.push(item).map_values(
                                |e: ImportEntry| e@,
                            );
                            assert(new_view =~= old_view.push(item@));
                            match imports_from(b, s, es, i + 1) {
                                Some(t) => {
                                    assert(old_view + (seq![item@] + t) =~= new_view + t);
                                },
                                None => {},
                            }
                        }
                        import_by_names.push(item);
                    },
                    None => {},
                }
            }
            i = i + 1;
        }
        let result = ImportByNames(import_by_names);
        assert(result@ =~= result@ + seq![]);
        Ok(result)
    }

    /// The entries of the lookup table at address `rva`, up to the zero
    /// entry; none when no section holds the address.
    pub fn read_import_lookup_table(pe_file: &[u8], rva: u32, sections: &Sections) -> (r: Result<
        Vec<u32>,
        PEError,
    >)
        ensures
            match resolve_rva(sections@, rva) {
                None => r matches Ok(v) && v@.len() == 0,
                Some(off) => match lookup_entries(pe_file@, off as int) {
                    Some(es) => r matches Ok(v) && v@ == es,
                    None => r matches Err(e) && e.fault() == Some(Fault::Truncation),
                },
            },
    {
        let o = match sections.rva_to_offset(rva) {
            Some(o) => o,
            None => {
                return Ok(Vec::new());
            },
        };
        let offset = o as usize;
        let ghost b = pe_file@;
        let mut entries: Vec<u32> = Vec::new();
        let mut p: usize = offset;
        loop
            invariant
                b == pe_file@,
                resolve_rva(sections@, rva) == Some(o),
                offset == o,
                lookup_entries(b, offset as int) == prefix(entries@, lookup_entries(b, p as int)),
            decreases b.len() - p,
        {
            let (next, entry) = read_u32(pe_file, p, "ImportLookupEntry")?;
            if entry == 0 {
                assert(entries@ =~= entries@ + seq![]);
                return Ok(entries);
            }
            proof {
                match lookup_entries(b, next as int) {
                    Some(t) => {
                        assert(entries@ + (seq![entry] + t) =~= entries@.push(entry) + t);
                    },
                    None => {},
                }
            }
            entries.push(entry);
            p = next;
        }
    }
}

/// One imported function: by hint and name, or by ordinal alone (its name is
/// not looked up).
#[derive(Debug)]
pub enum ImportEntry {
    Name(ImportByName),
    Ordinal(u16),
}

impl View for ImportEntry {
    type V = ImportEntryView;

    open spec fn view(&self) -> ImportEntryView {
        match self {
            ImportEntry::Name(n) => ImportEntryView::Name(n@),
            ImportEntry::Ordinal(o) => ImportEntryView::Ordinal(*o),
        }
    }
}

#[derive(Debug)]
pub struct ImportByName {
    pub hint: u16,
    pub name: String,
}

impl View for ImportByName {
    type V = ImportByNameView;

    open spec fn view(&self) -> ImportByNameView {
        ImportByNameView { hint: self.hint, name: self.name@ }
    }
}

impl ImportByName {
    /// The hint and name entry at address `rva`; `None` when no section
    /// holds the address.
    pub fn parse(pe_file: &[u8], rva: u32, sections: &Sections) -> (r: Result<
        Option<ImportByName>,
        PEError,
    >)
        ensures
            match resolve_rva(sections@, rva) {
                None => r matches Ok(None),
                Some(off) => if fits(pe_file@, off as int, 2) {
                    r matches Ok(Some(n)) && n@ == import_by_name_at(pe_file@, off as int)
                } else {
                    r matches Err(e) && e.fault() == Some(Fault::Truncation)
                },
            },
    {
        let offset = match sections.rva_to_offset(rva) {
            Some(o) => o as usize,
            None => {
                return Ok(None);
            },
        };
        let (i, hint) = read_u16(pe_file, offset, "Hint")?;
        let name = read_null_terminated_string(&pe_file[i..pe_file.len()]);
        Ok(Some(ImportByName { hint, name }))
    }
}

} // verus!
