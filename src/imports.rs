//! The imports of an image.
pub mod import_directory_table;

use crate::errors::{Fault, PEError};
use crate::headers::nt::DataDirectory;
use crate::headers::sections::Sections;
use import_directory_table::{import_table_at, ImportDescriptorView, ImportDirectoryTable};
use vstd::prelude::*;

verus! {

#[derive(Debug)]
pub struct Imports {
    pub directory_table: ImportDirectoryTable,
}

impl View for Imports {
    type V = Seq<ImportDescriptorView>;

    open spec fn view(&self) -> Seq<ImportDescriptorView> {
        self.directory_table@
    }
}

impl Imports {
    /// The imports that the import directory describes; absent when no
    /// section holds the directory's address.
    pub fn parse(input: &[u8], import_directory: DataDirectory, sections: &Sections) -> (r: Result<
        Option<Imports>,
        PEError,
    >)
        ensures
            match import_table_at(input@, sections@, import_directory.virtual_address) {
                Some(None) => r matches Ok(None),
                Some(Some(ds)) => r matches Ok(Some(t)) && t@ == ds,
                None => r matches Err(e) && e.fault() == Some(Fault::Truncation),
            },
    {
        match ImportDirectoryTable::parse(input, import_directory, sections)? {
            Some(directory_table) => Ok(Some(Imports { directory_table })),
            None => Ok(None),
        }
    }
}

} // verus!
