//! The code-list container: an ordered collection of `(code, term)` entries
//! together with its coding system and metadata. The container itself is a
//! simple data holder; validation of its codes lives in the validator modules,
//! which only read the entries in their stored order.

use vstd::prelude::*;
use crate::errors::CodeListError;
use crate::metadata::Metadata;

verus! {

/// The coding system a list's codes claim to belong to.
#[derive(Clone, Copy, Debug, PartialEq, Eq, Structural)]
pub enum CodeListType {
    OPCS,
    ICD10,
    SNOMED,
}

/// One entry of a code list: a code and the term it stands for.
pub struct CodeEntry {
    pub code: String,
    pub term: String,
}

/// An ordered list of code entries for one coding system.
pub struct CodeList {
    pub entries: Vec<CodeEntry>,
    pub codelist_type: CodeListType,
    pub metadata: Metadata,
}

/// The codes of a list, in stored order.
pub open spec fn list_codes(list: &CodeList) -> Seq<Seq<char>> {
    list.entries@.map_values(|e: CodeEntry| e.code@)
}

impl CodeList {
    /// An empty code list for the given coding system.
    pub fn new(codelist_type: CodeListType, metadata: Metadata) -> (list: Self)
        ensures
            list.entries@.len() == 0,
            list.codelist_type == codelist_type,
            list.metadata == metadata,
    {
        CodeList { entries: Vec::new(), codelist_type, metadata }
    }

    /// Append a `(code, term)` entry at the end of the list.
    pub fn add_entry(&mut self, code: String, term: String) -> (r: Result<(), CodeListError>)
        ensures
            r is Ok,
            final(self).entries@ == old(self).entries@.push(CodeEntry { code, term }),
            final(self).codelist_type == old(self).codelist_type,
            final(self).metadata == old(self).metadata,
    {
        self.entries.push(CodeEntry { code, term });
        Ok(())
    }
}

} // verus!
