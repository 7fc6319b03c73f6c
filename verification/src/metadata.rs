//! Descriptive metadata attached to a code list.

use vstd::prelude::*;

verus! {

/// Where a code list came from.
#[derive(Clone, Copy, Debug, PartialEq, Eq, Structural)]
pub enum MetadataSource {
    /// Loaded from an existing file.
    LoadedFromFile,
    /// Built up by hand.
    ManuallyCreated,
}

/// Descriptive metadata of a code list: its source and optional free-text
/// authorship, version and description fields.
pub struct Metadata {
    pub source: MetadataSource,
    pub authors: Option<Vec<String>>,
    pub version: Option<String>,
    pub description: Option<String>,
}

} // verus!
