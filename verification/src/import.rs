//! The description of an external resource reference.
//!
//! Import resolution itself is an external collaborator: it fetches these
//! locations and splices the results into the tree before this core sees
//! it.  The types stay here because the binary codec needs a fixed,
//! exactly specified shape for each import-location variant.

use vstd::prelude::*;

verus! {

/// The beginning of a file path which anchors subsequent path components.
#[derive(Debug, Clone, Copy, PartialEq, Eq, Structural)]
pub enum FilePrefix {
    /// An absolute path.
    Absolute,
    /// A path relative to the current directory.
    Here,
    /// A path relative to the parent directory.
    Parent,
    /// A path relative to the home directory.
    Home,
}

/// The scheme of a remote import.
#[derive(Debug, Clone, Copy, PartialEq, Eq, Structural)]
pub enum Scheme {
    HTTP,
    HTTPS,
}

/// How to interpret an import's contents: as code or as raw text.
#[derive(Debug, Clone, Copy, PartialEq, Eq, Structural)]
pub enum ImportMode {
    Code,
    RawText,
}

/// The location of an import: local, remote, an environment variable, or
/// the literal `missing` sentinel.
#[derive(Debug, PartialEq, Eq)]
pub enum ImportLocation {
    Local(FilePrefix, Vec<String>),
    Remote(URL),
    Env(String),
    Missing,
}

/// A remote import location, with optional custom headers.
#[derive(Debug, PartialEq, Eq)]
pub struct URL {
    pub scheme: Scheme,
    pub authority: String,
    pub path: Vec<String>,
    pub query: Option<String>,
    pub headers: Option<Box<ImportHashed>>,
}

/// An integrity check attached to an import.
#[derive(Debug, PartialEq, Eq)]
pub struct Hash {
    pub protocol: String,
    pub hash: String,
}

/// An import location together with its optional integrity check.
#[derive(Debug, PartialEq, Eq)]
pub struct ImportHashed {
    pub location: ImportLocation,
    pub hash: Option<Hash>,
}

/// A reference to an external resource.
#[derive(Debug, PartialEq, Eq)]
pub struct Import {
    pub mode: ImportMode,
    pub location_hashed: ImportHashed,
}

} // verus!
