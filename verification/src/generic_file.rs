//! Passthrough holders for inputs whose bytes carry no recognised
//! structure: they keep the source path and still render a title.

use vstd::prelude::*;

verus! {

/// An opened input with no recognised structure, kept by its path.
#[derive(Clone, Debug)]
pub struct GenericFile {
    pub path: String,
}

impl GenericFile {
    /// Wraps a source path.
    pub fn new(path: String) -> (r: GenericFile)
        ensures
            r.path == path,
    {
        GenericFile { path }
    }

    /// The source path.
    pub fn path(&self) -> (r: &String)
        ensures
            r == &self.path,
    {
        &self.path
    }

    /// A short display name that always renders.
    pub fn title(&self) -> (r: &'static str)
        ensures
            r@ == "Unknown"@,
    {
        "Unknown"
    }
}

/// A manager over a passthrough input: the same path holder, offered where
/// a decoded entity is expected.
#[derive(Clone, Debug)]
pub struct GenericFileManager {
    pub path: String,
}

impl GenericFileManager {
    /// Wraps a source path.
    pub fn new(path: String) -> (r: GenericFileManager)
        ensures
            r.path == path,
    {
        GenericFileManager { path }
    }

    /// The source path.
    pub fn path(&self) -> (r: &String)
        ensures
            r == &self.path,
    {
        &self.path
    }

    /// A short display name that always renders.
    pub fn title(&self) -> (r: &'static str)
        ensures
            r@ == "Unknown"@,
    {
        "Unknown"
    }
}

} // verus!
