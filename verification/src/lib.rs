//! Decoder for a family of nested, offset-addressed binary asset containers,
//! with verified offset resolution, table parsing, and archive extraction.

pub mod bxon;
pub mod dispatch;
pub mod frame;
pub mod generic_file;
pub mod pack;
pub mod tex;
pub mod tp_archive_file_param;
pub mod traits;
pub mod util;

use vstd::prelude::*;

verus! {

/// Errors that decoding and extraction can report.
#[derive(Clone, Copy, Debug, PartialEq, Eq, Structural)]
pub enum Error {
    /// A read, seek or write went past the end of the data.
    IoError,
    /// A compressed frame or resource payload could not be decoded.
    CorruptData,
    /// A container magic or asset type string was not recognised.
    UnknownFormat,
    /// A named external archive was not found at the expected location.
    ArchiveNotFound,
    /// No output destination was chosen for an extraction.
    OutputTargetMissing,
}

} // verus!
