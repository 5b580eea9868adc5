//! The resource-bearing entity interface: what a decoded entity that can
//! carry package resource bytes offers to its container.

use vstd::prelude::*;

verus! {

use crate::Error;

/// A decoded entity that can report a resource size and accept resource
/// bytes from a package's resource region.  The inherent methods of each
/// implementing type carry the exact contracts; this interface is what a
/// container holds them by.
pub trait ResourceManager {
    /// A short display name.
    fn title(&self) -> &'static str;

    /// How many resource bytes the entity expects.
    fn get_resource_size(&self) -> u32;

    /// Hands resource bytes to the entity.
    fn set_resource(&mut self, resource: Vec<u8>) -> Result<(), Error>;
}

impl ResourceManager for crate::bxon::BXON {
    fn title(&self) -> &'static str {
        crate::bxon::BXON::title(self)
    }

    fn get_resource_size(&self) -> u32 {
        crate::bxon::BXON::get_resource_size(self)
    }

    fn set_resource(&mut self, resource: Vec<u8>) -> Result<(), Error> {
        crate::bxon::BXON::set_resource(self, resource)
    }
}

impl ResourceManager for crate::tex::TpGxTexHead {
    fn title(&self) -> &'static str {
        "tpGxTexHead"
    }

    fn get_resource_size(&self) -> u32 {
        crate::tex::TpGxTexHead::get_resource_size(self)
    }

    fn set_resource(&mut self, resource: Vec<u8>) -> Result<(), Error> {
        crate::tex::TpGxTexHead::set_resource(self, resource)
    }
}

impl ResourceManager for crate::tp_archive_file_param::TpArchiveFileParam {
    fn title(&self) -> &'static str {
        "tpArchiveFileParam"
    }

    fn get_resource_size(&self) -> u32 {
        0
    }

    fn set_resource(&mut self, _resource: Vec<u8>) -> Result<(), Error> {
        Ok(())
    }
}

} // verus!
