//! The typed-asset container: a small header plus a type-name string that
//! selects which typed-asset handler decodes the remaining payload.  Unknown
//! type strings produce a placeholder asset that keeps the type string.

use vstd::prelude::*;

verus! {

use crate::Error;
use crate::tex::{TpGxTexHead, is_tex_head_at, tex_head_parseable, tex_set_resource_relation};
use crate::tp_archive_file_param::{
    TpArchiveFileParam,
    archive_file_param_parseable,
    is_archive_file_param_at,
};
use crate::util::{cstring_at, cstring_end, le32_at, resolved_at};

/// The magic of a typed-asset container, `BXON`.
pub open spec fn bxon_magic() -> Seq<u8> {
    seq![0x42u8, 0x58u8, 0x4Fu8, 0x4Eu8]
}

/// The type-name bytes that select the archive index asset,
/// `tpArchiveFileParam`.
pub open spec fn archive_file_param_type() -> Seq<u8> {
    seq![
        0x74u8,
        0x70u8,
        0x41u8,
        0x72u8,
        0x63u8,
        0x68u8,
        0x69u8,
        0x76u8,
        0x65u8,
        0x46u8,
        0x69u8,
        0x6Cu8,
        0x65u8,
        0x50u8,
        0x61u8,
        0x72u8,
        0x61u8,
        0x6Du8,
    ]
}

/// The type-name bytes that select the texture asset, `tpGxTexHead`.
pub open spec fn tex_head_type() -> Seq<u8> {
    seq![0x74u8, 0x70u8, 0x47u8, 0x78u8, 0x54u8, 0x65u8, 0x78u8, 0x48u8, 0x65u8, 0x61u8, 0x64u8]
}

/// The bytes of `archive_file_param_type`, as data.
pub fn archive_file_param_type_bytes() -> (r: Vec<u8>)
    ensures
        r@ == archive_file_param_type(),
{
    let mut v: Vec<u8> = Vec::new();
    v.push(0x74);
    v.push(0x70);
    v.push(0x41);
    v.push(0x72);
    v.push(0x63);
    v.push(0x68);
    v.push(0x69);
    v.push(0x76);
    v.push(0x65);
    v.push(0x46);
    v.push(0x69);
    v.push(0x6C);
    v.push(0x65);
    v.push(0x50);
    v.push(0x61);
    v.push(0x72);
    v.push(0x61);
    v.push(0x6D);
    proof {
        assert(v@ =~= archive_file_param_type());
    }
    v
}

/// The bytes of `tex_head_type`, as data.
pub fn tex_head_type_bytes() -> (r: Vec<u8>)
    ensures
        r@ == tex_head_type(),
{
    let mut v: Vec<u8> = Vec::new();
    v.push(0x74);
    v.push(0x70);
    v.push(0x47);
    v.push(0x78);
    v.push(0x54);
    v.push(0x65);
    v.push(0x78);
    v.push(0x48);
    v.push(0x65);
    v.push(0x61);
    v.push(0x64);
    proof {
        assert(v@ =~= tex_head_type());
    }
    v
}

/// The one decoded asset a typed-asset container owns, chosen by its type
/// string; an unrecognised type keeps the string for diagnostics and
/// exposes no structured data.
#[derive(Clone, Debug)]
pub enum BxonAsset {
    ArchiveFileParam(TpArchiveFileParam),
    TexHead(TpGxTexHead),
    Unknown(Vec<u8>),
}

/// How `set_resource` transforms an asset: a texture stores and decodes the
/// payload; every other asset silently discards it.
pub open spec fn asset_set_resource_relation(
    pre: BxonAsset,
    post: BxonAsset,
    bytes: Seq<u8>,
) -> bool {
    match pre {
        BxonAsset::TexHead(t) => post matches BxonAsset::TexHead(t2) && tex_set_resource_relation(
            t,
            t2,
            bytes,
        ),
        _ => post == pre,
    }
}

impl BxonAsset {
    /// The number of resource bytes this asset expects from the package's
    /// resource region: only a texture carries a resource.
    pub open spec fn spec_resource_size(&self) -> u32 {
        match self {
            BxonAsset::TexHead(t) => t.size,
            _ => 0,
        }
    }

    /// Reports how many resource bytes this asset expects.
    pub fn get_resource_size(&self) -> (r: u32)
        ensures
            r == self.spec_resource_size(),
    {
        match self {
            BxonAsset::TexHead(t) => t.get_resource_size(),
            _ => 0,
        }
    }

    /// Hands externally supplied resource bytes to the asset; assets other
    /// than a texture accept and discard them.
    pub fn set_resource(&mut self, resource: Vec<u8>) -> (r: Result<(), Error>)
        ensures
            asset_set_resource_relation(*old(self), *final(self), resource@),
            (*old(self) matches BxonAsset::TexHead(t) ==> (r is Err <==> resource@.len()
                != t.size)),
            !(*old(self) is TexHead) ==> r is Ok,
            r matches Err(e) ==> e == Error::CorruptData,
    {
        match self {
            BxonAsset::TexHead(t) => t.set_resource(resource),
            _ => Ok(()),
        }
    }

    /// A short display name for the asset.
    pub fn title(&self) -> (r: &'static str)
        ensures
            self is ArchiveFileParam ==> r@ == "tpArchiveFileParam"@,
            self is TexHead ==> r@ == "tpGxTexHead"@,
            self is Unknown ==> r@ == "Unknown"@,
    {
        match self {
            BxonAsset::ArchiveFileParam(_) => "tpArchiveFileParam",
            BxonAsset::TexHead(_) => "tpGxTexHead",
            BxonAsset::Unknown(_) => "Unknown",
        }
    }
}

/// A typed-asset container: the header, the resolved type string, and the
/// one asset the type string selects.
#[derive(Clone, Debug)]
pub struct BXON {
    pub id: Vec<u8>,
    pub version: u32,
    pub project_id: u32,
    pub relative_offset_asset_type: u32,
    pub offset_asset_type: u64,
    pub relative_offset_asset_data: u32,
    pub offset_asset_data: u64,
    pub asset_type: Vec<u8>,
    pub asset: BxonAsset,
}

/// `b` holds exactly the container header of `s` at `p`, the type string
/// its offset reaches, and the asset that string selects, decoded at the
/// resolved data offset.
pub open spec fn is_bxon_at(s: Seq<u8>, p: int, b: BXON) -> bool {
    let ty = cstring_at(s, resolved_at(s, p + 12));
    let d = resolved_at(s, p + 16);
    &&& b.id@ == s.subrange(p, p + 4)
    &&& b.version == le32_at(s, p + 4)
    &&& b.project_id == le32_at(s, p + 8)
    &&& b.relative_offset_asset_type == le32_at(s, p + 12)
    &&& b.offset_asset_type == resolved_at(s, p + 12)
    &&& b.relative_offset_asset_data == le32_at(s, p + 16)
    &&& b.offset_asset_data == d
    &&& cstring_end(s, resolved_at(s, p + 12)) is Some
    &&& b.asset_type@ == ty
    &&& (if ty == archive_file_param_type() {
        b.asset matches BxonAsset::ArchiveFileParam(t) && is_archive_file_param_at(s, d, t)
    } else if ty == tex_head_type() {
        b.asset matches BxonAsset::TexHead(t) && is_tex_head_at(s, d, t)
    } else {
        b.asset matches BxonAsset::Unknown(u) && u@ == ty
    })
}

/// The 20-byte container header lies within `s`, the type offset reaches a
/// null-terminated string, and the payload the type selects parses at the
/// resolved data offset.
pub open spec fn bxon_parseable(s: Seq<u8>, p: int) -> bool {
    let ty = cstring_at(s, resolved_at(s, p + 12));
    let d = resolved_at(s, p + 16);
    &&& p + 20 <= s.len()
    &&& resolved_at(s, p + 16) <= u64::MAX
    &&& cstring_end(s, resolved_at(s, p + 12)) is Some
    &&& (ty == archive_file_param_type() ==> archive_file_param_parseable(s, d))
    &&& (ty == tex_head_type() ==> tex_head_parseable(s, d))
}

/// How `set_resource` transforms a container: the header stays, the asset
/// takes the bytes.
pub open spec fn bxon_set_resource_relation(pre: BXON, post: BXON, bytes: Seq<u8>) -> bool {
    &&& post.id == pre.id
    &&& post.version == pre.version
    &&& post.project_id == pre.project_id
    &&& post.relative_offset_asset_type == pre.relative_offset_asset_type
    &&& post.offset_asset_type == pre.offset_asset_type
    &&& post.relative_offset_asset_data == pre.relative_offset_asset_data
    &&& post.offset_asset_data == pre.offset_asset_data
    &&& post.asset_type == pre.asset_type
    &&& asset_set_resource_relation(pre.asset, post.asset, bytes)
}

impl BXON {
    /// Parses a typed-asset container at `pos`: the header, the type string
    /// read through its resolved offset, then the asset the string selects,
    /// decoded at the resolved data offset.
    pub fn new(data: &[u8], pos: usize) -> (r: Result<BXON, Error>)
        ensures
            r matches Ok(b) ==> is_bxon_at(data@, pos as int, b),
            r is Ok <==> bxon_parseable(data@, pos as int),
            r matches Err(e) ==> e == Error::IoError || e == Error::CorruptData,
    {
        let n = data.len();
        if n < 20 || pos > n - 20 {
            return Err(Error::IoError);
        }
        let id = match crate::util::copy_range(data, pos, 4) {
            Ok(v) => v,
            Err(_) => vstd::pervasive::unreached(),
        };
        let version = crate::util::read_u32_le(data, pos + 4)?;
        let project_id = crate::util::read_u32_le(data, pos + 8)?;
        let (offset_asset_type, relative_offset_asset_type) = crate::util::resolve_offset(
            data,
            pos + 12,
        )?;
        if offset_asset_type > n as u64 {
            proof {
                crate::util::cstring_end_none_past_len(data@, resolved_at(data@, pos + 12));
            }
            return Err(Error::IoError);
        }
        let asset_type = crate::util::read_cstring(data, offset_asset_type as usize)?;
        let (offset_asset_data, relative_offset_asset_data) = crate::util::resolve_offset(
            data,
            pos + 16,
        )?;

        let asset: BxonAsset = if crate::util::bytes_eq(
            asset_type.as_slice(),
            archive_file_param_type_bytes().as_slice(),
        ) {
            if offset_asset_data > n as u64 {
                return Err(Error::IoError);
            }
            let t = crate::tp_archive_file_param::TpArchiveFileParam::new(
                data,
                offset_asset_data as usize,
            )?;
            BxonAsset::ArchiveFileParam(t)
        } else if crate::util::bytes_eq(asset_type.as_slice(), tex_head_type_bytes().as_slice()) {
            if offset_asset_data > n as u64 {
                return Err(Error::IoError);
            }
            let t = crate::tex::TpGxTexHead::new(data, offset_asset_data as usize)?;
            BxonAsset::TexHead(t)
        } else {
            BxonAsset::Unknown(crate::util::clone_bytes(asset_type.as_slice()))
        };

        Ok(
            BXON {
                id,
                version,
                project_id,
                relative_offset_asset_type,
                offset_asset_type,
                relative_offset_asset_data,
                offset_asset_data,
                asset_type,
                asset,
            },
        )
    }

    /// The number of resource bytes the owned asset expects.
    pub fn get_resource_size(&self) -> (r: u32)
        ensures
            r == self.asset.spec_resource_size(),
    {
        self.asset.get_resource_size()
    }

    /// Hands externally supplied resource bytes to the owned asset.
    pub fn set_resource(&mut self, resource: Vec<u8>) -> (r: Result<(), Error>)
        ensures
            bxon_set_resource_relation(*old(self), *final(self), resource@),
            r matches Err(e) ==> e == Error::CorruptData,
    {
        self.asset.set_resource(resource)
    }

    /// A short display name for the container.
    pub fn title(&self) -> (r: &'static str)
        ensures
            r@ == "BXON"@,
    {
        "BXON"
    }
}

} // verus!
