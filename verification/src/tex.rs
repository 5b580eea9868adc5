//! The texture asset: mip/surface metadata plus pixel-format mapping, from
//! which a standard image-container byte stream and decoded per-mip images
//! are derived.

use vstd::prelude::*;

verus! {

use crate::Error;
use crate::util::{le32_at, le32_bytes, resolved_at};

/// Internal pixel-format code of a texture asset.  The numeric codes form a
/// closed lookup table; any other code is carried through as `UNKNOWN`.
#[allow(non_camel_case_types)]
#[derive(Clone, Copy, Debug, PartialEq, Eq, Structural)]
pub enum XonSurfaceDXGIFormat {
    UNKNOWN(u32),
    R8g8b8a8UnormStraight,
    R8g8b8a8Unorm,
    R8Unorm,
    R8g8b8a8UnormSrgb,
    Bc1Unorm,
    Bc1UnormSrgb,
    Bc2Unorm,
    Bc2UnormSrgb,
    Bc3Unorm,
    Bc3UnormSrgb,
    Bc4Unorm,
    Bc5Unorm,
    Bc7Unorm,
    Bc1UnormVolume,
    Bc7UnormSrgb,
    R32g32b32a32Uint,
    Bc6hUf16,
}

/// The closed mapping from a stored format code to a format variant; codes
/// outside the table map to `UNKNOWN` with the code preserved.
pub open spec fn spec_format_from_u32(value: u32) -> XonSurfaceDXGIFormat {
    if value == 0x00010700 {
        XonSurfaceDXGIFormat::R8g8b8a8UnormStraight
    } else if value == 0x00010800 {
        XonSurfaceDXGIFormat::R8g8b8a8Unorm
    } else if value == 0x00010A00 {
        XonSurfaceDXGIFormat::R8Unorm
    } else if value == 0x00010B00 {
        XonSurfaceDXGIFormat::R8g8b8a8UnormSrgb
    } else if value == 0x00010F00 {
        XonSurfaceDXGIFormat::Bc1Unorm
    } else if value == 0x00011000 {
        XonSurfaceDXGIFormat::Bc1UnormSrgb
    } else if value == 0x00011100 {
        XonSurfaceDXGIFormat::Bc2Unorm
    } else if value == 0x00011200 {
        XonSurfaceDXGIFormat::Bc2UnormSrgb
    } else if value == 0x00011300 {
        XonSurfaceDXGIFormat::Bc3Unorm
    } else if value == 0x00011400 {
        XonSurfaceDXGIFormat::Bc3UnormSrgb
    } else if value == 0x00011500 {
        XonSurfaceDXGIFormat::Bc4Unorm
    } else if value == 0x00011600 {
        XonSurfaceDXGIFormat::Bc5Unorm
    } else if value == 0x00011900 {
        XonSurfaceDXGIFormat::Bc7Unorm
    } else if value == 0x00021700 {
        XonSurfaceDXGIFormat::Bc1UnormVolume
    } else if value == 0x00021A00 {
        XonSurfaceDXGIFormat::Bc7UnormSrgb
    } else if value == 0x00030000 {
        XonSurfaceDXGIFormat::R32g32b32a32Uint
    } else if value == 0x00031700 {
        XonSurfaceDXGIFormat::Bc6hUf16
    } else {
        XonSurfaceDXGIFormat::UNKNOWN(value)
    }
}

/// The stored code of a format variant; `UNKNOWN` carries its code through.
pub open spec fn spec_format_to_u32(f: XonSurfaceDXGIFormat) -> u32 {
    match f {
        XonSurfaceDXGIFormat::UNKNOWN(value) => value,
        XonSurfaceDXGIFormat::R8g8b8a8UnormStraight => 0x00010700,
        XonSurfaceDXGIFormat::R8g8b8a8Unorm => 0x00010800,
        XonSurfaceDXGIFormat::R8Unorm => 0x00010A00,
        XonSurfaceDXGIFormat::R8g8b8a8UnormSrgb => 0x00010B00,
        XonSurfaceDXGIFormat::Bc1Unorm => 0x00010F00,
        XonSurfaceDXGIFormat::Bc1UnormSrgb => 0x00011000,
        XonSurfaceDXGIFormat::Bc2Unorm => 0x00011100,
        XonSurfaceDXGIFormat::Bc2UnormSrgb => 0x00011200,
        XonSurfaceDXGIFormat::Bc3Unorm => 0x00011300,
        XonSurfaceDXGIFormat::Bc3UnormSrgb => 0x00011400,
        XonSurfaceDXGIFormat::Bc4Unorm => 0x00011500,
        XonSurfaceDXGIFormat::Bc5Unorm => 0x00011600,
        XonSurfaceDXGIFormat::Bc7Unorm => 0x00011900,
        XonSurfaceDXGIFormat::Bc1UnormVolume => 0x00021700,
        XonSurfaceDXGIFormat::Bc7UnormSrgb => 0x00021A00,
        XonSurfaceDXGIFormat::R32g32b32a32Uint => 0x00030000,
        XonSurfaceDXGIFormat::Bc6hUf16 => 0x00031700,
    }
}

/// The standard image-container format code of a variant; `UNKNOWN` passes
/// its stored code through unchanged.
pub open spec fn spec_format_to_dxgi(f: XonSurfaceDXGIFormat) -> u32 {
    match f {
        XonSurfaceDXGIFormat::UNKNOWN(value) => value,
        XonSurfaceDXGIFormat::R8g8b8a8UnormStraight => 28,
        XonSurfaceDXGIFormat::R8g8b8a8Unorm => 28,
        XonSurfaceDXGIFormat::R8Unorm => 61,
        XonSurfaceDXGIFormat::R8g8b8a8UnormSrgb => 29,
        XonSurfaceDXGIFormat::Bc1Unorm => 71,
        XonSurfaceDXGIFormat::Bc1UnormSrgb => 72,
        XonSurfaceDXGIFormat::Bc2Unorm => 74,
        XonSurfaceDXGIFormat::Bc2UnormSrgb => 75,
        XonSurfaceDXGIFormat::Bc3Unorm => 77,
        XonSurfaceDXGIFormat::Bc3UnormSrgb => 78,
        XonSurfaceDXGIFormat::Bc4Unorm => 80,
        XonSurfaceDXGIFormat::Bc5Unorm => 83,
        XonSurfaceDXGIFormat::Bc7Unorm => 98,
        XonSurfaceDXGIFormat::Bc1UnormVolume => 71,
        XonSurfaceDXGIFormat::Bc7UnormSrgb => 99,
        XonSurfaceDXGIFormat::R32g32b32a32Uint => 2,
        XonSurfaceDXGIFormat::Bc6hUf16 => 95,
    }
}

/// The alpha mode recorded in the image-container header for a variant.
pub open spec fn spec_format_alpha_mode(f: XonSurfaceDXGIFormat) -> u32 {
    match f {
        XonSurfaceDXGIFormat::R8g8b8a8UnormStraight => 1,
        _ => 2,
    }
}

impl XonSurfaceDXGIFormat {
    /// Maps a stored format code to its variant; unmapped codes give
    /// `UNKNOWN` and never fail.
    pub fn from_u32(value: u32) -> (r: Self)
        ensures
            r == spec_format_from_u32(value),
    {
        match value {
            0x00010700 => XonSurfaceDXGIFormat::R8g8b8a8UnormStraight,
            0x00010800 => XonSurfaceDXGIFormat::R8g8b8a8Unorm,
            0x00010A00 => XonSurfaceDXGIFormat::R8Unorm,
            0x00010B00 => XonSurfaceDXGIFormat::R8g8b8a8UnormSrgb,
            0x00010F00 => XonSurfaceDXGIFormat::Bc1Unorm,
            0x00011000 => XonSurfaceDXGIFormat::Bc1UnormSrgb,
            0x00011100 => XonSurfaceDXGIFormat::Bc2Unorm,
            0x00011200 => XonSurfaceDXGIFormat::Bc2UnormSrgb,
            0x00011300 => XonSurfaceDXGIFormat::Bc3Unorm,
            0x00011400 => XonSurfaceDXGIFormat::Bc3UnormSrgb,
            0x00011500 => XonSurfaceDXGIFormat::Bc4Unorm,
            0x00011600 => XonSurfaceDXGIFormat::Bc5Unorm,
            0x00011900 => XonSurfaceDXGIFormat::Bc7Unorm,
            0x00021700 => XonSurfaceDXGIFormat::Bc1UnormVolume,
            0x00021A00 => XonSurfaceDXGIFormat::Bc7UnormSrgb,
            0x00030000 => XonSurfaceDXGIFormat::R32g32b32a32Uint,
            0x00031700 => XonSurfaceDXGIFormat::Bc6hUf16,
            _ => XonSurfaceDXGIFormat::UNKNOWN(value),
        }
    }

    /// The stored code of this variant.
    pub fn to_u32(&self) -> (r: u32)
        ensures
            r == spec_format_to_u32(*self),
    {
        match self {
            XonSurfaceDXGIFormat::UNKNOWN(value) => *value,
            XonSurfaceDXGIFormat::R8g8b8a8UnormStraight => 0x00010700,
            XonSurfaceDXGIFormat::R8g8b8a8Unorm => 0x00010800,
            XonSurfaceDXGIFormat::R8Unorm => 0x00010A00,
            XonSurfaceDXGIFormat::R8g8b8a8UnormSrgb => 0x00010B00,
            XonSurfaceDXGIFormat::Bc1Unorm => 0x00010F00,
            XonSurfaceDXGIFormat::Bc1UnormSrgb => 0x00011000,
            XonSurfaceDXGIFormat::Bc2Unorm => 0x00011100,
            XonSurfaceDXGIFormat::Bc2UnormSrgb => 0x00011200,
            XonSurfaceDXGIFormat::Bc3Unorm => 0x00011300,
            XonSurfaceDXGIFormat::Bc3UnormSrgb => 0x00011400,
            XonSurfaceDXGIFormat::Bc4Unorm => 0x00011500,
            XonSurfaceDXGIFormat::Bc5Unorm => 0x00011600,
            XonSurfaceDXGIFormat::Bc7Unorm => 0x00011900,
            XonSurfaceDXGIFormat::Bc1UnormVolume => 0x00021700,
            XonSurfaceDXGIFormat::Bc7UnormSrgb => 0x00021A00,
            XonSurfaceDXGIFormat::R32g32b32a32Uint => 0x00030000,
            XonSurfaceDXGIFormat::Bc6hUf16 => 0x00031700,
        }
    }

    /// The standard image-container format code of this variant.
    pub fn to_dxgi_format(&self) -> (r: u32)
        ensures
            r == spec_format_to_dxgi(*self),
    {
        match self {
            XonSurfaceDXGIFormat::UNKNOWN(value) => *value,
            XonSurfaceDXGIFormat::R8g8b8a8UnormStraight => 28,
            XonSurfaceDXGIFormat::R8g8b8a8Unorm => 28,
            XonSurfaceDXGIFormat::R8Unorm => 61,
            XonSurfaceDXGIFormat::R8g8b8a8UnormSrgb => 29,
            XonSurfaceDXGIFormat::Bc1Unorm => 71,
            XonSurfaceDXGIFormat::Bc1UnormSrgb => 72,
            XonSurfaceDXGIFormat::Bc2Unorm => 74,
            XonSurfaceDXGIFormat::Bc2UnormSrgb => 75,
            XonSurfaceDXGIFormat::Bc3Unorm => 77,
            XonSurfaceDXGIFormat::Bc3UnormSrgb => 78,
            XonSurfaceDXGIFormat::Bc4Unorm => 80,
            XonSurfaceDXGIFormat::Bc5Unorm => 83,
            XonSurfaceDXGIFormat::Bc7Unorm => 98,
            XonSurfaceDXGIFormat::Bc1UnormVolume => 71,
            XonSurfaceDXGIFormat::Bc7UnormSrgb => 99,
            XonSurfaceDXGIFormat::R32g32b32a32Uint => 2,
            XonSurfaceDXGIFormat::Bc6hUf16 => 95,
        }
    }

    /// The alpha mode recorded in the image-container header.
    pub fn get_alpha_mode(&self) -> (r: u32)
        ensures
            r == spec_format_alpha_mode(*self),
    {
        match self {
            XonSurfaceDXGIFormat::R8g8b8a8UnormStraight => 1,
            _ => 2,
        }
    }
}

/// Mapping a code to a variant and back returns the code unchanged, for
/// every code: the documented codes map through the closed table, and any
/// other code survives inside the `UNKNOWN` variant.
pub proof fn lemma_format_code_round_trip(value: u32)
    ensures
        spec_format_to_u32(spec_format_from_u32(value)) == value,
{
}

/// Per-mip geometry of one surface of a texture.
#[derive(Clone, Copy, Debug, PartialEq, Eq, Structural)]
pub struct Surface {
    pub offset: u32,
    pub unknown_0: u32,
    pub unknown_1: u32,
    pub unknown_2: u32,
    pub size: u32,
    pub unknown_3: u32,
    pub width: u32,
    pub height: u32,
    pub unknown_6: u32,
    pub unknown_7: u32,
}

/// `sf` holds exactly the ten little-endian fields of the 40-byte surface
/// record of `s` at `p`.
pub open spec fn is_surface_at(s: Seq<u8>, p: int, sf: Surface) -> bool {
    &&& sf.offset == le32_at(s, p)
    &&& sf.unknown_0 == le32_at(s, p + 4)
    &&& sf.unknown_1 == le32_at(s, p + 8)
    &&& sf.unknown_2 == le32_at(s, p + 12)
    &&& sf.size == le32_at(s, p + 16)
    &&& sf.unknown_3 == le32_at(s, p + 20)
    &&& sf.width == le32_at(s, p + 24)
    &&& sf.height == le32_at(s, p + 28)
    &&& sf.unknown_6 == le32_at(s, p + 32)
    &&& sf.unknown_7 == le32_at(s, p + 36)
}

impl Surface {
    /// Parses one 40-byte surface record at `pos` and returns it with the
    /// position after the record.
    pub fn new(data: &[u8], pos: usize) -> (r: Result<(Surface, usize), Error>)
        ensures
            r matches Ok((sf, next)) ==> {
                &&& pos + 40 <= data@.len()
                &&& next == pos + 40
                &&& is_surface_at(data@, pos as int, sf)
            },
            r is Err <==> pos + 40 > data@.len(),
            r matches Err(e) ==> e == Error::IoError,
    {
        if data.len() < 40 || pos > data.len() - 40 {
            return Err(Error::IoError);
        }
        let offset = crate::util::read_u32_le(data, pos)?;
        let unknown_0 = crate::util::read_u32_le(data, pos + 4)?;
        let unknown_1 = crate::util::read_u32_le(data, pos + 8)?;
        let unknown_2 = crate::util::read_u32_le(data, pos + 12)?;
        let size = crate::util::read_u32_le(data, pos + 16)?;
        let unknown_3 = crate::util::read_u32_le(data, pos + 20)?;
        let width = crate::util::read_u32_le(data, pos + 24)?;
        let height = crate::util::read_u32_le(data, pos + 28)?;
        let unknown_6 = crate::util::read_u32_le(data, pos + 32)?;
        let unknown_7 = crate::util::read_u32_le(data, pos + 36)?;
        Ok(
            (
                Surface {
                    offset,
                    unknown_0,
                    unknown_1,
                    unknown_2,
                    size,
                    unknown_3,
                    width,
                    height,
                    unknown_6,
                    unknown_7,
                },
                pos + 40,
            ),
        )
    }
}

/// The decoded image of mip level `mip` of the image-container byte stream
/// `dds`, serialised as a portable image file, or `None` when that mip level
/// cannot be decoded.
pub uninterp spec fn png_mip_of(dds: Seq<u8>, mip: u32) -> Option<Seq<u8>>;

/// Relies on image_dds::image_from_dds (with image_dds::ddsfile::Dds::read to
/// parse the argument and image's portable encoder to serialise the result):
/// the encoded image depends on the container bytes and the mip level alone.
#[verifier::external_body]
fn decode_dds_mip_png(dds_bytes: &[u8], mip: u32) -> (r: Option<Vec<u8>>)
    ensures
        r matches Some(v) ==> png_mip_of(dds_bytes@, mip) == Some(v@),
        r is None ==> png_mip_of(dds_bytes@, mip) is None,
{
    let dds = image_dds::ddsfile::Dds::read(std::io::Cursor::new(dds_bytes)).ok()?;
    let img = image_dds::image_from_dds(&dds, mip).ok()?;
    let mut png = Vec::new();
    img.write_to(&mut std::io::Cursor::new(&mut png), image::ImageFormat::Png).ok()?;
    Some(png)
}

/// A texture asset: mip/surface metadata plus a pixel format, carrying the
/// raw pixel payload once supplied, the synthesized image-container byte
/// stream, and the decoded per-mip images.
#[derive(Clone, Debug)]
pub struct TpGxTexHead {
    pub width: u32,
    pub height: u32,
    pub depth: u32,
    pub mip_count: u32,
    pub size: u32,
    pub unknown_1: u32,
    pub format: XonSurfaceDXGIFormat,
    pub surface_count: u32,
    pub relative_offset_surfaces: u32,
    pub offset_surfaces: u64,
    pub surfaces: Vec<Surface>,
    pub resource: Vec<u8>,
    pub dds_bytes: Vec<u8>,
    pub png_images: Vec<Vec<u8>>,
}

/// The flags word of the synthesized image-container header: pitch, size and
/// format bits always, plus count and volume bits for layered textures.
pub open spec fn spec_dds_flags(surface_count: u32, depth: u32) -> u32 {
    (0x81007int + (if surface_count > 1 {
        0x20000int
    } else {
        0int
    }) + (if depth > 1 {
        0x800000int
    } else {
        0int
    })) as u32
}

/// The first capability word of the synthesized image-container header.
pub open spec fn spec_dds_caps(surface_count: u32) -> u32 {
    (0x1000int + (if surface_count > 1 {
        0x400008int
    } else {
        0int
    })) as u32
}

/// The second capability word of the synthesized image-container header.
pub open spec fn spec_dds_caps2(depth: u32) -> u32 {
    if depth > 1 {
        0x200000
    } else {
        0
    }
}

/// The resource dimension recorded in the extended header.
pub open spec fn spec_dds_dimension(depth: u32) -> u32 {
    if depth > 1 {
        4
    } else {
        3
    }
}

/// The 148-byte standard image-container header synthesized from a texture
/// head: the fixed header, the extended pixel-format block, and the
/// extended-format fields, all little-endian.
pub open spec fn spec_dds_header(t: TpGxTexHead) -> Seq<u8> {
    seq![0x44u8, 0x44u8, 0x53u8, 0x20u8] + le32_bytes(124) + le32_bytes(
        spec_dds_flags(t.surface_count, t.depth),
    ) + le32_bytes(t.height) + le32_bytes(t.width) + le32_bytes(t.size) + le32_bytes(t.depth)
        + le32_bytes(t.surface_count) + le32_bytes(0) + le32_bytes(0) + le32_bytes(0) + le32_bytes(
        0,
    ) + le32_bytes(0) + le32_bytes(0) + le32_bytes(0) + le32_bytes(0) + le32_bytes(0) + le32_bytes(
        0,
    ) + le32_bytes(0) + le32_bytes(32) + le32_bytes(4) + seq![0x44u8, 0x58u8, 0x31u8, 0x30u8]
        + le32_bytes(0) + le32_bytes(0) + le32_bytes(0) + le32_bytes(0) + le32_bytes(0)
        + le32_bytes(spec_dds_caps(t.surface_count)) + le32_bytes(spec_dds_caps2(t.depth))
        + le32_bytes(0) + le32_bytes(0) + le32_bytes(0) + le32_bytes(
        spec_format_to_dxgi(t.format),
    ) + le32_bytes(spec_dds_dimension(t.depth)) + le32_bytes(0) + le32_bytes(1) + le32_bytes(
        spec_format_alpha_mode(t.format),
    )
}

/// `t` holds exactly the header fields and surface table of the texture
/// record of `s` at `p`, with no resource attached yet.  The recorded
/// surface-table length selects how many records are read, while the stored
/// `surface_count` mirrors `mip_count`, which the image-container header
/// uses as its layer count.
pub open spec fn is_tex_head_at(s: Seq<u8>, p: int, t: TpGxTexHead) -> bool {
    &&& t.width == le32_at(s, p)
    &&& t.height == le32_at(s, p + 4)
    &&& t.depth == le32_at(s, p + 8)
    &&& t.mip_count == le32_at(s, p + 12)
    &&& t.size == le32_at(s, p + 16)
    &&& t.unknown_1 == le32_at(s, p + 20)
    &&& t.format == spec_format_from_u32(le32_at(s, p + 24))
    &&& t.surface_count == t.mip_count
    &&& t.relative_offset_surfaces == le32_at(s, p + 32)
    &&& t.offset_surfaces == resolved_at(s, p + 32)
    &&& t.surfaces@.len() == le32_at(s, p + 28)
    &&& forall|i: int|
        0 <= i < t.surfaces@.len() ==> is_surface_at(
            s,
            resolved_at(s, p + 32) + 40 * i,
            #[trigger] t.surfaces@[i],
        )
    &&& t.resource@.len() == 0
    &&& t.dds_bytes@.len() == 0
    &&& t.png_images@.len() == 0
}

/// The 36-byte texture header and its whole surface table lie within `s`.
pub open spec fn tex_head_parseable(s: Seq<u8>, p: int) -> bool {
    &&& p + 36 <= s.len()
    &&& resolved_at(s, p + 32) <= u64::MAX
    &&& (le32_at(s, p + 28) == 0 || resolved_at(s, p + 32) + 40 * le32_at(s, p + 28) <= s.len())
}

impl TpGxTexHead {
    /// Parses a texture head at `pos`: the eight header scalars, the resolved
    /// surface-table offset, and the surface records read sequentially from
    /// that offset.
    pub fn new(data: &[u8], pos: usize) -> (r: Result<TpGxTexHead, Error>)
        ensures
            r matches Ok(t) ==> is_tex_head_at(data@, pos as int, t),
            r is Ok <==> tex_head_parseable(data@, pos as int),
            r matches Err(e) ==> e == Error::IoError,
    {
        let n = data.len();
        if n < 36 || pos > n - 36 {
            return Err(Error::IoError);
        }
        let width = crate::util::read_u32_le(data, pos)?;
        let height = crate::util::read_u32_le(data, pos + 4)?;
        let depth = crate::util::read_u32_le(data, pos + 8)?;
        let mip_count = crate::util::read_u32_le(data, pos + 12)?;
        let size = crate::util::read_u32_le(data, pos + 16)?;
        let unknown_1 = crate::util::read_u32_le(data, pos + 20)?;
        let format = XonSurfaceDXGIFormat::from_u32(crate::util::read_u32_le(data, pos + 24)?);
        let table_len = crate::util::read_u32_le(data, pos + 28)?;
        let (offset_surfaces, relative_offset_surfaces) = crate::util::resolve_offset(
            data,
            pos + 32,
        )?;

        let mut surfaces: Vec<Surface> = Vec::new();
        if table_len > 0 {
            if offset_surfaces > n as u64 {
                return Err(Error::IoError);
            }
            let base = offset_surfaces as usize;
            let mut i: u32 = 0;
            let mut cur: usize = base;
            while i < table_len
                invariant
                    n == data@.len(),
                    pos + 36 <= n,
                    base == resolved_at(data@, pos + 32),
                    table_len == le32_at(data@, pos + 28),
                    table_len > 0,
                    0 <= i <= table_len,
                    cur == base + 40 * i,
                    cur <= n,
                    surfaces@.len() == i,
                    forall|j: int|
                        0 <= j < i ==> is_surface_at(
                            data@,
                            base + 40 * j,
                            #[trigger] surfaces@[j],
                        ),
                decreases table_len - i,
            {
                let (sf, next) = Surface::new(data, cur)?;
                surfaces.push(sf);
                cur = next;
                i = i + 1;
            }
        }
        Ok(
            TpGxTexHead {
                width,
                height,
                depth,
                mip_count,
                size,
                unknown_1,
                format,
                surface_count: mip_count,
                relative_offset_surfaces,
                offset_surfaces,
                surfaces,
                resource: Vec::new(),
                dds_bytes: Vec::new(),
                png_images: Vec::new(),
            },
        )
    }

    /// The number of resource bytes this texture expects: the recorded total
    /// pixel-payload size.
    pub fn get_resource_size(&self) -> (r: u32)
        ensures
            r == self.size,
    {
        self.size
    }

    /// Builds the synthesized image-container byte stream: the fixed header
    /// followed by the raw pixel payload.
    #[verifier::rlimit(100)]
    fn build_dds_bytes(&self) -> (r: Vec<u8>)
        ensures
            r@ == spec_dds_header(*self) + self.resource@,
    {
        let mut out: Vec<u8> = Vec::new();
        out.push(0x44);
        out.push(0x44);
        out.push(0x53);
        out.push(0x20);
        crate::util::push_u32_le(&mut out, 124);
        let mut flags: u32 = 0x81007;
        if self.surface_count > 1 {
            flags = flags + 0x20000;
        }
        if self.depth > 1 {
            flags = flags + 0x800000;
        }
        crate::util::push_u32_le(&mut out, flags);
        crate::util::push_u32_le(&mut out, self.height);
        crate::util::push_u32_le(&mut out, self.width);
        crate::util::push_u32_le(&mut out, self.size);
        crate::util::push_u32_le(&mut out, self.depth);
        crate::util::push_u32_le(&mut out, self.surface_count);
        crate::util::push_u32_le(&mut out, 0);
        crate::util::push_u32_le(&mut out, 0);
        crate::util::push_u32_le(&mut out, 0);
        crate::util::push_u32_le(&mut out, 0);
        crate::util::push_u32_le(&mut out, 0);
        crate::util::push_u32_le(&mut out, 0);
        crate::util::push_u32_le(&mut out, 0);
        crate::util::push_u32_le(&mut out, 0);
        crate::util::push_u32_le(&mut out, 0);
        crate::util::push_u32_le(&mut out, 0);
        crate::util::push_u32_le(&mut out, 0);
        crate::util::push_u32_le(&mut out, 32);
        crate::util::push_u32_le(&mut out, 4);
        out.push(0x44);
        out.push(0x58);
        out.push(0x31);
        out.push(0x30);
        crate::util::push_u32_le(&mut out, 0);
        crate::util::push_u32_le(&mut out, 0);
        crate::util::push_u32_le(&mut out, 0);
        crate::util::push_u32_le(&mut out, 0);
        crate::util::push_u32_le(&mut out, 0);
        let mut caps: u32 = 0x1000;
        if self.surface_count > 1 {
            caps = caps + 0x400008;
        }
        crate::util::push_u32_le(&mut out, caps);
        let caps2: u32 = if self.depth > 1 {
            0x200000
        } else {
            0
        };
        crate::util::push_u32_le(&mut out, caps2);
        crate::util::push_u32_le(&mut out, 0);
        crate::util::push_u32_le(&mut out, 0);
        crate::util::push_u32_le(&mut out, 0);
        crate::util::push_u32_le(&mut out, self.format.to_dxgi_format());
        let dimension: u32 = if self.depth > 1 {
            4
        } else {
            3
        };
        crate::util::push_u32_le(&mut out, dimension);
        crate::util::push_u32_le(&mut out, 0);
        crate::util::push_u32_le(&mut out, 1);
        crate::util::push_u32_le(&mut out, self.format.get_alpha_mode());
        proof {
            assert(out@ =~= spec_dds_header(*self));
        }
        let mut j: usize = 0;
        let m = self.resource.len();
        while j < m
            invariant
                m == self.resource@.len(),
                0 <= j <= m,
                out@ == spec_dds_header(*self) + self.resource@.subrange(0, j as int),
            decreases m - j,
        {
            out.push(self.resource[j]);
            j = j + 1;
            proof {
                assert(out@ =~= spec_dds_header(*self) + self.resource@.subrange(0, j as int));
            }
        }
        proof {
            assert(self.resource@.subrange(0, m as int) =~= self.resource@);
        }
        out
    }

    /// Recomputes the image-container byte stream from the stored resource.
    pub fn populate_dds_bytes(&mut self)
        ensures
            same_tex_meta(*final(self), *old(self)),
            final(self).png_images == old(self).png_images,
            final(self).dds_bytes@ == spec_dds_header(*old(self)) + old(self).resource@,
    {
        let bytes = self.build_dds_bytes();
        self.dds_bytes = bytes;
    }

    /// Decodes every mip level of the stored image-container byte stream; on
    /// the first level that cannot be decoded, clears the decoded images and
    /// reports `CorruptData`.
    pub fn populate_png_bytes(&mut self) -> (r: Result<(), Error>)
        ensures
            same_tex_meta(*final(self), *old(self)),
            final(self).dds_bytes == old(self).dds_bytes,
            r is Ok <==> all_mips_decodable(old(self).dds_bytes@, old(self).mip_count),
            r is Ok ==> pngs_match(
                old(self).dds_bytes@,
                old(self).mip_count,
                final(self).png_images@,
            ),
            r is Err ==> final(self).png_images@.len() == 0,
            r matches Err(e) ==> e == Error::CorruptData,
    {
        match decode_all_mips(&self.dds_bytes, self.mip_count) {
            Ok(imgs) => {
                self.png_images = imgs;
                Ok(())
            },
            Err(e) => {
                self.png_images = Vec::new();
                Err(e)
            },
        }
    }

    /// Stores the raw pixel payload, synthesizes the image-container byte
    /// stream from it, and decodes the per-mip images (an undecodable level
    /// leaves the image list empty).  A payload whose length differs from
    /// the recorded total size is reported as `CorruptData`, but is stored
    /// and synthesized all the same.
    pub fn set_resource(&mut self, resource: Vec<u8>) -> (r: Result<(), Error>)
        ensures
            final(self).resource == resource,
            same_tex_fields(*final(self), *old(self)),
            final(self).dds_bytes@ == spec_dds_header(*old(self)) + resource@,
            all_mips_decodable(spec_dds_header(*old(self)) + resource@, old(self).mip_count)
                ==> pngs_match(
                spec_dds_header(*old(self)) + resource@,
                old(self).mip_count,
                final(self).png_images@,
            ),
            !all_mips_decodable(spec_dds_header(*old(self)) + resource@, old(self).mip_count)
                ==> final(self).png_images@.len() == 0,
            tex_set_resource_relation(*old(self), *final(self), resource@),
            r is Err <==> resource@.len() != old(self).size,
            r matches Err(e) ==> e == Error::CorruptData,
    {
        let mismatch = resource.len() != self.size as usize;
        self.resource = resource;
        self.populate_dds_bytes();
        let _decoded = self.populate_png_bytes();
        if mismatch {
            Err(Error::CorruptData)
        } else {
            Ok(())
        }
    }
}

/// How `set_resource` transforms a texture head: the metadata stays, the
/// payload is stored, the image-container bytes are resynthesized, and the
/// per-mip images are decoded when every level decodes, else left empty.
pub open spec fn tex_set_resource_relation(
    pre: TpGxTexHead,
    post: TpGxTexHead,
    bytes: Seq<u8>,
) -> bool {
    &&& same_tex_fields(post, pre)
    &&& post.resource@ == bytes
    &&& post.dds_bytes@ == spec_dds_header(pre) + bytes
    &&& (all_mips_decodable(spec_dds_header(pre) + bytes, pre.mip_count) ==> pngs_match(
        spec_dds_header(pre) + bytes,
        pre.mip_count,
        post.png_images@,
    ))
    &&& (!all_mips_decodable(spec_dds_header(pre) + bytes, pre.mip_count)
        ==> post.png_images@.len() == 0)
}

/// The header fields, surface table and resource of `a` and `b` agree.
pub open spec fn same_tex_meta(a: TpGxTexHead, b: TpGxTexHead) -> bool {
    &&& same_tex_fields(a, b)
    &&& a.resource == b.resource
}

/// The header fields and surface table of `a` and `b` agree.
pub open spec fn same_tex_fields(a: TpGxTexHead, b: TpGxTexHead) -> bool {
    &&& a.width == b.width
    &&& a.height == b.height
    &&& a.depth == b.depth
    &&& a.mip_count == b.mip_count
    &&& a.size == b.size
    &&& a.unknown_1 == b.unknown_1
    &&& a.format == b.format
    &&& a.surface_count == b.surface_count
    &&& a.relative_offset_surfaces == b.relative_offset_surfaces
    &&& a.offset_surfaces == b.offset_surfaces
    &&& a.surfaces == b.surfaces
}

/// Every mip level up to `mip_count` decodes from the container bytes `dds`.
pub open spec fn all_mips_decodable(dds: Seq<u8>, mip_count: u32) -> bool {
    forall|m: u32| m < mip_count ==> (#[trigger] png_mip_of(dds, m)) is Some
}

/// `pngs` holds exactly the decoded image of each mip level of `dds`.
pub open spec fn pngs_match(dds: Seq<u8>, mip_count: u32, pngs: Seq<Vec<u8>>) -> bool {
    &&& pngs.len() == mip_count
    &&& forall|i: int|
        0 <= i < pngs.len() ==> Some(#[trigger] pngs[i]@) == png_mip_of(dds, i as u32)
}

/// Decodes every mip level of `dds` in order; fails with `CorruptData` on
/// the first level that cannot be decoded.
fn decode_all_mips(dds: &Vec<u8>, mip_count: u32) -> (r: Result<Vec<Vec<u8>>, Error>)
    ensures
        r is Ok <==> all_mips_decodable(dds@, mip_count),
        r matches Ok(v) ==> pngs_match(dds@, mip_count, v@),
        r matches Err(e) ==> e == Error::CorruptData,
{
    let mut imgs: Vec<Vec<u8>> = Vec::new();
    let mut m: u32 = 0;
    while m < mip_count
        invariant
            m <= mip_count,
            imgs@.len() == m,
            forall|i: int| 0 <= i < m ==> Some(#[trigger] imgs@[i]@) == png_mip_of(dds@, i as u32),
        decreases mip_count - m,
    {
        match decode_dds_mip_png(dds.as_slice(), m) {
            Some(img) => {
                imgs.push(img);
            },
            None => {
                return Err(Error::CorruptData);
            },
        }
        m = m + 1;
    }
    proof {
        assert forall|mm: u32| mm < mip_count implies (#[trigger] png_mip_of(dds@, mm)) is Some by {
            assert(Some(imgs@[mm as int]@) == png_mip_of(dds@, (mm as int) as u32));
        }
    }
    Ok(imgs)
}

} // verus!

