//! The container dispatcher: inspects the first four bytes of a byte stream
//! and routes to the compressed-frame decoder, the package parser, the
//! typed-asset container parser, or a passthrough, recursively: a frame's
//! decompressed output is dispatched again.

use vstd::prelude::*;

verus! {

use crate::Error;
use crate::bxon::{BXON, bxon_magic, bxon_parseable, is_bxon_at};
use crate::frame::frame_decoded;
use crate::pack::{Pack, bxon_magic_bytes, is_pack_at, pack_magic, pack_parseable};

/// How many nested compressed frames the dispatcher follows before it
/// reports the stream as corrupt.
pub const MAX_NESTING: u32 = 8;

/// The magic of a compressed frame.
pub open spec fn frame_magic() -> Seq<u8> {
    seq![0x28u8, 0xB5u8, 0x2Fu8, 0xFDu8]
}

/// The bytes of `frame_magic`, as data.
pub fn frame_magic_bytes() -> (r: Vec<u8>)
    ensures
        r@ == frame_magic(),
{
    let mut v: Vec<u8> = Vec::new();
    v.push(0x28);
    v.push(0xB5);
    v.push(0x2F);
    v.push(0xFD);
    proof {
        assert(v@ =~= frame_magic());
    }
    v
}

/// The bytes of `pack_magic`, as data.
pub fn pack_magic_bytes() -> (r: Vec<u8>)
    ensures
        r@ == pack_magic(),
{
    let mut v: Vec<u8> = Vec::new();
    v.push(0x50);
    v.push(0x41);
    v.push(0x43);
    v.push(0x4B);
    proof {
        assert(v@ =~= pack_magic());
    }
    v
}

/// Any decoded byte stream: a decompressed frame wrapping what its content
/// decodes to, a package, a typed-asset container, or a passthrough that
/// exposes no structured data.
#[derive(Debug)]
pub enum Entity {
    CompressedFrame(ZstdFile),
    Package(Pack),
    Bxon(BXON),
    GenericUnknown,
}

/// A decompressed compressed-frame stream and what its content decodes to.
#[derive(Debug)]
pub struct ZstdFile {
    pub contents: Box<Entity>,
}

/// `e` is what `s` decodes to, following at most `depth` nested frames.
pub open spec fn is_entity_for(s: Seq<u8>, e: Entity, depth: int) -> bool
    decreases depth,
{
    if s.len() >= 4 && s.subrange(0, 4) == frame_magic() {
        &&& depth > 0
        &&& e matches Entity::CompressedFrame(z)
        &&& frame_decoded(s) matches Some(inner)
        &&& is_entity_for(inner, *z.contents, depth - 1)
    } else if s.len() >= 4 && s.subrange(0, 4) == pack_magic() {
        e matches Entity::Package(p) && is_pack_at(s, 0, p)
    } else if s.len() >= 4 && s.subrange(0, 4) == bxon_magic() {
        e matches Entity::Bxon(b) && is_bxon_at(s, 0, b)
    } else {
        e is GenericUnknown
    }
}

/// `s` decodes without error when at most `depth` nested frames are
/// followed.  A stream whose magic is recognised must parse; any other
/// stream is a passthrough and always decodes.
pub open spec fn decodable(s: Seq<u8>, depth: int) -> bool
    decreases depth,
{
    if s.len() >= 4 && s.subrange(0, 4) == frame_magic() {
        &&& depth > 0
        &&& frame_decoded(s) matches Some(inner)
        &&& decodable(inner, depth - 1)
    } else if s.len() >= 4 && s.subrange(0, 4) == pack_magic() {
        pack_parseable(s, 0)
    } else if s.len() >= 4 && s.subrange(0, 4) == bxon_magic() {
        bxon_parseable(s, 0)
    } else {
        true
    }
}

/// Dispatches a byte stream by its first four bytes, following at most
/// `depth` nested compressed frames.  An unrecognised (or short) magic
/// yields a passthrough entity and never fails.
pub fn decode_entity(data: &[u8], depth: u32) -> (r: Result<Entity, Error>)
    ensures
        r matches Ok(e) ==> is_entity_for(data@, e, depth as int),
        r is Ok <==> decodable(data@, depth as int),
        r matches Err(e) ==> e == Error::IoError || e == Error::CorruptData,
    decreases depth,
{
    let n = data.len();
    if n < 4 {
        return Ok(Entity::GenericUnknown);
    }
    let magic = match crate::util::copy_range(data, 0, 4) {
        Ok(m) => m,
        Err(_) => vstd::pervasive::unreached(),
    };
    if crate::util::bytes_eq(magic.as_slice(), frame_magic_bytes().as_slice()) {
        if depth == 0 {
            return Err(Error::CorruptData);
        }
        match crate::frame::decode_frame_all(data) {
            None => Err(Error::CorruptData),
            Some(inner) => {
                let e = decode_entity(inner.as_slice(), depth - 1)?;
                Ok(Entity::CompressedFrame(ZstdFile { contents: Box::new(e) }))
            },
        }
    } else if crate::util::bytes_eq(magic.as_slice(), pack_magic_bytes().as_slice()) {
        let p = Pack::new(data, 0)?;
        Ok(Entity::Package(p))
    } else if crate::util::bytes_eq(magic.as_slice(), bxon_magic_bytes().as_slice()) {
        let b = BXON::new(data, 0)?;
        Ok(Entity::Bxon(b))
    } else {
        Ok(Entity::GenericUnknown)
    }
}

/// Dispatches a whole input read from one source, following at most
/// `MAX_NESTING` nested frames.
pub fn open_data(data: &[u8]) -> (r: Result<Entity, Error>)
    ensures
        r matches Ok(e) ==> is_entity_for(data@, e, MAX_NESTING as int),
        r is Ok <==> decodable(data@, MAX_NESTING as int),
        r matches Err(e) ==> e == Error::IoError || e == Error::CorruptData,
{
    decode_entity(data, MAX_NESTING)
}

impl Entity {
    /// A short display name: the wrapped content's name for a decompressed
    /// frame, and a name that always renders for a passthrough.
    pub fn title(&self) -> (r: &'static str)
        ensures
            self is Package ==> r@ == "PACK"@,
            self is Bxon ==> r@ == "BXON"@,
            self is GenericUnknown ==> r@ == "Unknown"@,
        decreases *self,
    {
        match self {
            Entity::CompressedFrame(z) => z.contents.title(),
            Entity::Package(p) => p.title(),
            Entity::Bxon(b) => b.title(),
            Entity::GenericUnknown => "Unknown",
        }
    }
}

impl ZstdFile {
    /// Decodes one compressed-frame stream: decompresses the frame in full,
    /// then dispatches the decompressed bytes.  A stream that does not
    /// begin with the frame magic is `UnknownFormat`.
    pub fn new(data: &[u8]) -> (r: Result<ZstdFile, Error>)
        ensures
            r matches Ok(z) ==> is_entity_for(data@, Entity::CompressedFrame(z), MAX_NESTING as int),
            r is Ok <==> (data@.len() >= 4 && data@.subrange(0, 4) == frame_magic() && decodable(
                data@,
                MAX_NESTING as int,
            )),
            r matches Err(e) ==> e == Error::IoError || e == Error::CorruptData || e
                == Error::UnknownFormat,
    {
        let n = data.len();
        if n < 4 {
            return Err(Error::UnknownFormat);
        }
        let magic = match crate::util::copy_range(data, 0, 4) {
            Ok(m) => m,
            Err(_) => vstd::pervasive::unreached(),
        };
        if !crate::util::bytes_eq(magic.as_slice(), frame_magic_bytes().as_slice()) {
            return Err(Error::UnknownFormat);
        }
        match open_data(data) {
            Ok(Entity::CompressedFrame(z)) => Ok(z),
            Ok(_) => vstd::pervasive::unreached(),
            Err(e) => Err(e),
        }
    }
}

} // verus!
