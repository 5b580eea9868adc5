//! The package container: a fixed header, three variable-length tables
//! (imports, assets, files), and a trailing resource region whose entries
//! are attached to file records in table order.

use vstd::prelude::*;

verus! {

use crate::Error;
use crate::bxon::{BXON, bxon_magic, bxon_parseable, bxon_set_resource_relation, is_bxon_at};
use crate::util::{cstring_at, cstring_end, le32_at, resolved_at, spec_align_forward};

/// The magic of a package container, `PACK`.
pub open spec fn pack_magic() -> Seq<u8> {
    seq![0x50u8, 0x41u8, 0x43u8, 0x4Bu8]
}

/// The bytes of `bxon_magic`, as data.
pub fn bxon_magic_bytes() -> (r: Vec<u8>)
    ensures
        r@ == bxon_magic(),
{
    let mut v: Vec<u8> = Vec::new();
    v.push(0x42);
    v.push(0x58);
    v.push(0x4F);
    v.push(0x4E);
    proof {
        assert(v@ =~= bxon_magic());
    }
    v
}

/// What a package entry's payload decodes to: a typed-asset container when
/// its magic matches and it parses, else an opaque passthrough.
#[derive(Clone, Debug)]
pub enum FileContent {
    Bxon(BXON),
    Unknown,
}

/// `c` is what the payload of `s` at `p` decodes to.
pub open spec fn is_content_at(s: Seq<u8>, p: int, c: FileContent) -> bool {
    if p + 4 <= s.len() && s.subrange(p, p + 4) == bxon_magic() && bxon_parseable(s, p) {
        c matches FileContent::Bxon(b) && is_bxon_at(s, p, b)
    } else {
        c is Unknown
    }
}

/// How `set_resource` transforms a payload: a typed-asset container passes
/// the bytes to its asset; a passthrough discards them.
pub open spec fn content_set_resource_relation(
    pre: FileContent,
    post: FileContent,
    bytes: Seq<u8>,
) -> bool {
    match pre {
        FileContent::Bxon(b) => post matches FileContent::Bxon(b2) && bxon_set_resource_relation(
            b,
            b2,
            bytes,
        ),
        FileContent::Unknown => post is Unknown,
    }
}

impl FileContent {
    /// The number of resource bytes this payload expects from the package's
    /// resource region.
    pub open spec fn spec_resource_size(&self) -> u32 {
        match self {
            FileContent::Bxon(b) => b.asset.spec_resource_size(),
            FileContent::Unknown => 0,
        }
    }

    /// Reports how many resource bytes this payload expects.
    pub fn get_resource_size(&self) -> (r: u32)
        ensures
            r == self.spec_resource_size(),
    {
        match self {
            FileContent::Bxon(b) => b.get_resource_size(),
            FileContent::Unknown => 0,
        }
    }

    /// Hands resource bytes to the payload; a passthrough discards them.
    pub fn set_resource(&mut self, resource: Vec<u8>) -> (r: Result<(), Error>)
        ensures
            content_set_resource_relation(*old(self), *final(self), resource@),
            r matches Err(e) ==> e == Error::CorruptData,
    {
        match self {
            FileContent::Bxon(b) => b.set_resource(resource),
            FileContent::Unknown => Ok(()),
        }
    }

    /// A short display name for the payload.
    pub fn title(&self) -> (r: &'static str)
        ensures
            self is Bxon ==> r@ == "BXON"@,
            self is Unknown ==> r@ == "Unknown"@,
    {
        match self {
            FileContent::Bxon(_) => "BXON",
            FileContent::Unknown => "Unknown",
        }
    }
}

/// Decodes the payload of `data` at `off`: a container whose first four
/// bytes read `BXON` and which parses becomes a typed asset; anything else
/// (a bad magic, a short payload, a parse failure) degrades to a
/// passthrough and never fails.
pub fn read_content(data: &[u8], off: u64) -> (c: FileContent)
    ensures
        is_content_at(data@, off as int, c),
{
    let n = data.len();
    if off > n as u64 || (n as u64) - off < 4 {
        return FileContent::Unknown;
    }
    let p = off as usize;
    let magic = match crate::util::copy_range(data, p, 4) {
        Ok(m) => m,
        Err(_) => vstd::pervasive::unreached(),
    };
    if !crate::util::bytes_eq(magic.as_slice(), bxon_magic_bytes().as_slice()) {
        return FileContent::Unknown;
    }
    match BXON::new(data, p) {
        Ok(b) => FileContent::Bxon(b),
        Err(_) => FileContent::Unknown,
    }
}

/// One import record: a hash, flags, and a path string read through the
/// record's resolved offset.
#[derive(Clone, Debug)]
pub struct Import {
    pub hash: u32,
    pub relative_offset: u32,
    pub offset: u64,
    pub flags: u32,
    pub path: Vec<u8>,
}

/// `imp` holds exactly the 12-byte import record of `s` at `p`.
pub open spec fn is_import_at(s: Seq<u8>, p: int, imp: Import) -> bool {
    &&& imp.hash == le32_at(s, p)
    &&& imp.relative_offset == le32_at(s, p + 4)
    &&& imp.offset == resolved_at(s, p + 4)
    &&& imp.flags == le32_at(s, p + 8)
    &&& cstring_end(s, resolved_at(s, p + 4)) is Some
    &&& imp.path@ == cstring_at(s, resolved_at(s, p + 4))
}

/// The import record at `p` lies within `s` and its path offset reaches a
/// null-terminated string.
pub open spec fn import_parseable(s: Seq<u8>, p: int) -> bool {
    &&& p + 12 <= s.len()
    &&& cstring_end(s, resolved_at(s, p + 4)) is Some
}

impl Import {
    /// Parses one 12-byte import record at `pos`, reading the path through
    /// its resolved offset, and returns it with the position after the
    /// record.
    pub fn new(data: &[u8], pos: usize) -> (r: Result<(Import, usize), Error>)
        ensures
            r matches Ok((imp, next)) ==> is_import_at(data@, pos as int, imp) && next == pos + 12,
            r is Ok <==> import_parseable(data@, pos as int),
            r matches Err(e) ==> e == Error::IoError,
    {
        let n = data.len();
        if n < 12 || pos > n - 12 {
            return Err(Error::IoError);
        }
        let hash = crate::util::read_u32_le(data, pos)?;
        let (path, relative_offset) = crate::util::read_cstring_via_offset(data, pos + 4)?;
        let (offset, _rel) = crate::util::resolve_offset(data, pos + 4)?;
        let flags = crate::util::read_u32_le(data, pos + 8)?;
        Ok((Import { hash, relative_offset, offset, flags, path }, pos + 12))
    }
}

/// One asset record: a hash, a size, payload start and end offsets, a name
/// string, and the decoded payload at the start offset.
#[derive(Clone, Debug)]
pub struct Asset {
    pub hash: u32,
    pub relative_offset_name: u32,
    pub offset_name: u64,
    pub size: u32,
    pub relative_offset_data_start: u32,
    pub offset_data_start: u64,
    pub relative_offset_data_end: u32,
    pub offset_data_end: u64,
    pub name: Vec<u8>,
    pub contents: FileContent,
}

/// `a` holds exactly the 20-byte asset record of `s` at `p` and the decoded
/// payload at its resolved start offset.
pub open spec fn is_asset_at(s: Seq<u8>, p: int, a: Asset) -> bool {
    &&& a.hash == le32_at(s, p)
    &&& a.relative_offset_name == le32_at(s, p + 4)
    &&& a.offset_name == resolved_at(s, p + 4)
    &&& a.size == le32_at(s, p + 8)
    &&& a.relative_offset_data_start == le32_at(s, p + 12)
    &&& a.offset_data_start == resolved_at(s, p + 12)
    &&& a.relative_offset_data_end == le32_at(s, p + 16)
    &&& a.offset_data_end == resolved_at(s, p + 16)
    &&& cstring_end(s, resolved_at(s, p + 4)) is Some
    &&& a.name@ == cstring_at(s, resolved_at(s, p + 4))
    &&& is_content_at(s, resolved_at(s, p + 12), a.contents)
}

/// The asset record at `p` lies within `s`, its name offset reaches a
/// null-terminated string, and its payload offsets fit in 64 bits.
pub open spec fn asset_parseable(s: Seq<u8>, p: int) -> bool {
    &&& p + 20 <= s.len()
    &&& cstring_end(s, resolved_at(s, p + 4)) is Some
    &&& resolved_at(s, p + 12) <= u64::MAX
    &&& resolved_at(s, p + 16) <= u64::MAX
}

impl Asset {
    /// Parses one 20-byte asset record at `pos` and decodes its payload,
    /// returning both with the position after the record.
    pub fn new(data: &[u8], pos: usize) -> (r: Result<(Asset, usize), Error>)
        ensures
            r matches Ok((a, next)) ==> is_asset_at(data@, pos as int, a) && next == pos + 20,
            r is Ok <==> asset_parseable(data@, pos as int),
            r matches Err(e) ==> e == Error::IoError,
    {
        let n = data.len();
        if n < 20 || pos > n - 20 {
            return Err(Error::IoError);
        }
        let hash = crate::util::read_u32_le(data, pos)?;
        let (name, relative_offset_name) = crate::util::read_cstring_via_offset(data, pos + 4)?;
        let (offset_name, _rel) = crate::util::resolve_offset(data, pos + 4)?;
        let size = crate::util::read_u32_le(data, pos + 8)?;
        let (offset_data_start, relative_offset_data_start) = crate::util::resolve_offset(
            data,
            pos + 12,
        )?;
        let (offset_data_end, relative_offset_data_end) = crate::util::resolve_offset(
            data,
            pos + 16,
        )?;
        let contents = read_content(data, offset_data_start);
        Ok(
            (
                Asset {
                    hash,
                    relative_offset_name,
                    offset_name,
                    size,
                    relative_offset_data_start,
                    offset_data_start,
                    relative_offset_data_end,
                    offset_data_end,
                    name,
                    contents,
                },
                pos + 20,
            ),
        )
    }
}

/// One file record: a hash, a size, a payload start offset, a name string,
/// the decoded payload, and a trailing scalar.
#[derive(Clone, Debug)]
pub struct File {
    pub hash: u32,
    pub relative_offset_name: u32,
    pub offset_name: u64,
    pub size: u32,
    pub relative_offset_data_start: u32,
    pub offset_data_start: u64,
    pub unknown: u32,
    pub name: Vec<u8>,
    pub contents: FileContent,
}

/// `f` holds exactly the 20-byte file record of `s` at `p` and the decoded
/// payload at its resolved start offset.
pub open spec fn is_file_at(s: Seq<u8>, p: int, f: File) -> bool {
    &&& f.hash == le32_at(s, p)
    &&& f.relative_offset_name == le32_at(s, p + 4)
    &&& f.offset_name == resolved_at(s, p + 4)
    &&& f.size == le32_at(s, p + 8)
    &&& f.relative_offset_data_start == le32_at(s, p + 12)
    &&& f.offset_data_start == resolved_at(s, p + 12)
    &&& f.unknown == le32_at(s, p + 16)
    &&& cstring_end(s, resolved_at(s, p + 4)) is Some
    &&& f.name@ == cstring_at(s, resolved_at(s, p + 4))
    &&& is_content_at(s, resolved_at(s, p + 12), f.contents)
}

/// The file record at `p` lies within `s`, its name offset reaches a
/// null-terminated string, and its payload offset fits in 64 bits.
pub open spec fn file_rec_parseable(s: Seq<u8>, p: int) -> bool {
    &&& p + 20 <= s.len()
    &&& cstring_end(s, resolved_at(s, p + 4)) is Some
    &&& resolved_at(s, p + 12) <= u64::MAX
}

impl File {
    /// Parses one 20-byte file record at `pos` and decodes its payload,
    /// returning both with the position after the record.
    pub fn new(data: &[u8], pos: usize) -> (r: Result<(File, usize), Error>)
        ensures
            r matches Ok((f, next)) ==> is_file_at(data@, pos as int, f) && next == pos + 20,
            r is Ok <==> file_rec_parseable(data@, pos as int),
            r matches Err(e) ==> e == Error::IoError,
    {
        let n = data.len();
        if n < 20 || pos > n - 20 {
            return Err(Error::IoError);
        }
        let hash = crate::util::read_u32_le(data, pos)?;
        let (name, relative_offset_name) = crate::util::read_cstring_via_offset(data, pos + 4)?;
        let (offset_name, _rel) = crate::util::resolve_offset(data, pos + 4)?;
        let size = crate::util::read_u32_le(data, pos + 8)?;
        let (offset_data_start, relative_offset_data_start) = crate::util::resolve_offset(
            data,
            pos + 12,
        )?;
        let unknown = crate::util::read_u32_le(data, pos + 16)?;
        let contents = read_content(data, offset_data_start);
        Ok(
            (
                File {
                    hash,
                    relative_offset_name,
                    offset_name,
                    size,
                    relative_offset_data_start,
                    offset_data_start,
                    unknown,
                    name,
                    contents,
                },
                pos + 20,
            ),
        )
    }

    /// The number of resource bytes this file's payload expects.
    pub fn get_resource_size(&self) -> (r: u32)
        ensures
            r == self.contents.spec_resource_size(),
    {
        self.contents.get_resource_size()
    }

    /// Hands resource bytes to this file's payload.
    pub fn set_resource(&mut self, resource: Vec<u8>) -> (r: Result<(), Error>)
        ensures
            file_fields_equal(*final(self), *old(self)),
            content_set_resource_relation(old(self).contents, final(self).contents, resource@),
            r matches Err(e) ==> e == Error::CorruptData,
    {
        self.contents.set_resource(resource)
    }
}

/// The record fields and name of `a` and `b` agree (their payloads may
/// differ in attached resource state).
pub open spec fn file_fields_equal(a: File, b: File) -> bool {
    &&& a.hash == b.hash
    &&& a.relative_offset_name == b.relative_offset_name
    &&& a.offset_name == b.offset_name
    &&& a.size == b.size
    &&& a.relative_offset_data_start == b.relative_offset_data_start
    &&& a.offset_data_start == b.offset_data_start
    &&& a.unknown == b.unknown
    &&& a.name == b.name
}

/// The resource sizes the files' payloads report, in table order.
pub open spec fn file_sizes(files: Seq<File>) -> Seq<u32> {
    Seq::new(files.len(), |i: int| files[i].contents.spec_resource_size())
}

/// The resource-region cursor before entry `i` of a walk that starts at
/// `base`: a zero-size entry leaves the cursor alone; any other entry
/// advances it by its size and then to the next 32-byte boundary measured
/// from `base`.
pub open spec fn walk_cursor(sizes: Seq<u32>, base: int, i: int) -> int
    decreases i,
{
    if i <= 0 {
        base
    } else {
        let prev = walk_cursor(sizes, base, i - 1);
        if sizes[i - 1] == 0 {
            prev
        } else {
            spec_align_forward(prev + sizes[i - 1], 32, base)
        }
    }
}

/// Every non-empty resource entry of the walk lies within `s`.
pub open spec fn walk_ok(s: Seq<u8>, sizes: Seq<u32>, base: int) -> bool {
    forall|i: int|
        0 <= i < sizes.len() && sizes[i] > 0 ==> #[trigger] walk_cursor(sizes, base, i) + sizes[i]
            <= s.len()
}

/// `post` is `pre` with the resource bytes at `cursor` attached: an entry
/// that expects no bytes is untouched; any other takes exactly its size in
/// bytes from the cursor.
pub open spec fn file_resource_attached(s: Seq<u8>, pre: File, post: File, cursor: int) -> bool {
    &&& file_fields_equal(post, pre)
    &&& if pre.contents.spec_resource_size() == 0 {
        post.contents == pre.contents
    } else {
        content_set_resource_relation(
            pre.contents,
            post.contents,
            s.subrange(cursor, cursor + pre.contents.spec_resource_size()),
        )
    }
}

/// Walks the resource region once, sequentially, in file-table order: for
/// every file whose payload reports a non-zero resource size, reads exactly
/// that many bytes at the cursor, hands them to the payload, and advances
/// the cursor to the next 32-byte boundary measured from the region start.
pub fn attach_resources(data: &[u8], files: &mut Vec<File>, base: u64) -> (r: Result<(), Error>)
    requires
        data@.len() + 64 <= u64::MAX,
    ensures
        r is Ok <==> walk_ok(data@, file_sizes(old(files)@), base as int),
        r is Ok ==> final(files)@.len() == old(files)@.len() && forall|i: int|
            0 <= i < old(files)@.len() ==> file_resource_attached(
                data@,
                old(files)@[i],
                #[trigger] final(files)@[i],
                walk_cursor(file_sizes(old(files)@), base as int, i),
            ),
        r matches Err(e) ==> e == Error::IoError,
{
    let ghost sizes = file_sizes(files@);
    let mut cursor: u64 = base;
    let mut i: usize = 0;
    let m = files.len();
    while i < m
        invariant
            m == old(files)@.len(),
            files@.len() == m,
            0 <= i <= m,
            sizes == file_sizes(old(files)@),
            cursor == walk_cursor(sizes, base as int, i as int),
            base <= cursor,
            data@.len() + 64 <= u64::MAX,
            forall|j: int| i <= j < m ==> files@[j] == old(files)@[j],
            forall|j: int|
                0 <= j < i ==> file_resource_attached(
                    data@,
                    old(files)@[j],
                    #[trigger] files@[j],
                    walk_cursor(sizes, base as int, j),
                ),
            forall|j: int|
                0 <= j < i && sizes[j] > 0 ==> #[trigger] walk_cursor(sizes, base as int, j)
                    + sizes[j] <= data@.len(),
        decreases m - i,
    {
        let rsize = files[i].get_resource_size();
        if rsize > 0 {
            let n = data.len();
            if cursor > n as u64 || (rsize as u64) > n as u64 - cursor {
                proof {
                    assert(walk_cursor(sizes, base as int, i as int) + sizes[i as int]
                        > data@.len());
                }
                return Err(Error::IoError);
            }
            let bytes = match crate::util::copy_range(data, cursor as usize, rsize as usize) {
                Ok(b) => b,
                Err(_) => vstd::pervasive::unreached(),
            };
            let f = &mut files[i];
            let _report = f.set_resource(bytes);
            cursor = crate::util::align_forward(cursor + rsize as u64, 32, base);
        }
        i = i + 1;
    }
    Ok(())
}

/// A package: the fixed header, the three tables, and the file records with
/// their resource bytes attached.
#[derive(Clone, Debug)]
pub struct Pack {
    pub id: Vec<u8>,
    pub version: u32,
    pub total_size: u32,
    pub serialized_size: u32,
    pub resources_size: u32,
    pub import_count: u32,
    pub relative_offset_imports: u32,
    pub offset_imports: u64,
    pub asset_count: u32,
    pub relative_offset_assets: u32,
    pub offset_assets: u64,
    pub file_count: u32,
    pub relative_offset_files: u32,
    pub offset_files: u64,
    pub imports: Vec<Import>,
    pub assets: Vec<Asset>,
    pub files: Vec<File>,
}

/// The resource size that the payload of file record `i` of the table at
/// `files_base` reports, read straight from the bytes: only a parsed
/// texture container reports one, its recorded total size.
pub open spec fn spec_content_resource_size(s: Seq<u8>, d: int) -> u32 {
    if d + 4 <= s.len() && s.subrange(d, d + 4) == bxon_magic() && bxon_parseable(s, d) {
        if cstring_at(s, resolved_at(s, d + 12)) == crate::bxon::tex_head_type() {
            le32_at(s, resolved_at(s, d + 16) + 16)
        } else {
            0
        }
    } else {
        0
    }
}

/// The resource sizes of the `count` file records of the table at
/// `files_base`, read straight from the bytes.
pub open spec fn pack_walk_sizes(s: Seq<u8>, files_base: int, count: int) -> Seq<u32> {
    Seq::new(
        count as nat,
        |i: int| spec_content_resource_size(s, resolved_at(s, files_base + 20 * i + 12)),
    )
}

/// A decoded payload reports exactly the resource size that the bytes it
/// was decoded from report.
proof fn lemma_content_size(s: Seq<u8>, d: int, c: FileContent)
    requires
        is_content_at(s, d, c),
    ensures
        c.spec_resource_size() == spec_content_resource_size(s, d),
{
    if d + 4 <= s.len() && s.subrange(d, d + 4) == bxon_magic() && bxon_parseable(s, d) {
        let ty = cstring_at(s, resolved_at(s, d + 12));
        if ty == crate::bxon::archive_file_param_type() {
            assert(ty != crate::bxon::tex_head_type()) by {
                assert(crate::bxon::archive_file_param_type().len() == 18);
                assert(crate::bxon::tex_head_type().len() == 11);
            }
        }
    }
}

/// The 44-byte package header and all three record tables lie within `s`.
pub open spec fn pack_tables_parseable(s: Seq<u8>, p: int) -> bool {
    &&& p + 44 <= s.len()
    &&& s.len() + 64 <= u64::MAX
    &&& resolved_at(s, p + 24) <= u64::MAX
    &&& resolved_at(s, p + 32) <= u64::MAX
    &&& resolved_at(s, p + 40) <= u64::MAX
    &&& forall|i: int|
        0 <= i < le32_at(s, p + 20) ==> #[trigger] import_parseable(
            s,
            resolved_at(s, p + 24) + 12 * i,
        )
    &&& forall|i: int|
        0 <= i < le32_at(s, p + 28) ==> #[trigger] asset_parseable(
            s,
            resolved_at(s, p + 32) + 20 * i,
        )
    &&& forall|i: int|
        0 <= i < le32_at(s, p + 36) ==> #[trigger] file_rec_parseable(
            s,
            resolved_at(s, p + 40) + 20 * i,
        )
}

/// The package parses whole: header and tables lie within `s` and the
/// resource walk over the file table stays within `s`.
pub open spec fn pack_parseable(s: Seq<u8>, p: int) -> bool {
    &&& pack_tables_parseable(s, p)
    &&& walk_ok(
        s,
        pack_walk_sizes(s, resolved_at(s, p + 40), le32_at(s, p + 36) as int),
        le32_at(s, p + 12) as int,
    )
}

/// `pk` holds exactly the package of `s` at `p`, where `pre` is its file
/// table as parsed, before the resource walk attached resource bytes.
pub open spec fn is_pack_with_files(s: Seq<u8>, p: int, pk: Pack, pre: Seq<File>) -> bool {
    &&& pk.id@ == s.subrange(p, p + 4)
    &&& pk.version == le32_at(s, p + 4)
    &&& pk.total_size == le32_at(s, p + 8)
    &&& pk.serialized_size == le32_at(s, p + 12)
    &&& pk.resources_size == le32_at(s, p + 16)
    &&& pk.import_count == le32_at(s, p + 20)
    &&& pk.relative_offset_imports == le32_at(s, p + 24)
    &&& pk.offset_imports == resolved_at(s, p + 24)
    &&& pk.asset_count == le32_at(s, p + 28)
    &&& pk.relative_offset_assets == le32_at(s, p + 32)
    &&& pk.offset_assets == resolved_at(s, p + 32)
    &&& pk.file_count == le32_at(s, p + 36)
    &&& pk.relative_offset_files == le32_at(s, p + 40)
    &&& pk.offset_files == resolved_at(s, p + 40)
    &&& pk.imports@.len() == pk.import_count
    &&& forall|i: int|
        0 <= i < pk.imports@.len() ==> is_import_at(
            s,
            resolved_at(s, p + 24) + 12 * i,
            #[trigger] pk.imports@[i],
        )
    &&& pk.assets@.len() == pk.asset_count
    &&& forall|i: int|
        0 <= i < pk.assets@.len() ==> is_asset_at(
            s,
            resolved_at(s, p + 32) + 20 * i,
            #[trigger] pk.assets@[i],
        )
    &&& pre.len() == pk.file_count
    &&& forall|i: int|
        0 <= i < pre.len() ==> is_file_at(s, resolved_at(s, p + 40) + 20 * i, #[trigger] pre[i])
    &&& pk.files@.len() == pre.len()
    &&& forall|i: int|
        0 <= i < pre.len() ==> file_resource_attached(
            s,
            pre[i],
            #[trigger] pk.files@[i],
            walk_cursor(file_sizes(pre), le32_at(s, p + 12) as int, i),
        )
}

/// `pk` holds exactly the package of `s` at `p`, resource bytes attached.
pub open spec fn is_pack_at(s: Seq<u8>, p: int, pk: Pack) -> bool {
    exists|pre: Seq<File>| is_pack_with_files(s, p, pk, pre)
}

impl Pack {
    /// Parses a package at `pos`: the fixed header, then the import, asset
    /// and file tables at their resolved offsets, then one sequential walk
    /// of the resource region starting at `serialized_size` that attaches
    /// resource bytes to the file records in table order.
    #[verifier::loop_isolation(false)]
    pub fn new(data: &[u8], pos: usize) -> (r: Result<Pack, Error>)
        ensures
            r matches Ok(pk) ==> is_pack_at(data@, pos as int, pk),
            r is Ok <==> pack_parseable(data@, pos as int),
            r matches Err(e) ==> e == Error::IoError,
    {
        let n = data.len();
        if n < 44 || pos > n - 44 {
            return Err(Error::IoError);
        }
        if n as u64 > u64::MAX - 64 {
            return Err(Error::IoError);
        }
        let id = match crate::util::copy_range(data, pos, 4) {
            Ok(v) => v,
            Err(_) => vstd::pervasive::unreached(),
        };
        let version = crate::util::read_u32_le(data, pos + 4)?;
        let total_size = crate::util::read_u32_le(data, pos + 8)?;
        let serialized_size = crate::util::read_u32_le(data, pos + 12)?;
        let resources_size = crate::util::read_u32_le(data, pos + 16)?;
        let import_count = crate::util::read_u32_le(data, pos + 20)?;
        let (offset_imports, relative_offset_imports) = crate::util::resolve_offset(
            data,
            pos + 24,
        )?;
        let asset_count = crate::util::read_u32_le(data, pos + 28)?;
        let (offset_assets, relative_offset_assets) = crate::util::resolve_offset(data, pos + 32)?;
        let file_count = crate::util::read_u32_le(data, pos + 36)?;
        let (offset_files, relative_offset_files) = crate::util::resolve_offset(data, pos + 40)?;

        let mut imports: Vec<Import> = Vec::new();
        if import_count > 0 {
            if offset_imports > n as u64 {
                proof {
                    assert(!import_parseable(data@, resolved_at(data@, pos + 24) + 12 * 0));
                }
                return Err(Error::IoError);
            }
            let mut cur: usize = offset_imports as usize;
            let mut i: u32 = 0;
            while i < import_count
                invariant
                    0 <= i <= import_count,
                    cur == offset_imports + 12 * i,
                    cur <= n,
                    imports@.len() == i,
                    forall|j: int|
                        0 <= j < i ==> is_import_at(
                            data@,
                            offset_imports + 12 * j,
                            #[trigger] imports@[j],
                        ),
                    forall|j: int|
                        0 <= j < i ==> #[trigger] import_parseable(data@, offset_imports + 12 * j),
                decreases import_count - i,
            {
                let (imp, next) = match Import::new(data, cur) {
                    Ok(p) => p,
                    Err(_) => {
                        return Err(Error::IoError);
                    },
                };
                imports.push(imp);
                cur = next;
                i = i + 1;
            }
        }

        let mut assets: Vec<Asset> = Vec::new();
        if asset_count > 0 {
            if offset_assets > n as u64 {
                proof {
                    assert(!asset_parseable(data@, resolved_at(data@, pos + 32) + 20 * 0));
                }
                return Err(Error::IoError);
            }
            let mut cur: usize = offset_assets as usize;
            let mut i: u32 = 0;
            while i < asset_count
                invariant
                    0 <= i <= asset_count,
                    cur == offset_assets + 20 * i,
                    cur <= n,
                    assets@.len() == i,
                    forall|j: int|
                        0 <= j < i ==> is_asset_at(
                            data@,
                            offset_assets + 20 * j,
                            #[trigger] assets@[j],
                        ),
                    forall|j: int|
                        0 <= j < i ==> #[trigger] asset_parseable(data@, offset_assets + 20 * j),
                decreases asset_count - i,
            {
                let (a, next) = match Asset::new(data, cur) {
                    Ok(p) => p,
                    Err(_) => {
                        return Err(Error::IoError);
                    },
                };
                assets.push(a);
                cur = next;
                i = i + 1;
            }
        }

        let mut files: Vec<File> = Vec::new();
        if file_count > 0 {
            if offset_files > n as u64 {
                proof {
                    assert(!file_rec_parseable(data@, resolved_at(data@, pos + 40) + 20 * 0));
                }
                return Err(Error::IoError);
            }
            let mut cur: usize = offset_files as usize;
            let mut i: u32 = 0;
            while i < file_count
                invariant
                    0 <= i <= file_count,
                    cur == offset_files + 20 * i,
                    cur <= n,
                    files@.len() == i,
                    forall|j: int|
                        0 <= j < i ==> is_file_at(
                            data@,
                            offset_files + 20 * j,
                            #[trigger] files@[j],
                        ),
                    forall|j: int|
                        0 <= j < i ==> #[trigger] file_rec_parseable(data@, offset_files + 20 * j),
                decreases file_count - i,
            {
                let (f, next) = match File::new(data, cur) {
                    Ok(p) => p,
                    Err(_) => {
                        return Err(Error::IoError);
                    },
                };
                files.push(f);
                cur = next;
                i = i + 1;
            }
        }

        let ghost pre = files@;
        proof {
            assert forall|i: int| 0 <= i < pre.len() implies #[trigger] file_sizes(pre)[i]
                == pack_walk_sizes(data@, offset_files as int, file_count as int)[i] by {
                lemma_content_size(
                    data@,
                    resolved_at(data@, offset_files + 20 * i + 12),
                    pre[i].contents,
                );
            }
            assert(file_sizes(pre) =~= pack_walk_sizes(
                data@,
                offset_files as int,
                file_count as int,
            ));
        }

        match attach_resources(data, &mut files, serialized_size as u64) {
            Ok(_) => {},
            Err(e) => {
                return Err(e);
            },
        }

        let pk = Pack {
            id,
            version,
            total_size,
            serialized_size,
            resources_size,
            import_count,
            relative_offset_imports,
            offset_imports,
            asset_count,
            relative_offset_assets,
            offset_assets,
            file_count,
            relative_offset_files,
            offset_files,
            imports,
            assets,
            files,
        };
        proof {
            assert(is_pack_with_files(data@, pos as int, pk, pre));
        }
        Ok(pk)
    }

    /// A short display name for the container.
    pub fn title(&self) -> (r: &'static str)
        ensures
            r@ == "PACK"@,
    {
        "PACK"
    }
}

} // verus!
