//! The archive index asset: a table of external archive files plus per-file
//! extraction descriptors, the byte-level extraction rule, and the bulk
//! extraction engine with its decompressed-archive cache and progress
//! counters.

use vstd::prelude::*;

verus! {

use crate::Error;
use crate::frame::{frame_prefix, frame_size_hint};
use crate::util::{cstring_at, cstring_end, le32_at, resolved_at, spec_align_forward};

/// One external archive named by the index: its name, flags, and whether it
/// is stored raw (streamed) or as one compressed frame.
#[derive(Clone, Debug)]
pub struct ArchiveParam {
    pub rel_offset_name: u32,
    pub flags: u32,
    pub is_streamed: bool,
    pub name: Vec<u8>,
}

/// The start of the record that begins at cursor `p`: records are 4-byte
/// aligned from the start of the data.
pub open spec fn rec_aligned(p: int) -> int {
    spec_align_forward(p, 4, 0)
}

/// `a` holds exactly the 9-byte archive record of `s` whose aligned start is
/// `p`, with the name read through the resolved offset.
pub open spec fn is_archive_param_at(s: Seq<u8>, p: int, a: ArchiveParam) -> bool {
    &&& a.rel_offset_name == le32_at(s, p)
    &&& a.flags == le32_at(s, p + 4)
    &&& a.is_streamed == (s[p + 8] != 0)
    &&& cstring_end(s, resolved_at(s, p)) is Some
    &&& a.name@ == cstring_at(s, resolved_at(s, p))
}

/// The archive record at cursor `p` lies within `s` and its name offset
/// reaches a null-terminated string.
pub open spec fn archive_param_parseable(s: Seq<u8>, p: int) -> bool {
    &&& rec_aligned(p) + 9 <= s.len()
    &&& cstring_end(s, resolved_at(s, rec_aligned(p))) is Some
}

impl ArchiveParam {
    /// Parses one archive record at cursor `pos` (aligning forward to 4
    /// bytes first) and returns it with the cursor after the record.
    pub fn new(data: &[u8], pos: usize) -> (r: Result<(ArchiveParam, usize), Error>)
        ensures
            r matches Ok((a, next)) ==> {
                &&& archive_param_parseable(data@, pos as int)
                &&& is_archive_param_at(data@, rec_aligned(pos as int), a)
                &&& next == rec_aligned(pos as int) + 9
            },
            r is Ok <==> archive_param_parseable(data@, pos as int),
            r matches Err(e) ==> e == Error::IoError,
    {
        let n = data.len();
        if n < 9 || pos > n - 9 {
            proof {
                crate::util::lemma_align_divides(pos as int, 4, 0);
            }
            return Err(Error::IoError);
        }
        let aligned = crate::util::align_forward(pos as u64, 4, 0);
        if aligned > (n as u64) - 9 {
            return Err(Error::IoError);
        }
        let p = aligned as usize;
        let (name, rel_offset_name) = crate::util::read_cstring_via_offset(data, p)?;
        let flags = crate::util::read_u32_le(data, p + 4)?;
        let streamed_byte = crate::util::read_u8_at(data, p + 8)?;
        Ok(
            (
                ArchiveParam { rel_offset_name, flags, is_streamed: streamed_byte != 0, name },
                p + 9,
            ),
        )
    }
}

/// One extraction descriptor: where its bytes sit in which archive, the
/// stored and decoded sizes, the trailing buffer length, and whether the
/// entry is itself a compressed frame.
#[derive(Clone, Debug)]
pub struct FileParam {
    pub hash: u32,
    pub rel_offset_name: u32,
    pub archive_offset: u32,
    pub compressed_size: u32,
    pub uncompressed_size: u32,
    pub buffer_size: u32,
    pub archive_index: u8,
    pub is_compressed: bool,
    pub name: Vec<u8>,
}

/// `f` holds exactly the 26-byte file record of `s` whose aligned start is
/// `p`, with the name read through the resolved offset.
pub open spec fn is_file_param_at(s: Seq<u8>, p: int, f: FileParam) -> bool {
    &&& f.hash == le32_at(s, p)
    &&& f.rel_offset_name == le32_at(s, p + 4)
    &&& f.archive_offset == le32_at(s, p + 8)
    &&& f.compressed_size == le32_at(s, p + 12)
    &&& f.uncompressed_size == le32_at(s, p + 16)
    &&& f.buffer_size == le32_at(s, p + 20)
    &&& f.archive_index == s[p + 24]
    &&& f.is_compressed == (s[p + 25] == 1)
    &&& cstring_end(s, resolved_at(s, p + 4)) is Some
    &&& f.name@ == cstring_at(s, resolved_at(s, p + 4))
}

/// The file record at cursor `p` lies within `s` and its name offset
/// reaches a null-terminated string.
pub open spec fn file_param_parseable(s: Seq<u8>, p: int) -> bool {
    &&& rec_aligned(p) + 26 <= s.len()
    &&& cstring_end(s, resolved_at(s, rec_aligned(p) + 4)) is Some
}

impl FileParam {
    /// Parses one file record at cursor `pos` (aligning forward to 4 bytes
    /// first) and returns it with the cursor after the record.
    pub fn new(data: &[u8], pos: usize) -> (r: Result<(FileParam, usize), Error>)
        ensures
            r matches Ok((f, next)) ==> {
                &&& file_param_parseable(data@, pos as int)
                &&& is_file_param_at(data@, rec_aligned(pos as int), f)
                &&& next == rec_aligned(pos as int) + 26
            },
            r is Ok <==> file_param_parseable(data@, pos as int),
            r matches Err(e) ==> e == Error::IoError,
    {
        let n = data.len();
        if n < 26 || pos > n - 26 {
            proof {
                crate::util::lemma_align_divides(pos as int, 4, 0);
            }
            return Err(Error::IoError);
        }
        let aligned = crate::util::align_forward(pos as u64, 4, 0);
        if aligned > (n as u64) - 26 {
            return Err(Error::IoError);
        }
        let p = aligned as usize;
        let hash = crate::util::read_u32_le(data, p)?;
        let (name, rel_offset_name) = crate::util::read_cstring_via_offset(data, p + 4)?;
        let archive_offset = crate::util::read_u32_le(data, p + 8)?;
        let compressed_size = crate::util::read_u32_le(data, p + 12)?;
        let uncompressed_size = crate::util::read_u32_le(data, p + 16)?;
        let buffer_size = crate::util::read_u32_le(data, p + 20)?;
        let archive_index = crate::util::read_u8_at(data, p + 24)?;
        let compressed_byte = crate::util::read_u8_at(data, p + 25)?;
        Ok(
            (
                FileParam {
                    hash,
                    rel_offset_name,
                    archive_offset,
                    compressed_size,
                    uncompressed_size,
                    buffer_size,
                    archive_index,
                    is_compressed: compressed_byte == 1,
                    name,
                },
                p + 26,
            ),
        )
    }
}

/// The cursor before archive record `i` of a table that starts at `base`:
/// each record is aligned to 4 bytes and is 9 bytes long.
pub open spec fn arch_cursor(base: int, i: int) -> int
    decreases i,
{
    if i <= 0 {
        base
    } else {
        rec_aligned(arch_cursor(base, i - 1)) + 9
    }
}

/// The cursor before file record `i` of a table that starts at `base`:
/// each record is aligned to 4 bytes and is 26 bytes long.
pub open spec fn file_cursor(base: int, i: int) -> int
    decreases i,
{
    if i <= 0 {
        base
    } else {
        rec_aligned(file_cursor(base, i - 1)) + 26
    }
}

/// Every archive record of a `count`-row table starting at `base` parses.
pub open spec fn archives_parseable(s: Seq<u8>, base: int, count: int) -> bool {
    forall|i: int| 0 <= i < count ==> archive_param_parseable(s, #[trigger] arch_cursor(base, i))
}

/// Every file record of a `count`-row table starting at `base` parses.
pub open spec fn files_parseable(s: Seq<u8>, base: int, count: int) -> bool {
    forall|i: int| 0 <= i < count ==> file_param_parseable(s, #[trigger] file_cursor(base, i))
}

/// An archive index asset: the two resolved table offsets, the archive
/// table, and the file table.  Every file's `archive_index` is a valid
/// index into the archive table.
#[derive(Clone, Debug)]
pub struct TpArchiveFileParam {
    pub archive_count: u32,
    pub rel_offset_archives: u32,
    pub offset_archives: u64,
    pub file_count: u32,
    pub rel_offset_files: u32,
    pub offset_files: u64,
    pub archive_params: Vec<ArchiveParam>,
    pub file_params: Vec<FileParam>,
}

/// Every file descriptor points at an archive that exists.
pub open spec fn indexes_valid(files: Seq<FileParam>, archive_count: int) -> bool {
    forall|i: int| 0 <= i < files.len() ==> (#[trigger] files[i]).archive_index < archive_count
}

/// `t` holds exactly the header and the two record tables of `s` at `p`.
pub open spec fn is_archive_file_param_at(s: Seq<u8>, p: int, t: TpArchiveFileParam) -> bool {
    &&& t.archive_count == le32_at(s, p)
    &&& t.rel_offset_archives == le32_at(s, p + 4)
    &&& t.offset_archives == resolved_at(s, p + 4)
    &&& t.file_count == le32_at(s, p + 8)
    &&& t.rel_offset_files == le32_at(s, p + 12)
    &&& t.offset_files == resolved_at(s, p + 12)
    &&& t.archive_params@.len() == t.archive_count
    &&& forall|i: int|
        0 <= i < t.archive_params@.len() ==> is_archive_param_at(
            s,
            rec_aligned(arch_cursor(resolved_at(s, p + 4), i)),
            #[trigger] t.archive_params@[i],
        )
    &&& t.file_params@.len() == t.file_count
    &&& forall|i: int|
        0 <= i < t.file_params@.len() ==> is_file_param_at(
            s,
            rec_aligned(file_cursor(resolved_at(s, p + 12), i)),
            #[trigger] t.file_params@[i],
        )
    &&& indexes_valid(t.file_params@, t.archive_count as int)
}

/// The spec-level file descriptors of the file table of `s` at `p`: the
/// archive index stored in record `i`.
pub open spec fn stored_archive_index(s: Seq<u8>, files_base: int, i: int) -> u8 {
    s[rec_aligned(file_cursor(files_base, i)) + 24]
}

/// The 16-byte asset header and both tables lie within `s`.
pub open spec fn archive_file_param_tables_ok(s: Seq<u8>, p: int) -> bool {
    &&& p + 16 <= s.len()
    &&& resolved_at(s, p + 4) <= u64::MAX
    &&& resolved_at(s, p + 12) <= u64::MAX
    &&& archives_parseable(s, resolved_at(s, p + 4), le32_at(s, p) as int)
    &&& files_parseable(s, resolved_at(s, p + 12), le32_at(s, p + 8) as int)
}

/// The asset parses whole: both tables lie within `s` and every stored
/// archive index is in range.
pub open spec fn archive_file_param_parseable(s: Seq<u8>, p: int) -> bool {
    &&& archive_file_param_tables_ok(s, p)
    &&& forall|i: int|
        0 <= i < le32_at(s, p + 8) ==> #[trigger] stored_archive_index(s, resolved_at(s, p + 12), i)
            < le32_at(s, p)
}

impl TpArchiveFileParam {
    /// Parses an archive index asset at `pos`: the header, then the archive
    /// table and the file table, each record 4-byte aligned.  A file record
    /// whose archive index is out of range makes the whole asset
    /// `CorruptData`.
    #[verifier::loop_isolation(false)]
    pub fn new(data: &[u8], pos: usize) -> (r: Result<TpArchiveFileParam, Error>)
        ensures
            r matches Ok(t) ==> is_archive_file_param_at(data@, pos as int, t),
            r is Ok <==> archive_file_param_parseable(data@, pos as int),
            r matches Err(e) ==> (e == Error::IoError && !archive_file_param_tables_ok(
                data@,
                pos as int,
            )) || (e == Error::CorruptData && archive_file_param_tables_ok(data@, pos as int)),
    {
        let n = data.len();
        if n < 16 || pos > n - 16 {
            return Err(Error::IoError);
        }
        let archive_count = crate::util::read_u32_le(data, pos)?;
        let (offset_archives, rel_offset_archives) = crate::util::resolve_offset(data, pos + 4)?;
        let file_count = crate::util::read_u32_le(data, pos + 8)?;
        let (offset_files, rel_offset_files) = crate::util::resolve_offset(data, pos + 12)?;

        let mut archive_params: Vec<ArchiveParam> = Vec::new();
        let mut cur: u64 = offset_archives;
        let mut i: u32 = 0;
        while i < archive_count
            invariant
                n == data@.len(),
                0 <= i <= archive_count,
                cur == arch_cursor(offset_archives as int, i as int),
                cur <= u64::MAX,
                archive_params@.len() == i,
                forall|j: int|
                    0 <= j < i ==> is_archive_param_at(
                        data@,
                        rec_aligned(arch_cursor(offset_archives as int, j)),
                        #[trigger] archive_params@[j],
                    ),
                forall|j: int|
                    0 <= j < i ==> archive_param_parseable(
                        data@,
                        #[trigger] arch_cursor(offset_archives as int, j),
                    ),
            decreases archive_count - i,
        {
            if cur > n as u64 {
                proof {
                    crate::util::lemma_align_divides(cur as int, 4, 0);
                }
                return Err(Error::IoError);
            }
            let (a, next) = match ArchiveParam::new(data, cur as usize) {
                Ok(p) => p,
                Err(_) => {
                    return Err(Error::IoError);
                },
            };
            archive_params.push(a);
            cur = next as u64;
            i = i + 1;
        }

        let mut file_params: Vec<FileParam> = Vec::new();
        let mut fcur: u64 = offset_files;
        let mut k: u32 = 0;
        while k < file_count
            invariant
                n == data@.len(),
                0 <= k <= file_count,
                fcur == file_cursor(offset_files as int, k as int),
                fcur <= u64::MAX,
                file_params@.len() == k,
                archive_params@.len() == archive_count,
                forall|j: int|
                    0 <= j < k ==> is_file_param_at(
                        data@,
                        rec_aligned(file_cursor(offset_files as int, j)),
                        #[trigger] file_params@[j],
                    ),
                forall|j: int|
                    0 <= j < k ==> file_param_parseable(
                        data@,
                        #[trigger] file_cursor(offset_files as int, j),
                    ),
                forall|j: int|
                    0 <= j < k ==> (#[trigger] file_params@[j]).archive_index == stored_archive_index(
                        data@,
                        offset_files as int,
                        j,
                    ),
            decreases file_count - k,
        {
            if fcur > n as u64 {
                proof {
                    crate::util::lemma_align_divides(fcur as int, 4, 0);
                }
                return Err(Error::IoError);
            }
            let (f, next) = match FileParam::new(data, fcur as usize) {
                Ok(p) => p,
                Err(_) => {
                    return Err(Error::IoError);
                },
            };
            file_params.push(f);
            fcur = next as u64;
            k = k + 1;
        }

        let mut v: usize = 0;
        while v < file_params.len()
            invariant
                file_params@.len() == file_count,
                archive_params@.len() == archive_count,
                0 <= v <= file_params@.len(),
                forall|j: int|
                    0 <= j < v ==> (#[trigger] file_params@[j]).archive_index < archive_count,
                forall|j: int|
                    0 <= j < file_count ==> (#[trigger] file_params@[j]).archive_index
                        == stored_archive_index(data@, offset_files as int, j),
            decreases file_params@.len() - v,
        {
            if file_params[v].archive_index as u32 >= archive_count {
                return Err(Error::CorruptData);
            }
            v = v + 1;
        }

        proof {
            assert forall|i: int|
                0 <= i < le32_at(data@, pos + 8) implies #[trigger] stored_archive_index(
                data@,
                resolved_at(data@, pos + 12),
                i,
            ) < le32_at(data@, pos as int) by {
                assert(file_params@[i].archive_index == stored_archive_index(
                    data@,
                    offset_files as int,
                    i,
                ));
                assert(file_params@[i].archive_index < archive_count);
            }
        }
        Ok(
            TpArchiveFileParam {
                archive_count,
                rel_offset_archives,
                offset_archives,
                file_count,
                rel_offset_files,
                offset_files,
                archive_params,
                file_params,
            },
        )
    }
}

/// The byte-extraction rule over an already-decoded archive: the real offset
/// is the stored offset shifted into 16-byte units; a plain entry is the
/// `uncompressed_size + buffer_size` bytes there, a compressed entry is a
/// `compressed_size`-byte frame there, decompressed to exactly that many
/// bytes.  `None` when the slice runs past the end or the frame fails.
pub open spec fn spec_get_file(
    content: Seq<u8>,
    scaled_offset: u32,
    compressed_size: u32,
    uncompressed_size: u32,
    buffer_size: u32,
    is_compressed: bool,
) -> Option<Seq<u8>> {
    let off = scaled_offset * 16;
    let total = uncompressed_size + buffer_size;
    if is_compressed {
        if off + compressed_size <= content.len() && total <= usize::MAX {
            frame_prefix(content.subrange(off as int, off + compressed_size), total as int)
        } else {
            None
        }
    } else {
        if off + total <= content.len() {
            Some(content.subrange(off as int, off + total))
        } else {
            None
        }
    }
}

/// Slices one entry out of decoded archive bytes: reads at the scaled
/// offset, and decompresses the entry when it is stored as a frame.  The
/// trailing `buffer_size` bytes are part of the entry and are preserved.
pub fn get_file(
    archive_data: &[u8],
    scaled_offset: u32,
    compressed_size: u32,
    uncompressed_size: u32,
    buffer_size: u32,
    is_compressed: bool,
) -> (r: Result<Vec<u8>, Error>)
    ensures
        r matches Ok(v) ==> spec_get_file(
            archive_data@,
            scaled_offset,
            compressed_size,
            uncompressed_size,
            buffer_size,
            is_compressed,
        ) == Some(v@),
        r is Ok <==> spec_get_file(
            archive_data@,
            scaled_offset,
            compressed_size,
            uncompressed_size,
            buffer_size,
            is_compressed,
        ) is Some,
        r matches Err(e) ==> e == Error::IoError || e == Error::CorruptData,
{
    let off64 = (scaled_offset as u64) * 16;
    let n = archive_data.len();
    let total64 = uncompressed_size as u64 + buffer_size as u64;
    if is_compressed {
        if compressed_size as u64 > n as u64 || off64 > n as u64 - compressed_size as u64 {
            return Err(Error::IoError);
        }
        if total64 > usize::MAX as u64 {
            return Err(Error::IoError);
        }
        let slice = crate::util::copy_range(archive_data, off64 as usize, compressed_size as usize)?;
        match crate::frame::decode_frame_prefix(slice.as_slice(), total64 as usize) {
            Some(v) => Ok(v),
            None => Err(Error::CorruptData),
        }
    } else {
        if total64 > n as u64 || off64 > n as u64 - total64 {
            return Err(Error::IoError);
        }
        crate::util::copy_range(archive_data, off64 as usize, total64 as usize)
    }
}

/// The decoded content of one external archive: a streamed archive is its
/// raw bytes; any other archive is one compressed frame whose decompressed
/// size is read from its first 64 bytes and which is decompressed in full.
pub open spec fn decoded_archive(raw: Seq<u8>, is_streamed: bool) -> Option<Seq<u8>> {
    if is_streamed {
        Some(raw)
    } else if raw.len() < 64 {
        None
    } else {
        match frame_size_hint(raw.subrange(0, 64)) {
            Some(sz) => if sz <= usize::MAX {
                frame_prefix(raw, sz as int)
            } else {
                None
            },
            None => None,
        }
    }
}

/// Loads one external archive from its raw file bytes, decompressing it in
/// full up front unless it is streamed.
pub fn load_archive(raw: &[u8], is_streamed: bool) -> (r: Result<Vec<u8>, Error>)
    ensures
        r matches Ok(v) ==> decoded_archive(raw@, is_streamed) == Some(v@),
        r is Ok <==> decoded_archive(raw@, is_streamed) is Some,
        r matches Err(e) ==> (e == Error::IoError && !is_streamed && raw@.len() < 64) || (e
            == Error::CorruptData && !is_streamed && raw@.len() >= 64),
{
    if is_streamed {
        let out = crate::util::copy_range(raw, 0, raw.len());
        match out {
            Ok(v) => {
                proof {
                    assert(v@ =~= raw@);
                }
                Ok(v)
            },
            Err(_) => vstd::pervasive::unreached(),
        }
    } else {
        if raw.len() < 64 {
            return Err(Error::IoError);
        }
        let header = match crate::util::copy_range(raw, 0, 64) {
            Ok(h) => h,
            Err(_) => vstd::pervasive::unreached(),
        };
        match crate::frame::frame_content_size(header.as_slice()) {
            None => Err(Error::CorruptData),
            Some(sz) => {
                if sz > usize::MAX as u64 {
                    return Err(Error::CorruptData);
                }
                match crate::frame::decode_frame_prefix(raw, sz as usize) {
                    Some(v) => Ok(v),
                    None => Err(Error::CorruptData),
                }
            },
        }
    }
}

/// The extraction precondition that a destination was chosen: extraction
/// writes somewhere, so a missing destination is `OutputTargetMissing`
/// before any work starts.
pub fn require_output_target(target: Option<Vec<u8>>) -> (r: Result<Vec<u8>, Error>)
    ensures
        r matches Ok(v) ==> target == Some(v),
        r is Ok <==> target is Some,
        r matches Err(e) ==> e == Error::OutputTargetMissing,
{
    match target {
        Some(v) => Ok(v),
        None => Err(Error::OutputTargetMissing),
    }
}

/// Live progress of one bulk extraction round: how many files were
/// scheduled, and how many have reached a terminal outcome of each kind.
/// A fresh tracker reads as settled; `reset` starts a round.
#[derive(Clone, Copy, Debug, PartialEq, Eq, Structural)]
pub struct BulkProgress {
    pub total: usize,
    pub extracted: usize,
    pub failed: usize,
}

impl BulkProgress {
    /// At most one terminal outcome has been recorded per scheduled file.
    pub open spec fn wf(&self) -> bool {
        self.extracted + self.failed <= self.total
    }

    /// Every scheduled file has reached a terminal outcome.
    pub open spec fn settled(&self) -> bool {
        self.extracted + self.failed == self.total
    }

    /// A tracker for `total` scheduled files; it reads as settled until a
    /// round is started with `reset`.
    pub fn new(total: usize) -> (r: BulkProgress)
        ensures
            r.total == total,
            r.extracted == total,
            r.failed == 0,
            r.wf(),
    {
        BulkProgress { total, extracted: total, failed: 0 }
    }

    /// Starts a round: both counters return to zero.
    pub fn reset(&mut self)
        ensures
            final(self).total == old(self).total,
            final(self).extracted == 0,
            final(self).failed == 0,
            final(self).wf(),
    {
        self.extracted = 0;
        self.failed = 0;
    }

    /// Records one successful extraction.
    pub fn record_success(&mut self)
        requires
            old(self).extracted + old(self).failed < old(self).total,
        ensures
            final(self).total == old(self).total,
            final(self).extracted == old(self).extracted + 1,
            final(self).failed == old(self).failed,
    {
        self.extracted = self.extracted + 1;
    }

    /// Records one failed extraction.
    pub fn record_failure(&mut self)
        requires
            old(self).extracted + old(self).failed < old(self).total,
        ensures
            final(self).total == old(self).total,
            final(self).extracted == old(self).extracted,
            final(self).failed == old(self).failed + 1,
    {
        self.failed = self.failed + 1;
    }

    /// Whether every scheduled file has reached a terminal outcome.
    pub fn is_settled(&self) -> (r: bool)
        ensures
            r == self.settled(),
    {
        self.extracted <= self.total && self.total - self.extracted == self.failed
    }
}

/// The positions (into the file table) of the files of archive `a` among the
/// first `i` file records, in table order.
pub open spec fn job_indices_prefix(s: Seq<FileParam>, a: int, i: int) -> Seq<usize>
    decreases i,
{
    if i <= 0 {
        Seq::empty()
    } else {
        job_indices_prefix(s, a, i - 1) + (if s[i - 1].archive_index == a {
            seq![(i - 1) as usize]
        } else {
            Seq::empty()
        })
    }
}

/// The planned order of one bulk round over `n` archives: all files of
/// archive 0 in table order, then those of archive 1, and so on — grouping
/// files by archive to maximise cache reuse.
pub open spec fn job_order(s: Seq<FileParam>, n: int) -> Seq<usize>
    decreases n,
{
    if n <= 0 {
        Seq::empty()
    } else {
        job_order(s, n - 1) + job_indices_prefix(s, n - 1, s.len() as int)
    }
}

/// Every position listed in `job_indices_prefix(s, a, i)` points at a file
/// among the first `i` whose archive index is exactly `a`.
pub proof fn lemma_job_indices_prefix_members(s: Seq<FileParam>, a: int, i: int)
    requires
        0 <= i <= s.len(),
        i <= usize::MAX,
    ensures
        forall|q: int|
            0 <= q < job_indices_prefix(s, a, i).len() ==> (#[trigger] job_indices_prefix(
                s,
                a,
                i,
            )[q]) < i && s[job_indices_prefix(s, a, i)[q] as int].archive_index == a,
    decreases i,
{
    if i > 0 {
        lemma_job_indices_prefix_members(s, a, i - 1);
        let prev = job_indices_prefix(s, a, i - 1);
        let tail: Seq<usize> = if s[i - 1].archive_index == a {
            seq![(i - 1) as usize]
        } else {
            Seq::empty()
        };
        assert(job_indices_prefix(s, a, i) == prev + tail);
        assert forall|q: int|
            0 <= q < job_indices_prefix(s, a, i).len() implies (#[trigger] job_indices_prefix(
            s,
            a,
            i,
        )[q]) < i && s[job_indices_prefix(s, a, i)[q] as int].archive_index == a by {
            if q < prev.len() {
                assert(job_indices_prefix(s, a, i)[q] == prev[q]);
                assert(prev[q] < i - 1 && s[prev[q] as int].archive_index == a);
            } else {
                assert(tail.len() > 0);
                assert(s[i - 1].archive_index == a);
                assert(job_indices_prefix(s, a, i)[q] == tail[q - prev.len()]);
                assert(tail[q - prev.len()] == (i - 1) as usize);
            }
        }
    }
}

/// Every position listed in `job_order(s, n)` points into `s`, at a file
/// whose archive index is below `n`.
pub proof fn lemma_job_order_members(s: Seq<FileParam>, n: int)
    requires
        0 <= n,
        s.len() <= usize::MAX,
    ensures
        forall|q: int|
            0 <= q < job_order(s, n).len() ==> (#[trigger] job_order(s, n)[q]) < s.len() && s[
                job_order(s, n)[q] as int].archive_index < n,
    decreases n,
{
    if n > 0 {
        lemma_job_order_members(s, n - 1);
        lemma_job_indices_prefix_members(s, n - 1, s.len() as int);
        let prev = job_order(s, n - 1);
        let last = job_indices_prefix(s, n - 1, s.len() as int);
        assert forall|q: int|
            0 <= q < job_order(s, n).len() implies (#[trigger] job_order(s, n)[q]) < s.len() && s[
            job_order(s, n)[q] as int].archive_index < n by {
            if q < prev.len() {
                assert(job_order(s, n)[q] == prev[q]);
            } else {
                assert(job_order(s, n)[q] == last[q - prev.len()]);
            }
        }
    }
}

/// The planned order keeps files grouped by ascending archive index: any
/// earlier planned file belongs to an archive no later than any later one.
pub proof fn lemma_job_order_sorted(s: Seq<FileParam>, n: int)
    requires
        0 <= n,
        s.len() <= usize::MAX,
    ensures
        forall|q1: int, q2: int|
            0 <= q1 <= q2 < job_order(s, n).len() ==> s[#[trigger] job_order(s, n)[q1] as int].archive_index
                <= s[#[trigger] job_order(s, n)[q2] as int].archive_index,
    decreases n,
{
    if n > 0 {
        lemma_job_order_sorted(s, n - 1);
        lemma_job_order_members(s, n - 1);
        lemma_job_indices_prefix_members(s, n - 1, s.len() as int);
        let prev = job_order(s, n - 1);
        let last = job_indices_prefix(s, n - 1, s.len() as int);
        assert forall|q1: int, q2: int|
            0 <= q1 <= q2 < job_order(s, n).len() implies s[#[trigger] job_order(s, n)[q1] as int].archive_index
            <= s[#[trigger] job_order(s, n)[q2] as int].archive_index by {
            if q2 < prev.len() {
                assert(job_order(s, n)[q1] == prev[q1]);
                assert(job_order(s, n)[q2] == prev[q2]);
            } else if q1 >= prev.len() {
                assert(job_order(s, n)[q1] == last[q1 - prev.len()]);
                assert(job_order(s, n)[q2] == last[q2 - prev.len()]);
            } else {
                assert(job_order(s, n)[q1] == prev[q1]);
                assert(job_order(s, n)[q2] == last[q2 - prev.len()]);
            }
        }
    }
}

/// The total number of positions the first `n` archive groups list among
/// the first `i` file records.
pub open spec fn bucket_len_sum(s: Seq<FileParam>, n: int, i: int) -> int
    decreases n,
{
    if n <= 0 {
        0
    } else {
        bucket_len_sum(s, n - 1, i) + job_indices_prefix(s, n - 1, i).len()
    }
}

/// No archive group lists a position among zero file records.
proof fn lemma_bucket_len_sum_zero(s: Seq<FileParam>, n: int)
    requires
        0 <= n,
    ensures
        bucket_len_sum(s, n, 0) == 0,
    decreases n,
{
    if n > 0 {
        lemma_bucket_len_sum_zero(s, n - 1);
    }
}

/// Taking file record `i - 1` into account adds one listed position when
/// its archive index falls below `n`, and none otherwise.
proof fn lemma_bucket_len_sum_step(s: Seq<FileParam>, n: int, i: int)
    requires
        0 <= n,
        0 < i <= s.len(),
    ensures
        bucket_len_sum(s, n, i) == bucket_len_sum(s, n, i - 1) + (if s[i - 1].archive_index < n {
            1int
        } else {
            0int
        }),
    decreases n,
{
    if n > 0 {
        lemma_bucket_len_sum_step(s, n - 1, i);
    }
}

/// When every one of the first `i` file records points below `n`, the `n`
/// archive groups list exactly `i` positions in total.
proof fn lemma_bucket_len_sum_total(s: Seq<FileParam>, n: int, i: int)
    requires
        0 <= n,
        0 <= i <= s.len(),
        forall|k: int| 0 <= k < i ==> (#[trigger] s[k]).archive_index < n,
    ensures
        bucket_len_sum(s, n, i) == i,
    decreases i,
{
    if i == 0 {
        lemma_bucket_len_sum_zero(s, n);
    } else {
        lemma_bucket_len_sum_total(s, n, i - 1);
        lemma_bucket_len_sum_step(s, n, i);
    }
}

/// The planned order is as long as the groups' total.
proof fn lemma_job_order_len(s: Seq<FileParam>, n: int)
    requires
        0 <= n,
    ensures
        job_order(s, n).len() == bucket_len_sum(s, n, s.len() as int),
    decreases n,
{
    if n > 0 {
        lemma_job_order_len(s, n - 1);
    }
}

/// The plan is complete: when every file points at one of the `n` archives,
/// the planned order lists exactly one position per file.
pub proof fn lemma_job_order_complete(s: Seq<FileParam>, n: int)
    requires
        0 <= n,
        indexes_valid(s, n),
    ensures
        job_order(s, n).len() == s.len(),
{
    lemma_job_order_len(s, n);
    lemma_bucket_len_sum_total(s, n, s.len() as int);
}

/// The number of present entries of `s`.
pub open spec fn count_some(s: Seq<Option<Vec<u8>>>) -> int
    decreases s.len(),
{
    if s.len() == 0 {
        0
    } else {
        count_some(s.drop_last()) + (if s.last() is Some {
            1int
        } else {
            0int
        })
    }
}

/// The outcome of extracting the file described by `fp`: its archive's raw
/// bytes are decoded once, then the entry is sliced out of them.
pub open spec fn spec_extract_one(
    fp: FileParam,
    params: Seq<ArchiveParam>,
    archives: Seq<Vec<u8>>,
) -> Option<Seq<u8>> {
    let a = fp.archive_index as int;
    match decoded_archive(archives[a]@, params[a].is_streamed) {
        Some(content) => spec_get_file(
            content,
            fp.archive_offset,
            fp.compressed_size,
            fp.uncompressed_size,
            fp.buffer_size,
            fp.is_compressed,
        ),
        None => None,
    }
}

/// `o` carries exactly the bytes of outcome `m`, or is absent as `m` is.
pub open spec fn output_matches(o: Option<Vec<u8>>, m: Option<Seq<u8>>) -> bool {
    match o {
        Some(v) => m == Some(v@),
        None => m is None,
    }
}

/// Reads the cached decoded bytes of archive `a`.
fn get_loaded<'a>(cache: &'a Vec<Option<Vec<u8>>>, a: usize) -> (r: &'a Vec<u8>)
    requires
        a < cache@.len(),
        cache@[a as int] is Some,
    ensures
        cache@[a as int] == Some(*r),
{
    match &cache[a] {
        Some(content) => content,
        None => vstd::pervasive::unreached(),
    }
}

impl TpArchiveFileParam {
    /// Every file descriptor points at an archive of this index.
    pub open spec fn wf(&self) -> bool {
        indexes_valid(self.file_params@, self.archive_params@.len() as int)
    }

    /// The expected on-disk location of archive `archive_index`: the base
    /// directory joined with the archive's name.  Resolving a missing
    /// archive elsewhere is the caller's concern; an out-of-range index
    /// reports `ArchiveNotFound`.
    pub fn locate_archive(&self, archive_index: usize, base_dir: &[u8]) -> (r: Result<
        Vec<u8>,
        Error,
    >)
        ensures
            r matches Ok(v) ==> archive_index < self.archive_params@.len() && v@ == base_dir@
                + seq![0x2Fu8] + self.archive_params@[archive_index as int].name@,
            r is Ok <==> archive_index < self.archive_params@.len(),
            r matches Err(e) ==> e == Error::ArchiveNotFound,
    {
        if archive_index >= self.archive_params.len() {
            return Err(Error::ArchiveNotFound);
        }
        let mut out: Vec<u8> = Vec::new();
        let mut i: usize = 0;
        while i < base_dir.len()
            invariant
                i <= base_dir@.len(),
                out@ == base_dir@.subrange(0, i as int),
            decreases base_dir@.len() - i,
        {
            out.push(base_dir[i]);
            i = i + 1;
            proof {
                assert(out@ =~= base_dir@.subrange(0, i as int));
            }
        }
        out.push(0x2F);
        let name = &self.archive_params[archive_index].name;
        let mut k: usize = 0;
        while k < name.len()
            invariant
                name == &self.archive_params@[archive_index as int].name,
                k <= name@.len(),
                out@ == base_dir@.subrange(0, base_dir@.len() as int) + seq![0x2Fu8]
                    + name@.subrange(0, k as int),
            decreases name@.len() - k,
        {
            out.push(name[k]);
            k = k + 1;
            proof {
                assert(out@ =~= base_dir@.subrange(0, base_dir@.len() as int) + seq![0x2Fu8]
                    + name@.subrange(0, k as int));
            }
        }
        proof {
            assert(base_dir@.subrange(0, base_dir@.len() as int) =~= base_dir@);
            assert(name@.subrange(0, name@.len() as int) =~= name@);
        }
        Ok(out)
    }

    /// Extracts one file synchronously: decodes the supplied raw archive
    /// bytes (no cache) and slices the entry out.
    pub fn extract_file(&self, index: usize, archive_raw: &[u8]) -> (r: Result<Vec<u8>, Error>)
        requires
            self.wf(),
            index < self.file_params@.len(),
        ensures
            ({
                let fp = self.file_params@[index as int];
                let streamed = self.archive_params@[fp.archive_index as int].is_streamed;
                &&& r matches Ok(v) ==> (decoded_archive(archive_raw@, streamed) matches Some(c)
                    && spec_get_file(
                    c,
                    fp.archive_offset,
                    fp.compressed_size,
                    fp.uncompressed_size,
                    fp.buffer_size,
                    fp.is_compressed,
                ) == Some(v@))
                &&& r is Ok <==> (decoded_archive(archive_raw@, streamed) matches Some(c)
                    && spec_get_file(
                    c,
                    fp.archive_offset,
                    fp.compressed_size,
                    fp.uncompressed_size,
                    fp.buffer_size,
                    fp.is_compressed,
                ) is Some)
            }),
    {
        let fp = &self.file_params[index];
        let a = fp.archive_index as usize;
        let content = load_archive(archive_raw, self.archive_params[a].is_streamed)?;
        get_file(
            content.as_slice(),
            fp.archive_offset,
            fp.compressed_size,
            fp.uncompressed_size,
            fp.buffer_size,
            fp.is_compressed,
        )
    }

    /// Plans one bulk round: the file-table positions grouped by archive
    /// index, in table order within each archive.
    pub fn plan_jobs(&self) -> (jobs: Vec<usize>)
        ensures
            jobs@ == job_order(self.file_params@, self.archive_params@.len() as int),
            forall|q: int| 0 <= q < jobs@.len() ==> (#[trigger] jobs@[q]) < self.file_params@.len(),
    {
        let mut jobs: Vec<usize> = Vec::new();
        let mut a: usize = 0;
        while a < self.archive_params.len()
            invariant
                a <= self.archive_params@.len(),
                jobs@ == job_order(self.file_params@, a as int),
                forall|q: int|
                    0 <= q < jobs@.len() ==> (#[trigger] jobs@[q]) < self.file_params@.len(),
            decreases self.archive_params@.len() - a,
        {
            let mut i: usize = 0;
            while i < self.file_params.len()
                invariant
                    a < self.archive_params@.len(),
                    i <= self.file_params@.len(),
                    jobs@ == job_order(self.file_params@, a as int) + job_indices_prefix(
                        self.file_params@,
                        a as int,
                        i as int,
                    ),
                    forall|q: int|
                        0 <= q < jobs@.len() ==> (#[trigger] jobs@[q]) < self.file_params@.len(),
                decreases self.file_params@.len() - i,
            {
                if self.file_params[i].archive_index as usize == a {
                    jobs.push(i);
                }
                i = i + 1;
                proof {
                    assert(jobs@ =~= job_order(self.file_params@, a as int) + job_indices_prefix(
                        self.file_params@,
                        a as int,
                        i as int,
                    ));
                }
            }
            a = a + 1;
            proof {
                assert(job_indices_prefix(
                    self.file_params@,
                    a - 1,
                    self.file_params@.len() as int,
                ) =~= job_indices_prefix(self.file_params@, a - 1, self.file_params@.len() as int));
                assert(jobs@ =~= job_order(self.file_params@, a as int));
            }
        }
        proof {
            assert(jobs@ =~= job_order(self.file_params@, self.archive_params@.len() as int));
        }
        jobs
    }

    /// Runs one bulk extraction round over pre-read raw archive bytes
    /// (`archives_raw[k]` is the file content of archive `k`): plans the
    /// jobs, decodes each needed archive at most once into a shared cache,
    /// slices every entry from the cached bytes, and accounts one terminal
    /// outcome per job.  When the round settles, the two counters sum to
    /// the number of scheduled files.
    #[verifier::loop_isolation(false)]
    pub fn extract_all_files(&self, archives_raw: &Vec<Vec<u8>>) -> (r: (
        Vec<usize>,
        Vec<Option<Vec<u8>>>,
        BulkProgress,
    ))
        requires
            self.wf(),
            archives_raw@.len() == self.archive_params@.len(),
        ensures
            r.0@ == job_order(self.file_params@, self.archive_params@.len() as int),
            r.0@.len() == self.file_params@.len(),
            r.1@.len() == r.0@.len(),
            forall|p: int|
                0 <= p < r.0@.len() ==> output_matches(
                    #[trigger] r.1@[p],
                    spec_extract_one(
                        self.file_params@[r.0@[p] as int],
                        self.archive_params@,
                        archives_raw@,
                    ),
                ),
            r.2.total == r.0@.len(),
            r.2.settled(),
            r.2.extracted == count_some(r.1@),
            r.2.extracted + r.2.failed == r.0@.len(),
    {
        proof {
            lemma_job_order_complete(self.file_params@, self.archive_params@.len() as int);
        }
        let jobs = self.plan_jobs();
        let n_jobs = jobs.len();
        let mut outputs: Vec<Option<Vec<u8>>> = Vec::new();
        let mut progress = BulkProgress::new(n_jobs);
        progress.reset();
        let mut cache: Vec<Option<Vec<u8>>> = Vec::new();
        let mut ci: usize = 0;
        while ci < self.archive_params.len()
            invariant
                ci <= self.archive_params@.len(),
                cache@.len() == ci,
                forall|x: int| 0 <= x < ci ==> (#[trigger] cache@[x]) is None,
            decreases self.archive_params@.len() - ci,
        {
            cache.push(None);
            ci = ci + 1;
        }
        let mut p: usize = 0;
        while p < n_jobs
            invariant
                p <= n_jobs,
                outputs@.len() == p,
                cache@.len() == self.archive_params@.len(),
                forall|x: int|
                    0 <= x < cache@.len() ==> ((#[trigger] cache@[x]) matches Some(c)
                        ==> decoded_archive(
                        archives_raw@[x]@,
                        self.archive_params@[x].is_streamed,
                    ) == Some(c@)),
                forall|q: int|
                    0 <= q < p ==> output_matches(
                        #[trigger] outputs@[q],
                        spec_extract_one(
                            self.file_params@[jobs@[q] as int],
                            self.archive_params@,
                            archives_raw@,
                        ),
                    ),
                progress.total == n_jobs,
                progress.extracted + progress.failed == p,
                progress.extracted == count_some(outputs@),
            decreases n_jobs - p,
        {
            let j = jobs[p];
            let a = self.file_params[j].archive_index as usize;
            if cache[a].is_none() {
                match load_archive(
                    archives_raw[a].as_slice(),
                    self.archive_params[a].is_streamed,
                ) {
                    Ok(bytes) => {
                        cache.set(a, Some(bytes));
                    },
                    Err(_) => {},
                }
            }
            if cache[a].is_none() {
                let ghost prev = outputs@;
                outputs.push(None);
                progress.record_failure();
                proof {
                    assert(outputs@.drop_last() =~= prev);
                }
            } else {
                let content = get_loaded(&cache, a);
                let fp = &self.file_params[j];
                match get_file(
                    content.as_slice(),
                    fp.archive_offset,
                    fp.compressed_size,
                    fp.uncompressed_size,
                    fp.buffer_size,
                    fp.is_compressed,
                ) {
                    Ok(v) => {
                        let ghost prev = outputs@;
                        outputs.push(Some(v));
                        progress.record_success();
                        proof {
                            assert(outputs@.drop_last() =~= prev);
                        }
                    },
                    Err(_) => {
                        let ghost prev = outputs@;
                        outputs.push(None);
                        progress.record_failure();
                        proof {
                            assert(outputs@.drop_last() =~= prev);
                        }
                    },
                }
            }
            p = p + 1;
        }
        (jobs, outputs, progress)
    }
}

} // verus!
