//! Byte-level primitives: little-endian reads, relative-offset resolution,
//! null-terminated string reads, and alignment padding.
//!
//! Every container format handled by this crate stores offsets as relative
//! 32-bit values; the absolute offset of a field is the stored value plus the
//! position immediately after the stored value.  All multi-byte integers are
//! little-endian.

use vstd::prelude::*;

verus! {

use crate::Error;

/// The value of the four little-endian bytes of `s` starting at `i`.
pub open spec fn le32_at(s: Seq<u8>, i: int) -> u32
    recommends
        0 <= i,
        i + 4 <= s.len(),
{
    (s[i] + s[i + 1] * 0x100 + s[i + 2] * 0x1_0000 + s[i + 3] * 0x100_0000) as u32
}

/// Reads a little-endian u32 at `pos`; fails when fewer than four bytes remain.
pub fn read_u32_le(data: &[u8], pos: usize) -> (r: Result<u32, Error>)
    ensures
        r matches Ok(v) ==> pos + 4 <= data@.len() && v == le32_at(data@, pos as int),
        r is Err <==> pos + 4 > data@.len(),
        r matches Err(e) ==> e == Error::IoError,
{
    if data.len() < 4 || pos > data.len() - 4 {
        return Err(Error::IoError);
    }
    let b0 = data[pos] as u32;
    let b1 = data[pos + 1] as u32;
    let b2 = data[pos + 2] as u32;
    let b3 = data[pos + 3] as u32;
    Ok(b0 + b1 * 0x100 + b2 * 0x1_0000 + b3 * 0x100_0000)
}

/// Reads the byte at `pos`; fails when `pos` is past the end.
pub fn read_u8_at(data: &[u8], pos: usize) -> (r: Result<u8, Error>)
    ensures
        r matches Ok(v) ==> pos < data@.len() && v == data@[pos as int],
        r is Err <==> pos >= data@.len(),
        r matches Err(e) ==> e == Error::IoError,
{
    if pos >= data.len() {
        return Err(Error::IoError);
    }
    Ok(data[pos])
}

/// The absolute target of the relative offset stored at `i`: the stored value
/// plus the position immediately after it.
pub open spec fn resolved_at(s: Seq<u8>, i: int) -> int {
    i + 4 + le32_at(s, i)
}

/// Reads a relative 32-bit offset at `pos` and resolves it against the stream
/// position after the read.  Returns the absolute offset and the raw relative
/// value; fails with `IoError` on a short read (or when the absolute offset
/// would not fit in 64 bits).
pub fn resolve_offset(data: &[u8], pos: usize) -> (r: Result<(u64, u32), Error>)
    ensures
        r matches Ok((abs, rel)) ==> {
            &&& pos + 4 <= data@.len()
            &&& rel == le32_at(data@, pos as int)
            &&& abs == resolved_at(data@, pos as int)
        },
        r is Err <==> pos + 4 > data@.len() || resolved_at(data@, pos as int) > u64::MAX,
        r matches Err(e) ==> e == Error::IoError,
{
    let n = data.len();
    let rel = read_u32_le(data, pos)?;
    let after = pos as u64 + 4;
    if rel as u64 > u64::MAX - after {
        return Err(Error::IoError);
    }
    Ok((after + rel as u64, rel))
}

/// The index of the first zero byte of `s` at or after `i`, when there is one.
pub open spec fn cstring_end(s: Seq<u8>, i: int) -> Option<int>
    decreases s.len() - i,
{
    if i < 0 || i >= s.len() {
        None
    } else if s[i] == 0 {
        Some(i)
    } else {
        cstring_end(s, i + 1)
    }
}

/// The bytes of the null-terminated string starting at `i` (terminator
/// excluded), when there is a terminator.
pub open spec fn cstring_at(s: Seq<u8>, i: int) -> Seq<u8>
    recommends
        cstring_end(s, i) is Some,
{
    s.subrange(i, cstring_end(s, i).unwrap())
}

/// Reads bytes starting at `pos` up to the first zero byte (exclusive); fails
/// with `IoError` when the data ends before a zero byte is found.
pub fn read_cstring(data: &[u8], pos: usize) -> (r: Result<Vec<u8>, Error>)
    ensures
        r matches Ok(v) ==> cstring_end(data@, pos as int) is Some && v@ == cstring_at(
            data@,
            pos as int,
        ),
        r is Err <==> cstring_end(data@, pos as int) is None,
        r matches Err(e) ==> e == Error::IoError,
{
    if pos >= data.len() {
        proof {
            cstring_end_none_past_len(data@, pos as int);
        }
        return Err(Error::IoError);
    }
    let mut out: Vec<u8> = Vec::new();
    let mut i: usize = pos;
    proof {
        assert(out@ =~= data@.subrange(pos as int, pos as int));
    }
    loop
        invariant
            pos <= i <= data@.len(),
            cstring_end(data@, pos as int) == cstring_end(data@, i as int),
            out@ == data@.subrange(pos as int, i as int),
            forall|k: int| pos <= k < i ==> data@[k] != 0,
        decreases data@.len() - i,
    {
        if i >= data.len() {
            return Err(Error::IoError);
        }
        let b = data[i];
        if b == 0 {
            proof {
                assert(cstring_end(data@, i as int) == Some(i as int));
                assert(out@ =~= cstring_at(data@, pos as int));
            }
            return Ok(out);
        }
        out.push(b);
        i = i + 1;
        proof {
            assert(out@ =~= data@.subrange(pos as int, i as int));
        }
    }
}

/// Reads the same string that `resolve_offset` at `pos` points at, without
/// moving the caller's cursor: resolves the offset, then reads the
/// null-terminated bytes at the resolved position.
pub fn read_cstring_via_offset(data: &[u8], pos: usize) -> (r: Result<(Vec<u8>, u32), Error>)
    ensures
        r matches Ok((v, rel)) ==> {
            &&& pos + 4 <= data@.len()
            &&& rel == le32_at(data@, pos as int)
            &&& cstring_end(data@, resolved_at(data@, pos as int)) is Some
            &&& v@ == cstring_at(data@, resolved_at(data@, pos as int))
        },
        r is Err <==> pos + 4 > data@.len() || cstring_end(data@, resolved_at(data@, pos as int))
            is None,
        r matches Err(e) ==> e == Error::IoError,
{
    let n = data.len();
    let (abs, rel) = match resolve_offset(data, pos) {
        Ok(p) => p,
        Err(e) => {
            proof {
                if pos + 4 <= data@.len() {
                    cstring_end_none_past_len(data@, resolved_at(data@, pos as int));
                }
            }
            return Err(e);
        },
    };
    if abs > data.len() as u64 {
        proof {
            cstring_end_none_past_len(data@, resolved_at(data@, pos as int));
        }
        return Err(Error::IoError);
    }
    let v = read_cstring(data, abs as usize)?;
    Ok((v, rel))
}

/// A position at or past the end of the data has no null terminator after it.
pub proof fn cstring_end_none_past_len(s: Seq<u8>, i: int)
    requires
        i >= s.len(),
    ensures
        cstring_end(s, i) is None,
{
}

/// The smallest position at or after `position` whose distance from `base` is
/// a multiple of `to`.
pub open spec fn spec_align_forward(position: int, to: int, base: int) -> int
    recommends
        to > 0,
        base <= position,
{
    if (position - base) % to == 0 {
        position
    } else {
        position + (to - (position - base) % to)
    }
}

/// Advances `position` to the next multiple of `to` measured from `base`;
/// an already-aligned position is returned unchanged.
pub fn align_forward(position: u64, to: u64, base: u64) -> (r: u64)
    requires
        to > 0,
        base <= position,
        position + to <= u64::MAX,
    ensures
        r == spec_align_forward(position as int, to as int, base as int),
        position <= r < position + to,
        (r - base) % (to as int) == 0,
{
    let m = (position - base) % to;
    proof {
        lemma_align_divides(position as int, to as int, base as int);
    }
    if m == 0 {
        position
    } else {
        position + (to - m)
    }
}

/// The result of `spec_align_forward` is a multiple of `to` away from `base`
/// and lies within `to` bytes of the starting position.
pub proof fn lemma_align_divides(position: int, to: int, base: int)
    requires
        to > 0,
        base <= position,
    ensures
        (spec_align_forward(position, to, base) - base) % to == 0,
        position <= spec_align_forward(position, to, base) < position + to,
{
    let d = position - base;
    let m = d % to;
    assert(0 <= m < to && (d + (to - m)) % to == 0) by (nonlinear_arith)
        requires
            to > 0,
            d >= 0,
            m == d % to,
    ;
}

/// Aligning is idempotent: aligning an already-aligned position returns it
/// unchanged, so aligning twice gives the same position as aligning once.
pub proof fn lemma_align_forward_idempotent(position: int, to: int, base: int)
    requires
        to > 0,
        base <= position,
    ensures
        (position - base) % to == 0 ==> spec_align_forward(position, to, base) == position,
        spec_align_forward(spec_align_forward(position, to, base), to, base) == spec_align_forward(
            position,
            to,
            base,
        ),
{
    lemma_align_divides(position, to, base);
}

/// Copies the `len` bytes of `data` starting at `start`; fails with `IoError`
/// when the range runs past the end.
pub fn copy_range(data: &[u8], start: usize, len: usize) -> (r: Result<Vec<u8>, Error>)
    ensures
        r matches Ok(v) ==> start + len <= data@.len() && v@ == data@.subrange(
            start as int,
            start + len,
        ),
        r is Err <==> start + len > data@.len(),
        r matches Err(e) ==> e == Error::IoError,
{
    let n = data.len();
    if len > n || start > n - len {
        return Err(Error::IoError);
    }
    let mut out: Vec<u8> = Vec::new();
    let mut i: usize = 0;
    proof {
        assert(out@ =~= data@.subrange(start as int, start as int));
    }
    while i < len
        invariant
            n == data@.len(),
            start + len <= data@.len(),
            i <= len,
            out@ == data@.subrange(start as int, start + i),
        decreases len - i,
    {
        out.push(data[start + i]);
        i = i + 1;
        proof {
            assert(out@ =~= data@.subrange(start as int, start + i));
        }
    }
    Ok(out)
}

/// The four little-endian bytes of `v`.
pub open spec fn le32_bytes(v: u32) -> Seq<u8> {
    seq![
        (v % 0x100) as u8,
        ((v / 0x100) % 0x100) as u8,
        ((v / 0x1_0000) % 0x100) as u8,
        ((v / 0x100_0000) % 0x100) as u8,
    ]
}

/// Appends `v` to `out` as four little-endian bytes.
pub fn push_u32_le(out: &mut Vec<u8>, v: u32)
    ensures
        final(out)@ == old(out)@ + le32_bytes(v),
{
    out.push((v % 0x100) as u8);
    out.push((v / 0x100 % 0x100) as u8);
    out.push((v / 0x1_0000 % 0x100) as u8);
    out.push((v / 0x100_0000 % 0x100) as u8);
    proof {
        assert(out@ =~= old(out)@ + le32_bytes(v));
    }
}

/// Reading four little-endian bytes back gives the value they were written
/// from: the codec round-trips over any byte position.
pub proof fn lemma_le32_round_trip(s: Seq<u8>, i: int, v: u32)
    requires
        0 <= i,
        i + 4 <= s.len(),
        s.subrange(i, i + 4) == le32_bytes(v),
    ensures
        le32_at(s, i) == v,
{
    assert(s[i] == le32_bytes(v)[0] && s[i + 1] == le32_bytes(v)[1] && s[i + 2] == le32_bytes(v)[2]
        && s[i + 3] == le32_bytes(v)[3]) by {
        assert(s[i] == s.subrange(i, i + 4)[0]);
        assert(s[i + 1] == s.subrange(i, i + 4)[1]);
        assert(s[i + 2] == s.subrange(i, i + 4)[2]);
        assert(s[i + 3] == s.subrange(i, i + 4)[3]);
    }
    assert(v % 0x100 + (v / 0x100 % 0x100) * 0x100 + (v / 0x1_0000 % 0x100) * 0x1_0000 + (v
        / 0x100_0000 % 0x100) * 0x100_0000 == v) by (nonlinear_arith);
}

/// An offset field round-trips: when the four bytes at `pos` hold the
/// little-endian relative value `rel`, resolving the field reads back `rel`
/// and lands on the position immediately after the field shifted by `rel` —
/// so the bytes read at the resolved offset are the bytes `rel` past the
/// field's end.
pub proof fn lemma_offset_field_round_trip(s: Seq<u8>, pos: int, rel: u32)
    requires
        0 <= pos,
        pos + 4 <= s.len(),
        s.subrange(pos, pos + 4) == le32_bytes(rel),
    ensures
        le32_at(s, pos) == rel,
        resolved_at(s, pos) == pos + 4 + rel,
{
    lemma_le32_round_trip(s, pos, rel);
}

/// Copies a whole byte slice into a fresh vector.
pub fn clone_bytes(v: &[u8]) -> (r: Vec<u8>)
    ensures
        r@ == v@,
{
    let out = copy_range(v, 0, v.len());
    match out {
        Ok(b) => {
            proof {
                assert(b@ =~= v@);
            }
            b
        },
        Err(_) => vstd::pervasive::unreached(),
    }
}

/// Compares two byte slices for equality of their contents.
pub fn bytes_eq(a: &[u8], b: &[u8]) -> (r: bool)
    ensures
        r == (a@ == b@),
{
    if a.len() != b.len() {
        return false;
    }
    let mut i: usize = 0;
    while i < a.len()
        invariant
            a@.len() == b@.len(),
            i <= a@.len(),
            forall|k: int| 0 <= k < i ==> a@[k] == b@[k],
        decreases a@.len() - i,
    {
        if a[i] != b[i] {
            return false;
        }
        i = i + 1;
    }
    proof {
        assert(a@ =~= b@);
    }
    true
}

} // verus!
