//! Pre-validation of font data before it is handed to the font parser.
//!
//! fontdue decodes the font's full name (name ID 4) as UTF-16 with unchecked
//! indexing: handed a name record that is truncated or not well-formed
//! UTF-16BE, the parse would read out of bounds instead of returning an
//! error. The predicate here walks the font's name table exactly as the
//! parser does — the same table directory, the same choice among "name"
//! records, the same record order and early stops — and accepts the data
//! only when the record the parser would decode is well-formed, so that the
//! parse is total. [`check_font_name`] is the verified, executable form of
//! the predicate; the library calls it before every parse.

use vstd::prelude::*;

verus! {

/// The big-endian 16-bit value at `i`.
pub open spec fn be16(d: Seq<u8>, i: int) -> int {
    d[i] * 0x100 + d[i + 1]
}

/// The big-endian 32-bit value at `i`.
pub open spec fn be32(d: Seq<u8>, i: int) -> int {
    ((d[i] * 0x100 + d[i + 1]) * 0x100 + d[i + 2]) * 0x100 + d[i + 3]
}

/// Does this magic number begin a single font face (TrueType or CFF)?
pub open spec fn face_magic(m: int) -> bool {
    m == 0x00010000 || m == 0x74727565 || m == 0x4F54544F
}

/// Safe to decode from offset `i` to `hi` as the parser's UTF-16 loop does:
/// units come in twos, a lead surrogate is followed by a trail surrogate,
/// and no unit in the trail range stands alone. Anything else makes that
/// loop read out of bounds or build an invalid character.
pub open spec fn utf16_safe_from(d: Seq<u8>, hi: int, i: int) -> bool
    decreases hi - i,
{
    if i + 2 > hi {
        i == hi
    } else {
        let a = be16(d, i);
        if a < 0xD800 || a > 0xDFFF {
            utf16_safe_from(d, hi, i + 2)
        } else if a <= 0xDBFF {
            if i + 4 > hi {
                false
            } else {
                let t = be16(d, i + 2);
                0xDC00 <= t && t <= 0xDFFF && utf16_safe_from(d, hi, i + 4)
            }
        } else {
            false
        }
    }
}

/// The encodings whose names the parser decodes as UTF-16: the Unicode
/// platform, and the Windows platform with the Symbol or Unicode BMP
/// encoding.
pub open spec fn unicode_encoding(platform: int, encoding: int) -> bool {
    platform == 0 || (platform == 3 && (encoding == 0 || encoding == 1))
}

/// Walks the name records from `i` on as the parser's iteration does — in
/// order, stopping at the first record with an unknown platform or with
/// bytes that leave the table — and is true when the record the parser
/// decodes (the first full-name record in a Unicode encoding) is safe to
/// decode, or no record is reached. `recs_rel` and `sstart` are the record
/// array and string storage offsets within the table at `t0`, `tlen` long.
pub open spec fn records_walk(
    d: Seq<u8>,
    t0: int,
    tlen: int,
    recs_rel: int,
    count: int,
    sstart: int,
    i: int,
) -> bool
    decreases count - i,
{
    if i >= count {
        true
    } else {
        let rec = t0 + recs_rel + 12 * i;
        let platform = be16(d, rec);
        if platform > 4 {
            true
        } else {
            let encoding = be16(d, rec + 2);
            let name_id = be16(d, rec + 6);
            let nlen = be16(d, rec + 8);
            let noff = be16(d, rec + 10);
            if sstart + noff + nlen > tlen {
                true
            } else if name_id == 4 && unicode_encoding(platform, encoding) {
                utf16_safe_from(d, t0 + sstart + noff + nlen, t0 + sstart + noff)
            } else {
                records_walk(d, t0, tlen, recs_rel, count, sstart, i + 1)
            }
        }
    }
}

/// The record-array and storage layout of the name table at `t0`, as the
/// parser computes it; true wherever the parser would give the table up.
pub open spec fn name_table_records_safe(
    d: Seq<u8>,
    t0: int,
    tlen: int,
    recs_rel: int,
    count: int,
    storage_off: int,
) -> bool {
    if recs_rel + 12 * count > tlen {
        true
    } else {
        let after = recs_rel + 12 * count;
        let sstart = if after < storage_off {
            storage_off
        } else {
            after
        };
        if sstart > tlen {
            true
        } else {
            records_walk(d, t0, tlen, recs_rel, count, sstart, 0)
        }
    }
}

/// Is the name table at `[t0, t0 + tlen)` safe to hand to the parser's name
/// decoding? True wherever the table's own parse fails first: the parser
/// then reports no names and decodes nothing.
pub open spec fn name_table_safe(d: Seq<u8>, t0: int, tlen: int) -> bool {
    if tlen < 6 {
        true
    } else {
        let version = be16(d, t0);
        let count = be16(d, t0 + 2);
        let storage_off = be16(d, t0 + 4);
        if version == 0 {
            name_table_records_safe(d, t0, tlen, 6, count, storage_off)
        } else if version == 1 {
            if tlen < 8 {
                true
            } else {
                let ltc = be16(d, t0 + 6);
                if 4 * ltc > 0xFFFF {
                    true
                } else {
                    name_table_records_safe(d, t0, tlen, 8 + 4 * ltc, count, storage_off)
                }
            }
        } else {
            true
        }
    }
}

/// The byte range of the name table after the first `k` directory records
/// at `recs`, as the parser's table collection leaves it: records are taken
/// in order, the last record tagged "name" decides, and one whose range
/// leaves the data makes the table absent.
pub open spec fn name_range_upto(d: Seq<u8>, recs: int, k: int) -> Option<(int, int)>
    decreases k,
{
    if k <= 0 {
        Option::None
    } else {
        let rec = recs + 16 * (k - 1);
        let tag = be32(d, rec);
        if tag == 0x6E616D65 {
            let off = be32(d, rec + 8);
            let len = be32(d, rec + 12);
            if off + len > usize::MAX {
                name_range_upto(d, recs, k - 1)
            } else if off + len <= d.len() {
                Option::Some((off, len))
            } else {
                Option::None
            }
        } else {
            name_range_upto(d, recs, k - 1)
        }
    }
}

/// Is the face whose table directory header starts at `base` safe to hand
/// to the parser's name decoding? True wherever the directory's own parse
/// fails first.
pub open spec fn dir_safe(d: Seq<u8>, base: int) -> bool {
    if base + 6 > d.len() {
        true
    } else {
        let nt = be16(d, base + 4);
        if base + 12 + 16 * nt > d.len() {
            true
        } else {
            match name_range_upto(d, base + 12, nt) {
                Option::None => true,
                Option::Some(range) => name_table_safe(d, range.0, range.1),
            }
        }
    }
}

/// Is the font data safe to hand to the parser, as far as its name decoding
/// goes? True wherever the parse fails before any name is decoded — the
/// parse then returns its error untouched — and false only where the parser
/// would reach a name record it cannot decode in bounds. Data at the edge
/// of the 32-bit index range is kept out wholesale: the parser asserts, on
/// every read, that offset plus length stay within that range, and no real
/// font comes within two mebibytes of it.
pub open spec fn font_name_safe(d: Seq<u8>) -> bool {
    if d.len() > 0xFFE00000 {
        false
    } else if d.len() < 4 {
        true
    } else {
        let m = be32(d, 0);
        if face_magic(m) {
            dir_safe(d, 0)
        } else if m == 0x74746366 {
            // A font collection: the parser follows the first face offset.
            if d.len() < 12 {
                true
            } else {
                let faces = be32(d, 8);
                if 12 + 4 * faces > 0xFFFFFFFF {
                    false
                } else if 12 + 4 * faces > d.len() {
                    true
                } else if faces == 0 {
                    true
                } else {
                    let fo = be32(d, 12);
                    if fo < 12 + 4 * faces {
                        true
                    } else if fo + 4 > d.len() {
                        true
                    } else if face_magic(be32(d, fo)) {
                        dir_safe(d, fo)
                    } else {
                        true
                    }
                }
            }
        } else {
            true
        }
    }
}

fn read_be16(d: &[u8], i: usize) -> (r: u16)
    requires
        i + 2 <= d@.len(),
    ensures
        r == be16(d@, i as int),
{
    (d[i] as u16) * 0x100 + (d[i + 1] as u16)
}

fn read_be32(d: &[u8], i: usize) -> (r: u32)
    requires
        i + 4 <= d@.len(),
    ensures
        r == be32(d@, i as int),
{
    (((d[i] as u32) * 0x100 + (d[i + 1] as u32)) * 0x100 + (d[i + 2] as u32)) * 0x100 + (d[i
        + 3] as u32)
}

#[verifier::loop_isolation(false)]
fn check_utf16(d: &[u8], lo: usize, hi: usize) -> (r: bool)
    requires
        lo <= hi <= d@.len(),
        d@.len() <= 0xFFE00000,
    ensures
        r == utf16_safe_from(d@, hi as int, lo as int),
{
    let mut i: usize = lo;
    while i + 2 <= hi
        invariant
            lo <= i <= hi,
            utf16_safe_from(d@, hi as int, lo as int) == utf16_safe_from(d@, hi as int, i as int),
        decreases hi - i,
    {
        let a = read_be16(d, i);
        if a < 0xD800 || a > 0xDFFF {
            i = i + 2;
        } else if a <= 0xDBFF {
            if i + 4 > hi {
                return false;
            }
            let t = read_be16(d, i + 2);
            if !(0xDC00 <= t && t <= 0xDFFF) {
                return false;
            }
            i = i + 4;
        } else {
            return false;
        }
    }
    i == hi
}

#[verifier::loop_isolation(false)]
fn check_records(
    d: &[u8],
    t0: usize,
    tlen: usize,
    recs_rel: usize,
    count: usize,
    sstart: usize,
) -> (r: bool)
    requires
        t0 + tlen <= d@.len(),
        d@.len() <= 0xFFE00000,
        recs_rel + 12 * count <= tlen,
        sstart <= tlen,
    ensures
        r == records_walk(
            d@,
            t0 as int,
            tlen as int,
            recs_rel as int,
            count as int,
            sstart as int,
            0,
        ),
{
    let ghost walk0 = records_walk(
        d@,
        t0 as int,
        tlen as int,
        recs_rel as int,
        count as int,
        sstart as int,
        0,
    );
    let mut i: usize = 0;
    while i < count
        invariant
            i <= count,
            walk0 == records_walk(
                d@,
                t0 as int,
                tlen as int,
                recs_rel as int,
                count as int,
                sstart as int,
                i as int,
            ),
        decreases count - i,
    {
        let rec = t0 + recs_rel + 12 * i;
        let platform = read_be16(d, rec);
        if platform > 4 {
            return true;
        }
        let encoding = read_be16(d, rec + 2);
        let name_id = read_be16(d, rec + 6);
        let nlen = read_be16(d, rec + 8) as usize;
        let noff = read_be16(d, rec + 10) as usize;
        if sstart + noff + nlen > tlen {
            return true;
        }
        if name_id == 4 && (platform == 0 || (platform == 3 && (encoding == 0 || encoding == 1))) {
            return check_utf16(d, t0 + sstart + noff, t0 + sstart + noff + nlen);
        }
        i = i + 1;
    }
    true
}

#[verifier::loop_isolation(false)]
fn check_name_table(d: &[u8], t0: usize, tlen: usize) -> (r: bool)
    requires
        t0 + tlen <= d@.len(),
        d@.len() <= 0xFFE00000,
    ensures
        r == name_table_safe(d@, t0 as int, tlen as int),
{
    if tlen < 6 {
        return true;
    }
    let version = read_be16(d, t0);
    let count = read_be16(d, t0 + 2) as usize;
    let storage_off = read_be16(d, t0 + 4) as usize;
    let recs_rel: usize;
    if version == 0 {
        recs_rel = 6;
    } else if version == 1 {
        if tlen < 8 {
            return true;
        }
        let ltc = read_be16(d, t0 + 6) as usize;
        if 4 * ltc > 0xFFFF {
            return true;
        }
        recs_rel = 8 + 4 * ltc;
    } else {
        return true;
    }
    if recs_rel + 12 * count > tlen {
        return true;
    }
    let after = recs_rel + 12 * count;
    let sstart = if after < storage_off {
        storage_off
    } else {
        after
    };
    if sstart > tlen {
        return true;
    }
    check_records(d, t0, tlen, recs_rel, count, sstart)
}

#[verifier::loop_isolation(false)]
fn find_name_range(d: &[u8], recs: usize, count: usize) -> (r: Option<(usize, usize)>)
    requires
        recs + 16 * count <= d@.len(),
        d@.len() <= 0xFFE00000,
    ensures
        match (r, name_range_upto(d@, recs as int, count as int)) {
            (Option::Some(e), Option::Some(s)) => e.0 == s.0 && e.1 == s.1,
            (Option::None, Option::None) => true,
            _ => false,
        },
        r matches Some(e) ==> e.0 + e.1 <= d@.len(),
{
    let mut k: usize = count;
    while k > 0
        invariant
            k <= count,
            name_range_upto(d@, recs as int, count as int) == name_range_upto(
                d@,
                recs as int,
                k as int,
            ),
        decreases k,
    {
        let rec = recs + 16 * (k - 1);
        let tag = read_be32(d, rec);
        if tag == 0x6E616D65 {
            let off = read_be32(d, rec + 8) as u64;
            let len = read_be32(d, rec + 12) as u64;
            if off + len > usize::MAX as u64 {
                // The parser skips a record whose range cannot be formed.
            } else if off + len <= d.len() as u64 {
                return Some((off as usize, len as usize));
            } else {
                return None;
            }
        }
        k = k - 1;
    }
    None
}

#[verifier::loop_isolation(false)]
fn check_dir(d: &[u8], base: usize) -> (r: bool)
    requires
        base <= d@.len(),
        d@.len() <= 0xFFE00000,
    ensures
        r == dir_safe(d@, base as int),
{
    let n = d.len();
    if base + 6 > n {
        return true;
    }
    let nt = read_be16(d, base + 4) as usize;
    if base + 12 + 16 * nt > n {
        return true;
    }
    match find_name_range(d, base + 12, nt) {
        Option::None => true,
        Option::Some((t0, tlen)) => check_name_table(d, t0, tlen),
    }
}

/// The verified, executable form of [`font_name_safe`]: true exactly where
/// the font data is safe to hand to the parser.
pub fn check_font_name(d: &[u8]) -> (r: bool)
    ensures
        r == font_name_safe(d@),
{
    let n = d.len();
    if n > 0xFFE00000 {
        return false;
    }
    if n < 4 {
        return true;
    }
    let m = read_be32(d, 0);
    if m == 0x00010000 || m == 0x74727565 || m == 0x4F54544F {
        return check_dir(d, 0);
    }
    if m != 0x74746366 {
        return true;
    }
    if n < 12 {
        return true;
    }
    let faces = read_be32(d, 8) as u64;
    if 12 + 4 * faces > 0xFFFFFFFF {
        return false;
    }
    if 12 + 4 * faces > n as u64 {
        return true;
    }
    if faces == 0 {
        return true;
    }
    let fo = read_be32(d, 12) as u64;
    if fo < 12 + 4 * faces {
        return true;
    }
    if fo + 4 > n as u64 {
        return true;
    }
    let fo = fo as usize;
    let m2 = read_be32(d, fo);
    if m2 == 0x00010000 || m2 == 0x74727565 || m2 == 0x4F54544F {
        check_dir(d, fo)
    } else {
        true
    }
}

} // verus!
