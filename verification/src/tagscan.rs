use binrw::BinReaderExt;
use std::collections::HashMap;
use crate::text::push_char;
use vstd::prelude::*;

verus! {

/// Byte order of a multi-byte number.
#[derive(Clone, Copy, Debug, PartialEq, Eq, Structural)]
pub enum Endian {
    Big,
    Little,
}

/// The number that `b` holds, least significant byte first.
pub open spec fn le_value(b: Seq<u8>) -> nat
    decreases b.len(),
{
    if b.len() == 0 {
        0
    } else {
        (b[0] as nat) + 256 * le_value(b.drop_first())
    }
}

/// The number that `b` holds, most significant byte first.
pub open spec fn be_value(b: Seq<u8>) -> nat
    decreases b.len(),
{
    if b.len() == 0 {
        0
    } else {
        (b.last() as nat) + 256 * be_value(b.drop_last())
    }
}

pub open spec fn endian_value(endian: Endian, b: Seq<u8>) -> nat {
    match endian {
        Endian::Big => be_value(b),
        Endian::Little => le_value(b),
    }
}

proof fn lemma_le4(b: Seq<u8>)
    requires
        b.len() == 4,
    ensures
        le_value(b) == b[0] + 256 * b[1] + 65536 * b[2] + 16777216 * b[3],
{
    assert(b.drop_first().drop_first().drop_first().drop_first().len() == 0);
    reveal_with_fuel(le_value, 5);
}

proof fn lemma_be4(b: Seq<u8>)
    requires
        b.len() == 4,
    ensures
        be_value(b) == b[3] + 256 * b[2] + 65536 * b[1] + 16777216 * b[0],
{
    assert(b.drop_last().drop_last().drop_last().drop_last().len() == 0);
    reveal_with_fuel(be_value, 5);
}

proof fn lemma_le8(b: Seq<u8>)
    requires
        b.len() == 8,
    ensures
        le_value(b) == b[0] + 256 * b[1] + 65536 * b[2] + 16777216 * b[3] + 4294967296 * b[4]
            + 1099511627776 * b[5] + 281474976710656 * b[6] + 72057594037927936 * b[7],
{
    let b4 = b.subrange(4, 8);
    assert(b.drop_first().drop_first().drop_first().drop_first() =~= b4);
    reveal_with_fuel(le_value, 5);
    lemma_le4(b4);
}

proof fn lemma_be8(b: Seq<u8>)
    requires
        b.len() == 8,
    ensures
        be_value(b) == b[7] + 256 * b[6] + 65536 * b[5] + 16777216 * b[4] + 4294967296 * b[3]
            + 1099511627776 * b[2] + 281474976710656 * b[1] + 72057594037927936 * b[0],
{
    let b4 = b.subrange(0, 4);
    assert(b.drop_last().drop_last().drop_last().drop_last() =~= b4);
    reveal_with_fuel(be_value, 5);
    lemma_be4(b4);
}

/// Reads a `u64` in the given byte order.
pub fn u64_from_endian(endian: Endian, bytes: [u8; 8]) -> (r: u64)
    ensures
        r == endian_value(endian, bytes@),
{
    proof {
        lemma_le8(bytes@);
        lemma_be8(bytes@);
    }
    let b0 = bytes[0] as u64;
    let b1 = bytes[1] as u64;
    let b2 = bytes[2] as u64;
    let b3 = bytes[3] as u64;
    let b4 = bytes[4] as u64;
    let b5 = bytes[5] as u64;
    let b6 = bytes[6] as u64;
    let b7 = bytes[7] as u64;
    match endian {
        Endian::Big => b7 + 256 * b6 + 65536 * b5 + 16777216 * b4 + 4294967296 * b3
            + 1099511627776 * b2 + 281474976710656 * b1 + 72057594037927936 * b0,
        Endian::Little => b0 + 256 * b1 + 65536 * b2 + 16777216 * b3 + 4294967296 * b4
            + 1099511627776 * b5 + 281474976710656 * b6 + 72057594037927936 * b7,
    }
}

/// Reads a `u32` in the given byte order.
pub fn u32_from_endian(endian: Endian, bytes: [u8; 4]) -> (r: u32)
    ensures
        r == endian_value(endian, bytes@),
{
    proof {
        lemma_le4(bytes@);
        lemma_be4(bytes@);
    }
    let b0 = bytes[0] as u32;
    let b1 = bytes[1] as u32;
    let b2 = bytes[2] as u32;
    let b3 = bytes[3] as u32;
    match endian {
        Endian::Big => b3 + 256 * b2 + 65536 * b1 + 16777216 * b0,
        Endian::Little => b0 + 256 * b1 + 65536 * b2 + 16777216 * b3,
    }
}


/// The word that marks the start of a raw string blob in tag data.
pub const RAW_STRING_MARKER: u32 = 0x80800065;

/// Reads a little-endian `u64` at byte position `pos`.
///
/// Calls `binrw::BinReaderExt::read_le::<u64>` on a `std::io::Cursor` over
/// `data` placed at `pos`. binrw reads the eight bytes with `read_exact`, so it
/// succeeds exactly when they all lie inside `data`, and the result is their
/// little-endian value.
#[verifier::external_body]
fn read_u64_le_at(data: &[u8], pos: u64) -> (r: Option<u64>)
    ensures
        r is Some <==> pos + 8 <= data@.len(),
        r matches Some(v) ==> v == le_value(data@.subrange(pos as int, pos + 8)),
{
    let mut cursor = std::io::Cursor::new(data);
    cursor.set_position(pos);
    cursor.read_le::<u64>().ok()
}

/// The state after splitting `buf` at NUL bytes: the finished strings with
/// their offsets, the start of the current string (relative to `buf`) and
/// the current string. Each byte is read as the character of the same code.
pub open spec fn nul_split_state(buf: Seq<u8>, base: int) -> (Seq<(u64, Seq<char>)>, int, Seq<char>)
    decreases buf.len(),
{
    if buf.len() == 0 {
        (Seq::empty(), 0, Seq::empty())
    } else {
        let prev = nul_split_state(buf.drop_last(), base);
        let b = buf.last();
        if b == 0 {
            (
                if prev.2.len() > 0 {
                    prev.0.push(((base + prev.1) as u64, prev.2))
                } else {
                    prev.0
                },
                buf.len() as int,
                Seq::empty(),
            )
        } else {
            (prev.0, prev.1, prev.2.push(b as char))
        }
    }
}

/// The non-empty NUL-separated strings of `buf`, each with its offset
/// (`base` plus its position in `buf`).
pub open spec fn nul_separated_strings(buf: Seq<u8>, base: int) -> Seq<(u64, Seq<char>)> {
    let st = nul_split_state(buf, base);
    if st.2.len() > 0 {
        st.0.push(((base + st.1) as u64, st.2))
    } else {
        st.0
    }
}

/// The strings of the raw string blob whose marker is at `offset`: a `u64`
/// byte size at `offset + 4`, then that many bytes of NUL-separated text.
/// A blob that does not fit in `data` gives no strings.
pub open spec fn spec_read_raw_string_blob(data: Seq<u8>, offset: int) -> Seq<(u64, Seq<char>)> {
    let size_pos = offset + 4;
    if size_pos + 8 > data.len() {
        Seq::empty()
    } else {
        let size = le_value(data.subrange(size_pos, size_pos + 8));
        let base = offset + 12;
        if base + size > data.len() {
            Seq::empty()
        } else {
            nul_separated_strings(data.subrange(base, base + size), base)
        }
    }
}

/// The view of a list of offset/string pairs.
pub open spec fn strings_view(v: Seq<(u64, String)>) -> Seq<(u64, Seq<char>)> {
    v.map_values(|p: (u64, String)| (p.0, p.1@))
}

/// Reads the strings of the raw string blob whose marker is at `offset`.
pub fn read_raw_string_blob(data: &[u8], offset: u64) -> (r: Vec<(u64, String)>)
    requires
        offset + 4 <= u64::MAX,
    ensures
        strings_view(r@) == spec_read_raw_string_blob(data@, offset as int),
{
    let mut strings: Vec<(u64, String)> = Vec::new();
    let data_len = data.len();
    assert(data_len as int <= u64::MAX);
    let size = match read_u64_le_at(data, offset + 4) {
        Some(v) => v,
        None => {
            assert(strings_view(strings@) =~= Seq::empty());
            return strings;
        },
    };
    let base = offset + 12;
    if size > data.len() as u64 || base > data.len() as u64 - size {
        assert(strings_view(strings@) =~= Seq::empty());
        return strings;
    }
    let ghost buf = data@.subrange(base as int, base + size);
    let end = (base + size) as usize;
    let start_idx = base as usize;
    let mut s = String::new();
    let mut string_start: u64 = 0;
    let mut i: usize = start_idx;
    while i < end
        invariant
            start_idx == base,
            end == base + size,
            end <= data@.len(),
            start_idx <= i <= end,
            buf == data@.subrange(base as int, base + size),
            base + size <= u64::MAX,
            ({
                let st = nul_split_state(buf.subrange(0, i - base), base as int);
                &&& strings_view(strings@) == st.0
                &&& string_start == st.1
                &&& s@ == st.2
            }),
            string_start <= i - base,
        decreases end - i,
    {
        let b = data[i];
        let ghost pre = buf.subrange(0, i - base);
        proof {
            assert(buf.subrange(0, i + 1 - base).drop_last() =~= pre);
            assert(buf.subrange(0, i + 1 - base).last() == b);
        }
        if b == 0 {
            if !s.as_str().is_empty() {
                let ghost old_strings = strings@;
                let old_s = s;
                strings.push((base + string_start, old_s));
                s = String::new();
                proof {
                    assert(strings_view(strings@) =~= strings_view(old_strings).push(
                        ((base + string_start) as u64, old_s@),
                    ));
                }
            }
            string_start = (i - start_idx) as u64 + 1;
        } else {
            push_char(&mut s, b as char);
        }
        i = i + 1;
    }
    proof {
        assert(buf.subrange(0, end - base) =~= buf);
    }
    if !s.as_str().is_empty() {
        let ghost old_strings = strings@;
        let old_s = s;
        strings.push((base + string_start, old_s));
        proof {
            assert(strings_view(strings@) =~= strings_view(old_strings).push(
                ((base + string_start) as u64, old_s@),
            ));
        }
    }
    strings
}


/// The little-endian word at word index `i`.
pub open spec fn word_at(data: Seq<u8>, i: int) -> nat {
    le_value(data.subrange(4 * i, 4 * i + 4))
}

/// Byte offsets of the raw string markers among the first `n` words.
pub open spec fn raw_string_offsets(data: Seq<u8>, n: nat) -> Seq<u64>
    decreases n,
{
    if n == 0 {
        Seq::empty()
    } else {
        let prev = raw_string_offsets(data, (n - 1) as nat);
        if word_at(data, n - 1) == RAW_STRING_MARKER {
            prev.push((4 * (n - 1)) as u64)
        } else {
            prev
        }
    }
}

/// Offsets and values of the first `n` words that are known string hashes.
pub open spec fn string_hash_hits(data: Seq<u8>, known: Set<u32>, n: nat) -> Seq<(u64, u32)>
    decreases n,
{
    if n == 0 {
        Seq::empty()
    } else {
        let prev = string_hash_hits(data, known, (n - 1) as nat);
        let w = word_at(data, n - 1);
        if known.contains(w as u32) {
            prev.push(((4 * (n - 1)) as u64, w as u32))
        } else {
            prev
        }
    }
}

/// The strings of every blob, in the order of the markers.
pub open spec fn blobs_strings(data: Seq<u8>, offsets: Seq<u64>) -> Seq<(u64, Seq<char>)>
    decreases offsets.len(),
{
    if offsets.len() == 0 {
        Seq::empty()
    } else {
        blobs_strings(data, offsets.drop_last()) + spec_read_raw_string_blob(
            data,
            offsets.last() as int,
        )
    }
}

/// What a tag view finds in the data of a tag.
pub struct TagDataScan {
    /// Offsets and values of the words that are known string hashes.
    pub string_hashes: Vec<(u64, u32)>,
    /// The strings of the raw string blobs, with their offsets.
    pub raw_strings: Vec<(u64, String)>,
}

/// Scans tag data word by word (little-endian, whole words only) for known
/// string hashes and raw string blob markers, and reads every blob.
pub fn scan_tag_data(data: &[u8], string_cache: &HashMap<u32, Vec<String>>) -> (r: TagDataScan)
    ensures
        r.string_hashes@ == string_hash_hits(
            data@,
            string_cache@.dom(),
            (data@.len() / 4) as nat,
        ),
        strings_view(r.raw_strings@) == blobs_strings(
            data@,
            raw_string_offsets(data@, (data@.len() / 4) as nat),
        ),
{
    broadcast use vstd::std_specs::hash::group_hash_axioms;

    let len = data.len();
    assert(len as int <= u64::MAX);
    let n = len / 4;
    let mut offsets: Vec<u64> = Vec::new();
    let mut string_hashes: Vec<(u64, u32)> = Vec::new();
    let mut i: usize = 0;
    while i < n
        invariant
            len == data@.len(),
            n == len / 4,
            i <= n,
            data@.len() <= u64::MAX,
            offsets@ == raw_string_offsets(data@, i as nat),
            string_hashes@ == string_hash_hits(data@, string_cache@.dom(), i as nat),
            forall|k: int| 0 <= k < offsets@.len() ==> offsets@[k] + 4 <= data@.len(),
        decreases n - i,
    {
        assert(4 * i + 4 <= data@.len()) by (nonlinear_arith)
            requires
                i < n,
                n == data@.len() / 4,
                len == data@.len(),
        ;
        let p = 4 * i;
        let word = u32_from_endian(Endian::Little, [data[p], data[p + 1], data[p + 2], data[p + 3]]);
        proof {
            assert(data@.subrange(4 * i, 4 * i + 4) =~= seq![data@[p as int], data@[p + 1], data@[p + 2], data@[p + 3]]);
        }
        assert(word == word_at(data@, i as int));
        if word == RAW_STRING_MARKER {
            offsets.push(p as u64);
        }
        if string_cache.contains_key(&word) {
            string_hashes.push((p as u64, word));
        }
        i = i + 1;
    }
    let mut raw_strings: Vec<(u64, String)> = Vec::new();
    let mut j: usize = 0;
    while j < offsets.len()
        invariant
            j <= offsets@.len(),
            data@.len() <= u64::MAX,
            forall|k: int| 0 <= k < offsets@.len() ==> offsets@[k] + 4 <= data@.len(),
            strings_view(raw_strings@) == blobs_strings(data@, offsets@.subrange(0, j as int)),
        decreases offsets@.len() - j,
    {
        let mut blob = read_raw_string_blob(data, offsets[j]);
        let ghost prev = raw_strings@;
        let ghost blob_view = blob@;
        raw_strings.append(&mut blob);
        proof {
            assert(offsets@.subrange(0, j + 1).drop_last() =~= offsets@.subrange(0, j as int));
            assert(strings_view(raw_strings@) =~= strings_view(prev) + strings_view(blob_view));
        }
        j = j + 1;
    }
    assert(offsets@.subrange(0, offsets@.len() as int) =~= offsets@);
    TagDataScan { string_hashes, raw_strings }
}

} // verus!
