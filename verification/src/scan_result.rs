use std::collections::HashMap;
use vstd::prelude::*;

verus! {

/// The package entry header fields that a tag view shows.
#[derive(Clone, Copy, Debug, PartialEq, Eq, Structural)]
pub struct EntryHeader {
    pub reference: u32,
    pub file_type: u8,
    pub file_subtype: u8,
}

/// A tag hash found in tag data: a 32-bit hash or a 64-bit one.
#[derive(Clone, Copy, Debug, PartialEq, Eq, Structural)]
pub enum ExtendedTagHash {
    Hash32(u32),
    Hash64(u64),
}

impl ExtendedTagHash {
    /// The 32-bit hash of the tag: itself, or what the table gives a 64-bit one.
    pub open spec fn spec_hash32(self, hash64_table: Map<u64, u32>) -> u32 {
        match self {
            ExtendedTagHash::Hash32(h) => h,
            ExtendedTagHash::Hash64(h) => hash64_table[h],
        }
    }

    pub fn hash32(&self, hash64_table: &HashMap<u64, u32>) -> (r: u32)
        requires
            *self matches ExtendedTagHash::Hash64(h) ==> hash64_table@.contains_key(h),
        ensures
            r == self.spec_hash32(hash64_table@),
    {
        broadcast use vstd::std_specs::hash::group_hash_axioms;

        match self {
            ExtendedTagHash::Hash32(h) => *h,
            ExtendedTagHash::Hash64(h) => match hash64_table.get(h) {
                Some(t) => *t,
                None => 0,
            },
        }
    }
}

/// A hash found at `offset`, with the entry of the tag it names.
#[derive(Clone, Copy, Debug, PartialEq, Eq, Structural)]
pub struct ScannedHashWithEntry {
    pub offset: u64,
    pub hash: ExtendedTagHash,
    pub entry: Option<EntryHeader>,
}

/// What a scan of one tag found: 32-bit and 64-bit tag hashes and string
/// hashes (each with its offset), and the tags that reference it.
pub struct ScanResult {
    pub file_hashes: Vec<(u64, u32)>,
    pub file_hashes64: Vec<(u64, u64)>,
    pub string_hashes: Vec<(u64, u32)>,
    pub references: Vec<u32>,
}

/// A scan result with every tag hash resolved to its entry, in offset order.
pub struct ExtendedScanResult {
    pub file_hashes: Vec<ScannedHashWithEntry>,
    pub string_hashes: Vec<(u64, u32)>,
    pub references: Vec<(u32, EntryHeader)>,
}

pub open spec fn spec_entry(entries: Map<u32, EntryHeader>, tag: u32) -> Option<EntryHeader> {
    if entries.contains_key(tag) {
        Some(entries[tag])
    } else {
        None
    }
}

pub open spec fn spec_with_entry32(h: (u64, u32), entries: Map<u32, EntryHeader>) -> ScannedHashWithEntry {
    ScannedHashWithEntry { offset: h.0, hash: ExtendedTagHash::Hash32(h.1), entry: spec_entry(entries, h.1) }
}

pub open spec fn spec_with_entry64(
    h: (u64, u64),
    hash64_table: Map<u64, u32>,
    entries: Map<u32, EntryHeader>,
) -> ScannedHashWithEntry {
    ScannedHashWithEntry {
        offset: h.0,
        hash: ExtendedTagHash::Hash64(h.1),
        entry: spec_entry(entries, hash64_table[h.1]),
    }
}

/// All found hashes with their entries: the 32-bit ones, then the 64-bit ones.
pub open spec fn spec_combined(
    s: &ScanResult,
    hash64_table: Map<u64, u32>,
    entries: Map<u32, EntryHeader>,
) -> Seq<ScannedHashWithEntry> {
    s.file_hashes@.map_values(|h: (u64, u32)| spec_with_entry32(h, entries)) + s.file_hashes64@.map_values(
        |h: (u64, u64)| spec_with_entry64(h, hash64_table, entries),
    )
}

pub open spec fn sorted_by_offset(v: Seq<ScannedHashWithEntry>) -> bool {
    forall|i: int, j: int| 0 <= i <= j < v.len() ==> (#[trigger] v[i]).offset <= (#[trigger] v[j]).offset
}

/// Whether every 64-bit hash of the scan has a 32-bit hash in the table.
pub open spec fn hashes64_known(s: &ScanResult, hash64_table: Map<u64, u32>) -> bool {
    forall|i: int| 0 <= i < s.file_hashes64@.len() ==> hash64_table.contains_key(#[trigger] s.file_hashes64@[i].1)
}

/// Whether every referencing tag has an entry.
pub open spec fn references_known(s: &ScanResult, entries: Map<u32, EntryHeader>) -> bool {
    forall|i: int| 0 <= i < s.references@.len() ==> entries.contains_key(#[trigger] s.references@[i])
}

fn insert_by_offset(v: &mut Vec<ScannedHashWithEntry>, x: ScannedHashWithEntry)
    requires
        sorted_by_offset(old(v)@),
    ensures
        sorted_by_offset(final(v)@),
        final(v)@.to_multiset() == old(v)@.to_multiset().insert(x),
{
    broadcast use vstd::seq_lib::to_multiset_insert;

    let mut pos: usize = v.len();
    while pos > 0 && v[pos - 1].offset > x.offset
        invariant
            pos <= v@.len(),
            v@ == old(v)@,
            sorted_by_offset(v@),
            forall|k: int| pos <= k < v@.len() ==> (#[trigger] v@[k]).offset > x.offset,
        decreases pos,
    {
        pos = pos - 1;
    }
    let ghost before = v@;
    assert(pos > 0 ==> before[pos - 1].offset <= x.offset);
    v.insert(pos, x);
    assert(v@ == before.insert(pos as int, x));
    assert forall|i: int, j: int| 0 <= i <= j < v@.len() implies (#[trigger] v@[i]).offset <= (
    #[trigger] v@[j]).offset by {
        let a = if i < pos { i } else if i == pos { -1 } else { i - 1 };
        let b = if j < pos { j } else if j == pos { -1 } else { j - 1 };
        if i == pos && j > pos {
            assert(v@[j] == before[j - 1]);
        } else if j == pos && i < pos {
            assert(v@[i] == before[i]);
            assert(before[i].offset <= before[pos - 1].offset);
        } else if i != pos && j != pos {
            assert(v@[i] == before[a]);
            assert(v@[j] == before[b]);
        }
    }
}

/// Resolves every tag hash of a scan to its package entry (a 64-bit hash
/// through the 32-bit hash the table gives it) and orders the hashes by
/// offset; hashes at one offset may come in either order. String hashes are
/// kept as they are, and each referencing tag is paired with its entry.
pub fn from_scan_result(
    s: ScanResult,
    hash64_table: &HashMap<u64, u32>,
    entries: &HashMap<u32, EntryHeader>,
) -> (r: ExtendedScanResult)
    requires
        hashes64_known(&s, hash64_table@),
        references_known(&s, entries@),
    ensures
        sorted_by_offset(r.file_hashes@),
        r.file_hashes@.to_multiset() == spec_combined(&s, hash64_table@, entries@).to_multiset(),
        r.string_hashes@ == s.string_hashes@,
        r.references@ == s.references@.map_values(|t: u32| (t, entries@[t])),
{
    broadcast use vstd::std_specs::hash::group_hash_axioms;

    let ghost combined = spec_combined(&s, hash64_table@, entries@);
    let ghost n32 = s.file_hashes@.len();
    let mut out: Vec<ScannedHashWithEntry> = Vec::new();
    assert(out@.to_multiset() =~= combined.subrange(0, 0).to_multiset()) by {
        broadcast use vstd::multiset::group_multiset_axioms;
        broadcast use vstd::seq_lib::to_multiset_len;

        assert(combined.subrange(0, 0) =~= out@);
    }
    let mut i: usize = 0;
    while i < s.file_hashes.len()
        invariant
            i <= s.file_hashes@.len(),
            n32 == s.file_hashes@.len(),
            combined == spec_combined(&s, hash64_table@, entries@),
            sorted_by_offset(out@),
            out@.to_multiset() == combined.subrange(0, i as int).to_multiset(),
        decreases s.file_hashes@.len() - i,
    {
        let (offset, hash) = s.file_hashes[i];
        let entry = match entries.get(&hash) {
            Some(e) => Some(*e),
            None => None,
        };
        let x = ScannedHashWithEntry { offset, hash: ExtendedTagHash::Hash32(hash), entry };
        assert(x == combined[i as int]);
        insert_by_offset(&mut out, x);
        assert(combined.subrange(0, i + 1) =~= combined.subrange(0, i as int).push(x));
        proof {
            vstd::seq_lib::to_multiset_build(combined.subrange(0, i as int), x);
        }
        i = i + 1;
    }
    let mut j: usize = 0;
    while j < s.file_hashes64.len()
        invariant
            j <= s.file_hashes64@.len(),
            n32 == s.file_hashes@.len(),
            combined == spec_combined(&s, hash64_table@, entries@),
            combined.len() == n32 + s.file_hashes64@.len(),
            hashes64_known(&s, hash64_table@),
            sorted_by_offset(out@),
            out@.to_multiset() == combined.subrange(0, n32 + j).to_multiset(),
        decreases s.file_hashes64@.len() - j,
    {
        let (offset, hash64) = s.file_hashes64[j];
        assert(hash64_table@.contains_key(s.file_hashes64@[j as int].1));
        let hash32 = match hash64_table.get(&hash64) {
            Some(h) => *h,
            None => 0,
        };
        let entry = match entries.get(&hash32) {
            Some(e) => Some(*e),
            None => None,
        };
        let x = ScannedHashWithEntry { offset, hash: ExtendedTagHash::Hash64(hash64), entry };
        assert(x == combined[n32 + j]);
        insert_by_offset(&mut out, x);
        assert(combined.subrange(0, n32 + j + 1) =~= combined.subrange(0, n32 + j).push(x));
        proof {
            vstd::seq_lib::to_multiset_build(combined.subrange(0, n32 + j), x);
        }
        j = j + 1;
    }
    assert(combined.subrange(0, combined.len() as int) =~= combined);
    let mut references: Vec<(u32, EntryHeader)> = Vec::new();
    let mut k: usize = 0;
    while k < s.references.len()
        invariant
            k <= s.references@.len(),
            references_known(&s, entries@),
            references@ == s.references@.subrange(0, k as int).map_values(|t: u32| (t, entries@[t])),
        decreases s.references@.len() - k,
    {
        let t = s.references[k];
        assert(entries@.contains_key(s.references@[k as int]));
        let e = match entries.get(&t) {
            Some(e) => *e,
            None => EntryHeader { reference: 0, file_type: 0, file_subtype: 0 },
        };
        references.push((t, e));
        assert(s.references@.subrange(0, k + 1).map_values(|t: u32| (t, entries@[t])) =~= s.references@.subrange(
            0,
            k as int,
        ).map_values(|t: u32| (t, entries@[t])).push((t, e)));
        k = k + 1;
    }
    assert(s.references@.subrange(0, s.references@.len() as int) =~= s.references@);
    ExtendedScanResult { file_hashes: out, string_hashes: s.string_hashes, references }
}

/// Whether every 64-bit hash among `v` has a 32-bit hash in the table.
pub open spec fn resolved_hashes64_known(v: Seq<ScannedHashWithEntry>, hash64_table: Map<u64, u32>) -> bool {
    forall|i: int| #![trigger v[i]]
        0 <= i < v.len() ==> (v[i].hash matches ExtendedTagHash::Hash64(h) ==> hash64_table.contains_key(h))
}

/// The references a traversal follows from a tag: the 32-bit hash and the
/// offset of each found hash, in the order found.
pub fn reference_list(
    file_hashes: &Vec<ScannedHashWithEntry>,
    hash64_table: &HashMap<u64, u32>,
) -> (r: Vec<(u32, u64)>)
    requires
        resolved_hashes64_known(file_hashes@, hash64_table@),
    ensures
        r@ == file_hashes@.map_values(
            |v: ScannedHashWithEntry| (v.hash.spec_hash32(hash64_table@), v.offset),
        ),
{
    let mut r: Vec<(u32, u64)> = Vec::new();
    let mut i: usize = 0;
    while i < file_hashes.len()
        invariant
            i <= file_hashes@.len(),
            resolved_hashes64_known(file_hashes@, hash64_table@),
            r@ == file_hashes@.subrange(0, i as int).map_values(
                |v: ScannedHashWithEntry| (v.hash.spec_hash32(hash64_table@), v.offset),
            ),
        decreases file_hashes@.len() - i,
    {
        let v = file_hashes[i];
        assert(v == file_hashes@[i as int]);
        r.push((v.hash.hash32(hash64_table), v.offset));
        assert(file_hashes@.subrange(0, i + 1).map_values(
            |v: ScannedHashWithEntry| (v.hash.spec_hash32(hash64_table@), v.offset),
        ) =~= file_hashes@.subrange(0, i as int).map_values(
            |v: ScannedHashWithEntry| (v.hash.spec_hash32(hash64_table@), v.offset),
        ).push((v.hash.spec_hash32(hash64_table@), v.offset)));
        i = i + 1;
    }
    assert(file_hashes@.subrange(0, file_hashes@.len() as int) =~= file_hashes@);
    r
}

} // verus!
