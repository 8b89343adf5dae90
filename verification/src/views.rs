use std::collections::HashMap;
use vstd::prelude::*;
use crate::scan_result::{EntryHeader, ExtendedTagHash, ScannedHashWithEntry};
use crate::tagtypes::{spec_from_type_subtype, DisplayColor, PackageVersion, TagType};
use crate::text::str_eq;

verus! {

/// Every (tag, raw string) pair, tag by tag and string by string.
pub open spec fn raw_string_pairs(per_tag: Seq<(u32, Vec<String>)>) -> Seq<(u32, Seq<char>)>
    decreases per_tag.len(),
{
    if per_tag.len() == 0 {
        Seq::empty()
    } else {
        let (t, strings) = per_tag.last();
        raw_string_pairs(per_tag.drop_last()) + strings@.map_values(|s: String| (t, s@))
    }
}

/// The tags a string occurs in, in order, once per occurrence.
pub open spec fn tags_of(pairs: Seq<(u32, Seq<char>)>, s: Seq<char>) -> Seq<u32>
    decreases pairs.len(),
{
    if pairs.len() == 0 {
        Seq::empty()
    } else {
        let prev = tags_of(pairs.drop_last(), s);
        if pairs.last().1 == s {
            prev.push(pairs.last().0)
        } else {
            prev
        }
    }
}

pub open spec fn groups_view(g: Seq<(String, Vec<u32>)>) -> Seq<(Seq<char>, Seq<u32>)> {
    g.map_values(|e: (String, Vec<u32>)| (e.0@, e.1@))
}

/// The strings of `pairs`, each once in order of first occurrence, with the
/// tags it occurs in.
pub open spec fn spec_group(pairs: Seq<(u32, Seq<char>)>) -> Seq<(Seq<char>, Seq<u32>)>
    decreases pairs.len(),
{
    if pairs.len() == 0 {
        Seq::empty()
    } else {
        let g = spec_group(pairs.drop_last());
        let (t, s) = pairs.last();
        if exists|i: int| 0 <= i < g.len() && #[trigger] g[i].0 == s {
            let i = choose|i: int| 0 <= i < g.len() && #[trigger] g[i].0 == s;
            g.update(i, (s, g[i].1.push(t)))
        } else {
            g.push((s, seq![t]))
        }
    }
}

/// Whether no string is listed twice.
pub open spec fn keys_distinct(g: Seq<(Seq<char>, Seq<u32>)>) -> bool {
    forall|i: int, j: int| 0 <= i < j < g.len() ==> (#[trigger] g[i]).0 != (#[trigger] g[j]).0
}

proof fn lemma_group_distinct(pairs: Seq<(u32, Seq<char>)>)
    ensures
        keys_distinct(spec_group(pairs)),
    decreases pairs.len(),
{
    if pairs.len() > 0 {
        lemma_group_distinct(pairs.drop_last());
    }
}

/// Groups the raw strings of all scanned tags by string: each string once,
/// in order of first occurrence, with the tags it occurs in (a tag once per
/// occurrence).
pub fn group_raw_strings(per_tag: &Vec<(u32, Vec<String>)>) -> (r: Vec<(String, Vec<u32>)>)
    ensures
        groups_view(r@) == spec_group(raw_string_pairs(per_tag@)),
{
    let mut groups: Vec<(String, Vec<u32>)> = Vec::new();
    let mut i: usize = 0;
    while i < per_tag.len()
        invariant
            i <= per_tag@.len(),
            groups_view(groups@) == spec_group(raw_string_pairs(per_tag@.subrange(0, i as int))),
        decreases per_tag@.len() - i,
    {
        let t = per_tag[i].0;
        let strings = &per_tag[i].1;
        let ghost before = raw_string_pairs(per_tag@.subrange(0, i as int));
        let mut k: usize = 0;
        while k < strings.len()
            invariant
                i < per_tag@.len(),
                t == per_tag@[i as int].0,
                strings == per_tag@[i as int].1,
                k <= strings@.len(),
                groups_view(groups@) == spec_group(
                    before + strings@.subrange(0, k as int).map_values(|s: String| (t, s@)),
                ),
            decreases strings@.len() - k,
        {
            let ghost prefix = before + strings@.subrange(0, k as int).map_values(|s: String| (t, s@));
            let ghost next = before + strings@.subrange(0, k + 1).map_values(|s: String| (t, s@));
            proof {
                assert(next.drop_last() =~= prefix);
                assert(next.last() == (t, strings@[k as int]@));
                lemma_group_distinct(prefix);
            }
            let s = &strings[k];
            let mut j: usize = 0;
            let mut found: usize = groups.len();
            while j < groups.len()
                invariant_except_break
                    found == groups@.len(),
                invariant
                    j <= groups@.len(),
                    found <= groups@.len(),
                    forall|l: int| 0 <= l < j ==> (#[trigger] groups@[l]).0@ != s@,
                ensures
                    found < groups@.len() ==> groups@[found as int].0@ == s@,
                    found == groups@.len() ==> forall|l: int| 0 <= l < groups@.len() ==> (#[trigger] groups@[l]).0@ != s@,
                decreases groups@.len() - j,
            {
                if str_eq(groups[j].0.as_str(), s.as_str()) {
                    found = j;
                    break;
                }
                j = j + 1;
            }
            let ghost g = spec_group(prefix);
            assert(groups_view(groups@) == g);
            if found < groups.len() {
                assert(g[found as int].0 == s@);
                let ghost c = choose|c: int| 0 <= c < g.len() && #[trigger] g[c].0 == s@;
                assert(c == found);
                groups[found].1.push(t);
                assert(groups_view(groups@) =~= g.update(found as int, (s@, g[found as int].1.push(t))));
            } else {
                assert(forall|l: int| 0 <= l < g.len() ==> #[trigger] g[l].0 != s@);
                let mut tags: Vec<u32> = Vec::new();
                tags.push(t);
                groups.push((s.clone(), tags));
                assert(groups_view(groups@) =~= g.push((s@, seq![t])));
            }
            k = k + 1;
        }
        proof {
            assert(strings@.subrange(0, strings@.len() as int) =~= strings@);
            assert(per_tag@.subrange(0, i + 1).drop_last() =~= per_tag@.subrange(0, i as int));
        }
        i = i + 1;
    }
    assert(per_tag@.subrange(0, per_tag@.len() as int) =~= per_tag@);
    groups
}

proof fn lemma_group_tags(pairs: Seq<(u32, Seq<char>)>)
    ensures
        forall|i: int| 0 <= i < spec_group(pairs).len() ==> (#[trigger] spec_group(pairs)[i]).1 == tags_of(pairs, spec_group(pairs)[i].0),
        forall|s: Seq<char>| (exists|i: int| 0 <= i < spec_group(pairs).len() && #[trigger] spec_group(pairs)[i].0 == s)
            <==> #[trigger] tags_of(pairs, s).len() > 0,
    decreases pairs.len(),
{
    if pairs.len() > 0 {
        let prev = pairs.drop_last();
        lemma_group_tags(prev);
        lemma_group_distinct(prev);
        let g = spec_group(prev);
        let (t, s) = pairs.last();
        let g2 = spec_group(pairs);
        if exists|i: int| 0 <= i < g.len() && #[trigger] g[i].0 == s {
            let c = choose|i: int| 0 <= i < g.len() && #[trigger] g[i].0 == s;
            assert(g2 == g.update(c, (s, g[c].1.push(t))));
            assert forall|i: int| 0 <= i < g2.len() implies (#[trigger] g2[i]).1 == tags_of(pairs, g2[i].0) by {
                if i != c {
                    assert(g2[i] == g[i]);
                    assert(g[i].0 != g[c].0);
                }
            }
            assert forall|x: Seq<char>| (exists|i: int| 0 <= i < g2.len() && #[trigger] g2[i].0 == x)
                <==> #[trigger] tags_of(pairs, x).len() > 0 by {
                if x == s {
                    assert(g2[c].0 == x);
                } else {
                    assert(tags_of(pairs, x) == tags_of(prev, x));
                    if exists|i: int| 0 <= i < g.len() && #[trigger] g[i].0 == x {
                        let w = choose|i: int| 0 <= i < g.len() && #[trigger] g[i].0 == x;
                        assert(g2[w].0 == x);
                    }
                    if exists|i: int| 0 <= i < g2.len() && #[trigger] g2[i].0 == x {
                        let w = choose|i: int| 0 <= i < g2.len() && #[trigger] g2[i].0 == x;
                        assert(g[w].0 == x);
                    }
                }
            }
        } else {
            assert(g2 == g.push((s, seq![t])));
            assert(tags_of(prev, s).len() == 0);
            assert forall|i: int| 0 <= i < g2.len() implies (#[trigger] g2[i]).1 == tags_of(pairs, g2[i].0) by {
                if i < g.len() {
                    assert(g2[i] == g[i]);
                    assert(g[i].0 != s);
                } else {
                    assert(tags_of(prev, s) =~= Seq::<u32>::empty());
                }
            }
            assert forall|x: Seq<char>| (exists|i: int| 0 <= i < g2.len() && #[trigger] g2[i].0 == x)
                <==> #[trigger] tags_of(pairs, x).len() > 0 by {
                if x == s {
                    assert(g2[g.len() as int].0 == x);
                } else {
                    assert(tags_of(pairs, x) == tags_of(prev, x));
                    if exists|i: int| 0 <= i < g.len() && #[trigger] g[i].0 == x {
                        let w = choose|i: int| 0 <= i < g.len() && #[trigger] g[i].0 == x;
                        assert(g2[w].0 == x);
                    }
                    if exists|i: int| 0 <= i < g2.len() && #[trigger] g2[i].0 == x {
                        let w = choose|i: int| 0 <= i < g2.len() && #[trigger] g2[i].0 == x;
                        assert(w < g.len());
                        assert(g[w].0 == x);
                    }
                }
            }
        }
    }
}

/// Grouping lists every string once, and a string's tags are exactly the
/// tags it occurs in, in order, once per occurrence; a string is listed
/// exactly when it occurs somewhere.
pub proof fn lemma_grouping_is_exact(per_tag: Seq<(u32, Vec<String>)>)
    ensures
        ({
            let pairs = raw_string_pairs(per_tag);
            let g = spec_group(pairs);
            &&& keys_distinct(g)
            &&& forall|i: int| 0 <= i < g.len() ==> (#[trigger] g[i]).1 == tags_of(pairs, g[i].0)
            &&& forall|s: Seq<char>| (exists|i: int| 0 <= i < g.len() && #[trigger] g[i].0 == s)
                <==> #[trigger] tags_of(pairs, s).len() > 0
        }),
{
    lemma_group_distinct(raw_string_pairs(per_tag));
    lemma_group_tags(raw_string_pairs(per_tag));
}

/// A line of the tag view's list of tags referenced by the tag.
#[derive(Clone, Copy, Debug, PartialEq, Eq, Structural)]
pub struct FileHashRow {
    pub tag: u32,
    pub offset: u64,
    pub hash: ExtendedTagHash,
    /// The entry of the referenced tag, when it has one, and its type.
    pub entry: Option<EntryHeader>,
    pub tag_type: Option<TagType>,
    pub color: DisplayColor,
    /// Whether the line can be opened (it is not the viewed tag itself).
    pub enabled: bool,
}

pub open spec fn spec_file_hash_row(
    h: ScannedHashWithEntry,
    self_tag: u32,
    hash64_table: Map<u64, u32>,
    version: PackageVersion,
) -> FileHashRow {
    let tag = h.hash.spec_hash32(hash64_table);
    FileHashRow {
        tag,
        offset: h.offset,
        hash: h.hash,
        entry: h.entry,
        tag_type: match h.entry {
            Some(e) => Some(spec_from_type_subtype(version, e.file_type, e.file_subtype)),
            None => None,
        },
        color: match h.entry {
            Some(e) => spec_from_type_subtype(version, e.file_type, e.file_subtype).spec_display_color(),
            None => DisplayColor::LightRed,
        },
        enabled: tag != self_tag,
    }
}

/// The lines of the tag view's list of referenced tags: each found hash with
/// its entry and type (shown in the type's color, or light red without an
/// entry); the viewed tag itself cannot be opened.
pub fn file_hash_rows(
    file_hashes: &Vec<ScannedHashWithEntry>,
    self_tag: u32,
    hash64_table: &HashMap<u64, u32>,
    version: PackageVersion,
) -> (r: Vec<FileHashRow>)
    requires
        crate::scan_result::resolved_hashes64_known(file_hashes@, hash64_table@),
    ensures
        r@ == file_hashes@.map_values(
            |h: ScannedHashWithEntry| spec_file_hash_row(h, self_tag, hash64_table@, version),
        ),
{
    let mut r: Vec<FileHashRow> = Vec::new();
    let mut i: usize = 0;
    while i < file_hashes.len()
        invariant
            i <= file_hashes@.len(),
            crate::scan_result::resolved_hashes64_known(file_hashes@, hash64_table@),
            r@ == file_hashes@.subrange(0, i as int).map_values(
                |h: ScannedHashWithEntry| spec_file_hash_row(h, self_tag, hash64_table@, version),
            ),
        decreases file_hashes@.len() - i,
    {
        let h = file_hashes[i];
        assert(h == file_hashes@[i as int]);
        let tag = h.hash.hash32(hash64_table);
        let (tag_type, color) = match h.entry {
            Some(e) => {
                let ty = TagType::from_type_subtype(version, e.file_type, e.file_subtype);
                (Some(ty), ty.display_color())
            },
            None => (None, DisplayColor::LightRed),
        };
        let row = FileHashRow {
            tag,
            offset: h.offset,
            hash: h.hash,
            entry: h.entry,
            tag_type,
            color,
            enabled: tag != self_tag,
        };
        r.push(row);
        assert(file_hashes@.subrange(0, i + 1).map_values(
            |h: ScannedHashWithEntry| spec_file_hash_row(h, self_tag, hash64_table@, version),
        ) =~= file_hashes@.subrange(0, i as int).map_values(
            |h: ScannedHashWithEntry| spec_file_hash_row(h, self_tag, hash64_table@, version),
        ).push(row));
        i = i + 1;
    }
    assert(file_hashes@.subrange(0, file_hashes@.len() as int) =~= file_hashes@);
    r
}

/// A line of the tag view's list of tags that reference the viewed one.
#[derive(Clone, Copy, Debug, PartialEq, Eq, Structural)]
pub struct ReferenceRow {
    pub tag: u32,
    pub entry: EntryHeader,
    pub tag_type: TagType,
    pub enabled: bool,
}

pub open spec fn spec_reference_row(r: (u32, EntryHeader), self_tag: u32, version: PackageVersion) -> ReferenceRow {
    ReferenceRow {
        tag: r.0,
        entry: r.1,
        tag_type: spec_from_type_subtype(version, r.1.file_type, r.1.file_subtype),
        enabled: r.0 != self_tag,
    }
}

/// The lines of the list of referencing tags, each with its type; the viewed
/// tag itself cannot be opened.
pub fn reference_rows(references: &Vec<(u32, EntryHeader)>, self_tag: u32, version: PackageVersion) -> (r: Vec<ReferenceRow>)
    ensures
        r@ == references@.map_values(|e: (u32, EntryHeader)| spec_reference_row(e, self_tag, version)),
{
    let mut r: Vec<ReferenceRow> = Vec::new();
    let mut i: usize = 0;
    while i < references.len()
        invariant
            i <= references@.len(),
            r@ == references@.subrange(0, i as int).map_values(
                |e: (u32, EntryHeader)| spec_reference_row(e, self_tag, version),
            ),
        decreases references@.len() - i,
    {
        let (tag, entry) = references[i];
        let row = ReferenceRow {
            tag,
            entry,
            tag_type: TagType::from_type_subtype(version, entry.file_type, entry.file_subtype),
            enabled: tag != self_tag,
        };
        r.push(row);
        assert(references@.subrange(0, i + 1).map_values(
            |e: (u32, EntryHeader)| spec_reference_row(e, self_tag, version),
        ) =~= references@.subrange(0, i as int).map_values(
            |e: (u32, EntryHeader)| spec_reference_row(e, self_tag, version),
        ).push(row));
        i = i + 1;
    }
    assert(references@.subrange(0, references@.len() as int) =~= references@);
    r
}

/// A line of the tag view's list of string hashes: the string shown (one of
/// the colliding strings, in turn), how many strings share the hash when
/// more than one does, the hash and its offset.
pub struct StringHashRow {
    pub text: String,
    pub collisions: Option<usize>,
    pub hash: u32,
    pub offset: u64,
}

pub type StringHashRowView = (Seq<char>, Option<usize>, u32, u64);

pub open spec fn string_hash_rows_view(v: Seq<StringHashRow>) -> Seq<StringHashRowView> {
    v.map_values(|r: StringHashRow| (r.text@, r.collisions, r.hash, r.offset))
}

/// Whether every listed hash that the cache knows has at least one string.
pub open spec fn cached_strings_present(hashes: Seq<(u64, u32)>, cache: Map<u32, Vec<String>>) -> bool {
    forall|i: int| #![trigger hashes[i]]
        0 <= i < hashes.len() && cache.contains_key(hashes[i].1) ==> cache[hashes[i].1]@.len() > 0
}

/// The lines for the first `n` string hashes: hashes the cache does not know
/// are left out; a hash with several strings shows string number
/// `seconds % count` of them, so the shown string changes every second.
pub open spec fn spec_string_hash_rows(
    hashes: Seq<(u64, u32)>,
    cache: Map<u32, Vec<String>>,
    seconds: usize,
    n: nat,
) -> Seq<StringHashRowView>
    decreases n,
{
    if n == 0 {
        Seq::empty()
    } else {
        let prev = spec_string_hash_rows(hashes, cache, seconds, (n - 1) as nat);
        let (offset, hash) = hashes[n - 1];
        if cache.contains_key(hash) {
            let strings = cache[hash]@;
            if strings.len() > 1 {
                prev.push((strings[(seconds as int) % (strings.len() as int)]@, Some(strings.len() as usize), hash, offset))
            } else {
                prev.push((strings[0]@, None, hash, offset))
            }
        } else {
            prev
        }
    }
}

/// The lines of the tag view's list of string hashes found in the tag.
pub fn string_hash_rows(
    string_hashes: &Vec<(u64, u32)>,
    cache: &HashMap<u32, Vec<String>>,
    seconds: usize,
) -> (r: Vec<StringHashRow>)
    requires
        cached_strings_present(string_hashes@, cache@),
    ensures
        string_hash_rows_view(r@) == spec_string_hash_rows(string_hashes@, cache@, seconds, string_hashes@.len()),
{
    broadcast use vstd::std_specs::hash::group_hash_axioms;

    let mut r: Vec<StringHashRow> = Vec::new();
    let mut i: usize = 0;
    while i < string_hashes.len()
        invariant
            i <= string_hashes@.len(),
            cached_strings_present(string_hashes@, cache@),
            string_hash_rows_view(r@) == spec_string_hash_rows(string_hashes@, cache@, seconds, i as nat),
        decreases string_hashes@.len() - i,
    {
        let (offset, hash) = string_hashes[i];
        assert(string_hashes@[i as int] == (offset, hash));
        let ghost prev = string_hash_rows_view(r@);
        match cache.get(&hash) {
            Some(strings) => {
                let n = strings.len();
                if n > 1 {
                    let text = strings[seconds % n].clone();
                    r.push(StringHashRow { text, collisions: Some(n), hash, offset });
                } else {
                    let text = strings[0].clone();
                    r.push(StringHashRow { text, collisions: None, hash, offset });
                }
                assert(string_hash_rows_view(r@) =~= prev.push(string_hash_rows_view(r@).last()));
            },
            None => {
                assert(string_hash_rows_view(r@) =~= prev);
            },
        }
        i = i + 1;
    }
    r
}

/// The tags (with their entries and types) whose scan found the string hash
/// `hash`, in the order of `scans`; tags without an entry are left out.
pub open spec fn spec_string_hash_users(
    scans: Seq<(u32, Vec<(u64, u32)>)>,
    hash: u32,
    entries: Map<u32, EntryHeader>,
    version: PackageVersion,
    n: nat,
) -> Seq<(u32, EntryHeader, TagType)>
    decreases n,
{
    if n == 0 {
        Seq::empty()
    } else {
        let prev = spec_string_hash_users(scans, hash, entries, version, (n - 1) as nat);
        let (tag, found) = scans[n - 1];
        if (exists|k: int| 0 <= k < found@.len() && #[trigger] found@[k].1 == hash) && entries.contains_key(tag) {
            let e = entries[tag];
            prev.push((tag, e, spec_from_type_subtype(version, e.file_type, e.file_subtype)))
        } else {
            prev
        }
    }
}

fn finds_hash(found: &Vec<(u64, u32)>, hash: u32) -> (r: bool)
    ensures
        r == exists|k: int| 0 <= k < found@.len() && #[trigger] found@[k].1 == hash,
{
    let mut k: usize = 0;
    while k < found.len()
        invariant
            k <= found@.len(),
            forall|j: int| 0 <= j < k ==> (#[trigger] found@[j]).1 != hash,
        decreases found@.len() - k,
    {
        if found[k].1 == hash {
            return true;
        }
        k = k + 1;
    }
    false
}

/// The tags listed for a selected string hash: those whose scan found it and
/// that have a package entry.
pub fn string_hash_users(
    scans: &Vec<(u32, Vec<(u64, u32)>)>,
    hash: u32,
    entries: &HashMap<u32, EntryHeader>,
    version: PackageVersion,
) -> (r: Vec<(u32, EntryHeader, TagType)>)
    ensures
        r@ == spec_string_hash_users(scans@, hash, entries@, version, scans@.len()),
{
    broadcast use vstd::std_specs::hash::group_hash_axioms;

    let mut r: Vec<(u32, EntryHeader, TagType)> = Vec::new();
    let mut i: usize = 0;
    while i < scans.len()
        invariant
            i <= scans@.len(),
            r@ == spec_string_hash_users(scans@, hash, entries@, version, i as nat),
        decreases scans@.len() - i,
    {
        let tag = scans[i].0;
        if finds_hash(&scans[i].1, hash) {
            match entries.get(&tag) {
                Some(e) => {
                    let ty = TagType::from_type_subtype(version, e.file_type, e.file_subtype);
                    r.push((tag, *e, ty));
                },
                None => {},
            }
        }
        i = i + 1;
    }
    r
}

/// What opening a tag in the browser leads to.
#[derive(Clone, Copy, Debug, PartialEq, Eq, Structural)]
pub enum OpenTagOutcome {
    /// A view of the tag replaces the current one and the tag panel shows.
    Opened,
    /// The tag exists but the scan cache has nothing on it (a warning: it
    /// usually has no references).
    NotInCache,
    /// No package has the tag (an error).
    NotFound,
}

/// The outcome of opening a tag, given whether a view of it could be made
/// from the scan cache and whether a package has an entry for it.
pub fn open_tag_outcome(view_created: bool, has_entry: bool) -> (r: OpenTagOutcome)
    ensures
        r == (if view_created {
            OpenTagOutcome::Opened
        } else if has_entry {
            OpenTagOutcome::NotInCache
        } else {
            OpenTagOutcome::NotFound
        }),
{
    if view_created {
        OpenTagOutcome::Opened
    } else if has_entry {
        OpenTagOutcome::NotInCache
    } else {
        OpenTagOutcome::NotFound
    }
}

} // verus!
