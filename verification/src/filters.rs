use vstd::prelude::*;

verus! {

/// What `str::to_lowercase` gives for a text.
pub uninterp spec fn lowercase(s: Seq<char>) -> Seq<char>;

/// The lowercase form of a text (`str::to_lowercase`).
#[verifier::external_body]
fn to_lowercase(s: &str) -> (r: String)
    ensures
        r@ == lowercase(s@),
{
    s.to_lowercase()
}

/// Whether `needle` occurs in `hay` as a run of consecutive characters.
pub open spec fn spec_contains(hay: Seq<char>, needle: Seq<char>) -> bool {
    exists|i: int| 0 <= i <= hay.len() - needle.len() && #[trigger] hay.subrange(i, i + needle.len()) == needle
}

/// Whether `needle` occurs in `hay`.
pub fn str_contains(hay: &str, needle: &str) -> (r: bool)
    ensures
        r == spec_contains(hay@, needle@),
{
    let n = hay.unicode_len();
    let m = needle.unicode_len();
    if m > n {
        return false;
    }
    let mut i: usize = 0;
    while i <= n - m
        invariant
            n == hay@.len(),
            m == needle@.len(),
            m <= n,
            i <= n - m + 1,
            forall|j: int| 0 <= j < i ==> #[trigger] hay@.subrange(j, j + m) != needle@,
        decreases n - m + 1 - i,
    {
        let mut k: usize = 0;
        let mut same = true;
        while k < m
            invariant_except_break
                same,
            invariant
                n == hay@.len(),
                m == needle@.len(),
                i + m <= n,
                k <= m,
                forall|l: int| 0 <= l < k ==> hay@[i + l] == needle@[l],
            ensures
                same ==> k == m && forall|l: int| 0 <= l < m ==> hay@[i + l] == needle@[l],
                !same ==> k < m && hay@[i + k] != needle@[k as int],
            decreases m - k,
        {
            if hay.get_char(i + k) != needle.get_char(k) {
                same = false;
                break;
            }
            k = k + 1;
        }
        if same {
            assert(hay@.subrange(i as int, i + m) =~= needle@);
            return true;
        }
        assert(hay@.subrange(i as int, i + m)[k as int] != needle@[k as int]);
        i = i + 1;
    }
    false
}

/// Whether a text passes a search filter: every text passes an empty filter,
/// otherwise its lowercase form must contain the filter (itself lowercased
/// when `lower_filter` is set).
pub open spec fn spec_passes(text: Seq<char>, filter: Seq<char>, lower_filter: bool) -> bool {
    filter.len() == 0 || spec_contains(lowercase(text), if lower_filter { lowercase(filter) } else { filter })
}

/// Whether a text passes a search filter (see `spec_passes`).
pub fn passes_filter(text: &str, filter: &str, lower_filter: bool) -> (r: bool)
    ensures
        r == spec_passes(text@, filter@, lower_filter),
{
    if filter.unicode_len() == 0 {
        return true;
    }
    let t = to_lowercase(text);
    if lower_filter {
        let f = to_lowercase(filter);
        str_contains(t.as_str(), f.as_str())
    } else {
        str_contains(t.as_str(), filter)
    }
}

/// The positions, in order, of the items for which `keep` holds.
pub open spec fn kept_positions(keep: spec_fn(int) -> bool, n: nat) -> Seq<usize>
    decreases n,
{
    if n == 0 {
        Seq::empty()
    } else {
        let prev = kept_positions(keep, (n - 1) as nat);
        if keep((n - 1) as int) {
            prev.push((n - 1) as usize)
        } else {
            prev
        }
    }
}

/// The positions of the texts that pass a search filter, in order: every
/// text for an empty filter, otherwise those whose lowercase form contains
/// the filter (itself lowercased when `lower_filter` is set). Package stems,
/// package entry labels, named tags and raw strings are searched this way.
pub fn filter_texts(texts: &Vec<String>, filter: &str, lower_filter: bool) -> (r: Vec<usize>)
    ensures
        r@ == kept_positions(|i: int| spec_passes(texts@[i]@, filter@, lower_filter), texts@.len()),
        forall|a: int, b: int| 0 <= a < b < r@.len() ==> r@[a] < r@[b],
        forall|m: int| 0 <= m < r@.len() ==> #[trigger] r@[m] < texts@.len(),
        forall|i: int|
            #![trigger texts@[i]]
            0 <= i < texts@.len() ==> (r@.contains(i as usize) <==> (filter@.len() == 0
                || spec_contains(
                lowercase(texts@[i]@),
                if lower_filter {
                    lowercase(filter@)
                } else {
                    filter@
                },
            ))),
{
    let mut r: Vec<usize> = Vec::new();
    let mut i: usize = 0;
    while i < texts.len()
        invariant
            i <= texts@.len(),
            r@ == kept_positions(|i: int| spec_passes(texts@[i]@, filter@, lower_filter), i as nat),
        decreases texts@.len() - i,
    {
        if passes_filter(texts[i].as_str(), filter, lower_filter) {
            r.push(i);
        }
        i = i + 1;
    }
    proof {
        lemma_kept_positions_members(
            |j: int| spec_passes(texts@[j]@, filter@, lower_filter),
            texts@.len(),
        );
    }
    r
}

/// Whether any of the strings of a hash passes the filter as typed.
pub open spec fn spec_any_passes(strings: Seq<String>, filter: Seq<char>) -> bool {
    exists|k: int| 0 <= k < strings.len() && spec_contains(lowercase(#[trigger] strings[k]@), filter)
}

fn any_passes(strings: &Vec<String>, filter: &str) -> (r: bool)
    ensures
        r == spec_any_passes(strings@, filter@),
{
    let mut k: usize = 0;
    while k < strings.len()
        invariant
            k <= strings@.len(),
            forall|j: int| 0 <= j < k ==> !spec_contains(lowercase(#[trigger] strings@[j]@), filter@),
        decreases strings@.len() - k,
    {
        let t = to_lowercase(strings[k].as_str());
        if str_contains(t.as_str(), filter) {
            return true;
        }
        k = k + 1;
    }
    false
}

/// The string hashes after the search filter: all of them for an empty
/// filter, otherwise those with a string whose lowercase form contains the
/// filter as typed.
pub fn filter_string_hashes(strings: &Vec<(u32, Vec<String>)>, filter: &str) -> (r: Vec<usize>)
    ensures
        r@ == kept_positions(
            |i: int| filter@.len() == 0 || spec_any_passes(strings@[i].1@, filter@),
            strings@.len(),
        ),
        forall|a: int, b: int| 0 <= a < b < r@.len() ==> r@[a] < r@[b],
        forall|m: int| 0 <= m < r@.len() ==> #[trigger] r@[m] < strings@.len(),
        forall|i: int|
            #![trigger strings@[i]]
            0 <= i < strings@.len() ==> (r@.contains(i as usize) <==> (filter@.len() == 0
                || exists|k: int|
                0 <= k < strings@[i].1@.len() && spec_contains(
                    lowercase(#[trigger] strings@[i].1@[k]@),
                    filter@,
                ))),
{
    let empty = filter.unicode_len() == 0;
    let mut r: Vec<usize> = Vec::new();
    let mut i: usize = 0;
    while i < strings.len()
        invariant
            i <= strings@.len(),
            empty == (filter@.len() == 0),
            r@ == kept_positions(
                |i: int| filter@.len() == 0 || spec_any_passes(strings@[i].1@, filter@),
                i as nat,
            ),
        decreases strings@.len() - i,
    {
        if empty || any_passes(&strings[i].1, filter) {
            r.push(i);
        }
        i = i + 1;
    }
    proof {
        lemma_kept_positions_members(
            |j: int| filter@.len() == 0 || spec_any_passes(strings@[j].1@, filter@),
            strings@.len(),
        );
    }
    r
}

/// A string hash passes a non-empty search filter when any one of its
/// strings, not only some particular one, contains the filter once
/// lowercased: the hash at position `i` is kept exactly then.
pub proof fn lemma_string_hash_kept_iff_any_string(
    strings: Seq<(u32, Vec<String>)>,
    filter: Seq<char>,
    i: int,
)
    requires
        strings.len() <= usize::MAX,
        0 <= i < strings.len(),
    ensures
        kept_positions(
            |j: int| filter.len() == 0 || spec_any_passes(strings[j].1@, filter),
            strings.len(),
        ).contains(i as usize) <==> (filter.len() == 0 || exists|k: int|
            0 <= k < strings[i].1@.len() && spec_contains(
                lowercase(#[trigger] strings[i].1@[k]@),
                filter,
            )),
{
    lemma_kept_positions_members(
        |j: int| filter.len() == 0 || spec_any_passes(strings[j].1@, filter),
        strings.len(),
    );
}

/// The positions that `kept_positions` lists are exactly those below `n` for
/// which `keep` holds, each once, in increasing order.
pub proof fn lemma_kept_positions_members(keep: spec_fn(int) -> bool, n: nat)
    requires
        n <= usize::MAX,
    ensures
        forall|m: int|
            0 <= m < kept_positions(keep, n).len() ==> #[trigger] kept_positions(keep, n)[m] < n
                && keep(kept_positions(keep, n)[m] as int),
        forall|a: int, b: int|
            0 <= a < b < kept_positions(keep, n).len() ==> kept_positions(keep, n)[a]
                < kept_positions(keep, n)[b],
        forall|j: int| 0 <= j < n && #[trigger] keep(j) ==> kept_positions(keep, n).contains(j as usize),
        forall|j: int|
            0 <= j < n ==> (#[trigger] kept_positions(keep, n).contains(j as usize) <==> keep(j)),
    decreases n,
{
    if n > 0 {
        lemma_kept_positions_members(keep, (n - 1) as nat);
        let prev = kept_positions(keep, (n - 1) as nat);
        if keep((n - 1) as int) {
            assert(kept_positions(keep, n) == prev.push((n - 1) as usize));
            assert(prev.push((n - 1) as usize)[prev.len() as int] == (n - 1) as usize);
            assert forall|j: int| 0 <= j < n && #[trigger] keep(j) implies kept_positions(
                keep,
                n,
            ).contains(j as usize) by {
                if j < n - 1 {
                    let m = choose|m: int| 0 <= m < prev.len() && prev[m] == j as usize;
                    assert(prev.push((n - 1) as usize)[m] == j as usize);
                } else {
                    assert(prev.push((n - 1) as usize)[prev.len() as int] == j as usize);
                }
            }
        } else {
            assert(kept_positions(keep, n) == prev);
        }
    }
}

proof fn lemma_all_kept(keep: spec_fn(int) -> bool, n: nat)
    requires
        forall|i: int| 0 <= i < n ==> #[trigger] keep(i),
    ensures
        kept_positions(keep, n) == Seq::new(n, |i: int| i as usize),
    decreases n,
{
    if n > 0 {
        lemma_all_kept(keep, (n - 1) as nat);
        assert(kept_positions(keep, n) =~= Seq::new(n, |i: int| i as usize));
    }
}

/// An empty search filter hides nothing: every text is kept, in order.
pub proof fn lemma_empty_filter_keeps_all(texts: Seq<String>, lower_filter: bool)
    ensures
        kept_positions(|i: int| spec_passes(texts[i]@, Seq::empty(), lower_filter), texts.len())
            == Seq::new(texts.len(), |i: int| i as usize),
{
    lemma_all_kept(|i: int| spec_passes(texts[i]@, Seq::empty(), lower_filter), texts.len());
}

} // verus!
