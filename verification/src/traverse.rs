use std::collections::{HashMap, HashSet};
use vstd::prelude::*;

verus! {

/// How a tag line of a traversal came about.
#[derive(Clone, Copy, Debug, PartialEq, Eq, Structural)]
pub enum TagNote {
    /// First visit: the tag's own references follow below it.
    Expanded,
    /// A tag seen before whose entry is neither a tag (type 8) nor has
    /// subtype 16; it is shown without a note.
    Reference,
    /// A tag seen before that is the parent of this one.
    Parent,
    /// A tag seen before that is the tag itself.
    SelfReference,
    /// Any other tag seen before.
    AlreadyTraversed,
}

/// What a traversal line shows after its pipes and branch.
#[derive(Clone, Copy, Debug, PartialEq, Eq, Structural)]
pub enum LineBody {
    /// A tag and the offset of the reference to it.
    Tag { tag: u32, offset: u64, note: TagNote },
    /// `└ Depth limit reached (limit)`.
    DepthLimit { limit: usize },
    /// Nothing: closes a list of references.
    Blank,
}

/// One line of a traversal: one pipe column per ancestor level (`│` while
/// that level has more references below, a space otherwise, each followed by
/// three spaces when printed), the branch (`├` or `└`, then `──`) for a
/// reference line, and the body.
pub struct TraversalLine {
    pub pipes: Vec<char>,
    pub branch: Option<char>,
    pub body: LineBody,
}

/// A traversal line as plain values.
pub type LineView = (Seq<char>, Option<char>, LineBody);

pub open spec fn line_view(l: TraversalLine) -> LineView {
    (l.pipes@, l.branch, l.body)
}

pub open spec fn lines_view(v: Seq<TraversalLine>) -> Seq<LineView> {
    v.map_values(|l: TraversalLine| line_view(l))
}

/// The references of every scanned tag (tag hash and offset, in offset
/// order), and the type and subtype of every package entry.
pub struct TagGraph {
    pub references: HashMap<u32, Vec<(u32, u64)>>,
    pub entry_types: HashMap<u32, (u8, u8)>,
}

pub open spec fn refs_view(v: Seq<(u32, u64)>) -> Seq<(u32, u64)> {
    v
}

impl TagGraph {
    pub open spec fn spec_refs(&self, tag: u32) -> Option<Seq<(u32, u64)>> {
        if self.references@.contains_key(tag) {
            Some(self.references@[tag]@)
        } else {
            None
        }
    }

    /// A seen tag is listed without a note when its entry is neither a tag
    /// (type 8) nor has subtype 16.
    pub open spec fn spec_plain_reference(&self, tag: u32) -> bool {
        self.entry_types@.contains_key(tag) && self.entry_types@[tag].0 != 8
            && self.entry_types@[tag].1 != 16
    }
}

/// The note of a reference to an already seen tag.
pub open spec fn spec_seen_note(g: &TagGraph, t: u32, parent: u32, tag: u32) -> TagNote {
    if g.spec_plain_reference(t) {
        TagNote::Reference
    } else if t == parent {
        TagNote::Parent
    } else if t == tag {
        TagNote::SelfReference
    } else {
        TagNote::AlreadyTraversed
    }
}

/// The lines of the traversal of `tag` (reached from `parent` through a
/// reference at `offset`) with `seen` tags visited before and `pipes` the
/// pipe columns of its level; `lead` is the pipes and branch its own line
/// starts with. Also gives the tags seen afterwards.
pub open spec fn spec_traverse(
    g: &TagGraph,
    tag: u32,
    parent: u32,
    offset: u64,
    lead: (Seq<char>, Option<char>),
    seen: Set<u32>,
    pipes: Seq<char>,
    limit: nat,
) -> (Seq<LineView>, Set<u32>)
    decreases limit - pipes.len(), 1nat, 0nat,
{
    let seen1 = seen.insert(tag);
    let first = seq![(lead.0, lead.1, LineBody::Tag { tag, offset, note: TagNote::Expanded })];
    if pipes.len() >= limit {
        (first.push((pipes, None, LineBody::DepthLimit { limit: limit as usize })), seen1)
    } else {
        match g.spec_refs(tag) {
            None => (first, seen1),
            Some(refs) => if refs.len() == 0 {
                (first, seen1)
            } else {
                let rest = spec_traverse_refs(g, tag, parent, refs, 0, seen1, pipes, limit);
                (first + rest.0 + seq![(pipes, None, LineBody::Blank)], rest.1)
            },
        }
    }
}

/// The lines of references `i..` of `tag`.
pub open spec fn spec_traverse_refs(
    g: &TagGraph,
    tag: u32,
    parent: u32,
    refs: Seq<(u32, u64)>,
    i: nat,
    seen: Set<u32>,
    pipes: Seq<char>,
    limit: nat,
) -> (Seq<LineView>, Set<u32>)
    decreases limit - pipes.len(), 0nat, refs.len() - i,
{
    if i >= refs.len() || pipes.len() >= limit {
        (Seq::empty(), seen)
    } else {
        let (t, off) = refs[i as int];
        let last = i + 1 == refs.len();
        let branch = if last { '└' } else { '├' };
        let pipe = if last { ' ' } else { '│' };
        let here = if seen.contains(t) {
            (seq![(pipes, Some(branch), LineBody::Tag { tag: t, offset: off, note: spec_seen_note(g, t, parent, tag) })], seen)
        } else {
            spec_traverse(g, t, tag, off, (pipes, Some(branch)), seen, pipes.push(pipe), limit)
        };
        let rest = spec_traverse_refs(g, tag, parent, refs, i + 1, here.1, pipes, limit);
        (here.0 + rest.0, rest.1)
    }
}

fn copy_chars(v: &Vec<char>) -> (r: Vec<char>)
    ensures
        r@ == v@,
{
    let mut r: Vec<char> = Vec::new();
    let mut i: usize = 0;
    while i < v.len()
        invariant
            i <= v@.len(),
            r@ == v@.subrange(0, i as int),
        decreases v@.len() - i,
    {
        r.push(v[i]);
        i = i + 1;
    }
    r
}

fn seen_note(g: &TagGraph, t: u32, parent: u32, tag: u32) -> (r: TagNote)
    ensures
        r == spec_seen_note(g, t, parent, tag),
{
    broadcast use vstd::std_specs::hash::group_hash_axioms;

    let plain = match g.entry_types.get(&t) {
        Some(e) => e.0 != 8 && e.1 != 16,
        None => false,
    };
    if plain {
        TagNote::Reference
    } else if t == parent {
        TagNote::Parent
    } else if t == tag {
        TagNote::SelfReference
    } else {
        TagNote::AlreadyTraversed
    }
}

fn traverse_tag(
    g: &TagGraph,
    out: &mut Vec<TraversalLine>,
    tag: u32,
    parent: u32,
    offset: u64,
    lead_pipes: Vec<char>,
    lead_branch: Option<char>,
    seen: &mut HashSet<u32>,
    pipe_stack: &mut Vec<char>,
    depth_limit: usize,
)
    ensures
        lines_view(final(out)@) == lines_view(old(out)@) + spec_traverse(
            g,
            tag,
            parent,
            offset,
            (lead_pipes@, lead_branch),
            old(seen)@,
            old(pipe_stack)@,
            depth_limit as nat,
        ).0,
        final(seen)@ == spec_traverse(
            g,
            tag,
            parent,
            offset,
            (lead_pipes@, lead_branch),
            old(seen)@,
            old(pipe_stack)@,
            depth_limit as nat,
        ).1,
        final(pipe_stack)@ == old(pipe_stack)@,
    decreases depth_limit - old(pipe_stack)@.len(), 1nat, 0nat,
{
    broadcast use vstd::std_specs::hash::group_hash_axioms;

    let ghost spec_r = spec_traverse(g, tag, parent, offset, (lead_pipes@, lead_branch), old(seen)@, old(pipe_stack)@, depth_limit as nat);
    seen.insert(tag);
    let ghost old_out = lines_view(out@);
    out.push(TraversalLine { pipes: lead_pipes, branch: lead_branch, body: LineBody::Tag { tag, offset, note: TagNote::Expanded } });
    let depth = pipe_stack.len();
    if depth >= depth_limit {
        let pipes = copy_chars(pipe_stack);
        out.push(TraversalLine { pipes, branch: None, body: LineBody::DepthLimit { limit: depth_limit } });
        assert(lines_view(out@) =~= old_out + spec_r.0);
        return;
    }
    let refs = match g.references.get(&tag) {
        Some(r) => r,
        None => {
            assert(lines_view(out@) =~= old_out + spec_r.0);
            return;
        },
    };
    if refs.len() == 0 {
        assert(lines_view(out@) =~= old_out + spec_r.0);
        return;
    }
    let ghost mid_out = lines_view(out@);
    let ghost seen1 = seen@;
    assert(seen1 == old(seen)@.insert(tag));
    assert(g.spec_refs(tag) == Some(refs@));
    assert(mid_out =~= old_out + seq![(lead_pipes@, lead_branch, LineBody::Tag { tag, offset, note: TagNote::Expanded })]);
    traverse_refs(g, out, tag, parent, refs, 0, seen, pipe_stack, depth_limit);
    let ghost rest = spec_traverse_refs(g, tag, parent, refs@, 0, seen1, old(pipe_stack)@, depth_limit as nat);
    assert(lines_view(out@) == mid_out + rest.0);
    let pipes = copy_chars(pipe_stack);
    out.push(TraversalLine { pipes, branch: None, body: LineBody::Blank });
    assert(lines_view(out@) =~= mid_out + rest.0 + seq![(old(pipe_stack)@, None, LineBody::Blank)]);
    assert(spec_r.0 == seq![(lead_pipes@, lead_branch, LineBody::Tag { tag, offset, note: TagNote::Expanded })] + rest.0 + seq![(old(pipe_stack)@, None, LineBody::Blank)]);
    assert(lines_view(out@) =~= old_out + spec_r.0);
}

fn traverse_refs(
    g: &TagGraph,
    out: &mut Vec<TraversalLine>,
    tag: u32,
    parent: u32,
    refs: &Vec<(u32, u64)>,
    i: usize,
    seen: &mut HashSet<u32>,
    pipe_stack: &mut Vec<char>,
    depth_limit: usize,
)
    requires
        i <= refs@.len(),
    ensures
        lines_view(final(out)@) == lines_view(old(out)@) + spec_traverse_refs(
            g,
            tag,
            parent,
            refs@,
            i as nat,
            old(seen)@,
            old(pipe_stack)@,
            depth_limit as nat,
        ).0,
        final(seen)@ == spec_traverse_refs(
            g,
            tag,
            parent,
            refs@,
            i as nat,
            old(seen)@,
            old(pipe_stack)@,
            depth_limit as nat,
        ).1,
        final(pipe_stack)@ == old(pipe_stack)@,
    decreases depth_limit - old(pipe_stack)@.len(), 0nat, refs@.len() - i,
{
    broadcast use vstd::std_specs::hash::group_hash_axioms;

    if i >= refs.len() || pipe_stack.len() >= depth_limit {
        assert(lines_view(out@) =~= lines_view(old(out)@));
        return;
    }
    let ghost old_out = lines_view(out@);
    let (t, off) = refs[i];
    let last = i + 1 == refs.len();
    let branch = if last { '└' } else { '├' };
    let pipe = if last { ' ' } else { '│' };
    let ghost pipes0 = old(pipe_stack)@;
    let ghost here = if old(seen)@.contains(t) {
        (seq![(pipes0, Some(branch), LineBody::Tag { tag: t, offset: off, note: spec_seen_note(g, t, parent, tag) })], old(seen)@)
    } else {
        spec_traverse(g, t, tag, off, (pipes0, Some(branch)), old(seen)@, pipes0.push(pipe), depth_limit as nat)
    };
    assert(refs@[i as int] == (t, off));
    if seen.contains(&t) {
        let note = seen_note(g, t, parent, tag);
        let pipes = copy_chars(pipe_stack);
        out.push(TraversalLine { pipes, branch: Some(branch), body: LineBody::Tag { tag: t, offset: off, note } });
        assert(lines_view(out@) =~= old_out + here.0);
    } else {
        let lead = copy_chars(pipe_stack);
        pipe_stack.push(pipe);
        traverse_tag(g, out, t, tag, off, lead, Some(branch), seen, pipe_stack, depth_limit);
        pipe_stack.pop();
        assert(pipe_stack@ =~= pipes0);
    }
    assert(lines_view(out@) == old_out + here.0);
    assert(seen@ == here.1);
    let ghost mid_out = lines_view(out@);
    traverse_refs(g, out, tag, parent, refs, i + 1, seen, pipe_stack, depth_limit);
    let ghost rest = spec_traverse_refs(g, tag, parent, refs@, (i + 1) as nat, here.1, pipes0, depth_limit as nat);
    assert(lines_view(out@) == mid_out + rest.0);
    assert(spec_traverse_refs(g, tag, parent, refs@, i as nat, old(seen)@, pipes0, depth_limit as nat) == (here.0 + rest.0, rest.1));
    assert(lines_view(out@) =~= old_out + spec_traverse_refs(
        g, tag, parent, refs@, i as nat, old(seen)@, old(pipe_stack)@, depth_limit as nat).0);
}

/// Traverses the references from `starting_tag` down, listing every tag the
/// first time it is reached with its own references below it, and later
/// references to it with a note; levels beyond `depth_limit` are cut.
pub fn traverse_tags(g: &TagGraph, starting_tag: u32, depth_limit: usize) -> (r: Vec<TraversalLine>)
    ensures
        lines_view(r@) == spec_traverse(
            g,
            starting_tag,
            crate::taginput::TAG_HASH_NONE,
            0,
            (Seq::empty(), None),
            Set::empty(),
            Seq::empty(),
            depth_limit as nat,
        ).0,
        notes_fit_entries(g, lines_view(r@)),
{
    let mut out: Vec<TraversalLine> = Vec::new();
    let mut seen: HashSet<u32> = HashSet::new();
    let mut pipe_stack: Vec<char> = Vec::new();
    traverse_tag(g, &mut out, starting_tag, crate::taginput::TAG_HASH_NONE, 0, Vec::new(), None, &mut seen, &mut pipe_stack, depth_limit);
    assert(lines_view(out@) =~= spec_traverse(
            g,
            starting_tag,
            crate::taginput::TAG_HASH_NONE,
            0,
            (Seq::empty(), None),
            Set::empty(),
            Seq::empty(),
            depth_limit as nat,
        ).0);
    proof {
        lemma_traversal_plain_references(g, starting_tag, depth_limit);
    }
    out
}

/// The tag a line expands, if it is the first visit of that tag.
pub open spec fn expanded_tag(l: LineView) -> Option<u32> {
    match l.2 {
        LineBody::Tag { tag, note, .. } => if note == TagNote::Expanded {
            Some(tag)
        } else {
            None
        },
        _ => None,
    }
}

/// Every tag that `lines` expands was not in `before` and is in `after`,
/// no tag is expanded twice, and `before` is kept in `after`.
pub open spec fn expansions_fresh(lines: Seq<LineView>, before: Set<u32>, after: Set<u32>) -> bool {
    &&& before.subset_of(after)
    &&& forall|i: int|
        0 <= i < lines.len() && (#[trigger] expanded_tag(lines[i])) is Some ==> !before.contains(
            expanded_tag(lines[i])->0,
        ) && after.contains(expanded_tag(lines[i])->0)
    &&& forall|i: int, j: int|
        0 <= i < j < lines.len() && (#[trigger] expanded_tag(lines[i])) is Some
            && (#[trigger] expanded_tag(lines[j])) is Some ==> expanded_tag(lines[i])
            != expanded_tag(lines[j])
}

proof fn lemma_fresh_concat(a: Seq<LineView>, b: Seq<LineView>, s0: Set<u32>, s1: Set<u32>, s2: Set<u32>)
    requires
        expansions_fresh(a, s0, s1),
        expansions_fresh(b, s1, s2),
    ensures
        expansions_fresh(a + b, s0, s2),
{
    let c = a + b;
    assert forall|i: int| 0 <= i < c.len() && (#[trigger] expanded_tag(c[i])) is Some implies !s0.contains(
        expanded_tag(c[i])->0,
    ) && s2.contains(expanded_tag(c[i])->0) by {
        if i < a.len() {
            assert(c[i] == a[i]);
        } else {
            assert(c[i] == b[i - a.len()]);
            assert(expanded_tag(b[i - a.len()]) is Some);
        }
    }
    assert forall|i: int, j: int|
        0 <= i < j < c.len() && (#[trigger] expanded_tag(c[i])) is Some
            && (#[trigger] expanded_tag(c[j])) is Some implies expanded_tag(c[i]) != expanded_tag(c[j]) by {
        if j < a.len() {
            assert(c[i] == a[i] && c[j] == a[j]);
        } else if i >= a.len() {
            assert(c[i] == b[i - a.len()] && c[j] == b[j - a.len()]);
            assert(expanded_tag(b[i - a.len()]) is Some && expanded_tag(b[j - a.len()]) is Some);
        } else {
            assert(c[i] == a[i] && c[j] == b[j - a.len()]);
            assert(expanded_tag(b[j - a.len()]) is Some);
            assert(s1.contains(expanded_tag(a[i])->0));
        }
    }
}

proof fn lemma_fresh_plain(lines: Seq<LineView>, s: Set<u32>)
    requires
        forall|i: int| 0 <= i < lines.len() ==> (#[trigger] expanded_tag(lines[i])) is None,
    ensures
        expansions_fresh(lines, s, s),
{
}

proof fn lemma_traverse_fresh(
    g: &TagGraph,
    tag: u32,
    parent: u32,
    offset: u64,
    lead: (Seq<char>, Option<char>),
    seen: Set<u32>,
    pipes: Seq<char>,
    limit: nat,
)
    requires
        !seen.contains(tag),
    ensures
        expansions_fresh(spec_traverse(g, tag, parent, offset, lead, seen, pipes, limit).0, seen,
            spec_traverse(g, tag, parent, offset, lead, seen, pipes, limit).1),
    decreases limit - pipes.len(), 1nat, 0nat,
{
    let seen1 = seen.insert(tag);
    let first = seq![(lead.0, lead.1, LineBody::Tag { tag, offset, note: TagNote::Expanded })];
    assert(expanded_tag(first[0]) == Some(tag));
    assert(expansions_fresh(first, seen, seen1));
    if pipes.len() >= limit {
        let tail = seq![(pipes, None::<char>, LineBody::DepthLimit { limit: limit as usize })];
        assert(expanded_tag(tail[0]) is None);
        lemma_fresh_plain(tail, seen1);
        lemma_fresh_concat(first, tail, seen, seen1, seen1);
        assert(first + tail =~= first.push((pipes, None, LineBody::DepthLimit { limit: limit as usize })));
    } else {
        match g.spec_refs(tag) {
            None => {},
            Some(refs) => if refs.len() != 0 {
                let rest = spec_traverse_refs(g, tag, parent, refs, 0, seen1, pipes, limit);
                lemma_traverse_refs_fresh(g, tag, parent, refs, 0, seen1, pipes, limit);
                let blank = seq![(pipes, None::<char>, LineBody::Blank)];
                assert(expanded_tag(blank[0]) is None);
                lemma_fresh_plain(blank, rest.1);
                lemma_fresh_concat(first, rest.0, seen, seen1, rest.1);
                lemma_fresh_concat(first + rest.0, blank, seen, rest.1, rest.1);
            },
        }
    }
}

proof fn lemma_traverse_refs_fresh(
    g: &TagGraph,
    tag: u32,
    parent: u32,
    refs: Seq<(u32, u64)>,
    i: nat,
    seen: Set<u32>,
    pipes: Seq<char>,
    limit: nat,
)
    ensures
        expansions_fresh(spec_traverse_refs(g, tag, parent, refs, i, seen, pipes, limit).0, seen,
            spec_traverse_refs(g, tag, parent, refs, i, seen, pipes, limit).1),
    decreases limit - pipes.len(), 0nat, refs.len() - i,
{
    if i >= refs.len() || pipes.len() >= limit {
        lemma_fresh_plain(Seq::empty(), seen);
    } else {
        let (t, off) = refs[i as int];
        let last = i + 1 == refs.len();
        let branch = if last { '└' } else { '├' };
        let pipe = if last { ' ' } else { '│' };
        let here = if seen.contains(t) {
            (seq![(pipes, Some(branch), LineBody::Tag { tag: t, offset: off, note: spec_seen_note(g, t, parent, tag) })], seen)
        } else {
            spec_traverse(g, t, tag, off, (pipes, Some(branch)), seen, pipes.push(pipe), limit)
        };
        if seen.contains(t) {
            assert(spec_seen_note(g, t, parent, tag) != TagNote::Expanded);
            assert(expanded_tag(here.0[0]) is None);
            lemma_fresh_plain(here.0, seen);
        } else {
            lemma_traverse_fresh(g, t, tag, off, (pipes, Some(branch)), seen, pipes.push(pipe), limit);
        }
        lemma_traverse_refs_fresh(g, tag, parent, refs, i + 1, here.1, pipes, limit);
        let rest = spec_traverse_refs(g, tag, parent, refs, i + 1, here.1, pipes, limit);
        lemma_fresh_concat(here.0, rest.0, seen, here.1, rest.1);
    }
}

/// A traversal expands every tag at most once: two lines that show the
/// first visit of a tag never show the same tag.
pub proof fn lemma_traversal_expands_once(g: &TagGraph, starting_tag: u32, depth_limit: usize)
    ensures
        ({
            let lines = spec_traverse(
                g,
                starting_tag,
                crate::taginput::TAG_HASH_NONE,
                0,
                (Seq::empty(), None),
                Set::empty(),
                Seq::empty(),
                depth_limit as nat,
            ).0;
            forall|i: int, j: int|
                0 <= i < j < lines.len() && (#[trigger] expanded_tag(lines[i])) is Some
                    && (#[trigger] expanded_tag(lines[j])) is Some ==> expanded_tag(lines[i])
                    != expanded_tag(lines[j])
        }),
{
    lemma_traverse_fresh(
        g,
        starting_tag,
        crate::taginput::TAG_HASH_NONE,
        0,
        (Seq::empty(), None),
        Set::empty(),
        Seq::empty(),
        depth_limit as nat,
    );
}

/// Every line of `lines` has at most `limit` pipe columns.
pub open spec fn within_depth(lines: Seq<LineView>, limit: nat) -> bool {
    forall|i: int| 0 <= i < lines.len() ==> (#[trigger] lines[i]).0.len() <= limit
}

proof fn lemma_traverse_depth(
    g: &TagGraph,
    tag: u32,
    parent: u32,
    offset: u64,
    lead: (Seq<char>, Option<char>),
    seen: Set<u32>,
    pipes: Seq<char>,
    limit: nat,
)
    requires
        lead.0.len() <= limit,
        pipes.len() <= limit,
    ensures
        within_depth(spec_traverse(g, tag, parent, offset, lead, seen, pipes, limit).0, limit),
    decreases limit - pipes.len(), 1nat, 0nat,
{
    let seen1 = seen.insert(tag);
    if pipes.len() < limit {
        match g.spec_refs(tag) {
            None => {},
            Some(refs) => if refs.len() != 0 {
                lemma_traverse_refs_depth(g, tag, parent, refs, 0, seen1, pipes, limit);
                let first = seq![(lead.0, lead.1, LineBody::Tag { tag, offset, note: TagNote::Expanded })];
                let rest = spec_traverse_refs(g, tag, parent, refs, 0, seen1, pipes, limit);
                let all = first + rest.0 + seq![(pipes, None::<char>, LineBody::Blank)];
                assert forall|i: int| 0 <= i < all.len() implies (#[trigger] all[i]).0.len() <= limit by {
                    if i > 0 && i < all.len() - 1 {
                        assert(all[i] == rest.0[i - 1]);
                    }
                }
            },
        }
    }
}

proof fn lemma_traverse_refs_depth(
    g: &TagGraph,
    tag: u32,
    parent: u32,
    refs: Seq<(u32, u64)>,
    i: nat,
    seen: Set<u32>,
    pipes: Seq<char>,
    limit: nat,
)
    requires
        pipes.len() <= limit,
    ensures
        within_depth(spec_traverse_refs(g, tag, parent, refs, i, seen, pipes, limit).0, limit),
    decreases limit - pipes.len(), 0nat, refs.len() - i,
{
    if !(i >= refs.len() || pipes.len() >= limit) {
        let (t, off) = refs[i as int];
        let last = i + 1 == refs.len();
        let branch = if last { '└' } else { '├' };
        let pipe = if last { ' ' } else { '│' };
        let here = if seen.contains(t) {
            (seq![(pipes, Some(branch), LineBody::Tag { tag: t, offset: off, note: spec_seen_note(g, t, parent, tag) })], seen)
        } else {
            spec_traverse(g, t, tag, off, (pipes, Some(branch)), seen, pipes.push(pipe), limit)
        };
        if !seen.contains(t) {
            lemma_traverse_depth(g, t, tag, off, (pipes, Some(branch)), seen, pipes.push(pipe), limit);
        }
        lemma_traverse_refs_depth(g, tag, parent, refs, i + 1, here.1, pipes, limit);
        let rest = spec_traverse_refs(g, tag, parent, refs, i + 1, here.1, pipes, limit);
        let all = here.0 + rest.0;
        assert forall|k: int| 0 <= k < all.len() implies (#[trigger] all[k]).0.len() <= limit by {
            if k < here.0.len() {
                assert(all[k] == here.0[k]);
            } else {
                assert(all[k] == rest.0[k - here.0.len()]);
            }
        }
    }
}

/// No line of a traversal goes deeper than the depth limit: each has at most
/// `depth_limit` pipe columns.
pub proof fn lemma_traversal_within_depth(g: &TagGraph, starting_tag: u32, depth_limit: usize)
    ensures
        within_depth(
            spec_traverse(
                g,
                starting_tag,
                crate::taginput::TAG_HASH_NONE,
                0,
                (Seq::empty(), None),
                Set::empty(),
                Seq::empty(),
                depth_limit as nat,
            ).0,
            depth_limit as nat,
        ),
{
    lemma_traverse_depth(
        g,
        starting_tag,
        crate::taginput::TAG_HASH_NONE,
        0,
        (Seq::empty(), None),
        Set::empty(),
        Seq::empty(),
        depth_limit as nat,
    );
}

/// Whether an entry is listed without a note when seen again: it is known,
/// and is neither a tag (type 8) nor has subtype 16.
pub open spec fn plain_entry(g: &TagGraph, t: u32) -> bool {
    &&& g.entry_types@.contains_key(t)
    &&& g.entry_types@[t].0 != 8
    &&& g.entry_types@[t].1 != 16
}

/// The note of a tag seen again, case by case: a plain entry gets no note
/// whatever its relation to the parent or the tag itself; otherwise the
/// parent, then the tag itself, then any other tag.
pub proof fn lemma_seen_note_cases(g: &TagGraph, t: u32, parent: u32, tag: u32)
    ensures
        plain_entry(g, t) ==> spec_seen_note(g, t, parent, tag) == TagNote::Reference,
        !plain_entry(g, t) && t == parent ==> spec_seen_note(g, t, parent, tag) == TagNote::Parent,
        !plain_entry(g, t) && t != parent && t == tag ==> spec_seen_note(g, t, parent, tag)
            == TagNote::SelfReference,
        !plain_entry(g, t) && t != parent && t != tag ==> spec_seen_note(g, t, parent, tag)
            == TagNote::AlreadyTraversed,
{
}

/// A line of a tag seen again carries no note exactly when the tag's entry is
/// plain (see `plain_entry`).
pub open spec fn note_fits_entry(g: &TagGraph, l: LineView) -> bool {
    match l.2 {
        LineBody::Tag { tag, note, .. } => note != TagNote::Expanded ==> (note == TagNote::Reference
            <==> plain_entry(g, tag)),
        _ => true,
    }
}

pub open spec fn notes_fit_entries(g: &TagGraph, lines: Seq<LineView>) -> bool {
    forall|i: int| 0 <= i < lines.len() ==> #[trigger] note_fits_entry(g, lines[i])
}

proof fn lemma_notes_concat(g: &TagGraph, a: Seq<LineView>, b: Seq<LineView>)
    requires
        notes_fit_entries(g, a),
        notes_fit_entries(g, b),
    ensures
        notes_fit_entries(g, a + b),
{
    let c = a + b;
    assert forall|i: int| 0 <= i < c.len() implies #[trigger] note_fits_entry(g, c[i]) by {
        if i < a.len() {
            assert(c[i] == a[i]);
        } else {
            assert(c[i] == b[i - a.len()]);
        }
    }
}

proof fn lemma_traverse_notes(
    g: &TagGraph,
    tag: u32,
    parent: u32,
    offset: u64,
    lead: (Seq<char>, Option<char>),
    seen: Set<u32>,
    pipes: Seq<char>,
    limit: nat,
)
    ensures
        notes_fit_entries(g, spec_traverse(g, tag, parent, offset, lead, seen, pipes, limit).0),
    decreases limit - pipes.len(), 1nat, 0nat,
{
    let seen1 = seen.insert(tag);
    let first = seq![(lead.0, lead.1, LineBody::Tag { tag, offset, note: TagNote::Expanded })];
    assert(note_fits_entry(g, first[0]));
    if pipes.len() >= limit {
        let all = first.push((pipes, None, LineBody::DepthLimit { limit: limit as usize }));
        assert(note_fits_entry(g, all[0]) && note_fits_entry(g, all[1]));
    } else {
        match g.spec_refs(tag) {
            None => {},
            Some(refs) => if refs.len() != 0 {
                let rest = spec_traverse_refs(g, tag, parent, refs, 0, seen1, pipes, limit);
                lemma_traverse_refs_notes(g, tag, parent, refs, 0, seen1, pipes, limit);
                let blank = seq![(pipes, None::<char>, LineBody::Blank)];
                assert(note_fits_entry(g, blank[0]));
                lemma_notes_concat(g, first, rest.0);
                lemma_notes_concat(g, first + rest.0, blank);
            },
        }
    }
}

proof fn lemma_traverse_refs_notes(
    g: &TagGraph,
    tag: u32,
    parent: u32,
    refs: Seq<(u32, u64)>,
    i: nat,
    seen: Set<u32>,
    pipes: Seq<char>,
    limit: nat,
)
    ensures
        notes_fit_entries(g, spec_traverse_refs(g, tag, parent, refs, i, seen, pipes, limit).0),
    decreases limit - pipes.len(), 0nat, refs.len() - i,
{
    if !(i >= refs.len() || pipes.len() >= limit) {
        let (t, off) = refs[i as int];
        let last = i + 1 == refs.len();
        let branch = if last { '└' } else { '├' };
        let pipe = if last { ' ' } else { '│' };
        let here = if seen.contains(t) {
            (seq![(pipes, Some(branch), LineBody::Tag { tag: t, offset: off, note: spec_seen_note(g, t, parent, tag) })], seen)
        } else {
            spec_traverse(g, t, tag, off, (pipes, Some(branch)), seen, pipes.push(pipe), limit)
        };
        if seen.contains(t) {
            lemma_seen_note_cases(g, t, parent, tag);
            assert(note_fits_entry(g, here.0[0]));
        } else {
            lemma_traverse_notes(g, t, tag, off, (pipes, Some(branch)), seen, pipes.push(pipe), limit);
        }
        lemma_traverse_refs_notes(g, tag, parent, refs, i + 1, here.1, pipes, limit);
        let rest = spec_traverse_refs(g, tag, parent, refs, i + 1, here.1, pipes, limit);
        lemma_notes_concat(g, here.0, rest.0);
    }
}

/// In a traversal, a line of a tag met again shows no note exactly when the
/// tag's entry is neither a tag (type 8) nor has subtype 16, whether or not
/// the tag is the parent or the tag being listed.
pub proof fn lemma_traversal_plain_references(g: &TagGraph, starting_tag: u32, depth_limit: usize)
    ensures
        notes_fit_entries(
            g,
            spec_traverse(
                g,
                starting_tag,
                crate::taginput::TAG_HASH_NONE,
                0,
                (Seq::empty(), None),
                Set::empty(),
                Seq::empty(),
                depth_limit as nat,
            ).0,
        ),
{
    lemma_traverse_notes(
        g,
        starting_tag,
        crate::taginput::TAG_HASH_NONE,
        0,
        (Seq::empty(), None),
        Set::empty(),
        Seq::empty(),
        depth_limit as nat,
    );
}

} // verus!
