use vstd::prelude::*;

verus! {

/// The identifier bits of the first `n` meshes, or-ed together.
pub open spec fn spec_identifier_mask(first_part_ids: Seq<Option<u16>>, n: nat) -> u32
    decreases n,
{
    if n == 0 {
        0
    } else {
        let acc = spec_identifier_mask(first_part_ids, (n - 1) as nat);
        let id = match first_part_ids[n - 1] {
            Some(x) => x,
            None => 0,
        };
        if id > 31 {
            acc
        } else {
            acc | (1u32 << id)
        }
    }
}

/// The mask of mesh identifiers a decorator model draws: all of them when
/// the decorator has a single model; otherwise the bits of the first part
/// identifiers of every mesh but the last (`first_part_ids` holds one entry
/// per mesh, none for a mesh without parts).
pub fn decorator_identifier_mask(model_count: usize, first_part_ids: &Vec<Option<u16>>) -> (r: u32)
    requires
        model_count <= 1 || first_part_ids@.len() > 0,
    ensures
        r == (if model_count <= 1 {
            u32::MAX
        } else {
            spec_identifier_mask(first_part_ids@, (first_part_ids@.len() - 1) as nat)
        }),
{
    if model_count <= 1 {
        return u32::MAX;
    }
    let n = first_part_ids.len() - 1;
    let mut acc: u32 = 0;
    let mut i: usize = 0;
    while i < n
        invariant
            n == first_part_ids@.len() - 1,
            i <= n,
            acc == spec_identifier_mask(first_part_ids@, i as nat),
        decreases n - i,
    {
        let id = match first_part_ids[i] {
            Some(x) => x,
            None => 0,
        };
        if id <= 31 {
            acc = acc | (1u32 << id);
        }
        i = i + 1;
    }
    acc
}

/// Why the instance groups of a decorator cannot be built; each names the
/// window (of the instance ranges, or of the groups) where it happened.
#[derive(Clone, Copy, Debug, PartialEq, Eq, Structural)]
pub enum DecoratorError {
    /// The instance range has no entry in the range-to-bounds mapping.
    InvalidBoundsMapping { range: usize },
    /// The instance range maps to an occlusion bound that does not exist.
    InvalidBoundsIndex { range: usize },
    /// No instance range starts where the group starts.
    BoundsStartNotFound { group: usize },
    /// No instance range ends where the group ends.
    BoundsEndNotFound { group: usize },
    /// The first range of the group comes after its last one.
    BoundsNotFound { group: usize },
}

/// A range of decorator instances and the occlusion bound that covers it.
#[derive(Clone, Copy, Debug, PartialEq, Eq, Structural)]
pub struct InstanceRange {
    pub start: u32,
    pub end: u32,
    pub bounds_index: u32,
}

/// A group of decorator instances drawn together, with the instance ranges
/// `first_range..end_range` whose bounds it is culled by.
#[derive(Clone, Copy, Debug, PartialEq, Eq, Structural)]
pub struct InstanceGroup {
    pub instance_start: u32,
    pub instance_count: u32,
    pub first_range: usize,
    pub end_range: usize,
}

/// The instance ranges and groups of a decorator.
pub struct DecoratorLayout {
    pub ranges: Vec<InstanceRange>,
    pub groups: Vec<InstanceGroup>,
}

/// The number of pairs of neighbours in a list of edges.
pub open spec fn window_count(len: nat) -> nat {
    if len < 2 {
        0
    } else {
        (len - 1) as nat
    }
}

/// The instance ranges of the first `k` windows of `edges`, or the first
/// error among them.
pub open spec fn spec_ranges(
    edges: Seq<u32>,
    to_bounds: Seq<u32>,
    bounds_count: nat,
    k: nat,
) -> Result<Seq<InstanceRange>, DecoratorError>
    decreases k,
{
    if k == 0 {
        Ok(Seq::empty())
    } else {
        match spec_ranges(edges, to_bounds, bounds_count, (k - 1) as nat) {
            Err(e) => Err(e),
            Ok(prev) => {
                let i = k - 1;
                if i >= to_bounds.len() {
                    Err(DecoratorError::InvalidBoundsMapping { range: i as usize })
                } else if to_bounds[i] >= bounds_count {
                    Err(DecoratorError::InvalidBoundsIndex { range: i as usize })
                } else {
                    Ok(prev.push(InstanceRange { start: edges[i], end: edges[i + 1], bounds_index: to_bounds[i] }))
                }
            },
        }
    }
}

/// The first of the first `n` ranges that starts at `s`.
pub open spec fn first_starting_at(ranges: Seq<InstanceRange>, s: u32, n: nat) -> Option<nat>
    decreases n,
{
    if n == 0 {
        None
    } else {
        match first_starting_at(ranges, s, (n - 1) as nat) {
            Some(j) => Some(j),
            None => if ranges[n - 1].start == s {
                Some((n - 1) as nat)
            } else {
                None
            },
        }
    }
}

/// The first of the first `n` ranges that ends at `e`.
pub open spec fn first_ending_at(ranges: Seq<InstanceRange>, e: u32, n: nat) -> Option<nat>
    decreases n,
{
    if n == 0 {
        None
    } else {
        match first_ending_at(ranges, e, (n - 1) as nat) {
            Some(j) => Some(j),
            None => if ranges[n - 1].end == e {
                Some((n - 1) as nat)
            } else {
                None
            },
        }
    }
}

/// The group of window `i` of `group_edges`, or why it cannot be built: the
/// first range starting at the group's start and the first range ending at
/// its end delimit its ranges (an empty run when the end range comes just
/// before the start range).
pub open spec fn spec_group(ranges: Seq<InstanceRange>, group_edges: Seq<u32>, i: int) -> Result<InstanceGroup, DecoratorError> {
    let s = group_edges[i];
    let e = group_edges[i + 1];
    match first_starting_at(ranges, s, ranges.len()) {
        None => Err(DecoratorError::BoundsStartNotFound { group: i as usize }),
        Some(a) => match first_ending_at(ranges, e, ranges.len()) {
            None => Err(DecoratorError::BoundsEndNotFound { group: i as usize }),
            Some(b) => if a > b + 1 {
                Err(DecoratorError::BoundsNotFound { group: i as usize })
            } else {
                Ok(InstanceGroup { instance_start: s, instance_count: (e - s) as u32, first_range: a as usize, end_range: (b + 1) as usize })
            },
        },
    }
}

/// The groups of the first `k` windows of `group_edges`, or the first error.
pub open spec fn spec_groups(
    ranges: Seq<InstanceRange>,
    group_edges: Seq<u32>,
    k: nat,
) -> Result<Seq<InstanceGroup>, DecoratorError>
    decreases k,
{
    if k == 0 {
        Ok(Seq::empty())
    } else {
        match spec_groups(ranges, group_edges, (k - 1) as nat) {
            Err(e) => Err(e),
            Ok(prev) => match spec_group(ranges, group_edges, k - 1) {
                Err(e) => Err(e),
                Ok(g) => Ok(prev.push(g)),
            },
        }
    }
}

/// The instance ranges and groups of a decorator, or the first error: the
/// ranges first, then the groups.
pub open spec fn spec_decorator_layout(
    range_edges: Seq<u32>,
    range_to_bounds: Seq<u32>,
    bounds_count: nat,
    group_edges: Seq<u32>,
) -> Result<(Seq<InstanceRange>, Seq<InstanceGroup>), DecoratorError> {
    match spec_ranges(range_edges, range_to_bounds, bounds_count, window_count(range_edges.len())) {
        Err(e) => Err(e),
        Ok(ranges) => match spec_groups(ranges, group_edges, window_count(group_edges.len())) {
            Err(e) => Err(e),
            Ok(groups) => Ok((ranges, groups)),
        },
    }
}

/// Whether the group edges never go down (a group's count is its end minus
/// its start).
pub open spec fn edges_ascending(edges: Seq<u32>) -> bool {
    forall|i: int| 0 <= i < edges.len() - 1 ==> #[trigger] edges[i] <= edges[i + 1]
}

proof fn lemma_ranges_err_stays(edges: Seq<u32>, to_bounds: Seq<u32>, bounds_count: nat, k: nat, n: nat)
    requires
        k <= n,
        spec_ranges(edges, to_bounds, bounds_count, k) is Err,
    ensures
        spec_ranges(edges, to_bounds, bounds_count, n) == spec_ranges(edges, to_bounds, bounds_count, k),
    decreases n - k,
{
    if n > k {
        lemma_ranges_err_stays(edges, to_bounds, bounds_count, k, (n - 1) as nat);
    }
}

proof fn lemma_groups_err_stays(ranges: Seq<InstanceRange>, group_edges: Seq<u32>, k: nat, n: nat)
    requires
        k <= n,
        spec_groups(ranges, group_edges, k) is Err,
    ensures
        spec_groups(ranges, group_edges, n) == spec_groups(ranges, group_edges, k),
    decreases n - k,
{
    if n > k {
        lemma_groups_err_stays(ranges, group_edges, k, (n - 1) as nat);
    }
}

fn find_start(ranges: &Vec<InstanceRange>, s: u32) -> (r: Option<usize>)
    ensures
        r matches Some(j) ==> first_starting_at(ranges@, s, ranges@.len()) == Some(j as nat),
        r is None ==> first_starting_at(ranges@, s, ranges@.len()) is None,
{
    let mut j: usize = 0;
    while j < ranges.len()
        invariant
            j <= ranges@.len(),
            first_starting_at(ranges@, s, j as nat) is None,
        decreases ranges@.len() - j,
    {
        if ranges[j].start == s {
            proof {
                lemma_first_start_stays(ranges@, s, (j + 1) as nat, ranges@.len());
            }
            return Some(j);
        }
        j = j + 1;
    }
    None
}

proof fn lemma_first_start_stays(ranges: Seq<InstanceRange>, s: u32, k: nat, n: nat)
    requires
        k <= n <= ranges.len(),
        first_starting_at(ranges, s, k) is Some,
    ensures
        first_starting_at(ranges, s, n) == first_starting_at(ranges, s, k),
    decreases n - k,
{
    if n > k {
        lemma_first_start_stays(ranges, s, k, (n - 1) as nat);
    }
}

proof fn lemma_first_end_stays(ranges: Seq<InstanceRange>, e: u32, k: nat, n: nat)
    requires
        k <= n <= ranges.len(),
        first_ending_at(ranges, e, k) is Some,
    ensures
        first_ending_at(ranges, e, n) == first_ending_at(ranges, e, k),
    decreases n - k,
{
    if n > k {
        lemma_first_end_stays(ranges, e, k, (n - 1) as nat);
    }
}

fn find_end(ranges: &Vec<InstanceRange>, e: u32) -> (r: Option<usize>)
    ensures
        r matches Some(j) ==> first_ending_at(ranges@, e, ranges@.len()) == Some(j as nat) && j < ranges@.len(),
        r is None ==> first_ending_at(ranges@, e, ranges@.len()) is None,
{
    let mut j: usize = 0;
    while j < ranges.len()
        invariant
            j <= ranges@.len(),
            first_ending_at(ranges@, e, j as nat) is None,
        decreases ranges@.len() - j,
    {
        if ranges[j].end == e {
            proof {
                lemma_first_end_stays(ranges@, e, (j + 1) as nat, ranges@.len());
            }
            return Some(j);
        }
        j = j + 1;
    }
    None
}

/// Builds the instance ranges of a decorator (each window of
/// `range_edges` with the occlusion bound `range_to_bounds` gives it, which
/// must be one of `bounds_count`) and its instance groups (each window of
/// `group_edges`, culled by the ranges from the first that starts where it
/// starts to the first that ends where it ends).
pub fn decorator_layout(
    range_edges: &Vec<u32>,
    range_to_bounds: &Vec<u32>,
    bounds_count: usize,
    group_edges: &Vec<u32>,
) -> (r: Result<DecoratorLayout, DecoratorError>)
    requires
        edges_ascending(group_edges@),
    ensures
        match (r, spec_decorator_layout(range_edges@, range_to_bounds@, bounds_count as nat, group_edges@)) {
            (Ok(l), Ok((ranges, groups))) => l.ranges@ == ranges && l.groups@ == groups,
            (Err(e), Err(e2)) => e == e2,
            _ => false,
        },
{
    let mut ranges: Vec<InstanceRange> = Vec::new();
    let nr: usize = if range_edges.len() < 2 { 0 } else { range_edges.len() - 1 };
    let mut i: usize = 0;
    while i < nr
        invariant
            nr == window_count(range_edges@.len()),
            i <= nr,
            spec_ranges(range_edges@, range_to_bounds@, bounds_count as nat, i as nat) == Ok::<
                Seq<InstanceRange>,
                DecoratorError,
            >(ranges@),
        decreases nr - i,
    {
        if i >= range_to_bounds.len() {
            proof {
                lemma_ranges_err_stays(range_edges@, range_to_bounds@, bounds_count as nat, (i + 1) as nat, nr as nat);
            }
            return Err(DecoratorError::InvalidBoundsMapping { range: i });
        }
        let b = range_to_bounds[i];
        if b as usize >= bounds_count {
            proof {
                lemma_ranges_err_stays(range_edges@, range_to_bounds@, bounds_count as nat, (i + 1) as nat, nr as nat);
            }
            return Err(DecoratorError::InvalidBoundsIndex { range: i });
        }
        ranges.push(InstanceRange { start: range_edges[i], end: range_edges[i + 1], bounds_index: b });
        i = i + 1;
    }
    let mut groups: Vec<InstanceGroup> = Vec::new();
    let ng: usize = if group_edges.len() < 2 { 0 } else { group_edges.len() - 1 };
    let mut k: usize = 0;
    while k < ng
        invariant
            ng == window_count(group_edges@.len()),
            k <= ng,
            edges_ascending(group_edges@),
            spec_ranges(range_edges@, range_to_bounds@, bounds_count as nat, nr as nat) == Ok::<
                Seq<InstanceRange>,
                DecoratorError,
            >(ranges@),
            nr == window_count(range_edges@.len()),
            spec_groups(ranges@, group_edges@, k as nat) == Ok::<Seq<InstanceGroup>, DecoratorError>(groups@),
        decreases ng - k,
    {
        let s = group_edges[k];
        let e = group_edges[k + 1];
        assert(group_edges@[k as int] <= group_edges@[k + 1]);
        let ghost sg = spec_group(ranges@, group_edges@, k as int);
        let range_count = ranges.len();
        let r = match find_start(&ranges, s) {
            Some(a) => match find_end(&ranges, e) {
                Some(b) => {
                    assert(b < range_count);
                    if a > b + 1 {
                        Err(DecoratorError::BoundsNotFound { group: k })
                    } else {
                        Ok(InstanceGroup { instance_start: s, instance_count: e - s, first_range: a, end_range: b + 1 })
                    }
                },
                None => Err(DecoratorError::BoundsEndNotFound { group: k }),
            },
            None => Err(DecoratorError::BoundsStartNotFound { group: k }),
        };
        assert(r == sg);
        let g = match r {
            Ok(g) => g,
            Err(err) => {
                proof {
                    lemma_groups_err_stays(ranges@, group_edges@, (k + 1) as nat, ng as nat);
                }
                return Err(err);
            },
        };
        groups.push(g);
        k = k + 1;
    }
    Ok(DecoratorLayout { ranges, groups })
}

} // verus!
