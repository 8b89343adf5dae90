use vstd::prelude::*;

verus! {

/// The number of command list sets an ordered parallel submission uses.
pub const LINEAR_SUBMIT_SETS: usize = 3;

/// One job of an ordered parallel submission: the objects `start..end`, to
/// be recorded into command list `list_index` of set `cmd_set`.
#[derive(Clone, Copy, Debug, PartialEq, Eq, Structural)]
pub struct SubmitChunk {
    pub chunk_idx: usize,
    pub start: usize,
    pub end: usize,
    pub cmd_set: usize,
    pub list_index: usize,
}

pub open spec fn spec_num_jobs(num_threads: nat) -> nat {
    (num_threads * LINEAR_SUBMIT_SETS) as nat
}

/// Objects per job: the object count divided by the job count, rounded up.
pub open spec fn spec_chunk_size(object_count: nat, num_threads: nat) -> nat {
    let jobs = spec_num_jobs(num_threads);
    ((object_count + jobs - 1) / jobs as int) as nat
}

pub open spec fn spec_min(a: int, b: int) -> int {
    if a < b {
        a
    } else {
        b
    }
}

/// The job with index `k`, whether or not it has objects.
pub open spec fn spec_chunk(object_count: nat, num_threads: nat, k: nat) -> SubmitChunk {
    let cs = spec_chunk_size(object_count, num_threads);
    SubmitChunk {
        chunk_idx: k as usize,
        start: (k * cs) as usize,
        end: spec_min(((k + 1) * cs) as int, object_count as int) as usize,
        cmd_set: (k / num_threads) as usize,
        list_index: (k % num_threads) as usize,
    }
}

/// The jobs among the first `k` that have objects, in order.
pub open spec fn spec_chunks_upto(object_count: nat, num_threads: nat, k: nat) -> Seq<SubmitChunk>
    decreases k,
{
    if k == 0 {
        Seq::empty()
    } else {
        let prev = spec_chunks_upto(object_count, num_threads, (k - 1) as nat);
        let c = spec_chunk(object_count, num_threads, (k - 1) as nat);
        let cs = spec_chunk_size(object_count, num_threads);
        if (k - 1) * cs < spec_min((k * cs) as int, object_count as int) {
            prev.push(c)
        } else {
            prev
        }
    }
}

/// Splits `object_count` objects, in order, into at most three jobs per
/// worker thread of (almost) equal size; jobs without objects are left out.
pub fn linear_submit_chunks(object_count: usize, num_threads: usize) -> (r: Vec<SubmitChunk>)
    requires
        num_threads > 0,
        num_threads * LINEAR_SUBMIT_SETS + object_count <= usize::MAX,
    ensures
        r@ == spec_chunks_upto(
            object_count as nat,
            num_threads as nat,
            spec_num_jobs(num_threads as nat),
        ),
{
    let num_jobs = num_threads * LINEAR_SUBMIT_SETS;
    let chunk_size = (object_count + num_jobs - 1) / num_jobs;
    let ghost cs = spec_chunk_size(object_count as nat, num_threads as nat);
    assert(chunk_size == cs);
    assert(chunk_size <= object_count) by (nonlinear_arith)
        requires
            chunk_size == (object_count + num_jobs - 1) / (num_jobs as int),
            num_jobs >= 1,
    {
        if object_count == 0 {
        } else {
            assert((object_count + num_jobs - 1) / (num_jobs as int) <= (object_count + num_jobs - 1) / 1);
        }
    };
    let mut chunks: Vec<SubmitChunk> = Vec::new();
    let mut chunk_idx: usize = 0;
    while chunk_idx < num_jobs
        invariant
            num_jobs == num_threads * LINEAR_SUBMIT_SETS,
            num_threads > 0,
            num_jobs + object_count <= usize::MAX,
            chunk_size == cs,
            cs == spec_chunk_size(object_count as nat, num_threads as nat),
            chunk_size <= object_count,
            chunk_idx <= num_jobs,
            chunks@ == spec_chunks_upto(object_count as nat, num_threads as nat, chunk_idx as nat),
        decreases num_jobs - chunk_idx,
    {
        proof {
            if chunk_size > 0 {
                lemma_chunk_bound(object_count as int, num_jobs as int, chunk_size as int, chunk_idx as int);
            }
        }
        assert(chunk_idx * chunk_size <= (chunk_idx + 1) * chunk_size) by (nonlinear_arith);
        assert((chunk_idx + 1) * chunk_size <= usize::MAX) by (nonlinear_arith)
            requires
                chunk_size == 0 || (chunk_idx + 1) * chunk_size <= object_count + num_jobs,
                num_jobs + object_count <= usize::MAX,
        ;
        let start = chunk_idx * chunk_size;
        let end_raw = (chunk_idx + 1) * chunk_size;
        let end = if end_raw < object_count {
            end_raw
        } else {
            object_count
        };
        if start < end {
            chunks.push(
                SubmitChunk {
                    chunk_idx,
                    start,
                    end,
                    cmd_set: chunk_idx / num_threads,
                    list_index: chunk_idx % num_threads,
                },
            );
        }
        chunk_idx = chunk_idx + 1;
    }
    chunks
}

/// `(k + 1) * chunk_size` stays within `object_count + num_jobs` for every job.
proof fn lemma_chunk_bound(object_count: int, num_jobs: int, chunk_size: int, k: int)
    requires
        num_jobs >= 1,
        0 <= k < num_jobs,
        chunk_size >= 1,
        object_count >= 0,
        chunk_size == (object_count + num_jobs - 1) / num_jobs,
    ensures
        (k + 1) * chunk_size <= object_count + num_jobs,
{
    assert((k + 1) * chunk_size <= num_jobs * chunk_size) by (nonlinear_arith)
        requires
            k + 1 <= num_jobs,
            chunk_size >= 1,
    ;
    assert(num_jobs * chunk_size <= object_count + num_jobs - 1) by (nonlinear_arith)
        requires
            num_jobs >= 1,
            chunk_size == (object_count + num_jobs - 1) / num_jobs,
    ;
}


/// How many jobs get objects: the object count divided by the chunk size,
/// rounded up.
pub open spec fn spec_busy_jobs(object_count: nat, num_threads: nat) -> nat {
    let cs = spec_chunk_size(object_count, num_threads);
    if cs == 0 {
        0
    } else {
        ((object_count + cs - 1) / cs as int) as nat
    }
}

/// A job has objects exactly when its first object exists.
proof fn lemma_busy_iff(n: nat, t: nat, k: nat)
    requires
        t > 0,
    ensures
        ({
            let cs = spec_chunk_size(n, t);
            (k * cs < spec_min(((k + 1) * cs) as int, n as int)) <==> k < spec_busy_jobs(n, t)
        }),
{
    let cs = spec_chunk_size(n, t);
    let jobs = spec_num_jobs(t);
    assert(jobs >= 1);
    if n == 0 {
        assert(cs == 0) by (nonlinear_arith)
            requires
                cs == ((n + jobs - 1) / jobs as int),
                n == 0,
                jobs >= 1,
        ;
    } else {
        assert(cs >= 1) by (nonlinear_arith)
            requires
                cs == ((n + jobs - 1) / jobs as int),
                n >= 1,
                jobs >= 1,
        ;
        assert(k * cs < (k + 1) * cs) by (nonlinear_arith)
            requires
                cs >= 1,
        ;
        let m = spec_busy_jobs(n, t);
        assert((k * cs < n) <==> k < m) by (nonlinear_arith)
            requires
                cs >= 1,
                m == (n + cs - 1) / (cs as int),
        ;
    }
}

/// Every busy job index is a job index.
proof fn lemma_busy_le_jobs(n: nat, t: nat)
    requires
        t > 0,
    ensures
        spec_busy_jobs(n, t) <= spec_num_jobs(t),
        n > 0 ==> spec_busy_jobs(n, t) >= 1,
        n == 0 ==> spec_busy_jobs(n, t) == 0,
        n > 0 ==> (spec_busy_jobs(n, t) - 1) * spec_chunk_size(n, t) < n,
        n > 0 ==> spec_busy_jobs(n, t) * spec_chunk_size(n, t) >= n,
{
    let cs = spec_chunk_size(n, t);
    let jobs = spec_num_jobs(t);
    let m = spec_busy_jobs(n, t);
    if n > 0 {
        assert(cs >= 1 && jobs * cs >= n) by (nonlinear_arith)
            requires
                cs == ((n + jobs - 1) / jobs as int),
                n >= 1,
                jobs >= 1,
        ;
        assert(m <= jobs && m >= 1 && (m - 1) * cs < n && m * cs >= n) by (nonlinear_arith)
            requires
                cs >= 1,
                jobs * cs >= n,
                n >= 1,
                m == (n + cs - 1) / (cs as int),
        ;
    } else {
        assert(cs == 0) by (nonlinear_arith)
            requires
                cs == ((n + jobs - 1) / jobs as int),
                n == 0,
                jobs >= 1,
        ;
    }
}

proof fn lemma_chunks_prefix(n: nat, t: nat, k: nat)
    requires
        t > 0,
    ensures
        spec_chunks_upto(n, t, k) == Seq::new(
            if k < spec_busy_jobs(n, t) { k } else { spec_busy_jobs(n, t) },
            |i: int| spec_chunk(n, t, i as nat),
        ),
    decreases k,
{
    if k > 0 {
        lemma_chunks_prefix(n, t, (k - 1) as nat);
        lemma_busy_iff(n, t, (k - 1) as nat);
        assert(spec_chunks_upto(n, t, k) =~= Seq::new(
            if k < spec_busy_jobs(n, t) { k } else { spec_busy_jobs(n, t) },
            |i: int| spec_chunk(n, t, i as nat),
        ));
    } else {
        assert(spec_chunks_upto(n, t, k) =~= Seq::new(0, |i: int| spec_chunk(n, t, i as nat)));
    }
}

/// Ordered parallel submission hands every object to exactly one job, in
/// order: the jobs' ranges are non-empty, start at 0, follow each other and
/// end at the object count; each job records into its own command list.
pub proof fn lemma_chunks_partition(object_count: nat, num_threads: nat)
    requires
        num_threads > 0,
        num_threads * LINEAR_SUBMIT_SETS + object_count <= usize::MAX,
    ensures
        ({
            let r = spec_chunks_upto(object_count, num_threads, spec_num_jobs(num_threads));
            &&& (r.len() == 0 <==> object_count == 0)
            &&& r.len() > 0 ==> r[0].start == 0 && r.last().end == object_count
            &&& forall|i: int| 0 <= i < r.len() ==> (#[trigger] r[i]).start < r[i].end
            &&& forall|i: int| 0 <= i < r.len() - 1 ==> (#[trigger] r[i]).end == r[i + 1].start
            &&& forall|i: int| 0 <= i < r.len() ==> (#[trigger] r[i]).cmd_set < LINEAR_SUBMIT_SETS
                && r[i].list_index < num_threads
            &&& forall|i: int, j: int| 0 <= i < j < r.len() ==> ((#[trigger] r[i]).cmd_set, r[i].list_index)
                != ((#[trigger] r[j]).cmd_set, r[j].list_index)
        }),
{
    let n = object_count;
    let t = num_threads;
    let jobs = spec_num_jobs(t);
    let cs = spec_chunk_size(n, t);
    let m = spec_busy_jobs(n, t);
    lemma_busy_le_jobs(n, t);
    lemma_chunks_prefix(n, t, jobs);
    let r = spec_chunks_upto(n, t, jobs);
    assert(r.len() == m);
    assert forall|i: int| 0 <= i < r.len() implies (#[trigger] r[i]).start < r[i].end by {
        lemma_busy_iff(n, t, i as nat);
    }
    assert forall|i: int| 0 <= i < r.len() - 1 implies (#[trigger] r[i]).end == r[i + 1].start by {
        lemma_busy_iff(n, t, (i + 1) as nat);
        assert((i + 1) * cs < (i + 2) * cs || cs == 0) by (nonlinear_arith);
    }
    assert forall|i: int| 0 <= i < r.len() implies (#[trigger] r[i]).cmd_set < LINEAR_SUBMIT_SETS
        && r[i].list_index < t by {
        assert(i / (t as int) < 3 && i % (t as int) < t) by (nonlinear_arith)
            requires
                0 <= i < jobs,
                jobs == t * 3,
                t > 0,
        ;
    }
    assert forall|i: int, j: int| 0 <= i < j < r.len() implies ((#[trigger] r[i]).cmd_set, r[i].list_index)
        != ((#[trigger] r[j]).cmd_set, r[j].list_index) by {
        vstd::arithmetic::div_mod::lemma_fundamental_div_mod(i, t as int);
        vstd::arithmetic::div_mod::lemma_fundamental_div_mod(j, t as int);
    }
    if n > 0 {
        assert(r[0].start == 0);
        assert(r.last().end == n) by {
            let l = (m - 1) as nat;
            assert(r.last() == spec_chunk(n, t, l));
        }
    }
}

/// A frame node: whether the object passed culling, and its arena index.
#[derive(Clone, Copy, Debug, PartialEq, Eq, Structural)]
pub struct FrameNode {
    pub visible: bool,
    pub handle: crate::object::ArenaIndex,
}

/// What stage submission reads of a live render object: the generation of
/// its slot, the stages it subscribes to (one bit per stage) and the feature
/// renderer it belongs to (a bit position).
#[derive(Clone, Copy, Debug, PartialEq, Eq, Structural)]
pub struct RenderObjectSlot {
    pub generation: u32,
    pub stages: u64,
    pub feature_type: u32,
}

/// The object an arena index names: the occupant of its slot, if the
/// generations agree.
pub open spec fn spec_lookup(
    objects: Seq<Option<RenderObjectSlot>>,
    h: crate::object::ArenaIndex,
) -> Option<RenderObjectSlot> {
    if (h.slot as int) < objects.len() && objects[h.slot as int] is Some
        && objects[h.slot as int]->0.generation == h.generation {
        objects[h.slot as int]
    } else {
        None
    }
}

/// Whether an object takes part in the stage with bit `stage_bit` under the
/// feature mask `features`.
pub open spec fn spec_takes_part(o: RenderObjectSlot, stage_bit: u32, features: u32) -> bool {
    &&& (o.stages >> stage_bit) & 1 == 1
    &&& o.feature_type < 32
    &&& (features >> o.feature_type) & 1 == 1
}

/// The handles, in node order, of the objects of `nodes` that a stage
/// submission records: the node is visible (or hidden nodes are included),
/// its object is alive and takes part in the stage and the features.
pub open spec fn spec_stage_selection(
    nodes: Seq<FrameNode>,
    objects: Seq<Option<RenderObjectSlot>>,
    stage_bit: u32,
    features: u32,
    include_hidden: bool,
) -> Seq<crate::object::ArenaIndex>
    decreases nodes.len(),
{
    if nodes.len() == 0 {
        Seq::empty()
    } else {
        let n = nodes.last();
        let before = spec_stage_selection(nodes.drop_last(), objects, stage_bit, features, include_hidden);
        let o = spec_lookup(objects, n.handle);
        if (n.visible || include_hidden) && o is Some && spec_takes_part(o->0, stage_bit, features) {
            before.push(n.handle)
        } else {
            before
        }
    }
}

fn lookup(objects: &Vec<Option<RenderObjectSlot>>, h: crate::object::ArenaIndex) -> (r: Option<RenderObjectSlot>)
    ensures
        r == spec_lookup(objects@, h),
{
    let slot = h.slot as usize;
    if slot < objects.len() {
        match objects[slot] {
            Some(o) => if o.generation == h.generation {
                Some(o)
            } else {
                None
            },
            None => None,
        }
    } else {
        None
    }
}

/// The objects that a submission of one render stage records, for the frame
/// nodes `start..end`: the active feature renderers are narrowed to the
/// requested ones, and a node is kept when it is visible (or hidden nodes
/// are included, as for shadow map generation) and its object subscribes to
/// the stage and belongs to a kept feature renderer.
pub fn select_stage_objects(
    nodes: &Vec<FrameNode>,
    start: usize,
    end: usize,
    objects: &Vec<Option<RenderObjectSlot>>,
    stage_bit: u32,
    active_features: u32,
    features: u32,
    include_hidden: bool,
) -> (r: Vec<crate::object::ArenaIndex>)
    requires
        start <= end <= nodes@.len(),
        stage_bit < 64,
    ensures
        r@ == spec_stage_selection(
            nodes@.subrange(start as int, end as int),
            objects@,
            stage_bit,
            active_features & features,
            include_hidden,
        ),
{
    let features = active_features & features;
    let mut r: Vec<crate::object::ArenaIndex> = Vec::new();
    if features == 0 {
        proof {
            lemma_no_features_selects_nothing(nodes@.subrange(start as int, end as int), objects@, stage_bit, include_hidden);
        }
        return r;
    }
    let mut i: usize = start;
    while i < end
        invariant
            start <= i <= end <= nodes@.len(),
            stage_bit < 64,
            r@ == spec_stage_selection(nodes@.subrange(start as int, i as int), objects@, stage_bit, features, include_hidden),
        decreases end - i,
    {
        let n = nodes[i];
        let ghost prefix = nodes@.subrange(start as int, i + 1);
        assert(prefix.drop_last() =~= nodes@.subrange(start as int, i as int));
        assert(prefix.last() == n);
        if n.visible || include_hidden {
            match lookup(objects, n.handle) {
                Some(o) => {
                    if (o.stages >> stage_bit) & 1 == 1 && o.feature_type < 32 && (features >> o.feature_type) & 1 == 1 {
                        r.push(n.handle);
                    }
                },
                None => {},
            }
        }
        i = i + 1;
    }
    r
}

proof fn lemma_no_features_selects_nothing(
    nodes: Seq<FrameNode>,
    objects: Seq<Option<RenderObjectSlot>>,
    stage_bit: u32,
    include_hidden: bool,
)
    ensures
        spec_stage_selection(nodes, objects, stage_bit, 0, include_hidden) =~= Seq::<crate::object::ArenaIndex>::empty(),
    decreases nodes.len(),
{
    if nodes.len() > 0 {
        lemma_no_features_selects_nothing(nodes.drop_last(), objects, stage_bit, include_hidden);
        let o = spec_lookup(objects, nodes.last().handle);
        if o is Some && o->0.feature_type < 32 {
            let ft = o->0.feature_type;
            assert((0u32 >> ft) & 1 == 0) by (bit_vector);
        }
    }
}

/// Selection respects order: selecting from two consecutive runs of nodes
/// gives, one after the other, what selecting from the whole run gives. So
/// submitting consecutive chunks in chunk order records the objects in node
/// order.
pub proof fn lemma_selection_concat(
    a: Seq<FrameNode>,
    b: Seq<FrameNode>,
    objects: Seq<Option<RenderObjectSlot>>,
    stage_bit: u32,
    features: u32,
    include_hidden: bool,
)
    ensures
        spec_stage_selection(a + b, objects, stage_bit, features, include_hidden) == spec_stage_selection(
            a,
            objects,
            stage_bit,
            features,
            include_hidden,
        ) + spec_stage_selection(b, objects, stage_bit, features, include_hidden),
    decreases b.len(),
{
    if b.len() == 0 {
        assert(a + b =~= a);
        assert(spec_stage_selection(a, objects, stage_bit, features, include_hidden) + Seq::empty() =~= spec_stage_selection(
            a,
            objects,
            stage_bit,
            features,
            include_hidden,
        ));
    } else {
        lemma_selection_concat(a, b.drop_last(), objects, stage_bit, features, include_hidden);
        assert((a + b).drop_last() =~= a + b.drop_last());
        assert((a + b).last() == b.last());
        let sa = spec_stage_selection(a, objects, stage_bit, features, include_hidden);
        let sb = spec_stage_selection(b.drop_last(), objects, stage_bit, features, include_hidden);
        assert((sa + sb).push(b.last().handle) =~= sa + sb.push(b.last().handle));
    }
}

/// What one job of an ordered parallel submission records from its share of
/// the selected handles: those whose object is alive and still takes part in
/// the stage and the features, in order.
pub open spec fn spec_job_objects(
    handles: Seq<crate::object::ArenaIndex>,
    objects: Seq<Option<RenderObjectSlot>>,
    stage_bit: u32,
    features: u32,
) -> Seq<crate::object::ArenaIndex>
    decreases handles.len(),
{
    if handles.len() == 0 {
        Seq::empty()
    } else {
        let prev = spec_job_objects(handles.drop_last(), objects, stage_bit, features);
        let h = handles.last();
        let o = spec_lookup(objects, h);
        if o is Some && spec_takes_part(o->0, stage_bit, features) {
            prev.push(h)
        } else {
            prev
        }
    }
}

/// The objects one job of an ordered parallel submission records: the
/// handles `start..end` of the selection whose object is alive and takes
/// part in the stage and the features.
pub fn job_objects(
    handles: &Vec<crate::object::ArenaIndex>,
    start: usize,
    end: usize,
    objects: &Vec<Option<RenderObjectSlot>>,
    stage_bit: u32,
    features: u32,
) -> (r: Vec<crate::object::ArenaIndex>)
    requires
        start <= end <= handles@.len(),
        stage_bit < 64,
    ensures
        r@ == spec_job_objects(handles@.subrange(start as int, end as int), objects@, stage_bit, features),
{
    let mut r: Vec<crate::object::ArenaIndex> = Vec::new();
    let mut i: usize = start;
    while i < end
        invariant
            start <= i <= end <= handles@.len(),
            stage_bit < 64,
            r@ == spec_job_objects(handles@.subrange(start as int, i as int), objects@, stage_bit, features),
        decreases end - i,
    {
        let h = handles[i];
        let ghost prefix = handles@.subrange(start as int, i + 1);
        assert(prefix.drop_last() =~= handles@.subrange(start as int, i as int));
        assert(prefix.last() == h);
        match lookup(objects, h) {
            Some(o) => {
                if (o.stages >> stage_bit) & 1 == 1 && o.feature_type < 32 && (features >> o.feature_type) & 1 == 1 {
                    r.push(h);
                }
            },
            None => {},
        }
        i = i + 1;
    }
    r
}

/// What the jobs `0..k` record together, one job after the other.
pub open spec fn spec_jobs_record(
    selection: Seq<crate::object::ArenaIndex>,
    chunks: Seq<SubmitChunk>,
    objects: Seq<Option<RenderObjectSlot>>,
    stage_bit: u32,
    features: u32,
    k: nat,
) -> Seq<crate::object::ArenaIndex>
    decreases k,
{
    if k == 0 {
        Seq::empty()
    } else {
        let c = chunks[k - 1];
        spec_jobs_record(selection, chunks, objects, stage_bit, features, (k - 1) as nat) + spec_job_objects(
            selection.subrange(c.start as int, c.end as int),
            objects,
            stage_bit,
            features,
        )
    }
}

proof fn lemma_selection_takes_part(
    nodes: Seq<FrameNode>,
    objects: Seq<Option<RenderObjectSlot>>,
    stage_bit: u32,
    features: u32,
    include_hidden: bool,
)
    ensures
        ({
            let sel = spec_stage_selection(nodes, objects, stage_bit, features, include_hidden);
            forall|i: int| 0 <= i < sel.len() ==> (#[trigger] spec_lookup(objects, sel[i])) is Some
                && spec_takes_part(spec_lookup(objects, sel[i])->0, stage_bit, features)
        }),
    decreases nodes.len(),
{
    if nodes.len() > 0 {
        lemma_selection_takes_part(nodes.drop_last(), objects, stage_bit, features, include_hidden);
    }
}

proof fn lemma_recheck_keeps_all(
    handles: Seq<crate::object::ArenaIndex>,
    objects: Seq<Option<RenderObjectSlot>>,
    stage_bit: u32,
    features: u32,
)
    requires
        forall|i: int| 0 <= i < handles.len() ==> (#[trigger] spec_lookup(objects, handles[i])) is Some
            && spec_takes_part(spec_lookup(objects, handles[i])->0, stage_bit, features),
    ensures
        spec_job_objects(handles, objects, stage_bit, features) == handles,
    decreases handles.len(),
{
    if handles.len() > 0 {
        let prev = handles.drop_last();
        assert forall|i: int| 0 <= i < prev.len() implies (#[trigger] spec_lookup(objects, prev[i])) is Some
            && spec_takes_part(spec_lookup(objects, prev[i])->0, stage_bit, features) by {
            assert(prev[i] == handles[i]);
        }
        lemma_recheck_keeps_all(prev, objects, stage_bit, features);
        assert(spec_lookup(objects, handles[handles.len() - 1]) is Some);
        assert(prev.push(handles.last()) =~= handles);
    }
}

proof fn lemma_chunk_ends_bounded(r: Seq<SubmitChunk>)
    requires
        r.len() > 0,
        forall|i: int| 0 <= i < r.len() ==> (#[trigger] r[i]).start < r[i].end,
        forall|i: int| 0 <= i < r.len() - 1 ==> (#[trigger] r[i]).end == r[i + 1].start,
    ensures
        forall|i: int| 0 <= i < r.len() ==> (#[trigger] r[i]).end <= r.last().end,
    decreases r.len(),
{
    if r.len() > 1 {
        let p = r.drop_last();
        assert forall|i: int| 0 <= i < p.len() implies (#[trigger] p[i]).start < p[i].end by {
            assert(p[i] == r[i]);
        }
        assert forall|i: int| 0 <= i < p.len() - 1 implies (#[trigger] p[i]).end == p[i + 1].start by {
            assert(p[i] == r[i] && p[i + 1] == r[i + 1]);
        }
        lemma_chunk_ends_bounded(p);
        assert forall|i: int| 0 <= i < r.len() implies (#[trigger] r[i]).end <= r.last().end by {
            if i < r.len() - 1 {
                assert(p[i] == r[i]);
                assert(p.last() == r[r.len() - 2]);
                assert(r[r.len() - 2].end == r[r.len() - 1].start);
            }
        }
    }
}

proof fn lemma_jobs_record_prefix(
    selection: Seq<crate::object::ArenaIndex>,
    chunks: Seq<SubmitChunk>,
    objects: Seq<Option<RenderObjectSlot>>,
    stage_bit: u32,
    features: u32,
    k: nat,
)
    requires
        1 <= k <= chunks.len(),
        chunks[0].start == 0,
        forall|i: int| 0 <= i < chunks.len() ==> (#[trigger] chunks[i]).start < chunks[i].end,
        forall|i: int| 0 <= i < chunks.len() - 1 ==> (#[trigger] chunks[i]).end == chunks[i + 1].start,
        forall|i: int| 0 <= i < chunks.len() ==> (#[trigger] chunks[i]).end <= selection.len(),
        forall|i: int| 0 <= i < selection.len() ==> (#[trigger] spec_lookup(objects, selection[i])) is Some
            && spec_takes_part(spec_lookup(objects, selection[i])->0, stage_bit, features),
    ensures
        spec_jobs_record(selection, chunks, objects, stage_bit, features, k) == selection.subrange(
            0,
            chunks[k - 1].end as int,
        ),
    decreases k,
{
    let c = chunks[k - 1];
    let part = selection.subrange(c.start as int, c.end as int);
    assert forall|i: int| 0 <= i < part.len() implies (#[trigger] spec_lookup(objects, part[i])) is Some
        && spec_takes_part(spec_lookup(objects, part[i])->0, stage_bit, features) by {
        assert(part[i] == selection[c.start + i]);
    }
    lemma_recheck_keeps_all(part, objects, stage_bit, features);
    if k == 1 {
        assert(spec_jobs_record(selection, chunks, objects, stage_bit, features, 0) =~= Seq::empty());
        assert(Seq::<crate::object::ArenaIndex>::empty() + part =~= part);
    } else {
        lemma_jobs_record_prefix(selection, chunks, objects, stage_bit, features, (k - 1) as nat);
        assert(chunks[k - 2].end == c.start);
        assert(selection.subrange(0, chunks[k - 2].end as int) + part =~= selection.subrange(0, c.end as int));
    }
}

/// Ordered parallel submission records what a single-threaded submission
/// would: the jobs over the chunks of the selection, one after the other,
/// record every selected object once and in frame-node order.
pub proof fn lemma_linear_submission_in_order(
    nodes: Seq<FrameNode>,
    objects: Seq<Option<RenderObjectSlot>>,
    stage_bit: u32,
    features: u32,
    num_threads: nat,
)
    requires
        num_threads > 0,
        num_threads * LINEAR_SUBMIT_SETS + spec_stage_selection(nodes, objects, stage_bit, features, false).len()
            <= usize::MAX,
    ensures
        ({
            let sel = spec_stage_selection(nodes, objects, stage_bit, features, false);
            let chunks = spec_chunks_upto(sel.len(), num_threads, spec_num_jobs(num_threads));
            spec_jobs_record(sel, chunks, objects, stage_bit, features, chunks.len()) == sel
        }),
{
    let sel = spec_stage_selection(nodes, objects, stage_bit, features, false);
    let chunks = spec_chunks_upto(sel.len(), num_threads, spec_num_jobs(num_threads));
    lemma_chunks_partition(sel.len(), num_threads);
    lemma_selection_takes_part(nodes, objects, stage_bit, features, false);
    if chunks.len() == 0 {
        assert(sel =~= Seq::<crate::object::ArenaIndex>::empty());
    } else {
        lemma_chunk_ends_bounded(chunks);
        lemma_jobs_record_prefix(sel, chunks, objects, stage_bit, features, chunks.len());
        assert(sel.subrange(0, sel.len() as int) =~= sel);
    }
}

/// The number of views a frame node keeps a visibility bit for.
pub const MAX_VIEWS: usize = 32;

/// The visibility bits of a node after culling view `view_index`: unchanged
/// when its object is gone; otherwise the view's bit is set when the object
/// belongs to a requested feature renderer and its visibility test passed
/// (`test_passed`), and cleared when not.
pub open spec fn spec_culled_mask(
    mask: u32,
    object: Option<RenderObjectSlot>,
    view_index: usize,
    features: u32,
    test_passed: bool,
) -> u32 {
    match object {
        None => mask,
        Some(o) => if o.feature_type < 32 && (features >> o.feature_type) & 1 == 1 && test_passed {
            mask | (1u32 << view_index)
        } else {
            mask & !(1u32 << view_index)
        },
    }
}

/// Culls view `view_index` (one of `MAX_VIEWS`): updates each node's
/// visibility bit for the view, given the result of each node's visibility
/// test. Returns false, changing nothing, for a view index out of range.
pub fn cull_view(
    masks: &mut Vec<u32>,
    handles: &Vec<crate::object::ArenaIndex>,
    objects: &Vec<Option<RenderObjectSlot>>,
    view_index: usize,
    features: u32,
    tests: &Vec<bool>,
) -> (ran: bool)
    requires
        old(masks)@.len() == handles@.len(),
        tests@.len() == handles@.len(),
    ensures
        ran == (view_index < MAX_VIEWS),
        !ran ==> final(masks)@ == old(masks)@,
        final(masks)@.len() == old(masks)@.len(),
        ran ==> forall|i: int| 0 <= i < handles@.len() ==> #[trigger] final(masks)@[i] == spec_culled_mask(
            old(masks)@[i],
            spec_lookup(objects@, handles@[i]),
            view_index,
            features,
            tests@[i],
        ),
{
    if view_index >= MAX_VIEWS {
        return false;
    }
    let bit: u32 = 1u32 << view_index;
    let mut i: usize = 0;
    while i < masks.len()
        invariant
            view_index < MAX_VIEWS,
            bit == 1u32 << view_index,
            masks@.len() == old(masks)@.len(),
            masks@.len() == handles@.len(),
            tests@.len() == handles@.len(),
            i <= masks@.len(),
            forall|k: int| i <= k < masks@.len() ==> #[trigger] masks@[k] == old(masks)@[k],
            forall|k: int| 0 <= k < i ==> #[trigger] masks@[k] == spec_culled_mask(
                old(masks)@[k],
                spec_lookup(objects@, handles@[k]),
                view_index,
                features,
                tests@[k],
            ),
        decreases masks@.len() - i,
    {
        match lookup(objects, handles[i]) {
            Some(o) => {
                let m = masks[i];
                if o.feature_type < 32 && (features >> o.feature_type) & 1 == 1 && tests[i] {
                    masks.set(i, m | bit);
                } else {
                    masks.set(i, m & !bit);
                }
            },
            None => {},
        }
        i = i + 1;
    }
    true
}

/// The render stages the renderer submits.
#[derive(Clone, Copy, Debug, PartialEq, Eq, Structural)]
pub enum RenderStage {
    GenerateGbuffer,
    DepthPrepass,
    Decals,
    DecalsAdditive,
    Transparents,
    Distortion,
    LightProbeApply,
    LightingApply,
    ShadowGenerate,
    Cubemaps,
    Volumetrics,
    WaterReflection,
}

/// Whether a stage submits the objects of hidden frame nodes too: shadow
/// maps are generated for objects the view culled.
pub fn includes_hidden_nodes(stage: RenderStage) -> (r: bool)
    ensures
        r == (stage == RenderStage::ShadowGenerate),
{
    match stage {
        RenderStage::ShadowGenerate => true,
        _ => false,
    }
}

/// The objects a submission of `stage` (whose subscription bit is
/// `stage_bit`) records for the frame nodes `start..end`: visible nodes, or
/// every node for shadow generation, whose object subscribes to the stage
/// and belongs to an active, requested feature renderer.
pub fn stage_range_objects(
    nodes: &Vec<FrameNode>,
    start: usize,
    end: usize,
    objects: &Vec<Option<RenderObjectSlot>>,
    stage: RenderStage,
    stage_bit: u32,
    active_features: u32,
    features: u32,
) -> (r: Vec<crate::object::ArenaIndex>)
    requires
        start <= end <= nodes@.len(),
        stage_bit < 64,
    ensures
        r@ == spec_stage_selection(
            nodes@.subrange(start as int, end as int),
            objects@,
            stage_bit,
            active_features & features,
            stage == RenderStage::ShadowGenerate,
        ),
{
    let include_hidden = includes_hidden_nodes(stage);
    select_stage_objects(nodes, start, end, objects, stage_bit, active_features, features, include_hidden)
}

} // verus!
