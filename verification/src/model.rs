use vstd::prelude::*;

verus! {

/// The material variants of a dynamic model part: a run of
/// `technique_count` techniques starting at `technique_start`.
#[derive(Clone, Copy, Debug, PartialEq, Eq, Structural)]
pub struct MaterialVariants {
    pub technique_start: u32,
    pub technique_count: u32,
    pub unk8: u32,
}

/// The number of variants of a model: the technique count of its first
/// variant run whose `unk8` is zero, or 1 when there is none.
pub open spec fn spec_permutation_count(map: Seq<MaterialVariants>) -> nat
    decreases map.len(),
{
    if map.len() == 0 {
        1
    } else if map[0].unk8 == 0 {
        map[0].technique_count as nat
    } else {
        spec_permutation_count(map.drop_first())
    }
}

pub fn permutation_count(technique_map: &Vec<MaterialVariants>) -> (r: usize)
    ensures
        r == spec_permutation_count(technique_map@),
{
    let mut i: usize = 0;
    assert(technique_map@.skip(0) =~= technique_map@);
    while i < technique_map.len()
        invariant
            i <= technique_map@.len(),
            spec_permutation_count(technique_map@) == spec_permutation_count(technique_map@.skip(i as int)),
        decreases technique_map@.len() - i,
    {
        assert(technique_map@.skip(i as int).drop_first() =~= technique_map@.skip(i + 1));
        if technique_map[i].unk8 == 0 {
            return technique_map[i].technique_count as usize;
        }
        i = i + 1;
    }
    1
}

/// The index of the technique that variant `permutation` of the part with
/// variant run `index` uses; `u16::MAX` and indices past the map name no run.
pub open spec fn spec_permutation_technique(map: Seq<MaterialVariants>, index: u16, permutation: nat) -> Option<nat> {
    if index == u16::MAX || index as int >= map.len() {
        None
    } else {
        let v = map[index as int];
        Some((v.technique_start + permutation % (v.technique_count as nat)) as nat)
    }
}

/// Whether the variant run `index` names, if any, is non-empty and the
/// technique that variant `permutation` picks from it is one of the `n`
/// techniques.
pub open spec fn variant_in_bounds(map: Seq<MaterialVariants>, index: u16, permutation: nat, n: nat) -> bool {
    index != u16::MAX && (index as int) < map.len() ==> {
        let v = map[index as int];
        v.technique_count > 0 && v.technique_start + permutation % (v.technique_count as nat) < n
    }
}

/// The technique that variant `permutation_count` of the part with variant
/// run `index` is drawn with: the variants wrap around the run.
pub fn get_permutation_technique<'a, T>(
    technique_map: &Vec<MaterialVariants>,
    techniques: &'a Vec<T>,
    index: u16,
    permutation_count: usize,
) -> (r: Option<&'a T>)
    requires
        variant_in_bounds(technique_map@, index, permutation_count as nat, techniques@.len()),
    ensures
        r == (match spec_permutation_technique(technique_map@, index, permutation_count as nat) {
            Some(k) => Some(&techniques@[k as int]),
            None => None,
        }),
{
    if index == u16::MAX {
        None
    } else if (index as usize) < technique_map.len() {
        let v = technique_map[index as usize];
        let count = v.technique_count as usize;
        assert(v == technique_map@[index as int]);
        assert(v.technique_count > 0);
        let m = permutation_count % count;
        let n = techniques.len();
        assert(v.technique_start + m < n);
        let k = v.technique_start as usize + m;
        Some(&techniques[k])
    } else {
        None
    }
}

/// What drawing reads of a part of a mesh: its external identifier,
/// whether it is of the highest level of detail, and the scopes used by its
/// technique and by its variant technique (each 0 when that technique is
/// missing or not loaded).
#[derive(Clone, Copy, Debug, PartialEq, Eq, Structural)]
pub struct PartDrawInfo {
    pub external_identifier: u16,
    pub highest_detail: bool,
    pub technique_scopes: u64,
    pub variant_scopes: u64,
}

/// What drawing reads of a mesh for one render stage: whether the mesh
/// subscribes to the stage, the range of its parts for the stage, and its
/// parts.
pub struct MeshDrawInfo {
    pub stage_subscribed: bool,
    pub part_start: usize,
    pub part_end: usize,
    pub parts: Vec<PartDrawInfo>,
}

/// Whether a part is drawn for the identifier asked for (`u16::MAX` asks for
/// every identifier): it must match, be of the highest detail, and its
/// techniques together must use some scope (no technique, no draw).
pub open spec fn part_drawn(p: PartDrawInfo, identifier: u16) -> bool {
    &&& identifier == u16::MAX || p.external_identifier == identifier
    &&& p.highest_detail
    &&& p.technique_scopes | p.variant_scopes != 0
}

/// The parts `part_start..j` of mesh `mesh_index` that are drawn, as
/// (mesh, part, scopes used) triples.
pub open spec fn spec_mesh_parts(m: MeshDrawInfo, mesh_index: nat, identifier: u16, j: int) -> Seq<(usize, usize, u64)>
    decreases j - m.part_start,
{
    if j <= m.part_start {
        Seq::empty()
    } else {
        let prev = spec_mesh_parts(m, mesh_index, identifier, j - 1);
        if part_drawn(m.parts@[j - 1], identifier) {
            prev.push((mesh_index as usize, (j - 1) as usize, m.parts@[j - 1].technique_scopes | m.parts@[j - 1].variant_scopes))
        } else {
            prev
        }
    }
}

/// The parts drawn from the first `n` meshes, mesh by mesh, each with the
/// scopes its techniques use; meshes that do not subscribe to the stage draw
/// nothing.
pub open spec fn spec_draw_parts(meshes: Seq<MeshDrawInfo>, identifier: u16, n: nat) -> Seq<(usize, usize, u64)>
    decreases n,
{
    if n == 0 {
        Seq::empty()
    } else {
        let m = meshes[n - 1];
        spec_draw_parts(meshes, identifier, (n - 1) as nat) + if m.stage_subscribed {
            spec_mesh_parts(m, (n - 1) as nat, identifier, m.part_end as int)
        } else {
            Seq::empty()
        }
    }
}

/// Whether the stage's part range of every subscribed mesh lies in its parts.
pub open spec fn part_ranges_valid(meshes: Seq<MeshDrawInfo>) -> bool {
    forall|i: int| #![trigger meshes[i]]
        0 <= i < meshes.len() && meshes[i].stage_subscribed && meshes[i].part_start < meshes[i].part_end
            ==> meshes[i].part_end <= meshes[i].parts@.len()
}

/// The parts a dynamic model draws for one stage, in order, with the scopes
/// their techniques use: for each mesh that subscribes to the stage, the
/// parts of the stage's range that have the requested identifier
/// (`u16::MAX` for any), the highest detail, and techniques that use some
/// scope.
pub fn draw_parts(meshes: &Vec<MeshDrawInfo>, identifier: u16) -> (r: Vec<(usize, usize, u64)>)
    requires
        part_ranges_valid(meshes@),
    ensures
        r@ == spec_draw_parts(meshes@, identifier, meshes@.len()),
{
    let mut r: Vec<(usize, usize, u64)> = Vec::new();
    let mut i: usize = 0;
    while i < meshes.len()
        invariant
            i <= meshes@.len(),
            part_ranges_valid(meshes@),
            r@ == spec_draw_parts(meshes@, identifier, i as nat),
        decreases meshes@.len() - i,
    {
        let m = &meshes[i];
        if m.stage_subscribed {
            let ghost before = r@;
            let mut j: usize = m.part_start;
            while j < m.part_end
                invariant
                    i < meshes@.len(),
                    *m == meshes@[i as int],
                    m.stage_subscribed,
                    m.part_start <= j,
                    j <= m.part_end || j == m.part_start,
                    m.part_start < m.part_end ==> m.part_end <= m.parts@.len(),
                    r@ == before + spec_mesh_parts(*m, i as nat, identifier, j as int),
                decreases m.part_end - j,
            {
                let p = m.parts[j];
                let scopes = p.technique_scopes | p.variant_scopes;
                if (identifier == u16::MAX || p.external_identifier == identifier) && p.highest_detail && scopes != 0 {
                    r.push((i, j, scopes));
                }
                j = j + 1;
            }
            assert(j == m.part_end || m.part_start >= m.part_end);
            if m.part_start >= m.part_end {
                assert(spec_mesh_parts(*m, i as nat, identifier, m.part_end as int) =~= Seq::empty());
                assert(spec_mesh_parts(*m, i as nat, identifier, j as int) =~= Seq::empty());
            }
        } else {
            assert(r@ =~= r@ + Seq::<(usize, usize, u64)>::empty());
        }
        i = i + 1;
    }
    r
}

} // verus!
