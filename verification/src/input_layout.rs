use vstd::prelude::*;
use crate::text::push_decimal;

verus! {

/// The vertex input semantics, by the number a layout element stores.
pub open spec fn semantic_names() -> Seq<Seq<char>> {
    seq!["POSITION"@, "BLENDWEIGHT"@, "BLENDINDICES"@, "NORMAL"@, "PSIZE"@, "TEXCOORD"@, "TANGENT"@, "BINORMAL"@, "COLOR"@]
}

/// The HLSL type and the size in bytes of each vertex element format, by the
/// number a layout element stores.
pub open spec fn element_formats() -> Seq<(Seq<char>, u32)> {
    seq![(""@, 0u32), ("float"@, 4u32), ("float2"@, 8u32), ("float3"@, 12u32), ("float4"@, 16u32), ("float4"@, 4u32), ("uint4"@, 4u32), ("int2"@, 4u32), ("int4"@, 8u32), ("uint4"@, 8u32), ("float2"@, 4u32), ("float4"@, 8u32), ("float2"@, 4u32), ("float4"@, 8u32), ("int4"@, 4u32), ("float4"@, 4u32), ("uint4"@, 4u32), ("float4"@, 4u32), ("int"@, 4u32), ("int2"@, 8u32), ("int4"@, 16u32), ("int"@, 4u32), ("int2"@, 8u32), ("int4"@, 16u32), ("int"@, 2u32), ("float"@, 1u32), (""@, 0u32), (""@, 0u32), (""@, 0u32), (""@, 0u32), (""@, 0u32), ("float4"@, 4u32), ("float3"@, 4u32), ("float4"@, 8u32)]
}

/// The semantic name of an element.
pub fn input_semantic_name(semantic: u32) -> (r: &'static str)
    requires
        semantic < 9,
    ensures
        r@ == semantic_names()[semantic as int],
{
    let names: Vec<&'static str> = vec!["POSITION", "BLENDWEIGHT", "BLENDINDICES", "NORMAL", "PSIZE", "TEXCOORD", "TANGENT", "BINORMAL", "COLOR"];
    assert(names@.map_values(|s: &str| s@) =~= semantic_names());
    let r = names[semantic as usize];
    assert(r@ == names@.map_values(|s: &str| s@)[semantic as int]);
    r
}

/// The HLSL type and size in bytes of an element format.
pub fn input_format(format: u32) -> (r: (&'static str, u32))
    requires
        format < 34,
    ensures
        r.0@ == element_formats()[format as int].0,
        r.1 == element_formats()[format as int].1,
{
    let formats: Vec<(&'static str, u32)> = vec![("", 0u32), ("float", 4u32), ("float2", 8u32), ("float3", 12u32), ("float4", 16u32), ("float4", 4u32), ("uint4", 4u32), ("int2", 4u32), ("int4", 8u32), ("uint4", 8u32), ("float2", 4u32), ("float4", 8u32), ("float2", 4u32), ("float4", 8u32), ("int4", 4u32), ("float4", 4u32), ("uint4", 4u32), ("float4", 4u32), ("int", 4u32), ("int2", 8u32), ("int4", 16u32), ("int", 4u32), ("int2", 8u32), ("int4", 16u32), ("int", 2u32), ("float", 1u32), ("", 0u32), ("", 0u32), ("", 0u32), ("", 0u32), ("", 0u32), ("float4", 4u32), ("float3", 4u32), ("float4", 8u32)];
    assert(formats@.map_values(|f: (&str, u32)| (f.0@, f.1)) =~= element_formats());
    let r = formats[format as usize];
    assert((r.0@, r.1) == formats@.map_values(|f: (&str, u32)| (f.0@, f.1))[format as int]);
    r
}

/// The depth state and stencil state that each depth-stencil state index
/// combines.
pub open spec fn depth_stencil_combos() -> Seq<(usize, usize)> {
    seq![(0usize, 0usize), (1usize, 1usize), (2usize, 1usize), (7usize, 1usize), (2usize, 2usize), (1usize, 3usize), (1usize, 4usize), (2usize, 5usize), (2usize, 6usize), (2usize, 9usize), (2usize, 10usize), (2usize, 11usize), (2usize, 12usize), (4usize, 1usize), (5usize, 1usize), (3usize, 1usize), (6usize, 1usize), (3usize, 16usize), (8usize, 16usize), (3usize, 17usize), (3usize, 18usize), (6usize, 19usize), (6usize, 27usize), (3usize, 19usize), (3usize, 25usize), (3usize, 27usize), (5usize, 20usize), (2usize, 21usize), (3usize, 21usize), (3usize, 24usize), (3usize, 26usize), (1usize, 29usize), (1usize, 18usize), (1usize, 19usize), (9usize, 1usize), (10usize, 1usize), (3usize, 30usize), (11usize, 31usize), (1usize, 31usize), (1usize, 32usize), (1usize, 33usize), (3usize, 33usize), (2usize, 33usize), (5usize, 32usize), (3usize, 32usize), (3usize, 6usize), (3usize, 10usize), (3usize, 11usize), (3usize, 12usize), (3usize, 9usize), (12usize, 34usize), (1usize, 35usize), (3usize, 28usize), (6usize, 28usize), (12usize, 16usize), (12usize, 37usize), (8usize, 36usize), (3usize, 38usize), (1usize, 38usize), (3usize, 39usize), (1usize, 39usize), (3usize, 20usize), (1usize, 20usize), (3usize, 40usize), (3usize, 8usize), (2usize, 8usize), (1usize, 2usize), (1usize, 8usize), (3usize, 7usize), (3usize, 23usize), (3usize, 13usize), (3usize, 14usize), (3usize, 15usize), (1usize, 41usize), (1usize, 42usize), (1usize, 43usize), (1usize, 44usize), (1usize, 45usize), (1usize, 46usize), (1usize, 47usize), (1usize, 48usize), (1usize, 26usize), (2usize, 22usize)]
}

/// The number of depth-stencil state combinations.
pub const DEPTH_STENCIL_COMBO_COUNT: usize = 83;

/// The depth state and stencil state of depth-stencil state `index`.
pub fn depth_stencil_combo(index: usize) -> (r: (usize, usize))
    requires
        index < DEPTH_STENCIL_COMBO_COUNT,
    ensures
        r == depth_stencil_combos()[index as int],
{
    let combos: Vec<(usize, usize)> = vec![(0usize, 0usize), (1usize, 1usize), (2usize, 1usize), (7usize, 1usize), (2usize, 2usize), (1usize, 3usize), (1usize, 4usize), (2usize, 5usize), (2usize, 6usize), (2usize, 9usize), (2usize, 10usize), (2usize, 11usize), (2usize, 12usize), (4usize, 1usize), (5usize, 1usize), (3usize, 1usize), (6usize, 1usize), (3usize, 16usize), (8usize, 16usize), (3usize, 17usize), (3usize, 18usize), (6usize, 19usize), (6usize, 27usize), (3usize, 19usize), (3usize, 25usize), (3usize, 27usize), (5usize, 20usize), (2usize, 21usize), (3usize, 21usize), (3usize, 24usize), (3usize, 26usize), (1usize, 29usize), (1usize, 18usize), (1usize, 19usize), (9usize, 1usize), (10usize, 1usize), (3usize, 30usize), (11usize, 31usize), (1usize, 31usize), (1usize, 32usize), (1usize, 33usize), (3usize, 33usize), (2usize, 33usize), (5usize, 32usize), (3usize, 32usize), (3usize, 6usize), (3usize, 10usize), (3usize, 11usize), (3usize, 12usize), (3usize, 9usize), (12usize, 34usize), (1usize, 35usize), (3usize, 28usize), (6usize, 28usize), (12usize, 16usize), (12usize, 37usize), (8usize, 36usize), (3usize, 38usize), (1usize, 38usize), (3usize, 39usize), (1usize, 39usize), (3usize, 20usize), (1usize, 20usize), (3usize, 40usize), (3usize, 8usize), (2usize, 8usize), (1usize, 2usize), (1usize, 8usize), (3usize, 7usize), (3usize, 23usize), (3usize, 13usize), (3usize, 14usize), (3usize, 15usize), (1usize, 41usize), (1usize, 42usize), (1usize, 43usize), (1usize, 44usize), (1usize, 45usize), (1usize, 46usize), (1usize, 47usize), (1usize, 48usize), (1usize, 26usize), (2usize, 22usize)];
    assert(combos@ =~= depth_stencil_combos());
    combos[index]
}

/// An element of a vertex element set, as the render globals store it.
#[derive(Clone, Copy, Debug, PartialEq, Eq, Structural)]
pub struct ElementDesc {
    pub semantic: u32,
    pub semantic_index: u32,
    pub format: u32,
}

/// An element of an input layout: its HLSL type, format number and size,
/// its semantic, the vertex buffer it reads and whether it advances per
/// instance.
#[derive(Clone, Copy, Debug, PartialEq, Eq)]
pub struct LayoutElement {
    pub hlsl_type: &'static str,
    pub format: u32,
    pub stride: u32,
    pub semantic_name: &'static str,
    pub semantic_index: u32,
    pub buffer_index: u32,
    pub is_instance_data: bool,
}

pub type LayoutElementView = (Seq<char>, u32, u32, Seq<char>, u32, u32, bool);

pub open spec fn element_view(e: LayoutElement) -> LayoutElementView {
    (e.hlsl_type@, e.format, e.stride, e.semantic_name@, e.semantic_index, e.buffer_index, e.is_instance_data)
}

pub open spec fn elements_view(v: Seq<LayoutElement>) -> Seq<LayoutElementView> {
    v.map_values(|e: LayoutElement| element_view(e))
}

/// The layout element that `d` of vertex buffer `buffer` becomes.
pub open spec fn spec_element(d: ElementDesc, buffer: int, instanced: bool) -> LayoutElementView {
    (
        element_formats()[d.format as int].0,
        d.format,
        element_formats()[d.format as int].1,
        semantic_names()[d.semantic as int],
        d.semantic_index,
        buffer as u32,
        instanced,
    )
}

/// Whether each used buffer names an element set, and every element of those
/// sets has a known semantic and format.
pub open spec fn layout_valid(buffers: Seq<(u32, bool)>, sets: Seq<Vec<ElementDesc>>) -> bool {
    forall|b: int| #![trigger buffers[b]]
        0 <= b < buffers.len() && buffers[b].0 != u32::MAX ==> {
            &&& (buffers[b].0 as int) < sets.len()
            &&& forall|k: int| #![trigger sets[buffers[b].0 as int]@[k]]
                0 <= k < sets[buffers[b].0 as int]@.len() ==> sets[buffers[b].0 as int]@[k].semantic < 9
                    && sets[buffers[b].0 as int]@[k].format < 34
        }
}

/// The elements of the first `n` buffers of a layout, buffer by buffer.
pub open spec fn spec_layout_elements(buffers: Seq<(u32, bool)>, sets: Seq<Vec<ElementDesc>>, n: nat) -> Seq<LayoutElementView>
    decreases n,
{
    if n == 0 {
        Seq::empty()
    } else {
        let prev = spec_layout_elements(buffers, sets, (n - 1) as nat);
        let (set, instanced) = buffers[n - 1];
        if set == u32::MAX {
            prev
        } else {
            prev + sets[set as int]@.map_values(|d: ElementDesc| spec_element(d, n - 1, instanced))
        }
    }
}

/// The elements of a streamed input layout: for each of its four vertex
/// buffers in turn, the elements of the set it reads; unused buffers add
/// nothing.
pub fn layout_elements(buffers: [(u32, bool); 4], sets: &Vec<Vec<ElementDesc>>) -> (r: Vec<LayoutElement>)
    requires
        layout_valid(buffers@, sets@),
    ensures
        elements_view(r@) == spec_layout_elements(buffers@, sets@, 4),
{
    let mut r: Vec<LayoutElement> = Vec::new();
    let mut b: usize = 0;
    while b < 4
        invariant
            b <= 4,
            buffers@.len() == 4,
            layout_valid(buffers@, sets@),
            elements_view(r@) == spec_layout_elements(buffers@, sets@, b as nat),
        decreases 4 - b,
    {
        let (set, instanced) = buffers[b];
        assert(buffers@[b as int] == (set, instanced));
        if set != u32::MAX {
            let elements = &sets[set as usize];
            let ghost before = elements_view(r@);
            let mut k: usize = 0;
            while k < elements.len()
                invariant
                    b < 4,
                    buffers@.len() == 4,
                    buffers@[b as int] == (set, instanced),
                    set != u32::MAX,
                    (set as int) < sets@.len(),
                    elements == sets@[set as int],
                    layout_valid(buffers@, sets@),
                    k <= elements@.len(),
                    elements_view(r@) == before + elements@.subrange(0, k as int).map_values(
                        |d: ElementDesc| spec_element(d, b as int, instanced),
                    ),
                decreases elements@.len() - k,
            {
                let d = elements[k];
                assert(d == sets@[set as int]@[k as int]);
                let (hlsl_type, stride) = input_format(d.format);
                let e = LayoutElement {
                    hlsl_type,
                    format: d.format,
                    stride,
                    semantic_name: input_semantic_name(d.semantic),
                    semantic_index: d.semantic_index,
                    buffer_index: b as u32,
                    is_instance_data: instanced,
                };
                assert(element_view(e) == spec_element(d, b as int, instanced));
                let ghost prev_r = r@;
                r.push(e);
                assert(elements_view(r@) =~= elements_view(prev_r).push(element_view(e)));
                assert(elements@.subrange(0, k + 1).map_values(|d: ElementDesc| spec_element(d, b as int, instanced))
                    =~= elements@.subrange(0, k as int).map_values(|d: ElementDesc| spec_element(d, b as int, instanced)).push(
                    spec_element(d, b as int, instanced)));
                assert(elements_view(r@) =~= before + elements@.subrange(0, k + 1).map_values(
                    |d: ElementDesc| spec_element(d, b as int, instanced),
                ));
                k = k + 1;
            }
            assert(elements@.subrange(0, elements@.len() as int) =~= elements@);
        }
        b = b + 1;
    }
    r
}

/// The text of the declarations of the first `n` elements, each as
/// `<type> v<i> : <semantic><index>; `.
pub open spec fn spec_element_declarations(v: Seq<LayoutElementView>, n: nat) -> Seq<char>
    decreases n,
{
    if n == 0 {
        Seq::empty()
    } else {
        let e = v[n - 1];
        spec_element_declarations(v, (n - 1) as nat) + e.0 + " v"@ + crate::text::decimal((n - 1) as nat) + " : "@
            + e.3 + crate::text::decimal(e.4 as nat) + "; "@
    }
}

/// The HLSL source of the vertex shader an input layout is checked against:
/// an input struct with one member per element, and a shader that reads it.
pub open spec fn spec_vertex_declaration_source(v: Seq<LayoutElementView>) -> Seq<char> {
    "struct s_vs_in { "@ + spec_element_declarations(v, v.len())
        + "};  float4 vs(s_vs_in input) : SV_POSITION { return float4(0, 0, 0, 0); }"@
}

/// The HLSL source of the vertex shader an input layout is checked against.
pub fn vertex_declaration_source(elements: &Vec<LayoutElement>) -> (r: String)
    requires
        elements@.len() <= u64::MAX,
    ensures
        r@ == spec_vertex_declaration_source(elements_view(elements@)),
{
    let ghost v = elements_view(elements@);
    let mut s = String::from_str("struct s_vs_in { ");
    let mut i: usize = 0;
    while i < elements.len()
        invariant
            i <= elements@.len(),
            elements@.len() <= u64::MAX,
            v == elements_view(elements@),
            s@ == "struct s_vs_in { "@ + spec_element_declarations(v, i as nat),
        decreases elements@.len() - i,
    {
        let e = elements[i];
        assert(element_view(e) == v[i as int]);
        s.append(e.hlsl_type);
        s.append(" v");
        push_decimal(&mut s, i as u64);
        s.append(" : ");
        s.append(e.semantic_name);
        push_decimal(&mut s, e.semantic_index as u64);
        s.append("; ");
        assert(s@ =~= "struct s_vs_in { "@ + spec_element_declarations(v, (i + 1) as nat));
        i = i + 1;
    }
    s.append("};  float4 vs(s_vs_in input) : SV_POSITION { return float4(0, 0, 0, 0); }");
    assert(s@ =~= spec_vertex_declaration_source(v));
    s
}

} // verus!
