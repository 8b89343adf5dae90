use alkahest::debug_text::{atlas_index, layout_debug_strings, DebugString, DebugTextAlign, GlyphQuad};
use alkahest::input_layout::{
    depth_stencil_combo, input_format, input_semantic_name, layout_elements, vertex_declaration_source,
    ElementDesc, LayoutElement, DEPTH_STENCIL_COMBO_COUNT,
};

#[test]
fn element_tables() {
    assert_eq!(input_semantic_name(0), "POSITION");
    assert_eq!(input_semantic_name(5), "TEXCOORD");
    assert_eq!(input_semantic_name(8), "COLOR");
    assert_eq!(input_format(0), ("", 0));
    assert_eq!(input_format(3), ("float3", 12));
    assert_eq!(input_format(5), ("float4", 4));
    assert_eq!(input_format(24), ("int", 2));
    assert_eq!(input_format(33), ("float4", 8));
    assert_eq!(DEPTH_STENCIL_COMBO_COUNT, 83);
    assert_eq!(depth_stencil_combo(0), (0, 0));
    assert_eq!(depth_stencil_combo(11), (2, 0xb));
    assert_eq!(depth_stencil_combo(82), (2, 0x16));
}

#[test]
fn streamed_layout_elements() {
    let sets = vec![
        vec![
            ElementDesc { semantic: 0, semantic_index: 0, format: 3 },
            ElementDesc { semantic: 3, semantic_index: 0, format: 11 },
        ],
        vec![ElementDesc { semantic: 5, semantic_index: 1, format: 12 }],
    ];
    let els = layout_elements([(0, false), (u32::MAX, false), (1, true), (u32::MAX, true)], &sets);
    assert_eq!(
        els,
        vec![
            LayoutElement {
                hlsl_type: "float3",
                format: 3,
                stride: 12,
                semantic_name: "POSITION",
                semantic_index: 0,
                buffer_index: 0,
                is_instance_data: false,
            },
            LayoutElement {
                hlsl_type: "float4",
                format: 11,
                stride: 8,
                semantic_name: "NORMAL",
                semantic_index: 0,
                buffer_index: 0,
                is_instance_data: false,
            },
            LayoutElement {
                hlsl_type: "float2",
                format: 12,
                stride: 4,
                semantic_name: "TEXCOORD",
                semantic_index: 1,
                buffer_index: 2,
                is_instance_data: true,
            },
        ]
    );
    assert_eq!(
        vertex_declaration_source(&els),
        "struct s_vs_in { float3 v0 : POSITION0; float4 v1 : NORMAL0; float2 v2 : TEXCOORD1; };  \
         float4 vs(s_vs_in input) : SV_POSITION { return float4(0, 0, 0, 0); }"
    );
    assert!(layout_elements([(u32::MAX, false); 4], &sets).is_empty());
}

fn debug(text: &str, position: (i32, i32), align: DebugTextAlign) -> DebugString {
    DebugString { text: text.to_string(), position, color: [1, 2, 3, 4], align }
}

fn cells(glyphs: &[GlyphQuad]) -> Vec<(i32, i32, char)> {
    glyphs
        .iter()
        .map(|g| (g.x, g.y, char::from_u32(g.atlas + 33).unwrap()))
        .collect()
}

#[test]
fn debug_text_top_left() {
    let g = layout_debug_strings(&vec![debug("ab c\nd", (2, 1), DebugTextAlign::TopLeft)], 100, 40);
    assert_eq!(cells(&g), vec![(2, 1, 'a'), (3, 1, 'b'), (5, 1, 'c'), (2, 2, 'd')]);
    assert!(g.iter().all(|q| q.color == [1, 2, 3, 4]));
}

#[test]
fn debug_text_anchored_corners() {
    // Width is the byte length (3), height the line count (2).
    let s = vec![
        debug("x\ny", (0, 0), DebugTextAlign::BottomRight),
        debug("z", (-1, 0), DebugTextAlign::TopRight),
        debug("w\n", (0, 0), DebugTextAlign::BottomLeft),
    ];
    let g = layout_debug_strings(&s, 100, 40);
    assert_eq!(cells(&g), vec![(97, 38, 'x'), (97, 39, 'y'), (98, 0, 'z'), (0, 39, 'w')]);
}

#[test]
fn debug_text_skips_whitespace_and_unknown_glyphs() {
    let g = layout_debug_strings(&vec![debug("a\tb é", (0, 0), DebugTextAlign::TopLeft)], 10, 10);
    assert_eq!(g.len(), 3);
    assert_eq!((g[0].x, g[1].x, g[2].x), (0, 2, 4));
    assert_eq!(g[2].atlas, atlas_index('?'));
    assert!(layout_debug_strings(&vec![], 10, 10).is_empty());
}
