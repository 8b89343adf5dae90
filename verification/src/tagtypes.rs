use vstd::prelude::*;
use crate::text::push_decimal;

verus! {

/// Package format versions that decide how a file type/subtype pair is read.
#[derive(Clone, Copy, Debug, PartialEq, Eq, Structural)]
pub enum PackageVersion {
    Destiny2Shadowkeep,
    Destiny2BeyondLight,
    Destiny2WitchQueen,
    Destiny2Lightfall,
    /// Any version that has no type table of its own.
    Other,
}

/// The kind of data a package entry holds, as told by its type and subtype.
#[derive(Clone, Copy, Debug, PartialEq, Eq, Structural)]
pub enum TagType {
    Texture2D { is_header: bool },
    TextureCube { is_header: bool },
    Texture3D { is_header: bool },
    TextureSampler { is_header: bool },
    TextureLargeBuffer,

    VertexBuffer { is_header: bool },
    IndexBuffer { is_header: bool },
    ConstantBuffer { is_header: bool },
    PixelShader { is_header: bool },
    VertexShader { is_header: bool },
    ComputeShader { is_header: bool },

    WwiseBank,
    WwiseStream,

    Havok,
    UmbraTome,
    CriwareUsm,

    Tag,
    TagGlobal,

    Unknown { ftype: u8, fsubtype: u8 },
}

/// The color a tag type is shown in.
#[derive(Clone, Copy, Debug, PartialEq, Eq, Structural)]
pub enum DisplayColor {
    Green,
    LightBlue,
    Yellow,
    Gray,
    LightRed,
    Rgb(u8, u8, u8),
}

/// Types 32..=34 are header entries, their data entries are 40..=42.
pub open spec fn spec_is_header_type(t: u8) -> bool {
    32 <= t <= 34
}

/// The resource kinds shared by every version, keyed by the subtype of a
/// texture/buffer (32, 40), shader (33, 41) or sampler (34, 42) entry.
pub open spec fn spec_resource_type(t: u8, st: u8) -> TagType
    recommends
        t == 32 || t == 40 || t == 33 || t == 41 || t == 34 || t == 42,
{
    let is_header = spec_is_header_type(t);
    if t == 32 || t == 40 {
        if st == 1 {
            TagType::Texture2D { is_header }
        } else if st == 2 {
            TagType::TextureCube { is_header }
        } else if st == 3 {
            TagType::Texture3D { is_header }
        } else if st == 4 {
            TagType::VertexBuffer { is_header }
        } else if st == 6 {
            TagType::IndexBuffer { is_header }
        } else if st == 7 {
            TagType::ConstantBuffer { is_header }
        } else {
            TagType::Unknown { ftype: t, fsubtype: st }
        }
    } else if t == 33 || t == 41 {
        if st == 0 {
            TagType::PixelShader { is_header }
        } else if st == 1 {
            TagType::VertexShader { is_header }
        } else if st == 6 {
            TagType::ComputeShader { is_header }
        } else {
            TagType::Unknown { ftype: t, fsubtype: st }
        }
    } else if st == 1 {
        TagType::TextureSampler { is_header }
    } else {
        TagType::Unknown { ftype: t, fsubtype: st }
    }
}

pub open spec fn spec_is_resource_type(t: u8) -> bool {
    t == 32 || t == 40 || t == 33 || t == 41 || t == 34 || t == 42
}

/// The type table of Shadowkeep packages.
pub open spec fn spec_from_type_subtype_sk(t: u8, st: u8) -> TagType {
    if t == 8 && st == 0 {
        TagType::Tag
    } else if t == 16 && st == 0 {
        TagType::TagGlobal
    } else if t == 26 && st == 5 {
        TagType::WwiseBank
    } else if t == 26 && st == 6 {
        TagType::WwiseStream
    } else if spec_is_resource_type(t) {
        spec_resource_type(t, st)
    } else {
        TagType::Unknown { ftype: t, fsubtype: st }
    }
}

/// The type table of Beyond Light, Witch Queen and Lightfall packages.
pub open spec fn spec_from_type_subtype_lf(t: u8, st: u8) -> TagType {
    if t == 8 && st == 0 {
        TagType::Tag
    } else if t == 16 && st == 0 {
        TagType::TagGlobal
    } else if t == 24 && st == 0 {
        TagType::UmbraTome
    } else if t == 26 && st == 6 {
        TagType::WwiseBank
    } else if t == 26 && st == 7 {
        TagType::WwiseStream
    } else if t == 27 && st == 0 {
        TagType::Havok
    } else if t == 27 && st == 1 {
        TagType::CriwareUsm
    } else if spec_is_resource_type(t) {
        spec_resource_type(t, st)
    } else if t == 48 && st == 1 {
        TagType::TextureLargeBuffer
    } else {
        TagType::Unknown { ftype: t, fsubtype: st }
    }
}

pub open spec fn spec_from_type_subtype(version: PackageVersion, t: u8, st: u8) -> TagType {
    match version {
        PackageVersion::Destiny2Shadowkeep => spec_from_type_subtype_sk(t, st),
        PackageVersion::Destiny2BeyondLight
        | PackageVersion::Destiny2WitchQueen
        | PackageVersion::Destiny2Lightfall => spec_from_type_subtype_lf(t, st),
        PackageVersion::Other => TagType::Unknown { ftype: t, fsubtype: st },
    }
}

impl TagType {
    pub open spec fn spec_is_texture(self) -> bool {
        self is Texture2D || self is TextureCube || self is Texture3D
    }

    pub open spec fn spec_display_color(self) -> DisplayColor {
        match self {
            TagType::Texture2D { .. }
            | TagType::TextureCube { .. }
            | TagType::Texture3D { .. }
            | TagType::TextureSampler { .. }
            | TagType::TextureLargeBuffer => DisplayColor::Green,
            TagType::VertexBuffer { .. }
            | TagType::IndexBuffer { .. }
            | TagType::ConstantBuffer { .. } => DisplayColor::LightBlue,
            TagType::PixelShader { .. }
            | TagType::VertexShader { .. }
            | TagType::ComputeShader { .. } => DisplayColor::Rgb(249, 168, 71),
            TagType::WwiseBank | TagType::WwiseStream => DisplayColor::Rgb(191, 106, 247),
            TagType::Havok | TagType::UmbraTome | TagType::CriwareUsm => DisplayColor::Yellow,
            TagType::Tag | TagType::TagGlobal => DisplayColor::Gray,
            TagType::Unknown { .. } => DisplayColor::LightRed,
        }
    }

    /// True for 2D, cube and 3D textures (samplers and large buffers are not).
    pub fn is_texture(&self) -> (r: bool)
        ensures
            r == self.spec_is_texture(),
    {
        match self {
            TagType::Texture2D { .. } | TagType::TextureCube { .. } | TagType::Texture3D {
                ..
            } => true,
            _ => false,
        }
    }

    /// The color the tag type is listed in.
    pub fn display_color(&self) -> (c: DisplayColor)
        ensures
            c == self.spec_display_color(),
    {
        match self {
            TagType::Texture2D { .. }
            | TagType::TextureCube { .. }
            | TagType::Texture3D { .. }
            | TagType::TextureSampler { .. }
            | TagType::TextureLargeBuffer => DisplayColor::Green,
            TagType::VertexBuffer { .. }
            | TagType::IndexBuffer { .. }
            | TagType::ConstantBuffer { .. } => DisplayColor::LightBlue,
            TagType::PixelShader { .. }
            | TagType::VertexShader { .. }
            | TagType::ComputeShader { .. } => DisplayColor::Rgb(249, 168, 71),
            TagType::WwiseBank | TagType::WwiseStream => DisplayColor::Rgb(191, 106, 247),
            TagType::Havok | TagType::UmbraTome | TagType::CriwareUsm => DisplayColor::Yellow,
            TagType::Tag | TagType::TagGlobal => DisplayColor::Gray,
            TagType::Unknown { .. } => DisplayColor::LightRed,
        }
    }

    fn resource_type(t: u8, st: u8) -> (r: TagType)
        requires
            spec_is_resource_type(t),
        ensures
            r == spec_resource_type(t, st),
    {
        let is_header = 32 <= t && t <= 34;
        if t == 32 || t == 40 {
            match st {
                1 => TagType::Texture2D { is_header },
                2 => TagType::TextureCube { is_header },
                3 => TagType::Texture3D { is_header },
                4 => TagType::VertexBuffer { is_header },
                6 => TagType::IndexBuffer { is_header },
                7 => TagType::ConstantBuffer { is_header },
                fsubtype => TagType::Unknown { ftype: t, fsubtype },
            }
        } else if t == 33 || t == 41 {
            match st {
                0 => TagType::PixelShader { is_header },
                1 => TagType::VertexShader { is_header },
                6 => TagType::ComputeShader { is_header },
                fsubtype => TagType::Unknown { ftype: t, fsubtype },
            }
        } else {
            match st {
                1 => TagType::TextureSampler { is_header },
                fsubtype => TagType::Unknown { ftype: t, fsubtype },
            }
        }
    }

    /// Classifies an entry of a Shadowkeep package.
    pub fn from_type_subtype_sk(t: u8, st: u8) -> (r: TagType)
        ensures
            r == spec_from_type_subtype_sk(t, st),
    {
        match (t, st) {
            (8, 0) => TagType::Tag,
            (16, 0) => TagType::TagGlobal,
            (26, 5) => TagType::WwiseBank,
            (26, 6) => TagType::WwiseStream,
            (32 | 40 | 33 | 41 | 34 | 42, _) => Self::resource_type(t, st),
            (ftype, fsubtype) => TagType::Unknown { ftype, fsubtype },
        }
    }

    /// Classifies an entry of a Beyond Light, Witch Queen or Lightfall package.
    pub fn from_type_subtype_lf(t: u8, st: u8) -> (r: TagType)
        ensures
            r == spec_from_type_subtype_lf(t, st),
    {
        match (t, st) {
            (8, 0) => TagType::Tag,
            (16, 0) => TagType::TagGlobal,
            (24, 0) => TagType::UmbraTome,
            (26, 6) => TagType::WwiseBank,
            (26, 7) => TagType::WwiseStream,
            (27, 0) => TagType::Havok,
            (27, 1) => TagType::CriwareUsm,
            (32 | 40 | 33 | 41 | 34 | 42, _) => Self::resource_type(t, st),
            (48, 1) => TagType::TextureLargeBuffer,
            (ftype, fsubtype) => TagType::Unknown { ftype, fsubtype },
        }
    }

    /// Classifies an entry with the type table of the given package version.
    pub fn from_type_subtype(version: PackageVersion, t: u8, st: u8) -> (r: TagType)
        ensures
            r == spec_from_type_subtype(version, t, st),
    {
        match version {
            PackageVersion::Destiny2Shadowkeep => Self::from_type_subtype_sk(t, st),
            PackageVersion::Destiny2BeyondLight
            | PackageVersion::Destiny2WitchQueen
            | PackageVersion::Destiny2Lightfall => Self::from_type_subtype_lf(t, st),
            PackageVersion::Other => TagType::Unknown { ftype: t, fsubtype: st },
        }
    }
}


/// `" (Data)"` after the name of a data (non-header) entry.
pub open spec fn data_suffix(is_header: bool) -> Seq<char> {
    if is_header {
        Seq::empty()
    } else {
        " (Data)"@
    }
}

impl TagType {
    /// The text a tag type is shown as, such as `Texture2D (Data)` or `Unk5+3`.
    pub open spec fn spec_display_name(self) -> Seq<char> {
        match self {
            TagType::Texture2D { is_header } => "Texture2D"@ + data_suffix(is_header),
            TagType::TextureCube { is_header } => "TextureCube"@ + data_suffix(is_header),
            TagType::Texture3D { is_header } => "Texture3D"@ + data_suffix(is_header),
            TagType::TextureLargeBuffer => "TextureLargeBuffer"@,
            TagType::TextureSampler { is_header } => "TextureSampler"@ + data_suffix(is_header),
            TagType::VertexBuffer { is_header } => "VertexBuffer"@ + data_suffix(is_header),
            TagType::IndexBuffer { is_header } => "IndexBuffer"@ + data_suffix(is_header),
            TagType::ConstantBuffer { is_header } => "ConstantBuffer"@ + data_suffix(is_header),
            TagType::PixelShader { is_header } => "PixelShader"@ + data_suffix(is_header),
            TagType::VertexShader { is_header } => "VertexShader"@ + data_suffix(is_header),
            TagType::ComputeShader { is_header } => "ComputeShader"@ + data_suffix(is_header),
            TagType::Tag => "Tag"@,
            TagType::TagGlobal => "TagGlobal"@,
            TagType::WwiseBank => "WwiseBank"@,
            TagType::WwiseStream => "WwiseStream"@,
            TagType::Havok => "Havok"@,
            TagType::UmbraTome => "UmbraTome"@,
            TagType::CriwareUsm => "CriwareUsm"@,
            TagType::Unknown { ftype, fsubtype } => "Unk"@ + crate::text::decimal(ftype as nat) + "+"@
                + crate::text::decimal(fsubtype as nat),
        }
    }

    /// The name with the data suffix for types that have a header form.
    fn name_with_suffix(name: &str, is_header: bool) -> (r: String)
        ensures
            r@ == name@ + data_suffix(is_header),
    {
        let mut s = String::from_str(name);
        if !is_header {
            s.append(" (Data)");
        }
        assert(s@ =~= name@ + data_suffix(is_header));
        s
    }

    /// The text the tag type is shown as.
    pub fn to_display_string(&self) -> (r: String)
        ensures
            r@ == self.spec_display_name(),
    {
        match *self {
            TagType::Texture2D { is_header } => Self::name_with_suffix("Texture2D", is_header),
            TagType::TextureCube { is_header } => Self::name_with_suffix("TextureCube", is_header),
            TagType::Texture3D { is_header } => Self::name_with_suffix("Texture3D", is_header),
            TagType::TextureLargeBuffer => String::from_str("TextureLargeBuffer"),
            TagType::TextureSampler { is_header } => Self::name_with_suffix(
                "TextureSampler",
                is_header,
            ),
            TagType::VertexBuffer { is_header } => Self::name_with_suffix(
                "VertexBuffer",
                is_header,
            ),
            TagType::IndexBuffer { is_header } => Self::name_with_suffix("IndexBuffer", is_header),
            TagType::ConstantBuffer { is_header } => Self::name_with_suffix(
                "ConstantBuffer",
                is_header,
            ),
            TagType::PixelShader { is_header } => Self::name_with_suffix("PixelShader", is_header),
            TagType::VertexShader { is_header } => Self::name_with_suffix(
                "VertexShader",
                is_header,
            ),
            TagType::ComputeShader { is_header } => Self::name_with_suffix(
                "ComputeShader",
                is_header,
            ),
            TagType::Tag => String::from_str("Tag"),
            TagType::TagGlobal => String::from_str("TagGlobal"),
            TagType::WwiseBank => String::from_str("WwiseBank"),
            TagType::WwiseStream => String::from_str("WwiseStream"),
            TagType::Havok => String::from_str("Havok"),
            TagType::UmbraTome => String::from_str("UmbraTome"),
            TagType::CriwareUsm => String::from_str("CriwareUsm"),
            TagType::Unknown { ftype, fsubtype } => {
                let mut s = String::from_str("Unk");
                push_decimal(&mut s, ftype as u64);
                s.append("+");
                push_decimal(&mut s, fsubtype as u64);
                s
            },
        }
    }
}

/// Whether a package version has a type table (every version but `Other`).
pub open spec fn has_type_table(version: PackageVersion) -> bool {
    version != PackageVersion::Other
}

/// Texture and buffer entries (types 32 and 40) in every versioned table:
/// subtype 1 is a 2D texture, 2 a cube texture, 3 a 3D texture, 4 a vertex
/// buffer, 6 an index buffer, 7 a constant buffer, and any other subtype is
/// unknown; type 32 is the header, 40 the data.
pub proof fn lemma_texture_buffer_entries(version: PackageVersion, t: u8, st: u8)
    requires
        has_type_table(version),
        t == 32 || t == 40,
    ensures
        st == 1 ==> spec_from_type_subtype(version, t, st) == (TagType::Texture2D { is_header: t == 32 }),
        st == 2 ==> spec_from_type_subtype(version, t, st) == (TagType::TextureCube { is_header: t == 32 }),
        st == 3 ==> spec_from_type_subtype(version, t, st) == (TagType::Texture3D { is_header: t == 32 }),
        st == 4 ==> spec_from_type_subtype(version, t, st) == (TagType::VertexBuffer { is_header: t == 32 }),
        st == 6 ==> spec_from_type_subtype(version, t, st) == (TagType::IndexBuffer { is_header: t == 32 }),
        st == 7 ==> spec_from_type_subtype(version, t, st) == (TagType::ConstantBuffer { is_header: t == 32 }),
        !(st == 1 || st == 2 || st == 3 || st == 4 || st == 6 || st == 7) ==> spec_from_type_subtype(version, t, st)
            == (TagType::Unknown { ftype: t, fsubtype: st }),
        spec_from_type_subtype(version, t, 1) != spec_from_type_subtype(version, t, 2),
        spec_from_type_subtype(version, t, 2) != spec_from_type_subtype(version, t, 3),
        spec_from_type_subtype(version, t, 1) != spec_from_type_subtype(version, t, 3),
{
}

/// Shader entries (types 33 and 41) in every versioned table: subtype 0 is a
/// pixel shader, 1 a vertex shader, 6 a compute shader, any other subtype is
/// unknown; type 33 is the header, 41 the data.
pub proof fn lemma_shader_entries(version: PackageVersion, t: u8, st: u8)
    requires
        has_type_table(version),
        t == 33 || t == 41,
    ensures
        st == 0 ==> spec_from_type_subtype(version, t, st) == (TagType::PixelShader { is_header: t == 33 }),
        st == 1 ==> spec_from_type_subtype(version, t, st) == (TagType::VertexShader { is_header: t == 33 }),
        st == 6 ==> spec_from_type_subtype(version, t, st) == (TagType::ComputeShader { is_header: t == 33 }),
        !(st == 0 || st == 1 || st == 6) ==> spec_from_type_subtype(version, t, st) == (TagType::Unknown {
            ftype: t,
            fsubtype: st,
        }),
{
}

/// Sampler entries (types 34 and 42) in every versioned table: subtype 1 is
/// a sampler, any other subtype is unknown; type 34 is the header, 42 the
/// data.
pub proof fn lemma_sampler_entries(version: PackageVersion, t: u8, st: u8)
    requires
        has_type_table(version),
        t == 34 || t == 42,
    ensures
        st == 1 ==> spec_from_type_subtype(version, t, st) == (TagType::TextureSampler { is_header: t == 34 }),
        st != 1 ==> spec_from_type_subtype(version, t, st) == (TagType::Unknown { ftype: t, fsubtype: st }),
{
}

/// The entries that are not resources: tags (8, 0) and global tags (16, 0)
/// in every versioned table; Wwise banks and streams at (26, 5) and (26, 6)
/// in Shadowkeep, at (26, 6) and (26, 7) later, where also (24, 0) is an
/// Umbra tome, (27, 0) Havok data, (27, 1) a CRIWARE movie and (48, 1) a
/// large texture buffer; a version without a table knows no type at all.
pub proof fn lemma_special_entries(version: PackageVersion, t: u8, st: u8)
    ensures
        has_type_table(version) ==> spec_from_type_subtype(version, 8, 0) == TagType::Tag,
        has_type_table(version) ==> spec_from_type_subtype(version, 16, 0) == TagType::TagGlobal,
        spec_from_type_subtype(PackageVersion::Destiny2Shadowkeep, 26, 5) == TagType::WwiseBank,
        spec_from_type_subtype(PackageVersion::Destiny2Shadowkeep, 26, 6) == TagType::WwiseStream,
        spec_from_type_subtype(PackageVersion::Destiny2Shadowkeep, 48, 1) == (TagType::Unknown {
            ftype: 48,
            fsubtype: 1,
        }),
        has_type_table(version) && version != PackageVersion::Destiny2Shadowkeep ==> {
            &&& spec_from_type_subtype(version, 26, 6) == TagType::WwiseBank
            &&& spec_from_type_subtype(version, 26, 7) == TagType::WwiseStream
            &&& spec_from_type_subtype(version, 24, 0) == TagType::UmbraTome
            &&& spec_from_type_subtype(version, 27, 0) == TagType::Havok
            &&& spec_from_type_subtype(version, 27, 1) == TagType::CriwareUsm
            &&& spec_from_type_subtype(version, 48, 1) == TagType::TextureLargeBuffer
        },
        spec_from_type_subtype(PackageVersion::Other, t, st) == (TagType::Unknown { ftype: t, fsubtype: st }),
{
}

/// A data entry is named like its header entry with ` (Data)` after it; the
/// three texture kinds have the names `Texture2D`, `TextureCube` and
/// `Texture3D`.
pub proof fn lemma_texture_names(is_header: bool)
    ensures
        (TagType::Texture2D { is_header }).spec_display_name() == "Texture2D"@ + if is_header { Seq::empty() } else { " (Data)"@ },
        (TagType::TextureCube { is_header }).spec_display_name() == "TextureCube"@ + if is_header { Seq::empty() } else { " (Data)"@ },
        (TagType::Texture3D { is_header }).spec_display_name() == "Texture3D"@ + if is_header { Seq::empty() } else { " (Data)"@ },
{
}

} // verus!
