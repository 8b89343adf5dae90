use alkahest::tagtypes::{DisplayColor, PackageVersion, TagType};
use ecolor::Color32;

fn to_color32(c: DisplayColor) -> Color32 {
    match c {
        DisplayColor::Green => Color32::GREEN,
        DisplayColor::LightBlue => Color32::LIGHT_BLUE,
        DisplayColor::Yellow => Color32::YELLOW,
        DisplayColor::Gray => Color32::GRAY,
        DisplayColor::LightRed => Color32::LIGHT_RED,
        DisplayColor::Rgb(r, g, b) => Color32::from_rgb(r, g, b),
    }
}

#[test]
fn shadowkeep_table() {
    assert_eq!(TagType::from_type_subtype_sk(8, 0), TagType::Tag);
    assert_eq!(TagType::from_type_subtype_sk(16, 0), TagType::TagGlobal);
    assert_eq!(TagType::from_type_subtype_sk(26, 5), TagType::WwiseBank);
    assert_eq!(TagType::from_type_subtype_sk(26, 6), TagType::WwiseStream);
    assert_eq!(TagType::from_type_subtype_sk(32, 1), TagType::Texture2D { is_header: true });
    assert_eq!(TagType::from_type_subtype_sk(40, 2), TagType::TextureCube { is_header: false });
    assert_eq!(TagType::from_type_subtype_sk(41, 6), TagType::ComputeShader { is_header: false });
    assert_eq!(TagType::from_type_subtype_sk(34, 1), TagType::TextureSampler { is_header: true });
    assert_eq!(TagType::from_type_subtype_sk(34, 2), TagType::Unknown { ftype: 34, fsubtype: 2 });
    assert_eq!(TagType::from_type_subtype_sk(27, 0), TagType::Unknown { ftype: 27, fsubtype: 0 });
    assert_eq!(TagType::from_type_subtype_sk(48, 1), TagType::Unknown { ftype: 48, fsubtype: 1 });
}

#[test]
fn lightfall_table() {
    assert_eq!(TagType::from_type_subtype_lf(24, 0), TagType::UmbraTome);
    assert_eq!(TagType::from_type_subtype_lf(26, 6), TagType::WwiseBank);
    assert_eq!(TagType::from_type_subtype_lf(26, 7), TagType::WwiseStream);
    assert_eq!(TagType::from_type_subtype_lf(27, 0), TagType::Havok);
    assert_eq!(TagType::from_type_subtype_lf(27, 1), TagType::CriwareUsm);
    assert_eq!(TagType::from_type_subtype_lf(48, 1), TagType::TextureLargeBuffer);
    assert_eq!(TagType::from_type_subtype_lf(32, 4), TagType::VertexBuffer { is_header: true });
    assert_eq!(TagType::from_type_subtype_lf(40, 6), TagType::IndexBuffer { is_header: false });
    assert_eq!(TagType::from_type_subtype_lf(32, 7), TagType::ConstantBuffer { is_header: true });
    assert_eq!(TagType::from_type_subtype_lf(33, 0), TagType::PixelShader { is_header: true });
    assert_eq!(TagType::from_type_subtype_lf(41, 1), TagType::VertexShader { is_header: false });
    assert_eq!(TagType::from_type_subtype_lf(33, 2), TagType::Unknown { ftype: 33, fsubtype: 2 });
}

#[test]
fn version_picks_table() {
    assert_eq!(
        TagType::from_type_subtype(PackageVersion::Destiny2Shadowkeep, 26, 5),
        TagType::WwiseBank
    );
    assert_eq!(
        TagType::from_type_subtype(PackageVersion::Destiny2WitchQueen, 26, 5),
        TagType::Unknown { ftype: 26, fsubtype: 5 }
    );
    assert_eq!(
        TagType::from_type_subtype(PackageVersion::Destiny2BeyondLight, 27, 0),
        TagType::Havok
    );
    assert_eq!(
        TagType::from_type_subtype(PackageVersion::Destiny2Lightfall, 8, 0),
        TagType::Tag
    );
    assert_eq!(
        TagType::from_type_subtype(PackageVersion::Other, 8, 0),
        TagType::Unknown { ftype: 8, fsubtype: 0 }
    );
}

#[test]
fn texture_kinds() {
    assert!(TagType::Texture2D { is_header: false }.is_texture());
    assert!(TagType::TextureCube { is_header: true }.is_texture());
    assert!(TagType::Texture3D { is_header: true }.is_texture());
    assert!(!TagType::TextureSampler { is_header: true }.is_texture());
    assert!(!TagType::TextureLargeBuffer.is_texture());
    assert!(!TagType::Tag.is_texture());
}

#[test]
fn display_names() {
    assert_eq!(TagType::Texture2D { is_header: true }.to_display_string(), "Texture2D");
    assert_eq!(TagType::Texture2D { is_header: false }.to_display_string(), "Texture2D (Data)");
    assert_eq!(TagType::TextureSampler { is_header: false }.to_display_string(), "TextureSampler (Data)");
    assert_eq!(TagType::TextureLargeBuffer.to_display_string(), "TextureLargeBuffer");
    assert_eq!(TagType::ComputeShader { is_header: true }.to_display_string(), "ComputeShader");
    assert_eq!(TagType::WwiseStream.to_display_string(), "WwiseStream");
    assert_eq!(TagType::TagGlobal.to_display_string(), "TagGlobal");
    assert_eq!(TagType::Unknown { ftype: 5, fsubtype: 3 }.to_display_string(), "Unk5+3");
    assert_eq!(TagType::Unknown { ftype: 255, fsubtype: 10 }.to_display_string(), "Unk255+10");
    assert_eq!(TagType::Unknown { ftype: 0, fsubtype: 0 }.to_display_string(), "Unk0+0");
}

#[test]
fn display_colors() {
    assert_eq!(to_color32(TagType::TextureLargeBuffer.display_color()), Color32::GREEN);
    assert_eq!(to_color32(TagType::IndexBuffer { is_header: true }.display_color()), Color32::LIGHT_BLUE);
    assert_eq!(
        to_color32(TagType::PixelShader { is_header: false }.display_color()),
        Color32::from_rgb(249, 168, 71)
    );
    assert_eq!(to_color32(TagType::WwiseBank.display_color()), Color32::from_rgb(191, 106, 247));
    assert_eq!(to_color32(TagType::Havok.display_color()), Color32::YELLOW);
    assert_eq!(to_color32(TagType::Tag.display_color()), Color32::GRAY);
    assert_eq!(
        to_color32(TagType::Unknown { ftype: 1, fsubtype: 1 }.display_color()),
        Color32::LIGHT_RED
    );
}
