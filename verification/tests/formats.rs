use bevy_sync::image::{dimension_code, dimension_from_code, TextureDimension};
use bevy_sync::mesh::{indices_from_parts, indices_to_parts, topology_code, topology_from_code, Indices, PrimitiveTopology};
use bevy_sync::texture_format::{AstcBlock, AstcChannel, TextureFormat, TextureFormatWrapper};

#[test]
fn texture_format_names() {
    assert_eq!(TextureFormatWrapper(TextureFormat::Rgba8UnormSrgb).serialize(), "rgba8unorm-srgb");
    assert_eq!(TextureFormatWrapper(TextureFormat::R8Unorm).serialize(), "r8unorm");
    assert_eq!(TextureFormatWrapper(TextureFormat::Depth24PlusStencil8).serialize(), "depth24plus-stencil8");
    assert_eq!(TextureFormatWrapper(TextureFormat::EacRg11Snorm).serialize(), "eac-rg11snorm");
    let astc = TextureFormat::Astc { block: AstcBlock::B4x4, channel: AstcChannel::Unorm };
    assert_eq!(TextureFormatWrapper(astc).serialize(), "astc-4x4-unorm");
    let astc = TextureFormat::Astc { block: AstcBlock::B12x10, channel: AstcChannel::UnormSrgb };
    assert_eq!(TextureFormatWrapper(astc).serialize(), "astc-12x10-unorm-srgb");
    let astc = TextureFormat::Astc { block: AstcBlock::B10x10, channel: AstcChannel::Hdr };
    assert_eq!(TextureFormatWrapper(astc).serialize(), "astc-10x10-hdr");
}

#[test]
fn texture_format_parsing() {
    assert_eq!(TextureFormatWrapper::deserialize("rgba8unorm-srgb").map(|w| w.0), Some(TextureFormat::Rgba8UnormSrgb));
    assert_eq!(
        TextureFormatWrapper::deserialize("astc-6x5-unorm-srgb").map(|w| w.0),
        Some(TextureFormat::Astc { block: AstcBlock::B6x5, channel: AstcChannel::UnormSrgb })
    );
    assert_eq!(
        TextureFormatWrapper::deserialize("astc-8x8-hdr").map(|w| w.0),
        Some(TextureFormat::Astc { block: AstcBlock::B8x8, channel: AstcChannel::Hdr })
    );
    assert!(TextureFormatWrapper::deserialize("rgba8").is_none());
    assert!(TextureFormatWrapper::deserialize("").is_none());
    assert!(TextureFormatWrapper::deserialize("astc-").is_none());
    assert!(TextureFormatWrapper::deserialize("astc-4x4").is_none());
    assert!(TextureFormatWrapper::deserialize("astc-4x3-unorm").is_none());
    assert!(TextureFormatWrapper::deserialize("astc-4x4-srgb").is_none());
    assert!(TextureFormatWrapper::deserialize("RGBA8UNORM-SRGB").is_none());
}

#[test]
fn texture_format_round_trips() {
    let blocks = [
        AstcBlock::B4x4,
        AstcBlock::B5x4,
        AstcBlock::B5x5,
        AstcBlock::B6x5,
        AstcBlock::B6x6,
        AstcBlock::B8x5,
        AstcBlock::B8x6,
        AstcBlock::B8x8,
        AstcBlock::B10x5,
        AstcBlock::B10x6,
        AstcBlock::B10x8,
        AstcBlock::B10x10,
        AstcBlock::B12x10,
        AstcBlock::B12x12,
    ];
    for block in blocks {
        for channel in [AstcChannel::Unorm, AstcChannel::UnormSrgb, AstcChannel::Hdr] {
            let f = TextureFormat::Astc { block, channel };
            let name = TextureFormatWrapper(f).serialize();
            assert_eq!(TextureFormatWrapper::deserialize(&name).map(|w| w.0), Some(f));
        }
    }
    for f in [
        TextureFormat::Bgra8UnormSrgb,
        TextureFormat::Rgb9e5Ufloat,
        TextureFormat::Bc7RgbaUnormSrgb,
        TextureFormat::Depth32FloatStencil8,
        TextureFormat::Etc2Rgb8A1Unorm,
        TextureFormat::EacR11Unorm,
    ] {
        let name = TextureFormatWrapper(f).serialize();
        assert_eq!(TextureFormatWrapper::deserialize(&name).map(|w| w.0), Some(f));
    }
}

#[test]
fn topology_codes() {
    let all = [
        PrimitiveTopology::PointList,
        PrimitiveTopology::LineList,
        PrimitiveTopology::LineStrip,
        PrimitiveTopology::TriangleList,
        PrimitiveTopology::TriangleStrip,
    ];
    for (i, t) in all.iter().enumerate() {
        assert_eq!(topology_code(*t) as usize, i);
        assert_eq!(topology_from_code(topology_code(*t)), *t);
    }
    assert_eq!(topology_from_code(200), PrimitiveTopology::TriangleList);
}

#[test]
fn dimension_codes() {
    assert_eq!(dimension_code(TextureDimension::D1), 1);
    assert_eq!(dimension_code(TextureDimension::D2), 2);
    assert_eq!(dimension_code(TextureDimension::D3), 3);
    for d in [TextureDimension::D1, TextureDimension::D2, TextureDimension::D3] {
        assert_eq!(dimension_from_code(dimension_code(d)), d);
    }
    assert_eq!(dimension_from_code(0), TextureDimension::D2);
    assert_eq!(dimension_from_code(9), TextureDimension::D2);
}

#[test]
fn mesh_indices16_round_trip() {
    let (i32s, i16s) = indices_to_parts(Some(Indices::U16(vec![0, 1, 2])));
    assert!(i32s.is_none());
    assert_eq!(i16s, Some(vec![0, 1, 2]));
    match indices_from_parts(i32s, i16s) {
        Some(Indices::U16(v)) => assert_eq!(v, vec![0, 1, 2]),
        _ => panic!("16-bit indices lost"),
    }
}

#[test]
fn mesh_indices_round_trip() {
    let (i32s, i16s) = indices_to_parts(Some(Indices::U32(vec![3, 4, 70000])));
    assert_eq!(i32s, Some(vec![3, 4, 70000]));
    assert!(i16s.is_none());
    assert!(matches!(indices_from_parts(i32s, i16s), Some(Indices::U32(v)) if v == vec![3, 4, 70000]));
    let (a, b) = indices_to_parts(None);
    assert!(a.is_none() && b.is_none());
    assert!(indices_from_parts(None, None).is_none());
    // when both are present the 16-bit buffer wins
    assert!(matches!(indices_from_parts(Some(vec![1]), Some(vec![2])), Some(Indices::U16(v)) if v == vec![2]));
}
