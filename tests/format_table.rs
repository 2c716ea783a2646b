use ktx2::{ColorModel, ColorPrimaries, Format, TransferFunction};

#[test]
fn every_named_format_has_a_layout() {
    let mut named = 0;
    for x in (1..=200u32).chain(1000066000..=1000066013) {
        let f = Format::new(x).unwrap();
        let is_named = !matches!(f, Format::Unknown(_));
        assert_eq!(f.type_size().is_some(), is_named, "format {}", x);
        assert_eq!(f.basic_data_format_descriptor().is_some(), is_named, "format {}", x);
        assert_eq!(f.layout().is_some(), is_named, "format {}", x);
        if is_named {
            named += 1;
        }
    }
    assert_eq!(named, 167);
}

#[test]
fn unnamed_formats_have_no_layout() {
    for x in [11u32, 12, 51, 57, 185, 1000, 1000066014, u32::MAX] {
        let f = Format::new(x).unwrap();
        assert_eq!(f, Format::Unknown(x));
        assert_eq!(f.type_size(), None);
        assert!(f.basic_data_format_descriptor().is_none());
    }
}

#[test]
fn type_sizes() {
    assert_eq!(Format::R8G8B8A8_UNORM.type_size(), Some(1));
    assert_eq!(Format::R16G16_SFLOAT.type_size(), Some(2));
    assert_eq!(Format::R32_UINT.type_size(), Some(4));
    assert_eq!(Format::R64G64B64A64_SFLOAT.type_size(), Some(8));
    assert_eq!(Format::R4G4_UNORM_PACK8.type_size(), Some(1));
    assert_eq!(Format::R5G6B5_UNORM_PACK16.type_size(), Some(2));
    assert_eq!(Format::A2B10G10R10_UNORM_PACK32.type_size(), Some(4));
    assert_eq!(Format::D16_UNORM.type_size(), Some(2));
    assert_eq!(Format::D32_SFLOAT_S8_UINT.type_size(), Some(4));
    assert_eq!(Format::BC7_SRGB_BLOCK.type_size(), Some(1));
    assert_eq!(Format::ASTC_12x12_SFLOAT_BLOCK.type_size(), Some(1));
}

#[test]
fn canonical_descriptor_of_uncompressed_format() {
    let d = Format::R8G8B8A8_SRGB.basic_data_format_descriptor().unwrap();
    assert_eq!(d.color_model, Some(ColorModel::RGBSDA));
    assert_eq!(d.color_primaries, Some(ColorPrimaries::BT709));
    assert_eq!(d.transfer_function, Some(TransferFunction::SRGB));
    assert!(!d.flags.is_alpha_premultiplied());
    assert_eq!(d.texel_block_dimensions, [1, 1, 1, 1]);
    assert_eq!(d.bytes_planes, [4, 0, 0, 0, 0, 0, 0, 0]);
    let d = Format::R32G32B32_SFLOAT.basic_data_format_descriptor().unwrap();
    assert_eq!(d.transfer_function, Some(TransferFunction::Linear));
    assert_eq!(d.bytes_planes[0], 12);
}

#[test]
fn canonical_descriptor_of_block_formats() {
    let d = Format::BC1_RGBA_UNORM_BLOCK.basic_data_format_descriptor().unwrap();
    assert_eq!(d.color_model, Some(ColorModel::BC1A));
    assert_eq!(d.texel_block_dimensions, [4, 4, 1, 1]);
    assert_eq!(d.bytes_planes[0], 8);
    let d = Format::ASTC_10x6_SRGB_BLOCK.basic_data_format_descriptor().unwrap();
    assert_eq!(d.color_model, Some(ColorModel::ASTC));
    assert_eq!(d.transfer_function, Some(TransferFunction::SRGB));
    assert_eq!(d.texel_block_dimensions, [10, 6, 1, 1]);
    assert_eq!(d.bytes_planes[0], 16);
    let d = Format::EAC_R11G11_SNORM_BLOCK.basic_data_format_descriptor().unwrap();
    assert_eq!(d.color_model, Some(ColorModel::ETC2));
    assert_eq!(d.bytes_planes[0], 16);
}
