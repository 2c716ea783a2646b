//! Layout of the named texture formats: the size of the data type used to
//! upload them, their texel blocks, and the basic data format descriptor
//! fields that follow from these.
use vstd::arithmetic::power2::*;
use vstd::prelude::*;

use crate::codec::bits_at;
use crate::dfd::DataFormatFlags;
use crate::enums::{ColorModel, ColorPrimaries, Format, TransferFunction};

verus! {

/// How the texels of a named format are laid out.
#[derive(Debug, Clone, Copy, PartialEq, Eq, Structural)]
pub struct FormatLayout {
    /// Size in bytes of the data type used to upload the data: the packed
    /// word for packed formats, a component for unpacked ones, and 1 for
    /// block-compressed ones.
    pub type_size: u32,
    /// Color model of the texel blocks.
    pub color_model: ColorModel,
    /// Whether color values use the sRGB transfer function rather than a
    /// linear one.
    pub srgb: bool,
    /// Texel block width.
    pub block_width: u32,
    /// Texel block height.
    pub block_height: u32,
    /// Bytes per texel block.
    pub bytes_per_block: u32,
}

/// The layout of a named format; `None` for an identifier without a name.
pub open spec fn format_layout(f: Format) -> Option<FormatLayout> {
    match f {
        Format::R4G4_UNORM_PACK8 => Some(FormatLayout { type_size: 1, color_model: ColorModel::RGBSDA, srgb: false, block_width: 1, block_height: 1, bytes_per_block: 1 }),
        Format::R4G4B4A4_UNORM_PACK16 => Some(FormatLayout { type_size: 2, color_model: ColorModel::RGBSDA, srgb: false, block_width: 1, block_height: 1, bytes_per_block: 2 }),
        Format::B4G4R4A4_UNORM_PACK16 => Some(FormatLayout { type_size: 2, color_model: ColorModel::RGBSDA, srgb: false, block_width: 1, block_height: 1, bytes_per_block: 2 }),
        Format::R5G6B5_UNORM_PACK16 => Some(FormatLayout { type_size: 2, color_model: ColorModel::RGBSDA, srgb: false, block_width: 1, block_height: 1, bytes_per_block: 2 }),
        Format::B5G6R5_UNORM_PACK16 => Some(FormatLayout { type_size: 2, color_model: ColorModel::RGBSDA, srgb: false, block_width: 1, block_height: 1, bytes_per_block: 2 }),
        Format::R5G5B5A1_UNORM_PACK16 => Some(FormatLayout { type_size: 2, color_model: ColorModel::RGBSDA, srgb: false, block_width: 1, block_height: 1, bytes_per_block: 2 }),
        Format::B5G5R5A1_UNORM_PACK16 => Some(FormatLayout { type_size: 2, color_model: ColorModel::RGBSDA, srgb: false, block_width: 1, block_height: 1, bytes_per_block: 2 }),
        Format::A1R5G5B5_UNORM_PACK16 => Some(FormatLayout { type_size: 2, color_model: ColorModel::RGBSDA, srgb: false, block_width: 1, block_height: 1, bytes_per_block: 2 }),
        Format::R8_UNORM => Some(FormatLayout { type_size: 1, color_model: ColorModel::RGBSDA, srgb: false, block_width: 1, block_height: 1, bytes_per_block: 1 }),
        Format::R8_SNORM => Some(FormatLayout { type_size: 1, color_model: ColorModel::RGBSDA, srgb: false, block_width: 1, block_height: 1, bytes_per_block: 1 }),
        Format::R8_UINT => Some(FormatLayout { type_size: 1, color_model: ColorModel::RGBSDA, srgb: false, block_width: 1, block_height: 1, bytes_per_block: 1 }),
        Format::R8_SINT => Some(FormatLayout { type_size: 1, color_model: ColorModel::RGBSDA, srgb: false, block_width: 1, block_height: 1, bytes_per_block: 1 }),
        Format::R8_SRGB => Some(FormatLayout { type_size: 1, color_model: ColorModel::RGBSDA, srgb: true, block_width: 1, block_height: 1, bytes_per_block: 1 }),
        Format::R8G8_UNORM => Some(FormatLayout { type_size: 1, color_model: ColorModel::RGBSDA, srgb: false, block_width: 1, block_height: 1, bytes_per_block: 2 }),
        Format::R8G8_SNORM => Some(FormatLayout { type_size: 1, color_model: ColorModel::RGBSDA, srgb: false, block_width: 1, block_height: 1, bytes_per_block: 2 }),
        Format::R8G8_UINT => Some(FormatLayout { type_size: 1, color_model: ColorModel::RGBSDA, srgb: false, block_width: 1, block_height: 1, bytes_per_block: 2 }),
        Format::R8G8_SINT => Some(FormatLayout { type_size: 1, color_model: ColorModel::RGBSDA, srgb: false, block_width: 1, block_height: 1, bytes_per_block: 2 }),
        Format::R8G8_SRGB => Some(FormatLayout { type_size: 1, color_model: ColorModel::RGBSDA, srgb: true, block_width: 1, block_height: 1, bytes_per_block: 2 }),
        Format::R8G8B8_UNORM => Some(FormatLayout { type_size: 1, color_model: ColorModel::RGBSDA, srgb: false, block_width: 1, block_height: 1, bytes_per_block: 3 }),
        Format::R8G8B8_SNORM => Some(FormatLayout { type_size: 1, color_model: ColorModel::RGBSDA, srgb: false, block_width: 1, block_height: 1, bytes_per_block: 3 }),
        Format::R8G8B8_UINT => Some(FormatLayout { type_size: 1, color_model: ColorModel::RGBSDA, srgb: false, block_width: 1, block_height: 1, bytes_per_block: 3 }),
        Format::R8G8B8_SINT => Some(FormatLayout { type_size: 1, color_model: ColorModel::RGBSDA, srgb: false, block_width: 1, block_height: 1, bytes_per_block: 3 }),
        Format::R8G8B8_SRGB => Some(FormatLayout { type_size: 1, color_model: ColorModel::RGBSDA, srgb: true, block_width: 1, block_height: 1, bytes_per_block: 3 }),
        Format::B8G8R8_UNORM => Some(FormatLayout { type_size: 1, color_model: ColorModel::RGBSDA, srgb: false, block_width: 1, block_height: 1, bytes_per_block: 3 }),
        Format::B8G8R8_SNORM => Some(FormatLayout { type_size: 1, color_model: ColorModel::RGBSDA, srgb: false, block_width: 1, block_height: 1, bytes_per_block: 3 }),
        Format::B8G8R8_UINT => Some(FormatLayout { type_size: 1, color_model: ColorModel::RGBSDA, srgb: false, block_width: 1, block_height: 1, bytes_per_block: 3 }),
        Format::B8G8R8_SINT => Some(FormatLayout { type_size: 1, color_model: ColorModel::RGBSDA, srgb: false, block_width: 1, block_height: 1, bytes_per_block: 3 }),
        Format::B8G8R8_SRGB => Some(FormatLayout { type_size: 1, color_model: ColorModel::RGBSDA, srgb: true, block_width: 1, block_height: 1, bytes_per_block: 3 }),
        Format::R8G8B8A8_UNORM => Some(FormatLayout { type_size: 1, color_model: ColorModel::RGBSDA, srgb: false, block_width: 1, block_height: 1, bytes_per_block: 4 }),
        Format::R8G8B8A8_SNORM => Some(FormatLayout { type_size: 1, color_model: ColorModel::RGBSDA, srgb: false, block_width: 1, block_height: 1, bytes_per_block: 4 }),
        Format::R8G8B8A8_UINT => Some(FormatLayout { type_size: 1, color_model: ColorModel::RGBSDA, srgb: false, block_width: 1, block_height: 1, bytes_per_block: 4 }),
        Format::R8G8B8A8_SINT => Some(FormatLayout { type_size: 1, color_model: ColorModel::RGBSDA, srgb: false, block_width: 1, block_height: 1, bytes_per_block: 4 }),
        Format::R8G8B8A8_SRGB => Some(FormatLayout { type_size: 1, color_model: ColorModel::RGBSDA, srgb: true, block_width: 1, block_height: 1, bytes_per_block: 4 }),
        Format::B8G8R8A8_UNORM => Some(FormatLayout { type_size: 1, color_model: ColorModel::RGBSDA, srgb: false, block_width: 1, block_height: 1, bytes_per_block: 4 }),
        Format::B8G8R8A8_SNORM => Some(FormatLayout { type_size: 1, color_model: ColorModel::RGBSDA, srgb: false, block_width: 1, block_height: 1, bytes_per_block: 4 }),
        Format::B8G8R8A8_UINT => Some(FormatLayout { type_size: 1, color_model: ColorModel::RGBSDA, srgb: false, block_width: 1, block_height: 1, bytes_per_block: 4 }),
        Format::B8G8R8A8_SINT => Some(FormatLayout { type_size: 1, color_model: ColorModel::RGBSDA, srgb: false, block_width: 1, block_height: 1, bytes_per_block: 4 }),
        Format::B8G8R8A8_SRGB => Some(FormatLayout { type_size: 1, color_model: ColorModel::RGBSDA, srgb: true, block_width: 1, block_height: 1, bytes_per_block: 4 }),
        Format::A2R10G10B10_UNORM_PACK32 => Some(FormatLayout { type_size: 4, color_model: ColorModel::RGBSDA, srgb: false, block_width: 1, block_height: 1, bytes_per_block: 4 }),
        Format::A2R10G10B10_SNORM_PACK32 => Some(FormatLayout { type_size: 4, color_model: ColorModel::RGBSDA, srgb: false, block_width: 1, block_height: 1, bytes_per_block: 4 }),
        Format::A2R10G10B10_UINT_PACK32 => Some(FormatLayout { type_size: 4, color_model: ColorModel::RGBSDA, srgb: false, block_width: 1, block_height: 1, bytes_per_block: 4 }),
        Format::A2R10G10B10_SINT_PACK32 => Some(FormatLayout { type_size: 4, color_model: ColorModel::RGBSDA, srgb: false, block_width: 1, block_height: 1, bytes_per_block: 4 }),
        Format::A2B10G10R10_UNORM_PACK32 => Some(FormatLayout { type_size: 4, color_model: ColorModel::RGBSDA, srgb: false, block_width: 1, block_height: 1, bytes_per_block: 4 }),
        Format::A2B10G10R10_SNORM_PACK32 => Some(FormatLayout { type_size: 4, color_model: ColorModel::RGBSDA, srgb: false, block_width: 1, block_height: 1, bytes_per_block: 4 }),
        Format::A2B10G10R10_UINT_PACK32 => Some(FormatLayout { type_size: 4, color_model: ColorModel::RGBSDA, srgb: false, block_width: 1, block_height: 1, bytes_per_block: 4 }),
        Format::A2B10G10R10_SINT_PACK32 => Some(FormatLayout { type_size: 4, color_model: ColorModel::RGBSDA, srgb: false, block_width: 1, block_height: 1, bytes_per_block: 4 }),
        Format::R16_UNORM => Some(FormatLayout { type_size: 2, color_model: ColorModel::RGBSDA, srgb: false, block_width: 1, block_height: 1, bytes_per_block: 2 }),
        Format::R16_SNORM => Some(FormatLayout { type_size: 2, color_model: ColorModel::RGBSDA, srgb: false, block_width: 1, block_height: 1, bytes_per_block: 2 }),
        Format::R16_UINT => Some(FormatLayout { type_size: 2, color_model: ColorModel::RGBSDA, srgb: false, block_width: 1, block_height: 1, bytes_per_block: 2 }),
        Format::R16_SINT => Some(FormatLayout { type_size: 2, color_model: ColorModel::RGBSDA, srgb: false, block_width: 1, block_height: 1, bytes_per_block: 2 }),
        Format::R16_SFLOAT => Some(FormatLayout { type_size: 2, color_model: ColorModel::RGBSDA, srgb: false, block_width: 1, block_height: 1, bytes_per_block: 2 }),
        Format::R16G16_UNORM => Some(FormatLayout { type_size: 2, color_model: ColorModel::RGBSDA, srgb: false, block_width: 1, block_height: 1, bytes_per_block: 4 }),
        Format::R16G16_SNORM => Some(FormatLayout { type_size: 2, color_model: ColorModel::RGBSDA, srgb: false, block_width: 1, block_height: 1, bytes_per_block: 4 }),
        Format::R16G16_UINT => Some(FormatLayout { type_size: 2, color_model: ColorModel::RGBSDA, srgb: false, block_width: 1, block_height: 1, bytes_per_block: 4 }),
        Format::R16G16_SINT => Some(FormatLayout { type_size: 2, color_model: ColorModel::RGBSDA, srgb: false, block_width: 1, block_height: 1, bytes_per_block: 4 }),
        Format::R16G16_SFLOAT => Some(FormatLayout { type_size: 2, color_model: ColorModel::RGBSDA, srgb: false, block_width: 1, block_height: 1, bytes_per_block: 4 }),
        Format::R16G16B16_UNORM => Some(FormatLayout { type_size: 2, color_model: ColorModel::RGBSDA, srgb: false, block_width: 1, block_height: 1, bytes_per_block: 6 }),
        Format::R16G16B16_SNORM => Some(FormatLayout { type_size: 2, color_model: ColorModel::RGBSDA, srgb: false, block_width: 1, block_height: 1, bytes_per_block: 6 }),
        Format::R16G16B16_UINT => Some(FormatLayout { type_size: 2, color_model: ColorModel::RGBSDA, srgb: false, block_width: 1, block_height: 1, bytes_per_block: 6 }),
        Format::R16G16B16_SINT => Some(FormatLayout { type_size: 2, color_model: ColorModel::RGBSDA, srgb: false, block_width: 1, block_height: 1, bytes_per_block: 6 }),
        Format::R16G16B16_SFLOAT => Some(FormatLayout { type_size: 2, color_model: ColorModel::RGBSDA, srgb: false, block_width: 1, block_height: 1, bytes_per_block: 6 }),
        Format::R16G16B16A16_UNORM => Some(FormatLayout { type_size: 2, color_model: ColorModel::RGBSDA, srgb: false, block_width: 1, block_height: 1, bytes_per_block: 8 }),
        Format::R16G16B16A16_SNORM => Some(FormatLayout { type_size: 2, color_model: ColorModel::RGBSDA, srgb: false, block_width: 1, block_height: 1, bytes_per_block: 8 }),
        Format::R16G16B16A16_UINT => Some(FormatLayout { type_size: 2, color_model: ColorModel::RGBSDA, srgb: false, block_width: 1, block_height: 1, bytes_per_block: 8 }),
        Format::R16G16B16A16_SINT => Some(FormatLayout { type_size: 2, color_model: ColorModel::RGBSDA, srgb: false, block_width: 1, block_height: 1, bytes_per_block: 8 }),
        Format::R16G16B16A16_SFLOAT => Some(FormatLayout { type_size: 2, color_model: ColorModel::RGBSDA, srgb: false, block_width: 1, block_height: 1, bytes_per_block: 8 }),
        Format::R32_UINT => Some(FormatLayout { type_size: 4, color_model: ColorModel::RGBSDA, srgb: false, block_width: 1, block_height: 1, bytes_per_block: 4 }),
        Format::R32_SINT => Some(FormatLayout { type_size: 4, color_model: ColorModel::RGBSDA, srgb: false, block_width: 1, block_height: 1, bytes_per_block: 4 }),
        Format::R32_SFLOAT => Some(FormatLayout { type_size: 4, color_model: ColorModel::RGBSDA, srgb: false, block_width: 1, block_height: 1, bytes_per_block: 4 }),
        Format::R32G32_UINT => Some(FormatLayout { type_size: 4, color_model: ColorModel::RGBSDA, srgb: false, block_width: 1, block_height: 1, bytes_per_block: 8 }),
        Format::R32G32_SINT => Some(FormatLayout { type_size: 4, color_model: ColorModel::RGBSDA, srgb: false, block_width: 1, block_height: 1, bytes_per_block: 8 }),
        Format::R32G32_SFLOAT => Some(FormatLayout { type_size: 4, color_model: ColorModel::RGBSDA, srgb: false, block_width: 1, block_height: 1, bytes_per_block: 8 }),
        Format::R32G32B32_UINT => Some(FormatLayout { type_size: 4, color_model: ColorModel::RGBSDA, srgb: false, block_width: 1, block_height: 1, bytes_per_block: 12 }),
        Format::R32G32B32_SINT => Some(FormatLayout { type_size: 4, color_model: ColorModel::RGBSDA, srgb: false, block_width: 1, block_height: 1, bytes_per_block: 12 }),
        Format::R32G32B32_SFLOAT => Some(FormatLayout { type_size: 4, color_model: ColorModel::RGBSDA, srgb: false, block_width: 1, block_height: 1, bytes_per_block: 12 }),
        Format::R32G32B32A32_UINT => Some(FormatLayout { type_size: 4, color_model: ColorModel::RGBSDA, srgb: false, block_width: 1, block_height: 1, bytes_per_block: 16 }),
        Format::R32G32B32A32_SINT => Some(FormatLayout { type_size: 4, color_model: ColorModel::RGBSDA, srgb: false, block_width: 1, block_height: 1, bytes_per_block: 16 }),
        Format::R32G32B32A32_SFLOAT => Some(FormatLayout { type_size: 4, color_model: ColorModel::RGBSDA, srgb: false, block_width: 1, block_height: 1, bytes_per_block: 16 }),
        Format::R64_UINT => Some(FormatLayout { type_size: 8, color_model: ColorModel::RGBSDA, srgb: false, block_width: 1, block_height: 1, bytes_per_block: 8 }),
        Format::R64_SINT => Some(FormatLayout { type_size: 8, color_model: ColorModel::RGBSDA, srgb: false, block_width: 1, block_height: 1, bytes_per_block: 8 }),
        Format::R64_SFLOAT => Some(FormatLayout { type_size: 8, color_model: ColorModel::RGBSDA, srgb: false, block_width: 1, block_height: 1, bytes_per_block: 8 }),
        Format::R64G64_UINT => Some(FormatLayout { type_size: 8, color_model: ColorModel::RGBSDA, srgb: false, block_width: 1, block_height: 1, bytes_per_block: 16 }),
        Format::R64G64_SINT => Some(FormatLayout { type_size: 8, color_model: ColorModel::RGBSDA, srgb: false, block_width: 1, block_height: 1, bytes_per_block: 16 }),
        Format::R64G64_SFLOAT => Some(FormatLayout { type_size: 8, color_model: ColorModel::RGBSDA, srgb: false, block_width: 1, block_height: 1, bytes_per_block: 16 }),
        Format::R64G64B64_UINT => Some(FormatLayout { type_size: 8, color_model: ColorModel::RGBSDA, srgb: false, block_width: 1, block_height: 1, bytes_per_block: 24 }),
        Format::R64G64B64_SINT => Some(FormatLayout { type_size: 8, color_model: ColorModel::RGBSDA, srgb: false, block_width: 1, block_height: 1, bytes_per_block: 24 }),
        Format::R64G64B64_SFLOAT => Some(FormatLayout { type_size: 8, color_model: ColorModel::RGBSDA, srgb: false, block_width: 1, block_height: 1, bytes_per_block: 24 }),
        Format::R64G64B64A64_UINT => Some(FormatLayout { type_size: 8, color_model: ColorModel::RGBSDA, srgb: false, block_width: 1, block_height: 1, bytes_per_block: 32 }),
        Format::R64G64B64A64_SINT => Some(FormatLayout { type_size: 8, color_model: ColorModel::RGBSDA, srgb: false, block_width: 1, block_height: 1, bytes_per_block: 32 }),
        Format::R64G64B64A64_SFLOAT => Some(FormatLayout { type_size: 8, color_model: ColorModel::RGBSDA, srgb: false, block_width: 1, block_height: 1, bytes_per_block: 32 }),
        Format::B10G11R11_UFLOAT_PACK32 => Some(FormatLayout { type_size: 4, color_model: ColorModel::RGBSDA, srgb: false, block_width: 1, block_height: 1, bytes_per_block: 4 }),
        Format::E5B9G9R9_UFLOAT_PACK32 => Some(FormatLayout { type_size: 4, color_model: ColorModel::RGBSDA, srgb: false, block_width: 1, block_height: 1, bytes_per_block: 4 }),
        Format::D16_UNORM => Some(FormatLayout { type_size: 2, color_model: ColorModel::RGBSDA, srgb: false, block_width: 1, block_height: 1, bytes_per_block: 2 }),
        Format::X8_D24_UNORM_PACK32 => Some(FormatLayout { type_size: 4, color_model: ColorModel::RGBSDA, srgb: false, block_width: 1, block_height: 1, bytes_per_block: 4 }),
        Format::D32_SFLOAT => Some(FormatLayout { type_size: 4, color_model: ColorModel::RGBSDA, srgb: false, block_width: 1, block_height: 1, bytes_per_block: 4 }),
        Format::S8_UINT => Some(FormatLayout { type_size: 1, color_model: ColorModel::RGBSDA, srgb: false, block_width: 1, block_height: 1, bytes_per_block: 1 }),
        Format::D16_UNORM_S8_UINT => Some(FormatLayout { type_size: 2, color_model: ColorModel::RGBSDA, srgb: false, block_width: 1, block_height: 1, bytes_per_block: 4 }),
        Format::D24_UNORM_S8_UINT => Some(FormatLayout { type_size: 4, color_model: ColorModel::RGBSDA, srgb: false, block_width: 1, block_height: 1, bytes_per_block: 4 }),
        Format::D32_SFLOAT_S8_UINT => Some(FormatLayout { type_size: 4, color_model: ColorModel::RGBSDA, srgb: false, block_width: 1, block_height: 1, bytes_per_block: 8 }),
        Format::BC1_RGB_UNORM_BLOCK => Some(FormatLayout { type_size: 1, color_model: ColorModel::BC1A, srgb: false, block_width: 4, block_height: 4, bytes_per_block: 8 }),
        Format::BC1_RGB_SRGB_BLOCK => Some(FormatLayout { type_size: 1, color_model: ColorModel::BC1A, srgb: true, block_width: 4, block_height: 4, bytes_per_block: 8 }),
        Format::BC1_RGBA_UNORM_BLOCK => Some(FormatLayout { type_size: 1, color_model: ColorModel::BC1A, srgb: false, block_width: 4, block_height: 4, bytes_per_block: 8 }),
        Format::BC1_RGBA_SRGB_BLOCK => Some(FormatLayout { type_size: 1, color_model: ColorModel::BC1A, srgb: true, block_width: 4, block_height: 4, bytes_per_block: 8 }),
        Format::BC2_UNORM_BLOCK => Some(FormatLayout { type_size: 1, color_model: ColorModel::BC2, srgb: false, block_width: 4, block_height: 4, bytes_per_block: 16 }),
        Format::BC2_SRGB_BLOCK => Some(FormatLayout { type_size: 1, color_model: ColorModel::BC2, srgb: true, block_width: 4, block_height: 4, bytes_per_block: 16 }),
        Format::BC3_UNORM_BLOCK => Some(FormatLayout { type_size: 1, color_model: ColorModel::BC3, srgb: false, block_width: 4, block_height: 4, bytes_per_block: 16 }),
        Format::BC3_SRGB_BLOCK => Some(FormatLayout { type_size: 1, color_model: ColorModel::BC3, srgb: true, block_width: 4, block_height: 4, bytes_per_block: 16 }),
        Format::BC4_UNORM_BLOCK => Some(FormatLayout { type_size: 1, color_model: ColorModel::BC4, srgb: false, block_width: 4, block_height: 4, bytes_per_block: 8 }),
        Format::BC4_SNORM_BLOCK => Some(FormatLayout { type_size: 1, color_model: ColorModel::BC4, srgb: false, block_width: 4, block_height: 4, bytes_per_block: 8 }),
        Format::BC5_UNORM_BLOCK => Some(FormatLayout { type_size: 1, color_model: ColorModel::BC5, srgb: false, block_width: 4, block_height: 4, bytes_per_block: 16 }),
        Format::BC5_SNORM_BLOCK => Some(FormatLayout { type_size: 1, color_model: ColorModel::BC5, srgb: false, block_width: 4, block_height: 4, bytes_per_block: 16 }),
        Format::BC6H_UFLOAT_BLOCK => Some(FormatLayout { type_size: 1, color_model: ColorModel::BC6H, srgb: false, block_width: 4, block_height: 4, bytes_per_block: 16 }),
        Format::BC6H_SFLOAT_BLOCK => Some(FormatLayout { type_size: 1, color_model: ColorModel::BC6H, srgb: false, block_width: 4, block_height: 4, bytes_per_block: 16 }),
        Format::BC7_UNORM_BLOCK => Some(FormatLayout { type_size: 1, color_model: ColorModel::BC7, srgb: false, block_width: 4, block_height: 4, bytes_per_block: 16 }),
        Format::BC7_SRGB_BLOCK => Some(FormatLayout { type_size: 1, color_model: ColorModel::BC7, srgb: true, block_width: 4, block_height: 4, bytes_per_block: 16 }),
        Format::ETC2_R8G8B8_UNORM_BLOCK => Some(FormatLayout { type_size: 1, color_model: ColorModel::ETC2, srgb: false, block_width: 4, block_height: 4, bytes_per_block: 8 }),
        Format::ETC2_R8G8B8_SRGB_BLOCK => Some(FormatLayout { type_size: 1, color_model: ColorModel::ETC2, srgb: true, block_width: 4, block_height: 4, bytes_per_block: 8 }),
        Format::ETC2_R8G8B8A1_UNORM_BLOCK => Some(FormatLayout { type_size: 1, color_model: ColorModel::ETC2, srgb: false, block_width: 4, block_height: 4, bytes_per_block: 8 }),
        Format::ETC2_R8G8B8A1_SRGB_BLOCK => Some(FormatLayout { type_size: 1, color_model: ColorModel::ETC2, srgb: true, block_width: 4, block_height: 4, bytes_per_block: 8 }),
        Format::ETC2_R8G8B8A8_UNORM_BLOCK => Some(FormatLayout { type_size: 1, color_model: ColorModel::ETC2, srgb: false, block_width: 4, block_height: 4, bytes_per_block: 16 }),
        Format::ETC2_R8G8B8A8_SRGB_BLOCK => Some(FormatLayout { type_size: 1, color_model: ColorModel::ETC2, srgb: true, block_width: 4, block_height: 4, bytes_per_block: 16 }),
        Format::EAC_R11_UNORM_BLOCK => Some(FormatLayout { type_size: 1, color_model: ColorModel::ETC2, srgb: false, block_width: 4, block_height: 4, bytes_per_block: 8 }),
        Format::EAC_R11_SNORM_BLOCK => Some(FormatLayout { type_size: 1, color_model: ColorModel::ETC2, srgb: false, block_width: 4, block_height: 4, bytes_per_block: 8 }),
        Format::EAC_R11G11_UNORM_BLOCK => Some(FormatLayout { type_size: 1, color_model: ColorModel::ETC2, srgb: false, block_width: 4, block_height: 4, bytes_per_block: 16 }),
        Format::EAC_R11G11_SNORM_BLOCK => Some(FormatLayout { type_size: 1, color_model: ColorModel::ETC2, srgb: false, block_width: 4, block_height: 4, bytes_per_block: 16 }),
        Format::ASTC_4x4_UNORM_BLOCK => Some(FormatLayout { type_size: 1, color_model: ColorModel::ASTC, srgb: false, block_width: 4, block_height: 4, bytes_per_block: 16 }),
        Format::ASTC_4x4_SRGB_BLOCK => Some(FormatLayout { type_size: 1, color_model: ColorModel::ASTC, srgb: true, block_width: 4, block_height: 4, bytes_per_block: 16 }),
        Format::ASTC_5x4_UNORM_BLOCK => Some(FormatLayout { type_size: 1, color_model: ColorModel::ASTC, srgb: false, block_width: 5, block_height: 4, bytes_per_block: 16 }),
        Format::ASTC_5x4_SRGB_BLOCK => Some(FormatLayout { type_size: 1, color_model: ColorModel::ASTC, srgb: true, block_width: 5, block_height: 4, bytes_per_block: 16 }),
        Format::ASTC_5x5_UNORM_BLOCK => Some(FormatLayout { type_size: 1, color_model: ColorModel::ASTC, srgb: false, block_width: 5, block_height: 5, bytes_per_block: 16 }),
        Format::ASTC_5x5_SRGB_BLOCK => Some(FormatLayout { type_size: 1, color_model: ColorModel::ASTC, srgb: true, block_width: 5, block_height: 5, bytes_per_block: 16 }),
        Format::ASTC_6x5_UNORM_BLOCK => Some(FormatLayout { type_size: 1, color_model: ColorModel::ASTC, srgb: false, block_width: 6, block_height: 5, bytes_per_block: 16 }),
        Format::ASTC_6x5_SRGB_BLOCK => Some(FormatLayout { type_size: 1, color_model: ColorModel::ASTC, srgb: true, block_width: 6, block_height: 5, bytes_per_block: 16 }),
        Format::ASTC_6x6_UNORM_BLOCK => Some(FormatLayout { type_size: 1, color_model: ColorModel::ASTC, srgb: false, block_width: 6, block_height: 6, bytes_per_block: 16 }),
        Format::ASTC_6x6_SRGB_BLOCK => Some(FormatLayout { type_size: 1, color_model: ColorModel::ASTC, srgb: true, block_width: 6, block_height: 6, bytes_per_block: 16 }),
        Format::ASTC_8x5_UNORM_BLOCK => Some(FormatLayout { type_size: 1, color_model: ColorModel::ASTC, srgb: false, block_width: 8, block_height: 5, bytes_per_block: 16 }),
        Format::ASTC_8x5_SRGB_BLOCK => Some(FormatLayout { type_size: 1, color_model: ColorModel::ASTC, srgb: true, block_width: 8, block_height: 5, bytes_per_block: 16 }),
        Format::ASTC_8x6_UNORM_BLOCK => Some(FormatLayout { type_size: 1, color_model: ColorModel::ASTC, srgb: false, block_width: 8, block_height: 6, bytes_per_block: 16 }),
        Format::ASTC_8x6_SRGB_BLOCK => Some(FormatLayout { type_size: 1, color_model: ColorModel::ASTC, srgb: true, block_width: 8, block_height: 6, bytes_per_block: 16 }),
        Format::ASTC_8x8_UNORM_BLOCK => Some(FormatLayout { type_size: 1, color_model: ColorModel::ASTC, srgb: false, block_width: 8, block_height: 8, bytes_per_block: 16 }),
        Format::ASTC_8x8_SRGB_BLOCK => Some(FormatLayout { type_size: 1, color_model: ColorModel::ASTC, srgb: true, block_width: 8, block_height: 8, bytes_per_block: 16 }),
        Format::ASTC_10x5_UNORM_BLOCK => Some(FormatLayout { type_size: 1, color_model: ColorModel::ASTC, srgb: false, block_width: 10, block_height: 5, bytes_per_block: 16 }),
        Format::ASTC_10x5_SRGB_BLOCK => Some(FormatLayout { type_size: 1, color_model: ColorModel::ASTC, srgb: true, block_width: 10, block_height: 5, bytes_per_block: 16 }),
        Format::ASTC_10x6_UNORM_BLOCK => Some(FormatLayout { type_size: 1, color_model: ColorModel::ASTC, srgb: false, block_width: 10, block_height: 6, bytes_per_block: 16 }),
        Format::ASTC_10x6_SRGB_BLOCK => Some(FormatLayout { type_size: 1, color_model: ColorModel::ASTC, srgb: true, block_width: 10, block_height: 6, bytes_per_block: 16 }),
        Format::ASTC_10x8_UNORM_BLOCK => Some(FormatLayout { type_size: 1, color_model: ColorModel::ASTC, srgb: false, block_width: 10, block_height: 8, bytes_per_block: 16 }),
        Format::ASTC_10x8_SRGB_BLOCK => Some(FormatLayout { type_size: 1, color_model: ColorModel::ASTC, srgb: true, block_width: 10, block_height: 8, bytes_per_block: 16 }),
        Format::ASTC_10x10_UNORM_BLOCK => Some(FormatLayout { type_size: 1, color_model: ColorModel::ASTC, srgb: false, block_width: 10, block_height: 10, bytes_per_block: 16 }),
        Format::ASTC_10x10_SRGB_BLOCK => Some(FormatLayout { type_size: 1, color_model: ColorModel::ASTC, srgb: true, block_width: 10, block_height: 10, bytes_per_block: 16 }),
        Format::ASTC_12x10_UNORM_BLOCK => Some(FormatLayout { type_size: 1, color_model: ColorModel::ASTC, srgb: false, block_width: 12, block_height: 10, bytes_per_block: 16 }),
        Format::ASTC_12x10_SRGB_BLOCK => Some(FormatLayout { type_size: 1, color_model: ColorModel::ASTC, srgb: true, block_width: 12, block_height: 10, bytes_per_block: 16 }),
        Format::ASTC_12x12_UNORM_BLOCK => Some(FormatLayout { type_size: 1, color_model: ColorModel::ASTC, srgb: false, block_width: 12, block_height: 12, bytes_per_block: 16 }),
        Format::ASTC_12x12_SRGB_BLOCK => Some(FormatLayout { type_size: 1, color_model: ColorModel::ASTC, srgb: true, block_width: 12, block_height: 12, bytes_per_block: 16 }),
        Format::ASTC_4x4_SFLOAT_BLOCK => Some(FormatLayout { type_size: 1, color_model: ColorModel::ASTC, srgb: false, block_width: 4, block_height: 4, bytes_per_block: 16 }),
        Format::ASTC_5x4_SFLOAT_BLOCK => Some(FormatLayout { type_size: 1, color_model: ColorModel::ASTC, srgb: false, block_width: 5, block_height: 4, bytes_per_block: 16 }),
        Format::ASTC_5x5_SFLOAT_BLOCK => Some(FormatLayout { type_size: 1, color_model: ColorModel::ASTC, srgb: false, block_width: 5, block_height: 5, bytes_per_block: 16 }),
        Format::ASTC_6x5_SFLOAT_BLOCK => Some(FormatLayout { type_size: 1, color_model: ColorModel::ASTC, srgb: false, block_width: 6, block_height: 5, bytes_per_block: 16 }),
        Format::ASTC_6x6_SFLOAT_BLOCK => Some(FormatLayout { type_size: 1, color_model: ColorModel::ASTC, srgb: false, block_width: 6, block_height: 6, bytes_per_block: 16 }),
        Format::ASTC_8x5_SFLOAT_BLOCK => Some(FormatLayout { type_size: 1, color_model: ColorModel::ASTC, srgb: false, block_width: 8, block_height: 5, bytes_per_block: 16 }),
        Format::ASTC_8x6_SFLOAT_BLOCK => Some(FormatLayout { type_size: 1, color_model: ColorModel::ASTC, srgb: false, block_width: 8, block_height: 6, bytes_per_block: 16 }),
        Format::ASTC_8x8_SFLOAT_BLOCK => Some(FormatLayout { type_size: 1, color_model: ColorModel::ASTC, srgb: false, block_width: 8, block_height: 8, bytes_per_block: 16 }),
        Format::ASTC_10x5_SFLOAT_BLOCK => Some(FormatLayout { type_size: 1, color_model: ColorModel::ASTC, srgb: false, block_width: 10, block_height: 5, bytes_per_block: 16 }),
        Format::ASTC_10x6_SFLOAT_BLOCK => Some(FormatLayout { type_size: 1, color_model: ColorModel::ASTC, srgb: false, block_width: 10, block_height: 6, bytes_per_block: 16 }),
        Format::ASTC_10x8_SFLOAT_BLOCK => Some(FormatLayout { type_size: 1, color_model: ColorModel::ASTC, srgb: false, block_width: 10, block_height: 8, bytes_per_block: 16 }),
        Format::ASTC_10x10_SFLOAT_BLOCK => Some(FormatLayout { type_size: 1, color_model: ColorModel::ASTC, srgb: false, block_width: 10, block_height: 10, bytes_per_block: 16 }),
        Format::ASTC_12x10_SFLOAT_BLOCK => Some(FormatLayout { type_size: 1, color_model: ColorModel::ASTC, srgb: false, block_width: 12, block_height: 10, bytes_per_block: 16 }),
        Format::ASTC_12x12_SFLOAT_BLOCK => Some(FormatLayout { type_size: 1, color_model: ColorModel::ASTC, srgb: false, block_width: 12, block_height: 12, bytes_per_block: 16 }),
        Format::Unknown(_) => None,
    }
}

/// The basic data format descriptor fields of a format, for formats whose
/// layout is known: they do not depend on the file.
#[derive(Debug, Clone, Copy, PartialEq, Eq)]
pub struct CanonicalDescriptor {
    pub color_model: Option<ColorModel>,
    pub color_primaries: Option<ColorPrimaries>,
    pub transfer_function: Option<TransferFunction>,
    pub flags: DataFormatFlags,
    pub texel_block_dimensions: [u32; 4],
    pub bytes_planes: [u32; 8],
}

/// Whether `d` holds the descriptor fields implied by layout `l`: BT.709
/// primaries, straight alpha, a two-dimensional texel block and a single
/// plane.
pub open spec fn canonical_for(l: FormatLayout, d: CanonicalDescriptor) -> bool {
    &&& d.color_model == Some(l.color_model)
    &&& d.color_primaries == Some(ColorPrimaries::BT709)
    &&& d.transfer_function == Some(
        if l.srgb {
            TransferFunction::SRGB
        } else {
            TransferFunction::Linear
        },
    )
    &&& d.flags@ == 0
    &&& d.texel_block_dimensions@ == seq![l.block_width, l.block_height, 1u32, 1u32]
    &&& d.bytes_planes@ == seq![l.bytes_per_block, 0u32, 0u32, 0u32, 0u32, 0u32, 0u32, 0u32]
}

impl Format {
    /// The layout of this format, if it is a named one.
    pub fn layout(&self) -> (r: Option<FormatLayout>)
        ensures
            r == format_layout(*self),
    {
        match self {
            Format::R4G4_UNORM_PACK8 => Some(FormatLayout { type_size: 1, color_model: ColorModel::RGBSDA, srgb: false, block_width: 1, block_height: 1, bytes_per_block: 1 }),
            Format::R4G4B4A4_UNORM_PACK16 => Some(FormatLayout { type_size: 2, color_model: ColorModel::RGBSDA, srgb: false, block_width: 1, block_height: 1, bytes_per_block: 2 }),
            Format::B4G4R4A4_UNORM_PACK16 => Some(FormatLayout { type_size: 2, color_model: ColorModel::RGBSDA, srgb: false, block_width: 1, block_height: 1, bytes_per_block: 2 }),
            Format::R5G6B5_UNORM_PACK16 => Some(FormatLayout { type_size: 2, color_model: ColorModel::RGBSDA, srgb: false, block_width: 1, block_height: 1, bytes_per_block: 2 }),
            Format::B5G6R5_UNORM_PACK16 => Some(FormatLayout { type_size: 2, color_model: ColorModel::RGBSDA, srgb: false, block_width: 1, block_height: 1, bytes_per_block: 2 }),
            Format::R5G5B5A1_UNORM_PACK16 => Some(FormatLayout { type_size: 2, color_model: ColorModel::RGBSDA, srgb: false, block_width: 1, block_height: 1, bytes_per_block: 2 }),
            Format::B5G5R5A1_UNORM_PACK16 => Some(FormatLayout { type_size: 2, color_model: ColorModel::RGBSDA, srgb: false, block_width: 1, block_height: 1, bytes_per_block: 2 }),
            Format::A1R5G5B5_UNORM_PACK16 => Some(FormatLayout { type_size: 2, color_model: ColorModel::RGBSDA, srgb: false, block_width: 1, block_height: 1, bytes_per_block: 2 }),
            Format::R8_UNORM => Some(FormatLayout { type_size: 1, color_model: ColorModel::RGBSDA, srgb: false, block_width: 1, block_height: 1, bytes_per_block: 1 }),
            Format::R8_SNORM => Some(FormatLayout { type_size: 1, color_model: ColorModel::RGBSDA, srgb: false, block_width: 1, block_height: 1, bytes_per_block: 1 }),
            Format::R8_UINT => Some(FormatLayout { type_size: 1, color_model: ColorModel::RGBSDA, srgb: false, block_width: 1, block_height: 1, bytes_per_block: 1 }),
            Format::R8_SINT => Some(FormatLayout { type_size: 1, color_model: ColorModel::RGBSDA, srgb: false, block_width: 1, block_height: 1, bytes_per_block: 1 }),
            Format::R8_SRGB => Some(FormatLayout { type_size: 1, color_model: ColorModel::RGBSDA, srgb: true, block_width: 1, block_height: 1, bytes_per_block: 1 }),
            Format::R8G8_UNORM => Some(FormatLayout { type_size: 1, color_model: ColorModel::RGBSDA, srgb: false, block_width: 1, block_height: 1, bytes_per_block: 2 }),
            Format::R8G8_SNORM => Some(FormatLayout { type_size: 1, color_model: ColorModel::RGBSDA, srgb: false, block_width: 1, block_height: 1, bytes_per_block: 2 }),
            Format::R8G8_UINT => Some(FormatLayout { type_size: 1, color_model: ColorModel::RGBSDA, srgb: false, block_width: 1, block_height: 1, bytes_per_block: 2 }),
            Format::R8G8_SINT => Some(FormatLayout { type_size: 1, color_model: ColorModel::RGBSDA, srgb: false, block_width: 1, block_height: 1, bytes_per_block: 2 }),
            Format::R8G8_SRGB => Some(FormatLayout { type_size: 1, color_model: ColorModel::RGBSDA, srgb: true, block_width: 1, block_height: 1, bytes_per_block: 2 }),
            Format::R8G8B8_UNORM => Some(FormatLayout { type_size: 1, color_model: ColorModel::RGBSDA, srgb: false, block_width: 1, block_height: 1, bytes_per_block: 3 }),
            Format::R8G8B8_SNORM => Some(FormatLayout { type_size: 1, color_model: ColorModel::RGBSDA, srgb: false, block_width: 1, block_height: 1, bytes_per_block: 3 }),
            Format::R8G8B8_UINT => Some(FormatLayout { type_size: 1, color_model: ColorModel::RGBSDA, srgb: false, block_width: 1, block_height: 1, bytes_per_block: 3 }),
            Format::R8G8B8_SINT => Some(FormatLayout { type_size: 1, color_model: ColorModel::RGBSDA, srgb: false, block_width: 1, block_height: 1, bytes_per_block: 3 }),
            Format::R8G8B8_SRGB => Some(FormatLayout { type_size: 1, color_model: ColorModel::RGBSDA, srgb: true, block_width: 1, block_height: 1, bytes_per_block: 3 }),
            Format::B8G8R8_UNORM => Some(FormatLayout { type_size: 1, color_model: ColorModel::RGBSDA, srgb: false, block_width: 1, block_height: 1, bytes_per_block: 3 }),
            Format::B8G8R8_SNORM => Some(FormatLayout { type_size: 1, color_model: ColorModel::RGBSDA, srgb: false, block_width: 1, block_height: 1, bytes_per_block: 3 }),
            Format::B8G8R8_UINT => Some(FormatLayout { type_size: 1, color_model: ColorModel::RGBSDA, srgb: false, block_width: 1, block_height: 1, bytes_per_block: 3 }),
            Format::B8G8R8_SINT => Some(FormatLayout { type_size: 1, color_model: ColorModel::RGBSDA, srgb: false, block_width: 1, block_height: 1, bytes_per_block: 3 }),
            Format::B8G8R8_SRGB => Some(FormatLayout { type_size: 1, color_model: ColorModel::RGBSDA, srgb: true, block_width: 1, block_height: 1, bytes_per_block: 3 }),
            Format::R8G8B8A8_UNORM => Some(FormatLayout { type_size: 1, color_model: ColorModel::RGBSDA, srgb: false, block_width: 1, block_height: 1, bytes_per_block: 4 }),
            Format::R8G8B8A8_SNORM => Some(FormatLayout { type_size: 1, color_model: ColorModel::RGBSDA, srgb: false, block_width: 1, block_height: 1, bytes_per_block: 4 }),
            Format::R8G8B8A8_UINT => Some(FormatLayout { type_size: 1, color_model: ColorModel::RGBSDA, srgb: false, block_width: 1, block_height: 1, bytes_per_block: 4 }),
            Format::R8G8B8A8_SINT => Some(FormatLayout { type_size: 1, color_model: ColorModel::RGBSDA, srgb: false, block_width: 1, block_height: 1, bytes_per_block: 4 }),
            Format::R8G8B8A8_SRGB => Some(FormatLayout { type_size: 1, color_model: ColorModel::RGBSDA, srgb: true, block_width: 1, block_height: 1, bytes_per_block: 4 }),
            Format::B8G8R8A8_UNORM => Some(FormatLayout { type_size: 1, color_model: ColorModel::RGBSDA, srgb: false, block_width: 1, block_height: 1, bytes_per_block: 4 }),
            Format::B8G8R8A8_SNORM => Some(FormatLayout { type_size: 1, color_model: ColorModel::RGBSDA, srgb: false, block_width: 1, block_height: 1, bytes_per_block: 4 }),
            Format::B8G8R8A8_UINT => Some(FormatLayout { type_size: 1, color_model: ColorModel::RGBSDA, srgb: false, block_width: 1, block_height: 1, bytes_per_block: 4 }),
            Format::B8G8R8A8_SINT => Some(FormatLayout { type_size: 1, color_model: ColorModel::RGBSDA, srgb: false, block_width: 1, block_height: 1, bytes_per_block: 4 }),
            Format::B8G8R8A8_SRGB => Some(FormatLayout { type_size: 1, color_model: ColorModel::RGBSDA, srgb: true, block_width: 1, block_height: 1, bytes_per_block: 4 }),
            Format::A2R10G10B10_UNORM_PACK32 => Some(FormatLayout { type_size: 4, color_model: ColorModel::RGBSDA, srgb: false, block_width: 1, block_height: 1, bytes_per_block: 4 }),
            Format::A2R10G10B10_SNORM_PACK32 => Some(FormatLayout { type_size: 4, color_model: ColorModel::RGBSDA, srgb: false, block_width: 1, block_height: 1, bytes_per_block: 4 }),
            Format::A2R10G10B10_UINT_PACK32 => Some(FormatLayout { type_size: 4, color_model: ColorModel::RGBSDA, srgb: false, block_width: 1, block_height: 1, bytes_per_block: 4 }),
            Format::A2R10G10B10_SINT_PACK32 => Some(FormatLayout { type_size: 4, color_model: ColorModel::RGBSDA, srgb: false, block_width: 1, block_height: 1, bytes_per_block: 4 }),
            Format::A2B10G10R10_UNORM_PACK32 => Some(FormatLayout { type_size: 4, color_model: ColorModel::RGBSDA, srgb: false, block_width: 1, block_height: 1, bytes_per_block: 4 }),
            Format::A2B10G10R10_SNORM_PACK32 => Some(FormatLayout { type_size: 4, color_model: ColorModel::RGBSDA, srgb: false, block_width: 1, block_height: 1, bytes_per_block: 4 }),
            Format::A2B10G10R10_UINT_PACK32 => Some(FormatLayout { type_size: 4, color_model: ColorModel::RGBSDA, srgb: false, block_width: 1, block_height: 1, bytes_per_block: 4 }),
            Format::A2B10G10R10_SINT_PACK32 => Some(FormatLayout { type_size: 4, color_model: ColorModel::RGBSDA, srgb: false, block_width: 1, block_height: 1, bytes_per_block: 4 }),
            Format::R16_UNORM => Some(FormatLayout { type_size: 2, color_model: ColorModel::RGBSDA, srgb: false, block_width: 1, block_height: 1, bytes_per_block: 2 }),
            Format::R16_SNORM => Some(FormatLayout { type_size: 2, color_model: ColorModel::RGBSDA, srgb: false, block_width: 1, block_height: 1, bytes_per_block: 2 }),
            Format::R16_UINT => Some(FormatLayout { type_size: 2, color_model: ColorModel::RGBSDA, srgb: false, block_width: 1, block_height: 1, bytes_per_block: 2 }),
            Format::R16_SINT => Some(FormatLayout { type_size: 2, color_model: ColorModel::RGBSDA, srgb: false, block_width: 1, block_height: 1, bytes_per_block: 2 }),
            Format::R16_SFLOAT => Some(FormatLayout { type_size: 2, color_model: ColorModel::RGBSDA, srgb: false, block_width: 1, block_height: 1, bytes_per_block: 2 }),
            Format::R16G16_UNORM => Some(FormatLayout { type_size: 2, color_model: ColorModel::RGBSDA, srgb: false, block_width: 1, block_height: 1, bytes_per_block: 4 }),
            Format::R16G16_SNORM => Some(FormatLayout { type_size: 2, color_model: ColorModel::RGBSDA, srgb: false, block_width: 1, block_height: 1, bytes_per_block: 4 }),
            Format::R16G16_UINT => Some(FormatLayout { type_size: 2, color_model: ColorModel::RGBSDA, srgb: false, block_width: 1, block_height: 1, bytes_per_block: 4 }),
            Format::R16G16_SINT => Some(FormatLayout { type_size: 2, color_model: ColorModel::RGBSDA, srgb: false, block_width: 1, block_height: 1, bytes_per_block: 4 }),
            Format::R16G16_SFLOAT => Some(FormatLayout { type_size: 2, color_model: ColorModel::RGBSDA, srgb: false, block_width: 1, block_height: 1, bytes_per_block: 4 }),
            Format::R16G16B16_UNORM => Some(FormatLayout { type_size: 2, color_model: ColorModel::RGBSDA, srgb: false, block_width: 1, block_height: 1, bytes_per_block: 6 }),
            Format::R16G16B16_SNORM => Some(FormatLayout { type_size: 2, color_model: ColorModel::RGBSDA, srgb: false, block_width: 1, block_height: 1, bytes_per_block: 6 }),
            Format::R16G16B16_UINT => Some(FormatLayout { type_size: 2, color_model: ColorModel::RGBSDA, srgb: false, block_width: 1, block_height: 1, bytes_per_block: 6 }),
            Format::R16G16B16_SINT => Some(FormatLayout { type_size: 2, color_model: ColorModel::RGBSDA, srgb: false, block_width: 1, block_height: 1, bytes_per_block: 6 }),
            Format::R16G16B16_SFLOAT => Some(FormatLayout { type_size: 2, color_model: ColorModel::RGBSDA, srgb: false, block_width: 1, block_height: 1, bytes_per_block: 6 }),
            Format::R16G16B16A16_UNORM => Some(FormatLayout { type_size: 2, color_model: ColorModel::RGBSDA, srgb: false, block_width: 1, block_height: 1, bytes_per_block: 8 }),
            Format::R16G16B16A16_SNORM => Some(FormatLayout { type_size: 2, color_model: ColorModel::RGBSDA, srgb: false, block_width: 1, block_height: 1, bytes_per_block: 8 }),
            Format::R16G16B16A16_UINT => Some(FormatLayout { type_size: 2, color_model: ColorModel::RGBSDA, srgb: false, block_width: 1, block_height: 1, bytes_per_block: 8 }),
            Format::R16G16B16A16_SINT => Some(FormatLayout { type_size: 2, color_model: ColorModel::RGBSDA, srgb: false, block_width: 1, block_height: 1, bytes_per_block: 8 }),
            Format::R16G16B16A16_SFLOAT => Some(FormatLayout { type_size: 2, color_model: ColorModel::RGBSDA, srgb: false, block_width: 1, block_height: 1, bytes_per_block: 8 }),
            Format::R32_UINT => Some(FormatLayout { type_size: 4, color_model: ColorModel::RGBSDA, srgb: false, block_width: 1, block_height: 1, bytes_per_block: 4 }),
            Format::R32_SINT => Some(FormatLayout { type_size: 4, color_model: ColorModel::RGBSDA, srgb: false, block_width: 1, block_height: 1, bytes_per_block: 4 }),
            Format::R32_SFLOAT => Some(FormatLayout { type_size: 4, color_model: ColorModel::RGBSDA, srgb: false, block_width: 1, block_height: 1, bytes_per_block: 4 }),
            Format::R32G32_UINT => Some(FormatLayout { type_size: 4, color_model: ColorModel::RGBSDA, srgb: false, block_width: 1, block_height: 1, bytes_per_block: 8 }),
            Format::R32G32_SINT => Some(FormatLayout { type_size: 4, color_model: ColorModel::RGBSDA, srgb: false, block_width: 1, block_height: 1, bytes_per_block: 8 }),
            Format::R32G32_SFLOAT => Some(FormatLayout { type_size: 4, color_model: ColorModel::RGBSDA, srgb: false, block_width: 1, block_height: 1, bytes_per_block: 8 }),
            Format::R32G32B32_UINT => Some(FormatLayout { type_size: 4, color_model: ColorModel::RGBSDA, srgb: false, block_width: 1, block_height: 1, bytes_per_block: 12 }),
            Format::R32G32B32_SINT => Some(FormatLayout { type_size: 4, color_model: ColorModel::RGBSDA, srgb: false, block_width: 1, block_height: 1, bytes_per_block: 12 }),
            Format::R32G32B32_SFLOAT => Some(FormatLayout { type_size: 4, color_model: ColorModel::RGBSDA, srgb: false, block_width: 1, block_height: 1, bytes_per_block: 12 }),
            Format::R32G32B32A32_UINT => Some(FormatLayout { type_size: 4, color_model: ColorModel::RGBSDA, srgb: false, block_width: 1, block_height: 1, bytes_per_block: 16 }),
            Format::R32G32B32A32_SINT => Some(FormatLayout { type_size: 4, color_model: ColorModel::RGBSDA, srgb: false, block_width: 1, block_height: 1, bytes_per_block: 16 }),
            Format::R32G32B32A32_SFLOAT => Some(FormatLayout { type_size: 4, color_model: ColorModel::RGBSDA, srgb: false, block_width: 1, block_height: 1, bytes_per_block: 16 }),
            Format::R64_UINT => Some(FormatLayout { type_size: 8, color_model: ColorModel::RGBSDA, srgb: false, block_width: 1, block_height: 1, bytes_per_block: 8 }),
            Format::R64_SINT => Some(FormatLayout { type_size: 8, color_model: ColorModel::RGBSDA, srgb: false, block_width: 1, block_height: 1, bytes_per_block: 8 }),
            Format::R64_SFLOAT => Some(FormatLayout { type_size: 8, color_model: ColorModel::RGBSDA, srgb: false, block_width: 1, block_height: 1, bytes_per_block: 8 }),
            Format::R64G64_UINT => Some(FormatLayout { type_size: 8, color_model: ColorModel::RGBSDA, srgb: false, block_width: 1, block_height: 1, bytes_per_block: 16 }),
            Format::R64G64_SINT => Some(FormatLayout { type_size: 8, color_model: ColorModel::RGBSDA, srgb: false, block_width: 1, block_height: 1, bytes_per_block: 16 }),
            Format::R64G64_SFLOAT => Some(FormatLayout { type_size: 8, color_model: ColorModel::RGBSDA, srgb: false, block_width: 1, block_height: 1, bytes_per_block: 16 }),
            Format::R64G64B64_UINT => Some(FormatLayout { type_size: 8, color_model: ColorModel::RGBSDA, srgb: false, block_width: 1, block_height: 1, bytes_per_block: 24 }),
            Format::R64G64B64_SINT => Some(FormatLayout { type_size: 8, color_model: ColorModel::RGBSDA, srgb: false, block_width: 1, block_height: 1, bytes_per_block: 24 }),
            Format::R64G64B64_SFLOAT => Some(FormatLayout { type_size: 8, color_model: ColorModel::RGBSDA, srgb: false, block_width: 1, block_height: 1, bytes_per_block: 24 }),
            Format::R64G64B64A64_UINT => Some(FormatLayout { type_size: 8, color_model: ColorModel::RGBSDA, srgb: false, block_width: 1, block_height: 1, bytes_per_block: 32 }),
            Format::R64G64B64A64_SINT => Some(FormatLayout { type_size: 8, color_model: ColorModel::RGBSDA, srgb: false, block_width: 1, block_height: 1, bytes_per_block: 32 }),
            Format::R64G64B64A64_SFLOAT => Some(FormatLayout { type_size: 8, color_model: ColorModel::RGBSDA, srgb: false, block_width: 1, block_height: 1, bytes_per_block: 32 }),
            Format::B10G11R11_UFLOAT_PACK32 => Some(FormatLayout { type_size: 4, color_model: ColorModel::RGBSDA, srgb: false, block_width: 1, block_height: 1, bytes_per_block: 4 }),
            Format::E5B9G9R9_UFLOAT_PACK32 => Some(FormatLayout { type_size: 4, color_model: ColorModel::RGBSDA, srgb: false, block_width: 1, block_height: 1, bytes_per_block: 4 }),
            Format::D16_UNORM => Some(FormatLayout { type_size: 2, color_model: ColorModel::RGBSDA, srgb: false, block_width: 1, block_height: 1, bytes_per_block: 2 }),
            Format::X8_D24_UNORM_PACK32 => Some(FormatLayout { type_size: 4, color_model: ColorModel::RGBSDA, srgb: false, block_width: 1, block_height: 1, bytes_per_block: 4 }),
            Format::D32_SFLOAT => Some(FormatLayout { type_size: 4, color_model: ColorModel::RGBSDA, srgb: false, block_width: 1, block_height: 1, bytes_per_block: 4 }),
            Format::S8_UINT => Some(FormatLayout { type_size: 1, color_model: ColorModel::RGBSDA, srgb: false, block_width: 1, block_height: 1, bytes_per_block: 1 }),
            Format::D16_UNORM_S8_UINT => Some(FormatLayout { type_size: 2, color_model: ColorModel::RGBSDA, srgb: false, block_width: 1, block_height: 1, bytes_per_block: 4 }),
            Format::D24_UNORM_S8_UINT => Some(FormatLayout { type_size: 4, color_model: ColorModel::RGBSDA, srgb: false, block_width: 1, block_height: 1, bytes_per_block: 4 }),
            Format::D32_SFLOAT_S8_UINT => Some(FormatLayout { type_size: 4, color_model: ColorModel::RGBSDA, srgb: false, block_width: 1, block_height: 1, bytes_per_block: 8 }),
            Format::BC1_RGB_UNORM_BLOCK => Some(FormatLayout { type_size: 1, color_model: ColorModel::BC1A, srgb: false, block_width: 4, block_height: 4, bytes_per_block: 8 }),
            Format::BC1_RGB_SRGB_BLOCK => Some(FormatLayout { type_size: 1, color_model: ColorModel::BC1A, srgb: true, block_width: 4, block_height: 4, bytes_per_block: 8 }),
            Format::BC1_RGBA_UNORM_BLOCK => Some(FormatLayout { type_size: 1, color_model: ColorModel::BC1A, srgb: false, block_width: 4, block_height: 4, bytes_per_block: 8 }),
            Format::BC1_RGBA_SRGB_BLOCK => Some(FormatLayout { type_size: 1, color_model: ColorModel::BC1A, srgb: true, block_width: 4, block_height: 4, bytes_per_block: 8 }),
            Format::BC2_UNORM_BLOCK => Some(FormatLayout { type_size: 1, color_model: ColorModel::BC2, srgb: false, block_width: 4, block_height: 4, bytes_per_block: 16 }),
            Format::BC2_SRGB_BLOCK => Some(FormatLayout { type_size: 1, color_model: ColorModel::BC2, srgb: true, block_width: 4, block_height: 4, bytes_per_block: 16 }),
            Format::BC3_UNORM_BLOCK => Some(FormatLayout { type_size: 1, color_model: ColorModel::BC3, srgb: false, block_width: 4, block_height: 4, bytes_per_block: 16 }),
            Format::BC3_SRGB_BLOCK => Some(FormatLayout { type_size: 1, color_model: ColorModel::BC3, srgb: true, block_width: 4, block_height: 4, bytes_per_block: 16 }),
            Format::BC4_UNORM_BLOCK => Some(FormatLayout { type_size: 1, color_model: ColorModel::BC4, srgb: false, block_width: 4, block_height: 4, bytes_per_block: 8 }),
            Format::BC4_SNORM_BLOCK => Some(FormatLayout { type_size: 1, color_model: ColorModel::BC4, srgb: false, block_width: 4, block_height: 4, bytes_per_block: 8 }),
            Format::BC5_UNORM_BLOCK => Some(FormatLayout { type_size: 1, color_model: ColorModel::BC5, srgb: false, block_width: 4, block_height: 4, bytes_per_block: 16 }),
            Format::BC5_SNORM_BLOCK => Some(FormatLayout { type_size: 1, color_model: ColorModel::BC5, srgb: false, block_width: 4, block_height: 4, bytes_per_block: 16 }),
            Format::BC6H_UFLOAT_BLOCK => Some(FormatLayout { type_size: 1, color_model: ColorModel::BC6H, srgb: false, block_width: 4, block_height: 4, bytes_per_block: 16 }),
            Format::BC6H_SFLOAT_BLOCK => Some(FormatLayout { type_size: 1, color_model: ColorModel::BC6H, srgb: false, block_width: 4, block_height: 4, bytes_per_block: 16 }),
            Format::BC7_UNORM_BLOCK => Some(FormatLayout { type_size: 1, color_model: ColorModel::BC7, srgb: false, block_width: 4, block_height: 4, bytes_per_block: 16 }),
            Format::BC7_SRGB_BLOCK => Some(FormatLayout { type_size: 1, color_model: ColorModel::BC7, srgb: true, block_width: 4, block_height: 4, bytes_per_block: 16 }),
            Format::ETC2_R8G8B8_UNORM_BLOCK => Some(FormatLayout { type_size: 1, color_model: ColorModel::ETC2, srgb: false, block_width: 4, block_height: 4, bytes_per_block: 8 }),
            Format::ETC2_R8G8B8_SRGB_BLOCK => Some(FormatLayout { type_size: 1, color_model: ColorModel::ETC2, srgb: true, block_width: 4, block_height: 4, bytes_per_block: 8 }),
            Format::ETC2_R8G8B8A1_UNORM_BLOCK => Some(FormatLayout { type_size: 1, color_model: ColorModel::ETC2, srgb: false, block_width: 4, block_height: 4, bytes_per_block: 8 }),
            Format::ETC2_R8G8B8A1_SRGB_BLOCK => Some(FormatLayout { type_size: 1, color_model: ColorModel::ETC2, srgb: true, block_width: 4, block_height: 4, bytes_per_block: 8 }),
            Format::ETC2_R8G8B8A8_UNORM_BLOCK => Some(FormatLayout { type_size: 1, color_model: ColorModel::ETC2, srgb: false, block_width: 4, block_height: 4, bytes_per_block: 16 }),
            Format::ETC2_R8G8B8A8_SRGB_BLOCK => Some(FormatLayout { type_size: 1, color_model: ColorModel::ETC2, srgb: true, block_width: 4, block_height: 4, bytes_per_block: 16 }),
            Format::EAC_R11_UNORM_BLOCK => Some(FormatLayout { type_size: 1, color_model: ColorModel::ETC2, srgb: false, block_width: 4, block_height: 4, bytes_per_block: 8 }),
            Format::EAC_R11_SNORM_BLOCK => Some(FormatLayout { type_size: 1, color_model: ColorModel::ETC2, srgb: false, block_width: 4, block_height: 4, bytes_per_block: 8 }),
            Format::EAC_R11G11_UNORM_BLOCK => Some(FormatLayout { type_size: 1, color_model: ColorModel::ETC2, srgb: false, block_width: 4, block_height: 4, bytes_per_block: 16 }),
            Format::EAC_R11G11_SNORM_BLOCK => Some(FormatLayout { type_size: 1, color_model: ColorModel::ETC2, srgb: false, block_width: 4, block_height: 4, bytes_per_block: 16 }),
            Format::ASTC_4x4_UNORM_BLOCK => Some(FormatLayout { type_size: 1, color_model: ColorModel::ASTC, srgb: false, block_width: 4, block_height: 4, bytes_per_block: 16 }),
            Format::ASTC_4x4_SRGB_BLOCK => Some(FormatLayout { type_size: 1, color_model: ColorModel::ASTC, srgb: true, block_width: 4, block_height: 4, bytes_per_block: 16 }),
            Format::ASTC_5x4_UNORM_BLOCK => Some(FormatLayout { type_size: 1, color_model: ColorModel::ASTC, srgb: false, block_width: 5, block_height: 4, bytes_per_block: 16 }),
            Format::ASTC_5x4_SRGB_BLOCK => Some(FormatLayout { type_size: 1, color_model: ColorModel::ASTC, srgb: true, block_width: 5, block_height: 4, bytes_per_block: 16 }),
            Format::ASTC_5x5_UNORM_BLOCK => Some(FormatLayout { type_size: 1, color_model: ColorModel::ASTC, srgb: false, block_width: 5, block_height: 5, bytes_per_block: 16 }),
            Format::ASTC_5x5_SRGB_BLOCK => Some(FormatLayout { type_size: 1, color_model: ColorModel::ASTC, srgb: true, block_width: 5, block_height: 5, bytes_per_block: 16 }),
            Format::ASTC_6x5_UNORM_BLOCK => Some(FormatLayout { type_size: 1, color_model: ColorModel::ASTC, srgb: false, block_width: 6, block_height: 5, bytes_per_block: 16 }),
            Format::ASTC_6x5_SRGB_BLOCK => Some(FormatLayout { type_size: 1, color_model: ColorModel::ASTC, srgb: true, block_width: 6, block_height: 5, bytes_per_block: 16 }),
            Format::ASTC_6x6_UNORM_BLOCK => Some(FormatLayout { type_size: 1, color_model: ColorModel::ASTC, srgb: false, block_width: 6, block_height: 6, bytes_per_block: 16 }),
            Format::ASTC_6x6_SRGB_BLOCK => Some(FormatLayout { type_size: 1, color_model: ColorModel::ASTC, srgb: true, block_width: 6, block_height: 6, bytes_per_block: 16 }),
            Format::ASTC_8x5_UNORM_BLOCK => Some(FormatLayout { type_size: 1, color_model: ColorModel::ASTC, srgb: false, block_width: 8, block_height: 5, bytes_per_block: 16 }),
            Format::ASTC_8x5_SRGB_BLOCK => Some(FormatLayout { type_size: 1, color_model: ColorModel::ASTC, srgb: true, block_width: 8, block_height: 5, bytes_per_block: 16 }),
            Format::ASTC_8x6_UNORM_BLOCK => Some(FormatLayout { type_size: 1, color_model: ColorModel::ASTC, srgb: false, block_width: 8, block_height: 6, bytes_per_block: 16 }),
            Format::ASTC_8x6_SRGB_BLOCK => Some(FormatLayout { type_size: 1, color_model: ColorModel::ASTC, srgb: true, block_width: 8, block_height: 6, bytes_per_block: 16 }),
            Format::ASTC_8x8_UNORM_BLOCK => Some(FormatLayout { type_size: 1, color_model: ColorModel::ASTC, srgb: false, block_width: 8, block_height: 8, bytes_per_block: 16 }),
            Format::ASTC_8x8_SRGB_BLOCK => Some(FormatLayout { type_size: 1, color_model: ColorModel::ASTC, srgb: true, block_width: 8, block_height: 8, bytes_per_block: 16 }),
            Format::ASTC_10x5_UNORM_BLOCK => Some(FormatLayout { type_size: 1, color_model: ColorModel::ASTC, srgb: false, block_width: 10, block_height: 5, bytes_per_block: 16 }),
            Format::ASTC_10x5_SRGB_BLOCK => Some(FormatLayout { type_size: 1, color_model: ColorModel::ASTC, srgb: true, block_width: 10, block_height: 5, bytes_per_block: 16 }),
            Format::ASTC_10x6_UNORM_BLOCK => Some(FormatLayout { type_size: 1, color_model: ColorModel::ASTC, srgb: false, block_width: 10, block_height: 6, bytes_per_block: 16 }),
            Format::ASTC_10x6_SRGB_BLOCK => Some(FormatLayout { type_size: 1, color_model: ColorModel::ASTC, srgb: true, block_width: 10, block_height: 6, bytes_per_block: 16 }),
            Format::ASTC_10x8_UNORM_BLOCK => Some(FormatLayout { type_size: 1, color_model: ColorModel::ASTC, srgb: false, block_width: 10, block_height: 8, bytes_per_block: 16 }),
            Format::ASTC_10x8_SRGB_BLOCK => Some(FormatLayout { type_size: 1, color_model: ColorModel::ASTC, srgb: true, block_width: 10, block_height: 8, bytes_per_block: 16 }),
            Format::ASTC_10x10_UNORM_BLOCK => Some(FormatLayout { type_size: 1, color_model: ColorModel::ASTC, srgb: false, block_width: 10, block_height: 10, bytes_per_block: 16 }),
            Format::ASTC_10x10_SRGB_BLOCK => Some(FormatLayout { type_size: 1, color_model: ColorModel::ASTC, srgb: true, block_width: 10, block_height: 10, bytes_per_block: 16 }),
            Format::ASTC_12x10_UNORM_BLOCK => Some(FormatLayout { type_size: 1, color_model: ColorModel::ASTC, srgb: false, block_width: 12, block_height: 10, bytes_per_block: 16 }),
            Format::ASTC_12x10_SRGB_BLOCK => Some(FormatLayout { type_size: 1, color_model: ColorModel::ASTC, srgb: true, block_width: 12, block_height: 10, bytes_per_block: 16 }),
            Format::ASTC_12x12_UNORM_BLOCK => Some(FormatLayout { type_size: 1, color_model: ColorModel::ASTC, srgb: false, block_width: 12, block_height: 12, bytes_per_block: 16 }),
            Format::ASTC_12x12_SRGB_BLOCK => Some(FormatLayout { type_size: 1, color_model: ColorModel::ASTC, srgb: true, block_width: 12, block_height: 12, bytes_per_block: 16 }),
            Format::ASTC_4x4_SFLOAT_BLOCK => Some(FormatLayout { type_size: 1, color_model: ColorModel::ASTC, srgb: false, block_width: 4, block_height: 4, bytes_per_block: 16 }),
            Format::ASTC_5x4_SFLOAT_BLOCK => Some(FormatLayout { type_size: 1, color_model: ColorModel::ASTC, srgb: false, block_width: 5, block_height: 4, bytes_per_block: 16 }),
            Format::ASTC_5x5_SFLOAT_BLOCK => Some(FormatLayout { type_size: 1, color_model: ColorModel::ASTC, srgb: false, block_width: 5, block_height: 5, bytes_per_block: 16 }),
            Format::ASTC_6x5_SFLOAT_BLOCK => Some(FormatLayout { type_size: 1, color_model: ColorModel::ASTC, srgb: false, block_width: 6, block_height: 5, bytes_per_block: 16 }),
            Format::ASTC_6x6_SFLOAT_BLOCK => Some(FormatLayout { type_size: 1, color_model: ColorModel::ASTC, srgb: false, block_width: 6, block_height: 6, bytes_per_block: 16 }),
            Format::ASTC_8x5_SFLOAT_BLOCK => Some(FormatLayout { type_size: 1, color_model: ColorModel::ASTC, srgb: false, block_width: 8, block_height: 5, bytes_per_block: 16 }),
            Format::ASTC_8x6_SFLOAT_BLOCK => Some(FormatLayout { type_size: 1, color_model: ColorModel::ASTC, srgb: false, block_width: 8, block_height: 6, bytes_per_block: 16 }),
            Format::ASTC_8x8_SFLOAT_BLOCK => Some(FormatLayout { type_size: 1, color_model: ColorModel::ASTC, srgb: false, block_width: 8, block_height: 8, bytes_per_block: 16 }),
            Format::ASTC_10x5_SFLOAT_BLOCK => Some(FormatLayout { type_size: 1, color_model: ColorModel::ASTC, srgb: false, block_width: 10, block_height: 5, bytes_per_block: 16 }),
            Format::ASTC_10x6_SFLOAT_BLOCK => Some(FormatLayout { type_size: 1, color_model: ColorModel::ASTC, srgb: false, block_width: 10, block_height: 6, bytes_per_block: 16 }),
            Format::ASTC_10x8_SFLOAT_BLOCK => Some(FormatLayout { type_size: 1, color_model: ColorModel::ASTC, srgb: false, block_width: 10, block_height: 8, bytes_per_block: 16 }),
            Format::ASTC_10x10_SFLOAT_BLOCK => Some(FormatLayout { type_size: 1, color_model: ColorModel::ASTC, srgb: false, block_width: 10, block_height: 10, bytes_per_block: 16 }),
            Format::ASTC_12x10_SFLOAT_BLOCK => Some(FormatLayout { type_size: 1, color_model: ColorModel::ASTC, srgb: false, block_width: 12, block_height: 10, bytes_per_block: 16 }),
            Format::ASTC_12x12_SFLOAT_BLOCK => Some(FormatLayout { type_size: 1, color_model: ColorModel::ASTC, srgb: false, block_width: 12, block_height: 12, bytes_per_block: 16 }),
            Format::Unknown(_) => None,
        }
    }

    /// Size in bytes of the data type used to upload data of this format;
    /// defined for every named format.
    pub fn type_size(&self) -> (r: Option<u32>)
        ensures
            r is Some <==> !(*self is Unknown),
            r matches Some(t) ==> t == format_layout(*self)->Some_0.type_size,
    {
        match self.layout() {
            Some(l) => Some(l.type_size),
            None => None,
        }
    }

    /// The basic data format descriptor fields that this format implies;
    /// defined for every named format.
    pub fn basic_data_format_descriptor(&self) -> (r: Option<CanonicalDescriptor>)
        ensures
            r is Some <==> !(*self is Unknown),
            r matches Some(d) ==> canonical_for(format_layout(*self)->Some_0, d),
    {
        match self.layout() {
            Some(l) => {
                let flags = DataFormatFlags::from_bits_truncate(0);
                proof {
                    lemma2_to64();
                    assert(bits_at(0, 0, 1) == 0);
                }
                let d = CanonicalDescriptor {
                    color_model: Some(l.color_model),
                    color_primaries: Some(ColorPrimaries::BT709),
                    transfer_function: Some(
                        if l.srgb {
                            TransferFunction::SRGB
                        } else {
                            TransferFunction::Linear
                        },
                    ),
                    flags,
                    texel_block_dimensions: [l.block_width, l.block_height, 1, 1],
                    bytes_planes: [l.bytes_per_block, 0, 0, 0, 0, 0, 0, 0],
                };
                assert(d.texel_block_dimensions@ =~= seq![l.block_width, l.block_height, 1u32, 1u32]);
                assert(d.bytes_planes@ =~= seq![l.bytes_per_block, 0u32, 0u32, 0u32, 0u32, 0u32, 0u32, 0u32]);
                Some(d)
            },
            None => None,
        }
    }
}

/// Every named format has a layout, and no other nonzero identifier has one.
pub proof fn lemma_layout_defined_iff_named(x: u32)
    requires
        x != 0,
    ensures
        format_layout(Format::from_code(x)->Some_0) is Some <==> !(Format::from_code(x)->Some_0 is Unknown),
{
}

} // verus!
