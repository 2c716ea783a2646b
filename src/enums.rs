//! Identifiers with a closed set of names: formats, supercompression schemes
//! and the color fields of a data format descriptor.
//!
//! Each is an enum of the named identifiers plus `Unknown`, which keeps any
//! other nonzero value, so that files using identifiers newer than this
//! library still round-trip. Zero means "unspecified" and maps to `None`.
use vstd::prelude::*;

verus! {

/// Known texture formats, by their graphics-API identifier.
#[allow(non_camel_case_types)]
#[derive(Debug, Clone, Copy, PartialEq, Eq, Structural)]
pub enum Format {
    R4G4_UNORM_PACK8,
    R4G4B4A4_UNORM_PACK16,
    B4G4R4A4_UNORM_PACK16,
    R5G6B5_UNORM_PACK16,
    B5G6R5_UNORM_PACK16,
    R5G5B5A1_UNORM_PACK16,
    B5G5R5A1_UNORM_PACK16,
    A1R5G5B5_UNORM_PACK16,
    R8_UNORM,
    R8_SNORM,
    R8_UINT,
    R8_SINT,
    R8_SRGB,
    R8G8_UNORM,
    R8G8_SNORM,
    R8G8_UINT,
    R8G8_SINT,
    R8G8_SRGB,
    R8G8B8_UNORM,
    R8G8B8_SNORM,
    R8G8B8_UINT,
    R8G8B8_SINT,
    R8G8B8_SRGB,
    B8G8R8_UNORM,
    B8G8R8_SNORM,
    B8G8R8_UINT,
    B8G8R8_SINT,
    B8G8R8_SRGB,
    R8G8B8A8_UNORM,
    R8G8B8A8_SNORM,
    R8G8B8A8_UINT,
    R8G8B8A8_SINT,
    R8G8B8A8_SRGB,
    B8G8R8A8_UNORM,
    B8G8R8A8_SNORM,
    B8G8R8A8_UINT,
    B8G8R8A8_SINT,
    B8G8R8A8_SRGB,
    A2R10G10B10_UNORM_PACK32,
    A2R10G10B10_SNORM_PACK32,
    A2R10G10B10_UINT_PACK32,
    A2R10G10B10_SINT_PACK32,
    A2B10G10R10_UNORM_PACK32,
    A2B10G10R10_SNORM_PACK32,
    A2B10G10R10_UINT_PACK32,
    A2B10G10R10_SINT_PACK32,
    R16_UNORM,
    R16_SNORM,
    R16_UINT,
    R16_SINT,
    R16_SFLOAT,
    R16G16_UNORM,
    R16G16_SNORM,
    R16G16_UINT,
    R16G16_SINT,
    R16G16_SFLOAT,
    R16G16B16_UNORM,
    R16G16B16_SNORM,
    R16G16B16_UINT,
    R16G16B16_SINT,
    R16G16B16_SFLOAT,
    R16G16B16A16_UNORM,
    R16G16B16A16_SNORM,
    R16G16B16A16_UINT,
    R16G16B16A16_SINT,
    R16G16B16A16_SFLOAT,
    R32_UINT,
    R32_SINT,
    R32_SFLOAT,
    R32G32_UINT,
    R32G32_SINT,
    R32G32_SFLOAT,
    R32G32B32_UINT,
    R32G32B32_SINT,
    R32G32B32_SFLOAT,
    R32G32B32A32_UINT,
    R32G32B32A32_SINT,
    R32G32B32A32_SFLOAT,
    R64_UINT,
    R64_SINT,
    R64_SFLOAT,
    R64G64_UINT,
    R64G64_SINT,
    R64G64_SFLOAT,
    R64G64B64_UINT,
    R64G64B64_SINT,
    R64G64B64_SFLOAT,
    R64G64B64A64_UINT,
    R64G64B64A64_SINT,
    R64G64B64A64_SFLOAT,
    B10G11R11_UFLOAT_PACK32,
    E5B9G9R9_UFLOAT_PACK32,
    D16_UNORM,
    X8_D24_UNORM_PACK32,
    D32_SFLOAT,
    S8_UINT,
    D16_UNORM_S8_UINT,
    D24_UNORM_S8_UINT,
    D32_SFLOAT_S8_UINT,
    BC1_RGB_UNORM_BLOCK,
    BC1_RGB_SRGB_BLOCK,
    BC1_RGBA_UNORM_BLOCK,
    BC1_RGBA_SRGB_BLOCK,
    BC2_UNORM_BLOCK,
    BC2_SRGB_BLOCK,
    BC3_UNORM_BLOCK,
    BC3_SRGB_BLOCK,
    BC4_UNORM_BLOCK,
    BC4_SNORM_BLOCK,
    BC5_UNORM_BLOCK,
    BC5_SNORM_BLOCK,
    BC6H_UFLOAT_BLOCK,
    BC6H_SFLOAT_BLOCK,
    BC7_UNORM_BLOCK,
    BC7_SRGB_BLOCK,
    ETC2_R8G8B8_UNORM_BLOCK,
    ETC2_R8G8B8_SRGB_BLOCK,
    ETC2_R8G8B8A1_UNORM_BLOCK,
    ETC2_R8G8B8A1_SRGB_BLOCK,
    ETC2_R8G8B8A8_UNORM_BLOCK,
    ETC2_R8G8B8A8_SRGB_BLOCK,
    EAC_R11_UNORM_BLOCK,
    EAC_R11_SNORM_BLOCK,
    EAC_R11G11_UNORM_BLOCK,
    EAC_R11G11_SNORM_BLOCK,
    ASTC_4x4_UNORM_BLOCK,
    ASTC_4x4_SRGB_BLOCK,
    ASTC_5x4_UNORM_BLOCK,
    ASTC_5x4_SRGB_BLOCK,
    ASTC_5x5_UNORM_BLOCK,
    ASTC_5x5_SRGB_BLOCK,
    ASTC_6x5_UNORM_BLOCK,
    ASTC_6x5_SRGB_BLOCK,
    ASTC_6x6_UNORM_BLOCK,
    ASTC_6x6_SRGB_BLOCK,
    ASTC_8x5_UNORM_BLOCK,
    ASTC_8x5_SRGB_BLOCK,
    ASTC_8x6_UNORM_BLOCK,
    ASTC_8x6_SRGB_BLOCK,
    ASTC_8x8_UNORM_BLOCK,
    ASTC_8x8_SRGB_BLOCK,
    ASTC_10x5_UNORM_BLOCK,
    ASTC_10x5_SRGB_BLOCK,
    ASTC_10x6_UNORM_BLOCK,
    ASTC_10x6_SRGB_BLOCK,
    ASTC_10x8_UNORM_BLOCK,
    ASTC_10x8_SRGB_BLOCK,
    ASTC_10x10_UNORM_BLOCK,
    ASTC_10x10_SRGB_BLOCK,
    ASTC_12x10_UNORM_BLOCK,
    ASTC_12x10_SRGB_BLOCK,
    ASTC_12x12_UNORM_BLOCK,
    ASTC_12x12_SRGB_BLOCK,
    ASTC_4x4_SFLOAT_BLOCK,
    ASTC_5x4_SFLOAT_BLOCK,
    ASTC_5x5_SFLOAT_BLOCK,
    ASTC_6x5_SFLOAT_BLOCK,
    ASTC_6x6_SFLOAT_BLOCK,
    ASTC_8x5_SFLOAT_BLOCK,
    ASTC_8x6_SFLOAT_BLOCK,
    ASTC_8x8_SFLOAT_BLOCK,
    ASTC_10x5_SFLOAT_BLOCK,
    ASTC_10x6_SFLOAT_BLOCK,
    ASTC_10x8_SFLOAT_BLOCK,
    ASTC_10x10_SFLOAT_BLOCK,
    ASTC_12x10_SFLOAT_BLOCK,
    ASTC_12x12_SFLOAT_BLOCK,
    /// A nonzero identifier that has no name here.
    Unknown(u32),
}

impl Format {
    /// The value that identifier `x` stands for; `None` for zero.
    pub open spec fn from_code(x: u32) -> Option<Format> {
        match x {
            0 => None,
            1 => Some(Format::R4G4_UNORM_PACK8),
            2 => Some(Format::R4G4B4A4_UNORM_PACK16),
            3 => Some(Format::B4G4R4A4_UNORM_PACK16),
            4 => Some(Format::R5G6B5_UNORM_PACK16),
            5 => Some(Format::B5G6R5_UNORM_PACK16),
            6 => Some(Format::R5G5B5A1_UNORM_PACK16),
            7 => Some(Format::B5G5R5A1_UNORM_PACK16),
            8 => Some(Format::A1R5G5B5_UNORM_PACK16),
            9 => Some(Format::R8_UNORM),
            10 => Some(Format::R8_SNORM),
            13 => Some(Format::R8_UINT),
            14 => Some(Format::R8_SINT),
            15 => Some(Format::R8_SRGB),
            16 => Some(Format::R8G8_UNORM),
            17 => Some(Format::R8G8_SNORM),
            20 => Some(Format::R8G8_UINT),
            21 => Some(Format::R8G8_SINT),
            22 => Some(Format::R8G8_SRGB),
            23 => Some(Format::R8G8B8_UNORM),
            24 => Some(Format::R8G8B8_SNORM),
            27 => Some(Format::R8G8B8_UINT),
            28 => Some(Format::R8G8B8_SINT),
            29 => Some(Format::R8G8B8_SRGB),
            30 => Some(Format::B8G8R8_UNORM),
            31 => Some(Format::B8G8R8_SNORM),
            34 => Some(Format::B8G8R8_UINT),
            35 => Some(Format::B8G8R8_SINT),
            36 => Some(Format::B8G8R8_SRGB),
            37 => Some(Format::R8G8B8A8_UNORM),
            38 => Some(Format::R8G8B8A8_SNORM),
            41 => Some(Format::R8G8B8A8_UINT),
            42 => Some(Format::R8G8B8A8_SINT),
            43 => Some(Format::R8G8B8A8_SRGB),
            44 => Some(Format::B8G8R8A8_UNORM),
            45 => Some(Format::B8G8R8A8_SNORM),
            48 => Some(Format::B8G8R8A8_UINT),
            49 => Some(Format::B8G8R8A8_SINT),
            50 => Some(Format::B8G8R8A8_SRGB),
            58 => Some(Format::A2R10G10B10_UNORM_PACK32),
            59 => Some(Format::A2R10G10B10_SNORM_PACK32),
            62 => Some(Format::A2R10G10B10_UINT_PACK32),
            63 => Some(Format::A2R10G10B10_SINT_PACK32),
            64 => Some(Format::A2B10G10R10_UNORM_PACK32),
            65 => Some(Format::A2B10G10R10_SNORM_PACK32),
            68 => Some(Format::A2B10G10R10_UINT_PACK32),
            69 => Some(Format::A2B10G10R10_SINT_PACK32),
            70 => Some(Format::R16_UNORM),
            71 => Some(Format::R16_SNORM),
            74 => Some(Format::R16_UINT),
            75 => Some(Format::R16_SINT),
            76 => Some(Format::R16_SFLOAT),
            77 => Some(Format::R16G16_UNORM),
            78 => Some(Format::R16G16_SNORM),
            81 => Some(Format::R16G16_UINT),
            82 => Some(Format::R16G16_SINT),
            83 => Some(Format::R16G16_SFLOAT),
            84 => Some(Format::R16G16B16_UNORM),
            85 => Some(Format::R16G16B16_SNORM),
            88 => Some(Format::R16G16B16_UINT),
            89 => Some(Format::R16G16B16_SINT),
            90 => Some(Format::R16G16B16_SFLOAT),
            91 => Some(Format::R16G16B16A16_UNORM),
            92 => Some(Format::R16G16B16A16_SNORM),
            95 => Some(Format::R16G16B16A16_UINT),
            96 => Some(Format::R16G16B16A16_SINT),
            97 => Some(Format::R16G16B16A16_SFLOAT),
            98 => Some(Format::R32_UINT),
            99 => Some(Format::R32_SINT),
            100 => Some(Format::R32_SFLOAT),
            101 => Some(Format::R32G32_UINT),
            102 => Some(Format::R32G32_SINT),
            103 => Some(Format::R32G32_SFLOAT),
            104 => Some(Format::R32G32B32_UINT),
            105 => Some(Format::R32G32B32_SINT),
            106 => Some(Format::R32G32B32_SFLOAT),
            107 => Some(Format::R32G32B32A32_UINT),
            108 => Some(Format::R32G32B32A32_SINT),
            109 => Some(Format::R32G32B32A32_SFLOAT),
            110 => Some(Format::R64_UINT),
            111 => Some(Format::R64_SINT),
            112 => Some(Format::R64_SFLOAT),
            113 => Some(Format::R64G64_UINT),
            114 => Some(Format::R64G64_SINT),
            115 => Some(Format::R64G64_SFLOAT),
            116 => Some(Format::R64G64B64_UINT),
            117 => Some(Format::R64G64B64_SINT),
            118 => Some(Format::R64G64B64_SFLOAT),
            119 => Some(Format::R64G64B64A64_UINT),
            120 => Some(Format::R64G64B64A64_SINT),
            121 => Some(Format::R64G64B64A64_SFLOAT),
            122 => Some(Format::B10G11R11_UFLOAT_PACK32),
            123 => Some(Format::E5B9G9R9_UFLOAT_PACK32),
            124 => Some(Format::D16_UNORM),
            125 => Some(Format::X8_D24_UNORM_PACK32),
            126 => Some(Format::D32_SFLOAT),
            127 => Some(Format::S8_UINT),
            128 => Some(Format::D16_UNORM_S8_UINT),
            129 => Some(Format::D24_UNORM_S8_UINT),
            130 => Some(Format::D32_SFLOAT_S8_UINT),
            131 => Some(Format::BC1_RGB_UNORM_BLOCK),
            132 => Some(Format::BC1_RGB_SRGB_BLOCK),
            133 => Some(Format::BC1_RGBA_UNORM_BLOCK),
            134 => Some(Format::BC1_RGBA_SRGB_BLOCK),
            135 => Some(Format::BC2_UNORM_BLOCK),
            136 => Some(Format::BC2_SRGB_BLOCK),
            137 => Some(Format::BC3_UNORM_BLOCK),
            138 => Some(Format::BC3_SRGB_BLOCK),
            139 => Some(Format::BC4_UNORM_BLOCK),
            140 => Some(Format::BC4_SNORM_BLOCK),
            141 => Some(Format::BC5_UNORM_BLOCK),
            142 => Some(Format::BC5_SNORM_BLOCK),
            143 => Some(Format::BC6H_UFLOAT_BLOCK),
            144 => Some(Format::BC6H_SFLOAT_BLOCK),
            145 => Some(Format::BC7_UNORM_BLOCK),
            146 => Some(Format::BC7_SRGB_BLOCK),
            147 => Some(Format::ETC2_R8G8B8_UNORM_BLOCK),
            148 => Some(Format::ETC2_R8G8B8_SRGB_BLOCK),
            149 => Some(Format::ETC2_R8G8B8A1_UNORM_BLOCK),
            150 => Some(Format::ETC2_R8G8B8A1_SRGB_BLOCK),
            151 => Some(Format::ETC2_R8G8B8A8_UNORM_BLOCK),
            152 => Some(Format::ETC2_R8G8B8A8_SRGB_BLOCK),
            153 => Some(Format::EAC_R11_UNORM_BLOCK),
            154 => Some(Format::EAC_R11_SNORM_BLOCK),
            155 => Some(Format::EAC_R11G11_UNORM_BLOCK),
            156 => Some(Format::EAC_R11G11_SNORM_BLOCK),
            157 => Some(Format::ASTC_4x4_UNORM_BLOCK),
            158 => Some(Format::ASTC_4x4_SRGB_BLOCK),
            159 => Some(Format::ASTC_5x4_UNORM_BLOCK),
            160 => Some(Format::ASTC_5x4_SRGB_BLOCK),
            161 => Some(Format::ASTC_5x5_UNORM_BLOCK),
            162 => Some(Format::ASTC_5x5_SRGB_BLOCK),
            163 => Some(Format::ASTC_6x5_UNORM_BLOCK),
            164 => Some(Format::ASTC_6x5_SRGB_BLOCK),
            165 => Some(Format::ASTC_6x6_UNORM_BLOCK),
            166 => Some(Format::ASTC_6x6_SRGB_BLOCK),
            167 => Some(Format::ASTC_8x5_UNORM_BLOCK),
            168 => Some(Format::ASTC_8x5_SRGB_BLOCK),
            169 => Some(Format::ASTC_8x6_UNORM_BLOCK),
            170 => Some(Format::ASTC_8x6_SRGB_BLOCK),
            171 => Some(Format::ASTC_8x8_UNORM_BLOCK),
            172 => Some(Format::ASTC_8x8_SRGB_BLOCK),
            173 => Some(Format::ASTC_10x5_UNORM_BLOCK),
            174 => Some(Format::ASTC_10x5_SRGB_BLOCK),
            175 => Some(Format::ASTC_10x6_UNORM_BLOCK),
            176 => Some(Format::ASTC_10x6_SRGB_BLOCK),
            177 => Some(Format::ASTC_10x8_UNORM_BLOCK),
            178 => Some(Format::ASTC_10x8_SRGB_BLOCK),
            179 => Some(Format::ASTC_10x10_UNORM_BLOCK),
            180 => Some(Format::ASTC_10x10_SRGB_BLOCK),
            181 => Some(Format::ASTC_12x10_UNORM_BLOCK),
            182 => Some(Format::ASTC_12x10_SRGB_BLOCK),
            183 => Some(Format::ASTC_12x12_UNORM_BLOCK),
            184 => Some(Format::ASTC_12x12_SRGB_BLOCK),
            1000066000 => Some(Format::ASTC_4x4_SFLOAT_BLOCK),
            1000066001 => Some(Format::ASTC_5x4_SFLOAT_BLOCK),
            1000066002 => Some(Format::ASTC_5x5_SFLOAT_BLOCK),
            1000066003 => Some(Format::ASTC_6x5_SFLOAT_BLOCK),
            1000066004 => Some(Format::ASTC_6x6_SFLOAT_BLOCK),
            1000066005 => Some(Format::ASTC_8x5_SFLOAT_BLOCK),
            1000066006 => Some(Format::ASTC_8x6_SFLOAT_BLOCK),
            1000066007 => Some(Format::ASTC_8x8_SFLOAT_BLOCK),
            1000066008 => Some(Format::ASTC_10x5_SFLOAT_BLOCK),
            1000066009 => Some(Format::ASTC_10x6_SFLOAT_BLOCK),
            1000066010 => Some(Format::ASTC_10x8_SFLOAT_BLOCK),
            1000066011 => Some(Format::ASTC_10x10_SFLOAT_BLOCK),
            1000066012 => Some(Format::ASTC_12x10_SFLOAT_BLOCK),
            1000066013 => Some(Format::ASTC_12x12_SFLOAT_BLOCK),
            _ => Some(Format::Unknown(x)),
        }
    }

    /// The identifier of this value.
    pub open spec fn code(self) -> u32 {
        match self {
            Format::R4G4_UNORM_PACK8 => 1,
            Format::R4G4B4A4_UNORM_PACK16 => 2,
            Format::B4G4R4A4_UNORM_PACK16 => 3,
            Format::R5G6B5_UNORM_PACK16 => 4,
            Format::B5G6R5_UNORM_PACK16 => 5,
            Format::R5G5B5A1_UNORM_PACK16 => 6,
            Format::B5G5R5A1_UNORM_PACK16 => 7,
            Format::A1R5G5B5_UNORM_PACK16 => 8,
            Format::R8_UNORM => 9,
            Format::R8_SNORM => 10,
            Format::R8_UINT => 13,
            Format::R8_SINT => 14,
            Format::R8_SRGB => 15,
            Format::R8G8_UNORM => 16,
            Format::R8G8_SNORM => 17,
            Format::R8G8_UINT => 20,
            Format::R8G8_SINT => 21,
            Format::R8G8_SRGB => 22,
            Format::R8G8B8_UNORM => 23,
            Format::R8G8B8_SNORM => 24,
            Format::R8G8B8_UINT => 27,
            Format::R8G8B8_SINT => 28,
            Format::R8G8B8_SRGB => 29,
            Format::B8G8R8_UNORM => 30,
            Format::B8G8R8_SNORM => 31,
            Format::B8G8R8_UINT => 34,
            Format::B8G8R8_SINT => 35,
            Format::B8G8R8_SRGB => 36,
            Format::R8G8B8A8_UNORM => 37,
            Format::R8G8B8A8_SNORM => 38,
            Format::R8G8B8A8_UINT => 41,
            Format::R8G8B8A8_SINT => 42,
            Format::R8G8B8A8_SRGB => 43,
            Format::B8G8R8A8_UNORM => 44,
            Format::B8G8R8A8_SNORM => 45,
            Format::B8G8R8A8_UINT => 48,
            Format::B8G8R8A8_SINT => 49,
            Format::B8G8R8A8_SRGB => 50,
            Format::A2R10G10B10_UNORM_PACK32 => 58,
            Format::A2R10G10B10_SNORM_PACK32 => 59,
            Format::A2R10G10B10_UINT_PACK32 => 62,
            Format::A2R10G10B10_SINT_PACK32 => 63,
            Format::A2B10G10R10_UNORM_PACK32 => 64,
            Format::A2B10G10R10_SNORM_PACK32 => 65,
            Format::A2B10G10R10_UINT_PACK32 => 68,
            Format::A2B10G10R10_SINT_PACK32 => 69,
            Format::R16_UNORM => 70,
            Format::R16_SNORM => 71,
            Format::R16_UINT => 74,
            Format::R16_SINT => 75,
            Format::R16_SFLOAT => 76,
            Format::R16G16_UNORM => 77,
            Format::R16G16_SNORM => 78,
            Format::R16G16_UINT => 81,
            Format::R16G16_SINT => 82,
            Format::R16G16_SFLOAT => 83,
            Format::R16G16B16_UNORM => 84,
            Format::R16G16B16_SNORM => 85,
            Format::R16G16B16_UINT => 88,
            Format::R16G16B16_SINT => 89,
            Format::R16G16B16_SFLOAT => 90,
            Format::R16G16B16A16_UNORM => 91,
            Format::R16G16B16A16_SNORM => 92,
            Format::R16G16B16A16_UINT => 95,
            Format::R16G16B16A16_SINT => 96,
            Format::R16G16B16A16_SFLOAT => 97,
            Format::R32_UINT => 98,
            Format::R32_SINT => 99,
            Format::R32_SFLOAT => 100,
            Format::R32G32_UINT => 101,
            Format::R32G32_SINT => 102,
            Format::R32G32_SFLOAT => 103,
            Format::R32G32B32_UINT => 104,
            Format::R32G32B32_SINT => 105,
            Format::R32G32B32_SFLOAT => 106,
            Format::R32G32B32A32_UINT => 107,
            Format::R32G32B32A32_SINT => 108,
            Format::R32G32B32A32_SFLOAT => 109,
            Format::R64_UINT => 110,
            Format::R64_SINT => 111,
            Format::R64_SFLOAT => 112,
            Format::R64G64_UINT => 113,
            Format::R64G64_SINT => 114,
            Format::R64G64_SFLOAT => 115,
            Format::R64G64B64_UINT => 116,
            Format::R64G64B64_SINT => 117,
            Format::R64G64B64_SFLOAT => 118,
            Format::R64G64B64A64_UINT => 119,
            Format::R64G64B64A64_SINT => 120,
            Format::R64G64B64A64_SFLOAT => 121,
            Format::B10G11R11_UFLOAT_PACK32 => 122,
            Format::E5B9G9R9_UFLOAT_PACK32 => 123,
            Format::D16_UNORM => 124,
            Format::X8_D24_UNORM_PACK32 => 125,
            Format::D32_SFLOAT => 126,
            Format::S8_UINT => 127,
            Format::D16_UNORM_S8_UINT => 128,
            Format::D24_UNORM_S8_UINT => 129,
            Format::D32_SFLOAT_S8_UINT => 130,
            Format::BC1_RGB_UNORM_BLOCK => 131,
            Format::BC1_RGB_SRGB_BLOCK => 132,
            Format::BC1_RGBA_UNORM_BLOCK => 133,
            Format::BC1_RGBA_SRGB_BLOCK => 134,
            Format::BC2_UNORM_BLOCK => 135,
            Format::BC2_SRGB_BLOCK => 136,
            Format::BC3_UNORM_BLOCK => 137,
            Format::BC3_SRGB_BLOCK => 138,
            Format::BC4_UNORM_BLOCK => 139,
            Format::BC4_SNORM_BLOCK => 140,
            Format::BC5_UNORM_BLOCK => 141,
            Format::BC5_SNORM_BLOCK => 142,
            Format::BC6H_UFLOAT_BLOCK => 143,
            Format::BC6H_SFLOAT_BLOCK => 144,
            Format::BC7_UNORM_BLOCK => 145,
            Format::BC7_SRGB_BLOCK => 146,
            Format::ETC2_R8G8B8_UNORM_BLOCK => 147,
            Format::ETC2_R8G8B8_SRGB_BLOCK => 148,
            Format::ETC2_R8G8B8A1_UNORM_BLOCK => 149,
            Format::ETC2_R8G8B8A1_SRGB_BLOCK => 150,
            Format::ETC2_R8G8B8A8_UNORM_BLOCK => 151,
            Format::ETC2_R8G8B8A8_SRGB_BLOCK => 152,
            Format::EAC_R11_UNORM_BLOCK => 153,
            Format::EAC_R11_SNORM_BLOCK => 154,
            Format::EAC_R11G11_UNORM_BLOCK => 155,
            Format::EAC_R11G11_SNORM_BLOCK => 156,
            Format::ASTC_4x4_UNORM_BLOCK => 157,
            Format::ASTC_4x4_SRGB_BLOCK => 158,
            Format::ASTC_5x4_UNORM_BLOCK => 159,
            Format::ASTC_5x4_SRGB_BLOCK => 160,
            Format::ASTC_5x5_UNORM_BLOCK => 161,
            Format::ASTC_5x5_SRGB_BLOCK => 162,
            Format::ASTC_6x5_UNORM_BLOCK => 163,
            Format::ASTC_6x5_SRGB_BLOCK => 164,
            Format::ASTC_6x6_UNORM_BLOCK => 165,
            Format::ASTC_6x6_SRGB_BLOCK => 166,
            Format::ASTC_8x5_UNORM_BLOCK => 167,
            Format::ASTC_8x5_SRGB_BLOCK => 168,
            Format::ASTC_8x6_UNORM_BLOCK => 169,
            Format::ASTC_8x6_SRGB_BLOCK => 170,
            Format::ASTC_8x8_UNORM_BLOCK => 171,
            Format::ASTC_8x8_SRGB_BLOCK => 172,
            Format::ASTC_10x5_UNORM_BLOCK => 173,
            Format::ASTC_10x5_SRGB_BLOCK => 174,
            Format::ASTC_10x6_UNORM_BLOCK => 175,
            Format::ASTC_10x6_SRGB_BLOCK => 176,
            Format::ASTC_10x8_UNORM_BLOCK => 177,
            Format::ASTC_10x8_SRGB_BLOCK => 178,
            Format::ASTC_10x10_UNORM_BLOCK => 179,
            Format::ASTC_10x10_SRGB_BLOCK => 180,
            Format::ASTC_12x10_UNORM_BLOCK => 181,
            Format::ASTC_12x10_SRGB_BLOCK => 182,
            Format::ASTC_12x12_UNORM_BLOCK => 183,
            Format::ASTC_12x12_SRGB_BLOCK => 184,
            Format::ASTC_4x4_SFLOAT_BLOCK => 1000066000,
            Format::ASTC_5x4_SFLOAT_BLOCK => 1000066001,
            Format::ASTC_5x5_SFLOAT_BLOCK => 1000066002,
            Format::ASTC_6x5_SFLOAT_BLOCK => 1000066003,
            Format::ASTC_6x6_SFLOAT_BLOCK => 1000066004,
            Format::ASTC_8x5_SFLOAT_BLOCK => 1000066005,
            Format::ASTC_8x6_SFLOAT_BLOCK => 1000066006,
            Format::ASTC_8x8_SFLOAT_BLOCK => 1000066007,
            Format::ASTC_10x5_SFLOAT_BLOCK => 1000066008,
            Format::ASTC_10x6_SFLOAT_BLOCK => 1000066009,
            Format::ASTC_10x8_SFLOAT_BLOCK => 1000066010,
            Format::ASTC_10x10_SFLOAT_BLOCK => 1000066011,
            Format::ASTC_12x10_SFLOAT_BLOCK => 1000066012,
            Format::ASTC_12x12_SFLOAT_BLOCK => 1000066013,
            Format::Unknown(x) => x,
        }
    }

    /// An `Unknown` value holds a nonzero identifier without a name.
    pub open spec fn wf(self) -> bool {
        match self {
            Format::Unknown(x) => x != 0 && Format::from_code(x) == Some(self),
            _ => true,
        }
    }

    /// Decodes an identifier; `None` for zero.
    pub fn new(x: u32) -> (r: Option<Format>)
        ensures
            r == Format::from_code(x),
    {
        match x {
            0 => None,
            1 => Some(Format::R4G4_UNORM_PACK8),
            2 => Some(Format::R4G4B4A4_UNORM_PACK16),
            3 => Some(Format::B4G4R4A4_UNORM_PACK16),
            4 => Some(Format::R5G6B5_UNORM_PACK16),
            5 => Some(Format::B5G6R5_UNORM_PACK16),
            6 => Some(Format::R5G5B5A1_UNORM_PACK16),
            7 => Some(Format::B5G5R5A1_UNORM_PACK16),
            8 => Some(Format::A1R5G5B5_UNORM_PACK16),
            9 => Some(Format::R8_UNORM),
            10 => Some(Format::R8_SNORM),
            13 => Some(Format::R8_UINT),
            14 => Some(Format::R8_SINT),
            15 => Some(Format::R8_SRGB),
            16 => Some(Format::R8G8_UNORM),
            17 => Some(Format::R8G8_SNORM),
            20 => Some(Format::R8G8_UINT),
            21 => Some(Format::R8G8_SINT),
            22 => Some(Format::R8G8_SRGB),
            23 => Some(Format::R8G8B8_UNORM),
            24 => Some(Format::R8G8B8_SNORM),
            27 => Some(Format::R8G8B8_UINT),
            28 => Some(Format::R8G8B8_SINT),
            29 => Some(Format::R8G8B8_SRGB),
            30 => Some(Format::B8G8R8_UNORM),
            31 => Some(Format::B8G8R8_SNORM),
            34 => Some(Format::B8G8R8_UINT),
            35 => Some(Format::B8G8R8_SINT),
            36 => Some(Format::B8G8R8_SRGB),
            37 => Some(Format::R8G8B8A8_UNORM),
            38 => Some(Format::R8G8B8A8_SNORM),
            41 => Some(Format::R8G8B8A8_UINT),
            42 => Some(Format::R8G8B8A8_SINT),
            43 => Some(Format::R8G8B8A8_SRGB),
            44 => Some(Format::B8G8R8A8_UNORM),
            45 => Some(Format::B8G8R8A8_SNORM),
            48 => Some(Format::B8G8R8A8_UINT),
            49 => Some(Format::B8G8R8A8_SINT),
            50 => Some(Format::B8G8R8A8_SRGB),
            58 => Some(Format::A2R10G10B10_UNORM_PACK32),
            59 => Some(Format::A2R10G10B10_SNORM_PACK32),
            62 => Some(Format::A2R10G10B10_UINT_PACK32),
            63 => Some(Format::A2R10G10B10_SINT_PACK32),
            64 => Some(Format::A2B10G10R10_UNORM_PACK32),
            65 => Some(Format::A2B10G10R10_SNORM_PACK32),
            68 => Some(Format::A2B10G10R10_UINT_PACK32),
            69 => Some(Format::A2B10G10R10_SINT_PACK32),
            70 => Some(Format::R16_UNORM),
            71 => Some(Format::R16_SNORM),
            74 => Some(Format::R16_UINT),
            75 => Some(Format::R16_SINT),
            76 => Some(Format::R16_SFLOAT),
            77 => Some(Format::R16G16_UNORM),
            78 => Some(Format::R16G16_SNORM),
            81 => Some(Format::R16G16_UINT),
            82 => Some(Format::R16G16_SINT),
            83 => Some(Format::R16G16_SFLOAT),
            84 => Some(Format::R16G16B16_UNORM),
            85 => Some(Format::R16G16B16_SNORM),
            88 => Some(Format::R16G16B16_UINT),
            89 => Some(Format::R16G16B16_SINT),
            90 => Some(Format::R16G16B16_SFLOAT),
            91 => Some(Format::R16G16B16A16_UNORM),
            92 => Some(Format::R16G16B16A16_SNORM),
            95 => Some(Format::R16G16B16A16_UINT),
            96 => Some(Format::R16G16B16A16_SINT),
            97 => Some(Format::R16G16B16A16_SFLOAT),
            98 => Some(Format::R32_UINT),
            99 => Some(Format::R32_SINT),
            100 => Some(Format::R32_SFLOAT),
            101 => Some(Format::R32G32_UINT),
            102 => Some(Format::R32G32_SINT),
            103 => Some(Format::R32G32_SFLOAT),
            104 => Some(Format::R32G32B32_UINT),
            105 => Some(Format::R32G32B32_SINT),
            106 => Some(Format::R32G32B32_SFLOAT),
            107 => Some(Format::R32G32B32A32_UINT),
            108 => Some(Format::R32G32B32A32_SINT),
            109 => Some(Format::R32G32B32A32_SFLOAT),
            110 => Some(Format::R64_UINT),
            111 => Some(Format::R64_SINT),
            112 => Some(Format::R64_SFLOAT),
            113 => Some(Format::R64G64_UINT),
            114 => Some(Format::R64G64_SINT),
            115 => Some(Format::R64G64_SFLOAT),
            116 => Some(Format::R64G64B64_UINT),
            117 => Some(Format::R64G64B64_SINT),
            118 => Some(Format::R64G64B64_SFLOAT),
            119 => Some(Format::R64G64B64A64_UINT),
            120 => Some(Format::R64G64B64A64_SINT),
            121 => Some(Format::R64G64B64A64_SFLOAT),
            122 => Some(Format::B10G11R11_UFLOAT_PACK32),
            123 => Some(Format::E5B9G9R9_UFLOAT_PACK32),
            124 => Some(Format::D16_UNORM),
            125 => Some(Format::X8_D24_UNORM_PACK32),
            126 => Some(Format::D32_SFLOAT),
            127 => Some(Format::S8_UINT),
            128 => Some(Format::D16_UNORM_S8_UINT),
            129 => Some(Format::D24_UNORM_S8_UINT),
            130 => Some(Format::D32_SFLOAT_S8_UINT),
            131 => Some(Format::BC1_RGB_UNORM_BLOCK),
            132 => Some(Format::BC1_RGB_SRGB_BLOCK),
            133 => Some(Format::BC1_RGBA_UNORM_BLOCK),
            134 => Some(Format::BC1_RGBA_SRGB_BLOCK),
            135 => Some(Format::BC2_UNORM_BLOCK),
            136 => Some(Format::BC2_SRGB_BLOCK),
            137 => Some(Format::BC3_UNORM_BLOCK),
            138 => Some(Format::BC3_SRGB_BLOCK),
            139 => Some(Format::BC4_UNORM_BLOCK),
            140 => Some(Format::BC4_SNORM_BLOCK),
            141 => Some(Format::BC5_UNORM_BLOCK),
            142 => Some(Format::BC5_SNORM_BLOCK),
            143 => Some(Format::BC6H_UFLOAT_BLOCK),
            144 => Some(Format::BC6H_SFLOAT_BLOCK),
            145 => Some(Format::BC7_UNORM_BLOCK),
            146 => Some(Format::BC7_SRGB_BLOCK),
            147 => Some(Format::ETC2_R8G8B8_UNORM_BLOCK),
            148 => Some(Format::ETC2_R8G8B8_SRGB_BLOCK),
            149 => Some(Format::ETC2_R8G8B8A1_UNORM_BLOCK),
            150 => Some(Format::ETC2_R8G8B8A1_SRGB_BLOCK),
            151 => Some(Format::ETC2_R8G8B8A8_UNORM_BLOCK),
            152 => Some(Format::ETC2_R8G8B8A8_SRGB_BLOCK),
            153 => Some(Format::EAC_R11_UNORM_BLOCK),
            154 => Some(Format::EAC_R11_SNORM_BLOCK),
            155 => Some(Format::EAC_R11G11_UNORM_BLOCK),
            156 => Some(Format::EAC_R11G11_SNORM_BLOCK),
            157 => Some(Format::ASTC_4x4_UNORM_BLOCK),
            158 => Some(Format::ASTC_4x4_SRGB_BLOCK),
            159 => Some(Format::ASTC_5x4_UNORM_BLOCK),
            160 => Some(Format::ASTC_5x4_SRGB_BLOCK),
            161 => Some(Format::ASTC_5x5_UNORM_BLOCK),
            162 => Some(Format::ASTC_5x5_SRGB_BLOCK),
            163 => Some(Format::ASTC_6x5_UNORM_BLOCK),
            164 => Some(Format::ASTC_6x5_SRGB_BLOCK),
            165 => Some(Format::ASTC_6x6_UNORM_BLOCK),
            166 => Some(Format::ASTC_6x6_SRGB_BLOCK),
            167 => Some(Format::ASTC_8x5_UNORM_BLOCK),
            168 => Some(Format::ASTC_8x5_SRGB_BLOCK),
            169 => Some(Format::ASTC_8x6_UNORM_BLOCK),
            170 => Some(Format::ASTC_8x6_SRGB_BLOCK),
            171 => Some(Format::ASTC_8x8_UNORM_BLOCK),
            172 => Some(Format::ASTC_8x8_SRGB_BLOCK),
            173 => Some(Format::ASTC_10x5_UNORM_BLOCK),
            174 => Some(Format::ASTC_10x5_SRGB_BLOCK),
            175 => Some(Format::ASTC_10x6_UNORM_BLOCK),
            176 => Some(Format::ASTC_10x6_SRGB_BLOCK),
            177 => Some(Format::ASTC_10x8_UNORM_BLOCK),
            178 => Some(Format::ASTC_10x8_SRGB_BLOCK),
            179 => Some(Format::ASTC_10x10_UNORM_BLOCK),
            180 => Some(Format::ASTC_10x10_SRGB_BLOCK),
            181 => Some(Format::ASTC_12x10_UNORM_BLOCK),
            182 => Some(Format::ASTC_12x10_SRGB_BLOCK),
            183 => Some(Format::ASTC_12x12_UNORM_BLOCK),
            184 => Some(Format::ASTC_12x12_SRGB_BLOCK),
            1000066000 => Some(Format::ASTC_4x4_SFLOAT_BLOCK),
            1000066001 => Some(Format::ASTC_5x4_SFLOAT_BLOCK),
            1000066002 => Some(Format::ASTC_5x5_SFLOAT_BLOCK),
            1000066003 => Some(Format::ASTC_6x5_SFLOAT_BLOCK),
            1000066004 => Some(Format::ASTC_6x6_SFLOAT_BLOCK),
            1000066005 => Some(Format::ASTC_8x5_SFLOAT_BLOCK),
            1000066006 => Some(Format::ASTC_8x6_SFLOAT_BLOCK),
            1000066007 => Some(Format::ASTC_8x8_SFLOAT_BLOCK),
            1000066008 => Some(Format::ASTC_10x5_SFLOAT_BLOCK),
            1000066009 => Some(Format::ASTC_10x6_SFLOAT_BLOCK),
            1000066010 => Some(Format::ASTC_10x8_SFLOAT_BLOCK),
            1000066011 => Some(Format::ASTC_10x10_SFLOAT_BLOCK),
            1000066012 => Some(Format::ASTC_12x10_SFLOAT_BLOCK),
            1000066013 => Some(Format::ASTC_12x12_SFLOAT_BLOCK),
            _ => Some(Format::Unknown(x)),
        }
    }

    /// The identifier of this value.
    pub fn value(&self) -> (r: u32)
        ensures
            r == self.code(),
    {
        match self {
            Format::R4G4_UNORM_PACK8 => 1,
            Format::R4G4B4A4_UNORM_PACK16 => 2,
            Format::B4G4R4A4_UNORM_PACK16 => 3,
            Format::R5G6B5_UNORM_PACK16 => 4,
            Format::B5G6R5_UNORM_PACK16 => 5,
            Format::R5G5B5A1_UNORM_PACK16 => 6,
            Format::B5G5R5A1_UNORM_PACK16 => 7,
            Format::A1R5G5B5_UNORM_PACK16 => 8,
            Format::R8_UNORM => 9,
            Format::R8_SNORM => 10,
            Format::R8_UINT => 13,
            Format::R8_SINT => 14,
            Format::R8_SRGB => 15,
            Format::R8G8_UNORM => 16,
            Format::R8G8_SNORM => 17,
            Format::R8G8_UINT => 20,
            Format::R8G8_SINT => 21,
            Format::R8G8_SRGB => 22,
            Format::R8G8B8_UNORM => 23,
            Format::R8G8B8_SNORM => 24,
            Format::R8G8B8_UINT => 27,
            Format::R8G8B8_SINT => 28,
            Format::R8G8B8_SRGB => 29,
            Format::B8G8R8_UNORM => 30,
            Format::B8G8R8_SNORM => 31,
            Format::B8G8R8_UINT => 34,
            Format::B8G8R8_SINT => 35,
            Format::B8G8R8_SRGB => 36,
            Format::R8G8B8A8_UNORM => 37,
            Format::R8G8B8A8_SNORM => 38,
            Format::R8G8B8A8_UINT => 41,
            Format::R8G8B8A8_SINT => 42,
            Format::R8G8B8A8_SRGB => 43,
            Format::B8G8R8A8_UNORM => 44,
            Format::B8G8R8A8_SNORM => 45,
            Format::B8G8R8A8_UINT => 48,
            Format::B8G8R8A8_SINT => 49,
            Format::B8G8R8A8_SRGB => 50,
            Format::A2R10G10B10_UNORM_PACK32 => 58,
            Format::A2R10G10B10_SNORM_PACK32 => 59,
            Format::A2R10G10B10_UINT_PACK32 => 62,
            Format::A2R10G10B10_SINT_PACK32 => 63,
            Format::A2B10G10R10_UNORM_PACK32 => 64,
            Format::A2B10G10R10_SNORM_PACK32 => 65,
            Format::A2B10G10R10_UINT_PACK32 => 68,
            Format::A2B10G10R10_SINT_PACK32 => 69,
            Format::R16_UNORM => 70,
            Format::R16_SNORM => 71,
            Format::R16_UINT => 74,
            Format::R16_SINT => 75,
            Format::R16_SFLOAT => 76,
            Format::R16G16_UNORM => 77,
            Format::R16G16_SNORM => 78,
            Format::R16G16_UINT => 81,
            Format::R16G16_SINT => 82,
            Format::R16G16_SFLOAT => 83,
            Format::R16G16B16_UNORM => 84,
            Format::R16G16B16_SNORM => 85,
            Format::R16G16B16_UINT => 88,
            Format::R16G16B16_SINT => 89,
            Format::R16G16B16_SFLOAT => 90,
            Format::R16G16B16A16_UNORM => 91,
            Format::R16G16B16A16_SNORM => 92,
            Format::R16G16B16A16_UINT => 95,
            Format::R16G16B16A16_SINT => 96,
            Format::R16G16B16A16_SFLOAT => 97,
            Format::R32_UINT => 98,
            Format::R32_SINT => 99,
            Format::R32_SFLOAT => 100,
            Format::R32G32_UINT => 101,
            Format::R32G32_SINT => 102,
            Format::R32G32_SFLOAT => 103,
            Format::R32G32B32_UINT => 104,
            Format::R32G32B32_SINT => 105,
            Format::R32G32B32_SFLOAT => 106,
            Format::R32G32B32A32_UINT => 107,
            Format::R32G32B32A32_SINT => 108,
            Format::R32G32B32A32_SFLOAT => 109,
            Format::R64_UINT => 110,
            Format::R64_SINT => 111,
            Format::R64_SFLOAT => 112,
            Format::R64G64_UINT => 113,
            Format::R64G64_SINT => 114,
            Format::R64G64_SFLOAT => 115,
            Format::R64G64B64_UINT => 116,
            Format::R64G64B64_SINT => 117,
            Format::R64G64B64_SFLOAT => 118,
            Format::R64G64B64A64_UINT => 119,
            Format::R64G64B64A64_SINT => 120,
            Format::R64G64B64A64_SFLOAT => 121,
            Format::B10G11R11_UFLOAT_PACK32 => 122,
            Format::E5B9G9R9_UFLOAT_PACK32 => 123,
            Format::D16_UNORM => 124,
            Format::X8_D24_UNORM_PACK32 => 125,
            Format::D32_SFLOAT => 126,
            Format::S8_UINT => 127,
            Format::D16_UNORM_S8_UINT => 128,
            Format::D24_UNORM_S8_UINT => 129,
            Format::D32_SFLOAT_S8_UINT => 130,
            Format::BC1_RGB_UNORM_BLOCK => 131,
            Format::BC1_RGB_SRGB_BLOCK => 132,
            Format::BC1_RGBA_UNORM_BLOCK => 133,
            Format::BC1_RGBA_SRGB_BLOCK => 134,
            Format::BC2_UNORM_BLOCK => 135,
            Format::BC2_SRGB_BLOCK => 136,
            Format::BC3_UNORM_BLOCK => 137,
            Format::BC3_SRGB_BLOCK => 138,
            Format::BC4_UNORM_BLOCK => 139,
            Format::BC4_SNORM_BLOCK => 140,
            Format::BC5_UNORM_BLOCK => 141,
            Format::BC5_SNORM_BLOCK => 142,
            Format::BC6H_UFLOAT_BLOCK => 143,
            Format::BC6H_SFLOAT_BLOCK => 144,
            Format::BC7_UNORM_BLOCK => 145,
            Format::BC7_SRGB_BLOCK => 146,
            Format::ETC2_R8G8B8_UNORM_BLOCK => 147,
            Format::ETC2_R8G8B8_SRGB_BLOCK => 148,
            Format::ETC2_R8G8B8A1_UNORM_BLOCK => 149,
            Format::ETC2_R8G8B8A1_SRGB_BLOCK => 150,
            Format::ETC2_R8G8B8A8_UNORM_BLOCK => 151,
            Format::ETC2_R8G8B8A8_SRGB_BLOCK => 152,
            Format::EAC_R11_UNORM_BLOCK => 153,
            Format::EAC_R11_SNORM_BLOCK => 154,
            Format::EAC_R11G11_UNORM_BLOCK => 155,
            Format::EAC_R11G11_SNORM_BLOCK => 156,
            Format::ASTC_4x4_UNORM_BLOCK => 157,
            Format::ASTC_4x4_SRGB_BLOCK => 158,
            Format::ASTC_5x4_UNORM_BLOCK => 159,
            Format::ASTC_5x4_SRGB_BLOCK => 160,
            Format::ASTC_5x5_UNORM_BLOCK => 161,
            Format::ASTC_5x5_SRGB_BLOCK => 162,
            Format::ASTC_6x5_UNORM_BLOCK => 163,
            Format::ASTC_6x5_SRGB_BLOCK => 164,
            Format::ASTC_6x6_UNORM_BLOCK => 165,
            Format::ASTC_6x6_SRGB_BLOCK => 166,
            Format::ASTC_8x5_UNORM_BLOCK => 167,
            Format::ASTC_8x5_SRGB_BLOCK => 168,
            Format::ASTC_8x6_UNORM_BLOCK => 169,
            Format::ASTC_8x6_SRGB_BLOCK => 170,
            Format::ASTC_8x8_UNORM_BLOCK => 171,
            Format::ASTC_8x8_SRGB_BLOCK => 172,
            Format::ASTC_10x5_UNORM_BLOCK => 173,
            Format::ASTC_10x5_SRGB_BLOCK => 174,
            Format::ASTC_10x6_UNORM_BLOCK => 175,
            Format::ASTC_10x6_SRGB_BLOCK => 176,
            Format::ASTC_10x8_UNORM_BLOCK => 177,
            Format::ASTC_10x8_SRGB_BLOCK => 178,
            Format::ASTC_10x10_UNORM_BLOCK => 179,
            Format::ASTC_10x10_SRGB_BLOCK => 180,
            Format::ASTC_12x10_UNORM_BLOCK => 181,
            Format::ASTC_12x10_SRGB_BLOCK => 182,
            Format::ASTC_12x12_UNORM_BLOCK => 183,
            Format::ASTC_12x12_SRGB_BLOCK => 184,
            Format::ASTC_4x4_SFLOAT_BLOCK => 1000066000,
            Format::ASTC_5x4_SFLOAT_BLOCK => 1000066001,
            Format::ASTC_5x5_SFLOAT_BLOCK => 1000066002,
            Format::ASTC_6x5_SFLOAT_BLOCK => 1000066003,
            Format::ASTC_6x6_SFLOAT_BLOCK => 1000066004,
            Format::ASTC_8x5_SFLOAT_BLOCK => 1000066005,
            Format::ASTC_8x6_SFLOAT_BLOCK => 1000066006,
            Format::ASTC_8x8_SFLOAT_BLOCK => 1000066007,
            Format::ASTC_10x5_SFLOAT_BLOCK => 1000066008,
            Format::ASTC_10x6_SFLOAT_BLOCK => 1000066009,
            Format::ASTC_10x8_SFLOAT_BLOCK => 1000066010,
            Format::ASTC_10x10_SFLOAT_BLOCK => 1000066011,
            Format::ASTC_12x10_SFLOAT_BLOCK => 1000066012,
            Format::ASTC_12x12_SFLOAT_BLOCK => 1000066013,
            Format::Unknown(x) => *x,
        }
    }

    /// Decoding a nonzero identifier gives a well-formed value that carries
    /// the same identifier, and a well-formed value decodes back from its own.
    pub proof fn lemma_code_round_trip(x: u32, f: Format)
        ensures
            x == 0 <==> Format::from_code(x) is None,
            x != 0 ==> Format::from_code(x)->Some_0.code() == x && Format::from_code(x)->Some_0.wf(),
            f.wf() ==> f.code() != 0 && Format::from_code(f.code()) == Some(f),
    {
    }
}

/// Known supercompression schemes.
#[allow(non_camel_case_types)]
#[derive(Debug, Clone, Copy, PartialEq, Eq, Structural)]
pub enum SupercompressionScheme {
    BasisLZ,
    Zstandard,
    ZLIB,
    /// A nonzero identifier that has no name here.
    Unknown(u32),
}

impl SupercompressionScheme {
    /// The value that identifier `x` stands for; `None` for zero.
    pub open spec fn from_code(x: u32) -> Option<SupercompressionScheme> {
        match x {
            0 => None,
            1 => Some(SupercompressionScheme::BasisLZ),
            2 => Some(SupercompressionScheme::Zstandard),
            3 => Some(SupercompressionScheme::ZLIB),
            _ => Some(SupercompressionScheme::Unknown(x)),
        }
    }

    /// The identifier of this value.
    pub open spec fn code(self) -> u32 {
        match self {
            SupercompressionScheme::BasisLZ => 1,
            SupercompressionScheme::Zstandard => 2,
            SupercompressionScheme::ZLIB => 3,
            SupercompressionScheme::Unknown(x) => x,
        }
    }

    /// An `Unknown` value holds a nonzero identifier without a name.
    pub open spec fn wf(self) -> bool {
        match self {
            SupercompressionScheme::Unknown(x) => x != 0 && SupercompressionScheme::from_code(x) == Some(self),
            _ => true,
        }
    }

    /// Decodes an identifier; `None` for zero.
    pub fn new(x: u32) -> (r: Option<SupercompressionScheme>)
        ensures
            r == SupercompressionScheme::from_code(x),
    {
        match x {
            0 => None,
            1 => Some(SupercompressionScheme::BasisLZ),
            2 => Some(SupercompressionScheme::Zstandard),
            3 => Some(SupercompressionScheme::ZLIB),
            _ => Some(SupercompressionScheme::Unknown(x)),
        }
    }

    /// The identifier of this value.
    pub fn value(&self) -> (r: u32)
        ensures
            r == self.code(),
    {
        match self {
            SupercompressionScheme::BasisLZ => 1,
            SupercompressionScheme::Zstandard => 2,
            SupercompressionScheme::ZLIB => 3,
            SupercompressionScheme::Unknown(x) => *x,
        }
    }

    /// Decoding a nonzero identifier gives a well-formed value that carries
    /// the same identifier, and a well-formed value decodes back from its own.
    pub proof fn lemma_code_round_trip(x: u32, f: SupercompressionScheme)
        ensures
            x == 0 <==> SupercompressionScheme::from_code(x) is None,
            x != 0 ==> SupercompressionScheme::from_code(x)->Some_0.code() == x && SupercompressionScheme::from_code(x)->Some_0.wf(),
            f.wf() ==> f.code() != 0 && SupercompressionScheme::from_code(f.code()) == Some(f),
    {
    }
}

/// Color models of a basic data format descriptor.
#[allow(non_camel_case_types)]
#[derive(Debug, Clone, Copy, PartialEq, Eq, Structural)]
pub enum ColorModel {
    RGBSDA,
    YUVSDA,
    YIQSDA,
    LabSDA,
    CMYKA,
    XYZW,
    HSVAAng,
    HSLAAng,
    HSVAHex,
    HSLAHex,
    YCgCoA,
    YcCbcCrc,
    ICtCp,
    CIEXYZ,
    CIEXYY,
    BC1A,
    BC2,
    BC3,
    BC4,
    BC5,
    BC6H,
    BC7,
    ETC1,
    ETC2,
    ASTC,
    ETC1S,
    PVRTC,
    PVRTC2,
    UASTC,
    /// A nonzero identifier that has no name here.
    Unknown(u8),
}

impl ColorModel {
    /// The value that identifier `x` stands for; `None` for zero.
    pub open spec fn from_code(x: u8) -> Option<ColorModel> {
        match x {
            0 => None,
            1 => Some(ColorModel::RGBSDA),
            2 => Some(ColorModel::YUVSDA),
            3 => Some(ColorModel::YIQSDA),
            4 => Some(ColorModel::LabSDA),
            5 => Some(ColorModel::CMYKA),
            6 => Some(ColorModel::XYZW),
            7 => Some(ColorModel::HSVAAng),
            8 => Some(ColorModel::HSLAAng),
            9 => Some(ColorModel::HSVAHex),
            10 => Some(ColorModel::HSLAHex),
            11 => Some(ColorModel::YCgCoA),
            12 => Some(ColorModel::YcCbcCrc),
            13 => Some(ColorModel::ICtCp),
            14 => Some(ColorModel::CIEXYZ),
            15 => Some(ColorModel::CIEXYY),
            128 => Some(ColorModel::BC1A),
            129 => Some(ColorModel::BC2),
            130 => Some(ColorModel::BC3),
            131 => Some(ColorModel::BC4),
            132 => Some(ColorModel::BC5),
            133 => Some(ColorModel::BC6H),
            134 => Some(ColorModel::BC7),
            160 => Some(ColorModel::ETC1),
            161 => Some(ColorModel::ETC2),
            162 => Some(ColorModel::ASTC),
            163 => Some(ColorModel::ETC1S),
            164 => Some(ColorModel::PVRTC),
            165 => Some(ColorModel::PVRTC2),
            166 => Some(ColorModel::UASTC),
            _ => Some(ColorModel::Unknown(x)),
        }
    }

    /// The identifier of this value.
    pub open spec fn code(self) -> u8 {
        match self {
            ColorModel::RGBSDA => 1,
            ColorModel::YUVSDA => 2,
            ColorModel::YIQSDA => 3,
            ColorModel::LabSDA => 4,
            ColorModel::CMYKA => 5,
            ColorModel::XYZW => 6,
            ColorModel::HSVAAng => 7,
            ColorModel::HSLAAng => 8,
            ColorModel::HSVAHex => 9,
            ColorModel::HSLAHex => 10,
            ColorModel::YCgCoA => 11,
            ColorModel::YcCbcCrc => 12,
            ColorModel::ICtCp => 13,
            ColorModel::CIEXYZ => 14,
            ColorModel::CIEXYY => 15,
            ColorModel::BC1A => 128,
            ColorModel::BC2 => 129,
            ColorModel::BC3 => 130,
            ColorModel::BC4 => 131,
            ColorModel::BC5 => 132,
            ColorModel::BC6H => 133,
            ColorModel::BC7 => 134,
            ColorModel::ETC1 => 160,
            ColorModel::ETC2 => 161,
            ColorModel::ASTC => 162,
            ColorModel::ETC1S => 163,
            ColorModel::PVRTC => 164,
            ColorModel::PVRTC2 => 165,
            ColorModel::UASTC => 166,
            ColorModel::Unknown(x) => x,
        }
    }

    /// An `Unknown` value holds a nonzero identifier without a name.
    pub open spec fn wf(self) -> bool {
        match self {
            ColorModel::Unknown(x) => x != 0 && ColorModel::from_code(x) == Some(self),
            _ => true,
        }
    }

    /// Decodes an identifier; `None` for zero.
    pub fn new(x: u8) -> (r: Option<ColorModel>)
        ensures
            r == ColorModel::from_code(x),
    {
        match x {
            0 => None,
            1 => Some(ColorModel::RGBSDA),
            2 => Some(ColorModel::YUVSDA),
            3 => Some(ColorModel::YIQSDA),
            4 => Some(ColorModel::LabSDA),
            5 => Some(ColorModel::CMYKA),
            6 => Some(ColorModel::XYZW),
            7 => Some(ColorModel::HSVAAng),
            8 => Some(ColorModel::HSLAAng),
            9 => Some(ColorModel::HSVAHex),
            10 => Some(ColorModel::HSLAHex),
            11 => Some(ColorModel::YCgCoA),
            12 => Some(ColorModel::YcCbcCrc),
            13 => Some(ColorModel::ICtCp),
            14 => Some(ColorModel::CIEXYZ),
            15 => Some(ColorModel::CIEXYY),
            128 => Some(ColorModel::BC1A),
            129 => Some(ColorModel::BC2),
            130 => Some(ColorModel::BC3),
            131 => Some(ColorModel::BC4),
            132 => Some(ColorModel::BC5),
            133 => Some(ColorModel::BC6H),
            134 => Some(ColorModel::BC7),
            160 => Some(ColorModel::ETC1),
            161 => Some(ColorModel::ETC2),
            162 => Some(ColorModel::ASTC),
            163 => Some(ColorModel::ETC1S),
            164 => Some(ColorModel::PVRTC),
            165 => Some(ColorModel::PVRTC2),
            166 => Some(ColorModel::UASTC),
            _ => Some(ColorModel::Unknown(x)),
        }
    }

    /// The identifier of this value.
    pub fn value(&self) -> (r: u8)
        ensures
            r == self.code(),
    {
        match self {
            ColorModel::RGBSDA => 1,
            ColorModel::YUVSDA => 2,
            ColorModel::YIQSDA => 3,
            ColorModel::LabSDA => 4,
            ColorModel::CMYKA => 5,
            ColorModel::XYZW => 6,
            ColorModel::HSVAAng => 7,
            ColorModel::HSLAAng => 8,
            ColorModel::HSVAHex => 9,
            ColorModel::HSLAHex => 10,
            ColorModel::YCgCoA => 11,
            ColorModel::YcCbcCrc => 12,
            ColorModel::ICtCp => 13,
            ColorModel::CIEXYZ => 14,
            ColorModel::CIEXYY => 15,
            ColorModel::BC1A => 128,
            ColorModel::BC2 => 129,
            ColorModel::BC3 => 130,
            ColorModel::BC4 => 131,
            ColorModel::BC5 => 132,
            ColorModel::BC6H => 133,
            ColorModel::BC7 => 134,
            ColorModel::ETC1 => 160,
            ColorModel::ETC2 => 161,
            ColorModel::ASTC => 162,
            ColorModel::ETC1S => 163,
            ColorModel::PVRTC => 164,
            ColorModel::PVRTC2 => 165,
            ColorModel::UASTC => 166,
            ColorModel::Unknown(x) => *x,
        }
    }

    /// Decoding a nonzero identifier gives a well-formed value that carries
    /// the same identifier, and a well-formed value decodes back from its own.
    pub proof fn lemma_code_round_trip(x: u8, f: ColorModel)
        ensures
            x == 0 <==> ColorModel::from_code(x) is None,
            x != 0 ==> ColorModel::from_code(x)->Some_0.code() == x && ColorModel::from_code(x)->Some_0.wf(),
            f.wf() ==> f.code() != 0 && ColorModel::from_code(f.code()) == Some(f),
    {
    }
}

/// Color primaries of a basic data format descriptor.
#[allow(non_camel_case_types)]
#[derive(Debug, Clone, Copy, PartialEq, Eq, Structural)]
pub enum ColorPrimaries {
    BT709,
    BT601EBU,
    BT601SMPTE,
    BT2020,
    CIEXYZ,
    ACES,
    ACESCC,
    NTSC1953,
    PAL525,
    DISPLAYP3,
    AdobeRGB,
    /// A nonzero identifier that has no name here.
    Unknown(u8),
}

impl ColorPrimaries {
    /// The value that identifier `x` stands for; `None` for zero.
    pub open spec fn from_code(x: u8) -> Option<ColorPrimaries> {
        match x {
            0 => None,
            1 => Some(ColorPrimaries::BT709),
            2 => Some(ColorPrimaries::BT601EBU),
            3 => Some(ColorPrimaries::BT601SMPTE),
            4 => Some(ColorPrimaries::BT2020),
            5 => Some(ColorPrimaries::CIEXYZ),
            6 => Some(ColorPrimaries::ACES),
            7 => Some(ColorPrimaries::ACESCC),
            8 => Some(ColorPrimaries::NTSC1953),
            9 => Some(ColorPrimaries::PAL525),
            10 => Some(ColorPrimaries::DISPLAYP3),
            11 => Some(ColorPrimaries::AdobeRGB),
            _ => Some(ColorPrimaries::Unknown(x)),
        }
    }

    /// The identifier of this value.
    pub open spec fn code(self) -> u8 {
        match self {
            ColorPrimaries::BT709 => 1,
            ColorPrimaries::BT601EBU => 2,
            ColorPrimaries::BT601SMPTE => 3,
            ColorPrimaries::BT2020 => 4,
            ColorPrimaries::CIEXYZ => 5,
            ColorPrimaries::ACES => 6,
            ColorPrimaries::ACESCC => 7,
            ColorPrimaries::NTSC1953 => 8,
            ColorPrimaries::PAL525 => 9,
            ColorPrimaries::DISPLAYP3 => 10,
            ColorPrimaries::AdobeRGB => 11,
            ColorPrimaries::Unknown(x) => x,
        }
    }

    /// An `Unknown` value holds a nonzero identifier without a name.
    pub open spec fn wf(self) -> bool {
        match self {
            ColorPrimaries::Unknown(x) => x != 0 && ColorPrimaries::from_code(x) == Some(self),
            _ => true,
        }
    }

    /// Decodes an identifier; `None` for zero.
    pub fn new(x: u8) -> (r: Option<ColorPrimaries>)
        ensures
            r == ColorPrimaries::from_code(x),
    {
        match x {
            0 => None,
            1 => Some(ColorPrimaries::BT709),
            2 => Some(ColorPrimaries::BT601EBU),
            3 => Some(ColorPrimaries::BT601SMPTE),
            4 => Some(ColorPrimaries::BT2020),
            5 => Some(ColorPrimaries::CIEXYZ),
            6 => Some(ColorPrimaries::ACES),
            7 => Some(ColorPrimaries::ACESCC),
            8 => Some(ColorPrimaries::NTSC1953),
            9 => Some(ColorPrimaries::PAL525),
            10 => Some(ColorPrimaries::DISPLAYP3),
            11 => Some(ColorPrimaries::AdobeRGB),
            _ => Some(ColorPrimaries::Unknown(x)),
        }
    }

    /// The identifier of this value.
    pub fn value(&self) -> (r: u8)
        ensures
            r == self.code(),
    {
        match self {
            ColorPrimaries::BT709 => 1,
            ColorPrimaries::BT601EBU => 2,
            ColorPrimaries::BT601SMPTE => 3,
            ColorPrimaries::BT2020 => 4,
            ColorPrimaries::CIEXYZ => 5,
            ColorPrimaries::ACES => 6,
            ColorPrimaries::ACESCC => 7,
            ColorPrimaries::NTSC1953 => 8,
            ColorPrimaries::PAL525 => 9,
            ColorPrimaries::DISPLAYP3 => 10,
            ColorPrimaries::AdobeRGB => 11,
            ColorPrimaries::Unknown(x) => *x,
        }
    }

    /// Decoding a nonzero identifier gives a well-formed value that carries
    /// the same identifier, and a well-formed value decodes back from its own.
    pub proof fn lemma_code_round_trip(x: u8, f: ColorPrimaries)
        ensures
            x == 0 <==> ColorPrimaries::from_code(x) is None,
            x != 0 ==> ColorPrimaries::from_code(x)->Some_0.code() == x && ColorPrimaries::from_code(x)->Some_0.wf(),
            f.wf() ==> f.code() != 0 && ColorPrimaries::from_code(f.code()) == Some(f),
    {
    }
}

/// Transfer functions of a basic data format descriptor.
#[allow(non_camel_case_types)]
#[derive(Debug, Clone, Copy, PartialEq, Eq, Structural)]
pub enum TransferFunction {
    Linear,
    SRGB,
    ITU,
    NTSC,
    SLOG,
    SLOG2,
    BT1886,
    HLGOETF,
    HLGEOTF,
    PQEOTF,
    PQOETF,
    DCIP3,
    PALOETF,
    PAL625EOTF,
    ST240,
    ACESCC,
    ACESCCT,
    AdobeRGB,
    /// A nonzero identifier that has no name here.
    Unknown(u8),
}

impl TransferFunction {
    /// The value that identifier `x` stands for; `None` for zero.
    pub open spec fn from_code(x: u8) -> Option<TransferFunction> {
        match x {
            0 => None,
            1 => Some(TransferFunction::Linear),
            2 => Some(TransferFunction::SRGB),
            3 => Some(TransferFunction::ITU),
            4 => Some(TransferFunction::NTSC),
            5 => Some(TransferFunction::SLOG),
            6 => Some(TransferFunction::SLOG2),
            7 => Some(TransferFunction::BT1886),
            8 => Some(TransferFunction::HLGOETF),
            9 => Some(TransferFunction::HLGEOTF),
            10 => Some(TransferFunction::PQEOTF),
            11 => Some(TransferFunction::PQOETF),
            12 => Some(TransferFunction::DCIP3),
            13 => Some(TransferFunction::PALOETF),
            14 => Some(TransferFunction::PAL625EOTF),
            15 => Some(TransferFunction::ST240),
            16 => Some(TransferFunction::ACESCC),
            17 => Some(TransferFunction::ACESCCT),
            18 => Some(TransferFunction::AdobeRGB),
            _ => Some(TransferFunction::Unknown(x)),
        }
    }

    /// The identifier of this value.
    pub open spec fn code(self) -> u8 {
        match self {
            TransferFunction::Linear => 1,
            TransferFunction::SRGB => 2,
            TransferFunction::ITU => 3,
            TransferFunction::NTSC => 4,
            TransferFunction::SLOG => 5,
            TransferFunction::SLOG2 => 6,
            TransferFunction::BT1886 => 7,
            TransferFunction::HLGOETF => 8,
            TransferFunction::HLGEOTF => 9,
            TransferFunction::PQEOTF => 10,
            TransferFunction::PQOETF => 11,
            TransferFunction::DCIP3 => 12,
            TransferFunction::PALOETF => 13,
            TransferFunction::PAL625EOTF => 14,
            TransferFunction::ST240 => 15,
            TransferFunction::ACESCC => 16,
            TransferFunction::ACESCCT => 17,
            TransferFunction::AdobeRGB => 18,
            TransferFunction::Unknown(x) => x,
        }
    }

    /// An `Unknown` value holds a nonzero identifier without a name.
    pub open spec fn wf(self) -> bool {
        match self {
            TransferFunction::Unknown(x) => x != 0 && TransferFunction::from_code(x) == Some(self),
            _ => true,
        }
    }

    /// Decodes an identifier; `None` for zero.
    pub fn new(x: u8) -> (r: Option<TransferFunction>)
        ensures
            r == TransferFunction::from_code(x),
    {
        match x {
            0 => None,
            1 => Some(TransferFunction::Linear),
            2 => Some(TransferFunction::SRGB),
            3 => Some(TransferFunction::ITU),
            4 => Some(TransferFunction::NTSC),
            5 => Some(TransferFunction::SLOG),
            6 => Some(TransferFunction::SLOG2),
            7 => Some(TransferFunction::BT1886),
            8 => Some(TransferFunction::HLGOETF),
            9 => Some(TransferFunction::HLGEOTF),
            10 => Some(TransferFunction::PQEOTF),
            11 => Some(TransferFunction::PQOETF),
            12 => Some(TransferFunction::DCIP3),
            13 => Some(TransferFunction::PALOETF),
            14 => Some(TransferFunction::PAL625EOTF),
            15 => Some(TransferFunction::ST240),
            16 => Some(TransferFunction::ACESCC),
            17 => Some(TransferFunction::ACESCCT),
            18 => Some(TransferFunction::AdobeRGB),
            _ => Some(TransferFunction::Unknown(x)),
        }
    }

    /// The identifier of this value.
    pub fn value(&self) -> (r: u8)
        ensures
            r == self.code(),
    {
        match self {
            TransferFunction::Linear => 1,
            TransferFunction::SRGB => 2,
            TransferFunction::ITU => 3,
            TransferFunction::NTSC => 4,
            TransferFunction::SLOG => 5,
            TransferFunction::SLOG2 => 6,
            TransferFunction::BT1886 => 7,
            TransferFunction::HLGOETF => 8,
            TransferFunction::HLGEOTF => 9,
            TransferFunction::PQEOTF => 10,
            TransferFunction::PQOETF => 11,
            TransferFunction::DCIP3 => 12,
            TransferFunction::PALOETF => 13,
            TransferFunction::PAL625EOTF => 14,
            TransferFunction::ST240 => 15,
            TransferFunction::ACESCC => 16,
            TransferFunction::ACESCCT => 17,
            TransferFunction::AdobeRGB => 18,
            TransferFunction::Unknown(x) => *x,
        }
    }

    /// Decoding a nonzero identifier gives a well-formed value that carries
    /// the same identifier, and a well-formed value decodes back from its own.
    pub proof fn lemma_code_round_trip(x: u8, f: TransferFunction)
        ensures
            x == 0 <==> TransferFunction::from_code(x) is None,
            x != 0 ==> TransferFunction::from_code(x)->Some_0.code() == x && TransferFunction::from_code(x)->Some_0.wf(),
            f.wf() ==> f.code() != 0 && TransferFunction::from_code(f.code()) == Some(f),
    {
    }
}

} // verus!
