use ktx2::codec::{bytes_to_u32, read_u64, shift_and_mask_lower};
use ktx2::dfd::{descriptor_blocks, DataFormatDescriptorHeader};
use ktx2::{
    BasicDataFormatDescriptor, ChannelTypeQualifiers, ColorModel, DataFormatFlags, Format, LevelIndex,
    ParseError, SampleInformation, SupercompressionScheme, TransferFunction,
};

#[test]
fn shift_and_mask_lower_values() {
    assert_eq!(shift_and_mask_lower(0, 8, 0x1234_5678), 0x78);
    assert_eq!(shift_and_mask_lower(8, 8, 0x1234_5678), 0x56);
    assert_eq!(shift_and_mask_lower(28, 4, 0x9234_5678), 0x9);
    assert_eq!(shift_and_mask_lower(0, 17, 0xFFFF_FFFF), 0x1_FFFF);
    assert_eq!(shift_and_mask_lower(17, 15, 0xFFFF_FFFF), 0x7FFF);
    assert_eq!(shift_and_mask_lower(0, 32, 0xDEAD_BEEF), 0xDEAD_BEEF);
    assert_eq!(shift_and_mask_lower(32, 0, 0xDEAD_BEEF), 0);
}

#[test]
fn bit_fields_reassemble() {
    let v: u32 = 0xA5C3_0F71;
    for shift in 0..=32u32 {
        for width in 0..=(32 - shift) {
            let low = shift_and_mask_lower(0, shift, v) as u64;
            let field = shift_and_mask_lower(shift, width, v) as u64;
            let high = shift_and_mask_lower(shift + width, 32 - shift - width, v) as u64;
            assert_eq!(low | (field << shift) | (high << (shift + width)), v as u64);
        }
    }
}

#[test]
fn bytes_to_u32_advances_or_fails() {
    let bytes = [1u8, 2, 3, 4, 5, 6, 7];
    let mut offset = 0usize;
    assert_eq!(bytes_to_u32(&bytes, &mut offset), Ok(0x0403_0201));
    assert_eq!(offset, 4);
    assert_eq!(bytes_to_u32(&bytes, &mut offset), Err(ParseError::UnexpectedEnd));
    assert_eq!(offset, 4);
    let mut offset = 3usize;
    assert_eq!(bytes_to_u32(&bytes, &mut offset), Ok(0x0706_0504));
    assert_eq!(offset, 7);
}

#[test]
fn read_u64_little_endian() {
    let bytes = [0u8, 1, 2, 3, 4, 5, 6, 7, 8];
    assert_eq!(read_u64(&bytes, 1), 0x0807_0605_0403_0201);
}

#[test]
fn level_index_round_trip() {
    let l = LevelIndex { byte_offset: 0x0102_0304_0506_0708, byte_length: 17, uncompressed_byte_length: u64::MAX };
    let bytes = l.as_bytes();
    assert_eq!(&bytes[0..8], &0x0102_0304_0506_0708u64.to_le_bytes());
    assert_eq!(&bytes[8..16], &17u64.to_le_bytes());
    assert_eq!(LevelIndex::from_bytes(&bytes), l);
    assert_eq!(LevelIndex::LENGTH, 24);
}

#[test]
fn identifiers_decode_and_keep_their_value() {
    assert_eq!(Format::new(0), None);
    assert_eq!(Format::new(37), Some(Format::R8G8B8A8_UNORM));
    assert_eq!(Format::new(1000066013), Some(Format::ASTC_12x12_SFLOAT_BLOCK));
    assert_eq!(Format::new(11), Some(Format::Unknown(11)));
    assert_eq!(Format::R8G8B8A8_UINT.value(), 41);
    assert_eq!(Format::Unknown(11).value(), 11);
    for x in 1..300u32 {
        assert_eq!(Format::new(x).unwrap().value(), x);
    }
    assert_eq!(SupercompressionScheme::new(3), Some(SupercompressionScheme::ZLIB));
    assert_eq!(SupercompressionScheme::new(0), None);
    assert_eq!(ColorModel::new(166), Some(ColorModel::UASTC));
    assert_eq!(ColorModel::new(200), Some(ColorModel::Unknown(200)));
    assert_eq!(TransferFunction::new(18).map(|t| t.value()), Some(18));
}

#[test]
fn descriptor_header_parse() {
    let word0: u32 = 5 | (3 << 17);
    let word1: u32 = 2 | (24 << 16);
    let mut bytes = word0.to_le_bytes().to_vec();
    bytes.extend_from_slice(&word1.to_le_bytes());
    let (h, size) = DataFormatDescriptorHeader::parse(&bytes).unwrap();
    assert_eq!(h.vendor_id, 5);
    assert_eq!(h.descriptor_type, 3);
    assert_eq!(h.version_number, 2);
    assert_eq!(size, 24);
    assert!(!h.is_basic());
    assert_eq!(DataFormatDescriptorHeader::parse(&bytes[..7]), Err(ParseError::UnexpectedEnd));
}

#[test]
fn descriptor_blocks_stop_at_bad_sizes() {
    let mut data = Vec::new();
    // an 12-byte block, a 10-byte block, then one claiming 4 bytes
    data.extend_from_slice(&0u32.to_le_bytes());
    data.extend_from_slice(&(12u32 << 16).to_le_bytes());
    data.extend_from_slice(&[7, 7, 7, 7]);
    data.extend_from_slice(&1u32.to_le_bytes());
    data.extend_from_slice(&(1 | (10u32 << 16)).to_le_bytes());
    data.extend_from_slice(&[8, 8]);
    data.extend_from_slice(&0u32.to_le_bytes());
    data.extend_from_slice(&(4u32 << 16).to_le_bytes());
    let blocks = descriptor_blocks(&data);
    assert_eq!(blocks.len(), 2);
    assert_eq!(blocks[0].data, &[7, 7, 7, 7][..]);
    assert_eq!(blocks[1].header.vendor_id, 1);
    assert_eq!(blocks[1].header.version_number, 1);
    assert_eq!(blocks[1].data, &[8, 8][..]);
    // a block larger than what is left ends the chain
    data[4..8].copy_from_slice(&(200u32 << 16).to_le_bytes());
    assert_eq!(descriptor_blocks(&data).len(), 0);
    // a zero size ends the chain
    data[4..8].copy_from_slice(&0u32.to_le_bytes());
    assert_eq!(descriptor_blocks(&data).len(), 0);
}

#[test]
fn basic_descriptor_fields() {
    let mut bytes = Vec::new();
    bytes.extend_from_slice(&(162u32 | (1 << 8) | (1 << 16) | (0xFF << 24)).to_le_bytes());
    bytes.extend_from_slice(&(3u32 | (3 << 8)).to_le_bytes());
    bytes.extend_from_slice(&16u32.to_le_bytes());
    bytes.extend_from_slice(&0x0807_0605u32.to_le_bytes());
    bytes.extend_from_slice(&[0; 15]);
    let d = BasicDataFormatDescriptor::parse(&bytes).unwrap();
    assert_eq!(d.color_model, Some(ColorModel::ASTC));
    assert_eq!(d.transfer_function, Some(TransferFunction::Linear));
    assert_eq!(d.flags.bits(), DataFormatFlags::ALPHA_PREMULTIPLIED);
    assert!(d.flags.is_alpha_premultiplied());
    assert_eq!(d.texel_block_dimensions, [4, 4, 1, 1]);
    assert_eq!(d.bytes_planes, [16, 0, 0, 0, 5, 6, 7, 8]);
    assert_eq!(d.sample_data.len(), 15);
    // fewer than 16 bytes of samples make no record
    assert_eq!(d.sample_information().len(), 0);
    assert!(BasicDataFormatDescriptor::parse(&bytes[..15]).is_err());
}

#[test]
fn sample_information_parse() {
    let mut bytes = Vec::new();
    bytes.extend_from_slice(&(0x0010u32 | (15 << 16) | (2 << 24) | (0xC << 28)).to_le_bytes());
    bytes.extend_from_slice(&0x4030_2010u32.to_le_bytes());
    bytes.extend_from_slice(&0xFFFF_8000u32.to_le_bytes());
    bytes.extend_from_slice(&0x7FFFu32.to_le_bytes());
    let s = SampleInformation::parse(&bytes).unwrap();
    assert_eq!(s.bit_offset, 16);
    assert_eq!(s.bit_length, 16);
    assert_eq!(s.channel_type, 2);
    assert_eq!(s.channel_type_qualifiers.bits(), ChannelTypeQualifiers::SIGNED | ChannelTypeQualifiers::FLOAT);
    assert!(s.channel_type_qualifiers.contains(ChannelTypeQualifiers::SIGNED));
    assert!(!s.channel_type_qualifiers.contains(ChannelTypeQualifiers::LINEAR));
    assert_eq!(s.sample_positions, [0x10, 0x20, 0x30, 0x40]);
    assert_eq!(s.lower, 0xFFFF_8000);
    assert_eq!(s.upper, 0x7FFF);
    assert!(!s.is_norm());
    assert_eq!(SampleInformation::parse(&bytes[..15]).err(), Some(ParseError::UnexpectedEnd));
}

#[test]
fn qualifier_and_flag_truncation() {
    assert_eq!(ChannelTypeQualifiers::from_bits_truncate(0xFF).bits(), 0xF);
    assert_eq!(DataFormatFlags::from_bits_truncate(0xFE).bits(), 0);
    assert_eq!(DataFormatFlags::from_bits_truncate(3).bits(), 1);
}
