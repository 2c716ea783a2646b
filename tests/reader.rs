use ktx2::{
    BasicDataFormatDescriptor, ColorModel, ColorPrimaries, Format, Header, ParseError, Reader,
    SupercompressionScheme, TransferFunction,
};

const MAGIC: [u8; 12] = [0xAB, 0x4B, 0x54, 0x58, 0x20, 0x32, 0x30, 0xBB, 0x0D, 0x0A, 0x1A, 0x0A];

fn put_u32(v: &mut Vec<u8>, x: u32) {
    v.extend_from_slice(&x.to_le_bytes());
}

fn put_u64(v: &mut Vec<u8>, x: u64) {
    v.extend_from_slice(&x.to_le_bytes());
}

/// The 80 header bytes: fields in file order.
fn header(fields: [u32; 13], sgd: (u64, u64)) -> Vec<u8> {
    let mut v = MAGIC.to_vec();
    for f in fields {
        put_u32(&mut v, f);
    }
    put_u64(&mut v, sgd.0);
    put_u64(&mut v, sgd.1);
    assert_eq!(v.len(), 80);
    v
}

/// A basic descriptor block body: RGBSDA / BT709 / sRGB, 1x1x1x1 blocks,
/// 4 bytes in plane 0, then one 8-bit sample and one float sample.
fn basic_dfd_block() -> Vec<u8> {
    let mut b = Vec::new();
    put_u32(&mut b, 0); // vendor 0, type 0
    put_u32(&mut b, 2 | (56 << 16)); // version 2, block size 56
    put_u32(&mut b, 1 | (1 << 8) | (2 << 16)); // model, primaries, transfer, flags
    put_u32(&mut b, 0); // texel block dimensions, each stored minus one
    put_u32(&mut b, 4); // bytes planes 0..4
    put_u32(&mut b, 0); // bytes planes 4..8
    // sample 0: offset 0, length 8, channel 0, no qualifiers, upper 255
    put_u32(&mut b, 7 << 16);
    put_u32(&mut b, 0);
    put_u32(&mut b, 0);
    put_u32(&mut b, 255);
    // sample 1: offset 8, length 32, channel 1, float, upper 1.0
    put_u32(&mut b, 8 | (31 << 16) | (1 << 24) | (8 << 28));
    put_u32(&mut b, 0x0302_0100);
    put_u32(&mut b, 0);
    put_u32(&mut b, 0x3F80_0000);
    assert_eq!(b.len(), 56);
    b
}

/// A complete file with two levels, a descriptor section, one key/value
/// pair and four bytes of supercompression global data.
fn sample_file() -> Vec<u8> {
    let dfd = basic_dfd_block();
    let dfd_offset = 80 + 2 * 24;
    let dfd_length = 4 + dfd.len() as u32;
    let kvd_offset = dfd_offset + dfd_length;
    let kvd_length = 24;
    let sgd_offset = (kvd_offset + kvd_length) as u64;
    let level1_offset = sgd_offset + 4;
    let level0_offset = level1_offset + 8;
    let mut v = header(
        [37, 1, 4, 2, 0, 0, 1, 2, 2, dfd_offset, dfd_length, kvd_offset, kvd_length],
        (sgd_offset, 4),
    );
    // level 0, the larger, stored last
    put_u64(&mut v, level0_offset);
    put_u64(&mut v, 16);
    put_u64(&mut v, 32);
    put_u64(&mut v, level1_offset);
    put_u64(&mut v, 8);
    put_u64(&mut v, 8);
    put_u32(&mut v, dfd_length);
    v.extend_from_slice(&dfd);
    put_u32(&mut v, 17);
    v.extend_from_slice(b"KTXorientation\0rd\0\0\0");
    v.extend_from_slice(&[9, 9, 9, 9]);
    v.extend_from_slice(&[1; 8]);
    v.extend_from_slice(&[0; 16]);
    assert_eq!(v.len() as u64, level0_offset + 16);
    v
}

#[test]
fn reader_accepts_complete_file() {
    let file = sample_file();
    let reader = Reader::new(&file).expect("valid file");
    let h = reader.header();
    assert_eq!(h.format, Some(Format::R8G8B8A8_UNORM));
    assert_eq!(h.type_size, 1);
    assert_eq!(h.pixel_width, 4);
    assert_eq!(h.pixel_height, 2);
    assert_eq!(h.face_count, 1);
    assert_eq!(h.level_count, 2);
    assert_eq!(h.supercompression_scheme, Some(SupercompressionScheme::Zstandard));
    assert_eq!(reader.data(), &file[..]);
}

#[test]
fn reader_levels_follow_the_index() {
    let file = sample_file();
    let reader = Reader::new(&file).unwrap();
    let levels = reader.levels();
    assert_eq!(levels.len(), 2);
    assert_eq!(levels[0].data, &[0u8; 16][..]);
    assert_eq!(levels[0].uncompressed_byte_length, 32);
    assert_eq!(levels[1].data, &[1u8; 8][..]);
    assert_eq!(levels[1].uncompressed_byte_length, 8);
}

#[test]
fn reader_level_count_zero_means_one_level() {
    let mut file = sample_file();
    file[40..44].copy_from_slice(&0u32.to_le_bytes());
    let reader = Reader::new(&file).unwrap();
    let levels = reader.levels();
    assert_eq!(levels.len(), 1);
    assert_eq!(levels[0].data, &[0u8; 16][..]);
}

#[test]
fn reader_accessors_are_repeatable() {
    let file = sample_file();
    let reader = Reader::new(&file).unwrap();
    assert_eq!(reader.header(), reader.header());
    let a = reader.levels();
    let b = reader.levels();
    assert_eq!(a.len(), b.len());
    for (x, y) in a.iter().zip(b.iter()) {
        assert_eq!(x.data, y.data);
        assert_eq!(x.uncompressed_byte_length, y.uncompressed_byte_length);
    }
    let c = reader.data_format_descriptors();
    let d = reader.data_format_descriptors();
    assert_eq!(c.len(), d.len());
    for (x, y) in c.iter().zip(d.iter()) {
        assert_eq!(x.header, y.header);
        assert_eq!(x.data, y.data);
    }
}

#[test]
fn reader_sections() {
    let file = sample_file();
    let reader = Reader::new(&file).unwrap();
    assert_eq!(reader.supercompression_global_data(), &[9, 9, 9, 9][..]);
    let mut kvd = reader.key_value_data();
    assert_eq!(kvd.next(), Some(("KTXorientation", &b"rd"[..])));
    assert_eq!(kvd.next(), None);
}

#[test]
fn reader_data_format_descriptor() {
    let file = sample_file();
    let reader = Reader::new(&file).unwrap();
    let dfds = reader.data_format_descriptors();
    assert_eq!(dfds.len(), 1);
    assert!(dfds[0].header.is_basic());
    assert_eq!(dfds[0].header.version_number, 2);
    assert_eq!(dfds[0].header, ktx2::DataFormatDescriptorHeader::basic());
    assert_eq!(dfds[0].data.len(), 48);
    let basic = BasicDataFormatDescriptor::parse(dfds[0].data).unwrap();
    assert_eq!(basic.color_model, Some(ColorModel::RGBSDA));
    assert_eq!(basic.color_primaries, Some(ColorPrimaries::BT709));
    assert_eq!(basic.transfer_function, Some(TransferFunction::SRGB));
    assert!(!basic.flags.is_alpha_premultiplied());
    assert_eq!(basic.texel_block_dimensions, [1, 1, 1, 1]);
    assert_eq!(basic.bytes_planes, [4, 0, 0, 0, 0, 0, 0, 0]);
    let samples = basic.sample_information();
    assert_eq!(samples.len(), 2);
    assert_eq!(samples[0].bit_offset, 0);
    assert_eq!(samples[0].bit_length, 8);
    assert_eq!(samples[0].channel_type, 0);
    assert_eq!(samples[0].channel_type_qualifiers.bits(), 0);
    assert_eq!(samples[0].upper, 255);
    assert!(!samples[0].is_norm());
    assert_eq!(samples[1].bit_offset, 8);
    assert_eq!(samples[1].bit_length, 32);
    assert_eq!(samples[1].channel_type, 1);
    assert!(samples[1].channel_type_qualifiers.contains(ktx2::ChannelTypeQualifiers::FLOAT));
    assert_eq!(samples[1].sample_positions, [0, 1, 2, 3]);
    assert!(samples[1].is_norm());
}

#[test]
fn reader_level_data_span_ignores_index_order() {
    let file = sample_file();
    let reader = Reader::new(&file).unwrap();
    let span = reader.level_data_span();
    assert_eq!(span.first_level_offset, 216);
    assert_eq!(span.last_level, 0);
    assert_eq!(span.total_data_span, 224 + 32 - 216);
}

#[test]
fn reader_rejects_47_bytes() {
    let file = sample_file();
    assert_eq!(Reader::new(&file[..47]).err(), Some(ParseError::UnexpectedEnd));
}

#[test]
fn reader_rejects_flipped_magic() {
    let mut file = sample_file();
    file[0] ^= 0xFF;
    assert_eq!(Reader::new(&file).err(), Some(ParseError::BadMagic));
}

#[test]
fn reader_rejects_zero_width() {
    let mut file = sample_file();
    file[20..24].copy_from_slice(&0u32.to_le_bytes());
    assert_eq!(Reader::new(&file).err(), Some(ParseError::ZeroWidth));
}

#[test]
fn reader_rejects_zero_face_count() {
    let mut file = sample_file();
    file[36..40].copy_from_slice(&0u32.to_le_bytes());
    assert_eq!(Reader::new(&file).err(), Some(ParseError::ZeroFaceCount));
}

#[test]
fn reader_rejects_level_past_end() {
    let mut file = sample_file();
    // level 0's length grows by one byte
    file[88..96].copy_from_slice(&17u64.to_le_bytes());
    assert_eq!(Reader::new(&file).err(), Some(ParseError::UnexpectedEnd));
}

#[test]
fn reader_rejects_level_offset_overflow() {
    let mut file = sample_file();
    file[80..88].copy_from_slice(&u64::MAX.to_le_bytes());
    assert_eq!(Reader::new(&file).err(), Some(ParseError::UnexpectedEnd));
}

#[test]
fn reader_rejects_level_index_past_end() {
    let mut file = sample_file();
    file[40..44].copy_from_slice(&1000u32.to_le_bytes());
    assert_eq!(Reader::new(&file).err(), Some(ParseError::UnexpectedEnd));
}

#[test]
fn reader_rejects_sections_past_end() {
    let file = sample_file();
    let len = file.len() as u32;
    // data format descriptors
    let mut f = file.clone();
    f[52..56].copy_from_slice(&len.to_le_bytes());
    assert_eq!(Reader::new(&f).err(), Some(ParseError::UnexpectedEnd));
    // a descriptor section too short for its total length
    let mut f = file.clone();
    f[52..56].copy_from_slice(&3u32.to_le_bytes());
    assert_eq!(Reader::new(&f).err(), Some(ParseError::UnexpectedEnd));
    // key/value data
    let mut f = file.clone();
    f[60..64].copy_from_slice(&len.to_le_bytes());
    assert_eq!(Reader::new(&f).err(), Some(ParseError::UnexpectedEnd));
    // supercompression global data, with an offset that overflows
    let mut f = file.clone();
    f[64..72].copy_from_slice(&u64::MAX.to_le_bytes());
    assert_eq!(Reader::new(&f).err(), Some(ParseError::UnexpectedEnd));
}

#[test]
fn reader_accepts_sections_ending_at_end_of_file() {
    let mut file = sample_file();
    let len = file.len() as u64;
    file[64..72].copy_from_slice(&(len - 4).to_le_bytes());
    let reader = Reader::new(&file).unwrap();
    assert_eq!(reader.supercompression_global_data(), &[0, 0, 0, 0][..]);
}

#[test]
fn header_round_trip() {
    let file = sample_file();
    let bytes: [u8; 80] = file[..80].try_into().unwrap();
    let h = Header::from_bytes(&bytes).unwrap();
    assert_eq!(h.as_bytes(), bytes);
    assert_eq!(Header::from_bytes(&h.as_bytes()), Ok(h));
}

#[test]
fn header_round_trip_keeps_unknown_identifiers() {
    let bytes: [u8; 80] = header([1_000_000, 2, 3, 4, 5, 6, 7, 8, 99, 10, 11, 12, 13], (14, 15))
        .try_into()
        .unwrap();
    let h = Header::from_bytes(&bytes).unwrap();
    assert_eq!(h.format, Some(Format::Unknown(1_000_000)));
    assert_eq!(h.supercompression_scheme, Some(SupercompressionScheme::Unknown(99)));
    assert_eq!(h.index.sgd_byte_offset, 14);
    assert_eq!(h.index.sgd_byte_length, 15);
    assert_eq!(h.as_bytes(), bytes);
}

#[test]
fn header_zero_identifiers_are_none() {
    let bytes: [u8; 80] = header([0, 2, 3, 4, 5, 6, 7, 8, 0, 10, 11, 12, 13], (14, 15)).try_into().unwrap();
    let h = Header::from_bytes(&bytes).unwrap();
    assert_eq!(h.format, None);
    assert_eq!(h.supercompression_scheme, None);
    assert_eq!(h.as_bytes(), bytes);
}

#[test]
fn header_errors() {
    let good = header([37, 1, 4, 2, 0, 0, 1, 1, 0, 0, 0, 0, 0], (0, 0));
    let mut b: [u8; 80] = good.clone().try_into().unwrap();
    b[11] = 0;
    assert_eq!(Header::from_bytes(&b), Err(ParseError::BadMagic));
    let mut b: [u8; 80] = good.clone().try_into().unwrap();
    b[20] = 0;
    assert_eq!(Header::from_bytes(&b), Err(ParseError::ZeroWidth));
    let mut b: [u8; 80] = good.try_into().unwrap();
    b[36] = 0;
    assert_eq!(Header::from_bytes(&b), Err(ParseError::ZeroFaceCount));
}

#[test]
fn error_messages() {
    assert_eq!(ParseError::BadMagic.message(), "unexpected magic numbers");
    assert_eq!(ParseError::ZeroWidth.message(), "zero pixel width");
    assert_eq!(ParseError::ZeroFaceCount.message(), "zero face count");
    assert_eq!(ParseError::UnexpectedEnd.message(), "unexpected end of buffer");
}
