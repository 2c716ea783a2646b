//! The fixed 80-byte container header and the 24-byte level index records.
use vstd::bytes::*;
use vstd::prelude::*;

use crate::codec::{read_u32, read_u64, u32_at, u64_at};
use crate::enums::{Format, SupercompressionScheme};
use crate::error::ParseError;

verus! {

/// The twelve bytes every KTX2 file starts with.
pub open spec fn ktx2_magic() -> Seq<u8> {
    seq![0xABu8, 0x4Bu8, 0x54u8, 0x58u8, 0x20u8, 0x32u8, 0x30u8, 0xBBu8, 0x0Du8, 0x0Au8, 0x1Au8, 0x0Au8]
}

/// Container-level metadata
#[derive(Debug, Clone, Copy, PartialEq, Eq, Structural)]
pub struct Header {
    pub format: Option<Format>,
    pub type_size: u32,
    pub pixel_width: u32,
    pub pixel_height: u32,
    pub pixel_depth: u32,
    pub layer_count: u32,
    pub face_count: u32,
    pub level_count: u32,
    pub supercompression_scheme: Option<SupercompressionScheme>,
    pub index: Index,
}

/// Byte offsets from the start of the file, and byte sizes, of the sections
/// that follow the level index.
#[derive(Debug, Clone, Copy, PartialEq, Eq, Structural)]
pub struct Index {
    pub dfd_byte_offset: u32,
    pub dfd_byte_length: u32,
    pub kvd_byte_offset: u32,
    pub kvd_byte_length: u32,
    pub sgd_byte_offset: u64,
    pub sgd_byte_length: u64,
}

/// The header fields stored in `b`, read without validation.
pub open spec fn header_fields(b: Seq<u8>) -> Header {
    Header {
        format: Format::from_code(u32_at(b, 12)),
        type_size: u32_at(b, 16),
        pixel_width: u32_at(b, 20),
        pixel_height: u32_at(b, 24),
        pixel_depth: u32_at(b, 28),
        layer_count: u32_at(b, 32),
        face_count: u32_at(b, 36),
        level_count: u32_at(b, 40),
        supercompression_scheme: SupercompressionScheme::from_code(u32_at(b, 44)),
        index: Index {
            dfd_byte_offset: u32_at(b, 48),
            dfd_byte_length: u32_at(b, 52),
            kvd_byte_offset: u32_at(b, 56),
            kvd_byte_length: u32_at(b, 60),
            sgd_byte_offset: u64_at(b, 64),
            sgd_byte_length: u64_at(b, 72),
        },
    }
}

/// Decoding of an 80-byte header: the magic must match, and the pixel width
/// and the face count must be nonzero.
pub open spec fn parse_header(b: Seq<u8>) -> Result<Header, ParseError> {
    if b.subrange(0, 12) != ktx2_magic() {
        Err(ParseError::BadMagic)
    } else if u32_at(b, 20) == 0 {
        Err(ParseError::ZeroWidth)
    } else if u32_at(b, 36) == 0 {
        Err(ParseError::ZeroFaceCount)
    } else {
        Ok(header_fields(b))
    }
}

/// The identifier stored for an optional format; zero for `None`.
pub open spec fn format_code(f: Option<Format>) -> u32 {
    match f {
        Some(f) => f.code(),
        None => 0,
    }
}

/// The identifier stored for an optional supercompression scheme; zero for `None`.
pub open spec fn scheme_code(s: Option<SupercompressionScheme>) -> u32 {
    match s {
        Some(s) => s.code(),
        None => 0,
    }
}

/// The 80 bytes that encode `h`.
pub open spec fn header_bytes(h: Header) -> Seq<u8> {
    ktx2_magic() + spec_u32_to_le_bytes(format_code(h.format)) + spec_u32_to_le_bytes(h.type_size)
        + spec_u32_to_le_bytes(h.pixel_width) + spec_u32_to_le_bytes(h.pixel_height)
        + spec_u32_to_le_bytes(h.pixel_depth) + spec_u32_to_le_bytes(h.layer_count)
        + spec_u32_to_le_bytes(h.face_count) + spec_u32_to_le_bytes(h.level_count)
        + spec_u32_to_le_bytes(scheme_code(h.supercompression_scheme))
        + spec_u32_to_le_bytes(h.index.dfd_byte_offset) + spec_u32_to_le_bytes(h.index.dfd_byte_length)
        + spec_u32_to_le_bytes(h.index.kvd_byte_offset) + spec_u32_to_le_bytes(h.index.kvd_byte_length)
        + spec_u64_to_le_bytes(h.index.sgd_byte_offset) + spec_u64_to_le_bytes(h.index.sgd_byte_length)
}

/// Location and sizes of one mip level's data.
#[derive(Debug, Clone, Copy, PartialEq, Eq, Structural)]
pub struct LevelIndex {
    pub byte_offset: u64,
    pub byte_length: u64,
    pub uncompressed_byte_length: u64,
}

/// The level index record stored at `b[at..at + 24]`.
pub open spec fn level_index_at(b: Seq<u8>, at: int) -> LevelIndex {
    LevelIndex {
        byte_offset: u64_at(b, at),
        byte_length: u64_at(b, at + 8),
        uncompressed_byte_length: u64_at(b, at + 16),
    }
}

/// The 24 bytes that encode `l`.
pub open spec fn level_index_bytes(l: LevelIndex) -> Seq<u8> {
    spec_u64_to_le_bytes(l.byte_offset) + spec_u64_to_le_bytes(l.byte_length)
        + spec_u64_to_le_bytes(l.uncompressed_byte_length)
}

impl LevelIndex {
    pub const LENGTH: usize = 24;

    /// Decodes a level index record.
    pub fn from_bytes(data: &[u8; 24]) -> (r: LevelIndex)
        ensures
            r == level_index_at(data@, 0),
    {
        let b = data.as_slice();
        LevelIndex {
            byte_offset: read_u64(b, 0),
            byte_length: read_u64(b, 8),
            uncompressed_byte_length: read_u64(b, 16),
        }
    }

    /// Encodes the record.
    pub fn as_bytes(&self) -> (r: [u8; 24])
        ensures
            r@ == level_index_bytes(*self),
    {
        let mut v = u64_to_le_bytes(self.byte_offset);
        v.append(&mut u64_to_le_bytes(self.byte_length));
        v.append(&mut u64_to_le_bytes(self.uncompressed_byte_length));
        proof {
            lemma_auto_spec_u64_to_from_le_bytes();
        }
        let mut bytes = [0u8; 24];
        let mut i: usize = 0;
        while i < 24
            invariant
                i <= 24,
                v@.len() == 24,
                forall|j: int| 0 <= j < i ==> bytes@[j] == v@[j],
            decreases 24 - i,
        {
            bytes[i] = v[i];
            i = i + 1;
        }
        assert(bytes@ =~= v@);
        bytes
    }
}

/// Encoding and decoding a level index record are inverse to each other.
pub proof fn lemma_level_index_round_trip(b: Seq<u8>, l: LevelIndex)
    requires
        b.len() == 24,
    ensures
        level_index_bytes(level_index_at(b, 0)) == b,
        level_index_at(level_index_bytes(l), 0) == l,
{
    lemma_auto_spec_u64_to_from_le_bytes();
    assert(b =~= b.subrange(0, 8) + b.subrange(8, 16) + b.subrange(16, 24));
    let s = level_index_bytes(l);
    assert(s.subrange(0, 8) =~= spec_u64_to_le_bytes(l.byte_offset));
    assert(s.subrange(8, 16) =~= spec_u64_to_le_bytes(l.byte_length));
    assert(s.subrange(16, 24) =~= spec_u64_to_le_bytes(l.uncompressed_byte_length));
}

/// Whether the first twelve bytes of `data` are the magic identifier.
fn has_magic(data: &[u8; 80]) -> (r: bool)
    ensures
        r == (data@.subrange(0, 12) == ktx2_magic()),
{
    let r = data[0] == 0xAB && data[1] == 0x4B && data[2] == 0x54 && data[3] == 0x58 && data[4] == 0x20
        && data[5] == 0x32 && data[6] == 0x30 && data[7] == 0xBB && data[8] == 0x0D && data[9] == 0x0A
        && data[10] == 0x1A && data[11] == 0x0A;
    proof {
        if r {
            assert(data@.subrange(0, 12) =~= ktx2_magic());
        } else if data@.subrange(0, 12) == ktx2_magic() {
            let m = data@.subrange(0, 12);
            assert(m[0] == 0xAB && m[1] == 0x4B && m[2] == 0x54 && m[3] == 0x58 && m[4] == 0x20
                && m[5] == 0x32 && m[6] == 0x30 && m[7] == 0xBB && m[8] == 0x0D && m[9] == 0x0A
                && m[10] == 0x1A && m[11] == 0x0A);
        }
    }
    r
}

impl Header {
    pub const LENGTH: usize = 80;

    /// Decodes a header, checking the magic identifier, the pixel width and
    /// the face count in that order.
    pub fn from_bytes(data: &[u8; 80]) -> (r: Result<Header, ParseError>)
        ensures
            r == parse_header(data@),
    {
        if !has_magic(data) {
            return Err(ParseError::BadMagic);
        }
        let b = data.as_slice();
        let header = Header {
            format: Format::new(read_u32(b, 12)),
            type_size: read_u32(b, 16),
            pixel_width: read_u32(b, 20),
            pixel_height: read_u32(b, 24),
            pixel_depth: read_u32(b, 28),
            layer_count: read_u32(b, 32),
            face_count: read_u32(b, 36),
            level_count: read_u32(b, 40),
            supercompression_scheme: SupercompressionScheme::new(read_u32(b, 44)),
            index: Index {
                dfd_byte_offset: read_u32(b, 48),
                dfd_byte_length: read_u32(b, 52),
                kvd_byte_offset: read_u32(b, 56),
                kvd_byte_length: read_u32(b, 60),
                sgd_byte_offset: read_u64(b, 64),
                sgd_byte_length: read_u64(b, 72),
            },
        };
        if header.pixel_width == 0 {
            return Err(ParseError::ZeroWidth);
        }
        if header.face_count == 0 {
            return Err(ParseError::ZeroFaceCount);
        }
        Ok(header)
    }

    /// Encodes the header; an absent format or scheme is stored as zero.
    pub fn as_bytes(&self) -> (r: [u8; 80])
        ensures
            r@ == header_bytes(*self),
    {
        let format = match self.format {
            Some(f) => f.value(),
            None => 0,
        };
        let scheme = match self.supercompression_scheme {
            Some(s) => s.value(),
            None => 0,
        };
        let mut v: Vec<u8> = vec![0xAB, 0x4B, 0x54, 0x58, 0x20, 0x32, 0x30, 0xBB, 0x0D, 0x0A, 0x1A, 0x0A];
        assert(v@ =~= ktx2_magic());
        v.append(&mut u32_to_le_bytes(format));
        v.append(&mut u32_to_le_bytes(self.type_size));
        v.append(&mut u32_to_le_bytes(self.pixel_width));
        v.append(&mut u32_to_le_bytes(self.pixel_height));
        v.append(&mut u32_to_le_bytes(self.pixel_depth));
        v.append(&mut u32_to_le_bytes(self.layer_count));
        v.append(&mut u32_to_le_bytes(self.face_count));
        v.append(&mut u32_to_le_bytes(self.level_count));
        v.append(&mut u32_to_le_bytes(scheme));
        v.append(&mut u32_to_le_bytes(self.index.dfd_byte_offset));
        v.append(&mut u32_to_le_bytes(self.index.dfd_byte_length));
        v.append(&mut u32_to_le_bytes(self.index.kvd_byte_offset));
        v.append(&mut u32_to_le_bytes(self.index.kvd_byte_length));
        v.append(&mut u64_to_le_bytes(self.index.sgd_byte_offset));
        v.append(&mut u64_to_le_bytes(self.index.sgd_byte_length));
        proof {
            lemma_auto_spec_u64_to_from_le_bytes();
        }
        to_array_80(&v)
    }
}

/// Copies an 80-byte vector into an array.
fn to_array_80(v: &Vec<u8>) -> (r: [u8; 80])
    requires
        v@.len() == 80,
    ensures
        r@ == v@,
{
    let mut bytes = [0u8; 80];
    let mut i: usize = 0;
    while i < 80
        invariant
            i <= 80,
            v@.len() == 80,
            forall|j: int| 0 <= j < i ==> bytes@[j] == v@[j],
        decreases 80 - i,
    {
        bytes[i] = v[i];
        i = i + 1;
    }
    assert(bytes@ =~= v@);
    bytes
}

/// Encoding a header then decoding gives it back, when its pixel width and
/// face count are nonzero and its identifiers are well formed.
pub proof fn lemma_header_decode_encoded(h: Header)
    requires
        h.pixel_width != 0,
        h.face_count != 0,
        h.format matches Some(f) ==> f.wf(),
        h.supercompression_scheme matches Some(s) ==> s.wf(),
    ensures
        parse_header(header_bytes(h)) == Ok::<Header, ParseError>(h),
{
    lemma_auto_spec_u32_to_from_le_bytes();
    lemma_auto_spec_u64_to_from_le_bytes();
    let s = header_bytes(h);
    let fc = format_code(h.format);
    let sc = scheme_code(h.supercompression_scheme);
    Format::lemma_code_round_trip(fc, Format::Unknown(0));
    SupercompressionScheme::lemma_code_round_trip(sc, SupercompressionScheme::Unknown(0));
    if let Some(f) = h.format {
        Format::lemma_code_round_trip(0, f);
    }
    if let Some(x) = h.supercompression_scheme {
        SupercompressionScheme::lemma_code_round_trip(0, x);
    }
    assert(s.subrange(0, 12) =~= ktx2_magic());
    assert(s.subrange(12, 16) =~= spec_u32_to_le_bytes(fc));
    assert(s.subrange(16, 20) =~= spec_u32_to_le_bytes(h.type_size));
    assert(s.subrange(20, 24) =~= spec_u32_to_le_bytes(h.pixel_width));
    assert(s.subrange(24, 28) =~= spec_u32_to_le_bytes(h.pixel_height));
    assert(s.subrange(28, 32) =~= spec_u32_to_le_bytes(h.pixel_depth));
    assert(s.subrange(32, 36) =~= spec_u32_to_le_bytes(h.layer_count));
    assert(s.subrange(36, 40) =~= spec_u32_to_le_bytes(h.face_count));
    assert(s.subrange(40, 44) =~= spec_u32_to_le_bytes(h.level_count));
    assert(s.subrange(44, 48) =~= spec_u32_to_le_bytes(sc));
    assert(s.subrange(48, 52) =~= spec_u32_to_le_bytes(h.index.dfd_byte_offset));
    assert(s.subrange(52, 56) =~= spec_u32_to_le_bytes(h.index.dfd_byte_length));
    assert(s.subrange(56, 60) =~= spec_u32_to_le_bytes(h.index.kvd_byte_offset));
    assert(s.subrange(60, 64) =~= spec_u32_to_le_bytes(h.index.kvd_byte_length));
    assert(s.subrange(64, 72) =~= spec_u64_to_le_bytes(h.index.sgd_byte_offset));
    assert(s.subrange(72, 80) =~= spec_u64_to_le_bytes(h.index.sgd_byte_length));
    assert(header_fields(s) == h);
}

/// Decoding then encoding a header that decodes gives back its bytes.
pub proof fn lemma_header_round_trip(b: Seq<u8>)
    requires
        b.len() == 80,
        parse_header(b) is Ok,
    ensures
        header_bytes(parse_header(b)->Ok_0) == b,
{
    lemma_auto_spec_u32_to_from_le_bytes();
    lemma_auto_spec_u64_to_from_le_bytes();
    Format::lemma_code_round_trip(u32_at(b, 12), Format::Unknown(0));
    SupercompressionScheme::lemma_code_round_trip(u32_at(b, 44), SupercompressionScheme::Unknown(0));
    let h = parse_header(b)->Ok_0;
    assert(format_code(h.format) == u32_at(b, 12));
    assert(scheme_code(h.supercompression_scheme) == u32_at(b, 44));
    assert(b =~= b.subrange(0, 12) + b.subrange(12, 16) + b.subrange(16, 20) + b.subrange(20, 24)
        + b.subrange(24, 28) + b.subrange(28, 32) + b.subrange(32, 36) + b.subrange(36, 40)
        + b.subrange(40, 44) + b.subrange(44, 48) + b.subrange(48, 52) + b.subrange(52, 56)
        + b.subrange(56, 60) + b.subrange(60, 64) + b.subrange(64, 72) + b.subrange(72, 80));
}

} // verus!
