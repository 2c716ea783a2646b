//! Data format descriptors: the block chain, the basic descriptor and its
//! per-sample records, all decoded from packed little-endian words.
use vstd::arithmetic::power2::*;
use vstd::arithmetic::div_mod::*;
use vstd::prelude::*;
use vstd::slice::slice_subrange;

use crate::codec::{bits_at, bytes_to_u32, shift_and_mask_lower, u32_at};
use crate::enums::{ColorModel, ColorPrimaries, TransferFunction};
use crate::error::ParseError;

verus! {

/// Qualifier bits of a sample's channel type.
#[derive(Debug, Clone, Copy, PartialEq, Eq, Structural)]
pub struct ChannelTypeQualifiers {
    bits: u32,
}

impl View for ChannelTypeQualifiers {
    type V = u32;

    closed spec fn view(&self) -> u32 {
        self.bits
    }
}

impl ChannelTypeQualifiers {
    /// The sample's values are linearly encoded.
    pub const LINEAR: u32 = 1;
    /// The sample holds an exponent.
    pub const EXPONENT: u32 = 2;
    /// The sample's values are signed.
    pub const SIGNED: u32 = 4;
    /// The sample's values are floating-point.
    pub const FLOAT: u32 = 8;

    /// Keeps the four defined qualifier bits of `bits` and drops the others.
    pub fn from_bits_truncate(bits: u32) -> (r: Self)
        ensures
            r@ == bits_at(bits, 0, 4),
    {
        ChannelTypeQualifiers { bits: shift_and_mask_lower(0, 4, bits) }
    }

    /// The qualifier bits.
    pub fn bits(&self) -> (r: u32)
        ensures
            r == self@,
    {
        self.bits
    }

    /// Whether every bit of `mask` is set.
    pub fn contains(&self, mask: u32) -> (r: bool)
        ensures
            r == (self@ & mask == mask),
    {
        self.bits & mask == mask
    }
}

/// Flags of a basic data format descriptor.
#[derive(Debug, Clone, Copy, PartialEq, Eq, Structural)]
pub struct DataFormatFlags {
    bits: u32,
}

impl View for DataFormatFlags {
    type V = u32;

    closed spec fn view(&self) -> u32 {
        self.bits
    }
}

impl DataFormatFlags {
    /// Color values are not premultiplied by alpha.
    pub const STRAIGHT_ALPHA: u32 = 0;
    /// Color values are premultiplied by alpha.
    pub const ALPHA_PREMULTIPLIED: u32 = 1;

    /// Keeps the one defined flag bit of `bits` and drops the others.
    pub fn from_bits_truncate(bits: u32) -> (r: Self)
        ensures
            r@ == bits_at(bits, 0, 1),
    {
        DataFormatFlags { bits: shift_and_mask_lower(0, 1, bits) }
    }

    /// The flag bits.
    pub fn bits(&self) -> (r: u32)
        ensures
            r == self@,
    {
        self.bits
    }

    /// Whether color values are premultiplied by alpha.
    pub fn is_alpha_premultiplied(&self) -> (r: bool)
        ensures
            r == (self@ == 1),
    {
        self.bits == 1
    }
}

/// The header of one descriptor block.
#[derive(Debug, Clone, Copy, PartialEq, Eq, Structural)]
pub struct DataFormatDescriptorHeader {
    /// 17 bits
    pub vendor_id: u32,
    /// 15 bits
    pub descriptor_type: u32,
    /// 16 bits
    pub version_number: u32,
}

/// The block header stored at `b[at..at + 8]`.
pub open spec fn dfd_header_at(b: Seq<u8>, at: int) -> DataFormatDescriptorHeader {
    DataFormatDescriptorHeader {
        vendor_id: bits_at(u32_at(b, at), 0, 17) as u32,
        descriptor_type: bits_at(u32_at(b, at), 17, 15) as u32,
        version_number: bits_at(u32_at(b, at + 4), 0, 16) as u32,
    }
}

/// The size of the block at `b[at..]`, its header included.
pub open spec fn dfd_block_size_at(b: Seq<u8>, at: int) -> nat {
    bits_at(u32_at(b, at + 4), 16, 16)
}

impl DataFormatDescriptorHeader {
    pub const LENGTH: usize = 8;

    /// The header of a basic descriptor block of the version this library reads.
    pub fn basic() -> (r: Self)
        ensures
            r.vendor_id == 0 && r.descriptor_type == 0 && r.version_number == 2,
    {
        DataFormatDescriptorHeader { vendor_id: 0, descriptor_type: 0, version_number: 2 }
    }

    /// Whether this header introduces a basic descriptor (vendor 0, type 0).
    pub fn is_basic(&self) -> (r: bool)
        ensures
            r == (self.vendor_id == 0 && self.descriptor_type == 0),
    {
        self.vendor_id == 0 && self.descriptor_type == 0
    }

    /// Decodes a block header and the block's size; fails when fewer than
    /// eight bytes are given.
    pub fn parse(bytes: &[u8]) -> (r: Result<(DataFormatDescriptorHeader, usize), ParseError>)
        ensures
            r is Ok <==> bytes@.len() >= 8,
            r matches Err(e) ==> e == ParseError::UnexpectedEnd,
            r matches Ok(p) ==> p.0 == dfd_header_at(bytes@, 0) && p.1 == dfd_block_size_at(bytes@, 0),
    {
        let mut offset: usize = 0;
        let v = match bytes_to_u32(bytes, &mut offset) {
            Ok(v) => v,
            Err(e) => return Err(e),
        };
        let vendor_id = shift_and_mask_lower(0, 17, v);
        let descriptor_type = shift_and_mask_lower(17, 15, v);
        let v = match bytes_to_u32(bytes, &mut offset) {
            Ok(v) => v,
            Err(e) => return Err(e),
        };
        let version_number = shift_and_mask_lower(0, 16, v);
        let descriptor_block_size = shift_and_mask_lower(16, 16, v);
        Ok((DataFormatDescriptorHeader { vendor_id, descriptor_type, version_number }, descriptor_block_size as usize))
    }
}

/// One descriptor block: its header and the bytes that follow the header.
pub struct DataFormatDescriptor<'a> {
    pub header: DataFormatDescriptorHeader,
    pub data: &'a [u8],
}

/// The descriptor blocks laid end to end in `d`, up to the first block whose
/// size is smaller than its header or larger than what is left.
pub open spec fn dfd_blocks(d: Seq<u8>) -> Seq<(DataFormatDescriptorHeader, Seq<u8>)>
    decreases d.len(),
{
    if d.len() < 8 {
        seq![]
    } else {
        let size = dfd_block_size_at(d, 0);
        if size < 8 || size > d.len() {
            seq![]
        } else {
            seq![(dfd_header_at(d, 0), d.subrange(8, size as int))] + dfd_blocks(
                d.subrange(size as int, d.len() as int),
            )
        }
    }
}

/// Splits `data` into its descriptor blocks.
pub fn descriptor_blocks<'a>(data: &'a [u8]) -> (r: Vec<DataFormatDescriptor<'a>>)
    ensures
        r@.len() == dfd_blocks(data@).len(),
        forall|i: int|
            0 <= i < r@.len() ==> (#[trigger] r@[i]).header == dfd_blocks(data@)[i].0
                && r@[i].data@ == dfd_blocks(data@)[i].1,
{
    let mut r: Vec<DataFormatDescriptor<'a>> = Vec::new();
    let mut rest = data;
    while rest.len() >= 8
        invariant
            dfd_blocks(data@) == r@.map_values(|b: DataFormatDescriptor<'a>| (b.header, b.data@))
                + dfd_blocks(rest@),
        ensures
            dfd_blocks(rest@).len() == 0,
        decreases rest@.len(),
    {
        let (header, size) = match DataFormatDescriptorHeader::parse(rest) {
            Ok(p) => p,
            Err(_) => break,
        };
        if size < 8 || rest.len() < size {
            break;
        }
        let block = DataFormatDescriptor { header, data: slice_subrange(rest, 8, size) };
        let ghost before = r@;
        r.push(block);
        assert(r@.map_values(|b: DataFormatDescriptor<'a>| (b.header, b.data@)) =~= before.map_values(
            |b: DataFormatDescriptor<'a>| (b.header, b.data@),
        ).push((header, rest@.subrange(8, size as int))));
        rest = slice_subrange(rest, size, rest.len());
    }
    assert(r@.map_values(|b: DataFormatDescriptor<'a>| (b.header, b.data@)) =~= dfd_blocks(data@));
    r
}

/// The body of a basic descriptor block.
pub struct BasicDataFormatDescriptor<'a> {
    /// None means Unspecified
    pub color_model: Option<ColorModel>,
    /// None means Unspecified
    pub color_primaries: Option<ColorPrimaries>,
    /// None means Unspecified
    pub transfer_function: Option<TransferFunction>,
    pub flags: DataFormatFlags,
    /// Texel block width, height, depth and fourth dimension, each at least 1.
    pub texel_block_dimensions: [u32; 4],
    /// Bytes per plane, for up to eight planes.
    pub bytes_planes: [u32; 8],
    /// The packed sample information records that follow the fixed fields.
    pub sample_data: &'a [u8],
}

/// Whether `d` holds what the basic descriptor body `b` encodes.
pub open spec fn basic_decoded_from(d: BasicDataFormatDescriptor<'_>, b: Seq<u8>) -> bool {
    let w0 = u32_at(b, 0);
    let w1 = u32_at(b, 4);
    let w2 = u32_at(b, 8);
    let w3 = u32_at(b, 12);
    &&& d.color_model == ColorModel::from_code(bits_at(w0, 0, 8) as u8)
    &&& d.color_primaries == ColorPrimaries::from_code(bits_at(w0, 8, 8) as u8)
    &&& d.transfer_function == TransferFunction::from_code(bits_at(w0, 16, 8) as u8)
    &&& d.flags@ == bits_at(bits_at(w0, 24, 8) as u32, 0, 1)
    &&& d.texel_block_dimensions@ == seq![
        (bits_at(w1, 0, 8) + 1) as u32,
        (bits_at(w1, 8, 8) + 1) as u32,
        (bits_at(w1, 16, 8) + 1) as u32,
        (bits_at(w1, 24, 8) + 1) as u32,
    ]
    &&& d.bytes_planes@ == seq![
        bits_at(w2, 0, 8) as u32,
        bits_at(w2, 8, 8) as u32,
        bits_at(w2, 16, 8) as u32,
        bits_at(w2, 24, 8) as u32,
        bits_at(w3, 0, 8) as u32,
        bits_at(w3, 8, 8) as u32,
        bits_at(w3, 16, 8) as u32,
        bits_at(w3, 24, 8) as u32,
    ]
    &&& d.sample_data@ == b.subrange(16, b.len() as int)
}

impl<'a> BasicDataFormatDescriptor<'a> {
    /// Decodes the body of a basic descriptor block; fails when it is
    /// shorter than its 16 bytes of fixed fields.
    pub fn parse(bytes: &'a [u8]) -> (r: Result<BasicDataFormatDescriptor<'a>, ParseError>)
        ensures
            r is Ok <==> bytes@.len() >= 16,
            r matches Err(e) ==> e == ParseError::UnexpectedEnd,
            r matches Ok(d) ==> basic_decoded_from(d, bytes@),
    {
        let mut offset: usize = 0;
        let v = match bytes_to_u32(bytes, &mut offset) {
            Ok(v) => v,
            Err(e) => return Err(e),
        };
        proof {
            lemma2_to64();
        }
        let model = shift_and_mask_lower(0, 8, v);
        let primaries = shift_and_mask_lower(8, 8, v);
        let transfer = shift_and_mask_lower(16, 8, v);
        let flags = shift_and_mask_lower(24, 8, v);

        let v = match bytes_to_u32(bytes, &mut offset) {
            Ok(v) => v,
            Err(e) => return Err(e),
        };
        let texel_block_dimensions = [
            shift_and_mask_lower(0, 8, v) + 1,
            shift_and_mask_lower(8, 8, v) + 1,
            shift_and_mask_lower(16, 8, v) + 1,
            shift_and_mask_lower(24, 8, v) + 1,
        ];

        let v = match bytes_to_u32(bytes, &mut offset) {
            Ok(v) => v,
            Err(e) => return Err(e),
        };
        let w = match bytes_to_u32(bytes, &mut offset) {
            Ok(w) => w,
            Err(e) => return Err(e),
        };
        let bytes_planes = [
            shift_and_mask_lower(0, 8, v),
            shift_and_mask_lower(8, 8, v),
            shift_and_mask_lower(16, 8, v),
            shift_and_mask_lower(24, 8, v),
            shift_and_mask_lower(0, 8, w),
            shift_and_mask_lower(8, 8, w),
            shift_and_mask_lower(16, 8, w),
            shift_and_mask_lower(24, 8, w),
        ];

        let d = BasicDataFormatDescriptor {
            color_model: ColorModel::new(model as u8),
            color_primaries: ColorPrimaries::new(primaries as u8),
            transfer_function: TransferFunction::new(transfer as u8),
            flags: DataFormatFlags::from_bits_truncate(flags),
            texel_block_dimensions,
            bytes_planes,
            sample_data: slice_subrange(bytes, offset, bytes.len()),
        };
        assert(d.texel_block_dimensions@ =~= seq![
            (bits_at(u32_at(bytes@, 4), 0, 8) + 1) as u32,
            (bits_at(u32_at(bytes@, 4), 8, 8) + 1) as u32,
            (bits_at(u32_at(bytes@, 4), 16, 8) + 1) as u32,
            (bits_at(u32_at(bytes@, 4), 24, 8) + 1) as u32,
        ]);
        assert(d.bytes_planes@ =~= seq![
            bits_at(u32_at(bytes@, 8), 0, 8) as u32,
            bits_at(u32_at(bytes@, 8), 8, 8) as u32,
            bits_at(u32_at(bytes@, 8), 16, 8) as u32,
            bits_at(u32_at(bytes@, 8), 24, 8) as u32,
            bits_at(u32_at(bytes@, 12), 0, 8) as u32,
            bits_at(u32_at(bytes@, 12), 8, 8) as u32,
            bits_at(u32_at(bytes@, 12), 16, 8) as u32,
            bits_at(u32_at(bytes@, 12), 24, 8) as u32,
        ]);
        Ok(d)
    }

    /// The sample information records, one per whole 16 bytes of sample data.
    pub fn sample_information(&self) -> (r: Vec<SampleInformation>)
        ensures
            r@.len() == self.sample_data@.len() / 16,
            forall|i: int|
                0 <= i < r@.len() ==> sample_decoded_from(#[trigger] r@[i], self.sample_data@.subrange(16 * i, 16 * i + 16)),
    {
        let data = self.sample_data;
        let count = data.len() / 16;
        let mut r: Vec<SampleInformation> = Vec::new();
        let mut i: usize = 0;
        while i < count
            invariant
                count == data@.len() / 16,
                data@.len() <= usize::MAX,
                i <= count,
                r@.len() == i,
                forall|j: int|
                    0 <= j < i ==> sample_decoded_from(#[trigger] r@[j], data@.subrange(16 * j, 16 * j + 16)),
            decreases count - i,
        {
            assert(16 * i + 16 <= data@.len()) by (nonlinear_arith)
                requires
                    i < count,
                    count == data@.len() / 16,
            ;
            let record = slice_subrange(data, 16 * i, 16 * i + 16);
            match SampleInformation::parse(record) {
                Ok(s) => r.push(s),
                Err(_) => {},
            }
            i = i + 1;
        }
        r
    }
}

/// The description of one sample: a bit field of a texel and what its values mean.
#[derive(Debug, Clone, Copy, PartialEq, Eq)]
pub struct SampleInformation {
    /// 16 bits
    pub bit_offset: u32,
    /// 8 bits, stored as the length minus one
    pub bit_length: u32,
    /// 4 bits
    pub channel_type: u32,
    /// 4 bits
    pub channel_type_qualifiers: ChannelTypeQualifiers,
    /// 8 bits each
    pub sample_positions: [u32; 4],
    /// Lowest value, reinterpreted as a float's bits when the channel is a float.
    pub lower: u32,
    /// Highest value, reinterpreted as a float's bits when the channel is a float.
    pub upper: u32,
}

/// Whether `s` holds what the 16-byte record `b` encodes.
pub open spec fn sample_decoded_from(s: SampleInformation, b: Seq<u8>) -> bool {
    let w0 = u32_at(b, 0);
    let w1 = u32_at(b, 4);
    &&& s.bit_offset == bits_at(w0, 0, 16)
    &&& s.bit_length == bits_at(w0, 16, 8) + 1
    &&& s.channel_type == bits_at(w0, 24, 4)
    &&& s.channel_type_qualifiers@ == bits_at(w0, 28, 4)
    &&& s.sample_positions@ == seq![
        bits_at(w1, 0, 8) as u32,
        bits_at(w1, 8, 8) as u32,
        bits_at(w1, 16, 8) as u32,
        bits_at(w1, 24, 8) as u32,
    ]
    &&& s.lower == u32_at(b, 8)
    &&& s.upper == u32_at(b, 12)
}

/// The bits of the float 1.0.
pub const ONE_F32_BITS: u32 = 0x3F80_0000;

impl SampleInformation {
    pub const LENGTH: usize = 16;

    /// Decodes one record; fails when fewer than 16 bytes are given.
    pub fn parse(bytes: &[u8]) -> (r: Result<SampleInformation, ParseError>)
        ensures
            r is Ok <==> bytes@.len() >= 16,
            r matches Err(e) ==> e == ParseError::UnexpectedEnd,
            r matches Ok(s) ==> sample_decoded_from(s, bytes@),
    {
        proof {
            lemma2_to64();
        }
        let mut offset: usize = 0;
        let v = match bytes_to_u32(bytes, &mut offset) {
            Ok(v) => v,
            Err(e) => return Err(e),
        };
        let bit_offset = shift_and_mask_lower(0, 16, v);
        let bit_length = shift_and_mask_lower(16, 8, v) + 1;
        let channel_type = shift_and_mask_lower(24, 4, v);
        let q = shift_and_mask_lower(28, 4, v);
        let channel_type_qualifiers = ChannelTypeQualifiers::from_bits_truncate(q);
        proof {
            lemma_small_mod(q as nat, pow2(4));
        }

        let v = match bytes_to_u32(bytes, &mut offset) {
            Ok(v) => v,
            Err(e) => return Err(e),
        };
        let sample_positions = [
            shift_and_mask_lower(0, 8, v),
            shift_and_mask_lower(8, 8, v),
            shift_and_mask_lower(16, 8, v),
            shift_and_mask_lower(24, 8, v),
        ];
        let lower = match bytes_to_u32(bytes, &mut offset) {
            Ok(v) => v,
            Err(e) => return Err(e),
        };
        let upper = match bytes_to_u32(bytes, &mut offset) {
            Ok(v) => v,
            Err(e) => return Err(e),
        };
        let s = SampleInformation {
            bit_offset,
            bit_length,
            channel_type,
            channel_type_qualifiers,
            sample_positions,
            lower,
            upper,
        };
        assert(s.sample_positions@ =~= seq![
            bits_at(u32_at(bytes@, 4), 0, 8) as u32,
            bits_at(u32_at(bytes@, 4), 8, 8) as u32,
            bits_at(u32_at(bytes@, 4), 16, 8) as u32,
            bits_at(u32_at(bytes@, 4), 24, 8) as u32,
        ]);
        Ok(s)
    }

    /// Whether the sample's range is normalized: a float channel whose upper
    /// bound is 1.0.
    pub fn is_norm(&self) -> (r: bool)
        ensures
            r == (self.channel_type_qualifiers@ & ChannelTypeQualifiers::FLOAT == ChannelTypeQualifiers::FLOAT
                && self.upper == ONE_F32_BITS),
    {
        self.channel_type_qualifiers.contains(ChannelTypeQualifiers::FLOAT) && self.upper == ONE_F32_BITS
    }
}

} // verus!
