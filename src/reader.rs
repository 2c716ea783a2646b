//! Validation of a whole KTX2 file and the views into it.
use vstd::prelude::*;
use vstd::slice::slice_subrange;

use crate::codec::{read_u64, u32_at};
use crate::dfd::{descriptor_blocks, dfd_blocks, DataFormatDescriptor};
use crate::error::ParseError;
use crate::header::{header_fields, ktx2_magic, level_index_at, parse_header, Header, LevelIndex};
use crate::kvd::KeyValueDataIterator;

verus! {

/// Number of mip levels of a texture: a stored count of zero means one level.
pub open spec fn level_count_of(h: Header) -> nat {
    if h.level_count == 0 {
        1
    } else {
        h.level_count as nat
    }
}

/// The level index record of level `i`, stored after the header.
pub open spec fn level_record(b: Seq<u8>, i: int) -> LevelIndex {
    level_index_at(b, 80 + 24 * i)
}

/// Whether every section that `h` locates lies within `b`: the data format
/// descriptors (which start with their four-byte total length), the
/// supercompression global data, the key/value data, the level index and
/// every level's data.
pub open spec fn regions_valid(b: Seq<u8>, h: Header) -> bool {
    &&& h.index.dfd_byte_length >= 4
    &&& h.index.dfd_byte_offset + h.index.dfd_byte_length <= b.len()
    &&& h.index.sgd_byte_offset + h.index.sgd_byte_length <= b.len()
    &&& h.index.kvd_byte_offset + h.index.kvd_byte_length <= b.len()
    &&& 80 + 24 * level_count_of(h) <= b.len()
    &&& forall|i: int|
        0 <= i < level_count_of(h) ==> #[trigger] level_record(b, i).byte_offset + level_record(
            b,
            i,
        ).byte_length <= b.len()
}

/// Validation of a whole file: its header decodes, and every section that the
/// header and the level index locate lies within it.
pub open spec fn parse_ktx2(b: Seq<u8>) -> Result<Header, ParseError> {
    if b.len() < 80 {
        Err(ParseError::UnexpectedEnd)
    } else {
        match parse_header(b.subrange(0, 80)) {
            Err(e) => Err(e),
            Ok(h) => if regions_valid(b, h) {
                Ok(h)
            } else {
                Err(ParseError::UnexpectedEnd)
            },
        }
    }
}

/// The bytes of `b` in `[offset, offset + length)`.
pub open spec fn region(b: Seq<u8>, offset: int, length: int) -> Seq<u8> {
    b.subrange(offset, offset + length)
}

/// The data format descriptor section of file `b` with header `h`, without
/// the section's leading four-byte total length: the descriptor blocks.
pub open spec fn dfd_section(b: Seq<u8>, h: Header) -> Seq<u8> {
    b.subrange(h.index.dfd_byte_offset + 4, h.index.dfd_byte_offset + h.index.dfd_byte_length)
}

/// Whether `r` holds the levels of file `b`, in the order of its level index:
/// each level's bytes and its uncompressed size.
pub open spec fn levels_match(b: Seq<u8>, r: Seq<Level<'_>>) -> bool {
    &&& r.len() == level_count_of(parse_ktx2(b)->Ok_0)
    &&& forall|i: int|
        0 <= i < r.len() ==> {
            let l = level_record(b, i);
            &&& (#[trigger] r[i]).data@ == region(b, l.byte_offset as int, l.byte_length as int)
            &&& r[i].uncompressed_byte_length == l.uncompressed_byte_length
        }
}

/// Whether `r` holds the descriptor blocks of file `b`, in order.
pub open spec fn descriptors_match(b: Seq<u8>, r: Seq<DataFormatDescriptor<'_>>) -> bool {
    let blocks = dfd_blocks(dfd_section(b, parse_ktx2(b)->Ok_0));
    &&& r.len() == blocks.len()
    &&& forall|i: int|
        0 <= i < r.len() ==> (#[trigger] r[i]).header == blocks[i].0 && r[i].data@ == blocks[i].1
}

/// Where the mip levels' data lies when it is treated as one region.
#[derive(Debug, Clone, Copy, PartialEq, Eq, Structural)]
pub struct LevelDataSpan {
    /// The smallest level offset: where the region starts.
    pub first_level_offset: u64,
    /// The level with the largest offset; of several, the first in the index.
    pub last_level: usize,
    /// The last level's offset plus its uncompressed length, less the first
    /// level offset.
    pub total_data_span: u128,
}

/// Whether `s` describes the levels of file `b`, which has `n` levels.
pub open spec fn span_of_levels(b: Seq<u8>, n: nat, s: LevelDataSpan) -> bool {
    let last = level_record(b, s.last_level as int);
    &&& forall|i: int| 0 <= i < n ==> s.first_level_offset <= #[trigger] level_record(b, i).byte_offset
    &&& exists|i: int| 0 <= i < n && s.first_level_offset == #[trigger] level_record(b, i).byte_offset
    &&& s.last_level < n
    &&& forall|i: int| 0 <= i < n ==> #[trigger] level_record(b, i).byte_offset <= last.byte_offset
    &&& forall|i: int| 0 <= i < s.last_level ==> #[trigger] level_record(b, i).byte_offset < last.byte_offset
    &&& s.total_data_span == last.byte_offset + last.uncompressed_byte_length - s.first_level_offset
}

/// One mip level: its bytes, as stored, and its size once decompressed.
pub struct Level<'a> {
    pub data: &'a [u8],
    pub uncompressed_byte_length: u64,
}

/// Decodes KTX2 texture data held in memory.
pub struct Reader<'a> {
    input: &'a [u8],
    header: Header,
}

impl<'a> View for Reader<'a> {
    type V = Seq<u8>;

    /// The whole file.
    closed spec fn view(&self) -> Seq<u8> {
        self.input@
    }
}

/// Copies the first 80 bytes of `input`.
fn header_array(input: &[u8]) -> (r: [u8; 80])
    requires
        input@.len() >= 80,
    ensures
        r@ == input@.subrange(0, 80),
{
    let mut bytes = [0u8; 80];
    let mut i: usize = 0;
    while i < 80
        invariant
            i <= 80,
            input@.len() >= 80,
            forall|j: int| 0 <= j < i ==> bytes@[j] == input@[j],
        decreases 80 - i,
    {
        bytes[i] = input[i];
        i = i + 1;
    }
    assert(bytes@ =~= input@.subrange(0, 80));
    bytes
}

impl<'a> Reader<'a> {
    #[verifier::type_invariant]
    closed spec fn inv(self) -> bool {
        parse_ktx2(self.input@) == Ok::<Header, ParseError>(self.header)
    }

    /// Validates `input` as a KTX2 file: the header must decode, and every
    /// section it locates must lie within `input`.
    pub fn new(input: &'a [u8]) -> (r: Result<Reader<'a>, ParseError>)
        ensures
            r is Ok <==> parse_ktx2(input@) is Ok,
            r matches Ok(rd) ==> rd@ == input@,
            r matches Err(e) ==> parse_ktx2(input@) == Err::<Header, ParseError>(e),
    {
        let len = input.len();
        if len < 80 {
            return Err(ParseError::UnexpectedEnd);
        }
        let header_data = header_array(input);
        let header = match Header::from_bytes(&header_data) {
            Ok(h) => h,
            Err(e) => {
                assert(parse_header(input@.subrange(0, 80)) == Err::<Header, ParseError>(e));
                return Err(e);
            },
        };
        assert(parse_header(input@.subrange(0, 80)) == Ok::<Header, ParseError>(header));
        let n = len as u64;
        // The data format descriptors, after their four-byte total length.
        let dfd_offset = header.index.dfd_byte_offset as u64;
        let dfd_length = header.index.dfd_byte_length as u64;
        if dfd_length < 4 || dfd_offset + dfd_length > n {
            return Err(ParseError::UnexpectedEnd);
        }
        // The supercompression global data.
        match header.index.sgd_byte_offset.checked_add(header.index.sgd_byte_length) {
            Some(end) => if end > n {
                return Err(ParseError::UnexpectedEnd);
            },
            None => return Err(ParseError::UnexpectedEnd),
        }
        // The key/value data.
        if header.index.kvd_byte_offset as u64 + header.index.kvd_byte_length as u64 > n {
            return Err(ParseError::UnexpectedEnd);
        }
        let index = match Self::level_index(input, &header) {
            Ok(index) => index,
            Err(e) => {
                assert(!regions_valid(input@, header));
                return Err(e);
            },
        };
        let mut i: usize = 0;
        while i < index.len()
            invariant
                i <= index@.len(),
                index@.len() == level_count_of(header),
                n == input@.len(),
                input@.len() >= 80,
                parse_header(input@.subrange(0, 80)) == Ok::<Header, ParseError>(header),
                header.index.dfd_byte_length >= 4,
                header.index.dfd_byte_offset + header.index.dfd_byte_length <= input@.len(),
                header.index.sgd_byte_offset + header.index.sgd_byte_length <= input@.len(),
                header.index.kvd_byte_offset + header.index.kvd_byte_length <= input@.len(),
                80 + 24 * level_count_of(header) <= input@.len(),
                forall|j: int| 0 <= j < index@.len() ==> index@[j] == level_record(input@, j),
                forall|j: int|
                    0 <= j < i ==> #[trigger] level_record(input@, j).byte_offset + level_record(
                        input@,
                        j,
                    ).byte_length <= input@.len(),
            decreases index@.len() - i,
        {
            let l = index[i];
            assert(l == level_record(input@, i as int));
            match l.byte_offset.checked_add(l.byte_length) {
                Some(end) => if end > n {
                    return Err(ParseError::UnexpectedEnd);
                },
                None => return Err(ParseError::UnexpectedEnd),
            }
            i = i + 1;
        }
        Ok(Reader { input, header })
    }

    /// The level index records that follow the header; fails when the index
    /// runs past the end of `input`.
    fn level_index(input: &[u8], header: &Header) -> (r: Result<Vec<LevelIndex>, ParseError>)
        ensures
            r is Ok <==> 80 + 24 * level_count_of(*header) <= input@.len(),
            r matches Err(e) ==> e == ParseError::UnexpectedEnd,
            r matches Ok(v) ==> v@.len() == level_count_of(*header) && forall|i: int|
                0 <= i < v@.len() ==> v@[i] == level_record(input@, i),
    {
        let count: u64 = if header.level_count == 0 {
            1
        } else {
            header.level_count as u64
        };
        let len = input.len();
        if 80 + 24 * count > len as u64 {
            return Err(ParseError::UnexpectedEnd);
        }
        let mut v: Vec<LevelIndex> = Vec::new();
        let mut i: u64 = 0;
        while i < count
            invariant
                count == level_count_of(*header),
                80 + 24 * count <= input@.len(),
                len == input@.len(),
                i <= count,
                v@.len() == i,
                forall|j: int| 0 <= j < i ==> v@[j] == level_record(input@, j),
            decreases count - i,
        {
            let at = (80 + 24 * i) as usize;
            v.push(
                LevelIndex {
                    byte_offset: read_u64(input, at),
                    byte_length: read_u64(input, at + 8),
                    uncompressed_byte_length: read_u64(input, at + 16),
                },
            );
            i = i + 1;
        }
        Ok(v)
    }

    /// Access the underlying raw bytes.
    pub fn data(&self) -> (r: &'a [u8])
        ensures
            r@ == self@,
    {
        self.input
    }

    /// Container-level metadata.
    pub fn header(&self) -> (r: Header)
        ensures
            parse_ktx2(self@) == Ok::<Header, ParseError>(r),
    {
        proof {
            use_type_invariant(self);
        }
        self.header
    }

    /// The texture's mip levels, in the order of the level index.
    pub fn levels(&self) -> (r: Vec<Level<'a>>)
        ensures
            r@.len() == level_count_of(parse_ktx2(self@)->Ok_0),
            levels_match(self@, r@),
    {
        proof {
            use_type_invariant(self);
        }
        let index = match Self::level_index(self.input, &self.header) {
            Ok(index) => index,
            Err(_) => Vec::new(),
        };
        proof {
            assert(self.input@.len() == self.input.len());
        }
        let mut r: Vec<Level<'a>> = Vec::new();
        let mut i: usize = 0;
        while i < index.len()
            invariant
                self.input@.len() <= usize::MAX,
                parse_ktx2(self.input@) == Ok::<Header, ParseError>(self.header),
                index@.len() == level_count_of(self.header),
                forall|j: int| 0 <= j < index@.len() ==> index@[j] == level_record(self.input@, j),
                i <= index@.len(),
                r@.len() == i,
                forall|j: int|
                    0 <= j < i ==> {
                        let l = level_record(self.input@, j);
                        &&& (#[trigger] r@[j]).data@ == region(self.input@, l.byte_offset as int, l.byte_length as int)
                        &&& r@[j].uncompressed_byte_length == l.uncompressed_byte_length
                    },
            decreases index@.len() - i,
        {
            let l = index[i];
            assert(l == level_record(self.input@, i as int));
            assert(l.byte_offset + l.byte_length <= self.input@.len());
            let start = l.byte_offset as usize;
            let end = (l.byte_offset + l.byte_length) as usize;
            r.push(Level {
                data: slice_subrange(self.input, start, end),
                uncompressed_byte_length: l.uncompressed_byte_length,
            });
            i = i + 1;
        }
        r
    }

    /// The extent of the level data: levels are not assumed to be stored in
    /// any order, so the first and last are found by their offsets.
    pub fn level_data_span(&self) -> (r: LevelDataSpan)
        ensures
            span_of_levels(self@, level_count_of(parse_ktx2(self@)->Ok_0), r),
    {
        proof {
            use_type_invariant(self);
        }
        let index = match Self::level_index(self.input, &self.header) {
            Ok(index) => index,
            Err(_) => Vec::new(),
        };
        let ghost b = self.input@;
        let ghost n = level_count_of(self.header);
        let mut first = index[0].byte_offset;
        let mut last: usize = 0;
        let mut i: usize = 1;
        while i < index.len()
            invariant
                index@.len() == n,
                n >= 1,
                forall|j: int| 0 <= j < index@.len() ==> index@[j] == level_record(b, j),
                1 <= i <= index@.len(),
                last < i,
                forall|j: int| 0 <= j < i ==> first <= #[trigger] level_record(b, j).byte_offset,
                exists|j: int| 0 <= j < i && first == #[trigger] level_record(b, j).byte_offset,
                forall|j: int| 0 <= j < i ==> #[trigger] level_record(b, j).byte_offset <= level_record(b, last as int).byte_offset,
                forall|j: int| 0 <= j < last ==> #[trigger] level_record(b, j).byte_offset < level_record(b, last as int).byte_offset,
            decreases index@.len() - i,
        {
            let offset = index[i].byte_offset;
            assert(offset == level_record(b, i as int).byte_offset);
            if offset < first {
                first = offset;
            }
            if offset > index[last].byte_offset {
                last = i;
            }
            i = i + 1;
        }
        let l = index[last];
        let total_data_span = l.byte_offset as u128 + l.uncompressed_byte_length as u128 - first as u128;
        LevelDataSpan { first_level_offset: first, last_level: last, total_data_span }
    }

    /// The supercompression global data.
    pub fn supercompression_global_data(&self) -> (r: &'a [u8])
        ensures
            ({
                let h = parse_ktx2(self@)->Ok_0;
                r@ == region(self@, h.index.sgd_byte_offset as int, h.index.sgd_byte_length as int)
            }),
    {
        proof {
            use_type_invariant(self);
            assert(self.header.index.sgd_byte_offset + self.header.index.sgd_byte_length <= self.input.len());
        }
        let start = self.header.index.sgd_byte_offset as usize;
        let end = (self.header.index.sgd_byte_offset + self.header.index.sgd_byte_length) as usize;
        slice_subrange(self.input, start, end)
    }

    /// The data format descriptor blocks.
    pub fn data_format_descriptors(&self) -> (r: Vec<DataFormatDescriptor<'a>>)
        ensures
            descriptors_match(self@, r@),
    {
        proof {
            use_type_invariant(self);
            assert(self.header.index.dfd_byte_offset + self.header.index.dfd_byte_length <= self.input.len());
        }
        let offset = self.header.index.dfd_byte_offset as usize;
        let end = offset + self.header.index.dfd_byte_length as usize;
        descriptor_blocks(slice_subrange(self.input, offset + 4, end))
    }

    /// Iterator over the key-value pairs.
    pub fn key_value_data(&self) -> (r: KeyValueDataIterator<'a>)
        ensures
            ({
                let h = parse_ktx2(self@)->Ok_0;
                r@ == region(self@, h.index.kvd_byte_offset as int, h.index.kvd_byte_length as int)
            }),
    {
        proof {
            use_type_invariant(self);
            assert(self.header.index.kvd_byte_offset + self.header.index.kvd_byte_length <= self.input.len());
        }
        let start = self.header.index.kvd_byte_offset as usize;
        let end = start + self.header.index.kvd_byte_length as usize;
        KeyValueDataIterator::new(slice_subrange(self.input, start, end))
    }
}

/// A buffer is accepted exactly when it holds a whole header whose magic
/// matches and whose pixel width and face count are nonzero, and every
/// section that the header and the level index locate lies within it.
pub proof fn lemma_accepted_iff(b: Seq<u8>)
    ensures
        parse_ktx2(b) is Ok <==> {
            &&& b.len() >= 80
            &&& b.subrange(0, 12) == ktx2_magic()
            &&& u32_at(b, 20) != 0
            &&& u32_at(b, 36) != 0
            &&& regions_valid(b, header_fields(b.subrange(0, 80)))
        },
{
    if b.len() >= 80 {
        let h = b.subrange(0, 80);
        assert(h.subrange(0, 12) =~= b.subrange(0, 12));
        assert(h.subrange(20, 24) =~= b.subrange(20, 24));
        assert(h.subrange(36, 40) =~= b.subrange(36, 40));
    }
}

/// Calling an accessor twice on one reader gives identical results: any two
/// headers, level lists or descriptor lists that the accessors' contracts
/// allow for the same file are equal.
pub proof fn lemma_accessors_repeatable<'a>(
    rd: &Reader<'a>,
    h1: Header,
    h2: Header,
    l1: Seq<Level<'a>>,
    l2: Seq<Level<'a>>,
    d1: Seq<DataFormatDescriptor<'a>>,
    d2: Seq<DataFormatDescriptor<'a>>,
)
    requires
        parse_ktx2(rd@) == Ok::<Header, ParseError>(h1),
        parse_ktx2(rd@) == Ok::<Header, ParseError>(h2),
        levels_match(rd@, l1),
        levels_match(rd@, l2),
        descriptors_match(rd@, d1),
        descriptors_match(rd@, d2),
    ensures
        h1 == h2,
        l1.len() == l2.len(),
        forall|i: int|
            0 <= i < l1.len() ==> (#[trigger] l1[i]).data@ == l2[i].data@
                && l1[i].uncompressed_byte_length == l2[i].uncompressed_byte_length,
        d1.len() == d2.len(),
        forall|i: int| 0 <= i < d1.len() ==> (#[trigger] d1[i]).header == d2[i].header && d1[i].data@ == d2[i].data@,
{
}

} // verus!
