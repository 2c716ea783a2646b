//! The key/value metadata section: length-prefixed `key NUL value` entries,
//! each padded to a four-byte boundary. Malformed entries are skipped.
use vstd::prelude::*;
use vstd::slice::slice_subrange;
use vstd::utf8::{decode_utf8, valid_utf8};

use crate::codec::{read_u32, u32_at};

verus! {

/// Relies on `core::str::from_utf8`: it succeeds exactly on valid UTF-8, and
/// the string it returns holds the characters that the bytes encode.
#[verifier::external_body]
fn str_from_utf8<'a>(bytes: &'a [u8]) -> (r: Option<&'a str>)
    ensures
        r is Some <==> valid_utf8(bytes@),
        r matches Some(s) ==> s@ == decode_utf8(bytes@),
{
    core::str::from_utf8(bytes).ok()
}

/// Whether `i` is the position of the first NUL byte of `s`.
pub open spec fn is_first_nul(s: Seq<u8>, i: int) -> bool {
    &&& 0 <= i < s.len()
    &&& s[i] == 0
    &&& forall|j: int| 0 <= j < i ==> s[j] != 0
}

/// `n` rounded up to a multiple of four.
pub open spec fn align4(n: int) -> int {
    if n % 4 == 0 {
        n
    } else {
        n + 4 - n % 4
    }
}

/// The first well-formed entry of `d` among those from the one that starts
/// at `at` on: its key bytes, its value and where the entry after it starts.
///
/// An entry is a four-byte length `L` followed by `L` bytes of `key NUL
/// value`, padded to a multiple of four. The scan ends at the first length
/// that does not fit, or that runs past the end; an entry without a NUL, or
/// whose key is not UTF-8, is skipped.
pub open spec fn next_entry(d: Seq<u8>, at: int) -> Option<(Seq<u8>, Seq<u8>, int)>
    decreases d.len() + 4 - at,
{
    if at < 0 || at + 4 > d.len() {
        None
    } else {
        let end = at + 4 + u32_at(d, at);
        if end > d.len() {
            None
        } else {
            let kv = d.subrange(at + 4, end);
            if exists|i: int| is_first_nul(kv, i) {
                let i = choose|i: int| is_first_nul(kv, i);
                if valid_utf8(kv.subrange(0, i)) {
                    Some((kv.subrange(0, i), kv.subrange(i + 1, kv.len() as int), align4(end)))
                } else {
                    next_entry(d, align4(end))
                }
            } else {
                next_entry(d, align4(end))
            }
        }
    }
}

/// What is left of `d` once the entry that ends before `next` is consumed.
pub open spec fn rest_from(d: Seq<u8>, next: int) -> Seq<u8> {
    if next <= d.len() {
        d.subrange(next, d.len() as int)
    } else {
        seq![]
    }
}

/// The position of the first NUL byte of `s`, if any.
fn find_nul(s: &[u8]) -> (r: Option<usize>)
    ensures
        r matches Some(i) ==> is_first_nul(s@, i as int),
        r is None ==> forall|j: int| 0 <= j < s@.len() ==> s@[j] != 0,
{
    let mut i: usize = 0;
    while i < s.len()
        invariant
            i <= s@.len(),
            forall|j: int| 0 <= j < i ==> s@[j] != 0,
        decreases s@.len() - i,
    {
        if s[i] == 0 {
            return Some(i);
        }
        i = i + 1;
    }
    None
}

/// An iterator that parses the key-value pairs in the KTX2 file.
pub struct KeyValueDataIterator<'a> {
    data: &'a [u8],
}

impl<'a> View for KeyValueDataIterator<'a> {
    type V = Seq<u8>;

    /// The bytes not consumed yet.
    closed spec fn view(&self) -> Seq<u8> {
        self.data@
    }
}

impl<'a> KeyValueDataIterator<'a> {
    /// Create a new iterator from the key-value data section of the KTX2 file.
    ///
    /// From the start of the file, this is a slice between [`Index::kvd_byte_offset`]
    /// and [`Index::kvd_byte_offset`] + [`Index::kvd_byte_length`].
    ///
    /// [`Index::kvd_byte_offset`]: crate::Index::kvd_byte_offset
    /// [`Index::kvd_byte_length`]: crate::Index::kvd_byte_length
    pub fn new(data: &'a [u8]) -> (r: Self)
        ensures
            r@ == data@,
    {
        KeyValueDataIterator { data }
    }

    /// The next well-formed pair, skipping malformed entries; `None` once
    /// no entry is left, in which case nothing is consumed.
    pub fn next(&mut self) -> (r: Option<(&'a str, &'a [u8])>)
        ensures
            match next_entry(old(self)@, 0) {
                None => r is None && final(self)@ == old(self)@,
                Some(e) => r matches Some(p) && p.0@ == decode_utf8(e.0) && p.1@ == e.1
                    && final(self)@ == rest_from(old(self)@, e.2),
            },
    {
        let data = self.data;
        let len = data.len();
        let mut offset: usize = 0;
        loop
            invariant
                self.data == data,
                data@ == old(self)@,
                len == data@.len(),
                offset <= len,
                next_entry(data@, offset as int) == next_entry(data@, 0),
            decreases len - offset,
        {
            if len - offset < 4 {
                return None;
            }
            let length = read_u32(data, offset);
            let start = offset + 4;
            if length as usize > len - start {
                return None;
            }
            let end = start + length as usize;
            // Where the next entry starts, if that is within the data.
            let pad = (4 - end % 4) % 4;
            let next: Option<usize> = if pad <= len - end {
                Some(end + pad)
            } else {
                None
            };
            let key_and_value = slice_subrange(data, start, end);
            let found = match find_nul(key_and_value) {
                Some(i) => {
                    let key = slice_subrange(key_and_value, 0, i);
                    let value = slice_subrange(key_and_value, i + 1, key_and_value.len());
                    match str_from_utf8(key) {
                        Some(key) => Some((key, value)),
                        None => None,
                    }
                },
                None => None,
            };
            match found {
                Some(pair) => {
                    self.data = match next {
                        Some(n) => slice_subrange(data, n, len),
                        None => slice_subrange(data, len, len),
                    };
                    return Some(pair);
                },
                None => {
                    match next {
                        Some(n) => {
                            offset = n;
                        },
                        None => {
                            assert(next_entry(data@, align4(end as int)) is None);
                            return None;
                        },
                    }
                },
            }
        }
    }
}

} // verus!
