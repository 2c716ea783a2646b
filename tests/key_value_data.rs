use ktx2::KeyValueDataIterator;

#[test]
#[allow(clippy::octal_escapes)]
fn test_malformed_key_value_data_handling() {
    let data = [
        &0_u32.to_le_bytes()[..],
        // Regular key-value pair
        &7_u32.to_le_bytes()[..],
        b"xyz\0123 ",
        // Malformed key-value pair with missing NUL byte
        &11_u32.to_le_bytes()[..],
        b"abcdefghi!! ",
        // Regular key-value pair again
        &7_u32.to_le_bytes()[..],
        b"abc\0987",
        &1000_u32.to_le_bytes()[..],
        &[1; 1000],
        &u32::MAX.to_le_bytes()[..],
    ];
    let data = data.concat();

    let mut iterator = KeyValueDataIterator::new(&data);

    assert_eq!(iterator.next(), Some(("xyz", &b"123"[..])));
    assert_eq!(iterator.next(), Some(("abc", &b"987"[..])));
    assert_eq!(iterator.next(), None);
}

#[test]
fn key_value_empty_section_yields_nothing() {
    let mut iterator = KeyValueDataIterator::new(&[]);
    assert_eq!(iterator.next(), None);
    assert_eq!(iterator.next(), None);
}

#[test]
fn key_value_entry_with_invalid_utf8_key_is_skipped() {
    let data = [
        &5_u32.to_le_bytes()[..],
        &[0xFF, 0xFE, 0, b'v', b'1', 0, 0, 0][..],
        &6_u32.to_le_bytes()[..],
        b"ok\0val\0\0",
    ]
    .concat();
    let mut iterator = KeyValueDataIterator::new(&data);
    assert_eq!(iterator.next(), Some(("ok", &b"val"[..])));
    assert_eq!(iterator.next(), None);
}

#[test]
fn key_value_value_may_be_empty_and_padding_may_be_missing() {
    // The last entry ends exactly at the end, without padding.
    let data = [&3_u32.to_le_bytes()[..], b"ab\0"].concat();
    let mut iterator = KeyValueDataIterator::new(&data);
    assert_eq!(iterator.next(), Some(("ab", &b""[..])));
    assert_eq!(iterator.next(), None);
}

#[test]
fn key_value_utf8_key_is_decoded() {
    let key = "héllo";
    let mut entry = key.as_bytes().to_vec();
    entry.push(0);
    entry.extend_from_slice(b"x");
    let mut data = (entry.len() as u32).to_le_bytes().to_vec();
    data.extend_from_slice(&entry);
    let mut iterator = KeyValueDataIterator::new(&data);
    assert_eq!(iterator.next(), Some(("héllo", &b"x"[..])));
}

#[test]
fn key_value_truncated_length_ends_iteration() {
    let data = [1u8, 0];
    let mut iterator = KeyValueDataIterator::new(&data);
    assert_eq!(iterator.next(), None);
}
