use nutext::frame::is_well_framed;

fn number(value: u32, little: bool) -> [u8; 4] {
    if little {
        value.to_le_bytes()
    } else {
        value.to_be_bytes()
    }
}

/// A file with the given header fields, followed by `rest`.
fn file(count: u32, keys: u32, translations: u32, rest: &[u32], little: bool) -> Vec<u8> {
    let mut bytes = Vec::new();
    for value in [0x950412de, 0, count, keys, translations, 0, 28] {
        bytes.extend_from_slice(&number(value, little));
    }
    for value in rest {
        bytes.extend_from_slice(&number(*value, little));
    }
    bytes
}

#[test]
fn header_alone_is_well_framed() {
    for little in [true, false] {
        assert!(is_well_framed(&file(0, 28, 28, &[], little)));
        assert!(is_well_framed(&file(0, 0, 0, &[], little)));
    }
}

#[test]
fn short_file_is_not_well_framed() {
    assert!(!is_well_framed(&[]));
    assert!(!is_well_framed(&[0xde, 0x12, 0x04, 0x95]));
    let whole = file(0, 28, 28, &[], true);
    assert!(!is_well_framed(&whole[..27]));
}

#[test]
fn other_magic_is_not_well_framed() {
    let mut bytes = file(0, 28, 28, &[], true);
    bytes[0] = 0xdf;
    assert!(!is_well_framed(&bytes));
    assert!(!is_well_framed(&[0u8; 28]));
    let mut mixed = file(0, 28, 28, &[], true);
    mixed[..4].copy_from_slice(&[0xde, 0x12, 0x12, 0xde]);
    assert!(!is_well_framed(&mixed));
}

#[test]
fn table_behind_the_end_is_not_well_framed() {
    assert!(is_well_framed(&file(0, 28, 28, &[], true)));
    assert!(!is_well_framed(&file(0, 29, 28, &[], true)));
    assert!(!is_well_framed(&file(0, 28, 29, &[], true)));
    assert!(!is_well_framed(&file(0, 0xFFFF_FFFF, 0, &[], false)));
}

#[test]
fn entry_must_lie_within_the_file() {
    // One string: the keys' entry at 28, the translations' at 36, both
    // pointing to the empty string at 44.
    let good = file(1, 28, 36, &[0, 44, 0, 44, 0], true);
    assert_eq!(good.len(), 48);
    assert!(is_well_framed(&good));
    assert!(!is_well_framed(&file(1, 28, 44, &[0, 44, 0, 44, 0], true)));
    assert!(!is_well_framed(&file(1, 44, 28, &[0, 44, 0, 44, 0], true)));
    assert!(!is_well_framed(&file(2, 28, 36, &[0, 44, 0, 44, 0], true)));
}

#[test]
fn string_must_lie_within_the_file_with_its_end() {
    for little in [true, false] {
        assert!(is_well_framed(&file(1, 28, 36, &[3, 44, 0, 47, 0], little)));
        assert!(!is_well_framed(&file(1, 28, 36, &[4, 44, 0, 47, 0], little)));
        assert!(!is_well_framed(&file(1, 28, 36, &[3, 44, 0, 48, 0], little)));
        assert!(!is_well_framed(&file(1, 28, 36, &[3, 44, 1, 47, 0], little)));
    }
}

#[test]
fn sums_that_exceed_32_bits_are_not_well_framed() {
    for little in [true, false] {
        let mut bytes = file(1, 20, 20, &[], little);
        bytes.truncate(20);
        bytes.extend_from_slice(&number(0xFFFF_FFFE, little));
        bytes.extend_from_slice(&number(5, little));
        assert_eq!(bytes.len(), 28);
        assert!(!is_well_framed(&bytes));
        let mut bytes = file(1, 20, 20, &[], little);
        bytes.truncate(20);
        bytes.extend_from_slice(&number(0xFFFF_FFFF, little));
        bytes.extend_from_slice(&number(0xFFFF_FFFF, little));
        assert!(!is_well_framed(&bytes));
    }
}

#[test]
fn byte_order_decides_how_numbers_are_read() {
    // Read in the wrong order, the table's place 28 is far behind the end.
    let mut bytes = file(0, 28, 28, &[], true);
    bytes[..4].copy_from_slice(&[0x95, 0x04, 0x12, 0xde]);
    assert!(!is_well_framed(&bytes));
}
