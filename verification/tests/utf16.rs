use utf16_ext::utf16::{decode_pair, decode_unit, encode_utf16, push_char_units};

#[test]
fn unit_outside_surrogates_is_a_scalar() {
    assert_eq!(decode_unit(0x0041), Some('A'));
    assert_eq!(decode_unit(0x0000), Some('\0'));
    assert_eq!(decode_unit(0xD7FF), Some('\u{D7FF}'));
    assert_eq!(decode_unit(0xE000), Some('\u{E000}'));
    assert_eq!(decode_unit(0xFFFF), Some('\u{FFFF}'));
}

#[test]
fn surrogate_unit_is_no_scalar() {
    assert_eq!(decode_unit(0xD800), None);
    assert_eq!(decode_unit(0xDBFF), None);
    assert_eq!(decode_unit(0xDC00), None);
    assert_eq!(decode_unit(0xDFFF), None);
}

#[test]
fn pair_gives_supplementary_scalar() {
    assert_eq!(decode_pair(0xD83D, 0xDE00), Some('\u{1F600}'));
    assert_eq!(decode_pair(0xD800, 0xDC00), Some('\u{10000}'));
    assert_eq!(decode_pair(0xDBFF, 0xDFFF), Some('\u{10FFFF}'));
}

#[test]
fn ill_formed_pair_gives_nothing() {
    assert_eq!(decode_pair(0xD83D, 0x0041), None);
    assert_eq!(decode_pair(0xD83D, 0xD83D), None);
    assert_eq!(decode_pair(0xDC00, 0xDC00), None);
    assert_eq!(decode_pair(0x0041, 0xDC00), None);
    assert_eq!(decode_pair(0xD83D, 0xDBFF), None);
    assert_eq!(decode_pair(0xD83D, 0xE000), None);
}

#[test]
fn char_units_are_appended() {
    let mut out = vec![7u16];
    push_char_units(&mut out, 'A');
    assert_eq!(out, vec![7, 0x0041]);
    push_char_units(&mut out, '\u{1F600}');
    assert_eq!(out, vec![7, 0x0041, 0xD83D, 0xDE00]);
    push_char_units(&mut out, '\u{FFFF}');
    assert_eq!(out, vec![7, 0x0041, 0xD83D, 0xDE00, 0xFFFF]);
    push_char_units(&mut out, '\u{10000}');
    assert_eq!(out, vec![7, 0x0041, 0xD83D, 0xDE00, 0xFFFF, 0xD800, 0xDC00]);
}

#[test]
fn string_encoding_exact() {
    assert_eq!(encode_utf16(""), Vec::<u16>::new());
    assert_eq!(encode_utf16("A\r\n"), vec![0x0041, 0x000D, 0x000A]);
    assert_eq!(encode_utf16("a\u{1F600}b"), vec![0x0061, 0xD83D, 0xDE00, 0x0062]);
    assert_eq!(encode_utf16("\u{10FFFF}"), vec![0xDBFF, 0xDFFF]);
}

#[test]
fn string_encoding_agrees_with_std() {
    for text in ["", "hello", "héllo wörld", "日本語", "a\u{1F600}b\u{10000}c\u{10FFFF}", "\u{FEFF}x"] {
        let expected: Vec<u16> = text.encode_utf16().collect();
        assert_eq!(encode_utf16(text), expected);
    }
}

#[test]
fn every_scalar_survives_encoding() {
    let mut n: u32 = 0;
    while n <= 0x10FFFF {
        if let Some(c) = char::from_u32(n) {
            let mut units = Vec::new();
            push_char_units(&mut units, c);
            let back = if units.len() == 1 {
                decode_unit(units[0])
            } else {
                assert_eq!(units.len(), 2);
                assert_eq!(decode_unit(units[0]), None);
                decode_pair(units[0], units[1])
            };
            assert_eq!(back, Some(c));
        }
        n += 0x11;
    }
}
