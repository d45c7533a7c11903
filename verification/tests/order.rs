use utf16_ext::order::{decode_word, encode_word};
use utf16_ext::{write_bom, BigEndian, ByteOrder, Endianness, LittleEndian, BE, LE};

#[test]
fn little_endian_word_has_low_byte_first() {
    assert_eq!(decode_word(ByteOrder::Little, 0x34, 0x12), 0x1234);
    assert_eq!(encode_word(ByteOrder::Little, 0x1234), (0x34, 0x12));
}

#[test]
fn big_endian_word_has_high_byte_first() {
    assert_eq!(decode_word(ByteOrder::Big, 0x12, 0x34), 0x1234);
    assert_eq!(encode_word(ByteOrder::Big, 0x1234), (0x12, 0x34));
}

#[test]
fn word_extremes() {
    assert_eq!(decode_word(ByteOrder::Little, 0x00, 0x00), 0x0000);
    assert_eq!(decode_word(ByteOrder::Big, 0xFF, 0xFF), 0xFFFF);
    assert_eq!(decode_word(ByteOrder::Little, 0xFF, 0x00), 0x00FF);
    assert_eq!(decode_word(ByteOrder::Big, 0xFF, 0x00), 0xFF00);
    assert_eq!(encode_word(ByteOrder::Little, 0xFF00), (0x00, 0xFF));
    assert_eq!(encode_word(ByteOrder::Big, 0x00FF), (0x00, 0xFF));
}

#[test]
fn every_word_survives_both_orders() {
    for order in [ByteOrder::Little, ByteOrder::Big] {
        for word in 0..=u16::MAX {
            let (first, second) = encode_word(order, word);
            assert_eq!(decode_word(order, first, second), word);
        }
    }
}

#[test]
fn orders_mirror_each_other() {
    for word in [0x0000u16, 0x0041, 0xFEFF, 0xFFFE, 0xD83D, 0x8000] {
        let (first, second) = encode_word(ByteOrder::Little, word);
        assert_eq!(encode_word(ByteOrder::Big, word), (second, first));
        assert_eq!(decode_word(ByteOrder::Big, second, first), word);
    }
}

#[test]
fn tags_name_their_order() {
    assert_eq!(LittleEndian::tag(), ByteOrder::Little);
    assert_eq!(BigEndian::tag(), ByteOrder::Big);
    assert_eq!(LE::tag(), ByteOrder::Little);
    assert_eq!(BE::tag(), ByteOrder::Big);
}

#[test]
fn bom_bytes_differ_between_orders() {
    assert_eq!(write_bom::<LE>(), (0xFF, 0xFE));
    assert_eq!(write_bom::<BE>(), (0xFE, 0xFF));
}
