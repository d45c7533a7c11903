use utf16_ext::{
    AutoEndianReader, BomError, DecodeError, FailureKind, IoFailure, LineReader, RawRead, Step,
};

fn end() -> RawRead<&'static str> {
    Err(IoFailure { kind: FailureKind::EndOfStream, cause: "eof" })
}

#[test]
fn explicit_little() {
    let reader = AutoEndianReader::new_little(7u8);
    assert!(reader.is_little());
    assert!(!reader.is_big());
    assert!(matches!(reader, AutoEndianReader::Little(7)));
}

#[test]
fn explicit_big() {
    let reader = AutoEndianReader::new_big(7u8);
    assert!(reader.is_big());
    assert!(!reader.is_little());
    assert!(matches!(reader, AutoEndianReader::Big(7)));
}

#[test]
fn bom_feff_read_little_endian_is_little() {
    let reader = AutoEndianReader::new_auto_bom::<&str>(1u8, Ok((0xFF, 0xFE))).unwrap();
    assert!(reader.is_little());
    assert!(matches!(reader, AutoEndianReader::Little(1)));
}

#[test]
fn bom_fffe_read_little_endian_is_big() {
    let reader = AutoEndianReader::new_auto_bom::<&str>(1u8, Ok((0xFE, 0xFF))).unwrap();
    assert!(reader.is_big());
    assert!(matches!(reader, AutoEndianReader::Big(1)));
}

#[test]
fn other_first_unit_is_invalid_bom() {
    match AutoEndianReader::new_auto_bom::<&str>((), Ok((0x41, 0x00))) {
        Err(error) => assert_eq!(error, BomError::InvalidByteOrderMark(0x0041)),
        Ok(_) => panic!("0x0041 is no byte-order mark"),
    }
    match AutoEndianReader::new_auto_bom::<&str>((), Ok((0xFF, 0xFF))) {
        Err(error) => assert_eq!(error, BomError::InvalidByteOrderMark(0xFFFF)),
        Ok(_) => panic!("0xFFFF is no byte-order mark"),
    }
    match AutoEndianReader::new_auto_bom::<&str>((), Ok((0x00, 0x00))) {
        Err(error) => assert_eq!(error, BomError::InvalidByteOrderMark(0x0000)),
        Ok(_) => panic!("0x0000 is no byte-order mark"),
    }
}

#[test]
fn failed_probe_is_reported_whatever_its_kind() {
    for kind in [FailureKind::Interrupted, FailureKind::EndOfStream, FailureKind::Other] {
        match AutoEndianReader::new_auto_bom((), Err(IoFailure { kind, cause: "x" })) {
            Err(error) => assert_eq!(error, BomError::Io(IoFailure { kind, cause: "x" })),
            Ok(_) => panic!("the probe failed"),
        }
    }
}

#[test]
fn read_u16_in_the_order_of_the_stream() {
    let little = AutoEndianReader::new_little(());
    let big = AutoEndianReader::new_big(());
    assert_eq!(little.read_u16::<&str>(Ok((0x34, 0x12))), Ok(0x1234));
    assert_eq!(big.read_u16::<&str>(Ok((0x34, 0x12))), Ok(0x3412));
    for kind in [FailureKind::Interrupted, FailureKind::EndOfStream, FailureKind::Other] {
        assert_eq!(
            little.read_u16(Err(IoFailure { kind, cause: "x" })),
            Err(IoFailure { kind, cause: "x" })
        );
    }
}

#[test]
fn handle_gives_its_source() {
    let mut reader = AutoEndianReader::new_big(vec![1u8]);
    reader.get_mut().push(2);
    assert!(reader.is_big());
    assert!(matches!(reader, AutoEndianReader::Big(ref inner) if inner == &vec![1u8, 2]));
}

#[test]
fn auto_shorts_follow_the_order() {
    let mut little = AutoEndianReader::new_little(vec![0u8]).shorts();
    let big = AutoEndianReader::new_big(()).shorts();
    assert_eq!(little.next::<&str>(Ok((0x34, 0x12))), Step::Yield(Some(Ok(0x1234))));
    assert_eq!(big.next::<&str>(Ok((0x34, 0x12))), Step::Yield(Some(Ok(0x3412))));
    assert_eq!(big.next(end()), Step::Yield(None));
    assert_eq!(
        big.next(Err(IoFailure { kind: FailureKind::Interrupted, cause: "again" })),
        Step::Read
    );
    little.get_mut().push(1);
    assert_eq!(little.get_mut(), &mut vec![0u8, 1]);
}

#[test]
fn auto_chars_follow_the_order() {
    let mut little = AutoEndianReader::new_little(()).utf16_chars();
    let mut big = AutoEndianReader::new_big(vec![0u8]).utf16_chars();
    assert_eq!(little.next::<&str>(Ok((0x3D, 0xD8))), Step::Read);
    assert_eq!(little.next::<&str>(Ok((0x00, 0xDE))), Step::Yield(Some(Ok('\u{1F600}'))));
    assert_eq!(big.next::<&str>(Ok((0xD8, 0x3D))), Step::Read);
    big.get_mut().push(1);
    assert_eq!(big.next::<&str>(Ok((0xDE, 0x00))), Step::Yield(Some(Ok('\u{1F600}'))));
    assert_eq!(big.next::<&str>(Ok((0x3D, 0xD8))), Step::Yield(Some(Ok('\u{3DD8}'))));
    assert_eq!(big.next::<&str>(Ok((0xD8, 0x3D))), Step::Read);
    assert_eq!(
        big.next::<&str>(Ok((0x00, 0x41))),
        Step::Yield(Some(Err(DecodeError::InvalidSurrogate(0xD83D, 0x0041))))
    );
    assert_eq!(big.get_mut(), &mut vec![0u8, 1]);
}

#[test]
fn auto_lines_follow_the_order() {
    let mut little = AutoEndianReader::new_little(vec![0u8]).utf16_lines();
    let mut big = AutoEndianReader::new_big(()).utf16_lines();
    assert_eq!(little.next::<&str>(Ok((0x41, 0x00))), Step::Read);
    assert_eq!(little.next::<&str>(Ok((0x0D, 0x00))), Step::Read);
    little.get_mut().push(1);
    assert_eq!(little.next::<&str>(Ok((0x0A, 0x00))), Step::Yield(Some(Ok("A".to_string()))));
    assert_eq!(little.next(end()), Step::Yield(None));
    assert_eq!(big.next::<&str>(Ok((0x00, 0x42))), Step::Read);
    assert_eq!(big.next(end()), Step::Yield(Some(Ok("B".to_string()))));
    assert_eq!(big.next(end()), Step::Yield(None));
    assert_eq!(little.get_mut(), &mut vec![0u8, 1]);
}

#[test]
fn auto_read_line_follows_the_order() {
    let big = AutoEndianReader::new_big(());
    let mut progress = LineReader::new();
    let mut buf = String::new();
    assert_eq!(big.read_utf16_line::<&str>(&mut progress, &mut buf, Ok((0x00, 0x41))), Step::Read);
    assert_eq!(
        big.read_utf16_line::<&str>(&mut progress, &mut buf, Ok((0x00, 0x0A))),
        Step::Yield(Ok(2))
    );
    assert_eq!(buf, "A\n");
    let little = AutoEndianReader::new_little(());
    assert_eq!(
        little.read_utf16_line::<&str>(&mut progress, &mut buf, Ok((0x0A, 0x00))),
        Step::Yield(Ok(1))
    );
    assert_eq!(buf, "A\n\n");
    assert_eq!(little.read_utf16_line(&mut progress, &mut buf, end()), Step::Yield(Ok(0)));
}
