use utf16_ext::{
    utf16_chars, write_bom, write_utf16_string, AutoEndianReader, Endianness, FailureKind,
    IoFailure, RawRead, Step, Utf16Written, WriteStep, BE, LE,
};

/// Writes `text` in the order `T` to a sink that never fails; gives the bytes.
fn written<T: Endianness>(text: &str) -> Vec<u8> {
    let mut wire = Vec::new();
    let mut step = write_utf16_string::<T, ()>(text);
    loop {
        match step {
            WriteStep::Done(result) => {
                assert_eq!(result, Ok(Utf16Written::FullyComplete));
                return wire;
            }
            WriteStep::Write(bytes, string) => {
                wire.push(bytes.0);
                wire.push(bytes.1);
                step = string.resume(Ok(()));
            }
        }
    }
}

/// The read outcomes of a source that holds exactly `wire`.
fn reads(wire: &[u8]) -> Vec<RawRead<()>> {
    let mut events: Vec<RawRead<()>> =
        wire.chunks(2).map(|pair| Ok((pair[0], pair[1]))).collect();
    events.push(Err(IoFailure { kind: FailureKind::EndOfStream, cause: () }));
    events
}

fn read_back<T: Endianness>(wire: &[u8]) -> String {
    let mut decoder = utf16_chars::<T, ()>(());
    let mut text = String::new();
    for event in reads(wire) {
        match decoder.next(event) {
            Step::Read => {}
            Step::Yield(Some(Ok(c))) => text.push(c),
            Step::Yield(None) => return text,
            Step::Yield(Some(Err(error))) => panic!("decoding failed: {:?}", error),
        }
    }
    panic!("the stream did not end");
}

const TEXTS: [&str; 7] = [
    "",
    "A",
    "hello\r\nworld\n",
    "\u{1F600}",
    "a\u{1F600}b",
    "\u{0}\u{D7FF}\u{E000}\u{FFFF}\u{10000}\u{10FFFF}",
    "日本語 \u{1F600}\u{1F601} ünïcödé",
];

#[test]
fn round_trip_little_endian() {
    for text in TEXTS {
        assert_eq!(read_back::<LE>(&written::<LE>(text)), text);
    }
}

#[test]
fn round_trip_big_endian() {
    for text in TEXTS {
        assert_eq!(read_back::<BE>(&written::<BE>(text)), text);
    }
}

#[test]
fn wire_bytes_exact() {
    assert_eq!(written::<LE>("a\u{1F600}"), vec![0x61, 0x00, 0x3D, 0xD8, 0x00, 0xDE]);
    assert_eq!(written::<BE>("a\u{1F600}"), vec![0x00, 0x61, 0xD8, 0x3D, 0xDE, 0x00]);
}

#[test]
fn wire_is_what_std_encodes() {
    for text in TEXTS {
        let le: Vec<u8> = text.encode_utf16().flat_map(|u| u.to_le_bytes()).collect();
        let be: Vec<u8> = text.encode_utf16().flat_map(|u| u.to_be_bytes()).collect();
        assert_eq!(written::<LE>(text), le);
        assert_eq!(written::<BE>(text), be);
    }
}

#[test]
fn every_scalar_round_trips() {
    let mut n: u32 = 0;
    while n <= 0x10FFFF {
        if let Some(c) = char::from_u32(n) {
            let text = c.to_string();
            assert_eq!(read_back::<LE>(&written::<LE>(&text)), text);
            assert_eq!(read_back::<BE>(&written::<BE>(&text)), text);
        }
        n += 0x101;
    }
}

fn open_after_bom<T: Endianness>(text: &str) -> (bool, String) {
    let mark = write_bom::<T>();
    let reader = AutoEndianReader::new_auto_bom::<()>((), Ok(mark)).unwrap();
    let little = reader.is_little();
    let mut decoder = reader.utf16_chars();
    let mut back = String::new();
    for event in reads(&written::<T>(text)) {
        match decoder.next(event) {
            Step::Read => {}
            Step::Yield(Some(Ok(c))) => back.push(c),
            Step::Yield(None) => break,
            Step::Yield(Some(Err(error))) => panic!("decoding failed: {:?}", error),
        }
    }
    (little, back)
}

#[test]
fn written_bom_opens_the_stream_in_its_order() {
    assert_eq!(open_after_bom::<LE>("x\u{1F600}"), (true, "x\u{1F600}".to_string()));
    assert_eq!(open_after_bom::<BE>("x\u{1F600}"), (false, "x\u{1F600}".to_string()));
}
