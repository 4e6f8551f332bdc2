use alleycat::error::TerminalWireError;
use alleycat::wire::{
    read_be16, read_be32, read_frame, write_frame, FrameProgress, FrameReader, TerminalFrame,
    TerminalFrameKind, FRAME_HEADER_BYTES, MAX_FRAME_BYTES, TERMINAL_PROTOCOL_VERSION,
};

fn written(kind: TerminalFrameKind, payload: &[u8]) -> Vec<u8> {
    let mut bytes = Vec::new();
    write_frame(
        &mut bytes,
        &TerminalFrame {
            kind,
            payload: payload.to_vec(),
        },
    )
    .unwrap();
    bytes
}

#[test]
fn rejects_jsonl_peer_without_echoing_secret_payload() {
    let mut client: &[u8] = br#"{"jsonrpc":"2.0","token":"terminal-secret-fixture"}"#;
    let error = read_frame(&mut client).unwrap_err().message();
    assert!(error.contains("unsupported terminal peer"));
    assert!(!error.contains("terminal-secret-fixture"));
    assert_eq!(error, "unsupported terminal peer: invalid magic 7b226a73");
}

#[test]
fn frame_round_trips_binary_payload() {
    let bytes = b"\x1b[?1049hpartial-\xf0\x9f\x90\x88\r\n".to_vec();
    let mut server = Vec::new();
    write_frame(
        &mut server,
        &TerminalFrame {
            kind: TerminalFrameKind::Output,
            payload: bytes.clone(),
        },
    )
    .unwrap();
    let mut client: &[u8] = &server;
    let frame = read_frame(&mut client).unwrap();
    let expected = bytes;
    assert_eq!(frame.kind, TerminalFrameKind::Output);
    assert_eq!(frame.payload, expected);
    assert!(client.is_empty());
}

#[test]
fn frame_has_a_fixed_header() {
    assert_eq!(TERMINAL_PROTOCOL_VERSION, 1);
    assert_eq!(FRAME_HEADER_BYTES, 12);
    assert_eq!(
        written(TerminalFrameKind::Input, b"ab"),
        b"DPTY\x00\x01\x04\x00\x00\x00\x00\x02ab"
    );
    let long = written(TerminalFrameKind::Output, &[7u8; 0x1_0203]);
    assert_eq!(&long[..12], b"DPTY\x00\x01\x03\x00\x00\x01\x02\x03");
    assert_eq!(long.len(), 12 + 0x1_0203);
}

#[test]
fn frames_are_appended_and_read_back_in_order() {
    let mut stream = written(TerminalFrameKind::Hello, b"one");
    stream.extend(written(TerminalFrameKind::Close, b""));
    stream.extend(written(TerminalFrameKind::Error, b"three"));
    let mut rest: &[u8] = &stream;
    let first = read_frame(&mut rest).unwrap();
    assert_eq!((first.kind, first.payload.as_slice()), (TerminalFrameKind::Hello, &b"one"[..]));
    let second = read_frame(&mut rest).unwrap();
    assert_eq!((second.kind, second.payload.len()), (TerminalFrameKind::Close, 0));
    let third = read_frame(&mut rest).unwrap();
    assert_eq!((third.kind, third.payload.as_slice()), (TerminalFrameKind::Error, &b"three"[..]));
    assert!(rest.is_empty());
}

#[test]
fn kinds_have_the_codes_one_to_eight() {
    let kinds = [
        TerminalFrameKind::Hello,
        TerminalFrameKind::Start,
        TerminalFrameKind::Output,
        TerminalFrameKind::Input,
        TerminalFrameKind::Resize,
        TerminalFrameKind::Close,
        TerminalFrameKind::Exit,
        TerminalFrameKind::Error,
    ];
    for (i, kind) in kinds.iter().enumerate() {
        assert_eq!(kind.to_u8() as usize, i + 1);
        assert_eq!(TerminalFrameKind::from_u8(i as u8 + 1), Some(*kind));
    }
    assert_eq!(TerminalFrameKind::from_u8(0), None);
    for code in 9..=255u8 {
        assert_eq!(TerminalFrameKind::from_u8(code), None);
    }
}

#[test]
fn other_version_is_refused_after_six_bytes() {
    let mut bytes = written(TerminalFrameKind::Hello, b"x");
    bytes[4] = 0x12;
    bytes[5] = 0x34;
    let mut rest: &[u8] = &bytes;
    let error = read_frame(&mut rest).unwrap_err();
    assert_eq!(
        error.message(),
        "unsupported terminal peer: version 4660 is not supported"
    );
    assert_eq!(rest.len(), bytes.len() - 6);
}

#[test]
fn bad_magic_is_refused_after_four_bytes() {
    let mut rest: &[u8] = b"\x00\x0f\xa0\xffrest";
    match read_frame(&mut rest) {
        Err(TerminalWireError::UnsupportedPeer(words)) => {
            assert_eq!(words, "invalid magic 000fa0ff");
        }
        other => panic!("{other:?}"),
    }
    assert_eq!(rest, b"rest");
}

#[test]
fn length_is_checked_before_kind() {
    let mut bytes = b"DPTY\x00\x01\x63\x00".to_vec();
    bytes.extend((MAX_FRAME_BYTES as u32 + 1).to_be_bytes());
    let mut rest: &[u8] = &bytes;
    let error = read_frame(&mut rest).unwrap_err();
    assert!(matches!(error, TerminalWireError::FrameTooLarge(1_048_577)));
    assert_eq!(error.message(), "terminal frame too large: 1048577 bytes");
    assert!(rest.is_empty());
}

#[test]
fn unknown_kind_is_refused_before_the_payload() {
    let mut rest: &[u8] = b"DPTY\x00\x01\x63\x00\x00\x00\x00\x02ab";
    let error = read_frame(&mut rest).unwrap_err();
    assert!(matches!(error, TerminalWireError::UnknownKind(99)));
    assert_eq!(error.message(), "unknown terminal frame kind: 99");
    assert_eq!(rest, b"ab");
}

#[test]
fn flags_are_ignored() {
    let mut bytes = written(TerminalFrameKind::Exit, b"ab");
    bytes[7] = 0xff;
    let frame = read_frame(&mut &bytes[..]).unwrap();
    assert_eq!(frame.kind, TerminalFrameKind::Exit);
    assert_eq!(frame.payload, b"ab");
}

#[test]
fn every_cut_frame_is_an_unexpected_end() {
    let bytes = written(TerminalFrameKind::Output, b"hello");
    for n in 0..bytes.len() {
        let mut rest: &[u8] = &bytes[..n];
        match read_frame(&mut rest) {
            Err(TerminalWireError::Io(error)) => {
                assert_eq!(error.kind(), std::io::ErrorKind::UnexpectedEof);
                let error = TerminalWireError::Io(error);
                assert!(error.is_early_end());
                let words = if n >= 4 && n < 12 {
                    "terminal wire I/O error: unexpected end of file"
                } else {
                    "terminal wire I/O error: early eof"
                };
                assert_eq!(error.message(), words, "{n}");
            }
            other => panic!("{n}: {other:?}"),
        }
        assert!(rest.is_empty());
    }
}

#[test]
fn largest_payload_is_written_and_one_more_is_not() {
    let mut bytes = vec![1, 2, 3];
    let mut frame = TerminalFrame {
        kind: TerminalFrameKind::Output,
        payload: vec![0x5a; MAX_FRAME_BYTES],
    };
    write_frame(&mut bytes, &frame).unwrap();
    assert_eq!(bytes.len(), 3 + FRAME_HEADER_BYTES + MAX_FRAME_BYTES);
    let mut rest: &[u8] = &bytes[3..];
    assert_eq!(read_frame(&mut rest).unwrap(), frame);

    frame.payload.push(0);
    let mut untouched = vec![1, 2, 3];
    let error = write_frame(&mut untouched, &frame).unwrap_err();
    assert!(matches!(error, TerminalWireError::FrameTooLarge(1_048_577)));
    assert_eq!(untouched, vec![1, 2, 3]);
}

#[test]
fn reader_asks_for_each_part_in_turn() {
    let bytes = written(TerminalFrameKind::Start, b"xyz");
    let mut state = FrameReader::Magic;
    let mut at = 0;
    let mut asked = Vec::new();
    let frame = loop {
        let need = state.wants();
        asked.push(need);
        let chunk = bytes[at..at + need].to_vec();
        at += need;
        match state.accept(chunk).unwrap() {
            FrameProgress::More(next) => state = next,
            FrameProgress::Complete(frame) => break frame,
        }
    };
    assert_eq!(asked, vec![4, 2, 6, 3]);
    assert_eq!(frame.kind, TerminalFrameKind::Start);
    assert_eq!(frame.payload, b"xyz");
    assert_eq!(at, bytes.len());
}

#[test]
fn numbers_are_big_endian() {
    assert_eq!(read_be16(0x12, 0x34), 0x1234);
    assert_eq!(read_be32(0x12, 0x34, 0x56, 0x78), 0x1234_5678);
    assert_eq!(read_be32(0xff, 0xff, 0xff, 0xff), u32::MAX);
}

#[test]
fn io_errors_are_carried_and_put_into_words() {
    let io = std::io::Error::new(std::io::ErrorKind::BrokenPipe, "pipe gone");
    let error = TerminalWireError::from(io);
    assert_eq!(error.message(), "terminal wire I/O error: pipe gone");
    match error {
        TerminalWireError::Io(inner) => assert_eq!(inner.kind(), std::io::ErrorKind::BrokenPipe),
        other => panic!("{other:?}"),
    }
    assert_eq!(
        TerminalWireError::Decode.message(),
        "terminal frame payload decode failed"
    );
}

#[test]
fn bytes_after_the_frames_are_left() {
    let mut stream = written(TerminalFrameKind::Output, b"one");
    stream.extend(written(TerminalFrameKind::Exit, b"two"));
    stream.extend(b"DPTY rest");
    let mut rest: &[u8] = &stream;
    assert_eq!(read_frame(&mut rest).unwrap().payload, b"one");
    assert_eq!(read_frame(&mut rest).unwrap().payload, b"two");
    assert_eq!(rest, b"DPTY rest");
}

#[test]
fn only_an_unexpected_end_is_an_early_end() {
    let other = std::io::Error::new(std::io::ErrorKind::BrokenPipe, "early eof");
    assert!(!TerminalWireError::Io(other).is_early_end());
    assert!(!TerminalWireError::Decode.is_early_end());
}

#[test]
fn reader_names_the_end_by_what_it_waits_for() {
    let payload = FrameReader::Payload {
        kind: TerminalFrameKind::Input,
        len: 3,
    };
    for (reader, words) in [
        (FrameReader::Magic, "early eof".to_string()),
        (FrameReader::Version, std::io::ErrorKind::UnexpectedEof.to_string()),
        (FrameReader::Header, std::io::ErrorKind::UnexpectedEof.to_string()),
        (payload, "early eof".to_string()),
    ] {
        let error = reader.ended();
        assert!(error.is_early_end());
        assert_eq!(error.message(), format!("terminal wire I/O error: {words}"));
    }
}
