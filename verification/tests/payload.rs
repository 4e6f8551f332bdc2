use alleycat::error::TerminalWireError;
use alleycat::payload::{
    decode_exit_payload, decode_resize_payload, exit_payload, resize_payload, server_hello,
    terminal_features, to_signed, validate_size, ErrorPayload, TerminalSize,
};

#[test]
fn resize_payload_is_typed_and_binary() {
    let payload = resize_payload(TerminalSize {
        cols: 132,
        rows: 43,
    });
    assert_eq!(
        decode_resize_payload(&payload).unwrap(),
        TerminalSize {
            cols: 132,
            rows: 43
        }
    );
}

#[test]
fn exit_payload_round_trips() {
    assert_eq!(decode_exit_payload(&exit_payload(130)).unwrap(), 130);
}

#[test]
fn resize_payload_is_columns_then_rows() {
    let size = TerminalSize {
        cols: 0x0102,
        rows: 0xfffe,
    };
    assert_eq!(resize_payload(size), [1, 2, 0xff, 0xfe]);
    assert_eq!(decode_resize_payload(&[1, 2, 0xff, 0xfe]).unwrap(), size);
}

#[test]
fn exit_payload_is_twos_complement() {
    assert_eq!(exit_payload(-1), [0xff; 4]);
    assert_eq!(exit_payload(0), [0; 4]);
    assert_eq!(exit_payload(i32::MIN), [0x80, 0, 0, 0]);
    assert_eq!(exit_payload(i32::MAX), [0x7f, 0xff, 0xff, 0xff]);
    for code in [i32::MIN, -2, -1, 0, 1, 255, 65536, i32::MAX] {
        assert_eq!(exit_payload(code), code.to_be_bytes());
        assert_eq!(decode_exit_payload(&exit_payload(code)).unwrap(), code);
    }
    assert_eq!(to_signed(0xffff_fffe), -2);
}

#[test]
fn payloads_of_other_lengths_are_not_decoded() {
    for len in [0usize, 3, 5] {
        let bytes = vec![1u8; len];
        assert!(matches!(
            decode_resize_payload(&bytes),
            Err(TerminalWireError::Decode)
        ));
        assert!(matches!(
            decode_exit_payload(&bytes),
            Err(TerminalWireError::Decode)
        ));
    }
}

#[test]
fn size_without_columns_or_rows_is_refused() {
    assert!(validate_size(TerminalSize { cols: 1, rows: 1 }).is_ok());
    let none = TerminalSize { cols: 0, rows: 24 };
    let error = validate_size(none).unwrap_err();
    assert_eq!(error.size, none);
    assert_eq!(error.message(), "terminal size must be non-zero, got 0x24");
    let error = validate_size(TerminalSize {
        cols: 65535,
        rows: 0,
    })
    .unwrap_err();
    assert_eq!(
        error.message(),
        "terminal size must be non-zero, got 65535x0"
    );
}

#[test]
fn server_hello_offers_one_version_and_all_features() {
    let hello = server_hello();
    assert_eq!((hello.min_version, hello.max_version), (1, 1));
    assert_eq!(hello.features, terminal_features());
    assert_eq!(
        hello.features,
        vec!["hello", "start", "output", "input", "resize", "close", "exit", "error"]
    );
}

#[test]
fn error_payload_keeps_code_and_message() {
    let error = ErrorPayload::new("some_code", "some words");
    assert_eq!(error.code, "some_code");
    assert_eq!(error.message, "some words");
}
