use ostrich_client::codec::{decode, encode, is_readable, CodecError, Frame, PCK_SIZE};
use ostrich_client::command::Command;

fn blank() -> Frame {
    [0u8; PCK_SIZE]
}

#[test]
fn ack_round_trip() {
    let frame = encode(&Command::Ack).unwrap();
    assert_eq!(frame.len(), 1024);
    assert_eq!(frame[0], 0);
    assert_eq!(decode(&frame), Ok(Command::Ack));
}

#[test]
fn fetch_request_round_trip() {
    let frame = encode(&Command::FetchRequest).unwrap();
    assert_eq!(frame[0], 2);
    assert_eq!(decode(&frame), Ok(Command::FetchRequest));
}

#[test]
fn failure_round_trip() {
    let command = Command::Failure("Some fatal error".to_string());
    let frame = encode(&command).unwrap();
    assert_eq!(frame[0], 1);
    assert_eq!(&frame[34..50], "Some fatal error".as_bytes());
    assert_eq!(decode(&frame), Ok(command));
}

#[test]
fn deliver_round_trip() {
    let command = Command::Deliver(
        "sender".to_string(),
        "receiver".to_string(),
        "The super secret message".to_string(),
    );
    let frame = encode(&command).unwrap();
    assert_eq!(frame[0], 3);
    assert_eq!(frame[1], 6);
    assert_eq!(&frame[2..8], "sender".as_bytes());
    assert_eq!(frame[16], 8);
    assert_eq!(&frame[17..25], "receiver".as_bytes());
    assert_eq!(decode(&frame), Ok(command));
}

#[test]
fn login_has_no_frame() {
    let command = Command::Login("alice".to_string(), "secret".to_string());
    assert_eq!(encode(&command), Err(CodecError::Unsupported));
}

#[test]
fn text_that_fills_the_frame_is_encoded() {
    let command = Command::Failure("x".repeat(990));
    let frame = encode(&command).unwrap();
    assert_eq!(frame[1023], b'x');
}

#[test]
fn text_past_the_frame_is_refused() {
    assert_eq!(encode(&Command::Failure("x".repeat(991))), Err(CodecError::FieldTooLong));
    assert_eq!(encode(&Command::Failure("x".repeat(70000))), Err(CodecError::FieldTooLong));
    let long_body = Command::Deliver("a".to_string(), "b".to_string(), "x".repeat(991));
    assert_eq!(encode(&long_body), Err(CodecError::FieldTooLong));
}

#[test]
fn text_length_counts_bytes_not_characters() {
    // 495 two-byte characters fill the text room exactly; one more does not fit.
    assert!(encode(&Command::Failure("é".repeat(495))).is_ok());
    assert_eq!(encode(&Command::Failure("é".repeat(496))), Err(CodecError::FieldTooLong));
}

#[test]
fn names_past_the_frame_are_refused() {
    let long_sender = Command::Deliver("s".repeat(1023), String::new(), String::new());
    assert_eq!(encode(&long_sender), Err(CodecError::FieldTooLong));
    let long_target = Command::Deliver(String::new(), "t".repeat(1008), String::new());
    assert_eq!(encode(&long_target), Err(CodecError::FieldTooLong));
    let widest = Command::Deliver("s".repeat(1022), "t".repeat(1007), String::new());
    assert!(encode(&widest).is_ok());
}

#[test]
fn unknown_code_is_reported_with_its_byte() {
    let mut frame = blank();
    frame[0] = 4;
    assert_eq!(decode(&frame), Err(CodecError::UnknownCode(4)));
    frame[0] = 255;
    assert_eq!(decode(&frame), Err(CodecError::UnknownCode(255)));
}

#[test]
fn oversized_lengths_are_malformed() {
    let mut frame = blank();
    frame[0] = 3;
    frame[1] = 14;
    assert!(!is_readable(&frame));
    assert_eq!(decode(&frame), Err(CodecError::Malformed));

    let mut frame = blank();
    frame[0] = 3;
    frame[16] = 15;
    assert_eq!(decode(&frame), Err(CodecError::Malformed));

    let mut frame = blank();
    frame[0] = 1;
    let too_long = 990u16.to_ne_bytes();
    frame[32] = too_long[0];
    frame[33] = too_long[1];
    assert_eq!(decode(&frame), Err(CodecError::Malformed));
}

#[test]
fn largest_lengths_are_read() {
    let mut frame = blank();
    frame[0] = 3;
    frame[1] = 13;
    frame[16] = 14;
    let longest = 989u16.to_ne_bytes();
    frame[32] = longest[0];
    frame[33] = longest[1];
    for byte in frame[2..15].iter_mut() {
        *byte = b's';
    }
    for byte in frame[17..31].iter_mut() {
        *byte = b't';
    }
    for byte in frame[34..1023].iter_mut() {
        *byte = b'x';
    }
    assert!(is_readable(&frame));
    assert_eq!(
        decode(&frame),
        Ok(Command::Deliver("s".repeat(13), "t".repeat(14), "x".repeat(989))),
    );
}

#[test]
fn lengths_are_ignored_where_the_kind_has_no_fields() {
    let mut frame = blank();
    frame[1] = 200;
    frame[16] = 200;
    frame[32] = 255;
    frame[33] = 255;
    assert_eq!(decode(&frame), Ok(Command::Ack));
    frame[0] = 2;
    assert_eq!(decode(&frame), Ok(Command::FetchRequest));
}
