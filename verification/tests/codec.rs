//! The protocol codec: decoding lines, encoding messages, and the
//! round trip between them.

use ferrisshare::protocol::{ProtocolError, ProtocolMessage};
use ferrisshare::storage::YeetBlock;

fn decode(line: &[u8]) -> Result<ProtocolMessage, ProtocolError> {
    ProtocolMessage::decode(line)
}

#[test]
fn decode_hello() {
    let m = decode(b"HELLO foo.bin 3500").unwrap();
    assert_eq!(
        m,
        ProtocolMessage::Hello { filename: b"foo.bin".to_vec(), filesize: 3500 }
    );
}

#[test]
fn decode_hello_tolerates_crlf_and_padding() {
    let bare = decode(b"HELLO a.txt 10").unwrap();
    assert_eq!(decode(b"HELLO a.txt 10\n").unwrap(), bare);
    assert_eq!(decode(b"HELLO a.txt 10\r\n").unwrap(), bare);
    assert_eq!(decode(b"  HELLO   a.txt \t 10  \r\n").unwrap(), bare);
}

#[test]
fn decode_hello_missing_args() {
    assert_eq!(decode(b"HELLO"), Err(ProtocolError::MissingArgs));
    assert_eq!(decode(b"HELLO onlyname"), Err(ProtocolError::MissingArgs));
}

#[test]
fn decode_hello_invalid_number() {
    assert_eq!(decode(b"HELLO a.txt big"), Err(ProtocolError::InvalidNumber));
    assert_eq!(decode(b"HELLO a.txt -3"), Err(ProtocolError::InvalidNumber));
    assert_eq!(decode(b"HELLO a.txt 12x"), Err(ProtocolError::InvalidNumber));
}

#[test]
fn decode_number_bounds() {
    let m = decode(b"HELLO a 18446744073709551615").unwrap();
    assert_eq!(
        m,
        ProtocolMessage::Hello { filename: b"a".to_vec(), filesize: u64::MAX }
    );
    assert_eq!(
        decode(b"HELLO a 18446744073709551616"),
        Err(ProtocolError::InvalidNumber)
    );
    let m = decode(b"HELLO a +7").unwrap();
    assert_eq!(m, ProtocolMessage::Hello { filename: b"a".to_vec(), filesize: 7 });
}

#[test]
fn decode_ok() {
    assert_eq!(decode(b"OK").unwrap(), ProtocolMessage::Okay);
}

#[test]
fn decode_nope_joins_reason() {
    assert_eq!(
        decode(b"NOPE not  today \n").unwrap(),
        ProtocolMessage::Nope(b"not today".to_vec())
    );
    assert_eq!(decode(b"NOPE"), Err(ProtocolError::MissingArgs));
}

#[test]
fn decode_yeet() {
    assert_eq!(
        decode(b"YEET 3 428 0\n").unwrap(),
        ProtocolMessage::Yeet(YeetBlock::new(3, 428, 0))
    );
    assert_eq!(decode(b"YEET"), Err(ProtocolError::MissingArgs));
    assert_eq!(decode(b"YEET 1"), Err(ProtocolError::MissingArgs));
    assert_eq!(decode(b"YEET 1 2"), Err(ProtocolError::MissingArgs));
    assert_eq!(decode(b"YEET x 2 3"), Err(ProtocolError::InvalidNumber));
    assert_eq!(decode(b"YEET 1 x 3"), Err(ProtocolError::InvalidNumber));
    assert_eq!(decode(b"YEET 1 2 x"), Err(ProtocolError::InvalidNumber));
    // block size and checksum are 32-bit fields
    assert_eq!(decode(b"YEET 1 4294967296 0"), Err(ProtocolError::InvalidNumber));
}

#[test]
fn decode_ok_housten() {
    assert_eq!(decode(b"OK-HOUSTEN 2").unwrap(), ProtocolMessage::OkHousten(2));
    assert_eq!(decode(b"OK-HOUSTEN"), Err(ProtocolError::MissingArgs));
    assert_eq!(decode(b"OK-HOUSTEN ten"), Err(ProtocolError::InvalidNumber));
}

#[test]
fn decode_bare_words() {
    assert_eq!(
        decode(b"MISSION-ACCOMPLISHED\n").unwrap(),
        ProtocolMessage::MissionAccomplished
    );
    assert_eq!(decode(b"SUCCESS").unwrap(), ProtocolMessage::Success);
    assert_eq!(decode(b"BYE-RIS").unwrap(), ProtocolMessage::ByeRis);
}

#[test]
fn decode_error_line() {
    assert_eq!(
        decode(b"ERROR something broke").unwrap(),
        ProtocolMessage::Error(b"something broke".to_vec())
    );
    assert_eq!(decode(b"ERROR"), Err(ProtocolError::MissingArgs));
}

#[test]
fn decode_invalid_command() {
    assert_eq!(decode(b""), Err(ProtocolError::InvalidCommand));
    assert_eq!(decode(b"   \r\n"), Err(ProtocolError::InvalidCommand));
    assert_eq!(decode(b"hello a 1"), Err(ProtocolError::InvalidCommand));
    assert_eq!(decode(b"HELLOX a 1"), Err(ProtocolError::InvalidCommand));
    assert_eq!(decode(b"GREET a 1"), Err(ProtocolError::InvalidCommand));
}

#[test]
fn decode_rejects_invalid_utf8() {
    assert_eq!(decode(b"HELLO \xff\xfe 5"), Err(ProtocolError::InvalidUtf8));
    assert_eq!(decode(b"\x80"), Err(ProtocolError::InvalidUtf8));
    // an overlong encoding is malformed too
    assert_eq!(decode(b"OK \xc0\xaf"), Err(ProtocolError::InvalidUtf8));
}

#[test]
fn decode_accepts_multibyte_utf8_filenames() {
    let m = decode("HELLO f\u{00e9}e.bin 7".as_bytes()).unwrap();
    assert_eq!(
        m,
        ProtocolMessage::Hello { filename: "f\u{00e9}e.bin".as_bytes().to_vec(), filesize: 7 }
    );
}

#[test]
fn encode_forms() {
    assert_eq!(
        ProtocolMessage::Hello { filename: b"foo.bin".to_vec(), filesize: 3500 }.encode(),
        b"HELLO foo.bin 3500".to_vec()
    );
    assert_eq!(ProtocolMessage::Okay.encode(), b"OK".to_vec());
    assert_eq!(
        ProtocolMessage::Nope(b"not today".to_vec()).encode(),
        b"NOPE not today".to_vec()
    );
    assert_eq!(
        ProtocolMessage::Yeet(YeetBlock::new(3, 428, 0)).encode(),
        b"YEET 3 428 0".to_vec()
    );
    assert_eq!(ProtocolMessage::OkHousten(12).encode(), b"OK-HOUSTEN 12".to_vec());
    assert_eq!(
        ProtocolMessage::MissionAccomplished.encode(),
        b"MISSION-ACCOMPLISHED".to_vec()
    );
    assert_eq!(ProtocolMessage::Success.encode(), b"SUCCESS".to_vec());
    assert_eq!(ProtocolMessage::ByeRis.encode(), b"BYE-RIS".to_vec());
}

#[test]
fn encode_error_uses_colon_form() {
    assert_eq!(
        ProtocolMessage::Error(b"boom".to_vec()).encode(),
        b"ERROR: boom".to_vec()
    );
}

#[test]
fn round_trip_well_formed_messages() {
    let cases = vec![
        ProtocolMessage::Hello { filename: b"dir/a.bin".to_vec(), filesize: 0 },
        ProtocolMessage::Okay,
        ProtocolMessage::Nope(b"one two three".to_vec()),
        ProtocolMessage::Yeet(YeetBlock::new(7, 1024, 42)),
        ProtocolMessage::OkHousten(u64::MAX),
        ProtocolMessage::MissionAccomplished,
        ProtocolMessage::Success,
        ProtocolMessage::ByeRis,
    ];
    for m in cases {
        let line = m.encode();
        assert_eq!(decode(&line).unwrap(), m);
    }
}

#[test]
fn round_trip_fails_for_error_variant() {
    let m = ProtocolMessage::Error(b"boom".to_vec());
    let line = m.encode();
    // "ERROR:" is not a command word the decoder knows.
    assert_eq!(decode(&line), Err(ProtocolError::InvalidCommand));
}

#[test]
fn error_messages() {
    assert_eq!(
        ProtocolError::InvalidCommand.message(),
        b"Invalid command".to_vec()
    );
    assert_eq!(
        ProtocolError::MissingArgs.message(),
        b"Missing arguments".to_vec()
    );
    assert_eq!(
        ProtocolError::InvalidNumber.message(),
        b"Invalid number format".to_vec()
    );
    assert_eq!(
        ProtocolError::CommandExecutionFailed(b"oops".to_vec()).message(),
        b"Command execution failed: oops".to_vec()
    );
}
