//! The wire alphabet and its codec: typed protocol messages, decoding a
//! line of bytes into a message, and encoding a message back into a line.
//!
//! The decoded meaning of a line is a function of its
//! whitespace-separated tokens alone; the codec laws at the end of the
//! module state this and the round trip through encode and decode.

use vstd::prelude::*;

use crate::lex::{
    append_bytes, bytes_eq, is_ascii_ws, join_from, join_tokens,
    lemma_dec_of_no_ws, lemma_parse_dec_of, lemma_parse_dec_of_u32, lemma_tokens_padded,
    lemma_tokens_sep, lemma_tokens_single, parse_u32, parse_u32_spec, parse_u64, parse_u64_spec,
    to_vec_u8, tokenize, tokens_of, u64_to_dec,
};
use crate::lex::dec_of;
use crate::lex::lemma_dec_of_value;
use crate::lex::is_ascii_digit;
use crate::storage::YeetBlock;
use crate::utf8::{is_utf8, is_valid_utf8, lemma_utf8_ascii, lemma_utf8_ascii_padding,
    lemma_utf8_concat};
use crate::text::{
    tag_bye_ris, tag_bye_ris_bytes, tag_error, tag_error_bytes, tag_error_colon,
    tag_error_colon_bytes, tag_hello, tag_hello_bytes, tag_mission, tag_mission_bytes, tag_nope,
    tag_nope_bytes, tag_ok, tag_ok_bytes, tag_ok_housten, tag_ok_housten_bytes, tag_success,
    tag_success_bytes, tag_yeet, tag_yeet_bytes, txt_exec_failed, txt_exec_failed_bytes,
    txt_incomplete, txt_incomplete_bytes, txt_invalid_command, txt_invalid_command_bytes,
    txt_invalid_number, txt_invalid_number_bytes, txt_invalid_utf8, txt_invalid_utf8_bytes,
    txt_missing_args, txt_missing_args_bytes,
};

verus! {

/// The wire alphabet: one typed value per protocol line.
/// Text fields hold the UTF-8 bytes of the text.
#[derive(Debug, Clone, PartialEq, Eq)]
pub enum ProtocolMessage {
    Hello { filename: Vec<u8>, filesize: u64 },
    Okay,
    Nope(Vec<u8>),
    Yeet(YeetBlock),
    OkHousten(u64),
    MissionAccomplished,
    Success,
    Error(Vec<u8>),
    ByeRis,
}

/// The mathematical shape of a protocol message.
pub enum MessageView {
    Hello { filename: Seq<u8>, filesize: u64 },
    Okay,
    Nope(Seq<u8>),
    Yeet(YeetBlock),
    OkHousten(u64),
    MissionAccomplished,
    Success,
    Error(Seq<u8>),
    ByeRis,
}

impl View for ProtocolMessage {
    type V = MessageView;

    open spec fn view(&self) -> MessageView {
        match self {
            ProtocolMessage::Hello { filename, filesize } => MessageView::Hello {
                filename: filename@,
                filesize: *filesize,
            },
            ProtocolMessage::Okay => MessageView::Okay,
            ProtocolMessage::Nope(r) => MessageView::Nope(r@),
            ProtocolMessage::Yeet(b) => MessageView::Yeet(*b),
            ProtocolMessage::OkHousten(i) => MessageView::OkHousten(*i),
            ProtocolMessage::MissionAccomplished => MessageView::MissionAccomplished,
            ProtocolMessage::Success => MessageView::Success,
            ProtocolMessage::Error(r) => MessageView::Error(r@),
            ProtocolMessage::ByeRis => MessageView::ByeRis,
        }
    }
}

/// Why a line failed to decode, or a decoded message failed to run.
#[derive(Debug, PartialEq, Eq)]
pub enum ProtocolError {
    InvalidUtf8,
    InvalidCommand,
    MissingArgs,
    InvalidNumber,
    Incomplete,
    CommandExecutionFailed(Vec<u8>),
}

impl ProtocolError {
    /// The text of this error as sent back to the peer.
    pub open spec fn text(&self) -> Seq<u8> {
        match self {
            ProtocolError::InvalidUtf8 => txt_invalid_utf8(),
            ProtocolError::InvalidCommand => txt_invalid_command(),
            ProtocolError::MissingArgs => txt_missing_args(),
            ProtocolError::InvalidNumber => txt_invalid_number(),
            ProtocolError::Incomplete => txt_incomplete(),
            ProtocolError::CommandExecutionFailed(m) => txt_exec_failed() + m@,
        }
    }

    /// Render the text of this error.
    pub fn message(&self) -> (r: Vec<u8>)
        ensures
            r@ == self.text(),
    {
        match self {
            ProtocolError::InvalidUtf8 => txt_invalid_utf8_bytes(),
            ProtocolError::InvalidCommand => txt_invalid_command_bytes(),
            ProtocolError::MissingArgs => txt_missing_args_bytes(),
            ProtocolError::InvalidNumber => txt_invalid_number_bytes(),
            ProtocolError::Incomplete => txt_incomplete_bytes(),
            ProtocolError::CommandExecutionFailed(m) => {
                let mut r = txt_exec_failed_bytes();
                append_bytes(&mut r, m.as_slice());
                r
            },
        }
    }
}

/// What a token list decodes to: the first token selects the variant,
/// the following tokens are its arguments. Further tokens are ignored,
/// except for `NOPE` and `ERROR`, whose reason is all following tokens
/// joined with single spaces.
pub open spec fn parse_msg_spec(toks: Seq<Seq<u8>>) -> Result<MessageView, ProtocolError> {
    if toks.len() == 0 {
        Err(ProtocolError::InvalidCommand)
    } else if toks[0] == tag_hello() {
        if toks.len() < 3 {
            Err(ProtocolError::MissingArgs)
        } else {
            match parse_u64_spec(toks[2]) {
                Some(n) => Ok(MessageView::Hello { filename: toks[1], filesize: n }),
                None => Err(ProtocolError::InvalidNumber),
            }
        }
    } else if toks[0] == tag_ok() {
        Ok(MessageView::Okay)
    } else if toks[0] == tag_nope() {
        if toks.len() < 2 {
            Err(ProtocolError::MissingArgs)
        } else {
            Ok(MessageView::Nope(join_tokens(toks.subrange(1, toks.len() as int))))
        }
    } else if toks[0] == tag_yeet() {
        if toks.len() < 2 {
            Err(ProtocolError::MissingArgs)
        } else {
            match parse_u64_spec(toks[1]) {
                None => Err(ProtocolError::InvalidNumber),
                Some(i) => if toks.len() < 3 {
                    Err(ProtocolError::MissingArgs)
                } else {
                    match parse_u32_spec(toks[2]) {
                        None => Err(ProtocolError::InvalidNumber),
                        Some(sz) => if toks.len() < 4 {
                            Err(ProtocolError::MissingArgs)
                        } else {
                            match parse_u32_spec(toks[3]) {
                                None => Err(ProtocolError::InvalidNumber),
                                Some(cs) => Ok(
                                    MessageView::Yeet(
                                        YeetBlock { index: i, size: sz, checksum: cs },
                                    ),
                                ),
                            }
                        },
                    }
                },
            }
        }
    } else if toks[0] == tag_ok_housten() {
        if toks.len() < 2 {
            Err(ProtocolError::MissingArgs)
        } else {
            match parse_u64_spec(toks[1]) {
                Some(i) => Ok(MessageView::OkHousten(i)),
                None => Err(ProtocolError::InvalidNumber),
            }
        }
    } else if toks[0] == tag_mission() {
        Ok(MessageView::MissionAccomplished)
    } else if toks[0] == tag_success() {
        Ok(MessageView::Success)
    } else if toks[0] == tag_error() {
        if toks.len() < 2 {
            Err(ProtocolError::MissingArgs)
        } else {
            Ok(MessageView::Error(join_tokens(toks.subrange(1, toks.len() as int))))
        }
    } else if toks[0] == tag_bye_ris() {
        Ok(MessageView::ByeRis)
    } else {
        Err(ProtocolError::InvalidCommand)
    }
}

/// One line, encoded: the command word and its arguments separated by
/// single spaces. `Error` is encoded with the colon form `"ERROR: "`,
/// which the decoder does not read back; every other variant is
/// symmetric with its decoded form.
pub open spec fn encode_spec(m: MessageView) -> Seq<u8> {
    match m {
        MessageView::Hello { filename, filesize } => tag_hello() + seq![32u8] + filename
            + seq![32u8] + dec_of(filesize as nat),
        MessageView::Okay => tag_ok(),
        MessageView::Nope(r) => tag_nope() + seq![32u8] + r,
        MessageView::Yeet(b) => tag_yeet() + seq![32u8] + dec_of(b.index as nat) + seq![32u8]
            + dec_of(b.size as nat) + seq![32u8] + dec_of(b.checksum as nat),
        MessageView::OkHousten(i) => tag_ok_housten() + seq![32u8] + dec_of(i as nat),
        MessageView::MissionAccomplished => tag_mission(),
        MessageView::Success => tag_success(),
        MessageView::Error(r) => tag_error_colon() + seq![32u8] + r,
        MessageView::ByeRis => tag_bye_ris(),
    }
}

/// What one line of bytes decodes to: a line that is not well-formed
/// UTF-8 is rejected outright; otherwise the parse of its
/// whitespace-separated tokens.
pub open spec fn decode_spec(line: Seq<u8>) -> Result<MessageView, ProtocolError> {
    if is_utf8(line) {
        parse_msg_spec(tokens_of(line))
    } else {
        Err(ProtocolError::InvalidUtf8)
    }
}

impl ProtocolMessage {
    /// Decode one line of bytes (with or without its terminator) into a
    /// message.
    pub fn decode(line: &[u8]) -> (r: Result<ProtocolMessage, ProtocolError>)
        ensures
            ({
                let s = decode_spec(line@);
                match r {
                    Ok(m) => s == Ok::<MessageView, ProtocolError>(m@),
                    Err(e) => s == Err::<MessageView, ProtocolError>(e),
                }
            }),
    {
        if !is_valid_utf8(line) {
            return Err(ProtocolError::InvalidUtf8);
        }
        let toks = tokenize(line);
        let ghost ts = tokens_of(line@);
        if toks.len() == 0 {
            return Err(ProtocolError::InvalidCommand);
        }
        let cmd = &toks[0];
        if bytes_eq(cmd.as_slice(), tag_hello_bytes().as_slice()) {
            if toks.len() < 3 {
                return Err(ProtocolError::MissingArgs);
            }
            let filename = to_vec_u8(toks[1].as_slice());
            match parse_u64(toks[2].as_slice()) {
                Some(n) => Ok(ProtocolMessage::Hello { filename, filesize: n }),
                None => Err(ProtocolError::InvalidNumber),
            }
        } else if bytes_eq(cmd.as_slice(), tag_ok_bytes().as_slice()) {
            Ok(ProtocolMessage::Okay)
        } else if bytes_eq(cmd.as_slice(), tag_nope_bytes().as_slice()) {
            if toks.len() < 2 {
                return Err(ProtocolError::MissingArgs);
            }
            let reason = join_from(&toks, 1, Ghost(ts));
            Ok(ProtocolMessage::Nope(reason))
        } else if bytes_eq(cmd.as_slice(), tag_yeet_bytes().as_slice()) {
            if toks.len() < 2 {
                return Err(ProtocolError::MissingArgs);
            }
            let index = match parse_u64(toks[1].as_slice()) {
                Some(i) => i,
                None => {
                    return Err(ProtocolError::InvalidNumber);
                },
            };
            if toks.len() < 3 {
                return Err(ProtocolError::MissingArgs);
            }
            let size = match parse_u32(toks[2].as_slice()) {
                Some(sz) => sz,
                None => {
                    return Err(ProtocolError::InvalidNumber);
                },
            };
            if toks.len() < 4 {
                return Err(ProtocolError::MissingArgs);
            }
            let checksum = match parse_u32(toks[3].as_slice()) {
                Some(cs) => cs,
                None => {
                    return Err(ProtocolError::InvalidNumber);
                },
            };
            Ok(ProtocolMessage::Yeet(YeetBlock::new(index, size, checksum)))
        } else if bytes_eq(cmd.as_slice(), tag_ok_housten_bytes().as_slice()) {
            if toks.len() < 2 {
                return Err(ProtocolError::MissingArgs);
            }
            match parse_u64(toks[1].as_slice()) {
                Some(i) => Ok(ProtocolMessage::OkHousten(i)),
                None => Err(ProtocolError::InvalidNumber),
            }
        } else if bytes_eq(cmd.as_slice(), tag_mission_bytes().as_slice()) {
            Ok(ProtocolMessage::MissionAccomplished)
        } else if bytes_eq(cmd.as_slice(), tag_success_bytes().as_slice()) {
            Ok(ProtocolMessage::Success)
        } else if bytes_eq(cmd.as_slice(), tag_error_bytes().as_slice()) {
            if toks.len() < 2 {
                return Err(ProtocolError::MissingArgs);
            }
            let reason = join_from(&toks, 1, Ghost(ts));
            Ok(ProtocolMessage::Error(reason))
        } else if bytes_eq(cmd.as_slice(), tag_bye_ris_bytes().as_slice()) {
            Ok(ProtocolMessage::ByeRis)
        } else {
            Err(ProtocolError::InvalidCommand)
        }
    }

    /// Encode this message as one line, without the trailing newline:
    /// the writer appends it.
    pub fn encode(&self) -> (r: Vec<u8>)
        ensures
            r@ == encode_spec(self@),
    {
        match self {
            ProtocolMessage::Hello { filename, filesize } => {
                let mut r = tag_hello_bytes();
                r.push(32);
                append_bytes(&mut r, filename.as_slice());
                r.push(32);
                let d = u64_to_dec(*filesize);
                append_bytes(&mut r, d.as_slice());
                proof {
                    assert(r@ =~= encode_spec(self@));
                }
                r
            },
            ProtocolMessage::Okay => tag_ok_bytes(),
            ProtocolMessage::Nope(reason) => {
                let mut r = tag_nope_bytes();
                r.push(32);
                append_bytes(&mut r, reason.as_slice());
                proof {
                    assert(r@ =~= encode_spec(self@));
                }
                r
            },
            ProtocolMessage::Yeet(b) => {
                let mut r = tag_yeet_bytes();
                r.push(32);
                let d1 = u64_to_dec(b.index);
                append_bytes(&mut r, d1.as_slice());
                r.push(32);
                let d2 = u64_to_dec(b.size as u64);
                append_bytes(&mut r, d2.as_slice());
                r.push(32);
                let d3 = u64_to_dec(b.checksum as u64);
                append_bytes(&mut r, d3.as_slice());
                proof {
                    assert(r@ =~= encode_spec(self@));
                }
                r
            },
            ProtocolMessage::OkHousten(i) => {
                let mut r = tag_ok_housten_bytes();
                r.push(32);
                let d = u64_to_dec(*i);
                append_bytes(&mut r, d.as_slice());
                proof {
                    assert(r@ =~= encode_spec(self@));
                }
                r
            },
            ProtocolMessage::MissionAccomplished => tag_mission_bytes(),
            ProtocolMessage::Success => tag_success_bytes(),
            ProtocolMessage::Error(reason) => {
                let mut r = tag_error_colon_bytes();
                r.push(32);
                append_bytes(&mut r, reason.as_slice());
                proof {
                    assert(r@ =~= encode_spec(self@));
                }
                r
            },
            ProtocolMessage::ByeRis => tag_bye_ris_bytes(),
        }
    }
}

/// A token as decode sees one: nonempty, without whitespace inside,
/// and well-formed UTF-8 as the wire asks.
pub open spec fn wf_token(t: Seq<u8>) -> bool {
    t.len() > 0 && is_utf8(t) && (forall|j: int|
        0 <= j < t.len() ==> !is_ascii_ws(#[trigger] t[j]))
}

/// A reason whose encoded form decodes back to itself: it has at least
/// one token, equals its own tokens joined with single spaces, and is
/// well-formed UTF-8 as the wire asks.
pub open spec fn wf_reason(r: Seq<u8>) -> bool {
    tokens_of(r).len() > 0 && join_tokens(tokens_of(r)) == r && is_utf8(r)
}

/// The encoded form of `m` is well-formed for decode: its filename is
/// one token, its reason re-joins to itself.
pub open spec fn wf_for_decode(m: MessageView) -> bool {
    match m {
        MessageView::Hello { filename, .. } => wf_token(filename),
        MessageView::Nope(r) => wf_reason(r),
        MessageView::Error(r) => wf_reason(r),
        _ => true,
    }
}

/// The decimal digit string of a number is ASCII, so well-formed UTF-8.
proof fn lemma_dec_of_utf8(n: nat)
    ensures
        is_utf8(dec_of(n)),
{
    lemma_dec_of_value(n);
    assert(forall|j: int| 0 <= j < dec_of(n).len() ==> dec_of(n)[j] < 0x80) by {
        assert(forall|j: int|
            0 <= j < dec_of(n).len() ==> is_ascii_digit(#[trigger] dec_of(n)[j]));
    }
    lemma_utf8_ascii(dec_of(n));
}

/// The encoded form of a well-formed message is well-formed UTF-8:
/// the command words, spaces and digits are ASCII, and the text fields
/// are well-formed by assumption.
proof fn lemma_encode_utf8(m: MessageView)
    requires
        wf_for_decode(m),
    ensures
        is_utf8(encode_spec(m)),
{
    let sp = seq![32u8];
    assert(forall|j: int| 0 <= j < sp.len() ==> sp[j] < 0x80);
    lemma_utf8_ascii(sp);
    match m {
        MessageView::Hello { filename, filesize } => {
            let tag = tag_hello();
            assert(forall|j: int| 0 <= j < tag.len() ==> tag[j] < 0x80);
            lemma_utf8_ascii(tag);
            lemma_dec_of_utf8(filesize as nat);
            lemma_utf8_concat(tag, sp);
            lemma_utf8_concat(tag + sp, filename);
            lemma_utf8_concat(tag + sp + filename, sp);
            lemma_utf8_concat(tag + sp + filename + sp, dec_of(filesize as nat));
        },
        MessageView::Okay => {
            assert(forall|j: int| 0 <= j < tag_ok().len() ==> tag_ok()[j] < 0x80);
            lemma_utf8_ascii(tag_ok());
        },
        MessageView::Nope(r) => {
            let tag = tag_nope();
            assert(forall|j: int| 0 <= j < tag.len() ==> tag[j] < 0x80);
            lemma_utf8_ascii(tag);
            lemma_utf8_concat(tag, sp);
            lemma_utf8_concat(tag + sp, r);
        },
        MessageView::Yeet(b) => {
            let tag = tag_yeet();
            assert(forall|j: int| 0 <= j < tag.len() ==> tag[j] < 0x80);
            lemma_utf8_ascii(tag);
            let d1 = dec_of(b.index as nat);
            let d2 = dec_of(b.size as nat);
            let d3 = dec_of(b.checksum as nat);
            lemma_dec_of_utf8(b.index as nat);
            lemma_dec_of_utf8(b.size as nat);
            lemma_dec_of_utf8(b.checksum as nat);
            lemma_utf8_concat(tag, sp);
            lemma_utf8_concat(tag + sp, d1);
            lemma_utf8_concat(tag + sp + d1, sp);
            lemma_utf8_concat(tag + sp + d1 + sp, d2);
            lemma_utf8_concat(tag + sp + d1 + sp + d2, sp);
            lemma_utf8_concat(tag + sp + d1 + sp + d2 + sp, d3);
        },
        MessageView::OkHousten(i) => {
            let tag = tag_ok_housten();
            assert(forall|j: int| 0 <= j < tag.len() ==> tag[j] < 0x80);
            lemma_utf8_ascii(tag);
            lemma_dec_of_utf8(i as nat);
            lemma_utf8_concat(tag, sp);
            lemma_utf8_concat(tag + sp, dec_of(i as nat));
        },
        MessageView::MissionAccomplished => {
            assert(forall|j: int| 0 <= j < tag_mission().len() ==> tag_mission()[j] < 0x80);
            lemma_utf8_ascii(tag_mission());
        },
        MessageView::Success => {
            assert(forall|j: int| 0 <= j < tag_success().len() ==> tag_success()[j] < 0x80);
            lemma_utf8_ascii(tag_success());
        },
        MessageView::Error(r) => {
            let tag = tag_error_colon();
            assert(forall|j: int| 0 <= j < tag.len() ==> tag[j] < 0x80);
            lemma_utf8_ascii(tag);
            lemma_utf8_concat(tag, sp);
            lemma_utf8_concat(tag + sp, r);
        },
        MessageView::ByeRis => {
            assert(forall|j: int| 0 <= j < tag_bye_ris().len() ==> tag_bye_ris()[j] < 0x80);
            lemma_utf8_ascii(tag_bye_ris());
        },
    }
}

/// The command words of equal length differ in their first byte.
proof fn lemma_tags_first_bytes()
    ensures
        tag_nope() != tag_yeet(),
        tag_hello() != tag_error(),
        tag_success() != tag_bye_ris(),
{
    assert(tag_nope()[0] == 78u8);
    assert(tag_yeet()[0] == 89u8);
    assert(tag_hello()[0] == 72u8);
    assert(tag_error()[0] == 69u8);
    assert(tag_success()[0] == 83u8);
    assert(tag_bye_ris()[0] == 66u8);
}

/// Round trip of a `Hello` line.
proof fn lemma_round_trip_hello(filename: Seq<u8>, filesize: u64)
    requires
        wf_token(filename),
    ensures
        parse_msg_spec(tokens_of(encode_spec(MessageView::Hello { filename, filesize })))
            == Ok::<MessageView, ProtocolError>(MessageView::Hello { filename, filesize }),
{
    let m = MessageView::Hello { filename, filesize };
    let toks = tokens_of(encode_spec(m));
    let tag = tag_hello();
    let d = dec_of(filesize as nat);
    assert(forall|j: int| 0 <= j < tag.len() ==> !is_ascii_ws(#[trigger] tag[j]));
    lemma_dec_of_no_ws(filesize as nat);
    lemma_tokens_single(tag);
    lemma_tokens_single(filename);
    lemma_tokens_single(d);
    lemma_tokens_sep(tag, filename);
    lemma_tokens_sep(tag + seq![32u8] + filename, d);
    assert(toks =~= seq![tag, filename, d]);
    lemma_parse_dec_of(filesize);
}

/// Round trip of a `Nope` line.
proof fn lemma_round_trip_nope(r: Seq<u8>)
    requires
        wf_reason(r),
    ensures
        parse_msg_spec(tokens_of(encode_spec(MessageView::Nope(r)))) == Ok::<
            MessageView,
            ProtocolError,
        >(MessageView::Nope(r)),
{
    let toks = tokens_of(encode_spec(MessageView::Nope(r)));
    lemma_tags_first_bytes();
    assert(forall|j: int|
        0 <= j < tag_nope().len() ==> !is_ascii_ws(#[trigger] tag_nope()[j]));
    lemma_tokens_single(tag_nope());
    lemma_tokens_sep(tag_nope(), r);
    assert(toks == seq![tag_nope()] + tokens_of(r));
    assert(toks.subrange(1, toks.len() as int) =~= tokens_of(r));
    assert(toks[0] == tag_nope());
}

/// Round trip of a `Yeet` line.
proof fn lemma_round_trip_yeet(b: YeetBlock)
    ensures
        parse_msg_spec(tokens_of(encode_spec(MessageView::Yeet(b)))) == Ok::<
            MessageView,
            ProtocolError,
        >(MessageView::Yeet(b)),
{
    let toks = tokens_of(encode_spec(MessageView::Yeet(b)));
    lemma_tags_first_bytes();
    let tag = tag_yeet();
    let d1 = dec_of(b.index as nat);
    let d2 = dec_of(b.size as nat);
    let d3 = dec_of(b.checksum as nat);
    assert(forall|j: int| 0 <= j < tag.len() ==> !is_ascii_ws(#[trigger] tag[j]));
    lemma_dec_of_no_ws(b.index as nat);
    lemma_dec_of_no_ws(b.size as nat);
    lemma_dec_of_no_ws(b.checksum as nat);
    lemma_tokens_single(tag);
    lemma_tokens_single(d1);
    lemma_tokens_single(d2);
    lemma_tokens_single(d3);
    lemma_tokens_sep(tag, d1);
    lemma_tokens_sep(tag + seq![32u8] + d1, d2);
    lemma_tokens_sep(tag + seq![32u8] + d1 + seq![32u8] + d2, d3);
    assert(toks =~= seq![tag, d1, d2, d3]);
    lemma_parse_dec_of(b.index);
    lemma_parse_dec_of_u32(b.size);
    lemma_parse_dec_of_u32(b.checksum);
}

/// Round trip of an `OkHousten` line.
proof fn lemma_round_trip_ok_housten(i: u64)
    ensures
        parse_msg_spec(tokens_of(encode_spec(MessageView::OkHousten(i)))) == Ok::<
            MessageView,
            ProtocolError,
        >(MessageView::OkHousten(i)),
{
    let toks = tokens_of(encode_spec(MessageView::OkHousten(i)));
    let tag = tag_ok_housten();
    let d = dec_of(i as nat);
    assert(forall|j: int| 0 <= j < tag.len() ==> !is_ascii_ws(#[trigger] tag[j]));
    lemma_dec_of_no_ws(i as nat);
    lemma_tokens_single(tag);
    lemma_tokens_single(d);
    lemma_tokens_sep(tag, d);
    assert(toks =~= seq![tag, d]);
    lemma_parse_dec_of(i);
}

/// Round trip of a line that is a bare command word.
proof fn lemma_round_trip_bare(m: MessageView)
    requires
        m is Okay || m is MissionAccomplished || m is Success || m is ByeRis,
    ensures
        parse_msg_spec(tokens_of(encode_spec(m))) == Ok::<MessageView, ProtocolError>(m),
{
    let toks = tokens_of(encode_spec(m));
    lemma_tags_first_bytes();
    match m {
        MessageView::Okay => {
            assert(forall|j: int|
                0 <= j < tag_ok().len() ==> !is_ascii_ws(#[trigger] tag_ok()[j]));
            lemma_tokens_single(tag_ok());
            assert(toks =~= seq![tag_ok()]);
        },
        MessageView::MissionAccomplished => {
            assert(forall|j: int|
                0 <= j < tag_mission().len() ==> !is_ascii_ws(#[trigger] tag_mission()[j]));
            lemma_tokens_single(tag_mission());
            assert(toks =~= seq![tag_mission()]);
        },
        MessageView::Success => {
            assert(forall|j: int|
                0 <= j < tag_success().len() ==> !is_ascii_ws(#[trigger] tag_success()[j]));
            lemma_tokens_single(tag_success());
            assert(toks =~= seq![tag_success()]);
        },
        MessageView::ByeRis => {
            assert(forall|j: int|
                0 <= j < tag_bye_ris().len() ==> !is_ascii_ws(#[trigger] tag_bye_ris()[j]));
            lemma_tokens_single(tag_bye_ris());
            assert(toks =~= seq![tag_bye_ris()]);
        },
        _ => {
        },
    }
}

/// Codec round trip: every message whose encoded form is well-formed
/// for decode decodes back to itself. The `Error` variant is the one
/// exception and is excluded: it is encoded with the colon form
/// `"ERROR: "`, which the decoder does not read back.
pub proof fn lemma_codec_round_trip(m: MessageView)
    requires
        wf_for_decode(m),
        !(m is Error),
    ensures
        decode_spec(encode_spec(m)) == Ok::<MessageView, ProtocolError>(m),
{
    lemma_encode_utf8(m);
    match m {
        MessageView::Hello { filename, filesize } => {
            lemma_round_trip_hello(filename, filesize);
        },
        MessageView::Nope(r) => {
            lemma_round_trip_nope(r);
        },
        MessageView::Yeet(b) => {
            lemma_round_trip_yeet(b);
        },
        MessageView::OkHousten(i) => {
            lemma_round_trip_ok_housten(i);
        },
        _ => {
            lemma_round_trip_bare(m);
        },
    }
}

/// Decoding is a function of the whitespace-separated tokens alone:
/// padding a line with leading or trailing ASCII whitespace (a trailing
/// `"\n"` or `"\r\n"` included) leaves the decoded message unchanged,
/// and leaves a line's UTF-8 well-formedness as it was.
pub proof fn lemma_decode_ws_insensitive(lead: Seq<u8>, s: Seq<u8>, trail: Seq<u8>)
    requires
        forall|j: int| 0 <= j < lead.len() ==> is_ascii_ws(#[trigger] lead[j]),
        forall|j: int| 0 <= j < trail.len() ==> is_ascii_ws(#[trigger] trail[j]),
    ensures
        decode_spec(lead + s + trail) == decode_spec(s),
{
    lemma_tokens_padded(lead, s, trail);
    assert(forall|j: int| 0 <= j < lead.len() ==> lead[j] < 0x80);
    assert(forall|j: int| 0 <= j < trail.len() ==> trail[j] < 0x80);
    lemma_utf8_ascii_padding(lead, s, trail);
}

} // verus!
