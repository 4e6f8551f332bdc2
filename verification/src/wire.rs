//! The framed terminal wire. A frame is the four bytes `DPTY`, the protocol
//! version, the kind, a flags byte, the payload's length and the payload; every
//! number is big-endian.
use crate::error::early_eof;
use crate::error::error_of_kind;
use crate::error::says_early_eof;
use crate::error::says_its_kind;
use crate::error::TerminalWireError;
use crate::error::WireErrorView;
use crate::text::decimal;
use crate::text::hex_byte;
use crate::text::push_decimal;
use crate::text::push_hex_byte;
use vstd::prelude::*;
use vstd::slice::slice_subrange;
use vstd::slice::slice_to_vec;

verus! {

/// The one protocol version that is spoken.
pub const TERMINAL_PROTOCOL_VERSION: u16 = 1;

/// The longest payload that a frame may carry.
pub const MAX_FRAME_BYTES: usize = 1024 * 1024;

/// The bytes before the payload.
pub const FRAME_HEADER_BYTES: usize = 12;

/// What a frame is for.
#[derive(Debug, Clone, Copy, PartialEq, Eq, Structural)]
pub enum TerminalFrameKind {
    Hello,
    Start,
    Output,
    Input,
    Resize,
    Close,
    Exit,
    Error,
}

impl TerminalFrameKind {
    /// The kind's code on the wire.
    pub open spec fn code(self) -> u8 {
        match self {
            TerminalFrameKind::Hello => 1,
            TerminalFrameKind::Start => 2,
            TerminalFrameKind::Output => 3,
            TerminalFrameKind::Input => 4,
            TerminalFrameKind::Resize => 5,
            TerminalFrameKind::Close => 6,
            TerminalFrameKind::Exit => 7,
            TerminalFrameKind::Error => 8,
        }
    }

    /// The kind's code on the wire.
    pub fn to_u8(self) -> (r: u8)
        ensures
            r == self.code(),
    {
        match self {
            TerminalFrameKind::Hello => 1,
            TerminalFrameKind::Start => 2,
            TerminalFrameKind::Output => 3,
            TerminalFrameKind::Input => 4,
            TerminalFrameKind::Resize => 5,
            TerminalFrameKind::Close => 6,
            TerminalFrameKind::Exit => 7,
            TerminalFrameKind::Error => 8,
        }
    }

    /// The kind with this code, if there is one.
    pub fn from_u8(value: u8) -> (r: Option<TerminalFrameKind>)
        ensures
            r == kind_of(value),
            match r {
                Some(kind) => kind.code() == value,
                None => forall|kind: TerminalFrameKind| (#[trigger] kind.code()) != value,
            },
    {
        let r: Option<TerminalFrameKind> = match value {
            1 => Some(TerminalFrameKind::Hello),
            2 => Some(TerminalFrameKind::Start),
            3 => Some(TerminalFrameKind::Output),
            4 => Some(TerminalFrameKind::Input),
            5 => Some(TerminalFrameKind::Resize),
            6 => Some(TerminalFrameKind::Close),
            7 => Some(TerminalFrameKind::Exit),
            8 => Some(TerminalFrameKind::Error),
            _ => None,
        };
        proof {
            if let Some(kind) = r {
                kind_code_round_trips(kind, value);
            }
        }
        r
    }
}

/// The kind with this code, if there is one.
pub open spec fn kind_of(code: u8) -> Option<TerminalFrameKind> {
    if exists|kind: TerminalFrameKind| (#[trigger] kind.code()) == code {
        Some(choose|kind: TerminalFrameKind| (#[trigger] kind.code()) == code)
    } else {
        None
    }
}

/// A kind and its code determine each other.
pub proof fn kind_code_round_trips(kind: TerminalFrameKind, code: u8)
    ensures
        kind_of(code) == Some(kind) <==> kind.code() == code,
{
    if kind.code() == code {
        let other = choose|k: TerminalFrameKind| (#[trigger] k.code()) == code;
        assert(other.code() == code);
        assert(other == kind);
    }
}

/// One frame.
#[derive(Debug, Clone, PartialEq, Eq)]
pub struct TerminalFrame {
    pub kind: TerminalFrameKind,
    pub payload: Vec<u8>,
}

/// What a frame says.
pub struct FrameView {
    pub kind: TerminalFrameKind,
    pub payload: Seq<u8>,
}

impl View for TerminalFrame {
    type V = FrameView;

    open spec fn view(&self) -> FrameView {
        FrameView { kind: self.kind, payload: self.payload@ }
    }
}

/// The two bytes of `n`, the high one first.
pub open spec fn be16(n: int) -> Seq<u8> {
    seq![(n / 256) as u8, (n % 256) as u8]
}

/// The four bytes of `n`, the high one first.
pub open spec fn be32(n: int) -> Seq<u8> {
    be16(n / 0x10000) + be16(n % 0x10000)
}

/// The number that two bytes hold, the high one first.
pub open spec fn be16_value(b: Seq<u8>) -> int {
    b[0] * 256 + b[1]
}

/// The number that four bytes hold, the high one first.
pub open spec fn be32_value(b: Seq<u8>) -> int {
    be16_value(b.take(2)) * 0x10000 + be16_value(b.skip(2))
}

/// Splitting a 16-bit number into bytes and reading it back.
pub proof fn be16_round_trips(n: int)
    requires
        0 <= n < 0x10000,
    ensures
        be16_value(be16(n)) == n,
{
}

/// Reading a number from two bytes and splitting it again.
pub proof fn be16_value_round_trips(b: Seq<u8>)
    requires
        b.len() == 2,
    ensures
        be16(be16_value(b)) == b,
        0 <= be16_value(b) < 0x10000,
{
    assert(be16(be16_value(b)) =~= b);
}

/// Splitting a 32-bit number into bytes and reading it back.
pub proof fn be32_round_trips(n: int)
    requires
        0 <= n < 0x1_0000_0000,
    ensures
        be32_value(be32(n)) == n,
{
    assert(be32(n).take(2) =~= be16(n / 0x10000));
    assert(be32(n).skip(2) =~= be16(n % 0x10000));
    be16_round_trips(n / 0x10000);
    be16_round_trips(n % 0x10000);
}

/// Reading a number from four bytes and splitting it again.
pub proof fn be32_value_round_trips(b: Seq<u8>)
    requires
        b.len() == 4,
    ensures
        be32(be32_value(b)) == b,
        0 <= be32_value(b) < 0x1_0000_0000,
{
    be16_value_round_trips(b.take(2));
    be16_value_round_trips(b.skip(2));
    assert(be32(be32_value(b)) =~= b);
}

/// The number that two bytes hold, the high one first.
pub fn read_be16(hi: u8, lo: u8) -> (r: u16)
    ensures
        r == be16_value(seq![hi, lo]),
{
    (hi as u16) * 256 + lo as u16
}

/// The number that four bytes hold, the high one first.
pub fn read_be32(a: u8, b: u8, c: u8, d: u8) -> (r: u32)
    ensures
        r == be32_value(seq![a, b, c, d]),
{
    assert(seq![a, b, c, d].take(2) =~= seq![a, b]);
    assert(seq![a, b, c, d].skip(2) =~= seq![c, d]);
    (read_be16(a, b) as u32) * 0x10000 + read_be16(c, d) as u32
}

/// The bytes that open every frame.
pub open spec fn magic() -> Seq<u8> {
    seq![0x44u8, 0x50u8, 0x54u8, 0x59u8]
}

/// A frame on the wire. The flags byte is zero.
pub open spec fn frame_bytes(frame: FrameView) -> Seq<u8> {
    magic() + be16(TERMINAL_PROTOCOL_VERSION as int) + seq![frame.kind.code(), 0u8] + be32(
        frame.payload.len() as int,
    ) + frame.payload
}

/// Appends a frame to `writer`. A payload over the limit is refused, and then
/// nothing is written.
pub fn write_frame(writer: &mut Vec<u8>, frame: &TerminalFrame) -> (r: Result<
    (),
    TerminalWireError,
>)
    ensures
        r is Ok <==> frame.payload@.len() <= MAX_FRAME_BYTES,
        r is Ok ==> final(writer)@ == old(writer)@ + frame_bytes(frame@),
        r is Err ==> final(writer)@ == old(writer)@,
        r matches Err(e) ==> e@ == WireErrorView::FrameTooLarge(
            (frame.payload@.len() % 0x1_0000_0000) as u32,
        ),
{
    let len: usize = frame.payload.len();
    if len > MAX_FRAME_BYTES {
        let wide: u64 = len as u64;
        let low: u64 = wide % 0x1_0000_0000;
        return Err(TerminalWireError::FrameTooLarge(low as u32));
    }
    writer.push(0x44);
    writer.push(0x50);
    writer.push(0x54);
    writer.push(0x59);
    writer.push((TERMINAL_PROTOCOL_VERSION / 256) as u8);
    writer.push((TERMINAL_PROTOCOL_VERSION % 256) as u8);
    writer.push(frame.kind.to_u8());
    writer.push(0);
    writer.push((len / 0x100_0000) as u8);
    writer.push((len / 0x10000 % 256) as u8);
    writer.push((len % 0x10000 / 256) as u8);
    writer.push((len % 256) as u8);
    proof {
        let n = len as int;
        assert(n / 0x10000 / 256 == n / 0x100_0000);
        assert(n % 0x10000 % 256 == n % 256);
        assert(writer@ =~= old(writer)@ + (magic() + be16(TERMINAL_PROTOCOL_VERSION as int)
            + seq![frame.kind.code(), 0u8] + be32(n)));
    }
    writer.extend_from_slice(frame.payload.as_slice());
    assert(writer@ =~= old(writer)@ + frame_bytes(frame@));
    Ok(())
}

/// Why a peer with these first four bytes is refused.
pub open spec fn bad_magic_words(b: Seq<u8>) -> Seq<char> {
    "invalid magic "@ + hex_byte(b[0]) + hex_byte(b[1]) + hex_byte(b[2]) + hex_byte(b[3])
}

/// Why a peer of this protocol version is refused.
pub open spec fn bad_version_words(version: int) -> Seq<char> {
    "version "@ + decimal(version as nat) + " is not supported"@
}

/// How far the reading of one frame has come.
#[derive(Debug, Clone, Copy, PartialEq, Eq, Structural)]
pub enum FrameReader {
    /// The magic bytes come next.
    Magic,
    /// The version comes next.
    Version,
    /// The kind, the flags and the payload's length come next.
    Header,
    /// The payload comes next.
    Payload { kind: TerminalFrameKind, len: u32 },
}

/// What comes of the bytes that a frame reader asked for.
#[derive(Debug)]
pub enum FrameProgress {
    /// Reading goes on.
    More(FrameReader),
    /// The frame is complete.
    Complete(TerminalFrame),
}

/// What comes of the bytes that a frame reader asked for, refusals included.
pub enum ProgressView {
    More(FrameReader),
    Complete(FrameView),
    Refused(WireErrorView),
}

/// What comes of the bytes that a frame reader asked for.
pub open spec fn progress_view(r: Result<FrameProgress, TerminalWireError>) -> ProgressView {
    match r {
        Ok(FrameProgress::More(reader)) => ProgressView::More(reader),
        Ok(FrameProgress::Complete(frame)) => ProgressView::Complete(frame@),
        Err(e) => ProgressView::Refused(e@),
    }
}

impl FrameReader {
    /// How many bytes are needed to go on.
    pub open spec fn need(self) -> int {
        match self {
            FrameReader::Magic => 4,
            FrameReader::Version => 2,
            FrameReader::Header => 6,
            FrameReader::Payload { len, .. } => len as int,
        }
    }

    /// Where `bytes` lead. The magic is checked first, then the version, then
    /// the payload's length, and last the kind; the flags are not looked at.
    pub open spec fn after(self, bytes: Seq<u8>) -> ProgressView {
        match self {
            FrameReader::Magic => if bytes == magic() {
                ProgressView::More(FrameReader::Version)
            } else {
                ProgressView::Refused(WireErrorView::UnsupportedPeer(bad_magic_words(bytes)))
            },
            FrameReader::Version => if be16_value(bytes) == TERMINAL_PROTOCOL_VERSION {
                ProgressView::More(FrameReader::Header)
            } else {
                ProgressView::Refused(
                    WireErrorView::UnsupportedPeer(bad_version_words(be16_value(bytes))),
                )
            },
            FrameReader::Header => {
                let len = be32_value(bytes.skip(2));
                if len > MAX_FRAME_BYTES {
                    ProgressView::Refused(WireErrorView::FrameTooLarge(len as u32))
                } else {
                    match kind_of(bytes[0]) {
                        Some(kind) => ProgressView::More(
                            FrameReader::Payload { kind, len: len as u32 },
                        ),
                        None => ProgressView::Refused(WireErrorView::UnknownKind(bytes[0])),
                    }
                }
            },
            FrameReader::Payload { kind, .. } => ProgressView::Complete(
                FrameView { kind, payload: bytes },
            ),
        }
    }

    /// How many bytes are needed to go on.
    pub fn wants(&self) -> (r: usize)
        ensures
            r == self.need(),
    {
        match *self {
            FrameReader::Magic => 4,
            FrameReader::Version => 2,
            FrameReader::Header => 6,
            FrameReader::Payload { kind: _, len } => len as usize,
        }
    }

    /// What it means that the stream ends before the bytes that are needed. The
    /// magic and the payload are runs of bytes, the version and the header are
    /// numbers; an end within a number has no words but those of its kind.
    pub open spec fn cut_short(self, r: TerminalWireError) -> bool {
        r matches TerminalWireError::Io(error) && match self {
            FrameReader::Magic | FrameReader::Payload { .. } => says_early_eof(error),
            FrameReader::Version | FrameReader::Header => says_its_kind(
                error,
                std::io::ErrorKind::UnexpectedEof,
            ),
        }
    }

    /// The error of a stream that ends before the bytes that are needed.
    pub fn ended(&self) -> (r: TerminalWireError)
        ensures
            self.cut_short(r),
    {
        match *self {
            FrameReader::Magic | FrameReader::Payload { .. } => TerminalWireError::Io(early_eof()),
            FrameReader::Version | FrameReader::Header => TerminalWireError::Io(
                error_of_kind(std::io::ErrorKind::UnexpectedEof),
            ),
        }
    }

    /// Takes the bytes that were asked for.
    pub fn accept(self, bytes: Vec<u8>) -> (r: Result<FrameProgress, TerminalWireError>)
        requires
            bytes@.len() == self.need(),
        ensures
            progress_view(r) == self.after(bytes@),
    {
        match self {
            FrameReader::Magic => {
                if bytes[0] == 0x44 && bytes[1] == 0x50 && bytes[2] == 0x54 && bytes[3] == 0x59 {
                    assert(bytes@ =~= magic());
                    Ok(FrameProgress::More(FrameReader::Version))
                } else {
                    let mut words: String = "invalid magic ".to_owned();
                    push_hex_byte(&mut words, bytes[0]);
                    push_hex_byte(&mut words, bytes[1]);
                    push_hex_byte(&mut words, bytes[2]);
                    push_hex_byte(&mut words, bytes[3]);
                    Err(TerminalWireError::UnsupportedPeer(words))
                }
            },
            FrameReader::Version => {
                let version: u16 = read_be16(bytes[0], bytes[1]);
                assert(bytes@ =~= seq![bytes@[0], bytes@[1]]);
                if version == TERMINAL_PROTOCOL_VERSION {
                    Ok(FrameProgress::More(FrameReader::Header))
                } else {
                    let mut words: String = "version ".to_owned();
                    push_decimal(&mut words, version as u32);
                    words.append(" is not supported");
                    Err(TerminalWireError::UnsupportedPeer(words))
                }
            },
            FrameReader::Header => {
                let code: u8 = bytes[0];
                let len: u32 = read_be32(bytes[2], bytes[3], bytes[4], bytes[5]);
                assert(bytes@.skip(2) =~= seq![bytes@[2], bytes@[3], bytes@[4], bytes@[5]]);
                if len as usize > MAX_FRAME_BYTES {
                    return Err(TerminalWireError::FrameTooLarge(len));
                }
                match TerminalFrameKind::from_u8(code) {
                    Some(kind) => Ok(FrameProgress::More(FrameReader::Payload { kind, len })),
                    None => Err(TerminalWireError::UnknownKind(code)),
                }
            },
            FrameReader::Payload { kind, len: _ } => Ok(
                FrameProgress::Complete(TerminalFrame { kind, payload: bytes }),
            ),
        }
    }
}

/// What reading one frame from `input` gives.
pub enum Parsed {
    /// A frame.
    Frame(FrameView),
    /// A refusal.
    Refused(WireErrorView),
    /// The input ends too early.
    Short,
}

/// The payload length that a frame's header gives.
pub open spec fn header_len(input: Seq<u8>) -> int {
    be32_value(input.subrange(8, 12))
}

/// What reading one frame from the front of `input` gives.
pub open spec fn parse_frame(input: Seq<u8>) -> Parsed {
    if input.len() < 4 {
        Parsed::Short
    } else if input.take(4) != magic() {
        Parsed::Refused(WireErrorView::UnsupportedPeer(bad_magic_words(input.take(4))))
    } else if input.len() < 6 {
        Parsed::Short
    } else if be16_value(input.subrange(4, 6)) != TERMINAL_PROTOCOL_VERSION {
        Parsed::Refused(
            WireErrorView::UnsupportedPeer(bad_version_words(be16_value(input.subrange(4, 6)))),
        )
    } else if input.len() < FRAME_HEADER_BYTES {
        Parsed::Short
    } else if header_len(input) > MAX_FRAME_BYTES {
        Parsed::Refused(WireErrorView::FrameTooLarge(header_len(input) as u32))
    } else if kind_of(input[6]) is None {
        Parsed::Refused(WireErrorView::UnknownKind(input[6]))
    } else if input.len() < FRAME_HEADER_BYTES + header_len(input) {
        Parsed::Short
    } else {
        Parsed::Frame(
            FrameView {
                kind: kind_of(input[6])->0,
                payload: input.subrange(12, 12 + header_len(input)),
            },
        )
    }
}

/// How many bytes of `input` reading one frame takes. A refusal takes no more
/// than it rests on; an early end takes all there is.
pub open spec fn parse_taken(input: Seq<u8>) -> int {
    match parse_frame(input) {
        Parsed::Frame(frame) => FRAME_HEADER_BYTES + frame.payload.len(),
        Parsed::Refused(WireErrorView::UnsupportedPeer(_)) => if input.take(4) != magic() {
            4
        } else {
            6
        },
        Parsed::Refused(_) => FRAME_HEADER_BYTES as int,
        Parsed::Short => input.len() as int,
    }
}

/// What a frame read gives, in the terms of `parse_frame`.
pub open spec fn read_view(r: Result<TerminalFrame, TerminalWireError>) -> Parsed {
    match r {
        Ok(frame) => Parsed::Frame(frame@),
        Err(TerminalWireError::Io(_)) => Parsed::Short,
        Err(e) => Parsed::Refused(e@),
    }
}

/// Takes one frame off the front of `reader`.
pub fn read_frame(reader: &mut &[u8]) -> (r: Result<TerminalFrame, TerminalWireError>)
    ensures
        read_view(r) == parse_frame(old(reader)@),
        final(reader)@ == old(reader)@.skip(parse_taken(old(reader)@)),
        r matches Err(TerminalWireError::Io(error)) ==> if 4 <= old(reader)@.len()
            < FRAME_HEADER_BYTES {
            says_its_kind(error, std::io::ErrorKind::UnexpectedEof)
        } else {
            says_early_eof(error)
        },
{
    let input: &[u8] = *reader;
    let mut at: usize = 0;
    let mut state: FrameReader = FrameReader::Magic;
    loop
        invariant
            input@ == old(reader)@,
            reader_at(state, at as int, input@),
        decreases input@.len() - at, (match state { FrameReader::Payload { .. } => 0int, _ => 1int }),
    {
        let need: usize = state.wants();
        if input.len() - at < need {
            *reader = slice_subrange(input, input.len(), input.len());
            return Err(state.ended());
        }
        let chunk: Vec<u8> = slice_to_vec(slice_subrange(input, at, at + need));
        at = at + need;
        match state.accept(chunk) {
            Ok(FrameProgress::More(next)) => {
                state = next;
            },
            Ok(FrameProgress::Complete(frame)) => {
                *reader = slice_subrange(input, at, input.len());
                return Ok(frame);
            },
            Err(e) => {
                *reader = slice_subrange(input, at, input.len());
                return Err(e);
            },
        }
    }
}

/// The reader `state` has taken the first `at` bytes of `input`.
pub open spec fn reader_at(state: FrameReader, at: int, input: Seq<u8>) -> bool {
    &&& 0 <= at <= input.len()
    &&& match state {
        FrameReader::Magic => at == 0,
        FrameReader::Version => at == 4 && input.take(4) == magic(),
        FrameReader::Header => at == 6 && input.take(4) == magic() && be16_value(
            input.subrange(4, 6),
        ) == TERMINAL_PROTOCOL_VERSION,
        FrameReader::Payload { kind, len } => at == 12 && input.take(4) == magic() && be16_value(
            input.subrange(4, 6),
        ) == TERMINAL_PROTOCOL_VERSION && len == header_len(input) && len <= MAX_FRAME_BYTES
            && kind_of(input[6]) == Some(kind),
    }
}

} // verus!
