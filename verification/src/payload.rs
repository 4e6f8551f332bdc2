//! What the payloads of the frames say.
use crate::error::TerminalWireError;
use crate::text::decimal;
use crate::text::opt_owned_text;
use crate::text::own_all;
use crate::text::owned_texts;
use crate::text::push_decimal;
use crate::wire::be16;
use crate::wire::be16_round_trips;
use crate::wire::be16_value;
use crate::wire::be16_value_round_trips;
use crate::wire::be32;
use crate::wire::be32_round_trips;
use crate::wire::be32_value;
use crate::wire::be32_value_round_trips;
use crate::wire::read_be16;
use crate::wire::read_be32;
use crate::wire::TerminalFrameKind;
use crate::wire::TERMINAL_PROTOCOL_VERSION;
use vstd::prelude::*;

verus! {

/// The versions and features that one side speaks.
#[derive(Debug, Clone, PartialEq, Eq)]
pub struct HelloPayload {
    pub min_version: u16,
    pub max_version: u16,
    pub features: Vec<String>,
}

/// What a hello says.
pub struct HelloView {
    pub min_version: u16,
    pub max_version: u16,
    pub features: Seq<Seq<char>>,
}

impl View for HelloPayload {
    type V = HelloView;

    open spec fn view(&self) -> HelloView {
        HelloView {
            min_version: self.min_version,
            max_version: self.max_version,
            features: owned_texts(self.features@),
        }
    }
}

/// The terminal that a client asks for.
#[derive(Debug, Clone, PartialEq, Eq)]
pub struct StartPayload {
    pub cols: u16,
    pub rows: u16,
    pub cwd: Option<String>,
}

/// What a start request says.
pub struct StartView {
    pub cols: u16,
    pub rows: u16,
    pub cwd: Option<Seq<char>>,
}

impl View for StartPayload {
    type V = StartView;

    open spec fn view(&self) -> StartView {
        StartView { cols: self.cols, rows: self.rows, cwd: opt_owned_text(self.cwd) }
    }
}

/// Why the other side is refused: a code for programs and a message for people.
#[derive(Debug, Clone, PartialEq, Eq)]
pub struct ErrorPayload {
    pub code: String,
    pub message: String,
}

/// What an error payload says.
pub struct ErrorView {
    pub code: Seq<char>,
    pub message: Seq<char>,
}

impl View for ErrorPayload {
    type V = ErrorView;

    open spec fn view(&self) -> ErrorView {
        ErrorView { code: self.code@, message: self.message@ }
    }
}

impl ErrorPayload {
    /// An error payload of this code and message.
    pub fn new(code: &str, message: &str) -> (r: ErrorPayload)
        ensures
            r@ == (ErrorView { code: code@, message: message@ }),
            r.code@ == code@,
            r.message@ == message@,
    {
        ErrorPayload { code: code.to_owned(), message: message.to_owned() }
    }
}

/// The size of a terminal, in characters.
#[derive(Debug, Clone, Copy, PartialEq, Eq, Structural)]
pub struct TerminalSize {
    pub cols: u16,
    pub rows: u16,
}

impl TerminalSize {
    /// Whether a terminal can have this size.
    pub open spec fn valid(self) -> bool {
        self.cols != 0 && self.rows != 0
    }
}

/// A size that no terminal can have.
#[derive(Debug, Clone, Copy, PartialEq, Eq, Structural)]
pub struct InvalidSize {
    pub size: TerminalSize,
}

impl InvalidSize {
    /// The error in words.
    pub open spec fn words(self) -> Seq<char> {
        "terminal size must be non-zero, got "@ + decimal(self.size.cols as nat) + "x"@ + decimal(
            self.size.rows as nat,
        )
    }

    /// The error in words.
    pub fn message(&self) -> (r: String)
        ensures
            r@ == self.words(),
    {
        let mut out: String = "terminal size must be non-zero, got ".to_owned();
        push_decimal(&mut out, self.size.cols as u32);
        out.append("x");
        push_decimal(&mut out, self.size.rows as u32);
        out
    }
}

/// Refuses a size with no columns or no rows.
pub fn validate_size(size: TerminalSize) -> (r: Result<(), InvalidSize>)
    ensures
        r == (if size.valid() {
            Ok(())
        } else {
            Err(InvalidSize { size })
        }),
        r is Err <==> size.cols == 0 || size.rows == 0,
{
    if size.cols == 0 || size.rows == 0 {
        return Err(InvalidSize { size });
    }
    Ok(())
}

/// The payload of a resize frame: the columns, then the rows.
pub open spec fn resize_bytes(size: TerminalSize) -> Seq<u8> {
    be16(size.cols as int) + be16(size.rows as int)
}

/// The payload of a resize frame.
pub fn resize_payload(size: TerminalSize) -> (r: [u8; 4])
    ensures
        r@ == resize_bytes(size),
{
    let r: [u8; 4] = [
        (size.cols / 256) as u8,
        (size.cols % 256) as u8,
        (size.rows / 256) as u8,
        (size.rows % 256) as u8,
    ];
    assert(r@ =~= resize_bytes(size));
    r
}

/// The size that a resize payload gives.
pub open spec fn resize_value(payload: Seq<u8>) -> TerminalSize {
    TerminalSize {
        cols: be16_value(payload.take(2)) as u16,
        rows: be16_value(payload.skip(2)) as u16,
    }
}

/// Reads the payload of a resize frame, which is four bytes long.
pub fn decode_resize_payload(payload: &[u8]) -> (r: Result<TerminalSize, TerminalWireError>)
    ensures
        r == (if payload@.len() == 4 {
            Ok(resize_value(payload@))
        } else {
            Err(TerminalWireError::Decode)
        }),
{
    if payload.len() != 4 {
        return Err(TerminalWireError::Decode);
    }
    assert(payload@.take(2) =~= seq![payload@[0], payload@[1]]);
    assert(payload@.skip(2) =~= seq![payload@[2], payload@[3]]);
    Ok(
        TerminalSize {
            cols: read_be16(payload[0], payload[1]),
            rows: read_be16(payload[2], payload[3]),
        },
    )
}

/// The unsigned number with the bits of `code`.
pub open spec fn unsigned_bits(code: i32) -> int {
    if code < 0 {
        code + 0x1_0000_0000
    } else {
        code as int
    }
}

/// The signed number with the bits of `n`.
pub open spec fn signed_bits(n: int) -> i32 {
    if n >= 0x8000_0000 {
        (n - 0x1_0000_0000) as i32
    } else {
        n as i32
    }
}

/// The signed number with the bits of `n`.
pub fn to_signed(n: u32) -> (r: i32)
    ensures
        r == signed_bits(n as int),
{
    if n >= 0x8000_0000 {
        (n as i64 - 0x1_0000_0000) as i32
    } else {
        n as i32
    }
}

/// The payload of an exit frame: the exit code in two's complement.
pub open spec fn exit_bytes(code: i32) -> Seq<u8> {
    be32(unsigned_bits(code))
}

/// The payload of an exit frame.
pub fn exit_payload(code: i32) -> (r: [u8; 4])
    ensures
        r@ == exit_bytes(code),
{
    let n: u32 = if code < 0 {
        (code as i64 + 0x1_0000_0000) as u32
    } else {
        code as u32
    };
    let r: [u8; 4] = [
        (n / 0x100_0000) as u8,
        (n / 0x10000 % 256) as u8,
        (n % 0x10000 / 256) as u8,
        (n % 256) as u8,
    ];
    proof {
        let m = n as int;
        assert(m / 0x10000 / 256 == m / 0x100_0000);
        assert(m % 0x10000 % 256 == m % 256);
        assert(r@ =~= exit_bytes(code));
    }
    r
}

/// Reads the payload of an exit frame, which is four bytes long.
pub fn decode_exit_payload(payload: &[u8]) -> (r: Result<i32, TerminalWireError>)
    ensures
        r == (if payload@.len() == 4 {
            Ok(signed_bits(be32_value(payload@)))
        } else {
            Err(TerminalWireError::Decode)
        }),
{
    if payload.len() != 4 {
        return Err(TerminalWireError::Decode);
    }
    assert(payload@ =~= seq![payload@[0], payload@[1], payload@[2], payload@[3]]);
    Ok(to_signed(read_be32(payload[0], payload[1], payload[2], payload[3])))
}

/// The features that this side offers, one for each frame kind.
pub open spec fn feature_list() -> Seq<Seq<char>> {
    seq![
        "hello"@,
        "start"@,
        "output"@,
        "input"@,
        "resize"@,
        "close"@,
        "exit"@,
        "error"@,
    ]
}

/// The features that this side offers, one for each frame kind.
pub fn terminal_features() -> (r: Vec<String>)
    ensures
        owned_texts(r@) == feature_list(),
        r@.len() == 8,
        r@[0]@ == "hello"@ && r@[1]@ == "start"@ && r@[2]@ == "output"@ && r@[3]@ == "input"@,
        r@[4]@ == "resize"@ && r@[5]@ == "close"@ && r@[6]@ == "exit"@ && r@[7]@ == "error"@,
{
    let list: [&'static str; 8] = [
        "hello",
        "start",
        "output",
        "input",
        "resize",
        "close",
        "exit",
        "error",
    ];
    let r: Vec<String> = own_all(&list);
    assert(owned_texts(r@) =~= feature_list());
    r
}

/// Whether a peer of these versions can be talked to.
pub open spec fn speaks_version(hello: HelloView) -> bool {
    hello.min_version <= TERMINAL_PROTOCOL_VERSION <= hello.max_version
}

/// What this side answers a hello with.
pub open spec fn hello_reply() -> HelloView {
    HelloView {
        min_version: TERMINAL_PROTOCOL_VERSION,
        max_version: TERMINAL_PROTOCOL_VERSION,
        features: feature_list(),
    }
}

/// What this side answers a hello with.
pub fn server_hello() -> (r: HelloPayload)
    ensures
        r@ == hello_reply(),
        r.min_version == 1,
        r.max_version == 1,
        r.features@.len() == 8,
{
    HelloPayload {
        min_version: TERMINAL_PROTOCOL_VERSION,
        max_version: TERMINAL_PROTOCOL_VERSION,
        features: terminal_features(),
    }
}

/// Every size survives a resize payload.
pub proof fn resize_round_trips(size: TerminalSize)
    ensures
        resize_bytes(size).len() == 4,
        resize_value(resize_bytes(size)) == size,
{
    assert(resize_bytes(size).take(2) =~= be16(size.cols as int));
    assert(resize_bytes(size).skip(2) =~= be16(size.rows as int));
    be16_round_trips(size.cols as int);
    be16_round_trips(size.rows as int);
}

/// Every four bytes are the resize payload of the size they give.
pub proof fn resize_value_round_trips(payload: Seq<u8>)
    requires
        payload.len() == 4,
    ensures
        resize_bytes(resize_value(payload)) == payload,
{
    be16_value_round_trips(payload.take(2));
    be16_value_round_trips(payload.skip(2));
    assert(resize_bytes(resize_value(payload)) =~= payload);
}

/// Every exit code survives an exit payload.
pub proof fn exit_round_trips(code: i32)
    ensures
        exit_bytes(code).len() == 4,
        signed_bits(be32_value(exit_bytes(code))) == code,
{
    be32_round_trips(unsigned_bits(code));
}

/// Every four bytes are the exit payload of the code they give.
pub proof fn exit_value_round_trips(payload: Seq<u8>)
    requires
        payload.len() == 4,
    ensures
        exit_bytes(signed_bits(be32_value(payload))) == payload,
{
    be32_value_round_trips(payload);
}

/// A peer is accepted if and only if its versions and the ones in this side's
/// reply have one in common.
pub proof fn accepted_versions_overlap(hello: HelloView)
    ensures
        speaks_version(hello) <==> exists|version: u16|
            #![trigger hello_speaks(hello, version)]
            hello_speaks(hello, version) && hello_speaks(hello_reply(), version),
{
    if speaks_version(hello) {
        assert(hello_speaks(hello, TERMINAL_PROTOCOL_VERSION));
    }
}

/// A hello covers this version.
pub open spec fn hello_speaks(hello: HelloView, version: u16) -> bool {
    hello.min_version <= version <= hello.max_version
}

/// A terminal can have any size with at least one column and one row, and is told
/// of any other by both numbers, the columns first.
pub proof fn sizes_have_columns_and_rows(size: TerminalSize)
    ensures
        size.valid() <==> size.cols >= 1 && size.rows >= 1,
        (InvalidSize { size }).words() == "terminal size must be non-zero, got "@ + decimal(
            size.cols as nat,
        ) + "x"@ + decimal(size.rows as nat),
{
}

/// A resize payload is four bytes: the columns and then the rows, each with its
/// high byte first.
pub proof fn resize_is_columns_then_rows(size: TerminalSize, payload: Seq<u8>)
    requires
        payload.len() == 4,
    ensures
        resize_bytes(size).len() == 4,
        resize_bytes(size)[0] * 256 + resize_bytes(size)[1] == size.cols,
        resize_bytes(size)[2] * 256 + resize_bytes(size)[3] == size.rows,
        resize_value(payload).cols == payload[0] * 256 + payload[1],
        resize_value(payload).rows == payload[2] * 256 + payload[3],
{
}

/// An exit payload is four bytes, the high one first, of the code itself or, for a
/// code below zero, of the code and two to the thirty-second.
pub proof fn exit_is_twos_complement(code: i32, n: u32)
    ensures
        exit_bytes(code).len() == 4,
        ({
            let b = exit_bytes(code);
            ((b[0] * 256 + b[1]) * 256 + b[2]) * 256 + b[3] == (if code < 0 {
                code + 0x1_0000_0000
            } else {
                code as int
            })
        }),
        signed_bits(n as int) == (if n <= 0x7fff_ffff {
            n as int
        } else {
            n - 0x1_0000_0000
        }),
{
    let m = unsigned_bits(code);
    assert(m == (m / 0x10000) * 0x10000 + m % 0x10000);
}

/// There is a feature for each frame kind, in the order of the kinds' codes.
pub proof fn every_frame_kind_is_a_feature(kind: TerminalFrameKind)
    ensures
        feature_list().len() == 8,
        feature_list()[kind.code() - 1] == (match kind {
            TerminalFrameKind::Hello => "hello"@,
            TerminalFrameKind::Start => "start"@,
            TerminalFrameKind::Output => "output"@,
            TerminalFrameKind::Input => "input"@,
            TerminalFrameKind::Resize => "resize"@,
            TerminalFrameKind::Close => "close"@,
            TerminalFrameKind::Exit => "exit"@,
            TerminalFrameKind::Error => "error"@,
        }),
{
}

/// This side speaks version 1 and no other, and accepts a peer that covers it.
pub proof fn version_one_is_spoken(hello: HelloView, version: u16)
    ensures
        hello_speaks(hello_reply(), version) <==> version == 1,
        speaks_version(hello) <==> hello.min_version <= 1 && hello.max_version >= 1,
        hello_reply().features == feature_list(),
{
}

/// Payloads are seen as what their fields hold.
pub proof fn payloads_are_seen_as_they_are(
    hello: HelloPayload,
    start: StartPayload,
    error: ErrorPayload,
)
    ensures
        hello@.min_version == hello.min_version,
        hello@.max_version == hello.max_version,
        hello@.features == hello.features@.map_values(|t: String| t@),
        start@.cols == start.cols,
        start@.rows == start.rows,
        start@.cwd is Some <==> start.cwd is Some,
        start.cwd matches Some(dir) ==> start@.cwd->0 == dir@,
        error@.code == error.code@,
        error@.message == error.message@,
{
}

} // verus!
