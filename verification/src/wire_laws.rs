//! What holds between writing frames and reading them.
use crate::error::WireErrorView;
use crate::text::decimal;
use crate::text::hex_byte;
use crate::wire::be16;
use crate::wire::be16_round_trips;
use crate::wire::be16_value;
use crate::wire::be16_value_round_trips;
use crate::wire::be32;
use crate::wire::be32_round_trips;
use crate::wire::be32_value;
use crate::wire::be32_value_round_trips;
use crate::wire::frame_bytes;
use crate::wire::header_len;
use crate::wire::kind_code_round_trips;
use crate::wire::kind_of;
use crate::wire::magic;
use crate::wire::parse_frame;
use crate::wire::parse_taken;
use crate::wire::FrameReader;
use crate::wire::FrameView;
use crate::wire::Parsed;
use crate::wire::ProgressView;
use crate::wire::TerminalFrame;
use crate::wire::TerminalFrameKind;
use crate::wire::FRAME_HEADER_BYTES;
use crate::wire::MAX_FRAME_BYTES;
use crate::wire::TERMINAL_PROTOCOL_VERSION;
use vstd::prelude::*;

verus! {

/// The parts of a written frame.
proof fn written_frame_parts(frame: FrameView, rest: Seq<u8>)
    requires
        frame.payload.len() <= MAX_FRAME_BYTES,
    ensures
        frame_bytes(frame).len() == FRAME_HEADER_BYTES + frame.payload.len(),
        (frame_bytes(frame) + rest).take(4) == magic(),
        (frame_bytes(frame) + rest).subrange(4, 6) == be16(TERMINAL_PROTOCOL_VERSION as int),
        (frame_bytes(frame) + rest)[6] == frame.kind.code(),
        (frame_bytes(frame) + rest).subrange(8, 12) == be32(frame.payload.len() as int),
        (frame_bytes(frame) + rest).subrange(12, 12int + frame.payload.len()) == frame.payload,
        (frame_bytes(frame) + rest).skip(frame_bytes(frame).len() as int) == rest,
{
    let all = frame_bytes(frame) + rest;
    assert(all.take(4) =~= magic());
    assert(all.subrange(4, 6) =~= be16(TERMINAL_PROTOCOL_VERSION as int));
    assert(all.subrange(8, 12) =~= be32(frame.payload.len() as int));
    assert(all.subrange(12, 12int + frame.payload.len()) =~= frame.payload);
    assert(all.skip(frame_bytes(frame).len() as int) =~= rest);
}

/// Reading gives back the frame that was written, whatever follows it on the
/// stream, and takes the frame's bytes and no others.
pub proof fn frame_round_trips(frame: FrameView, rest: Seq<u8>)
    requires
        frame.payload.len() <= MAX_FRAME_BYTES,
    ensures
        parse_frame(frame_bytes(frame) + rest) == Parsed::Frame(frame),
        parse_taken(frame_bytes(frame) + rest) == frame_bytes(frame).len(),
        (frame_bytes(frame) + rest).skip(parse_taken(frame_bytes(frame) + rest)) == rest,
{
    written_frame_parts(frame, rest);
    be16_round_trips(TERMINAL_PROTOCOL_VERSION as int);
    be32_round_trips(frame.payload.len() as int);
    kind_code_round_trips(frame.kind, frame.kind.code());
}

/// Frames one after another on the wire.
pub open spec fn stream_bytes(frames: Seq<FrameView>) -> Seq<u8>
    decreases frames.len(),
{
    if frames.len() == 0 {
        seq![]
    } else {
        frame_bytes(frames.first()) + stream_bytes(frames.drop_first())
    }
}

/// The first `n` frames that `input` gives, as far as each read succeeds.
pub open spec fn parse_stream(input: Seq<u8>, n: nat) -> Seq<FrameView>
    decreases n,
{
    if n == 0 {
        seq![]
    } else {
        match parse_frame(input) {
            Parsed::Frame(frame) => seq![frame] + parse_stream(
                input.skip(parse_taken(input)),
                (n - 1) as nat,
            ),
            _ => seq![],
        }
    }
}

/// What is left of `input` after `n` reads, as far as each read succeeds.
pub open spec fn stream_rest(input: Seq<u8>, n: nat) -> Seq<u8>
    decreases n,
{
    if n == 0 || !(parse_frame(input) is Frame) {
        input
    } else {
        stream_rest(input.skip(parse_taken(input)), (n - 1) as nat)
    }
}

/// The first of some frames is read, and then the others.
proof fn first_frame_is_read(frame: FrameView, rest: Seq<u8>, n: nat)
    requires
        frame.payload.len() <= MAX_FRAME_BYTES,
        n > 0,
    ensures
        parse_stream(frame_bytes(frame) + rest, n) == seq![frame] + parse_stream(
            rest,
            (n - 1) as nat,
        ),
        stream_rest(frame_bytes(frame) + rest, n) == stream_rest(rest, (n - 1) as nat),
{
    frame_round_trips(frame, rest);
}

/// Frames that were written one after another are read back in that order, each
/// as it was, and what follows them on the stream is left as it is.
pub proof fn stream_round_trips(frames: Seq<FrameView>, rest: Seq<u8>)
    requires
        forall|i: int| 0 <= i < frames.len() ==> (#[trigger] frames[i]).payload.len()
            <= MAX_FRAME_BYTES,
    ensures
        parse_stream(stream_bytes(frames) + rest, frames.len()) == frames,
        stream_rest(stream_bytes(frames) + rest, frames.len()) == rest,
    decreases frames.len(),
{
    if frames.len() > 0 {
        let tail = frames.drop_first();
        assert forall|i: int| 0 <= i < tail.len() implies (#[trigger] tail[i]).payload.len()
            <= MAX_FRAME_BYTES by {
            assert(tail[i] == frames[i + 1]);
        }
        stream_round_trips(tail, rest);
        first_frame_is_read(frames.first(), stream_bytes(tail) + rest, frames.len());
        assert(stream_bytes(frames) + rest =~= frame_bytes(frames.first()) + (stream_bytes(tail)
            + rest));
        assert(seq![frames.first()] + tail =~= frames);
    } else {
        assert(stream_bytes(frames) + rest =~= rest);
    }
    assert(parse_stream(stream_bytes(frames) + rest, frames.len()) =~= frames);
}

/// A frame that was read, written again, gives the bytes it was read from,
/// provided the flags byte was zero: the flags are not kept.
pub proof fn parsed_frame_is_rewritten(input: Seq<u8>)
    requires
        parse_frame(input) is Frame,
        input[7] == 0,
    ensures
        frame_bytes(parse_frame(input)->Frame_0) == input.take(parse_taken(input)),
        parse_frame(input)->Frame_0.payload.len() <= MAX_FRAME_BYTES,
{
    let frame = parse_frame(input)->Frame_0;
    be32_value_round_trips(input.subrange(8, 12));
    be16_value_round_trips(input.subrange(4, 6));
    kind_code_round_trips(frame.kind, input[6]);
    let again = frame_bytes(frame);
    assert(again.len() == parse_taken(input));
    assert forall|i: int| 0 <= i < again.len() implies again[i] == input[i] by {
        if i < 4 {
            assert(magic()[i] == input.take(4)[i]);
        } else if i < 6 {
            assert(be16(TERMINAL_PROTOCOL_VERSION as int)[i - 4] == input.subrange(4, 6)[i - 4]);
        } else if i >= 8 && i < 12 {
            assert(be32(header_len(input))[i - 8] == input.subrange(8, 12)[i - 8]);
        }
    }
    assert(again =~= input.take(parse_taken(input)));
}

/// A frame that has not arrived whole is not read: every proper prefix of a
/// written frame is short.
pub proof fn partial_frame_is_short(frame: FrameView, n: int)
    requires
        frame.payload.len() <= MAX_FRAME_BYTES,
        0 <= n < frame_bytes(frame).len(),
    ensures
        parse_frame(frame_bytes(frame).take(n)) is Short,
{
    let whole = frame_bytes(frame);
    let part = whole.take(n);
    assert(whole + seq![] =~= whole);
    written_frame_parts(frame, seq![]);
    be16_round_trips(TERMINAL_PROTOCOL_VERSION as int);
    be32_round_trips(frame.payload.len() as int);
    kind_code_round_trips(frame.kind, frame.kind.code());
    if n >= 4 {
        assert(part.take(4) =~= whole.take(4));
    }
    if n >= 6 {
        assert(part.subrange(4, 6) =~= whole.subrange(4, 6));
    }
    if n >= 12 {
        assert(part.subrange(8, 12) =~= whole.subrange(8, 12));
    }
}

/// What a read gives rests on the bytes it takes alone: no other byte of the
/// stream shows in the frame or in the words of a refusal.
pub proof fn read_rests_on_bytes_taken(a: Seq<u8>, b: Seq<u8>)
    requires
        !(parse_frame(a) is Short),
        parse_taken(a) <= b.len(),
        a.take(parse_taken(a)) == b.take(parse_taken(a)),
    ensures
        parse_frame(a) == parse_frame(b),
        parse_taken(a) == parse_taken(b),
        0 <= parse_taken(a) <= a.len(),
{
    if a.len() >= FRAME_HEADER_BYTES {
        be32_value_round_trips(a.subrange(8, 12));
    }
    let n = parse_taken(a);
    let x = a.take(n);
    assert forall|i: int, j: int| 0 <= i <= j <= n implies a.subrange(i, j) == #[trigger] b.subrange(
        i,
        j,
    ) by {
        assert(a.subrange(i, j) =~= x.subrange(i, j));
        assert(b.subrange(i, j) =~= b.take(n).subrange(i, j));
    }
    assert(a.take(4) =~= a.subrange(0, 4));
    assert(b.take(4) =~= b.subrange(0, 4));
    assert(a.subrange(0, 4) == b.subrange(0, 4));
    if a.take(4) == magic() {
        assert(a.subrange(4, 6) == b.subrange(4, 6));
        if be16_value(a.subrange(4, 6)) == TERMINAL_PROTOCOL_VERSION {
            assert(a.subrange(8, 12) == b.subrange(8, 12));
            assert(a[6] == x[6] && b[6] == b.take(n)[6]);
            if parse_frame(a) is Frame {
                assert(a.subrange(12, n) == b.subrange(12, n));
            }
        }
    }
}

/// What a frame reader makes of a whole input, asked for its bytes until it is
/// done.
pub open spec fn reader_run(reader: FrameReader, input: Seq<u8>, steps: nat) -> Parsed
    decreases steps,
{
    if steps == 0 || input.len() < reader.need() {
        Parsed::Short
    } else {
        match reader.after(input.take(reader.need())) {
            ProgressView::More(next) => reader_run(
                next,
                input.skip(reader.need()),
                (steps - 1) as nat,
            ),
            ProgressView::Complete(frame) => Parsed::Frame(frame),
            ProgressView::Refused(e) => Parsed::Refused(e),
        }
    }
}

/// A frame reader that is given the bytes it asks for reads what stands at the
/// front of the input, in at most four steps.
pub proof fn reader_reads_the_frame(input: Seq<u8>)
    ensures
        reader_run(FrameReader::Magic, input, 4) == parse_frame(input),
{
    reveal_with_fuel(reader_run, 5);
    if input.len() >= 4 {
        let a = input.skip(4);
        if input.len() >= 6 {
            assert(a.take(2) =~= input.subrange(4, 6));
            let b = a.skip(2);
            assert(b =~= input.skip(6));
            if input.len() >= 12 {
                assert(b.take(6).skip(2) =~= input.subrange(8, 12));
                assert(b.take(6)[0] == input[6]);
                be32_value_round_trips(input.subrange(8, 12));
                let c = b.skip(6);
                assert(c =~= input.skip(12));
                if input.len() >= 12 + header_len(input) {
                    assert(c.take(header_len(input)) =~= input.subrange(
                        12,
                        12 + header_len(input),
                    ));
                }
            }
        }
    }
}

/// What is wrong with a frame is found in a fixed order: the magic first, then
/// the version, then the length, and the kind last.
pub proof fn refusals_come_in_order(input: Seq<u8>)
    requires
        input.len() >= FRAME_HEADER_BYTES,
    ensures
        match parse_frame(input) {
            Parsed::Refused(WireErrorView::UnsupportedPeer(_)) => input.take(4) != magic()
                || be16_value(input.subrange(4, 6)) != TERMINAL_PROTOCOL_VERSION,
            Parsed::Refused(WireErrorView::FrameTooLarge(len)) => input.take(4) == magic()
                && be16_value(input.subrange(4, 6)) == TERMINAL_PROTOCOL_VERSION && len
                == header_len(input) && len > MAX_FRAME_BYTES,
            Parsed::Refused(WireErrorView::UnknownKind(code)) => input.take(4) == magic()
                && be16_value(input.subrange(4, 6)) == TERMINAL_PROTOCOL_VERSION && header_len(
                input,
            ) <= MAX_FRAME_BYTES && code == input[6] && kind_of(code) is None,
            Parsed::Refused(_) => false,
            _ => input.take(4) == magic() && be16_value(input.subrange(4, 6))
                == TERMINAL_PROTOCOL_VERSION && header_len(input) <= MAX_FRAME_BYTES && kind_of(
                input[6],
            ) is Some,
        },
{
    be32_value_round_trips(input.subrange(8, 12));
}

/// The number of these bytes, the high one first.
pub open spec fn number(bytes: Seq<u8>) -> int
    decreases bytes.len(),
{
    if bytes.len() == 0 {
        0
    } else {
        number(bytes.drop_last()) * 256 + bytes.last()
    }
}

/// Two and four bytes as a number.
proof fn number_unfolds(bytes: Seq<u8>)
    ensures
        bytes.len() == 2 ==> number(bytes) == bytes[0] * 256 + bytes[1],
        bytes.len() == 4 ==> number(bytes) == ((bytes[0] * 256 + bytes[1]) * 256 + bytes[2]) * 256
            + bytes[3],
{
    reveal_with_fuel(number, 5);
}

/// Numbers are written and read with the high byte first.
pub proof fn numbers_go_high_byte_first(small: u16, large: u32, two: Seq<u8>, four: Seq<u8>)
    requires
        two.len() == 2,
        four.len() == 4,
    ensures
        be16(small as int).len() == 2,
        number(be16(small as int)) == small,
        be32(large as int).len() == 4,
        number(be32(large as int)) == large,
        be16_value(two) == number(two),
        be32_value(four) == number(four),
{
    number_unfolds(be16(small as int));
    number_unfolds(be32(large as int));
    number_unfolds(two);
    number_unfolds(four);
    let n = large as int;
    assert(n == (n / 0x10000) * 0x10000 + n % 0x10000);
}

/// Each kind has its own number, from one to eight, and no other number is a kind.
pub proof fn kinds_are_numbered(kind: TerminalFrameKind, code: u8)
    ensures
        kind is Hello <==> kind.code() == 1,
        kind is Start <==> kind.code() == 2,
        kind is Output <==> kind.code() == 3,
        kind is Input <==> kind.code() == 4,
        kind is Resize <==> kind.code() == 5,
        kind is Close <==> kind.code() == 6,
        kind is Exit <==> kind.code() == 7,
        kind is Error <==> kind.code() == 8,
        kind_of(code) is Some <==> 1 <= code <= 8,
        kind_of(code) matches Some(found) ==> found.code() == code,
{
    kind_code_round_trips(TerminalFrameKind::Hello, code);
    kind_code_round_trips(TerminalFrameKind::Start, code);
    kind_code_round_trips(TerminalFrameKind::Output, code);
    kind_code_round_trips(TerminalFrameKind::Input, code);
    kind_code_round_trips(TerminalFrameKind::Resize, code);
    kind_code_round_trips(TerminalFrameKind::Close, code);
    kind_code_round_trips(TerminalFrameKind::Exit, code);
    kind_code_round_trips(TerminalFrameKind::Error, code);
    if kind_of(code) is Some {
        kind_code_round_trips(kind_of(code)->0, code);
    }
}

/// Where everything stands in a written frame, byte by byte: `DPTY`, version 1,
/// the kind's number, a zero, the payload's length and the payload.
pub proof fn frame_is_laid_out(frame: FrameView)
    requires
        frame.payload.len() <= 1_048_576,
    ensures
        ({
            let bytes = frame_bytes(frame);
            &&& bytes.len() == 12 + frame.payload.len()
            &&& bytes[0] == 0x44 && bytes[1] == 0x50 && bytes[2] == 0x54 && bytes[3] == 0x59
            &&& bytes[4] == 0 && bytes[5] == 1
            &&& bytes[6] == frame.kind.code()
            &&& bytes[7] == 0
            &&& number(bytes.subrange(8, 12)) == frame.payload.len()
            &&& bytes.skip(12) == frame.payload
        }),
        MAX_FRAME_BYTES == 1_048_576,
{
    written_frame_parts(frame, seq![]);
    let bytes = frame_bytes(frame);
    assert(bytes + seq![] =~= bytes);
    numbers_go_high_byte_first(1, frame.payload.len() as u32, seq![0u8, 1u8], seq![0u8, 0, 0, 0]);
    assert(bytes.skip(12) =~= frame.payload);
}

/// `input` begins with what opens every frame: `DPTY` and version 1.
pub open spec fn opens_well(input: Seq<u8>) -> bool {
    &&& input.len() >= 6
    &&& input[0] == 0x44 && input[1] == 0x50 && input[2] == 0x54 && input[3] == 0x59
    &&& input[4] == 0 && input[5] == 1
}

/// A frame is read exactly if the input opens well, gives a length up to a mebibyte
/// and a kind from one to eight, and holds that many bytes more; it is the frame of
/// that kind and those bytes.
pub proof fn frame_is_read_as_laid_out(input: Seq<u8>)
    ensures
        parse_frame(input) is Frame <==> {
            &&& opens_well(input)
            &&& input.len() >= 12
            &&& number(input.subrange(8, 12)) <= 1_048_576
            &&& 1 <= input[6] <= 8
            &&& input.len() >= 12 + number(input.subrange(8, 12))
        },
        parse_frame(input) matches Parsed::Frame(frame) ==> {
            &&& frame.kind.code() == input[6]
            &&& frame.payload == input.subrange(12, 12 + number(input.subrange(8, 12)))
            &&& parse_taken(input) == 12 + number(input.subrange(8, 12))
        },
{
    opening_is_checked(input);
    if input.len() >= 12 {
        numbers_go_high_byte_first(0, 0, input.subrange(4, 6), input.subrange(8, 12));
        kinds_are_numbered(TerminalFrameKind::Hello, input[6]);
        be32_value_round_trips(input.subrange(8, 12));
    }
}

/// What the first bytes of an input are compared with.
proof fn opening_is_checked(input: Seq<u8>)
    ensures
        input.len() >= 4 ==> (input.take(4) == magic() <==> input[0] == 0x44 && input[1] == 0x50
            && input[2] == 0x54 && input[3] == 0x59),
        input.len() >= 6 ==> (be16_value(input.subrange(4, 6)) == 1 <==> input[4] == 0 && input[5]
            == 1),
{
    if input.len() >= 4 {
        if input.take(4) == magic() {
            assert(input.take(4)[0] == input[0] && input.take(4)[1] == input[1]);
            assert(input.take(4)[2] == input[2] && input.take(4)[3] == input[3]);
        }
        if input[0] == 0x44 && input[1] == 0x50 && input[2] == 0x54 && input[3] == 0x59 {
            assert(input.take(4) =~= magic());
        }
    }
}

/// What is wrong with an input is told by the first thing that is, and no byte
/// after it is taken: first bytes other than `DPTY`, in hexadecimal; a version
/// other than 1; a length over a mebibyte; a kind beyond eight or zero. With nothing
/// wrong and bytes missing, the input is short and is taken whole.
pub proof fn first_fault_is_told(input: Seq<u8>)
    ensures
        match parse_frame(input) {
            Parsed::Frame(_) => true,
            Parsed::Refused(WireErrorView::UnsupportedPeer(why)) => if input[0] == 0x44 && input[1]
                == 0x50 && input[2] == 0x54 && input[3] == 0x59 {
                &&& input.len() >= 6
                &&& !opens_well(input)
                &&& why == "version "@ + decimal(number(input.subrange(4, 6)) as nat)
                    + " is not supported"@
                &&& parse_taken(input) == 6
            } else {
                &&& input.len() >= 4
                &&& why == "invalid magic "@ + hex_byte(input[0]) + hex_byte(input[1]) + hex_byte(
                    input[2],
                ) + hex_byte(input[3])
                &&& parse_taken(input) == 4
            },
            Parsed::Refused(WireErrorView::FrameTooLarge(len)) => {
                &&& opens_well(input)
                &&& input.len() >= 12
                &&& len == number(input.subrange(8, 12))
                &&& len > 1_048_576
                &&& parse_taken(input) == 12
            },
            Parsed::Refused(WireErrorView::UnknownKind(code)) => {
                &&& opens_well(input)
                &&& input.len() >= 12
                &&& number(input.subrange(8, 12)) <= 1_048_576
                &&& code == input[6]
                &&& code == 0 || code > 8
                &&& parse_taken(input) == 12
            },
            Parsed::Refused(_) => false,
            Parsed::Short => {
                &&& parse_taken(input) == input.len()
                &&& input.len() >= 4 ==> input[0] == 0x44 && input[1] == 0x50 && input[2] == 0x54
                    && input[3] == 0x59
                &&& input.len() >= 6 ==> opens_well(input)
                &&& input.len() >= 12 ==> number(input.subrange(8, 12)) <= 1_048_576 && 1
                    <= input[6] <= 8 && input.len() < 12 + number(input.subrange(8, 12))
            },
        },
{
    opening_is_checked(input);
    if input.len() >= 6 {
        number_unfolds(input.subrange(4, 6));
    }
    if input.len() >= 12 {
        numbers_go_high_byte_first(0, 0, input.subrange(4, 6), input.subrange(8, 12));
        kinds_are_numbered(TerminalFrameKind::Hello, input[6]);
        be32_value_round_trips(input.subrange(8, 12));
    }
    if input.len() >= 4 {
        assert(input.take(4)[0] == input[0] && input.take(4)[1] == input[1]);
        assert(input.take(4)[2] == input[2] && input.take(4)[3] == input[3]);
    }
}

/// A frame reader asks for the parts of a frame one by one: the four magic bytes,
/// the two of the version, the six up to the payload, and the payload.
pub proof fn reader_asks_part_by_part(kind: TerminalFrameKind, len: u32)
    ensures
        FrameReader::Magic.need() == 4,
        FrameReader::Version.need() == 2,
        FrameReader::Header.need() == 6,
        (FrameReader::Payload { kind, len }).need() == len,
{
}

/// A frame is seen as what its fields hold.
pub proof fn frame_is_seen_as_it_is(frame: TerminalFrame)
    ensures
        frame@.kind == frame.kind,
        frame@.payload == frame.payload@,
{
}

} // verus!
