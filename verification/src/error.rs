//! What can go wrong on the terminal wire.
use crate::text::decimal;
use crate::text::push_decimal;
use vstd::prelude::*;
use vstd::string::to_string_from_display_ensures;

verus! {

/// An I/O error of the standard library, carried through unread.
#[verifier::external_type_specification]
#[verifier::external_body]
pub struct ExIoError(std::io::Error);

/// Why a frame could not be read, written or understood.
#[derive(Debug)]
pub enum TerminalWireError {
    /// The peer does not speak this protocol, or not this version of it.
    UnsupportedPeer(String),
    /// The payload is longer than a frame may be.
    FrameTooLarge(u32),
    /// No frame kind has this code.
    UnknownKind(u8),
    /// The stream failed or ended within a frame.
    Io(std::io::Error),
    /// The payload does not have the form its frame kind asks for.
    Decode,
}

/// What a wire error says, without the I/O error it may carry.
pub enum WireErrorView {
    UnsupportedPeer(Seq<char>),
    FrameTooLarge(u32),
    UnknownKind(u8),
    Io,
    Decode,
}

impl View for TerminalWireError {
    type V = WireErrorView;

    open spec fn view(&self) -> WireErrorView {
        match *self {
            TerminalWireError::UnsupportedPeer(detail) => WireErrorView::UnsupportedPeer(detail@),
            TerminalWireError::FrameTooLarge(len) => WireErrorView::FrameTooLarge(len),
            TerminalWireError::UnknownKind(code) => WireErrorView::UnknownKind(code),
            TerminalWireError::Io(_) => WireErrorView::Io,
            TerminalWireError::Decode => WireErrorView::Decode,
        }
    }
}

impl WireErrorView {
    /// The error in words; for an I/O error, the words before its own.
    pub open spec fn words(self) -> Seq<char> {
        match self {
            WireErrorView::UnsupportedPeer(detail) => "unsupported terminal peer: "@ + detail,
            WireErrorView::FrameTooLarge(len) => "terminal frame too large: "@ + decimal(len as nat)
                + " bytes"@,
            WireErrorView::UnknownKind(code) => "unknown terminal frame kind: "@ + decimal(
                code as nat,
            ),
            WireErrorView::Io => "terminal wire I/O error: "@,
            WireErrorView::Decode => "terminal frame payload decode failed"@,
        }
    }
}

impl TerminalWireError {
    /// The error in words. An I/O error is followed by the standard library's
    /// own words for it, which depend on the system.
    pub fn message(&self) -> (r: String)
        ensures
            !(self is Io) ==> r@ == self@.words(),
            self matches TerminalWireError::Io(e) ==> exists|own: String| #[trigger]
                to_string_from_display_ensures::<std::io::Error>(&e, own) && r@ == self@.words()
                    + own@,
    {
        match self {
            TerminalWireError::UnsupportedPeer(detail) => {
                let mut out: String = "unsupported terminal peer: ".to_owned();
                out.append(detail.as_str());
                out
            },
            TerminalWireError::FrameTooLarge(len) => {
                let mut out: String = "terminal frame too large: ".to_owned();
                push_decimal(&mut out, *len);
                out.append(" bytes");
                out
            },
            TerminalWireError::UnknownKind(code) => {
                let mut out: String = "unknown terminal frame kind: ".to_owned();
                push_decimal(&mut out, *code as u32);
                out
            },
            TerminalWireError::Io(error) => {
                let mut out: String = "terminal wire I/O error: ".to_owned();
                let own: String = error.to_string();
                out.append(own.as_str());
                assert(to_string_from_display_ensures::<std::io::Error>(error, own));
                out
            },
            TerminalWireError::Decode => "terminal frame payload decode failed".to_owned(),
        }
    }
}

impl TerminalWireError {
    /// Whether the stream ended within a frame, by the kind of the I/O error.
    pub fn is_early_end(&self) -> (r: bool)
        ensures
            match *self {
                TerminalWireError::Io(error) => exists|kind: std::io::ErrorKind| #[trigger]
                    call_ensures(std::io::Error::kind, (&error,), kind) && r == (kind
                        == std::io::ErrorKind::UnexpectedEof),
                _ => !r,
            },
    {
        match self {
            TerminalWireError::Io(error) => {
                let kind: std::io::ErrorKind = error.kind();
                assert(call_ensures(std::io::Error::kind, (error,), kind));
                match kind {
                    std::io::ErrorKind::UnexpectedEof => true,
                    _ => false,
                }
            },
            _ => false,
        }
    }
}

impl vstd::std_specs::convert::FromSpecImpl<std::io::Error> for TerminalWireError {
    open spec fn obeys_from_spec() -> bool {
        true
    }

    open spec fn from_spec(error: std::io::Error) -> TerminalWireError {
        TerminalWireError::Io(error)
    }
}

impl From<std::io::Error> for TerminalWireError {
    fn from(error: std::io::Error) -> (r: TerminalWireError) {
        TerminalWireError::Io(error)
    }
}

/// The kinds of I/O error of the standard library.
#[verifier::external_type_specification]
pub struct ExIoErrorKind(std::io::ErrorKind);

/// `std::io::Error::kind`. Nothing is claimed of the kind that it gives; what is
/// known of it is known of the error.
pub assume_specification[ std::io::Error::kind ](error: &std::io::Error) -> std::io::ErrorKind;

/// The error is of this kind, as `std::io::Error::kind` tells it.
pub open spec fn is_of_kind(error: std::io::Error, kind: std::io::ErrorKind) -> bool {
    forall|told: std::io::ErrorKind| #[trigger]
        call_ensures(std::io::Error::kind, (&error,), told) ==> told == kind
}

/// The error of a run of bytes that the stream ended before: an unexpected end,
/// with words of its own.
pub open spec fn says_early_eof(error: std::io::Error) -> bool {
    &&& is_of_kind(error, std::io::ErrorKind::UnexpectedEof)
    &&& forall|own: String| #[trigger]
        to_string_from_display_ensures::<std::io::Error>(&error, own) ==> own@ == "early eof"@
}

/// The error is of this kind, and is put into words as the kind itself is.
pub open spec fn says_its_kind(error: std::io::Error, kind: std::io::ErrorKind) -> bool {
    &&& is_of_kind(error, kind)
    &&& forall|own: String, of_kind: String| #[trigger]
        to_string_from_display_ensures::<std::io::Error>(&error, own) && #[trigger]
        to_string_from_display_ensures::<std::io::ErrorKind>(&kind, of_kind) ==> own@ == of_kind@
}

/// `std::io::Error::new` with the kind `UnexpectedEof` and the words
/// `early eof`. Claimed is that `kind` gives that kind back, and that the error is
/// displayed as those words.
#[verifier::external_body]
pub(crate) fn early_eof() -> (r: std::io::Error)
    ensures
        says_early_eof(r),
{
    std::io::Error::new(std::io::ErrorKind::UnexpectedEof, "early eof")
}

/// `std::io::Error::from` on a kind alone. Claimed is that `kind` gives that kind
/// back, and that the error is displayed as the kind is. Which words the standard
/// library has for a kind is left unsaid.
#[verifier::external_body]
pub(crate) fn error_of_kind(kind: std::io::ErrorKind) -> (r: std::io::Error)
    ensures
        says_its_kind(r, kind),
{
    std::io::Error::from(kind)
}

/// A wire error is seen as what it carries, an I/O error left out, and is put into
/// words by what it carries.
pub proof fn wire_error_tells_what_it_carries(
    detail: String,
    len: u32,
    code: u8,
    io: std::io::Error,
)
    ensures
        TerminalWireError::UnsupportedPeer(detail)@ == WireErrorView::UnsupportedPeer(detail@),
        TerminalWireError::FrameTooLarge(len)@ == WireErrorView::FrameTooLarge(len),
        TerminalWireError::UnknownKind(code)@ == WireErrorView::UnknownKind(code),
        TerminalWireError::Io(io)@ is Io,
        TerminalWireError::Decode@ is Decode,
        WireErrorView::UnsupportedPeer(detail@).words() == "unsupported terminal peer: "@ + detail@,
        WireErrorView::FrameTooLarge(len).words() == "terminal frame too large: "@ + decimal(
            len as nat,
        ) + " bytes"@,
        WireErrorView::UnknownKind(code).words() == "unknown terminal frame kind: "@ + decimal(
            code as nat,
        ),
        WireErrorView::Io.words() == "terminal wire I/O error: "@,
        WireErrorView::Decode.words() == "terminal frame payload decode failed"@,
{
}

} // verus!
