use vstd::prelude::*;
use vstd::string::to_string_from_display_ensures;

verus! {

/// std's I/O error, opaque: it is only converted, through its `Display` text.
#[verifier::external_type_specification]
#[verifier::external_body]
pub struct ExIoError(std::io::Error);

/// Everything that can go wrong in the client: process control, the remote
/// protocol, the MessagePack codec and the textual format's parser.
#[derive(Debug)]
pub enum PklError {
    Message(String),

    PklSend,
    PklRecv,
    PklMalformedResponse { message: String },
    PklProcessStart,
    PklServerError { pkl_error: String },

    SerializeAst,
    DecodeError(String),
    DeserializeError(String),

    MsgpackSerializeError(rmp_serde::encode::Error),
    MsgpackEncodeError(crate::codec::EncodeFailure),
    MsgpackDecodeError(rmpv::decode::Error),

    Eof,
    Syntax,
    ExpectedBoolean,
    ExpectedInteger,
    ExpectedString,
    ExpectedNull,
    ExpectedArray,
    ExpectedArrayComma,
    ExpectedArrayEnd,
    ExpectedMap,
    ExpectedMapColon,
    ExpectedMapComma,
    ExpectedMapEnd,
    ExpectedEnum,
    TrailingCharacters,
}

/// The result of every fallible operation of the client.
pub type Result<T> = std::result::Result<T, PklError>;

/// The fixed text of an unexpected end of input.
pub open spec fn eof_text() -> Seq<char> {
    "unexpected end of input"@
}

/// The fixed text of every variant without text of its own.
pub open spec fn unknown_text() -> Seq<char> {
    "unknown error"@
}

/// The text that a variant carries and renders verbatim, if it carries one.
pub open spec fn carried_text(e: PklError) -> Option<Seq<char>> {
    match e {
        PklError::Message(s) => Some(s@),
        PklError::DeserializeError(s) => Some(s@),
        PklError::DecodeError(s) => Some(s@),
        PklError::PklServerError { pkl_error } => Some(pkl_error@),
        PklError::PklMalformedResponse { message } => Some(message@),
        _ => None,
    }
}

/// Whether `r` is how `e` renders: its carried text verbatim, the codec's own
/// text for a decode failure, a fixed text for the end of input, and the
/// fallback text for all else.
pub open spec fn is_rendering(e: PklError, r: String) -> bool {
    match e {
        PklError::MsgpackDecodeError(d) => to_string_from_display_ensures::<rmpv::decode::Error>(
            &d,
            r,
        ),
        PklError::Eof => r@ == eof_text(),
        _ => match carried_text(e) {
            Some(t) => r@ == t,
            None => r@ == unknown_text(),
        },
    }
}

/// The variants that render the fallback text: process control, the codec's
/// encode side, and every failure of the textual format's parser but the end
/// of input.
pub open spec fn has_fallback_text(e: PklError) -> bool {
    match e {
        PklError::PklSend | PklError::PklRecv | PklError::PklProcessStart => true,
        PklError::SerializeAst => true,
        PklError::MsgpackSerializeError(_) | PklError::MsgpackEncodeError(_) => true,
        PklError::Syntax | PklError::TrailingCharacters => true,
        PklError::ExpectedBoolean | PklError::ExpectedInteger | PklError::ExpectedString => true,
        PklError::ExpectedNull | PklError::ExpectedEnum => true,
        PklError::ExpectedArray | PklError::ExpectedArrayComma | PklError::ExpectedArrayEnd => true,
        PklError::ExpectedMap | PklError::ExpectedMapColon => true,
        PklError::ExpectedMapComma | PklError::ExpectedMapEnd => true,
        _ => false,
    }
}

/// Whether a text is one non-empty line: at least one character, and no
/// newline at its end.
pub open spec fn is_nonempty_line(t: Seq<char>) -> bool {
    t.len() > 0 && t.last() != '\n'
}

/// Whether `e` is a `Message` whose text is `t`'s rendering through `Display`.
pub open spec fn is_message_of<T: std::fmt::Display + ?Sized>(e: PklError, t: &T) -> bool {
    match e {
        PklError::Message(s) => to_string_from_display_ensures::<T>(t, s),
        _ => false,
    }
}

impl PklError {
    /// The error's human-readable text.
    pub fn render(&self) -> (r: String)
        ensures
            is_rendering(*self, r),
    {
        match self {
            PklError::Message(msg) => msg.clone(),
            PklError::DeserializeError(msg) => msg.clone(),
            PklError::DecodeError(msg) => msg.clone(),
            PklError::PklServerError { pkl_error } => pkl_error.clone(),
            PklError::PklMalformedResponse { message } => message.clone(),
            PklError::MsgpackDecodeError(e) => e.to_string(),
            PklError::Eof => String::from_str("unexpected end of input"),
            _ => String::from_str("unknown error"),
        }
    }

    /// A `Message` error holding the text of any displayable value; this is
    /// the constructor that a serialization framework calls, in either
    /// direction, to report a failure of its own.
    pub fn custom<T: std::fmt::Display + ?Sized>(msg: &T) -> (r: PklError)
        ensures
            is_message_of(r, msg),
    {
        PklError::Message(msg.to_string())
    }
}

/// Every error but a decode failure renders to one non-empty line, provided
/// the text it carries, if any, is one. (A decode failure renders the codec's
/// own text, of which nothing is known here.)
pub proof fn lemma_rendering_is_nonempty_line(e: PklError, r: String)
    requires
        is_rendering(e, r),
        !(e is MsgpackDecodeError),
        carried_text(e) is Some ==> is_nonempty_line(carried_text(e)->0),
    ensures
        is_nonempty_line(r@),
{
    reveal_strlit("unexpected end of input");
    reveal_strlit("unknown error");
}

/// A text-carrying variant renders exactly the text it was built with.
pub proof fn lemma_carried_text_round_trip(s: String, r: String)
    ensures
        is_rendering(PklError::Message(s), r) ==> r@ == s@,
        is_rendering(PklError::DeserializeError(s), r) ==> r@ == s@,
        is_rendering(PklError::DecodeError(s), r) ==> r@ == s@,
        is_rendering(PklError::PklServerError { pkl_error: s }, r) ==> r@ == s@,
        is_rendering(PklError::PklMalformedResponse { message: s }, r) ==> r@ == s@,
{
}

/// The end of input renders as "unexpected end of input", always.
pub proof fn lemma_eof_rendering(r: String)
    ensures
        is_rendering(PklError::Eof, r) <==> r@ == "unexpected end of input"@,
{
}

/// Every variant without text of its own renders as "unknown error".
pub proof fn lemma_fallback_rendering(e: PklError, r: String)
    requires
        has_fallback_text(e),
    ensures
        is_rendering(e, r) <==> r@ == "unknown error"@,
{
}

impl From<std::io::Error> for PklError {
    /// An I/O failure becomes a `Message` holding its description.
    fn from(e: std::io::Error) -> (r: PklError)
        ensures
            is_message_of(r, &e),
    {
        PklError::Message(e.to_string())
    }
}

impl vstd::std_specs::convert::FromSpecImpl<std::io::Error> for PklError {
    open spec fn obeys_from_spec() -> bool {
        false
    }

    // The description is the platform's, so conversion promises no fixed
    // value here; the impl's own `ensures` states what holds.
    open spec fn from_spec(v: std::io::Error) -> PklError {
        arbitrary()
    }
}

impl From<rmp_serde::encode::Error> for PklError {
    /// A serializer failure is carried unchanged.
    fn from(e: rmp_serde::encode::Error) -> (r: PklError)
        ensures
            r == PklError::MsgpackSerializeError(e),
    {
        PklError::MsgpackSerializeError(e)
    }
}

impl vstd::std_specs::convert::FromSpecImpl<rmp_serde::encode::Error> for PklError {
    open spec fn obeys_from_spec() -> bool {
        true
    }

    open spec fn from_spec(v: rmp_serde::encode::Error) -> PklError {
        PklError::MsgpackSerializeError(v)
    }
}

impl From<rmpv::decode::Error> for PklError {
    /// A decoder failure is carried unchanged.
    fn from(e: rmpv::decode::Error) -> (r: PklError)
        ensures
            r == PklError::MsgpackDecodeError(e),
    {
        PklError::MsgpackDecodeError(e)
    }
}

impl vstd::std_specs::convert::FromSpecImpl<rmpv::decode::Error> for PklError {
    open spec fn obeys_from_spec() -> bool {
        true
    }

    open spec fn from_spec(v: rmpv::decode::Error) -> PklError {
        PklError::MsgpackDecodeError(v)
    }
}

} // verus!
