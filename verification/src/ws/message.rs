//! WebSocket messages.

use crate::ws::ascii::bytes_equal;
use vstd::prelude::*;
use vstd::string::StringExecFns;

verus! {

/// What a message is, as a mathematical value.
pub enum MessageView {
    /// Text, by its characters.
    Text(Seq<char>),
    /// Binary data.
    Binary(Seq<u8>),
    /// A ping and its payload.
    Ping(Seq<u8>),
    /// A pong and its payload.
    Pong(Seq<u8>),
    /// A close, with the code and reason of its frame if it carries one.
    Close(Option<(u16, Seq<char>)>),
}

impl MessageView {
    /// The payload as bytes: the UTF-8 form of a text, the data of a binary,
    /// ping or pong message, nothing for a close.
    pub open spec fn bytes(self) -> Seq<u8> {
        match self {
            MessageView::Text(text) => vstd::utf8::encode_utf8(text),
            MessageView::Binary(data) => data,
            MessageView::Ping(data) => data,
            MessageView::Pong(data) => data,
            MessageView::Close(_) => Seq::empty(),
        }
    }

    /// The text of a text message.
    pub open spec fn text(self) -> Option<Seq<char>> {
        match self {
            MessageView::Text(text) => Some(text),
            _ => None,
        }
    }

    /// Code and reason of a close message that carries a frame.
    pub open spec fn close_frame(self) -> Option<(u16, Seq<char>)> {
        match self {
            MessageView::Close(frame) => frame,
            _ => None,
        }
    }
}

#[derive(Clone, Debug, PartialEq, Eq, PartialOrd, Ord)]
struct CloseFrame {
    code: u16,
    reason: String,
}

#[derive(Clone, Debug, PartialEq, Eq, PartialOrd, Ord)]
enum Payload {
    Text(String),
    Binary(Vec<u8>),
    Ping(Vec<u8>),
    Pong(Vec<u8>),
    Close(Option<CloseFrame>),
}

/// A WebSocket message.
#[derive(Clone, Debug, Eq, PartialOrd, Ord)]
pub struct Message {
    inner: Payload,
}

impl PartialEq for Message {
    /// Whether two messages are of the same kind and hold the same.
    fn eq(&self, other: &Message) -> (same: bool) {
        match (&self.inner, &other.inner) {
            (Payload::Text(a), Payload::Text(b)) => *a == *b,
            (Payload::Binary(a), Payload::Binary(b)) => bytes_equal(a.as_slice(), b.as_slice()),
            (Payload::Ping(a), Payload::Ping(b)) => bytes_equal(a.as_slice(), b.as_slice()),
            (Payload::Pong(a), Payload::Pong(b)) => bytes_equal(a.as_slice(), b.as_slice()),
            (Payload::Close(None), Payload::Close(None)) => true,
            (Payload::Close(Some(a)), Payload::Close(Some(b))) => a.code == b.code && a.reason
                == b.reason,
            _ => false,
        }
    }
}

impl vstd::std_specs::cmp::PartialEqSpecImpl for Message {
    open spec fn obeys_eq_spec() -> bool {
        true
    }

    open spec fn eq_spec(&self, other: &Message) -> bool {
        self@ == other@
    }
}

impl View for Message {
    type V = MessageView;

    closed spec fn view(&self) -> MessageView {
        match self.inner {
            Payload::Text(text) => MessageView::Text(text@),
            Payload::Binary(data) => MessageView::Binary(data@),
            Payload::Ping(data) => MessageView::Ping(data@),
            Payload::Pong(data) => MessageView::Pong(data@),
            Payload::Close(None) => MessageView::Close(None),
            Payload::Close(Some(frame)) => MessageView::Close(Some((frame.code, frame.reason@))),
        }
    }
}

impl Message {
    /// Construct a new Text `Message`.
    pub fn text(s: &str) -> (message: Message)
        ensures
            message@ == MessageView::Text(s@),
    {
        Message { inner: Payload::Text(String::from_str(s)) }
    }

    /// Construct a new Binary `Message`.
    pub fn binary(v: Vec<u8>) -> (message: Message)
        ensures
            message@ == MessageView::Binary(v@),
    {
        Message { inner: Payload::Binary(v) }
    }

    /// Construct a new Ping `Message`.
    pub fn ping(v: Vec<u8>) -> (message: Message)
        ensures
            message@ == MessageView::Ping(v@),
    {
        Message { inner: Payload::Ping(v) }
    }

    /// Construct a new Pong `Message`.
    pub fn pong(v: Vec<u8>) -> (message: Message)
        ensures
            message@ == MessageView::Pong(v@),
    {
        Message { inner: Payload::Pong(v) }
    }

    /// Construct the default Close `Message`.
    pub fn close() -> (message: Message)
        ensures
            message@ == MessageView::Close(None),
    {
        Message { inner: Payload::Close(None) }
    }

    /// Construct a Close `Message` with a code and reason.
    pub fn close_with(code: u16, reason: &str) -> (message: Message)
        ensures
            message@ == MessageView::Close(Some((code, reason@))),
    {
        Message {
            inner: Payload::Close(Some(CloseFrame { code, reason: String::from_str(reason) })),
        }
    }

    /// Returns true if this message is a Text message.
    pub fn is_text(&self) -> (yes: bool)
        ensures
            yes == (self@ is Text),
    {
        match &self.inner {
            Payload::Text(_) => true,
            _ => false,
        }
    }

    /// Returns true if this message is a Binary message.
    pub fn is_binary(&self) -> (yes: bool)
        ensures
            yes == (self@ is Binary),
    {
        match &self.inner {
            Payload::Binary(_) => true,
            _ => false,
        }
    }

    /// Returns true if this message a is a Close message.
    pub fn is_close(&self) -> (yes: bool)
        ensures
            yes == (self@ is Close),
    {
        match &self.inner {
            Payload::Close(_) => true,
            _ => false,
        }
    }

    /// Returns true if this message is a Ping message.
    pub fn is_ping(&self) -> (yes: bool)
        ensures
            yes == (self@ is Ping),
    {
        match &self.inner {
            Payload::Ping(_) => true,
            _ => false,
        }
    }

    /// Returns true if this message is a Pong message.
    pub fn is_pong(&self) -> (yes: bool)
        ensures
            yes == (self@ is Pong),
    {
        match &self.inner {
            Payload::Pong(_) => true,
            _ => false,
        }
    }

    /// Try to get the close frame (close code and reason).
    pub fn close_frame(&self) -> (frame: Option<(u16, &str)>)
        ensures
            match frame {
                Some((code, reason)) => self@.close_frame() == Some((code, reason@)),
                None => self@.close_frame() is None,
            },
    {
        match &self.inner {
            Payload::Close(Some(frame)) => Some((frame.code, frame.reason.as_str())),
            _ => None,
        }
    }

    /// Try to get a reference to the string text, if this is a Text message.
    pub fn to_str(&self) -> (text: Option<&str>)
        ensures
            match text {
                Some(s) => self@.text() == Some(s@),
                None => self@.text() is None,
            },
    {
        match &self.inner {
            Payload::Text(s) => Some(s.as_str()),
            _ => None,
        }
    }

    /// Returns the bytes of this message, if the message can contain data.
    pub fn as_bytes(&self) -> (bytes: &[u8])
        ensures
            bytes@ == self@.bytes(),
    {
        match &self.inner {
            Payload::Text(s) => s.as_str().as_bytes(),
            Payload::Binary(v) => v.as_slice(),
            Payload::Ping(v) => v.as_slice(),
            Payload::Pong(v) => v.as_slice(),
            Payload::Close(_) => &[],
        }
    }

    /// Destructure this message into binary data.
    pub fn into_bytes(self) -> (bytes: Vec<u8>)
        ensures
            bytes@ == self@.bytes(),
    {
        match self.inner {
            Payload::Text(s) => vstd::slice::slice_to_vec(s.as_str().as_bytes()),
            Payload::Binary(v) => v,
            Payload::Ping(v) => v,
            Payload::Pong(v) => v,
            Payload::Close(_) => Vec::new(),
        }
    }
}

impl From<Message> for Vec<u8> {
    /// The payload of a message, as `into_bytes` gives it.
    fn from(message: Message) -> (bytes: Vec<u8>)
        ensures
            bytes@ == message@.bytes(),
    {
        message.into_bytes()
    }
}

/// A `Vec` cannot be written down in a contract, only its contents can:
/// what `from` returns is stated on `from` itself.
impl vstd::std_specs::convert::FromSpecImpl<Message> for Vec<u8> {
    open spec fn obeys_from_spec() -> bool {
        false
    }

    open spec fn from_spec(message: Message) -> Vec<u8> {
        arbitrary()
    }
}

/// A message built from a text is a text message and no other, and gives
/// that text back.
pub proof fn lemma_text_round_trip(message: Message, text: Seq<char>)
    requires
        message@ == MessageView::Text(text),
    ensures
        message@.text() == Some(text),
        message@ is Text,
        !(message@ is Binary) && !(message@ is Ping) && !(message@ is Pong) && !(message@ is Close),
        message@.close_frame() is None,
{
}

/// A close message built with a code and a reason gives both back.
pub proof fn lemma_close_frame_round_trip(message: Message, code: u16, reason: Seq<char>)
    requires
        message@ == MessageView::Close(Some((code, reason))),
    ensures
        message@.close_frame() == Some((code, reason)),
        message@ is Close,
        message@.text() is None,
{
}

/// A close message has no payload bytes; built without a frame, it has no
/// close frame either.
pub proof fn lemma_close_is_empty(message: Message)
    requires
        message@ is Close,
    ensures
        message@.bytes() == Seq::<u8>::empty(),
        message@ == MessageView::Close(None) ==> message@.close_frame() is None,
{
}

/// Only a text message has a text, and only a close message a close frame.
pub proof fn lemma_payload_kinds(message: Message)
    ensures
        message@.text() is Some ==> message@ is Text,
        message@.close_frame() is Some ==> message@ is Close,
        message@ is Text ==> message@.text() is Some,
{
}

} // verus!
