//! The handshake key of a request and the token that answers it.

use salvo_core::http::header::{SEC_WEBSOCKET_ACCEPT, SEC_WEBSOCKET_KEY};
use salvo_core::http::headers::{HeaderMapExt, SecWebsocketAccept, SecWebsocketKey};
use salvo_core::http::{HeaderMap, HeaderValue};
use vstd::prelude::*;

verus! {

/// Whether a byte is a letter, a digit, `+` or `/`.
pub open spec fn is_base64_symbol(b: u8) -> bool {
    ||| 0x41 <= b <= 0x5a
    ||| 0x61 <= b <= 0x7a
    ||| 0x30 <= b <= 0x39
    ||| b == 0x2b
    ||| b == 0x2f
}

/// How many `=` signs end the text, counting at most two.
pub open spec fn padding_len(text: Seq<u8>) -> int {
    if text.len() >= 2 && text[text.len() - 1] == 0x3d && text[text.len() - 2] == 0x3d {
        2
    } else if text.len() >= 1 && text[text.len() - 1] == 0x3d {
        1
    } else {
        0
    }
}

/// Whether a text is padded base64: whole groups of four, made of base64
/// symbols, the last group ending in at most two `=` signs. The empty text
/// counts, and the bits a last symbol leaves over are not looked at.
pub open spec fn is_base64(text: Seq<u8>) -> bool {
    &&& text.len() % 4 == 0
    &&& forall|i: int| 0 <= i < text.len() - padding_len(text) ==> is_base64_symbol(#[trigger] text[i])
}

/// Whether every byte may stand in a header value: a tab, or anything from
/// the space upwards but DEL.
pub open spec fn is_field_value(bytes: Seq<u8>) -> bool {
    forall|i: int| 0 <= i < bytes.len() ==> {
        let b = #[trigger] bytes[i];
        b == 0x09 || (b >= 0x20 && b != 0x7f)
    }
}

/// Base64 text is made of bytes a header value may hold.
pub proof fn lemma_base64_is_field_value(text: Seq<u8>)
    requires
        is_base64(text),
    ensures
        is_field_value(text),
{
    assert forall|i: int| 0 <= i < text.len() implies {
        let b = #[trigger] text[i];
        b == 0x09 || (b >= 0x20 && b != 0x7f)
    } by {
        if i < text.len() - padding_len(text) {
            assert(is_base64_symbol(text[i]));
        }
    }
}

/// The `Sec-WebSocket-Accept` token that answers a key: the result of
/// `SecWebsocketAccept::from` of the `headers` crate on that key.
pub uninterp spec fn accept_token(key: Seq<u8>) -> Seq<u8>;

/// Whether a handshake key is well formed.
pub fn is_valid_key(key: &[u8]) -> (valid: bool)
    ensures
        valid == is_base64(key@),
{
    let n: usize = key.len();
    if n % 4 != 0 {
        return false;
    }
    let padding: usize = if n >= 2 && key[n - 1] == 0x3d && key[n - 2] == 0x3d {
        2
    } else if n >= 1 && key[n - 1] == 0x3d {
        1
    } else {
        0
    };
    let end: usize = n - padding;
    let mut i: usize = 0;
    while i < end
        invariant
            i <= end,
            end == key@.len() - padding_len(key@),
            forall|j: int| 0 <= j < i ==> is_base64_symbol(#[trigger] key@[j]),
        decreases end - i,
    {
        let b: u8 = key[i];
        let symbol: bool = (b >= 0x41 && b <= 0x5a) || (b >= 0x61 && b <= 0x7a) || (b >= 0x30 && b
            <= 0x39) || b == 0x2b || b == 0x2f;
        if !symbol {
            assert(!is_base64_symbol(key@[i as int]));
            return false;
        }
        i += 1;
    }
    true
}

/// Signs a handshake key as the `headers` crate does: the key is read as
/// the typed `SecWebsocketKey` header and `SecWebsocketAccept::from` turns
/// it into the accept header, whose bytes are handed back. The contract
/// claims that this succeeds exactly on bytes `HeaderValue::from_bytes`
/// takes, and names the token; it does not say what the token holds.
#[verifier::external_body]
pub(crate) fn sign(key: &[u8]) -> (token: Option<Vec<u8>>)
    ensures
        token is Some <==> is_field_value(key@),
        token matches Some(bytes) ==> bytes@ == accept_token(key@),
{
    let mut headers = HeaderMap::new();
    headers.insert(SEC_WEBSOCKET_KEY, HeaderValue::from_bytes(key).ok()?);
    let key = headers.typed_get::<SecWebsocketKey>()?;
    headers.typed_insert(SecWebsocketAccept::from(key));
    headers.get(SEC_WEBSOCKET_ACCEPT).map(|token| token.as_bytes().to_vec())
}

} // verus!
