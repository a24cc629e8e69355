//! The text-safe encoding in which a serialized record is kept in storage:
//! base64 with the standard alphabet and without padding.

use base64::engine::general_purpose::STANDARD_NO_PAD;
use base64::Engine;
use vstd::prelude::*;

verus! {

/// The text that base64, with the standard alphabet and without padding,
/// gives for `data`.
pub uninterp spec fn base64_encoding(data: Seq<u8>) -> Seq<char>;

/// The bytes that base64, with the standard alphabet and without padding,
/// reads out of `text`; `None` where `text` is no such encoding.
pub uninterp spec fn base64_decoding(text: Seq<char>) -> Option<Seq<u8>>;

/// Whether `c` is one of the 64 symbols of the standard base64 alphabet:
/// a letter, a digit, `+` or `/`.
pub open spec fn is_base64_symbol(c: char) -> bool {
    ||| 'A' <= c <= 'Z'
    ||| 'a' <= c <= 'z'
    ||| '0' <= c <= '9'
    ||| c == '+'
    ||| c == '/'
}

/// The longest input, in bytes, that can be encoded: its encoding is the
/// longest that a `String` can hold.
pub open spec fn max_encodable_len() -> nat {
    (isize::MAX / 4 * 3) as nat
}

/// Calls `Engine::encode` of the base64 crate on its `STANDARD_NO_PAD`
/// engine. Trusted: the result is the encoding of `data`, the same engine
/// decodes it back to `data`, and it holds symbols of the standard alphabet
/// only. The call panics where the encoded length overflows `usize` or is
/// more than a buffer can hold, which the bound on the input rules out.
#[verifier::external_body]
pub(crate) fn encode(data: &[u8]) -> (text: String)
    requires
        data@.len() <= max_encodable_len(),
    ensures
        text@ == base64_encoding(data@),
        base64_decoding(text@) == Some(data@),
        forall|i: int| 0 <= i < text@.len() ==> is_base64_symbol(#[trigger] text@[i]),
{
    STANDARD_NO_PAD.encode(data)
}

/// Calls `Engine::decode` of the base64 crate on its `STANDARD_NO_PAD`
/// engine. Trusted: the result is the decoding of `text`, and `None` where
/// the engine reports an error.
#[verifier::external_body]
pub(crate) fn decode(text: &str) -> (data: Option<Vec<u8>>)
    ensures
        match data {
            Some(bytes) => base64_decoding(text@) == Some(bytes@),
            None => base64_decoding(text@).is_none(),
        },
{
    STANDARD_NO_PAD.decode(text).ok()
}

} // verus!
