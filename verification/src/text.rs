//! Reading text that LLVM hands back as bytes.
use vstd::prelude::*;
use vstd::utf8::*;

verus! {

/// What `String::from_utf8_lossy` makes of bytes that are not valid UTF-8.
pub uninterp spec fn utf8_lossy(bytes: Seq<u8>) -> Seq<char>;

/// The text that lossy UTF-8 decoding gives for `bytes`: the decoded
/// characters where the bytes are valid UTF-8.
pub open spec fn text_of(bytes: Seq<u8>) -> Seq<char> {
    if valid_utf8(bytes) {
        decode_utf8(bytes)
    } else {
        utf8_lossy(bytes)
    }
}

/// Trusted: calls `String::from_utf8_lossy`. Its documentation says that
/// valid UTF-8 comes back as the text it encodes, and that in other bytes
/// invalid sequences are replaced by U+FFFD, so the result holds one; which
/// text it makes of them exactly is left to the name `utf8_lossy`.
#[verifier::external_body]
fn from_utf8_lossy(bytes: &[u8]) -> (s: String)
    ensures
        valid_utf8(bytes@) ==> s@ == decode_utf8(bytes@),
        !valid_utf8(bytes@) ==> s@ == utf8_lossy(bytes@),
        !valid_utf8(bytes@) ==> s@.contains('\u{FFFD}'),
{
    String::from_utf8_lossy(bytes).into_owned()
}

/// The text of the bytes of a C string (without its terminator), decoded
/// lossily, as `CStr::to_string_lossy` does.
pub fn string_lossy(bytes: &[u8]) -> (s: String)
    ensures
        s@ == text_of(bytes@),
        !valid_utf8(bytes@) ==> s@.contains('\u{FFFD}'),
{
    from_utf8_lossy(bytes)
}

/// Text that LLVM may not have: none where it handed back a null pointer,
/// else the lossy decoding of the bytes it handed back.
pub fn optional_text(raw: Option<Vec<u8>>) -> (r: Option<String>)
    ensures
        r is Some <==> raw is Some,
        r matches Some(s) ==> s@ == text_of(raw->0@),
{
    match raw {
        Some(bytes) => Some(string_lossy(bytes.as_slice())),
        None => None,
    }
}

/// Decoding the UTF-8 bytes of a text gives the text back.
pub proof fn lemma_text_of_encoding(s: Seq<char>)
    ensures
        text_of(encode_utf8(s)) == s,
{
    encode_utf8_valid_utf8(s);
    encode_utf8_decode_utf8(s);
}

} // verus!
