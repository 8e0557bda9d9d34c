//! Classes of characters, and text from bytes.
use vstd::prelude::*;
use vstd::utf8::{encode_utf8, valid_utf8};

verus! {

/// Whether a character has the Unicode property `White_Space`.
pub open spec fn char_is_whitespace(c: char) -> bool {
    let code = c as u32;
    ||| 0x09 <= code <= 0x0D
    ||| code == 0x20
    ||| code == 0x85
    ||| code == 0xA0
    ||| code == 0x1680
    ||| 0x2000 <= code <= 0x200A
    ||| 0x2028 <= code <= 0x2029
    ||| code == 0x202F
    ||| code == 0x205F
    ||| code == 0x3000
}

/// Whether a character has the Unicode category `Cc`.
pub open spec fn char_is_control(c: char) -> bool {
    c as u32 <= 0x1F || 0x7F <= c as u32 <= 0x9F
}

pub(crate) fn is_whitespace(c: char) -> (is: bool)
    ensures
        is == char_is_whitespace(c),
{
    let code: u32 = c as u32;
    0x09 <= code && code <= 0x0D || code == 0x20 || code == 0x85 || code == 0xA0 || code == 0x1680
        || 0x2000 <= code && code <= 0x200A || 0x2028 <= code && code <= 0x2029 || code == 0x202F
        || code == 0x205F || code == 0x3000
}

pub(crate) fn is_control(c: char) -> (is: bool)
    ensures
        is == char_is_control(c),
{
    let code: u32 = c as u32;
    code <= 0x1F || 0x7F <= code && code <= 0x9F
}

/// `core::str::from_utf8`: the text that bytes spell, `None` where they are no UTF-8.
#[verifier::external_body]
pub(crate) fn text_of_utf8(bytes: &[u8]) -> (text: Option<&str>)
    ensures
        text is Some <==> valid_utf8(bytes@),
        text matches Some(string) ==> encode_utf8(string@) == bytes@,
{
    core::str::from_utf8(bytes).ok()
}

/// In the 7-bit range the blanks are the space and the characters 9 to 13, the control characters
/// are those below the space and 127, and every letter, digit and sign is neither. Above it there
/// are control characters up to 159 only.
pub proof fn law_classes_of_characters(c: char)
    ensures
        ({
            let code = c as u32;
            &&& code < 128 ==> (char_is_whitespace(c) <==> code == 32 || 9 <= code <= 13)
            &&& code < 128 ==> (char_is_control(c) <==> code < 32 || code == 127)
            &&& 128 <= code < 256 ==> (char_is_whitespace(c) <==> code == 133 || code == 160)
            &&& 128 <= code < 256 ==> (char_is_control(c) <==> code < 160)
            &&& code >= 256 ==> !char_is_control(c)
            &&& code >= 256 ==> (char_is_whitespace(c) <==> code == 5_760 || 8_192 <= code <= 8_202
                || code == 8_232 || code == 8_233 || code == 8_239 || code == 8_287 || code
                == 12_288)
        }),
{
}

} // verus!
