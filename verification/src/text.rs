use vstd::prelude::*;

verus! {

/// The characters that lossy UTF-8 decoding yields for the given bytes:
/// valid sequences decode to their characters, invalid ones to replacement
/// characters. The decoding is a function of the bytes alone; it is left
/// abstract here and tied to the executable decoder below.
pub uninterp spec fn lossy_utf8(bytes: Seq<u8>) -> Seq<char>;

/// The characters left after removing leading and trailing whitespace.
/// A function of the characters alone; left abstract and tied to the
/// executable trimmer below.
pub uninterp spec fn trimmed(text: Seq<char>) -> Seq<char>;

/// Relies on String::from_utf8_lossy: decodes the bytes as UTF-8, replacing
/// invalid sequences with U+FFFD; no bytes decode to no characters.
#[verifier::external_body]
fn utf8_lossy(bytes: &[u8]) -> (r: String)
    ensures
        r@ == lossy_utf8(bytes@),
        bytes@.len() == 0 ==> r@.len() == 0,
{
    String::from_utf8_lossy(bytes).into_owned()
}

/// Relies on str::trim: returns the input without leading and trailing
/// whitespace, hence never longer than the input.
#[verifier::external_body]
fn trim_text(text: &str) -> (r: String)
    ensures
        r@ == trimmed(text@),
        r@.len() <= text@.len(),
{
    text.trim().to_string()
}

/// One read's bytes become one logical message: decoded as lossy UTF-8 and
/// trimmed of surrounding whitespace, whatever newlines they embed.
pub fn decode_message(bytes: &[u8]) -> (r: String)
    ensures
        r@ == trimmed(lossy_utf8(bytes@)),
        bytes@.len() == 0 ==> r@.len() == 0,
{
    let decoded = utf8_lossy(bytes);
    trim_text(decoded.as_str())
}

} // verus!
