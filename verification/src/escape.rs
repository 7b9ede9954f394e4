//! Percent-encoding of the search word, which is left to the Tera template
//! engine. What is trusted of Tera rather than proved stands in this file.

use vstd::prelude::*;
use vstd::utf8::{encode_utf8, is_ascii_chars_encode_utf8};

verus! {

/// What the engine reports when it cannot render. Opaque to the verifier.
#[verifier::external_type_specification]
#[verifier::external_body]
pub struct ExError(tera::Error);

/// The variable that stands for the search word.
pub const WORD: &'static str = "word";

/// The expression that the engine is asked to render: the word, piped
/// through its filter `urlencode`.
pub const ENCODED_WORD: &'static str = "{{ word | urlencode }}";

/// Whether percent-encoding writes a byte as it is: the letters and digits
/// of ASCII, and `-`, `.`, `_`, `~`, `/` and `%`.
pub open spec fn is_kept(byte: u8) -> bool {
    ||| 'a' as u8 <= byte <= 'z' as u8
    ||| 'A' as u8 <= byte <= 'Z' as u8
    ||| '0' as u8 <= byte <= '9' as u8
    ||| byte == '-' as u8
    ||| byte == '.' as u8
    ||| byte == '_' as u8
    ||| byte == '~' as u8
    ||| byte == '/' as u8
    ||| byte == '%' as u8
}

/// The digit of base sixteen for a number below sixteen, in upper case.
pub open spec fn hex_digit(n: int) -> char {
    if n < 10 {
        (('0' as u8 + n) as u8) as char
    } else {
        (('A' as u8 + n - 10) as u8) as char
    }
}

/// The percent-encoding of one byte: the byte itself where it is kept, else
/// `%` and its two digits of base sixteen.
pub open spec fn encoded_byte(byte: u8) -> Seq<char> {
    if is_kept(byte) {
        seq![byte as char]
    } else {
        seq!['%', hex_digit(byte as int / 16), hex_digit(byte as int % 16)]
    }
}

/// The percent-encodings of `bytes`, one after the other.
pub open spec fn encoded_bytes(bytes: Seq<u8>) -> Seq<char>
    decreases bytes.len(),
{
    if bytes.len() == 0 {
        Seq::empty()
    } else {
        encoded_byte(bytes.first()) + encoded_bytes(bytes.drop_first())
    }
}

/// The percent-encoding of `word`: that of the bytes of its UTF-8 form.
pub open spec fn percent_encoded(word: Seq<char>) -> Seq<char> {
    encoded_bytes(encode_utf8(word))
}

/// `Tera::one_off`, on a context that `Context::new` and `Context::insert`
/// make of `key` and `value`.
///
/// Only [`ENCODED_WORD`] is admitted as the template, with [`WORD`] as the
/// variable and without HTML escaping. Other templates can make Tera panic
/// (its filter `date` does on a number out of range) or read the clock, the
/// environment or a random source (its functions `now`, `get_env`,
/// `get_random`). The admitted one parses, finds its variable in the context
/// and hands the string to the filter `urlencode`, which is registered under
/// Tera's default features. The filter percent-encodes the bytes that are not
/// ASCII and those of ASCII that its set names: the control characters, the
/// space and the punctuation other than `-`, `.`, `_`, `~`, `/` and `%`. No
/// step of this fails for a string, so the contract claims that Tera returns
/// a text, and that the text is that encoding.
#[verifier::external_body]
fn render_once(template: &str, key: &str, value: &str, autoescape: bool) -> (text: Result<
    String,
    tera::Error,
>)
    requires
        template@ == ENCODED_WORD@,
        key@ == WORD@,
        !autoescape,
    ensures
        text is Ok,
        text matches Ok(t) ==> t@ == percent_encoded(value@),
{
    let mut context = tera::Context::new();
    context.insert(key, value);
    tera::Tera::one_off(template, &context, autoescape)
}

/// `Display` of a [`tera::Error`]. Nothing is claimed of the text.
#[verifier::external_body]
pub(crate) fn error_text(error: &tera::Error) -> String {
    error.to_string()
}

/// Percent-encodes `word` for use in a URL.
pub fn escape(word: &str) -> (encoded: Result<String, tera::Error>)
    ensures
        encoded matches Ok(text) && text@ == percent_encoded(word@),
{
    render_once(ENCODED_WORD, WORD, word, false)
}

/// A byte is encoded without a space.
proof fn lemma_no_space_in_byte(byte: u8)
    ensures
        forall|i: int| 0 <= i < encoded_byte(byte).len() ==> encoded_byte(byte)[i] != ' ',
{
}

/// Bytes are encoded without a space.
proof fn lemma_no_space_in_bytes(bytes: Seq<u8>)
    ensures
        forall|i: int| 0 <= i < encoded_bytes(bytes).len() ==> encoded_bytes(bytes)[i] != ' ',
    decreases bytes.len(),
{
    if bytes.len() > 0 {
        let head = encoded_byte(bytes.first());
        let tail = encoded_bytes(bytes.drop_first());
        lemma_no_space_in_byte(bytes.first());
        lemma_no_space_in_bytes(bytes.drop_first());
        assert forall|i: int| 0 <= i < (head + tail).len() implies (head + tail)[i] != ' ' by {
            if i >= head.len() {
                assert((head + tail)[i] == tail[i - head.len()]);
            }
        }
    }
}

/// The percent-encoding of a word holds no space.
pub proof fn law_no_space_in_encoding(word: Seq<char>)
    ensures
        !percent_encoded(word).contains(' '),
{
    lemma_no_space_in_bytes(encode_utf8(word));
}

/// A space is encoded as `%20`.
pub proof fn law_space_encoded()
    ensures
        percent_encoded(seq![' ']) == seq!['%', '2', '0'],
{
    let word = seq![' '];
    is_ascii_chars_encode_utf8(word);
    let bytes = encode_utf8(word);
    assert(bytes.len() == 1);
    assert(bytes[0] == word[0] as u8);
    assert(encoded_bytes(bytes.drop_first()) =~= Seq::<char>::empty());
    assert(encoded_bytes(bytes) =~= encoded_byte(0x20u8));
    assert(encoded_byte(0x20u8) =~= seq!['%', '2', '0']);
}

} // verus!
