//! The header map of a request, kept in `reqwest`'s `HeaderMap`.
use reqwest::header::{HeaderMap, HeaderValue};
use crate::signing::{hex_digit, hex_lower};
use crate::text::{decimal_digits, decimal_text, digit_char};
use vstd::prelude::*;
use vstd::string::*;
use vstd::utf8::encode_utf8;

verus! {

#[verifier::external_type_specification]
#[verifier::external_body]
#[verifier::reject_recursive_types(T)]
pub struct ExHeaderMap<T>(HeaderMap<T>);

#[verifier::external_type_specification]
#[verifier::external_body]
pub struct ExHeaderValue(HeaderValue);

/// What a header map holds: for each header name in it, in lower case, the
/// bytes of the value that `get` returns for that name.
pub uninterp spec fn header_entries(headers: HeaderMap<HeaderValue>) -> Map<Seq<char>, Seq<u8>>;

/// A map may hold this many names before `insert_header` is called on it:
/// far below the 32768 entries at which `HeaderMap::insert` panics.
pub const MAX_HEADERS: usize = 1024;

/// Characters of an HTTP token: letters, digits and a few signs.
pub open spec fn is_token_char(c: char) -> bool {
    let n = c as u32;
    ||| 0x30 <= n <= 0x39
    ||| 0x41 <= n <= 0x5a
    ||| 0x61 <= n <= 0x7a
    ||| c == '!' || c == '#' || c == '$' || c == '%' || c == '&' || c == '\'' || c == '*'
    ||| c == '+' || c == '-' || c == '.' || c == '^' || c == '_' || c == '`' || c == '|'
    ||| c == '~'
}

/// A header name that `HeaderMap::insert` accepts: one to 64 token
/// characters.
pub open spec fn is_header_name(name: Seq<char>) -> bool {
    &&& 1 <= name.len() <= 64
    &&& forall|i: int| 0 <= i < name.len() ==> is_token_char(#[trigger] name[i])
}

/// An ASCII capital letter as its small letter, any other character as it
/// is.
pub open spec fn ascii_lower_char(c: char) -> char {
    if 0x41 <= c as u32 <= 0x5a {
        ((c as u32 + 0x20) as u32) as char
    } else {
        c
    }
}

/// A text with its ASCII capital letters made small.
pub open spec fn ascii_lower(s: Seq<char>) -> Seq<char> {
    Seq::new(s.len(), |i: int| ascii_lower_char(s[i]))
}

/// A character that may stand in a header value: a tab, or anything that is
/// neither an ASCII control character nor DEL.
pub open spec fn is_header_value_char(c: char) -> bool {
    c == '\t' || (c as u32 >= 0x20 && c as u32 != 0x7f)
}

/// A text that `HeaderValue::from_str` accepts.
pub open spec fn is_header_value_text(text: Seq<char>) -> bool {
    forall|i: int| 0 <= i < text.len() ==> is_header_value_char(#[trigger] text[i])
}

/// The entries of a map that holds nothing.
pub open spec fn no_headers() -> Map<Seq<char>, Seq<u8>> {
    Map::empty()
}

/// Calls `HeaderMap::new`. Trusted: the new map holds nothing.
#[verifier::external_body]
pub(crate) fn empty_headers() -> (headers: HeaderMap<HeaderValue>)
    ensures
        header_entries(headers) == no_headers(),
{
    HeaderMap::new()
}

/// Calls `HeaderMap::insert` with the value that `HeaderValue::from_str`
/// makes of `value`. Trusted: afterwards the name, in lower case, has the
/// UTF-8 bytes of `value` as its only value, and every other name keeps what
/// it had. A name or a value that the two calls refuse is left out, and so is
/// a map near the size at which `insert` panics.
#[verifier::external_body]
pub(crate) fn insert_header(headers: &mut HeaderMap<HeaderValue>, name: &'static str, value: &str)
    requires
        is_header_name(name@),
        is_header_value_text(value@),
        header_entries(*old(headers)).dom().finite(),
        header_entries(*old(headers)).dom().len() < MAX_HEADERS,
    ensures
        header_entries(*final(headers)) == header_entries(*old(headers)).insert(
            ascii_lower(name@),
            encode_utf8(value@),
        ),
{
    headers.insert(name, HeaderValue::from_str(value).expect("valid header value"));
}

/// True if `text` may stand in a header value.
pub fn is_valid_header_value(text: &str) -> (res: bool)
    ensures
        res == is_header_value_text(text@),
{
    let n = text.unicode_len();
    let mut i: usize = 0;
    while i < n
        invariant
            i <= n,
            n == text@.len(),
            forall|j: int| 0 <= j < i ==> is_header_value_char(#[trigger] text@[j]),
        decreases n - i,
    {
        let c = text.get_char(i);
        if !(c == '\t' || (c as u32 >= 0x20 && c as u32 != 0x7f)) {
            return false;
        }
        i += 1;
    }
    true
}

/// Two texts that may stand in a header value may do so joined.
pub proof fn lemma_value_text_concat(a: Seq<char>, b: Seq<char>)
    requires
        is_header_value_text(a),
        is_header_value_text(b),
    ensures
        is_header_value_text(a + b),
{
    assert forall|i: int| 0 <= i < (a + b).len() implies is_header_value_char(
        #[trigger] (a + b)[i],
    ) by {
        if i < a.len() {
            assert((a + b)[i] == a[i]);
        } else {
            assert((a + b)[i] == b[i - a.len()]);
        }
    }
}

/// The decimal digits of a number may stand in a header value.
pub proof fn lemma_digits_are_value_text(n: nat)
    ensures
        is_header_value_text(decimal_digits(n)),
    decreases n,
{
    if n >= 10 {
        lemma_digits_are_value_text(n / 10);
        assert(is_header_value_char(digit_char((n % 10) as int)));
        assert(is_header_value_text(seq![digit_char((n % 10) as int)]));
        lemma_value_text_concat(decimal_digits(n / 10), seq![digit_char((n % 10) as int)]);
        assert(decimal_digits(n) =~= decimal_digits(n / 10) + seq![digit_char((n % 10) as int)]);
    } else {
        assert(is_header_value_char(digit_char(n as int)));
    }
}

/// The decimal text of a number may stand in a header value.
pub proof fn lemma_decimal_is_value_text(n: int)
    ensures
        is_header_value_text(decimal_text(n)),
{
    if n < 0 {
        lemma_digits_are_value_text((-n) as nat);
        assert(is_header_value_text(seq!['-']));
        lemma_value_text_concat(seq!['-'], decimal_digits((-n) as nat));
    } else {
        lemma_digits_are_value_text(n as nat);
    }
}

/// Hexadecimal text may stand in a header value.
pub proof fn lemma_hex_is_value_text(bytes: Seq<u8>)
    ensures
        is_header_value_text(hex_lower(bytes)),
{
    assert forall|i: int| 0 <= i < hex_lower(bytes).len() implies is_header_value_char(
        #[trigger] hex_lower(bytes)[i],
    ) by {
        let b = bytes[i / 2] as int;
        assert(0 <= b / 16 < 16);
        assert(0 <= b % 16 < 16);
        assert(forall|d: int| 0 <= d < 16 ==> is_header_value_char(#[trigger] hex_digit(d)));
    }
}

} // verus!
