//! Decimal text of integers, as it appears in headers and in the string to
//! sign.
use vstd::prelude::*;
use vstd::string::*;
use vstd::utf8::{decode_utf8, encode_utf8, encode_utf8_decode_utf8, encode_utf8_valid_utf8,
    is_ascii_chars, is_ascii_chars_encode_utf8, is_char_boundary,
    is_char_boundary_iff_not_is_continuation_byte};

verus! {

/// The character of a decimal digit in `0..10`.
pub open spec fn digit_char(d: int) -> char {
    seq!['0', '1', '2', '3', '4', '5', '6', '7', '8', '9'][d]
}

/// Decimal digits of a natural number, most significant first, without
/// leading zeros (`0` is "0").
pub open spec fn decimal_digits(n: nat) -> Seq<char>
    decreases n,
{
    if n < 10 {
        seq![digit_char(n as int)]
    } else {
        decimal_digits(n / 10).push(digit_char((n % 10) as int))
    }
}

/// Decimal text of an integer: a minus sign for a negative number, then the
/// digits of its magnitude.
pub open spec fn decimal_text(n: int) -> Seq<char> {
    if n < 0 {
        seq!['-'] + decimal_digits((-n) as nat)
    } else {
        decimal_digits(n as nat)
    }
}

/// True if `c` is one of `'0'..='9'`.
pub open spec fn is_digit(c: char) -> bool {
    c == '0' || c == '1' || c == '2' || c == '3' || c == '4' || c == '5' || c == '6' || c == '7'
        || c == '8' || c == '9'
}

fn digit_str(d: u64) -> (s: &'static str)
    requires
        d < 10,
    ensures
        s@ == seq![digit_char(d as int)],
{
    proof {
        reveal_strlit("0");
        reveal_strlit("1");
        reveal_strlit("2");
        reveal_strlit("3");
        reveal_strlit("4");
        reveal_strlit("5");
        reveal_strlit("6");
        reveal_strlit("7");
        reveal_strlit("8");
        reveal_strlit("9");
    }
    let s = match d {
        0 => "0",
        1 => "1",
        2 => "2",
        3 => "3",
        4 => "4",
        5 => "5",
        6 => "6",
        7 => "7",
        8 => "8",
        _ => "9",
    };
    assert(s@ =~= seq![digit_char(d as int)]);
    s
}

/// Decimal text of an unsigned number.
pub fn u64_to_decimal(n: u64) -> (res: String)
    ensures
        res@ == decimal_digits(n as nat),
{
    let mut acc: String = String::from_str(digit_str(n % 10));
    let mut rest: u64 = n / 10;
    while rest > 0
        invariant
            rest > 0 ==> decimal_digits(n as nat) == decimal_digits(rest as nat) + acc@,
            rest == 0 ==> decimal_digits(n as nat) == acc@,
        decreases rest,
    {
        let ghost old_acc = acc@;
        let mut next: String = String::from_str(digit_str(rest % 10));
        next.append(acc.as_str());
        acc = next;
        proof {
            let d = digit_char((rest % 10) as int);
            assert(acc@ == seq![d] + old_acc);
            if rest < 10 {
                assert(decimal_digits(rest as nat) == seq![d]);
            } else {
                assert(decimal_digits(rest as nat) == decimal_digits((rest / 10) as nat).push(d));
                assert(decimal_digits((rest / 10) as nat).push(d) + old_acc
                    =~= decimal_digits((rest / 10) as nat) + (seq![d] + old_acc));
            }
        }
        rest = rest / 10;
    }
    acc
}

/// Decimal text of a signed number.
pub fn i64_to_decimal(n: i64) -> (res: String)
    ensures
        res@ == decimal_text(n as int),
{
    if n < 0 {
        let magnitude: u64 = ((-(n + 1)) as u64) + 1;
        let digits = u64_to_decimal(magnitude);
        proof {
            reveal_strlit("-");
            assert("-"@ =~= seq!['-']);
        }
        String::from_str("-").concat(digits.as_str())
    } else {
        u64_to_decimal(n as u64)
    }
}

/// True if the two texts are the same.
pub fn str_eq(a: &str, b: &str) -> (res: bool)
    ensures
        res == (a@ == b@),
{
    String::from_str(a) == String::from_str(b)
}

/// A sensitive text as it may be shown: its first eight and its last eight
/// bytes with `...` between them. A text of sixteen bytes or fewer, or one
/// that cannot be cut at those places without splitting a character, is
/// shown as `***`.
pub open spec fn mask_text(v: Seq<char>) -> Seq<char> {
    let bytes = encode_utf8(v);
    let n = bytes.len() as int;
    if n > 16 && is_char_boundary(bytes, 8) && is_char_boundary(bytes, n - 8) {
        decode_utf8(bytes.subrange(0, 8)) + "..."@ + decode_utf8(bytes.subrange(n - 8, n))
    } else {
        "***"@
    }
}

/// Masks a sensitive text for diagnostics.
pub fn mask(v: &str) -> (res: String)
    ensures
        res@ == mask_text(v@),
{
    let n = v.as_bytes().len();
    if n <= 16 {
        return String::from_str("***");
    }
    if !v.is_char_boundary(8) || !v.is_char_boundary(n - 8) {
        return String::from_str("***");
    }
    let (head, _) = v.split_at(8);
    let (_, tail) = v.split_at(n - 8);
    proof {
        encode_utf8_decode_utf8(head@);
        encode_utf8_decode_utf8(tail@);
    }
    let mut res = String::from_str(head);
    res.append("...");
    res.append(tail);
    res
}

/// An ASCII text of more than sixteen characters is shown as its first eight
/// and its last eight characters with `...` between them, a shorter one as
/// `***`.
pub proof fn lemma_mask_ascii(v: Seq<char>)
    requires
        is_ascii_chars(v),
    ensures
        mask_text(v) == if v.len() > 16 {
            v.subrange(0, 8) + "..."@ + v.subrange(v.len() - 8, v.len() as int)
        } else {
            "***"@
        },
{
    let bytes = encode_utf8(v);
    let n = v.len() as int;
    encode_utf8_valid_utf8(v);
    is_ascii_chars_encode_utf8(v);
    if n > 16 {
        let head = v.subrange(0, 8);
        let tail = v.subrange(n - 8, n);
        assert(bytes[8] == v[8] as u8);
        assert(bytes[n - 8] == v[n - 8] as u8);
        is_char_boundary_iff_not_is_continuation_byte(bytes, 8);
        is_char_boundary_iff_not_is_continuation_byte(bytes, n - 8);
        is_ascii_chars_encode_utf8(head);
        is_ascii_chars_encode_utf8(tail);
        assert forall|i: int| 0 <= i < 8 implies encode_utf8(head)[i] == bytes.subrange(
            0,
            8,
        )[i] by {
            assert(head[i] == v[i]);
        }
        assert forall|i: int| 0 <= i < 8 implies encode_utf8(tail)[i] == bytes.subrange(
            n - 8,
            n,
        )[i] by {
            assert(tail[i] == v[n - 8 + i]);
        }
        assert(encode_utf8(head) =~= bytes.subrange(0, 8));
        assert(encode_utf8(tail) =~= bytes.subrange(n - 8, n));
        encode_utf8_decode_utf8(head);
        encode_utf8_decode_utf8(tail);
    }
}

/// The UTF-8 bytes of two texts joined are the bytes of the first followed
/// by the bytes of the second.
pub proof fn lemma_utf8_concat(a: Seq<char>, b: Seq<char>)
    ensures
        encode_utf8(a + b) == encode_utf8(a) + encode_utf8(b),
    decreases a.len(),
{
    if a.len() == 0 {
        assert(a + b =~= b);
        assert(encode_utf8(a) =~= Seq::<u8>::empty());
        assert(encode_utf8(a) + encode_utf8(b) =~= encode_utf8(b));
    } else {
        assert((a + b).drop_first() =~= a.drop_first() + b);
        lemma_utf8_concat(a.drop_first(), b);
        assert((a + b)[0] == a[0]);
        assert(encode_utf8(a + b) =~= encode_utf8(a) + encode_utf8(b));
    }
}

} // verus!
