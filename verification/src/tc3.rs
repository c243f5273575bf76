//! The TC3-HMAC-SHA256 signing scheme: canonical request, credential scope,
//! string to sign and the layered key derivation.
use crate::signing::{hex_lower, hmac_sha256, hmac_sha256_hex, hmac_sha256_tag,
    lemma_hex_lower_injective, sha256_digest, sha256_hex, sha256_hex_text};
use crate::text::{decimal_text, i64_to_decimal, is_digit};
use vstd::prelude::*;
use vstd::string::*;
use vstd::utf8::{encode_utf8, encode_utf8_decode_utf8};

verus! {

/// The earliest Unix timestamp that has a calendar date here: midnight of
/// 1 January of the year -9999.
pub const MIN_TIMESTAMP: i64 = -377705116800;

/// The latest Unix timestamp that has a calendar date here: the last second
/// of 31 December 9999.
pub const MAX_TIMESTAMP: i64 = 253402300799;

/// Midnight of 1 January of the year 0. From here on a date has a four-digit
/// year without a sign.
pub const YEAR_ZERO_TIMESTAMP: i64 = -62167219200;

/// The UTC calendar date of a Unix timestamp, written year-month-day, as the
/// `time` crate formats it.
pub uninterp spec fn utc_date_text(timestamp: int) -> Seq<char>;

/// True if `s` has the shape `YYYY-MM-DD`: eight digits and two dashes.
pub open spec fn is_date_text(s: Seq<char>) -> bool {
    &&& s.len() == 10
    &&& s[4] == '-'
    &&& s[7] == '-'
    &&& forall|i: int| 0 <= i < 10 && i != 4 && i != 7 ==> is_digit(#[trigger] s[i])
}

/// The shape of the date of a timestamp: `YYYY-MM-DD`, after a minus sign
/// where the year is before the year 0.
pub open spec fn is_utc_date_text(s: Seq<char>, before_year_zero: bool) -> bool {
    if before_year_zero {
        s.len() == 11 && s[0] == '-' && is_date_text(s.subrange(1, 11))
    } else {
        is_date_text(s)
    }
}

/// True if `s` is a date of the shape `YYYY-MM-DD` followed by
/// `/hunyuan/tc3_request`.
pub open spec fn is_scope_text(s: Seq<char>) -> bool {
    &&& s.len() == 30
    &&& is_date_text(s.subrange(0, 10))
    &&& s.subrange(10, 30) == "/hunyuan/tc3_request"@
}

/// The six fields of a request joined by newlines, in signing order.
pub open spec fn canonical_request_text(
    method: Seq<char>,
    uri: Seq<char>,
    query: Seq<char>,
    headers: Seq<char>,
    signed_headers: Seq<char>,
    hashed_payload: Seq<char>,
) -> Seq<char> {
    method + "\n"@ + uri + "\n"@ + query + "\n"@ + headers + "\n"@ + signed_headers + "\n"@
        + hashed_payload
}

/// The scope that binds a signature to a date, the service and the request
/// type.
pub open spec fn credential_scope_text(date: Seq<char>) -> Seq<char> {
    date + "/"@ + "hunyuan"@ + "/tc3_request"@
}

/// The text that is signed: algorithm, timestamp, scope and the hash of the
/// canonical request, one per line.
pub open spec fn string_to_sign_text(
    timestamp: int,
    scope: Seq<char>,
    hashed_request: Seq<char>,
) -> Seq<char> {
    "TC3-HMAC-SHA256\n"@ + decimal_text(timestamp) + "\n"@ + scope + "\n"@ + hashed_request
}

/// The signing key: the secret key, prefixed with `TC3`, taken through the
/// date, the service name and the request type, each tag keying the next.
pub open spec fn signing_key(secret_key: Seq<char>, date: Seq<char>) -> Seq<u8> {
    let secret_date = hmac_sha256_tag(encode_utf8("TC3"@ + secret_key), encode_utf8(date));
    let secret_service = hmac_sha256_tag(secret_date, encode_utf8("hunyuan"@));
    hmac_sha256_tag(secret_service, encode_utf8("tc3_request"@))
}

/// The signature over `string_to_sign`: lowercase hex of its tag under the
/// signing key.
pub open spec fn signature_text(
    secret_key: Seq<char>,
    date: Seq<char>,
    string_to_sign: Seq<char>,
) -> Seq<char> {
    hex_lower(hmac_sha256_tag(signing_key(secret_key, date), encode_utf8(string_to_sign)))
}

/// Formats the UTC date of a Unix timestamp with `OffsetDateTime::format` of
/// the `time` crate, by a description that `parse_borrowed` of the crate has
/// read. Trusted, for the description of a year, a month and a day joined by
/// dashes: the result is the calendar date of the timestamp, written as a
/// four-digit year, a two-digit month and a two-digit day, zero padded,
/// after a minus sign where the year is negative. Timestamps outside the
/// range of the crate are left out.
#[verifier::external_body]
fn utc_date(timestamp: i64, description: &str) -> (date: String)
    requires
        MIN_TIMESTAMP <= timestamp <= MAX_TIMESTAMP,
        description@ == "[year]-[month]-[day]"@,
    ensures
        date@ == utc_date_text(timestamp as int),
        is_utc_date_text(date@, timestamp < YEAR_ZERO_TIMESTAMP),
{
    let items = time::format_description::parse_borrowed::<1>(description)
        .expect("valid format description");
    time::OffsetDateTime::from_unix_timestamp(timestamp)
        .expect("timestamp in range")
        .format(&items)
        .expect("a date can be formatted")
}

/// Joins the fields of a request into the canonical request.
pub fn canonical_request(
    method: &str,
    canonical_uri: &str,
    canonical_querystring: &str,
    canonical_headers: &str,
    signed_headers: &str,
    hashed_payload: &str,
) -> (res: String)
    ensures
        res@ == canonical_request_text(
            method@,
            canonical_uri@,
            canonical_querystring@,
            canonical_headers@,
            signed_headers@,
            hashed_payload@,
        ),
{
    let mut res = String::from_str(method);
    res.append("\n");
    res.append(canonical_uri);
    res.append("\n");
    res.append(canonical_querystring);
    res.append("\n");
    res.append(canonical_headers);
    res.append("\n");
    res.append(signed_headers);
    res.append("\n");
    res.append(hashed_payload);
    res
}

/// The credential scope of a date.
pub fn credential_scope(date: &str) -> (res: String)
    ensures
        res@ == credential_scope_text(date@),
{
    let mut res = String::from_str(date);
    res.append("/");
    res.append("hunyuan");
    res.append("/tc3_request");
    res
}

/// The string to sign for a timestamp, a scope and a hashed canonical
/// request.
pub fn string_to_sign(timestamp: i64, credential_scope: &str, hashed_request: &str) -> (res:
    String)
    ensures
        res@ == string_to_sign_text(timestamp as int, credential_scope@, hashed_request@),
{
    let seconds = i64_to_decimal(timestamp);
    let mut res = String::from_str("TC3-HMAC-SHA256\n");
    res.append(seconds.as_str());
    res.append("\n");
    res.append(credential_scope);
    res.append("\n");
    res.append(hashed_request);
    res
}

/// Derives the signing key from `secret_key` and `date`, and signs
/// `string_to_sign` with it.
pub fn derive_signature(secret_key: &str, date: &str, string_to_sign: &str) -> (res: String)
    ensures
        res@ == signature_text(secret_key@, date@, string_to_sign@),
        res@.len() == 64,
{
    let mut key = String::from_str("TC3");
    key.append(secret_key);
    let secret_date = hmac_sha256(key.as_str().as_bytes(), date);
    let secret_service = hmac_sha256(secret_date.as_slice(), "hunyuan");
    let secret_signing = hmac_sha256(secret_service.as_slice(), "tc3_request");
    hmac_sha256_hex(secret_signing.as_slice(), string_to_sign)
}

/// The credential scope of a date of the shape `YYYY-MM-DD` is that date
/// followed by `/hunyuan/tc3_request`.
pub proof fn lemma_scope_of_date(date: Seq<char>)
    requires
        is_date_text(date),
    ensures
        is_scope_text(credential_scope_text(date)),
        credential_scope_text(date) == date + "/hunyuan/tc3_request"@,
{
    reveal_strlit("/");
    reveal_strlit("hunyuan");
    reveal_strlit("/tc3_request");
    reveal_strlit("/hunyuan/tc3_request");
    let scope = credential_scope_text(date);
    assert("/"@ + "hunyuan"@ + "/tc3_request"@ =~= "/hunyuan/tc3_request"@);
    assert(scope =~= date + "/hunyuan/tc3_request"@);
    assert(scope.subrange(0, 10) =~= date);
    assert(scope.subrange(10, 30) =~= "/hunyuan/tc3_request"@);
}

/// The string to sign of a canonical request at `timestamp`.
pub open spec fn request_string_to_sign(canonical_request: Seq<char>, timestamp: int) -> Seq<
    char,
> {
    string_to_sign_text(
        timestamp,
        credential_scope_text(utc_date_text(timestamp)),
        sha256_hex_text(canonical_request),
    )
}

/// The signature of a request at `timestamp` under `secret_key`.
pub open spec fn tc3_signature_text(
    secret_key: Seq<char>,
    canonical_request: Seq<char>,
    timestamp: int,
) -> Seq<char> {
    signature_text(
        secret_key,
        utc_date_text(timestamp),
        request_string_to_sign(canonical_request, timestamp),
    )
}

/// Signs a canonical request: returns the signature and the credential
/// scope of the timestamp's own UTC date.
pub fn sign(secret_key: &str, canonical_request: &str, timestamp: i64) -> (res: (String, String))
    requires
        MIN_TIMESTAMP <= timestamp <= MAX_TIMESTAMP,
    ensures
        res.0@ == tc3_signature_text(secret_key@, canonical_request@, timestamp as int),
        res.0@.len() == 64,
        res.1@ == credential_scope_text(utc_date_text(timestamp as int)),
        is_utc_date_text(utc_date_text(timestamp as int), timestamp < YEAR_ZERO_TIMESTAMP),
        timestamp >= YEAR_ZERO_TIMESTAMP ==> is_scope_text(res.1@),
{
    let hashed_request = sha256_hex(canonical_request);
    let date = utc_date(timestamp, "[year]-[month]-[day]");
    let scope = credential_scope(date.as_str());
    proof {
        if timestamp >= YEAR_ZERO_TIMESTAMP {
            lemma_scope_of_date(date@);
        }
    }
    let to_sign = string_to_sign(timestamp, scope.as_str(), hashed_request.as_str());
    let signature = derive_signature(secret_key, date.as_str(), to_sign.as_str());
    (signature, scope)
}

/// Signing is a function of its inputs: the same secret key, the same six
/// fields of the request and the same timestamp give the same signature and
/// the same credential scope.
pub proof fn lemma_sign_deterministic(
    secret_key: (Seq<char>, Seq<char>),
    method: (Seq<char>, Seq<char>),
    uri: (Seq<char>, Seq<char>),
    query: (Seq<char>, Seq<char>),
    headers: (Seq<char>, Seq<char>),
    signed_headers: (Seq<char>, Seq<char>),
    hashed_payload: (Seq<char>, Seq<char>),
    timestamp: (int, int),
)
    requires
        secret_key.0 == secret_key.1,
        method.0 == method.1,
        uri.0 == uri.1,
        query.0 == query.1,
        headers.0 == headers.1,
        signed_headers.0 == signed_headers.1,
        hashed_payload.0 == hashed_payload.1,
        timestamp.0 == timestamp.1,
    ensures
        tc3_signature_text(
            secret_key.0,
            canonical_request_text(
                method.0,
                uri.0,
                query.0,
                headers.0,
                signed_headers.0,
                hashed_payload.0,
            ),
            timestamp.0,
        ) == tc3_signature_text(
            secret_key.1,
            canonical_request_text(
                method.1,
                uri.1,
                query.1,
                headers.1,
                signed_headers.1,
                hashed_payload.1,
            ),
            timestamp.1,
        ),
        credential_scope_text(utc_date_text(timestamp.0)) == credential_scope_text(
            utc_date_text(timestamp.1),
        ),
{
}

/// Two texts that are equal after the same text is put before them and the
/// same text behind them are equal.
pub proof fn lemma_concat_cancel(before: Seq<char>, a: Seq<char>, b: Seq<char>, after: Seq<char>)
    requires
        before + a + after == before + b + after,
    ensures
        a == b,
{
    let left = before + a + after;
    let right = before + b + after;
    assert(left.len() == before.len() + a.len() + after.len());
    assert(right.len() == before.len() + b.len() + after.len());
    assert(left.len() == right.len());
    assert(a.len() == b.len());
    assert forall|i: int| 0 <= i < a.len() implies a[i] == b[i] by {
        assert(left[before.len() + i] == a[i]);
        assert(right[before.len() + i] == b[i]);
    }
    assert(a =~= b);
}

/// The canonical request tells a change of one field: two requests that
/// agree in five fields and have the same canonical request agree in the
/// sixth too.
pub proof fn lemma_canonical_request_field(a: Seq<Seq<char>>, b: Seq<Seq<char>>, field: int)
    requires
        a.len() == 6,
        b.len() == 6,
        0 <= field < 6,
        forall|i: int| 0 <= i < 6 && i != field ==> a[i] == b[i],
        canonical_request_text(a[0], a[1], a[2], a[3], a[4], a[5]) == canonical_request_text(
            b[0],
            b[1],
            b[2],
            b[3],
            b[4],
            b[5],
        ),
    ensures
        a[field] == b[field],
{
    let nl = "\n"@;
    let ca = canonical_request_text(a[0], a[1], a[2], a[3], a[4], a[5]);
    let cb = canonical_request_text(b[0], b[1], b[2], b[3], b[4], b[5]);
    let empty = Seq::<char>::empty();
    if field == 0 {
        let after = nl + a[1] + nl + a[2] + nl + a[3] + nl + a[4] + nl + a[5];
        assert(ca =~= empty + a[0] + after);
        assert(cb =~= empty + b[0] + after);
        lemma_concat_cancel(empty, a[0], b[0], after);
    } else if field == 1 {
        let before = a[0] + nl;
        let after = nl + a[2] + nl + a[3] + nl + a[4] + nl + a[5];
        assert(ca =~= before + a[1] + after);
        assert(cb =~= before + b[1] + after);
        lemma_concat_cancel(before, a[1], b[1], after);
    } else if field == 2 {
        let before = a[0] + nl + a[1] + nl;
        let after = nl + a[3] + nl + a[4] + nl + a[5];
        assert(ca =~= before + a[2] + after);
        assert(cb =~= before + b[2] + after);
        lemma_concat_cancel(before, a[2], b[2], after);
    } else if field == 3 {
        let before = a[0] + nl + a[1] + nl + a[2] + nl;
        let after = nl + a[4] + nl + a[5];
        assert(ca =~= before + a[3] + after);
        assert(cb =~= before + b[3] + after);
        lemma_concat_cancel(before, a[3], b[3], after);
    } else if field == 4 {
        let before = a[0] + nl + a[1] + nl + a[2] + nl + a[3] + nl;
        let after = nl + a[5];
        assert(ca =~= before + a[4] + after);
        assert(cb =~= before + b[4] + after);
        lemma_concat_cancel(before, a[4], b[4], after);
    } else {
        let before = a[0] + nl + a[1] + nl + a[2] + nl + a[3] + nl + a[4] + nl;
        assert(ca =~= before + a[5] + empty);
        assert(cb =~= before + b[5] + empty);
        lemma_concat_cancel(before, a[5], b[5], empty);
    }
}

/// True if two different byte strings have the same SHA-256 digest.
pub open spec fn sha256_collides(a: Seq<u8>, b: Seq<u8>) -> bool {
    a != b && sha256_digest(a) == sha256_digest(b)
}

/// True if two different messages have the same HMAC-SHA256 tag under
/// `key`.
pub open spec fn hmac_sha256_collides(key: Seq<u8>, a: Seq<u8>, b: Seq<u8>) -> bool {
    a != b && hmac_sha256_tag(key, a) == hmac_sha256_tag(key, b)
}

/// A changed canonical request keeps its signature only through a
/// collision. Where two different canonical requests have the same
/// signature under one secret key at one timestamp, either the two requests
/// have the same SHA-256 digest, or their two strings to sign differ and
/// have the same HMAC-SHA256 tag under the signing key.
pub proof fn lemma_same_signature_is_collision(
    secret_key: Seq<char>,
    request_a: Seq<char>,
    request_b: Seq<char>,
    timestamp: int,
)
    requires
        request_a != request_b,
        tc3_signature_text(secret_key, request_a, timestamp) == tc3_signature_text(
            secret_key,
            request_b,
            timestamp,
        ),
    ensures
        sha256_collides(encode_utf8(request_a), encode_utf8(request_b)) || hmac_sha256_collides(
            signing_key(secret_key, utc_date_text(timestamp)),
            encode_utf8(request_string_to_sign(request_a, timestamp)),
            encode_utf8(request_string_to_sign(request_b, timestamp)),
        ),
{
    let bytes_a = encode_utf8(request_a);
    let bytes_b = encode_utf8(request_b);
    assert(bytes_a != bytes_b) by {
        encode_utf8_decode_utf8(request_a);
        encode_utf8_decode_utf8(request_b);
    }
    if sha256_digest(bytes_a) != sha256_digest(bytes_b) {
        let hashed_a = sha256_hex_text(request_a);
        let hashed_b = sha256_hex_text(request_b);
        assert(hashed_a != hashed_b) by {
            if hashed_a == hashed_b {
                lemma_hex_lower_injective(sha256_digest(bytes_a), sha256_digest(bytes_b));
            }
        }
        let to_sign_a = request_string_to_sign(request_a, timestamp);
        let to_sign_b = request_string_to_sign(request_b, timestamp);
        let before = "TC3-HMAC-SHA256\n"@ + decimal_text(timestamp) + "\n"@ + credential_scope_text(
            utc_date_text(timestamp),
        ) + "\n"@;
        let empty = Seq::<char>::empty();
        assert(to_sign_a =~= before + hashed_a + empty);
        assert(to_sign_b =~= before + hashed_b + empty);
        assert(to_sign_a != to_sign_b) by {
            if to_sign_a == to_sign_b {
                lemma_concat_cancel(before, hashed_a, hashed_b, empty);
            }
        }
        assert(encode_utf8(to_sign_a) != encode_utf8(to_sign_b)) by {
            encode_utf8_decode_utf8(to_sign_a);
            encode_utf8_decode_utf8(to_sign_b);
        }
        let key = signing_key(secret_key, utc_date_text(timestamp));
        lemma_hex_lower_injective(
            hmac_sha256_tag(key, encode_utf8(to_sign_a)),
            hmac_sha256_tag(key, encode_utf8(to_sign_b)),
        );
    }
}

} // verus!
