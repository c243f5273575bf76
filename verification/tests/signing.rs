use tencentcloud_hunyuan_sdk::signing::{hmac_sha256, hmac_sha256_hex, sha256_hex, DIGEST_LEN};
use tencentcloud_hunyuan_sdk::tc3::{
    canonical_request, credential_scope, derive_signature, sign, string_to_sign, MAX_TIMESTAMP,
    MIN_TIMESTAMP, YEAR_ZERO_TIMESTAMP,
};
use tencentcloud_hunyuan_sdk::text::{i64_to_decimal, mask, str_eq, u64_to_decimal};

const HEADERS: &str =
    "content-type:application/json; charset=utf-8\nhost:hunyuan.tencentcloudapi.com\n";

fn sign_fields(fields: [&str; 6], timestamp: i64, secret_key: &str) -> (String, String) {
    let request = canonical_request(
        fields[0], fields[1], fields[2], fields[3], fields[4], fields[5],
    );
    sign(secret_key, &request, timestamp)
}

fn is_digit_at(text: &str, at: usize) -> bool {
    text.as_bytes()[at].is_ascii_digit()
}

#[test]
fn test_sha256_hex_known_answers() {
    assert_eq!(
        sha256_hex(""),
        "e3b0c44298fc1c149afbf4c8996fb92427ae41e4649b934ca495991b7852b855"
    );
    assert_eq!(
        sha256_hex("abc"),
        "ba7816bf8f01cfea414140de5dae2223b00361a396177a9cb410ff61f20015ad"
    );
    assert_eq!(
        sha256_hex("{\"Model\":\"hunyuan-lite\"}"),
        "20d0700e22cdd27310b5d810d9274673ec2280e446cc39764ca3f1e0dd97ba2e"
    );
}

#[test]
fn test_hmac_sha256_known_answer() {
    let tag = hmac_sha256(b"key", "The quick brown fox jumps over the lazy dog");
    assert_eq!(tag.len(), DIGEST_LEN);
    assert_eq!(
        hex::encode(&tag),
        "f7bc83f430538424b13298e6aa6fb143ef4d59a14946175997479dbc2d1a3cd8"
    );
    assert_eq!(
        hmac_sha256_hex(b"key", "The quick brown fox jumps over the lazy dog"),
        "f7bc83f430538424b13298e6aa6fb143ef4d59a14946175997479dbc2d1a3cd8"
    );
}

#[test]
fn test_hmac_sha256_takes_keys_of_any_length() {
    assert_eq!(hmac_sha256(b"", "m").len(), 32);
    assert_eq!(hmac_sha256(&[7u8; 64], "m").len(), 32);
    assert_eq!(hmac_sha256(&[7u8; 200], "m").len(), 32);
    assert_ne!(hmac_sha256(&[7u8; 64], "m"), hmac_sha256(&[7u8; 65], "m"));
    assert_eq!(hmac_sha256_hex(&[7u8; 200], "m").len(), 64);
}

#[test]
fn test_hex_text_is_lowercase_and_not_the_input() {
    let hex = sha256_hex("abc");
    assert_eq!(hex.len(), 64);
    assert!(hex.bytes().all(|b| b.is_ascii_digit() || (b'a'..=b'f').contains(&b)));
    assert_ne!(hex, "abc");
}

#[test]
fn test_decimal_text() {
    assert_eq!(u64_to_decimal(0), "0");
    assert_eq!(u64_to_decimal(9), "9");
    assert_eq!(u64_to_decimal(10), "10");
    assert_eq!(u64_to_decimal(500), "500");
    assert_eq!(u64_to_decimal(u64::MAX), "18446744073709551615");
    assert_eq!(i64_to_decimal(0), "0");
    assert_eq!(i64_to_decimal(-1), "-1");
    assert_eq!(i64_to_decimal(1551113065), "1551113065");
    assert_eq!(i64_to_decimal(i64::MAX), "9223372036854775807");
    assert_eq!(i64_to_decimal(i64::MIN), "-9223372036854775808");
}

#[test]
fn test_str_eq() {
    assert!(str_eq("", ""));
    assert!(str_eq("on", "on"));
    assert!(!str_eq("on", "ON"));
    assert!(!str_eq("on", "on "));
}

#[test]
fn test_canonical_request_joins_fields_with_newlines() {
    assert_eq!(
        canonical_request("POST", "/", "", HEADERS, "content-type;host", "abc123"),
        "POST\n/\n\ncontent-type:application/json; charset=utf-8\nhost:hunyuan.tencentcloudapi.com\n\ncontent-type;host\nabc123"
    );
    assert_eq!(canonical_request("", "", "", "", "", ""), "\n\n\n\n\n");
}

#[test]
fn test_credential_scope_of_date() {
    assert_eq!(credential_scope("2019-02-25"), "2019-02-25/hunyuan/tc3_request");
}

#[test]
fn test_string_to_sign_text() {
    assert_eq!(
        string_to_sign(1551113065, "2019-02-25/hunyuan/tc3_request", "deadbeef"),
        "TC3-HMAC-SHA256\n1551113065\n2019-02-25/hunyuan/tc3_request\ndeadbeef"
    );
}

#[test]
fn test_derive_signature_follows_the_key_chain() {
    let secret_date = hmac_sha256(b"TC3test_key", "2019-02-25");
    let secret_service = hmac_sha256(&secret_date, "hunyuan");
    let secret_signing = hmac_sha256(&secret_service, "tc3_request");
    assert_eq!(
        derive_signature("test_key", "2019-02-25", "text"),
        hmac_sha256_hex(&secret_signing, "text")
    );
}

#[test]
fn test_sign_known_answers() {
    let (signature, scope) = sign_fields(
        ["POST", "/", "", HEADERS, "content-type;host", "test_payload_hash"],
        1551113065,
        "test_key",
    );
    assert_eq!(
        signature,
        "026aabe9285324e386a455fe06dcd45d744e3a341876dbf7740c2f58152cde57"
    );
    assert_eq!(scope, "2019-02-25/hunyuan/tc3_request");

    let (signature, scope) = sign_fields(["GET", "/a", "b=c", "h:v\n", "h", "p"], 0, "k");
    assert_eq!(
        signature,
        "4d9ec73b74d164cde070012d3d53089f0b7f59e89cf2dc0ba930bae5769769d6"
    );
    assert_eq!(scope, "1970-01-01/hunyuan/tc3_request");
}

#[test]
fn test_sign_is_deterministic() {
    let fields = ["POST", "/", "", HEADERS, "content-type;host", "test_payload_hash"];
    let first = sign_fields(fields, 1700000000, "secret");
    let second = sign_fields(fields, 1700000000, "secret");
    assert_eq!(first, second);
}

#[test]
fn test_sign_accepts_secret_keys_of_any_length() {
    let fields = ["POST", "/", "", HEADERS, "content-type;host", "p"];
    let empty = sign_fields(fields, 1700000000, "");
    let long = sign_fields(fields, 1700000000, &"k".repeat(300));
    assert_eq!(empty.0.len(), 64);
    assert_eq!(long.0.len(), 64);
    assert_ne!(empty.0, long.0);
    assert_eq!(empty.1, long.1);
}

#[test]
fn test_signature_changes_with_each_field() {
    let base = ["POST", "/", "", HEADERS, "content-type;host", "test_payload_hash"];
    let (signature, scope) = sign_fields(base, 1551113065, "test_key");
    for field in 0..6 {
        let changed = format!("{}x", base[field]);
        let mut fields = base;
        fields[field] = &changed;
        let (other, other_scope) = sign_fields(fields, 1551113065, "test_key");
        assert_ne!(other, signature, "field {field}");
        assert_eq!(other_scope, scope);
    }
    let (other, _) = sign_fields(base, 1551113065, "test_kez");
    assert_ne!(other, signature);
    let (other, other_scope) = sign_fields(base, 1551113066, "test_key");
    assert_ne!(other, signature);
    assert_eq!(other_scope, scope);
}

#[test]
fn test_credential_scope_uses_the_date_of_the_timestamp() {
    let fields = ["POST", "/", "", HEADERS, "content-type;host", "p"];
    assert_eq!(sign_fields(fields, 86399, "k").1, "1970-01-01/hunyuan/tc3_request");
    assert_eq!(sign_fields(fields, 86400, "k").1, "1970-01-02/hunyuan/tc3_request");
    assert_eq!(sign_fields(fields, -1, "k").1, "1969-12-31/hunyuan/tc3_request");
    assert_eq!(sign_fields(fields, 951782400, "k").1, "2000-02-29/hunyuan/tc3_request");
    assert_eq!(
        sign_fields(fields, MAX_TIMESTAMP, "k").1,
        "9999-12-31/hunyuan/tc3_request"
    );
    assert_eq!(
        sign_fields(fields, YEAR_ZERO_TIMESTAMP, "k").1,
        "0000-01-01/hunyuan/tc3_request"
    );
}

#[test]
fn test_credential_scope_has_the_form_of_a_date_and_a_suffix() {
    let fields = ["POST", "/", "", HEADERS, "content-type;host", "p"];
    for timestamp in [YEAR_ZERO_TIMESTAMP, 0, 1551113065, 4102444800, MAX_TIMESTAMP] {
        let scope = sign_fields(fields, timestamp, "k").1;
        assert_eq!(scope.len(), 30);
        for at in [0, 1, 2, 3, 5, 6, 8, 9] {
            assert!(is_digit_at(&scope, at), "{scope}");
        }
        assert_eq!(&scope[4..5], "-");
        assert_eq!(&scope[7..8], "-");
        assert_eq!(&scope[10..], "/hunyuan/tc3_request");
    }
}

#[test]
fn test_credential_scope_before_the_year_zero_has_a_sign() {
    let fields = ["POST", "/", "", HEADERS, "content-type;host", "p"];
    assert_eq!(
        sign_fields(fields, YEAR_ZERO_TIMESTAMP - 1, "k").1,
        "-0001-12-31/hunyuan/tc3_request"
    );
    assert_eq!(
        sign_fields(fields, MIN_TIMESTAMP, "k").1,
        "-9999-01-01/hunyuan/tc3_request"
    );
}

#[test]
fn test_mask() {
    assert_eq!(mask(""), "***");
    assert_eq!(mask("short"), "***");
    assert_eq!(mask("0123456789abcdef"), "***");
    assert_eq!(mask("0123456789abcdefg"), "01234567...9abcdefg");
    assert_eq!(
        mask("026aabe9285324e386a455fe06dcd45d744e3a341876dbf7740c2f58152cde57"),
        "026aabe9...152cde57"
    );
}

#[test]
fn test_mask_never_splits_a_character() {
    // The eighth byte falls inside the two-byte character.
    assert_eq!(mask("0123456\u{e9}9abcdefghijklmnop"), "***");
    // The cut before the last eight bytes falls inside one.
    assert_eq!(mask("0123456789abcdefgh\u{e9}1234567"), "***");
    // Both cuts fall between characters.
    assert_eq!(mask("012345\u{e9}89abcdefgh\u{e9}123456"), "012345\u{e9}...\u{e9}123456");
}
