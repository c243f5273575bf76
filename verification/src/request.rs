//! A call on its way out: its headers, its signature and the
//! authorization made of it.
use crate::client::{Client, ClientView};
use crate::headers::{ascii_lower, empty_headers, header_entries, insert_header, is_header_name,
    is_header_value_char, is_header_value_text, is_valid_header_value,
    lemma_decimal_is_value_text, lemma_hex_is_value_text, lemma_value_text_concat, no_headers};
use crate::signing::{hex_lower, hmac_sha256_tag, sha256_hex, sha256_hex_text};
use crate::tc3::{canonical_request, canonical_request_text, credential_scope_text,
    is_scope_text, is_utc_date_text, sign, signing_key, string_to_sign_text, tc3_signature_text,
    utc_date_text, MAX_TIMESTAMP, MIN_TIMESTAMP, YEAR_ZERO_TIMESTAMP};
use crate::text::{decimal_text, i64_to_decimal, is_digit, lemma_utf8_concat, mask, mask_text};
use reqwest::header::{HeaderMap, HeaderValue};
use vstd::prelude::*;
use vstd::string::*;
use vstd::utf8::encode_utf8;

verus! {

impl ClientView {
    /// True if the texts of the client that go into the headers of a call
    /// before it is signed may stand in a header value: the endpoint, the
    /// region name and the session token, if there is one.
    pub open spec fn plain_header_texts_valid(self) -> bool {
        &&& is_header_value_text(self.endpoint)
        &&& is_header_value_text(self.region.name())
        &&& self.credential.token matches Some(token) ==> is_header_value_text(token@)
    }

    /// True if the texts of the client that go into the headers of a signed
    /// call may stand in a header value: those of the call before it is
    /// signed, and the secret id, which the authorization holds.
    pub open spec fn header_texts_valid(self) -> bool {
        &&& self.plain_header_texts_valid()
        &&& is_header_value_text(self.credential.secret_id@)
    }
}

/// The headers of a call before it is signed: host, content type, action,
/// API version, region and timestamp, and the session token where the
/// credential has one. Each name is held in lower case.
pub open spec fn request_headers(client: ClientView, action: Seq<char>, timestamp: int) -> Map<
    Seq<char>,
    Seq<u8>,
> {
    let fixed = no_headers().insert(ascii_lower("Host"@), encode_utf8(client.endpoint)).insert(
        ascii_lower("Content-Type"@),
        encode_utf8("application/json; charset=utf-8"@),
    ).insert(ascii_lower("X-TC-Action"@), encode_utf8(action)).insert(
        ascii_lower("X-TC-Version"@),
        encode_utf8("2023-09-01"@),
    ).insert(ascii_lower("X-TC-Region"@), encode_utf8(client.region.name())).insert(
        ascii_lower("X-TC-Timestamp"@),
        encode_utf8(decimal_text(timestamp)),
    );
    match client.credential.token {
        Some(token) => fixed.insert(ascii_lower("X-TC-Token"@), encode_utf8(token@)),
        None => fixed,
    }
}

/// The canonical headers of a call: the content type and the host, each on
/// a line of its own, names in lower case and in alphabetical order.
pub open spec fn canonical_headers_text(host: Seq<char>) -> Seq<char> {
    "content-type:application/json; charset=utf-8\nhost:"@ + host + "\n"@
}

/// The value of the `Authorization` header.
pub open spec fn authorization_text(
    secret_id: Seq<char>,
    credential_scope: Seq<char>,
    signed_headers: Seq<char>,
    signature: Seq<char>,
) -> Seq<char> {
    "TC3-HMAC-SHA256 Credential="@ + secret_id + "/"@ + credential_scope + ", SignedHeaders="@
        + signed_headers + ", Signature="@ + signature
}

/// The address that a call is sent to.
pub open spec fn action_url(endpoint: Seq<char>) -> Seq<char> {
    "https://"@ + endpoint + "/"@
}

/// The signature of a call with this body at `timestamp`: a `POST` of `/`
/// without a query, signed over the content type and the host.
pub open spec fn action_signature(client: ClientView, body: Seq<char>, timestamp: int) -> Seq<
    char,
> {
    tc3_signature_text(
        client.credential.secret_key@,
        canonical_request_text(
            "POST"@,
            "/"@,
            ""@,
            canonical_headers_text(client.endpoint),
            "content-type;host"@,
            sha256_hex_text(body),
        ),
        timestamp,
    )
}

/// The headers of a signed call: those of [`request_headers`] and the
/// authorization.
pub open spec fn signed_request_headers(
    client: ClientView,
    action: Seq<char>,
    body: Seq<char>,
    timestamp: int,
) -> Map<Seq<char>, Seq<u8>> {
    request_headers(client, action, timestamp).insert(
        ascii_lower("Authorization"@),
        encode_utf8(
            authorization_text(
                client.credential.secret_id@,
                credential_scope_text(utc_date_text(timestamp)),
                "content-type;host"@,
                action_signature(client, body, timestamp),
            ),
        ),
    )
}

/// A call ready to be sent: where to, with which headers, and the body.
/// The signature and the credential scope that the authorization was made
/// of are kept for diagnostics.
pub struct SignedRequest {
    pub url: String,
    pub headers: HeaderMap<HeaderValue>,
    pub body: String,
    pub signature: String,
    pub credential_scope: String,
}

/// The canonical headers of a call to `host`.
pub fn canonical_headers(host: &str) -> (res: String)
    ensures
        res@ == canonical_headers_text(host@),
{
    let mut res = String::from_str("content-type:application/json; charset=utf-8\nhost:");
    res.append(host);
    res.append("\n");
    res
}

/// Joins the parts of the value of the `Authorization` header.
pub fn authorization(
    secret_id: &str,
    credential_scope: &str,
    signed_headers: &str,
    signature: &str,
) -> (res: String)
    ensures
        res@ == authorization_text(secret_id@, credential_scope@, signed_headers@, signature@),
{
    let mut res = String::from_str("TC3-HMAC-SHA256 Credential=");
    res.append(secret_id);
    res.append("/");
    res.append(credential_scope);
    res.append(", SignedHeaders=");
    res.append(signed_headers);
    res.append(", Signature=");
    res.append(signature);
    res
}

/// The value of the `Authorization` header as diagnostics may show it: with
/// the secret id and the signature masked.
pub fn masked_authorization(
    secret_id: &str,
    credential_scope: &str,
    signed_headers: &str,
    signature: &str,
) -> (res: String)
    ensures
        res@ == authorization_text(
            mask_text(secret_id@),
            credential_scope@,
            signed_headers@,
            mask_text(signature@),
        ),
{
    let shown_id = mask(secret_id);
    let shown_signature = mask(signature);
    authorization(shown_id.as_str(), credential_scope, signed_headers, shown_signature.as_str())
}

impl Client {
    /// Signs a request: returns the signature and the credential scope.
    ///
    /// The six texts are joined into the canonical request, which is signed
    /// at `timestamp` under the secret key of the credential.
    pub fn tc3_sign(
        &self,
        method: &str,
        canonical_uri: &str,
        canonical_querystring: &str,
        canonical_headers: &str,
        signed_headers: &str,
        hashed_payload: &str,
        timestamp: i64,
    ) -> (res: (String, String))
        requires
            MIN_TIMESTAMP <= timestamp <= MAX_TIMESTAMP,
        ensures
            res.0@ == tc3_signature_text(
                self@.credential.secret_key@,
                canonical_request_text(
                    method@,
                    canonical_uri@,
                    canonical_querystring@,
                    canonical_headers@,
                    signed_headers@,
                    hashed_payload@,
                ),
                timestamp as int,
            ),
            res.0@.len() == 64,
            res.1@ == credential_scope_text(utc_date_text(timestamp as int)),
            is_utc_date_text(utc_date_text(timestamp as int), timestamp < YEAR_ZERO_TIMESTAMP),
            timestamp >= YEAR_ZERO_TIMESTAMP ==> is_scope_text(res.1@),
    {
        let request = canonical_request(
            method,
            canonical_uri,
            canonical_querystring,
            canonical_headers,
            signed_headers,
            hashed_payload,
        );
        sign(self.credential().secret_key.as_str(), request.as_str(), timestamp)
    }

    /// Builds the headers of a call of `action` at `timestamp`, all but the
    /// authorization.
    pub fn build_headers(&self, action: &str, _json_body: &str, timestamp: i64) -> (headers:
        HeaderMap<HeaderValue>)
        requires
            self@.plain_header_texts_valid(),
            is_header_value_text(action@),
        ensures
            header_entries(headers) == request_headers(self@, action@, timestamp as int),
            header_entries(headers).dom().finite(),
            header_entries(headers).dom().len() == if self@.credential.token is Some {
                7nat
            } else {
                6nat
            },
            self@.credential.token matches Some(token) ==> header_entries(headers).contains_key(
                ascii_lower("X-TC-Token"@),
            ) && header_entries(headers)[ascii_lower("X-TC-Token"@)] == encode_utf8(token@),
            self@.credential.token is None ==> !header_entries(headers).contains_key(
                ascii_lower("X-TC-Token"@),
            ),
            !header_entries(headers).contains_key(ascii_lower("Authorization"@)),
    {
        proof {
            lemma_header_names_valid();
            lemma_fixed_values_valid();
            lemma_decimal_is_value_text(timestamp as int);
            lemma_header_names_apart();
        }
        let seconds = i64_to_decimal(timestamp);
        let mut headers = empty_headers();
        insert_header(&mut headers, "Host", self.endpoint());
        insert_header(&mut headers, "Content-Type", "application/json; charset=utf-8");
        insert_header(&mut headers, "X-TC-Action", action);
        insert_header(&mut headers, "X-TC-Version", "2023-09-01");
        insert_header(&mut headers, "X-TC-Region", self.region().as_str());
        insert_header(&mut headers, "X-TC-Timestamp", seconds.as_str());
        match &self.credential().token {
            Some(token) => {
                insert_header(&mut headers, "X-TC-Token", token.as_str());
            },
            None => {},
        }
        headers
    }

    /// True if a call of `action` at `timestamp` can be signed and sent: the
    /// texts that go into headers may stand in a header value, and the
    /// timestamp has a calendar date.
    pub fn can_send(&self, action: &str, timestamp: i64) -> (res: bool)
        ensures
            res == (self@.header_texts_valid() && is_header_value_text(action@) && MIN_TIMESTAMP
                <= timestamp <= MAX_TIMESTAMP),
    {
        let token_valid = match &self.credential().token {
            Some(token) => is_valid_header_value(token.as_str()),
            None => true,
        };
        let region = self.region();
        let texts_valid = region.has_name() && is_valid_header_value(region.as_str())
            && is_valid_header_value(self.endpoint()) && is_valid_header_value(
            self.credential().secret_id.as_str(),
        ) && is_valid_header_value(action);
        token_valid && texts_valid && MIN_TIMESTAMP <= timestamp && timestamp <= MAX_TIMESTAMP
    }

    /// Prepares a call of `action` with the JSON text `body` at `timestamp`:
    /// builds the headers, signs the call and adds the authorization.
    pub fn sign_action(&self, action: &str, body: &str, timestamp: i64) -> (request: SignedRequest)
        requires
            self@.header_texts_valid(),
            is_header_value_text(action@),
            MIN_TIMESTAMP <= timestamp <= MAX_TIMESTAMP,
        ensures
            request.url@ == action_url(self@.endpoint),
            request.body@ == body@,
            request.signature@ == action_signature(self@, body@, timestamp as int),
            request.signature@.len() == 64,
            request.credential_scope@ == credential_scope_text(utc_date_text(timestamp as int)),
            header_entries(request.headers) == signed_request_headers(
                self@,
                action@,
                body@,
                timestamp as int,
            ),
    {
        let mut headers = self.build_headers(action, body, timestamp);
        let canonical = canonical_headers(self.endpoint());
        let hashed_payload = sha256_hex(body);
        let (signature, scope) = self.tc3_sign(
            "POST",
            "/",
            "",
            canonical.as_str(),
            "content-type;host",
            hashed_payload.as_str(),
            timestamp,
        );
        let value = authorization(
            self.credential().secret_id.as_str(),
            scope.as_str(),
            "content-type;host",
            signature.as_str(),
        );
        proof {
            lemma_header_names_valid();
            let date = utc_date_text(timestamp as int);
            let to_sign = string_to_sign_text(
                timestamp as int,
                credential_scope_text(date),
                sha256_hex_text(
                    canonical_request_text(
                        "POST"@,
                        "/"@,
                        ""@,
                        canonical@,
                        "content-type;host"@,
                        hashed_payload@,
                    ),
                ),
            );
            lemma_authorization_is_value_text(
                self@.credential.secret_id@,
                date,
                timestamp < YEAR_ZERO_TIMESTAMP,
                hmac_sha256_tag(
                    signing_key(self@.credential.secret_key@, date),
                    encode_utf8(to_sign),
                ),
            );
        }
        insert_header(&mut headers, "Authorization", value.as_str());
        let mut url = String::from_str("https://");
        url.append(self.endpoint());
        url.append("/");
        SignedRequest {
            url,
            headers,
            body: String::from_str(body),
            signature,
            credential_scope: scope,
        }
    }
}

/// The header names of a call are names that a header map accepts.
pub proof fn lemma_header_names_valid()
    ensures
        is_header_name("Host"@),
        is_header_name("Content-Type"@),
        is_header_name("X-TC-Action"@),
        is_header_name("X-TC-Version"@),
        is_header_name("X-TC-Region"@),
        is_header_name("X-TC-Timestamp"@),
        is_header_name("X-TC-Token"@),
        is_header_name("Authorization"@),
{
    reveal_strlit("Host");
    reveal_strlit("Content-Type");
    reveal_strlit("X-TC-Action");
    reveal_strlit("X-TC-Version");
    reveal_strlit("X-TC-Region");
    reveal_strlit("X-TC-Timestamp");
    reveal_strlit("X-TC-Token");
    reveal_strlit("Authorization");
}

/// The fixed header values of a call may stand in a header value.
pub proof fn lemma_fixed_values_valid()
    ensures
        is_header_value_text("application/json; charset=utf-8"@),
        is_header_value_text("2023-09-01"@),
{
    reveal_strlit("application/json; charset=utf-8");
    reveal_strlit("2023-09-01");
}

/// The header names of a call differ from one another, also in lower case.
pub proof fn lemma_header_names_apart()
    ensures
        ascii_lower("Host"@) != ascii_lower("Content-Type"@),
        ascii_lower("Host"@) != ascii_lower("X-TC-Action"@),
        ascii_lower("Host"@) != ascii_lower("X-TC-Version"@),
        ascii_lower("Host"@) != ascii_lower("X-TC-Region"@),
        ascii_lower("Host"@) != ascii_lower("X-TC-Timestamp"@),
        ascii_lower("Host"@) != ascii_lower("X-TC-Token"@),
        ascii_lower("Host"@) != ascii_lower("Authorization"@),
        ascii_lower("Content-Type"@) != ascii_lower("X-TC-Action"@),
        ascii_lower("Content-Type"@) != ascii_lower("X-TC-Version"@),
        ascii_lower("Content-Type"@) != ascii_lower("X-TC-Region"@),
        ascii_lower("Content-Type"@) != ascii_lower("X-TC-Timestamp"@),
        ascii_lower("Content-Type"@) != ascii_lower("X-TC-Token"@),
        ascii_lower("Content-Type"@) != ascii_lower("Authorization"@),
        ascii_lower("X-TC-Action"@) != ascii_lower("X-TC-Version"@),
        ascii_lower("X-TC-Action"@) != ascii_lower("X-TC-Region"@),
        ascii_lower("X-TC-Action"@) != ascii_lower("X-TC-Timestamp"@),
        ascii_lower("X-TC-Action"@) != ascii_lower("X-TC-Token"@),
        ascii_lower("X-TC-Action"@) != ascii_lower("Authorization"@),
        ascii_lower("X-TC-Version"@) != ascii_lower("X-TC-Region"@),
        ascii_lower("X-TC-Version"@) != ascii_lower("X-TC-Timestamp"@),
        ascii_lower("X-TC-Version"@) != ascii_lower("X-TC-Token"@),
        ascii_lower("X-TC-Version"@) != ascii_lower("Authorization"@),
        ascii_lower("X-TC-Region"@) != ascii_lower("X-TC-Timestamp"@),
        ascii_lower("X-TC-Region"@) != ascii_lower("X-TC-Token"@),
        ascii_lower("X-TC-Region"@) != ascii_lower("Authorization"@),
        ascii_lower("X-TC-Timestamp"@) != ascii_lower("X-TC-Token"@),
        ascii_lower("X-TC-Timestamp"@) != ascii_lower("Authorization"@),
        ascii_lower("X-TC-Token"@) != ascii_lower("Authorization"@),
{
    reveal_strlit("Host");
    reveal_strlit("Content-Type");
    reveal_strlit("X-TC-Action");
    reveal_strlit("X-TC-Version");
    reveal_strlit("X-TC-Region");
    reveal_strlit("X-TC-Timestamp");
    reveal_strlit("X-TC-Token");
    reveal_strlit("Authorization");
    assert(ascii_lower("Host"@).len() == 4);
    assert(ascii_lower("Content-Type"@).len() == 12);
    assert(ascii_lower("X-TC-Action"@).len() == 11);
    assert(ascii_lower("X-TC-Version"@).len() == 12);
    assert(ascii_lower("X-TC-Region"@).len() == 11);
    assert(ascii_lower("X-TC-Timestamp"@).len() == 14);
    assert(ascii_lower("X-TC-Token"@).len() == 10);
    assert(ascii_lower("Authorization"@).len() == 13);
    assert(ascii_lower("Content-Type"@)[0] == 'c');
    assert(ascii_lower("X-TC-Version"@)[0] == 'x');
    assert(ascii_lower("X-TC-Action"@)[5] == 'a');
    assert(ascii_lower("X-TC-Region"@)[5] == 'r');
}

/// A date may stand in a header value.
pub proof fn lemma_date_is_value_text(date: Seq<char>, before_year_zero: bool)
    requires
        is_utc_date_text(date, before_year_zero),
    ensures
        is_header_value_text(date),
{
    let digits = if before_year_zero {
        date.subrange(1, 11)
    } else {
        date
    };
    assert forall|i: int| 0 <= i < 10 implies is_header_value_char(#[trigger] digits[i]) by {
        if i != 4 && i != 7 {
            assert(is_digit(digits[i]));
        }
    }
    assert forall|i: int| 0 <= i < date.len() implies is_header_value_char(#[trigger] date[i]) by {
        if before_year_zero && i > 0 {
            assert(date[i] == digits[i - 1]);
        }
    }
}

/// The value of the `Authorization` header may stand in a header value
/// where the secret id may, the scope is that of a date and the signature
/// is hexadecimal text.
pub proof fn lemma_authorization_is_value_text(
    secret_id: Seq<char>,
    date: Seq<char>,
    before_year_zero: bool,
    tag: Seq<u8>,
)
    requires
        is_header_value_text(secret_id),
        is_utc_date_text(date, before_year_zero),
    ensures
        is_header_value_text(
            authorization_text(
                secret_id,
                credential_scope_text(date),
                "content-type;host"@,
                hex_lower(tag),
            ),
        ),
{
    reveal_strlit("TC3-HMAC-SHA256 Credential=");
    reveal_strlit("/");
    reveal_strlit("hunyuan");
    reveal_strlit("/tc3_request");
    reveal_strlit(", SignedHeaders=");
    reveal_strlit("content-type;host");
    reveal_strlit(", Signature=");
    lemma_date_is_value_text(date, before_year_zero);
    lemma_hex_is_value_text(tag);
    lemma_value_text_concat(date, "/"@);
    lemma_value_text_concat(date + "/"@, "hunyuan"@);
    lemma_value_text_concat(date + "/"@ + "hunyuan"@, "/tc3_request"@);
    let scope = credential_scope_text(date);
    let a1 = "TC3-HMAC-SHA256 Credential="@ + secret_id;
    lemma_value_text_concat("TC3-HMAC-SHA256 Credential="@, secret_id);
    let a2 = a1 + "/"@;
    lemma_value_text_concat(a1, "/"@);
    let a3 = a2 + scope;
    lemma_value_text_concat(a2, scope);
    let a4 = a3 + ", SignedHeaders="@;
    lemma_value_text_concat(a3, ", SignedHeaders="@);
    let a5 = a4 + "content-type;host"@;
    lemma_value_text_concat(a4, "content-type;host"@);
    let a6 = a5 + ", Signature="@;
    lemma_value_text_concat(a5, ", Signature="@);
    lemma_value_text_concat(a6, hex_lower(tag));
}

/// What is signed is what is sent. The two signed names, `content-type` and
/// `host`, are names of the header map of a signed call, and the canonical
/// headers are, byte for byte, each of the two names, a colon, the value
/// that the map holds under it and a newline.
pub proof fn lemma_signed_headers_match(
    client: ClientView,
    action: Seq<char>,
    body: Seq<char>,
    timestamp: int,
)
    ensures
        ({
            let headers = signed_request_headers(client, action, body, timestamp);
            &&& ascii_lower("Content-Type"@) == "content-type"@
            &&& ascii_lower("Host"@) == "host"@
            &&& "content-type;host"@ == "content-type"@ + ";"@ + "host"@
            &&& headers.contains_key("content-type"@)
            &&& headers.contains_key("host"@)
            &&& encode_utf8(canonical_headers_text(client.endpoint)) == encode_utf8(
                "content-type"@ + ":"@,
            ) + headers["content-type"@] + encode_utf8("\n"@ + "host"@ + ":"@) + headers["host"@]
                + encode_utf8("\n"@)
        }),
{
    reveal_strlit("Host");
    reveal_strlit("Content-Type");
    reveal_strlit("X-TC-Action");
    reveal_strlit("X-TC-Version");
    reveal_strlit("X-TC-Region");
    reveal_strlit("X-TC-Timestamp");
    reveal_strlit("X-TC-Token");
    reveal_strlit("Authorization");
    reveal_strlit("host");
    reveal_strlit("content-type");
    reveal_strlit("content-type;host");
    reveal_strlit(";");
    reveal_strlit(":");
    reveal_strlit("\n");
    reveal_strlit("application/json; charset=utf-8");
    reveal_strlit("content-type:application/json; charset=utf-8\nhost:");
    let content_type = ascii_lower("Content-Type"@);
    let host = ascii_lower("Host"@);
    assert(content_type =~= "content-type"@);
    assert(host =~= "host"@);
    assert("content-type;host"@ =~= "content-type"@ + ";"@ + "host"@);
    assert(ascii_lower("X-TC-Action"@).len() == 11);
    assert(ascii_lower("X-TC-Version"@)[0] == 'x');
    assert(ascii_lower("X-TC-Region"@).len() == 11);
    assert(ascii_lower("X-TC-Timestamp"@).len() == 14);
    assert(ascii_lower("X-TC-Token"@).len() == 10);
    assert(ascii_lower("Authorization"@).len() == 13);
    assert(content_type[0] == 'c');
    let headers = signed_request_headers(client, action, body, timestamp);
    let value = "application/json; charset=utf-8"@;
    assert(headers[content_type] == encode_utf8(value));
    assert(headers[host] == encode_utf8(client.endpoint));
    let first = "content-type"@ + ":"@;
    let second = "\n"@ + "host"@ + ":"@;
    assert(canonical_headers_text(client.endpoint) =~= first + value + second + client.endpoint
        + "\n"@);
    lemma_utf8_concat(first, value);
    lemma_utf8_concat(first + value, second);
    lemma_utf8_concat(first + value + second, client.endpoint);
    lemma_utf8_concat(first + value + second + client.endpoint, "\n"@);
}

} // verus!
