//! The Buttondown API as plain values: the records it returns, the
//! requests this browser sends (URL, method, headers, body), how a reply
//! is judged, and how an error reply becomes a message.
//!
//! Every request carries `Authorization: Token <BUTTONDOWN_API_KEY>` and
//! goes to the v1 REST API at `https://api.buttondown.email/v1/`. Only the
//! first page of a listing is fetched; the caller learns from the reported
//! count whether more exist. Nothing here retries on `429`.
use vstd::prelude::*;
use vstd::string::StringSliceAdditionalSpecFns;
use crate::text::{chars_of, decimal, hex_char, hex_digit, owned, push_char, push_decimal, str_eq, string_of, take_at_most};

verus! {

// ── records ─────────────────────────────────────────────────────────

/// Resolved auth: the API key from `BUTTONDOWN_API_KEY`.
#[derive(Debug, Clone)]
pub struct Auth {
    pub api_key: String,
}

/// The key is missing or empty.
#[derive(Debug, Clone)]
pub struct AuthError;

pub open spec fn api_base_text() -> Seq<char> {
    "https://api.buttondown.email/v1"@
}

pub open spec fn web_base_text() -> Seq<char> {
    "https://buttondown.email"@
}

/// Page size: Buttondown's default of 100, which the first-page fetch keeps.
pub const PAGE_SIZE: usize = 100;

impl Auth {
    /// Resolves auth from the value of `BUTTONDOWN_API_KEY` as the caller
    /// read it from the environment (`None` when unset). A missing or empty
    /// key is an error.
    pub fn from_env(value: Option<String>) -> (r: Result<Auth, AuthError>)
        ensures
            r is Ok <==> (value matches Some(v) && v@.len() > 0),
            r matches Ok(a) ==> value matches Some(v) && a.api_key@ == v@,
    {
        match value {
            Some(v) => {
                if v.as_str().is_empty() {
                    Err(AuthError)
                } else {
                    Ok(Auth { api_key: v })
                }
            },
            None => Err(AuthError),
        }
    }

    pub fn api_base(&self) -> (r: &'static str)
        ensures
            r@ == api_base_text(),
    {
        "https://api.buttondown.email/v1"
    }

    pub fn web_base(&self) -> (r: &'static str)
        ensures
            r@ == web_base_text(),
    {
        "https://buttondown.email"
    }
}

/// How `--check` reports a secret: its length in bytes when it is set,
/// never its characters.
pub open spec fn masked_text(value: Option<Seq<char>>) -> Seq<char> {
    match value {
        Some(v) => if v.len() == 0 {
            "(unset)"@
        } else if v.len() > 4 {
            "set ("@ + decimal(vstd::utf8::encode_utf8(v).len()) + " chars, ends …"@ + v.skip(
                v.len() - 4,
            ) + ")"@
        } else {
            "set ("@ + decimal(vstd::utf8::encode_utf8(v).len()) + " chars)"@
        },
        None => "(unset)"@,
    }
}

/// Reports an environment value without revealing it: `set (<n> chars,
/// ends …<last four characters>)` with its length in bytes, or `(unset)`
/// when it is missing or empty. A value of four characters or fewer gets
/// no tail, since its last four characters would be all of it.
pub fn mask_secret(value: Option<&str>) -> (r: String)
    ensures
        r@ == masked_text(
            match value {
                Some(v) => Some(v@),
                None => None,
            },
        ),
{
    match value {
        Some(v) => {
            if v.is_empty() {
                owned("(unset)")
            } else {
                let mut r = owned("set (");
                push_decimal(&mut r, v.as_bytes().len() as u64);
                let cs = chars_of(v);
                if cs.len() > 4 {
                    r.append(" chars, ends …");
                    r.append(string_of(&cs, cs.len() - 4, cs.len()).as_str());
                    r.append(")");
                    assert(cs@.subrange(cs@.len() - 4, cs@.len() as int) == v@.skip(v@.len() - 4));
                } else {
                    r.append(" chars)");
                }
                r
            }
        },
        None => owned("(unset)"),
    }
}

impl AuthError {
    pub fn message(&self) -> (r: String)
        ensures
            r@ == "BUTTONDOWN_API_KEY not set — export it from Buttondown (Settings → Programming)"@,
    {
        owned("BUTTONDOWN_API_KEY not set — export it from Buttondown (Settings → Programming)")
    }
}

/// Open / click stats of a sent email, as raw counts.
#[derive(Debug, Clone)]
pub struct EmailAnalytics {
    pub recipients: Option<u32>,
    pub opens: Option<u32>,
    pub clicks: Option<u32>,
}

/// An email: a draft, a sent issue or a scheduled one.
#[derive(Debug, Clone)]
pub struct Email {
    pub id: String,
    pub subject: String,
    pub body: String,
    pub status: Option<String>,
    /// `public` / `private` / `premium` etc. — Buttondown calls this
    /// the "email type".
    pub email_type: Option<String>,
    pub creation_date: Option<String>,
    pub publish_date: Option<String>,
    pub modification_date: Option<String>,
    /// Buttondown reports word count + analytics on sent emails.
    pub word_count: Option<u32>,
    /// Sent-only — open / click stats.
    pub analytics: Option<EmailAnalytics>,
}

/// A subscriber.
#[derive(Debug, Clone)]
pub struct Subscriber {
    pub id: String,
    pub email_address: String,
    /// `regular` / `premium` / `unactivated` / `unpaid` /
    /// `unsubscribed` / `removed` etc.
    pub sub_type: Option<String>,
    pub creation_date: Option<String>,
    pub notes: Option<String>,
    /// Where this subscriber came from — `import`, `api`, `embed`, ...
    pub source: Option<String>,
    /// The free-form metadata bag, pretty-printed as JSON; `None` when
    /// Buttondown sent none or `null`.
    pub metadata: Option<String>,
}

// ── URLs ────────────────────────────────────────────────────────────

/// Whether a byte is left as it is in a query value.
pub open spec fn unreserved(b: u8) -> bool {
    ||| 65 <= b <= 90
    ||| 97 <= b <= 122
    ||| 48 <= b <= 57
    ||| b == 45
    ||| b == 95
    ||| b == 46
    ||| b == 126
}

/// How one byte is written in a query value.
pub open spec fn encode_byte(b: u8) -> Seq<char> {
    if unreserved(b) {
        seq![b as char]
    } else {
        seq!['%', hex_char((b / 16) as int), hex_char((b % 16) as int)]
    }
}

/// Percent-encoding of a byte string, byte by byte.
pub open spec fn url_encoded(bytes: Seq<u8>) -> Seq<char>
    decreases bytes.len(),
{
    if bytes.len() == 0 {
        Seq::empty()
    } else {
        url_encoded(bytes.drop_last()) + encode_byte(bytes.last())
    }
}

/// Whether a character is a hex digit, in either case.
pub open spec fn is_hex(c: char) -> bool {
    ('0' <= c <= '9') || ('A' <= c <= 'F') || ('a' <= c <= 'f')
}

/// The value of a hex digit.
pub open spec fn hex_value(c: char) -> int {
    if '0' <= c <= '9' {
        c as int - '0' as int
    } else if 'A' <= c <= 'F' {
        c as int - 'A' as int + 10
    } else {
        c as int - 'a' as int + 10
    }
}

/// Percent-decoding of an ASCII text, as a server reads a query value:
/// `%` and two hex digits stand for one byte, every other character for
/// its own code.
pub open spec fn url_decoded(cs: Seq<char>) -> Seq<u8>
    decreases cs.len(),
{
    if cs.len() == 0 {
        Seq::empty()
    } else if cs.len() >= 3 && cs[0] == '%' && is_hex(cs[1]) && is_hex(cs[2]) {
        seq![(hex_value(cs[1]) * 16 + hex_value(cs[2])) as u8] + url_decoded(
            cs.subrange(3, cs.len() as int),
        )
    } else {
        seq![cs[0] as u8] + url_decoded(cs.subrange(1, cs.len() as int))
    }
}

/// Percent-encodes the UTF-8 bytes of `s`, leaving `A-Z a-z 0-9 - _ . ~`.
pub fn urlencode(s: &str) -> (r: String)
    ensures
        r@ == url_encoded(s.spec_bytes()),
{
    let bytes = s.as_bytes();
    let mut out = String::new();
    let mut i: usize = 0;
    while i < bytes.len()
        invariant
            i <= bytes@.len(),
            bytes@ == s.spec_bytes(),
            out@ == url_encoded(bytes@.take(i as int)),
        decreases bytes@.len() - i,
    {
        let b = bytes[i];
        let ghost prev = out@;
        if (65 <= b && b <= 90) || (97 <= b && b <= 122) || (48 <= b && b <= 57) || b == 45 || b
            == 95 || b == 46 || b == 126 {
            push_char(&mut out, b as char);
        } else {
            push_char(&mut out, '%');
            push_char(&mut out, hex_digit(b / 16));
            push_char(&mut out, hex_digit(b % 16));
        }
        assert(bytes@.take(i + 1).drop_last() == bytes@.take(i as int));
        assert(out@ =~= prev + encode_byte(b));
        i = i + 1;
    }
    assert(bytes@.take(bytes@.len() as int) == bytes@);
    out
}

/// Bytes that are all lower-case letters are written as they are.
proof fn lemma_lowercase_bytes_unchanged(bytes: Seq<u8>, chars: Seq<char>)
    requires
        bytes.len() == chars.len(),
        forall|i: int| 0 <= i < chars.len() ==> 'a' <= #[trigger] chars[i] <= 'z',
        forall|i: int| 0 <= i < chars.len() ==> #[trigger] bytes[i] == chars[i] as u8,
    ensures
        url_encoded(bytes) == chars,
    decreases bytes.len(),
{
    if bytes.len() > 0 {
        let n = bytes.len() - 1;
        lemma_lowercase_bytes_unchanged(bytes.drop_last(), chars.drop_last());
        let c = chars[n];
        assert('a' <= c <= 'z');
        assert(bytes[n] == c as u8);
        assert((c as u8) as char == c);
        assert(url_encoded(bytes) =~= chars.drop_last().push(c));
        assert(chars.drop_last().push(c) =~= chars);
    }
}

/// A text of lower-case letters is its own encoding.
pub proof fn lemma_lowercase_unchanged(s: &str)
    requires
        forall|i: int| 0 <= i < s@.len() ==> 'a' <= #[trigger] s@[i] <= 'z',
    ensures
        url_encoded(s.spec_bytes()) == s@,
{
    vstd::utf8::is_ascii_chars_encode_utf8(s@);
    lemma_lowercase_bytes_unchanged(s.spec_bytes(), s@);
}

/// The web page of an email: `<web base>/emails/<id>`.
pub fn email_url(auth: &Auth, id: &str) -> (r: String)
    ensures
        r@ == web_base_text() + "/emails/"@ + id@,
{
    let mut r = owned(auth.web_base());
    r.append("/emails/");
    r.append(id);
    r
}

/// The web page of a subscriber: `<web base>/subscribers/<id>`.
pub fn subscriber_url(auth: &Auth, id: &str) -> (r: String)
    ensures
        r@ == web_base_text() + "/subscribers/"@ + id@,
{
    let mut r = owned(auth.web_base());
    r.append("/subscribers/");
    r.append(id);
    r
}

// ── requests ────────────────────────────────────────────────────────

#[derive(Debug, Clone, Copy, PartialEq, Eq)]
pub enum Method {
    Get,
    Patch,
    Delete,
}

/// One HTTP request, ready to send.
#[derive(Debug, Clone)]
pub struct HttpRequest {
    pub method: Method,
    pub url: String,
    /// The value of the `Authorization` header.
    pub authorization: String,
    /// Whether `Content-Type: application/json` is sent.
    pub json_content_type: bool,
    pub body: Option<String>,
}

pub open spec fn authorization_text(auth: Auth) -> Seq<char> {
    "Token "@ + auth.api_key@
}

fn authorization(auth: &Auth) -> (r: String)
    ensures
        r@ == authorization_text(*auth),
{
    let mut r = owned("Token ");
    r.append(auth.api_key.as_str());
    r
}

/// `GET /emails?status=<status>&page=1`.
pub fn list_emails_request(auth: &Auth, status: &str) -> (r: HttpRequest)
    ensures
        r.method == Method::Get,
        r.url@ == api_base_text() + "/emails?status="@ + url_encoded(status.spec_bytes())
            + "&page=1"@,
        r.authorization@ == authorization_text(*auth),
        r.json_content_type,
        r.body is None,
{
    let mut url = owned(auth.api_base());
    url.append("/emails?status=");
    url.append(urlencode(status).as_str());
    url.append("&page=1");
    HttpRequest {
        method: Method::Get,
        url,
        authorization: authorization(auth),
        json_content_type: true,
        body: None,
    }
}

/// `GET /subscribers?page=1`.
pub fn list_subscribers_request(auth: &Auth) -> (r: HttpRequest)
    ensures
        r.method == Method::Get,
        r.url@ == api_base_text() + "/subscribers?page=1"@,
        r.authorization@ == authorization_text(*auth),
        r.json_content_type,
        r.body is None,
{
    let mut url = owned(auth.api_base());
    url.append("/subscribers?page=1");
    HttpRequest {
        method: Method::Get,
        url,
        authorization: authorization(auth),
        json_content_type: true,
        body: None,
    }
}

/// The text `serde_json` writes for a JSON object whose members are the
/// given keys with string values.
pub uninterp spec fn json_object_text(members: Seq<(Seq<char>, Seq<char>)>) -> Seq<char>;

/// The members of a string-to-string object, as plain texts.
pub open spec fn members_view(members: Seq<(String, String)>) -> Seq<(Seq<char>, Seq<char>)> {
    members.map_values(|m: (String, String)| (m.0@, m.1@))
}

/// A `serde_json::Value::Object` of the given members, each value a
/// `Value::String`, written with its `Display` (`to_string`). Writing a
/// value into memory cannot fail; the text itself is only named.
#[verifier::external_body]
fn json_object(members: &Vec<(String, String)>) -> (r: String)
    ensures
        r@ == json_object_text(members_view(members@)),
{
    let map: serde_json::Map<String, serde_json::Value> = members.iter().map(
        |(k, v)| (k.clone(), serde_json::Value::String(v.clone())),
    ).collect();
    serde_json::Value::Object(map).to_string()
}

/// The body of a scheduling request: the JSON object with `status:
/// "scheduled"` and the publish date.
pub open spec fn schedule_body_text(publish_date: Seq<char>) -> Seq<char> {
    json_object_text(seq![("status"@, "scheduled"@), ("publish_date"@, publish_date)])
}

/// `PATCH /emails/<id>` with `status=scheduled` and the given publish date.
pub fn schedule_draft_request(auth: &Auth, id: &str, publish_date_iso: &str) -> (r: HttpRequest)
    ensures
        r.method == Method::Patch,
        r.url@ == api_base_text() + "/emails/"@ + id@,
        r.authorization@ == authorization_text(*auth),
        r.json_content_type,
        r.body matches Some(b) && b@ == schedule_body_text(publish_date_iso@),
{
    let mut url = owned(auth.api_base());
    url.append("/emails/");
    url.append(id);
    let members = vec![
        (owned("status"), owned("scheduled")),
        (owned("publish_date"), owned(publish_date_iso)),
    ];
    assert(members_view(members@) =~= seq![("status"@, "scheduled"@), ("publish_date"@, publish_date_iso@)]);
    let body = json_object(&members);
    HttpRequest {
        method: Method::Patch,
        url,
        authorization: authorization(auth),
        json_content_type: true,
        body: Some(body),
    }
}

/// `DELETE /subscribers/<id>`.
pub fn unsubscribe_request(auth: &Auth, id: &str) -> (r: HttpRequest)
    ensures
        r.method == Method::Delete,
        r.url@ == api_base_text() + "/subscribers/"@ + id@,
        r.authorization@ == authorization_text(*auth),
        !r.json_content_type,
        r.body is None,
{
    let mut url = owned(auth.api_base());
    url.append("/subscribers/");
    url.append(id);
    HttpRequest {
        method: Method::Delete,
        url,
        authorization: authorization(auth),
        json_content_type: false,
        body: None,
    }
}

// ── replies ─────────────────────────────────────────────────────────

/// A member of a top-level JSON object, as far as error messages read it.
#[derive(Debug, Clone)]
pub struct JsonMember {
    pub key: String,
    /// The value, when it is a string.
    pub text: Option<String>,
    /// When the value is an array: its first element, when that is a string.
    pub first_text: Option<Option<String>>,
}

/// A reply body read as JSON.
#[derive(Debug, Clone)]
pub enum JsonDoc {
    /// Not JSON.
    Invalid,
    /// JSON, but not an object.
    NotObject,
    /// An object's members, in the order `serde_json` walks them.
    Object(Vec<JsonMember>),
}

/// How `serde_json` reads a body (see [`JsonDoc`]).
pub uninterp spec fn json_doc(body: Seq<char>) -> JsonDoc;

/// `serde_json::from_str::<Value>` on a reply body, with the top-level
/// object's members copied out: key, string value, first array element.
#[verifier::external_body]
fn parse_json_doc(body: &str) -> (r: JsonDoc)
    ensures
        r == json_doc(body@),
{
    match serde_json::from_str::<serde_json::Value>(body) {
        Err(_) => JsonDoc::Invalid,
        Ok(serde_json::Value::Object(m)) => JsonDoc::Object(
            m.iter().map(|(k, v)| JsonMember {
                key: k.clone(),
                text: v.as_str().map(|s| s.to_string()),
                first_text: v.as_array().map(|a| a.first().and_then(|e| e.as_str()).map(|s| s.to_string())),
            }).collect(),
        ),
        Ok(_) => JsonDoc::NotObject,
    }
}

/// The reason phrase that `http` prints after a status code (the canonical
/// reason, or `<unknown status code>`).
pub uninterp spec fn http_status_reason(code: u16) -> Seq<char>;

/// `StatusCode::from_u16` and its `Display`: `"<code> <reason>"`, for the
/// codes 100..=999 that a status code can hold.
#[verifier::external_body]
fn status_line(code: u16) -> (r: Option<String>)
    ensures
        r is Some <==> 100 <= code <= 999,
        r matches Some(s) ==> s@ == decimal(code as nat) + " "@ + http_status_reason(code),
{
    reqwest::StatusCode::from_u16(code).ok().map(|s| s.to_string())
}

/// `i` is the first member whose key is `k`.
pub open spec fn key_at(ms: Seq<JsonMember>, k: Seq<char>, i: int) -> bool {
    &&& 0 <= i < ms.len()
    &&& ms[i].key@ == k
    &&& forall|j: int| 0 <= j < i ==> ms[j].key@ != k
}

/// The string value of the member with key `k`, if there is such a
/// member and its value is a string.
pub open spec fn member_text(ms: Seq<JsonMember>, k: Seq<char>) -> Option<Seq<char>> {
    if exists|i: int| key_at(ms, k, i) {
        match ms[choose|i: int| key_at(ms, k, i)].text {
            Some(t) => Some(t@),
            None => None,
        }
    } else {
        None
    }
}

/// The first string of the array under key `k`, if any.
pub open spec fn member_first_text(ms: Seq<JsonMember>, k: Seq<char>) -> Option<Seq<char>> {
    if exists|i: int| key_at(ms, k, i) {
        match ms[choose|i: int| key_at(ms, k, i)].first_text {
            Some(Some(t)) => Some(t@),
            _ => None,
        }
    } else {
        None
    }
}

/// The member's value is an array that starts with a string.
pub open spec fn lists_text(m: JsonMember) -> bool {
    m.first_text matches Some(Some(_))
}

/// `i` is the first member whose value is an array starting with a string.
pub open spec fn listed_at(ms: Seq<JsonMember>, i: int) -> bool {
    &&& 0 <= i < ms.len()
    &&& lists_text(ms[i])
    &&& forall|j: int| 0 <= j < i ==> !lists_text(#[trigger] ms[j])
}

/// The message for an error reply: Buttondown's `detail`, else the first
/// of `non_field_errors`, else the first message of the first per-field
/// array (with its field name), else the status line and the first 200
/// characters of the body.
pub open spec fn bd_error_text(status_line: Seq<char>, doc: JsonDoc, body: Seq<char>) -> Seq<char> {
    let fallback = "HTTP "@ + status_line + ": "@ + take_at_most(body, 200);
    match doc {
        JsonDoc::Object(ms) => {
            let ms = ms@;
            if member_text(ms, "detail"@) is Some {
                "buttondown: "@ + member_text(ms, "detail"@)->0
            } else if member_first_text(ms, "non_field_errors"@) is Some {
                "buttondown: "@ + member_first_text(ms, "non_field_errors"@)->0
            } else if exists|i: int| listed_at(ms, i) {
                let i = choose|i: int| listed_at(ms, i);
                "buttondown: "@ + ms[i].key@ + ": "@ + ms[i].first_text->0->0@
            } else {
                fallback
            }
        },
        _ => fallback,
    }
}

/// The first member with key `k`.
fn find_key(ms: &Vec<JsonMember>, k: &str) -> (r: Option<usize>)
    ensures
        match r {
            Some(i) => key_at(ms@, k@, i as int),
            None => !exists|i: int| key_at(ms@, k@, i),
        },
{
    let mut i: usize = 0;
    while i < ms.len()
        invariant
            i <= ms@.len(),
            forall|j: int| 0 <= j < i ==> ms@[j].key@ != k@,
        decreases ms@.len() - i,
    {
        if str_eq(ms[i].key.as_str(), k) {
            return Some(i);
        }
        i = i + 1;
    }
    proof {
        if exists|i: int| key_at(ms@, k@, i) {
            let i = choose|i: int| key_at(ms@, k@, i);
            assert(ms@[i].key@ != k@);
        }
    }
    None
}

proof fn lemma_key_at_unique(ms: Seq<JsonMember>, k: Seq<char>, i: int)
    requires
        key_at(ms, k, i),
    ensures
        (choose|j: int| key_at(ms, k, j)) == i,
{
    let j = choose|j: int| key_at(ms, k, j);
    assert(key_at(ms, k, j));
    if j < i {
        assert(ms[j].key@ != k);
    }
    if i < j {
        assert(ms[i].key@ != k);
    }
}

proof fn lemma_listed_at_unique(ms: Seq<JsonMember>, i: int)
    requires
        listed_at(ms, i),
    ensures
        (choose|j: int| listed_at(ms, j)) == i,
{
    let j = choose|j: int| listed_at(ms, j);
    assert(listed_at(ms, j));
    if j < i {
        assert(!lists_text(ms[j]));
    }
    if i < j {
        assert(!lists_text(ms[i]));
    }
}

/// The first element of the member's array value, when it is a string.
fn listed_first(m: &JsonMember) -> (r: Option<String>)
    ensures
        match m.first_text {
            Some(Some(t)) => r matches Some(x) && x@ == t@,
            _ => r is None,
        },
{
    match &m.first_text {
        Some(Some(t)) => Some(t.clone()),
        _ => None,
    }
}

/// The first `n` characters of `s`.
fn take_chars(s: &str, n: usize) -> (r: String)
    ensures
        r@ == take_at_most(s@, n as int),
{
    let v = crate::text::chars_of(s);
    if n < v.len() {
        crate::text::string_of(&v, 0, n)
    } else {
        assert(v@.subrange(0, v@.len() as int) == v@);
        crate::text::string_of(&v, 0, v.len())
    }
}

/// The message for an error reply, given the status line and the body
/// as read by `serde_json`.
#[verifier::loop_isolation(false)]
pub fn bd_error_message(status_line: &str, doc: &JsonDoc, body: &str) -> (r: String)
    ensures
        r@ == bd_error_text(status_line@, *doc, body@),
{
    match doc {
        JsonDoc::Object(ms) => {
            match find_key(ms, "detail") {
                Some(i) => {
                    proof { lemma_key_at_unique(ms@, "detail"@, i as int); }
                    match &ms[i].text {
                        Some(t) => {
                            let mut r = owned("buttondown: ");
                            r.append(t.as_str());
                            return r;
                        },
                        None => {},
                    }
                },
                None => {},
            }
            assert(member_text(ms@, "detail"@) is None);
            match find_key(ms, "non_field_errors") {
                Some(i) => {
                    proof { lemma_key_at_unique(ms@, "non_field_errors"@, i as int); }
                    match listed_first(&ms[i]) {
                        Some(t) => {
                            let mut r = owned("buttondown: ");
                            r.append(t.as_str());
                            return r;
                        },
                        None => {},
                    }
                },
                None => {},
            }
            assert(member_first_text(ms@, "non_field_errors"@) is None);
            let mut i: usize = 0;
            while i < ms.len()
                invariant
                    i <= ms@.len(),
                    forall|j: int| 0 <= j < i ==> !lists_text(#[trigger] ms@[j]),
                decreases ms@.len() - i,
            {
                match listed_first(&ms[i]) {
                    Some(t) => {
                        proof { lemma_listed_at_unique(ms@, i as int); }
                        let mut r = owned("buttondown: ");
                        r.append(ms[i].key.as_str());
                        r.append(": ");
                        r.append(t.as_str());
                        return r;
                    },
                    None => {},
                }
                i = i + 1;
            }
            proof {
                if exists|j: int| listed_at(ms@, j) {
                    let j = choose|j: int| listed_at(ms@, j);
                    assert(!lists_text(ms@[j]));
                }
            }
        },
        _ => {},
    }
    let mut r = owned("HTTP ");
    r.append(status_line);
    r.append(": ");
    r.append(take_chars(body, 200).as_str());
    r
}

/// The status line that `http` prints for a code.
pub open spec fn status_text(code: u16) -> Seq<char> {
    decimal(code as nat) + " "@ + http_status_reason(code)
}

/// Parses Buttondown's error envelopes (`{"detail": ...}`,
/// `{"non_field_errors": [...]}`, per-field arrays) and falls back to the
/// status line and the start of the body.
pub fn extract_bd_error(status: u16, body: &str) -> (r: String)
    requires
        100 <= status <= 999,
    ensures
        r@ == bd_error_text(status_text(status), json_doc(body@), body@),
{
    let doc = parse_json_doc(body);
    let line = status_line(status);
    match line {
        Some(l) => bd_error_message(l.as_str(), &doc, body),
        None => String::new(),
    }
}

/// Whether a status code means success (2xx).
pub open spec fn is_success(status: u16) -> bool {
    200 <= status <= 299
}

/// Judges a reply: a 2xx status is success; any other status is an error
/// carrying the message [`extract_bd_error`] gives.
pub fn check_reply(status: u16, body: &str) -> (r: Result<(), String>)
    requires
        100 <= status <= 999,
    ensures
        r is Ok <==> is_success(status),
        r matches Err(m) ==> m@ == bd_error_text(status_text(status), json_doc(body@), body@),
{
    if 200 <= status && status <= 299 {
        Ok(())
    } else {
        Err(extract_bd_error(status, body))
    }
}

} // verus!
