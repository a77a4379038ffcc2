//! The address that a user is sent to in order to authorize the application.
//!
//! The query is written in `application/x-www-form-urlencoded` syntax and
//! placed on the authorization endpoint. Encoding and URL handling are done
//! by the `url` crate.

use vstd::prelude::*;
use vstd::utf8::encode_utf8;

verus! {

/// The endpoint that the authorization address is built on.
pub open spec fn auth_endpoint() -> Seq<char> {
    "https://login.dingtalk.com/oauth2/auth"@
}

/// The most bytes, endpoint and query together, that are handed to the URL parser.
pub const MAX_URL_INPUT_BYTES: usize = 0x1000_0000;

/// The bytes that form encoding leaves as they are: `*`, `-`, `.`, `_`,
/// the ASCII digits and the ASCII letters.
pub open spec fn is_form_unreserved(byte: u8) -> bool {
    ||| byte == 0x2a
    ||| byte == 0x2d
    ||| byte == 0x2e
    ||| byte == 0x5f
    ||| 0x30 <= byte <= 0x39
    ||| 0x41 <= byte <= 0x5a
    ||| 0x61 <= byte <= 0x7a
}

/// The upper-case hexadecimal digit of a value below sixteen.
pub open spec fn hex_digit(nibble: int) -> char {
    if nibble < 10 {
        ((0x30 + nibble) as u8) as char
    } else {
        ((0x41 + nibble - 10) as u8) as char
    }
}

/// One byte in form encoding: itself where it is unreserved, `+` for a
/// space, and otherwise `%` with its two hexadecimal digits.
pub open spec fn form_encoded_byte(byte: u8) -> Seq<char> {
    if is_form_unreserved(byte) {
        seq![byte as char]
    } else if byte == 0x20 {
        seq!['+']
    } else {
        seq!['%', hex_digit(byte as int / 16), hex_digit(byte as int % 16)]
    }
}

/// A byte string in form encoding, byte by byte.
pub open spec fn form_encoded_bytes(bytes: Seq<u8>) -> Seq<char>
    decreases bytes.len(),
{
    if bytes.len() == 0 {
        Seq::empty()
    } else {
        form_encoded_byte(bytes[0]) + form_encoded_bytes(bytes.drop_first())
    }
}

/// A text in form encoding: the encoding of its UTF-8 bytes.
pub open spec fn form_encoded(text: Seq<char>) -> Seq<char> {
    form_encoded_bytes(encode_utf8(text))
}

/// A query with one more pair: `&` where the query is not empty, the encoded
/// name, `=` and the encoded value.
pub open spec fn form_pair_appended(query: Seq<char>, name: Seq<char>, value: Seq<char>) -> Seq<
    char,
> {
    query + (if query.len() > 0 {
        seq!['&']
    } else {
        Seq::empty()
    }) + form_encoded(name) + seq!['='] + form_encoded(value)
}

/// Calls `url::form_urlencoded::Serializer`: `new` on `query`, `append_pair`
/// and `finish`.
///
/// The contract says what the serializer's source shows: it writes `&` where
/// the target is not empty, then the name and the value, each through the
/// form byte serializer on its UTF-8 bytes, with `=` between them.
#[verifier::external_body]
fn form_append_pair(query: String, name: &str, value: &str) -> (extended: String)
    ensures
        extended@ == form_pair_appended(query@, name@, value@),
{
    url::form_urlencoded::Serializer::new(query).append_pair(name, value).finish()
}

/// The query of the authorization address: six pairs in form encoding, of
/// which the caller gives three values.
pub open spec fn redirect_query_text(
    appid: Seq<char>,
    redirect_uri: Seq<char>,
    state: Seq<char>,
) -> Seq<char> {
    "redirect_uri="@ + form_encoded(redirect_uri) + "&response_type=code&client_id="@
        + form_encoded(appid) + "&scope=openid+corpid&state="@ + form_encoded(state)
        + "&prompt=consent"@
}

spec fn query_by_pairs(appid: Seq<char>, redirect_uri: Seq<char>, state: Seq<char>) -> Seq<char> {
    let q1 = form_pair_appended(Seq::empty(), "redirect_uri"@, redirect_uri);
    let q2 = form_pair_appended(q1, "response_type"@, "code"@);
    let q3 = form_pair_appended(q2, "client_id"@, appid);
    let q4 = form_pair_appended(q3, "scope"@, "openid corpid"@);
    let q5 = form_pair_appended(q4, "state"@, state);
    form_pair_appended(q5, "prompt"@, "consent"@)
}

/// Writes the query of the authorization address: where to come back to,
/// the application's id, the scope and the caller's state, in form encoding.
pub fn redirect_query(appid: &str, redirect_uri: &str, state: &str) -> (query: String)
    ensures
        query@ == redirect_query_text(appid@, redirect_uri@, state@),
{
    let query = form_append_pair(String::new(), "redirect_uri", redirect_uri);
    let query = form_append_pair(query, "response_type", "code");
    let query = form_append_pair(query, "client_id", appid);
    let query = form_append_pair(query, "scope", "openid corpid");
    let query = form_append_pair(query, "state", state);
    let query = form_append_pair(query, "prompt", "consent");
    proof {
        lemma_query_by_pairs(appid@, redirect_uri@, state@);
    }
    query
}

/// Whether form encoding writes `c` as one character: `c` is a space or an
/// unreserved ASCII character.
pub open spec fn is_form_simple(c: char) -> bool {
    c <= '\u{7f}' && (c == ' ' || is_form_unreserved(c as u8))
}

/// What form encoding writes for a character that it writes as one: `+`
/// for a space, and any other as it stands.
pub open spec fn form_simple_char(c: char) -> char {
    if c == ' ' {
        '+'
    } else {
        c
    }
}

proof fn lemma_char_not_below_zero(c: char)
    ensures
        '\0' <= c,
{
}

proof fn lemma_simple_bytes(bytes: Seq<u8>)
    requires
        forall|i: int| 0 <= i < bytes.len() ==> bytes[i] == 0x20 || is_form_unreserved(#[trigger] bytes[i]),
    ensures
        form_encoded_bytes(bytes) == Seq::new(
            bytes.len(),
            |i: int| form_simple_char(bytes[i] as char),
        ),
    decreases bytes.len(),
{
    let expected = Seq::new(bytes.len(), |i: int| form_simple_char(bytes[i] as char));
    if bytes.len() == 0 {
        assert(form_encoded_bytes(bytes) =~= expected);
    } else {
        let rest = bytes.drop_first();
        assert forall|i: int| 0 <= i < rest.len() implies rest[i] == 0x20 || is_form_unreserved(
            #[trigger] rest[i],
        ) by {
            assert(rest[i] == bytes[i + 1]);
        }
        lemma_simple_bytes(rest);
        assert(bytes[0] == 0x20 || is_form_unreserved(bytes[0]));
        assert(form_encoded_byte(bytes[0]) =~= seq![form_simple_char(bytes[0] as char)]);
        assert(form_encoded_bytes(bytes) =~= expected);
    }
}

/// A text made of spaces and unreserved ASCII characters keeps its length
/// in form encoding: every space becomes `+` and nothing else changes.
pub proof fn lemma_form_encoded_simple(text: Seq<char>)
    requires
        forall|i: int| 0 <= i < text.len() ==> is_form_simple(#[trigger] text[i]),
    ensures
        form_encoded(text) == Seq::new(text.len(), |i: int| form_simple_char(text[i])),
{
    assert(vstd::utf8::is_ascii_chars(text)) by {
        assert forall|i: int| 0 <= i < text.len() implies '\0' <= #[trigger] text[i]
            <= '\u{7f}' by {
            assert(is_form_simple(text[i]));
            lemma_char_not_below_zero(text[i]);
        }
    }
    vstd::utf8::is_ascii_chars_encode_utf8(text);
    let bytes = encode_utf8(text);
    assert forall|i: int| 0 <= i < bytes.len() implies bytes[i] == 0x20 || is_form_unreserved(
        #[trigger] bytes[i],
    ) by {
        assert(is_form_simple(text[i]));
        assert(bytes[i] == text[i] as u8);
    }
    lemma_simple_bytes(bytes);
    assert forall|i: int| 0 <= i < text.len() implies form_simple_char(bytes[i] as char)
        == form_simple_char(text[i]) by {
        assert(is_form_simple(text[i]));
        assert(bytes[i] == text[i] as u8);
    }
    assert(form_encoded(text) =~= Seq::new(text.len(), |i: int| form_simple_char(text[i])));
}

proof fn lemma_simple_literal(text: Seq<char>, encoded: Seq<char>)
    requires
        text.len() == encoded.len(),
        forall|i: int|
            0 <= i < text.len() ==> is_form_simple(#[trigger] text[i]) && encoded[i]
                == form_simple_char(text[i]),
    ensures
        form_encoded(text) == encoded,
{
    lemma_form_encoded_simple(text);
    assert(form_encoded(text) =~= encoded);
}

proof fn lemma_query_by_pairs(appid: Seq<char>, redirect_uri: Seq<char>, state: Seq<char>)
    ensures
        query_by_pairs(appid, redirect_uri, state) == redirect_query_text(
            appid,
            redirect_uri,
            state,
        ),
{
    reveal_strlit("redirect_uri");
    reveal_strlit("response_type");
    reveal_strlit("code");
    reveal_strlit("client_id");
    reveal_strlit("scope");
    reveal_strlit("openid corpid");
    reveal_strlit("openid+corpid");
    reveal_strlit("state");
    reveal_strlit("prompt");
    reveal_strlit("consent");
    reveal_strlit("redirect_uri=");
    reveal_strlit("&response_type=code&client_id=");
    reveal_strlit("&scope=openid+corpid&state=");
    reveal_strlit("&prompt=consent");
    lemma_simple_literal("redirect_uri"@, "redirect_uri"@);
    lemma_simple_literal("response_type"@, "response_type"@);
    lemma_simple_literal("code"@, "code"@);
    lemma_simple_literal("client_id"@, "client_id"@);
    lemma_simple_literal("scope"@, "scope"@);
    lemma_simple_literal("openid corpid"@, "openid+corpid"@);
    lemma_simple_literal("state"@, "state"@);
    lemma_simple_literal("prompt"@, "prompt"@);
    lemma_simple_literal("consent"@, "consent"@);
    let uri = form_encoded(redirect_uri);
    let id = form_encoded(appid);
    let st = form_encoded(state);
    let q1 = form_pair_appended(Seq::empty(), "redirect_uri"@, redirect_uri);
    assert(q1 =~= "redirect_uri="@ + uri);
    let q2 = form_pair_appended(q1, "response_type"@, "code"@);
    let q3 = form_pair_appended(q2, "client_id"@, appid);
    assert(q3 =~= "redirect_uri="@ + uri + "&response_type=code&client_id="@ + id);
    let q4 = form_pair_appended(q3, "scope"@, "openid corpid"@);
    let q5 = form_pair_appended(q4, "state"@, state);
    assert(q5 =~= "redirect_uri="@ + uri + "&response_type=code&client_id="@ + id
        + "&scope=openid+corpid&state="@ + st);
    let q6 = form_pair_appended(q5, "prompt"@, "consent"@);
    assert(q6 =~= "redirect_uri="@ + uri + "&response_type=code&client_id="@ + id
        + "&scope=openid+corpid&state="@ + st + "&prompt=consent"@);
}

/// The text of the URL that the `url` crate makes of `base` with its query
/// set to `query`; `None` where it does not take `base` for a URL.
pub uninterp spec fn url_with_query_text(base: Seq<char>, query: Seq<char>) -> Option<Seq<char>>;

/// Calls `url::Url::parse` on `base`, then `Url::set_query` with `query`,
/// and returns the URL's text.
///
/// The result is a function of the two texts alone and is named, not
/// stated. Inputs are kept far below the four gigabytes at which the
/// crate's length fields overflow.
#[verifier::external_body]
fn url_with_query(base: &str, query: &str) -> (url: Option<String>)
    requires
        encode_utf8(base@).len() + encode_utf8(query@).len() <= MAX_URL_INPUT_BYTES,
    ensures
        match url {
            Some(text) => url_with_query_text(base@, query@) == Some(text@),
            None => url_with_query_text(base@, query@) is None,
        },
{
    match url::Url::parse(base) {
        Ok(mut parsed) => {
            parsed.set_query(Some(query));
            Some(parsed.to_string())
        },
        Err(_) => None,
    }
}

/// The authorization address for a query, given what the URL parser made of
/// the endpoint and the query: the parser's URL, and without one the
/// endpoint, `?` and the query as they stand.
pub open spec fn placed_query_text(query: Seq<char>, parsed: Option<Seq<char>>) -> Seq<char> {
    match parsed {
        Some(url) => url,
        None => auth_endpoint() + seq!['?'] + query,
    }
}

/// Picks the authorization address: the URL that the parser returned, and
/// where it returned none the endpoint, `?` and `query` as they stand.
pub fn place_query(query: &str, parsed: Option<String>) -> (url: String)
    ensures
        url@ == placed_query_text(query@, option_text(parsed)),
{
    match parsed {
        Some(url) => url,
        None => {
            proof {
                reveal_strlit("?");
            }
            let mut url = String::from_str("https://login.dingtalk.com/oauth2/auth");
            url.append("?");
            assert("?"@ =~= seq!['?']);
            url.append(query);
            url
        },
    }
}

/// An optional text as a mathematical value.
pub open spec fn option_text(text: Option<String>) -> Option<Seq<char>> {
    match text {
        Some(t) => Some(t@),
        None => None,
    }
}

/// The authorization address of application `appid`.
///
/// The endpoint and the query go through the URL parser, unless together
/// they are longer than [`MAX_URL_INPUT_BYTES`].
pub open spec fn redirect_url_text(
    appid: Seq<char>,
    redirect_uri: Seq<char>,
    state: Seq<char>,
) -> Seq<char> {
    let query = redirect_query_text(appid, redirect_uri, state);
    if encode_utf8(auth_endpoint()).len() + encode_utf8(query).len() <= MAX_URL_INPUT_BYTES {
        placed_query_text(query, url_with_query_text(auth_endpoint(), query))
    } else {
        placed_query_text(query, None)
    }
}

/// Builds the address that a user is sent to in order to authorize
/// application `appid`, to come back to `redirect_uri` with `state`.
pub fn redirect_url(appid: &str, redirect_uri: &str, state: &str) -> (url: String)
    ensures
        url@ == redirect_url_text(appid@, redirect_uri@, state@),
{
    let query = redirect_query(appid, redirect_uri, state);
    let endpoint = "https://login.dingtalk.com/oauth2/auth";
    let endpoint_len: usize = endpoint.as_bytes().len();
    let query_len: usize = query.as_str().as_bytes().len();
    if endpoint_len <= MAX_URL_INPUT_BYTES && query_len <= MAX_URL_INPUT_BYTES - endpoint_len {
        let parsed = url_with_query(endpoint, query.as_str());
        place_query(query.as_str(), parsed)
    } else {
        place_query(query.as_str(), None)
    }
}

} // verus!
