//! Percent-encoding and the authorization URL.

use vstd::prelude::*;
use vstd::utf8::{encode_utf8, is_ascii_chars, is_ascii_chars_encode_utf8};
use crate::outside::url_encode;
use crate::pkce::{all_base64url, all_unreserved, is_base64url, is_unreserved};

verus! {

/// Whether the byte `b` is an ASCII letter, a digit, or one of `-`, `.`, `_`,
/// `~`.
pub open spec fn is_unreserved_byte(b: u8) -> bool {
    ||| 0x41 <= b <= 0x5a
    ||| 0x61 <= b <= 0x7a
    ||| 0x30 <= b <= 0x39
    ||| b == 0x2d
    ||| b == 0x2e
    ||| b == 0x5f
    ||| b == 0x7e
}

/// The upper-case hexadecimal digit for `d`, which is below 16.
pub open spec fn hex_digit(d: int) -> char {
    if d < 10 {
        (0x30 + d) as char
    } else {
        (0x41 + d - 10) as char
    }
}

/// How one byte appears in percent-encoded text: as itself where it is
/// unreserved, else as `%` and its two hexadecimal digits.
pub open spec fn percent_encode_byte(b: u8) -> Seq<char> {
    if is_unreserved_byte(b) {
        seq![b as char]
    } else {
        seq!['%', hex_digit(b as int / 16), hex_digit(b as int % 16)]
    }
}

/// Percent-encoded text of a sequence of bytes.
pub open spec fn percent_encode(bytes: Seq<u8>) -> Seq<char>
    decreases bytes.len(),
{
    if bytes.len() == 0 {
        Seq::empty()
    } else {
        percent_encode(bytes.drop_last()) + percent_encode_byte(bytes.last())
    }
}

/// One `key=value` pair of a query string, the value percent-encoded.
pub open spec fn query_pair(key: Seq<char>, value: Seq<char>) -> Seq<char> {
    key + seq!['='] + percent_encode(encode_utf8(value))
}

/// The authorization URL: the endpoint, `?`, and seven parameters in a fixed
/// order, joined by `&`.
pub open spec fn spec_authorization_url(
    auth_url: Seq<char>,
    client_id: Seq<char>,
    scope: Seq<char>,
    state: Seq<char>,
    code_challenge: Seq<char>,
) -> Seq<char> {
    auth_url + seq!['?'] + query_pair("client_id"@, client_id) + seq!['&'] + query_pair(
        "response_type"@,
        "code"@,
    ) + seq!['&'] + query_pair("scope"@, scope) + seq!['&'] + query_pair("state"@, state)
        + seq!['&'] + query_pair("code_challenge"@, code_challenge) + seq!['&'] + query_pair(
        "code_challenge_method"@,
        "S256"@,
    ) + seq!['&'] + query_pair("access_type"@, "offline"@)
}

/// Text made of unreserved characters is its own percent-encoding.
pub proof fn lemma_unreserved_text_is_unchanged(text: Seq<char>)
    requires
        all_unreserved(text),
    ensures
        percent_encode(encode_utf8(text)) == text,
    decreases text.len(),
{
    assert(is_ascii_chars(text));
    is_ascii_chars_encode_utf8(text);
    let bytes = encode_utf8(text);
    if text.len() == 0 {
        assert(percent_encode(bytes) =~= text);
    } else {
        let front = text.drop_last();
        let last = text.last();
        assert(is_ascii_chars(front));
        is_ascii_chars_encode_utf8(front);
        assert(encode_utf8(front) =~= bytes.drop_last());
        lemma_unreserved_text_is_unchanged(front);
        assert(bytes.last() == last as u8);
        assert(is_unreserved_byte(bytes.last()));
        assert(bytes.last() as char == last);
        assert(percent_encode(bytes) =~= front + seq![last]);
    }
}

/// A value made of unreserved characters stands in its query pair as it is.
pub proof fn lemma_unreserved_value_is_verbatim(key: Seq<char>, value: Seq<char>)
    requires
        all_unreserved(value),
    ensures
        query_pair(key, value) == key + seq!['='] + value,
{
    lemma_unreserved_text_is_unchanged(value);
}

/// Base64 text over the URL-safe alphabet is made of unreserved characters.
pub proof fn lemma_base64url_is_unreserved(text: Seq<char>)
    requires
        all_base64url(text),
    ensures
        all_unreserved(text),
{
}

/// The three constant parameters of the authorization URL read
/// `response_type=code`, `code_challenge_method=S256` and
/// `access_type=offline`.
pub proof fn lemma_constant_parameters()
    ensures
        query_pair("response_type"@, "code"@) == "response_type=code"@,
        query_pair("code_challenge_method"@, "S256"@) == "code_challenge_method=S256"@,
        query_pair("access_type"@, "offline"@) == "access_type=offline"@,
{
    reveal_strlit("response_type");
    reveal_strlit("code");
    reveal_strlit("response_type=code");
    reveal_strlit("code_challenge_method");
    reveal_strlit("S256");
    reveal_strlit("code_challenge_method=S256");
    reveal_strlit("access_type");
    reveal_strlit("offline");
    reveal_strlit("access_type=offline");
    lemma_unreserved_value_is_verbatim("response_type"@, "code"@);
    lemma_unreserved_value_is_verbatim("code_challenge_method"@, "S256"@);
    lemma_unreserved_value_is_verbatim("access_type"@, "offline"@);
}

/// For a state made of unreserved characters and a challenge made of
/// URL-safe base64 characters, both stand in the authorization URL exactly as
/// they are; only the client id and the scope can change under encoding.
pub proof fn lemma_authorization_url_shape(
    auth_url: Seq<char>,
    client_id: Seq<char>,
    scope: Seq<char>,
    state: Seq<char>,
    code_challenge: Seq<char>,
)
    requires
        all_unreserved(state),
        all_base64url(code_challenge),
    ensures
        spec_authorization_url(auth_url, client_id, scope, state, code_challenge) == auth_url
            + "?client_id="@ + percent_encode(encode_utf8(client_id))
            + "&response_type=code&scope="@ + percent_encode(encode_utf8(scope)) + "&state="@
            + state + "&code_challenge="@ + code_challenge
            + "&code_challenge_method=S256&access_type=offline"@,
{
    lemma_constant_parameters();
    lemma_base64url_is_unreserved(code_challenge);
    lemma_unreserved_value_is_verbatim("state"@, state);
    lemma_unreserved_value_is_verbatim("code_challenge"@, code_challenge);
    reveal_strlit("client_id");
    reveal_strlit("scope");
    reveal_strlit("state");
    reveal_strlit("code_challenge");
    reveal_strlit("?client_id=");
    reveal_strlit("response_type=code");
    reveal_strlit("&response_type=code&scope=");
    reveal_strlit("&state=");
    reveal_strlit("&code_challenge=");
    reveal_strlit("code_challenge_method=S256");
    reveal_strlit("access_type=offline");
    reveal_strlit("&code_challenge_method=S256&access_type=offline");
    assert(seq!['&'] + "response_type=code"@ + seq!['&'] + ("scope"@ + seq!['='])
        =~= "&response_type=code&scope="@);
    assert(seq!['&'] + "code_challenge_method=S256"@ + seq!['&'] + "access_type=offline"@
        =~= "&code_challenge_method=S256&access_type=offline"@);
    assert(spec_authorization_url(auth_url, client_id, scope, state, code_challenge) =~= auth_url
        + "?client_id="@ + percent_encode(encode_utf8(client_id))
        + "&response_type=code&scope="@ + percent_encode(encode_utf8(scope)) + "&state="@
        + state + "&code_challenge="@ + code_challenge
        + "&code_challenge_method=S256&access_type=offline"@);
}

/// Appends `key=value` to `url`, the value percent-encoded.
fn push_pair(url: &mut String, key: &str, value: &str)
    ensures
        final(url)@ == old(url)@ + query_pair(key@, value@),
{
    let encoded = url_encode(value);
    url.append(key);
    url.append("=");
    url.append(encoded.as_str());
    proof {
        reveal_strlit("=");
    }
}

/// Builds the authorization URL from the endpoint and the values of one
/// attempt.
///
/// The result depends on the five arguments alone: the parameters come in the
/// order `client_id`, `response_type`, `scope`, `state`, `code_challenge`,
/// `code_challenge_method`, `access_type`, and each value is percent-encoded by
/// itself.
pub fn authorization_url(
    auth_url: &str,
    client_id: &str,
    scope: &str,
    state: &str,
    code_challenge: &str,
) -> (url: String)
    ensures
        url@ == spec_authorization_url(auth_url@, client_id@, scope@, state@, code_challenge@),
{
    let mut url = String::from_str(auth_url);
    url.append("?");
    push_pair(&mut url, "client_id", client_id);
    url.append("&");
    push_pair(&mut url, "response_type", "code");
    url.append("&");
    push_pair(&mut url, "scope", scope);
    url.append("&");
    push_pair(&mut url, "state", state);
    url.append("&");
    push_pair(&mut url, "code_challenge", code_challenge);
    url.append("&");
    push_pair(&mut url, "code_challenge_method", "S256");
    url.append("&");
    push_pair(&mut url, "access_type", "offline");
    proof {
        reveal_strlit("?");
        reveal_strlit("&");
    }
    url
}

} // verus!
