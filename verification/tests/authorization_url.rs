use oauth_flow::flow::OAuthFlow;
use oauth_flow::provider::{AuthProvider, ProviderConfig};
use oauth_flow::url::authorization_url;

fn sample_config(scopes: &[&str]) -> ProviderConfig {
    ProviderConfig {
        auth_url: "https://auth.example.com/authorize".to_string(),
        token_url: "https://auth.example.com/token".to_string(),
        device_authorization_url: "https://auth.example.com/device".to_string(),
        scopes: scopes.iter().map(|s| s.to_string()).collect(),
    }
}

fn sample_flow(client_id: &str, scopes: &[&str]) -> OAuthFlow {
    OAuthFlow::new(
        AuthProvider::new(sample_config(scopes)),
        "account".to_string(),
        client_id.to_string(),
        "secret".to_string(),
    )
}

#[test]
fn golden_authorization_url() {
    let url = authorization_url(
        "https://auth.example.com/authorize",
        "my client/id",
        "mail.read offline_access",
        "abcDEF-._~123",
        "E9Melhoa2OwvFrEMTJguCHaoeK1t8URWbuGJSstw-cM",
    );
    assert_eq!(
        url,
        "https://auth.example.com/authorize?client_id=my%20client%2Fid&response_type=code\
         &scope=mail.read%20offline_access&state=abcDEF-._~123\
         &code_challenge=E9Melhoa2OwvFrEMTJguCHaoeK1t8URWbuGJSstw-cM\
         &code_challenge_method=S256&access_type=offline"
    );
}

#[test]
fn authorization_url_is_deterministic() {
    let build = || {
        authorization_url("https://a.example/auth", "id", "s1 s2", "state", "challenge")
    };
    assert_eq!(build(), build());
}

#[test]
fn parameters_come_in_a_fixed_order() {
    let url = authorization_url("https://a.example/auth", "id", "scope", "st", "ch");
    let query = url.split_once('?').unwrap().1;
    let keys: Vec<&str> = query.split('&').map(|pair| pair.split_once('=').unwrap().0).collect();
    assert_eq!(
        keys,
        vec![
            "client_id",
            "response_type",
            "scope",
            "state",
            "code_challenge",
            "code_challenge_method",
            "access_type"
        ]
    );
}

#[test]
fn every_value_is_percent_encoded_by_itself() {
    let url = authorization_url("https://a.example/auth", "a&b=c", "x y", "s#t", "c+h/a=l");
    assert_eq!(
        url,
        "https://a.example/auth?client_id=a%26b%3Dc&response_type=code&scope=x%20y\
         &state=s%23t&code_challenge=c%2Bh%2Fa%3Dl&code_challenge_method=S256\
         &access_type=offline"
    );
}

#[test]
fn bytes_beyond_ascii_are_encoded_in_upper_case_hex() {
    let url = authorization_url("u", "\u{e9}", "\u{20ac}", "\u{0}", "\u{7f}");
    assert_eq!(
        url,
        "u?client_id=%C3%A9&response_type=code&scope=%E2%82%AC&state=%00\
         &code_challenge=%7F&code_challenge_method=S256&access_type=offline"
    );
}

fn expected_encoding(text: &str) -> String {
    let mut out = String::new();
    for b in text.bytes() {
        if b.is_ascii_alphanumeric() || b == b'-' || b == b'.' || b == b'_' || b == b'~' {
            out.push(b as char);
        } else {
            out.push_str(&format!("%{:02X}", b));
        }
    }
    out
}

#[test]
fn every_character_up_to_three_bytes_is_encoded_byte_by_byte() {
    let samples = (0u32..0x900).chain([0xffff, 0x1_0000, 0x1_f600, 0x10_ffff]);
    for code in samples {
        let c = match char::from_u32(code) {
            Some(c) => c,
            None => continue,
        };
        let value = format!("a{c}b");
        let url = authorization_url("u", &value, "", "", "");
        let expected = format!(
            "u?client_id={}&response_type=code&scope=&state=&code_challenge=\
             &code_challenge_method=S256&access_type=offline",
            expected_encoding(&value)
        );
        assert_eq!(url, expected);
    }
}

#[test]
fn empty_values_leave_empty_parameters() {
    let url = authorization_url("", "", "", "", "");
    assert_eq!(
        url,
        "?client_id=&response_type=code&scope=&state=&code_challenge=\
         &code_challenge_method=S256&access_type=offline"
    );
}

#[test]
fn the_endpoint_is_not_encoded() {
    let url = authorization_url("https://a.example/auth path", "id", "s", "st", "ch");
    assert!(url.starts_with("https://a.example/auth path?client_id=id&"));
}

#[test]
fn unreserved_values_stand_verbatim() {
    let all = "ABCDEFGHIJKLMNOPQRSTUVWXYZabcdefghijklmnopqrstuvwxyz0123456789-._~";
    let url = authorization_url("u", all, all, all, all);
    assert_eq!(
        url,
        format!(
            "u?client_id={all}&response_type=code&scope={all}&state={all}\
             &code_challenge={all}&code_challenge_method=S256&access_type=offline"
        )
    );
}

#[test]
fn flow_builds_url_from_config_and_client() {
    let flow = sample_flow("client-1", &["mail.read", "offline_access"]);
    let config = sample_config(&["mail.read", "offline_access"]);
    let url = flow.build_authorization_url(&config, "st4te", "ch4llenge").unwrap();
    assert_eq!(
        url,
        "https://auth.example.com/authorize?client_id=client-1&response_type=code\
         &scope=mail.read%20offline_access&state=st4te&code_challenge=ch4llenge\
         &code_challenge_method=S256&access_type=offline"
    );
}

#[test]
fn flow_uses_the_config_it_is_given() {
    let flow = sample_flow("client-1", &["ignored"]);
    let mut other = sample_config(&["a"]);
    other.auth_url = "https://other.example/auth".to_string();
    let url = flow.build_authorization_url(&other, "s", "c").unwrap();
    assert!(url.starts_with("https://other.example/auth?client_id=client-1&"));
    assert!(url.contains("&scope=a&"));
}

#[test]
fn scopes_are_joined_by_single_spaces() {
    assert_eq!(sample_config(&[]).scopes_str(), "");
    assert_eq!(sample_config(&["one"]).scopes_str(), "one");
    assert_eq!(sample_config(&["one", "two"]).scopes_str(), "one two");
    assert_eq!(sample_config(&["one", "two", "three"]).scopes_str(), "one two three");
    assert_eq!(sample_config(&["", "x", ""]).scopes_str(), " x ");
}

#[test]
fn provider_hands_out_its_config() {
    let config = sample_config(&["a", "b"]);
    let provider = AuthProvider::new(config.clone());
    assert_eq!(provider.config(), &config);
    let flow = sample_flow("id", &["a", "b"]);
    assert_eq!(flow.config(), &config);
}
