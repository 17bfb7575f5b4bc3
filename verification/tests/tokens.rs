use oauth_flow::error::AuthError;
use oauth_flow::token::{
    code_exchange_outcome, diagnostic, rejection, status_is_success, HttpReply, OAuthTokens,
    TokenResponse,
};

#[test]
fn test_oauth_tokens_creation() {
    let tokens = OAuthTokens {
        access_token: "test_token".to_string(),
        refresh_token: Some("refresh_token".to_string()),
        expires_in: Some(3600),
    };

    assert_eq!(tokens.access_token, "test_token");
    assert!(tokens.refresh_token.is_some());
}

fn response(
    status: u16,
    text: Option<&str>,
    decoded: Result<TokenResponse, &str>,
) -> HttpReply<TokenResponse> {
    HttpReply::Response {
        status,
        text: text.map(|t| t.to_string()),
        decoded: decoded.map_err(|e| e.to_string()),
    }
}

fn granted() -> TokenResponse {
    TokenResponse {
        access_token: "at-1".to_string(),
        refresh_token: Some("rt-1".to_string()),
        expires_in: Some(3600),
    }
}

#[test]
fn status_success_is_exactly_2xx() {
    assert!(!status_is_success(0));
    assert!(!status_is_success(199));
    assert!(status_is_success(200));
    assert!(status_is_success(204));
    assert!(status_is_success(299));
    assert!(!status_is_success(300));
    assert!(!status_is_success(404));
    assert!(!status_is_success(u16::MAX));
}

#[test]
fn diagnostic_joins_prefix_and_detail() {
    assert_eq!(diagnostic("Failed: ", "boom"), "Failed: boom");
    assert_eq!(diagnostic("", ""), "");
}

#[test]
fn rejection_quotes_body_or_unknown() {
    assert_eq!(rejection("Oops: ", Some("bad".to_string())), "Oops: bad");
    assert_eq!(rejection("Oops: ", Some(String::new())), "Oops: ");
    assert_eq!(rejection("Oops: ", None), "Oops: Unknown error");
}

#[test]
fn exchange_success_copies_every_field() {
    let outcome = code_exchange_outcome(response(200, Some("{}"), Ok(granted())));
    assert_eq!(
        outcome,
        Ok(OAuthTokens {
            access_token: "at-1".to_string(),
            refresh_token: Some("rt-1".to_string()),
            expires_in: Some(3600),
        })
    );
}

#[test]
fn exchange_success_without_optional_fields() {
    let body = TokenResponse {
        access_token: "only".to_string(),
        refresh_token: None,
        expires_in: None,
    };
    let outcome = code_exchange_outcome(response(201, None, Ok(body)));
    assert_eq!(
        outcome,
        Ok(OAuthTokens { access_token: "only".to_string(), refresh_token: None, expires_in: None })
    );
}

#[test]
fn exchange_transport_failure_is_network_error() {
    let outcome =
        code_exchange_outcome(HttpReply::Unreachable { reason: "connection refused".to_string() });
    assert_eq!(outcome, Err(AuthError::NetworkError("connection refused".to_string())));
}

#[test]
fn exchange_non_2xx_quotes_the_body() {
    let outcome =
        code_exchange_outcome(response(400, Some("invalid_grant"), Ok(granted())));
    assert_eq!(
        outcome,
        Err(AuthError::TokenExchangeFailed(
            "Failed to exchange authorization code: invalid_grant".to_string()
        ))
    );
}

#[test]
fn exchange_non_2xx_with_unreadable_body() {
    let outcome = code_exchange_outcome(response(500, None, Err("no body")));
    assert_eq!(
        outcome,
        Err(AuthError::TokenExchangeFailed(
            "Failed to exchange authorization code: Unknown error".to_string()
        ))
    );
}

#[test]
fn exchange_undecodable_success_body_is_exchange_failure() {
    let outcome = code_exchange_outcome(response(
        200,
        Some("<html>"),
        Err("expected value at line 1 column 1"),
    ));
    assert_eq!(
        outcome,
        Err(AuthError::TokenExchangeFailed(
            "Failed to parse token response: expected value at line 1 column 1".to_string()
        ))
    );
}

#[test]
fn exchange_status_boundaries() {
    assert!(code_exchange_outcome(response(199, Some("x"), Ok(granted()))).is_err());
    assert!(code_exchange_outcome(response(200, Some("x"), Ok(granted()))).is_ok());
    assert!(code_exchange_outcome(response(299, Some("x"), Ok(granted()))).is_ok());
    assert!(code_exchange_outcome(response(300, Some("x"), Ok(granted()))).is_err());
}
