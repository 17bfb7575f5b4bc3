//! The token endpoint: what is sent to it, what comes back, and what a reply
//! means.
//!
//! Nothing here touches the network. A caller posts the request, then hands the
//! reply over as an [`HttpReply`]; the functions of this module classify it.

use vstd::prelude::*;
use crate::error::{result_view, AuthError, AuthErrorView};

verus! {

/// Tokens granted by the authorization server.
#[derive(Debug, Clone, PartialEq, Eq)]
pub struct OAuthTokens {
    pub access_token: String,
    pub refresh_token: Option<String>,
    pub expires_in: Option<u64>,
}

/// Mathematical value of [`OAuthTokens`].
pub struct OAuthTokensView {
    pub access_token: Seq<char>,
    pub refresh_token: Option<Seq<char>>,
    pub expires_in: Option<u64>,
}

impl View for OAuthTokens {
    type V = OAuthTokensView;

    open spec fn view(&self) -> OAuthTokensView {
        OAuthTokensView {
            access_token: self.access_token@,
            refresh_token: self.refresh_token.deep_view(),
            expires_in: self.expires_in,
        }
    }
}

/// Body of the request that trades an authorization code for tokens.
#[derive(Debug, Clone, PartialEq, Eq)]
pub struct TokenRequest {
    pub client_id: String,
    pub client_secret: String,
    pub code: String,
    pub grant_type: String,
    pub code_verifier: String,
}

/// Mathematical value of a [`TokenRequest`].
pub struct TokenRequestView {
    pub client_id: Seq<char>,
    pub client_secret: Seq<char>,
    pub code: Seq<char>,
    pub grant_type: Seq<char>,
    pub code_verifier: Seq<char>,
}

impl View for TokenRequest {
    type V = TokenRequestView;

    open spec fn view(&self) -> TokenRequestView {
        TokenRequestView {
            client_id: self.client_id@,
            client_secret: self.client_secret@,
            code: self.code@,
            grant_type: self.grant_type@,
            code_verifier: self.code_verifier@,
        }
    }
}

/// A decoded success body of the token endpoint.
#[derive(Debug, Clone, PartialEq, Eq)]
pub struct TokenResponse {
    pub access_token: String,
    pub refresh_token: Option<String>,
    pub expires_in: Option<u64>,
}

impl View for TokenResponse {
    type V = OAuthTokensView;

    open spec fn view(&self) -> OAuthTokensView {
        OAuthTokensView {
            access_token: self.access_token@,
            refresh_token: self.refresh_token.deep_view(),
            expires_in: self.expires_in,
        }
    }
}

/// What one HTTP request came back with, as plain values.
///
/// `text` is the body read as text, `None` if it could not be read; `decoded`
/// is the same body decoded into `T`, or the decoder's complaint.
#[derive(Debug)]
pub enum HttpReply<T> {
    /// No response arrived: the connection failed or the request timed out.
    Unreachable { reason: String },
    /// A response arrived.
    Response { status: u16, text: Option<String>, decoded: Result<T, String> },
}

/// Mathematical value of an [`HttpReply`].
pub enum HttpReplyView<V> {
    Unreachable { reason: Seq<char> },
    Response { status: u16, text: Option<Seq<char>>, decoded: Result<V, Seq<char>> },
}

impl<T: View> View for HttpReply<T> {
    type V = HttpReplyView<T::V>;

    open spec fn view(&self) -> HttpReplyView<T::V> {
        match self {
            HttpReply::Unreachable { reason } => HttpReplyView::Unreachable { reason: reason@ },
            HttpReply::Response { status, text, decoded } => HttpReplyView::Response {
                status: *status,
                text: text.deep_view(),
                decoded: result_view(*decoded),
            },
        }
    }
}

/// Whether `status` lies in the 2xx range.
pub open spec fn is_success_status(status: u16) -> bool {
    200 <= status <= 299
}

/// The body text of a rejected request as it is quoted in diagnostics.
pub open spec fn body_or_unknown(text: Option<Seq<char>>) -> Seq<char> {
    match text {
        Some(t) => t,
        None => "Unknown error"@,
    }
}

/// What a reply to the code-for-tokens request means.
pub open spec fn spec_code_exchange_outcome(reply: HttpReplyView<OAuthTokensView>) -> Result<
    OAuthTokensView,
    AuthErrorView,
> {
    match reply {
        HttpReplyView::Unreachable { reason } => Err(AuthErrorView::NetworkError(reason)),
        HttpReplyView::Response { status, text, decoded } => if !is_success_status(status) {
            Err(
                AuthErrorView::TokenExchangeFailed(
                    "Failed to exchange authorization code: "@ + body_or_unknown(text),
                ),
            )
        } else {
            match decoded {
                Ok(tokens) => Ok(tokens),
                Err(e) => Err(
                    AuthErrorView::TokenExchangeFailed("Failed to parse token response: "@ + e),
                ),
            }
        },
    }
}

/// Tells whether an HTTP status is a success (2xx).
pub fn status_is_success(status: u16) -> (ok: bool)
    ensures
        ok == is_success_status(status),
{
    200 <= status && status <= 299
}

/// Joins a fixed prefix and a detail into one diagnostic text.
pub fn diagnostic(prefix: &str, detail: &str) -> (msg: String)
    ensures
        msg@ == prefix@ + detail@,
{
    let mut msg = String::from_str(prefix);
    msg.append(detail);
    msg
}

/// The diagnostic for a response outside 2xx: `prefix` followed by the body
/// text, or by `Unknown error` where the body could not be read.
pub fn rejection(prefix: &str, text: Option<String>) -> (msg: String)
    ensures
        msg@ == prefix@ + body_or_unknown(text.deep_view()),
{
    match text {
        Some(t) => diagnostic(prefix, t.as_str()),
        None => diagnostic(prefix, "Unknown error"),
    }
}

/// Classifies the reply to the code-for-tokens request.
///
/// A transport failure is a `NetworkError` with the transport's own text. A
/// status outside 2xx is a `TokenExchangeFailed` that quotes the body. A 2xx
/// body that did not decode is a `TokenExchangeFailed` that quotes the decoder.
/// Anything else is the decoded tokens, field for field.
pub fn code_exchange_outcome(reply: HttpReply<TokenResponse>) -> (outcome: Result<
    OAuthTokens,
    AuthError,
>)
    ensures
        result_view(outcome) == spec_code_exchange_outcome(reply@),
{
    match reply {
        HttpReply::Unreachable { reason } => Err(AuthError::NetworkError(reason)),
        HttpReply::Response { status, text, decoded } => {
            if !status_is_success(status) {
                Err(
                    AuthError::TokenExchangeFailed(
                        rejection("Failed to exchange authorization code: ", text),
                    ),
                )
            } else {
                match decoded {
                    Ok(body) => Ok(
                        OAuthTokens {
                            access_token: body.access_token,
                            refresh_token: body.refresh_token,
                            expires_in: body.expires_in,
                        },
                    ),
                    Err(e) => Err(
                        AuthError::TokenExchangeFailed(
                            diagnostic("Failed to parse token response: ", e.as_str()),
                        ),
                    ),
                }
            }
        },
    }
}

} // verus!
