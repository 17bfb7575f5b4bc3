//! The authorization-code flow with PKCE.
//!
//! One attempt moves in a straight line and is never retried.
//! [`OAuthFlow::begin`] generates the PKCE pair and the state and builds the
//! URL to show; what it returns is the attempt while it waits for the user's
//! code. The caller shows the URL and reads what the user pastes.
//! [`OAuthFlow::redeem`] checks that input and yields the token request; the
//! attempt is then being exchanged. The caller posts the request, and
//! [`code_exchange_outcome`](crate::token::code_exchange_outcome) says what the
//! reply means, which ends the attempt. A failure at any step ends it there.

use vstd::prelude::*;
use crate::error::{result_view, AuthError};
use crate::pkce::{
    all_base64url,
    all_unreserved,
    code_challenge,
    random_text,
    spec_code_challenge,
    CHALLENGE_LEN,
    STATE_LEN,
    VERIFIER_LEN,
};
use crate::prompt::{authorization_code, spec_authorization_code, PromptError};
use crate::provider::{join_with_space, AuthProvider, ProviderConfig, ProviderConfigView};
use crate::token::{TokenRequest, TokenRequestView};
use crate::url::{authorization_url, spec_authorization_url};

verus! {

/// The authorization-code flow of one client against one provider.
pub struct OAuthFlow {
    provider: AuthProvider,
    client_id: String,
    client_secret: String,
}

/// Mathematical value of an [`OAuthFlow`].
pub struct OAuthFlowView {
    pub config: ProviderConfigView,
    pub client_id: Seq<char>,
    pub client_secret: Seq<char>,
}

impl View for OAuthFlow {
    type V = OAuthFlowView;

    closed spec fn view(&self) -> OAuthFlowView {
        OAuthFlowView {
            config: self.provider@,
            client_id: self.client_id@,
            client_secret: self.client_secret@,
        }
    }
}

/// What one authorization attempt holds between showing the URL and redeeming
/// the code. It is made for one attempt and used once.
///
/// The state goes out in the URL and is not looked at again: the code comes
/// back by hand, not by a callback that would carry a state to compare.
#[derive(Debug, PartialEq, Eq)]
pub struct AuthorizationAttempt {
    /// The URL the user has to visit.
    pub auth_url: String,
    /// The state sent along in the URL.
    pub state: String,
    /// The verifier whose challenge was sent along in the URL.
    pub code_verifier: String,
}

/// Mathematical value of an [`AuthorizationAttempt`].
pub struct AuthorizationAttemptView {
    pub auth_url: Seq<char>,
    pub state: Seq<char>,
    pub code_verifier: Seq<char>,
}

impl View for AuthorizationAttempt {
    type V = AuthorizationAttemptView;

    open spec fn view(&self) -> AuthorizationAttemptView {
        AuthorizationAttemptView {
            auth_url: self.auth_url@,
            state: self.state@,
            code_verifier: self.code_verifier@,
        }
    }
}

/// Whether `attempt` is one that `flow` can have begun: a verifier of 128 and
/// a state of 32 unreserved characters, and the URL that carries this state
/// and the challenge of this verifier.
pub open spec fn is_attempt_of(attempt: AuthorizationAttemptView, flow: OAuthFlowView) -> bool {
    &&& attempt.code_verifier.len() == VERIFIER_LEN
    &&& all_unreserved(attempt.code_verifier)
    &&& attempt.state.len() == STATE_LEN
    &&& all_unreserved(attempt.state)
    &&& attempt.auth_url == spec_flow_authorization_url(
        flow,
        flow.config,
        attempt.state,
        spec_code_challenge(attempt.code_verifier),
    )
}

/// The body of the token request for `code` and `code_verifier`.
pub open spec fn spec_token_request(
    flow: OAuthFlowView,
    code: Seq<char>,
    code_verifier: Seq<char>,
) -> TokenRequestView {
    TokenRequestView {
        client_id: flow.client_id,
        client_secret: flow.client_secret,
        code: code,
        grant_type: "authorization_code"@,
        code_verifier: code_verifier,
    }
}

/// The authorization URL of `flow` for the given state and challenge.
pub open spec fn spec_flow_authorization_url(
    flow: OAuthFlowView,
    config: ProviderConfigView,
    state: Seq<char>,
    code_challenge: Seq<char>,
) -> Seq<char> {
    spec_authorization_url(
        config.auth_url,
        flow.client_id,
        join_with_space(config.scopes),
        state,
        code_challenge,
    )
}

impl OAuthFlow {
    /// A flow for the client `client_id` against `provider`. The account name
    /// plays no part in the flow.
    pub fn new(
        provider: AuthProvider,
        _account_name: String,
        client_id: String,
        client_secret: String,
    ) -> (flow: Self)
        ensures
            flow@ == (OAuthFlowView {
                config: provider@,
                client_id: client_id@,
                client_secret: client_secret@,
            }),
    {
        Self { provider, client_id, client_secret }
    }

    /// The provider configuration this flow works against.
    pub fn config(&self) -> (config: &ProviderConfig)
        ensures
            config@ == self@.config,
    {
        self.provider.config()
    }

    /// Generates a fresh verifier and its challenge, in the order
    /// `(challenge, verifier)`.
    ///
    /// The verifier has exactly 128 characters, each unreserved. The challenge
    /// is the one that belongs to this verifier; it has 43 characters, each of
    /// the URL-safe base64 alphabet, so none of them is `+`, `/` or `=`.
    pub fn generate_pkce_pair() -> (pair: (String, String))
        ensures
            pair.1@.len() == VERIFIER_LEN,
            all_unreserved(pair.1@),
            pair.0@ == spec_code_challenge(pair.1@),
            pair.0@.len() == CHALLENGE_LEN,
            all_base64url(pair.0@),
            forall|i: int|
                0 <= i < pair.0@.len() ==> pair.0@[i] != '+' && pair.0@[i] != '/' && pair.0@[i]
                    != '=',
    {
        let verifier = random_text(VERIFIER_LEN);
        let challenge = code_challenge(verifier.as_str());
        (challenge, verifier)
    }

    /// Generates a fresh state: exactly 32 characters, each unreserved.
    pub fn generate_state() -> (state: String)
        ensures
            state@.len() == STATE_LEN,
            all_unreserved(state@),
    {
        random_text(STATE_LEN)
    }

    /// Builds the URL that the user has to visit. It never fails, and the
    /// result depends on the flow and the three arguments alone.
    pub fn build_authorization_url(
        &self,
        config: &ProviderConfig,
        state: &str,
        code_challenge: &str,
    ) -> (url: Result<String, AuthError>)
        ensures
            url matches Ok(text) && text@ == spec_flow_authorization_url(
                self@,
                config@,
                state@,
                code_challenge@,
            ),
    {
        let scope = config.scopes_str();
        Ok(
            authorization_url(
                config.auth_url.as_str(),
                self.client_id.as_str(),
                scope.as_str(),
                state,
                code_challenge,
            ),
        )
    }

    /// Starts an attempt: generates the PKCE pair and the state and builds the
    /// URL from them.
    ///
    /// The URL carries the state of the attempt and the challenge of the
    /// attempt's own verifier.
    pub fn begin(&self) -> (attempt: Result<AuthorizationAttempt, AuthError>)
        ensures
            attempt matches Ok(a) && is_attempt_of(a@, self@),
    {
        let (code_challenge, code_verifier) = Self::generate_pkce_pair();
        let state = Self::generate_state();
        let auth_url = self.build_authorization_url(
            self.provider.config(),
            state.as_str(),
            code_challenge.as_str(),
        )?;
        Ok(AuthorizationAttempt { auth_url, state, code_verifier })
    }

    /// The body of the token request that trades `code` for tokens.
    pub fn token_request(&self, code: &str, code_verifier: &str) -> (request: TokenRequest)
        ensures
            request@ == spec_token_request(self@, code@, code_verifier@),
    {
        TokenRequest {
            client_id: self.client_id.clone(),
            client_secret: self.client_secret.clone(),
            code: String::from_str(code),
            grant_type: String::from_str("authorization_code"),
            code_verifier: String::from_str(code_verifier),
        }
    }

    /// Takes what the user pasted for `attempt` and yields the token request.
    /// The attempt is used up either way.
    ///
    /// Input that holds no code ends the attempt with the error that
    /// [`authorization_code`] gives, and no request is made. Otherwise the
    /// request carries the trimmed code and the verifier of the attempt.
    pub fn redeem(
        &self,
        attempt: AuthorizationAttempt,
        input: Result<String, PromptError>,
    ) -> (request: Result<TokenRequest, AuthError>)
        ensures
            match spec_authorization_code(result_view(input)) {
                Ok(code) => request matches Ok(r) && r@ == spec_token_request(
                    self@,
                    code,
                    attempt@.code_verifier,
                ),
                Err(e) => request matches Err(err) && err@ == e,
            },
    {
        match authorization_code(input) {
            Ok(code) => Ok(self.token_request(code.as_str(), attempt.code_verifier.as_str())),
            Err(e) => Err(e),
        }
    }
}

} // verus!
