//! The device-authorization flow.
//!
//! The flow asks the provider for a device code, has the user code shown, and
//! then polls the token endpoint until the user has decided or the code has
//! run out. The polling is a state machine: [`DevicePoll`] is its state, a
//! reply to one poll together with the time is its input, and a [`PollStep`]
//! says whether to wait and poll again or that the flow has ended. The caller
//! waits, sends and reads the clock; every decision is taken here.
//!
//! Time is counted in whole seconds from an origin of the caller's choice.

use vstd::prelude::*;
use crate::error::{result_view, AuthError, AuthErrorView};
use crate::poll::DevicePoll;
use crate::provider::{join_with_space, AuthProvider, ProviderConfig, ProviderConfigView};
use crate::token::{
    body_or_unknown,
    diagnostic,
    is_success_status,
    rejection,
    status_is_success,
    HttpReply,
    HttpReplyView,
    OAuthTokens,
    OAuthTokensView,
};

verus! {

/// Seconds a single poll may take before it counts as a network failure.
pub const POLL_TIMEOUT_SECS: u64 = 10;

/// The least number of seconds between two polls.
pub const MIN_POLL_INTERVAL_SECS: u64 = 1;

/// The grant type that a poll names.
pub const DEVICE_GRANT_TYPE: &'static str = "urn:ietf:params:oauth:grant-type:device_code";

/// The device-authorization flow of one client against one provider.
pub struct DeviceAuthorizationFlow {
    provider: AuthProvider,
    client_id: String,
    client_secret: String,
}

/// Mathematical value of a [`DeviceAuthorizationFlow`].
pub struct DeviceFlowView {
    pub config: ProviderConfigView,
    pub client_id: Seq<char>,
    pub client_secret: Seq<char>,
}

impl View for DeviceAuthorizationFlow {
    type V = DeviceFlowView;

    closed spec fn view(&self) -> DeviceFlowView {
        DeviceFlowView {
            config: self.provider@,
            client_id: self.client_id@,
            client_secret: self.client_secret@,
        }
    }
}

/// The form fields of the request for a device code.
#[derive(Debug, Clone, PartialEq, Eq)]
pub struct DeviceCodeRequest {
    pub client_id: String,
    pub scope: String,
}

/// Mathematical value of a [`DeviceCodeRequest`].
pub struct DeviceCodeRequestView {
    pub client_id: Seq<char>,
    pub scope: Seq<char>,
}

impl View for DeviceCodeRequest {
    type V = DeviceCodeRequestView;

    open spec fn view(&self) -> DeviceCodeRequestView {
        DeviceCodeRequestView { client_id: self.client_id@, scope: self.scope@ }
    }
}

/// A decoded success body of the device-authorization endpoint. The interval
/// is optional on the wire.
#[derive(Debug, Clone, PartialEq, Eq)]
pub struct DeviceAuthorizationResponse {
    pub device_code: String,
    pub user_code: String,
    pub verification_url: String,
    pub expires_in: u64,
    pub interval: Option<u64>,
}

/// Mathematical value of a [`DeviceAuthorizationResponse`].
pub struct DeviceAuthorizationResponseView {
    pub device_code: Seq<char>,
    pub user_code: Seq<char>,
    pub verification_url: Seq<char>,
    pub expires_in: u64,
    pub interval: Option<u64>,
}

impl View for DeviceAuthorizationResponse {
    type V = DeviceAuthorizationResponseView;

    open spec fn view(&self) -> DeviceAuthorizationResponseView {
        DeviceAuthorizationResponseView {
            device_code: self.device_code@,
            user_code: self.user_code@,
            verification_url: self.verification_url@,
            expires_in: self.expires_in,
            interval: self.interval,
        }
    }
}

/// What the provider issued for one device flow: the code to poll with, the
/// code and address to show, the lifetime in seconds from issuance, and the
/// suggested number of seconds between polls. It lives from the device-code
/// request to the start of the polling.
#[derive(Debug, PartialEq, Eq)]
pub struct DeviceAuthorization {
    pub device_code: String,
    pub user_code: String,
    pub verification_url: String,
    pub expires_in: u64,
    pub interval: u64,
}

/// Mathematical value of a [`DeviceAuthorization`].
pub struct DeviceAuthorizationView {
    pub device_code: Seq<char>,
    pub user_code: Seq<char>,
    pub verification_url: Seq<char>,
    pub expires_in: u64,
    pub interval: u64,
}

impl View for DeviceAuthorization {
    type V = DeviceAuthorizationView;

    open spec fn view(&self) -> DeviceAuthorizationView {
        DeviceAuthorizationView {
            device_code: self.device_code@,
            user_code: self.user_code@,
            verification_url: self.verification_url@,
            expires_in: self.expires_in,
            interval: self.interval,
        }
    }
}

/// The body of one poll of the token endpoint.
#[derive(Debug, Clone, PartialEq, Eq)]
pub struct DeviceTokenRequest {
    pub client_id: String,
    pub client_secret: String,
    pub device_code: String,
    pub grant_type: String,
}

/// Mathematical value of a [`DeviceTokenRequest`].
pub struct DeviceTokenRequestView {
    pub client_id: Seq<char>,
    pub client_secret: Seq<char>,
    pub device_code: Seq<char>,
    pub grant_type: Seq<char>,
}

impl View for DeviceTokenRequest {
    type V = DeviceTokenRequestView;

    open spec fn view(&self) -> DeviceTokenRequestView {
        DeviceTokenRequestView {
            client_id: self.client_id@,
            client_secret: self.client_secret@,
            device_code: self.device_code@,
            grant_type: self.grant_type@,
        }
    }
}

/// A decoded 2xx body of a poll. `error` is absent once the user has
/// authorized; until then the token fields are.
#[derive(Debug, Clone, PartialEq, Eq)]
pub struct RawTokenResponse {
    pub access_token: Option<String>,
    pub refresh_token: Option<String>,
    pub expires_in: Option<u64>,
    pub error: Option<String>,
}

/// Mathematical value of a [`RawTokenResponse`].
pub struct RawTokenResponseView {
    pub access_token: Option<Seq<char>>,
    pub refresh_token: Option<Seq<char>>,
    pub expires_in: Option<u64>,
    pub error: Option<Seq<char>>,
}

impl View for RawTokenResponse {
    type V = RawTokenResponseView;

    open spec fn view(&self) -> RawTokenResponseView {
        RawTokenResponseView {
            access_token: self.access_token.deep_view(),
            refresh_token: self.refresh_token.deep_view(),
            expires_in: self.expires_in,
            error: self.error.deep_view(),
        }
    }
}

/// What one poll found out.
#[derive(Debug, Clone, PartialEq, Eq)]
pub enum PollOutcome {
    /// The user has not decided yet.
    Pending,
    /// The user has not decided yet, and the provider asks for longer waits.
    SlowDown,
    /// The user has authorized; these are the tokens.
    Success(OAuthTokens),
    /// The user has refused.
    Denied,
    /// The device code has run out.
    Expired,
    /// The poll failed for good; the text says how.
    Fatal(String),
}

/// Mathematical value of a [`PollOutcome`].
pub enum PollOutcomeView {
    Pending,
    SlowDown,
    Success(OAuthTokensView),
    Denied,
    Expired,
    Fatal(Seq<char>),
}

impl View for PollOutcome {
    type V = PollOutcomeView;

    open spec fn view(&self) -> PollOutcomeView {
        match self {
            PollOutcome::Pending => PollOutcomeView::Pending,
            PollOutcome::SlowDown => PollOutcomeView::SlowDown,
            PollOutcome::Success(tokens) => PollOutcomeView::Success(tokens@),
            PollOutcome::Denied => PollOutcomeView::Denied,
            PollOutcome::Expired => PollOutcomeView::Expired,
            PollOutcome::Fatal(text) => PollOutcomeView::Fatal(text@),
        }
    }
}

/// The authorization that a decoded body stands for: field for field, with an
/// absent interval read as 0.
pub open spec fn spec_device_authorization(
    body: DeviceAuthorizationResponseView,
) -> DeviceAuthorizationView {
    DeviceAuthorizationView {
        device_code: body.device_code,
        user_code: body.user_code,
        verification_url: body.verification_url,
        expires_in: body.expires_in,
        interval: match body.interval {
            Some(seconds) => seconds,
            None => 0,
        },
    }
}

/// What a reply to the device-code request means.
pub open spec fn spec_device_code_outcome(
    reply: HttpReplyView<DeviceAuthorizationResponseView>,
) -> Result<DeviceAuthorizationView, AuthErrorView> {
    match reply {
        HttpReplyView::Unreachable { reason } => Err(AuthErrorView::NetworkError(reason)),
        HttpReplyView::Response { status, text, decoded } => if !is_success_status(status) {
            Err(
                AuthErrorView::TokenExchangeFailed(
                    "Failed to request device code: "@ + body_or_unknown(text),
                ),
            )
        } else {
            match decoded {
                Ok(body) => Ok(spec_device_authorization(body)),
                Err(e) => Err(
                    AuthErrorView::TokenExchangeFailed(
                        "Failed to parse device authorization response: "@ + e,
                    ),
                ),
            }
        },
    }
}

/// What a decoded 2xx body of a poll means. The `error` field decides; where
/// it is absent the body must hold an access token.
pub open spec fn spec_poll_outcome(body: RawTokenResponseView) -> PollOutcomeView {
    match body.error {
        None => match body.access_token {
            Some(access_token) => PollOutcomeView::Success(
                OAuthTokensView {
                    access_token: access_token,
                    refresh_token: body.refresh_token,
                    expires_in: body.expires_in,
                },
            ),
            None => PollOutcomeView::Fatal(
                "Failed to parse token response: missing field `access_token`"@,
            ),
        },
        Some(error) => if error == "authorization_pending"@ {
            PollOutcomeView::Pending
        } else if error == "slow_down"@ {
            PollOutcomeView::SlowDown
        } else if error == "expired_token"@ {
            PollOutcomeView::Expired
        } else if error == "access_denied"@ {
            PollOutcomeView::Denied
        } else {
            PollOutcomeView::Fatal(error)
        },
    }
}

/// What a reply to one poll means. A transport failure is no outcome of the
/// poll but a failure of the flow. A status outside 2xx is fatal whatever the
/// body says.
pub open spec fn spec_classify_poll(reply: HttpReplyView<RawTokenResponseView>) -> Result<
    PollOutcomeView,
    AuthErrorView,
> {
    match reply {
        HttpReplyView::Unreachable { reason } => Err(AuthErrorView::NetworkError(reason)),
        HttpReplyView::Response { status, text, decoded } => if !is_success_status(status) {
            Ok(PollOutcomeView::Fatal("Failed to poll for tokens: "@ + body_or_unknown(text)))
        } else {
            match decoded {
                Ok(body) => Ok(spec_poll_outcome(body)),
                Err(e) => Ok(PollOutcomeView::Fatal("Failed to parse token response: "@ + e)),
            }
        },
    }
}

/// Tells whether `text` reads exactly as `literal`.
fn reads(text: &String, literal: &str) -> (same: bool)
    ensures
        same == (text@ == literal@),
{
    let other = String::from_str(literal);
    *text == other
}

impl DeviceAuthorization {
    /// The authorization that a decoded body stands for.
    pub fn from_response(body: DeviceAuthorizationResponse) -> (auth: DeviceAuthorization)
        ensures
            auth@ == spec_device_authorization(body@),
    {
        let interval = match body.interval {
            Some(seconds) => seconds,
            None => 0,
        };
        DeviceAuthorization {
            device_code: body.device_code,
            user_code: body.user_code,
            verification_url: body.verification_url,
            expires_in: body.expires_in,
            interval,
        }
    }
}

/// Classifies the reply to the device-code request.
///
/// A transport failure is a `NetworkError`. A status outside 2xx and a 2xx body
/// that did not decode are each a `TokenExchangeFailed` that quotes the body or
/// the decoder. Anything else is the issued authorization.
pub fn device_code_outcome(reply: HttpReply<DeviceAuthorizationResponse>) -> (issued: Result<
    DeviceAuthorization,
    AuthError,
>)
    ensures
        result_view(issued) == spec_device_code_outcome(reply@),
{
    match reply {
        HttpReply::Unreachable { reason } => Err(AuthError::NetworkError(reason)),
        HttpReply::Response { status, text, decoded } => {
            if !status_is_success(status) {
                Err(
                    AuthError::TokenExchangeFailed(
                        rejection("Failed to request device code: ", text),
                    ),
                )
            } else {
                match decoded {
                    Ok(body) => Ok(DeviceAuthorization::from_response(body)),
                    Err(e) => Err(
                        AuthError::TokenExchangeFailed(
                            diagnostic(
                                "Failed to parse device authorization response: ",
                                e.as_str(),
                            ),
                        ),
                    ),
                }
            }
        },
    }
}

/// Reads the outcome of a poll off its decoded 2xx body.
///
/// No `error` means success, with the tokens of the body. The errors
/// `authorization_pending`, `slow_down`, `expired_token` and `access_denied`
/// each have an outcome of their own. Any other error is fatal and is carried
/// as it came.
pub fn poll_outcome(body: RawTokenResponse) -> (outcome: PollOutcome)
    ensures
        outcome@ == spec_poll_outcome(body@),
{
    match body.error {
        None => match body.access_token {
            Some(access_token) => PollOutcome::Success(
                OAuthTokens {
                    access_token,
                    refresh_token: body.refresh_token,
                    expires_in: body.expires_in,
                },
            ),
            None => PollOutcome::Fatal(
                String::from_str("Failed to parse token response: missing field `access_token`"),
            ),
        },
        Some(error) => {
            if reads(&error, "authorization_pending") {
                PollOutcome::Pending
            } else if reads(&error, "slow_down") {
                PollOutcome::SlowDown
            } else if reads(&error, "expired_token") {
                PollOutcome::Expired
            } else if reads(&error, "access_denied") {
                PollOutcome::Denied
            } else {
                PollOutcome::Fatal(error)
            }
        },
    }
}

/// Classifies the reply to one poll.
pub fn classify_poll(reply: HttpReply<RawTokenResponse>) -> (classified: Result<
    PollOutcome,
    AuthError,
>)
    ensures
        result_view(classified) == spec_classify_poll(reply@),
{
    match reply {
        HttpReply::Unreachable { reason } => Err(AuthError::NetworkError(reason)),
        HttpReply::Response { status, text, decoded } => {
            if !status_is_success(status) {
                Ok(PollOutcome::Fatal(rejection("Failed to poll for tokens: ", text)))
            } else {
                match decoded {
                    Ok(body) => Ok(poll_outcome(body)),
                    Err(e) => Ok(
                        PollOutcome::Fatal(
                            diagnostic("Failed to parse token response: ", e.as_str()),
                        ),
                    ),
                }
            }
        },
    }
}

impl DeviceAuthorizationFlow {
    /// A flow for the client `client_id` against `provider`.
    pub fn new(provider: AuthProvider, client_id: String, client_secret: String) -> (flow: Self)
        ensures
            flow@ == (DeviceFlowView {
                config: provider@,
                client_id: client_id@,
                client_secret: client_secret@,
            }),
    {
        Self { provider, client_id, client_secret }
    }

    /// The provider configuration this flow works against.
    pub fn config(&self) -> (config: &ProviderConfig)
        ensures
            config@ == self@.config,
    {
        self.provider.config()
    }

    /// The form fields of the request for a device code: the client id and
    /// the scopes joined by single spaces.
    pub fn device_code_request(&self) -> (request: DeviceCodeRequest)
        ensures
            request@ == (DeviceCodeRequestView {
                client_id: self@.client_id,
                scope: join_with_space(self@.config.scopes),
            }),
    {
        DeviceCodeRequest {
            client_id: self.client_id.clone(),
            scope: self.provider.config().scopes_str(),
        }
    }

    /// The body of the next poll of `poll`.
    pub fn poll_request(&self, poll: &DevicePoll) -> (request: DeviceTokenRequest)
        ensures
            request@ == (DeviceTokenRequestView {
                client_id: self@.client_id,
                client_secret: self@.client_secret,
                device_code: poll@.device_code,
                grant_type: DEVICE_GRANT_TYPE@,
            }),
    {
        DeviceTokenRequest {
            client_id: self.client_id.clone(),
            client_secret: self.client_secret.clone(),
            device_code: String::from_str(poll.device_code()),
            grant_type: String::from_str(DEVICE_GRANT_TYPE),
        }
    }
}

} // verus!
