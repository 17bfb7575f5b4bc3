//! The failures an authorization attempt can end with.

use vstd::prelude::*;

verus! {

/// Why an authorization attempt did not produce tokens.
#[derive(Debug, Clone, PartialEq, Eq)]
pub enum AuthError {
    /// The transport failed: no connection, or a single request timed out.
    NetworkError(String),
    /// The server answered outside 2xx, or its success body could not be
    /// decoded; the text says which.
    TokenExchangeFailed(String),
    /// The overall deadline of the flow passed, or the server reported the
    /// device code as expired.
    CallbackTimeout,
    /// The user refused the authorization request.
    UserCancelled,
    /// Local input or state was unusable.
    ConfigError(String),
}

/// Mathematical value of an [`AuthError`]: the variant with its text as a
/// sequence of characters.
pub enum AuthErrorView {
    NetworkError(Seq<char>),
    TokenExchangeFailed(Seq<char>),
    CallbackTimeout,
    UserCancelled,
    ConfigError(Seq<char>),
}

impl View for AuthError {
    type V = AuthErrorView;

    open spec fn view(&self) -> AuthErrorView {
        match self {
            AuthError::NetworkError(m) => AuthErrorView::NetworkError(m@),
            AuthError::TokenExchangeFailed(m) => AuthErrorView::TokenExchangeFailed(m@),
            AuthError::CallbackTimeout => AuthErrorView::CallbackTimeout,
            AuthError::UserCancelled => AuthErrorView::UserCancelled,
            AuthError::ConfigError(m) => AuthErrorView::ConfigError(m@),
        }
    }
}

/// Mathematical value of a result: that of its value or that of its error.
pub open spec fn result_view<T: View, E: View>(r: Result<T, E>) -> Result<T::V, E::V> {
    match r {
        Ok(value) => Ok(value@),
        Err(e) => Err(e@),
    }
}

} // verus!
