//! Client-side OAuth 2.0 authorization, written so that every decision of the
//! two supported flows is a verified function on plain values.
//!
//! The authorization-code flow with PKCE and the device-authorization flow are
//! both split at their I/O edges: this crate computes what to send, decides what
//! a reply means and says what to do next; a caller performs the terminal and
//! network work in between.
//!
//! - [`flow`]: the authorization-code flow, from the first URL to the token
//!   request.
//! - [`device`] and [`poll`]: the device flow and its polling state machine.
//! - [`token`]: the token endpoint's replies and the tokens.
//! - [`pkce`], [`url`], [`prompt`]: verifier and challenge, the authorization
//!   URL, the pasted code.
//! - [`provider`], [`error`]: configuration and failures.
//! - [`outside`]: the calls into other code, with what is assumed of each.

pub mod device;
pub mod error;
pub mod flow;
pub mod outside;
pub mod pkce;
pub mod poll;
pub mod prompt;
pub mod provider;
pub mod token;
pub mod url;
