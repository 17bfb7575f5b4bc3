//! The provider's endpoints and scopes, as a flow receives them.

use vstd::prelude::*;

verus! {

/// Endpoints and scopes of one authorization server. A flow reads it and never
/// changes it.
#[derive(Debug, Clone, PartialEq, Eq)]
pub struct ProviderConfig {
    pub auth_url: String,
    pub token_url: String,
    pub device_authorization_url: String,
    pub scopes: Vec<String>,
}

/// Mathematical value of a [`ProviderConfig`].
pub struct ProviderConfigView {
    pub auth_url: Seq<char>,
    pub token_url: Seq<char>,
    pub device_authorization_url: Seq<char>,
    pub scopes: Seq<Seq<char>>,
}

impl View for ProviderConfig {
    type V = ProviderConfigView;

    open spec fn view(&self) -> ProviderConfigView {
        ProviderConfigView {
            auth_url: self.auth_url@,
            token_url: self.token_url@,
            device_authorization_url: self.device_authorization_url@,
            scopes: self.scopes.deep_view(),
        }
    }
}

/// The parts in order, with one space between neighbours.
pub open spec fn join_with_space(parts: Seq<Seq<char>>) -> Seq<char>
    decreases parts.len(),
{
    if parts.len() == 0 {
        Seq::empty()
    } else if parts.len() == 1 {
        parts[0]
    } else {
        join_with_space(parts.drop_last()) + seq![' '] + parts.last()
    }
}

impl ProviderConfig {
    /// The scopes as one text, separated by single spaces.
    pub fn scopes_str(&self) -> (joined: String)
        ensures
            joined@ == join_with_space(self@.scopes),
    {
        let mut joined = String::new();
        let count = self.scopes.len();
        let mut done: usize = 0;
        while done < count
            invariant
                count == self.scopes.len(),
                done <= count,
                joined@ == join_with_space(self@.scopes.take(done as int)),
            decreases count - done,
        {
            proof {
                reveal_strlit(" ");
                assert(self@.scopes.take(done as int + 1).drop_last() =~= self@.scopes.take(
                    done as int,
                ));
            }
            if done > 0 {
                joined.append(" ");
            }
            joined.append(self.scopes[done].as_str());
            done = done + 1;
        }
        proof {
            assert(self@.scopes.take(count as int) =~= self@.scopes);
        }
        joined
    }
}

/// The source of a flow's [`ProviderConfig`].
#[derive(Debug, Clone, PartialEq, Eq)]
pub struct AuthProvider {
    config: ProviderConfig,
}

impl View for AuthProvider {
    type V = ProviderConfigView;

    closed spec fn view(&self) -> ProviderConfigView {
        self.config@
    }
}

impl AuthProvider {
    /// A provider that supplies `config`.
    pub fn new(config: ProviderConfig) -> (provider: AuthProvider)
        ensures
            provider@ == config@,
    {
        AuthProvider { config }
    }

    /// The configuration this provider supplies.
    pub fn config(&self) -> (config: &ProviderConfig)
        ensures
            config@ == self@,
    {
        &self.config
    }
}

} // verus!
