//! Authentication state, as the identity provider resolves it.
//!
//! The state is set once per login cycle by the platform's authentication
//! gate and read whenever a request is built: an authenticated user's token
//! is attached as a bearer credential, and its absence never blocks a
//! request.

use vstd::prelude::*;

verus! {

/// The signed-in user: display name and bearer token.
#[derive(Debug, PartialEq)]
pub struct AuthUser {
    pub name: String,
    pub token: String,
}

pub ghost struct SpecAuthUser {
    pub name: Seq<char>,
    pub token: Seq<char>,
}

impl DeepView for AuthUser {
    type V = SpecAuthUser;

    open spec fn deep_view(&self) -> SpecAuthUser {
        SpecAuthUser { name: self.name.deep_view(), token: self.token.deep_view() }
    }
}

/// Tri-state authentication result: not yet resolved, signed in, or signed
/// out.
#[derive(Debug, PartialEq)]
pub enum AuthState {
    Unknown,
    Yes(AuthUser),
    No,
}

pub ghost enum SpecAuthState {
    Unknown,
    Yes(SpecAuthUser),
    No,
}

impl DeepView for AuthState {
    type V = SpecAuthState;

    open spec fn deep_view(&self) -> SpecAuthState {
        match self {
            AuthState::Unknown => SpecAuthState::Unknown,
            AuthState::Yes(user) => SpecAuthState::Yes(user.deep_view()),
            AuthState::No => SpecAuthState::No,
        }
    }
}

} // verus!
