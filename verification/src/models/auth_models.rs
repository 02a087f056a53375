//! REST models of the authentication domain.

use vstd::prelude::*;

verus! {

/// Answer to an administrator check.
#[derive(Debug, Clone, PartialEq, Eq)]
pub struct IsAdminResponse {
    pub is_admin: bool,
}

impl View for IsAdminResponse {
    type V = bool;

    open spec fn view(&self) -> bool {
        self.is_admin
    }
}

/// An e-mail address together with a password or with an issued token.
pub struct CredentialPair {
    pub email: Seq<char>,
    pub secret: Seq<char>,
}

/// Body of a login request.
#[derive(Debug, Clone, PartialEq, Eq)]
pub struct LoginRequest {
    pub email: String,
    pub password: String,
}

impl View for LoginRequest {
    type V = CredentialPair;

    open spec fn view(&self) -> CredentialPair {
        CredentialPair { email: self.email@, secret: self.password@ }
    }
}

/// Body of a successful login: the address that logged in and its token.
#[derive(Debug, Clone, PartialEq, Eq)]
pub struct LoginResponse {
    pub email: String,
    pub token: String,
}

impl View for LoginResponse {
    type V = CredentialPair;

    open spec fn view(&self) -> CredentialPair {
        CredentialPair { email: self.email@, secret: self.token@ }
    }
}

/// Body of a registration request.
#[derive(Debug, Clone, PartialEq, Eq)]
pub struct RegisterRequest {
    pub email: String,
    pub password: String,
}

impl View for RegisterRequest {
    type V = CredentialPair;

    open spec fn view(&self) -> CredentialPair {
        CredentialPair { email: self.email@, secret: self.password@ }
    }
}

/// Body of a successful registration: the identifier the backend assigned.
#[derive(Debug, Clone, PartialEq, Eq)]
pub struct RegisterResponse {
    pub user_id: String,
}

impl View for RegisterResponse {
    type V = Seq<char>;

    open spec fn view(&self) -> Seq<char> {
        self.user_id@
    }
}

} // verus!
