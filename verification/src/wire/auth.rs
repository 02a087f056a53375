//! Messages of the authentication backend.

use vstd::prelude::*;
use crate::models::auth_models::CredentialPair;

verus! {

/// Asks whether a user is an administrator.
#[derive(Debug, Clone, PartialEq, Eq)]
pub struct IsAdminRequest {
    pub user_id: String,
}

impl View for IsAdminRequest {
    type V = Seq<char>;

    open spec fn view(&self) -> Seq<char> {
        self.user_id@
    }
}

/// The backend's answer to an administrator check.
#[derive(Debug, Clone, PartialEq, Eq)]
pub struct IsAdminResponse {
    pub is_admin: bool,
}

impl View for IsAdminResponse {
    type V = bool;

    open spec fn view(&self) -> bool {
        self.is_admin
    }
}

/// Registers a user.
#[derive(Debug, Clone, PartialEq, Eq)]
pub struct RegisterRequest {
    pub email: String,
    pub password: String,
}

impl View for RegisterRequest {
    type V = CredentialPair;

    open spec fn view(&self) -> CredentialPair {
        CredentialPair { email: self.email@, secret: self.password@ }
    }
}

/// The identifier the backend assigned to a new user.
#[derive(Debug, Clone, PartialEq, Eq)]
pub struct RegisterResponse {
    pub user_id: String,
}

impl View for RegisterResponse {
    type V = Seq<char>;

    open spec fn view(&self) -> Seq<char> {
        self.user_id@
    }
}

/// A login as a mathematical record.
pub struct LoginCall {
    pub email: Seq<char>,
    pub password: Seq<char>,
    pub app_id: i32,
}

/// Logs a user in to an application.
#[derive(Debug, Clone, PartialEq, Eq)]
pub struct LoginRequest {
    pub email: String,
    pub password: String,
    pub app_id: i32,
}

impl View for LoginRequest {
    type V = LoginCall;

    open spec fn view(&self) -> LoginCall {
        LoginCall { email: self.email@, password: self.password@, app_id: self.app_id }
    }
}

/// The token the backend issued for a login.
#[derive(Debug, Clone, PartialEq, Eq)]
pub struct LoginResponse {
    pub token: String,
}

impl View for LoginResponse {
    type V = Seq<char>;

    open spec fn view(&self) -> Seq<char> {
        self.token@
    }
}

} // verus!
