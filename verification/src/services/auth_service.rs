//! The proxy of the authentication backend.

use vstd::prelude::*;
use crate::error::{backend_failure, outcome_view, reply_view, BackendStatus, Error, ErrorView, StatusView};
use crate::models::auth_models::{CredentialPair, IsAdminResponse, LoginResponse, RegisterResponse};
use crate::wire::auth;
use crate::wire::auth::LoginCall;

verus! {

/// The application that the gateway logs users in to.
pub open spec fn gateway_app_id() -> i32 {
    -1i32
}

/// What an administrator check returns for the backend's answer.
pub open spec fn is_admin_outcome(reply: Result<bool, StatusView>) -> Result<bool, ErrorView> {
    match reply {
        Ok(is_admin) => Ok(is_admin),
        Err(status) => Err(backend_failure("is_admin failed"@, status)),
    }
}

/// What a registration returns for the backend's answer.
pub open spec fn register_outcome(reply: Result<Seq<char>, StatusView>) -> Result<
    Seq<char>,
    ErrorView,
> {
    match reply {
        Ok(user_id) => Ok(user_id),
        Err(status) => Err(backend_failure("register failed"@, status)),
    }
}

/// What a login of `email` returns for the backend's answer.
pub open spec fn login_outcome(email: Seq<char>, reply: Result<Seq<char>, StatusView>) -> Result<
    CredentialPair,
    ErrorView,
> {
    match reply {
        Ok(token) => Ok(CredentialPair { email, secret: token }),
        Err(status) => Err(backend_failure("login failed"@, status)),
    }
}

/// The proxy of the authentication backend at `endpoint`.
#[derive(Debug, Clone)]
pub struct AuthService {
    pub endpoint: String,
}

impl AuthService {
    /// A proxy for the backend at `auth_endpoint`.
    pub fn new(auth_endpoint: String) -> (service: Self)
        ensures
            service.endpoint == auth_endpoint,
    {
        AuthService { endpoint: auth_endpoint }
    }

    /// The wire request of an administrator check.
    pub fn is_admin_request(&self, user_id: &str) -> (request: auth::IsAdminRequest)
        ensures
            request@ == user_id@,
    {
        auth::IsAdminRequest { user_id: String::from_str(user_id) }
    }

    /// Translates the backend's answer to an administrator check.
    pub fn is_admin(&self, reply: Result<auth::IsAdminResponse, BackendStatus>) -> (outcome: Result<
        IsAdminResponse,
        Error,
    >)
        ensures
            outcome_view(outcome) == is_admin_outcome(reply_view(reply)),
    {
        match reply {
            Ok(answer) => Ok(IsAdminResponse { is_admin: answer.is_admin }),
            Err(status) => Err(Error::backend_failure(String::from_str("is_admin failed"), status)),
        }
    }

    /// The wire request of a registration.
    pub fn register_request(&self, email: &str, password: &str) -> (request: auth::RegisterRequest)
        ensures
            request@ == (CredentialPair { email: email@, secret: password@ }),
    {
        auth::RegisterRequest {
            email: String::from_str(email),
            password: String::from_str(password),
        }
    }

    /// Translates the backend's answer to a registration.
    pub fn register(&self, reply: Result<auth::RegisterResponse, BackendStatus>) -> (outcome: Result<
        RegisterResponse,
        Error,
    >)
        ensures
            outcome_view(outcome) == register_outcome(reply_view(reply)),
    {
        match reply {
            Ok(answer) => Ok(RegisterResponse { user_id: answer.user_id }),
            Err(status) => Err(Error::backend_failure(String::from_str("register failed"), status)),
        }
    }

    /// The wire request of a login.
    pub fn login_request(&self, email: &str, password: &str) -> (request: auth::LoginRequest)
        ensures
            request@ == (LoginCall { email: email@, password: password@, app_id: gateway_app_id() }),
    {
        auth::LoginRequest {
            email: String::from_str(email),
            password: String::from_str(password),
            app_id: -1,
        }
    }

    /// Translates the backend's answer to a login of `email`.
    pub fn login(&self, email: &str, reply: Result<auth::LoginResponse, BackendStatus>) -> (outcome:
        Result<LoginResponse, Error>)
        ensures
            outcome_view(outcome) == login_outcome(email@, reply_view(reply)),
    {
        match reply {
            Ok(answer) => Ok(LoginResponse { email: String::from_str(email), token: answer.token }),
            Err(status) => Err(Error::backend_failure(String::from_str("login failed"), status)),
        }
    }
}

} // verus!
