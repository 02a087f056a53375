//! The handlers of the authentication routes.

use vstd::prelude::*;
use crate::error::{reply_view, BackendStatus};
use crate::models::auth_models::{IsAdminResponse, LoginResponse, RegisterResponse};
use crate::routes::{handle_result, mapped, Reply};
use crate::services::auth_service::{is_admin_outcome, login_outcome, register_outcome, AuthService};
use crate::wire::auth;

verus! {

/// Answers an administrator check with the backend's reply.
pub fn is_admin<F>(
    service: &AuthService,
    reply: Result<auth::IsAdminResponse, BackendStatus>,
    log_f: F,
) -> (answer: Reply<IsAdminResponse>) where F: Fn(&IsAdminResponse)
    requires
        forall|value: IsAdminResponse| call_requires(log_f, (&value,)),
    ensures
        answer@ == mapped(is_admin_outcome(reply_view(reply))),
{
    handle_result(service.is_admin(reply), log_f)
}

/// Answers a login of `email` with the backend's reply.
pub fn login<F>(
    service: &AuthService,
    email: &str,
    reply: Result<auth::LoginResponse, BackendStatus>,
    log_f: F,
) -> (answer: Reply<LoginResponse>) where F: Fn(&LoginResponse)
    requires
        forall|value: LoginResponse| call_requires(log_f, (&value,)),
    ensures
        answer@ == mapped(login_outcome(email@, reply_view(reply))),
{
    handle_result(service.login(email, reply), log_f)
}

/// Answers a registration with the backend's reply.
pub fn register<F>(
    service: &AuthService,
    reply: Result<auth::RegisterResponse, BackendStatus>,
    log_f: F,
) -> (answer: Reply<RegisterResponse>) where F: Fn(&RegisterResponse)
    requires
        forall|value: RegisterResponse| call_requires(log_f, (&value,)),
    ensures
        answer@ == mapped(register_outcome(reply_view(reply))),
{
    handle_result(service.register(reply), log_f)
}

} // verus!
