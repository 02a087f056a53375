//! The credential verifier: bearer tokens signed with a shared secret.

use std::sync::Arc;
use vstd::prelude::*;
use crate::error::AuthError;
use crate::text::{has_prefix, strip_prefix};

verus! {

/// The claims of a verified token as a mathematical record.
pub struct ClaimsView {
    pub sub: Seq<char>,
    pub company: Seq<char>,
    pub exp: u64,
}

/// The claims of a verified token: its subject, the subject's tenant, and the
/// second (UTC, since 1970) in which the token expires.
#[derive(Debug, Clone, PartialEq, Eq)]
pub struct Claims {
    pub sub: String,
    pub company: String,
    pub exp: u64,
}

impl View for Claims {
    type V = ClaimsView;

    open spec fn view(&self) -> ClaimsView {
        ClaimsView { sub: self.sub@, company: self.company@, exp: self.exp }
    }
}

/// The payload of a token as a mathematical record.
pub struct PayloadView {
    pub sub: Option<Seq<char>>,
    pub company: Option<Seq<char>>,
    pub exp: Option<u64>,
}

/// What a token with a good signature carries of the three claims: each is
/// absent where the payload lacks it or holds a value of another type.
#[derive(Debug, Clone, PartialEq, Eq)]
pub struct Payload {
    pub sub: Option<String>,
    pub company: Option<String>,
    pub exp: Option<u64>,
}

/// The text of an optional string.
pub open spec fn text_of(s: Option<String>) -> Option<Seq<char>> {
    match s {
        Some(s) => Some(s@),
        None => None,
    }
}

impl View for Payload {
    type V = PayloadView;

    open spec fn view(&self) -> PayloadView {
        PayloadView { sub: text_of(self.sub), company: text_of(self.company), exp: self.exp }
    }
}

/// The payload that `jsonwebtoken` decodes from `token` under the HMAC key
/// `secret`, with its default validation but for the expiry; `None` where it
/// refuses the token.
pub uninterp spec fn signed_payload(token: Seq<char>, secret: Seq<char>) -> Option<PayloadView>;

/// The claims of a payload that holds all three.
pub open spec fn claims_of(payload: PayloadView) -> Option<ClaimsView> {
    if payload.sub is Some && payload.company is Some && payload.exp is Some {
        Some(
            ClaimsView {
                sub: payload.sub->0,
                company: payload.company->0,
                exp: payload.exp->0,
            },
        )
    } else {
        None
    }
}

/// The judgement on a decoded payload at the second `now`: a payload that
/// lacks a claim is invalid, one whose expiry lies before `now` is expired.
pub open spec fn judged(payload: PayloadView, now: u64) -> Result<ClaimsView, AuthError> {
    match claims_of(payload) {
        None => Err(AuthError::Invalid),
        Some(claims) => if claims.exp < now {
            Err(AuthError::Expired)
        } else {
            Ok(claims)
        },
    }
}

/// The judgement on a token at the second `now`.
pub open spec fn validated(token: Seq<char>, secret: Seq<char>, now: u64) -> Result<
    ClaimsView,
    AuthError,
> {
    match signed_payload(token, secret) {
        None => Err(AuthError::Invalid),
        Some(payload) => judged(payload, now),
    }
}

/// The prefix that marks a bearer token in an `Authorization` header.
pub open spec fn bearer_prefix() -> Seq<char> {
    "Bearer "@
}

/// The token of an `Authorization` header: what follows the bearer prefix.
pub open spec fn bearer_of(header: Option<Seq<char>>) -> Option<Seq<char>> {
    match header {
        Some(value) => if has_prefix(value, bearer_prefix()) {
            Some(value.skip(bearer_prefix().len() as int))
        } else {
            None
        },
        None => None,
    }
}

/// The judgement on a request's `Authorization` header at the second `now`.
pub open spec fn verified(header: Option<Seq<char>>, secret: Seq<char>, now: u64) -> Result<
    ClaimsView,
    AuthError,
> {
    match bearer_of(header) {
        None => Err(AuthError::Missing),
        Some(token) => validated(token, secret, now),
    }
}

/// The text of an optional string slice.
pub open spec fn header_text(header: Option<&str>) -> Option<Seq<char>> {
    match header {
        Some(value) => Some(value@),
        None => None,
    }
}

/// `result` is the exec form of the judgement `expected`.
pub open spec fn agrees(result: Result<Claims, AuthError>, expected: Result<ClaimsView, AuthError>) -> bool {
    match result {
        Ok(claims) => expected == Ok::<ClaimsView, AuthError>(claims@),
        Err(cause) => expected == Err::<ClaimsView, AuthError>(cause),
    }
}

/// A header that is the bearer prefix followed by a token carries that token.
pub proof fn lemma_bearer_header_carries_token(token: Seq<char>)
    ensures
        bearer_of(Some(bearer_prefix() + token)) == Some(token),
{
    let header = bearer_prefix() + token;
    let n = bearer_prefix().len() as int;
    assert(header.subrange(0, n) =~= bearer_prefix());
    assert(header.skip(n) =~= token);
}

/// A token that the secret signs, that holds the three claims and that has
/// not expired at `now` is accepted when it comes in a bearer header, and
/// its claims are handed out.
pub proof fn lemma_unexpired_token_is_accepted(token: Seq<char>, secret: Seq<char>, now: u64)
    requires
        signed_payload(token, secret) is Some,
        claims_of(signed_payload(token, secret)->0) is Some,
        claims_of(signed_payload(token, secret)->0)->0.exp >= now,
    ensures
        verified(Some(bearer_prefix() + token), secret, now) == Ok::<ClaimsView, AuthError>(
            claims_of(signed_payload(token, secret)->0)->0,
        ),
{
    lemma_bearer_header_carries_token(token);
}

/// A request without an `Authorization` header, with one that lacks the
/// bearer prefix, with a token that the secret does not sign or that lacks a
/// claim, or with a token whose expiry lies before `now`, is refused, each
/// with its own reason.
pub proof fn lemma_unacceptable_credentials(header: Seq<char>, token: Seq<char>, secret: Seq<char>, now: u64)
    ensures
        verified(None, secret, now) == Err::<ClaimsView, AuthError>(AuthError::Missing),
        !has_prefix(header, bearer_prefix()) ==> verified(Some(header), secret, now) == Err::<
            ClaimsView,
            AuthError,
        >(AuthError::Missing),
        signed_payload(token, secret) is None ==> validated(token, secret, now) == Err::<
            ClaimsView,
            AuthError,
        >(AuthError::Invalid),
        signed_payload(token, secret) matches Some(payload) && claims_of(payload) is None
            ==> validated(token, secret, now) == Err::<ClaimsView, AuthError>(AuthError::Invalid),
        signed_payload(token, secret) matches Some(payload) && claims_of(payload) matches Some(
            claims,
        ) && claims.exp < now ==> validated(token, secret, now) == Err::<ClaimsView, AuthError>(
            AuthError::Expired,
        ),
{
}

/// Trusted: `jsonwebtoken::decode` into a `serde_json::Value`, with the key
/// of `DecodingKey::from_secret` and `Validation::default()` with
/// `validate_exp` switched off, followed by reading the claims `sub`,
/// `company` and `exp` with `Value::get`, `as_str` and `as_u64`.
///
/// With the expiry check off the call does not read the clock, so the
/// contract claims that its outcome depends on the token and the secret
/// alone: it is the payload named by `signed_payload`, and `None` exactly
/// where `jsonwebtoken` returns an error.
#[verifier::external_body]
fn decode_payload(token: &str, secret: &str) -> (r: Option<Payload>)
    ensures
        r matches Some(payload) ==> signed_payload(token@, secret@) == Some(payload@),
        r is None ==> signed_payload(token@, secret@) is None,
{
    let mut validation = jsonwebtoken::Validation::default();
    validation.validate_exp = false;
    let key = jsonwebtoken::DecodingKey::from_secret(secret.as_bytes());
    let claims = jsonwebtoken::decode::<serde_json::Value>(token, &key, &validation).ok()?.claims;
    Some(Payload {
        sub: claims.get("sub").and_then(|v| v.as_str()).map(String::from),
        company: claims.get("company").and_then(|v| v.as_str()).map(String::from),
        exp: claims.get("exp").and_then(|v| v.as_u64()),
    })
}

/// Judges a decoded payload at the second `now`.
pub fn claims_from_payload(payload: Payload, now: u64) -> (r: Result<Claims, AuthError>)
    ensures
        agrees(r, judged(payload@, now)),
{
    let Payload { sub, company, exp } = payload;
    match (sub, company, exp) {
        (Some(sub), Some(company), Some(exp)) => {
            if exp < now {
                Err(AuthError::Expired)
            } else {
                Ok(Claims { sub, company, exp })
            }
        },
        _ => Err(AuthError::Invalid),
    }
}

/// Checks a token's structure and signature against `secret` and its expiry
/// against `now`.
pub fn validate_jwt(token: &str, secret: &str, now: u64) -> (r: Result<Claims, AuthError>)
    ensures
        agrees(r, validated(token@, secret@, now)),
{
    match decode_payload(token, secret) {
        Some(payload) => claims_from_payload(payload, now),
        None => Err(AuthError::Invalid),
    }
}

/// Extracts the bearer token from the value of an `Authorization` header.
pub fn bearer_token<'a>(header: Option<&'a str>) -> (token: Option<&'a str>)
    ensures
        header_text(token) == bearer_of(header_text(header)),
{
    match header {
        Some(value) => strip_prefix(value, "Bearer "),
        None => None,
    }
}

/// Verifies the credential of a request: the value of its `Authorization`
/// header, if it has one, against `secret` at the second `now`.
pub fn verify(header: Option<&str>, secret: &str, now: u64) -> (r: Result<Claims, AuthError>)
    ensures
        agrees(r, verified(header_text(header), secret@, now)),
{
    match bearer_token(header) {
        Some(token) => validate_jwt(token, secret, now),
        None => Err(AuthError::Missing),
    }
}

/// The credential verifier of a route, configured with the shared secret.
pub struct JwtValidator {
    pub secret: Arc<String>,
}

impl JwtValidator {
    /// A verifier for tokens signed with `secret`.
    pub fn new(secret: Arc<String>) -> (validator: Self)
        ensures
            validator.secret == secret,
    {
        JwtValidator { secret }
    }

    /// Wraps `service`: the result hands it out to verified requests only.
    pub fn new_transform<S>(&self, service: S) -> (guard: JwtValidatorMiddleware<S>)
        ensures
            guard.service() == service,
            guard.secret() == self.secret@,
    {
        JwtValidatorMiddleware { service, secret: Arc::clone(&self.secret) }
    }
}

/// A service behind the credential verifier.
pub struct JwtValidatorMiddleware<S> {
    service: S,
    secret: Arc<String>,
}

impl<S> JwtValidatorMiddleware<S> {
    /// The wrapped service.
    pub closed spec fn service(&self) -> S {
        self.service
    }

    /// The secret that tokens must be signed with.
    pub closed spec fn secret(&self) -> Seq<char> {
        self.secret@
    }

    /// Admits a request by the value of its `Authorization` header: hands out
    /// the wrapped service and the token's claims if the credential holds at
    /// the second `now`, and the reason of the refusal if it does not.
    pub fn call(&self, header: Option<&str>, now: u64) -> (r: Result<(&S, Claims), AuthError>)
        ensures
            match r {
                Ok((service, claims)) => *service == self.service() && verified(
                    header_text(header),
                    self.secret(),
                    now,
                ) == Ok::<ClaimsView, AuthError>(claims@),
                Err(cause) => verified(header_text(header), self.secret(), now) == Err::<
                    ClaimsView,
                    AuthError,
                >(cause),
            },
    {
        match verify(header, self.secret.as_str(), now) {
            Ok(claims) => Ok((&self.service, claims)),
            Err(cause) => Err(cause),
        }
    }
}

} // verus!
