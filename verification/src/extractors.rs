//! Request extractors of authenticated requests, as plain values.

use vstd::prelude::*;
use crate::error::{AuthError, AuthErrorView};
use crate::jwt::{bearer_spec, bearer_token};

verus! {

/// Requires an authenticated user loaded from the database.
pub struct CurrentUser<U>(pub U);

/// Optional authenticated user: never fails the request.
pub struct MaybeUser<U>(pub Option<U>);

/// Raw bearer token string from the `Authorization` header.
#[derive(Debug, Clone, PartialEq, Eq)]
pub struct AuthToken(pub String);

impl AuthToken {
    /// The bearer token of the `Authorization` header value (`None` when the
    /// header is absent or not text), or `InvalidToken`.
    pub fn from_authorization(header: Option<&str>) -> (r: Result<AuthToken, AuthError>)
        ensures
            match r {
                Ok(t) => header is Some && bearer_spec(header->0@) == Some(t.0@),
                Err(e) => e@ == AuthErrorView::InvalidToken && (header is None || bearer_spec(
                    header->0@,
                ) is None),
            },
    {
        match bearer_token(header) {
            Some(t) => Ok(AuthToken(t)),
            None => Err(AuthError::InvalidToken),
        }
    }
}

} // verus!
