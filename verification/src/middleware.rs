//! What stands before the use cases: the authentication of a request.

use crate::handler::{claims_of, Claims};
use crate::json::Json;
use crate::middleware::auth::{authenticate, authenticated, bearer_token, checked, AuthState};
use vstd::prelude::*;

pub mod auth;

verus! {

/// Makes the authentication that stands before a service, for callers
/// with the claims that the handlers read. It holds the secret that tokens
/// are signed with.
pub struct Jwt {
    jwt_secret: String,
}

impl Jwt {
    /// The maker for tokens signed with `jwt_secret`.
    pub fn new(jwt_secret: String) -> (r: Self)
        ensures
            r.secret() == jwt_secret,
    {
        Self { jwt_secret }
    }

    /// The secret that tokens are signed with.
    pub closed spec fn secret(&self) -> String {
        self.jwt_secret
    }

    /// The authentication before the service `service`.
    pub fn new_transform<S>(&self, service: S) -> (r: JwtMiddleware<S>)
        ensures
            r.inner() == service,
            r.secret() == self.secret(),
    {
        JwtMiddleware { service, jwt_secret: self.jwt_secret.clone() }
    }
}

/// The authentication before one service.
pub struct JwtMiddleware<S> {
    jwt_secret: String,
    service: S,
}

impl<S> JwtMiddleware<S> {
    /// The secret that tokens are signed with.
    pub closed spec fn secret(&self) -> String {
        self.jwt_secret
    }

    /// The service that authenticated requests go on to.
    pub closed spec fn inner(&self) -> S {
        self.service
    }

    /// The service that authenticated requests go on to.
    pub fn service(&self) -> (r: &S)
        ensures
            *r == self.inner(),
    {
        &self.service
    }

    /// Authenticates a request by its `Authorization` header. Only a
    /// request that ends with its claims attached goes on to the service.
    /// Where the header carries a token, it is this token that is checked,
    /// against the secret that this was made with, and the authentication
    /// ends as [`attached_claims`] says of what was read of it.
    pub fn call(&self, authorization: Option<&str>) -> (r: AuthState<Claims>)
        ensures
            r.terminal(),
            authorization is None ==> r is Rejected,
            authorization matches Some(header) && bearer_token(header@) is None ==> r is Rejected,
            authorization is Some && bearer_token(authorization->0@) is Some ==> exists|
                payload: Option<Json>,
            |
                checked(bearer_token(authorization->0@)->0, self.secret()@, payload)
                    && #[trigger] attached_claims(payload, r),
    {
        let shape = Claims::default();
        let r = authenticate(self.jwt_secret.as_str(), &shape, authorization);
        proof {
            if authorization is Some && bearer_token(authorization->0@) is Some {
                let payload = choose|payload: Option<Json>|
                    checked(bearer_token(authorization->0@)->0, self.jwt_secret@, payload)
                        && #[trigger] authenticated(&shape, payload, r);
                assert(attached_claims(payload, r));
            }
        }
        r
    }
}

/// Whether `r` is how the authentication ends where `payload` was read of
/// the token: rejected where there is no payload or the payload does not
/// give the claims; else with the claims attached that the payload gives.
pub open spec fn attached_claims(payload: Option<Json>, r: AuthState<Claims>) -> bool {
    match payload {
        None => r is Rejected,
        Some(read) => match claims_of(read@) {
            Ok(claims) => r is ClaimsAttached && r->claims@ == claims,
            Err(_) => r is Rejected,
        },
    }
}

} // verus!
