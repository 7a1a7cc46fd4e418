//! Authentication of a request by the bearer token in its `Authorization`
//! header, and the extraction of the caller's claims from the token.

use crate::json::{fits, json_from_value, value_json, Json, MAX_DEPTH};
use crate::text::{ascii_lower, char_ascii_lower, trimmed, trimmed_from};
use std::collections::HashMap;
use vstd::prelude::*;
use vstd::string::StrSliceExecFns;

verus! {

/// A field of the claims of a caller.
#[derive(Debug, Clone, Copy, PartialEq, Eq, Structural)]
pub enum ClaimField {
    Id,
    Username,
    TenantId,
    Email,
    Alias,
}

impl ClaimField {
    /// The name of the field in a token.
    pub open spec fn spec_name(self) -> Seq<char> {
        match self {
            ClaimField::Id => "id"@,
            ClaimField::Username => "username"@,
            ClaimField::TenantId => "tenant_id"@,
            ClaimField::Email => "email"@,
            ClaimField::Alias => "alias"@,
        }
    }

    /// The name of the field in a token.
    pub fn name(&self) -> (r: &'static str)
        ensures
            r@ == self.spec_name(),
    {
        match self {
            ClaimField::Id => "id",
            ClaimField::Username => "username",
            ClaimField::TenantId => "tenant_id",
            ClaimField::Email => "email",
            ClaimField::Alias => "alias",
        }
    }
}

/// Why the payload of a token does not give the claims of a caller.
#[derive(Debug, Clone, Copy, PartialEq, Eq, Structural)]
pub enum ClaimDecodeError {
    /// The payload does not say who the user is.
    NoUser,
    /// The user lacks a field that every caller has.
    Missing(ClaimField),
    /// A field of the user is no text.
    Mistyped(ClaimField),
}

/// Claims that can be read from the payload of a token. An application
/// chooses its own shape of claims by implementing this.
pub trait ClaimExtractable: Sized {
    /// The claims that `v` holds. `self` only stands for the shape.
    fn extract(&self, v: &Json) -> (r: Result<Self, ClaimDecodeError>);
}

/// The scheme of a bearer token, in lower case.
pub open spec fn scheme() -> Seq<char> {
    seq!['b', 'e', 'a', 'r', 'e', 'r']
}

/// Whether `header` begins with the scheme, in whatever case.
pub open spec fn has_scheme(header: Seq<char>) -> bool {
    &&& header.len() >= 6
    &&& forall|i: int| 0 <= i < 6 ==> ascii_lower(#[trigger] header[i]) == scheme()[i]
}

/// The token that the `Authorization` header `header` carries: what
/// follows the scheme, without the white space around it. A header of
/// another scheme carries none.
pub open spec fn bearer_token(header: Seq<char>) -> Option<Seq<char>> {
    if has_scheme(header) {
        Some(trimmed(header.subrange(6, header.len() as int)))
    } else {
        None
    }
}

fn scheme_char(i: usize) -> (r: char)
    requires
        i < 6,
    ensures
        r == scheme()[i as int],
{
    if i == 0 {
        'b'
    } else if i == 1 || i == 4 {
        'e'
    } else if i == 2 {
        'a'
    } else {
        'r'
    }
}

/// The token that the `Authorization` header `header` carries, if it is of
/// the bearer scheme.
pub fn read_bearer_token(header: &str) -> (r: Option<String>)
    ensures
        match r {
            Some(token) => bearer_token(header@) == Some(token@),
            None => bearer_token(header@) is None,
        },
{
    let n = header.unicode_len();
    if n < 6 {
        return None;
    }
    let mut i: usize = 0;
    while i < 6
        invariant
            i <= 6,
            header@.len() >= 6,
            forall|k: int| 0 <= k < i ==> ascii_lower(#[trigger] header@[k]) == scheme()[k],
        decreases 6 - i,
    {
        if char_ascii_lower(header.get_char(i)) != scheme_char(i) {
            return None;
        }
        i += 1;
    }
    Some(trimmed_from(header, 6))
}

/// Checks the token `token` against the secret `secret` with
/// `jsonwebtoken::decode`, for the algorithm HS256, and hands out its
/// payload as `serde_json` read it, which is an object. There is none
/// where the token is not well formed, not signed with the secret, without
/// a time of expiry or past it. The clock decides on the last, so nothing
/// is claimed of when there is a payload, nor of what it holds;
/// `jsonwebtoken` stops the program where the clock stands before 1970.
#[verifier::external_body]
fn decode_hs256(token: &str, secret: &str) -> (r: Option<serde_json::Value>)
    ensures
        r matches Some(payload) ==> value_json(payload) is Object,
{
    jsonwebtoken::decode::<HashMap<String, serde_json::Value>>(
        token,
        &jsonwebtoken::DecodingKey::from_secret(secret.as_ref()),
        &jsonwebtoken::Validation::new(jsonwebtoken::Algorithm::HS256),
    ).ok().map(|data| serde_json::Value::Object(data.claims.into_iter().collect()))
}

/// Whether `read` is what is read of the payload `decoded` of a token: the
/// structured value that the payload holds, unless there is no payload or
/// a value in it is nested more than [`MAX_DEPTH`] deep.
pub open spec fn read_of(decoded: Option<serde_json::Value>, read: Option<Json>) -> bool {
    match decoded {
        None => read is None,
        Some(payload) => match read {
            Some(json) => fits(value_json(payload), MAX_DEPTH as nat) && json@ == value_json(
                payload,
            ),
            None => !fits(value_json(payload), MAX_DEPTH as nat),
        },
    }
}

/// Whether `payload` is what was read of the token `token`, checked
/// against the secret `secret`: the check of this token with this secret
/// gave an answer, and `payload` is what [`read_of`] says of that answer.
pub closed spec fn checked(token: Seq<char>, secret: Seq<char>, payload: Option<Json>) -> bool {
    exists|t: &str, s: &str, decoded: Option<serde_json::Value>|
        t@ == token && s@ == secret && #[trigger] call_ensures(decode_hs256, (t, s), decoded)
            && read_of(decoded, payload)
}

/// A payload that was read of a checked token is an object, and no value
/// in it is nested more than [`MAX_DEPTH`] deep.
pub proof fn lemma_checked(token: Seq<char>, secret: Seq<char>, payload: Option<Json>)
    requires
        checked(token, secret, payload),
    ensures
        payload matches Some(json) ==> json@ is Object && fits(json@, MAX_DEPTH as nat),
{
}

/// The payload of the token `token`, if the token is genuine by the secret
/// `secret` and its payload is not nested too deep to be read: what
/// [`read_of`] says of what the check of the token gave. A payload that is
/// read is an object.
fn read_payload(token: &str, secret: &str) -> (r: Option<Json>)
    ensures
        exists|decoded: Option<serde_json::Value>|
            call_ensures(decode_hs256, (token, secret), decoded) && #[trigger] read_of(
                decoded,
                r,
            ),
        checked(token@, secret@, r),
        r matches Some(json) ==> json@ is Object && fits(json@, MAX_DEPTH as nat),
{
    let decoded = decode_hs256(token, secret);
    let ghost given = decoded;
    assert(call_ensures(decode_hs256, (token, secret), given));
    let r = match decoded {
        Some(value) => json_from_value(value, MAX_DEPTH),
        None => None,
    };
    assert(read_of(given, r));
    r
}

/// The status that answers a request that is not authenticated.
pub const UNAUTHORIZED: u16 = 401;

/// What a request that is not authenticated is told.
pub fn not_authorized() -> (r: &'static str)
    ensures
        r@ == "not authorized"@,
{
    "not authorized"
}

/// How far the authentication of a request has come. It ends with the
/// claims attached, or with the request rejected.
#[derive(Debug, PartialEq)]
pub enum AuthState<T> {
    /// Nothing is known of the request.
    Unauthenticated,
    /// The request carries a bearer token.
    TokenPresent { token: String },
    /// The token is genuine, and this is its payload.
    Decoded { payload: Json },
    /// The payload gave the claims: the request goes on with them.
    ClaimsAttached { claims: T },
    /// The request is answered as not authorized, and goes no further.
    Rejected,
}

impl<T> AuthState<T> {
    /// Whether the authentication has ended.
    pub open spec fn terminal(self) -> bool {
        self is ClaimsAttached || self is Rejected
    }

    /// From nothing known to a token present: the request has an
    /// `Authorization` header of the bearer scheme, or is rejected.
    pub fn present(authorization: Option<&str>) -> (r: Self)
        ensures
            r == match authorization {
                None => AuthState::<T>::Rejected,
                Some(header) => match bearer_token(header@) {
                    None => AuthState::<T>::Rejected,
                    Some(_) => AuthState::<T>::TokenPresent { token: r->token },
                },
            },
            r matches AuthState::TokenPresent { token } ==> Some(token@) == bearer_token(
                authorization->0@,
            ),
    {
        match authorization {
            None => AuthState::Rejected,
            Some(header) => match read_bearer_token(header) {
                None => AuthState::Rejected,
                Some(token) => AuthState::TokenPresent { token },
            },
        }
    }

    /// From a token present to its payload decoded: the token was found
    /// genuine and had the payload `payload`, or the request is rejected.
    pub fn decoded(payload: Option<Json>) -> (r: Self)
        ensures
            r == match payload {
                None => AuthState::<T>::Rejected,
                Some(payload) => AuthState::<T>::Decoded { payload },
            },
    {
        match payload {
            None => AuthState::Rejected,
            Some(payload) => AuthState::Decoded { payload },
        }
    }

    /// From the payload decoded to the end: the payload gave the claims
    /// `extracted`, or the request is rejected.
    pub fn attached(extracted: Result<T, ClaimDecodeError>) -> (r: Self)
        ensures
            r == match extracted {
                Err(_) => AuthState::<T>::Rejected,
                Ok(claims) => AuthState::<T>::ClaimsAttached { claims },
            },
    {
        match extracted {
            Err(_) => AuthState::Rejected,
            Ok(claims) => AuthState::ClaimsAttached { claims },
        }
    }
}

/// Whether `r` is how the authentication ends where `payload` was read of
/// the token: rejected where there is no payload; else as the reading of
/// the claims of the shape `shape` from the payload ends, with the claims
/// attached where it gives them and rejected where it does not.
pub open spec fn authenticated<T: ClaimExtractable>(
    shape: &T,
    payload: Option<Json>,
    r: AuthState<T>,
) -> bool {
    match payload {
        None => r is Rejected,
        Some(read) => exists|extracted: Result<T, ClaimDecodeError>|
            #[trigger] call_ensures(T::extract, (shape, &read), extracted) && r == (match extracted
            {
                Ok(claims) => AuthState::<T>::ClaimsAttached { claims },
                Err(_) => AuthState::<T>::Rejected,
            }),
    }
}

/// Authenticates a request: reads the bearer token of its `Authorization`
/// header `authorization`, checks it against `jwt_secret`, and reads the
/// claims of the shape `shape` from its payload. The request is rejected
/// where it has no such header, where the token is not genuine or its
/// payload nested too deep, and where the payload does not give the claims;
/// which it is, is not told. Where the header carries a token, it is this
/// token that is checked, against this secret, and the authentication ends
/// as [`authenticated`] says of what was read of it.
pub fn authenticate<T: ClaimExtractable>(
    jwt_secret: &str,
    shape: &T,
    authorization: Option<&str>,
) -> (r: AuthState<T>)
    ensures
        r.terminal(),
        authorization is None ==> r is Rejected,
        authorization matches Some(header) && bearer_token(header@) is None ==> r is Rejected,
        authorization is Some && bearer_token(authorization->0@) is Some ==> exists|
            payload: Option<Json>,
        |
            checked(bearer_token(authorization->0@)->0, jwt_secret@, payload)
                && #[trigger] authenticated(shape, payload, r),
{
    match AuthState::<T>::present(authorization) {
        AuthState::TokenPresent { token } => {
            let payload = read_payload(token.as_str(), jwt_secret);
            let ghost read = payload;
            match AuthState::<T>::decoded(payload) {
                AuthState::Decoded { payload } => {
                    let extracted = shape.extract(&payload);
                    let ghost given = extracted;
                    let r = AuthState::attached(extracted);
                    proof {
                        assert(call_ensures(T::extract, (shape, &payload), given));
                        assert(authenticated(shape, read, r));
                    }
                    r
                },
                _ => {
                    assert(authenticated(shape, read, AuthState::<T>::Rejected));
                    AuthState::Rejected
                },
            }
        },
        _ => AuthState::Rejected,
    }
}

/// Makes the authentication that stands before a service: it holds the
/// secret that tokens are signed with, and the shape of the claims.
pub struct JwtExtractor<T: ClaimExtractable + Clone> {
    jwt_secret: String,
    claims: T,
}

impl<T: ClaimExtractable + Clone> JwtExtractor<T> {
    /// The maker for tokens signed with `jwt_secret` and claims of the
    /// shape of `c`.
    pub fn new(jwt_secret: String, c: T) -> (r: Self)
        ensures
            r.secret() == jwt_secret,
            r.shape() == c,
    {
        Self { jwt_secret, claims: c }
    }

    /// The secret that tokens are signed with.
    pub closed spec fn secret(&self) -> String {
        self.jwt_secret
    }

    /// The shape of the claims.
    pub closed spec fn shape(&self) -> T {
        self.claims
    }

    /// The authentication before the service `service`: with the same
    /// secret, and with a copy of the shape of the claims.
    pub fn new_transform<S>(&self, service: S) -> (r: JWTExtractorMiddleware<S, T>)
        ensures
            r.inner() == service,
            r.secret() == self.secret(),
            call_ensures(T::clone, (&self.shape(),), r.shape()),
    {
        JWTExtractorMiddleware {
            service,
            jwt_secret: self.jwt_secret.clone(),
            claims: self.claims.clone(),
        }
    }
}

/// The authentication before one service.
pub struct JWTExtractorMiddleware<S, T: ClaimExtractable> {
    jwt_secret: String,
    service: S,
    claims: T,
}

impl<S, T: ClaimExtractable> JWTExtractorMiddleware<S, T> {
    /// The secret that tokens are signed with.
    pub closed spec fn secret(&self) -> String {
        self.jwt_secret
    }

    /// The service that authenticated requests go on to.
    pub closed spec fn inner(&self) -> S {
        self.service
    }

    /// The service that authenticated requests go on to.
    pub fn service(&self) -> (r: &S)
        ensures
            *r == self.inner(),
    {
        &self.service
    }

    /// The shape of the claims.
    pub closed spec fn shape(&self) -> T {
        self.claims
    }

    /// Authenticates a request by its `Authorization` header. Only a
    /// request that ends with its claims attached goes on to the service.
    /// Where the header carries a token, it is this token that is checked,
    /// against the secret that this was made with, and the authentication
    /// ends as [`authenticated`] says of what was read of it.
    pub fn call(&self, authorization: Option<&str>) -> (r: AuthState<T>)
        ensures
            r.terminal(),
            authorization is None ==> r is Rejected,
            authorization matches Some(header) && bearer_token(header@) is None ==> r is Rejected,
            authorization is Some && bearer_token(authorization->0@) is Some ==> exists|
                payload: Option<Json>,
            |
                checked(bearer_token(authorization->0@)->0, self.secret()@, payload)
                    && #[trigger] authenticated(&self.shape(), payload, r),
    {
        let r = authenticate(self.jwt_secret.as_str(), &self.claims, authorization);
        proof {
            if authorization is Some && bearer_token(authorization->0@) is Some {
                let payload = choose|payload: Option<Json>|
                    checked(bearer_token(authorization->0@)->0, self.jwt_secret@, payload)
                        && #[trigger] authenticated(&self.claims, payload, r);
                assert(authenticated(&self.shape(), payload, r));
            }
        }
        r
    }
}

} // verus!
