//! The boundary with the web server: the claims that a request carries,
//! and how each failure is answered.

use crate::auth::User;
use crate::json::{first_named, Json, JsonView, Member, MemberView};
use crate::middleware::auth::{ClaimDecodeError, ClaimExtractable, ClaimField};
use crate::service::experiment::{ServiceError, StoreError, UserError};
use crate::service::Context;
use vstd::prelude::*;
use vstd::std_specs::convert::FromSpecImpl;
use vstd::string::StringExecFns;

pub mod experiment_create;
pub mod experiment_delete;
pub mod experiment_get;
pub mod experiment_list;

verus! {

/// The claims of a caller: who they are, and the tenant they act for.
#[derive(Debug, Clone, PartialEq, Eq)]
pub struct Claims {
    pub id: String,
    pub username: String,
    pub tenant_id: String,
    pub email: String,
    pub alias: String,
}

/// The mathematical value of [`Claims`].
pub struct ClaimsView {
    pub id: Seq<char>,
    pub username: Seq<char>,
    pub tenant_id: Seq<char>,
    pub email: Seq<char>,
    pub alias: Seq<char>,
}

impl View for Claims {
    type V = ClaimsView;

    open spec fn view(&self) -> ClaimsView {
        ClaimsView {
            id: self.id@,
            username: self.username@,
            tenant_id: self.tenant_id@,
            email: self.email@,
            alias: self.alias@,
        }
    }
}

/// The text of a field that every caller has: the field must be there, and
/// be a text.
pub open spec fn required_text(user: JsonView, field: ClaimField) -> Result<
    Seq<char>,
    ClaimDecodeError,
> {
    match user.member(field.spec_name()) {
        None => Err(ClaimDecodeError::Missing(field)),
        Some(value) => match value.text() {
            Some(text) => Ok(text),
            None => Err(ClaimDecodeError::Mistyped(field)),
        },
    }
}

/// The text of a field that a caller may lack: empty where the field is not
/// there; where it is, it must be a text.
pub open spec fn optional_text(user: JsonView, field: ClaimField) -> Result<
    Seq<char>,
    ClaimDecodeError,
> {
    match user.member(field.spec_name()) {
        None => Ok(Seq::empty()),
        Some(value) => match value.text() {
            Some(text) => Ok(text),
            None => Err(ClaimDecodeError::Mistyped(field)),
        },
    }
}

/// The claims that the user `user` of a payload gives, or the first thing
/// that is wrong with it, going by id, user name, tenant, e-mail and alias.
pub open spec fn claims_of_user(user: JsonView) -> Result<ClaimsView, ClaimDecodeError> {
    match required_text(user, ClaimField::Id) {
        Err(e) => Err(e),
        Ok(id) => match optional_text(user, ClaimField::Username) {
            Err(e) => Err(e),
            Ok(username) => match required_text(user, ClaimField::TenantId) {
                Err(e) => Err(e),
                Ok(tenant_id) => match optional_text(user, ClaimField::Email) {
                    Err(e) => Err(e),
                    Ok(email) => match optional_text(user, ClaimField::Alias) {
                        Err(e) => Err(e),
                        Ok(alias) => Ok(ClaimsView { id, username, tenant_id, email, alias }),
                    },
                },
            },
        },
    }
}

/// The claims that the payload `bag` of a token gives. They stand under
/// `user`. The id and the tenant must be there; the user name, the e-mail
/// and the alias are empty where they are not. Each must be a text.
pub open spec fn claims_of(bag: JsonView) -> Result<ClaimsView, ClaimDecodeError> {
    match bag.member("user"@) {
        None => Err(ClaimDecodeError::NoUser),
        Some(user) => claims_of_user(user),
    }
}

fn read_required(user: &Json, field: ClaimField) -> (r: Result<String, ClaimDecodeError>)
    ensures
        match r {
            Ok(text) => required_text(user@, field) == Ok::<Seq<char>, ClaimDecodeError>(text@),
            Err(e) => required_text(user@, field) == Err::<Seq<char>, ClaimDecodeError>(e),
        },
{
    match user.get(field.name()) {
        None => Err(ClaimDecodeError::Missing(field)),
        Some(value) => match value.as_text() {
            Some(text) => Ok(String::from_str(text)),
            None => Err(ClaimDecodeError::Mistyped(field)),
        },
    }
}

fn read_optional(user: &Json, field: ClaimField) -> (r: Result<String, ClaimDecodeError>)
    ensures
        match r {
            Ok(text) => optional_text(user@, field) == Ok::<Seq<char>, ClaimDecodeError>(text@),
            Err(e) => optional_text(user@, field) == Err::<Seq<char>, ClaimDecodeError>(e),
        },
{
    match user.get(field.name()) {
        None => Ok(String::new()),
        Some(value) => match value.as_text() {
            Some(text) => Ok(String::from_str(text)),
            None => Err(ClaimDecodeError::Mistyped(field)),
        },
    }
}

impl ClaimExtractable for Claims {
    /// The claims that the payload `v` of a token gives, or the first thing
    /// that is wrong with it.
    fn extract(&self, v: &Json) -> (r: Result<Self, ClaimDecodeError>)
        ensures
            match r {
                Ok(claims) => claims_of(v@) == Ok::<ClaimsView, ClaimDecodeError>(claims@),
                Err(e) => claims_of(v@) == Err::<ClaimsView, ClaimDecodeError>(e),
            },
    {
        let user = match v.get("user") {
            None => { return Err(ClaimDecodeError::NoUser); },
            Some(user) => user,
        };
        let id = match read_required(user, ClaimField::Id) {
            Err(e) => { return Err(e); },
            Ok(text) => text,
        };
        let username = match read_optional(user, ClaimField::Username) {
            Err(e) => { return Err(e); },
            Ok(text) => text,
        };
        let tenant_id = match read_required(user, ClaimField::TenantId) {
            Err(e) => { return Err(e); },
            Ok(text) => text,
        };
        let email = match read_optional(user, ClaimField::Email) {
            Err(e) => { return Err(e); },
            Ok(text) => text,
        };
        let alias = match read_optional(user, ClaimField::Alias) {
            Err(e) => { return Err(e); },
            Ok(text) => text,
        };
        Ok(Claims { id, username, tenant_id, email, alias })
    }
}

impl ClaimsView {
    /// The claims as a structured value: an object of the five fields, each
    /// a text, in the order id, user name, tenant, e-mail, alias.
    pub open spec fn owner(self) -> JsonView {
        JsonView::Object(
            seq![
                MemberView { name: "id"@, value: JsonView::Text(self.id) },
                MemberView { name: "username"@, value: JsonView::Text(self.username) },
                MemberView { name: "tenant_id"@, value: JsonView::Text(self.tenant_id) },
                MemberView { name: "email"@, value: JsonView::Text(self.email) },
                MemberView { name: "alias"@, value: JsonView::Text(self.alias) },
            ],
        )
    }
}

/// The claims that are read from what [`ClaimsView::owner`] writes are the
/// claims that were written.
pub proof fn lemma_owner_gives_claims(claims: ClaimsView)
    ensures
        claims_of_user(claims.owner()) == Ok::<ClaimsView, ClaimDecodeError>(claims),
{
    reveal_strlit("id");
    reveal_strlit("username");
    reveal_strlit("tenant_id");
    reveal_strlit("email");
    reveal_strlit("alias");
    let members = claims.owner()->Object_0;
    let m1 = members.drop_first();
    let m2 = m1.drop_first();
    let m3 = m2.drop_first();
    let m4 = m3.drop_first();
    assert(m1[0] == members[1] && m2[0] == members[2] && m3[0] == members[3] && m4[0]
        == members[4]);
    assert("id"@[0] == 'i' && "username"@[0] == 'u' && "tenant_id"@[0] == 't' && "email"@[0] == 'e'
        && "alias"@[0] == 'a');
    // each name is found at its own place, after the places of the names before it
    assert(first_named(members, "id"@) == Some(JsonView::Text(claims.id)));
    assert(first_named(m1, "username"@) == Some(JsonView::Text(claims.username)));
    assert(first_named(members, "username"@) == first_named(m1, "username"@));
    assert(first_named(m2, "tenant_id"@) == Some(JsonView::Text(claims.tenant_id)));
    assert(first_named(m1, "tenant_id"@) == first_named(m2, "tenant_id"@));
    assert(first_named(members, "tenant_id"@) == first_named(m1, "tenant_id"@));
    assert(first_named(m3, "email"@) == Some(JsonView::Text(claims.email)));
    assert(first_named(m2, "email"@) == first_named(m3, "email"@));
    assert(first_named(m1, "email"@) == first_named(m2, "email"@));
    assert(first_named(members, "email"@) == first_named(m1, "email"@));
    assert(first_named(m4, "alias"@) == Some(JsonView::Text(claims.alias)));
    assert(first_named(m3, "alias"@) == first_named(m4, "alias"@));
    assert(first_named(m2, "alias"@) == first_named(m3, "alias"@));
    assert(first_named(m1, "alias"@) == first_named(m2, "alias"@));
    assert(first_named(members, "alias"@) == first_named(m1, "alias"@));
}

impl Claims {
    /// The claims of nobody: every field is empty.
    pub fn default() -> (r: Self)
        ensures
            r@ == (ClaimsView {
                id: Seq::empty(),
                username: Seq::empty(),
                tenant_id: Seq::empty(),
                email: Seq::empty(),
                alias: Seq::empty(),
            }),
    {
        Claims {
            id: String::new(),
            username: String::new(),
            tenant_id: String::new(),
            email: String::new(),
            alias: String::new(),
        }
    }

    /// The claims as a structured value, to be kept with what the caller
    /// creates.
    pub fn owner(&self) -> (r: Json)
        ensures
            r@ == self@.owner(),
    {
        let mut members: Vec<Member> = Vec::new();
        members.push(Member { name: String::from_str("id"), value: Json::Text(self.id.clone()) });
        members.push(
            Member { name: String::from_str("username"), value: Json::Text(self.username.clone()) },
        );
        members.push(
            Member {
                name: String::from_str("tenant_id"),
                value: Json::Text(self.tenant_id.clone()),
            },
        );
        members.push(
            Member { name: String::from_str("email"), value: Json::Text(self.email.clone()) },
        );
        members.push(
            Member { name: String::from_str("alias"), value: Json::Text(self.alias.clone()) },
        );
        proof {
            Json::lemma_object_view(members);
        }
        let r = Json::Object(members);
        assert(r@->Object_0 =~= self@.owner()->Object_0);
        r
    }

    /// The user that the claims name.
    pub fn user(&self) -> (r: User)
        ensures
            r.id@ == self.id@,
            r.username@ == self.username@,
            r.alias@ == self.alias@,
            r.email@ == self.email@,
    {
        User {
            id: self.id.clone(),
            username: self.username.clone(),
            alias: self.alias.clone(),
            email: self.email.clone(),
        }
    }

    /// The caller as the use cases know them: the user and the tenant.
    pub fn context(&self) -> (r: Context<'_>)
        ensures
            r.user_id@ == self.id@,
            r.user_group_id@ == self.tenant_id@,
    {
        Context { user_id: self.id.as_str(), user_group_id: self.tenant_id.as_str() }
    }
}

/// The status of a request that was well answered by a refusal to
/// authenticate.
pub const STATUS_UNAUTHORIZED: u16 = 401;

/// The status of a request that the caller has to correct.
pub const STATUS_BAD_REQUEST: u16 = 400;

/// The status of a request for what is not there.
pub const STATUS_NOT_FOUND: u16 = 404;

/// The status of a request that failed for no fault of the caller.
pub const STATUS_INTERNAL_SERVER_ERROR: u16 = 500;

/// The body that answers a request that failed.
#[derive(Debug, Clone, PartialEq, Eq)]
pub struct ErrorResponse {
    pub code: String,
    pub message: String,
}

/// Why a handler itself refused a request.
#[derive(Debug, Clone, PartialEq, Eq)]
pub enum HandlerError {
    /// The request carries no claims.
    Unauthorize,
    UnexpectedError,
    BadRequest(String),
    NotFound,
}

impl HandlerError {
    /// The status that answers the request.
    pub open spec fn spec_status_code(&self) -> u16 {
        match self {
            HandlerError::Unauthorize => STATUS_UNAUTHORIZED,
            HandlerError::UnexpectedError => STATUS_INTERNAL_SERVER_ERROR,
            HandlerError::BadRequest(_) => STATUS_BAD_REQUEST,
            HandlerError::NotFound => STATUS_NOT_FOUND,
        }
    }

    /// What went wrong, in words.
    pub open spec fn spec_message(&self) -> Seq<char> {
        match self {
            HandlerError::Unauthorize => "unable to access to the resource"@,
            HandlerError::UnexpectedError => "user not authorize to do this action"@,
            HandlerError::BadRequest(detail) => "invalid request: `"@ + detail@ + "`"@,
            HandlerError::NotFound => "data not found"@,
        }
    }

    /// The status that answers the request.
    pub fn status_code(&self) -> (r: u16)
        ensures
            r == self.spec_status_code(),
    {
        match self {
            HandlerError::Unauthorize => STATUS_UNAUTHORIZED,
            HandlerError::UnexpectedError => STATUS_INTERNAL_SERVER_ERROR,
            HandlerError::BadRequest(_) => STATUS_BAD_REQUEST,
            HandlerError::NotFound => STATUS_NOT_FOUND,
        }
    }

    /// What went wrong, in words.
    pub fn message(&self) -> (r: String)
        ensures
            r@ == self.spec_message(),
    {
        match self {
            HandlerError::Unauthorize => String::from_str("unable to access to the resource"),
            HandlerError::UnexpectedError => String::from_str(
                "user not authorize to do this action",
            ),
            HandlerError::BadRequest(detail) => {
                let mut r = String::from_str("invalid request: `");
                r.append(detail.as_str());
                r.append("`");
                r
            },
            HandlerError::NotFound => String::from_str("data not found"),
        }
    }

    /// The body that answers the request: the message, under no code.
    pub fn error_response(&self) -> (r: ErrorResponse)
        ensures
            r.code@ == Seq::<char>::empty(),
            r.message@ == self.spec_message(),
    {
        ErrorResponse { code: String::new(), message: self.message() }
    }
}

/// Why a request failed: at the handler, for what the caller sent, or at
/// the store.
#[derive(Debug, Clone, PartialEq, Eq)]
pub enum Cause {
    Handler(HandlerError),
    User(UserError),
    Store(StoreError),
}

/// A failure of whatever kind, as it is answered.
#[derive(Debug, Clone, PartialEq, Eq)]
pub struct CustomAPIError {
    pub err: Cause,
}

impl CustomAPIError {
    /// The status that answers the request: that of the handler's own
    /// refusal; a bad request for what the caller has to correct, which is
    /// an experiment that breaks a rule or a text that is no id; not found
    /// for what is not stored; unauthorized for what belongs to another
    /// tenant; and an internal error where the store failed.
    pub open spec fn spec_status_code(&self) -> u16 {
        match self.err {
            Cause::Handler(e) => e.spec_status_code(),
            Cause::User(_) => STATUS_BAD_REQUEST,
            Cause::Store(StoreError::InvalidInput { .. }) => STATUS_BAD_REQUEST,
            Cause::Store(StoreError::DocumentNotfound) => STATUS_NOT_FOUND,
            Cause::Store(StoreError::UnauthorizedAccess) => STATUS_UNAUTHORIZED,
            Cause::Store(StoreError::InternalError { .. }) => STATUS_INTERNAL_SERVER_ERROR,
        }
    }

    /// The name of the kind of failure.
    pub open spec fn spec_code(&self) -> Seq<char> {
        match self.err {
            Cause::Handler(_) => "handle_error"@,
            Cause::User(_) => "validation_error"@,
            Cause::Store(e) => e.spec_code(),
        }
    }

    /// What went wrong, in words. Of a failure of the store itself no more
    /// is said than that there was one.
    pub open spec fn spec_message(&self) -> Seq<char> {
        match self.err {
            Cause::Handler(e) => e.spec_message(),
            Cause::User(e) => e->message@,
            Cause::Store(StoreError::InternalError { .. }) => "internal error"@,
            Cause::Store(e) => e.spec_message(),
        }
    }

    /// The status that answers the request.
    pub fn status_code(&self) -> (r: u16)
        ensures
            r == self.spec_status_code(),
    {
        match &self.err {
            Cause::Handler(e) => e.status_code(),
            Cause::User(_) => STATUS_BAD_REQUEST,
            Cause::Store(StoreError::InvalidInput { .. }) => STATUS_BAD_REQUEST,
            Cause::Store(StoreError::DocumentNotfound) => STATUS_NOT_FOUND,
            Cause::Store(StoreError::UnauthorizedAccess) => STATUS_UNAUTHORIZED,
            Cause::Store(StoreError::InternalError { .. }) => STATUS_INTERNAL_SERVER_ERROR,
        }
    }

    /// The body that answers the request: the name of the kind of failure
    /// and what went wrong.
    pub fn error_response(&self) -> (r: ErrorResponse)
        ensures
            r.code@ == self.spec_code(),
            r.message@ == self.spec_message(),
    {
        match &self.err {
            Cause::Handler(e) => ErrorResponse {
                code: String::from_str("handle_error"),
                message: e.message(),
            },
            Cause::User(e) => ErrorResponse { code: e.code(), message: e.message() },
            Cause::Store(StoreError::InternalError { .. }) => ErrorResponse {
                code: String::from_str("internal_error"),
                message: String::from_str("internal error"),
            },
            Cause::Store(e) => ErrorResponse { code: e.code(), message: e.message() },
        }
    }
}

impl From<HandlerError> for CustomAPIError {
    fn from(err: HandlerError) -> (r: CustomAPIError) {
        CustomAPIError { err: Cause::Handler(err) }
    }
}

impl FromSpecImpl<HandlerError> for CustomAPIError {
    open spec fn obeys_from_spec() -> bool {
        true
    }

    open spec fn from_spec(err: HandlerError) -> CustomAPIError {
        CustomAPIError { err: Cause::Handler(err) }
    }
}

impl From<UserError> for CustomAPIError {
    fn from(err: UserError) -> (r: CustomAPIError) {
        CustomAPIError { err: Cause::User(err) }
    }
}

impl FromSpecImpl<UserError> for CustomAPIError {
    open spec fn obeys_from_spec() -> bool {
        true
    }

    open spec fn from_spec(err: UserError) -> CustomAPIError {
        CustomAPIError { err: Cause::User(err) }
    }
}

impl From<ServiceError> for CustomAPIError {
    fn from(err: ServiceError) -> (r: CustomAPIError) {
        match err {
            ServiceError::User(e) => CustomAPIError { err: Cause::User(e) },
            ServiceError::Store(e) => CustomAPIError { err: Cause::Store(e) },
        }
    }
}

impl FromSpecImpl<ServiceError> for CustomAPIError {
    open spec fn obeys_from_spec() -> bool {
        true
    }

    open spec fn from_spec(err: ServiceError) -> CustomAPIError {
        match err {
            ServiceError::User(e) => CustomAPIError { err: Cause::User(e) },
            ServiceError::Store(e) => CustomAPIError { err: Cause::Store(e) },
        }
    }
}

/// Why the body of a request could not be read.
#[derive(Debug, Clone, PartialEq, Eq)]
pub enum JsonPayloadFailure {
    /// The body is not of the shape that was asked for; with the reason.
    Deserialize(String),
    /// Anything else; with the reason.
    Other(String),
}

/// The body that answers a request whose body could not be read.
#[derive(Debug, Clone, PartialEq, Eq)]
pub enum JsonErrorBody {
    Json(ErrorResponse),
    Text(String),
}

/// What answers a request whose body could not be read: a bad request. A
/// body of the wrong shape is told so as invalid input with the reason;
/// any other failure is answered with the reason alone.
pub fn handle_json_error(err: JsonPayloadFailure) -> (r: (u16, JsonErrorBody))
    ensures
        r.0 == STATUS_BAD_REQUEST,
        match err {
            JsonPayloadFailure::Deserialize(reason) => r.1 matches JsonErrorBody::Json(body)
                && body.code@ == "invalid_input"@ && body.message == reason,
            JsonPayloadFailure::Other(reason) => r.1 == JsonErrorBody::Text(reason),
        },
{
    match err {
        JsonPayloadFailure::Deserialize(reason) => (
            STATUS_BAD_REQUEST,
            JsonErrorBody::Json(
                ErrorResponse { code: String::from_str("invalid_input"), message: reason },
            ),
        ),
        JsonPayloadFailure::Other(reason) => (STATUS_BAD_REQUEST, JsonErrorBody::Text(reason)),
    }
}

} // verus!
