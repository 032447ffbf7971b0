//! Authentication: the read-model of an authenticated identity, the context
//! built for a request, credential extraction from an `Authorization` header,
//! API key matching, and the errors authentication is refused with.
//!
//! Loading rows from the database and validating JWT signatures happen at the
//! edge of the service; the decisions between those steps are made here.

use vstd::prelude::*;
use vstd::utf8::decode_utf8;

use crate::crypto::{verify_key_hash, verify_key_hash_spec};
use crate::error::RepositoryError;
use crate::users::ApiKey;
use crate::ids::{parse_uuid, spec_uuid_parse};
use crate::permissions::{scope_views, scopes_allow, scopes_contain};
use crate::settings::{opt_text, EnvVars};
use crate::text::{has_prefix, starts_with, strip_prefix, views};
use crate::urn::{parse_urn_text, team_urn_text, urn_parse_spec, user_urn_text, Urn, UrnComponents, UrnView};

verus! {

/// User tier for auth decisions.
#[derive(Debug, Clone, Copy, PartialEq, Eq, Structural)]
pub enum AuthTier {
    Starter,
    Creator,
}

impl AuthTier {
    pub open spec fn spec_label(self) -> Seq<char> {
        match self {
            AuthTier::Starter => "starter"@,
            AuthTier::Creator => "creator"@,
        }
    }

    /// The tier's lowercase name.
    pub fn to_string(&self) -> (s: String)
        ensures
            s@ == self.spec_label(),
    {
        match self {
            AuthTier::Starter => String::from_str("starter"),
            AuthTier::Creator => String::from_str("creator"),
        }
    }
}

/// Membership role for auth decisions.
#[derive(Debug, Clone, Copy, PartialEq, Eq, Structural)]
pub enum AuthRole {
    Owner,
    Admin,
    Member,
    Viewer,
}

impl AuthRole {
    /// Whether this role can perform admin actions.
    pub fn can_admin(&self) -> (r: bool)
        ensures
            r == (*self is Owner || *self is Admin),
    {
        match self {
            AuthRole::Owner | AuthRole::Admin => true,
            AuthRole::Member | AuthRole::Viewer => false,
        }
    }

    /// Whether this role is the owner role.
    pub fn is_owner(&self) -> (r: bool)
        ensures
            r == (*self is Owner),
    {
        match self {
            AuthRole::Owner => true,
            _ => false,
        }
    }
}

/// Lightweight identity of an authenticated user. Instants are microseconds
/// since the Unix epoch.
#[derive(Debug, Clone)]
pub struct AuthIdentity {
    pub id: u128,
    pub email: String,
    pub name: Option<String>,
    pub avatar_url: Option<String>,
    pub tier: AuthTier,
    pub created_at: i64,
    pub updated_at: i64,
}

/// Team membership info for authorization checks.
#[derive(Debug, Clone)]
pub struct AuthMembership {
    pub team_id: u128,
    pub team_name: String,
    pub team_slug: String,
    pub role: AuthRole,
}

/// An authenticated API key, without its stored hash.
#[derive(Debug, Clone)]
pub struct AuthApiKey {
    pub id: u128,
    pub user_id: u128,
    pub owner: String,
    pub name: String,
    pub key_prefix: String,
    pub scopes: Vec<String>,
    pub last_used_at: Option<i64>,
    pub expires_at: Option<i64>,
    pub revoked_at: Option<i64>,
    pub created_at: i64,
}

/// Authentication configuration.
#[derive(Debug, Clone)]
pub struct AuthConfig {
    pub jwt_secret: String,
    pub issuer: Option<String>,
    pub audience: Option<String>,
}

impl AuthConfig {
    /// The configuration the environment gives: `JWT_SECRET` is required,
    /// `JWT_ISSUER` and `JWT_AUDIENCE` are optional.
    pub fn from_vars(env: &EnvVars) -> (r: Result<AuthConfig, String>)
        ensures
            match env.spec_get("JWT_SECRET"@) {
                Some(secret) => r matches Ok(c) && c.jwt_secret@ == secret && opt_text(c.issuer) == env.spec_get(
                    "JWT_ISSUER"@,
                ) && opt_text(c.audience) == env.spec_get("JWT_AUDIENCE"@),
                None => r matches Err(m) && m@ == "JWT_SECRET environment variable is required"@,
            },
    {
        match env.get("JWT_SECRET") {
            Some(jwt_secret) => Ok(
                AuthConfig { jwt_secret, issuer: env.get("JWT_ISSUER"), audience: env.get("JWT_AUDIENCE") },
            ),
            None => Err(String::from_str("JWT_SECRET environment variable is required")),
        }
    }
}

/// The claims of a validated access token.
#[derive(Debug, Clone)]
pub struct SupabaseClaims {
    pub sub: String,
    pub email: Option<String>,
    pub iat: u64,
    pub exp: u64,
    pub aud: String,
    pub role: String,
}

/// Why authentication was refused.
#[derive(Debug, Clone, Copy, PartialEq, Eq, Structural)]
pub enum AuthError {
    MissingAuthorization,
    InvalidAuthorizationFormat,
    InvalidToken,
    InvalidApiKey,
    UserNotFound,
    UserLoadError,
    MembershipsLoadError,
    AuthenticationFailed,
    InvalidUserId,
    /// The user's tier does not allow the operation.
    InsufficientTier,
}

impl AuthError {
    pub open spec fn spec_status(self) -> u16 {
        match self {
            AuthError::UserLoadError | AuthError::MembershipsLoadError | AuthError::AuthenticationFailed => 500,
            AuthError::InsufficientTier => 403,
            _ => 401,
        }
    }

    pub open spec fn spec_code(self) -> Seq<char> {
        match self {
            AuthError::MissingAuthorization => "MISSING_AUTHORIZATION"@,
            AuthError::InvalidAuthorizationFormat => "INVALID_AUTHORIZATION"@,
            AuthError::InvalidToken => "INVALID_TOKEN"@,
            AuthError::InvalidApiKey => "INVALID_API_KEY"@,
            AuthError::UserNotFound => "USER_NOT_FOUND"@,
            AuthError::UserLoadError => "USER_LOAD_ERROR"@,
            AuthError::MembershipsLoadError => "MEMBERSHIPS_LOAD_ERROR"@,
            AuthError::AuthenticationFailed => "AUTH_ERROR"@,
            AuthError::InvalidUserId => "INVALID_TOKEN"@,
            AuthError::InsufficientTier => "INSUFFICIENT_TIER"@,
        }
    }

    pub open spec fn spec_message(self) -> Seq<char> {
        match self {
            AuthError::MissingAuthorization => "Authorization header required"@,
            AuthError::InvalidAuthorizationFormat => "Invalid authorization header format"@,
            AuthError::InvalidToken => "Invalid or expired token"@,
            AuthError::InvalidApiKey => "Invalid or expired API key"@,
            AuthError::UserNotFound => "User not found"@,
            AuthError::UserLoadError => "Failed to load user"@,
            AuthError::MembershipsLoadError => "Failed to load user memberships"@,
            AuthError::AuthenticationFailed => "Authentication failed"@,
            AuthError::InvalidUserId => "Invalid user ID in token"@,
            AuthError::InsufficientTier => "Only creator tier users can access team operations"@,
        }
    }

    /// The HTTP status the refusal is answered with.
    pub fn status_code(&self) -> (c: u16)
        ensures
            c == self.spec_status(),
    {
        match self {
            AuthError::UserLoadError | AuthError::MembershipsLoadError | AuthError::AuthenticationFailed => 500,
            AuthError::InsufficientTier => 403,
            _ => 401,
        }
    }

    /// The machine-readable error code of the response body.
    pub fn error_code(&self) -> (c: &'static str)
        ensures
            c@ == self.spec_code(),
    {
        match self {
            AuthError::MissingAuthorization => "MISSING_AUTHORIZATION",
            AuthError::InvalidAuthorizationFormat => "INVALID_AUTHORIZATION",
            AuthError::InvalidToken => "INVALID_TOKEN",
            AuthError::InvalidApiKey => "INVALID_API_KEY",
            AuthError::UserNotFound => "USER_NOT_FOUND",
            AuthError::UserLoadError => "USER_LOAD_ERROR",
            AuthError::MembershipsLoadError => "MEMBERSHIPS_LOAD_ERROR",
            AuthError::AuthenticationFailed => "AUTH_ERROR",
            AuthError::InvalidUserId => "INVALID_TOKEN",
            AuthError::InsufficientTier => "INSUFFICIENT_TIER",
        }
    }

    /// The human-readable message of the response body.
    pub fn message(&self) -> (m: &'static str)
        ensures
            m@ == self.spec_message(),
    {
        match self {
            AuthError::MissingAuthorization => "Authorization header required",
            AuthError::InvalidAuthorizationFormat => "Invalid authorization header format",
            AuthError::InvalidToken => "Invalid or expired token",
            AuthError::InvalidApiKey => "Invalid or expired API key",
            AuthError::UserNotFound => "User not found",
            AuthError::UserLoadError => "Failed to load user",
            AuthError::MembershipsLoadError => "Failed to load user memberships",
            AuthError::AuthenticationFailed => "Authentication failed",
            AuthError::InvalidUserId => "Invalid user ID in token",
            AuthError::InsufficientTier => "Only creator tier users can access team operations",
        }
    }
}

/// Represents an authenticated user context.
#[derive(Debug, Clone)]
pub struct AuthContext {
    pub user: AuthIdentity,
    pub memberships: Vec<AuthMembership>,
    pub api_key: Option<AuthApiKey>,
}

/// The role of the first membership of `team_id`, searching from index `i`.
pub open spec fn membership_role(ms: Seq<AuthMembership>, team_id: u128, i: int) -> Option<AuthRole>
    decreases ms.len() - i,
{
    if i < 0 || i >= ms.len() {
        None
    } else if ms[i].team_id == team_id {
        Some(ms[i].role)
    } else {
        membership_role(ms, team_id, i + 1)
    }
}

/// The owner URN texts of a user and of each of its team memberships, in order.
pub open spec fn owner_urn_texts(user_id: u128, ms: Seq<AuthMembership>) -> Seq<Seq<char>> {
    seq![user_urn_text(user_id)] + ms.map_values(|m: AuthMembership| team_urn_text(m.team_id))
}

/// A membership at or after `i` makes the team's role known.
proof fn lemma_membership_found(ms: Seq<AuthMembership>, team_id: u128, i: int, j: int)
    requires
        0 <= i <= j < ms.len(),
        ms[j].team_id == team_id,
    ensures
        membership_role(ms, team_id, i) is Some,
    decreases j - i,
{
    if ms[i].team_id != team_id {
        lemma_membership_found(ms, team_id, i + 1, j);
    }
}

impl AuthContext {
    pub open spec fn spec_team_role(&self, team_id: u128) -> Option<AuthRole> {
        membership_role(self.memberships@, team_id, 0)
    }

    pub open spec fn spec_has_scope(&self, required: Seq<char>) -> bool {
        match self.api_key {
            Some(k) => scopes_allow(scope_views(k.scopes@), required),
            None => true,
        }
    }

    /// Whether the user may access resources owned by the URN with text `urn`.
    pub open spec fn spec_can_access(&self, urn: Seq<char>) -> bool {
        match urn_parse_spec(urn) {
            Ok(UrnView::User { user_id }) => user_id == self.user.id,
            Ok(UrnView::Team { team_id }) => self.spec_team_role(team_id) is Some,
            Ok(UrnView::TeamUser { team_id, user_id }) => user_id == self.user.id && self.spec_team_role(team_id) is Some,
            _ => false,
        }
    }

    /// Create a new auth context for a user.
    pub fn new(user: AuthIdentity, memberships: Vec<AuthMembership>, api_key: Option<AuthApiKey>) -> (r: Self)
        ensures
            r.user == user && r.memberships == memberships && r.api_key == api_key,
    {
        AuthContext { user, memberships, api_key }
    }

    /// Whether the user has the creator tier.
    pub fn is_creator(&self) -> (r: bool)
        ensures
            r == (self.user.tier is Creator),
    {
        self.user.tier == AuthTier::Creator
    }

    /// Whether the user has the starter tier.
    pub fn is_starter(&self) -> (r: bool)
        ensures
            r == (self.user.tier is Starter),
    {
        self.user.tier == AuthTier::Starter
    }

    /// The user's role in a team, from the first membership of that team.
    pub fn get_team_role(&self, team_id: u128) -> (r: Option<AuthRole>)
        ensures
            r == self.spec_team_role(team_id),
    {
        let mut i: usize = 0;
        while i < self.memberships.len()
            invariant
                i <= self.memberships.len(),
                membership_role(self.memberships@, team_id, 0) == membership_role(
                    self.memberships@,
                    team_id,
                    i as int,
                ),
            decreases self.memberships.len() - i,
        {
            if self.memberships[i].team_id == team_id {
                return Some(self.memberships[i].role);
            }
            i = i + 1;
        }
        None
    }

    /// Whether the user can access resources owned by `urn`.
    pub fn can_access_urn(&self, urn: &Urn) -> (r: bool)
        ensures
            r == self.spec_can_access(urn@),
    {
        match parse_urn_text(urn.as_str()) {
            Ok(UrnComponents::User { user_id }) => user_id == self.user.id,
            Ok(UrnComponents::Team { team_id }) => self.get_team_role(team_id).is_some(),
            Ok(UrnComponents::TeamUser { team_id, user_id }) => user_id == self.user.id && self.get_team_role(
                team_id,
            ).is_some(),
            Ok(UrnComponents::System { .. }) => false,
            Err(_) => false,
        }
    }

    /// All owner URNs accessible to this user: the personal one, then one per
    /// team membership, in membership order.
    pub fn accessible_owner_urns(&self) -> (r: Vec<String>)
        ensures
            views(r@) == owner_urn_texts(self.user.id, self.memberships@),
            forall|j: int| 0 <= j < r@.len() ==> self.spec_can_access(#[trigger] r@[j]@),
    {
        let mut urns: Vec<String> = Vec::new();
        urns.push(Urn::user(self.user.id).into_string());
        let mut i: usize = 0;
        while i < self.memberships.len()
            invariant
                i <= self.memberships.len(),
                views(urns@) == owner_urn_texts(self.user.id, self.memberships@.subrange(0, i as int)),
                forall|j: int| 0 <= j < urns@.len() ==> self.spec_can_access(#[trigger] urns@[j]@),
            decreases self.memberships.len() - i,
        {
            let t = self.memberships[i].team_id;
            let u = Urn::team(t).into_string();
            proof {
                lemma_membership_found(self.memberships@, t, 0, i as int);
            }
            urns.push(u);
            proof {
                let ms = self.memberships@;
                assert(ms.subrange(0, i as int + 1) =~= ms.subrange(0, i as int).push(ms[i as int]));
                assert(views(urns@) =~= views(urns@.drop_last()).push(u@));
                assert(owner_urn_texts(self.user.id, ms.subrange(0, i as int + 1)) =~= owner_urn_texts(
                    self.user.id,
                    ms.subrange(0, i as int),
                ).push(team_urn_text(ms[i as int].team_id)));
            }
            i = i + 1;
        }
        assert(self.memberships@.subrange(0, self.memberships.len() as int) =~= self.memberships@);
        urns
    }

    /// Whether the user has the required scope (when authenticated by API key).
    pub fn has_scope(&self, required_scope: &str) -> (r: bool)
        ensures
            r == self.spec_has_scope(required_scope@),
    {
        match &self.api_key {
            Some(api_key) => {
                if scopes_contain(&api_key.scopes, "*") {
                    return true;
                }
                scopes_contain(&api_key.scopes, required_scope)
            },
            None => true,
        }
    }
}

proof fn lemma_membership_role_found(ms: Seq<AuthMembership>, team_id: u128, i: int)
    requires
        0 <= i,
    ensures
        (membership_role(ms, team_id, i) is Some) <==> (exists|j: int| i <= j < ms.len() && #[trigger] ms[j].team_id
            == team_id),
    decreases ms.len() - i,
{
    if i < ms.len() {
        lemma_membership_role_found(ms, team_id, i + 1);
        if exists|j: int| i <= j < ms.len() && #[trigger] ms[j].team_id == team_id {
            let j = choose|j: int| i <= j < ms.len() && #[trigger] ms[j].team_id == team_id;
            if j > i {
                assert(i + 1 <= j < ms.len() && ms[j].team_id == team_id);
            }
        }
        if exists|j: int| i + 1 <= j < ms.len() && #[trigger] ms[j].team_id == team_id {
            let j = choose|j: int| i + 1 <= j < ms.len() && #[trigger] ms[j].team_id == team_id;
            assert(i <= j < ms.len() && ms[j].team_id == team_id);
        }
    }
}

/// Who may access what an owner URN owns: a user URN only its own user; a team
/// URN only a member of that team (a context with a membership for that team
/// ID); a team-user URN only that user, and only while a member of that team;
/// a system URN, or text that is no URN, nobody.
pub proof fn lemma_owner_access(ctx: AuthContext, urn: Seq<char>)
    ensures
        urn_parse_spec(urn) matches Ok(UrnView::User { user_id }) ==> (ctx.spec_can_access(urn) <==> user_id
            == ctx.user.id),
        urn_parse_spec(urn) matches Ok(UrnView::Team { team_id }) ==> (ctx.spec_can_access(urn) <==> exists|j: int|
            0 <= j < ctx.memberships@.len() && #[trigger] ctx.memberships@[j].team_id == team_id),
        urn_parse_spec(urn) matches Ok(UrnView::TeamUser { team_id, user_id }) ==> (ctx.spec_can_access(urn) <==> (
        user_id == ctx.user.id && exists|j: int|
            0 <= j < ctx.memberships@.len() && #[trigger] ctx.memberships@[j].team_id == team_id)),
        urn_parse_spec(urn) matches Ok(UrnView::System { .. }) ==> !ctx.spec_can_access(urn),
        urn_parse_spec(urn) is Err ==> !ctx.spec_can_access(urn),
{
    match urn_parse_spec(urn) {
        Ok(UrnView::Team { team_id }) => lemma_membership_role_found(ctx.memberships@, team_id, 0),
        Ok(UrnView::TeamUser { team_id, user_id }) => lemma_membership_role_found(ctx.memberships@, team_id, 0),
        _ => {},
    }
}

// ----- credentials in the Authorization header -----

/// Whether a header byte may appear in a header read as text: a tab or a
/// visible ASCII character (what `HeaderValue::to_str` accepts).
pub open spec fn header_text_byte(b: u8) -> bool {
    b == 9 || (0x20 <= b && b < 0x7f)
}

/// Whether an `Authorization` header can be read as text.
pub fn header_is_text(bytes: &[u8]) -> (r: bool)
    ensures
        r == forall|i: int| 0 <= i < bytes@.len() ==> header_text_byte(#[trigger] bytes@[i]),
{
    let mut i: usize = 0;
    while i < bytes.len()
        invariant
            i <= bytes@.len(),
            forall|k: int| 0 <= k < i ==> header_text_byte(#[trigger] bytes@[k]),
        decreases bytes.len() - i,
    {
        let b = bytes[i];
        if !(b == 9 || (0x20 <= b && b < 0x7f)) {
            return false;
        }
        i = i + 1;
    }
    true
}

/// Calls `std::str::from_utf8` on the bytes and copies the text it gives.
/// The contract claims what std documents: text that is read is the text the
/// bytes encode, and bytes that are all ASCII are valid UTF-8.
#[verifier::external_body]
fn utf8_text(bytes: &[u8]) -> (r: Option<String>)
    ensures
        r matches Some(s) ==> s@ == decode_utf8(bytes@),
        (forall|i: int| 0 <= i < bytes@.len() ==> #[trigger] bytes@[i] < 0x80) ==> r is Some,
{
    match std::str::from_utf8(bytes) {
        Ok(s) => Some(s.to_string()),
        Err(_) => None,
    }
}

/// The text of an `Authorization` header: refused as missing where there is
/// none, and as malformed where it is not tabs and visible ASCII; else the
/// text its bytes spell.
pub fn header_text(header: Option<&[u8]>) -> (r: Result<String, AuthError>)
    ensures
        header is None ==> r == Err::<String, AuthError>(AuthError::MissingAuthorization),
        header matches Some(b) ==> (if forall|i: int| 0 <= i < b@.len() ==> header_text_byte(#[trigger] b@[i]) {
            r matches Ok(t) && t@ == decode_utf8(b@)
        } else {
            r == Err::<String, AuthError>(AuthError::InvalidAuthorizationFormat)
        }),
{
    let bytes = match header {
        None => {
            return Err(AuthError::MissingAuthorization);
        },
        Some(b) => b,
    };
    if !header_is_text(bytes) {
        return Err(AuthError::InvalidAuthorizationFormat);
    }
    proof {
        assert forall|i: int| 0 <= i < bytes@.len() implies #[trigger] bytes@[i] < 0x80 by {
            assert(header_text_byte(bytes@[i]));
        }
    }
    match utf8_text(bytes) {
        Some(t) => Ok(t),
        None => Err(AuthError::InvalidAuthorizationFormat),
    }
}

pub open spec fn bearer_token_spec(header: Seq<char>) -> Result<Seq<char>, AuthError> {
    if has_prefix(header, "Bearer "@) {
        Ok(header.skip(7))
    } else {
        Err(AuthError::InvalidAuthorizationFormat)
    }
}

/// The credential of a header: the text after `Bearer `, or the whole header.
pub open spec fn credential_of(header: Seq<char>) -> Seq<char> {
    if has_prefix(header, "Bearer "@) {
        header.skip(7)
    } else {
        header
    }
}

pub open spec fn api_key_spec(header: Seq<char>) -> Result<Seq<char>, AuthError> {
    if has_prefix(credential_of(header), "sk_live_"@) {
        Ok(credential_of(header))
    } else {
        Err(AuthError::InvalidApiKey)
    }
}

pub open spec fn text_result(r: Result<String, AuthError>) -> Result<Seq<char>, AuthError> {
    match r {
        Ok(s) => Ok(s@),
        Err(e) => Err(e),
    }
}

/// The bearer token of an `Authorization` header.
pub fn extract_bearer_token(header: &str) -> (r: Result<String, AuthError>)
    ensures
        text_result(r) == bearer_token_spec(header@),
{
    proof {
        reveal_strlit("Bearer ");
    }
    match strip_prefix(header, "Bearer ") {
        Some(token) => Ok(token),
        None => Err(AuthError::InvalidAuthorizationFormat),
    }
}

/// The API key of an `Authorization` header, given as `Bearer sk_live_...`
/// or as `sk_live_...`.
pub fn extract_api_key(header: &str) -> (r: Result<String, AuthError>)
    ensures
        text_result(r) == api_key_spec(header@),
{
    proof {
        reveal_strlit("Bearer ");
    }
    let key = match strip_prefix(header, "Bearer ") {
        Some(token) => token,
        None => String::from_str(header),
    };
    if starts_with(key.as_str(), "sk_live_") {
        Ok(key)
    } else {
        Err(AuthError::InvalidApiKey)
    }
}

/// How a request presenting a header is authenticated.
#[derive(Debug, Clone, Copy, PartialEq, Eq, Structural)]
pub enum AuthMethod {
    ApiKey,
    Jwt,
}

pub open spec fn auth_method_spec(header: Seq<char>) -> AuthMethod {
    if has_prefix(credential_of(header), "sk_live_"@) {
        AuthMethod::ApiKey
    } else {
        AuthMethod::Jwt
    }
}

/// For endpoints that accept both: a credential with the `sk_live_` prefix
/// (bare or after `Bearer `) is an API key; anything else is a JWT.
pub fn auth_method_for(header: &str) -> (m: AuthMethod)
    ensures
        m == auth_method_spec(header@),
{
    proof {
        reveal_strlit("Bearer ");
    }
    let is_api_key = match strip_prefix(header, "Bearer ") {
        Some(token) => starts_with(token.as_str(), "sk_live_"),
        None => starts_with(header, "sk_live_"),
    };
    if is_api_key {
        AuthMethod::ApiKey
    } else {
        AuthMethod::Jwt
    }
}

/// A header is sent down the API-key path exactly when an API key can be
/// extracted from it.
pub proof fn lemma_method_matches_api_key(header: Seq<char>)
    ensures
        (auth_method_spec(header) == AuthMethod::ApiKey) <==> (api_key_spec(header) is Ok),
{
}

/// Every extracted API key carries the live-key prefix.
pub proof fn lemma_api_key_prefix(header: Seq<char>)
    ensures
        api_key_spec(header) matches Ok(k) ==> has_prefix(k, "sk_live_"@),
{
}

// ----- API key matching -----

/// A stored API key row, including its salted hash and the JSON text of
/// its scope list.
#[derive(Debug, Clone)]
pub struct ApiKeyRecord {
    pub id: u128,
    pub user_id: u128,
    pub owner: String,
    pub name: String,
    pub key_prefix: String,
    pub key_hash: String,
    pub scopes_json: String,
    pub last_used_at: Option<i64>,
    pub expires_at: Option<i64>,
    pub revoked_at: Option<i64>,
    pub created_at: i64,
}

/// The scope list that the JSON text `text` decodes to as an array of
/// strings, if it is one.
pub uninterp spec fn spec_scopes_from_json(text: Seq<char>) -> Option<Seq<Seq<char>>>;

/// Decodes a JSON array of strings with `serde_json::from_str::<Vec<String>>`;
/// on failure it returns the decoder's error message. The contract claims
/// only that success and the decoded list are the named decoding of the
/// text; nothing is claimed of the error message.
#[verifier::external_body]
fn decode_scopes(text: &str) -> (r: Result<Vec<String>, String>)
    ensures
        match r {
            Ok(v) => spec_scopes_from_json(text@) == Some(views(v@)),
            Err(_) => spec_scopes_from_json(text@) is None,
        },
{
    match serde_json::from_str::<Vec<String>>(text) {
        Ok(v) => Ok(v),
        Err(e) => Err(e.to_string()),
    }
}

/// The scopes a key row grants: its decoded list, or none where it does not decode.
pub open spec fn granted_scopes(text: Seq<char>) -> Seq<Seq<char>> {
    match spec_scopes_from_json(text) {
        Some(s) => s,
        None => Seq::empty(),
    }
}

/// The index of the first row, at or after `i`, whose stored hash the candidate matches.
pub open spec fn first_match(candidate: Seq<char>, rows: Seq<ApiKeyRecord>, i: int) -> Option<int>
    decreases rows.len() - i,
{
    if i < 0 || i >= rows.len() {
        None
    } else if verify_key_hash_spec(candidate, rows[i].key_hash@) {
        Some(i)
    } else {
        first_match(candidate, rows, i + 1)
    }
}

/// The row a candidate key authenticates as: none unless it has the live prefix,
/// else the first row whose hash it matches.
pub open spec fn matching_row(candidate: Seq<char>, rows: Seq<ApiKeyRecord>) -> Option<int> {
    if has_prefix(candidate, "sk_live_"@) {
        first_match(candidate, rows, 0)
    } else {
        None
    }
}

proof fn lemma_first_match_bounds(candidate: Seq<char>, rows: Seq<ApiKeyRecord>, i: int)
    requires
        0 <= i,
    ensures
        first_match(candidate, rows, i) matches Some(j) ==> i <= j < rows.len() && verify_key_hash_spec(
            candidate,
            rows[j].key_hash@,
        ),
    decreases rows.len() - i,
{
    if i < rows.len() && !verify_key_hash_spec(candidate, rows[i].key_hash@) {
        lemma_first_match_bounds(candidate, rows, i + 1);
    }
}

/// The index of the row a candidate key authenticates as.
pub fn matching_key_index(candidate_key: &str, rows: &Vec<ApiKeyRecord>) -> (r: Option<usize>)
    ensures
        r matches Some(i) ==> matching_row(candidate_key@, rows@) == Some(i as int),
        r is None ==> matching_row(candidate_key@, rows@) is None,
{
    if !starts_with(candidate_key, "sk_live_") {
        return None;
    }
    let mut i: usize = 0;
    while i < rows.len()
        invariant
            i <= rows.len(),
            has_prefix(candidate_key@, "sk_live_"@),
            first_match(candidate_key@, rows@, 0) == first_match(candidate_key@, rows@, i as int),
        decreases rows.len() - i,
    {
        if verify_key_hash(candidate_key, rows[i].key_hash.as_str()) {
            return Some(i);
        }
        i = i + 1;
    }
    None
}

/// Whether `k` is the authenticated form of `row`: its fields without the hash,
/// with the scopes the row grants.
pub open spec fn key_from_row(k: AuthApiKey, row: ApiKeyRecord) -> bool {
    &&& k.id == row.id
    &&& k.user_id == row.user_id
    &&& k.owner@ == row.owner@
    &&& k.name@ == row.name@
    &&& k.key_prefix@ == row.key_prefix@
    &&& scope_views(k.scopes@) == granted_scopes(row.scopes_json@)
    &&& k.last_used_at == row.last_used_at
    &&& k.expires_at == row.expires_at
    &&& k.revoked_at == row.revoked_at
    &&& k.created_at == row.created_at
}

/// Authenticates a candidate key against the active key rows: the first row
/// whose salted hash it matches, as an authenticated key.
pub fn authenticate_api_key(candidate_key: &str, rows: Vec<ApiKeyRecord>) -> (r: Option<AuthApiKey>)
    ensures
        match matching_row(candidate_key@, rows@) {
            Some(i) => r matches Some(k) && key_from_row(k, rows@[i]),
            None => r is None,
        },
{
    match matching_key_index(candidate_key, &rows) {
        None => None,
        Some(i) => {
            proof {
                lemma_first_match_bounds(candidate_key@, rows@, 0);
            }
            let mut rows = rows;
            let row = rows.remove(i);
            let scopes = match decode_scopes(row.scopes_json.as_str()) {
                Ok(v) => v,
                Err(_) => Vec::new(),
            };
            proof {
                assert(scope_views(scopes@) =~= granted_scopes(row.scopes_json@));
            }
            Some(
                AuthApiKey {
                    id: row.id,
                    user_id: row.user_id,
                    owner: row.owner,
                    name: row.name,
                    key_prefix: row.key_prefix,
                    scopes,
                    last_used_at: row.last_used_at,
                    expires_at: row.expires_at,
                    revoked_at: row.revoked_at,
                    created_at: row.created_at,
                },
            )
        },
    }
}

// ----- assembling the context -----

/// The user ID a token's subject names.
pub fn user_id_from_claims(claims: &SupabaseClaims) -> (r: Result<u128, AuthError>)
    ensures
        r == (match spec_uuid_parse(claims.sub@) {
            Some(id) => Ok::<u128, AuthError>(id),
            None => Err(AuthError::InvalidUserId),
        }),
{
    match parse_uuid(claims.sub.as_str()) {
        Some(id) => Ok(id),
        None => Err(AuthError::InvalidUserId),
    }
}

/// Whether a user's memberships are loaded: only creators belong to teams.
pub fn needs_memberships(user: &AuthIdentity) -> (r: bool)
    ensures
        r == (user.tier is Creator),
{
    user.tier == AuthTier::Creator
}

/// The context of a looked-up user: refused when the user was not found;
/// memberships are kept for creators only.
pub fn assemble_context(
    user: Option<AuthIdentity>,
    memberships: Vec<AuthMembership>,
    api_key: Option<AuthApiKey>,
) -> (r: Result<AuthContext, AuthError>)
    ensures
        match user {
            None => r == Err::<AuthContext, AuthError>(AuthError::UserNotFound),
            Some(u) => r matches Ok(ctx) && ctx.user == u && ctx.api_key == api_key && (if u.tier is Creator {
                ctx.memberships@ == memberships@
            } else {
                ctx.memberships@.len() == 0
            }),
        },
{
    match user {
        None => Err(AuthError::UserNotFound),
        Some(u) => {
            let ms = if u.tier == AuthTier::Creator {
                memberships
            } else {
                Vec::new()
            };
            Ok(AuthContext::new(u, ms, api_key))
        },
    }
}

/// The API key a request authenticated with, or the refusal when none matched.
pub fn require_api_key(key: Option<AuthApiKey>) -> (r: Result<AuthApiKey, AuthError>)
    ensures
        match key {
            Some(k) => r == Ok::<AuthApiKey, AuthError>(k),
            None => r == Err::<AuthApiKey, AuthError>(AuthError::InvalidApiKey),
        },
{
    match key {
        Some(k) => Ok(k),
        None => Err(AuthError::InvalidApiKey),
    }
}

/// The key a candidate authenticates as, from the active key rows as looked
/// up: a candidate without the live-key prefix is an invalid key, whatever the
/// lookup gave (no lookup is needed for it); else a failed lookup fails
/// authentication, and a candidate that matches no row is an invalid key.
pub fn authenticate_key_rows(candidate_key: &str, rows: Result<Vec<ApiKeyRecord>, ()>) -> (r: Result<AuthApiKey, AuthError>)
    ensures
        !has_prefix(candidate_key@, "sk_live_"@) ==> r == Err::<AuthApiKey, AuthError>(AuthError::InvalidApiKey),
        has_prefix(candidate_key@, "sk_live_"@) ==> match rows {
            Err(()) => r == Err::<AuthApiKey, AuthError>(AuthError::AuthenticationFailed),
            Ok(v) => match matching_row(candidate_key@, v@) {
                Some(i) => r matches Ok(k) && key_from_row(k, v@[i]),
                None => r == Err::<AuthApiKey, AuthError>(AuthError::InvalidApiKey),
            },
        },
{
    if !starts_with(candidate_key, "sk_live_") {
        return Err(AuthError::InvalidApiKey);
    }
    match rows {
        Err(()) => Err(AuthError::AuthenticationFailed),
        Ok(v) => require_api_key(authenticate_api_key(candidate_key, v)),
    }
}

/// The user a request authenticates as, from the user lookup: a failed lookup
/// is a load error, and no such user is refused.
pub fn loaded_user(found: Result<Option<AuthIdentity>, ()>) -> (r: Result<AuthIdentity, AuthError>)
    ensures
        match found {
            Err(()) => r == Err::<AuthIdentity, AuthError>(AuthError::UserLoadError),
            Ok(None) => r == Err::<AuthIdentity, AuthError>(AuthError::UserNotFound),
            Ok(Some(u)) => r == Ok::<AuthIdentity, AuthError>(u),
        },
{
    match found {
        Err(()) => Err(AuthError::UserLoadError),
        Ok(None) => Err(AuthError::UserNotFound),
        Ok(Some(u)) => Ok(u),
    }
}

/// The memberships of a user, from their lookup: a failed lookup is a load error.
pub fn loaded_memberships(found: Result<Vec<AuthMembership>, ()>) -> (r: Result<Vec<AuthMembership>, AuthError>)
    ensures
        match found {
            Err(()) => r matches Err(e) && e == AuthError::MembershipsLoadError,
            Ok(v) => r matches Ok(w) && w@ == v@,
        },
{
    match found {
        Err(()) => Err(AuthError::MembershipsLoadError),
        Ok(v) => Ok(v),
    }
}

/// Calls `jsonwebtoken::decode::<serde_json::Value>` on the token with the
/// secret as an HMAC key, under `Validation::new(Algorithm::HS256)` with its
/// `validate_aud`, `aud` and `iss` fields set to the values given (an audience
/// or issuer as a set of one); on success the token's claims. Nothing is
/// claimed of the outcome: it depends on the clock, through the expiry check.
#[verifier::external_body]
fn jwt_decode_hs256(
    token: &str,
    secret: &str,
    validate_aud: bool,
    audience: Option<&str>,
    issuer: Option<&str>,
) -> (r: Result<serde_json::Value, ()>) {
    let mut validation = jsonwebtoken::Validation::new(jsonwebtoken::Algorithm::HS256);
    validation.validate_aud = validate_aud;
    validation.aud = audience.map(|a| std::collections::HashSet::from([a.to_string()]));
    validation.iss = issuer.map(|i| std::collections::HashSet::from([i.to_string()]));
    let key = jsonwebtoken::DecodingKey::from_secret(secret.as_bytes());
    jsonwebtoken::decode::<serde_json::Value>(token, &key, &validation).map(|data| data.claims).map_err(|_| ())
}

fn opt_str(o: &Option<String>) -> (r: Option<&str>)
    ensures
        match o {
            Some(s) => r matches Some(t) && t@ == s@,
            None => r is None,
        },
{
    match o {
        Some(s) => Some(s.as_str()),
        None => None,
    }
}

/// How access tokens are checked: the HMAC secret, whether the audience is
/// checked, and the accepted audience and issuer.
#[derive(Debug, Clone)]
pub struct JwtSettings {
    pub secret: String,
    pub validate_aud: bool,
    pub audience: Option<String>,
    pub issuer: Option<String>,
}

/// The token checks a configuration asks for: its secret; the audience is
/// checked exactly when one is configured, against that audience; the issuer
/// is the configured one, if any.
pub fn jwt_settings(config: &AuthConfig) -> (r: JwtSettings)
    ensures
        r.secret@ == config.jwt_secret@,
        r.validate_aud == (config.audience is Some),
        opt_text(r.audience) == opt_text(config.audience),
        opt_text(r.issuer) == opt_text(config.issuer),
{
    let audience = match &config.audience {
        Some(a) => Some(String::from_str(a.as_str())),
        None => None,
    };
    let issuer = match &config.issuer {
        Some(i) => Some(String::from_str(i.as_str())),
        None => None,
    };
    JwtSettings {
        secret: String::from_str(config.jwt_secret.as_str()),
        validate_aud: config.audience.is_some(),
        audience,
        issuer,
    }
}

/// The claims of an HS256 access token, checked under the settings of the
/// configuration (`jwt_settings`); a token that does not validate is refused
/// as invalid. Which tokens validate depends on the clock, so success is not
/// promised for any token.
pub fn validate_jwt_token(token: &str, config: &AuthConfig) -> (r: Result<serde_json::Value, AuthError>)
    ensures
        r matches Err(e) ==> e == AuthError::InvalidToken,
{
    let settings = jwt_settings(config);
    match jwt_decode_hs256(
        token,
        settings.secret.as_str(),
        settings.validate_aud,
        opt_str(&settings.audience),
        opt_str(&settings.issuer),
    ) {
        Ok(claims) => Ok(claims),
        Err(()) => Err(AuthError::InvalidToken),
    }
}

/// Admits creator-tier users only (team operations).
pub fn require_creator(ctx: AuthContext) -> (r: Result<AuthContext, AuthError>)
    ensures
        ctx.user.tier is Creator ==> r == Ok::<AuthContext, AuthError>(ctx),
        !(ctx.user.tier is Creator) ==> r == Err::<AuthContext, AuthError>(AuthError::InsufficientTier),
{
    if ctx.user.tier != AuthTier::Creator {
        return Err(AuthError::InsufficientTier);
    }
    Ok(ctx)
}


// ----- the repository's key lookup -----

/// How the repository's scan over key rows ends, from index `i`: a row whose
/// scopes do not decode stops it with an error; else the first row whose
/// hash the candidate matches is found.
pub open spec fn stored_key_scan(candidate: Seq<char>, rows: Seq<ApiKeyRecord>, i: int) -> Result<Option<int>, ()>
    decreases rows.len() - i,
{
    if i < 0 || i >= rows.len() {
        Ok(None)
    } else if spec_scopes_from_json(rows[i].scopes_json@) is None {
        Err(())
    } else if verify_key_hash_spec(candidate, rows[i].key_hash@) {
        Ok(Some(i))
    } else {
        stored_key_scan(candidate, rows, i + 1)
    }
}

/// Whether `k` is the stored key of `row`, hash included.
pub open spec fn stored_key_from_row(k: ApiKey, row: ApiKeyRecord) -> bool {
    &&& k.id == row.id
    &&& k.user_id == row.user_id
    &&& k.owner@ == row.owner@
    &&& k.name@ == row.name@
    &&& k.key_prefix@ == row.key_prefix@
    &&& k.key_hash@ == row.key_hash@
    &&& spec_scopes_from_json(row.scopes_json@) == Some(scope_views(k.scopes@))
    &&& k.last_used_at == row.last_used_at
    &&& k.expires_at == row.expires_at
    &&& k.revoked_at == row.revoked_at
    &&& k.created_at == row.created_at
}

proof fn lemma_stored_key_scan_bounds(candidate: Seq<char>, rows: Seq<ApiKeyRecord>, i: int)
    requires
        0 <= i,
    ensures
        stored_key_scan(candidate, rows, i) matches Ok(Some(j)) ==> i <= j < rows.len(),
    decreases rows.len() - i,
{
    if i < rows.len() && spec_scopes_from_json(rows[i].scopes_json@) is Some && !verify_key_hash_spec(
        candidate,
        rows[i].key_hash@,
    ) {
        lemma_stored_key_scan_bounds(candidate, rows, i + 1);
    }
}

fn copy_text(s: &String) -> (r: String)
    ensures
        r@ == s@,
{
    String::from_str(s.as_str())
}

/// The stored key a row holds: its fields as they are, and its scope list
/// decoded from JSON; a row whose scopes do not decode is invalid data.
pub fn stored_key_from_record(row: &ApiKeyRecord) -> (r: Result<ApiKey, RepositoryError>)
    ensures
        (r is Ok) == (spec_scopes_from_json(row.scopes_json@) is Some),
        r matches Ok(k) ==> stored_key_from_row(k, *row),
        r matches Err(e) ==> e matches RepositoryError::InvalidData(m) && has_prefix(m@, "Invalid scopes JSON: "@),
{
    let scopes = match decode_scopes(row.scopes_json.as_str()) {
        Ok(v) => v,
        Err(detail) => {
            let mut m = String::from_str("Invalid scopes JSON: ");
            m.append(detail.as_str());
            proof {
                assert(m@.subrange(0, "Invalid scopes JSON: "@.len() as int) =~= "Invalid scopes JSON: "@);
            }
            return Err(RepositoryError::InvalidData(m));
        },
    };
    Ok(
        ApiKey {
            id: row.id,
            user_id: row.user_id,
            owner: copy_text(&row.owner),
            name: copy_text(&row.name),
            key_prefix: copy_text(&row.key_prefix),
            key_hash: copy_text(&row.key_hash),
            scopes,
            last_used_at: row.last_used_at,
            expires_at: row.expires_at,
            revoked_at: row.revoked_at,
            created_at: row.created_at,
        },
    )
}

/// The repository's lookup of a key by its ID: nothing where no row was
/// found, else the key the row holds.
pub fn stored_key_lookup(row: Option<&ApiKeyRecord>) -> (r: Result<Option<ApiKey>, RepositoryError>)
    ensures
        row is None ==> r matches Ok(None),
        row matches Some(x) ==> match r {
            Ok(Some(k)) => stored_key_from_row(k, *x),
            Ok(None) => false,
            Err(e) => spec_scopes_from_json(x.scopes_json@) is None && (e matches RepositoryError::InvalidData(m)
                && has_prefix(m@, "Invalid scopes JSON: "@)),
        },
{
    match row {
        None => Ok(None),
        Some(x) => match stored_key_from_record(x) {
            Ok(k) => Ok(Some(k)),
            Err(e) => Err(e),
        },
    }
}

/// The repository's lookup of a candidate key among the active key rows:
/// nothing without the live prefix; else the rows are scanned in order, a row
/// whose scopes do not decode fails the lookup as invalid data, and the first
/// row whose salted hash the candidate matches is the key.
pub fn authenticate_stored_key(candidate_key: &str, rows: &Vec<ApiKeyRecord>) -> (r: Result<Option<ApiKey>, RepositoryError>)
    ensures
        !has_prefix(candidate_key@, "sk_live_"@) ==> r matches Ok(None),
        has_prefix(candidate_key@, "sk_live_"@) ==> match stored_key_scan(candidate_key@, rows@, 0) {
            Err(()) => r matches Err(RepositoryError::InvalidData(m)) && has_prefix(m@, "Invalid scopes JSON: "@),
            Ok(None) => r matches Ok(None),
            Ok(Some(i)) => r matches Ok(Some(k)) && stored_key_from_row(k, rows@[i]),
        },
{
    if !starts_with(candidate_key, "sk_live_") {
        return Ok(None);
    }
    proof {
        lemma_stored_key_scan_bounds(candidate_key@, rows@, 0);
    }
    let mut i: usize = 0;
    while i < rows.len()
        invariant
            i <= rows.len(),
            has_prefix(candidate_key@, "sk_live_"@),
            stored_key_scan(candidate_key@, rows@, 0) == stored_key_scan(candidate_key@, rows@, i as int),
        decreases rows.len() - i,
    {
        let key = match stored_key_from_record(&rows[i]) {
            Ok(k) => k,
            Err(e) => {
                return Err(e);
            },
        };
        if verify_key_hash(candidate_key, rows[i].key_hash.as_str()) {
            return Ok(Some(key));
        }
        i = i + 1;
    }
    Ok(None)
}

} // verus!
