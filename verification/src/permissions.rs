//! Authorization: which operations an authenticated user may perform, based
//! on the user's tier, team memberships, resource ownership and API key scopes.

use vstd::prelude::*;

use crate::error::{Error, ErrorKind};
use crate::roles::{MembershipRole, UserTier};
use crate::text::text_eq;
use crate::urn::{parse_urn_text, urn_parse_spec, Urn, UrnComponents, UrnView};
use crate::users::{ApiKey, Team, User};
use crate::work::{AssetFile, Job};

verus! {

/// Authorization-specific errors.
#[derive(Debug, Clone)]
pub enum AuthError {
    AccessDenied(String),
    InsufficientPermissions(String),
    InvalidTier(String),
    InvalidScope(String),
    OwnershipViolation(String),
}

/// The kinds of authorization errors.
#[derive(Debug, Clone, Copy, PartialEq, Eq, Structural)]
pub enum AuthErrorKind {
    AccessDenied,
    InsufficientPermissions,
    InvalidTier,
    InvalidScope,
    OwnershipViolation,
}

impl AuthErrorKind {
    pub open spec fn spec_prefix(self) -> Seq<char> {
        match self {
            AuthErrorKind::AccessDenied => "Access denied: "@,
            AuthErrorKind::InsufficientPermissions => "Insufficient permissions: "@,
            AuthErrorKind::InvalidTier => "Invalid user tier for operation: "@,
            AuthErrorKind::InvalidScope => "Invalid scope for operation: "@,
            AuthErrorKind::OwnershipViolation => "Resource ownership violation: "@,
        }
    }
}

/// The common error that an authorization error of `kind` with `msg` becomes.
pub open spec fn denied(kind: AuthErrorKind, msg: Seq<char>) -> (ErrorKind, Seq<char>) {
    (ErrorKind::Authorization, kind.spec_prefix() + msg)
}

impl View for AuthError {
    type V = (AuthErrorKind, Seq<char>);

    open spec fn view(&self) -> (AuthErrorKind, Seq<char>) {
        match self {
            AuthError::AccessDenied(m) => (AuthErrorKind::AccessDenied, m@),
            AuthError::InsufficientPermissions(m) => (AuthErrorKind::InsufficientPermissions, m@),
            AuthError::InvalidTier(m) => (AuthErrorKind::InvalidTier, m@),
            AuthError::InvalidScope(m) => (AuthErrorKind::InvalidScope, m@),
            AuthError::OwnershipViolation(m) => (AuthErrorKind::OwnershipViolation, m@),
        }
    }
}

impl AuthError {
    /// The message this error displays.
    pub fn to_string(&self) -> (s: String)
        ensures
            s@ == self@.0.spec_prefix() + self@.1,
    {
        let (prefix, m) = match self {
            AuthError::AccessDenied(m) => ("Access denied: ", m),
            AuthError::InsufficientPermissions(m) => ("Insufficient permissions: ", m),
            AuthError::InvalidTier(m) => ("Invalid user tier for operation: ", m),
            AuthError::InvalidScope(m) => ("Invalid scope for operation: ", m),
            AuthError::OwnershipViolation(m) => ("Resource ownership violation: ", m),
        };
        let mut s = String::from_str(prefix);
        s.append(m.as_str());
        s
    }

    /// The common error this becomes (`From<AuthError> for Error`).
    pub fn into_error(self) -> (e: Error)
        ensures
            e@ == (ErrorKind::Authorization, self@.0.spec_prefix() + self@.1),
    {
        Error::Authorization(self.to_string())
    }
}

fn deny(kind: AuthErrorKind, msg: &str) -> (e: Error)
    ensures
        e@ == denied(kind, msg@),
{
    let err = match kind {
        AuthErrorKind::AccessDenied => AuthError::AccessDenied(String::from_str(msg)),
        AuthErrorKind::InsufficientPermissions => AuthError::InsufficientPermissions(String::from_str(msg)),
        AuthErrorKind::InvalidTier => AuthError::InvalidTier(String::from_str(msg)),
        AuthErrorKind::InvalidScope => AuthError::InvalidScope(String::from_str(msg)),
        AuthErrorKind::OwnershipViolation => AuthError::OwnershipViolation(String::from_str(msg)),
    };
    err.into_error()
}

/// An authenticated user context.
#[derive(Debug, Clone)]
pub struct AuthContext {
    pub user: User,
    pub memberships: Vec<(Team, MembershipRole)>,
    pub api_key: Option<ApiKey>,
}

/// The role of the first membership for `team_id`, searching from index `i`.
pub open spec fn role_in(ms: Seq<(Team, MembershipRole)>, team_id: u128, i: int) -> Option<MembershipRole>
    decreases ms.len() - i,
{
    if i < 0 || i >= ms.len() {
        None
    } else if ms[i].0.id == team_id {
        Some(ms[i].1)
    } else {
        role_in(ms, team_id, i + 1)
    }
}

pub open spec fn scope_views(v: Seq<String>) -> Seq<Seq<char>> {
    v.map_values(|s: String| s@)
}

/// Whether a key's scopes allow `required`: a wildcard allows everything.
pub open spec fn scopes_allow(scopes: Seq<Seq<char>>, required: Seq<char>) -> bool {
    scopes.contains("*"@) || scopes.contains(required)
}

pub(crate) fn scopes_contain(scopes: &Vec<String>, s: &str) -> (r: bool)
    ensures
        r == scope_views(scopes@).contains(s@),
{
    let mut i: usize = 0;
    while i < scopes.len()
        invariant
            i <= scopes.len(),
            forall|j: int| 0 <= j < i ==> scopes@[j]@ != s@,
        decreases scopes.len() - i,
    {
        if text_eq(scopes[i].as_str(), s) {
            assert(scope_views(scopes@)[i as int] == s@);
            return true;
        }
        i = i + 1;
    }
    assert forall|j: int| 0 <= j < scope_views(scopes@).len() implies scope_views(scopes@)[j] != s@ by {
        assert(scope_views(scopes@)[j] == scopes@[j]@);
    }
    false
}

impl AuthContext {
    pub open spec fn spec_team_role(&self, team_id: u128) -> Option<MembershipRole> {
        role_in(self.memberships@, team_id, 0)
    }

    pub open spec fn spec_has_scope(&self, required: Seq<char>) -> bool {
        match self.api_key {
            Some(k) => scopes_allow(scope_views(k.scopes@), required),
            None => true,
        }
    }

    /// Whether the user may access resources owned by the URN with text `urn`.
    pub open spec fn spec_can_access(&self, urn: Seq<char>) -> bool {
        match urn_parse_spec(urn) {
            Ok(UrnView::User { user_id }) => user_id == self.user.id,
            Ok(UrnView::Team { team_id }) => self.spec_team_role(team_id) is Some,
            Ok(UrnView::TeamUser { team_id, user_id }) => user_id == self.user.id && self.spec_team_role(team_id) is Some,
            _ => false,
        }
    }

    /// Create a new auth context for a user
    pub fn new(user: User, memberships: Vec<(Team, MembershipRole)>, api_key: Option<ApiKey>) -> (r: Self)
        ensures
            r.user == user && r.memberships == memberships && r.api_key == api_key,
    {
        AuthContext { user, memberships, api_key }
    }

    /// Whether the user has the creator tier
    pub fn is_creator(&self) -> (r: bool)
        ensures
            r == (self.user.tier is Creator),
    {
        match self.user.tier {
            UserTier::Creator => true,
            UserTier::Starter => false,
        }
    }

    /// Whether the user has the starter tier
    pub fn is_starter(&self) -> (r: bool)
        ensures
            r == (self.user.tier is Starter),
    {
        match self.user.tier {
            UserTier::Starter => true,
            UserTier::Creator => false,
        }
    }

    /// The user's role in a team, from the first membership of that team
    pub fn get_team_role(&self, team_id: u128) -> (r: Option<MembershipRole>)
        ensures
            r == self.spec_team_role(team_id),
    {
        let mut i: usize = 0;
        while i < self.memberships.len()
            invariant
                i <= self.memberships.len(),
                role_in(self.memberships@, team_id, 0) == role_in(self.memberships@, team_id, i as int),
            decreases self.memberships.len() - i,
        {
            if self.memberships[i].0.id == team_id {
                return Some(self.memberships[i].1);
            }
            i = i + 1;
        }
        None
    }

    /// Whether the user can access resources owned by `urn`
    pub fn can_access_urn(&self, urn: &Urn) -> (r: bool)
        ensures
            r == self.spec_can_access(urn@),
    {
        self.can_access_urn_text(urn.as_str())
    }

    fn can_access_urn_text(&self, urn: &str) -> (r: bool)
        ensures
            r == self.spec_can_access(urn@),
    {
        match parse_urn_text(urn) {
            Ok(UrnComponents::User { user_id }) => user_id == self.user.id,
            Ok(UrnComponents::Team { team_id }) => self.get_team_role(team_id).is_some(),
            Ok(UrnComponents::TeamUser { team_id, user_id }) => user_id == self.user.id && self.get_team_role(
                team_id,
            ).is_some(),
            Ok(UrnComponents::System { .. }) => false,
            Err(_) => false,
        }
    }

    /// Whether the user has the required scope (when authenticated by API key)
    pub fn has_scope(&self, required_scope: &str) -> (r: bool)
        ensures
            r == self.spec_has_scope(required_scope@),
    {
        match &self.api_key {
            Some(api_key) => {
                if scopes_contain(&api_key.scopes, "*") {
                    return true;
                }
                scopes_contain(&api_key.scopes, required_scope)
            },
            None => true,
        }
    }
}

/// The outcome of a permission check: allowed, or the error it is refused with.
pub open spec fn check_view(r: Result<(), Error>) -> Result<(), (ErrorKind, Seq<char>)> {
    match r {
        Ok(()) => Ok(()),
        Err(e) => Err(e@),
    }
}

pub open spec fn allowed() -> Result<(), (ErrorKind, Seq<char>)> {
    Ok(())
}

pub open spec fn refused(kind: AuthErrorKind, msg: Seq<char>) -> Result<(), (ErrorKind, Seq<char>)> {
    Err(denied(kind, msg))
}

/// Scope check: allowed, or refused for a missing scope.
pub open spec fn scope_check(ctx: AuthContext, scope: Seq<char>) -> Result<(), (ErrorKind, Seq<char>)> {
    if ctx.spec_has_scope(scope) {
        allowed()
    } else {
        refused(AuthErrorKind::InvalidScope, scope + " scope required"@)
    }
}

pub open spec fn access_job_spec(ctx: AuthContext, job: Job) -> Result<(), (ErrorKind, Seq<char>)> {
    if urn_parse_spec(job.owner@) is Err {
        refused(AuthErrorKind::OwnershipViolation, "Invalid job owner URN"@)
    } else if !ctx.spec_can_access(job.owner@) {
        refused(AuthErrorKind::AccessDenied, "Cannot access job owned by different entity"@)
    } else {
        allowed()
    }
}

pub open spec fn cancel_job_spec(ctx: AuthContext, job: Job) -> Result<(), (ErrorKind, Seq<char>)> {
    if access_job_spec(ctx, job) is Err {
        access_job_spec(ctx, job)
    } else if scope_check(ctx, "jobs:write"@) is Err {
        scope_check(ctx, "jobs:write"@)
    } else if job.status.spec_is_terminal() {
        refused(AuthErrorKind::AccessDenied, "Cannot cancel completed job"@)
    } else {
        allowed()
    }
}

pub open spec fn clone_job_spec(ctx: AuthContext, job: Job) -> Result<(), (ErrorKind, Seq<char>)> {
    if access_job_spec(ctx, job) is Err {
        access_job_spec(ctx, job)
    } else {
        scope_check(ctx, "jobs:write"@)
    }
}

pub open spec fn create_team_spec(ctx: AuthContext) -> Result<(), (ErrorKind, Seq<char>)> {
    if !(ctx.user.tier is Creator) {
        refused(AuthErrorKind::InvalidTier, "Only creator tier users can create teams"@)
    } else {
        scope_check(ctx, "team:admin"@)
    }
}

pub open spec fn access_team_spec(ctx: AuthContext, team_id: u128) -> Result<(), (ErrorKind, Seq<char>)> {
    if ctx.spec_team_role(team_id) is None {
        refused(AuthErrorKind::AccessDenied, "Not a team member"@)
    } else {
        scope_check(ctx, "team:read"@)
    }
}

/// Whether the user is owner or admin of the team.
pub open spec fn is_team_admin(ctx: AuthContext, team_id: u128) -> bool {
    match ctx.spec_team_role(team_id) {
        Some(r) => r.spec_can_admin(),
        None => false,
    }
}

pub open spec fn admin_team_spec(ctx: AuthContext, team_id: u128) -> Result<(), (ErrorKind, Seq<char>)> {
    if !is_team_admin(ctx, team_id) {
        refused(AuthErrorKind::InsufficientPermissions, "Owner or admin role required"@)
    } else {
        scope_check(ctx, "team:admin"@)
    }
}

pub open spec fn remove_member_spec(ctx: AuthContext, team_id: u128, target: MembershipRole) -> Result<
    (),
    (ErrorKind, Seq<char>),
> {
    if admin_team_spec(ctx, team_id) is Err {
        admin_team_spec(ctx, team_id)
    } else if target is Owner && !(ctx.spec_team_role(team_id) == Some(MembershipRole::Owner)) {
        refused(AuthErrorKind::InsufficientPermissions, "Cannot remove team owner"@)
    } else {
        allowed()
    }
}

pub open spec fn change_role_spec(ctx: AuthContext, team_id: u128, new_role: MembershipRole) -> Result<
    (),
    (ErrorKind, Seq<char>),
> {
    if ctx.spec_team_role(team_id) is None {
        refused(AuthErrorKind::AccessDenied, "Not a team member"@)
    } else if new_role is Owner && !(ctx.spec_team_role(team_id) == Some(MembershipRole::Owner)) {
        refused(AuthErrorKind::InsufficientPermissions, "Only owners can promote to owner role"@)
    } else {
        admin_team_spec(ctx, team_id)
    }
}

pub open spec fn create_project_spec(ctx: AuthContext, team_id: u128) -> Result<(), (ErrorKind, Seq<char>)> {
    if !(match ctx.spec_team_role(team_id) {
        Some(r) => !(r is Viewer),
        None => false,
    }) {
        refused(AuthErrorKind::InsufficientPermissions, "Team membership required"@)
    } else {
        scope_check(ctx, "projects:write"@)
    }
}

pub open spec fn delete_project_spec(ctx: AuthContext, team_id: u128) -> Result<(), (ErrorKind, Seq<char>)> {
    if !is_team_admin(ctx, team_id) {
        refused(AuthErrorKind::InsufficientPermissions, "Owner or admin role required"@)
    } else {
        scope_check(ctx, "projects:write"@)
    }
}

pub open spec fn manage_webhooks_spec(ctx: AuthContext, team_id: u128) -> Result<(), (ErrorKind, Seq<char>)> {
    if !is_team_admin(ctx, team_id) {
        refused(AuthErrorKind::InsufficientPermissions, "Owner or admin role required"@)
    } else {
        scope_check(ctx, "webhooks:write"@)
    }
}

pub open spec fn access_asset_spec(ctx: AuthContext, asset: AssetFile) -> Result<(), (ErrorKind, Seq<char>)> {
    if urn_parse_spec(asset.owner@) is Err {
        refused(AuthErrorKind::OwnershipViolation, "Invalid asset owner URN"@)
    } else if !ctx.spec_can_access(asset.owner@) {
        refused(AuthErrorKind::AccessDenied, "Cannot access asset owned by different entity"@)
    } else {
        scope_check(ctx, "assets:read"@)
    }
}

/// Whether a starter-tier API key may carry `scope`.
pub open spec fn starter_scope(scope: Seq<char>) -> bool {
    scope == "*"@ || scope == "generate"@ || scope == "jobs:read"@ || scope == "jobs:write"@ || scope
        == "assets:read"@ || scope == "assets:write"@
}

/// The index of the first scope a starter may not carry, searching from `i`.
pub open spec fn first_disallowed_scope(scopes: Seq<Seq<char>>, i: int) -> Option<int>
    decreases scopes.len() - i,
{
    if i < 0 || i >= scopes.len() {
        None
    } else if !starter_scope(scopes[i]) {
        Some(i)
    } else {
        first_disallowed_scope(scopes, i + 1)
    }
}

pub open spec fn tier_scopes_spec(tier: UserTier, scopes: Seq<Seq<char>>) -> Result<(), (ErrorKind, Seq<char>)> {
    match tier {
        UserTier::Creator => allowed(),
        UserTier::Starter => match first_disallowed_scope(scopes, 0) {
            Some(i) => refused(
                AuthErrorKind::InvalidScope,
                "Scope '"@ + scopes[i] + "' not allowed for starter tier"@,
            ),
            None => allowed(),
        },
    }
}

fn require_scope(ctx: &AuthContext, scope: &str) -> (r: Result<(), Error>)
    ensures
        check_view(r) == scope_check(*ctx, scope@),
{
    if !ctx.has_scope(scope) {
        let mut m = String::from_str(scope);
        m.append(" scope required");
        let e = AuthError::InvalidScope(m).into_error();
        return Err(e);
    }
    Ok(())
}

fn is_starter_scope(s: &str) -> (r: bool)
    ensures
        r == starter_scope(s@),
{
    text_eq(s, "*") || text_eq(s, "generate") || text_eq(s, "jobs:read") || text_eq(s, "jobs:write") || text_eq(
        s,
        "assets:read",
    ) || text_eq(s, "assets:write")
}

/// Permission checks for the operations of the API.
#[derive(Debug)]
pub struct PermissionChecker;

impl PermissionChecker {
    /// Whether the user may access a job: its owner URN must be valid and accessible.
    pub fn can_access_job(ctx: &AuthContext, job: &Job) -> (r: Result<(), Error>)
        ensures
            check_view(r) == access_job_spec(*ctx, *job),
    {
        match parse_urn_text(job.owner.as_str()) {
            Ok(_) => {},
            Err(_) => {
                return Err(deny(AuthErrorKind::OwnershipViolation, "Invalid job owner URN"));
            },
        }
        if !ctx.can_access_urn_text(job.owner.as_str()) {
            return Err(deny(AuthErrorKind::AccessDenied, "Cannot access job owned by different entity"));
        }
        Ok(())
    }

    /// Whether the user may cancel a job: access, the `jobs:write` scope, and a job still running.
    pub fn can_cancel_job(ctx: &AuthContext, job: &Job) -> (r: Result<(), Error>)
        ensures
            check_view(r) == cancel_job_spec(*ctx, *job),
    {
        match Self::can_access_job(ctx, job) {
            Ok(()) => {},
            Err(e) => {
                return Err(e);
            },
        }
        match require_scope(ctx, "jobs:write") {
            Ok(()) => {},
            Err(e) => {
                return Err(e);
            },
        }
        if job.status.is_terminal() {
            return Err(deny(AuthErrorKind::AccessDenied, "Cannot cancel completed job"));
        }
        Ok(())
    }

    /// Whether the user may clone a job: access and the `jobs:write` scope.
    pub fn can_clone_job(ctx: &AuthContext, job: &Job) -> (r: Result<(), Error>)
        ensures
            check_view(r) == clone_job_spec(*ctx, *job),
    {
        match Self::can_access_job(ctx, job) {
            Ok(()) => {},
            Err(e) => {
                return Err(e);
            },
        }
        require_scope(ctx, "jobs:write")
    }

    /// Whether the user may create a team: creator tier and the `team:admin` scope.
    pub fn can_create_team(ctx: &AuthContext) -> (r: Result<(), Error>)
        ensures
            check_view(r) == create_team_spec(*ctx),
    {
        if !ctx.is_creator() {
            return Err(deny(AuthErrorKind::InvalidTier, "Only creator tier users can create teams"));
        }
        require_scope(ctx, "team:admin")
    }

    /// Whether the user may access a team: membership and the `team:read` scope.
    pub fn can_access_team(ctx: &AuthContext, team_id: u128) -> (r: Result<(), Error>)
        ensures
            check_view(r) == access_team_spec(*ctx, team_id),
    {
        if ctx.get_team_role(team_id).is_none() {
            return Err(deny(AuthErrorKind::AccessDenied, "Not a team member"));
        }
        require_scope(ctx, "team:read")
    }

    /// Whether the user may administer a team: owner or admin, and the `team:admin` scope.
    pub fn can_admin_team(ctx: &AuthContext, team_id: u128) -> (r: Result<(), Error>)
        ensures
            check_view(r) == admin_team_spec(*ctx, team_id),
    {
        match ctx.get_team_role(team_id) {
            Some(MembershipRole::Owner) | Some(MembershipRole::Admin) => {},
            _ => {
                return Err(deny(AuthErrorKind::InsufficientPermissions, "Owner or admin role required"));
            },
        }
        require_scope(ctx, "team:admin")
    }

    /// Whether the user may invite members to a team (the same as administering it).
    pub fn can_invite_members(ctx: &AuthContext, team_id: u128) -> (r: Result<(), Error>)
        ensures
            check_view(r) == admin_team_spec(*ctx, team_id),
    {
        Self::can_admin_team(ctx, team_id)
    }

    /// Whether the user may remove a member with role `target_role`; only owners remove owners.
    pub fn can_remove_member(ctx: &AuthContext, team_id: u128, target_role: MembershipRole) -> (r: Result<(), Error>)
        ensures
            check_view(r) == remove_member_spec(*ctx, team_id, target_role),
    {
        match Self::can_admin_team(ctx, team_id) {
            Ok(()) => {},
            Err(e) => {
                return Err(e);
            },
        }
        let user_role = match ctx.get_team_role(team_id) {
            Some(r) => r,
            None => {
                return Err(deny(AuthErrorKind::AccessDenied, "Not a team member"));
            },
        };
        if let MembershipRole::Owner = target_role {
            if !user_role.is_owner() {
                return Err(deny(AuthErrorKind::InsufficientPermissions, "Cannot remove team owner"));
            }
        }
        Ok(())
    }

    /// Whether the user may give a member the role `new_role`; only owners promote to owner.
    pub fn can_change_member_role(ctx: &AuthContext, team_id: u128, new_role: MembershipRole) -> (r: Result<(), Error>)
        ensures
            check_view(r) == change_role_spec(*ctx, team_id, new_role),
    {
        let user_role = match ctx.get_team_role(team_id) {
            Some(r) => r,
            None => {
                return Err(deny(AuthErrorKind::AccessDenied, "Not a team member"));
            },
        };
        if let MembershipRole::Owner = new_role {
            if !user_role.is_owner() {
                return Err(deny(AuthErrorKind::InsufficientPermissions, "Only owners can promote to owner role"));
            }
        }
        Self::can_admin_team(ctx, team_id)
    }

    /// Whether the user may create a project in a team: any role but viewer, and `projects:write`.
    pub fn can_create_project(ctx: &AuthContext, team_id: u128) -> (r: Result<(), Error>)
        ensures
            check_view(r) == create_project_spec(*ctx, team_id),
    {
        match ctx.get_team_role(team_id) {
            Some(MembershipRole::Owner) | Some(MembershipRole::Admin) | Some(MembershipRole::Member) => {},
            _ => {
                return Err(deny(AuthErrorKind::InsufficientPermissions, "Team membership required"));
            },
        }
        require_scope(ctx, "projects:write")
    }

    /// Whether the user may delete a project in a team: owner or admin, and `projects:write`.
    pub fn can_delete_project(ctx: &AuthContext, team_id: u128) -> (r: Result<(), Error>)
        ensures
            check_view(r) == delete_project_spec(*ctx, team_id),
    {
        match ctx.get_team_role(team_id) {
            Some(MembershipRole::Owner) | Some(MembershipRole::Admin) => {},
            _ => {
                return Err(deny(AuthErrorKind::InsufficientPermissions, "Owner or admin role required"));
            },
        }
        require_scope(ctx, "projects:write")
    }

    /// Whether the user may manage a team's webhooks: owner or admin, and `webhooks:write`.
    pub fn can_manage_webhooks(ctx: &AuthContext, team_id: u128) -> (r: Result<(), Error>)
        ensures
            check_view(r) == manage_webhooks_spec(*ctx, team_id),
    {
        match ctx.get_team_role(team_id) {
            Some(MembershipRole::Owner) | Some(MembershipRole::Admin) => {},
            _ => {
                return Err(deny(AuthErrorKind::InsufficientPermissions, "Owner or admin role required"));
            },
        }
        require_scope(ctx, "webhooks:write")
    }

    /// Whether the user may access an asset: a valid, accessible owner and `assets:read`.
    pub fn can_access_asset(ctx: &AuthContext, asset: &AssetFile) -> (r: Result<(), Error>)
        ensures
            check_view(r) == access_asset_spec(*ctx, *asset),
    {
        match parse_urn_text(asset.owner.as_str()) {
            Ok(_) => {},
            Err(_) => {
                return Err(deny(AuthErrorKind::OwnershipViolation, "Invalid asset owner URN"));
            },
        }
        if !ctx.can_access_urn_text(asset.owner.as_str()) {
            return Err(deny(AuthErrorKind::AccessDenied, "Cannot access asset owned by different entity"));
        }
        require_scope(ctx, "assets:read")
    }

    /// Whether the API key scopes are allowed for the tier: creators may use
    /// any scope; starters only `generate`, `jobs:*`, `assets:*` and the wildcard.
    pub fn validate_api_key_scopes_for_tier(tier: UserTier, scopes: &[String]) -> (r: Result<(), Error>)
        ensures
            check_view(r) == tier_scopes_spec(tier, scope_views(scopes@)),
    {
        if let UserTier::Creator = tier {
            return Ok(());
        }
        let ghost sv = scope_views(scopes@);
        let mut i: usize = 0;
        while i < scopes.len()
            invariant
                i <= scopes@.len(),
                sv == scope_views(scopes@),
                tier is Starter,
                first_disallowed_scope(sv, 0) == first_disallowed_scope(sv, i as int),
            decreases scopes@.len() - i,
        {
            assert(sv[i as int] == scopes@[i as int]@);
            if !is_starter_scope(scopes[i].as_str()) {
                let mut m = String::from_str("Scope '");
                m.append(scopes[i].as_str());
                m.append("' not allowed for starter tier");
                assert(first_disallowed_scope(sv, i as int) == Some(i as int));
                return Err(AuthError::InvalidScope(m).into_error());
            }
            i = i + 1;
        }
        Ok(())
    }
}

/// Whoever may delete a project in a team may also create one there, and
/// whoever may manage webhooks or delete projects is owner or admin of the team.
pub proof fn lemma_project_permissions_nested(ctx: AuthContext, team_id: u128)
    ensures
        delete_project_spec(ctx, team_id) is Ok ==> create_project_spec(ctx, team_id) is Ok,
        delete_project_spec(ctx, team_id) is Ok ==> is_team_admin(ctx, team_id),
        manage_webhooks_spec(ctx, team_id) is Ok ==> is_team_admin(ctx, team_id),
{
}

/// Viewers can never create projects, and only owners can promote a member to
/// owner or remove an owner.
pub proof fn lemma_owner_only_operations(ctx: AuthContext, team_id: u128)
    ensures
        ctx.spec_team_role(team_id) == Some(MembershipRole::Viewer) ==> create_project_spec(ctx, team_id) is Err,
        change_role_spec(ctx, team_id, MembershipRole::Owner) is Ok ==> ctx.spec_team_role(team_id) == Some(
            MembershipRole::Owner,
        ),
        remove_member_spec(ctx, team_id, MembershipRole::Owner) is Ok ==> ctx.spec_team_role(team_id) == Some(
            MembershipRole::Owner,
        ),
{
}

/// Without an API key every scope is granted, so a team admin may do every
/// team operation; with a wildcard key likewise.
pub proof fn lemma_full_scope_admin(ctx: AuthContext, team_id: u128)
    requires
        is_team_admin(ctx, team_id),
        ctx.api_key is None,
    ensures
        admin_team_spec(ctx, team_id) is Ok,
        access_team_spec(ctx, team_id) is Ok,
        create_project_spec(ctx, team_id) is Ok,
        delete_project_spec(ctx, team_id) is Ok,
        manage_webhooks_spec(ctx, team_id) is Ok,
{
}

/// A user can access resources in their own user URN and in the URNs of the
/// teams they belong to, and never system assets.
pub proof fn lemma_urn_access(ctx: AuthContext, s: Seq<char>)
    ensures
        urn_parse_spec(s) == Ok::<UrnView, (ErrorKind, Seq<char>)>(UrnView::User { user_id: ctx.user.id })
            ==> ctx.spec_can_access(s),
        urn_parse_spec(s) matches Ok(UrnView::System { .. }) ==> !ctx.spec_can_access(s),
        urn_parse_spec(s) is Err ==> !ctx.spec_can_access(s),
{
}


proof fn lemma_role_in_found(ms: Seq<(Team, MembershipRole)>, team_id: u128, i: int)
    requires
        0 <= i,
    ensures
        (role_in(ms, team_id, i) is Some) <==> (exists|j: int| i <= j < ms.len() && #[trigger] ms[j].0.id == team_id),
    decreases ms.len() - i,
{
    if i < ms.len() {
        lemma_role_in_found(ms, team_id, i + 1);
        if exists|j: int| i <= j < ms.len() && #[trigger] ms[j].0.id == team_id {
            let j = choose|j: int| i <= j < ms.len() && #[trigger] ms[j].0.id == team_id;
            if j > i {
                assert(i + 1 <= j < ms.len() && ms[j].0.id == team_id);
            }
        }
        if exists|j: int| i + 1 <= j < ms.len() && #[trigger] ms[j].0.id == team_id {
            let j = choose|j: int| i + 1 <= j < ms.len() && #[trigger] ms[j].0.id == team_id;
            assert(i <= j < ms.len() && ms[j].0.id == team_id);
        }
    }
}

/// Who may access what an owner URN owns: a user URN only its own user; a team
/// URN only a member of that team (one with a membership whose team has that
/// ID); a team-user URN only that user, and only while a member of that team;
/// a system URN, or text that is no URN, nobody.
pub proof fn lemma_owner_access(ctx: AuthContext, urn: Seq<char>)
    ensures
        urn_parse_spec(urn) matches Ok(UrnView::User { user_id }) ==> (ctx.spec_can_access(urn) <==> user_id
            == ctx.user.id),
        urn_parse_spec(urn) matches Ok(UrnView::Team { team_id }) ==> (ctx.spec_can_access(urn) <==> exists|j: int|
            0 <= j < ctx.memberships@.len() && #[trigger] ctx.memberships@[j].0.id == team_id),
        urn_parse_spec(urn) matches Ok(UrnView::TeamUser { team_id, user_id }) ==> (ctx.spec_can_access(urn) <==> (
        user_id == ctx.user.id && exists|j: int|
            0 <= j < ctx.memberships@.len() && #[trigger] ctx.memberships@[j].0.id == team_id)),
        urn_parse_spec(urn) matches Ok(UrnView::System { .. }) ==> !ctx.spec_can_access(urn),
        urn_parse_spec(urn) is Err ==> !ctx.spec_can_access(urn),
{
    match urn_parse_spec(urn) {
        Ok(UrnView::Team { team_id }) => lemma_role_in_found(ctx.memberships@, team_id, 0),
        Ok(UrnView::TeamUser { team_id, user_id }) => lemma_role_in_found(ctx.memberships@, team_id, 0),
        _ => {},
    }
}

proof fn lemma_first_disallowed_none(scopes: Seq<Seq<char>>, i: int)
    requires
        0 <= i,
    ensures
        (first_disallowed_scope(scopes, i) is None) <==> (forall|j: int| i <= j < scopes.len() ==> starter_scope(
            #[trigger] scopes[j],
        )),
        first_disallowed_scope(scopes, i) matches Some(k) ==> i <= k < scopes.len() && !starter_scope(scopes[k]),
    decreases scopes.len() - i,
{
    if i < scopes.len() {
        lemma_first_disallowed_none(scopes, i + 1);
    }
}

/// A starter-tier key may carry the wildcard, `generate`, `jobs:read`,
/// `jobs:write`, `assets:read` and `assets:write`, and nothing else: a scope
/// list drawn from these is accepted, and a list holding any other scope is
/// refused as an invalid scope that names the first such scope. A
/// creator-tier key may carry any scopes.
pub proof fn lemma_tier_scopes(scopes: Seq<Seq<char>>)
    ensures
        tier_scopes_spec(UserTier::Starter, scopes) is Ok <==> (forall|i: int|
            0 <= i < scopes.len() ==> set!["*"@, "generate"@, "jobs:read"@, "jobs:write"@, "assets:read"@, "assets:write"@].contains(
                #[trigger] scopes[i],
            )),
        tier_scopes_spec(UserTier::Starter, scopes) matches Err(e) ==> exists|i: int|
            0 <= i < scopes.len() && !set![
                "*"@,
                "generate"@,
                "jobs:read"@,
                "jobs:write"@,
                "assets:read"@,
                "assets:write"@,
            ].contains(#[trigger] scopes[i]) && e == denied(
                AuthErrorKind::InvalidScope,
                "Scope '"@ + scopes[i] + "' not allowed for starter tier"@,
            ),
        tier_scopes_spec(UserTier::Creator, scopes) is Ok,
{
    let allowed = set!["*"@, "generate"@, "jobs:read"@, "jobs:write"@, "assets:read"@, "assets:write"@];
    assert forall|c: Seq<char>| starter_scope(c) <==> #[trigger] allowed.contains(c) by {}
    lemma_first_disallowed_none(scopes, 0);
}

} // verus!
