//! Tiers, roles and the stored status values of entities, with their bridges
//! to the state machines.

use vstd::prelude::*;

use crate::error::{validation, validation_error, Error, ErrorKind};
use crate::state::{
    InvitationState as MachineInvitationState, JobState, ProjectState, WebhookDeliveryState,
};

verus! {

/// Maximum number of team memberships a single user can hold
pub const MAX_TEAM_MEMBERSHIPS: i64 = 50;

/// User tier levels
#[derive(Debug, Clone, Copy, PartialEq, Eq, Hash, Structural)]
pub enum UserTier {
    Starter,
    Creator,
}

impl Default for UserTier {
    fn default() -> (r: Self)
        ensures
            r == UserTier::Starter,
    {
        UserTier::Starter
    }
}

impl UserTier {
    pub open spec fn spec_label(self) -> Seq<char> {
        match self {
            UserTier::Starter => "starter"@,
            UserTier::Creator => "creator"@,
        }
    }

    /// The lower-case name of the tier.
    pub fn to_string(&self) -> (r: String)
        ensures
            r@ == self.spec_label(),
    {
        match self {
            UserTier::Starter => String::from_str("starter"),
            UserTier::Creator => String::from_str("creator"),
        }
    }
}

/// Membership roles within a team
#[derive(Debug, Clone, Copy, PartialEq, Eq, Hash, Structural)]
pub enum MembershipRole {
    Owner,
    Admin,
    Member,
    Viewer,
}

impl Default for MembershipRole {
    fn default() -> (r: Self)
        ensures
            r == MembershipRole::Member,
    {
        MembershipRole::Member
    }
}

impl MembershipRole {
    pub open spec fn spec_can_admin(self) -> bool {
        self is Owner || self is Admin
    }

    /// Check if this role can perform admin actions
    pub fn can_admin(&self) -> (r: bool)
        ensures
            r == self.spec_can_admin(),
    {
        match self {
            MembershipRole::Owner | MembershipRole::Admin => true,
            _ => false,
        }
    }

    /// Check if this role is owner
    pub fn is_owner(&self) -> (r: bool)
        ensures
            r == (*self is Owner),
    {
        match self {
            MembershipRole::Owner => true,
            _ => false,
        }
    }

    /// Check if this role can invite users
    pub fn can_invite(&self) -> (r: bool)
        ensures
            r == self.spec_can_admin(),
    {
        self.can_admin()
    }

    /// Check if this role can modify team settings
    pub fn can_modify_team(&self) -> (r: bool)
        ensures
            r == (*self is Owner),
    {
        self.is_owner()
    }
}

/// Role for an invitation (excludes Owner, since owners cannot be invited)
#[derive(Debug, Clone, Copy, PartialEq, Eq, Structural)]
pub enum InvitationRole {
    Admin,
    Member,
    Viewer,
}

impl Default for InvitationRole {
    fn default() -> (r: Self)
        ensures
            r == InvitationRole::Member,
    {
        InvitationRole::Member
    }
}

impl InvitationRole {
    pub open spec fn spec_to_membership_role(self) -> MembershipRole {
        match self {
            InvitationRole::Admin => MembershipRole::Admin,
            InvitationRole::Member => MembershipRole::Member,
            InvitationRole::Viewer => MembershipRole::Viewer,
        }
    }

    /// Convert to the membership role granted once the invitation is accepted
    pub fn to_membership_role(&self) -> (r: MembershipRole)
        ensures
            r == self.spec_to_membership_role(),
    {
        match self {
            InvitationRole::Admin => MembershipRole::Admin,
            InvitationRole::Member => MembershipRole::Member,
            InvitationRole::Viewer => MembershipRole::Viewer,
        }
    }

    /// Convert a membership role to an invitation role (`TryFrom<MembershipRole>`).
    pub fn try_from(role: MembershipRole) -> (r: Result<InvitationRole, Error>)
        ensures
            match r {
                Ok(ir) => !(role is Owner) && ir.spec_to_membership_role() == role,
                Err(e) => role is Owner && e@ == validation("Cannot invite owners via invitation"@),
            },
    {
        match role {
            MembershipRole::Admin => Ok(InvitationRole::Admin),
            MembershipRole::Member => Ok(InvitationRole::Member),
            MembershipRole::Viewer => Ok(InvitationRole::Viewer),
            MembershipRole::Owner => Err(validation_error("Cannot invite owners via invitation")),
        }
    }

    pub open spec fn spec_label(self) -> Seq<char> {
        match self {
            InvitationRole::Admin => "admin"@,
            InvitationRole::Member => "member"@,
            InvitationRole::Viewer => "viewer"@,
        }
    }

    /// The lower-case name of the role.
    pub fn to_string(&self) -> (r: String)
        ensures
            r@ == self.spec_label(),
    {
        match self {
            InvitationRole::Admin => String::from_str("admin"),
            InvitationRole::Member => String::from_str("member"),
            InvitationRole::Viewer => String::from_str("viewer"),
        }
    }
}

/// Accepting an invitation never grants the owner role.
pub proof fn lemma_invited_role_is_never_owner(r: InvitationRole)
    ensures
        !(r.spec_to_membership_role() is Owner),
{
}

// ============================================================================
// Stored invitation state
// ============================================================================

/// Invitation states (derived from timestamps)
#[derive(Debug, Clone, Copy, PartialEq, Eq, Structural)]
pub enum InvitationState {
    Pending,
    Accepted,
    Declined,
    Revoked,
    Expired,
}

impl InvitationState {
    pub open spec fn spec_to_state(self) -> MachineInvitationState {
        match self {
            InvitationState::Pending => MachineInvitationState::Pending,
            InvitationState::Accepted => MachineInvitationState::Accepted,
            InvitationState::Declined => MachineInvitationState::Declined,
            InvitationState::Revoked => MachineInvitationState::Revoked,
            InvitationState::Expired => MachineInvitationState::Expired,
        }
    }

    pub open spec fn spec_from_state(s: MachineInvitationState) -> InvitationState {
        match s {
            MachineInvitationState::Pending => InvitationState::Pending,
            MachineInvitationState::Accepted => InvitationState::Accepted,
            MachineInvitationState::Declined => InvitationState::Declined,
            MachineInvitationState::Revoked => InvitationState::Revoked,
            MachineInvitationState::Expired => InvitationState::Expired,
        }
    }

    /// Check if this is a terminal state
    pub fn is_terminal(&self) -> (r: bool)
        ensures
            r == self.spec_to_state().spec_is_terminal(),
    {
        self.to_state().is_terminal()
    }

    /// Convert to state machine state
    pub fn to_state(&self) -> (r: MachineInvitationState)
        ensures
            r == self.spec_to_state(),
    {
        match self {
            InvitationState::Pending => MachineInvitationState::Pending,
            InvitationState::Accepted => MachineInvitationState::Accepted,
            InvitationState::Declined => MachineInvitationState::Declined,
            InvitationState::Revoked => MachineInvitationState::Revoked,
            InvitationState::Expired => MachineInvitationState::Expired,
        }
    }

    /// Create from state machine state
    pub fn from_state(state: MachineInvitationState) -> (r: Self)
        ensures
            r == Self::spec_from_state(state),
    {
        match state {
            MachineInvitationState::Pending => InvitationState::Pending,
            MachineInvitationState::Accepted => InvitationState::Accepted,
            MachineInvitationState::Declined => InvitationState::Declined,
            MachineInvitationState::Revoked => InvitationState::Revoked,
            MachineInvitationState::Expired => InvitationState::Expired,
        }
    }

    pub open spec fn spec_valid_transitions(self) -> Seq<InvitationState> {
        self.spec_to_state().spec_valid_transitions().map_values(
            |s: MachineInvitationState| InvitationState::spec_from_state(s),
        )
    }

    /// Get valid next states from current state
    pub fn valid_transitions(&self) -> (r: Vec<InvitationState>)
        ensures
            r@ == self.spec_valid_transitions(),
    {
        let states = self.to_state().valid_transitions();
        let mut out: Vec<InvitationState> = Vec::new();
        let mut i: usize = 0;
        while i < states.len()
            invariant
                i <= states.len(),
                states@ == self.spec_to_state().spec_valid_transitions(),
                out@ == states@.subrange(0, i as int).map_values(
                    |s: MachineInvitationState| InvitationState::spec_from_state(s),
                ),
            decreases states.len() - i,
        {
            out.push(InvitationState::from_state(states[i]));
            i = i + 1;
            assert(out@ =~= states@.subrange(0, i as int).map_values(
                |s: MachineInvitationState| InvitationState::spec_from_state(s),
            ));
        }
        assert(states@.subrange(0, states.len() as int) =~= states@);
        out
    }
}

// ============================================================================
// Project status
// ============================================================================

/// Project status
#[derive(Debug, Clone, Copy, PartialEq, Eq, Structural)]
pub enum ProjectStatus {
    Draft,
    Rendering,
    Completed,
    Archived,
}

impl Default for ProjectStatus {
    fn default() -> (r: Self)
        ensures
            r == ProjectStatus::Draft,
    {
        ProjectStatus::Draft
    }
}

impl ProjectStatus {
    pub open spec fn spec_to_state(self) -> ProjectState {
        match self {
            ProjectStatus::Draft => ProjectState::Draft,
            ProjectStatus::Rendering => ProjectState::Rendering,
            ProjectStatus::Completed => ProjectState::Completed,
            ProjectStatus::Archived => ProjectState::Archived,
        }
    }

    pub open spec fn spec_from_state(s: ProjectState) -> ProjectStatus {
        match s {
            ProjectState::Draft => ProjectStatus::Draft,
            ProjectState::Rendering => ProjectStatus::Rendering,
            ProjectState::Completed => ProjectStatus::Completed,
            ProjectState::Archived => ProjectStatus::Archived,
        }
    }

    /// Check if this is a terminal state (a project has none)
    pub fn is_terminal(&self) -> (r: bool)
        ensures
            r == self.spec_to_state().spec_is_terminal(),
    {
        self.to_state().is_terminal()
    }

    /// Convert to state machine state
    pub fn to_state(&self) -> (r: ProjectState)
        ensures
            r == self.spec_to_state(),
    {
        match self {
            ProjectStatus::Draft => ProjectState::Draft,
            ProjectStatus::Rendering => ProjectState::Rendering,
            ProjectStatus::Completed => ProjectState::Completed,
            ProjectStatus::Archived => ProjectState::Archived,
        }
    }

    /// Create from state machine state
    pub fn from_state(state: ProjectState) -> (r: Self)
        ensures
            r == Self::spec_from_state(state),
    {
        match state {
            ProjectState::Draft => ProjectStatus::Draft,
            ProjectState::Rendering => ProjectStatus::Rendering,
            ProjectState::Completed => ProjectStatus::Completed,
            ProjectState::Archived => ProjectStatus::Archived,
        }
    }

    pub open spec fn spec_valid_transitions(self) -> Seq<ProjectStatus> {
        self.spec_to_state().spec_valid_transitions().map_values(|s: ProjectState| ProjectStatus::spec_from_state(s))
    }

    /// Get valid next states from current state
    pub fn valid_transitions(&self) -> (r: Vec<ProjectStatus>)
        ensures
            r@ == self.spec_valid_transitions(),
    {
        let states = self.to_state().valid_transitions();
        let mut out: Vec<ProjectStatus> = Vec::new();
        let mut i: usize = 0;
        while i < states.len()
            invariant
                i <= states.len(),
                states@ == self.spec_to_state().spec_valid_transitions(),
                out@ == states@.subrange(0, i as int).map_values(|s: ProjectState| ProjectStatus::spec_from_state(s)),
            decreases states.len() - i,
        {
            out.push(ProjectStatus::from_state(states[i]));
            i = i + 1;
            assert(out@ =~= states@.subrange(0, i as int).map_values(|s: ProjectState| ProjectStatus::spec_from_state(s)));
        }
        assert(states@.subrange(0, states.len() as int) =~= states@);
        out
    }
}

// ============================================================================
// Job status
// ============================================================================

/// Job status
#[derive(Debug, Clone, Copy, PartialEq, Eq, Structural)]
pub enum JobStatus {
    Queued,
    Processing,
    Completed,
    Failed,
    Canceled,
}

impl Default for JobStatus {
    fn default() -> (r: Self)
        ensures
            r == JobStatus::Queued,
    {
        JobStatus::Queued
    }
}

impl JobStatus {
    pub open spec fn spec_to_state(self) -> JobState {
        match self {
            JobStatus::Queued => JobState::Queued,
            JobStatus::Processing => JobState::Processing,
            JobStatus::Completed => JobState::Completed,
            JobStatus::Failed => JobState::Failed,
            JobStatus::Canceled => JobState::Canceled,
        }
    }

    pub open spec fn spec_from_state(s: JobState) -> JobStatus {
        match s {
            JobState::Queued => JobStatus::Queued,
            JobState::Processing => JobStatus::Processing,
            JobState::Completed => JobStatus::Completed,
            JobState::Failed => JobStatus::Failed,
            JobState::Canceled => JobStatus::Canceled,
        }
    }

    pub open spec fn spec_is_terminal(self) -> bool {
        self.spec_to_state().spec_is_terminal()
    }

    /// Check if status is terminal (the job has finished)
    pub fn is_terminal(&self) -> (r: bool)
        ensures
            r == self.spec_is_terminal(),
    {
        self.to_state().is_terminal()
    }

    /// Convert to state machine state
    pub fn to_state(&self) -> (r: JobState)
        ensures
            r == self.spec_to_state(),
    {
        match self {
            JobStatus::Queued => JobState::Queued,
            JobStatus::Processing => JobState::Processing,
            JobStatus::Completed => JobState::Completed,
            JobStatus::Failed => JobState::Failed,
            JobStatus::Canceled => JobState::Canceled,
        }
    }

    /// Create from state machine state
    pub fn from_state(state: JobState) -> (r: Self)
        ensures
            r == Self::spec_from_state(state),
    {
        match state {
            JobState::Queued => JobStatus::Queued,
            JobState::Processing => JobStatus::Processing,
            JobState::Completed => JobStatus::Completed,
            JobState::Failed => JobStatus::Failed,
            JobState::Canceled => JobStatus::Canceled,
        }
    }

    pub open spec fn spec_valid_transitions(self) -> Seq<JobStatus> {
        self.spec_to_state().spec_valid_transitions().map_values(|s: JobState| JobStatus::spec_from_state(s))
    }

    /// Get valid next states from current state
    pub fn valid_transitions(&self) -> (r: Vec<JobStatus>)
        ensures
            r@ == self.spec_valid_transitions(),
    {
        let states = self.to_state().valid_transitions();
        let mut out: Vec<JobStatus> = Vec::new();
        let mut i: usize = 0;
        while i < states.len()
            invariant
                i <= states.len(),
                states@ == self.spec_to_state().spec_valid_transitions(),
                out@ == states@.subrange(0, i as int).map_values(|s: JobState| JobStatus::spec_from_state(s)),
            decreases states.len() - i,
        {
            out.push(JobStatus::from_state(states[i]));
            i = i + 1;
            assert(out@ =~= states@.subrange(0, i as int).map_values(|s: JobState| JobStatus::spec_from_state(s)));
        }
        assert(states@.subrange(0, states.len() as int) =~= states@);
        out
    }
}

/// Job failure type
#[derive(Debug, Clone, Copy, PartialEq, Eq, Structural)]
pub enum JobFailureType {
    System,
    Validation,
    Timeout,
    Canceled,
}

/// Asset file status
#[derive(Debug, Clone, Copy, PartialEq, Eq, Structural)]
pub enum AssetStatus {
    Pending,
    Ready,
    Failed,
}

impl Default for AssetStatus {
    fn default() -> (r: Self)
        ensures
            r == AssetStatus::Pending,
    {
        AssetStatus::Pending
    }
}

// ============================================================================
// Webhook delivery status
// ============================================================================

/// Webhook delivery status
#[derive(Debug, Clone, Copy, PartialEq, Eq, Structural)]
pub enum WebhookDeliveryStatus {
    Pending,
    Attempting,
    Delivered,
    Retrying,
    Failed,
}

impl Default for WebhookDeliveryStatus {
    fn default() -> (r: Self)
        ensures
            r == WebhookDeliveryStatus::Pending,
    {
        WebhookDeliveryStatus::Pending
    }
}

impl WebhookDeliveryStatus {
    pub open spec fn spec_to_state(self) -> WebhookDeliveryState {
        match self {
            WebhookDeliveryStatus::Pending => WebhookDeliveryState::Pending,
            WebhookDeliveryStatus::Attempting => WebhookDeliveryState::Attempting,
            WebhookDeliveryStatus::Delivered => WebhookDeliveryState::Delivered,
            WebhookDeliveryStatus::Retrying => WebhookDeliveryState::Retrying,
            WebhookDeliveryStatus::Failed => WebhookDeliveryState::Failed,
        }
    }

    pub open spec fn spec_from_state(s: WebhookDeliveryState) -> WebhookDeliveryStatus {
        match s {
            WebhookDeliveryState::Pending => WebhookDeliveryStatus::Pending,
            WebhookDeliveryState::Attempting => WebhookDeliveryStatus::Attempting,
            WebhookDeliveryState::Delivered => WebhookDeliveryStatus::Delivered,
            WebhookDeliveryState::Retrying => WebhookDeliveryStatus::Retrying,
            WebhookDeliveryState::Failed => WebhookDeliveryStatus::Failed,
        }
    }

    /// Check if this is a terminal state
    pub fn is_terminal(&self) -> (r: bool)
        ensures
            r == self.spec_to_state().spec_is_terminal(),
    {
        self.to_state().is_terminal()
    }

    /// Convert to state machine state
    pub fn to_state(&self) -> (r: WebhookDeliveryState)
        ensures
            r == self.spec_to_state(),
    {
        match self {
            WebhookDeliveryStatus::Pending => WebhookDeliveryState::Pending,
            WebhookDeliveryStatus::Attempting => WebhookDeliveryState::Attempting,
            WebhookDeliveryStatus::Delivered => WebhookDeliveryState::Delivered,
            WebhookDeliveryStatus::Retrying => WebhookDeliveryState::Retrying,
            WebhookDeliveryStatus::Failed => WebhookDeliveryState::Failed,
        }
    }

    /// Create from state machine state
    pub fn from_state(state: WebhookDeliveryState) -> (r: Self)
        ensures
            r == Self::spec_from_state(state),
    {
        match state {
            WebhookDeliveryState::Pending => WebhookDeliveryStatus::Pending,
            WebhookDeliveryState::Attempting => WebhookDeliveryStatus::Attempting,
            WebhookDeliveryState::Delivered => WebhookDeliveryStatus::Delivered,
            WebhookDeliveryState::Retrying => WebhookDeliveryStatus::Retrying,
            WebhookDeliveryState::Failed => WebhookDeliveryStatus::Failed,
        }
    }

    pub open spec fn spec_valid_transitions(self) -> Seq<WebhookDeliveryStatus> {
        self.spec_to_state().spec_valid_transitions().map_values(
            |s: WebhookDeliveryState| WebhookDeliveryStatus::spec_from_state(s),
        )
    }

    /// Get valid next states from current state
    pub fn valid_transitions(&self) -> (r: Vec<WebhookDeliveryStatus>)
        ensures
            r@ == self.spec_valid_transitions(),
    {
        let states = self.to_state().valid_transitions();
        let mut out: Vec<WebhookDeliveryStatus> = Vec::new();
        let mut i: usize = 0;
        while i < states.len()
            invariant
                i <= states.len(),
                states@ == self.spec_to_state().spec_valid_transitions(),
                out@ == states@.subrange(0, i as int).map_values(
                    |s: WebhookDeliveryState| WebhookDeliveryStatus::spec_from_state(s),
                ),
            decreases states.len() - i,
        {
            out.push(WebhookDeliveryStatus::from_state(states[i]));
            i = i + 1;
            assert(out@ =~= states@.subrange(0, i as int).map_values(
                |s: WebhookDeliveryState| WebhookDeliveryStatus::spec_from_state(s),
            ));
        }
        assert(states@.subrange(0, states.len() as int) =~= states@);
        out
    }
}

/// System asset categories
#[derive(Debug, Clone, Copy, PartialEq, Eq, Structural)]
pub enum SystemAssetCategory {
    Sfx,
    Ambient,
    Music,
    Transition,
}

impl SystemAssetCategory {
    pub open spec fn spec_label(self) -> Seq<char> {
        match self {
            SystemAssetCategory::Sfx => "sfx"@,
            SystemAssetCategory::Ambient => "ambient"@,
            SystemAssetCategory::Music => "music"@,
            SystemAssetCategory::Transition => "transition"@,
        }
    }

    /// The lower-case name of the category, as used in asset identifiers.
    pub fn as_str(&self) -> (r: &'static str)
        ensures
            r@ == self.spec_label(),
    {
        match self {
            SystemAssetCategory::Sfx => "sfx",
            SystemAssetCategory::Ambient => "ambient",
            SystemAssetCategory::Music => "music",
            SystemAssetCategory::Transition => "transition",
        }
    }
}

/// Converting a stored status to its state machine state and back gives the
/// status again, and the other way round; the stored statuses and the machine
/// states agree on which states are terminal.
pub proof fn lemma_status_state_round_trips(
    j: JobStatus,
    js: JobState,
    p: ProjectStatus,
    ps: ProjectState,
    i: InvitationState,
    is: MachineInvitationState,
    w: WebhookDeliveryStatus,
    ws: WebhookDeliveryState,
)
    ensures
        JobStatus::spec_from_state(j.spec_to_state()) == j,
        JobStatus::spec_from_state(js).spec_to_state() == js,
        ProjectStatus::spec_from_state(p.spec_to_state()) == p,
        ProjectStatus::spec_from_state(ps).spec_to_state() == ps,
        InvitationState::spec_from_state(i.spec_to_state()) == i,
        InvitationState::spec_from_state(is).spec_to_state() == is,
        WebhookDeliveryStatus::spec_from_state(w.spec_to_state()) == w,
        WebhookDeliveryStatus::spec_from_state(ws).spec_to_state() == ws,
{
}

} // verus!
