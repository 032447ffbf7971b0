//! State machines for Framecast entities.
//!
//! Each machine defines its states, the events that move it, the guard
//! conditions on some moves, and which states are terminal.

use vstd::prelude::*;

verus! {

/// Errors that can occur during state transitions.
#[derive(Debug, Clone, PartialEq)]
pub enum StateError {
    InvalidTransition { from: String, to: String, event: String },
    GuardFailed(String),
    TerminalState(String),
}

/// The mathematical model of a `StateError`: the same variants over character sequences.
pub enum StateErrorView {
    InvalidTransition { from: Seq<char>, to: Seq<char>, event: Seq<char> },
    GuardFailed(Seq<char>),
    TerminalState(Seq<char>),
}

impl View for StateError {
    type V = StateErrorView;

    open spec fn view(&self) -> StateErrorView {
        match self {
            StateError::InvalidTransition { from, to, event } => StateErrorView::InvalidTransition {
                from: from@,
                to: to@,
                event: event@,
            },
            StateError::GuardFailed(m) => StateErrorView::GuardFailed(m@),
            StateError::TerminalState(s) => StateErrorView::TerminalState(s@),
        }
    }
}

impl StateError {
    /// The human-readable message of this error.
    pub fn to_string(&self) -> (res: String)
        ensures
            res@ == self.spec_message(),
    {
        match self {
            StateError::InvalidTransition { from, to, event } => {
                let mut s = String::from_str("Invalid transition: cannot transition from ");
                s.append(from.as_str());
                s.append(" to ");
                s.append(to.as_str());
                s.append(" via ");
                s.append(event.as_str());
                s
            },
            StateError::GuardFailed(m) => {
                let mut s = String::from_str("Guard condition failed: ");
                s.append(m.as_str());
                s
            },
            StateError::TerminalState(st) => {
                let mut s = String::from_str("Terminal state: ");
                s.append(st.as_str());
                s.append(" is a terminal state and cannot transition");
                s
            },
        }
    }

    pub open spec fn spec_message(&self) -> Seq<char> {
        match self {
            StateError::InvalidTransition { from, to, event } => "Invalid transition: cannot transition from "@
                + from@ + " to "@ + to@ + " via "@ + event@,
            StateError::GuardFailed(m) => "Guard condition failed: "@ + m@,
            StateError::TerminalState(st) => "Terminal state: "@ + st@
                + " is a terminal state and cannot transition"@,
        }
    }
}

/// The error returned when `event` cannot move a machine out of the non-terminal state `from`.
pub open spec fn invalid_transition_view(from: Seq<char>, event: Seq<char>) -> StateErrorView {
    StateErrorView::InvalidTransition { from, to: "unknown"@, event }
}

fn invalid_transition(from: String, event: String) -> (e: StateError)
    ensures
        e@ == invalid_transition_view(from@, event@),
{
    StateError::InvalidTransition { from, to: String::from_str("unknown"), event }
}

// ============================================================================
// Job state machine
// ============================================================================

/// Job status states.
#[derive(Debug, Clone, Copy, PartialEq, Eq, Hash, Structural)]
pub enum JobState {
    Queued,
    Processing,
    Completed,
    Failed,
    Canceled,
}

/// Events that trigger job state transitions.
#[derive(Debug, Clone, Copy, PartialEq, Eq, Structural)]
pub enum JobEvent {
    /// Worker picks up the job for processing
    WorkerPicksUp,
    /// Job completes successfully
    Success,
    /// Job fails with an error
    Failure,
    /// Job is canceled by user or system
    Cancel,
}

impl JobState {
    pub open spec fn spec_is_terminal(self) -> bool {
        self is Completed || self is Failed || self is Canceled
    }

    /// The transition table: where `event` takes a non-terminal job, if anywhere.
    pub open spec fn spec_next(self, event: JobEvent) -> Option<JobState> {
        match (self, event) {
            (JobState::Queued, JobEvent::WorkerPicksUp) => Some(JobState::Processing),
            (JobState::Queued, JobEvent::Cancel) => Some(JobState::Canceled),
            (JobState::Processing, JobEvent::Success) => Some(JobState::Completed),
            (JobState::Processing, JobEvent::Failure) => Some(JobState::Failed),
            (JobState::Processing, JobEvent::Cancel) => Some(JobState::Canceled),
            _ => None,
        }
    }

    pub open spec fn spec_valid_transitions(self) -> Seq<JobState> {
        match self {
            JobState::Queued => seq![JobState::Processing, JobState::Canceled],
            JobState::Processing => seq![JobState::Completed, JobState::Failed, JobState::Canceled],
            _ => seq![],
        }
    }

    pub open spec fn spec_label(self) -> Seq<char> {
        match self {
            JobState::Queued => "queued"@,
            JobState::Processing => "processing"@,
            JobState::Completed => "completed"@,
            JobState::Failed => "failed"@,
            JobState::Canceled => "canceled"@,
        }
    }

    /// How far along its lifecycle a job is; every transition raises it.
    pub open spec fn spec_rank(self) -> int {
        match self {
            JobState::Queued => 0,
            JobState::Processing => 1,
            _ => 2,
        }
    }

    /// Check if this is a terminal state
    pub fn is_terminal(&self) -> (r: bool)
        ensures
            r == self.spec_is_terminal(),
    {
        match self {
            JobState::Completed | JobState::Failed | JobState::Canceled => true,
            _ => false,
        }
    }

    /// Get all valid next states from current state
    pub fn valid_transitions(&self) -> (r: Vec<JobState>)
        ensures
            r@ == self.spec_valid_transitions(),
    {
        match self {
            JobState::Queued => vec![JobState::Processing, JobState::Canceled],
            JobState::Processing => vec![JobState::Completed, JobState::Failed, JobState::Canceled],
            _ => Vec::new(),
        }
    }

    /// The lower-case name of the state.
    pub fn to_string(&self) -> (r: String)
        ensures
            r@ == self.spec_label(),
    {
        match self {
            JobState::Queued => String::from_str("queued"),
            JobState::Processing => String::from_str("processing"),
            JobState::Completed => String::from_str("completed"),
            JobState::Failed => String::from_str("failed"),
            JobState::Canceled => String::from_str("canceled"),
        }
    }
}

impl JobEvent {
    pub open spec fn spec_label(self) -> Seq<char> {
        match self {
            JobEvent::WorkerPicksUp => "worker_picks_up"@,
            JobEvent::Success => "success"@,
            JobEvent::Failure => "failure"@,
            JobEvent::Cancel => "cancel"@,
        }
    }

    /// The snake-case name of the event.
    pub fn to_string(&self) -> (r: String)
        ensures
            r@ == self.spec_label(),
    {
        match self {
            JobEvent::WorkerPicksUp => String::from_str("worker_picks_up"),
            JobEvent::Success => String::from_str("success"),
            JobEvent::Failure => String::from_str("failure"),
            JobEvent::Cancel => String::from_str("cancel"),
        }
    }
}

/// The outcome of a job transition, over the models of states and errors.
pub open spec fn job_transition_spec(current: JobState, event: JobEvent) -> Result<JobState, StateErrorView> {
    if current.spec_is_terminal() {
        Err(StateErrorView::TerminalState(current.spec_label()))
    } else {
        match current.spec_next(event) {
            Some(next) => Ok(next),
            None => Err(invalid_transition_view(current.spec_label(), event.spec_label())),
        }
    }
}

/// The model of a `Result` of a transition: the state, or the model of the error.
pub open spec fn result_view<S>(r: Result<S, StateError>) -> Result<S, StateErrorView> {
    match r {
        Ok(s) => Ok(s),
        Err(e) => Err(e@),
    }
}

/// Job state machine
pub struct JobStateMachine;

impl JobStateMachine {
    /// Attempt a state transition.
    ///
    /// Returns the new state if the transition is valid, or an error otherwise.
    pub fn transition(current: JobState, event: JobEvent) -> (r: Result<JobState, StateError>)
        ensures
            result_view(r) == job_transition_spec(current, event),
    {
        if current.is_terminal() {
            return Err(StateError::TerminalState(current.to_string()));
        }
        match (current, event) {
            (JobState::Queued, JobEvent::WorkerPicksUp) => Ok(JobState::Processing),
            (JobState::Queued, JobEvent::Cancel) => Ok(JobState::Canceled),
            (JobState::Processing, JobEvent::Success) => Ok(JobState::Completed),
            (JobState::Processing, JobEvent::Failure) => Ok(JobState::Failed),
            (JobState::Processing, JobEvent::Cancel) => Ok(JobState::Canceled),
            _ => Err(invalid_transition(current.to_string(), event.to_string())),
        }
    }

    /// Check if a transition is valid without performing it
    pub fn can_transition(current: JobState, event: &JobEvent) -> (r: bool)
        ensures
            r == job_transition_spec(current, *event) is Ok,
    {
        Self::transition(current, *event).is_ok()
    }
}


// ============================================================================
// Project state machine
// ============================================================================

/// Project status states.
#[derive(Debug, Clone, Copy, PartialEq, Eq, Hash, Structural)]
pub enum ProjectState {
    Draft,
    Rendering,
    Completed,
    Archived,
}

/// Events that trigger project state transitions.
#[derive(Debug, Clone, Copy, PartialEq, Eq, Structural)]
pub enum ProjectEvent {
    /// Start rendering the project
    Render,
    /// Associated job completed successfully
    JobCompleted,
    /// Associated job failed
    JobFailed,
    /// Associated job was canceled
    JobCanceled,
    /// Archive the project
    Archive,
    /// Unarchive the project
    Unarchive,
}

impl ProjectState {
    /// Projects have no terminal state.
    pub open spec fn spec_is_terminal(self) -> bool {
        false
    }

    pub open spec fn spec_next(self, event: ProjectEvent) -> Option<ProjectState> {
        match (self, event) {
            (ProjectState::Draft, ProjectEvent::Render) => Some(ProjectState::Rendering),
            (ProjectState::Draft, ProjectEvent::Archive) => Some(ProjectState::Archived),
            (ProjectState::Rendering, ProjectEvent::JobCompleted) => Some(ProjectState::Completed),
            (ProjectState::Rendering, ProjectEvent::JobFailed) => Some(ProjectState::Draft),
            (ProjectState::Rendering, ProjectEvent::JobCanceled) => Some(ProjectState::Draft),
            (ProjectState::Completed, ProjectEvent::Archive) => Some(ProjectState::Archived),
            (ProjectState::Completed, ProjectEvent::Render) => Some(ProjectState::Rendering),
            (ProjectState::Archived, ProjectEvent::Unarchive) => Some(ProjectState::Draft),
            _ => None,
        }
    }

    pub open spec fn spec_valid_transitions(self) -> Seq<ProjectState> {
        match self {
            ProjectState::Draft => seq![ProjectState::Rendering, ProjectState::Archived],
            ProjectState::Rendering => seq![ProjectState::Completed, ProjectState::Draft],
            ProjectState::Completed => seq![ProjectState::Archived, ProjectState::Rendering],
            ProjectState::Archived => seq![ProjectState::Draft],
        }
    }

    pub open spec fn spec_label(self) -> Seq<char> {
        match self {
            ProjectState::Draft => "draft"@,
            ProjectState::Rendering => "rendering"@,
            ProjectState::Completed => "completed"@,
            ProjectState::Archived => "archived"@,
        }
    }

    /// Check if this is a terminal state (a project has none)
    pub fn is_terminal(&self) -> (r: bool)
        ensures
            r == self.spec_is_terminal(),
    {
        false
    }

    /// Get all valid next states from current state
    pub fn valid_transitions(&self) -> (r: Vec<ProjectState>)
        ensures
            r@ == self.spec_valid_transitions(),
    {
        match self {
            ProjectState::Draft => vec![ProjectState::Rendering, ProjectState::Archived],
            ProjectState::Rendering => vec![ProjectState::Completed, ProjectState::Draft],
            ProjectState::Completed => vec![ProjectState::Archived, ProjectState::Rendering],
            ProjectState::Archived => vec![ProjectState::Draft],
        }
    }

    /// The lower-case name of the state.
    pub fn to_string(&self) -> (r: String)
        ensures
            r@ == self.spec_label(),
    {
        match self {
            ProjectState::Draft => String::from_str("draft"),
            ProjectState::Rendering => String::from_str("rendering"),
            ProjectState::Completed => String::from_str("completed"),
            ProjectState::Archived => String::from_str("archived"),
        }
    }
}

impl ProjectEvent {
    pub open spec fn spec_label(self) -> Seq<char> {
        match self {
            ProjectEvent::Render => "render"@,
            ProjectEvent::JobCompleted => "job_completed"@,
            ProjectEvent::JobFailed => "job_failed"@,
            ProjectEvent::JobCanceled => "job_canceled"@,
            ProjectEvent::Archive => "archive"@,
            ProjectEvent::Unarchive => "unarchive"@,
        }
    }

    /// The snake-case name of the event.
    pub fn to_string(&self) -> (r: String)
        ensures
            r@ == self.spec_label(),
    {
        match self {
            ProjectEvent::Render => String::from_str("render"),
            ProjectEvent::JobCompleted => String::from_str("job_completed"),
            ProjectEvent::JobFailed => String::from_str("job_failed"),
            ProjectEvent::JobCanceled => String::from_str("job_canceled"),
            ProjectEvent::Archive => String::from_str("archive"),
            ProjectEvent::Unarchive => String::from_str("unarchive"),
        }
    }
}

pub open spec fn project_transition_spec(current: ProjectState, event: ProjectEvent) -> Result<ProjectState, StateErrorView> {
    match current.spec_next(event) {
        Some(next) => Ok(next),
        None => Err(invalid_transition_view(current.spec_label(), event.spec_label())),
    }
}

/// Project state machine
pub struct ProjectStateMachine;

impl ProjectStateMachine {
    /// Attempt a state transition
    pub fn transition(current: ProjectState, event: ProjectEvent) -> (r: Result<ProjectState, StateError>)
        ensures
            result_view(r) == project_transition_spec(current, event),
    {
        match (current, event) {
            (ProjectState::Draft, ProjectEvent::Render) => Ok(ProjectState::Rendering),
            (ProjectState::Draft, ProjectEvent::Archive) => Ok(ProjectState::Archived),
            (ProjectState::Rendering, ProjectEvent::JobCompleted) => Ok(ProjectState::Completed),
            (ProjectState::Rendering, ProjectEvent::JobFailed) => Ok(ProjectState::Draft),
            (ProjectState::Rendering, ProjectEvent::JobCanceled) => Ok(ProjectState::Draft),
            (ProjectState::Completed, ProjectEvent::Archive) => Ok(ProjectState::Archived),
            (ProjectState::Completed, ProjectEvent::Render) => Ok(ProjectState::Rendering),
            (ProjectState::Archived, ProjectEvent::Unarchive) => Ok(ProjectState::Draft),
            _ => Err(invalid_transition(current.to_string(), event.to_string())),
        }
    }

    /// Check if a transition is valid without performing it
    pub fn can_transition(current: ProjectState, event: &ProjectEvent) -> (r: bool)
        ensures
            r == project_transition_spec(current, *event) is Ok,
    {
        Self::transition(current, *event).is_ok()
    }
}

// ============================================================================
// Invitation state machine
// ============================================================================

/// Invitation states. This is a derived state, computed from timestamps.
#[derive(Debug, Clone, Copy, PartialEq, Eq, Hash, Structural)]
pub enum InvitationState {
    Pending,
    Accepted,
    Declined,
    Expired,
    Revoked,
}

/// Events that trigger invitation state transitions.
#[derive(Debug, Clone, Copy, PartialEq, Eq, Structural)]
pub enum InvitationEvent {
    /// User accepts the invitation
    Accept,
    /// User declines the invitation
    Decline,
    /// Invitation expires (automatic when expires_at is reached)
    Expire,
    /// Admin revokes the invitation
    Revoke,
}

/// Guard context for invitation transitions.
#[derive(Debug, Clone)]
pub struct InvitationGuardContext {
    /// Whether the invitation has expired (expires_at < now)
    pub is_expired: bool,
}

impl InvitationState {
    pub open spec fn spec_is_terminal(self) -> bool {
        !(self is Pending)
    }

    pub open spec fn spec_next(self, event: InvitationEvent) -> Option<InvitationState> {
        match (self, event) {
            (InvitationState::Pending, InvitationEvent::Accept) => Some(InvitationState::Accepted),
            (InvitationState::Pending, InvitationEvent::Decline) => Some(InvitationState::Declined),
            (InvitationState::Pending, InvitationEvent::Expire) => Some(InvitationState::Expired),
            (InvitationState::Pending, InvitationEvent::Revoke) => Some(InvitationState::Revoked),
            _ => None,
        }
    }

    pub open spec fn spec_valid_transitions(self) -> Seq<InvitationState> {
        match self {
            InvitationState::Pending => seq![
                InvitationState::Accepted,
                InvitationState::Declined,
                InvitationState::Expired,
                InvitationState::Revoked,
            ],
            _ => seq![],
        }
    }

    pub open spec fn spec_label(self) -> Seq<char> {
        match self {
            InvitationState::Pending => "pending"@,
            InvitationState::Accepted => "accepted"@,
            InvitationState::Declined => "declined"@,
            InvitationState::Expired => "expired"@,
            InvitationState::Revoked => "revoked"@,
        }
    }

    /// Check if this is a terminal state
    pub fn is_terminal(&self) -> (r: bool)
        ensures
            r == self.spec_is_terminal(),
    {
        match self {
            InvitationState::Pending => false,
            _ => true,
        }
    }

    /// Get all valid next states from current state
    pub fn valid_transitions(&self) -> (r: Vec<InvitationState>)
        ensures
            r@ == self.spec_valid_transitions(),
    {
        match self {
            InvitationState::Pending => vec![
                InvitationState::Accepted,
                InvitationState::Declined,
                InvitationState::Expired,
                InvitationState::Revoked,
            ],
            _ => Vec::new(),
        }
    }

    /// The lower-case name of the state.
    pub fn to_string(&self) -> (r: String)
        ensures
            r@ == self.spec_label(),
    {
        match self {
            InvitationState::Pending => String::from_str("pending"),
            InvitationState::Accepted => String::from_str("accepted"),
            InvitationState::Declined => String::from_str("declined"),
            InvitationState::Expired => String::from_str("expired"),
            InvitationState::Revoked => String::from_str("revoked"),
        }
    }
}

impl InvitationEvent {
    pub open spec fn spec_label(self) -> Seq<char> {
        match self {
            InvitationEvent::Accept => "accept"@,
            InvitationEvent::Decline => "decline"@,
            InvitationEvent::Expire => "expire"@,
            InvitationEvent::Revoke => "revoke"@,
        }
    }

    /// The lower-case name of the event.
    pub fn to_string(&self) -> (r: String)
        ensures
            r@ == self.spec_label(),
    {
        match self {
            InvitationEvent::Accept => String::from_str("accept"),
            InvitationEvent::Decline => String::from_str("decline"),
            InvitationEvent::Expire => String::from_str("expire"),
            InvitationEvent::Revoke => String::from_str("revoke"),
        }
    }
}

/// Whether the guard context says the invitation has expired (no context: not expired).
pub open spec fn invitation_context_expired(context: Option<&InvitationGuardContext>) -> bool {
    match context {
        Some(ctx) => ctx.is_expired,
        None => false,
    }
}

pub open spec fn invitation_transition_spec(
    current: InvitationState,
    event: InvitationEvent,
    context: Option<&InvitationGuardContext>,
) -> Result<InvitationState, StateErrorView> {
    if current.spec_is_terminal() {
        Err(StateErrorView::TerminalState(current.spec_label()))
    } else {
        match current.spec_next(event) {
            Some(next) => if event is Accept && invitation_context_expired(context) {
                Err(StateErrorView::GuardFailed("Cannot accept expired invitation"@))
            } else {
                Ok(next)
            },
            None => Err(invalid_transition_view(current.spec_label(), event.spec_label())),
        }
    }
}

/// Invitation state machine
pub struct InvitationStateMachine;

impl InvitationStateMachine {
    /// Attempt a state transition with guard conditions
    pub fn transition(
        current: InvitationState,
        event: InvitationEvent,
        context: Option<&InvitationGuardContext>,
    ) -> (r: Result<InvitationState, StateError>)
        ensures
            result_view(r) == invitation_transition_spec(current, event, context),
    {
        if current.is_terminal() {
            return Err(StateError::TerminalState(current.to_string()));
        }
        match (current, event) {
            (InvitationState::Pending, InvitationEvent::Accept) => {
                if let Some(ctx) = context {
                    if ctx.is_expired {
                        return Err(StateError::GuardFailed(String::from_str("Cannot accept expired invitation")));
                    }
                }
                Ok(InvitationState::Accepted)
            },
            (InvitationState::Pending, InvitationEvent::Decline) => Ok(InvitationState::Declined),
            (InvitationState::Pending, InvitationEvent::Expire) => Ok(InvitationState::Expired),
            (InvitationState::Pending, InvitationEvent::Revoke) => Ok(InvitationState::Revoked),
            _ => Err(invalid_transition(current.to_string(), event.to_string())),
        }
    }

    /// Check if a transition is valid without performing it
    pub fn can_transition(
        current: InvitationState,
        event: &InvitationEvent,
        context: Option<&InvitationGuardContext>,
    ) -> (r: bool)
        ensures
            r == invitation_transition_spec(current, *event, context) is Ok,
    {
        Self::transition(current, *event, context).is_ok()
    }
}

// ============================================================================
// WebhookDelivery state machine
// ============================================================================

/// WebhookDelivery states.
#[derive(Debug, Clone, Copy, PartialEq, Eq, Hash, Structural)]
pub enum WebhookDeliveryState {
    Pending,
    Attempting,
    Delivered,
    Retrying,
    Failed,
}

/// Events that trigger webhook delivery state transitions.
#[derive(Debug, Clone, Copy, PartialEq, Eq, Structural)]
pub enum WebhookDeliveryEvent {
    /// Start an attempt to deliver
    Attempt,
    /// Received 2xx success response
    Success,
    /// Received 5xx or timeout, should retry
    Retry,
    /// Received 4xx permanent failure
    PermanentFailure,
    /// Max retry attempts exceeded
    MaxAttemptsExceeded,
}

/// Guard context for webhook delivery transitions.
#[derive(Debug, Clone)]
pub struct WebhookDeliveryGuardContext {
    /// Current attempt count
    pub attempt_count: u32,
    /// Maximum allowed attempts
    pub max_attempts: u32,
}

impl WebhookDeliveryGuardContext {
    /// The default context: no attempt made yet, at most five.
    pub fn default() -> (r: Self)
        ensures
            r.attempt_count == 0,
            r.max_attempts == 5,
    {
        WebhookDeliveryGuardContext { attempt_count: 0, max_attempts: 5 }
    }
}

impl WebhookDeliveryState {
    pub open spec fn spec_is_terminal(self) -> bool {
        self is Delivered || self is Failed
    }

    pub open spec fn spec_next(self, event: WebhookDeliveryEvent) -> Option<WebhookDeliveryState> {
        match (self, event) {
            (WebhookDeliveryState::Pending, WebhookDeliveryEvent::Attempt) => Some(WebhookDeliveryState::Attempting),
            (WebhookDeliveryState::Attempting, WebhookDeliveryEvent::Success) => Some(WebhookDeliveryState::Delivered),
            (WebhookDeliveryState::Attempting, WebhookDeliveryEvent::Retry) => Some(WebhookDeliveryState::Retrying),
            (WebhookDeliveryState::Attempting, WebhookDeliveryEvent::PermanentFailure) => Some(WebhookDeliveryState::Failed),
            (WebhookDeliveryState::Retrying, WebhookDeliveryEvent::Attempt) => Some(WebhookDeliveryState::Attempting),
            (WebhookDeliveryState::Retrying, WebhookDeliveryEvent::MaxAttemptsExceeded) => Some(WebhookDeliveryState::Failed),
            _ => None,
        }
    }

    pub open spec fn spec_valid_transitions(self) -> Seq<WebhookDeliveryState> {
        match self {
            WebhookDeliveryState::Pending => seq![WebhookDeliveryState::Attempting],
            WebhookDeliveryState::Attempting => seq![
                WebhookDeliveryState::Delivered,
                WebhookDeliveryState::Retrying,
                WebhookDeliveryState::Failed,
            ],
            WebhookDeliveryState::Retrying => seq![WebhookDeliveryState::Attempting, WebhookDeliveryState::Failed],
            _ => seq![],
        }
    }

    pub open spec fn spec_label(self) -> Seq<char> {
        match self {
            WebhookDeliveryState::Pending => "pending"@,
            WebhookDeliveryState::Attempting => "attempting"@,
            WebhookDeliveryState::Delivered => "delivered"@,
            WebhookDeliveryState::Retrying => "retrying"@,
            WebhookDeliveryState::Failed => "failed"@,
        }
    }

    /// Check if this is a terminal state
    pub fn is_terminal(&self) -> (r: bool)
        ensures
            r == self.spec_is_terminal(),
    {
        match self {
            WebhookDeliveryState::Delivered | WebhookDeliveryState::Failed => true,
            _ => false,
        }
    }

    /// Get all valid next states from current state
    pub fn valid_transitions(&self) -> (r: Vec<WebhookDeliveryState>)
        ensures
            r@ == self.spec_valid_transitions(),
    {
        match self {
            WebhookDeliveryState::Pending => vec![WebhookDeliveryState::Attempting],
            WebhookDeliveryState::Attempting => vec![
                WebhookDeliveryState::Delivered,
                WebhookDeliveryState::Retrying,
                WebhookDeliveryState::Failed,
            ],
            WebhookDeliveryState::Retrying => vec![WebhookDeliveryState::Attempting, WebhookDeliveryState::Failed],
            _ => Vec::new(),
        }
    }

    /// The lower-case name of the state.
    pub fn to_string(&self) -> (r: String)
        ensures
            r@ == self.spec_label(),
    {
        match self {
            WebhookDeliveryState::Pending => String::from_str("pending"),
            WebhookDeliveryState::Attempting => String::from_str("attempting"),
            WebhookDeliveryState::Delivered => String::from_str("delivered"),
            WebhookDeliveryState::Retrying => String::from_str("retrying"),
            WebhookDeliveryState::Failed => String::from_str("failed"),
        }
    }
}

impl WebhookDeliveryEvent {
    pub open spec fn spec_label(self) -> Seq<char> {
        match self {
            WebhookDeliveryEvent::Attempt => "attempt"@,
            WebhookDeliveryEvent::Success => "success"@,
            WebhookDeliveryEvent::Retry => "retry"@,
            WebhookDeliveryEvent::PermanentFailure => "permanent_failure"@,
            WebhookDeliveryEvent::MaxAttemptsExceeded => "max_attempts_exceeded"@,
        }
    }

    /// The snake-case name of the event.
    pub fn to_string(&self) -> (r: String)
        ensures
            r@ == self.spec_label(),
    {
        match self {
            WebhookDeliveryEvent::Attempt => String::from_str("attempt"),
            WebhookDeliveryEvent::Success => String::from_str("success"),
            WebhookDeliveryEvent::Retry => String::from_str("retry"),
            WebhookDeliveryEvent::PermanentFailure => String::from_str("permanent_failure"),
            WebhookDeliveryEvent::MaxAttemptsExceeded => String::from_str("max_attempts_exceeded"),
        }
    }
}

/// Whether the guard context says no attempt is left (no context: attempts remain).
pub open spec fn webhook_attempts_exhausted(context: Option<&WebhookDeliveryGuardContext>) -> bool {
    match context {
        Some(ctx) => ctx.attempt_count >= ctx.max_attempts,
        None => false,
    }
}

pub open spec fn webhook_transition_spec(
    current: WebhookDeliveryState,
    event: WebhookDeliveryEvent,
    context: Option<&WebhookDeliveryGuardContext>,
) -> Result<WebhookDeliveryState, StateErrorView> {
    if current.spec_is_terminal() {
        Err(StateErrorView::TerminalState(current.spec_label()))
    } else {
        match current.spec_next(event) {
            Some(next) => if current is Retrying && event is Attempt && webhook_attempts_exhausted(context) {
                Err(StateErrorView::GuardFailed("Max retry attempts exceeded"@))
            } else {
                Ok(next)
            },
            None => Err(invalid_transition_view(current.spec_label(), event.spec_label())),
        }
    }
}

/// WebhookDelivery state machine
pub struct WebhookDeliveryStateMachine;

impl WebhookDeliveryStateMachine {
    /// Attempt a state transition with guard conditions
    pub fn transition(
        current: WebhookDeliveryState,
        event: WebhookDeliveryEvent,
        context: Option<&WebhookDeliveryGuardContext>,
    ) -> (r: Result<WebhookDeliveryState, StateError>)
        ensures
            result_view(r) == webhook_transition_spec(current, event, context),
    {
        if current.is_terminal() {
            return Err(StateError::TerminalState(current.to_string()));
        }
        match (current, event) {
            (WebhookDeliveryState::Pending, WebhookDeliveryEvent::Attempt) => Ok(WebhookDeliveryState::Attempting),
            (WebhookDeliveryState::Attempting, WebhookDeliveryEvent::Success) => Ok(WebhookDeliveryState::Delivered),
            (WebhookDeliveryState::Attempting, WebhookDeliveryEvent::Retry) => Ok(WebhookDeliveryState::Retrying),
            (WebhookDeliveryState::Attempting, WebhookDeliveryEvent::PermanentFailure) => Ok(WebhookDeliveryState::Failed),
            (WebhookDeliveryState::Retrying, WebhookDeliveryEvent::Attempt) => {
                if let Some(ctx) = context {
                    if ctx.attempt_count >= ctx.max_attempts {
                        return Err(StateError::GuardFailed(String::from_str("Max retry attempts exceeded")));
                    }
                }
                Ok(WebhookDeliveryState::Attempting)
            },
            (WebhookDeliveryState::Retrying, WebhookDeliveryEvent::MaxAttemptsExceeded) => Ok(WebhookDeliveryState::Failed),
            _ => Err(invalid_transition(current.to_string(), event.to_string())),
        }
    }

    /// Check if a transition is valid without performing it
    pub fn can_transition(
        current: WebhookDeliveryState,
        event: &WebhookDeliveryEvent,
        context: Option<&WebhookDeliveryGuardContext>,
    ) -> (r: bool)
        ensures
            r == webhook_transition_spec(current, *event, context) is Ok,
    {
        Self::transition(current, *event, context).is_ok()
    }
}


// ============================================================================
// Laws of the state machines
// ============================================================================

/// A job transition that succeeds lands in one of the states that
/// `valid_transitions` lists for the state it started from, and every listed
/// state is reached from there by some event.
pub proof fn lemma_job_transitions_match_table(current: JobState, event: JobEvent)
    ensures
        job_transition_spec(current, event) is Ok ==> current.spec_valid_transitions().contains(
            job_transition_spec(current, event)->Ok_0,
        ),
        forall|t: JobState| #[trigger] current.spec_valid_transitions().contains(t)
            ==> exists|e: JobEvent| job_transition_spec(current, e) == Ok::<JobState, StateErrorView>(t),
{
    let vt = current.spec_valid_transitions();
    if job_transition_spec(current, event) is Ok {
        let n = job_transition_spec(current, event)->Ok_0;
        assert(vt.contains(n)) by {
            match (current, event) {
                (JobState::Queued, JobEvent::WorkerPicksUp) => assert(vt[0] == n),
                (JobState::Queued, JobEvent::Cancel) => assert(vt[1] == n),
                (JobState::Processing, JobEvent::Success) => assert(vt[0] == n),
                (JobState::Processing, JobEvent::Failure) => assert(vt[1] == n),
                (JobState::Processing, JobEvent::Cancel) => assert(vt[2] == n),
                _ => {},
            }
        }
    }
    assert forall|t: JobState| #[trigger] vt.contains(t)
        implies exists|e: JobEvent| job_transition_spec(current, e) == Ok::<JobState, StateErrorView>(t) by {
        let i = choose|i: int| 0 <= i < vt.len() && vt[i] == t;
        match current {
            JobState::Queued => {
                if i == 0 { assert(job_transition_spec(current, JobEvent::WorkerPicksUp) == Ok::<JobState, StateErrorView>(t)); }
                else { assert(job_transition_spec(current, JobEvent::Cancel) == Ok::<JobState, StateErrorView>(t)); }
            },
            JobState::Processing => {
                if i == 0 { assert(job_transition_spec(current, JobEvent::Success) == Ok::<JobState, StateErrorView>(t)); }
                else if i == 1 { assert(job_transition_spec(current, JobEvent::Failure) == Ok::<JobState, StateErrorView>(t)); }
                else { assert(job_transition_spec(current, JobEvent::Cancel) == Ok::<JobState, StateErrorView>(t)); }
            },
            _ => {},
        }
    }
}

/// A job state is terminal exactly when it lists no next state; a terminal
/// job refuses every event with a terminal-state error naming its state; and
/// every successful transition moves a job strictly forward in its lifecycle.
pub proof fn lemma_job_lifecycle(current: JobState, event: JobEvent)
    ensures
        current.spec_is_terminal() <==> current.spec_valid_transitions().len() == 0,
        current.spec_is_terminal() ==> job_transition_spec(current, event)
            == Err::<JobState, StateErrorView>(StateErrorView::TerminalState(current.spec_label())),
        job_transition_spec(current, event) is Ok ==> current.spec_rank() < job_transition_spec(
            current,
            event,
        )->Ok_0.spec_rank(),
{
}

/// A project transition that succeeds lands in one of the states that
/// `valid_transitions` lists, and every listed state is reached by some event;
/// no project state is terminal and every one has a way out.
pub proof fn lemma_project_transitions_match_table(current: ProjectState, event: ProjectEvent)
    ensures
        !current.spec_is_terminal(),
        current.spec_valid_transitions().len() > 0,
        project_transition_spec(current, event) is Ok ==> current.spec_valid_transitions().contains(
            project_transition_spec(current, event)->Ok_0,
        ),
        forall|t: ProjectState| #[trigger] current.spec_valid_transitions().contains(t)
            ==> exists|e: ProjectEvent| project_transition_spec(current, e) == Ok::<ProjectState, StateErrorView>(t),
{
    let vt = current.spec_valid_transitions();
    if project_transition_spec(current, event) is Ok {
        let n = project_transition_spec(current, event)->Ok_0;
        assert(vt.contains(n)) by {
            match (current, event) {
                (ProjectState::Draft, ProjectEvent::Render) => assert(vt[0] == n),
                (ProjectState::Draft, ProjectEvent::Archive) => assert(vt[1] == n),
                (ProjectState::Rendering, ProjectEvent::JobCompleted) => assert(vt[0] == n),
                (ProjectState::Rendering, ProjectEvent::JobFailed) => assert(vt[1] == n),
                (ProjectState::Rendering, ProjectEvent::JobCanceled) => assert(vt[1] == n),
                (ProjectState::Completed, ProjectEvent::Archive) => assert(vt[0] == n),
                (ProjectState::Completed, ProjectEvent::Render) => assert(vt[1] == n),
                (ProjectState::Archived, ProjectEvent::Unarchive) => assert(vt[0] == n),
                _ => {},
            }
        }
    }
    assert forall|t: ProjectState| #[trigger] vt.contains(t)
        implies exists|e: ProjectEvent| project_transition_spec(current, e) == Ok::<ProjectState, StateErrorView>(t) by {
        let i = choose|i: int| 0 <= i < vt.len() && vt[i] == t;
        match current {
            ProjectState::Draft => {
                if i == 0 { assert(project_transition_spec(current, ProjectEvent::Render) == Ok::<ProjectState, StateErrorView>(t)); }
                else { assert(project_transition_spec(current, ProjectEvent::Archive) == Ok::<ProjectState, StateErrorView>(t)); }
            },
            ProjectState::Rendering => {
                if i == 0 { assert(project_transition_spec(current, ProjectEvent::JobCompleted) == Ok::<ProjectState, StateErrorView>(t)); }
                else { assert(project_transition_spec(current, ProjectEvent::JobFailed) == Ok::<ProjectState, StateErrorView>(t)); }
            },
            ProjectState::Completed => {
                if i == 0 { assert(project_transition_spec(current, ProjectEvent::Archive) == Ok::<ProjectState, StateErrorView>(t)); }
                else { assert(project_transition_spec(current, ProjectEvent::Render) == Ok::<ProjectState, StateErrorView>(t)); }
            },
            ProjectState::Archived => {
                assert(project_transition_spec(current, ProjectEvent::Unarchive) == Ok::<ProjectState, StateErrorView>(t));
            },
        }
    }
}

/// An invitation transition that succeeds lands in a state that
/// `valid_transitions` lists; a pending invitation reaches each listed state by
/// some event when the guard allows; a state is terminal exactly when it lists
/// no next state, and a terminal invitation refuses every event.
pub proof fn lemma_invitation_transitions_match_table(
    current: InvitationState,
    event: InvitationEvent,
    context: Option<&InvitationGuardContext>,
)
    ensures
        current.spec_is_terminal() <==> current.spec_valid_transitions().len() == 0,
        current.spec_is_terminal() ==> invitation_transition_spec(current, event, context)
            == Err::<InvitationState, StateErrorView>(StateErrorView::TerminalState(current.spec_label())),
        invitation_transition_spec(current, event, context) is Ok ==> current.spec_valid_transitions().contains(
            invitation_transition_spec(current, event, context)->Ok_0,
        ),
        forall|t: InvitationState| #[trigger] current.spec_valid_transitions().contains(t)
            ==> exists|e: InvitationEvent| invitation_transition_spec(current, e, None)
                == Ok::<InvitationState, StateErrorView>(t),
{
    let vt = current.spec_valid_transitions();
    if invitation_transition_spec(current, event, context) is Ok {
        let n = invitation_transition_spec(current, event, context)->Ok_0;
        assert(vt.contains(n)) by {
            match event {
                InvitationEvent::Accept => assert(vt[0] == n),
                InvitationEvent::Decline => assert(vt[1] == n),
                InvitationEvent::Expire => assert(vt[2] == n),
                InvitationEvent::Revoke => assert(vt[3] == n),
            }
        }
    }
    assert forall|t: InvitationState| #[trigger] vt.contains(t)
        implies exists|e: InvitationEvent| invitation_transition_spec(current, e, None)
            == Ok::<InvitationState, StateErrorView>(t) by {
        let i = choose|i: int| 0 <= i < vt.len() && vt[i] == t;
        if i == 0 { assert(invitation_transition_spec(current, InvitationEvent::Accept, None) == Ok::<InvitationState, StateErrorView>(t)); }
        else if i == 1 { assert(invitation_transition_spec(current, InvitationEvent::Decline, None) == Ok::<InvitationState, StateErrorView>(t)); }
        else if i == 2 { assert(invitation_transition_spec(current, InvitationEvent::Expire, None) == Ok::<InvitationState, StateErrorView>(t)); }
        else { assert(invitation_transition_spec(current, InvitationEvent::Revoke, None) == Ok::<InvitationState, StateErrorView>(t)); }
    }
}

/// An expired invitation cannot be accepted, whatever else holds; an
/// invitation that has not expired and is pending can be.
pub proof fn lemma_expired_invitation_cannot_be_accepted(current: InvitationState, ctx: InvitationGuardContext)
    ensures
        ctx.is_expired ==> invitation_transition_spec(current, InvitationEvent::Accept, Some(&ctx)) is Err,
        !ctx.is_expired && current is Pending ==> invitation_transition_spec(
            current,
            InvitationEvent::Accept,
            Some(&ctx),
        ) == Ok::<InvitationState, StateErrorView>(InvitationState::Accepted),
{
}

/// A webhook delivery transition that succeeds lands in a state that
/// `valid_transitions` lists, and every listed state is reached by some event
/// when no guard stands in the way; a state is terminal exactly when it lists
/// no next state, and a terminal delivery refuses every event.
pub proof fn lemma_webhook_transitions_match_table(
    current: WebhookDeliveryState,
    event: WebhookDeliveryEvent,
    context: Option<&WebhookDeliveryGuardContext>,
)
    ensures
        current.spec_is_terminal() <==> current.spec_valid_transitions().len() == 0,
        current.spec_is_terminal() ==> webhook_transition_spec(current, event, context)
            == Err::<WebhookDeliveryState, StateErrorView>(StateErrorView::TerminalState(current.spec_label())),
        webhook_transition_spec(current, event, context) is Ok ==> current.spec_valid_transitions().contains(
            webhook_transition_spec(current, event, context)->Ok_0,
        ),
        forall|t: WebhookDeliveryState| #[trigger] current.spec_valid_transitions().contains(t)
            ==> exists|e: WebhookDeliveryEvent| webhook_transition_spec(current, e, None)
                == Ok::<WebhookDeliveryState, StateErrorView>(t),
{
    let vt = current.spec_valid_transitions();
    if webhook_transition_spec(current, event, context) is Ok {
        let n = webhook_transition_spec(current, event, context)->Ok_0;
        assert(vt.contains(n)) by {
            match (current, event) {
                (WebhookDeliveryState::Pending, WebhookDeliveryEvent::Attempt) => assert(vt[0] == n),
                (WebhookDeliveryState::Attempting, WebhookDeliveryEvent::Success) => assert(vt[0] == n),
                (WebhookDeliveryState::Attempting, WebhookDeliveryEvent::Retry) => assert(vt[1] == n),
                (WebhookDeliveryState::Attempting, WebhookDeliveryEvent::PermanentFailure) => assert(vt[2] == n),
                (WebhookDeliveryState::Retrying, WebhookDeliveryEvent::Attempt) => assert(vt[0] == n),
                (WebhookDeliveryState::Retrying, WebhookDeliveryEvent::MaxAttemptsExceeded) => assert(vt[1] == n),
                _ => {},
            }
        }
    }
    assert forall|t: WebhookDeliveryState| #[trigger] vt.contains(t)
        implies exists|e: WebhookDeliveryEvent| webhook_transition_spec(current, e, None)
            == Ok::<WebhookDeliveryState, StateErrorView>(t) by {
        let i = choose|i: int| 0 <= i < vt.len() && vt[i] == t;
        match current {
            WebhookDeliveryState::Pending => {
                assert(webhook_transition_spec(current, WebhookDeliveryEvent::Attempt, None) == Ok::<WebhookDeliveryState, StateErrorView>(t));
            },
            WebhookDeliveryState::Attempting => {
                if i == 0 { assert(webhook_transition_spec(current, WebhookDeliveryEvent::Success, None) == Ok::<WebhookDeliveryState, StateErrorView>(t)); }
                else if i == 1 { assert(webhook_transition_spec(current, WebhookDeliveryEvent::Retry, None) == Ok::<WebhookDeliveryState, StateErrorView>(t)); }
                else { assert(webhook_transition_spec(current, WebhookDeliveryEvent::PermanentFailure, None) == Ok::<WebhookDeliveryState, StateErrorView>(t)); }
            },
            WebhookDeliveryState::Retrying => {
                if i == 0 { assert(webhook_transition_spec(current, WebhookDeliveryEvent::Attempt, None) == Ok::<WebhookDeliveryState, StateErrorView>(t)); }
                else { assert(webhook_transition_spec(current, WebhookDeliveryEvent::MaxAttemptsExceeded, None) == Ok::<WebhookDeliveryState, StateErrorView>(t)); }
            },
            _ => {},
        }
    }
}

/// Once a delivery has used all its attempts, a retrying delivery cannot
/// start another; while attempts remain it can.
pub proof fn lemma_webhook_attempt_limit(ctx: WebhookDeliveryGuardContext)
    ensures
        ctx.attempt_count >= ctx.max_attempts ==> webhook_transition_spec(
            WebhookDeliveryState::Retrying,
            WebhookDeliveryEvent::Attempt,
            Some(&ctx),
        ) is Err,
        ctx.attempt_count < ctx.max_attempts ==> webhook_transition_spec(
            WebhookDeliveryState::Retrying,
            WebhookDeliveryEvent::Attempt,
            Some(&ctx),
        ) == Ok::<WebhookDeliveryState, StateErrorView>(WebhookDeliveryState::Attempting),
{
}

} // verus!
