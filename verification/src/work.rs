//! Projects, render jobs and uploaded asset files.

use vstd::prelude::*;

use crate::error::{validation, validation_error, Error, ErrorKind};
use crate::ids::{new_uuid_v4, now_micros};
use crate::json::empty_json_object;
use crate::roles::{AssetStatus, JobFailureType, JobStatus, ProjectStatus};
use crate::state::{
    job_transition_spec, project_transition_spec, JobEvent, JobState, JobStateMachine, ProjectEvent,
    ProjectState, ProjectStateMachine,
};
use crate::text::{byte_len, text_eq};
use crate::urn::{urn_parse_spec, urn_valid, Urn, UrnView};
use crate::users::{map_state_error, mapped_transition};

verus! {

// ============================================================================
// Project
// ============================================================================

/// Project entity
#[derive(Debug, Clone)]
pub struct Project {
    pub id: u128,
    pub team_id: u128,
    pub created_by: u128,
    pub name: String,
    pub status: ProjectStatus,
    pub spec: serde_json::Value,
    pub created_at: i64,
    pub updated_at: i64,
}

/// The message a project name is refused with, if it is refused.
pub open spec fn project_name_error(name: Seq<char>) -> Option<Seq<char>> {
    if byte_len(name) > 200 {
        Some("Project name must be ≤200 characters"@)
    } else {
        None
    }
}

pub open spec fn project_invalid_prefix() -> Seq<char> {
    "Invalid project transition: cannot apply '"@
}

pub open spec fn project_terminal_prefix() -> Seq<char> {
    "Project is in terminal state '"@
}

/// The outcome of applying `event` to a project in status `status`.
pub open spec fn project_apply_spec(status: ProjectStatus, event: ProjectEvent) -> Result<ProjectState, (ErrorKind, Seq<char>)> {
    mapped_transition(
        project_transition_spec(status.spec_to_state(), event),
        project_invalid_prefix(),
        project_terminal_prefix(),
    )
}

/// What a project transition does: on success the status moves and the
/// update time is stamped, everything else stays; on failure nothing changes.
pub open spec fn project_moved(old: Project, new: Project, event: ProjectEvent, r: Result<(), Error>) -> bool {
    match project_apply_spec(old.status, event) {
        Ok(s) => r is Ok && new == (Project {
            status: ProjectStatus::spec_from_state(s),
            updated_at: new.updated_at,
            ..old
        }),
        Err(e) => r is Err && r->Err_0@ == e && new == old,
    }
}

impl Project {
    /// Create a new project with validation, with a fresh id, stamped with the current time.
    pub fn new(team_id: u128, created_by: u128, name: String, spec: serde_json::Value) -> (r: Result<Project, Error>)
        ensures
            project_name_error(name@) is Some ==> r is Err && r->Err_0@ == validation(project_name_error(name@)->0),
            project_name_error(name@) is None ==> r is Ok,
            r matches Ok(p) ==> p.team_id == team_id && p.created_by == created_by && p.name@ == name@
                && p.status == ProjectStatus::Draft && p.spec == spec && p.created_at == p.updated_at,
    {
        if name.as_str().len() > 200 {
            return Err(validation_error("Project name must be ≤200 characters"));
        }
        let now = now_micros();
        Ok(Project {
            id: new_uuid_v4(),
            team_id,
            created_by,
            name,
            status: ProjectStatus::Draft,
            spec,
            created_at: now,
            updated_at: now,
        })
    }

    /// Validate the project's invariants.
    pub fn validate(&self) -> (r: Result<(), Error>)
        ensures
            match r {
                Ok(()) => project_name_error(self.name@) is None,
                Err(e) => project_name_error(self.name@) == Some(e@.1) && e@.0 == ErrorKind::Validation,
            },
    {
        if self.name.as_str().len() > 200 {
            return Err(validation_error("Project name must be ≤200 characters"));
        }
        Ok(())
    }

    /// Apply a state transition using the state machine.
    fn apply_transition(&self, event: ProjectEvent) -> (r: Result<ProjectState, Error>)
        ensures
            match r {
                Ok(s) => project_apply_spec(self.status, event) == Ok::<ProjectState, (ErrorKind, Seq<char>)>(s),
                Err(e) => project_apply_spec(self.status, event) == Err::<ProjectState, (ErrorKind, Seq<char>)>(e@),
            },
    {
        match ProjectStateMachine::transition(self.status.to_state(), event) {
            Ok(s) => Ok(s),
            Err(e) => Err(map_state_error(
                e,
                "Invalid project transition: cannot apply '",
                "Project is in terminal state '",
            )),
        }
    }

    fn move_by(&mut self, event: ProjectEvent) -> (r: Result<(), Error>)
        ensures
            project_moved(*old(self), *final(self), event, r),
    {
        let new_state = match self.apply_transition(event) {
            Ok(s) => s,
            Err(e) => {
                return Err(e);
            },
        };
        self.status = ProjectStatus::from_state(new_state);
        self.updated_at = now_micros();
        Ok(())
    }

    /// Start rendering the project
    pub fn start_render(&mut self) -> (r: Result<(), Error>)
        ensures
            project_moved(*old(self), *final(self), ProjectEvent::Render, r),
    {
        self.move_by(ProjectEvent::Render)
    }

    /// Mark the project as completed (its job completed)
    pub fn on_job_completed(&mut self) -> (r: Result<(), Error>)
        ensures
            project_moved(*old(self), *final(self), ProjectEvent::JobCompleted, r),
    {
        self.move_by(ProjectEvent::JobCompleted)
    }

    /// Return the project to draft (its job failed)
    pub fn on_job_failed(&mut self) -> (r: Result<(), Error>)
        ensures
            project_moved(*old(self), *final(self), ProjectEvent::JobFailed, r),
    {
        self.move_by(ProjectEvent::JobFailed)
    }

    /// Return the project to draft (its job was canceled)
    pub fn on_job_canceled(&mut self) -> (r: Result<(), Error>)
        ensures
            project_moved(*old(self), *final(self), ProjectEvent::JobCanceled, r),
    {
        self.move_by(ProjectEvent::JobCanceled)
    }

    /// Archive the project
    pub fn archive(&mut self) -> (r: Result<(), Error>)
        ensures
            project_moved(*old(self), *final(self), ProjectEvent::Archive, r),
    {
        self.move_by(ProjectEvent::Archive)
    }

    /// Unarchive the project
    pub fn unarchive(&mut self) -> (r: Result<(), Error>)
        ensures
            project_moved(*old(self), *final(self), ProjectEvent::Unarchive, r),
    {
        self.move_by(ProjectEvent::Unarchive)
    }

    /// Check if a transition is valid without applying it
    pub fn can_transition(&self, event: &ProjectEvent) -> (r: bool)
        ensures
            r == project_apply_spec(self.status, *event) is Ok,
    {
        ProjectStateMachine::can_transition(self.status.to_state(), event)
    }
}

/// Archiving a project and unarchiving it again brings it back to draft,
/// from draft or completed alike.
pub proof fn lemma_archive_round_trip(status: ProjectStatus)
    requires
        status is Draft || status is Completed,
    ensures
        project_apply_spec(status, ProjectEvent::Archive) == Ok::<ProjectState, (ErrorKind, Seq<char>)>(
            ProjectState::Archived,
        ),
        project_apply_spec(ProjectStatus::Archived, ProjectEvent::Unarchive) == Ok::<
            ProjectState,
            (ErrorKind, Seq<char>),
        >(ProjectState::Draft),
{
}

// ============================================================================
// Job
// ============================================================================

/// Job entity
#[derive(Debug, Clone)]
pub struct Job {
    pub id: u128,
    /// The owner's URN text
    pub owner: String,
    pub triggered_by: u128,
    pub project_id: Option<u128>,
    pub status: JobStatus,
    pub spec_snapshot: serde_json::Value,
    pub options: serde_json::Value,
    pub progress: serde_json::Value,
    pub output: Option<serde_json::Value>,
    pub output_size_bytes: Option<i64>,
    pub error: Option<serde_json::Value>,
    pub credits_charged: i32,
    pub failure_type: Option<JobFailureType>,
    pub credits_refunded: i32,
    pub idempotency_key: Option<String>,
    pub started_at: Option<i64>,
    pub completed_at: Option<i64>,
    pub created_at: i64,
    pub updated_at: i64,
}

/// Division that rounds toward zero, as integer division in Rust does.
pub open spec fn div_toward_zero(a: int, b: int) -> int {
    if a >= 0 {
        a / b
    } else {
        -((-a) / b)
    }
}

/// Progress in hundredths of a percent, clamped to 0..=10000.
pub open spec fn clamp_progress(p: int) -> int {
    if p < 0 {
        0
    } else if p > 10000 {
        10000
    } else {
        p
    }
}

/// The refund owed for a job that charged `charged` credits and ended with
/// `failure_type` at `progress` hundredths of a percent: everything back for
/// system errors and timeouts, the unfinished share for validation errors, and
/// 90% of the unfinished share for cancellations, capped at 90% of the charge.
pub open spec fn refund_spec(charged: int, progress: int, failure_type: JobFailureType) -> int {
    let remaining = 10000 - clamp_progress(progress);
    match failure_type {
        JobFailureType::System | JobFailureType::Timeout => charged,
        JobFailureType::Validation => div_toward_zero(charged * remaining, 10000),
        JobFailureType::Canceled => {
            let before_cap = div_toward_zero(charged * remaining * 9000, 100_000_000);
            let cap = div_toward_zero(charged * 9000, 10000);
            if before_cap < cap {
                before_cap
            } else {
                cap
            }
        },
    }
}

fn div_toward_zero_exec(a: i64, b: i64) -> (r: i64)
    requires
        b > 0,
        a > i64::MIN,
    ensures
        r == div_toward_zero(a as int, b as int),
{
    if a >= 0 {
        a / b
    } else {
        -((-a) / b)
    }
}

proof fn lemma_div_bounds(a: int, b: int, c: int)
    requires
        b > 0,
        0 <= c <= b,
    ensures
        a >= 0 ==> 0 <= div_toward_zero(a * c, b) <= a,
        a < 0 ==> a <= div_toward_zero(a * c, b) <= 0,
{
    if a >= 0 {
        assert(0 <= a * c <= a * b) by (nonlinear_arith)
            requires
                a >= 0,
                0 <= c <= b,
        ;
        assert((a * b) / b == a) by (nonlinear_arith)
            requires
                b > 0,
        ;
        assert(0 <= (a * c) / b <= (a * b) / b) by (nonlinear_arith)
            requires
                0 <= a * c <= a * b,
                b > 0,
        ;
    } else {
        assert(0 <= (-a) * c <= (-a) * b) by (nonlinear_arith)
            requires
                a < 0,
                0 <= c <= b,
        ;
        assert(((-a) * b) / b == -a) by (nonlinear_arith)
            requires
                b > 0,
        ;
        assert(0 <= ((-a) * c) / b <= ((-a) * b) / b) by (nonlinear_arith)
            requires
                0 <= (-a) * c <= (-a) * b,
                b > 0,
        ;
        assert(-(a * c) == (-a) * c) by (nonlinear_arith);
    }
}

/// The refund for a job that charged `credits_charged`, given its progress in
/// hundredths of a percent (10000 = 100.00%; values outside 0..=10000 are clamped).
pub fn refund_amount(credits_charged: i32, progress_hundredths: i32, failure_type: JobFailureType) -> (r: i32)
    ensures
        r == refund_spec(credits_charged as int, progress_hundredths as int, failure_type),
{
    let p: i32 = if progress_hundredths < 0 {
        0
    } else if progress_hundredths > 10000 {
        10000
    } else {
        progress_hundredths
    };
    let remaining: i64 = 10000 - p as i64;
    let c: i64 = credits_charged as i64;
    match failure_type {
        JobFailureType::System | JobFailureType::Timeout => credits_charged,
        JobFailureType::Validation => {
            proof {
                lemma_div_bounds(c as int, 10000, remaining as int);
                assert(-2147483648 * 10000 <= c * remaining <= 2147483647 * 10000) by (nonlinear_arith)
                    requires
                        -2147483648 <= c <= 2147483647,
                        0 <= remaining <= 10000,
                ;
            }
            let v = div_toward_zero_exec(c * remaining, 10000);
            v as i32
        },
        JobFailureType::Canceled => {
            proof {
                assert(-2147483648 * 10000 * 9000 <= c * remaining * 9000 <= 2147483647 * 10000 * 9000) by (nonlinear_arith)
                    requires
                        -2147483648 <= c <= 2147483647,
                        0 <= remaining <= 10000,
                ;
                lemma_div_bounds(c as int, 10000, remaining as int);
                lemma_div_bounds(c as int, 10000, 9000);
                lemma_div_bounds(c * 9000, 100_000_000, remaining as int * 10000);
                assert(c * remaining * 9000 == (c * 9000) * (remaining * 10000) / 10000) by (nonlinear_arith);
                assert((c * 9000) * (remaining * 10000) == (c * remaining * 9000) * 10000) by (nonlinear_arith);
            }
            let before_cap = div_toward_zero_exec(c * remaining * 9000, 100_000_000);
            let cap = div_toward_zero_exec(c * 9000, 10000);
            proof {
                assert(c >= 0 ==> 0 <= cap <= c * 9000 / 10000 <= c) by (nonlinear_arith)
                    requires
                        cap == div_toward_zero(c * 9000, 10000),
                        -2147483648 <= c <= 2147483647,
                ;
                assert(c < 0 ==> c <= cap <= 0) by {
                    lemma_div_bounds(c as int, 10000, 9000);
                }
                assert(-2147483648 <= before_cap <= 2147483647) by {
                    lemma_div_bounds(c as int, 100_000_000, remaining * 9000);
                    assert(c * remaining * 9000 == c * (remaining * 9000)) by (nonlinear_arith);
                }
            }
            if before_cap < cap {
                before_cap as i32
            } else {
                cap as i32
            }
        },
    }
}

/// The first invariant a job breaks, as the error it is refused with.
pub open spec fn job_invariant_error(j: Job) -> Option<(ErrorKind, Seq<char>)> {
    if j.credits_refunded > j.credits_charged {
        Some(validation("Cannot refund more than charged"@))
    } else if j.credits_refunded < 0 || j.credits_charged < 0 {
        Some(validation("Credits values cannot be negative"@))
    } else if j.status.spec_is_terminal() && j.completed_at is None {
        Some(validation("Terminal jobs must have completion timestamp"@))
    } else if j.status is Processing && j.started_at is None {
        Some(validation("Processing jobs must have start timestamp"@))
    } else if j.status is Completed && j.output is None {
        Some(validation("Completed jobs must have output"@))
    } else if j.status is Failed && j.error is None {
        Some(validation("Failed jobs must have error"@))
    } else if (j.status is Failed || j.status is Canceled) && j.failure_type is None {
        Some(validation("Failed/canceled jobs must have failure type"@))
    } else if j.status is Completed && j.failure_type is Some {
        Some(validation("Completed jobs must not have failure type"@))
    } else if j.project_id is Some && urn_parse_spec(j.owner@) is Err {
        Some(urn_parse_spec(j.owner@)->Err_0)
    } else if j.project_id is Some && !(urn_parse_spec(j.owner@) matches Ok(UrnView::Team { .. })) {
        Some(validation("Project-based jobs must be team-owned"@))
    } else if j.failure_type == Some(JobFailureType::Canceled) && j.credits_charged - j.credits_refunded < (
    j.credits_charged * 10) / 100 {
        Some(validation("Cancellation must charge at least 10%"@))
    } else {
        None
    }
}

pub open spec fn job_invalid_prefix() -> Seq<char> {
    "Invalid job transition: cannot apply '"@
}

pub open spec fn job_terminal_prefix() -> Seq<char> {
    "Job is in terminal state '"@
}

/// The outcome of applying `event` to a job in status `status`.
pub open spec fn job_apply_spec(status: JobStatus, event: JobEvent) -> Result<JobState, (ErrorKind, Seq<char>)> {
    mapped_transition(
        job_transition_spec(status.spec_to_state(), event),
        job_invalid_prefix(),
        job_terminal_prefix(),
    )
}

impl Job {
    /// Create a new job with validation, with a fresh id, stamped with the current time.
    pub fn new(
        owner: &Urn,
        triggered_by: u128,
        project_id: Option<u128>,
        spec_snapshot: serde_json::Value,
        credits_charged: i32,
        idempotency_key: Option<String>,
    ) -> (r: Result<Job, Error>)
        ensures
            credits_charged < 0 ==> r is Err && r->Err_0@ == validation("Credits charged cannot be negative"@),
            credits_charged >= 0 ==> r is Ok,
            r matches Ok(j) ==> {
                &&& j.owner@ == owner@ && j.triggered_by == triggered_by && j.project_id == project_id
                &&& j.status == JobStatus::Queued && j.spec_snapshot == spec_snapshot
                &&& j.output is None && j.output_size_bytes is None && j.error is None
                &&& j.credits_charged == credits_charged && j.failure_type is None && j.credits_refunded == 0
                &&& j.started_at is None && j.completed_at is None && j.created_at == j.updated_at
                &&& (match (idempotency_key, j.idempotency_key) {
                    (Some(a), Some(b)) => a@ == b@,
                    (None, None) => true,
                    _ => false,
                })
            },
    {
        if credits_charged < 0 {
            return Err(validation_error("Credits charged cannot be negative"));
        }
        let now = now_micros();
        Ok(Job {
            id: new_uuid_v4(),
            owner: owner.to_string(),
            triggered_by,
            project_id,
            status: JobStatus::Queued,
            spec_snapshot,
            options: empty_json_object(),
            progress: empty_json_object(),
            output: None,
            output_size_bytes: None,
            error: None,
            credits_charged,
            failure_type: None,
            credits_refunded: 0,
            idempotency_key,
            started_at: None,
            completed_at: None,
            created_at: now,
            updated_at: now,
        })
    }

    /// Whether the job is ephemeral (not tied to a project)
    pub fn is_ephemeral(&self) -> (r: bool)
        ensures
            r == (self.project_id is None),
    {
        self.project_id.is_none()
    }

    /// Whether the job is terminal
    pub fn is_terminal(&self) -> (r: bool)
        ensures
            r == self.status.spec_is_terminal(),
    {
        self.status.is_terminal()
    }

    /// Net credits (charged - refunded)
    pub fn net_credits(&self) -> (r: i32)
        requires
            i32::MIN <= self.credits_charged - self.credits_refunded <= i32::MAX,
        ensures
            r == self.credits_charged - self.credits_refunded,
    {
        self.credits_charged - self.credits_refunded
    }

    /// Apply a state transition using the state machine
    fn apply_transition(&self, event: JobEvent) -> (r: Result<JobState, Error>)
        ensures
            match r {
                Ok(s) => job_apply_spec(self.status, event) == Ok::<JobState, (ErrorKind, Seq<char>)>(s),
                Err(e) => job_apply_spec(self.status, event) == Err::<JobState, (ErrorKind, Seq<char>)>(e@),
            },
    {
        match JobStateMachine::transition(self.status.to_state(), event) {
            Ok(s) => Ok(s),
            Err(e) => Err(map_state_error(e, "Invalid job transition: cannot apply '", "Job is in terminal state '")),
        }
    }

    /// Start job processing
    pub fn start(&mut self) -> (r: Result<(), Error>)
        ensures
            match job_apply_spec(old(self).status, JobEvent::WorkerPicksUp) {
                Ok(s) => r is Ok && *final(self) == (Job {
                    status: JobStatus::spec_from_state(s),
                    started_at: Some(final(self).updated_at),
                    updated_at: final(self).updated_at,
                    ..*old(self)
                }),
                Err(e) => r is Err && r->Err_0@ == e && *final(self) == *old(self),
            },
    {
        let new_state = match self.apply_transition(JobEvent::WorkerPicksUp) {
            Ok(s) => s,
            Err(e) => {
                return Err(e);
            },
        };
        let now = now_micros();
        self.status = JobStatus::from_state(new_state);
        self.started_at = Some(now);
        self.updated_at = now;
        Ok(())
    }

    /// Complete the job successfully
    pub fn complete(&mut self, output: serde_json::Value, output_size_bytes: Option<i64>) -> (r: Result<(), Error>)
        ensures
            match job_apply_spec(old(self).status, JobEvent::Success) {
                Ok(s) => r is Ok && *final(self) == (Job {
                    status: JobStatus::spec_from_state(s),
                    output: Some(output),
                    output_size_bytes,
                    completed_at: Some(final(self).updated_at),
                    updated_at: final(self).updated_at,
                    ..*old(self)
                }),
                Err(e) => r is Err && r->Err_0@ == e && *final(self) == *old(self),
            },
    {
        let new_state = match self.apply_transition(JobEvent::Success) {
            Ok(s) => s,
            Err(e) => {
                return Err(e);
            },
        };
        let now = now_micros();
        self.status = JobStatus::from_state(new_state);
        self.output = Some(output);
        self.output_size_bytes = output_size_bytes;
        self.completed_at = Some(now);
        self.updated_at = now;
        Ok(())
    }

    /// Fail the job, refunding according to the failure type and the progress
    /// made (in hundredths of a percent).
    pub fn fail(&mut self, error: serde_json::Value, failure_type: JobFailureType, progress_hundredths: i32) -> (r: Result<(), Error>)
        ensures
            match job_apply_spec(old(self).status, JobEvent::Failure) {
                Ok(s) => r is Ok && *final(self) == (Job {
                    status: JobStatus::spec_from_state(s),
                    error: Some(error),
                    failure_type: Some(failure_type),
                    credits_refunded: refund_spec(
                        old(self).credits_charged as int,
                        progress_hundredths as int,
                        failure_type,
                    ) as i32,
                    completed_at: Some(final(self).updated_at),
                    updated_at: final(self).updated_at,
                    ..*old(self)
                }),
                Err(e) => r is Err && r->Err_0@ == e && *final(self) == *old(self),
            },
    {
        let new_state = match self.apply_transition(JobEvent::Failure) {
            Ok(s) => s,
            Err(e) => {
                return Err(e);
            },
        };
        self.status = JobStatus::from_state(new_state);
        self.error = Some(error);
        self.failure_type = Some(failure_type);
        self.apply_refund(failure_type, progress_hundredths);
        let now = now_micros();
        self.completed_at = Some(now);
        self.updated_at = now;
        Ok(())
    }

    /// Cancel the job, refunding the unfinished share less a 10% fee.
    pub fn cancel(&mut self, progress_hundredths: i32) -> (r: Result<(), Error>)
        ensures
            match job_apply_spec(old(self).status, JobEvent::Cancel) {
                Ok(s) => r is Ok && *final(self) == (Job {
                    status: JobStatus::spec_from_state(s),
                    failure_type: Some(JobFailureType::Canceled),
                    credits_refunded: refund_spec(
                        old(self).credits_charged as int,
                        progress_hundredths as int,
                        JobFailureType::Canceled,
                    ) as i32,
                    completed_at: Some(final(self).updated_at),
                    updated_at: final(self).updated_at,
                    ..*old(self)
                }),
                Err(e) => r is Err && r->Err_0@ == e && *final(self) == *old(self),
            },
    {
        let new_state = match self.apply_transition(JobEvent::Cancel) {
            Ok(s) => s,
            Err(e) => {
                return Err(e);
            },
        };
        self.status = JobStatus::from_state(new_state);
        self.failure_type = Some(JobFailureType::Canceled);
        self.apply_refund(JobFailureType::Canceled, progress_hundredths);
        let now = now_micros();
        self.completed_at = Some(now);
        self.updated_at = now;
        Ok(())
    }

    /// Check if a transition is valid without applying it
    pub fn can_transition(&self, event: &JobEvent) -> (r: bool)
        ensures
            r == job_apply_spec(self.status, *event) is Ok,
    {
        JobStateMachine::can_transition(self.status.to_state(), event)
    }

    /// The owner's URN
    pub fn owner_urn(&self) -> (r: Result<Urn, Error>)
        ensures
            match r {
                Ok(u) => u@ == self.owner@ && urn_valid(self.owner@),
                Err(e) => urn_parse_spec(self.owner@) is Err && e@ == urn_parse_spec(self.owner@)->Err_0,
            },
    {
        Urn::new(self.owner.as_str())
    }

    /// The refund owed for this job given the failure type and its progress in
    /// hundredths of a percent.
    pub fn calculate_refund(&self, failure_type: JobFailureType, progress_hundredths: i32) -> (r: i32)
        ensures
            r == refund_spec(self.credits_charged as int, progress_hundredths as int, failure_type),
    {
        refund_amount(self.credits_charged, progress_hundredths, failure_type)
    }

    /// Record the refund owed for the failure type and progress.
    pub fn apply_refund(&mut self, failure_type: JobFailureType, progress_hundredths: i32)
        ensures
            *final(self) == (Job {
                credits_refunded: refund_spec(
                    old(self).credits_charged as int,
                    progress_hundredths as int,
                    failure_type,
                ) as i32,
                ..*old(self)
            }),
    {
        self.credits_refunded = refund_amount(self.credits_charged, progress_hundredths, failure_type);
    }

    /// Validate the job's invariants.
    pub fn validate(&self) -> (r: Result<(), Error>)
        ensures
            match r {
                Ok(()) => job_invariant_error(*self) is None,
                Err(e) => job_invariant_error(*self) == Some(e@),
            },
    {
        if self.credits_refunded > self.credits_charged {
            return Err(validation_error("Cannot refund more than charged"));
        }
        if self.credits_refunded < 0 || self.credits_charged < 0 {
            return Err(validation_error("Credits values cannot be negative"));
        }
        if self.is_terminal() && self.completed_at.is_none() {
            return Err(validation_error("Terminal jobs must have completion timestamp"));
        }
        if let JobStatus::Processing = self.status {
            if self.started_at.is_none() {
                return Err(validation_error("Processing jobs must have start timestamp"));
            }
        }
        if let JobStatus::Completed = self.status {
            if self.output.is_none() {
                return Err(validation_error("Completed jobs must have output"));
            }
        }
        if let JobStatus::Failed = self.status {
            if self.error.is_none() {
                return Err(validation_error("Failed jobs must have error"));
            }
        }
        match (&self.status, &self.failure_type) {
            (JobStatus::Failed, None) | (JobStatus::Canceled, None) => {
                return Err(validation_error("Failed/canceled jobs must have failure type"));
            },
            (JobStatus::Completed, Some(_)) => {
                return Err(validation_error("Completed jobs must not have failure type"));
            },
            _ => {},
        }
        if self.project_id.is_some() {
            let urn = match self.owner_urn() {
                Ok(u) => u,
                Err(e) => {
                    return Err(e);
                },
            };
            if !urn.is_team() {
                return Err(validation_error("Project-based jobs must be team-owned"));
            }
        }
        if let Some(JobFailureType::Canceled) = self.failure_type {
            let min_charge: i64 = (self.credits_charged as i64 * 10) / 100;
            let actual_charge: i64 = self.credits_charged as i64 - self.credits_refunded as i64;
            if actual_charge < min_charge {
                return Err(validation_error("Cancellation must charge at least 10%"));
            }
        }
        Ok(())
    }
}

/// For a job that charged a non-negative amount, no refund exceeds the charge
/// or goes below zero, a system error or timeout refunds everything, and a
/// cancellation always keeps at least 10% of the charge.
pub proof fn lemma_refund_bounds(charged: int, progress: int, failure_type: JobFailureType)
    requires
        0 <= charged <= i32::MAX,
    ensures
        0 <= refund_spec(charged, progress, failure_type) <= charged,
        (failure_type is System || failure_type is Timeout) ==> refund_spec(charged, progress, failure_type) == charged,
        failure_type is Canceled ==> charged - refund_spec(charged, progress, failure_type) >= (charged * 10) / 100,
{
    let remaining = 10000 - clamp_progress(progress);
    lemma_div_bounds(charged, 10000, remaining);
    lemma_div_bounds(charged, 10000, 9000);
    if failure_type is Canceled {
        let before_cap = div_toward_zero(charged * remaining * 9000, 100_000_000);
        let cap = div_toward_zero(charged * 9000, 10000);
        assert(0 <= charged * remaining * 9000) by (nonlinear_arith)
            requires
                0 <= charged,
                0 <= remaining,
        ;
        assert(charged - cap >= (charged * 10) / 100) by (nonlinear_arith)
            requires
                cap == (charged * 9000) / 10000,
                0 <= charged,
        ;
    }
}

/// A job that is canceled, starting from one that keeps every invariant,
/// still keeps every invariant afterwards when its owner and project agree.
pub proof fn lemma_cancel_keeps_job_invariants(j: Job, progress: i32, now: i64, s: JobState)
    requires
        job_invariant_error(j) is None,
        job_apply_spec(j.status, JobEvent::Cancel) == Ok::<JobState, (ErrorKind, Seq<char>)>(s),
    ensures
        job_invariant_error(
            Job {
                status: JobStatus::spec_from_state(s),
                failure_type: Some(JobFailureType::Canceled),
                credits_refunded: refund_spec(j.credits_charged as int, progress as int, JobFailureType::Canceled) as i32,
                completed_at: Some(now),
                updated_at: now,
                ..j
            },
        ) is None,
{
    lemma_refund_bounds(j.credits_charged as int, progress as int, JobFailureType::Canceled);
}

// ============================================================================
// Asset file
// ============================================================================

/// Asset file entity
#[derive(Debug, Clone)]
pub struct AssetFile {
    pub id: u128,
    /// The owner's URN text
    pub owner: String,
    pub uploaded_by: u128,
    pub project_id: Option<u128>,
    pub filename: String,
    pub s3_key: String,
    pub content_type: String,
    pub size_bytes: i64,
    pub status: AssetStatus,
    pub metadata: serde_json::Value,
    pub created_at: i64,
    pub updated_at: i64,
}

/// Whether a content type is one that uploads may have.
pub open spec fn allowed_content_type(t: Seq<char>) -> bool {
    t == "image/jpeg"@ || t == "image/png"@ || t == "image/webp"@ || t == "audio/mpeg"@ || t == "audio/wav"@
        || t == "audio/ogg"@ || t == "video/mp4"@
}

/// The largest file size allowed (50MB).
pub const MAX_ASSET_SIZE_BYTES: i64 = 52428800;

/// The message an asset file is refused with, if it is refused.
pub open spec fn asset_error(filename: Seq<char>, content_type: Seq<char>, size_bytes: i64) -> Option<Seq<char>> {
    if filename.len() == 0 || byte_len(filename) > 255 {
        Some("Filename must be 1-255 characters"@)
    } else if !allowed_content_type(content_type) {
        Some("Content type '"@ + content_type + "' not allowed"@)
    } else if size_bytes <= 0 {
        Some("File size must be positive"@)
    } else if size_bytes > MAX_ASSET_SIZE_BYTES {
        Some("File size exceeds maximum of 52428800 bytes"@)
    } else {
        None
    }
}

fn is_allowed_content_type(t: &str) -> (r: bool)
    ensures
        r == allowed_content_type(t@),
{
    text_eq(t, "image/jpeg") || text_eq(t, "image/png") || text_eq(t, "image/webp") || text_eq(t, "audio/mpeg")
        || text_eq(t, "audio/wav") || text_eq(t, "audio/ogg") || text_eq(t, "video/mp4")
}

fn check_asset(filename: &str, content_type: &str, size_bytes: i64) -> (r: Result<(), Error>)
    ensures
        match r {
            Ok(()) => asset_error(filename@, content_type@, size_bytes) is None,
            Err(e) => asset_error(filename@, content_type@, size_bytes) == Some(e@.1) && e@.0 == ErrorKind::Validation,
        },
{
    if filename.is_empty() || filename.len() > 255 {
        return Err(validation_error("Filename must be 1-255 characters"));
    }
    if !is_allowed_content_type(content_type) {
        let mut m = String::from_str("Content type '");
        m.append(content_type);
        m.append("' not allowed");
        return Err(Error::Validation(m));
    }
    if size_bytes <= 0 {
        return Err(validation_error("File size must be positive"));
    }
    if size_bytes > MAX_ASSET_SIZE_BYTES {
        return Err(validation_error("File size exceeds maximum of 52428800 bytes"));
    }
    Ok(())
}

impl AssetFile {
    /// The content types that uploads may have.
    pub fn allowed_content_types() -> (r: Vec<&'static str>)
        ensures
            r@ == seq!["image/jpeg", "image/png", "image/webp", "audio/mpeg", "audio/wav", "audio/ogg", "video/mp4"],
            forall|i: int| 0 <= i < 7 ==> allowed_content_type(#[trigger] r@[i]@),
    {
        vec!["image/jpeg", "image/png", "image/webp", "audio/mpeg", "audio/wav", "audio/ogg", "video/mp4"]
    }

    /// Create a new asset file with validation, with a fresh id, stamped with the current time.
    pub fn new(
        owner: &Urn,
        uploaded_by: u128,
        project_id: Option<u128>,
        filename: String,
        s3_key: String,
        content_type: String,
        size_bytes: i64,
    ) -> (r: Result<AssetFile, Error>)
        ensures
            match r {
                Ok(a) => {
                    &&& asset_error(filename@, content_type@, size_bytes) is None
                    &&& a.owner@ == owner@ && a.uploaded_by == uploaded_by && a.project_id == project_id
                    &&& a.filename@ == filename@ && a.s3_key@ == s3_key@ && a.content_type@ == content_type@
                    &&& a.size_bytes == size_bytes && a.status == AssetStatus::Pending
                    &&& a.created_at == a.updated_at
                },
                Err(e) => e@.0 == ErrorKind::Validation && asset_error(filename@, content_type@, size_bytes) == Some(
                    e@.1,
                ),
            },
    {
        match check_asset(filename.as_str(), content_type.as_str(), size_bytes) {
            Ok(()) => {},
            Err(e) => {
                return Err(e);
            },
        }
        let now = now_micros();
        Ok(AssetFile {
            id: new_uuid_v4(),
            owner: owner.to_string(),
            uploaded_by,
            project_id,
            filename,
            s3_key,
            content_type,
            size_bytes,
            status: AssetStatus::Pending,
            metadata: empty_json_object(),
            created_at: now,
            updated_at: now,
        })
    }

    /// The owner's URN
    pub fn owner_urn(&self) -> (r: Result<Urn, Error>)
        ensures
            match r {
                Ok(u) => u@ == self.owner@ && urn_valid(self.owner@),
                Err(e) => urn_parse_spec(self.owner@) is Err && e@ == urn_parse_spec(self.owner@)->Err_0,
            },
    {
        Urn::new(self.owner.as_str())
    }

    /// Validate the asset file's invariants.
    pub fn validate(&self) -> (r: Result<(), Error>)
        ensures
            match r {
                Ok(()) => asset_error(self.filename@, self.content_type@, self.size_bytes) is None,
                Err(e) => e@.0 == ErrorKind::Validation && asset_error(
                    self.filename@,
                    self.content_type@,
                    self.size_bytes,
                ) == Some(e@.1),
            },
    {
        check_asset(self.filename.as_str(), self.content_type.as_str(), self.size_bytes)
    }
}

} // verus!
