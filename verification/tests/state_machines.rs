use framecast::state::{
    InvitationEvent, InvitationGuardContext, InvitationState, InvitationStateMachine, JobEvent, JobState,
    JobStateMachine, ProjectEvent, ProjectState, ProjectStateMachine, StateError, WebhookDeliveryEvent,
    WebhookDeliveryGuardContext, WebhookDeliveryState, WebhookDeliveryStateMachine,
};

#[test]
fn test_valid_queued_to_processing() {
    let result = JobStateMachine::transition(JobState::Queued, JobEvent::WorkerPicksUp);
    assert_eq!(result, Ok(JobState::Processing));
}

#[test]
fn test_valid_queued_to_canceled() {
    let result = JobStateMachine::transition(JobState::Queued, JobEvent::Cancel);
    assert_eq!(result, Ok(JobState::Canceled));
}

#[test]
fn test_valid_processing_to_completed() {
    let result = JobStateMachine::transition(JobState::Processing, JobEvent::Success);
    assert_eq!(result, Ok(JobState::Completed));
}

#[test]
fn test_valid_processing_to_failed() {
    let result = JobStateMachine::transition(JobState::Processing, JobEvent::Failure);
    assert_eq!(result, Ok(JobState::Failed));
}

#[test]
fn test_valid_processing_to_canceled() {
    let result = JobStateMachine::transition(JobState::Processing, JobEvent::Cancel);
    assert_eq!(result, Ok(JobState::Canceled));
}

#[test]
fn test_invalid_queued_to_completed() {
    let result = JobStateMachine::transition(JobState::Queued, JobEvent::Success);
    assert!(matches!(result, Err(StateError::InvalidTransition { .. })));
}

#[test]
fn test_invalid_queued_to_failed() {
    let result = JobStateMachine::transition(JobState::Queued, JobEvent::Failure);
    assert!(matches!(result, Err(StateError::InvalidTransition { .. })));
}

#[test]
fn test_terminal_completed_cannot_transition() {
    let result = JobStateMachine::transition(JobState::Completed, JobEvent::Cancel);
    assert!(matches!(result, Err(StateError::TerminalState(_))));
}

#[test]
fn test_terminal_failed_cannot_transition() {
    let result = JobStateMachine::transition(JobState::Failed, JobEvent::Success);
    assert!(matches!(result, Err(StateError::TerminalState(_))));
}

#[test]
fn test_terminal_canceled_cannot_transition() {
    let result = JobStateMachine::transition(JobState::Canceled, JobEvent::WorkerPicksUp);
    assert!(matches!(result, Err(StateError::TerminalState(_))));
}

#[test]
fn test_is_terminal() {
    assert!(!JobState::Queued.is_terminal());
    assert!(!JobState::Processing.is_terminal());
    assert!(JobState::Completed.is_terminal());
    assert!(JobState::Failed.is_terminal());
    assert!(JobState::Canceled.is_terminal());
}

#[test]
fn test_can_transition() {
    assert!(JobStateMachine::can_transition(
        JobState::Queued,
        &JobEvent::WorkerPicksUp
    ));
    assert!(!JobStateMachine::can_transition(
        JobState::Queued,
        &JobEvent::Success
    ));
    assert!(!JobStateMachine::can_transition(
        JobState::Completed,
        &JobEvent::Cancel
    ));
}

#[test]
fn test_valid_transitions_from_queued() {
    let transitions = JobState::Queued.valid_transitions();
    assert!(transitions.contains(&JobState::Processing));
    assert!(transitions.contains(&JobState::Canceled));
    assert_eq!(transitions.len(), 2);
}

#[test]
fn test_valid_transitions_from_processing() {
    let transitions = JobState::Processing.valid_transitions();
    assert!(transitions.contains(&JobState::Completed));
    assert!(transitions.contains(&JobState::Failed));
    assert!(transitions.contains(&JobState::Canceled));
    assert_eq!(transitions.len(), 3);
}

#[test]
fn test_terminal_states_have_no_transitions() {
    assert!(JobState::Completed.valid_transitions().is_empty());
    assert!(JobState::Failed.valid_transitions().is_empty());
    assert!(JobState::Canceled.valid_transitions().is_empty());
}

#[test]
fn test_valid_draft_to_rendering() {
    let result = ProjectStateMachine::transition(ProjectState::Draft, ProjectEvent::Render);
    assert_eq!(result, Ok(ProjectState::Rendering));
}

#[test]
fn test_valid_draft_to_archived() {
    let result =
        ProjectStateMachine::transition(ProjectState::Draft, ProjectEvent::Archive);
    assert_eq!(result, Ok(ProjectState::Archived));
}

#[test]
fn test_valid_rendering_to_completed() {
    let result = ProjectStateMachine::transition(
        ProjectState::Rendering,
        ProjectEvent::JobCompleted,
    );
    assert_eq!(result, Ok(ProjectState::Completed));
}

#[test]
fn test_valid_rendering_to_draft_on_failure() {
    let result =
        ProjectStateMachine::transition(ProjectState::Rendering, ProjectEvent::JobFailed);
    assert_eq!(result, Ok(ProjectState::Draft));
}

#[test]
fn test_valid_rendering_to_draft_on_cancel() {
    let result =
        ProjectStateMachine::transition(ProjectState::Rendering, ProjectEvent::JobCanceled);
    assert_eq!(result, Ok(ProjectState::Draft));
}

#[test]
fn test_valid_completed_to_archived() {
    let result =
        ProjectStateMachine::transition(ProjectState::Completed, ProjectEvent::Archive);
    assert_eq!(result, Ok(ProjectState::Archived));
}

#[test]
fn test_valid_completed_to_rendering_rerender() {
    let result =
        ProjectStateMachine::transition(ProjectState::Completed, ProjectEvent::Render);
    assert_eq!(result, Ok(ProjectState::Rendering));
}

#[test]
fn test_valid_archived_to_draft() {
    let result =
        ProjectStateMachine::transition(ProjectState::Archived, ProjectEvent::Unarchive);
    assert_eq!(result, Ok(ProjectState::Draft));
}

#[test]
fn test_invalid_draft_to_completed() {
    let result =
        ProjectStateMachine::transition(ProjectState::Draft, ProjectEvent::JobCompleted);
    assert!(matches!(result, Err(StateError::InvalidTransition { .. })));
}

#[test]
fn test_invalid_archived_to_completed() {
    let result =
        ProjectStateMachine::transition(ProjectState::Archived, ProjectEvent::JobCompleted);
    assert!(matches!(result, Err(StateError::InvalidTransition { .. })));
}

#[test]
fn test_project_valid_transitions() {
    // Kill mutant: ProjectState::valid_transitions -> Vec::leak(Vec::new())
    let draft = ProjectState::Draft.valid_transitions();
    assert!(!draft.is_empty());
    assert!(draft.contains(&ProjectState::Rendering));
    assert!(draft.contains(&ProjectState::Archived));
    assert_eq!(draft.len(), 2);

    let rendering = ProjectState::Rendering.valid_transitions();
    assert!(!rendering.is_empty());
    assert!(rendering.contains(&ProjectState::Completed));
    assert!(rendering.contains(&ProjectState::Draft));
    assert_eq!(rendering.len(), 2);

    let completed = ProjectState::Completed.valid_transitions();
    assert!(!completed.is_empty());
    assert!(completed.contains(&ProjectState::Archived));
    assert!(completed.contains(&ProjectState::Rendering));
    assert_eq!(completed.len(), 2);

    let archived = ProjectState::Archived.valid_transitions();
    assert!(!archived.is_empty());
    assert!(archived.contains(&ProjectState::Draft));
    assert_eq!(archived.len(), 1);
}

#[test]
fn test_project_can_transition() {
    // Kill mutant: ProjectStateMachine::can_transition -> true / false
    // Valid transitions
    assert!(ProjectStateMachine::can_transition(
        ProjectState::Draft,
        &ProjectEvent::Render
    ));
    assert!(ProjectStateMachine::can_transition(
        ProjectState::Draft,
        &ProjectEvent::Archive
    ));
    assert!(ProjectStateMachine::can_transition(
        ProjectState::Completed,
        &ProjectEvent::Archive
    ));

    // Invalid transitions
    assert!(!ProjectStateMachine::can_transition(
        ProjectState::Draft,
        &ProjectEvent::JobCompleted
    ));
    assert!(!ProjectStateMachine::can_transition(
        ProjectState::Archived,
        &ProjectEvent::Render
    ));
    assert!(!ProjectStateMachine::can_transition(
        ProjectState::Completed,
        &ProjectEvent::Unarchive
    ));
}

#[test]
fn test_project_has_no_terminal_states() {
    assert!(!ProjectState::Draft.is_terminal());
    assert!(!ProjectState::Rendering.is_terminal());
    assert!(!ProjectState::Completed.is_terminal());
    assert!(!ProjectState::Archived.is_terminal());
}

#[test]
fn test_valid_pending_to_accepted() {
    let ctx = InvitationGuardContext { is_expired: false };
    let result = InvitationStateMachine::transition(
        InvitationState::Pending,
        InvitationEvent::Accept,
        Some(&ctx),
    );
    assert_eq!(result, Ok(InvitationState::Accepted));
}

#[test]
fn test_valid_pending_to_expired() {
    let result = InvitationStateMachine::transition(
        InvitationState::Pending,
        InvitationEvent::Expire,
        None,
    );
    assert_eq!(result, Ok(InvitationState::Expired));
}

#[test]
fn test_valid_pending_to_revoked() {
    let result = InvitationStateMachine::transition(
        InvitationState::Pending,
        InvitationEvent::Revoke,
        None,
    );
    assert_eq!(result, Ok(InvitationState::Revoked));
}

#[test]
fn test_guard_fails_accept_expired_invitation() {
    let ctx = InvitationGuardContext { is_expired: true };
    let result = InvitationStateMachine::transition(
        InvitationState::Pending,
        InvitationEvent::Accept,
        Some(&ctx),
    );
    assert!(matches!(result, Err(StateError::GuardFailed(_))));
}

#[test]
fn test_terminal_accepted_cannot_transition() {
    let result = InvitationStateMachine::transition(
        InvitationState::Accepted,
        InvitationEvent::Revoke,
        None,
    );
    assert!(matches!(result, Err(StateError::TerminalState(_))));
}

#[test]
fn test_terminal_expired_cannot_transition() {
    let result = InvitationStateMachine::transition(
        InvitationState::Expired,
        InvitationEvent::Accept,
        None,
    );
    assert!(matches!(result, Err(StateError::TerminalState(_))));
}

#[test]
fn test_terminal_revoked_cannot_transition() {
    let result = InvitationStateMachine::transition(
        InvitationState::Revoked,
        InvitationEvent::Accept,
        None,
    );
    assert!(matches!(result, Err(StateError::TerminalState(_))));
}

#[test]
fn test_valid_pending_to_declined() {
    let result = InvitationStateMachine::transition(
        InvitationState::Pending,
        InvitationEvent::Decline,
        None,
    );
    assert_eq!(result, Ok(InvitationState::Declined));
}

#[test]
fn test_terminal_declined_cannot_transition() {
    let result = InvitationStateMachine::transition(
        InvitationState::Declined,
        InvitationEvent::Accept,
        None,
    );
    assert!(matches!(result, Err(StateError::TerminalState(_))));
}

#[test]
fn state_test_is_terminal() {
    assert!(!InvitationState::Pending.is_terminal());
    assert!(InvitationState::Accepted.is_terminal());
    assert!(InvitationState::Declined.is_terminal());
    assert!(InvitationState::Expired.is_terminal());
    assert!(InvitationState::Revoked.is_terminal());
}

#[test]
fn test_invitation_valid_transitions() {
    // Kill mutant: InvitationState::valid_transitions -> Vec::leak(Vec::new())
    let pending = InvitationState::Pending.valid_transitions();
    assert!(!pending.is_empty());
    assert_eq!(pending.len(), 4);
    assert!(pending.contains(&InvitationState::Accepted));
    assert!(pending.contains(&InvitationState::Declined));
    assert!(pending.contains(&InvitationState::Expired));
    assert!(pending.contains(&InvitationState::Revoked));

    // Terminal states should have no transitions
    assert!(InvitationState::Accepted.valid_transitions().is_empty());
    assert!(InvitationState::Declined.valid_transitions().is_empty());
    assert!(InvitationState::Expired.valid_transitions().is_empty());
    assert!(InvitationState::Revoked.valid_transitions().is_empty());
}

#[test]
fn test_invitation_can_transition() {
    // Kill mutant: InvitationStateMachine::can_transition -> true / false
    let ctx = InvitationGuardContext { is_expired: false };

    // Valid transitions
    assert!(InvitationStateMachine::can_transition(
        InvitationState::Pending,
        &InvitationEvent::Accept,
        Some(&ctx)
    ));
    assert!(InvitationStateMachine::can_transition(
        InvitationState::Pending,
        &InvitationEvent::Decline,
        None
    ));
    assert!(InvitationStateMachine::can_transition(
        InvitationState::Pending,
        &InvitationEvent::Revoke,
        None
    ));

    // Invalid transitions (from terminal states)
    assert!(!InvitationStateMachine::can_transition(
        InvitationState::Accepted,
        &InvitationEvent::Revoke,
        None
    ));
    assert!(!InvitationStateMachine::can_transition(
        InvitationState::Declined,
        &InvitationEvent::Accept,
        None
    ));
    assert!(!InvitationStateMachine::can_transition(
        InvitationState::Expired,
        &InvitationEvent::Accept,
        None
    ));
}

#[test]
fn test_valid_pending_to_attempting() {
    let result = WebhookDeliveryStateMachine::transition(
        WebhookDeliveryState::Pending,
        WebhookDeliveryEvent::Attempt,
        None,
    );
    assert_eq!(result, Ok(WebhookDeliveryState::Attempting));
}

#[test]
fn test_valid_attempting_to_delivered() {
    let result = WebhookDeliveryStateMachine::transition(
        WebhookDeliveryState::Attempting,
        WebhookDeliveryEvent::Success,
        None,
    );
    assert_eq!(result, Ok(WebhookDeliveryState::Delivered));
}

#[test]
fn test_valid_attempting_to_retrying() {
    let result = WebhookDeliveryStateMachine::transition(
        WebhookDeliveryState::Attempting,
        WebhookDeliveryEvent::Retry,
        None,
    );
    assert_eq!(result, Ok(WebhookDeliveryState::Retrying));
}

#[test]
fn test_valid_attempting_to_failed_permanent() {
    let result = WebhookDeliveryStateMachine::transition(
        WebhookDeliveryState::Attempting,
        WebhookDeliveryEvent::PermanentFailure,
        None,
    );
    assert_eq!(result, Ok(WebhookDeliveryState::Failed));
}

#[test]
fn test_valid_retrying_to_attempting() {
    let ctx = WebhookDeliveryGuardContext {
        attempt_count: 2,
        max_attempts: 5,
    };
    let result = WebhookDeliveryStateMachine::transition(
        WebhookDeliveryState::Retrying,
        WebhookDeliveryEvent::Attempt,
        Some(&ctx),
    );
    assert_eq!(result, Ok(WebhookDeliveryState::Attempting));
}

#[test]
fn test_guard_fails_max_attempts_exceeded() {
    let ctx = WebhookDeliveryGuardContext {
        attempt_count: 5,
        max_attempts: 5,
    };
    let result = WebhookDeliveryStateMachine::transition(
        WebhookDeliveryState::Retrying,
        WebhookDeliveryEvent::Attempt,
        Some(&ctx),
    );
    assert!(matches!(result, Err(StateError::GuardFailed(_))));
}

#[test]
fn test_valid_retrying_to_failed_max_exceeded() {
    let result = WebhookDeliveryStateMachine::transition(
        WebhookDeliveryState::Retrying,
        WebhookDeliveryEvent::MaxAttemptsExceeded,
        None,
    );
    assert_eq!(result, Ok(WebhookDeliveryState::Failed));
}

#[test]
fn test_terminal_delivered_cannot_transition() {
    let result = WebhookDeliveryStateMachine::transition(
        WebhookDeliveryState::Delivered,
        WebhookDeliveryEvent::Retry,
        None,
    );
    assert!(matches!(result, Err(StateError::TerminalState(_))));
}

#[test]
fn state_test_terminal_failed_cannot_transition() {
    let result = WebhookDeliveryStateMachine::transition(
        WebhookDeliveryState::Failed,
        WebhookDeliveryEvent::Attempt,
        None,
    );
    assert!(matches!(result, Err(StateError::TerminalState(_))));
}

#[test]
fn test_webhook_delivery_state_is_terminal() {
    assert!(!WebhookDeliveryState::Pending.is_terminal());
    assert!(!WebhookDeliveryState::Attempting.is_terminal());
    assert!(!WebhookDeliveryState::Retrying.is_terminal());
    assert!(WebhookDeliveryState::Delivered.is_terminal());
    assert!(WebhookDeliveryState::Failed.is_terminal());
}

#[test]
fn test_webhook_delivery_valid_transitions() {
    // Kill mutant: WebhookDeliveryState::valid_transitions -> Vec::leak(Vec::new())
    let pending = WebhookDeliveryState::Pending.valid_transitions();
    assert!(!pending.is_empty());
    assert_eq!(pending.len(), 1);
    assert!(pending.contains(&WebhookDeliveryState::Attempting));

    let attempting = WebhookDeliveryState::Attempting.valid_transitions();
    assert!(!attempting.is_empty());
    assert_eq!(attempting.len(), 3);

    let retrying = WebhookDeliveryState::Retrying.valid_transitions();
    assert!(!retrying.is_empty());
    assert_eq!(retrying.len(), 2);

    // Terminal states
    assert!(WebhookDeliveryState::Delivered
        .valid_transitions()
        .is_empty());
    assert!(WebhookDeliveryState::Failed.valid_transitions().is_empty());
}

#[test]
fn test_webhook_delivery_can_transition() {
    // Kill mutant: WebhookDeliveryStateMachine::can_transition -> true / false
    // Valid transitions
    assert!(WebhookDeliveryStateMachine::can_transition(
        WebhookDeliveryState::Pending,
        &WebhookDeliveryEvent::Attempt,
        None
    ));
    assert!(WebhookDeliveryStateMachine::can_transition(
        WebhookDeliveryState::Attempting,
        &WebhookDeliveryEvent::Success,
        None
    ));

    // Invalid transitions
    assert!(!WebhookDeliveryStateMachine::can_transition(
        WebhookDeliveryState::Delivered,
        &WebhookDeliveryEvent::Retry,
        None
    ));
    assert!(!WebhookDeliveryStateMachine::can_transition(
        WebhookDeliveryState::Failed,
        &WebhookDeliveryEvent::Attempt,
        None
    ));
    assert!(!WebhookDeliveryStateMachine::can_transition(
        WebhookDeliveryState::Pending,
        &WebhookDeliveryEvent::Success,
        None
    ));
}
