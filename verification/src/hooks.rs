//! Webhooks and their deliveries, usage records and system assets.

use vstd::prelude::*;
use vstd::utf8::{is_ascii_chars, is_ascii_chars_encode_utf8};

use crate::error::{validation, validation_error, Error, ErrorKind};
use crate::ids::{
    is_lower_hex_digit, lemma_uuid_hex_form, lemma_uuid_text_without_hyphens, new_uuid_v4, now_micros, spec_uuid_text,
    uuid_text,
};
use crate::roles::{SystemAssetCategory, WebhookDeliveryStatus};
use crate::state::{
    webhook_transition_spec, WebhookDeliveryEvent, WebhookDeliveryGuardContext, WebhookDeliveryState,
    WebhookDeliveryStateMachine,
};
use crate::text::{byte_len, chars_of, has_prefix, remove_char, remove_char_spec, starts_with, text_eq};
use crate::urn::{urn_parse_spec, urn_valid, Urn};
use crate::users::{map_state_error, mapped_transition};

verus! {

// ============================================================================
// Webhook
// ============================================================================

/// Webhook entity
#[derive(Debug, Clone)]
pub struct Webhook {
    pub id: u128,
    pub team_id: u128,
    pub created_by: u128,
    pub url: String,
    pub events: Vec<String>,
    pub secret: String,
    pub is_active: bool,
    pub last_triggered_at: Option<i64>,
    pub created_at: i64,
    pub updated_at: i64,
}

/// Whether `e` is an event that webhooks can subscribe to.
pub open spec fn valid_webhook_event(e: Seq<char>) -> bool {
    e == "job.queued"@ || e == "job.started"@ || e == "job.progress"@ || e == "job.completed"@ || e
        == "job.failed"@ || e == "job.canceled"@
}

/// The index of the first event that is not valid, searching from `i`.
pub open spec fn first_invalid_event_from(events: Seq<Seq<char>>, i: int) -> Option<int>
    decreases events.len() - i,
{
    if i >= events.len() || i < 0 {
        None
    } else if !valid_webhook_event(events[i]) {
        Some(i)
    } else {
        first_invalid_event_from(events, i + 1)
    }
}

/// The message a webhook is refused with, if it is refused.
pub open spec fn webhook_error(url: Seq<char>, events: Seq<Seq<char>>) -> Option<Seq<char>> {
    if !has_prefix(url, "https://"@) {
        Some("Webhook URL must be HTTPS"@)
    } else if byte_len(url) > 2048 {
        Some("URL must be ≤2048 characters"@)
    } else if events.len() == 0 {
        Some("Must subscribe to at least one event"@)
    } else {
        match first_invalid_event_from(events, 0) {
            Some(i) => Some("Invalid event: "@ + events[i]),
            None => None,
        }
    }
}

pub open spec fn string_views(v: Seq<String>) -> Seq<Seq<char>> {
    v.map_values(|s: String| s@)
}

fn is_valid_webhook_event(e: &str) -> (r: bool)
    ensures
        r == valid_webhook_event(e@),
{
    text_eq(e, "job.queued") || text_eq(e, "job.started") || text_eq(e, "job.progress") || text_eq(e, "job.completed")
        || text_eq(e, "job.failed") || text_eq(e, "job.canceled")
}

proof fn lemma_first_invalid_skip(events: Seq<Seq<char>>, i: int)
    requires
        0 <= i < events.len(),
        valid_webhook_event(events[i]),
    ensures
        first_invalid_event_from(events, i) == first_invalid_event_from(events, i + 1),
{
}

fn check_webhook(url: &str, events: &Vec<String>) -> (r: Result<(), Error>)
    ensures
        match r {
            Ok(()) => webhook_error(url@, string_views(events@)) is None,
            Err(e) => e@.0 == ErrorKind::Validation && webhook_error(url@, string_views(events@)) == Some(e@.1),
        },
{
    if !starts_with(url, "https://") {
        return Err(validation_error("Webhook URL must be HTTPS"));
    }
    if url.len() > 2048 {
        return Err(validation_error("URL must be ≤2048 characters"));
    }
    if events.len() == 0 {
        return Err(validation_error("Must subscribe to at least one event"));
    }
    let ghost ev = string_views(events@);
    let mut i: usize = 0;
    while i < events.len()
        invariant
            i <= events.len(),
            ev == string_views(events@),
            has_prefix(url@, "https://"@),
            byte_len(url@) <= 2048,
            events.len() > 0,
            first_invalid_event_from(ev, 0) == first_invalid_event_from(ev, i as int),
        decreases events.len() - i,
    {
        assert(ev[i as int] == events@[i as int]@);
        if !is_valid_webhook_event(events[i].as_str()) {
            let mut m = String::from_str("Invalid event: ");
            m.append(events[i].as_str());
            assert(first_invalid_event_from(ev, i as int) == Some(i as int));
            return Err(Error::Validation(m));
        }
        proof {
            lemma_first_invalid_skip(ev, i as int);
        }
        i = i + 1;
    }
    Ok(())
}

/// The signing secret generated from a UUID: its hex digits without hyphens.
pub open spec fn generated_secret(id: u128) -> Seq<char> {
    remove_char_spec(spec_uuid_text(id), '-')
}

impl Webhook {
    /// The events webhooks can subscribe to.
    pub fn valid_events() -> (r: Vec<&'static str>)
        ensures
            r@ == seq!["job.queued", "job.started", "job.progress", "job.completed", "job.failed", "job.canceled"],
            forall|i: int| 0 <= i < 6 ==> valid_webhook_event(#[trigger] r@[i]@),
    {
        vec!["job.queued", "job.started", "job.progress", "job.completed", "job.failed", "job.canceled"]
    }

    /// Create a new webhook with validation, with a fresh id and signing secret.
    pub fn new(team_id: u128, created_by: u128, url: String, events: Vec<String>) -> (r: Result<Webhook, Error>)
        ensures
            match r {
                Ok(w) => {
                    &&& webhook_error(url@, string_views(events@)) is None
                    &&& w.team_id == team_id && w.created_by == created_by && w.url@ == url@
                    &&& w.events@ == events@ && w.is_active && w.last_triggered_at is None
                    &&& exists|id: u128| w.secret@ == generated_secret(id)
                    &&& w.secret@.len() == 32
                    &&& forall|i: int| 0 <= i < 32 ==> is_lower_hex_digit(#[trigger] w.secret@[i])
                    &&& w.created_at == w.updated_at
                },
                Err(e) => e@.0 == ErrorKind::Validation && webhook_error(url@, string_views(events@)) == Some(e@.1),
            },
    {
        match check_webhook(url.as_str(), &events) {
            Ok(()) => {},
            Err(e) => {
                return Err(e);
            },
        }
        let secret_id = new_uuid_v4();
        let text = uuid_text(secret_id);
        let secret = remove_char(text.as_str(), '-');
        assert(secret@ == generated_secret(secret_id));
        proof {
            lemma_uuid_text_without_hyphens(secret_id);
            lemma_uuid_hex_form(secret_id);
        }
        let now = now_micros();
        Ok(Webhook {
            id: new_uuid_v4(),
            team_id,
            created_by,
            url,
            events,
            secret,
            is_active: true,
            last_triggered_at: None,
            created_at: now,
            updated_at: now,
        })
    }

    /// Validate the webhook's invariants.
    pub fn validate(&self) -> (r: Result<(), Error>)
        ensures
            match r {
                Ok(()) => webhook_error(self.url@, string_views(self.events@)) is None,
                Err(e) => e@.0 == ErrorKind::Validation && webhook_error(self.url@, string_views(self.events@))
                    == Some(e@.1),
            },
    {
        check_webhook(self.url.as_str(), &self.events)
    }
}

// ============================================================================
// Webhook delivery
// ============================================================================

/// Webhook delivery entity
#[derive(Debug, Clone)]
pub struct WebhookDelivery {
    pub id: u128,
    pub webhook_id: u128,
    pub job_id: Option<u128>,
    pub event_type: String,
    pub status: WebhookDeliveryStatus,
    pub payload: serde_json::Value,
    pub response_status: Option<i32>,
    pub response_body: Option<String>,
    pub attempts: i32,
    pub max_attempts: i32,
    pub next_retry_at: Option<i64>,
    pub delivered_at: Option<i64>,
    pub created_at: i64,
}

/// The message a delivery is refused with, if it breaks an invariant.
pub open spec fn delivery_invariant_error(d: WebhookDelivery) -> Option<Seq<char>> {
    if d.attempts > d.max_attempts {
        Some("Attempts cannot exceed maximum"@)
    } else if d.status is Delivered && d.delivered_at is None {
        Some("Delivered webhooks must have delivery timestamp"@)
    } else {
        None
    }
}

pub open spec fn delivery_invalid_prefix() -> Seq<char> {
    "Invalid webhook delivery transition: cannot apply '"@
}

pub open spec fn delivery_terminal_prefix() -> Seq<char> {
    "Webhook delivery is in terminal state '"@
}

/// The guard context of a delivery: its attempt count and limit as unsigned numbers.
pub open spec fn delivery_context(d: WebhookDelivery) -> WebhookDeliveryGuardContext {
    WebhookDeliveryGuardContext { attempt_count: d.attempts as u32, max_attempts: d.max_attempts as u32 }
}

/// The outcome of applying `event` to a delivery.
pub open spec fn delivery_apply_spec(d: WebhookDelivery, event: WebhookDeliveryEvent) -> Result<
    WebhookDeliveryState,
    (ErrorKind, Seq<char>),
> {
    mapped_transition(
        webhook_transition_spec(d.status.spec_to_state(), event, Some(&delivery_context(d))),
        delivery_invalid_prefix(),
        delivery_terminal_prefix(),
    )
}

pub open spec fn opt_string_view(o: Option<String>) -> Option<Seq<char>> {
    match o {
        Some(s) => Some(s@),
        None => None,
    }
}

impl WebhookDelivery {
    /// Create a new pending delivery with a fresh id, allowing five attempts.
    pub fn new(webhook_id: u128, job_id: Option<u128>, event_type: String, payload: serde_json::Value) -> (r: Self)
        ensures
            r.webhook_id == webhook_id && r.job_id == job_id && r.event_type@ == event_type@ && r.payload == payload,
            r.status == WebhookDeliveryStatus::Pending && r.attempts == 0 && r.max_attempts == 5,
            r.response_status is None && r.response_body is None && r.next_retry_at is None && r.delivered_at is None,
    {
        WebhookDelivery {
            id: new_uuid_v4(),
            webhook_id,
            job_id,
            event_type,
            status: WebhookDeliveryStatus::Pending,
            payload,
            response_status: None,
            response_body: None,
            attempts: 0,
            max_attempts: 5,
            next_retry_at: None,
            delivered_at: None,
            created_at: now_micros(),
        }
    }

    /// Validate the delivery's invariants.
    pub fn validate(&self) -> (r: Result<(), Error>)
        ensures
            match r {
                Ok(()) => delivery_invariant_error(*self) is None,
                Err(e) => e@.0 == ErrorKind::Validation && delivery_invariant_error(*self) == Some(e@.1),
            },
    {
        if self.attempts > self.max_attempts {
            return Err(validation_error("Attempts cannot exceed maximum"));
        }
        if let WebhookDeliveryStatus::Delivered = self.status {
            if self.delivered_at.is_none() {
                return Err(validation_error("Delivered webhooks must have delivery timestamp"));
            }
        }
        Ok(())
    }

    /// Apply a state transition using the state machine, guarded by the attempt count.
    fn apply_transition(&self, event: WebhookDeliveryEvent) -> (r: Result<WebhookDeliveryState, Error>)
        ensures
            match r {
                Ok(s) => delivery_apply_spec(*self, event) == Ok::<WebhookDeliveryState, (ErrorKind, Seq<char>)>(s),
                Err(e) => delivery_apply_spec(*self, event) == Err::<WebhookDeliveryState, (ErrorKind, Seq<char>)>(
                    e@,
                ),
            },
    {
        let context = WebhookDeliveryGuardContext {
            attempt_count: self.attempts as u32,
            max_attempts: self.max_attempts as u32,
        };
        match WebhookDeliveryStateMachine::transition(self.status.to_state(), event, Some(&context)) {
            Ok(s) => Ok(s),
            Err(e) => Err(map_state_error(
                e,
                "Invalid webhook delivery transition: cannot apply '",
                "Webhook delivery is in terminal state '",
            )),
        }
    }

    /// Start an attempt to deliver the webhook.
    pub fn start_attempt(&mut self) -> (r: Result<(), Error>)
        requires
            old(self).attempts < i32::MAX,
        ensures
            match delivery_apply_spec(*old(self), WebhookDeliveryEvent::Attempt) {
                Ok(s) => r is Ok && *final(self) == (WebhookDelivery {
                    status: WebhookDeliveryStatus::spec_from_state(s),
                    attempts: (old(self).attempts + 1) as i32,
                    ..*old(self)
                }),
                Err(e) => r is Err && r->Err_0@ == e && *final(self) == *old(self),
            },
    {
        let new_state = match self.apply_transition(WebhookDeliveryEvent::Attempt) {
            Ok(s) => s,
            Err(e) => {
                return Err(e);
            },
        };
        self.status = WebhookDeliveryStatus::from_state(new_state);
        self.attempts = self.attempts + 1;
        Ok(())
    }

    /// Mark the delivery as successful (2xx response).
    pub fn mark_delivered(&mut self, response_status: i32, response_body: Option<String>) -> (r: Result<(), Error>)
        ensures
            match delivery_apply_spec(*old(self), WebhookDeliveryEvent::Success) {
                Ok(s) => r is Ok && final(self).status == WebhookDeliveryStatus::spec_from_state(s)
                    && final(self).response_status == Some(response_status)
                    && opt_string_view(final(self).response_body) == opt_string_view(response_body)
                    && final(self).delivered_at is Some && final(self).next_retry_at is None
                    && final(self).attempts == old(self).attempts && final(self).max_attempts == old(self).max_attempts
                    && final(self).id == old(self).id,
                Err(e) => r is Err && r->Err_0@ == e && *final(self) == *old(self),
            },
    {
        let new_state = match self.apply_transition(WebhookDeliveryEvent::Success) {
            Ok(s) => s,
            Err(e) => {
                return Err(e);
            },
        };
        self.status = WebhookDeliveryStatus::from_state(new_state);
        self.response_status = Some(response_status);
        self.response_body = response_body;
        self.delivered_at = Some(now_micros());
        self.next_retry_at = None;
        Ok(())
    }

    /// Mark the delivery for retry (5xx response or timeout).
    pub fn mark_for_retry(
        &mut self,
        response_status: Option<i32>,
        response_body: Option<String>,
        next_retry_at: i64,
    ) -> (r: Result<(), Error>)
        ensures
            match delivery_apply_spec(*old(self), WebhookDeliveryEvent::Retry) {
                Ok(s) => r is Ok && *final(self) == (WebhookDelivery {
                    status: WebhookDeliveryStatus::spec_from_state(s),
                    response_status,
                    response_body: final(self).response_body,
                    next_retry_at: Some(next_retry_at),
                    ..*old(self)
                }) && opt_string_view(final(self).response_body) == opt_string_view(response_body),
                Err(e) => r is Err && r->Err_0@ == e && *final(self) == *old(self),
            },
    {
        let new_state = match self.apply_transition(WebhookDeliveryEvent::Retry) {
            Ok(s) => s,
            Err(e) => {
                return Err(e);
            },
        };
        self.status = WebhookDeliveryStatus::from_state(new_state);
        self.response_status = response_status;
        self.response_body = response_body;
        self.next_retry_at = Some(next_retry_at);
        Ok(())
    }

    /// Mark the delivery as permanently failed (4xx response).
    pub fn mark_failed_permanent(&mut self, response_status: i32, response_body: Option<String>) -> (r: Result<(), Error>)
        ensures
            match delivery_apply_spec(*old(self), WebhookDeliveryEvent::PermanentFailure) {
                Ok(s) => r is Ok && *final(self) == (WebhookDelivery {
                    status: WebhookDeliveryStatus::spec_from_state(s),
                    response_status: Some(response_status),
                    response_body: final(self).response_body,
                    next_retry_at: None,
                    ..*old(self)
                }) && opt_string_view(final(self).response_body) == opt_string_view(response_body),
                Err(e) => r is Err && r->Err_0@ == e && *final(self) == *old(self),
            },
    {
        let new_state = match self.apply_transition(WebhookDeliveryEvent::PermanentFailure) {
            Ok(s) => s,
            Err(e) => {
                return Err(e);
            },
        };
        self.status = WebhookDeliveryStatus::from_state(new_state);
        self.response_status = Some(response_status);
        self.response_body = response_body;
        self.next_retry_at = None;
        Ok(())
    }

    /// Mark the delivery as failed because its attempts ran out.
    pub fn mark_failed_max_attempts(&mut self) -> (r: Result<(), Error>)
        ensures
            match delivery_apply_spec(*old(self), WebhookDeliveryEvent::MaxAttemptsExceeded) {
                Ok(s) => r is Ok && *final(self) == (WebhookDelivery {
                    status: WebhookDeliveryStatus::spec_from_state(s),
                    next_retry_at: None,
                    ..*old(self)
                }),
                Err(e) => r is Err && r->Err_0@ == e && *final(self) == *old(self),
            },
    {
        let new_state = match self.apply_transition(WebhookDeliveryEvent::MaxAttemptsExceeded) {
            Ok(s) => s,
            Err(e) => {
                return Err(e);
            },
        };
        self.status = WebhookDeliveryStatus::from_state(new_state);
        self.next_retry_at = None;
        Ok(())
    }

    /// Check if a transition is valid without applying it
    pub fn can_transition(&self, event: &WebhookDeliveryEvent) -> (r: bool)
        ensures
            r == delivery_apply_spec(*self, *event) is Ok,
    {
        let context = WebhookDeliveryGuardContext {
            attempt_count: self.attempts as u32,
            max_attempts: self.max_attempts as u32,
        };
        WebhookDeliveryStateMachine::can_transition(self.status.to_state(), event, Some(&context))
    }
}

/// A retrying delivery that has used up its attempts cannot start another,
/// and a delivery's attempts never pass its limit through `start_attempt`
/// when they start within it.
pub proof fn lemma_delivery_attempts_bounded(d: WebhookDelivery)
    requires
        0 <= d.attempts,
        0 <= d.max_attempts,
        d.status is Retrying,
    ensures
        d.attempts >= d.max_attempts ==> delivery_apply_spec(d, WebhookDeliveryEvent::Attempt) is Err,
        delivery_apply_spec(d, WebhookDeliveryEvent::Attempt) is Ok ==> d.attempts + 1 <= d.max_attempts,
{
}

// ============================================================================
// Usage
// ============================================================================

/// Usage entity for billing metrics
#[derive(Debug, Clone)]
pub struct Usage {
    pub id: u128,
    /// The owner's URN text
    pub owner: String,
    /// Format: YYYY-MM
    pub period: String,
    pub renders_count: i32,
    pub render_seconds: i32,
    pub credits_used: i32,
    pub credits_refunded: i32,
    pub api_calls: i32,
    pub updated_at: i64,
}

pub open spec fn ascii_digit(c: char) -> bool {
    '0' <= c && c <= '9'
}

/// Whether a period is a year of four digits, a hyphen and a month 01-12.
pub open spec fn period_format_ok(p: Seq<char>) -> bool {
    &&& p.len() == 7
    &&& ascii_digit(p[0]) && ascii_digit(p[1]) && ascii_digit(p[2]) && ascii_digit(p[3])
    &&& p[4] == '-'
    &&& ((p[5] == '0' && '1' <= p[6] && p[6] <= '9') || (p[5] == '1' && '0' <= p[6] && p[6] <= '2'))
}

/// Whether a period text is accepted: seven bytes of the `YYYY-MM` form.
pub open spec fn period_ok(p: Seq<char>) -> bool {
    byte_len(p) == 7 && period_format_ok(p)
}

/// Every month of every four-digit year is an accepted usage period: the year,
/// a hyphen, and the month as two digits, from `01` to `12`.
pub proof fn lemma_period_months(y: Seq<char>, m: int)
    requires
        y.len() == 4,
        forall|k: int| 0 <= k < 4 ==> '0' <= #[trigger] y[k] <= '9',
        1 <= m <= 12,
    ensures
        period_ok(y + seq!['-', ('0' as int + m / 10) as char, ('0' as int + m % 10) as char]),
{
    let p = y + seq!['-', ('0' as int + m / 10) as char, ('0' as int + m % 10) as char];
    assert(p[0] == y[0] && p[1] == y[1] && p[2] == y[2] && p[3] == y[3]);
    assert(p.len() == 7);
    assert(is_ascii_chars(p)) by {
        assert forall|k: int| 0 <= k < p.len() implies '\0' <= #[trigger] p[k] <= '\u{7f}' by {
            if k < 4 {
                assert(p[k] == y[k]);
            }
        }
    }
    is_ascii_chars_encode_utf8(p);
}

/// An accepted usage period is a four-digit year, a hyphen and a two-digit
/// month from 1 to 12; nothing else is accepted.
pub proof fn lemma_period_form(p: Seq<char>)
    requires
        period_ok(p),
    ensures
        p.len() == 7,
        forall|k: int| 0 <= k < 4 ==> '0' <= #[trigger] p[k] <= '9',
        p[4] == '-',
        '0' <= p[5] <= '9' && '0' <= p[6] <= '9',
        1 <= (p[5] as int - '0' as int) * 10 + (p[6] as int - '0' as int) <= 12,
{
}

fn check_period(p: &str) -> (r: bool)
    ensures
        r == period_ok(p@),
{
    if p.len() != 7 {
        return false;
    }
    let cs = chars_of(p);
    if cs.len() != 7 {
        return false;
    }
    let d = |c: char| -> (b: bool)
        ensures
            b == ascii_digit(c),
        { '0' <= c && c <= '9' };
    d(cs[0]) && d(cs[1]) && d(cs[2]) && d(cs[3]) && cs[4] == '-' && ((cs[5] == '0' && '1' <= cs[6] && cs[6] <= '9')
        || (cs[5] == '1' && '0' <= cs[6] && cs[6] <= '2'))
}

/// The message a usage record is refused with by `validate`, if it is refused.
pub open spec fn usage_invariant_error(u: Usage) -> Option<Seq<char>> {
    if !period_ok(u.period@) {
        Some("Period format must be YYYY-MM"@)
    } else if u.renders_count < 0 || u.credits_used < 0 || u.api_calls < 0 {
        Some("Usage counts cannot be negative"@)
    } else {
        None
    }
}

impl Usage {
    /// Create a new usage record for `owner` and a `YYYY-MM` period.
    pub fn new(owner: &Urn, period: String) -> (r: Result<Usage, Error>)
        ensures
            !period_ok(period@) ==> r is Err && r->Err_0@ == validation("Period must be YYYY-MM format"@),
            period_ok(period@) ==> r is Ok,
            r matches Ok(u) ==> u.owner@ == owner@ && u.period@ == period@ && u.renders_count == 0
                && u.render_seconds == 0 && u.credits_used == 0 && u.credits_refunded == 0 && u.api_calls == 0,
    {
        if !check_period(period.as_str()) {
            return Err(validation_error("Period must be YYYY-MM format"));
        }
        Ok(Usage {
            id: new_uuid_v4(),
            owner: owner.to_string(),
            period,
            renders_count: 0,
            render_seconds: 0,
            credits_used: 0,
            credits_refunded: 0,
            api_calls: 0,
            updated_at: now_micros(),
        })
    }

    /// Net credits (used - refunded)
    pub fn net_credits(&self) -> (r: i32)
        requires
            i32::MIN <= self.credits_used - self.credits_refunded <= i32::MAX,
        ensures
            r == self.credits_used - self.credits_refunded,
    {
        self.credits_used - self.credits_refunded
    }

    /// The owner's URN
    pub fn owner_urn(&self) -> (r: Result<Urn, Error>)
        ensures
            match r {
                Ok(u) => u@ == self.owner@ && urn_valid(self.owner@),
                Err(e) => urn_parse_spec(self.owner@) is Err && e@ == urn_parse_spec(self.owner@)->Err_0,
            },
    {
        Urn::new(self.owner.as_str())
    }

    /// Validate the usage record's invariants.
    pub fn validate(&self) -> (r: Result<(), Error>)
        ensures
            match r {
                Ok(()) => usage_invariant_error(*self) is None,
                Err(e) => e@.0 == ErrorKind::Validation && usage_invariant_error(*self) == Some(e@.1),
            },
    {
        if !check_period(self.period.as_str()) {
            return Err(validation_error("Period format must be YYYY-MM"));
        }
        if self.renders_count < 0 || self.credits_used < 0 || self.api_calls < 0 {
            return Err(validation_error("Usage counts cannot be negative"));
        }
        Ok(())
    }
}

// ============================================================================
// System asset
// ============================================================================

/// System asset entity for pre-loaded assets
#[derive(Debug, Clone)]
pub struct SystemAsset {
    /// Format: asset_{category}_{name}
    pub id: String,
    pub category: SystemAssetCategory,
    pub name: String,
    pub description: String,
    pub duration_seconds: Option<rust_decimal::Decimal>,
    pub s3_key: String,
    pub content_type: String,
    pub size_bytes: i64,
    pub tags: Vec<String>,
    pub created_at: i64,
}

/// A character allowed in the name part of an asset id: `a-z`, `0-9` or `_`.
pub open spec fn asset_name_char(c: char) -> bool {
    ('a' <= c && c <= 'z') || ('0' <= c && c <= '9') || c == '_'
}

/// Whether `id` is `prefix` followed by at least one name character and nothing else.
pub open spec fn asset_id_with_prefix(id: Seq<char>, prefix: Seq<char>) -> bool {
    &&& has_prefix(id, prefix)
    &&& id.len() > prefix.len()
    &&& forall|i: int| prefix.len() <= i < id.len() ==> asset_name_char(#[trigger] id[i])
}

/// Whether a system asset id has the form `asset_{sfx|ambient|music|transition}_{[a-z0-9_]+}`.
pub open spec fn asset_id_ok(id: Seq<char>) -> bool {
    asset_id_with_prefix(id, "asset_sfx_"@) || asset_id_with_prefix(id, "asset_ambient_"@) || asset_id_with_prefix(
        id,
        "asset_music_"@,
    ) || asset_id_with_prefix(id, "asset_transition_"@)
}

/// The message a system asset is refused with, if it is refused.
pub open spec fn system_asset_error(id: Seq<char>, description: Seq<char>) -> Option<Seq<char>> {
    if !asset_id_ok(id) {
        Some("Invalid system asset ID format"@)
    } else if byte_len(description) > 500 {
        Some("Description must be ≤500 characters"@)
    } else {
        None
    }
}

/// The id of the asset named `name` in `category`.
pub open spec fn asset_id_for(category: SystemAssetCategory, name: Seq<char>) -> Seq<char> {
    "asset_"@ + category.spec_label() + "_"@ + name
}

fn check_asset_id_with_prefix(id: &str, prefix: &str) -> (r: bool)
    ensures
        r == asset_id_with_prefix(id@, prefix@),
{
    if !starts_with(id, prefix) {
        return false;
    }
    let cs = chars_of(id);
    let n = prefix.unicode_len();
    if cs.len() <= n {
        return false;
    }
    let mut i: usize = n;
    while i < cs.len()
        invariant
            cs@ == id@,
            n == prefix@.len(),
            n <= i <= cs.len(),
            forall|j: int| n <= j < i ==> asset_name_char(#[trigger] id@[j]),
        decreases cs.len() - i,
    {
        let c = cs[i];
        if !(('a' <= c && c <= 'z') || ('0' <= c && c <= '9') || c == '_') {
            assert(!asset_name_char(id@[i as int]));
            return false;
        }
        i = i + 1;
    }
    true
}

fn check_system_asset(id: &str, description: &str) -> (r: Result<(), Error>)
    ensures
        match r {
            Ok(()) => system_asset_error(id@, description@) is None,
            Err(e) => e@.0 == ErrorKind::Validation && system_asset_error(id@, description@) == Some(e@.1),
        },
{
    let ok = check_asset_id_with_prefix(id, "asset_sfx_") || check_asset_id_with_prefix(id, "asset_ambient_")
        || check_asset_id_with_prefix(id, "asset_music_") || check_asset_id_with_prefix(id, "asset_transition_");
    if !ok {
        return Err(validation_error("Invalid system asset ID format"));
    }
    if description.len() > 500 {
        return Err(validation_error("Description must be ≤500 characters"));
    }
    Ok(())
}

impl SystemAsset {
    /// Create a new system asset with validation; its id is `asset_{category}_{name}`.
    pub fn new(
        category: SystemAssetCategory,
        name: String,
        description: String,
        s3_key: String,
        content_type: String,
        size_bytes: i64,
        duration_seconds: Option<rust_decimal::Decimal>,
        tags: Vec<String>,
    ) -> (r: Result<SystemAsset, Error>)
        ensures
            match r {
                Ok(a) => {
                    &&& system_asset_error(asset_id_for(category, name@), description@) is None
                    &&& a.id@ == asset_id_for(category, name@) && a.category == category && a.name@ == name@
                    &&& a.description@ == description@ && a.s3_key@ == s3_key@ && a.content_type@ == content_type@
                    &&& a.size_bytes == size_bytes && a.duration_seconds == duration_seconds && a.tags@ == tags@
                },
                Err(e) => e@.0 == ErrorKind::Validation && system_asset_error(asset_id_for(category, name@), description@)
                    == Some(e@.1),
            },
    {
        let mut id = String::from_str("asset_");
        id.append(category.as_str());
        id.append("_");
        id.append(name.as_str());
        match check_system_asset(id.as_str(), description.as_str()) {
            Ok(()) => {},
            Err(e) => {
                return Err(e);
            },
        }
        Ok(SystemAsset {
            id,
            category,
            name,
            description,
            duration_seconds,
            s3_key,
            content_type,
            size_bytes,
            tags,
            created_at: now_micros(),
        })
    }

    /// Validate the system asset's invariants.
    pub fn validate(&self) -> (r: Result<(), Error>)
        ensures
            match r {
                Ok(()) => system_asset_error(self.id@, self.description@) is None,
                Err(e) => e@.0 == ErrorKind::Validation && system_asset_error(self.id@, self.description@) == Some(e@.1),
            },
    {
        check_system_asset(self.id.as_str(), self.description.as_str())
    }
}

} // verus!
