//! Email: messages with tracking metadata, delivery receipts, the service
//! configuration and factory, and a mock service that captures what it sends.
//!
//! Delivery through a mail provider happens at the edge of the service; the
//! messages it delivers are composed here.

use vstd::prelude::*;

use crate::ids::{lemma_uuid_text_form, new_uuid_v4, now_micros, spec_uuid_text, uuid_text};
use crate::mail_templates::{team_invitation_html, team_invitation_html_spec, team_invitation_text, team_invitation_text_spec};
use crate::settings::{opt_text, pair_views, EnvVars};
use crate::text::{contains_char, has_prefix, text_eq};

verus! {

/// Why an email could not be sent.
#[derive(Debug, Clone)]
pub enum EmailError {
    Configuration(String),
    Validation(String),
    AwsSes(String),
}

impl EmailError {
    pub open spec fn spec_message(&self) -> Seq<char> {
        match self {
            EmailError::Configuration(m) => "Email configuration error: "@ + m@,
            EmailError::Validation(m) => "Email validation error: "@ + m@,
            EmailError::AwsSes(m) => "AWS SES error: "@ + m@,
        }
    }

    /// The error's message.
    pub fn to_string(&self) -> (s: String)
        ensures
            s@ == self.spec_message(),
    {
        let (prefix, m) = match self {
            EmailError::Configuration(m) => ("Email configuration error: ", m),
            EmailError::Validation(m) => ("Email validation error: ", m),
            EmailError::AwsSes(m) => ("AWS SES error: ", m),
        };
        let mut s = String::from_str(prefix);
        s.append(m.as_str());
        s
    }
}

// ----- metadata -----

/// The pairs without those whose key is `key`, in order.
pub open spec fn drop_key(p: Seq<(Seq<char>, Seq<char>)>, key: Seq<char>) -> Seq<(Seq<char>, Seq<char>)>
    decreases p.len(),
{
    if p.len() == 0 {
        p
    } else {
        let rest = drop_key(p.drop_last(), key);
        if p.last().0 == key {
            rest
        } else {
            rest.push(p.last())
        }
    }
}

/// The value of the last pair whose key is `key`.
pub open spec fn meta_get(p: Seq<(Seq<char>, Seq<char>)>, key: Seq<char>) -> Option<Seq<char>>
    decreases p.len(),
{
    if p.len() == 0 {
        None
    } else if p.last().0 == key {
        Some(p.last().1)
    } else {
        meta_get(p.drop_last(), key)
    }
}

/// The map that metadata pairs stand for.
pub open spec fn metadata_of(p: Seq<(Seq<char>, Seq<char>)>) -> Map<Seq<char>, Seq<char>> {
    Map::new(|k: Seq<char>| meta_get(p, k) is Some, |k: Seq<char>| meta_get(p, k)->Some_0)
}

proof fn lemma_drop_key_get(p: Seq<(Seq<char>, Seq<char>)>, key: Seq<char>, k: Seq<char>)
    ensures
        meta_get(drop_key(p, key), k) == (if k == key {
            None
        } else {
            meta_get(p, k)
        }),
    decreases p.len(),
{
    if p.len() > 0 {
        lemma_drop_key_get(p.drop_last(), key, k);
        let rest = drop_key(p.drop_last(), key);
        if p.last().0 != key {
            assert(rest.push(p.last()).drop_last() =~= rest);
        }
    }
}

/// Setting a key replaces its value and leaves every other key as it was:
/// metadata behaves as a map under insertion.
pub proof fn lemma_metadata_insert(p: Seq<(Seq<char>, Seq<char>)>, key: Seq<char>, value: Seq<char>)
    ensures
        metadata_of(drop_key(p, key).push((key, value))) == metadata_of(p).insert(key, value),
{
    let q = drop_key(p, key).push((key, value));
    assert forall|k: Seq<char>| #[trigger] meta_get(q, k) == (if k == key {
        Some(value)
    } else {
        meta_get(p, k)
    }) by {
        assert(q.drop_last() =~= drop_key(p, key));
        lemma_drop_key_get(p, key, k);
    }
    assert(metadata_of(q) =~= metadata_of(p).insert(key, value));
}

fn copy_text(s: &String) -> (r: String)
    ensures
        r@ == s@,
{
    String::from_str(s.as_str())
}

fn copy_pairs(v: &Vec<(String, String)>) -> (r: Vec<(String, String)>)
    ensures
        pair_views(r@) == pair_views(v@),
{
    let mut out: Vec<(String, String)> = Vec::new();
    let mut i: usize = 0;
    while i < v.len()
        invariant
            i <= v.len(),
            pair_views(out@) == pair_views(v@.subrange(0, i as int)),
        decreases v.len() - i,
    {
        let pair = (copy_text(&v[i].0), copy_text(&v[i].1));
        let ghost prev = out@;
        out.push(pair);
        proof {
            assert(v@.subrange(0, i as int + 1) =~= v@.subrange(0, i as int).push(v@[i as int]));
            assert(pair_views(out@) =~= pair_views(prev).push((pair.0@, pair.1@)));
            assert(pair_views(v@.subrange(0, i as int + 1)) =~= pair_views(v@.subrange(0, i as int)).push(
                (v@[i as int].0@, v@[i as int].1@),
            ));
        }
        i = i + 1;
    }
    assert(v@.subrange(0, v.len() as int) =~= v@);
    out
}

// ----- messages -----

/// An email message to be sent, with metadata for tracking.
/// Whether no key occurs twice among the pairs.
pub open spec fn keys_distinct(p: Seq<(Seq<char>, Seq<char>)>) -> bool {
    forall|i: int, j: int| 0 <= i < j < p.len() ==> #[trigger] p[i].0 != #[trigger] p[j].0
}

proof fn lemma_meta_get_occurs(p: Seq<(Seq<char>, Seq<char>)>, k: Seq<char>)
    ensures
        (meta_get(p, k) is Some) <==> (exists|i: int| 0 <= i < p.len() && #[trigger] p[i].0 == k),
    decreases p.len(),
{
    if p.len() > 0 {
        lemma_meta_get_occurs(p.drop_last(), k);
        if exists|i: int| 0 <= i < p.len() && #[trigger] p[i].0 == k {
            let i = choose|i: int| 0 <= i < p.len() && #[trigger] p[i].0 == k;
            if i < p.len() - 1 {
                assert(p.drop_last()[i].0 == k);
            }
        }
        if exists|i: int| 0 <= i < p.drop_last().len() && #[trigger] p.drop_last()[i].0 == k {
            let i = choose|i: int| 0 <= i < p.drop_last().len() && #[trigger] p.drop_last()[i].0 == k;
            assert(p[i].0 == k);
        }
    }
}

proof fn lemma_drop_key_distinct(p: Seq<(Seq<char>, Seq<char>)>, key: Seq<char>)
    requires
        keys_distinct(p),
    ensures
        keys_distinct(drop_key(p, key)),
        forall|j: int| 0 <= j < drop_key(p, key).len() ==> #[trigger] drop_key(p, key)[j].0 != key,
    decreases p.len(),
{
    let d = drop_key(p, key);
    lemma_drop_key_get(p, key, key);
    lemma_meta_get_occurs(d, key);
    assert forall|j: int| 0 <= j < d.len() implies #[trigger] d[j].0 != key by {
        if d[j].0 == key {
            assert(exists|i: int| 0 <= i < d.len() && #[trigger] d[i].0 == key);
        }
    }
    if p.len() > 0 {
        let dl = p.drop_last();
        assert(keys_distinct(dl)) by {
            assert forall|i: int, j: int| 0 <= i < j < dl.len() implies #[trigger] dl[i].0 != #[trigger] dl[j].0 by {
                assert(p[i].0 != p[j].0);
            }
        }
        lemma_drop_key_distinct(dl, key);
        let rest = drop_key(dl, key);
        if p.last().0 != key {
            let k = p.last().0;
            assert forall|j: int| 0 <= j < rest.len() implies #[trigger] rest[j].0 != k by {
                if rest[j].0 == k {
                    lemma_meta_get_occurs(rest, k);
                    assert(exists|i: int| 0 <= i < rest.len() && #[trigger] rest[i].0 == k);
                    lemma_drop_key_get(dl, key, k);
                    lemma_meta_get_occurs(dl, k);
                    let i = choose|i: int| 0 <= i < dl.len() && #[trigger] dl[i].0 == k;
                    assert(p[i].0 == p[p.len() - 1].0);
                }
            }
            assert(d == rest.push(p.last()));
            assert forall|i: int, j: int| 0 <= i < j < d.len() implies #[trigger] d[i].0 != #[trigger] d[j].0 by {
                if j == d.len() - 1 {
                    assert(d[i] == rest[i]);
                } else {
                    assert(d[i] == rest[i] && d[j] == rest[j]);
                }
            }
        }
    }
}

#[derive(Debug, Clone)]
pub struct EmailMessage {
    pub to: String,
    pub from: String,
    pub reply_to: Option<String>,
    pub subject: String,
    pub body_text: String,
    pub body_html: Option<String>,
    pub metadata: Vec<(String, String)>,
}

impl EmailMessage {
    /// The message's metadata as a map.
    pub open spec fn spec_metadata(&self) -> Map<Seq<char>, Seq<char>> {
        metadata_of(pair_views(self.metadata@))
    }

    /// Whether each metadata key occurs once, as in a map: messages built by
    /// `new` and `with_metadata` are.
    pub open spec fn metadata_well_formed(&self) -> bool {
        keys_distinct(pair_views(self.metadata@))
    }

    /// A plain-text message with no reply-to address and no metadata.
    pub fn new(to: String, from: String, subject: String, body_text: String) -> (r: Self)
        ensures
            r.to == to && r.from == from && r.subject == subject && r.body_text == body_text,
            r.reply_to is None && r.body_html is None,
            r.metadata@.len() == 0,
            r.spec_metadata() == Map::<Seq<char>, Seq<char>>::empty(),
            r.metadata_well_formed(),
    {
        let r = EmailMessage {
            to,
            from,
            reply_to: None,
            subject,
            body_text,
            body_html: None,
            metadata: Vec::new(),
        };
        assert(r.spec_metadata() =~= Map::<Seq<char>, Seq<char>>::empty());
        r
    }

    /// The message with an HTML body.
    pub fn with_html(self, body_html: String) -> (r: Self)
        ensures
            r == (EmailMessage { body_html: Some(body_html), ..self }),
    {
        EmailMessage { body_html: Some(body_html), ..self }
    }

    /// The message with a reply-to address.
    pub fn with_reply_to(self, reply_to: String) -> (r: Self)
        ensures
            r == (EmailMessage { reply_to: Some(reply_to), ..self }),
    {
        EmailMessage { reply_to: Some(reply_to), ..self }
    }

    /// The message with `key` set to `value` in its metadata, replacing any
    /// earlier value of that key.
    pub fn with_metadata(self, key: String, value: String) -> (r: Self)
        ensures
            r.to == self.to && r.from == self.from && r.reply_to == self.reply_to && r.subject == self.subject,
            r.body_text == self.body_text && r.body_html == self.body_html,
            pair_views(r.metadata@) == drop_key(pair_views(self.metadata@), key@).push((key@, value@)),
            r.spec_metadata() == self.spec_metadata().insert(key@, value@),
            self.metadata_well_formed() ==> r.metadata_well_formed(),
    {
        let ghost old_pairs = pair_views(self.metadata@);
        let mut kept: Vec<(String, String)> = Vec::new();
        let mut i: usize = 0;
        while i < self.metadata.len()
            invariant
                i <= self.metadata.len(),
                old_pairs == pair_views(self.metadata@),
                pair_views(kept@) == drop_key(pair_views(self.metadata@.subrange(0, i as int)), key@),
            decreases self.metadata.len() - i,
        {
            proof {
                let m = self.metadata@;
                assert(pair_views(m.subrange(0, i as int + 1)).drop_last() =~= pair_views(m.subrange(0, i as int)));
                assert(pair_views(m.subrange(0, i as int + 1)).last() == (m[i as int].0@, m[i as int].1@));
            }
            if !text_eq(self.metadata[i].0.as_str(), key.as_str()) {
                let pair = (copy_text(&self.metadata[i].0), copy_text(&self.metadata[i].1));
                let ghost prev = kept@;
                kept.push(pair);
                proof {
                    assert(pair_views(kept@) =~= pair_views(prev).push((pair.0@, pair.1@)));
                }
            }
            i = i + 1;
        }
        assert(self.metadata@.subrange(0, self.metadata.len() as int) =~= self.metadata@);
        let ghost kv = (key@, value@);
        let ghost prev = kept@;
        kept.push((key, value));
        proof {
            assert(pair_views(kept@) =~= pair_views(prev).push(kv));
            lemma_metadata_insert(old_pairs, kv.0, kv.1);
            if keys_distinct(old_pairs) {
                lemma_drop_key_distinct(old_pairs, kv.0);
                let d = drop_key(old_pairs, kv.0);
                let q = pair_views(kept@);
                assert forall|i: int, j: int| 0 <= i < j < q.len() implies #[trigger] q[i].0 != #[trigger] q[j].0 by {
                    if j == q.len() - 1 {
                        assert(q[i] == d[i]);
                    } else {
                        assert(q[i] == d[i] && q[j] == d[j]);
                    }
                }
            }
        }
        EmailMessage {
            to: self.to,
            from: self.from,
            reply_to: self.reply_to,
            subject: self.subject,
            body_text: self.body_text,
            body_html: self.body_html,
            metadata: kept,
        }
    }

    /// The metadata value of `key`.
    pub fn metadata_value(&self, key: &str) -> (r: Option<String>)
        ensures
            opt_text(r) == meta_get(pair_views(self.metadata@), key@),
            opt_text(r) == (if self.spec_metadata().contains_key(key@) {
                Some(self.spec_metadata()[key@])
            } else {
                None
            }),
    {
        let ghost ps = pair_views(self.metadata@);
        let mut i: usize = self.metadata.len();
        assert(ps.subrange(0, i as int) =~= ps);
        while i > 0
            invariant
                i <= self.metadata.len(),
                ps == pair_views(self.metadata@),
                meta_get(ps, key@) == meta_get(ps.subrange(0, i as int), key@),
            decreases i,
        {
            proof {
                let q = ps.subrange(0, i as int);
                assert(q.drop_last() =~= ps.subrange(0, i as int - 1));
                assert(q.last() == (self.metadata@[i - 1].0@, self.metadata@[i - 1].1@));
            }
            if text_eq(self.metadata[i - 1].0.as_str(), key) {
                return Some(copy_text(&self.metadata[i - 1].1));
            }
            i = i - 1;
        }
        None
    }
}

/// A delivery receipt. `sent_at` is in microseconds since the Unix epoch.
#[derive(Debug, Clone)]
pub struct EmailReceipt {
    pub message_id: String,
    pub sent_at: i64,
    pub provider: String,
    pub metadata: Vec<(String, String)>,
}

// ----- configuration and factory -----

/// Email service configuration.
#[derive(Debug, Clone)]
pub struct EmailConfig {
    /// Email service provider (`ses`, `mock`).
    pub provider: String,
    /// AWS region for SES.
    pub aws_region: Option<String>,
    /// AWS endpoint URL (for a local stand-in of SES).
    pub aws_endpoint_url: Option<String>,
    /// Default from address.
    pub default_from: String,
    /// Whether email is sent at all.
    pub enabled: bool,
    /// Base URL of the application, for links in emails.
    pub app_base_url: String,
}

/// The value `str::parse::<bool>` gives: `true` and `false` only.
pub open spec fn parse_bool_spec(s: Seq<char>) -> Option<bool> {
    if s == "true"@ {
        Some(true)
    } else if s == "false"@ {
        Some(false)
    } else {
        None
    }
}

fn parse_bool(s: &str) -> (r: Option<bool>)
    ensures
        r == parse_bool_spec(s@),
{
    if text_eq(s, "true") {
        Some(true)
    } else if text_eq(s, "false") {
        Some(false)
    } else {
        None
    }
}

pub open spec fn or_default(v: Option<Seq<char>>, d: Seq<char>) -> Seq<char> {
    match v {
        Some(x) => x,
        None => d,
    }
}

impl EmailConfig {
    /// The configuration the environment gives: `EMAIL_PROVIDER` (default
    /// `mock`), `AWS_REGION`, `AWS_ENDPOINT_URL`, `FROM_EMAIL` (default
    /// `invitations@framecast.app`), `EMAIL_ENABLED` (enabled unless it reads
    /// `false`) and `APP_BASE_URL` (default `https://framecast.app`).
    pub fn from_vars(env: &EnvVars) -> (r: Result<EmailConfig, EmailError>)
        ensures
            r matches Ok(c) && c.provider@ == or_default(env.spec_get("EMAIL_PROVIDER"@), "mock"@)
                && opt_text(c.aws_region) == env.spec_get("AWS_REGION"@)
                && opt_text(c.aws_endpoint_url) == env.spec_get("AWS_ENDPOINT_URL"@)
                && c.default_from@ == or_default(env.spec_get("FROM_EMAIL"@), "invitations@framecast.app"@)
                && c.enabled == (match parse_bool_spec(or_default(env.spec_get("EMAIL_ENABLED"@), "true"@)) {
                    Some(b) => b,
                    None => true,
                })
                && c.app_base_url@ == or_default(env.spec_get("APP_BASE_URL"@), "https://framecast.app"@),
    {
        let provider = env.get_or("EMAIL_PROVIDER", "mock");
        let aws_region = env.get("AWS_REGION");
        let aws_endpoint_url = env.get("AWS_ENDPOINT_URL");
        let default_from = env.get_or("FROM_EMAIL", "invitations@framecast.app");
        let enabled_text = env.get_or("EMAIL_ENABLED", "true");
        let enabled = match parse_bool(enabled_text.as_str()) {
            Some(b) => b,
            None => true,
        };
        let app_base_url = env.get_or("APP_BASE_URL", "https://framecast.app");
        Ok(EmailConfig { provider, aws_region, aws_endpoint_url, default_from, enabled, app_base_url })
    }
}

/// The email service a configuration selects.
#[derive(Debug, Clone)]
pub enum EmailBackend {
    /// Delivery through AWS SES.
    Ses(SesEmailService),
    /// The capturing mock.
    Mock(MockEmailService),
}

/// Chooses the email service for a configuration.
pub struct EmailServiceFactory;

impl EmailServiceFactory {
    /// The mock when email is disabled; else SES for `ses` or `aws-ses`, the
    /// mock for `mock`, and a configuration error for any other provider.
    pub fn create(config: EmailConfig) -> (r: Result<EmailBackend, EmailError>)
        ensures
            !config.enabled ==> (r matches Ok(EmailBackend::Mock(_))),
            config.enabled && (config.provider@ == "ses"@ || config.provider@ == "aws-ses"@) ==> (r matches Ok(
                EmailBackend::Ses(s),
            ) && s.spec_config() == config),
            config.enabled && config.provider@ == "mock"@ ==> (r matches Ok(EmailBackend::Mock(_))),
            config.enabled && config.provider@ != "ses"@ && config.provider@ != "aws-ses"@ && config.provider@
                != "mock"@ ==> (r matches Err(EmailError::Configuration(m)) && m@ == "Unknown email provider: "@
                + config.provider@ + ". Supported providers: ses, mock"@),
    {
        if !config.enabled {
            return Ok(EmailBackend::Mock(MockEmailService::new()));
        }
        proof {
            reveal_strlit("mock");
            reveal_strlit("ses");
            reveal_strlit("aws-ses");
            assert("mock"@ != "ses"@) by {
                assert("mock"@[0] != "ses"@[0]);
            }
            assert("mock"@ != "aws-ses"@) by {
                assert("mock"@[0] != "aws-ses"@[0]);
            }
        }
        if text_eq(config.provider.as_str(), "ses") || text_eq(config.provider.as_str(), "aws-ses") {
            Ok(EmailBackend::Ses(SesEmailService::new(config)))
        } else if text_eq(config.provider.as_str(), "mock") {
            Ok(EmailBackend::Mock(MockEmailService::new()))
        } else {
            let mut m = String::from_str("Unknown email provider: ");
            m.append(config.provider.as_str());
            m.append(". Supported providers: ses, mock");
            Err(EmailError::Configuration(m))
        }
    }
}

// ----- team invitations -----

/// The link that accepts an invitation.
pub open spec fn invitation_url_spec(base_url: Seq<char>, team_id: u128, invitation_id: u128) -> Seq<char> {
    base_url + "/teams/"@ + spec_uuid_text(team_id) + "/invitations/"@ + spec_uuid_text(invitation_id) + "/accept"@
}

/// The link that accepts an invitation names the team first and the
/// invitation second: after the base URL come `/teams/`, the team's ID (36
/// characters), `/invitations/`, the invitation's ID, and `/accept`.
pub proof fn lemma_invitation_url_layout(base_url: Seq<char>, team_id: u128, invitation_id: u128)
    ensures
        ({
            let u = invitation_url_spec(base_url, team_id, invitation_id);
            let b = base_url.len() as int;
            &&& u.len() == b + 99
            &&& u.subrange(0, b) == base_url
            &&& u.subrange(b, b + 7) == "/teams/"@
            &&& u.subrange(b + 7, b + 43) == spec_uuid_text(team_id)
            &&& u.subrange(b + 43, b + 56) == "/invitations/"@
            &&& u.subrange(b + 56, b + 92) == spec_uuid_text(invitation_id)
            &&& u.subrange(b + 92, b + 99) == "/accept"@
        }),
{
    reveal_strlit("/teams/");
    reveal_strlit("/invitations/");
    reveal_strlit("/accept");
    lemma_uuid_text_form(team_id);
    lemma_uuid_text_form(invitation_id);
    let u = invitation_url_spec(base_url, team_id, invitation_id);
    let b = base_url.len() as int;
    assert(u.subrange(0, b) =~= base_url);
    assert(u.subrange(b, b + 7) =~= "/teams/"@);
    assert(u.subrange(b + 7, b + 43) =~= spec_uuid_text(team_id));
    assert(u.subrange(b + 43, b + 56) =~= "/invitations/"@);
    assert(u.subrange(b + 56, b + 92) =~= spec_uuid_text(invitation_id));
    assert(u.subrange(b + 92, b + 99) =~= "/accept"@);
}

/// The link that accepts an invitation, under the application's base URL.
pub fn invitation_url(base_url: &str, team_id: u128, invitation_id: u128) -> (r: String)
    ensures
        r@ == invitation_url_spec(base_url@, team_id, invitation_id),
{
    let mut s = String::from_str(base_url);
    s.append("/teams/");
    s.append(uuid_text(team_id).as_str());
    s.append("/invitations/");
    s.append(uuid_text(invitation_id).as_str());
    s.append("/accept");
    s
}

/// The tracking metadata of an invitation email.
pub open spec fn invitation_metadata(team_id: u128, invitation_id: u128, role: Seq<char>) -> Map<Seq<char>, Seq<char>> {
    Map::<Seq<char>, Seq<char>>::empty().insert("email_type"@, "team_invitation"@).insert(
        "team_id"@,
        spec_uuid_text(team_id),
    ).insert("invitation_id"@, spec_uuid_text(invitation_id)).insert("role"@, role)
}

/// Whether `m` is the invitation email for the given parameters, linking to `url`.
pub open spec fn is_invitation_email(
    m: EmailMessage,
    from: Seq<char>,
    url: Seq<char>,
    team_name: Seq<char>,
    team_id: u128,
    invitation_id: u128,
    recipient_email: Seq<char>,
    inviter_name: Seq<char>,
    role: Seq<char>,
) -> bool {
    &&& m.to@ == recipient_email
    &&& m.from@ == from
    &&& m.reply_to is None
    &&& m.subject@ == "Invitation to join team: "@ + team_name
    &&& m.body_text@ == team_invitation_text_spec(inviter_name, team_name, role, url)
    &&& m.body_html matches Some(h) && h@ == team_invitation_html_spec(inviter_name, team_name, role, url)
    &&& m.spec_metadata() == invitation_metadata(team_id, invitation_id, role)
}

/// The invitation email a service sends from `from`, linking under `base_url`.
pub fn team_invitation_email(
    from: String,
    base_url: &str,
    team_name: &str,
    team_id: u128,
    invitation_id: u128,
    recipient_email: &str,
    inviter_name: &str,
    role: &str,
) -> (m: EmailMessage)
    ensures
        is_invitation_email(
            m,
            from@,
            invitation_url_spec(base_url@, team_id, invitation_id),
            team_name@,
            team_id,
            invitation_id,
            recipient_email@,
            inviter_name@,
            role@,
        ),
        m.metadata_well_formed(),
{
    let url = invitation_url(base_url, team_id, invitation_id);
    let mut subject = String::from_str("Invitation to join team: ");
    subject.append(team_name);
    let body_text = team_invitation_text(inviter_name, team_name, role, url.as_str());
    let body_html = team_invitation_html(inviter_name, team_name, role, url.as_str());
    EmailMessage::new(String::from_str(recipient_email), from, subject, body_text).with_html(body_html).with_metadata(
        String::from_str("email_type"),
        String::from_str("team_invitation"),
    ).with_metadata(String::from_str("team_id"), uuid_text(team_id)).with_metadata(
        String::from_str("invitation_id"),
        uuid_text(invitation_id),
    ).with_metadata(String::from_str("role"), String::from_str(role))
}

// ----- delivery through SES -----

/// Static credentials for a local stand-in of SES.
#[derive(Debug, Clone)]
pub struct LocalCredentials {
    pub access_key_id: String,
    pub secret_access_key: String,
    pub provider_name: String,
}

/// How the SES client is set up: its region, an optional endpoint, and the
/// static credentials used with such an endpoint.
#[derive(Debug, Clone)]
pub struct SesClientSettings {
    pub region: String,
    pub endpoint_url: Option<String>,
    pub credentials: Option<LocalCredentials>,
}

/// A piece of message content with its character set.
#[derive(Debug, Clone)]
pub struct SesContent {
    pub data: String,
    pub charset: String,
}

/// The message part of a send request: subject, text body and optional HTML body.
#[derive(Debug, Clone)]
pub struct SesMessage {
    pub subject: SesContent,
    pub text: SesContent,
    pub html: Option<SesContent>,
}

/// The recipients of a send request.
#[derive(Debug, Clone)]
pub struct SesDestination {
    pub to_addresses: Vec<String>,
}

/// Everything a send request to SES carries.
#[derive(Debug, Clone)]
pub struct SesSendRequest {
    pub source: String,
    pub destination: SesDestination,
    pub message: SesMessage,
    pub reply_to_addresses: Vec<String>,
}

/// Whether `c` holds `data` in UTF-8.
pub open spec fn is_utf8_content(c: SesContent, data: Seq<char>) -> bool {
    c.data@ == data && c.charset@ == "UTF-8"@
}

/// Whether `m` carries the subject and bodies of `message`.
pub open spec fn is_ses_message(m: SesMessage, message: EmailMessage) -> bool {
    &&& is_utf8_content(m.subject, message.subject@)
    &&& is_utf8_content(m.text, message.body_text@)
    &&& match (m.html, message.body_html) {
        (Some(c), Some(h)) => is_utf8_content(c, h@),
        (None, None) => true,
        _ => false,
    }
}

/// Whether both addresses of `message` hold an `@`.
pub open spec fn addresses_look_valid(message: EmailMessage) -> bool {
    message.to@.contains('@') && message.from@.contains('@')
}

/// The texts of a list of addresses.
pub open spec fn address_views(v: Seq<String>) -> Seq<Seq<char>> {
    v.map_values(|s: String| s@)
}

/// The reply-to addresses a message asks for: none, or its one reply-to address.
pub open spec fn reply_to_views(message: EmailMessage) -> Seq<Seq<char>> {
    match message.reply_to {
        Some(r) => seq![r@],
        None => Seq::empty(),
    }
}

/// Whether `req` is the send request for `message`.
pub open spec fn is_send_request(req: SesSendRequest, message: EmailMessage) -> bool {
    &&& req.source@ == message.from@
    &&& address_views(req.destination.to_addresses@) == seq![message.to@]
    &&& is_ses_message(req.message, message)
    &&& address_views(req.reply_to_addresses@) == reply_to_views(message)
}

fn utf8_content(data: &String) -> (c: SesContent)
    ensures
        is_utf8_content(c, data@),
{
    SesContent { data: copy_text(data), charset: String::from_str("UTF-8") }
}

fn copy_opt_text(s: &Option<String>) -> (r: Option<String>)
    ensures
        opt_text(r) == opt_text(*s),
{
    match s {
        Some(t) => Some(copy_text(t)),
        None => None,
    }
}

/// Email delivery through AWS SES. The client itself lives at the edge of the
/// service; this holds the configuration and decides what is sent.
#[derive(Debug, Clone)]
pub struct SesEmailService {
    config: EmailConfig,
}

impl SesEmailService {
    /// The configuration the service was made with.
    pub closed spec fn spec_config(&self) -> EmailConfig {
        self.config
    }

    pub fn new(config: EmailConfig) -> (r: Self)
        ensures
            r.spec_config() == config,
    {
        SesEmailService { config }
    }

    /// The client setup: the configured region, `us-east-1` when none is
    /// configured; with a configured endpoint, that endpoint and the static
    /// credentials of a local stand-in.
    pub fn client_settings(&self) -> (r: SesClientSettings)
        ensures
            r.region@ == or_default(opt_text(self.spec_config().aws_region), "us-east-1"@),
            opt_text(r.endpoint_url) == opt_text(self.spec_config().aws_endpoint_url),
            (r.credentials is Some) == (self.spec_config().aws_endpoint_url is Some),
            r.credentials matches Some(c) ==> c.access_key_id@ == "test-access-key"@ && c.secret_access_key@
                == "test-secret-key"@ && c.provider_name@ == "localstack-email-provider"@,
    {
        let region = match &self.config.aws_region {
            Some(r) => copy_text(r),
            None => String::from_str("us-east-1"),
        };
        let credentials = match &self.config.aws_endpoint_url {
            Some(_) => Some(
                LocalCredentials {
                    access_key_id: String::from_str("test-access-key"),
                    secret_access_key: String::from_str("test-secret-key"),
                    provider_name: String::from_str("localstack-email-provider"),
                },
            ),
            None => None,
        };
        SesClientSettings { region, endpoint_url: copy_opt_text(&self.config.aws_endpoint_url), credentials }
    }

    /// The subject and bodies of `message`, each in UTF-8; the HTML body only
    /// where the message has one.
    pub fn build_ses_message(&self, message: &EmailMessage) -> (m: SesMessage)
        ensures
            is_ses_message(m, *message),
    {
        let html = match &message.body_html {
            Some(h) => Some(utf8_content(h)),
            None => None,
        };
        SesMessage { subject: utf8_content(&message.subject), text: utf8_content(&message.body_text), html }
    }

    /// The destination for one recipient.
    pub fn build_destination(&self, to: &str) -> (d: SesDestination)
        ensures
            address_views(d.to_addresses@) == seq![to@],
    {
        let mut to_addresses: Vec<String> = Vec::new();
        to_addresses.push(String::from_str(to));
        proof {
            assert(address_views(to_addresses@) =~= seq![to@]);
        }
        SesDestination { to_addresses }
    }

    /// The send request for `message`: refused with a validation error where
    /// the recipient or the sender has no `@`; else sent from the sender to the
    /// recipient, with the message's reply-to address where it has one.
    pub fn send_request(&self, message: &EmailMessage) -> (r: Result<SesSendRequest, EmailError>)
        ensures
            (r is Ok) == addresses_look_valid(*message),
            r matches Ok(req) ==> is_send_request(req, *message),
            r matches Err(e) ==> e matches EmailError::Validation(m) && m@ == "Invalid email address format"@,
    {
        if !contains_char(message.to.as_str(), '@') || !contains_char(message.from.as_str(), '@') {
            return Err(EmailError::Validation(String::from_str("Invalid email address format")));
        }
        let ses_message = self.build_ses_message(message);
        let destination = self.build_destination(message.to.as_str());
        let mut reply_to_addresses: Vec<String> = Vec::new();
        match &message.reply_to {
            Some(r) => {
                reply_to_addresses.push(copy_text(r));
            },
            None => {},
        }
        proof {
            assert(address_views(reply_to_addresses@) =~= reply_to_views(*message));
        }
        Ok(
            SesSendRequest {
                source: copy_text(&message.from),
                destination,
                message: ses_message,
                reply_to_addresses,
            },
        )
    }

    /// The error for a send that SES refused, with the reason it gave.
    pub fn send_failed(&self, reason: &str) -> (e: EmailError)
        ensures
            e matches EmailError::AwsSes(m) && m@ == "Failed to send email: "@ + reason@,
    {
        let mut m = String::from_str("Failed to send email: ");
        m.append(reason);
        EmailError::AwsSes(m)
    }

    /// The receipt for a message SES accepted under `message_id`: provider
    /// `aws-ses` and the message's metadata.
    pub fn delivered(&self, message: &EmailMessage, message_id: String) -> (r: EmailReceipt)
        ensures
            r.message_id@ == message_id@,
            r.provider@ == "aws-ses"@,
            pair_views(r.metadata@) == pair_views(message.metadata@),
            r.sent_at >= 0,
    {
        EmailReceipt {
            message_id,
            sent_at: now_micros(),
            provider: String::from_str("aws-ses"),
            metadata: copy_pairs(&message.metadata),
        }
    }

    /// The configured sender address.
    pub fn default_from(&self) -> (r: String)
        ensures
            r@ == self.spec_config().default_from@,
    {
        copy_text(&self.config.default_from)
    }

    /// The configured base URL of the application.
    pub fn app_base_url(&self) -> (r: &str)
        ensures
            r@ == self.spec_config().app_base_url@,
    {
        self.config.app_base_url.as_str()
    }

    /// The invitation email this service sends: from the configured sender,
    /// linking under the configured base URL.
    pub fn team_invitation_message(
        &self,
        team_name: &str,
        team_id: u128,
        invitation_id: u128,
        recipient_email: &str,
        inviter_name: &str,
        role: &str,
    ) -> (m: EmailMessage)
        ensures
            is_invitation_email(
                m,
                self.spec_config().default_from@,
                invitation_url_spec(self.spec_config().app_base_url@, team_id, invitation_id),
                team_name@,
                team_id,
                invitation_id,
                recipient_email@,
                inviter_name@,
                role@,
            ),
    {
        team_invitation_email(
            self.default_from(),
            self.app_base_url(),
            team_name,
            team_id,
            invitation_id,
            recipient_email,
            inviter_name,
            role,
        )
    }
}

// ----- the mock service -----

/// Mock email service that captures messages instead of sending them.
#[derive(Debug, Clone)]
pub struct MockEmailService;

impl MockEmailService {
    pub fn new() -> (r: Self) {
        MockEmailService
    }

    /// Captures the message: a receipt with a `mock-` message ID, provider
    /// `mock` and the message's metadata.
    pub fn send_email(&self, message: EmailMessage) -> (r: Result<EmailReceipt, EmailError>)
        ensures
            r matches Ok(receipt) && has_prefix(receipt.message_id@, "mock-"@) && (exists|id: u128|
                receipt.message_id@ == "mock-"@ + spec_uuid_text(id)) && receipt.provider@ == "mock"@ && pair_views(
                receipt.metadata@,
            ) == pair_views(message.metadata@) && receipt.sent_at >= 0,
    {
        let uid = new_uuid_v4();
        let id = uuid_text(uid);
        let mut message_id = String::from_str("mock-");
        message_id.append(id.as_str());
        proof {
            assert(message_id@.subrange(0, "mock-"@.len() as int) =~= "mock-"@);
            assert(message_id@ == "mock-"@ + spec_uuid_text(uid));
        }
        Ok(
            EmailReceipt {
                message_id,
                sent_at: now_micros(),
                provider: String::from_str("mock"),
                metadata: copy_pairs(&message.metadata),
            },
        )
    }

    /// Captures the invitation email, sent from `invitations@framecast.app`
    /// with a link under `https://framecast.app`.
    pub fn send_team_invitation(
        &self,
        team_name: &str,
        team_id: u128,
        invitation_id: u128,
        recipient_email: &str,
        inviter_name: &str,
        role: &str,
    ) -> (r: Result<EmailReceipt, EmailError>)
        ensures
            r matches Ok(receipt) && has_prefix(receipt.message_id@, "mock-"@) && receipt.provider@ == "mock"@
                && metadata_of(pair_views(receipt.metadata@)) == invitation_metadata(team_id, invitation_id, role@),
    {
        let message = team_invitation_email(
            String::from_str("invitations@framecast.app"),
            "https://framecast.app",
            team_name,
            team_id,
            invitation_id,
            recipient_email,
            inviter_name,
            role,
        );
        self.send_email(message)
    }
}

impl Default for MockEmailService {
    fn default() -> (r: Self) {
        MockEmailService
    }
}

} // verus!
