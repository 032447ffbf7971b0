//! Users, teams, memberships, invitations and API keys.
//!
//! Identifiers are 128-bit UUID values and timestamps are microseconds since
//! the Unix epoch. Operations that read the clock come in two forms: one that
//! takes the current time as an argument, with an exact contract, and one that
//! reads the clock and hands it to the first.

use vstd::prelude::*;
use vstd::utf8::{encode_utf8, is_ascii_chars, is_ascii_chars_encode_utf8};

use crate::crypto::{hash_key, hash_key_spec, random_salt, verify_key_hash, verify_key_hash_spec};
use crate::error::{res_view, validation, validation_error, Error, ErrorKind};
use crate::ids::{
    base64_unpadded_len, base64_url_no_pad, is_lower_hex_digit, lemma_uuid_hex_form, lemma_uuid_text_without_hyphens, new_uuid_v4,
    now_micros, random_bytes_32, spec_base64_url_no_pad, spec_uuid_text, uuid_hex, uuid_text,
};
use crate::json::empty_json_object;
use crate::roles::{InvitationRole, InvitationState, MembershipRole, UserTier};
use crate::state::{
    InvitationEvent, InvitationGuardContext, InvitationState as MachineInvitationState,
    InvitationStateMachine, StateError, StateErrorView, invitation_transition_spec,
};
use crate::text::{
    byte_len, contains_char, is_alphanumeric, remove_char, remove_char_spec, spec_is_alphanumeric,
    spec_to_lowercase, to_lowercase, chars_of,
};
use crate::urn::{urn_parse_spec, urn_valid, Urn, UrnView};

verus! {

/// Microseconds in seven days: how long an invitation stays open.
pub const INVITATION_LIFETIME_MICROS: i64 = 604_800_000_000;

// ============================================================================
// User
// ============================================================================

/// User entity
#[derive(Debug, Clone)]
pub struct User {
    pub id: u128,
    pub email: String,
    pub name: Option<String>,
    pub avatar_url: Option<String>,
    pub tier: UserTier,
    pub credits: i32,
    pub ephemeral_storage_bytes: i64,
    pub upgraded_at: Option<i64>,
    pub created_at: i64,
    pub updated_at: i64,
}

/// The message a user email is refused with, if it is refused.
pub open spec fn user_email_error(email: Seq<char>) -> Option<Seq<char>> {
    if !email.contains('@') || byte_len(email) > 255 {
        Some("Invalid email format or length"@)
    } else {
        None
    }
}

/// The message a user's display name is refused with, if it is refused.
pub open spec fn user_name_error(name: Option<Seq<char>>) -> Option<Seq<char>> {
    match name {
        Some(n) => if n.len() == 0 || byte_len(n) > 100 {
            Some("Name must be 1-100 characters"@)
        } else {
            None
        },
        None => None,
    }
}

pub open spec fn opt_view(o: Option<String>) -> Option<Seq<char>> {
    match o {
        Some(s) => Some(s@),
        None => None,
    }
}

/// The first invariant a user breaks, as the message it is refused with.
pub open spec fn user_invariant_error(u: User) -> Option<Seq<char>> {
    if u.tier is Creator && u.upgraded_at is None {
        Some("Creator users must have upgrade timestamp"@)
    } else if u.credits < 0 {
        Some("Credits cannot be negative"@)
    } else if u.ephemeral_storage_bytes < 0 {
        Some("Storage cannot be negative"@)
    } else if user_email_error(u.email@) is Some {
        user_email_error(u.email@)
    } else {
        user_name_error(opt_view(u.name))
    }
}

fn check_user_email(email: &String) -> (r: Result<(), Error>)
    ensures
        match r {
            Ok(()) => user_email_error(email@) is None,
            Err(e) => user_email_error(email@) == Some(e@.1) && e@.0 == ErrorKind::Validation,
        },
{
    if !contains_char(email.as_str(), '@') || email.as_str().len() > 255 {
        return Err(validation_error("Invalid email format or length"));
    }
    Ok(())
}

fn check_user_name(name: &Option<String>) -> (r: Result<(), Error>)
    ensures
        match r {
            Ok(()) => user_name_error(opt_view(*name)) is None,
            Err(e) => user_name_error(opt_view(*name)) == Some(e@.1) && e@.0 == ErrorKind::Validation,
        },
{
    if let Some(n) = name {
        if n.as_str().is_empty() || n.as_str().len() > 100 {
            return Err(validation_error("Name must be 1-100 characters"));
        }
    }
    Ok(())
}

impl User {
    /// Create a new user at time `now`, with validation.
    pub fn new_at(id: u128, email: String, name: Option<String>, now: i64) -> (r: Result<User, Error>)
        ensures
            match r {
                Ok(u) => {
                    &&& user_email_error(email@) is None && user_name_error(opt_view(name)) is None
                    &&& u.id == id && u.email@ == email@ && opt_view(u.name) == opt_view(name)
                    &&& u.avatar_url is None && u.tier == UserTier::Starter && u.credits == 0
                    &&& u.ephemeral_storage_bytes == 0 && u.upgraded_at is None
                    &&& u.created_at == now && u.updated_at == now
                    &&& user_invariant_error(u) is None
                },
                Err(e) => e@.0 == ErrorKind::Validation && Some(e@.1) == (if user_email_error(email@) is Some {
                    user_email_error(email@)
                } else {
                    user_name_error(opt_view(name))
                }),
            },
    {
        match check_user_email(&email) {
            Ok(()) => {},
            Err(e) => {
                return Err(e);
            },
        }
        match check_user_name(&name) {
            Ok(()) => {},
            Err(e) => {
                return Err(e);
            },
        }
        Ok(User {
            id,
            email,
            name,
            avatar_url: None,
            tier: UserTier::Starter,
            credits: 0,
            ephemeral_storage_bytes: 0,
            upgraded_at: None,
            created_at: now,
            updated_at: now,
        })
    }

    /// Create a new user with validation, stamped with the current time.
    pub fn new(id: u128, email: String, name: Option<String>) -> (r: Result<User, Error>)
        ensures
            match r {
                Ok(u) => {
                    &&& user_email_error(email@) is None && user_name_error(opt_view(name)) is None
                    &&& u.id == id && u.email@ == email@ && opt_view(u.name) == opt_view(name)
                    &&& u.tier == UserTier::Starter && u.credits == 0 && u.upgraded_at is None
                    &&& user_invariant_error(u) is None
                },
                Err(e) => e@.0 == ErrorKind::Validation && Some(e@.1) == (if user_email_error(email@) is Some {
                    user_email_error(email@)
                } else {
                    user_name_error(opt_view(name))
                }),
            },
    {
        let now = now_micros();
        User::new_at(id, email, name, now)
    }

    /// Upgrade the user to the creator tier at time `now`.
    pub fn upgrade_to_creator_at(&mut self, now: i64) -> (r: Result<(), Error>)
        ensures
            old(self).tier is Creator ==> r is Err && *final(self) == *old(self)
                && r->Err_0@ == validation("User is already a creator"@),
            old(self).tier is Starter ==> r is Ok && *final(self) == (User {
                tier: UserTier::Creator,
                upgraded_at: Some(now),
                updated_at: now,
                ..*old(self)
            }),
    {
        if let UserTier::Creator = self.tier {
            return Err(validation_error("User is already a creator"));
        }
        self.tier = UserTier::Creator;
        self.upgraded_at = Some(now);
        self.updated_at = now;
        Ok(())
    }

    /// Upgrade the user to the creator tier, stamped with the current time.
    pub fn upgrade_to_creator(&mut self) -> (r: Result<(), Error>)
        ensures
            old(self).tier is Creator ==> r is Err && *final(self) == *old(self),
            old(self).tier is Starter ==> r is Ok && final(self).tier is Creator && final(self).upgraded_at is Some
                && final(self).id == old(self).id && final(self).credits == old(self).credits,
    {
        let now = now_micros();
        self.upgrade_to_creator_at(now)
    }

    /// Validate the user's invariants.
    pub fn validate(&self) -> (r: Result<(), Error>)
        ensures
            match r {
                Ok(()) => user_invariant_error(*self) is None,
                Err(e) => user_invariant_error(*self) == Some(e@.1) && e@.0 == ErrorKind::Validation,
            },
    {
        if let UserTier::Creator = self.tier {
            if self.upgraded_at.is_none() {
                return Err(validation_error("Creator users must have upgrade timestamp"));
            }
        }
        if self.credits < 0 {
            return Err(validation_error("Credits cannot be negative"));
        }
        if self.ephemeral_storage_bytes < 0 {
            return Err(validation_error("Storage cannot be negative"));
        }
        match check_user_email(&self.email) {
            Ok(()) => {},
            Err(e) => {
                return Err(e);
            },
        }
        match check_user_name(&self.name) {
            Ok(()) => {},
            Err(e) => {
                return Err(e);
            },
        }
        Ok(())
    }

    /// Check if the user can create teams (must be a creator)
    pub fn can_create_teams(&self) -> (r: bool)
        ensures
            r == (self.tier is Creator),
    {
        match self.tier {
            UserTier::Creator => true,
            UserTier::Starter => false,
        }
    }

    /// The user's URN
    pub fn urn(&self) -> (r: Urn)
        ensures
            urn_parse_spec(r@) == Ok::<UrnView, (ErrorKind, Seq<char>)>(UrnView::User { user_id: self.id }),
    {
        Urn::user(self.id)
    }
}

/// A user that `new` accepts, upgraded to creator, still keeps every invariant.
pub proof fn lemma_upgrade_keeps_user_invariants(u: User, now: i64)
    requires
        user_invariant_error(u) is None,
        u.tier is Starter,
    ensures
        user_invariant_error(User { tier: UserTier::Creator, upgraded_at: Some(now), updated_at: now, ..u }) is None,
{
}

// ============================================================================
// Team
// ============================================================================

/// Team entity
#[derive(Debug, Clone)]
pub struct Team {
    pub id: u128,
    pub name: String,
    pub slug: String,
    pub credits: i32,
    pub ephemeral_storage_bytes: i64,
    pub settings: serde_json::Value,
    pub created_at: i64,
    pub updated_at: i64,
}

/// A character allowed in a slug: a lower-case ASCII letter, a digit or a hyphen.
pub open spec fn slug_char(c: char) -> bool {
    ('a' <= c && c <= 'z') || ('0' <= c && c <= '9') || c == '-'
}

/// The message a slug is refused with, if it is refused.
pub open spec fn slug_error(s: Seq<char>) -> Option<Seq<char>> {
    if s.len() == 0 || byte_len(s) > 50 {
        Some("Slug must be 1-50 characters"@)
    } else if !(forall|i: int| 0 <= i < s.len() ==> slug_char(#[trigger] s[i])) {
        Some("Slug must contain only lowercase letters, numbers, and hyphens"@)
    } else if s[0] == '-' || s.last() == '-' {
        Some("Slug cannot start or end with a hyphen"@)
    } else {
        None
    }
}

/// The message a team name is refused with, if it is refused.
pub open spec fn team_name_error(name: Seq<char>) -> Option<Seq<char>> {
    if name.len() == 0 || byte_len(name) > 100 {
        Some("Team name must be 1-100 characters"@)
    } else {
        None
    }
}

/// The first invariant a team breaks, as the message it is refused with.
pub open spec fn team_invariant_error(t: Team) -> Option<Seq<char>> {
    if team_name_error(t.name@) is Some {
        team_name_error(t.name@)
    } else if slug_error(t.slug@) is Some {
        slug_error(t.slug@)
    } else if t.credits < 0 {
        Some("Team credits cannot be negative"@)
    } else if t.ephemeral_storage_bytes < 0 {
        Some("Team storage cannot be negative"@)
    } else {
        None
    }
}

/// Each character mapped to itself when alphanumeric, to a hyphen otherwise.
pub open spec fn dash_non_alnum(s: Seq<char>) -> Seq<char> {
    s.map_values(|c: char| if spec_is_alphanumeric(c) { c } else { '-' })
}

/// Drop leading hyphens.
pub open spec fn trim_leading_dashes(s: Seq<char>) -> Seq<char>
    decreases s.len(),
{
    if s.len() > 0 && s[0] == '-' {
        trim_leading_dashes(s.drop_first())
    } else {
        s
    }
}

/// Drop trailing hyphens.
pub open spec fn trim_trailing_dashes(s: Seq<char>) -> Seq<char>
    decreases s.len(),
{
    if s.len() > 0 && s.last() == '-' {
        trim_trailing_dashes(s.drop_last())
    } else {
        s
    }
}

/// The base of a slug generated from a team name: lower-cased, every
/// non-alphanumeric character turned into a hyphen, hyphens trimmed at both ends.
pub open spec fn slug_base(name: Seq<char>) -> Seq<char> {
    trim_trailing_dashes(trim_leading_dashes(dash_non_alnum(spec_to_lowercase(name))))
}

/// The slug generated from a name with the UUID `id` as the source of its suffix.
pub open spec fn generated_slug(name: Seq<char>, id: u128) -> Seq<char> {
    slug_base(name) + seq!['-'] + spec_uuid_text(id).subrange(0, 8)
}

/// Whether a slug generated from `name` is refused, and with which message.
/// The random part of a generated slug is eight lower-case hex digits, so the
/// answer depends on the name alone: it is the answer for the suffix
/// `-00000000` (see `lemma_generated_slug_error`).
pub open spec fn generated_slug_error(name: Seq<char>) -> Option<Seq<char>> {
    slug_error(slug_base(name) + seq!['-', '0', '0', '0', '0', '0', '0', '0', '0'])
}

proof fn lemma_encode_utf8_concat(a: Seq<char>, b: Seq<char>)
    ensures
        encode_utf8(a + b) == encode_utf8(a) + encode_utf8(b),
    decreases a.len(),
{
    if a.len() == 0 {
        assert(a + b =~= b);
        assert(encode_utf8(a) =~= Seq::<u8>::empty());
        assert(encode_utf8(a) + encode_utf8(b) =~= encode_utf8(b));
    } else {
        assert((a + b).drop_first() =~= a.drop_first() + b);
        assert((a + b)[0] == a[0]);
        lemma_encode_utf8_concat(a.drop_first(), b);
    }
}

/// Whether a slug generated from a name is refused, and why, is the same
/// whatever its random part.
pub proof fn lemma_generated_slug_error(name: Seq<char>, id: u128)
    ensures
        slug_error(generated_slug(name, id)) == generated_slug_error(name),
{
    lemma_uuid_hex_form(id);
    let base = slug_base(name);
    let h = uuid_hex(id);
    let suffix = spec_uuid_text(id).subrange(0, 8);
    assert(suffix =~= h.subrange(0, 8));
    let t1 = seq!['-'] + suffix;
    let t2 = seq!['-', '0', '0', '0', '0', '0', '0', '0', '0'];
    let g1 = generated_slug(name, id);
    let g2 = base + t2;
    assert(g1 =~= base + t1);
    assert(forall|i: int| 0 <= i < 9 ==> #[trigger] t1[i] != '-' || i == 0);
    assert forall|i: int| 1 <= i < 9 implies is_lower_hex_digit(#[trigger] t1[i]) by {
        assert(t1[i] == h[i - 1]);
    }
    assert(is_ascii_chars(t1));
    assert(is_ascii_chars(t2));
    is_ascii_chars_encode_utf8(t1);
    is_ascii_chars_encode_utf8(t2);
    lemma_encode_utf8_concat(base, t1);
    lemma_encode_utf8_concat(base, t2);
    assert(byte_len(g1) == byte_len(g2));
    assert((forall|i: int| 0 <= i < g1.len() ==> slug_char(#[trigger] g1[i])) == (forall|i: int|
        0 <= i < g2.len() ==> slug_char(#[trigger] g2[i]))) by {
        if forall|i: int| 0 <= i < g1.len() ==> slug_char(#[trigger] g1[i]) {
            assert forall|i: int| 0 <= i < g2.len() implies slug_char(#[trigger] g2[i]) by {
                if i < base.len() {
                    assert(g2[i] == g1[i]);
                }
            }
        }
        if forall|i: int| 0 <= i < g2.len() ==> slug_char(#[trigger] g2[i]) {
            assert forall|i: int| 0 <= i < g1.len() implies slug_char(#[trigger] g1[i]) by {
                if i < base.len() {
                    assert(g2[i] == g1[i]);
                } else if i > base.len() {
                    assert(g1[i] == t1[i - base.len()]);
                }
            }
        }
    }
    assert(g1[0] == g2[0]);
    assert(g1.last() == t1[8]);
    assert(g2.last() == '0');
}

fn check_slug_chars(s: &str) -> (r: bool)
    ensures
        r == (forall|i: int| 0 <= i < s@.len() ==> slug_char(#[trigger] s@[i])),
{
    let cs = chars_of(s);
    let mut i: usize = 0;
    while i < cs.len()
        invariant
            cs@ == s@,
            i <= cs.len(),
            forall|j: int| 0 <= j < i ==> slug_char(#[trigger] s@[j]),
        decreases cs.len() - i,
    {
        let c = cs[i];
        if !(('a' <= c && c <= 'z') || ('0' <= c && c <= '9') || c == '-') {
            assert(!slug_char(s@[i as int]));
            return false;
        }
        i = i + 1;
    }
    true
}

/// The characters of `s` from `start` on, with leading hyphens dropped.
proof fn lemma_trim_leading_step(s: Seq<char>, k: int)
    requires
        0 <= k < s.len(),
        s[k] == '-',
    ensures
        trim_leading_dashes(s.subrange(k, s.len() as int)) == trim_leading_dashes(s.subrange(k + 1, s.len() as int)),
{
    assert(s.subrange(k, s.len() as int).drop_first() =~= s.subrange(k + 1, s.len() as int));
}

proof fn lemma_trim_trailing_step(s: Seq<char>, k: int)
    requires
        0 < k <= s.len(),
        s[k - 1] == '-',
    ensures
        trim_trailing_dashes(s.subrange(0, k)) == trim_trailing_dashes(s.subrange(0, k - 1)),
{
    assert(s.subrange(0, k).drop_last() =~= s.subrange(0, k - 1));
}

/// Trims hyphens from both ends (as `str::trim_matches('-')` does).
fn trim_dashes(s: &str) -> (r: String)
    ensures
        r@ == trim_trailing_dashes(trim_leading_dashes(s@)),
{
    let cs = chars_of(s);
    let n = cs.len();
    let mut start: usize = 0;
    proof {
        assert(s@.subrange(0, n as int) =~= s@);
    }
    while start < n && cs[start] == '-'
        invariant
            cs@ == s@,
            n == s@.len(),
            start <= n,
            trim_leading_dashes(s@) == trim_leading_dashes(s@.subrange(start as int, n as int)),
        decreases n - start,
    {
        proof {
            lemma_trim_leading_step(s@, start as int);
        }
        start = start + 1;
    }
    let ghost lead = s@.subrange(start as int, n as int);
    assert(trim_leading_dashes(lead) == lead) by {
        if lead.len() > 0 {
            assert(lead[0] == s@[start as int]);
        }
    }
    let mut end: usize = n;
    proof {
        assert(lead.subrange(0, lead.len() as int) =~= lead);
    }
    while end > start && cs[end - 1] == '-'
        invariant
            cs@ == s@,
            n == s@.len(),
            start <= end <= n,
            lead == s@.subrange(start as int, n as int),
            trim_trailing_dashes(lead) == trim_trailing_dashes(lead.subrange(0, end - start)),
        decreases end - start,
    {
        proof {
            assert(lead[end - start - 1] == s@[end - 1]);
            lemma_trim_trailing_step(lead, end - start);
        }
        end = end - 1;
    }
    let piece = s.substring_char(start, end);
    proof {
        let t = lead.subrange(0, end - start);
        assert(piece@ =~= t);
        if t.len() > 0 {
            assert(t.last() == s@[end - 1]);
        }
    }
    String::from_str(piece)
}

impl Team {
    /// Validate slug format: 1-50 bytes of lower-case letters, digits and
    /// hyphens, not starting or ending with a hyphen.
    pub fn validate_slug(slug: &str) -> (r: Result<(), Error>)
        ensures
            match r {
                Ok(()) => slug_error(slug@) is None,
                Err(e) => slug_error(slug@) == Some(e@.1) && e@.0 == ErrorKind::Validation,
            },
    {
        if slug.is_empty() || slug.len() > 50 {
            return Err(validation_error("Slug must be 1-50 characters"));
        }
        if !check_slug_chars(slug) {
            return Err(validation_error("Slug must contain only lowercase letters, numbers, and hyphens"));
        }
        let first = slug.get_char(0);
        let last = slug.get_char(slug.unicode_len() - 1);
        if first == '-' || last == '-' {
            return Err(validation_error("Slug cannot start or end with a hyphen"));
        }
        Ok(())
    }

    /// Generate a slug from a name, with a random suffix for uniqueness.
    fn generate_slug(name: &str) -> (r: Result<String, Error>)
        ensures
            slug_base(name@).len() == 0 ==> r is Err && r->Err_0@ == validation(
                "Cannot generate valid slug from name"@,
            ),
            slug_base(name@).len() > 0 && generated_slug_error(name@) is None ==> (r matches Ok(s) && exists|
                id: u128,
            | s@ == #[trigger] generated_slug(name@, id)),
            slug_base(name@).len() > 0 && generated_slug_error(name@) is Some ==> r is Err && r->Err_0@ == validation(
                generated_slug_error(name@)->0,
            ),
            r matches Ok(s) ==> slug_error(s@) is None,
    {
        let lower = to_lowercase(name);
        let lc = chars_of(lower.as_str());
        let mut mapped = String::new();
        let mut i: usize = 0;
        proof {
            reveal_strlit("-");
        }
        while i < lc.len()
            invariant
                lc@ == lower@,
                lower@ == spec_to_lowercase(name@),
                i <= lc.len(),
                mapped@ == dash_non_alnum(lower@.subrange(0, i as int)),
            decreases lc.len() - i,
        {
            let c = lc[i];
            proof {
                reveal_strlit("-");
            }
            if is_alphanumeric(c) {
                let piece = lower.as_str().substring_char(i, i + 1);
                mapped.append(piece);
            } else {
                mapped.append("-");
            }
            i = i + 1;
            assert(mapped@ =~= dash_non_alnum(lower@.subrange(0, i as int)));
        }
        assert(lower@.subrange(0, lc.len() as int) =~= lower@);
        let base = trim_dashes(mapped.as_str());
        if base.as_str().is_empty() {
            return Err(validation_error("Cannot generate valid slug from name"));
        }
        let id = new_uuid_v4();
        let text = uuid_text(id);
        let suffix = text.as_str().substring_char(0, 8);
        let mut slug = base;
        slug.append("-");
        slug.append(suffix);
        proof {
            reveal_strlit("-");
            assert(mapped@ == dash_non_alnum(spec_to_lowercase(name@)));
            assert(suffix@ == spec_uuid_text(id).subrange(0, 8));
        }
        assert(slug@ =~= generated_slug(name@, id));
        proof {
            lemma_generated_slug_error(name@, id);
        }
        match Self::validate_slug(slug.as_str()) {
            Ok(()) => Ok(slug),
            Err(e) => Err(e),
        }
    }

    /// Create a new team at time `now` with the given id, validating the name
    /// and the slug (or generating a slug when none is given).
    pub fn new_at(id: u128, name: String, slug: Option<String>, now: i64) -> (r: Result<Team, Error>)
        ensures
            team_name_error(name@) is Some ==> r is Err && r->Err_0@ == validation(team_name_error(name@)->0),
            team_name_error(name@) is None ==> match slug {
                Some(s) => match r {
                    Ok(t) => slug_error(s@) is None && t.slug@ == s@,
                    Err(e) => e@.0 == ErrorKind::Validation && slug_error(s@) == Some(e@.1),
                },
                None => {
                    &&& slug_base(name@).len() == 0 ==> r is Err && r->Err_0@ == validation(
                        "Cannot generate valid slug from name"@,
                    )
                    &&& slug_base(name@).len() > 0 && generated_slug_error(name@) is None ==> (r matches Ok(t)
                        && exists|id: u128| t.slug@ == #[trigger] generated_slug(name@, id))
                    &&& slug_base(name@).len() > 0 && generated_slug_error(name@) is Some ==> r is Err
                        && r->Err_0@ == validation(generated_slug_error(name@)->0)
                },
            },
            r matches Ok(t) ==> t.id == id && t.name@ == name@ && t.credits == 0 && t.ephemeral_storage_bytes == 0
                && t.created_at == now && t.updated_at == now && team_invariant_error(t) is None,
    {
        if name.as_str().is_empty() || name.as_str().len() > 100 {
            return Err(validation_error("Team name must be 1-100 characters"));
        }
        let slug = match slug {
            Some(s) => {
                match Self::validate_slug(s.as_str()) {
                    Ok(()) => {},
                    Err(e) => {
                        return Err(e);
                    },
                }
                s
            },
            None => match Self::generate_slug(name.as_str()) {
                Ok(g) => g,
                Err(e) => {
                    return Err(e);
                },
            },
        };
        Ok(Team {
            id,
            name,
            slug,
            credits: 0,
            ephemeral_storage_bytes: 0,
            settings: empty_json_object(),
            created_at: now,
            updated_at: now,
        })
    }

    /// Create a new team with a fresh id, stamped with the current time.
    pub fn new(name: String, slug: Option<String>) -> (r: Result<Team, Error>)
        ensures
            team_name_error(name@) is Some ==> r is Err && r->Err_0@ == validation(team_name_error(name@)->0),
            team_name_error(name@) is None ==> match slug {
                Some(s) => match r {
                    Ok(t) => slug_error(s@) is None && t.slug@ == s@,
                    Err(e) => e@.0 == ErrorKind::Validation && slug_error(s@) == Some(e@.1),
                },
                None => {
                    &&& slug_base(name@).len() == 0 ==> r is Err && r->Err_0@ == validation(
                        "Cannot generate valid slug from name"@,
                    )
                    &&& slug_base(name@).len() > 0 && generated_slug_error(name@) is None ==> (r matches Ok(t)
                        && exists|id: u128| t.slug@ == #[trigger] generated_slug(name@, id))
                    &&& slug_base(name@).len() > 0 && generated_slug_error(name@) is Some ==> r is Err
                        && r->Err_0@ == validation(generated_slug_error(name@)->0)
                },
            },
            r matches Ok(t) ==> t.name@ == name@ && t.credits == 0 && team_invariant_error(t) is None,
    {
        let id = new_uuid_v4();
        let now = now_micros();
        Team::new_at(id, name, slug, now)
    }

    /// Validate the team's invariants.
    pub fn validate(&self) -> (r: Result<(), Error>)
        ensures
            match r {
                Ok(()) => team_invariant_error(*self) is None,
                Err(e) => team_invariant_error(*self) == Some(e@.1) && e@.0 == ErrorKind::Validation,
            },
    {
        if self.name.as_str().is_empty() || self.name.as_str().len() > 100 {
            return Err(validation_error("Team name must be 1-100 characters"));
        }
        match Self::validate_slug(self.slug.as_str()) {
            Ok(()) => {},
            Err(e) => {
                return Err(e);
            },
        }
        if self.credits < 0 {
            return Err(validation_error("Team credits cannot be negative"));
        }
        if self.ephemeral_storage_bytes < 0 {
            return Err(validation_error("Team storage cannot be negative"));
        }
        Ok(())
    }

    /// The team's URN
    pub fn urn(&self) -> (r: Urn)
        ensures
            urn_parse_spec(r@) == Ok::<UrnView, (ErrorKind, Seq<char>)>(UrnView::Team { team_id: self.id }),
    {
        Urn::team(self.id)
    }
}

// ============================================================================
// Membership
// ============================================================================

/// Membership entity - association between User and Team
#[derive(Debug, Clone)]
pub struct Membership {
    pub id: u128,
    pub team_id: u128,
    pub user_id: u128,
    pub role: MembershipRole,
    pub created_at: i64,
}

impl Membership {
    /// Create a new membership with a fresh id, stamped with the current time.
    pub fn new(team_id: u128, user_id: u128, role: MembershipRole) -> (r: Self)
        ensures
            r.team_id == team_id && r.user_id == user_id && r.role == role,
    {
        Membership { id: new_uuid_v4(), team_id, user_id, role, created_at: now_micros() }
    }

    /// Validate invariants (references are checked by the database).
    pub fn validate(&self) -> (r: Result<(), Error>)
        ensures
            r is Ok,
    {
        Ok(())
    }
}

// ============================================================================
// Invitation
// ============================================================================

/// Invitation entity - pending invitation to join a team
#[derive(Debug, Clone)]
pub struct Invitation {
    pub id: u128,
    pub team_id: u128,
    pub invited_by: u128,
    pub email: String,
    pub role: InvitationRole,
    pub token: String,
    pub expires_at: i64,
    pub accepted_at: Option<i64>,
    pub declined_at: Option<i64>,
    pub revoked_at: Option<i64>,
    pub created_at: i64,
}

/// The state of an invitation at time `now`, derived from its timestamps.
pub open spec fn invitation_state_at(inv: Invitation, now: i64) -> InvitationState {
    if inv.accepted_at is Some {
        InvitationState::Accepted
    } else if inv.declined_at is Some {
        InvitationState::Declined
    } else if inv.revoked_at is Some {
        InvitationState::Revoked
    } else if inv.expires_at < now {
        InvitationState::Expired
    } else {
        InvitationState::Pending
    }
}

/// Whether an invitation's expiry has passed at time `now`.
pub open spec fn invitation_expired_at(inv: Invitation, now: i64) -> bool {
    inv.expires_at < now
}

/// The message an invitation email is refused with, if it is refused.
pub open spec fn invitation_email_error(email: Seq<char>) -> Option<Seq<char>> {
    if !email.contains('@') || email.len() == 0 {
        Some("Invalid email format"@)
    } else {
        None
    }
}

/// The number of terminal timestamps that are set.
pub open spec fn terminal_count(inv: Invitation) -> int {
    (if inv.accepted_at is Some { 1int } else { 0int }) + (if inv.declined_at is Some { 1int } else { 0int })
        + (if inv.revoked_at is Some { 1int } else { 0int })
}

/// The first invariant an invitation breaks, as the message it is refused with.
pub open spec fn invitation_invariant_error(inv: Invitation) -> Option<Seq<char>> {
    if invitation_email_error(inv.email@) is Some {
        invitation_email_error(inv.email@)
    } else if terminal_count(inv) > 1 {
        Some("Invitation cannot have multiple terminal states"@)
    } else if inv.created_at >= inv.expires_at {
        Some("Expiration must be after creation"@)
    } else {
        None
    }
}

/// The message that a refused state transition of an entity is reported
/// with: `invalid` starts the message for an event that does not apply,
/// `terminal` the message for a state that cannot move.
pub open spec fn transition_error_message(invalid: Seq<char>, terminal: Seq<char>, e: StateErrorView) -> Seq<char> {
    match e {
        StateErrorView::InvalidTransition { from, to, event } => invalid + event + "' event from '"@ + from
            + "' state"@,
        StateErrorView::TerminalState(st) => terminal + st + "' and cannot transition"@,
        StateErrorView::GuardFailed(m) => m,
    }
}

/// The model of a transition result after its error is mapped to an entity error.
pub open spec fn mapped_transition<S>(
    r: Result<S, StateErrorView>,
    invalid: Seq<char>,
    terminal: Seq<char>,
) -> Result<S, (ErrorKind, Seq<char>)> {
    match r {
        Ok(s) => Ok(s),
        Err(e) => Err(validation(transition_error_message(invalid, terminal, e))),
    }
}

/// Turns a state machine error into the validation error an entity reports.
pub fn map_state_error(e: StateError, invalid: &str, terminal: &str) -> (r: Error)
    ensures
        r@ == validation(transition_error_message(invalid@, terminal@, e@)),
{
    match e {
        StateError::InvalidTransition { from, to: _, event } => {
            let mut m = String::from_str(invalid);
            m.append(event.as_str());
            m.append("' event from '");
            m.append(from.as_str());
            m.append("' state");
            Error::Validation(m)
        },
        StateError::TerminalState(st) => {
            let mut m = String::from_str(terminal);
            m.append(st.as_str());
            m.append("' and cannot transition");
            Error::Validation(m)
        },
        StateError::GuardFailed(m) => Error::Validation(m),
    }
}

pub open spec fn invitation_invalid_prefix() -> Seq<char> {
    "Invalid invitation transition: cannot apply '"@
}

pub open spec fn invitation_terminal_prefix() -> Seq<char> {
    "Invitation is in terminal state '"@
}

/// The outcome of applying `event` to an invitation at time `now`.
pub open spec fn invitation_apply_spec(inv: Invitation, event: InvitationEvent, now: i64) -> Result<
    MachineInvitationState,
    (ErrorKind, Seq<char>),
> {
    mapped_transition(
        invitation_transition_spec(
            invitation_state_at(inv, now).spec_to_state(),
            event,
            Some(&InvitationGuardContext { is_expired: inv.expires_at < now }),
        ),
        invitation_invalid_prefix(),
        invitation_terminal_prefix(),
    )
}

impl Invitation {
    /// Create a new invitation at time `now` with the given id and token
    /// bytes, expiring seven days later.
    pub fn new_at(
        id: u128,
        team_id: u128,
        invited_by: u128,
        email: String,
        role: InvitationRole,
        token_bytes: &[u8],
        now: i64,
    ) -> (r: Result<Invitation, Error>)
        requires
            now <= i64::MAX - INVITATION_LIFETIME_MICROS,
        ensures
            invitation_email_error(email@) is Some ==> r is Err && r->Err_0@ == validation(
                invitation_email_error(email@)->0,
            ),
            invitation_email_error(email@) is None ==> r is Ok,
            r matches Ok(inv) ==> {
                &&& inv.id == id && inv.team_id == team_id && inv.invited_by == invited_by
                &&& inv.email@ == email@ && inv.role == role
                &&& inv.token@ == spec_base64_url_no_pad(token_bytes@)
                &&& inv.created_at == now && inv.expires_at == now + INVITATION_LIFETIME_MICROS
                &&& inv.accepted_at is None && inv.declined_at is None && inv.revoked_at is None
                &&& invitation_invariant_error(inv) is None
                &&& invitation_state_at(inv, now) == InvitationState::Pending
            },
    {
        if !contains_char(email.as_str(), '@') || email.as_str().is_empty() {
            return Err(validation_error("Invalid email format"));
        }
        let token = base64_url_no_pad(token_bytes);
        Ok(Invitation {
            id,
            team_id,
            invited_by,
            email,
            role,
            token,
            expires_at: now + INVITATION_LIFETIME_MICROS,
            accepted_at: None,
            declined_at: None,
            revoked_at: None,
            created_at: now,
        })
    }

    /// Create a new invitation with a fresh id and a token of 32 random bytes
    /// (URL-safe base64 without padding), stamped with the current time.
    pub fn new(team_id: u128, invited_by: u128, email: String, role: InvitationRole) -> (r: Result<Invitation, Error>)
        ensures
            invitation_email_error(email@) is Some ==> r is Err && r->Err_0@ == validation(
                invitation_email_error(email@)->0,
            ),
            r matches Ok(inv) ==> {
                &&& inv.team_id == team_id && inv.invited_by == invited_by
                &&& inv.email@ == email@ && inv.role == role
                &&& inv.expires_at == inv.created_at + INVITATION_LIFETIME_MICROS
                &&& invitation_invariant_error(inv) is None
                &&& invitation_state_at(inv, inv.created_at) == InvitationState::Pending
                &&& exists|b: Seq<u8>| b.len() == 32 && inv.token@ == spec_base64_url_no_pad(b)
                &&& inv.token@.len() == 43
            },
            r matches Err(e) ==> invitation_email_error(email@) is Some || e@.0 == ErrorKind::Internal,
    {
        if !contains_char(email.as_str(), '@') || email.as_str().is_empty() {
            return Err(validation_error("Invalid email format"));
        }
        let bytes = match random_bytes_32() {
            Ok(b) => b,
            Err(msg) => {
                let mut m = String::from_str("Failed to generate random bytes: ");
                m.append(msg.as_str());
                return Err(Error::Internal(m));
            },
        };
        let id = new_uuid_v4();
        let now = now_micros();
        let r = Invitation::new_at(id, team_id, invited_by, email, role, bytes.as_slice(), now);
        assert(base64_unpadded_len(32) == 43);
        r
    }

    /// The invitation's state at time `now`.
    pub fn state_at(&self, now: i64) -> (r: InvitationState)
        ensures
            r == invitation_state_at(*self, now),
    {
        if self.accepted_at.is_some() {
            InvitationState::Accepted
        } else if self.declined_at.is_some() {
            InvitationState::Declined
        } else if self.revoked_at.is_some() {
            InvitationState::Revoked
        } else if self.expires_at < now {
            InvitationState::Expired
        } else {
            InvitationState::Pending
        }
    }

    /// The invitation's current state.
    pub fn state(&self) -> (r: InvitationState)
        ensures
            exists|now: i64| r == invitation_state_at(*self, now),
    {
        let now = now_micros();
        self.state_at(now)
    }

    /// Whether the invitation can still be acted upon at time `now`.
    pub fn is_actionable_at(&self, now: i64) -> (r: bool)
        ensures
            r == (invitation_state_at(*self, now) is Pending),
    {
        !self.state_at(now).is_terminal()
    }

    /// Whether the invitation can still be acted upon.
    pub fn is_actionable(&self) -> (r: bool)
        ensures
            exists|now: i64| r == (invitation_state_at(*self, now) is Pending),
    {
        let now = now_micros();
        self.is_actionable_at(now)
    }

    /// Whether the invitation has expired by time `now`.
    pub fn is_expired_at(&self, now: i64) -> (r: bool)
        ensures
            r == (self.expires_at < now),
    {
        self.expires_at < now
    }

    /// Whether the invitation has expired.
    pub fn is_expired(&self) -> (r: bool)
        ensures
            exists|now: i64| 0 <= now && r == #[trigger] invitation_expired_at(*self, now),
    {
        let now = now_micros();
        let r = self.is_expired_at(now);
        assert(r == invitation_expired_at(*self, now));
        r
    }

    /// Apply a state transition at time `now`, with the expiry guard.
    fn apply_transition_at(&self, event: InvitationEvent, now: i64) -> (r: Result<MachineInvitationState, Error>)
        ensures
            res_view(r) == invitation_apply_spec(*self, event, now),
    {
        let current = self.state_at(now).to_state();
        let context = InvitationGuardContext { is_expired: self.is_expired_at(now) };
        match InvitationStateMachine::transition(current, event, Some(&context)) {
            Ok(s) => Ok(s),
            Err(e) => Err(map_state_error(
                e,
                "Invalid invitation transition: cannot apply '",
                "Invitation is in terminal state '",
            )),
        }
    }

    /// Accept the invitation at time `now`.
    pub fn accept_at(&mut self, now: i64) -> (r: Result<(), Error>)
        ensures
            invitation_apply_spec(*old(self), InvitationEvent::Accept, now) is Ok ==> r is Ok && *final(self) == (
            Invitation { accepted_at: Some(now), ..*old(self) }),
            invitation_apply_spec(*old(self), InvitationEvent::Accept, now) is Err ==> r is Err && *final(self)
                == *old(self) && r->Err_0@ == invitation_apply_spec(*old(self), InvitationEvent::Accept, now)->Err_0,
    {
        match self.apply_transition_at(InvitationEvent::Accept, now) {
            Ok(_) => {},
            Err(e) => {
                return Err(e);
            },
        }
        self.accepted_at = Some(now);
        Ok(())
    }

    /// Decline the invitation (invitee-initiated) at time `now`.
    pub fn decline_at(&mut self, now: i64) -> (r: Result<(), Error>)
        ensures
            invitation_apply_spec(*old(self), InvitationEvent::Decline, now) is Ok ==> r is Ok && *final(self) == (
            Invitation { declined_at: Some(now), ..*old(self) }),
            invitation_apply_spec(*old(self), InvitationEvent::Decline, now) is Err ==> r is Err && *final(self)
                == *old(self) && r->Err_0@ == invitation_apply_spec(*old(self), InvitationEvent::Decline, now)->Err_0,
    {
        match self.apply_transition_at(InvitationEvent::Decline, now) {
            Ok(_) => {},
            Err(e) => {
                return Err(e);
            },
        }
        self.declined_at = Some(now);
        Ok(())
    }

    /// Revoke the invitation (admin-initiated) at time `now`.
    pub fn revoke_at(&mut self, now: i64) -> (r: Result<(), Error>)
        ensures
            invitation_apply_spec(*old(self), InvitationEvent::Revoke, now) is Ok ==> r is Ok && *final(self) == (
            Invitation { revoked_at: Some(now), ..*old(self) }),
            invitation_apply_spec(*old(self), InvitationEvent::Revoke, now) is Err ==> r is Err && *final(self)
                == *old(self) && r->Err_0@ == invitation_apply_spec(*old(self), InvitationEvent::Revoke, now)->Err_0,
    {
        match self.apply_transition_at(InvitationEvent::Revoke, now) {
            Ok(_) => {},
            Err(e) => {
                return Err(e);
            },
        }
        self.revoked_at = Some(now);
        Ok(())
    }

    /// Accept the invitation now.
    pub fn accept(&mut self) -> (r: Result<(), Error>)
        ensures
            exists|now: i64| {
                &&& invitation_apply_spec(*old(self), InvitationEvent::Accept, now) is Ok ==> r is Ok && *final(self)
                    == (Invitation { accepted_at: Some(now), ..*old(self) })
                &&& invitation_apply_spec(*old(self), InvitationEvent::Accept, now) is Err ==> r is Err && *final(self) == *old(self)
                    && r->Err_0@ == invitation_apply_spec(*old(self), InvitationEvent::Accept, now)->Err_0
            },
    {
        let now = now_micros();
        self.accept_at(now)
    }

    /// Decline the invitation now.
    pub fn decline(&mut self) -> (r: Result<(), Error>)
        ensures
            exists|now: i64| {
                &&& invitation_apply_spec(*old(self), InvitationEvent::Decline, now) is Ok ==> r is Ok && *final(self)
                    == (Invitation { declined_at: Some(now), ..*old(self) })
                &&& invitation_apply_spec(*old(self), InvitationEvent::Decline, now) is Err ==> r is Err && *final(self) == *old(self)
                    && r->Err_0@ == invitation_apply_spec(*old(self), InvitationEvent::Decline, now)->Err_0
            },
    {
        let now = now_micros();
        self.decline_at(now)
    }

    /// Revoke the invitation now.
    pub fn revoke(&mut self) -> (r: Result<(), Error>)
        ensures
            exists|now: i64| {
                &&& invitation_apply_spec(*old(self), InvitationEvent::Revoke, now) is Ok ==> r is Ok && *final(self)
                    == (Invitation { revoked_at: Some(now), ..*old(self) })
                &&& invitation_apply_spec(*old(self), InvitationEvent::Revoke, now) is Err ==> r is Err && *final(self) == *old(self)
                    && r->Err_0@ == invitation_apply_spec(*old(self), InvitationEvent::Revoke, now)->Err_0
            },
    {
        let now = now_micros();
        self.revoke_at(now)
    }

    /// Whether `event` could be applied at time `now`.
    pub fn can_transition_at(&self, event: &InvitationEvent, now: i64) -> (r: bool)
        ensures
            r == invitation_apply_spec(*self, *event, now) is Ok,
    {
        let context = InvitationGuardContext { is_expired: self.is_expired_at(now) };
        InvitationStateMachine::can_transition(self.state_at(now).to_state(), event, Some(&context))
    }

    /// Whether `event` could be applied now.
    pub fn can_transition(&self, event: &InvitationEvent) -> (r: bool)
        ensures
            exists|now: i64| r == invitation_apply_spec(*self, *event, now) is Ok,
    {
        let now = now_micros();
        self.can_transition_at(event, now)
    }

    /// Validate the invitation's invariants.
    pub fn validate(&self) -> (r: Result<(), Error>)
        ensures
            match r {
                Ok(()) => invitation_invariant_error(*self) is None,
                Err(e) => invitation_invariant_error(*self) == Some(e@.1) && e@.0 == ErrorKind::Validation,
            },
    {
        if !contains_char(self.email.as_str(), '@') || self.email.as_str().is_empty() {
            return Err(validation_error("Invalid email format"));
        }
        let mut count: u8 = 0;
        if self.accepted_at.is_some() {
            count = count + 1;
        }
        if self.declined_at.is_some() {
            count = count + 1;
        }
        if self.revoked_at.is_some() {
            count = count + 1;
        }
        if count > 1 {
            return Err(validation_error("Invitation cannot have multiple terminal states"));
        }
        if self.created_at >= self.expires_at {
            return Err(validation_error("Expiration must be after creation"));
        }
        Ok(())
    }
}

/// A pending invitation that is accepted before it expires becomes accepted,
/// and stays accepted at every later time; an invitation whose expiry has
/// passed cannot be accepted, and is left as it was.
pub proof fn lemma_invitation_acceptance(inv: Invitation, now: i64, later: i64)
    requires
        inv.accepted_at is None && inv.declined_at is None && inv.revoked_at is None,
    ensures
        inv.expires_at >= now ==> invitation_apply_spec(inv, InvitationEvent::Accept, now)
            == Ok::<MachineInvitationState, (ErrorKind, Seq<char>)>(MachineInvitationState::Accepted),
        invitation_state_at(Invitation { accepted_at: Some(now), ..inv }, later) == InvitationState::Accepted,
        inv.expires_at < now ==> invitation_apply_spec(inv, InvitationEvent::Accept, now) is Err,
{
}

/// Once an invitation is accepted, declined or revoked, no further event
/// applies to it at any time.
pub proof fn lemma_decided_invitation_is_final(inv: Invitation, event: InvitationEvent, now: i64)
    requires
        inv.accepted_at is Some || inv.declined_at is Some || inv.revoked_at is Some,
    ensures
        invitation_apply_spec(inv, event, now) is Err,
{
}

// ============================================================================
// API key
// ============================================================================

/// API key entity
#[derive(Debug, Clone)]
pub struct ApiKey {
    pub id: u128,
    pub user_id: u128,
    /// The owner's URN text
    pub owner: String,
    pub name: String,
    pub key_prefix: String,
    pub key_hash: String,
    pub scopes: Vec<String>,
    pub last_used_at: Option<i64>,
    pub expires_at: Option<i64>,
    pub revoked_at: Option<i64>,
    pub created_at: i64,
}

/// The message an API key name is refused with, if it is refused.
pub open spec fn api_key_name_error(name: Seq<char>) -> Option<Seq<char>> {
    if byte_len(name) > 100 {
        Some("Key name must be ≤100 characters"@)
    } else {
        None
    }
}

/// The first invariant an API key breaks, as the error it is refused with.
pub open spec fn api_key_invariant_error(k: ApiKey) -> Option<(ErrorKind, Seq<char>)> {
    if api_key_name_error(k.name@) is Some {
        Some(validation(api_key_name_error(k.name@)->0))
    } else if k.key_hash@.len() == 0 {
        Some(validation("Key hash cannot be empty"@))
    } else if urn_parse_spec(k.owner@) is Err {
        Some(urn_parse_spec(k.owner@)->Err_0)
    } else {
        None
    }
}

/// Whether a key is usable at time `now`: not revoked, and not past its expiry.
pub open spec fn api_key_valid_at(k: ApiKey, now: i64) -> bool {
    k.revoked_at is None && !(k.expires_at matches Some(e) && e < now)
}

/// The secret of a generated key: `sk_live_` and the UUID's hex digits.
pub open spec fn generated_key(id: u128) -> Seq<char> {
    "sk_live_"@ + remove_char_spec(spec_uuid_text(id), '-')
}

/// A generated key is `sk_live_` followed by 32 lower-case hex digits.
pub proof fn lemma_generated_key_form(id: u128)
    ensures
        generated_key(id) == "sk_live_"@ + uuid_hex(id),
        uuid_hex(id).len() == 32,
        forall|i: int| 0 <= i < 32 ==> is_lower_hex_digit(#[trigger] uuid_hex(id)[i]),
{
    lemma_uuid_text_without_hyphens(id);
    lemma_uuid_hex_form(id);
}

impl ApiKey {
    /// Create a new API key for `owner` with the given id, secret id, salt and
    /// creation time. The name defaults to `Default`, the scopes to `*`.
    pub fn new_with(
        id: u128,
        user_id: u128,
        owner: &Urn,
        name: Option<String>,
        scopes: Option<Vec<String>>,
        secret_id: u128,
        salt: &[u8],
        now: i64,
    ) -> (r: Result<ApiKey, Error>)
        ensures
            match name {
                Some(n) => (api_key_name_error(n@) is Some ==> r is Err && r->Err_0@ == validation(
                    api_key_name_error(n@)->0,
                )) && (api_key_name_error(n@) is None ==> r is Ok),
                None => r is Ok,
            },
            r matches Ok(k) ==> {
                &&& k.id == id && k.user_id == user_id && k.owner@ == owner@
                &&& k.name@ == (match name { Some(n) => n@, None => "Default"@ })
                &&& (name is Some ==> api_key_name_error(k.name@) is None)
                &&& k.key_prefix@ == "sk_live_"@
                &&& k.key_hash@ == hash_key_spec(generated_key(secret_id), salt@)
                &&& (match scopes { Some(s) => k.scopes@ == s@, None => k.scopes@.len() == 1 && k.scopes@[0]@ == "*"@ })
                &&& k.last_used_at is None && k.expires_at is None && k.revoked_at is None && k.created_at == now
            },
    {
        // The default name is well within the limit, so only a given name is checked.
        let name = match name {
            Some(n) => {
                if n.as_str().len() > 100 {
                    return Err(validation_error("Key name must be ≤100 characters"));
                }
                n
            },
            None => String::from_str("Default"),
        };
        let scopes = match scopes {
            Some(s) => s,
            None => {
                let mut v: Vec<String> = Vec::new();
                v.push(String::from_str("*"));
                v
            },
        };
        let key_prefix = String::from_str("sk_live_");
        let text = uuid_text(secret_id);
        let digits = remove_char(text.as_str(), '-');
        let mut full_key = String::from_str("sk_live_");
        full_key.append(digits.as_str());
        let key_hash = hash_key(full_key.as_str(), salt);
        Ok(ApiKey {
            id,
            user_id,
            owner: owner.to_string(),
            name,
            key_prefix,
            key_hash,
            scopes,
            last_used_at: None,
            expires_at: None,
            revoked_at: None,
            created_at: now,
        })
    }

    /// Create a new API key with validation: a fresh `sk_live_` secret is
    /// hashed with a random 32-byte salt. (The secret itself is not kept.)
    pub fn new(user_id: u128, owner: &Urn, name: Option<String>, scopes: Option<Vec<String>>) -> (r: Result<
        ApiKey,
        Error,
    >)
        ensures
            match name {
                Some(n) => (api_key_name_error(n@) is Some ==> r is Err && r->Err_0@ == validation(
                    api_key_name_error(n@)->0,
                )) && (api_key_name_error(n@) is None ==> r is Ok),
                None => r is Ok,
            },
            r matches Ok(k) ==> {
                &&& k.user_id == user_id && k.owner@ == owner@
                &&& k.name@ == (match name { Some(n) => n@, None => "Default"@ })
                &&& k.key_prefix@ == "sk_live_"@
                &&& exists|secret_id: u128, salt: Seq<u8>| salt.len() == 32 && k.key_hash@ == hash_key_spec(
                    generated_key(secret_id),
                    salt,
                )
                &&& k.revoked_at is None && k.expires_at is None
            },
    {
        let secret_id = new_uuid_v4();
        let salt = random_salt();
        let id = new_uuid_v4();
        let now = now_micros();
        ApiKey::new_with(id, user_id, owner, name, scopes, secret_id, salt.as_slice(), now)
    }

    /// Whether the key is usable at time `now` (not revoked or expired).
    pub fn is_valid_at(&self, now: i64) -> (r: bool)
        ensures
            r == api_key_valid_at(*self, now),
    {
        if self.revoked_at.is_some() {
            return false;
        }
        if let Some(expires_at) = self.expires_at {
            if expires_at < now {
                return false;
            }
        }
        true
    }

    /// Whether the key is usable now (not revoked or expired).
    pub fn is_valid(&self) -> (r: bool)
        ensures
            exists|now: i64| r == api_key_valid_at(*self, now),
    {
        let now = now_micros();
        self.is_valid_at(now)
    }

    /// Revoke the key at time `now`.
    pub fn revoke_at(&mut self, now: i64)
        ensures
            *final(self) == (ApiKey { revoked_at: Some(now), ..*old(self) }),
    {
        self.revoked_at = Some(now);
    }

    /// Revoke the key now.
    pub fn revoke(&mut self)
        ensures
            final(self).revoked_at is Some,
            *final(self) == (ApiKey { revoked_at: final(self).revoked_at, ..*old(self) }),
    {
        let now = now_micros();
        self.revoke_at(now);
    }

    /// The owner's URN.
    pub fn owner_urn(&self) -> (r: Result<Urn, Error>)
        ensures
            match r {
                Ok(u) => u@ == self.owner@ && urn_valid(self.owner@),
                Err(e) => urn_parse_spec(self.owner@) is Err && e@ == urn_parse_spec(self.owner@)->Err_0,
            },
    {
        Urn::new(self.owner.as_str())
    }

    /// Validate the key's invariants.
    pub fn validate(&self) -> (r: Result<(), Error>)
        ensures
            match r {
                Ok(()) => api_key_invariant_error(*self) is None,
                Err(e) => api_key_invariant_error(*self) == Some(e@),
            },
    {
        if self.name.as_str().len() > 100 {
            return Err(validation_error("Key name must be ≤100 characters"));
        }
        if self.key_hash.as_str().is_empty() {
            return Err(validation_error("Key hash cannot be empty"));
        }
        match self.owner_urn() {
            Ok(_) => Ok(()),
            Err(e) => Err(e),
        }
    }

    /// Hash an API key with a salt: `hex(salt):hex(sha256(key || salt))`.
    pub fn hash_key(key: &str, salt: &[u8]) -> (r: String)
        ensures
            r@ == hash_key_spec(key@, salt@),
    {
        hash_key(key, salt)
    }

    /// Verify a candidate key against the stored hash, in constant time.
    pub fn verify_key(&self, candidate_key: &str) -> (r: bool)
        ensures
            r == verify_key_hash_spec(candidate_key@, self.key_hash@),
    {
        verify_key_hash(candidate_key, self.key_hash.as_str())
    }
}

} // verus!
