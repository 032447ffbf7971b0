//! Configuration values read from the process environment.
//!
//! The environment itself is read at the edge of the service; the services'
//! configurations are derived from the variables it hands over.

use vstd::prelude::*;

use crate::text::{split_on, split_spec, trim, trim_spec, text_eq, views};

verus! {

/// A snapshot of environment variables, as name and value pairs.
#[derive(Debug, Clone)]
pub struct EnvVars {
    pub vars: Vec<(String, String)>,
}

pub open spec fn pair_views(v: Seq<(String, String)>) -> Seq<(Seq<char>, Seq<char>)> {
    v.map_values(|p: (String, String)| (p.0@, p.1@))
}

/// The value of the first variable named `key`, from index `i` on.
pub open spec fn env_lookup(vars: Seq<(Seq<char>, Seq<char>)>, key: Seq<char>, i: int) -> Option<Seq<char>>
    decreases vars.len() - i,
{
    if i < 0 || i >= vars.len() {
        None
    } else if vars[i].0 == key {
        Some(vars[i].1)
    } else {
        env_lookup(vars, key, i + 1)
    }
}

pub open spec fn opt_text(o: Option<String>) -> Option<Seq<char>> {
    match o {
        Some(s) => Some(s@),
        None => None,
    }
}

impl EnvVars {
    /// The value of the variable `key`, if it is set.
    pub open spec fn spec_get(&self, key: Seq<char>) -> Option<Seq<char>> {
        env_lookup(pair_views(self.vars@), key, 0)
    }

    /// The value of the variable `key`, if it is set.
    pub fn get(&self, key: &str) -> (r: Option<String>)
        ensures
            opt_text(r) == self.spec_get(key@),
    {
        let ghost vs = pair_views(self.vars@);
        let mut i: usize = 0;
        while i < self.vars.len()
            invariant
                i <= self.vars.len(),
                vs == pair_views(self.vars@),
                env_lookup(vs, key@, 0) == env_lookup(vs, key@, i as int),
            decreases self.vars.len() - i,
        {
            assert(vs[i as int] == (self.vars@[i as int].0@, self.vars@[i as int].1@));
            if text_eq(self.vars[i].0.as_str(), key) {
                return Some(String::from_str(self.vars[i].1.as_str()));
            }
            i = i + 1;
        }
        None
    }

    /// The value of the variable `key`, or `default` when it is not set.
    pub fn get_or(&self, key: &str, default: &str) -> (r: String)
        ensures
            r@ == (match self.spec_get(key@) {
                Some(v) => v,
                None => default@,
            }),
    {
        match self.get(key) {
            Some(v) => v,
            None => String::from_str(default),
        }
    }
}


/// Whether `c` is an ASCII decimal digit.
pub open spec fn is_digit(c: char) -> bool {
    '0' <= c <= '9'
}

/// The value of a string of decimal digits.
pub open spec fn digits_value(s: Seq<char>) -> nat
    decreases s.len(),
{
    if s.len() == 0 {
        0
    } else {
        digits_value(s.drop_last()) * 10 + (s.last() as nat - '0' as nat) as nat
    }
}

/// The text after an optional leading `+`.
pub open spec fn unsigned_part(s: Seq<char>) -> Seq<char> {
    if s.len() > 0 && s[0] == '+' {
        s.skip(1)
    } else {
        s
    }
}

/// What `str::parse::<u16>` gives: an optional `+`, then one or more decimal
/// digits whose value fits in 16 bits.
pub open spec fn parse_u16_spec(s: Seq<char>) -> Option<u16> {
    let d = unsigned_part(s);
    if d.len() > 0 && (forall|i: int| 0 <= i < d.len() ==> is_digit(#[trigger] d[i])) && digits_value(d) <= u16::MAX {
        Some(digits_value(d) as u16)
    } else {
        None
    }
}

proof fn lemma_digits_value_grows(s: Seq<char>, i: int)
    requires
        0 <= i <= s.len(),
        forall|j: int| 0 <= j < s.len() ==> is_digit(#[trigger] s[j]),
    ensures
        digits_value(s.subrange(0, i)) <= digits_value(s),
    decreases s.len() - i,
{
    if i < s.len() {
        lemma_digits_value_grows(s, i + 1);
        assert(s.subrange(0, i + 1).drop_last() =~= s.subrange(0, i));
    } else {
        assert(s.subrange(0, i) =~= s);
    }
}

/// Parses a port number as `str::parse::<u16>` does.
pub fn parse_u16(s: &str) -> (r: Option<u16>)
    ensures
        r == parse_u16_spec(s@),
{
    let cs = s.unicode_len();
    let start: usize = if cs > 0 && s.get_char(0) == '+' {
        1
    } else {
        0
    };
    let ghost d = unsigned_part(s@);
    assert(d =~= s@.subrange(start as int, cs as int));
    if start == cs {
        return None;
    }
    let mut value: u32 = 0;
    let mut i: usize = start;
    while i < cs
        invariant
            start <= i <= cs,
            cs == s@.len(),
            d == unsigned_part(s@),
            d =~= s@.subrange(start as int, cs as int),
            forall|j: int| start <= j < i ==> is_digit(#[trigger] s@[j]),
            value == digits_value(s@.subrange(start as int, i as int)),
            value <= u16::MAX,
        decreases cs - i,
    {
        let c = s.get_char(i);
        proof {
            assert(s@.subrange(start as int, i as int + 1).drop_last() =~= s@.subrange(start as int, i as int));
        }
        if !('0' <= c && c <= '9') {
            proof {
                assert(d[i - start] == s@[i as int]);
                assert(!is_digit(d[i - start]));
                assert(!(forall|j: int| 0 <= j < d.len() ==> is_digit(#[trigger] d[j])));
            }
            return None;
        }
        let digit = (c as u32) - ('0' as u32);
        let next = value * 10 + digit;
        proof {
            let x = s@.subrange(start as int, i as int + 1);
            assert(x.last() == c);
            assert(digits_value(x) == digits_value(x.drop_last()) * 10 + (x.last() as nat - '0' as nat) as nat);
            assert(next == digits_value(x));
        }
        if next > 65535 {
            proof {
                let k = i - start + 1;
                assert(d.subrange(0, k as int) =~= s@.subrange(start as int, i as int + 1));
                if forall|j: int| 0 <= j < d.len() ==> is_digit(#[trigger] d[j]) {
                    lemma_digits_value_grows(d, k as int);
                }
            }
            return None;
        }
        value = next;
        i = i + 1;
    }
    Some(value as u16)
}

/// The service configuration.
#[derive(Debug, Clone)]
pub struct Config {
    /// Database connection URL.
    pub database_url: String,
    pub supabase_url: String,
    pub supabase_anon_key: String,
    pub supabase_service_role_key: String,
    pub anthropic_api_key: String,
    pub inngest_event_key: String,
    pub inngest_signing_key: String,
    pub runpod_api_key: String,
    pub runpod_endpoint_id: String,
    pub s3_bucket_outputs: String,
    pub s3_bucket_assets: String,
    pub aws_region: String,
    pub log_level: String,
    pub rust_log: String,
    pub port: u16,
}

/// The variables a configuration cannot do without, in the order they are checked.
pub open spec fn required_vars() -> Seq<Seq<char>> {
    seq![
        "DATABASE_URL"@,
        "SUPABASE_URL"@,
        "SUPABASE_ANON_KEY"@,
        "SUPABASE_SERVICE_ROLE_KEY"@,
        "ANTHROPIC_API_KEY"@,
        "INNGEST_EVENT_KEY"@,
        "INNGEST_SIGNING_KEY"@,
        "RUNPOD_API_KEY"@,
        "RUNPOD_ENDPOINT_ID"@,
        "S3_BUCKET_OUTPUTS"@,
        "S3_BUCKET_ASSETS"@,
    ]
}

/// The first required variable, from index `i` on, that is not set.
pub open spec fn first_missing(env: EnvVars, i: int) -> Option<Seq<char>>
    decreases required_vars().len() - i,
{
    if i < 0 || i >= required_vars().len() {
        None
    } else if env.spec_get(required_vars()[i]) is None {
        Some(required_vars()[i])
    } else {
        first_missing(env, i + 1)
    }
}

fn require(env: &EnvVars, key: &str) -> (r: Result<String, String>)
    ensures
        match r {
            Ok(v) => env.spec_get(key@) == Some(v@),
            Err(m) => env.spec_get(key@) is None && m@ == key@ + " is required"@,
        },
{
    match env.get(key) {
        Some(v) => Ok(v),
        None => {
            let mut m = String::from_str(key);
            m.append(" is required");
            Err(m)
        },
    }
}

impl Config {
    /// The configuration the environment gives: every required variable must
    /// be set (the first missing one is reported); `AWS_REGION` defaults to
    /// `us-east-1`, `LOG_LEVEL` to `info`, `RUST_LOG` to `framecast=debug`,
    /// and `PORT` to 3000, also when it is not a port number.
    pub fn from_vars(env: &EnvVars) -> (r: Result<Config, String>)
        ensures
            match first_missing(*env, 0) {
                Some(k) => r matches Err(m) && m@ == k + " is required"@,
                None => r matches Ok(c) && {
                    &&& env.spec_get("DATABASE_URL"@) == Some(c.database_url@)
                    &&& env.spec_get("SUPABASE_URL"@) == Some(c.supabase_url@)
                    &&& env.spec_get("SUPABASE_ANON_KEY"@) == Some(c.supabase_anon_key@)
                    &&& env.spec_get("SUPABASE_SERVICE_ROLE_KEY"@) == Some(c.supabase_service_role_key@)
                    &&& env.spec_get("ANTHROPIC_API_KEY"@) == Some(c.anthropic_api_key@)
                    &&& env.spec_get("INNGEST_EVENT_KEY"@) == Some(c.inngest_event_key@)
                    &&& env.spec_get("INNGEST_SIGNING_KEY"@) == Some(c.inngest_signing_key@)
                    &&& env.spec_get("RUNPOD_API_KEY"@) == Some(c.runpod_api_key@)
                    &&& env.spec_get("RUNPOD_ENDPOINT_ID"@) == Some(c.runpod_endpoint_id@)
                    &&& env.spec_get("S3_BUCKET_OUTPUTS"@) == Some(c.s3_bucket_outputs@)
                    &&& env.spec_get("S3_BUCKET_ASSETS"@) == Some(c.s3_bucket_assets@)
                    &&& c.aws_region@ == (match env.spec_get("AWS_REGION"@) {
                        Some(v) => v,
                        None => "us-east-1"@,
                    })
                    &&& c.log_level@ == (match env.spec_get("LOG_LEVEL"@) {
                        Some(v) => v,
                        None => "info"@,
                    })
                    &&& c.rust_log@ == (match env.spec_get("RUST_LOG"@) {
                        Some(v) => v,
                        None => "framecast=debug"@,
                    })
                    &&& c.port == (match parse_u16_spec(
                        match env.spec_get("PORT"@) {
                            Some(v) => v,
                            None => "3000"@,
                        },
                    ) {
                        Some(p) => p,
                        None => 3000,
                    })
                },
            },
    {
        proof {
            reveal_with_fuel(first_missing, 12);
        }
        let database_url = match require(env, "DATABASE_URL") { Ok(v) => v, Err(m) => return Err(m) };
        let supabase_url = match require(env, "SUPABASE_URL") { Ok(v) => v, Err(m) => return Err(m) };
        let supabase_anon_key = match require(env, "SUPABASE_ANON_KEY") { Ok(v) => v, Err(m) => return Err(m) };
        let supabase_service_role_key = match require(env, "SUPABASE_SERVICE_ROLE_KEY") {
            Ok(v) => v,
            Err(m) => return Err(m),
        };
        let anthropic_api_key = match require(env, "ANTHROPIC_API_KEY") { Ok(v) => v, Err(m) => return Err(m) };
        let inngest_event_key = match require(env, "INNGEST_EVENT_KEY") { Ok(v) => v, Err(m) => return Err(m) };
        let inngest_signing_key = match require(env, "INNGEST_SIGNING_KEY") { Ok(v) => v, Err(m) => return Err(m) };
        let runpod_api_key = match require(env, "RUNPOD_API_KEY") { Ok(v) => v, Err(m) => return Err(m) };
        let runpod_endpoint_id = match require(env, "RUNPOD_ENDPOINT_ID") { Ok(v) => v, Err(m) => return Err(m) };
        let s3_bucket_outputs = match require(env, "S3_BUCKET_OUTPUTS") { Ok(v) => v, Err(m) => return Err(m) };
        let s3_bucket_assets = match require(env, "S3_BUCKET_ASSETS") { Ok(v) => v, Err(m) => return Err(m) };
        let aws_region = env.get_or("AWS_REGION", "us-east-1");
        let log_level = env.get_or("LOG_LEVEL", "info");
        let rust_log = env.get_or("RUST_LOG", "framecast=debug");
        let port_text = env.get_or("PORT", "3000");
        let port = match parse_u16(port_text.as_str()) {
            Some(p) => p,
            None => 3000,
        };
        Ok(
            Config {
                database_url,
                supabase_url,
                supabase_anon_key,
                supabase_service_role_key,
                anthropic_api_key,
                inngest_event_key,
                inngest_signing_key,
                runpod_api_key,
                runpod_endpoint_id,
                s3_bucket_outputs,
                s3_bucket_assets,
                aws_region,
                log_level,
                rust_log,
                port,
            },
        )
    }
}


/// Largest request body the service accepts: 5 MiB.
pub const MAX_BODY_SIZE: usize = 5242880;

/// The non-empty trimmed parts of a list of texts, in order.
pub open spec fn nonempty_trimmed(parts: Seq<Seq<char>>) -> Seq<Seq<char>>
    decreases parts.len(),
{
    if parts.len() == 0 {
        Seq::empty()
    } else {
        let rest = nonempty_trimmed(parts.drop_last());
        let t = trim_spec(parts.last());
        if t.len() == 0 {
            rest
        } else {
            rest.push(t)
        }
    }
}

/// The allowed CORS origins of a comma-separated list: each entry trimmed,
/// empty entries left out.
pub fn cors_origins(origins: &str) -> (r: Vec<String>)
    ensures
        views(r@) == nonempty_trimmed(split_spec(origins@, ',')),
{
    let parts = split_on(origins, ',');
    let ghost ps = views(parts@);
    let mut out: Vec<String> = Vec::new();
    let mut i: usize = 0;
    while i < parts.len()
        invariant
            i <= parts.len(),
            ps == views(parts@),
            ps == split_spec(origins@, ','),
            views(out@) == nonempty_trimmed(ps.subrange(0, i as int)),
        decreases parts.len() - i,
    {
        proof {
            assert(ps.subrange(0, i as int + 1).drop_last() =~= ps.subrange(0, i as int));
            assert(ps[i as int] == parts@[i as int]@);
        }
        let t = trim(parts[i].as_str());
        if t.as_str().unicode_len() > 0 {
            let ghost prev = out@;
            out.push(t);
            proof {
                assert(views(out@) =~= views(prev).push(t@));
            }
        }
        i = i + 1;
    }
    assert(ps.subrange(0, parts.len() as int) =~= ps);
    out
}
} // verus!
