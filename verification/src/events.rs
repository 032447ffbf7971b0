//! Event-driven workflows: the events sent to the workflow engine (Inngest),
//! its configuration and factory, the event endpoint of its HTTP client, and
//! a mock that records the events it is sent.
//!
//! Posting events over HTTP happens at the edge of the service.

use vstd::prelude::*;

use crate::settings::{opt_text, EnvVars};
use crate::text::text_eq;

verus! {

/// Why sending events failed.
#[derive(Debug, Clone)]
pub enum InngestError {
    Configuration(String),
    Request(String),
    Response(String),
}

impl InngestError {
    pub open spec fn spec_message(&self) -> Seq<char> {
        match self {
            InngestError::Configuration(m) => "Inngest configuration error: "@ + m@,
            InngestError::Request(m) => "Inngest request error: "@ + m@,
            InngestError::Response(m) => "Inngest response error: "@ + m@,
        }
    }

    /// The error's message.
    pub fn to_string(&self) -> (s: String)
        ensures
            s@ == self.spec_message(),
    {
        let (prefix, m) = match self {
            InngestError::Configuration(m) => ("Inngest configuration error: ", m),
            InngestError::Request(m) => ("Inngest request error: ", m),
            InngestError::Response(m) => ("Inngest response error: ", m),
        };
        let mut s = String::from_str(prefix);
        s.append(m.as_str());
        s
    }
}

/// An event for the workflow engine.
#[derive(Debug, Clone)]
pub struct InngestEvent {
    pub name: String,
    pub data: serde_json::Value,
    pub user: Option<serde_json::Value>,
    pub id: Option<String>,
    pub ts: Option<i64>,
}

/// The model of an event.
pub open spec fn event_view(e: InngestEvent) -> (Seq<char>, serde_json::Value, Option<serde_json::Value>, Option<Seq<char>>, Option<i64>) {
    (e.name@, e.data, e.user, opt_text(e.id), e.ts)
}

pub open spec fn event_views(es: Seq<InngestEvent>) -> Seq<(Seq<char>, serde_json::Value, Option<serde_json::Value>, Option<Seq<char>>, Option<i64>)> {
    es.map_values(|e: InngestEvent| event_view(e))
}

/// Workflow engine configuration. It has no `Debug`: the keys are secrets.
#[derive(Clone)]
pub struct InngestConfig {
    /// Provider (`inngest`, `mock`).
    pub provider: String,
    /// Key that authenticates with the event API.
    pub event_key: String,
    /// Base URL of the event API.
    pub base_url: String,
    /// Signing key for webhook verification.
    pub signing_key: Option<String>,
}

/// The message a non-mock provider without an event key is refused with.
pub open spec fn missing_key_message() -> Seq<char> {
    "INNGEST_EVENT_KEY is required for Inngest provider"@
}

impl InngestConfig {
    /// The configuration the environment gives: `INNGEST_PROVIDER` (default
    /// `mock`), `INNGEST_EVENT_KEY` (default `mock-event-key` for the mock,
    /// else empty), `INNGEST_BASE_URL` (default `http://localhost:8288`) and
    /// `INNGEST_SIGNING_KEY`; refused when a real provider has no event key.
    pub fn from_vars(env: &EnvVars) -> (r: Result<InngestConfig, InngestError>)
        ensures
            ({
                let provider = match env.spec_get("INNGEST_PROVIDER"@) {
                    Some(v) => v,
                    None => "mock"@,
                };
                let key = match env.spec_get("INNGEST_EVENT_KEY"@) {
                    Some(v) => v,
                    None => if provider == "mock"@ {
                        "mock-event-key"@
                    } else {
                        Seq::empty()
                    },
                };
                if provider != "mock"@ && key.len() == 0 {
                    r matches Err(InngestError::Configuration(m)) && m@ == missing_key_message()
                } else {
                    r matches Ok(c) && c.provider@ == provider && c.event_key@ == key && c.base_url@ == (
                    match env.spec_get("INNGEST_BASE_URL"@) {
                        Some(v) => v,
                        None => "http://localhost:8288"@,
                    }) && opt_text(c.signing_key) == env.spec_get("INNGEST_SIGNING_KEY"@)
                }
            }),
    {
        let provider = env.get_or("INNGEST_PROVIDER", "mock");
        let is_mock = text_eq(provider.as_str(), "mock");
        let event_key = match env.get("INNGEST_EVENT_KEY") {
            Some(k) => k,
            None => if is_mock {
                String::from_str("mock-event-key")
            } else {
                String::new()
            },
        };
        let base_url = env.get_or("INNGEST_BASE_URL", "http://localhost:8288");
        let signing_key = env.get("INNGEST_SIGNING_KEY");
        if !is_mock && event_key.as_str().unicode_len() == 0 {
            return Err(InngestError::Configuration(String::from_str("INNGEST_EVENT_KEY is required for Inngest provider")));
        }
        Ok(InngestConfig { provider, event_key, base_url, signing_key })
    }
}

/// The text without its trailing `c` characters (`str::trim_end_matches`).
pub open spec fn trim_end(s: Seq<char>, c: char) -> Seq<char>
    decreases s.len(),
{
    if s.len() > 0 && s.last() == c {
        trim_end(s.drop_last(), c)
    } else {
        s
    }
}

/// The text without its trailing slashes.
pub fn trim_trailing_slashes(s: &str) -> (r: String)
    ensures
        r@ == trim_end(s@, '/'),
{
    let n = s.unicode_len();
    let mut end: usize = n;
    assert(s@.subrange(0, n as int) =~= s@);
    while end > 0 && s.get_char(end - 1) == '/'
        invariant
            n == s@.len(),
            end <= n,
            trim_end(s@, '/') == trim_end(s@.subrange(0, end as int), '/'),
        decreases end,
    {
        proof {
            assert(s@.subrange(0, end as int).drop_last() =~= s@.subrange(0, end as int - 1));
        }
        end = end - 1;
    }
    String::from_str(s.substring_char(0, end))
}

/// The workflow engine's HTTP client: the URL events are posted to.
#[derive(Debug, Clone)]
pub struct InngestClient {
    pub event_url: String,
}

/// The event endpoint of a configuration: `{base_url}/e/{event_key}`, without
/// doubled slashes after the base URL.
pub open spec fn event_url_spec(base_url: Seq<char>, event_key: Seq<char>) -> Seq<char> {
    trim_end(base_url, '/') + "/e/"@ + event_key
}

impl InngestClient {
    /// A client posting to the configuration's event endpoint.
    pub fn new(config: InngestConfig) -> (r: Self)
        ensures
            r.event_url@ == event_url_spec(config.base_url@, config.event_key@),
    {
        let mut event_url = trim_trailing_slashes(config.base_url.as_str());
        event_url.append("/e/");
        event_url.append(config.event_key.as_str());
        InngestClient { event_url }
    }

    /// The error of a request that could not be sent.
    pub fn request_error(detail: &str) -> (e: InngestError)
        ensures
            e matches InngestError::Request(m) && m@ == detail@,
    {
        InngestError::Request(String::from_str(detail))
    }

    /// The error of a response with a failing status.
    pub fn response_error(status_line: &str, body: &str) -> (e: InngestError)
        ensures
            e matches InngestError::Response(m) && m@ == "Inngest API returned "@ + status_line@ + ": "@ + body@,
    {
        let mut m = String::from_str("Inngest API returned ");
        m.append(status_line);
        m.append(": ");
        m.append(body);
        InngestError::Response(m)
    }

    /// Whether the event API accepted the events: a 2xx status.
    pub fn accepts(status: u16) -> (r: bool)
        ensures
            r == (200 <= status && status <= 299),
    {
        200 <= status && status <= 299
    }

    /// The outcome of a response from the event API: success for a 2xx
    /// status; else a response error with the status line and the body as read,
    /// or a note where the body could not be read.
    pub fn response_outcome(status: u16, status_line: &str, body: Option<String>) -> (r: Result<(), InngestError>)
        ensures
            200 <= status && status <= 299 ==> r is Ok,
            !(200 <= status && status <= 299) ==> (r matches Err(InngestError::Response(m)) && m@
                == "Inngest API returned "@ + status_line@ + ": "@ + (match body {
                Some(b) => b@,
                None => "Failed to read response body"@,
            })),
    {
        if Self::accepts(status) {
            return Ok(());
        }
        let text = match body {
            Some(b) => b,
            None => String::from_str("Failed to read response body"),
        };
        proof {
            reveal_strlit("Failed to read response body");
        }
        Err(Self::response_error(status_line, text.as_str()))
    }
}

/// Mock service that records the events it is sent.
///
/// Its state is a plain value that it owns: a clone is an independent copy,
/// and calls, resets or reconfigurations made through one are not seen by the
/// other. Handlers that must share one mock hold it behind a lock (the
/// program's service adapters do), since std's `Mutex` and `RwLock` cannot be
/// reasoned about here.
#[derive(Debug, Clone)]
pub struct MockInngestService {
    events: Vec<InngestEvent>,
}

fn copy_event(e: &InngestEvent) -> (c: InngestEvent)
    ensures
        event_view(c) == event_view(*e),
{
    InngestEvent {
        name: String::from_str(e.name.as_str()),
        data: e.data.clone(),
        user: match &e.user {
            Some(u) => Some(u.clone()),
            None => None,
        },
        id: match &e.id {
            Some(i) => Some(String::from_str(i.as_str())),
            None => None,
        },
        ts: e.ts,
    }
}

impl MockInngestService {
    /// The events recorded so far, oldest first.
    pub closed spec fn spec_events(&self) -> Seq<(Seq<char>, serde_json::Value, Option<serde_json::Value>, Option<Seq<char>>, Option<i64>)> {
        event_views(self.events@)
    }

    pub fn new() -> (r: Self)
        ensures
            r.spec_events().len() == 0,
    {
        MockInngestService { events: Vec::new() }
    }

    /// Records one event.
    pub fn send_event(&mut self, event: InngestEvent) -> (r: Result<(), InngestError>)
        ensures
            r is Ok,
            final(self).spec_events() == old(self).spec_events().push(event_view(event)),
    {
        let ghost ev = event_view(event);
        let ghost prev = self.events@;
        self.events.push(event);
        proof {
            assert(event_views(self.events@) =~= event_views(prev).push(ev));
        }
        Ok(())
    }

    /// Records the events, in order.
    pub fn send_events(&mut self, events: Vec<InngestEvent>) -> (r: Result<(), InngestError>)
        ensures
            r is Ok,
            final(self).spec_events() == old(self).spec_events() + event_views(events@),
    {
        let mut i: usize = 0;
        while i < events.len()
            invariant
                i <= events.len(),
                event_views(self.events@) == event_views(old(self).events@) + event_views(events@.subrange(0, i as int)),
            decreases events.len() - i,
        {
            let e = copy_event(&events[i]);
            let ghost prev = self.events@;
            self.events.push(e);
            proof {
                assert(event_views(self.events@) =~= event_views(prev).push(event_view(e)));
                assert(events@.subrange(0, i as int + 1) =~= events@.subrange(0, i as int).push(events@[i as int]));
                assert(event_views(events@.subrange(0, i as int + 1)) =~= event_views(events@.subrange(0, i as int)).push(
                    event_view(events@[i as int]),
                ));
            }
            i = i + 1;
        }
        assert(events@.subrange(0, events.len() as int) =~= events@);
        Ok(())
    }

    /// The recorded events, oldest first.
    pub fn recorded_events(&self) -> (r: Vec<InngestEvent>)
        ensures
            event_views(r@) == self.spec_events(),
    {
        let mut out: Vec<InngestEvent> = Vec::new();
        let mut i: usize = 0;
        while i < self.events.len()
            invariant
                i <= self.events.len(),
                event_views(out@) == event_views(self.events@.subrange(0, i as int)),
            decreases self.events.len() - i,
        {
            let e = copy_event(&self.events[i]);
            let ghost prev = out@;
            out.push(e);
            proof {
                let es = self.events@;
                assert(event_views(out@) =~= event_views(prev).push(event_view(e)));
                assert(es.subrange(0, i as int + 1) =~= es.subrange(0, i as int).push(es[i as int]));
                assert(event_views(es.subrange(0, i as int + 1)) =~= event_views(es.subrange(0, i as int)).push(
                    event_view(es[i as int]),
                ));
            }
            i = i + 1;
        }
        assert(self.events@.subrange(0, self.events.len() as int) =~= self.events@);
        out
    }

    /// Forgets the recorded events.
    pub fn reset(&mut self)
        ensures
            final(self).spec_events().len() == 0,
    {
        self.events = Vec::new();
    }
}

impl Default for MockInngestService {
    fn default() -> (r: Self)
        ensures
            r.spec_events().len() == 0,
    {
        MockInngestService::new()
    }
}

/// The workflow service a configuration selects.
#[derive(Debug, Clone)]
pub enum InngestBackend {
    Client(InngestClient),
    Mock(MockInngestService),
}

/// Chooses the workflow service for a configuration.
pub struct InngestServiceFactory;

impl InngestServiceFactory {
    /// The HTTP client for `inngest` (refused without an event key), the mock
    /// for `mock`, and a configuration error for any other provider.
    pub fn create(config: InngestConfig) -> (r: Result<InngestBackend, InngestError>)
        ensures
            config.provider@ == "inngest"@ && config.event_key@.len() == 0 ==> (r matches Err(
                InngestError::Configuration(m),
            ) && m@ == missing_key_message()),
            config.provider@ == "inngest"@ && config.event_key@.len() > 0 ==> (r matches Ok(
                InngestBackend::Client(c),
            ) && c.event_url@ == event_url_spec(config.base_url@, config.event_key@)),
            config.provider@ == "mock"@ ==> (r matches Ok(InngestBackend::Mock(s)) && s.spec_events().len() == 0),
            config.provider@ != "inngest"@ && config.provider@ != "mock"@ ==> (r matches Err(
                InngestError::Configuration(m),
            ) && m@ == "Unknown Inngest provider: "@ + config.provider@ + ". Supported providers: inngest, mock"@),
    {
        proof {
            reveal_strlit("mock");
            reveal_strlit("inngest");
            assert("mock"@ != "inngest"@) by {
                assert("mock"@[0] != "inngest"@[0]);
            }
        }
        if text_eq(config.provider.as_str(), "inngest") {
            if config.event_key.as_str().unicode_len() == 0 {
                return Err(
                    InngestError::Configuration(String::from_str("INNGEST_EVENT_KEY is required for Inngest provider")),
                );
            }
            Ok(InngestBackend::Client(InngestClient::new(config)))
        } else if text_eq(config.provider.as_str(), "mock") {
            Ok(InngestBackend::Mock(MockInngestService::new()))
        } else {
            let mut m = String::from_str("Unknown Inngest provider: ");
            m.append(config.provider.as_str());
            m.append(". Supported providers: inngest, mock");
            Err(InngestError::Configuration(m))
        }
    }
}

} // verus!
