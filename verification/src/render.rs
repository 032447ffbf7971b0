//! Rendering on GPU compute backends: the render request and result, the
//! service configuration and factory, and a programmable mock that records
//! what it is asked and plans the callbacks a real backend would post.
//!
//! Waiting and posting the planned callbacks happen at the edge of the
//! service; the plan itself, which callbacks in which order with which
//! payloads, is made here.

use vstd::prelude::*;

use crate::ids::{spec_uuid_text, uuid_text};
use crate::settings::EnvVars;
use crate::text::text_eq;

verus! {

/// Why rendering failed.
#[derive(Debug, Clone)]
pub enum RenderError {
    Configuration(String),
    Request(String),
    Response(String),
}

impl RenderError {
    pub open spec fn spec_message(&self) -> Seq<char> {
        match self {
            RenderError::Configuration(m) => "Render configuration error: "@ + m@,
            RenderError::Request(m) => "Render request error: "@ + m@,
            RenderError::Response(m) => "Render response error: "@ + m@,
        }
    }

    /// The error's message.
    pub fn to_string(&self) -> (s: String)
        ensures
            s@ == self.spec_message(),
    {
        let (prefix, m) = match self {
            RenderError::Configuration(m) => ("Render configuration error: ", m),
            RenderError::Request(m) => ("Render request error: ", m),
            RenderError::Response(m) => ("Render response error: ", m),
        };
        let mut s = String::from_str(prefix);
        s.append(m.as_str());
        s
    }
}

/// A request to render a generation; the backend posts to `callback_url`.
#[derive(Debug, Clone)]
pub struct RenderRequest {
    pub generation_id: u128,
    pub spec_snapshot: serde_json::Value,
    pub options: serde_json::Value,
    pub callback_url: String,
}

/// The result of a rendering, as a callback reports it.
#[derive(Debug, Clone)]
pub struct RenderResult {
    pub generation_id: u128,
    pub status: String,
    pub output: Option<serde_json::Value>,
    pub output_size_bytes: Option<i64>,
    pub error: Option<serde_json::Value>,
}

/// Render service configuration.
#[derive(Debug, Clone)]
pub struct RenderConfig {
    pub provider: String,
    pub callback_base_url: String,
}

impl RenderConfig {
    /// The configuration the environment gives: `RENDER_PROVIDER` (default
    /// `mock`) and `RENDER_CALLBACK_BASE_URL` (default `http://localhost:3000`).
    pub fn from_vars(env: &EnvVars) -> (r: RenderConfig)
        ensures
            r.provider@ == (match env.spec_get("RENDER_PROVIDER"@) {
                Some(v) => v,
                None => "mock"@,
            }),
            r.callback_base_url@ == (match env.spec_get("RENDER_CALLBACK_BASE_URL"@) {
                Some(v) => v,
                None => "http://localhost:3000"@,
            }),
    {
        RenderConfig {
            provider: env.get_or("RENDER_PROVIDER", "mock"),
            callback_base_url: env.get_or("RENDER_CALLBACK_BASE_URL", "http://localhost:3000"),
        }
    }
}

/// What outcome the mock produces.
#[derive(Debug, Clone, Copy, PartialEq, Eq, Structural)]
pub enum MockOutcome {
    /// Post a success callback with output.
    Complete,
    /// Post a failure callback with an error.
    Fail,
    /// Never post a callback.
    Timeout,
}

impl Default for MockOutcome {
    fn default() -> (r: Self)
        ensures
            r == MockOutcome::Complete,
    {
        MockOutcome::Complete
    }
}

/// Programmable behavior of the mock render service. Progress steps are the
/// JSON numbers reported as percentages.
#[derive(Debug, Clone)]
pub struct MockRenderBehavior {
    pub outcome: MockOutcome,
    pub delay_ms: u64,
    pub progress_steps: Vec<serde_json::Value>,
    pub error_payload: Option<serde_json::Value>,
    pub output_payload: Option<serde_json::Value>,
}

impl MockRenderBehavior {
    /// Whether this is the default behavior: complete after 50 ms, with no
    /// progress steps and no configured payloads.
    pub open spec fn is_default(&self) -> bool {
        &&& self.outcome == MockOutcome::Complete
        &&& self.delay_ms == 50
        &&& self.progress_steps@.len() == 0
        &&& self.error_payload is None
        &&& self.output_payload is None
    }

    pub fn new() -> (r: Self)
        ensures
            r.is_default(),
    {
        MockRenderBehavior {
            outcome: MockOutcome::Complete,
            delay_ms: 50,
            progress_steps: Vec::new(),
            error_payload: None,
            output_payload: None,
        }
    }

    /// Configures the outcome.
    pub fn set_outcome(&mut self, outcome: MockOutcome)
        ensures
            *final(self) == (MockRenderBehavior { outcome, ..*old(self) }),
    {
        self.outcome = outcome;
    }

    /// Configures the delay before the first callback.
    pub fn set_delay_ms(&mut self, delay: u64)
        ensures
            *final(self) == (MockRenderBehavior { delay_ms: delay, ..*old(self) }),
    {
        self.delay_ms = delay;
    }

    /// Configures the progress steps reported before the final callback.
    pub fn set_progress_steps(&mut self, steps: Vec<serde_json::Value>)
        ensures
            *final(self) == (MockRenderBehavior { progress_steps: steps, ..*old(self) }),
    {
        self.progress_steps = steps;
    }

    /// Configures the error payload of a failure.
    pub fn set_error_payload(&mut self, payload: serde_json::Value)
        ensures
            *final(self) == (MockRenderBehavior { error_payload: Some(payload), ..*old(self) }),
    {
        self.error_payload = Some(payload);
    }

    /// Configures the output payload of a success.
    pub fn set_output_payload(&mut self, payload: serde_json::Value)
        ensures
            *final(self) == (MockRenderBehavior { output_payload: Some(payload), ..*old(self) }),
    {
        self.output_payload = Some(payload);
    }

    /// Restores the default behavior.
    pub fn reset(&mut self)
        ensures
            final(self).is_default(),
    {
        self.outcome = MockOutcome::Complete;
        self.delay_ms = 50;
        self.progress_steps = Vec::new();
        self.error_payload = None;
        self.output_payload = None;
    }

    /// The configured outcome.
    pub fn get_outcome(&self) -> (r: MockOutcome)
        ensures
            r == self.outcome,
    {
        self.outcome
    }

    /// The configured delay.
    pub fn get_delay_ms(&self) -> (r: u64)
        ensures
            r == self.delay_ms,
    {
        self.delay_ms
    }
}

impl Default for MockRenderBehavior {
    fn default() -> (r: Self)
        ensures
            r.is_default(),
    {
        MockRenderBehavior::new()
    }
}

/// A recorded render request.
#[derive(Debug, Clone)]
pub struct RecordedRenderRequest {
    pub generation_id: u128,
    pub spec_snapshot: serde_json::Value,
    pub options: serde_json::Value,
    pub callback_url: String,
}

/// The model of a recorded request.
pub open spec fn recorded_view(r: RecordedRenderRequest) -> (u128, serde_json::Value, serde_json::Value, Seq<char>) {
    (r.generation_id, r.spec_snapshot, r.options, r.callback_url@)
}

pub open spec fn request_view(r: RenderRequest) -> (u128, serde_json::Value, serde_json::Value, Seq<char>) {
    (r.generation_id, r.spec_snapshot, r.options, r.callback_url@)
}

pub open spec fn history_view(h: Seq<RecordedRenderRequest>) -> Seq<(u128, serde_json::Value, serde_json::Value, Seq<char>)> {
    h.map_values(|r: RecordedRenderRequest| recorded_view(r))
}

/// The output a completion callback reports.
#[derive(Debug, Clone)]
pub enum RenderOutput {
    /// The configured output payload.
    Payload(serde_json::Value),
    /// An object with a single `url` field.
    Url(String),
}

/// The error a failure callback reports.
#[derive(Debug, Clone)]
pub enum RenderFailure {
    /// The configured error payload.
    Payload(serde_json::Value),
    /// An object with `message` and `code` fields.
    Described { message: String, code: String },
}

/// A callback the render backend posts about a generation.
#[derive(Debug, Clone)]
pub enum RenderCallback {
    Started { generation_id: u128 },
    Progress { generation_id: u128, progress_percent: serde_json::Value },
    Completed { generation_id: u128, output: RenderOutput, output_size_bytes: i64 },
    Failed { generation_id: u128, error: RenderFailure, failure_type: String },
}

/// The callbacks to post for a submitted render: the first after
/// `initial_delay_ms`, each later one 10 ms after the one before.
#[derive(Debug, Clone)]
pub struct CallbackPlan {
    pub callback_url: String,
    pub initial_delay_ms: u64,
    pub callbacks: Vec<RenderCallback>,
}

/// The URL where the mock pretends a generation's video is stored.
pub open spec fn mock_output_url(generation_id: u128) -> Seq<char> {
    "https://mock-storage.example.com/renders/"@ + spec_uuid_text(generation_id) + ".mp4"@
}

/// Whether `c` is the progress callback for step `p` of `generation_id`.
pub open spec fn is_progress(c: RenderCallback, generation_id: u128, p: serde_json::Value) -> bool {
    c matches RenderCallback::Progress { generation_id: g, progress_percent: q } && g == generation_id && q == p
}

/// Whether `c` is the final callback of `outcome` for `generation_id`.
pub open spec fn is_final(c: RenderCallback, generation_id: u128, b: MockRenderBehavior) -> bool {
    match b.outcome {
        MockOutcome::Complete => match c {
            RenderCallback::Completed { generation_id: g, output, output_size_bytes } => {
                &&& g == generation_id
                &&& output_size_bytes == 1024
                &&& match b.output_payload {
                    Some(p) => output == RenderOutput::Payload(p),
                    None => output matches RenderOutput::Url(u) && u@ == mock_output_url(generation_id),
                }
            },
            _ => false,
        },
        MockOutcome::Fail => match c {
            RenderCallback::Failed { generation_id: g, error, failure_type } => {
                &&& g == generation_id
                &&& failure_type@ == "system"@
                &&& match b.error_payload {
                    Some(p) => error == RenderFailure::Payload(p),
                    None => error matches RenderFailure::Described { message, code } && message@
                        == "Mock render failure"@ && code@ == "MOCK_ERROR"@,
                }
            },
            _ => false,
        },
        MockOutcome::Timeout => false,
    }
}

/// Whether `cs` is the callback sequence of a render of `generation_id`
/// under behavior `b`: nothing on timeout; else started, one progress
/// callback per step in order, and the final callback.
pub open spec fn planned_callbacks(cs: Seq<RenderCallback>, generation_id: u128, b: MockRenderBehavior) -> bool {
    if b.outcome == MockOutcome::Timeout {
        cs.len() == 0
    } else {
        let n = b.progress_steps@.len() as int;
        &&& cs.len() == n + 2
        &&& cs[0] == RenderCallback::Started { generation_id }
        &&& forall|i: int| 0 <= i < n ==> is_progress(#[trigger] cs[i + 1], generation_id, b.progress_steps@[i])
        &&& is_final(cs[n + 1], generation_id, b)
    }
}

/// Mock render service with programmable behavior and a request history.
///
/// Its state is a plain value that it owns: a clone is an independent copy,
/// and calls, resets or reconfigurations made through one are not seen by the
/// other. Handlers that must share one mock hold it behind a lock (the
/// program's service adapters do), since std's `Mutex` and `RwLock` cannot be
/// reasoned about here.
#[derive(Debug, Clone)]
pub struct MockRenderService {
    behavior: MockRenderBehavior,
    history: Vec<RecordedRenderRequest>,
    callback_base_url: String,
}

fn copy_text(s: &String) -> (r: String)
    ensures
        r@ == s@,
{
    String::from_str(s.as_str())
}

fn copy_recorded(r: &RecordedRenderRequest) -> (c: RecordedRenderRequest)
    ensures
        recorded_view(c) == recorded_view(*r),
{
    RecordedRenderRequest {
        generation_id: r.generation_id,
        spec_snapshot: r.spec_snapshot.clone(),
        options: r.options.clone(),
        callback_url: copy_text(&r.callback_url),
    }
}

impl MockRenderService {
    pub closed spec fn spec_behavior(&self) -> MockRenderBehavior {
        self.behavior
    }

    pub closed spec fn spec_history(&self) -> Seq<(u128, serde_json::Value, serde_json::Value, Seq<char>)> {
        history_view(self.history@)
    }

    pub closed spec fn spec_callback_base_url(&self) -> Seq<char> {
        self.callback_base_url@
    }

    /// A mock with the default behavior and no history.
    pub fn new(callback_base_url: String) -> (r: Self)
        ensures
            r.spec_behavior().is_default(),
            r.spec_history().len() == 0,
            r.spec_callback_base_url() == callback_base_url@,
    {
        MockRenderService { behavior: MockRenderBehavior::new(), history: Vec::new(), callback_base_url }
    }

    /// A mock with the given behavior and no history.
    pub fn with_behavior(behavior: MockRenderBehavior, callback_base_url: String) -> (r: Self)
        ensures
            r.spec_behavior() == behavior,
            r.spec_history().len() == 0,
            r.spec_callback_base_url() == callback_base_url@,
    {
        MockRenderService { behavior, history: Vec::new(), callback_base_url }
    }

    /// The behavior.
    pub fn behavior(&self) -> (r: &MockRenderBehavior)
        ensures
            *r == self.spec_behavior(),
    {
        &self.behavior
    }

    /// Replaces the behavior for later submissions.
    pub fn configure(&mut self, behavior: MockRenderBehavior)
        ensures
            final(self).spec_behavior() == behavior,
            final(self).spec_history() == old(self).spec_history(),
            final(self).spec_callback_base_url() == old(self).spec_callback_base_url(),
    {
        self.behavior = behavior;
    }

    /// The recorded requests, oldest first.
    pub fn recorded_requests(&self) -> (r: Vec<RecordedRenderRequest>)
        ensures
            history_view(r@) == self.spec_history(),
    {
        let mut out: Vec<RecordedRenderRequest> = Vec::new();
        let mut i: usize = 0;
        while i < self.history.len()
            invariant
                i <= self.history.len(),
                history_view(out@) == history_view(self.history@.subrange(0, i as int)),
            decreases self.history.len() - i,
        {
            let c = copy_recorded(&self.history[i]);
            let ghost prev = out@;
            out.push(c);
            proof {
                let h = self.history@;
                assert(h.subrange(0, i as int + 1) =~= h.subrange(0, i as int).push(h[i as int]));
                assert(history_view(out@) =~= history_view(prev).push(recorded_view(c)));
                assert(history_view(h.subrange(0, i as int + 1)) =~= history_view(h.subrange(0, i as int)).push(
                    recorded_view(h[i as int]),
                ));
            }
            i = i + 1;
        }
        assert(self.history@.subrange(0, self.history.len() as int) =~= self.history@);
        out
    }

    /// The request history.
    pub fn history(&self) -> (r: &Vec<RecordedRenderRequest>)
        ensures
            history_view(r@) == self.spec_history(),
    {
        &self.history
    }

    /// Clears the history.
    pub fn reset_history(&mut self)
        ensures
            final(self).spec_history().len() == 0,
            final(self).spec_behavior() == old(self).spec_behavior(),
            final(self).spec_callback_base_url() == old(self).spec_callback_base_url(),
    {
        self.history = Vec::new();
    }

    /// The callback base URL.
    pub fn callback_base_url(&self) -> (r: &str)
        ensures
            r@ == self.spec_callback_base_url(),
    {
        self.callback_base_url.as_str()
    }

    /// Records the request and plans the callbacks the behavior calls for.
    pub fn submit_render(&mut self, request: RenderRequest) -> (r: Result<CallbackPlan, RenderError>)
        ensures
            final(self).spec_history() == old(self).spec_history().push(request_view(request)),
            final(self).spec_behavior() == old(self).spec_behavior(),
            final(self).spec_callback_base_url() == old(self).spec_callback_base_url(),
            r matches Ok(plan) && plan.callback_url@ == request.callback_url@ && plan.initial_delay_ms
                == old(self).spec_behavior().delay_ms && planned_callbacks(
                plan.callbacks@,
                request.generation_id,
                old(self).spec_behavior(),
            ),
    {
        let generation_id = request.generation_id;
        let callback_url = copy_text(&request.callback_url);
        let ghost req_view = request_view(request);
        let recorded = RecordedRenderRequest {
            generation_id,
            spec_snapshot: request.spec_snapshot,
            options: request.options,
            callback_url: request.callback_url,
        };
        let ghost prev = self.history@;
        self.history.push(recorded);
        proof {
            assert(history_view(self.history@) =~= history_view(prev).push(req_view));
        }
        let b = &self.behavior;
        let mut callbacks: Vec<RenderCallback> = Vec::new();
        if b.outcome != MockOutcome::Timeout {
            callbacks.push(RenderCallback::Started { generation_id });
            let n = b.progress_steps.len();
            let mut i: usize = 0;
            while i < n
                invariant
                    n == b.progress_steps@.len(),
                    i <= n,
                    callbacks@.len() == i + 1,
                    callbacks@[0] == (RenderCallback::Started { generation_id }),
                    forall|j: int| 0 <= j < i ==> is_progress(#[trigger] callbacks@[j + 1], generation_id, b.progress_steps@[j]),
                decreases n - i,
            {
                let step = b.progress_steps[i].clone();
                callbacks.push(RenderCallback::Progress { generation_id, progress_percent: step });
                i = i + 1;
            }
            let last = match b.outcome {
                MockOutcome::Fail => {
                    let error = match &b.error_payload {
                        Some(p) => RenderFailure::Payload(p.clone()),
                        None => RenderFailure::Described {
                            message: String::from_str("Mock render failure"),
                            code: String::from_str("MOCK_ERROR"),
                        },
                    };
                    RenderCallback::Failed { generation_id, error, failure_type: String::from_str("system") }
                },
                _ => {
                    let output = match &b.output_payload {
                        Some(p) => RenderOutput::Payload(p.clone()),
                        None => {
                            let mut url = String::from_str("https://mock-storage.example.com/renders/");
                            let id = uuid_text(generation_id);
                            url.append(id.as_str());
                            url.append(".mp4");
                            RenderOutput::Url(url)
                        },
                    };
                    RenderCallback::Completed { generation_id, output, output_size_bytes: 1024 }
                },
            };
            callbacks.push(last);
        }
        Ok(CallbackPlan { callback_url, initial_delay_ms: b.delay_ms, callbacks })
    }
}

/// The render service a configuration selects.
pub struct RenderServiceFactory;

impl RenderServiceFactory {
    /// The mock service for provider `mock`; `runpod` is not available yet;
    /// any other provider is unknown.
    pub fn create(config: RenderConfig) -> (r: Result<MockRenderService, RenderError>)
        ensures
            config.provider@ == "mock"@ ==> (r matches Ok(s) && s.spec_behavior().is_default()
                && s.spec_history().len() == 0 && s.spec_callback_base_url() == config.callback_base_url@),
            config.provider@ == "runpod"@ ==> (r matches Err(RenderError::Configuration(m))
                && m@ == "RunPod provider not yet implemented. Use 'mock' provider."@),
            config.provider@ != "mock"@ && config.provider@ != "runpod"@ ==> (r matches Err(
                RenderError::Configuration(m),
            ) && m@ == "Unknown render provider: "@ + config.provider@ + ". Supported providers: runpod, mock"@),
    {
        proof {
            reveal_strlit("mock");
            reveal_strlit("runpod");
            assert("mock"@ != "runpod"@) by {
                assert("mock"@[0] != "runpod"@[0]);
            }
        }
        if text_eq(config.provider.as_str(), "runpod") {
            Err(RenderError::Configuration(String::from_str("RunPod provider not yet implemented. Use 'mock' provider.")))
        } else if text_eq(config.provider.as_str(), "mock") {
            Ok(MockRenderService::new(config.callback_base_url))
        } else {
            let mut m = String::from_str("Unknown render provider: ");
            m.append(config.provider.as_str());
            m.append(". Supported providers: runpod, mock");
            Err(RenderError::Configuration(m))
        }
    }
}

} // verus!
