//! Language-model completions: the request and response types, a stateless
//! echo mock, a configurable mock that records what it is asked, and the
//! request building and response interpretation of the Anthropic Messages API.
//!
//! The HTTP exchange with the Anthropic API happens at the edge of the
//! service; here the call is prepared and its outcome interpreted.

use vstd::prelude::*;

use crate::text::{byte_len, text_eq};

verus! {

/// Who wrote a conversation message.
#[derive(Debug, Clone, Copy, PartialEq, Eq, Structural)]
pub enum LlmRole {
    User,
    Assistant,
}

/// One message of a conversation.
#[derive(Debug, Clone)]
pub struct LlmMessage {
    pub role: LlmRole,
    pub content: String,
}

impl View for LlmMessage {
    type V = (LlmRole, Seq<char>);

    open spec fn view(&self) -> (LlmRole, Seq<char>) {
        (self.role, self.content@)
    }
}

/// The views of a list of messages.
pub open spec fn message_views(ms: Seq<LlmMessage>) -> Seq<(LlmRole, Seq<char>)> {
    ms.map_values(|m: LlmMessage| m@)
}

/// A completion request.
#[derive(Debug, Clone)]
pub struct CompletionRequest {
    pub model: String,
    pub system_prompt: Option<String>,
    pub messages: Vec<LlmMessage>,
    pub max_tokens: Option<u32>,
}

/// The model of a completion request (and of a recorded one).
pub struct RequestModel {
    pub model: Seq<char>,
    pub system_prompt: Option<Seq<char>>,
    pub messages: Seq<(LlmRole, Seq<char>)>,
    pub max_tokens: Option<u32>,
}

pub open spec fn opt_view(o: Option<String>) -> Option<Seq<char>> {
    match o {
        Some(s) => Some(s@),
        None => None,
    }
}

impl View for CompletionRequest {
    type V = RequestModel;

    open spec fn view(&self) -> RequestModel {
        RequestModel {
            model: self.model@,
            system_prompt: opt_view(self.system_prompt),
            messages: message_views(self.messages@),
            max_tokens: self.max_tokens,
        }
    }
}

/// A completion.
#[derive(Debug, Clone)]
pub struct CompletionResponse {
    pub content: String,
    pub model: String,
    pub input_tokens: i32,
    pub output_tokens: i32,
    pub stop_reason: String,
}

/// The model of a completion.
pub struct ResponseModel {
    pub content: Seq<char>,
    pub model: Seq<char>,
    pub input_tokens: i32,
    pub output_tokens: i32,
    pub stop_reason: Seq<char>,
}

impl View for CompletionResponse {
    type V = ResponseModel;

    open spec fn view(&self) -> ResponseModel {
        ResponseModel {
            content: self.content@,
            model: self.model@,
            input_tokens: self.input_tokens,
            output_tokens: self.output_tokens,
            stop_reason: self.stop_reason@,
        }
    }
}

/// Why a completion failed.
#[derive(Debug, Clone)]
pub enum LlmError {
    RateLimit,
    Request(String),
    Response(String),
}

/// The model of a completion failure.
pub enum LlmErrorModel {
    RateLimit,
    Request(Seq<char>),
    Response(Seq<char>),
}

impl View for LlmError {
    type V = LlmErrorModel;

    open spec fn view(&self) -> LlmErrorModel {
        match self {
            LlmError::RateLimit => LlmErrorModel::RateLimit,
            LlmError::Request(m) => LlmErrorModel::Request(m@),
            LlmError::Response(m) => LlmErrorModel::Response(m@),
        }
    }
}

/// The model of a completion outcome.
pub open spec fn outcome_view(r: Result<CompletionResponse, LlmError>) -> Result<ResponseModel, LlmErrorModel> {
    match r {
        Ok(c) => Ok(c@),
        Err(e) => Err(e@),
    }
}

/// Provider configuration.
#[derive(Debug, Clone)]
pub struct LlmConfig {
    pub api_key: String,
    pub default_model: String,
    pub max_tokens: u32,
    pub base_url: Option<String>,
}

// ----- the echo mock -----

/// The model a mock answers as: the requested one, or `mock-model`.
pub open spec fn mock_model(requested: Seq<char>) -> Seq<char> {
    if requested.len() == 0 {
        "mock-model"@
    } else {
        requested
    }
}

/// The text of the last message, or `empty` when there is none.
pub open spec fn last_text(ms: Seq<(LlmRole, Seq<char>)>) -> Seq<char> {
    if ms.len() == 0 {
        "empty"@
    } else {
        ms.last().1
    }
}

/// The echo reply to a conversation.
pub open spec fn echo_text(ms: Seq<(LlmRole, Seq<char>)>) -> Seq<char> {
    "Mock response to: "@ + last_text(ms)
}

/// Division by four as `i32` division does it: rounding toward zero.
pub open spec fn div4_toward_zero(a: int) -> int {
    if a >= 0 {
        a / 4
    } else {
        -((-a) / 4)
    }
}

/// The token estimate of a text: its UTF-8 length taken as an `i32` (wrapping
/// as `as i32` does), divided by four.
pub open spec fn quarter(s: Seq<char>) -> int {
    div4_toward_zero(byte_len(s) as i32 as int)
}

/// The token estimate of the first `n` messages.
pub open spec fn token_sum(ms: Seq<(LlmRole, Seq<char>)>, n: int) -> int
    decreases n,
{
    if n <= 0 {
        0
    } else {
        token_sum(ms, n - 1) + quarter(ms[n - 1].1)
    }
}

/// Whether the running total of the token estimates of a conversation stays
/// within `i32`, as adding them up in `i32` needs.
pub open spec fn estimable(ms: Seq<(LlmRole, Seq<char>)>) -> bool {
    forall|n: int| 0 <= n <= ms.len() ==> i32::MIN <= #[trigger] token_sum(ms, n) <= i32::MAX
}

/// The echo completion of a request.
pub open spec fn echo_reply(req: RequestModel) -> ResponseModel {
    ResponseModel {
        content: echo_text(req.messages),
        model: mock_model(req.model),
        input_tokens: token_sum(req.messages, req.messages.len() as int) as i32,
        output_tokens: quarter(echo_text(req.messages)) as i32,
        stop_reason: "end_turn"@,
    }
}

fn quarter_len(s: &str) -> (r: i32)
    ensures
        r == quarter(s@),
{
    let n: usize = s.len();
    (n as i32) / 4
}

fn model_or_mock(model: String) -> (r: String)
    ensures
        r@ == mock_model(model@),
{
    if model.as_str().unicode_len() == 0 {
        String::from_str("mock-model")
    } else {
        model
    }
}

/// The echo reply text and the input estimate of a conversation.
fn echo_parts(messages: &Vec<LlmMessage>) -> (r: (String, i32))
    requires
        estimable(message_views(messages@)),
    ensures
        r.0@ == echo_text(message_views(messages@)),
        r.1 == token_sum(message_views(messages@), messages.len() as int),
{
    let ghost ms = message_views(messages@);
    let mut content = String::from_str("Mock response to: ");
    if messages.len() == 0 {
        content.append("empty");
    } else {
        content.append(messages[messages.len() - 1].content.as_str());
    }
    let mut total: i32 = 0;
    let mut i: usize = 0;
    while i < messages.len()
        invariant
            ms == message_views(messages@),
            estimable(ms),
            i <= messages.len(),
            total == token_sum(ms, i as int),
        decreases messages.len() - i,
    {
        assert(ms[i as int].1 == messages@[i as int].content@);
        assert(i32::MIN <= token_sum(ms, i as int + 1) <= i32::MAX);
        let q = quarter_len(messages[i].content.as_str());
        total = total + q;
        i = i + 1;
    }
    (content, total)
}

/// Whether the echo estimates of a conversation can be computed in `i32`.
pub fn estimable_messages(messages: &Vec<LlmMessage>) -> (r: bool)
    ensures
        r == estimable(message_views(messages@)),
{
    let ghost ms = message_views(messages@);
    let mut total: i64 = 0;
    let mut i: usize = 0;
    while i < messages.len()
        invariant
            ms == message_views(messages@),
            i <= messages.len(),
            forall|n: int| 0 <= n <= i ==> i32::MIN <= #[trigger] token_sum(ms, n) <= i32::MAX,
            total == token_sum(ms, i as int),
        decreases messages.len() - i,
    {
        assert(ms[i as int].1 == messages@[i as int].content@);
        let q = quarter_len(messages[i].content.as_str());
        total = total + q as i64;
        assert(token_sum(ms, i as int + 1) == total);
        if total < -2147483648 || total > 2147483647 {
            return false;
        }
        i = i + 1;
    }
    true
}

/// Stateless mock that echoes the last message.
#[derive(Debug, Clone)]
pub struct MockLlmService;

impl MockLlmService {
    pub fn new() -> (r: Self) {
        MockLlmService
    }

    /// The model the mock reports when none is requested.
    pub fn default_model(&self) -> (r: &'static str)
        ensures
            r@ == "mock-model"@,
    {
        "mock-model"
    }

    /// Answers `Mock response to: <last message>`, with token estimates of a
    /// quarter of the UTF-8 length of each text.
    pub fn complete(&self, request: CompletionRequest) -> (r: Result<CompletionResponse, LlmError>)
        requires
            estimable(request@.messages),
        ensures
            outcome_view(r) == Ok::<ResponseModel, LlmErrorModel>(echo_reply(request@)),
    {
        let (content, input_tokens) = echo_parts(&request.messages);
        let output_tokens = quarter_len(content.as_str());
        Ok(
            CompletionResponse {
                content,
                model: model_or_mock(request.model),
                input_tokens,
                output_tokens,
                stop_reason: String::from_str("end_turn"),
            },
        )
    }
}

impl Default for MockLlmService {
    fn default() -> (r: Self) {
        MockLlmService
    }
}

// ----- the configurable mock -----

/// Error kinds the configurable mock can simulate.
#[derive(Debug, Clone)]
pub enum LlmErrorKind {
    RateLimit,
    Request(String),
    Response(String),
}

impl View for LlmErrorKind {
    type V = LlmErrorModel;

    open spec fn view(&self) -> LlmErrorModel {
        match self {
            LlmErrorKind::RateLimit => LlmErrorModel::RateLimit,
            LlmErrorKind::Request(m) => LlmErrorModel::Request(m@),
            LlmErrorKind::Response(m) => LlmErrorModel::Response(m@),
        }
    }
}

/// How the configurable mock answers.
#[derive(Debug, Clone)]
pub enum MockBehavior {
    /// Always answer this text.
    FixedResponse(String),
    /// Answer these texts in turn, starting over after the last.
    ResponseSequence(Vec<String>),
    /// Fail with this error.
    Error(LlmErrorKind),
    /// Echo the last message.
    Echo,
}

/// The model of a mock behavior.
pub enum BehaviorModel {
    FixedResponse(Seq<char>),
    ResponseSequence(Seq<Seq<char>>),
    Error(LlmErrorModel),
    Echo,
}

pub open spec fn text_views(v: Seq<String>) -> Seq<Seq<char>> {
    v.map_values(|s: String| s@)
}

impl View for MockBehavior {
    type V = BehaviorModel;

    open spec fn view(&self) -> BehaviorModel {
        match self {
            MockBehavior::FixedResponse(s) => BehaviorModel::FixedResponse(s@),
            MockBehavior::ResponseSequence(v) => BehaviorModel::ResponseSequence(text_views(v@)),
            MockBehavior::Error(k) => BehaviorModel::Error(k@),
            MockBehavior::Echo => BehaviorModel::Echo,
        }
    }
}

/// A recorded request.
#[derive(Debug, Clone)]
pub struct RecordedRequest {
    pub model: String,
    pub system_prompt: Option<String>,
    pub messages: Vec<LlmMessage>,
    pub max_tokens: Option<u32>,
}

impl View for RecordedRequest {
    type V = RequestModel;

    open spec fn view(&self) -> RequestModel {
        RequestModel {
            model: self.model@,
            system_prompt: opt_view(self.system_prompt),
            messages: message_views(self.messages@),
            max_tokens: self.max_tokens,
        }
    }
}

/// A completion with the given text, as the configurable mock gives it.
pub open spec fn fixed_reply(content: Seq<char>, req: RequestModel) -> ResponseModel {
    ResponseModel {
        content,
        model: mock_model(req.model),
        input_tokens: 10,
        output_tokens: quarter(content) as i32,
        stop_reason: "end_turn"@,
    }
}

/// What the configurable mock answers to `req` as its `count`-th call (from 1).
pub open spec fn mock_reply(b: BehaviorModel, count: nat, req: RequestModel) -> Result<ResponseModel, LlmErrorModel> {
    match b {
        BehaviorModel::FixedResponse(c) => Ok(fixed_reply(c, req)),
        BehaviorModel::ResponseSequence(rs) => Ok(fixed_reply(rs[((count - 1) as nat % rs.len()) as int], req)),
        BehaviorModel::Error(e) => Err(e),
        BehaviorModel::Echo => Ok(echo_reply(req)),
    }
}

/// Whether the mock can answer `req` as its `count`-th call: a sequence is not
/// empty, and an echo's running token total stays within `i32`.
pub open spec fn answerable(b: BehaviorModel, count: nat, req: RequestModel) -> bool {
    match b {
        BehaviorModel::FixedResponse(_) => true,
        BehaviorModel::ResponseSequence(rs) => rs.len() > 0,
        BehaviorModel::Error(_) => true,
        BehaviorModel::Echo => estimable(req.messages),
    }
}

/// Configurable mock that records every request it is asked.
///
/// Its state is a plain value that it owns: a clone is an independent copy,
/// and calls, resets or reconfigurations made through one are not seen by the
/// other. Handlers that must share one mock hold it behind a lock (the
/// program's service adapters do), since std's `Mutex` and `RwLock` cannot be
/// reasoned about here.
#[derive(Debug, Clone)]
pub struct ConfigurableMockLlmService {
    behavior: MockBehavior,
    requests: Vec<RecordedRequest>,
}

fn copy_text(s: &String) -> (r: String)
    ensures
        r@ == s@,
{
    String::from_str(s.as_str())
}

fn copy_opt_text(s: &Option<String>) -> (r: Option<String>)
    ensures
        opt_view(r) == opt_view(*s),
{
    match s {
        Some(t) => Some(copy_text(t)),
        None => None,
    }
}

fn copy_messages(ms: &Vec<LlmMessage>) -> (r: Vec<LlmMessage>)
    ensures
        message_views(r@) == message_views(ms@),
{
    let mut out: Vec<LlmMessage> = Vec::new();
    let mut i: usize = 0;
    while i < ms.len()
        invariant
            i <= ms.len(),
            message_views(out@) == message_views(ms@.subrange(0, i as int)),
        decreases ms.len() - i,
    {
        let m = LlmMessage { role: ms[i].role, content: copy_text(&ms[i].content) };
        let ghost prev = out@;
        out.push(m);
        proof {
            assert(ms@.subrange(0, i as int + 1) =~= ms@.subrange(0, i as int).push(ms@[i as int]));
            assert(message_views(out@) =~= message_views(prev).push(m@));
            assert(message_views(ms@.subrange(0, i as int + 1)) =~= message_views(ms@.subrange(0, i as int)).push(
                ms@[i as int]@,
            ));
        }
        i = i + 1;
    }
    assert(ms@.subrange(0, ms.len() as int) =~= ms@);
    out
}

fn copy_recorded(r: &RecordedRequest) -> (c: RecordedRequest)
    ensures
        c@ == r@,
{
    RecordedRequest {
        model: copy_text(&r.model),
        system_prompt: copy_opt_text(&r.system_prompt),
        messages: copy_messages(&r.messages),
        max_tokens: r.max_tokens,
    }
}

proof fn lemma_requests_prefix(states: Seq<ConfigurableMockLlmService>, reqs: Seq<RequestModel>, k: int)
    requires
        states.len() == reqs.len() + 1,
        states[0].spec_requests().len() == 0,
        forall|j: int|
            0 <= j < reqs.len() ==> #[trigger] states[j + 1].spec_requests() == states[j].spec_requests().push(reqs[j]),
        0 <= k <= reqs.len(),
    ensures
        states[k].spec_requests() == reqs.subrange(0, k),
    decreases k,
{
    if k == 0 {
        assert(states[0].spec_requests() =~= reqs.subrange(0, 0));
    } else {
        lemma_requests_prefix(states, reqs, k - 1);
        assert(states[(k - 1) + 1].spec_requests() == states[k - 1].spec_requests().push(reqs[k - 1]));
        assert(reqs.subrange(0, k - 1).push(reqs[k - 1]) =~= reqs.subrange(0, k));
    }
}

impl ConfigurableMockLlmService {
    /// The current behavior.
    pub closed spec fn spec_behavior(&self) -> BehaviorModel {
        self.behavior@
    }

    /// The requests recorded so far, oldest first.
    pub closed spec fn spec_requests(&self) -> Seq<RequestModel> {
        self.requests@.map_values(|r: RecordedRequest| r@)
    }

    /// The number of calls so far: every call is recorded, so it is the
    /// number of recorded requests.
    pub closed spec fn spec_call_count(&self) -> nat {
        self.requests@.len()
    }

    /// A mock's call count is always the number of requests it has recorded:
    /// each call records its request, whether it answers or fails, and `reset`
    /// forgets both together.
    pub proof fn lemma_call_count_is_recorded_requests(svc: &ConfigurableMockLlmService)
        ensures
            svc.spec_call_count() == svc.spec_requests().len(),
    {
    }

    /// After `n` calls from a fresh (or reset) mock, answered or failed, the
    /// call count is `n` and the recorded requests are the `n` requests in
    /// order. `states[k + 1]` is the mock after the `k`-th call, related to
    /// `states[k]` as `complete` relates its state before and after.
    pub proof fn lemma_call_count_after_calls(states: Seq<ConfigurableMockLlmService>, reqs: Seq<RequestModel>)
        requires
            states.len() == reqs.len() + 1,
            states[0].spec_requests().len() == 0,
            forall|k: int|
                0 <= k < reqs.len() ==> #[trigger] states[k + 1].spec_requests() == states[k].spec_requests().push(
                    reqs[k],
                ),
        ensures
            states.last().spec_call_count() == reqs.len(),
            states.last().spec_requests() == reqs,
    {
        assert forall|k: int| 0 <= k <= reqs.len() implies #[trigger] states[k].spec_requests() == reqs.subrange(
            0,
            k,
        ) by {
            lemma_requests_prefix(states, reqs, k);
        }
        assert(reqs.subrange(0, reqs.len() as int) =~= reqs);
        assert(states.last() == states[reqs.len() as int]);
        Self::lemma_call_count_is_recorded_requests(&states.last());
    }

    /// A mock that echoes, with nothing recorded.
    pub fn new() -> (r: Self)
        ensures
            r.spec_behavior() == BehaviorModel::Echo,
            r.spec_requests().len() == 0,
            r.spec_call_count() == 0,
    {
        ConfigurableMockLlmService { behavior: MockBehavior::Echo, requests: Vec::new() }
    }

    /// A mock with the given behavior, with nothing recorded.
    pub fn with_behavior(behavior: MockBehavior) -> (r: Self)
        ensures
            r.spec_behavior() == behavior@,
            r.spec_requests().len() == 0,
            r.spec_call_count() == 0,
    {
        ConfigurableMockLlmService { behavior, requests: Vec::new() }
    }

    /// Changes the behavior for later calls.
    pub fn set_behavior(&mut self, behavior: MockBehavior)
        ensures
            final(self).spec_behavior() == behavior@,
            final(self).spec_requests() == old(self).spec_requests(),
            final(self).spec_call_count() == old(self).spec_call_count(),
    {
        self.behavior = behavior;
    }

    /// The recorded requests, oldest first.
    pub fn recorded_requests(&self) -> (r: Vec<RecordedRequest>)
        ensures
            r@.map_values(|q: RecordedRequest| q@) == self.spec_requests(),
    {
        let mut out: Vec<RecordedRequest> = Vec::new();
        let mut i: usize = 0;
        while i < self.requests.len()
            invariant
                i <= self.requests.len(),
                out@.map_values(|q: RecordedRequest| q@) == self.requests@.subrange(0, i as int).map_values(
                    |q: RecordedRequest| q@,
                ),
            decreases self.requests.len() - i,
        {
            let c = copy_recorded(&self.requests[i]);
            let ghost prev = out@;
            out.push(c);
            proof {
                let rs = self.requests@;
                assert(rs.subrange(0, i as int + 1) =~= rs.subrange(0, i as int).push(rs[i as int]));
                assert(out@.map_values(|q: RecordedRequest| q@) =~= prev.map_values(|q: RecordedRequest| q@).push(
                    c@,
                ));
                assert(rs.subrange(0, i as int + 1).map_values(|q: RecordedRequest| q@) =~= rs.subrange(
                    0,
                    i as int,
                ).map_values(|q: RecordedRequest| q@).push(rs[i as int]@));
            }
            i = i + 1;
        }
        assert(self.requests@.subrange(0, self.requests.len() as int) =~= self.requests@);
        out
    }

    /// The number of calls so far.
    pub fn call_count(&self) -> (r: usize)
        ensures
            r == self.spec_call_count(),
    {
        self.requests.len()
    }

    /// Forgets the recorded requests and the call count; the behavior stays.
    pub fn reset(&mut self)
        ensures
            final(self).spec_behavior() == old(self).spec_behavior(),
            final(self).spec_requests().len() == 0,
            final(self).spec_call_count() == 0,
    {
        self.requests = Vec::new();
    }

    /// The model the mock reports when none is requested.
    pub fn default_model(&self) -> (r: &'static str)
        ensures
            r@ == "mock-model"@,
    {
        "mock-model"
    }

    /// Whether the next call can answer `request`: a sequence is not empty and
    /// an echo's running token total stays within `i32`.
    pub fn can_answer(&self, request: &CompletionRequest) -> (r: bool)
        ensures
            r == (self.spec_call_count() < usize::MAX && answerable(
                self.spec_behavior(),
                self.spec_call_count() + 1,
                request@,
            )),
    {
        if self.requests.len() == usize::MAX {
            return false;
        }
        match &self.behavior {
            MockBehavior::FixedResponse(_) => true,
            MockBehavior::ResponseSequence(responses) => responses.len() > 0,
            MockBehavior::Error(_) => true,
            MockBehavior::Echo => estimable_messages(&request.messages),
        }
    }

    /// Records the request, counts the call and answers as the behavior says.
    pub fn complete(&mut self, request: CompletionRequest) -> (r: Result<CompletionResponse, LlmError>)
        requires
            old(self).spec_call_count() < usize::MAX,
            answerable(old(self).spec_behavior(), old(self).spec_call_count() + 1, request@),
        ensures
            final(self).spec_requests() == old(self).spec_requests().push(request@),
            final(self).spec_call_count() == old(self).spec_call_count() + 1,
            final(self).spec_behavior() == old(self).spec_behavior(),
            outcome_view(r) == mock_reply(old(self).spec_behavior(), final(self).spec_call_count(), request@),
    {
        let count = self.requests.len() + 1;
        let reply: Result<CompletionResponse, LlmError> = match &self.behavior {
            MockBehavior::FixedResponse(content) => {
                let c = copy_text(content);
                let output_tokens = quarter_len(c.as_str());
                Ok(
                    CompletionResponse {
                        content: c,
                        model: model_or_mock(copy_text(&request.model)),
                        input_tokens: 10,
                        output_tokens,
                        stop_reason: String::from_str("end_turn"),
                    },
                )
            },
            MockBehavior::ResponseSequence(responses) => {
                let idx = (count - 1) % responses.len();
                assert(responses@[idx as int]@ == text_views(responses@)[idx as int]);
                let c = copy_text(&responses[idx]);
                let output_tokens = quarter_len(c.as_str());
                Ok(
                    CompletionResponse {
                        content: c,
                        model: model_or_mock(copy_text(&request.model)),
                        input_tokens: 10,
                        output_tokens,
                        stop_reason: String::from_str("end_turn"),
                    },
                )
            },
            MockBehavior::Error(kind) => match kind {
                LlmErrorKind::RateLimit => Err(LlmError::RateLimit),
                LlmErrorKind::Request(msg) => Err(LlmError::Request(copy_text(msg))),
                LlmErrorKind::Response(msg) => Err(LlmError::Response(copy_text(msg))),
            },
            MockBehavior::Echo => {
                let (content, input_tokens) = echo_parts(&request.messages);
                let output_tokens = quarter_len(content.as_str());
                Ok(
                    CompletionResponse {
                        content,
                        model: model_or_mock(copy_text(&request.model)),
                        input_tokens,
                        output_tokens,
                        stop_reason: String::from_str("end_turn"),
                    },
                )
            },
        };
        let recorded = RecordedRequest {
            model: request.model,
            system_prompt: request.system_prompt,
            messages: request.messages,
            max_tokens: request.max_tokens,
        };
        self.requests.push(recorded);
        proof {
            assert(self.requests@.map_values(|q: RecordedRequest| q@) =~= old(self).requests@.map_values(
                |q: RecordedRequest| q@,
            ).push(request@));
        }
        reply
    }
}

impl Default for ConfigurableMockLlmService {
    fn default() -> (r: Self)
        ensures
            r.spec_behavior() == BehaviorModel::Echo,
            r.spec_requests().len() == 0,
            r.spec_call_count() == 0,
    {
        ConfigurableMockLlmService::new()
    }
}


// ----- the Anthropic Messages API -----

/// The Anthropic API endpoint used when the configuration names none.
pub open spec fn default_anthropic_url() -> Seq<char> {
    "https://api.anthropic.com"@
}

/// The API version the requests are made against.
pub fn anthropic_api_version() -> (r: &'static str)
    ensures
        r@ == "2023-06-01"@,
{
    "2023-06-01"
}

/// The Anthropic completion service: its configuration and endpoint.
#[derive(Debug, Clone)]
pub struct AnthropicService {
    pub config: LlmConfig,
    pub base_url: String,
}

/// A message as the Messages API takes it.
#[derive(Debug, Clone)]
pub struct ApiMessage {
    pub role: String,
    pub content: String,
}

/// A prepared Messages API call: where it goes, with which key, and its body.
#[derive(Debug, Clone)]
pub struct MessagesCall {
    pub url: String,
    pub api_key: String,
    pub model: String,
    pub max_tokens: u32,
    pub system: Option<String>,
    pub messages: Vec<ApiMessage>,
}

pub open spec fn role_name(role: LlmRole) -> Seq<char> {
    match role {
        LlmRole::User => "user"@,
        LlmRole::Assistant => "assistant"@,
    }
}

/// The wire form of a message list.
pub open spec fn api_messages(ms: Seq<(LlmRole, Seq<char>)>) -> Seq<(Seq<char>, Seq<char>)> {
    ms.map_values(|m: (LlmRole, Seq<char>)| (role_name(m.0), m.1))
}

pub open spec fn api_message_views(ms: Seq<ApiMessage>) -> Seq<(Seq<char>, Seq<char>)> {
    ms.map_values(|m: ApiMessage| (m.role@, m.content@))
}

/// How an HTTP status is handled.
#[derive(Debug, Clone, Copy, PartialEq, Eq, Structural)]
pub enum StatusClass {
    Success,
    RateLimited,
    Failed,
}

pub open spec fn status_class(status: u16) -> StatusClass {
    if status == 429 {
        StatusClass::RateLimited
    } else if 200 <= status <= 299 {
        StatusClass::Success
    } else {
        StatusClass::Failed
    }
}

/// How a response status is handled: too many requests is rate limiting,
/// any other status outside 2xx a failure.
pub fn classify_status(status: u16) -> (c: StatusClass)
    ensures
        c == status_class(status),
{
    if status == 429 {
        StatusClass::RateLimited
    } else if 200 <= status && status <= 299 {
        StatusClass::Success
    } else {
        StatusClass::Failed
    }
}

/// A block of a Messages API response.
#[derive(Debug, Clone)]
pub struct ContentBlock {
    pub content_type: String,
    pub text: Option<String>,
}

pub open spec fn block_views(bs: Seq<ContentBlock>) -> Seq<(Seq<char>, Option<Seq<char>>)> {
    bs.map_values(|b: ContentBlock| (b.content_type@, opt_view(b.text)))
}

/// The text of a response: the texts of its `text` blocks, joined in order.
pub open spec fn joined_text(bs: Seq<(Seq<char>, Option<Seq<char>>)>) -> Seq<char>
    decreases bs.len(),
{
    if bs.len() == 0 {
        Seq::empty()
    } else {
        let prefix = joined_text(bs.drop_last());
        match bs.last().1 {
            Some(t) => if bs.last().0 == "text"@ {
                prefix + t
            } else {
                prefix
            },
            None => prefix,
        }
    }
}

impl AnthropicService {
    /// A service for the configured endpoint, or the public one.
    pub fn new(config: LlmConfig) -> (r: Self)
        ensures
            r.config == config,
            r.base_url@ == (match config.base_url {
                Some(u) => u@,
                None => default_anthropic_url(),
            }),
    {
        let base_url = match &config.base_url {
            Some(u) => copy_text(u),
            None => String::from_str("https://api.anthropic.com"),
        };
        AnthropicService { config, base_url }
    }

    /// The configured default model.
    pub fn default_model(&self) -> (r: &str)
        ensures
            r@ == self.config.default_model@,
    {
        self.config.default_model.as_str()
    }

    /// The call that completes `request`: the requested model or the default,
    /// the requested token limit or the configured one, the system prompt, and
    /// the messages with their roles named.
    pub fn prepare(&self, request: CompletionRequest) -> (call: MessagesCall)
        ensures
            call.url@ == self.base_url@ + "/v1/messages"@,
            call.api_key@ == self.config.api_key@,
            call.model@ == (if request.model@.len() == 0 {
                self.config.default_model@
            } else {
                request.model@
            }),
            call.max_tokens == (match request.max_tokens {
                Some(n) => n,
                None => self.config.max_tokens,
            }),
            opt_view(call.system) == opt_view(request.system_prompt),
            api_message_views(call.messages@) == api_messages(message_views(request.messages@)),
    {
        let model = if request.model.as_str().unicode_len() == 0 {
            copy_text(&self.config.default_model)
        } else {
            copy_text(&request.model)
        };
        let max_tokens = match request.max_tokens {
            Some(n) => n,
            None => self.config.max_tokens,
        };
        let mut messages: Vec<ApiMessage> = Vec::new();
        let mut i: usize = 0;
        while i < request.messages.len()
            invariant
                i <= request.messages.len(),
                api_message_views(messages@) == api_messages(message_views(request.messages@.subrange(0, i as int))),
            decreases request.messages.len() - i,
        {
            let role = match request.messages[i].role {
                LlmRole::User => String::from_str("user"),
                LlmRole::Assistant => String::from_str("assistant"),
            };
            let m = ApiMessage { role, content: copy_text(&request.messages[i].content) };
            let ghost prev = messages@;
            messages.push(m);
            proof {
                let ms = request.messages@;
                assert(ms.subrange(0, i as int + 1) =~= ms.subrange(0, i as int).push(ms[i as int]));
                assert(api_message_views(messages@) =~= api_message_views(prev).push((m.role@, m.content@)));
                assert(api_messages(message_views(ms.subrange(0, i as int + 1))) =~= api_messages(
                    message_views(ms.subrange(0, i as int)),
                ).push((role_name(ms[i as int].role), ms[i as int].content@)));
            }
            i = i + 1;
        }
        assert(request.messages@.subrange(0, request.messages.len() as int) =~= request.messages@);
        let mut url = copy_text(&self.base_url);
        url.append("/v1/messages");
        MessagesCall {
            url,
            api_key: copy_text(&self.config.api_key),
            model,
            max_tokens,
            system: request.system_prompt,
            messages,
        }
    }
}

/// The error of a call that could not be sent.
pub fn request_failed(detail: &str) -> (e: LlmError)
    ensures
        e@ == LlmErrorModel::Request("HTTP request failed: "@ + detail@),
{
    let mut m = String::from_str("HTTP request failed: ");
    m.append(detail);
    LlmError::Request(m)
}

/// The error of a failed status: the API's own error type and message where
/// the body carried them, else the status line and the raw body.
pub fn api_failure(status_line: &str, error_body: &str, api_error: Option<(String, String)>) -> (e: LlmError)
    ensures
        e@ == LlmErrorModel::Response(
            match api_error {
                Some(p) => "Anthropic API error ("@ + p.0@ + "): "@ + p.1@,
                None => "Anthropic API returned "@ + status_line@ + ": "@ + error_body@,
            },
        ),
{
    match api_error {
        Some((error_type, message)) => {
            let mut m = String::from_str("Anthropic API error (");
            m.append(error_type.as_str());
            m.append("): ");
            m.append(message.as_str());
            LlmError::Response(m)
        },
        None => {
            let mut m = String::from_str("Anthropic API returned ");
            m.append(status_line);
            m.append(": ");
            m.append(error_body);
            LlmError::Response(m)
        },
    }
}

/// The error of a response body that could not be parsed.
pub fn unparsable_response(detail: &str) -> (e: LlmError)
    ensures
        e@ == LlmErrorModel::Response("Failed to parse response: "@ + detail@),
{
    let mut m = String::from_str("Failed to parse response: ");
    m.append(detail);
    LlmError::Response(m)
}

/// The completion a successful response carries: its `text` blocks joined,
/// its model and usage, and its stop reason or `end_turn`.
pub fn assemble_completion(
    blocks: Vec<ContentBlock>,
    model: String,
    stop_reason: Option<String>,
    input_tokens: i32,
    output_tokens: i32,
) -> (r: CompletionResponse)
    ensures
        r.content@ == joined_text(block_views(blocks@)),
        r.model@ == model@,
        r.input_tokens == input_tokens,
        r.output_tokens == output_tokens,
        r.stop_reason@ == (match stop_reason {
            Some(s) => s@,
            None => "end_turn"@,
        }),
{
    let mut content = String::new();
    let mut i: usize = 0;
    while i < blocks.len()
        invariant
            i <= blocks.len(),
            content@ == joined_text(block_views(blocks@.subrange(0, i as int))),
        decreases blocks.len() - i,
    {
        let ghost before = content@;
        proof {
            let bs = blocks@;
            assert(bs.subrange(0, i as int + 1).drop_last() =~= bs.subrange(0, i as int));
            assert(block_views(bs.subrange(0, i as int + 1)).drop_last() =~= block_views(bs.subrange(0, i as int)));
            assert(block_views(bs.subrange(0, i as int + 1)).last() == (bs[i as int].content_type@, opt_view(
                bs[i as int].text,
            )));
        }
        match &blocks[i].text {
            Some(t) => {
                if text_eq(blocks[i].content_type.as_str(), "text") {
                    content.append(t.as_str());
                }
            },
            None => {},
        }
        i = i + 1;
    }
    assert(blocks@.subrange(0, blocks.len() as int) =~= blocks@);
    let stop = match stop_reason {
        Some(s) => s,
        None => String::from_str("end_turn"),
    };
    CompletionResponse { content, model, input_tokens, output_tokens, stop_reason: stop }
}

// ----- the outcome of a Messages API call -----

/// What to do with a response, by its status.
#[derive(Debug, Clone)]
pub enum ResponsePlan {
    /// Stop with this error; the body is not read.
    Fail(LlmError),
    /// Read the body as the text of an error.
    ReadError,
    /// Read the body as a completion.
    ReadMessage,
}

/// How a response is handled, by its status: too many requests is a rate-limit
/// error at once; another status outside 2xx is an error whose body is read;
/// a 2xx status carries a completion.
pub fn response_plan(status: u16) -> (p: ResponsePlan)
    ensures
        match status_class(status) {
            StatusClass::RateLimited => p matches ResponsePlan::Fail(e) && e@ == LlmErrorModel::RateLimit,
            StatusClass::Failed => p is ReadError,
            StatusClass::Success => p is ReadMessage,
        },
{
    match classify_status(status) {
        StatusClass::RateLimited => ResponsePlan::Fail(LlmError::RateLimit),
        StatusClass::Failed => ResponsePlan::ReadError,
        StatusClass::Success => ResponsePlan::ReadMessage,
    }
}

/// The text an error response is read as: its body, or a fixed note where the
/// body could not be read.
pub open spec fn error_text(body: Option<Seq<char>>) -> Seq<char> {
    match body {
        Some(t) => t,
        None => "Failed to read error body"@,
    }
}

pub open spec fn pair_view(p: Option<(String, String)>) -> Option<(Seq<char>, Seq<char>)> {
    match p {
        Some(x) => Some((x.0@, x.1@)),
        None => None,
    }
}

/// The message of a failed response: the API's own error type and message
/// where the body was read and states them, else the status line and the text
/// the body was read as.
pub open spec fn failure_message(
    status_line: Seq<char>,
    body: Option<Seq<char>>,
    api_error: Option<(Seq<char>, Seq<char>)>,
) -> Seq<char> {
    match (body, api_error) {
        (Some(_), Some(p)) => "Anthropic API error ("@ + p.0 + "): "@ + p.1,
        _ => "Anthropic API returned "@ + status_line + ": "@ + error_text(body),
    }
}

/// The error of a response whose status is neither success nor rate limiting,
/// from its status line, its body as read (`None` where it could not be read)
/// and the API error type and message that the body decodes to, if any.
pub fn failed_response(status_line: &str, error_body: Option<String>, api_error: Option<(String, String)>) -> (e: LlmError)
    ensures
        e@ == LlmErrorModel::Response(failure_message(status_line@, opt_view(error_body), pair_view(api_error))),
{
    proof {
        reveal_strlit("Failed to read error body");
    }
    match error_body {
        Some(text) => api_failure(status_line, text.as_str(), api_error),
        None => api_failure(status_line, "Failed to read error body", None),
    }
}

/// A Messages API response body, as parsed.
#[derive(Debug, Clone)]
pub struct ParsedReply {
    pub blocks: Vec<ContentBlock>,
    pub model: String,
    pub stop_reason: Option<String>,
    pub input_tokens: i32,
    pub output_tokens: i32,
}

/// Whether `c` is the completion a parsed body carries.
pub open spec fn is_completion_of(c: CompletionResponse, p: ParsedReply) -> bool {
    &&& c.content@ == joined_text(block_views(p.blocks@))
    &&& c.model@ == p.model@
    &&& c.input_tokens == p.input_tokens
    &&& c.output_tokens == p.output_tokens
    &&& c.stop_reason@ == (match p.stop_reason {
        Some(s) => s@,
        None => "end_turn"@,
    })
}

/// The result of a successful status, from its body as parsed: the completion
/// it carries, or a response error with the parser's message.
pub fn message_outcome(parsed: Result<ParsedReply, String>) -> (r: Result<CompletionResponse, LlmError>)
    ensures
        match parsed {
            Ok(p) => r matches Ok(c) && is_completion_of(c, p),
            Err(d) => r matches Err(e) && e@ == LlmErrorModel::Response("Failed to parse response: "@ + d@),
        },
{
    match parsed {
        Ok(p) => Ok(assemble_completion(p.blocks, p.model, p.stop_reason, p.input_tokens, p.output_tokens)),
        Err(d) => Err(unparsable_response(d.as_str())),
    }
}

} // verus!
