use framecast::events::{
    InngestBackend, InngestClient, InngestConfig, InngestError, InngestEvent, InngestServiceFactory, MockInngestService,
};
use framecast::llm::{
    api_failure, assemble_completion, classify_status, failed_response, message_outcome, response_plan, ParsedReply,
    ResponsePlan, AnthropicService, CompletionRequest, ConfigurableMockLlmService,
    ContentBlock, LlmConfig, LlmError, LlmErrorKind, LlmMessage, LlmRole, MockBehavior, MockLlmService, StatusClass,
};
use framecast::mail::{
    invitation_url, EmailBackend, EmailConfig, EmailError, EmailMessage, EmailServiceFactory, MockEmailService,
    SesEmailService,
};
use framecast::mail_templates::{team_invitation_html, team_invitation_text, PasswordResetTemplate, TeamInvitationTemplate};
use framecast::render::{
    MockOutcome, MockRenderBehavior, MockRenderService, RenderCallback, RenderConfig, RenderError, RenderFailure,
    RenderOutput, RenderRequest, RenderServiceFactory,
};
use framecast::settings::EnvVars;

fn new_id() -> u128 {
    uuid::Uuid::new_v4().as_u128()
}

fn id_text(id: u128) -> String {
    uuid::Uuid::from_u128(id).to_string()
}

fn j(text: &str) -> serde_json::Value {
    serde_json::from_str(text).unwrap()
}

fn env(pairs: &[(&str, &str)]) -> EnvVars {
    EnvVars { vars: pairs.iter().map(|(k, v)| (k.to_string(), v.to_string())).collect() }
}

// ----- email content -----

#[test]
fn test_team_invitation_text_contains_all_fields() {
    let text = team_invitation_text("Alice", "My Team", "admin", "https://example.com/accept");
    assert!(text.contains("Alice"));
    assert!(text.contains("My Team"));
    assert!(text.contains("admin"));
    assert!(text.contains("https://example.com/accept"));
    assert!(text.contains("7 days"));
}

#[test]
fn test_team_invitation_html_contains_all_fields() {
    let html = team_invitation_html("Alice", "My Team", "admin", "https://example.com/accept");
    assert!(html.contains("Alice"));
    assert!(html.contains("My Team"));
    assert!(html.contains("admin"));
    assert!(html.contains("https://example.com/accept"));
    assert!(html.contains("7 days"));
}

#[test]
fn test_team_invitation_text_exact() {
    let text = team_invitation_text("Alice", "My Team", "admin", "https://x/accept");
    assert_eq!(
        text,
        "Hi there!\n\nAlice has invited you to join the team 'My Team' as a admin.\n\n\
         Click the link below to accept the invitation:\nhttps://x/accept\n\n\
         This invitation will expire in 7 days.\n\n\
         If you don't have a Framecast account, you'll be prompted to create one.\n\n\
         Thanks,\nThe Framecast Team"
    );
}

// ----- email messages -----

#[test]
fn test_email_message_creation() {
    let message = EmailMessage::new(
        "test@example.com".to_string(),
        "sender@example.com".to_string(),
        "Test Subject".to_string(),
        "Test body".to_string(),
    )
    .with_html("<p>Test body</p>".to_string())
    .with_reply_to("reply@example.com".to_string())
    .with_metadata("invitation_id".to_string(), "123".to_string());

    assert_eq!(message.to, "test@example.com");
    assert_eq!(message.from, "sender@example.com");
    assert_eq!(message.subject, "Test Subject");
    assert_eq!(message.body_text, "Test body");
    assert_eq!(message.body_html, Some("<p>Test body</p>".to_string()));
    assert_eq!(message.reply_to, Some("reply@example.com".to_string()));
    assert_eq!(message.metadata_value("invitation_id"), Some("123".to_string()));
}

#[test]
fn test_email_metadata_insert_replaces() {
    let message = EmailMessage::new("a@b".to_string(), "c@d".to_string(), "s".to_string(), "b".to_string())
        .with_metadata("k".to_string(), "1".to_string())
        .with_metadata("other".to_string(), "x".to_string())
        .with_metadata("k".to_string(), "2".to_string());
    assert_eq!(message.metadata_value("k"), Some("2".to_string()));
    assert_eq!(message.metadata_value("other"), Some("x".to_string()));
    assert_eq!(message.metadata_value("missing"), None);
    assert_eq!(message.metadata.len(), 2);
}

#[test]
fn test_email_config_from_env() {
    let config = EmailConfig::from_vars(&env(&[])).unwrap();
    assert_eq!(config.provider, "mock");
    assert_eq!(config.default_from, "invitations@framecast.app");
    assert!(config.enabled);
    assert_eq!(config.app_base_url, "https://framecast.app");

    let config = EmailConfig::from_vars(&env(&[("EMAIL_ENABLED", "false"), ("EMAIL_PROVIDER", "ses")])).unwrap();
    assert!(!config.enabled);
    assert_eq!(config.provider, "ses");
    let config = EmailConfig::from_vars(&env(&[("EMAIL_ENABLED", "nope")])).unwrap();
    assert!(config.enabled);
}

#[test]
fn test_email_factory_selection() {
    let base = EmailConfig::from_vars(&env(&[])).unwrap();
    assert!(matches!(EmailServiceFactory::create(base.clone()), Ok(EmailBackend::Mock(_))));
    let ses = EmailConfig { provider: "aws-ses".to_string(), ..base.clone() };
    assert!(matches!(EmailServiceFactory::create(ses), Ok(EmailBackend::Ses(_))));
    let disabled = EmailConfig { provider: "smtp".to_string(), enabled: false, ..base.clone() };
    assert!(matches!(EmailServiceFactory::create(disabled), Ok(EmailBackend::Mock(_))));
    let unknown = EmailConfig { provider: "smtp".to_string(), ..base };
    match EmailServiceFactory::create(unknown) {
        Err(e) => assert_eq!(e.to_string(), "Email configuration error: Unknown email provider: smtp. Supported providers: ses, mock"),
        Ok(_) => panic!("Expected error for unknown provider"),
    }
    assert_eq!(EmailError::AwsSes("quota".to_string()).to_string(), "AWS SES error: quota");
    assert_eq!(EmailError::Validation("bad".to_string()).to_string(), "Email validation error: bad");
}

#[test]
fn test_mock_email_service() {
    let service = MockEmailService::new();

    let message = EmailMessage::new(
        "test@example.com".to_string(),
        "sender@framecast.app".to_string(),
        "Test Subject".to_string(),
        "Test body".to_string(),
    );

    let receipt = service.send_email(message).unwrap();

    assert!(receipt.message_id.starts_with("mock-"));
    assert_eq!(receipt.provider, "mock");
}

#[test]
fn test_team_invitation_email() {
    let service = MockEmailService::new();
    let team_id = new_id();
    let invitation_id = new_id();

    let receipt = service
        .send_team_invitation("Test Team", team_id, invitation_id, "invitee@example.com", "Inviter User", "member")
        .unwrap();

    assert_eq!(receipt.provider, "mock");
    let get = |k: &str| receipt.metadata.iter().find(|(key, _)| key == k).map(|(_, v)| v.clone());
    assert_eq!(get("email_type"), Some("team_invitation".to_string()));
    assert_eq!(get("invitation_id"), Some(id_text(invitation_id)));
}

#[test]
fn test_invitation_url_format() {
    let team_id = new_id();
    let invitation_id = new_id();
    assert_eq!(
        invitation_url("https://app.example", team_id, invitation_id),
        format!("https://app.example/teams/{}/invitations/{}/accept", id_text(team_id), id_text(invitation_id))
    );
}

// ----- templates -----

#[test]
fn test_team_invitation_template() {
    let team_id = new_id();
    let invitation_id = new_id();

    let template = TeamInvitationTemplate::new(
        "Test Team".to_string(),
        team_id,
        invitation_id,
        "John Doe".to_string(),
        "member".to_string(),
    )
    .with_custom_message("Welcome to our awesome team!".to_string())
    .with_expiration_days(14);

    let message = template.build("invitee@example.com".to_string(), "invitations@framecast.app".to_string()).unwrap();

    assert_eq!(message.to, "invitee@example.com");
    assert_eq!(message.subject, "Invitation to join team: Test Team");
    assert!(message.body_text.contains("John Doe"));
    assert!(message.body_text.contains("Test Team"));
    assert!(message.body_text.contains("member"));
    assert!(message.body_text.contains("Welcome to our awesome team!"));
    assert!(message.body_text.contains("14 days"));

    assert!(message.body_html.is_some());
    let html = message.body_html.clone().unwrap();
    assert!(html.contains("Test Team"));
    assert!(html.contains("John Doe"));
    assert!(html.contains("Welcome to our awesome team!"));

    assert_eq!(message.metadata_value("email_type"), Some("team_invitation".to_string()));
    assert_eq!(message.metadata_value("team_id"), Some(id_text(team_id)));
    assert_eq!(message.metadata_value("invitation_id"), Some(id_text(invitation_id)));
}

#[test]
fn test_team_invitation_template_without_custom_message() {
    let template = TeamInvitationTemplate::new("T".to_string(), 1, 2, "Ann".to_string(), "viewer".to_string());
    let message = template.build("x@y".to_string(), "f@g".to_string()).unwrap();
    assert!(!message.body_text.contains("Message from"));
    assert!(message.body_text.contains("7 days"));
    assert!(message.body_html.clone().unwrap().contains("This invitation was sent to x@y"));
    assert_eq!(message.metadata_value("template_version"), Some("1.0".to_string()));
    assert_eq!(message.metadata_value("role"), Some("viewer".to_string()));
}

#[test]
fn test_password_reset_template() {
    let template = PasswordResetTemplate::new("reset_token_123".to_string())
        .with_user_name("Jane Smith".to_string())
        .with_expiration_hours(12);

    let message = template.build("user@example.com".to_string(), "noreply@framecast.app".to_string()).unwrap();

    assert_eq!(message.to, "user@example.com");
    assert_eq!(message.subject, "Reset your Framecast password");
    assert!(message.body_text.contains("Hi Jane Smith,"));
    assert!(message.body_text.contains("reset_token_123"));
    assert!(message.body_text.contains("12 hours"));

    assert!(message.body_html.is_some());
    let html = message.body_html.clone().unwrap();
    assert!(html.contains("Jane Smith"));
    assert!(html.contains("reset_token_123"));

    assert_eq!(message.metadata_value("email_type"), Some("password_reset".to_string()));
}

#[test]
fn test_password_reset_template_defaults() {
    let message = PasswordResetTemplate::new("t".to_string()).build("a@b".to_string(), "c@d".to_string()).unwrap();
    assert!(message.body_text.starts_with("Hi there,\n\n"));
    assert!(message.body_text.contains("https://framecast.app/auth/reset-password?token=t"));
    assert!(message.body_text.contains("24 hours"));
}

// ----- workflow events -----

#[test]
fn test_config_valid_inngest_provider() {
    let config = InngestConfig {
        provider: "inngest".to_string(),
        event_key: "test-key-123".to_string(),
        base_url: "http://localhost:9999".to_string(),
        signing_key: Some("sign-key-abc".to_string()),
    };
    assert_eq!(config.provider, "inngest");
    assert_eq!(config.event_key, "test-key-123");
    assert_eq!(config.base_url, "http://localhost:9999");
    assert_eq!(config.signing_key.as_deref(), Some("sign-key-abc"));
}

#[test]
fn test_factory_rejects_inngest_without_event_key() {
    let config = InngestConfig {
        provider: "inngest".to_string(),
        event_key: String::new(),
        base_url: "http://localhost:8288".to_string(),
        signing_key: None,
    };
    let result = InngestServiceFactory::create(config);
    assert!(result.is_err());
}

#[test]
fn lib_test_factory_mock_succeeds() {
    let config = InngestConfig {
        provider: "mock".to_string(),
        event_key: String::new(),
        base_url: "http://localhost:8288".to_string(),
        signing_key: None,
    };
    let result = InngestServiceFactory::create(config);
    assert!(result.is_ok());
}

#[test]
fn test_factory_inngest_succeeds() {
    let config = InngestConfig {
        provider: "inngest".to_string(),
        event_key: "test-key".to_string(),
        base_url: "http://localhost:8288".to_string(),
        signing_key: None,
    };
    let result = InngestServiceFactory::create(config);
    assert!(result.is_ok());
}

#[test]
fn lib_test_factory_unknown_provider() {
    let config = InngestConfig {
        provider: "invalid".to_string(),
        event_key: "key".to_string(),
        base_url: "http://localhost:8288".to_string(),
        signing_key: None,
    };
    let err = match InngestServiceFactory::create(config) {
        Err(e) => e,
        Ok(_) => panic!("Expected error for unknown provider"),
    };
    assert!(err.to_string().contains("Unknown Inngest provider: invalid"));
}

#[test]
fn test_mock_send_event() {
    let mut service = MockInngestService::new();

    let event = InngestEvent { name: "app/test.event".to_string(), data: j(r#"{"key": "value"}"#), user: None, id: None, ts: None };

    service.send_event(event).unwrap();

    let recorded = service.recorded_events();
    assert_eq!(recorded.len(), 1);
    assert_eq!(recorded[0].name, "app/test.event");
    assert_eq!(recorded[0].data["key"], "value");
}

#[test]
fn test_mock_send_events() {
    let mut service = MockInngestService::new();

    let events = vec![
        InngestEvent { name: "app/event.one".to_string(), data: j(r#"{"idx": 1}"#), user: None, id: None, ts: None },
        InngestEvent { name: "app/event.two".to_string(), data: j(r#"{"idx": 2}"#), user: None, id: None, ts: None },
        InngestEvent { name: "app/event.three".to_string(), data: j(r#"{"idx": 3}"#), user: None, id: None, ts: None },
    ];

    service.send_events(events).unwrap();

    let recorded = service.recorded_events();
    assert_eq!(recorded.len(), 3);
    assert_eq!(recorded[0].name, "app/event.one");
    assert_eq!(recorded[1].name, "app/event.two");
    assert_eq!(recorded[2].name, "app/event.three");

    service.reset();
    assert!(service.recorded_events().is_empty());
}

#[test]
fn test_error_display() {
    let config_err = InngestError::Configuration("bad config".to_string());
    assert_eq!(config_err.to_string(), "Inngest configuration error: bad config");

    let request_err = InngestError::Request("connection refused".to_string());
    assert_eq!(request_err.to_string(), "Inngest request error: connection refused");

    let response_err = InngestError::Response("500 Internal Server Error".to_string());
    assert_eq!(response_err.to_string(), "Inngest response error: 500 Internal Server Error");
}

#[test]
fn test_inngest_config_from_env_and_event_url() {
    let config = InngestConfig::from_vars(&env(&[])).unwrap();
    assert_eq!(config.provider, "mock");
    assert_eq!(config.event_key, "mock-event-key");
    assert_eq!(config.base_url, "http://localhost:8288");
    assert!(config.signing_key.is_none());
    match InngestConfig::from_vars(&env(&[("INNGEST_PROVIDER", "inngest")])) {
        Err(e) => assert_eq!(e.to_string(), "Inngest configuration error: INNGEST_EVENT_KEY is required for Inngest provider"),
        Ok(_) => panic!("Expected a missing key error"),
    }
    let config = InngestConfig::from_vars(&env(&[
        ("INNGEST_PROVIDER", "inngest"),
        ("INNGEST_EVENT_KEY", "k1"),
        ("INNGEST_BASE_URL", "https://inn.example//"),
    ]))
    .unwrap();
    match InngestServiceFactory::create(config) {
        Ok(InngestBackend::Client(c)) => assert_eq!(c.event_url, "https://inn.example/e/k1"),
        _ => panic!("Expected a client"),
    }
    let e = InngestClient::response_error("500 Internal Server Error", "oops");
    assert_eq!(e.to_string(), "Inngest response error: Inngest API returned 500 Internal Server Error: oops");
}

// ----- language models -----

fn make_request(content: &str) -> CompletionRequest {
    CompletionRequest {
        model: String::new(),
        system_prompt: None,
        messages: vec![LlmMessage { role: LlmRole::User, content: content.to_string() }],
        max_tokens: None,
    }
}

#[test]
fn test_mock_default_model() {
    let service = MockLlmService::new();
    assert_eq!(service.default_model(), "mock-model");
}

#[test]
fn test_mock_llm_service() {
    let service = MockLlmService::new();
    let response = service.complete(make_request("Hello, world!")).unwrap();

    assert!(response.content.contains("Hello, world!"));
    assert_eq!(response.model, "mock-model");
    assert_eq!(response.stop_reason, "end_turn");
    assert!(response.input_tokens > 0);
    assert!(response.output_tokens > 0);
    assert_eq!(response.content, "Mock response to: Hello, world!");
    assert_eq!(response.input_tokens, 3);
    assert_eq!(response.output_tokens, 7);
}

#[test]
fn test_mock_uses_provided_model() {
    let service = MockLlmService::new();
    let request = CompletionRequest {
        model: "custom-model".to_string(),
        system_prompt: None,
        messages: vec![LlmMessage { role: LlmRole::User, content: "Test".to_string() }],
        max_tokens: Some(100),
    };
    let response = service.complete(request).unwrap();
    assert_eq!(response.model, "custom-model");
}

#[test]
fn test_mock_echo_of_empty_conversation() {
    let service = MockLlmService::new();
    let request = CompletionRequest { model: String::new(), system_prompt: None, messages: vec![], max_tokens: None };
    let response = service.complete(request).unwrap();
    assert_eq!(response.content, "Mock response to: empty");
    assert_eq!(response.input_tokens, 0);
}

#[test]
fn test_configurable_mock_fixed_response() {
    let mut service = ConfigurableMockLlmService::with_behavior(MockBehavior::FixedResponse("Fixed answer".to_string()));
    let response = service.complete(make_request("anything")).unwrap();
    assert_eq!(response.content, "Fixed answer");
    assert_eq!(response.stop_reason, "end_turn");
    assert_eq!(response.input_tokens, 10);
}

#[test]
fn test_configurable_mock_response_sequence() {
    let mut service = ConfigurableMockLlmService::with_behavior(MockBehavior::ResponseSequence(vec![
        "first".to_string(),
        "second".to_string(),
        "third".to_string(),
    ]));

    let r1 = service.complete(make_request("a")).unwrap();
    let r2 = service.complete(make_request("b")).unwrap();
    let r3 = service.complete(make_request("c")).unwrap();
    let r4 = service.complete(make_request("d")).unwrap();

    assert_eq!(r1.content, "first");
    assert_eq!(r2.content, "second");
    assert_eq!(r3.content, "third");
    assert_eq!(r4.content, "first");
}

#[test]
fn test_configurable_mock_error_rate_limit() {
    let mut service = ConfigurableMockLlmService::with_behavior(MockBehavior::Error(LlmErrorKind::RateLimit));
    let result = service.complete(make_request("hello"));
    assert!(result.is_err());
    let err = result.unwrap_err();
    assert!(matches!(err, LlmError::RateLimit));
}

#[test]
fn test_configurable_mock_error_request() {
    let mut service = ConfigurableMockLlmService::with_behavior(MockBehavior::Error(LlmErrorKind::Request(
        "connection refused".to_string(),
    )));
    let result = service.complete(make_request("hello"));
    let err = result.unwrap_err();
    assert!(matches!(err, LlmError::Request(msg) if msg == "connection refused"));
}

#[test]
fn test_configurable_mock_records_requests() {
    let mut service = ConfigurableMockLlmService::new();

    let req = CompletionRequest {
        model: "sonnet-test".to_string(),
        system_prompt: Some("You are helpful".to_string()),
        messages: vec![LlmMessage { role: LlmRole::User, content: "What is 2+2?".to_string() }],
        max_tokens: Some(100),
    };

    service.complete(req).unwrap();

    let recorded = service.recorded_requests();
    assert_eq!(recorded.len(), 1);
    assert_eq!(recorded[0].model, "sonnet-test");
    assert_eq!(recorded[0].system_prompt.as_deref(), Some("You are helpful"));
    assert_eq!(recorded[0].messages.len(), 1);
    assert_eq!(recorded[0].messages[0].content, "What is 2+2?");
    assert_eq!(recorded[0].max_tokens, Some(100));
}

#[test]
fn test_configurable_mock_call_count() {
    let mut service = ConfigurableMockLlmService::new();

    assert_eq!(service.call_count(), 0);
    service.complete(make_request("a")).unwrap();
    assert_eq!(service.call_count(), 1);
    service.complete(make_request("b")).unwrap();
    assert_eq!(service.call_count(), 2);

    service.reset();
    assert_eq!(service.call_count(), 0);
    assert!(service.recorded_requests().is_empty());
}

#[test]
fn test_configurable_mock_echo_default() {
    let mut service = ConfigurableMockLlmService::new();
    let response = service.complete(make_request("Hello world")).unwrap();
    assert!(response.content.contains("Hello world"));
    assert_eq!(response.model, "mock-model");
    assert_eq!(response.stop_reason, "end_turn");
}

#[test]
fn test_configurable_mock_set_behavior_between_calls() {
    let mut service = ConfigurableMockLlmService::new();
    service.complete(make_request("a")).unwrap();
    service.set_behavior(MockBehavior::Error(LlmErrorKind::Response("bad".to_string())));
    assert!(matches!(service.complete(make_request("b")), Err(LlmError::Response(m)) if m == "bad"));
    assert_eq!(service.call_count(), 2);
    assert_eq!(service.recorded_requests().len(), 2);
}

fn llm_config(base_url: Option<&str>) -> LlmConfig {
    LlmConfig {
        api_key: "key-1".to_string(),
        default_model: "sonnet-default".to_string(),
        max_tokens: 4096,
        base_url: base_url.map(|s| s.to_string()),
    }
}

#[test]
fn test_anthropic_prepare_request() {
    let service = AnthropicService::new(llm_config(None));
    assert_eq!(service.base_url, "https://api.anthropic.com");
    assert_eq!(service.default_model(), "sonnet-default");
    let request = CompletionRequest {
        model: String::new(),
        system_prompt: Some("sys".to_string()),
        messages: vec![
            LlmMessage { role: LlmRole::User, content: "hi".to_string() },
            LlmMessage { role: LlmRole::Assistant, content: "hello".to_string() },
        ],
        max_tokens: None,
    };
    let call = service.prepare(request);
    assert_eq!(call.url, "https://api.anthropic.com/v1/messages");
    assert_eq!(call.api_key, "key-1");
    assert_eq!(call.model, "sonnet-default");
    assert_eq!(call.max_tokens, 4096);
    assert_eq!(call.system, Some("sys".to_string()));
    assert_eq!(call.messages.len(), 2);
    assert_eq!(call.messages[0].role, "user");
    assert_eq!(call.messages[1].role, "assistant");
    assert_eq!(call.messages[1].content, "hello");

    let service = AnthropicService::new(llm_config(Some("http://localhost:9")));
    let call = service.prepare(CompletionRequest { max_tokens: Some(5), ..make_request("x") });
    assert_eq!(call.url, "http://localhost:9/v1/messages");
    assert_eq!(call.max_tokens, 5);
}

#[test]
fn test_anthropic_response_interpretation() {
    assert_eq!(classify_status(200), StatusClass::Success);
    assert_eq!(classify_status(429), StatusClass::RateLimited);
    assert_eq!(classify_status(500), StatusClass::Failed);
    assert_eq!(classify_status(302), StatusClass::Failed);

    let e = api_failure("400 Bad Request", "{}", Some(("invalid_request_error".to_string(), "bad".to_string())));
    assert!(matches!(e, LlmError::Response(m) if m == "Anthropic API error (invalid_request_error): bad"));
    let e = api_failure("502 Bad Gateway", "upstream", None);
    assert!(matches!(e, LlmError::Response(m) if m == "Anthropic API returned 502 Bad Gateway: upstream"));

    let blocks = vec![
        ContentBlock { content_type: "text".to_string(), text: Some("Hello".to_string()) },
        ContentBlock { content_type: "tool_use".to_string(), text: Some("ignored".to_string()) },
        ContentBlock { content_type: "text".to_string(), text: None },
        ContentBlock { content_type: "text".to_string(), text: Some(" world".to_string()) },
    ];
    let r = assemble_completion(blocks, "m".to_string(), None, 3, 4);
    assert_eq!(r.content, "Hello world");
    assert_eq!(r.stop_reason, "end_turn");
    assert_eq!(r.input_tokens, 3);
    let r = assemble_completion(vec![], "m".to_string(), Some("max_tokens".to_string()), 0, 0);
    assert_eq!(r.stop_reason, "max_tokens");
}

// ----- rendering -----

#[test]
fn test_render_config_defaults() {
    let config = RenderConfig { provider: "mock".to_string(), callback_base_url: "http://localhost:3000".to_string() };
    assert_eq!(config.provider, "mock");
    assert_eq!(config.callback_base_url, "http://localhost:3000");
}

#[test]
fn test_render_config_custom() {
    let config = RenderConfig { provider: "runpod".to_string(), callback_base_url: "https://api.example.com".to_string() };
    assert_eq!(config.provider, "runpod");
    assert_eq!(config.callback_base_url, "https://api.example.com");
}

#[test]
fn test_render_config_from_env() {
    let config = RenderConfig::from_vars(&env(&[]));
    assert_eq!(config.provider, "mock");
    assert_eq!(config.callback_base_url, "http://localhost:3000");
    let config = RenderConfig::from_vars(&env(&[("RENDER_PROVIDER", "runpod")]));
    assert_eq!(config.provider, "runpod");
}

#[test]
fn test_factory_mock_succeeds() {
    let config = RenderConfig { provider: "mock".to_string(), callback_base_url: "http://localhost:3000".to_string() };
    let result = RenderServiceFactory::create(config);
    assert!(result.is_ok());
}

#[test]
fn test_factory_unknown_provider() {
    let config = RenderConfig { provider: "invalid".to_string(), callback_base_url: "http://localhost:3000".to_string() };
    let result = RenderServiceFactory::create(config);
    assert!(result.is_err());
    let err = match result {
        Err(e) => e,
        Ok(_) => panic!("Expected error"),
    };
    assert!(err.to_string().contains("Unknown render provider: invalid"));
}

#[test]
fn test_factory_runpod_not_available() {
    let config = RenderConfig { provider: "runpod".to_string(), callback_base_url: "http://localhost:3000".to_string() };
    match RenderServiceFactory::create(config) {
        Err(e) => assert_eq!(
            e.to_string(),
            "Render configuration error: RunPod provider not yet implemented. Use 'mock' provider."
        ),
        Ok(_) => panic!("Expected error"),
    }
}

#[test]
fn test_mock_outcome_default_is_complete() {
    let outcome = MockOutcome::default();
    assert_eq!(outcome, MockOutcome::Complete);
}

#[test]
fn test_mock_render_behavior_default_delay() {
    let behavior = MockRenderBehavior::new();
    assert_eq!(behavior.get_delay_ms(), 50);
    assert_eq!(behavior.get_outcome(), MockOutcome::Complete);
}

#[test]
fn test_mock_render_behavior_configure() {
    let mut behavior = MockRenderBehavior::new();
    assert_eq!(behavior.get_outcome(), MockOutcome::Complete);

    behavior.set_outcome(MockOutcome::Fail);
    assert_eq!(behavior.get_outcome(), MockOutcome::Fail);

    behavior.set_outcome(MockOutcome::Timeout);
    assert_eq!(behavior.get_outcome(), MockOutcome::Timeout);

    behavior.set_delay_ms(500);
    assert_eq!(behavior.get_delay_ms(), 500);
}

#[test]
fn test_mock_render_behavior_reset() {
    let mut behavior = MockRenderBehavior::new();

    behavior.set_outcome(MockOutcome::Fail);
    behavior.set_delay_ms(1000);
    behavior.set_progress_steps(vec![serde_json::Value::from(25.0), serde_json::Value::from(50.0), serde_json::Value::from(75.0)]);
    behavior.set_error_payload(j(r#"{"error": "test"}"#));
    behavior.set_output_payload(j(r#"{"output": "test"}"#));

    assert_eq!(behavior.get_outcome(), MockOutcome::Fail);
    assert_eq!(behavior.get_delay_ms(), 1000);

    behavior.reset();

    assert_eq!(behavior.get_outcome(), MockOutcome::Complete);
    assert_eq!(behavior.get_delay_ms(), 50);
    assert!(behavior.progress_steps.is_empty());
    assert!(behavior.error_payload.is_none());
    assert!(behavior.output_payload.is_none());
}

#[test]
fn test_render_error_display() {
    let config_err = RenderError::Configuration("missing key".to_string());
    assert_eq!(config_err.to_string(), "Render configuration error: missing key");

    let request_err = RenderError::Request("timeout".to_string());
    assert_eq!(request_err.to_string(), "Render request error: timeout");

    let response_err = RenderError::Response("invalid json".to_string());
    assert_eq!(response_err.to_string(), "Render response error: invalid json");
}

fn render_request(id: u128) -> RenderRequest {
    RenderRequest {
        generation_id: id,
        spec_snapshot: j(r#"{"frames": [{"prompt": "A sunset"}]}"#),
        options: j(r#"{"resolution": "1080p"}"#),
        callback_url: "http://localhost:3000/callbacks/render".to_string(),
    }
}

#[test]
fn test_mock_render_plans_started_progress_and_completed() {
    let mut behavior = MockRenderBehavior::new();
    behavior.set_progress_steps(vec![serde_json::Value::from(25.0), serde_json::Value::from(75.0)]);
    let mut service = MockRenderService::with_behavior(behavior, "http://localhost:3000".to_string());
    let id = new_id();
    let plan = service.submit_render(render_request(id)).unwrap();
    assert_eq!(plan.callback_url, "http://localhost:3000/callbacks/render");
    assert_eq!(plan.initial_delay_ms, 50);
    assert_eq!(plan.callbacks.len(), 4);
    assert!(matches!(plan.callbacks[0], RenderCallback::Started { generation_id } if generation_id == id));
    assert!(matches!(&plan.callbacks[1], RenderCallback::Progress { progress_percent, .. } if *progress_percent == serde_json::Value::from(25.0)));
    match &plan.callbacks[3] {
        RenderCallback::Completed { generation_id, output: RenderOutput::Url(u), output_size_bytes } => {
            assert_eq!(*generation_id, id);
            assert_eq!(*u, format!("https://mock-storage.example.com/renders/{}.mp4", id_text(id)));
            assert_eq!(*output_size_bytes, 1024);
        }
        other => panic!("unexpected final callback {:?}", other),
    }
    let recorded = service.recorded_requests();
    assert_eq!(recorded.len(), 1);
    assert_eq!(recorded[0].generation_id, id);
    assert_eq!(recorded[0].options, j(r#"{"resolution": "1080p"}"#));
    service.reset_history();
    assert!(service.history().is_empty());
    assert_eq!(service.callback_base_url(), "http://localhost:3000");
}

#[test]
fn test_mock_render_failure_and_timeout_plans() {
    let mut behavior = MockRenderBehavior::new();
    behavior.set_outcome(MockOutcome::Fail);
    let mut service = MockRenderService::with_behavior(behavior, "http://cb".to_string());
    let plan = service.submit_render(render_request(1)).unwrap();
    assert_eq!(plan.callbacks.len(), 2);
    match &plan.callbacks[1] {
        RenderCallback::Failed { error: RenderFailure::Described { message, code }, failure_type, .. } => {
            assert_eq!(message, "Mock render failure");
            assert_eq!(code, "MOCK_ERROR");
            assert_eq!(failure_type, "system");
        }
        other => panic!("unexpected final callback {:?}", other),
    }
    let mut timeout = MockRenderBehavior::new();
    timeout.set_outcome(MockOutcome::Timeout);
    service.configure(timeout);
    let plan = service.submit_render(render_request(2)).unwrap();
    assert!(plan.callbacks.is_empty());
    assert_eq!(service.recorded_requests().len(), 2);
}

fn ses_config(region: Option<&str>, endpoint: Option<&str>) -> EmailConfig {
    EmailConfig {
        provider: "ses".to_string(),
        aws_region: region.map(|r| r.to_string()),
        aws_endpoint_url: endpoint.map(|e| e.to_string()),
        default_from: "test@framecast.app".to_string(),
        enabled: true,
        app_base_url: "https://framecast.app".to_string(),
    }
}

#[test]
fn test_ses_service_creation() {
    let service = SesEmailService::new(ses_config(Some("us-east-1"), Some("http://localhost:4566")));
    let settings = service.client_settings();
    assert_eq!(settings.region, "us-east-1");
    assert_eq!(settings.endpoint_url.as_deref(), Some("http://localhost:4566"));
    let credentials = settings.credentials.expect("a local endpoint uses static credentials");
    assert_eq!(credentials.access_key_id, "test-access-key");
    assert_eq!(credentials.secret_access_key, "test-secret-key");
    assert_eq!(credentials.provider_name, "localstack-email-provider");
    assert_eq!(service.default_from(), "test@framecast.app");
    assert_eq!(service.app_base_url(), "https://framecast.app");
}

#[test]
fn test_ses_client_settings_defaults() {
    let settings = SesEmailService::new(ses_config(None, None)).client_settings();
    assert_eq!(settings.region, "us-east-1");
    assert!(settings.endpoint_url.is_none());
    assert!(settings.credentials.is_none());
    let settings = SesEmailService::new(ses_config(Some("eu-west-1"), None)).client_settings();
    assert_eq!(settings.region, "eu-west-1");
}

#[test]
fn test_ses_send_request_shape() {
    let service = SesEmailService::new(ses_config(None, None));
    let message = EmailMessage::new(
        "to@example.com".to_string(),
        "from@framecast.app".to_string(),
        "Subject".to_string(),
        "Text".to_string(),
    )
    .with_html("<p>Text</p>".to_string())
    .with_reply_to("reply@example.com".to_string());
    let request = service.send_request(&message).unwrap();
    assert_eq!(request.source, "from@framecast.app");
    assert_eq!(request.destination.to_addresses, vec!["to@example.com".to_string()]);
    assert_eq!(request.message.subject.data, "Subject");
    assert_eq!(request.message.subject.charset, "UTF-8");
    assert_eq!(request.message.text.data, "Text");
    assert_eq!(request.message.html.as_ref().map(|c| c.data.as_str()), Some("<p>Text</p>"));
    assert_eq!(request.reply_to_addresses, vec!["reply@example.com".to_string()]);

    let plain = EmailMessage::new("a@b.c".to_string(), "d@e.f".to_string(), "S".to_string(), "T".to_string());
    let request = service.send_request(&plain).unwrap();
    assert!(request.message.html.is_none());
    assert!(request.reply_to_addresses.is_empty());
}

#[test]
fn test_ses_rejects_addresses_without_at() {
    let service = SesEmailService::new(ses_config(None, None));
    for (to, from) in [("nobody", "from@framecast.app"), ("to@example.com", "sender"), ("", "")] {
        let message = EmailMessage::new(to.to_string(), from.to_string(), "S".to_string(), "T".to_string());
        match service.send_request(&message) {
            Err(e) => assert_eq!(e.to_string(), "Email validation error: Invalid email address format"),
            Ok(_) => panic!("Expected a validation error"),
        }
    }
}

#[test]
fn test_ses_receipt_and_failure() {
    let service = SesEmailService::new(ses_config(None, None));
    let message = EmailMessage::new("a@b.c".to_string(), "d@e.f".to_string(), "S".to_string(), "T".to_string())
        .with_metadata("invitation_id".to_string(), "42".to_string());
    let receipt = service.delivered(&message, "ses-123".to_string());
    assert_eq!(receipt.message_id, "ses-123");
    assert_eq!(receipt.provider, "aws-ses");
    assert_eq!(receipt.metadata, vec![("invitation_id".to_string(), "42".to_string())]);
    assert!(receipt.sent_at > 0);
    assert_eq!(service.send_failed("throttled").to_string(), "AWS SES error: Failed to send email: throttled");
}

#[test]
fn test_ses_team_invitation_message() {
    let service = SesEmailService::new(ses_config(None, None));
    let team_id = new_id();
    let invitation_id = new_id();
    let message =
        service.team_invitation_message("Team", team_id, invitation_id, "invitee@example.com", "Inviter", "admin");
    let url = format!("https://framecast.app/teams/{}/invitations/{}/accept", id_text(team_id), id_text(invitation_id));
    assert_eq!(message.from, "test@framecast.app");
    assert_eq!(message.to, "invitee@example.com");
    assert_eq!(message.subject, "Invitation to join team: Team");
    assert_eq!(message.body_text, team_invitation_text("Inviter", "Team", "admin", &url));
    assert_eq!(message.metadata_value("role"), Some("admin".to_string()));
    assert_eq!(message.metadata_value("email_type"), Some("team_invitation".to_string()));
    assert_eq!(message.metadata_value("invitation_id"), Some(id_text(invitation_id)));
}

#[test]
fn test_configurable_mock_count_matches_recorded_requests() {
    let mut service = ConfigurableMockLlmService::new();
    service.complete(make_request("a")).unwrap();
    service.set_behavior(MockBehavior::Error(LlmErrorKind::RateLimit));
    assert!(service.complete(make_request("b")).is_err());
    assert_eq!(service.call_count(), 2);
    assert_eq!(service.recorded_requests().len(), 2);
    service.reset();
    assert_eq!(service.call_count(), service.recorded_requests().len());
}

#[test]
fn test_anthropic_outcome_per_status() {
    assert!(matches!(response_plan(429), ResponsePlan::Fail(LlmError::RateLimit)));
    assert!(matches!(response_plan(500), ResponsePlan::ReadError));
    assert!(matches!(response_plan(404), ResponsePlan::ReadError));
    assert!(matches!(response_plan(200), ResponsePlan::ReadMessage));
    assert!(matches!(response_plan(201), ResponsePlan::ReadMessage));

    let body = r#"{"type":"error","error":{"type":"overloaded_error","message":"Overloaded"}}"#;
    // The body is decoded by the caller; the error text depends on what it decoded to.
    match failed_response(
        "529 <unknown status code>",
        Some(body.to_string()),
        Some(("overloaded_error".to_string(), "Overloaded".to_string())),
    ) {
        LlmError::Response(m) => assert_eq!(m, "Anthropic API error (overloaded_error): Overloaded"),
        other => panic!("unexpected {other:?}"),
    }
    match failed_response("502 Bad Gateway", Some("upstream down".to_string()), None) {
        LlmError::Response(m) => assert_eq!(m, "Anthropic API returned 502 Bad Gateway: upstream down"),
        other => panic!("unexpected {other:?}"),
    }
    match failed_response("500 Internal Server Error", None, Some(("ignored".to_string(), "ignored".to_string()))) {
        LlmError::Response(m) => {
            assert_eq!(m, "Anthropic API returned 500 Internal Server Error: Failed to read error body")
        }
        other => panic!("unexpected {other:?}"),
    }
    match failed_response("400 Bad Request", Some(r#"{"error":{"type":"invalid"}}"#.to_string()), None) {
        LlmError::Response(m) => {
            assert_eq!(m, r#"Anthropic API returned 400 Bad Request: {"error":{"type":"invalid"}}"#)
        }
        other => panic!("unexpected {other:?}"),
    }
}

#[test]
fn test_anthropic_message_outcome() {
    let parsed = ParsedReply {
        blocks: vec![
            ContentBlock { content_type: "text".to_string(), text: Some("Hello, ".to_string()) },
            ContentBlock { content_type: "tool_use".to_string(), text: Some("ignored".to_string()) },
            ContentBlock { content_type: "text".to_string(), text: Some("world".to_string()) },
        ],
        model: "sonnet-test".to_string(),
        stop_reason: None,
        input_tokens: 12,
        output_tokens: 3,
    };
    let c = message_outcome(Ok(parsed)).unwrap();
    assert_eq!(c.content, "Hello, world");
    assert_eq!(c.model, "sonnet-test");
    assert_eq!(c.stop_reason, "end_turn");
    assert_eq!((c.input_tokens, c.output_tokens), (12, 3));
    match message_outcome(Err("missing field `usage`".to_string())) {
        Err(LlmError::Response(m)) => assert_eq!(m, "Failed to parse response: missing field `usage`"),
        other => panic!("unexpected {other:?}"),
    }
}

#[test]
fn test_inngest_response_outcome() {
    assert!(InngestClient::accepts(200));
    assert!(InngestClient::accepts(202));
    assert!(!InngestClient::accepts(400));
    assert!(InngestClient::response_outcome(200, "200 OK", None).is_ok());
    match InngestClient::response_outcome(401, "401 Unauthorized", Some("bad key".to_string())) {
        Err(e) => assert_eq!(e.to_string(), "Inngest response error: Inngest API returned 401 Unauthorized: bad key"),
        Ok(_) => panic!("expected an error"),
    }
    match InngestClient::response_outcome(500, "500 Internal Server Error", None) {
        Err(e) => assert_eq!(
            e.to_string(),
            "Inngest response error: Inngest API returned 500 Internal Server Error: Failed to read response body"
        ),
        Ok(_) => panic!("expected an error"),
    }
}

#[test]
fn test_configurable_mock_count_after_ten_calls() {
    let mut service = ConfigurableMockLlmService::new();
    for i in 0..10 {
        if i % 3 == 0 {
            service.set_behavior(MockBehavior::Error(LlmErrorKind::Response("down".to_string())));
        } else {
            service.set_behavior(MockBehavior::Echo);
        }
        let _ = service.complete(make_request(&i.to_string()));
    }
    assert_eq!(service.call_count(), 10);
    let recorded = service.recorded_requests();
    assert_eq!(recorded.len(), 10);
    assert_eq!(recorded[9].messages[0].content, "9");
}
