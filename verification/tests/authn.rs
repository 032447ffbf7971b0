use framecast::authn::{
    authenticate_key_rows, header_text, jwt_settings, loaded_memberships, loaded_user, validate_jwt_token,
    assemble_context, auth_method_for, authenticate_api_key, authenticate_stored_key, extract_api_key, extract_bearer_token, matching_key_index,
    needs_memberships, require_api_key, require_creator, stored_key_from_record, stored_key_lookup, user_id_from_claims,
    ApiKeyRecord, AuthApiKey, AuthConfig,
    AuthContext, AuthError, AuthIdentity, AuthMembership, AuthMethod, AuthRole, AuthTier, SupabaseClaims,
};
use framecast::settings::EnvVars;
use framecast::urn::Urn;
use sha2::{Digest, Sha256};

fn new_id() -> u128 {
    uuid::Uuid::new_v4().as_u128()
}

fn id_text(id: u128) -> String {
    uuid::Uuid::from_u128(id).to_string()
}

fn now() -> i64 {
    chrono::Utc::now().timestamp_micros()
}

fn create_test_identity(tier: AuthTier) -> AuthIdentity {
    AuthIdentity {
        id: new_id(),
        email: "test@example.com".to_string(),
        name: Some("Test User".to_string()),
        avatar_url: None,
        tier,
        created_at: now(),
        updated_at: now(),
    }
}

fn create_test_membership(team_id: u128, role: AuthRole) -> AuthMembership {
    AuthMembership { team_id, team_name: "Test Team".to_string(), team_slug: "test-team".to_string(), role }
}

fn create_test_api_key(user_id: u128, scopes: Vec<String>) -> AuthApiKey {
    AuthApiKey {
        id: new_id(),
        user_id,
        owner: Urn::user(user_id).to_string(),
        name: "test-key".to_string(),
        key_prefix: "fc_test".to_string(),
        scopes,
        last_used_at: None,
        expires_at: None,
        revoked_at: None,
        created_at: now(),
    }
}

// ----- the context -----

#[test]
fn context_test_auth_context_creator_check() {
    let creator_ctx = AuthContext::new(create_test_identity(AuthTier::Creator), vec![], None);
    let starter_ctx = AuthContext::new(create_test_identity(AuthTier::Starter), vec![], None);

    assert!(creator_ctx.is_creator());
    assert!(!creator_ctx.is_starter());

    assert!(!starter_ctx.is_creator());
    assert!(starter_ctx.is_starter());
}

#[test]
fn context_test_urn_access_control() {
    let user = create_test_identity(AuthTier::Creator);
    let user_id = user.id;
    let team_id = new_id();

    let memberships = vec![create_test_membership(team_id, AuthRole::Owner)];
    let ctx = AuthContext::new(user, memberships, None);

    assert!(ctx.can_access_urn(&Urn::user(user_id)));
    assert!(ctx.can_access_urn(&Urn::team(team_id)));
    assert!(ctx.can_access_urn(&Urn::team_user(team_id, user_id)));
    assert!(!ctx.can_access_urn(&Urn::user(new_id())));
}

#[test]
fn context_test_team_user_urn_requires_both_user_and_team() {
    let user = create_test_identity(AuthTier::Creator);
    let user_id = user.id;
    let team_id = new_id();
    let other_team_id = new_id();
    let other_user_id = new_id();

    let ctx = AuthContext::new(user, vec![create_test_membership(team_id, AuthRole::Owner)], None);

    assert!(ctx.can_access_urn(&Urn::team_user(team_id, user_id)));
    assert!(!ctx.can_access_urn(&Urn::team_user(other_team_id, user_id)));
    assert!(!ctx.can_access_urn(&Urn::team_user(team_id, other_user_id)));
}

#[test]
fn context_test_has_scope_returns_false_when_scope_missing() {
    let user = create_test_identity(AuthTier::Creator);
    let user_id = user.id;
    let api_key = create_test_api_key(user_id, vec!["generations:read".to_string()]);

    let ctx = AuthContext::new(user, vec![], Some(api_key));

    assert!(ctx.has_scope("generations:read"));
    assert!(!ctx.has_scope("generations:write"));
    assert!(!ctx.has_scope("team:admin"));
}

#[test]
fn context_test_has_scope_wildcard_allows_all() {
    let user = create_test_identity(AuthTier::Creator);
    let user_id = user.id;
    let api_key = create_test_api_key(user_id, vec!["*".to_string()]);

    let ctx = AuthContext::new(user, vec![], Some(api_key));

    assert!(ctx.has_scope("generations:write"));
    assert!(ctx.has_scope("team:admin"));
    assert!(ctx.has_scope("anything"));
}

#[test]
fn test_accessible_owner_urns_includes_user_and_teams() {
    let user = create_test_identity(AuthTier::Creator);
    let user_id = user.id;
    let team_a = new_id();
    let team_b = new_id();

    let ctx = AuthContext::new(
        user,
        vec![create_test_membership(team_a, AuthRole::Owner), create_test_membership(team_b, AuthRole::Member)],
        None,
    );

    let urns = ctx.accessible_owner_urns();
    assert_eq!(urns.len(), 3);
    assert_eq!(urns[0], format!("framecast:user:{}", id_text(user_id)));
    assert_eq!(urns[1], format!("framecast:team:{}", id_text(team_a)));
    assert_eq!(urns[2], format!("framecast:team:{}", id_text(team_b)));
    for u in &urns {
        assert!(ctx.can_access_urn(&Urn::new(u).unwrap()));
    }
}

#[test]
fn test_accessible_owner_urns_no_teams() {
    let user = create_test_identity(AuthTier::Starter);
    let user_id = user.id;

    let ctx = AuthContext::new(user, vec![], None);

    let urns = ctx.accessible_owner_urns();
    assert_eq!(urns.len(), 1);
    assert_eq!(urns[0], format!("framecast:user:{}", id_text(user_id)));
}

#[test]
fn context_test_has_scope_no_api_key_allows_all() {
    let ctx = AuthContext::new(create_test_identity(AuthTier::Creator), vec![], None);

    assert!(ctx.has_scope("generations:write"));
    assert!(ctx.has_scope("team:admin"));
}

#[test]
fn test_team_role_is_the_first_membership_of_the_team() {
    let team = new_id();
    let ctx = AuthContext::new(
        create_test_identity(AuthTier::Creator),
        vec![create_test_membership(team, AuthRole::Viewer), create_test_membership(team, AuthRole::Owner)],
        None,
    );
    assert_eq!(ctx.get_team_role(team), Some(AuthRole::Viewer));
    assert_eq!(ctx.get_team_role(new_id()), None);
    assert!(!ctx.can_access_urn(&Urn::system("sfx", "whoosh")));
}

#[test]
fn test_auth_roles_and_tiers() {
    assert!(AuthRole::Owner.can_admin());
    assert!(AuthRole::Admin.can_admin());
    assert!(!AuthRole::Member.can_admin());
    assert!(!AuthRole::Viewer.can_admin());
    assert!(AuthRole::Owner.is_owner());
    assert!(!AuthRole::Admin.is_owner());
    assert_eq!(AuthTier::Starter.to_string(), "starter");
    assert_eq!(AuthTier::Creator.to_string(), "creator");
}

// ----- errors -----

#[test]
fn test_auth_error_status_codes() {
    let cases: Vec<(AuthError, u16)> = vec![
        (AuthError::MissingAuthorization, 401),
        (AuthError::InvalidAuthorizationFormat, 401),
        (AuthError::InvalidToken, 401),
        (AuthError::InvalidApiKey, 401),
        (AuthError::UserNotFound, 401),
        (AuthError::UserLoadError, 500),
        (AuthError::MembershipsLoadError, 500),
        (AuthError::AuthenticationFailed, 500),
        (AuthError::InvalidUserId, 401),
        (AuthError::InsufficientTier, 403),
    ];

    for (error, expected_status) in cases {
        assert_eq!(error.status_code(), expected_status);
    }
}

#[test]
fn test_auth_error_codes_and_messages() {
    assert_eq!(AuthError::MissingAuthorization.error_code(), "MISSING_AUTHORIZATION");
    assert_eq!(AuthError::MissingAuthorization.message(), "Authorization header required");
    assert_eq!(AuthError::InvalidUserId.error_code(), "INVALID_TOKEN");
    assert_eq!(AuthError::InvalidUserId.message(), "Invalid user ID in token");
    assert_eq!(AuthError::AuthenticationFailed.error_code(), "AUTH_ERROR");
    assert_eq!(AuthError::InsufficientTier.message(), "Only creator tier users can access team operations");
}

// ----- credentials in the header -----

#[test]
fn jwt_test_extract_bearer_token() {
    let result = extract_bearer_token("Bearer abc123");
    assert!(result.is_ok());
    assert_eq!(result.unwrap(), "abc123");

    let result = extract_bearer_token("abc123");
    assert!(result.is_err());

    let result = extract_bearer_token("Basic abc123");
    assert!(result.is_err());
}

#[test]
fn jwt_test_extract_api_key() {
    let result = extract_api_key("Bearer sk_live_abc123");
    assert!(result.is_ok());
    assert_eq!(result.unwrap(), "sk_live_abc123");

    let result = extract_api_key("sk_live_abc123");
    assert!(result.is_ok());
    assert_eq!(result.unwrap(), "sk_live_abc123");

    let result = extract_api_key("invalid_key");
    assert!(result.is_err());
}

#[test]
fn auth_test_extract_bearer_token() {
    let result = extract_bearer_token("Bearer abc123");
    assert!(result.is_ok());
    assert_eq!(result.unwrap(), "abc123");

    let result = extract_bearer_token("abc123");
    assert!(result.is_err());

    let result = extract_bearer_token("Basic abc123");
    assert!(result.is_err());
}

#[test]
fn auth_test_extract_api_key() {
    let result = extract_api_key("Bearer sk_live_abc123");
    assert!(result.is_ok());
    assert_eq!(result.unwrap(), "sk_live_abc123");

    let result = extract_api_key("sk_live_abc123");
    assert!(result.is_ok());
    assert_eq!(result.unwrap(), "sk_live_abc123");

    let result = extract_api_key("invalid_key");
    assert!(result.is_err());
}

#[test]
fn test_extraction_errors_and_method_choice() {
    assert_eq!(extract_bearer_token("Bearer").unwrap_err(), AuthError::InvalidAuthorizationFormat);
    assert_eq!(extract_bearer_token("Bearer ").unwrap(), "");
    assert_eq!(extract_api_key("Bearer invalid").unwrap_err(), AuthError::InvalidApiKey);
    assert_eq!(auth_method_for("Bearer sk_live_x"), AuthMethod::ApiKey);
    assert_eq!(auth_method_for("sk_live_x"), AuthMethod::ApiKey);
    assert_eq!(auth_method_for("Bearer eyJhbGciOi"), AuthMethod::Jwt);
    assert_eq!(auth_method_for("Basic sk_live_x"), AuthMethod::Jwt);
    for h in ["Bearer sk_live_x", "sk_live_x", "Bearer eyJ", "Basic sk_live_x", ""] {
        assert_eq!(auth_method_for(h) == AuthMethod::ApiKey, extract_api_key(h).is_ok());
    }
}

// ----- API keys -----

fn hashed(key: &str, salt: &[u8]) -> String {
    let mut hasher = Sha256::new();
    hasher.update(key.as_bytes());
    hasher.update(salt);
    format!("{}:{}", hex::encode(salt), hex::encode(hasher.finalize()))
}

fn record(key_hash: String, scopes_json: &str) -> ApiKeyRecord {
    ApiKeyRecord {
        id: new_id(),
        user_id: new_id(),
        owner: "framecast:user:x".to_string(),
        name: "key".to_string(),
        key_prefix: "sk_live_".to_string(),
        key_hash,
        scopes_json: scopes_json.to_string(),
        last_used_at: None,
        expires_at: None,
        revoked_at: None,
        created_at: 7,
    }
}

#[test]
fn test_authenticate_api_key_picks_the_first_matching_row() {
    let key = "sk_live_secret";
    let rows = vec![
        record(hashed("sk_live_other", b"s1"), "[]"),
        record(hashed(key, b"s2"), r#"["jobs:read","*"]"#),
        record(hashed(key, b"s3"), "[]"),
    ];
    assert_eq!(matching_key_index(key, &rows), Some(1));
    let expected_id = rows[1].id;
    let k = authenticate_api_key(key, rows).unwrap();
    assert_eq!(k.id, expected_id);
    assert_eq!(k.scopes, vec!["jobs:read".to_string(), "*".to_string()]);
    assert_eq!(k.created_at, 7);
}

#[test]
fn test_authenticate_api_key_refusals() {
    let rows = vec![record(hashed("plain_key", b"s"), "[]")];
    assert!(authenticate_api_key("plain_key", rows).is_none());
    let rows = vec![record(hashed("sk_live_a", b"s"), "[]")];
    assert!(authenticate_api_key("sk_live_b", rows).is_none());
    let rows = vec![record(hashed("sk_live_a", b"s"), "not json")];
    assert_eq!(authenticate_api_key("sk_live_a", rows).unwrap().scopes, Vec::<String>::new());
}

// ----- assembling the context -----

#[test]
fn test_context_assembly_decisions() {
    let claims = SupabaseClaims {
        sub: "123e4567-e89b-12d3-a456-426614174000".to_string(),
        email: None,
        iat: 0,
        exp: 1,
        aud: "authenticated".to_string(),
        role: "authenticated".to_string(),
    };
    assert_eq!(
        user_id_from_claims(&claims).unwrap(),
        uuid::Uuid::parse_str("123e4567-e89b-12d3-a456-426614174000").unwrap().as_u128()
    );
    let bad = SupabaseClaims { sub: "not-a-uuid".to_string(), ..claims };
    assert_eq!(user_id_from_claims(&bad).unwrap_err(), AuthError::InvalidUserId);

    assert_eq!(assemble_context(None, vec![], None).unwrap_err(), AuthError::UserNotFound);
    let starter = create_test_identity(AuthTier::Starter);
    assert!(!needs_memberships(&starter));
    let ctx = assemble_context(Some(starter), vec![create_test_membership(1, AuthRole::Owner)], None).unwrap();
    assert!(ctx.memberships.is_empty());
    let creator = create_test_identity(AuthTier::Creator);
    assert!(needs_memberships(&creator));
    let ctx = assemble_context(Some(creator), vec![create_test_membership(1, AuthRole::Owner)], None).unwrap();
    assert_eq!(ctx.memberships.len(), 1);
    assert!(require_creator(ctx).is_ok());
    let starter_ctx = AuthContext::new(create_test_identity(AuthTier::Starter), vec![], None);
    assert_eq!(require_creator(starter_ctx).unwrap_err(), AuthError::InsufficientTier);
    assert_eq!(require_api_key(None).unwrap_err(), AuthError::InvalidApiKey);
}

#[test]
fn test_auth_config_requires_a_secret() {
    let env = EnvVars { vars: vec![("JWT_ISSUER".to_string(), "https://issuer".to_string())] };
    assert_eq!(AuthConfig::from_vars(&env).unwrap_err(), "JWT_SECRET environment variable is required");
    let env = EnvVars {
        vars: vec![("JWT_SECRET".to_string(), "s3".to_string()), ("JWT_ISSUER".to_string(), "https://issuer".to_string())],
    };
    let config = AuthConfig::from_vars(&env).unwrap();
    assert_eq!(config.jwt_secret, "s3");
    assert_eq!(config.issuer, Some("https://issuer".to_string()));
    assert_eq!(config.audience, None);
}

#[test]
fn test_stored_key_lookup_refuses_bad_scopes() {
    let key = "sk_live_secret";
    let rows = vec![record(hashed("sk_live_other", b"s1"), r#"["a"]"#), record(hashed(key, b"s2"), r#"["jobs:read"]"#)];
    let found = authenticate_stored_key(key, &rows).unwrap().unwrap();
    assert_eq!(found.id, rows[1].id);
    assert_eq!(found.key_hash, rows[1].key_hash);
    assert_eq!(found.scopes, vec!["jobs:read".to_string()]);
    assert!(found.verify_key(key));

    assert!(authenticate_stored_key("plain", &rows).unwrap().is_none());
    assert!(authenticate_stored_key("sk_live_nobody", &rows).unwrap().is_none());

    let bad = vec![record(hashed("sk_live_x", b"s"), "{not json"), record(hashed(key, b"s2"), "[]")];
    match authenticate_stored_key(key, &bad) {
        Err(e) => assert!(e.to_string().starts_with("Invalid data: Invalid scopes JSON: ")),
        Ok(_) => panic!("Expected invalid data"),
    }
}

#[test]
fn test_header_bytes_readable_as_text() {
    assert!(framecast::authn::header_is_text(b"Bearer abc\t123"));
    assert!(!framecast::authn::header_is_text(b"Bearer \xc3\xa9"));
    assert!(!framecast::authn::header_is_text(b"Bearer \x7f"));
    assert!(framecast::authn::header_is_text(b""));
}

#[test]
fn test_stored_key_lookup_by_id() {
    assert!(stored_key_lookup(None).unwrap().is_none());

    let row = record("00".repeat(48), r#"["generate","assets:read"]"#);
    let key = stored_key_lookup(Some(&row)).unwrap().unwrap();
    assert_eq!(key.id, row.id);
    assert_eq!(key.user_id, row.user_id);
    assert_eq!(key.owner, row.owner);
    assert_eq!(key.key_hash, row.key_hash);
    assert_eq!(key.scopes, vec!["generate".to_string(), "assets:read".to_string()]);
    assert_eq!(key.created_at, row.created_at);

    let bad = record("00".repeat(48), r#"{"scopes": 1}"#);
    match stored_key_lookup(Some(&bad)) {
        Err(e) => assert!(e.to_string().starts_with("Invalid data: Invalid scopes JSON: ")),
        Ok(_) => panic!("Expected invalid data"),
    }
    assert!(stored_key_from_record(&bad).is_err());
    assert!(stored_key_from_record(&row).is_ok());
}

fn claims_value(sub: &str, iat: i64, exp: i64) -> serde_json::Value {
    let mut m = serde_json::Map::new();
    m.insert("sub".to_string(), serde_json::Value::String(sub.to_string()));
    m.insert("email".to_string(), serde_json::Value::String("test@test.com".to_string()));
    m.insert("aud".to_string(), serde_json::Value::String("authenticated".to_string()));
    m.insert("role".to_string(), serde_json::Value::String("authenticated".to_string()));
    m.insert("iat".to_string(), serde_json::Value::from(iat));
    m.insert("exp".to_string(), serde_json::Value::from(exp));
    serde_json::Value::Object(m)
}

fn sign(claims: &serde_json::Value, secret: &str) -> String {
    let header = jsonwebtoken::Header::new(jsonwebtoken::Algorithm::HS256);
    jsonwebtoken::encode(&header, claims, &jsonwebtoken::EncodingKey::from_secret(secret.as_bytes())).unwrap()
}

#[test]
fn auth_test_jwt_validation_config() {
    let config = AuthConfig {
        jwt_secret: "test_secret".to_string(),
        issuer: Some("https://example.com".to_string()),
        audience: Some("framecast".to_string()),
    };
    let result = validate_jwt_token("invalid_token", &config);
    assert!(result.is_err());
}

#[test]
fn jwt_test_jwt_validation_config() {
    let config = AuthConfig {
        jwt_secret: "test_secret".to_string(),
        issuer: Some("https://example.com".to_string()),
        audience: Some("framecast".to_string()),
    };
    let result = validate_jwt_token("invalid_token", &config);
    assert!(matches!(result, Err(AuthError::InvalidToken)));
}

#[test]
fn test_jwt_roundtrip_no_issuer_no_audience() {
    let config = AuthConfig { jwt_secret: "test-e2e-secret-key".to_string(), issuer: None, audience: None };
    let test_user_id = uuid::Uuid::new_v4().to_string();
    let now = chrono::Utc::now().timestamp();
    let claims = claims_value(&test_user_id, now, now + 3600);
    let token = sign(&claims, &config.jwt_secret);

    let result = validate_jwt_token(&token, &config);
    assert!(result.is_ok(), "JWT validation failed: {:?}", result.err());
    let decoded = result.unwrap();
    assert_eq!(decoded["sub"], serde_json::Value::String(test_user_id));
    assert_eq!(decoded["email"], serde_json::Value::String("test@test.com".to_string()));
    assert_eq!(decoded["aud"], serde_json::Value::String("authenticated".to_string()));
    assert_eq!(decoded["role"], serde_json::Value::String("authenticated".to_string()));
}

#[test]
fn test_jwt_checks_secret_audience_issuer_and_expiry() {
    let now = chrono::Utc::now().timestamp();
    let claims = claims_value("u", now, now + 3600);
    let token = sign(&claims, "secret");
    let plain = AuthConfig { jwt_secret: "secret".to_string(), issuer: None, audience: None };
    assert!(validate_jwt_token(&token, &plain).is_ok());
    let wrong_secret = AuthConfig { jwt_secret: "other".to_string(), ..plain.clone() };
    assert_eq!(validate_jwt_token(&token, &wrong_secret).unwrap_err(), AuthError::InvalidToken);
    let wrong_audience = AuthConfig { audience: Some("framecast".to_string()), ..plain.clone() };
    assert_eq!(validate_jwt_token(&token, &wrong_audience).unwrap_err(), AuthError::InvalidToken);
    let right_audience = AuthConfig { audience: Some("authenticated".to_string()), ..plain.clone() };
    assert!(validate_jwt_token(&token, &right_audience).is_ok());
    let issuer = AuthConfig { issuer: Some("https://example.com".to_string()), ..plain.clone() };
    let mut other_issuer = claims.clone();
    other_issuer["iss"] = serde_json::Value::String("https://other.example".to_string());
    assert_eq!(validate_jwt_token(&sign(&other_issuer, "secret"), &issuer).unwrap_err(), AuthError::InvalidToken);
    let mut same_issuer = claims.clone();
    same_issuer["iss"] = serde_json::Value::String("https://example.com".to_string());
    assert!(validate_jwt_token(&sign(&same_issuer, "secret"), &issuer).is_ok());
    let expired = sign(&claims_value("u", now - 7200, now - 3600), "secret");
    assert_eq!(validate_jwt_token(&expired, &plain).unwrap_err(), AuthError::InvalidToken);
}

#[test]
fn test_header_text_outcomes() {
    assert_eq!(header_text(None), Err(AuthError::MissingAuthorization));
    assert_eq!(header_text(Some(b"Bearer abc\x01")), Err(AuthError::InvalidAuthorizationFormat));
    assert_eq!(header_text(Some("Bearer \u{e9}".as_bytes())), Err(AuthError::InvalidAuthorizationFormat));
    assert_eq!(header_text(Some(b"Bearer\tsk_live_x")), Ok("Bearer\tsk_live_x".to_string()));
    assert_eq!(header_text(Some(b"")), Ok(String::new()));
}

#[test]
fn test_lookup_steps_map_failures() {
    assert_eq!(authenticate_key_rows("sk_live_x", Err(())).unwrap_err(), AuthError::AuthenticationFailed);
    assert_eq!(authenticate_key_rows("pk_test_x", Err(())).unwrap_err(), AuthError::InvalidApiKey);
    assert_eq!(authenticate_key_rows("sk_live_x", Ok(Vec::new())).unwrap_err(), AuthError::InvalidApiKey);
    let key = "sk_live_lookup";
    let rows = vec![record(hashed(key, b"salt"), r#"["generate"]"#)];
    let found = authenticate_key_rows(key, Ok(rows.clone())).unwrap();
    assert_eq!(found.id, rows[0].id);
    assert_eq!(found.scopes, vec!["generate".to_string()]);

    assert_eq!(loaded_user(Err(())).unwrap_err(), AuthError::UserLoadError);
    assert_eq!(loaded_user(Ok(None)).unwrap_err(), AuthError::UserNotFound);
    let user = create_test_identity(AuthTier::Creator);
    assert_eq!(loaded_user(Ok(Some(user.clone()))).unwrap().id, user.id);

    assert_eq!(loaded_memberships(Err(())).unwrap_err(), AuthError::MembershipsLoadError);
    assert!(loaded_memberships(Ok(Vec::new())).unwrap().is_empty());
}

#[test]
fn test_jwt_settings_follow_the_config() {
    let with_all = AuthConfig {
        jwt_secret: "s".to_string(),
        issuer: Some("https://issuer".to_string()),
        audience: Some("framecast".to_string()),
    };
    let s = jwt_settings(&with_all);
    assert_eq!(s.secret, "s");
    assert!(s.validate_aud);
    assert_eq!(s.audience.as_deref(), Some("framecast"));
    assert_eq!(s.issuer.as_deref(), Some("https://issuer"));
    let bare = AuthConfig { jwt_secret: "t".to_string(), issuer: None, audience: None };
    let s = jwt_settings(&bare);
    assert!(!s.validate_aud);
    assert!(s.audience.is_none() && s.issuer.is_none());
}
