use framecast::crypto::verify_key_hash;
use framecast::error::{Error, RepositoryError};
use framecast::extract::{invalid_body, malformed_body, Pagination};
use framecast::settings::{cors_origins, parse_u16, Config, EnvVars};
use framecast::text::trim;
use framecast::urn::{Urn, UrnComponents};
use sha2::{Digest, Sha256};

fn new_id() -> u128 {
    uuid::Uuid::new_v4().as_u128()
}

fn id_text(id: u128) -> String {
    uuid::Uuid::from_u128(id).to_string()
}

fn env(pairs: &[(&str, &str)]) -> EnvVars {
    EnvVars { vars: pairs.iter().map(|(k, v)| (k.to_string(), v.to_string())).collect() }
}

// ----- pagination -----

#[test]
fn test_pagination_defaults() {
    let p = Pagination { offset: None, limit: None };
    assert_eq!(p.offset(), 0);
    assert_eq!(p.limit(), 50);
}

#[test]
fn test_pagination_custom_values() {
    let p = Pagination { offset: Some(20), limit: Some(10) };
    assert_eq!(p.offset(), 20);
    assert_eq!(p.limit(), 10);
}

#[test]
fn test_pagination_limit_clamped_to_max() {
    let p = Pagination { offset: None, limit: Some(500) };
    assert_eq!(p.limit(), 100);
}

#[test]
fn test_pagination_limit_clamped_to_min() {
    let p = Pagination { offset: None, limit: Some(0) };
    assert_eq!(p.limit(), 1);
}

#[test]
fn test_pagination_negative_offset_clamped() {
    let p = Pagination { offset: Some(-5), limit: None };
    assert_eq!(p.offset(), 0);
}

#[test]
fn test_pagination_negative_limit_clamped() {
    let p = Pagination { offset: None, limit: Some(-10) };
    assert_eq!(p.limit(), 1);
}

#[test]
fn test_pagination_extreme_values_stay_in_bounds() {
    let p = Pagination { offset: Some(i64::MIN), limit: Some(i64::MAX) };
    assert_eq!(p.offset(), 0);
    assert_eq!(p.limit(), 100);
    let p = Pagination { offset: Some(i64::MAX), limit: Some(i64::MIN) };
    assert_eq!(p.offset(), i64::MAX);
    assert_eq!(p.limit(), 1);
    let p = Pagination { offset: Some(0), limit: Some(100) };
    assert_eq!(p.limit(), 100);
}

// ----- JSON bodies -----

#[test]
fn test_malformed_and_invalid_bodies_are_validation_errors() {
    let e = malformed_body("expected value at line 1 column 1");
    assert_eq!(e.status_code(), 400);
    assert_eq!(e.to_string(), "Validation error: expected value at line 1 column 1");
    let e = invalid_body("name: length");
    assert_eq!(e.status_code(), 400);
    assert_eq!(e.error_code(), "VALIDATION_ERROR");
    assert_eq!(e.to_string(), "Validation error: Validation failed: name: length");
}

// ----- URNs -----

#[test]
fn test_user_urn() {
    let user_id = new_id();
    let urn = Urn::user(user_id);

    assert_eq!(urn.as_str(), format!("framecast:user:{}", id_text(user_id)));
    assert!(urn.is_user());
    assert!(!urn.is_team());

    match urn.parse().unwrap() {
        UrnComponents::User { user_id: parsed_id } => assert_eq!(parsed_id, user_id),
        _ => panic!("Expected User component"),
    }
}

#[test]
fn test_team_urn() {
    let team_id = new_id();
    let urn = Urn::team(team_id);

    assert_eq!(urn.as_str(), format!("framecast:team:{}", id_text(team_id)));
    assert!(urn.is_team());
    assert!(!urn.is_user());

    match urn.parse().unwrap() {
        UrnComponents::Team { team_id: parsed_id } => assert_eq!(parsed_id, team_id),
        _ => panic!("Expected Team component"),
    }
}

#[test]
fn test_team_user_urn() {
    let team_id = new_id();
    let user_id = new_id();
    let urn = Urn::team_user(team_id, user_id);

    assert_eq!(urn.as_str(), format!("framecast:{}:{}", id_text(team_id), id_text(user_id)));
    assert!(urn.is_team_user());

    match urn.parse().unwrap() {
        UrnComponents::TeamUser { team_id: parsed_team, user_id: parsed_user } => {
            assert_eq!(parsed_team, team_id);
            assert_eq!(parsed_user, user_id);
        }
        _ => panic!("Expected TeamUser component"),
    }
}

#[test]
fn test_system_urn() {
    let urn = Urn::system("sfx", "whoosh");

    assert_eq!(urn.as_str(), "framecast:system:sfx:whoosh");
    assert!(urn.is_system());

    match urn.parse().unwrap() {
        UrnComponents::System { category, name } => {
            assert_eq!(category, "sfx");
            assert_eq!(name, "whoosh");
        }
        _ => panic!("Expected System component"),
    }
}

#[test]
fn test_invalid_urn() {
    assert!(Urn::new("invalid:urn").is_err());
    assert!(Urn::new("framecast:invalid").is_err());
    assert!(Urn::new("framecast:user:not-a-uuid").is_err());
}

#[test]
fn test_team_user_urn_edge_cases() {
    let team_id = new_id();
    let user_id = new_id();

    let urn = Urn::team_user(team_id, user_id);
    assert!(urn.is_team_user());
    assert!(!urn.is_user());
    assert!(!urn.is_team());
    assert!(!urn.is_system());

    match urn.parse().unwrap() {
        UrnComponents::TeamUser { team_id: parsed_team, user_id: parsed_user } => {
            assert_eq!(parsed_team, team_id);
            assert_eq!(parsed_user, user_id);
        }
        _ => panic!("Expected TeamUser component"),
    }

    let expected = format!("framecast:{}:{}", id_text(team_id), id_text(user_id));
    assert_eq!(urn.as_str(), expected);
}

#[test]
fn test_system_urn_categories() {
    let test_cases = [
        ("sfx", "whoosh"),
        ("music", "ambient-forest"),
        ("textures", "concrete-wall"),
        ("models", "character-base"),
        ("templates", "corporate-intro"),
    ];

    for (category, name) in test_cases {
        let urn = Urn::system(category, name);
        assert!(urn.is_system());
        assert!(!urn.is_user());
        assert!(!urn.is_team());
        assert!(!urn.is_team_user());

        let expected = format!("framecast:system:{}:{}", category, name);
        assert_eq!(urn.as_str(), expected);

        match urn.parse().unwrap() {
            UrnComponents::System { category: parsed_category, name: parsed_name } => {
                assert_eq!(parsed_category, category);
                assert_eq!(parsed_name, name);
            }
            _ => panic!("Expected System component"),
        }
    }
}

#[test]
fn test_urn_malformed_cases() {
    let invalid_urns = [
        "",
        "framecast",
        "framecast:",
        "framecast::",
        "not-framecast:user:123",
        "framecast:user:",
        "framecast:team:",
        "framecast:user:invalid-uuid",
        "framecast:team:invalid-uuid",
        "framecast:unknown:123",
        "framecast:system",
        "framecast:system:category",
        "framecast:system::name",
        "framecast:system:category:",
        "framecast:user:valid-uuid:extra",
        "framecast:team:valid-uuid:extra:components",
    ];

    for invalid_urn in invalid_urns {
        assert!(Urn::new(invalid_urn).is_err(), "Expected URN to be invalid: '{}'", invalid_urn);
    }
}

#[test]
fn test_urn_from_str_trait() {
    let user_id = new_id();
    let urn_str = format!("framecast:user:{}", id_text(user_id));

    let urn = Urn::from_str(&urn_str).unwrap();
    assert_eq!(urn.as_str(), urn_str);
    assert!(urn.is_user());

    assert!(Urn::from_str("invalid:urn").is_err());
}

#[test]
fn test_urn_string_conversion() {
    let user_id = new_id();
    let urn = Urn::user(user_id);

    let urn_string: String = urn.clone().into_string();
    assert_eq!(urn_string, urn.as_str());

    let expected = format!("framecast:user:{}", id_text(user_id));
    assert_eq!(urn_string, expected);
}

#[test]
fn test_urn_display_formatting() {
    let team_id = new_id();
    let urn = Urn::team(team_id);

    let formatted = urn.to_string();
    let expected = format!("framecast:team:{}", id_text(team_id));
    assert_eq!(formatted, expected);

    let system_urn = Urn::system("assets", "logo-template");
    let formatted = system_urn.to_string();
    assert_eq!(formatted, "framecast:system:assets:logo-template");
}

#[test]
fn test_urn_boundary_conditions() {
    let min_user_id = uuid::Uuid::parse_str("00000000-0000-0000-0000-000000000001").unwrap().as_u128();
    let urn = Urn::user(min_user_id);
    assert!(urn.is_user());

    let long_category = "a".repeat(50);
    let long_name = "b".repeat(100);
    let system_urn = Urn::system(&long_category, &long_name);
    assert!(system_urn.is_system());

    match system_urn.parse().unwrap() {
        UrnComponents::System { category, name } => {
            assert_eq!(category, long_category);
            assert_eq!(name, long_name);
        }
        _ => panic!("Expected System component"),
    }
}

#[test]
fn test_urn_parse_gives_back_the_built_ids() {
    let id = uuid::Uuid::parse_str("123e4567-e89b-12d3-a456-426614174000").unwrap().as_u128();
    let urn = Urn::user(id);
    assert_eq!(urn.as_str(), "framecast:user:123e4567-e89b-12d3-a456-426614174000");
    assert_eq!(urn.parse().unwrap(), UrnComponents::User { user_id: id });
    let parsed = Urn::new("framecast:team:123e4567-e89b-12d3-a456-426614174000").unwrap();
    assert_eq!(parsed.parse().unwrap(), UrnComponents::Team { team_id: id });
    assert!(Urn::new("framecast:system:sfx:a:b").is_err());
}

// ----- key hashes -----

fn stored_hash(key: &str, salt: &[u8]) -> String {
    let mut hasher = Sha256::new();
    hasher.update(key.as_bytes());
    hasher.update(salt);
    let hash = hasher.finalize();
    format!("{}:{}", hex::encode(salt), hex::encode(hash))
}

#[test]
fn test_verify_key_hash_valid() {
    let key = "test_key";
    let stored = stored_hash(key, b"test_salt_value_");
    assert!(verify_key_hash(key, &stored));
}

#[test]
fn test_verify_key_hash_wrong_key() {
    let stored = stored_hash("test_key", b"test_salt_value_");
    assert!(!verify_key_hash("wrong_key", &stored));
}

#[test]
fn test_verify_key_hash_malformed_no_colon() {
    assert!(!verify_key_hash("key", "nocolonshere"));
}

#[test]
fn test_verify_key_hash_malformed_invalid_hex_salt() {
    assert!(!verify_key_hash("key", "zzzz:abcd"));
}

#[test]
fn test_verify_key_hash_malformed_invalid_hex_hash() {
    assert!(!verify_key_hash("key", "abcd:zzzz"));
}

#[test]
fn test_verify_key_hash_empty_key() {
    let key = "";
    let stored = stored_hash(key, b"salt");
    assert!(verify_key_hash(key, &stored));
    assert!(!verify_key_hash("notempty", &stored));
}

#[test]
fn test_verify_key_hash_rejects_extra_parts_and_short_hash() {
    let stored = stored_hash("k", b"salt");
    assert!(!verify_key_hash("k", &format!("{}:00", stored)));
    assert!(!verify_key_hash("k", "73616c74:abcd"));
    assert!(!verify_key_hash("k", ":"));
}

// ----- errors -----

#[test]
fn test_error_status_codes() {
    assert_eq!(Error::Authentication("test".to_string()).status_code(), 401);
    assert_eq!(Error::Authorization("test".to_string()).status_code(), 403);
    assert_eq!(Error::Validation("test".to_string()).status_code(), 400);
    assert_eq!(Error::NotFound("test".to_string()).status_code(), 404);
}

#[test]
fn test_error_conflict_status_code() {
    assert_eq!(Error::Conflict("test".to_string()).status_code(), 409);
}

#[test]
fn test_error_internal_status_code() {
    assert_eq!(Error::Internal("test".to_string()).status_code(), 500);
}

#[test]
fn test_error_rate_limit_status_code() {
    assert_eq!(Error::RateLimit("test".to_string()).status_code(), 429);
}

#[test]
fn test_error_codes() {
    assert_eq!(Error::Authentication("test".to_string()).error_code(), "AUTHENTICATION_ERROR");
    assert_eq!(Error::Validation("test".to_string()).error_code(), "VALIDATION_ERROR");
    assert_eq!(Error::Conflict("test".to_string()).error_code(), "CONFLICT");
    assert_eq!(Error::Internal("test".to_string()).error_code(), "INTERNAL_ERROR");
    assert_eq!(Error::RateLimit("test".to_string()).error_code(), "RATE_LIMIT_EXCEEDED");
}

#[test]
fn test_error_messages_and_lower_layer_errors() {
    assert_eq!(Error::NotFound("user".to_string()).to_string(), "Not found: user");
    assert_eq!(Error::Database("timeout".to_string()).status_code(), 500);
    assert_eq!(Error::Database("timeout".to_string()).error_code(), "DATABASE_ERROR");
    assert_eq!(Error::Serialization("eof".to_string()).error_code(), "SERIALIZATION_ERROR");
    assert_eq!(Error::Unexpected("boom".to_string()).to_string(), "Unexpected error: boom");
}

#[test]
fn test_repository_errors_map_to_common_errors() {
    let e = RepositoryError::NotFound.into_error();
    assert_eq!(e.status_code(), 404);
    assert_eq!(e.to_string(), "Not found: Record not found");
    let e = RepositoryError::AlreadyExists.into_error();
    assert_eq!(e.status_code(), 409);
    let e = RepositoryError::Connection("refused".to_string()).into_error();
    assert_eq!(e.error_code(), "DATABASE_ERROR");
    let e = RepositoryError::InvalidData("bad".to_string()).into_error();
    assert_eq!(e.status_code(), 400);
    assert_eq!(RepositoryError::InvalidData("bad".to_string()).to_string(), "Invalid data: bad");
    assert_eq!(RepositoryError::Connection("x".to_string()).to_string(), "Database connection error: x");
}

// ----- configuration -----

fn full_env() -> Vec<(&'static str, &'static str)> {
    vec![
        ("DATABASE_URL", "postgres://db"),
        ("SUPABASE_URL", "https://sb"),
        ("SUPABASE_ANON_KEY", "anon"),
        ("SUPABASE_SERVICE_ROLE_KEY", "service"),
        ("ANTHROPIC_API_KEY", "ak"),
        ("INNGEST_EVENT_KEY", "ek"),
        ("INNGEST_SIGNING_KEY", "sk"),
        ("RUNPOD_API_KEY", "rk"),
        ("RUNPOD_ENDPOINT_ID", "re"),
        ("S3_BUCKET_OUTPUTS", "out"),
        ("S3_BUCKET_ASSETS", "assets"),
    ]
}

#[test]
fn test_config_defaults_and_required_variables() {
    let config = Config::from_vars(&env(&full_env())).unwrap();
    assert_eq!(config.database_url, "postgres://db");
    assert_eq!(config.aws_region, "us-east-1");
    assert_eq!(config.log_level, "info");
    assert_eq!(config.rust_log, "framecast=debug");
    assert_eq!(config.port, 3000);

    let mut vars = full_env();
    vars.retain(|(k, _)| *k != "SUPABASE_URL");
    assert_eq!(Config::from_vars(&env(&vars)).unwrap_err(), "SUPABASE_URL is required");

    let mut vars = full_env();
    vars.push(("PORT", "8080"));
    assert_eq!(Config::from_vars(&env(&vars)).unwrap().port, 8080);
    let mut vars = full_env();
    vars.push(("PORT", "not-a-port"));
    assert_eq!(Config::from_vars(&env(&vars)).unwrap().port, 3000);
}

#[test]
fn test_port_parsing_matches_std() {
    for s in ["0", "80", "+80", "65535", "65536", "", "+", "-1", "08", "1a", " 80"] {
        assert_eq!(parse_u16(s), s.parse::<u16>().ok(), "input {:?}", s);
    }
}

#[test]
fn test_cors_origins_trim_and_skip_empty() {
    let origins = cors_origins(" https://a.example , ,https://b.example,");
    assert_eq!(origins, vec!["https://a.example".to_string(), "https://b.example".to_string()]);
    assert!(cors_origins("").is_empty());
}

#[test]
fn test_trim_matches_std() {
    for s in ["  a b  ", "\t\n x \u{3000}", "", "   ", "\u{85}y\u{a0}", "z"] {
        assert_eq!(trim(s), s.trim());
    }
}
